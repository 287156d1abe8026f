//! Query parameters of the list operations: a range of days or of instants,
//! and the cursor of the page to fetch.

use vstd::prelude::*;
use vstd::string::StringExecFns;
use vstd::utf8::encode_utf8;
use crate::encoding::{
    form_decoded, form_encode, form_encoded, is_encoded_char, lemma_decoding_recovers_text,
    lemma_encoded_is_safe, lemma_plain_text_unchanged,
};

verus! {

/// Which of the two range queries a resource takes.
#[derive(Clone, Copy, Debug, PartialEq, Eq, Structural)]
pub enum QueryKind {
    /// A range of calendar days, `YYYY-MM-DD`.
    Date,
    /// A range of ISO-8601 instants.
    Datetime,
}

impl QueryKind {
    /// The name of the parameter that carries the start of the range.
    pub open spec fn start_name(self) -> Seq<char> {
        match self {
            QueryKind::Date => "start_date"@,
            QueryKind::Datetime => "start_datetime"@,
        }
    }

    /// The name of the parameter that carries the end of the range.
    pub open spec fn end_name(self) -> Seq<char> {
        match self {
            QueryKind::Date => "end_date"@,
            QueryKind::Datetime => "end_datetime"@,
        }
    }
}

/// The name of the parameter that carries the pagination cursor.
pub open spec fn cursor_name() -> Seq<char> {
    "next_token"@
}

/// What a range query holds: each field is either absent or a text.
pub struct RangeView {
    pub start: Option<Seq<char>>,
    pub end: Option<Seq<char>>,
    pub next_token: Option<Seq<char>>,
}

impl RangeView {
    /// The query in which every field is absent.
    pub open spec fn empty() -> RangeView {
        RangeView { start: None, end: None, next_token: None }
    }
}

/// The text of an optional string slice.
pub open spec fn text_of(value: Option<&str>) -> Option<Seq<char>> {
    match value {
        Some(s) => Some(s@),
        None => None,
    }
}

/// A name paired with its value where the value is present, nothing where
/// it is absent.
pub open spec fn present(name: Seq<char>, value: Option<Seq<char>>) -> Seq<(Seq<char>, Seq<char>)> {
    match value {
        Some(v) => seq![(name, v)],
        None => Seq::empty(),
    }
}

/// The parameters that a range query sends: start, end and cursor in that
/// order, each only where it is present.
pub open spec fn range_pairs(kind: QueryKind, q: RangeView) -> Seq<(Seq<char>, Seq<char>)> {
    present(kind.start_name(), q.start) + present(kind.end_name(), q.end) + present(
        cursor_name(),
        q.next_token,
    )
}

/// One parameter on the wire: encoded name, `=`, encoded value.
pub open spec fn pair_text(pair: (Seq<char>, Seq<char>)) -> Seq<char> {
    form_encoded(pair.0) + seq!['='] + form_encoded(pair.1)
}

/// The query string of a list of parameters: their wire forms joined by `&`.
pub open spec fn query_text(pairs: Seq<(Seq<char>, Seq<char>)>) -> Seq<char>
    decreases pairs.len(),
{
    if pairs.len() == 0 {
        Seq::empty()
    } else if pairs.len() == 1 {
        pair_text(pairs[0])
    } else {
        query_text(pairs.drop_last()) + seq!['&'] + pair_text(pairs.last())
    }
}

/// The texts of a list of borrowed parameters.
pub open spec fn pairs_view(pairs: Seq<(&str, &str)>) -> Seq<(Seq<char>, Seq<char>)> {
    Seq::new(pairs.len(), |i: int| (pairs[i].0@, pairs[i].1@))
}

/// Renders parameters as a query string, without a leading `?`.
pub fn encode_pairs(pairs: &Vec<(&str, &str)>) -> (out: String)
    ensures
        out@ == query_text(pairs_view(pairs@)),
{
    let ghost all = pairs_view(pairs@);
    let mut out = String::new();
    let mut i: usize = 0;
    while i < pairs.len()
        invariant
            i <= pairs.len(),
            all == pairs_view(pairs@),
            out@ == query_text(all.take(i as int)),
        decreases pairs.len() - i,
    {
        let (name, value) = pairs[i];
        let encoded_name = form_encode(name);
        let encoded_value = form_encode(value);
        if i > 0 {
            out.append("&");
        }
        out.append(encoded_name.as_str());
        out.append("=");
        out.append(encoded_value.as_str());
        proof {
            reveal_strlit("&");
            reveal_strlit("=");
            let next = all.take(i as int + 1);
            assert(next.drop_last() == all.take(i as int));
            assert(next.last() == (name@, value@));
            assert("&"@ == seq!['&']);
            assert("="@ == seq!['=']);
        }
        i += 1;
    }
    proof {
        assert(all.take(pairs.len() as int) == all);
    }
    out
}

/// Whether a parameter of the given name is among those sent.
pub open spec fn sends(pairs: Seq<(Seq<char>, Seq<char>)>, name: Seq<char>) -> bool {
    exists|i: int| 0 <= i < pairs.len() && (#[trigger] pairs[i]).0 == name
}

/// The names of the parameters are plain texts, so they go on the wire as
/// they are.
pub proof fn lemma_names_are_plain(kind: QueryKind)
    ensures
        form_encoded(kind.start_name()) == kind.start_name(),
        form_encoded(kind.end_name()) == kind.end_name(),
        form_encoded(cursor_name()) == cursor_name(),
{
    reveal_strlit("start_date");
    reveal_strlit("start_datetime");
    reveal_strlit("end_date");
    reveal_strlit("end_datetime");
    reveal_strlit("next_token");
    lemma_plain_text_unchanged(kind.start_name());
    lemma_plain_text_unchanged(kind.end_name());
    lemma_plain_text_unchanged(cursor_name());
}

/// A query without fields sends no parameter and has an empty query string;
/// a query with a field has a query string that is not empty.
pub proof fn lemma_empty_query_sends_nothing(kind: QueryKind, q: RangeView)
    ensures
        range_pairs(kind, RangeView::empty()).len() == 0,
        query_text(range_pairs(kind, RangeView::empty())).len() == 0,
        q != RangeView::empty() ==> query_text(range_pairs(kind, q)).len() > 0,
{
    let pairs = range_pairs(kind, q);
    if q != RangeView::empty() {
        assert(pairs.len() > 0);
        if pairs.len() > 1 {
            assert(query_text(pairs) == query_text(pairs.drop_last()) + seq!['&'] + pair_text(
                pairs.last(),
            ));
        }
    }
}

/// A parameter is sent exactly where its field is present: an absent field
/// is left out, never sent as an empty value.
pub proof fn lemma_sent_iff_present(kind: QueryKind, q: RangeView)
    ensures
        sends(range_pairs(kind, q), kind.start_name()) <==> q.start is Some,
        sends(range_pairs(kind, q), kind.end_name()) <==> q.end is Some,
        sends(range_pairs(kind, q), cursor_name()) <==> q.next_token is Some,
        range_pairs(kind, q).len() == (if q.start is Some { 1int } else { 0 }) + (if q.end is Some {
            1int
        } else {
            0
        }) + (if q.next_token is Some { 1int } else { 0 }),
{
    reveal_strlit("start_date");
    reveal_strlit("start_datetime");
    reveal_strlit("end_date");
    reveal_strlit("end_datetime");
    reveal_strlit("next_token");
    let pairs = range_pairs(kind, q);
    let a = present(kind.start_name(), q.start);
    let b = present(kind.end_name(), q.end);
    let c = present(cursor_name(), q.next_token);
    assert(kind.start_name()[0] == 's');
    assert(kind.end_name()[0] == 'e');
    assert(cursor_name()[0] == 'n');
    assert forall|i: int| 0 <= i < pairs.len() implies (#[trigger] pairs[i]).0 == (if i < a.len() {
        kind.start_name()
    } else if i < a.len() + b.len() {
        kind.end_name()
    } else {
        cursor_name()
    }) by {}
    if q.start is Some {
        assert(pairs[0].0 == kind.start_name());
    }
    if q.end is Some {
        assert(pairs[a.len() as int].0 == kind.end_name());
    }
    if q.next_token is Some {
        assert(pairs[(a.len() + b.len()) as int].0 == cursor_name());
    }
}

/// With all three fields present the query string is
/// `{start}={s}&{end}={e}&next_token={c}`, the names as they are and each
/// value encoded.
pub proof fn lemma_full_query_text(kind: QueryKind, start: Seq<char>, end: Seq<char>, cursor: Seq<char>)
    ensures
        query_text(
            range_pairs(
                kind,
                RangeView { start: Some(start), end: Some(end), next_token: Some(cursor) },
            ),
        ) == kind.start_name() + seq!['='] + form_encoded(start) + seq!['&'] + kind.end_name()
            + seq!['='] + form_encoded(end) + seq!['&'] + cursor_name() + seq!['=']
            + form_encoded(cursor),
{
    lemma_names_are_plain(kind);
    let q = RangeView { start: Some(start), end: Some(end), next_token: Some(cursor) };
    let pairs = range_pairs(kind, q);
    assert(pairs =~= seq![
        (kind.start_name(), start),
        (kind.end_name(), end),
        (cursor_name(), cursor),
    ]);
    let two = pairs.drop_last();
    assert(two =~= seq![(kind.start_name(), start), (kind.end_name(), end)]);
    let one = two.drop_last();
    assert(one =~= seq![(kind.start_name(), start)]);
    assert(query_text(one) == pair_text(one[0]));
    assert(query_text(two) == query_text(one) + seq!['&'] + pair_text(two.last()));
    assert(query_text(pairs) == query_text(two) + seq!['&'] + pair_text(pairs.last()));
}

/// A cursor set in a query is the value of the last parameter sent, as it
/// was given; the query string ends with `next_token=` and its encoding.
pub proof fn lemma_cursor_is_sent(kind: QueryKind, q: RangeView, cursor: Seq<char>)
    requires
        q.next_token == Some(cursor),
    ensures
        range_pairs(kind, q).len() > 0,
        range_pairs(kind, q).last() == (cursor_name(), cursor),
        query_text(range_pairs(kind, q)) == (if q.start is None && q.end is None {
            Seq::<char>::empty()
        } else {
            query_text(range_pairs(kind, RangeView { next_token: None, ..q })) + seq!['&']
        }) + cursor_name() + seq!['='] + form_encoded(cursor),
{
    lemma_names_are_plain(kind);
    let pairs = range_pairs(kind, q);
    let before = range_pairs(kind, RangeView { next_token: None, ..q });
    assert(pairs =~= before + seq![(cursor_name(), cursor)]);
    assert(pairs.drop_last() =~= before);
    if q.start is None && q.end is None {
        assert(pairs.len() == 1);
        assert(Seq::<char>::empty() + cursor_name() == cursor_name());
    } else {
        assert(pairs.len() > 1);
    }
}

/// The position of the first `mark` in a text; the length of the text where
/// it holds none.
pub open spec fn first_position(text: Seq<char>, mark: char) -> nat
    decreases text.len(),
{
    if text.len() == 0 || text[0] == mark {
        0
    } else {
        1 + first_position(text.skip(1), mark)
    }
}

/// What a reader makes of one parameter on the wire: the name stands before
/// the first `=` and the value after it, both encoded.
pub open spec fn read_pair(piece: Seq<char>) -> (Seq<char>, Seq<char>) {
    let at = first_position(piece, '=') as int;
    if at < piece.len() {
        (form_decoded(piece.take(at)), form_decoded(piece.skip(at + 1)))
    } else {
        (form_decoded(piece), Seq::empty())
    }
}

/// What a reader makes of a query string: the pieces between `&` are its
/// parameters, in order; an empty piece is none.
pub open spec fn read_query(text: Seq<char>) -> Seq<(Seq<char>, Seq<char>)>
    decreases text.len(),
{
    if text.len() == 0 {
        Seq::empty()
    } else {
        let at = first_position(text, '&') as int;
        if at >= text.len() {
            seq![read_pair(text)]
        } else if at == 0 {
            read_query(text.skip(1))
        } else {
            seq![read_pair(text.take(at))] + read_query(text.skip(at + 1))
        }
    }
}

/// The first `mark` of a text stands where the text before it holds none.
proof fn lemma_first_position(before: Seq<char>, mark: char, after: Seq<char>)
    requires
        forall|i: int| 0 <= i < before.len() ==> before[i] != mark,
    ensures
        first_position(before, mark) == before.len(),
        first_position(before + seq![mark] + after, mark) == before.len(),
    decreases before.len(),
{
    let whole = before + seq![mark] + after;
    if before.len() == 0 {
        assert(whole[0] == mark);
    } else {
        let rest = before.skip(1);
        assert forall|i: int| 0 <= i < rest.len() implies rest[i] != mark by {
            assert(rest[i] == before[i + 1]);
        }
        lemma_first_position(rest, mark, after);
        assert(whole[0] == before[0]);
        assert(whole.skip(1) == rest + seq![mark] + after);
    }
}

/// An encoded text holds neither `&` nor `=`.
proof fn lemma_encoded_has_no_frame(text: Seq<char>)
    ensures
        forall|i: int|
            0 <= i < form_encoded(text).len() ==> form_encoded(text)[i] != '&' && form_encoded(
                text,
            )[i] != '=',
{
    lemma_encoded_is_safe(encode_utf8(text));
    assert forall|i: int| 0 <= i < form_encoded(text).len() implies form_encoded(text)[i] != '&'
        && form_encoded(text)[i] != '=' by {
        assert(is_encoded_char(form_encoded(text)[i]));
    }
}

/// A reader of one parameter on the wire recovers its name and its value.
proof fn lemma_reading_recovers_pair(pair: (Seq<char>, Seq<char>))
    ensures
        read_pair(pair_text(pair)) == pair,
        pair_text(pair).len() > 0,
        forall|i: int| 0 <= i < pair_text(pair).len() ==> pair_text(pair)[i] != '&',
{
    let name = form_encoded(pair.0);
    let value = form_encoded(pair.1);
    let piece = pair_text(pair);
    lemma_encoded_has_no_frame(pair.0);
    lemma_encoded_has_no_frame(pair.1);
    lemma_first_position(name, '=', value);
    assert(piece.take(name.len() as int) == name);
    assert(piece.skip(name.len() as int + 1) == value);
    lemma_decoding_recovers_text(pair.0);
    lemma_decoding_recovers_text(pair.1);
    assert forall|i: int| 0 <= i < piece.len() implies piece[i] != '&' by {
        if i < name.len() {
            assert(piece[i] == name[i]);
        } else if i == name.len() {
            assert(piece[i] == '=');
        } else {
            assert(piece[i] == value[i - name.len() - 1]);
        }
    }
}

/// The query string of a list of parameters, seen from its front: the first
/// parameter, then `&` and the others where there are any.
proof fn lemma_query_text_front(first: (Seq<char>, Seq<char>), rest: Seq<(Seq<char>, Seq<char>)>)
    ensures
        query_text(seq![first] + rest) == (if rest.len() == 0 {
            pair_text(first)
        } else {
            pair_text(first) + seq!['&'] + query_text(rest)
        }),
    decreases rest.len(),
{
    let all = seq![first] + rest;
    if rest.len() == 0 {
        assert(all[0] == first);
    } else {
        assert(all.drop_last() == seq![first] + rest.drop_last());
        assert(all.last() == rest.last());
        lemma_query_text_front(first, rest.drop_last());
        if rest.len() == 1 {
            assert(rest[0] == rest.last());
        }
    }
}

/// A reader of the query string recovers the parameters that were sent:
/// the same names and values, in the same order, and no others.
pub proof fn lemma_reading_recovers_parameters(pairs: Seq<(Seq<char>, Seq<char>)>)
    ensures
        read_query(query_text(pairs)) == pairs,
    decreases pairs.len(),
{
    if pairs.len() > 0 {
        let first = pairs[0];
        let rest = pairs.skip(1);
        let piece = pair_text(first);
        assert(pairs == seq![first] + rest);
        lemma_query_text_front(first, rest);
        lemma_reading_recovers_pair(first);
        let text = query_text(pairs);
        if rest.len() == 0 {
            lemma_first_position(piece, '&', Seq::empty());
        } else {
            let more = query_text(rest);
            lemma_first_position(piece, '&', more);
            assert(text.take(piece.len() as int) == piece);
            assert(text.skip(piece.len() as int + 1) == more);
            lemma_reading_recovers_parameters(rest);
        }
    }
}

/// The server that reads the query string of a range query finds exactly
/// the fields that are present, each under its name and with the value that
/// was given.
pub proof fn lemma_query_is_read_back(kind: QueryKind, q: RangeView)
    ensures
        read_query(query_text(range_pairs(kind, q))) == range_pairs(kind, q),
{
    lemma_reading_recovers_parameters(range_pairs(kind, q));
}

/// Query parameters for endpoints that accept a date range.
#[derive(Clone, Copy, Debug)]
pub struct DateQuery<'a> {
    start_date: Option<&'a str>,
    end_date: Option<&'a str>,
    next_token: Option<&'a str>,
}

/// Collects the fields of a [`DateQuery`].
#[derive(Clone, Copy, Debug)]
pub struct DateQueryBuilder<'a> {
    start_date: Option<&'a str>,
    end_date: Option<&'a str>,
    next_token: Option<&'a str>,
}

impl<'a> View for DateQuery<'a> {
    type V = RangeView;

    closed spec fn view(&self) -> RangeView {
        RangeView {
            start: text_of(self.start_date),
            end: text_of(self.end_date),
            next_token: text_of(self.next_token),
        }
    }
}

impl<'a> View for DateQueryBuilder<'a> {
    type V = RangeView;

    closed spec fn view(&self) -> RangeView {
        RangeView {
            start: text_of(self.start_date),
            end: text_of(self.end_date),
            next_token: text_of(self.next_token),
        }
    }
}

impl<'a> DateQuery<'a> {
    /// Starts a query in which every field is absent.
    pub fn builder() -> (b: DateQueryBuilder<'a>)
        ensures
            b@ == RangeView::empty(),
    {
        DateQueryBuilder { start_date: None, end_date: None, next_token: None }
    }

    /// The parameters to send, in the order start, end, cursor; an absent
    /// field gives none.
    pub fn pairs(&self) -> (out: Vec<(&'a str, &'a str)>)
        ensures
            pairs_view(out@) == range_pairs(QueryKind::Date, self@),
    {
        let mut out: Vec<(&'a str, &'a str)> = Vec::new();
        if let Some(value) = self.start_date {
            out.push(("start_date", value));
        }
        if let Some(value) = self.end_date {
            out.push(("end_date", value));
        }
        if let Some(value) = self.next_token {
            out.push(("next_token", value));
        }
        assert(pairs_view(out@) =~= range_pairs(QueryKind::Date, self@));
        out
    }

    /// The query string, without a leading `?`; empty where every field is
    /// absent.
    pub fn query_string(&self) -> (out: String)
        ensures
            out@ == query_text(range_pairs(QueryKind::Date, self@)),
    {
        let pairs = self.pairs();
        encode_pairs(&pairs)
    }
}

impl<'a> DateQueryBuilder<'a> {
    /// Sets the first day of the range, inclusive.
    pub fn start_date(self, value: &'a str) -> (b: DateQueryBuilder<'a>)
        ensures
            b@ == (RangeView { start: Some(value@), ..self@ }),
    {
        DateQueryBuilder { start_date: Some(value), ..self }
    }

    /// Sets the last day of the range, inclusive.
    pub fn end_date(self, value: &'a str) -> (b: DateQueryBuilder<'a>)
        ensures
            b@ == (RangeView { end: Some(value@), ..self@ }),
    {
        DateQueryBuilder { end_date: Some(value), ..self }
    }

    /// Sets the cursor that an earlier page returned.
    pub fn next_token(self, value: &'a str) -> (b: DateQueryBuilder<'a>)
        ensures
            b@ == (RangeView { next_token: Some(value@), ..self@ }),
    {
        DateQueryBuilder { next_token: Some(value), ..self }
    }

    /// Finishes the query with the fields set so far.
    pub fn build(self) -> (q: DateQuery<'a>)
        ensures
            q@ == self@,
    {
        DateQuery {
            start_date: self.start_date,
            end_date: self.end_date,
            next_token: self.next_token,
        }
    }
}

/// Query parameters for endpoints that accept a datetime range.
#[derive(Clone, Copy, Debug)]
pub struct DatetimeQuery<'a> {
    start_datetime: Option<&'a str>,
    end_datetime: Option<&'a str>,
    next_token: Option<&'a str>,
}

/// Collects the fields of a [`DatetimeQuery`].
#[derive(Clone, Copy, Debug)]
pub struct DatetimeQueryBuilder<'a> {
    start_datetime: Option<&'a str>,
    end_datetime: Option<&'a str>,
    next_token: Option<&'a str>,
}

impl<'a> View for DatetimeQuery<'a> {
    type V = RangeView;

    closed spec fn view(&self) -> RangeView {
        RangeView {
            start: text_of(self.start_datetime),
            end: text_of(self.end_datetime),
            next_token: text_of(self.next_token),
        }
    }
}

impl<'a> View for DatetimeQueryBuilder<'a> {
    type V = RangeView;

    closed spec fn view(&self) -> RangeView {
        RangeView {
            start: text_of(self.start_datetime),
            end: text_of(self.end_datetime),
            next_token: text_of(self.next_token),
        }
    }
}

impl<'a> DatetimeQuery<'a> {
    /// Starts a query in which every field is absent.
    pub fn builder() -> (b: DatetimeQueryBuilder<'a>)
        ensures
            b@ == RangeView::empty(),
    {
        DatetimeQueryBuilder { start_datetime: None, end_datetime: None, next_token: None }
    }

    /// The parameters to send, in the order start, end, cursor; an absent
    /// field gives none.
    pub fn pairs(&self) -> (out: Vec<(&'a str, &'a str)>)
        ensures
            pairs_view(out@) == range_pairs(QueryKind::Datetime, self@),
    {
        let mut out: Vec<(&'a str, &'a str)> = Vec::new();
        if let Some(value) = self.start_datetime {
            out.push(("start_datetime", value));
        }
        if let Some(value) = self.end_datetime {
            out.push(("end_datetime", value));
        }
        if let Some(value) = self.next_token {
            out.push(("next_token", value));
        }
        assert(pairs_view(out@) =~= range_pairs(QueryKind::Datetime, self@));
        out
    }

    /// The query string, without a leading `?`; empty where every field is
    /// absent.
    pub fn query_string(&self) -> (out: String)
        ensures
            out@ == query_text(range_pairs(QueryKind::Datetime, self@)),
    {
        let pairs = self.pairs();
        encode_pairs(&pairs)
    }
}

impl<'a> DatetimeQueryBuilder<'a> {
    /// Sets the first instant of the range, inclusive.
    pub fn start_datetime(self, value: &'a str) -> (b: DatetimeQueryBuilder<'a>)
        ensures
            b@ == (RangeView { start: Some(value@), ..self@ }),
    {
        DatetimeQueryBuilder { start_datetime: Some(value), ..self }
    }

    /// Sets the last instant of the range, inclusive.
    pub fn end_datetime(self, value: &'a str) -> (b: DatetimeQueryBuilder<'a>)
        ensures
            b@ == (RangeView { end: Some(value@), ..self@ }),
    {
        DatetimeQueryBuilder { end_datetime: Some(value), ..self }
    }

    /// Sets the cursor that an earlier page returned.
    pub fn next_token(self, value: &'a str) -> (b: DatetimeQueryBuilder<'a>)
        ensures
            b@ == (RangeView { next_token: Some(value@), ..self@ }),
    {
        DatetimeQueryBuilder { next_token: Some(value), ..self }
    }

    /// Finishes the query with the fields set so far.
    pub fn build(self) -> (q: DatetimeQuery<'a>)
        ensures
            q@ == self@,
    {
        DatetimeQuery {
            start_datetime: self.start_datetime,
            end_datetime: self.end_datetime,
            next_token: self.next_token,
        }
    }
}

/// Either of the two range queries.
#[derive(Clone, Copy, Debug)]
pub enum Query<'a> {
    /// A range of days.
    Date(DateQuery<'a>),
    /// A range of instants.
    Datetime(DatetimeQuery<'a>),
}

impl<'a> Query<'a> {
    /// Which of the two queries this is.
    pub open spec fn spec_kind(&self) -> QueryKind {
        match self {
            Query::Date(_) => QueryKind::Date,
            Query::Datetime(_) => QueryKind::Datetime,
        }
    }

    /// The fields of the query.
    pub open spec fn range(&self) -> RangeView {
        match self {
            Query::Date(q) => q@,
            Query::Datetime(q) => q@,
        }
    }

    /// Which of the two queries this is.
    #[verifier::when_used_as_spec(spec_kind)]
    pub fn kind(&self) -> (k: QueryKind)
        ensures
            k == self.spec_kind(),
    {
        match self {
            Query::Date(_) => QueryKind::Date,
            Query::Datetime(_) => QueryKind::Datetime,
        }
    }

    /// The query string, without a leading `?`; empty where every field is
    /// absent.
    pub fn query_string(&self) -> (out: String)
        ensures
            out@ == query_text(range_pairs(self.spec_kind(), self.range())),
    {
        match self {
            Query::Date(q) => q.query_string(),
            Query::Datetime(q) => q.query_string(),
        }
    }
}

} // verus!
