//! The client: a token, a base URL, and the request of every operation.

use vstd::prelude::*;
use vstd::string::StringExecFns;
use crate::query::{
    lemma_empty_query_sends_nothing, query_text, range_pairs, DateQuery, DatetimeQuery, Query,
    QueryKind, RangeView,
};
use crate::resource::Resource;

verus! {

/// The base URL of the production API.
pub const API_BASE_URL: &'static str = "https://api.ouraring.com/v2/usercollection";

/// One HTTP GET, described by plain values: where it goes and the value of
/// its `Authorization` header.
#[derive(Clone, Debug, PartialEq, Eq)]
pub struct Request {
    /// The URL, with its query string where there is one.
    pub url: String,
    /// The value of the `Authorization` header.
    pub authorization: String,
}

/// What a [`Request`] holds.
pub struct RequestView {
    pub url: Seq<char>,
    pub authorization: Seq<char>,
}

impl View for Request {
    type V = RequestView;

    open spec fn view(&self) -> RequestView {
        RequestView { url: self.url@, authorization: self.authorization@ }
    }
}

impl Request {
    /// The method of the request: always `GET`.
    pub fn method(&self) -> (m: &'static str)
        ensures
            m@ == "GET"@,
    {
        "GET"
    }
}

/// A URL followed by its query string: `?` stands between them, and
/// nothing is added where the query string is empty.
pub open spec fn with_query(url: Seq<char>, query: Seq<char>) -> Seq<char> {
    if query.len() == 0 {
        url
    } else {
        url + seq!['?'] + query
    }
}

/// What an [`OuraClient`] holds.
pub struct ClientView {
    pub token: Seq<char>,
    pub base_url: Seq<char>,
}

impl ClientView {
    /// The value of the `Authorization` header: the bearer scheme and the
    /// token.
    pub open spec fn authorization(self) -> Seq<char> {
        "Bearer "@ + self.token
    }

    /// The URL of a resource: `{base_url}/{path}`.
    pub open spec fn resource_url(self, resource: Resource) -> Seq<char> {
        self.base_url + seq!['/'] + resource.spec_path()
    }

    /// The URL of one item of a resource: `{base_url}/{path}/{id}`.
    pub open spec fn item_url(self, resource: Resource, id: Seq<char>) -> Seq<char> {
        self.resource_url(resource) + seq!['/'] + id
    }

    /// The request that fetches a resource as a whole.
    pub open spec fn resource_request(self, resource: Resource) -> RequestView {
        RequestView { url: self.resource_url(resource), authorization: self.authorization() }
    }

    /// The request that fetches one item by its identifier.
    pub open spec fn item_request(self, resource: Resource, id: Seq<char>) -> RequestView {
        RequestView { url: self.item_url(resource, id), authorization: self.authorization() }
    }

    /// The request that lists a resource: the present fields of the query
    /// follow the URL of the resource as its query string.
    pub open spec fn list_request(
        self,
        resource: Resource,
        kind: QueryKind,
        query: RangeView,
    ) -> RequestView {
        RequestView {
            url: with_query(self.resource_url(resource), query_text(range_pairs(kind, query))),
            authorization: self.authorization(),
        }
    }
}

/// For a resource that offers both operations, fetching an item goes to
/// `{base_url}/{path}/{id}` and listing with an empty query goes to
/// `{base_url}/{path}`, with no query string.
pub proof fn lemma_get_and_list_targets(client: ClientView, resource: Resource, id: Seq<char>)
    requires
        resource.has_get(),
        resource.has_list(),
    ensures
        client.item_request(resource, id).url == client.base_url + seq!['/'] + resource.spec_path()
            + seq!['/'] + id,
        client.list_request(resource, resource.query_kind(), RangeView::empty()).url
            == client.base_url + seq!['/'] + resource.spec_path(),
{
    lemma_empty_query_sends_nothing(resource.query_kind(), RangeView::empty());
}

/// A list request has a query string exactly where the query has a field:
/// its URL is that of the resource, followed by `?` and the parameters
/// where there are any.
pub proof fn lemma_list_target(
    client: ClientView,
    resource: Resource,
    kind: QueryKind,
    query: RangeView,
)
    ensures
        query == RangeView::empty() ==> client.list_request(resource, kind, query).url
            == client.resource_url(resource),
        query != RangeView::empty() ==> client.list_request(resource, kind, query).url
            == client.resource_url(resource) + seq!['?'] + query_text(range_pairs(kind, query)),
{
    lemma_empty_query_sends_nothing(kind, query);
}

/// Every request carries `Bearer {token}` as its authorization, with the
/// token that the client was made with.
pub proof fn lemma_requests_carry_the_token(
    client: ClientView,
    resource: Resource,
    id: Seq<char>,
    kind: QueryKind,
    query: RangeView,
)
    ensures
        client.resource_request(resource).authorization == "Bearer "@ + client.token,
        client.item_request(resource, id).authorization == "Bearer "@ + client.token,
        client.list_request(resource, kind, query).authorization == "Bearer "@ + client.token,
{
}

/// The Oura API client.
///
/// It holds the access token and the base URL, and describes the request of
/// each operation; it keeps no other state.
#[derive(Clone, Copy, Debug)]
pub struct OuraClient<'a> {
    token: &'a str,
    base_url: &'a str,
}

impl<'a> View for OuraClient<'a> {
    type V = ClientView;

    closed spec fn view(&self) -> ClientView {
        ClientView { token: self.token@, base_url: self.base_url@ }
    }
}

impl<'a> OuraClient<'a> {
    /// Creates a new OuraClient from a personal access token.
    pub fn new(token: &'a str) -> (client: Self)
        ensures
            client@ == (ClientView { token: token@, base_url: API_BASE_URL@ }),
    {
        Self { token, base_url: API_BASE_URL }
    }

    /// Creates a new OuraClient from a personal access token and a base URL.
    ///
    /// *Note:* This is only useful for testing against a mock server.
    pub fn build_with_base_url(token: &'a str, base_url: &'a str) -> (client: Self)
        ensures
            client@ == (ClientView { token: token@, base_url: base_url@ }),
    {
        Self { token, base_url }
    }

    /// The access token.
    pub fn token(&self) -> (t: &'a str)
        ensures
            t@ == self@.token,
    {
        self.token
    }

    /// The base URL.
    pub fn base_url(&self) -> (u: &'a str)
        ensures
            u@ == self@.base_url,
    {
        self.base_url
    }

    fn authorization(&self) -> (value: String)
        ensures
            value@ == self@.authorization(),
    {
        let mut value = String::from_str("Bearer ");
        value.append(self.token);
        value
    }

    fn resource_url(&self, resource: Resource) -> (url: String)
        ensures
            url@ == self@.resource_url(resource),
    {
        let mut url = String::from_str(self.base_url);
        url.append("/");
        url.append(resource.path());
        proof {
            reveal_strlit("/");
            assert("/"@ == seq!['/']);
        }
        url
    }

    fn whole(&self, resource: Resource) -> (r: Request)
        ensures
            r@ == self@.resource_request(resource),
    {
        Request { url: self.resource_url(resource), authorization: self.authorization() }
    }

    fn item(&self, resource: Resource, id: &str) -> (r: Request)
        ensures
            r@ == self@.item_request(resource, id@),
    {
        let mut url = self.resource_url(resource);
        url.append("/");
        url.append(id);
        proof {
            reveal_strlit("/");
            assert("/"@ == seq!['/']);
        }
        Request { url, authorization: self.authorization() }
    }

    fn page(&self, resource: Resource, kind: Ghost<QueryKind>, range: Ghost<RangeView>, query: String) -> (r: Request)
        requires
            query@ == query_text(range_pairs(kind@, range@)),
        ensures
            r@ == self@.list_request(resource, kind@, range@),
    {
        let mut url = self.resource_url(resource);
        if !query.as_str().is_empty() {
            url.append("?");
            url.append(query.as_str());
            proof {
                reveal_strlit("?");
                assert("?"@ == seq!['?']);
            }
        }
        Request { url, authorization: self.authorization() }
    }

    /// The request for one item of `resource`, where the resource offers
    /// items by identifier.
    pub fn get_by_id(&self, resource: Resource, id: &str) -> (r: Option<Request>)
        ensures
            match r {
                Some(request) => resource.has_get() && request@ == self@.item_request(
                    resource,
                    id@,
                ),
                None => !resource.has_get(),
            },
    {
        if resource.has_get() {
            Some(self.item(resource, id))
        } else {
            None
        }
    }

    /// The request for `resource` as a whole, where the resource is a
    /// single document.
    pub fn get_singular(&self, resource: Resource) -> (r: Option<Request>)
        ensures
            match r {
                Some(request) => resource.is_singular() && request@ == self@.resource_request(
                    resource,
                ),
                None => !resource.is_singular(),
            },
    {
        if resource.is_singular() {
            Some(self.whole(resource))
        } else {
            None
        }
    }

    /// The request that lists `resource`, where the resource can be listed
    /// and takes this kind of query.
    pub fn list(&self, resource: Resource, query: &Query<'_>) -> (r: Option<Request>)
        ensures
            match r {
                Some(request) => resource.has_list() && resource.query_kind() == query.kind()
                    && request@ == self@.list_request(resource, query.kind(), query.range()),
                None => !(resource.has_list() && resource.query_kind() == query.kind()),
            },
    {
        if resource.has_list() && resource.query_kind() == query.kind() {
            Some(
                self.page(resource, Ghost(query.kind()), Ghost(query.range()), query.query_string()),
            )
        } else {
            None
        }
    }

    /// The request for a single daily activity item by id.
    pub fn get_daily_activity(&self, id: &str) -> (r: Request)
        ensures
            r@ == self@.item_request(Resource::DailyActivity, id@),
    {
        self.item(Resource::DailyActivity, id)
    }

    /// The request for a page of daily activity items based on the supplied query.
    pub fn list_daily_activity(&self, query: DateQuery<'_>) -> (r: Request)
        ensures
            r@ == self@.list_request(Resource::DailyActivity, QueryKind::Date, query@),
    {
        self.page(
            Resource::DailyActivity,
            Ghost(QueryKind::Date),
            Ghost(query@),
            query.query_string(),
        )
    }

    /// The request for a single daily readiness item by id.
    pub fn get_daily_readiness(&self, id: &str) -> (r: Request)
        ensures
            r@ == self@.item_request(Resource::DailyReadiness, id@),
    {
        self.item(Resource::DailyReadiness, id)
    }

    /// The request for a page of daily readiness items based on the supplied query.
    pub fn list_daily_readiness(&self, query: DateQuery<'_>) -> (r: Request)
        ensures
            r@ == self@.list_request(Resource::DailyReadiness, QueryKind::Date, query@),
    {
        self.page(
            Resource::DailyReadiness,
            Ghost(QueryKind::Date),
            Ghost(query@),
            query.query_string(),
        )
    }

    /// The request for a single daily sleep item by id.
    pub fn get_daily_sleep(&self, id: &str) -> (r: Request)
        ensures
            r@ == self@.item_request(Resource::DailySleep, id@),
    {
        self.item(Resource::DailySleep, id)
    }

    /// The request for a page of daily sleep items based on the supplied query.
    pub fn list_daily_sleep(&self, query: DateQuery<'_>) -> (r: Request)
        ensures
            r@ == self@.list_request(Resource::DailySleep, QueryKind::Date, query@),
    {
        self.page(
            Resource::DailySleep,
            Ghost(QueryKind::Date),
            Ghost(query@),
            query.query_string(),
        )
    }

    /// The request for a single daily SpO2 item by id.
    pub fn get_daily_spo2(&self, id: &str) -> (r: Request)
        ensures
            r@ == self@.item_request(Resource::DailySpO2, id@),
    {
        self.item(Resource::DailySpO2, id)
    }

    /// The request for a page of daily SpO2 items based on the supplied query.
    pub fn list_daily_spo2(&self, query: DateQuery<'_>) -> (r: Request)
        ensures
            r@ == self@.list_request(Resource::DailySpO2, QueryKind::Date, query@),
    {
        self.page(
            Resource::DailySpO2,
            Ghost(QueryKind::Date),
            Ghost(query@),
            query.query_string(),
        )
    }

    /// The request for a page of heart rate items based on the supplied query.
    pub fn list_heart_rate(&self, query: DatetimeQuery<'_>) -> (r: Request)
        ensures
            r@ == self@.list_request(Resource::HeartRate, QueryKind::Datetime, query@),
    {
        self.page(
            Resource::HeartRate,
            Ghost(QueryKind::Datetime),
            Ghost(query@),
            query.query_string(),
        )
    }

    /// The request for the personal information of the caller.
    pub fn get_personal_info(&self) -> (r: Request)
        ensures
            r@ == self@.resource_request(Resource::PersonalInfo),
    {
        self.whole(Resource::PersonalInfo)
    }

    /// The request for a single rest mode period item by id.
    pub fn get_rest_mode_period(&self, id: &str) -> (r: Request)
        ensures
            r@ == self@.item_request(Resource::RestModePeriod, id@),
    {
        self.item(Resource::RestModePeriod, id)
    }

    /// The request for a page of rest mode period items based on the supplied query.
    pub fn list_rest_mode_period(&self, query: DateQuery<'_>) -> (r: Request)
        ensures
            r@ == self@.list_request(Resource::RestModePeriod, QueryKind::Date, query@),
    {
        self.page(
            Resource::RestModePeriod,
            Ghost(QueryKind::Date),
            Ghost(query@),
            query.query_string(),
        )
    }

    /// The request for a single ring configuration item by id.
    pub fn get_ring_configuration(&self, id: &str) -> (r: Request)
        ensures
            r@ == self@.item_request(Resource::RingConfiguration, id@),
    {
        self.item(Resource::RingConfiguration, id)
    }

    /// The request for a page of ring configuration items based on the supplied query.
    pub fn list_ring_configuration(&self, query: DateQuery<'_>) -> (r: Request)
        ensures
            r@ == self@.list_request(Resource::RingConfiguration, QueryKind::Date, query@),
    {
        self.page(
            Resource::RingConfiguration,
            Ghost(QueryKind::Date),
            Ghost(query@),
            query.query_string(),
        )
    }

    /// The request for a single session item by id.
    pub fn get_session(&self, id: &str) -> (r: Request)
        ensures
            r@ == self@.item_request(Resource::Session, id@),
    {
        self.item(Resource::Session, id)
    }

    /// The request for a page of session items based on the supplied query.
    pub fn list_session(&self, query: DateQuery<'_>) -> (r: Request)
        ensures
            r@ == self@.list_request(Resource::Session, QueryKind::Date, query@),
    {
        self.page(
            Resource::Session,
            Ghost(QueryKind::Date),
            Ghost(query@),
            query.query_string(),
        )
    }

    /// The request for a single sleep item by id.
    pub fn get_sleep(&self, id: &str) -> (r: Request)
        ensures
            r@ == self@.item_request(Resource::Sleep, id@),
    {
        self.item(Resource::Sleep, id)
    }

    /// The request for a page of sleep items based on the supplied query.
    pub fn list_sleep(&self, query: DateQuery<'_>) -> (r: Request)
        ensures
            r@ == self@.list_request(Resource::Sleep, QueryKind::Date, query@),
    {
        self.page(
            Resource::Sleep,
            Ghost(QueryKind::Date),
            Ghost(query@),
            query.query_string(),
        )
    }

    /// The request for a single sleep time item by id.
    pub fn get_sleep_time(&self, id: &str) -> (r: Request)
        ensures
            r@ == self@.item_request(Resource::SleepTime, id@),
    {
        self.item(Resource::SleepTime, id)
    }

    /// The request for a page of sleep time items based on the supplied query.
    pub fn list_sleep_time(&self, query: DateQuery<'_>) -> (r: Request)
        ensures
            r@ == self@.list_request(Resource::SleepTime, QueryKind::Date, query@),
    {
        self.page(
            Resource::SleepTime,
            Ghost(QueryKind::Date),
            Ghost(query@),
            query.query_string(),
        )
    }

    /// The request for a single tag item by id.
    pub fn get_tag(&self, id: &str) -> (r: Request)
        ensures
            r@ == self@.item_request(Resource::Tag, id@),
    {
        self.item(Resource::Tag, id)
    }

    /// The request for a page of tag items based on the supplied query.
    pub fn list_tag(&self, query: DateQuery<'_>) -> (r: Request)
        ensures
            r@ == self@.list_request(Resource::Tag, QueryKind::Date, query@),
    {
        self.page(
            Resource::Tag,
            Ghost(QueryKind::Date),
            Ghost(query@),
            query.query_string(),
        )
    }

    /// The request for a single workout item by id.
    pub fn get_workout(&self, id: &str) -> (r: Request)
        ensures
            r@ == self@.item_request(Resource::Workout, id@),
    {
        self.item(Resource::Workout, id)
    }

    /// The request for a page of workout items based on the supplied query.
    pub fn list_workout(&self, query: DateQuery<'_>) -> (r: Request)
        ensures
            r@ == self@.list_request(Resource::Workout, QueryKind::Date, query@),
    {
        self.page(
            Resource::Workout,
            Ghost(QueryKind::Date),
            Ghost(query@),
            query.query_string(),
        )
    }

    /// The request for a single version 2 tag item by id.
    pub fn get_tag_v2(&self, id: &str) -> (r: Request)
        ensures
            r@ == self@.item_request(Resource::TagV2, id@),
    {
        self.item(Resource::TagV2, id)
    }

    /// The request for a page of version 2 tag items based on the supplied query.
    pub fn list_tag_v2(&self, query: DateQuery<'_>) -> (r: Request)
        ensures
            r@ == self@.list_request(Resource::TagV2, QueryKind::Date, query@),
    {
        self.page(
            Resource::TagV2,
            Ghost(QueryKind::Date),
            Ghost(query@),
            query.query_string(),
        )
    }
}

} // verus!
