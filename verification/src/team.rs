//! The Slack endpoints for a team's logs and details.

use vstd::prelude::*;
use vstd::string::*;
use crate::client::{Client, Method, Paging, Request};
use crate::query::{
    form_urlencoded, lemma_names_with_text, lemma_query_parses_back, query_has_name, with_text,
    Pair, QueryArgs,
};

verus! {

/// The team operations of one client.
pub struct Team {
    pub client: Client,
}

/// The query parameters of an access-log request, in the order in which they
/// are sent.
pub open spec fn access_log_query(before: Seq<char>, count: Seq<char>, page: Seq<char>) -> Seq<
    Pair,
> {
    with_text(
        with_text(with_text(Seq::empty(), "before"@, before), "count"@, count),
        "page"@,
        page,
    )
}

/// The query parameters of an integration-log request, in the order in which
/// they are sent.
pub open spec fn integration_log_query(
    app_id: Seq<char>,
    change_type: Seq<char>,
    count: Seq<char>,
    page: Seq<char>,
    service_id: Seq<char>,
    user: Seq<char>,
) -> Seq<Pair> {
    with_text(
        with_text(
            with_text(
                with_text(
                    with_text(with_text(Seq::empty(), "app_id"@, app_id), "change_type"@, change_type),
                    "count"@,
                    count,
                ),
                "page"@,
                page,
            ),
            "service_id"@,
            service_id,
        ),
        "user"@,
        user,
    )
}

impl Team {
    pub fn new(client: Client) -> (api: Self)
        ensures
            api.client == client,
    {
        Team { client }
    }

    fn get_with_query(&self, endpoint: &str, query_args: &QueryArgs) -> (req: Request)
        ensures
            req@ == self.client.planned(
                Method::Get,
                endpoint@ + form_urlencoded(query_args@),
                None,
                Paging::Single,
            ),
    {
        let url = endpoint.to_owned().concat(query_args.encode().as_str());
        self.client.get(url.as_str(), None)
    }

    /// `GET /team.accessLogs`: the access logs of the team. Each of `before`,
    /// `count` and `page` is sent unless empty.
    pub fn access_log(&self, before: &str, count: &str, page: &str) -> (req: Request)
        ensures
            req@ == self.client.planned(
                Method::Get,
                "/team.accessLogs?"@ + form_urlencoded(access_log_query(before@, count@, page@)),
                None,
                Paging::Single,
            ),
    {
        let mut query_args = QueryArgs::new();
        query_args.push_str("before", before);
        query_args.push_str("count", count);
        query_args.push_str("page", page);
        self.get_with_query("/team.accessLogs?", &query_args)
    }

    /// `GET /team.billableInfo`: the billable users of the team, or of one
    /// `user` unless that is empty.
    pub fn billable_info(&self, user: &str) -> (req: Request)
        ensures
            req@ == self.client.planned(
                Method::Get,
                "/team.billableInfo?"@ + form_urlencoded(with_text(Seq::empty(), "user"@, user@)),
                None,
                Paging::Single,
            ),
    {
        let mut query_args = QueryArgs::new();
        query_args.push_str("user", user);
        self.get_with_query("/team.billableInfo?", &query_args)
    }

    /// `GET /team.info`: the details of the current team, or of `team` unless
    /// that is empty.
    pub fn info(&self, team: &str) -> (req: Request)
        ensures
            req@ == self.client.planned(
                Method::Get,
                "/team.info?"@ + form_urlencoded(with_text(Seq::empty(), "team"@, team@)),
                None,
                Paging::Single,
            ),
    {
        let mut query_args = QueryArgs::new();
        query_args.push_str("team", team);
        self.get_with_query("/team.info?", &query_args)
    }

    /// `GET /team.integrationLogs`: the integration logs of the team. Each of
    /// the six filters is sent unless empty.
    pub fn integration_log(
        &self,
        app_id: &str,
        change_type: &str,
        count: &str,
        page: &str,
        service_id: &str,
        user: &str,
    ) -> (req: Request)
        ensures
            req@ == self.client.planned(
                Method::Get,
                "/team.integrationLogs?"@ + form_urlencoded(
                    integration_log_query(app_id@, change_type@, count@, page@, service_id@, user@),
                ),
                None,
                Paging::Single,
            ),
    {
        let mut query_args = QueryArgs::new();
        query_args.push_str("app_id", app_id);
        query_args.push_str("change_type", change_type);
        query_args.push_str("count", count);
        query_args.push_str("page", page);
        query_args.push_str("service_id", service_id);
        query_args.push_str("user", user);
        self.get_with_query("/team.integrationLogs?", &query_args)
    }
}

/// The query string of an access-log request names each of `before`,
/// `count` and `page` if and only if the value given for it is not empty.
pub proof fn lemma_access_log_sends_what_is_set(
    before: Seq<char>,
    count: Seq<char>,
    page: Seq<char>,
)
    ensures
        ({
            let query = form_urlencoded(access_log_query(before, count, page));
            &&& query_has_name(query, "before"@) <==> before.len() > 0
            &&& query_has_name(query, "count"@) <==> count.len() > 0
            &&& query_has_name(query, "page"@) <==> page.len() > 0
        }),
{
    let none = Seq::<Pair>::empty();
    let first = with_text(none, "before"@, before);
    let second = with_text(first, "count"@, count);
    reveal_strlit("before");
    reveal_strlit("count");
    reveal_strlit("page");
    assert("before"@.len() == 6 && "count"@.len() == 5 && "page"@.len() == 4);
    lemma_names_with_text(none, "before"@, before);
    lemma_names_with_text(first, "count"@, count);
    lemma_names_with_text(second, "page"@, page);
    lemma_query_parses_back(access_log_query(before, count, page));
}

/// The query string of a billable-info request names `user` if and only if
/// a user is given.
pub proof fn lemma_billable_info_sends_what_is_set(user: Seq<char>)
    ensures
        query_has_name(form_urlencoded(with_text(Seq::empty(), "user"@, user)), "user"@)
            <==> user.len() > 0,
{
    let none = Seq::<Pair>::empty();
    lemma_names_with_text(none, "user"@, user);
    lemma_query_parses_back(with_text(none, "user"@, user));
}

/// The query string of an info request names `team` if and only if a team
/// is given.
pub proof fn lemma_info_sends_what_is_set(team: Seq<char>)
    ensures
        query_has_name(form_urlencoded(with_text(Seq::empty(), "team"@, team)), "team"@)
            <==> team.len() > 0,
{
    let none = Seq::<Pair>::empty();
    lemma_names_with_text(none, "team"@, team);
    lemma_query_parses_back(with_text(none, "team"@, team));
}

/// The query string of an integration-log request names each of the six
/// filters if and only if the value given for it is not empty.
pub proof fn lemma_integration_log_sends_what_is_set(
    app_id: Seq<char>,
    change_type: Seq<char>,
    count: Seq<char>,
    page: Seq<char>,
    service_id: Seq<char>,
    user: Seq<char>,
)
    ensures
        ({
            let query = form_urlencoded(
                integration_log_query(app_id, change_type, count, page, service_id, user),
            );
            &&& query_has_name(query, "app_id"@) <==> app_id.len() > 0
            &&& query_has_name(query, "change_type"@) <==> change_type.len() > 0
            &&& query_has_name(query, "count"@) <==> count.len() > 0
            &&& query_has_name(query, "page"@) <==> page.len() > 0
            &&& query_has_name(query, "service_id"@) <==> service_id.len() > 0
            &&& query_has_name(query, "user"@) <==> user.len() > 0
        }),
{
    let none = Seq::<Pair>::empty();
    let first = with_text(none, "app_id"@, app_id);
    let second = with_text(first, "change_type"@, change_type);
    let third = with_text(second, "count"@, count);
    let fourth = with_text(third, "page"@, page);
    let fifth = with_text(fourth, "service_id"@, service_id);
    reveal_strlit("app_id");
    reveal_strlit("change_type");
    reveal_strlit("count");
    reveal_strlit("page");
    reveal_strlit("service_id");
    reveal_strlit("user");
    assert("app_id"@.len() == 6 && "change_type"@.len() == 11 && "count"@.len() == 5);
    assert("page"@.len() == 4 && "service_id"@.len() == 10 && "user"@.len() == 4);
    assert("page"@[0] == 'p' && "user"@[0] == 'u');
    lemma_names_with_text(none, "app_id"@, app_id);
    lemma_names_with_text(first, "change_type"@, change_type);
    lemma_names_with_text(second, "count"@, count);
    lemma_names_with_text(third, "page"@, page);
    lemma_names_with_text(fourth, "service_id"@, service_id);
    lemma_names_with_text(fifth, "user"@, user);
    lemma_query_parses_back(
        integration_log_query(app_id, change_type, count, page, service_id, user),
    );
}

} // verus!
