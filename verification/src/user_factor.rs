//! The Okta endpoints for the factors of a user.

use vstd::prelude::*;
use vstd::string::*;
use crate::client::{Client, Method, Paging, Request};
use crate::encode::{encode_path, path_encoded};
use crate::query::{
    form_urlencoded, lemma_names_with_flag, lemma_names_with_number, lemma_names_with_text,
    lemma_query_parses_back, query_has_name, with_flag, with_number, with_text, Pair, QueryArgs,
};

verus! {

/// The factor operations of one client.
pub struct UserFactor {
    pub client: Client,
}

/// `/api/v1/users/{userId}/factors` and what follows it.
pub open spec fn factors_path(user_id: Seq<char>, rest: Seq<char>) -> Seq<char> {
    "/api/v1/users/"@ + path_encoded(user_id) + "/factors"@ + rest
}

/// `/api/v1/users/{userId}/factors/{factorId}` and what follows it.
pub open spec fn factor_path(user_id: Seq<char>, factor_id: Seq<char>, rest: Seq<char>) -> Seq<
    char,
> {
    "/api/v1/users/"@ + path_encoded(user_id) + "/factors/"@ + path_encoded(factor_id) + rest
}

/// The query parameters of an enrolment, in the order in which they are sent.
pub open spec fn enroll_factor_query(
    update_phone: bool,
    template_id: Seq<char>,
    token_lifetime_seconds: int,
    activate: bool,
) -> Seq<Pair> {
    with_flag(
        with_number(
            with_text(
                with_flag(Seq::empty(), "activate"@, activate),
                "templateId"@,
                template_id,
            ),
            "tokenLifetimeSeconds"@,
            token_lifetime_seconds,
        ),
        "updatePhone"@,
        update_phone,
    )
}

/// The query parameters of a verification, in the order in which they are
/// sent.
pub open spec fn verify_factor_query(template_id: Seq<char>, token_lifetime_seconds: int) -> Seq<
    Pair,
> {
    with_number(
        with_text(Seq::empty(), "templateId"@, template_id),
        "tokenLifetimeSeconds"@,
        token_lifetime_seconds,
    )
}

fn factors_url(user_id: &str, rest: &str) -> (url: String)
    ensures
        url@ == factors_path(user_id@, rest@),
{
    "/api/v1/users/".to_owned().concat(encode_path(user_id).as_str()).concat("/factors").concat(
        rest,
    )
}

fn factor_url(user_id: &str, factor_id: &str, rest: &str) -> (url: String)
    ensures
        url@ == factor_path(user_id@, factor_id@, rest@),
{
    "/api/v1/users/".to_owned().concat(encode_path(user_id).as_str()).concat("/factors/").concat(
        encode_path(factor_id).as_str(),
    ).concat(rest)
}

impl UserFactor {
    pub fn new(client: Client) -> (api: Self)
        ensures
            api.client == client,
    {
        UserFactor { client }
    }

    /// `GET /api/v1/users/{userId}/factors`: the first page of the factors
    /// that the user has enrolled.
    pub fn list_factors(&self, user_id: &str) -> (req: Request)
        ensures
            req@ == self.client.planned(
                Method::Get,
                factors_path(user_id@, ""@),
                None,
                Paging::Single,
            ),
    {
        let url = factors_url(user_id, "");
        self.client.get(url.as_str(), None)
    }

    /// `GET /api/v1/users/{userId}/factors`, for every page of the listing.
    pub fn list_all_factors(&self, user_id: &str) -> (req: Request)
        ensures
            req@ == self.client.planned(
                Method::Get,
                factors_path(user_id@, ""@),
                None,
                Paging::All,
            ),
    {
        let url = factors_url(user_id, "");
        self.client.get_all_pages(url.as_str(), None)
    }

    /// `POST /api/v1/users/{userId}/factors`: enrols the user with the factor
    /// that `body` holds in serialized form.
    ///
    /// `template_id` is sent unless empty, `token_lifetime_seconds` if
    /// positive, `activate` and `update_phone` if set.
    pub fn enroll_factor(
        &self,
        user_id: &str,
        update_phone: bool,
        template_id: &str,
        token_lifetime_seconds: i64,
        activate: bool,
        body: Vec<u8>,
    ) -> (req: Request)
        ensures
            req@ == self.client.planned(
                Method::Post,
                factors_path(
                    user_id@,
                    "?"@ + form_urlencoded(
                        enroll_factor_query(
                            update_phone,
                            template_id@,
                            token_lifetime_seconds as int,
                            activate,
                        ),
                    ),
                ),
                Some(body@),
                Paging::Single,
            ),
    {
        let mut query_args = QueryArgs::new();
        query_args.push_bool("activate", activate);
        query_args.push_str("templateId", template_id);
        query_args.push_i64("tokenLifetimeSeconds", token_lifetime_seconds);
        query_args.push_bool("updatePhone", update_phone);
        let query = "?".to_owned().concat(query_args.encode().as_str());
        let url = factors_url(user_id, query.as_str());
        self.client.post(url.as_str(), Some(body))
    }

    /// `GET /api/v1/users/{userId}/factors/catalog`: the first page of the
    /// factors that the user could enrol.
    pub fn list_supported_factors(&self, user_id: &str) -> (req: Request)
        ensures
            req@ == self.client.planned(
                Method::Get,
                factors_path(user_id@, "/catalog"@),
                None,
                Paging::Single,
            ),
    {
        let url = factors_url(user_id, "/catalog");
        self.client.get(url.as_str(), None)
    }

    /// `GET /api/v1/users/{userId}/factors/catalog`, for every page of the
    /// listing.
    pub fn list_all_supported_factors(&self, user_id: &str) -> (req: Request)
        ensures
            req@ == self.client.planned(
                Method::Get,
                factors_path(user_id@, "/catalog"@),
                None,
                Paging::All,
            ),
    {
        let url = factors_url(user_id, "/catalog");
        self.client.get_all_pages(url.as_str(), None)
    }

    /// `GET /api/v1/users/{userId}/factors/questions`: the first page of the
    /// security questions that the user can choose from.
    pub fn list_supported_security_questions(&self, user_id: &str) -> (req: Request)
        ensures
            req@ == self.client.planned(
                Method::Get,
                factors_path(user_id@, "/questions"@),
                None,
                Paging::Single,
            ),
    {
        let url = factors_url(user_id, "/questions");
        self.client.get(url.as_str(), None)
    }

    /// `GET /api/v1/users/{userId}/factors/questions`, for every page of the
    /// listing.
    pub fn list_all_supported_security_questions(&self, user_id: &str) -> (req: Request)
        ensures
            req@ == self.client.planned(
                Method::Get,
                factors_path(user_id@, "/questions"@),
                None,
                Paging::All,
            ),
    {
        let url = factors_url(user_id, "/questions");
        self.client.get_all_pages(url.as_str(), None)
    }

    /// `GET /api/v1/users/{userId}/factors/{factorId}`: one factor of the
    /// user.
    pub fn get_factor(&self, user_id: &str, factor_id: &str) -> (req: Request)
        ensures
            req@ == self.client.planned(
                Method::Get,
                factor_path(user_id@, factor_id@, ""@),
                None,
                Paging::Single,
            ),
    {
        let url = factor_url(user_id, factor_id, "");
        self.client.get(url.as_str(), None)
    }

    /// `DELETE /api/v1/users/{userId}/factors/{factorId}`: unenrols the
    /// factor.
    pub fn delete_factor(&self, user_id: &str, factor_id: &str) -> (req: Request)
        ensures
            req@ == self.client.planned(
                Method::Delete,
                factor_path(user_id@, factor_id@, ""@),
                None,
                Paging::Single,
            ),
    {
        let url = factor_url(user_id, factor_id, "");
        self.client.delete(url.as_str(), None)
    }

    /// `POST /api/v1/users/{userId}/factors/{factorId}/lifecycle/activate`:
    /// completes the enrolment of a factor, with the serialized activation
    /// request as body.
    pub fn activate_factor(&self, user_id: &str, factor_id: &str, body: Vec<u8>) -> (req: Request)
        ensures
            req@ == self.client.planned(
                Method::Post,
                factor_path(user_id@, factor_id@, "/lifecycle/activate"@),
                Some(body@),
                Paging::Single,
            ),
    {
        let url = factor_url(user_id, factor_id, "/lifecycle/activate");
        self.client.post(url.as_str(), Some(body))
    }

    /// `GET /api/v1/users/{userId}/factors/{factorId}/transactions/{transactionId}`:
    /// the status of a verification that is under way.
    pub fn get_factor_transaction_status(
        &self,
        user_id: &str,
        factor_id: &str,
        transaction_id: &str,
    ) -> (req: Request)
        ensures
            req@ == self.client.planned(
                Method::Get,
                factor_path(
                    user_id@,
                    factor_id@,
                    "/transactions/"@ + path_encoded(transaction_id@),
                ),
                None,
                Paging::Single,
            ),
    {
        let rest = "/transactions/".to_owned().concat(encode_path(transaction_id).as_str());
        let url = factor_url(user_id, factor_id, rest.as_str());
        self.client.get(url.as_str(), None)
    }

    /// `POST /api/v1/users/{userId}/factors/{factorId}/verify`: verifies a
    /// one-time password, with the serialized verification request as body.
    ///
    /// `template_id` is sent unless empty, and `token_lifetime_seconds` if
    /// positive. The three header values are not part of the URL and leave
    /// the request as it is.
    pub fn verify_factor(
        &self,
        user_id: &str,
        factor_id: &str,
        template_id: &str,
        token_lifetime_seconds: i64,
        x_forwarded_for: &str,
        user_agent: &str,
        accept_language: &str,
        body: Vec<u8>,
    ) -> (req: Request)
        ensures
            req@ == self.client.planned(
                Method::Post,
                factor_path(
                    user_id@,
                    factor_id@,
                    "/verify?"@ + form_urlencoded(
                        verify_factor_query(template_id@, token_lifetime_seconds as int),
                    ),
                ),
                Some(body@),
                Paging::Single,
            ),
    {
        let mut query_args = QueryArgs::new();
        query_args.push_str("templateId", template_id);
        query_args.push_i64("tokenLifetimeSeconds", token_lifetime_seconds);
        let rest = "/verify?".to_owned().concat(query_args.encode().as_str());
        let url = factor_url(user_id, factor_id, rest.as_str());
        self.client.post(url.as_str(), Some(body))
    }
}

/// The query string of an enrolment names `activate` and `updatePhone` if
/// and only if the flag is set, `templateId` if and only if a template is
/// given, and `tokenLifetimeSeconds` if and only if the lifetime is
/// positive.
pub proof fn lemma_enroll_factor_sends_what_is_set(
    update_phone: bool,
    template_id: Seq<char>,
    token_lifetime_seconds: int,
    activate: bool,
)
    ensures
        ({
            let query = form_urlencoded(
                enroll_factor_query(update_phone, template_id, token_lifetime_seconds, activate),
            );
            &&& query_has_name(query, "activate"@) <==> activate
            &&& query_has_name(query, "templateId"@) <==> template_id.len() > 0
            &&& query_has_name(query, "tokenLifetimeSeconds"@) <==> token_lifetime_seconds > 0
            &&& query_has_name(query, "updatePhone"@) <==> update_phone
        }),
{
    let none = Seq::<Pair>::empty();
    let first = with_flag(none, "activate"@, activate);
    let second = with_text(first, "templateId"@, template_id);
    let third = with_number(second, "tokenLifetimeSeconds"@, token_lifetime_seconds);
    reveal_strlit("activate");
    reveal_strlit("templateId");
    reveal_strlit("tokenLifetimeSeconds");
    reveal_strlit("updatePhone");
    assert("activate"@.len() == 8 && "templateId"@.len() == 10);
    assert("tokenLifetimeSeconds"@.len() == 20 && "updatePhone"@.len() == 11);
    lemma_names_with_flag(none, "activate"@, activate);
    lemma_names_with_text(first, "templateId"@, template_id);
    lemma_names_with_number(second, "tokenLifetimeSeconds"@, token_lifetime_seconds);
    lemma_names_with_flag(third, "updatePhone"@, update_phone);
    lemma_query_parses_back(
        enroll_factor_query(update_phone, template_id, token_lifetime_seconds, activate),
    );
}

/// The query string of a verification names `templateId` if and only if a
/// template is given, and `tokenLifetimeSeconds` if and only if the lifetime
/// is positive.
pub proof fn lemma_verify_factor_sends_what_is_set(
    template_id: Seq<char>,
    token_lifetime_seconds: int,
)
    ensures
        ({
            let query = form_urlencoded(verify_factor_query(template_id, token_lifetime_seconds));
            &&& query_has_name(query, "templateId"@) <==> template_id.len() > 0
            &&& query_has_name(query, "tokenLifetimeSeconds"@) <==> token_lifetime_seconds > 0
        }),
{
    let none = Seq::<Pair>::empty();
    let first = with_text(none, "templateId"@, template_id);
    reveal_strlit("templateId");
    reveal_strlit("tokenLifetimeSeconds");
    assert("templateId"@.len() == 10 && "tokenLifetimeSeconds"@.len() == 20);
    lemma_names_with_text(none, "templateId"@, template_id);
    lemma_names_with_number(first, "tokenLifetimeSeconds"@, token_lifetime_seconds);
    lemma_query_parses_back(verify_factor_query(template_id, token_lifetime_seconds));
}

} // verus!
