use api_clients::client::{Client, Method, Paging, Request};
use api_clients::garnishments::Garnishments;
use api_clients::team::Team;
use api_clients::user_factor::UserFactor;

const BASE: &str = "https://api.example.com";

fn client() -> Client {
    Client::new(BASE, "tok")
}

fn expect(method: Method, path: &str, body: Option<&str>, paging: Paging) -> Request {
    Request {
        method,
        url: format!("{}{}", BASE, path),
        authorization: "Bearer tok".to_string(),
        body: body.map(|text| text.as_bytes().to_vec()),
        paging,
    }
}

fn json(text: &str) -> Vec<u8> {
    text.as_bytes().to_vec()
}

#[test]
fn garnishments_of_an_employee() {
    let api = Garnishments::new(client());
    assert_eq!(
        api.get_employees_employee_id_garnishments("7757500908984137"),
        expect(Method::Get, "/v1/employees/7757500908984137/garnishments", None, Paging::Single)
    );
}

#[test]
fn all_garnishments_of_an_employee() {
    let api = Garnishments::new(client());
    assert_eq!(
        api.get_all_employees_employee_id_garnishments("7757500908984137"),
        expect(Method::Get, "/v1/employees/7757500908984137/garnishments", None, Paging::All)
    );
}

#[test]
fn garnishment_is_created_with_its_body() {
    let api = Garnishments::new(client());
    assert_eq!(
        api.post_employees_employee_id_garnishments("e 1", json("{\"amount\":\"8.00\"}")),
        expect(
            Method::Post,
            "/v1/employees/e%201/garnishments",
            Some("{\"amount\":\"8.00\"}"),
            Paging::Single
        )
    );
}

#[test]
fn one_garnishment() {
    let api = Garnishments::new(client());
    assert_eq!(
        api.get_garnishments_garnishment_id("42"),
        expect(Method::Get, "/v1/garnishments/42", None, Paging::Single)
    );
}

#[test]
fn garnishment_is_updated_with_its_body() {
    let api = Garnishments::new(client());
    assert_eq!(
        api.put_garnishments_garnishment_id("a/b", json("{\"active\":false}")),
        expect(Method::Put, "/v1/garnishments/a%2Fb", Some("{\"active\":false}"), Paging::Single)
    );
}

#[test]
fn garnishment_id_cannot_leave_its_segment() {
    let api = Garnishments::new(client());
    let req = api.get_garnishments_garnishment_id("../employees/1?x=y#z");
    assert_eq!(req.url, format!("{}/v1/garnishments/..%2Femployees%2F1%3Fx%3Dy%23z", BASE));
}

#[test]
fn user_factor_keeps_its_client() {
    let api = UserFactor::new(client());
    assert_eq!(api.client.base_url, BASE);
    assert_eq!(api.client.token, "tok");
}

#[test]
fn factors_of_a_user() {
    let api = UserFactor::new(client());
    assert_eq!(
        api.list_factors("00u1abc"),
        expect(Method::Get, "/api/v1/users/00u1abc/factors", None, Paging::Single)
    );
    assert_eq!(
        api.list_all_factors("00u1abc"),
        expect(Method::Get, "/api/v1/users/00u1abc/factors", None, Paging::All)
    );
}

#[test]
fn supported_factors_of_a_user() {
    let api = UserFactor::new(client());
    assert_eq!(
        api.list_supported_factors("00u1abc"),
        expect(Method::Get, "/api/v1/users/00u1abc/factors/catalog", None, Paging::Single)
    );
    assert_eq!(
        api.list_all_supported_factors("00u1abc"),
        expect(Method::Get, "/api/v1/users/00u1abc/factors/catalog", None, Paging::All)
    );
}

#[test]
fn security_questions_of_a_user() {
    let api = UserFactor::new(client());
    assert_eq!(
        api.list_supported_security_questions("me@example.com"),
        expect(
            Method::Get,
            "/api/v1/users/me%40example.com/factors/questions",
            None,
            Paging::Single
        )
    );
    assert_eq!(
        api.list_all_supported_security_questions("me@example.com"),
        expect(Method::Get, "/api/v1/users/me%40example.com/factors/questions", None, Paging::All)
    );
}

#[test]
fn enroll_factor_with_every_parameter() {
    let api = UserFactor::new(client());
    assert_eq!(
        api.enroll_factor("00u/1", true, "tmpl 1", 300, true, json("{\"factorType\":\"sms\"}")),
        expect(
            Method::Post,
            "/api/v1/users/00u%2F1/factors?activate=true&templateId=tmpl+1&tokenLifetimeSeconds=300&updatePhone=true",
            Some("{\"factorType\":\"sms\"}"),
            Paging::Single
        )
    );
}

#[test]
fn enroll_factor_without_optional_parameters() {
    let api = UserFactor::new(client());
    let req = api.enroll_factor("00u1", false, "", 0, false, json("{}"));
    assert_eq!(
        req,
        expect(Method::Post, "/api/v1/users/00u1/factors?", Some("{}"), Paging::Single)
    );
    assert!(!req.url.contains("activate"));
    assert!(!req.url.contains("templateId"));
    assert!(!req.url.contains("tokenLifetimeSeconds"));
    assert!(!req.url.contains("updatePhone"));
}

#[test]
fn enroll_factor_with_some_parameters() {
    let api = UserFactor::new(client());
    let req = api.enroll_factor("00u1", true, "", -5, false, json("{}"));
    assert_eq!(req.url, format!("{}/api/v1/users/00u1/factors?updatePhone=true", BASE));
    let req = api.enroll_factor("00u1", false, "t", 1, false, json("{}"));
    assert_eq!(
        req.url,
        format!("{}/api/v1/users/00u1/factors?templateId=t&tokenLifetimeSeconds=1", BASE)
    );
}

#[test]
fn one_factor() {
    let api = UserFactor::new(client());
    assert_eq!(
        api.get_factor("00u1", "ufs2"),
        expect(Method::Get, "/api/v1/users/00u1/factors/ufs2", None, Paging::Single)
    );
}

#[test]
fn factor_is_deleted() {
    let api = UserFactor::new(client());
    assert_eq!(
        api.delete_factor("00u1", "ufs 2"),
        expect(Method::Delete, "/api/v1/users/00u1/factors/ufs%202", None, Paging::Single)
    );
}

#[test]
fn factor_is_activated() {
    let api = UserFactor::new(client());
    assert_eq!(
        api.activate_factor("00u1", "ufs2", json("{\"passCode\":\"123456\"}")),
        expect(
            Method::Post,
            "/api/v1/users/00u1/factors/ufs2/lifecycle/activate",
            Some("{\"passCode\":\"123456\"}"),
            Paging::Single
        )
    );
}

#[test]
fn status_of_a_factor_transaction() {
    let api = UserFactor::new(client());
    assert_eq!(
        api.get_factor_transaction_status("00u1", "ufs2", "tx#9"),
        expect(
            Method::Get,
            "/api/v1/users/00u1/factors/ufs2/transactions/tx%239",
            None,
            Paging::Single
        )
    );
}

#[test]
fn verify_factor_with_every_parameter() {
    let api = UserFactor::new(client());
    assert_eq!(
        api.verify_factor(
            "00u1",
            "ufs2",
            "cstk2",
            86400,
            "10.0.0.1",
            "agent/1.0",
            "en",
            json("{\"passCode\":\"1\"}")
        ),
        expect(
            Method::Post,
            "/api/v1/users/00u1/factors/ufs2/verify?templateId=cstk2&tokenLifetimeSeconds=86400",
            Some("{\"passCode\":\"1\"}"),
            Paging::Single
        )
    );
}

#[test]
fn verify_factor_without_optional_parameters() {
    let api = UserFactor::new(client());
    let req = api.verify_factor("00u1", "ufs2", "", 0, "", "", "", json("{}"));
    assert_eq!(
        req,
        expect(Method::Post, "/api/v1/users/00u1/factors/ufs2/verify?", Some("{}"), Paging::Single)
    );
    assert!(!req.url.contains("templateId"));
    assert!(!req.url.contains("tokenLifetimeSeconds"));
}

#[test]
fn team_keeps_its_client() {
    let api = Team::new(client());
    assert_eq!(api.client.base_url, BASE);
    assert_eq!(api.client.token, "tok");
}

#[test]
fn access_log_with_every_parameter() {
    let api = Team::new(client());
    assert_eq!(
        api.access_log("1457989166", "100", "2"),
        expect(
            Method::Get,
            "/team.accessLogs?before=1457989166&count=100&page=2",
            None,
            Paging::Single
        )
    );
}

#[test]
fn access_log_omits_what_is_empty() {
    let api = Team::new(client());
    let req = api.access_log("", "", "");
    assert_eq!(req, expect(Method::Get, "/team.accessLogs?", None, Paging::Single));
    let req = api.access_log("now", "", "3");
    assert_eq!(req.url, format!("{}/team.accessLogs?before=now&page=3", BASE));
    assert!(!req.url.contains("count"));
}

#[test]
fn billable_info_of_one_user_or_all() {
    let api = Team::new(client());
    assert_eq!(
        api.billable_info("W1234567890"),
        expect(Method::Get, "/team.billableInfo?user=W1234567890", None, Paging::Single)
    );
    assert_eq!(
        api.billable_info(""),
        expect(Method::Get, "/team.billableInfo?", None, Paging::Single)
    );
}

#[test]
fn info_of_one_team_or_the_current() {
    let api = Team::new(client());
    assert_eq!(
        api.info("T1234567890"),
        expect(Method::Get, "/team.info?team=T1234567890", None, Paging::Single)
    );
    assert_eq!(api.info(""), expect(Method::Get, "/team.info?", None, Paging::Single));
}

#[test]
fn integration_log_with_every_parameter() {
    let api = Team::new(client());
    assert_eq!(
        api.integration_log("A1", "added", "20", "2", "S1", "U1"),
        expect(
            Method::Get,
            "/team.integrationLogs?app_id=A1&change_type=added&count=20&page=2&service_id=S1&user=U1",
            None,
            Paging::Single
        )
    );
}

#[test]
fn integration_log_omits_what_is_empty() {
    let api = Team::new(client());
    let req = api.integration_log("", "", "", "", "", "");
    assert_eq!(req, expect(Method::Get, "/team.integrationLogs?", None, Paging::Single));
    let req = api.integration_log("", "removed", "", "", "", "U 1&2");
    assert_eq!(
        req.url,
        format!("{}/team.integrationLogs?change_type=removed&user=U+1%262", BASE)
    );
    assert!(!req.url.contains("app_id"));
    assert!(!req.url.contains("count"));
    assert!(!req.url.contains("page"));
    assert!(!req.url.contains("service_id"));
}

#[test]
fn serialized_body_is_carried_unchanged() {
    let mut profile = serde_json::Map::new();
    profile.insert("phoneNumber".to_string(), serde_json::Value::from("+1 555 0100"));
    profile.insert("attempts".to_string(), serde_json::Value::from(3_i64));
    profile.insert("verified".to_string(), serde_json::Value::from(false));
    let mut factor = serde_json::Map::new();
    factor.insert("factorType".to_string(), serde_json::Value::from("sms"));
    factor.insert("profile".to_string(), serde_json::Value::Object(profile));
    factor.insert("links".to_string(), serde_json::Value::Array(vec![serde_json::Value::Null]));
    let value = serde_json::Value::Object(factor);

    let bytes = serde_json::to_vec(&value).unwrap();
    let api = UserFactor::new(client());
    let req = api.enroll_factor("00u1", false, "", 0, false, bytes.clone());
    let sent = req.body.expect("an enrolment has a body");
    assert_eq!(sent, bytes);
    let back: serde_json::Value = serde_json::from_slice(&sent).unwrap();
    assert_eq!(back, value);
}
