use jamfrs::args::{ComputerCommand, ComputerSubcommand, EntityType, Id};
use jamfrs::endpoints::{ApiEndpoints, HttpMethod};
use jamfrs::service::{accept_type, classify_response, needs_authentication, plan_sub_requests};
use jamfrs::session::Session;
use jamfrs::token::ApiToken;

fn show_range(start: u32, end: u32) -> EntityType {
    EntityType::Computer(ComputerCommand {
        subcommand: ComputerSubcommand::Show(Id { id: vec![], range: vec![start, end] }),
    })
}

fn session_with_token(token: Option<ApiToken>) -> Session {
    let mut session = Session::new(
        String::from("host"),
        None,
        String::from("user"),
        String::from("secret"),
        false,
    )
    .unwrap();
    session.api_token = token;
    session
}

#[test]
fn test_accept_type() {
    assert_eq!(accept_type(true), "application/json");
    assert_eq!(accept_type(false), "application/xml");
}

#[test]
fn test_classify_response_exact() {
    assert_eq!(classify_response(200, "/r", String::from("body")).unwrap(), "body");
    assert_eq!(classify_response(204, "/r", String::from("")).unwrap(), "");
    assert_eq!(
        classify_response(500, "/resource/id/9", String::from("ignored")).unwrap_err(),
        "500 for /resource/id/9"
    );
    assert_eq!(classify_response(199, "/r", String::new()).unwrap_err(), "199 for /r");
    assert_eq!(classify_response(300, "/r", String::new()).unwrap_err(), "300 for /r");
    assert_eq!(classify_response(404, "/x", String::new()).unwrap_err(), "404 for /x");
}

#[test]
fn test_plan_sub_requests_batch() {
    let details = ApiEndpoints::get_api_details(&show_range(5, 7)).unwrap();
    let batch = plan_sub_requests(String::from("https://host:8443"), details, false);
    assert_eq!(batch.len(), 3);
    for (k, sub) in batch.iter().enumerate() {
        assert_eq!(sub.method, HttpMethod::Get);
        assert_eq!(sub.accept, "application/xml");
        assert_eq!(
            sub.url,
            format!("https://host:8443/JSSResource/computers/id/{}", 5 + k)
        );
    }
}

#[test]
fn test_partial_failure_is_isolated() {
    // One failing sub-request in a batch leaves its siblings' outcomes
    // untouched: N outcomes, exactly one failure, naming the failed path.
    let details = ApiEndpoints::get_api_details(&show_range(1, 5)).unwrap();
    let batch = plan_sub_requests(String::from("https://host:8443"), details, false);
    assert_eq!(batch.len(), 5);

    let failing = 2;
    let mut outcomes = Vec::new();
    for (k, sub) in batch.iter().enumerate() {
        let status = if k == failing { 500 } else { 200 };
        outcomes.push(classify_response(status, &sub.url, format!("body-{k}")));
    }

    assert_eq!(outcomes.len(), 5);
    let failures: Vec<&String> = outcomes.iter().filter_map(|o| o.as_ref().err()).collect();
    assert_eq!(failures.len(), 1);
    assert_eq!(failures[0], "500 for https://host:8443/JSSResource/computers/id/3");
    let successes: Vec<&String> = outcomes.iter().filter_map(|o| o.as_ref().ok()).collect();
    assert_eq!(successes.len(), 4);
}

#[test]
fn test_expired_token_needs_authentication() {
    // A missing or expired token forces authentication before dispatch; a
    // live token lets the batch go out as it stands.
    let session = session_with_token(None);
    assert!(needs_authentication(&session, 100));

    let session = session_with_token(Some(ApiToken { token: String::from("t"), expires: 99 }));
    assert!(needs_authentication(&session, 100));
    assert!(!session.token_is_valid(100));

    let session = session_with_token(Some(ApiToken { token: String::from("t"), expires: 100 }));
    assert!(!needs_authentication(&session, 100));
    assert!(session.token_is_valid(100));
}

#[test]
fn test_create_auth_token_parses_response() {
    let mut session = session_with_token(None);
    session
        .create_auth_token(String::from("{\"token\":\"abc123\",\"expires\":1700000000}"))
        .unwrap();
    let token = session.api_token.as_ref().unwrap();
    assert_eq!(token.token, "abc123");
    assert_eq!(token.expires, 1700000000);
    assert!(session.token_is_valid(1700000000));
    assert!(!session.token_is_valid(1700000001));
}

#[test]
fn test_create_auth_token_rejects_malformed_payload() {
    let mut session = session_with_token(None);
    assert!(session.create_auth_token(String::from("not json")).is_err());
    assert!(session.api_token.is_none());
    assert!(session.create_auth_token(String::from("{\"token\":\"abc\"}")).is_err());
    assert!(session.api_token.is_none());
    assert!(session
        .create_auth_token(String::from("{\"token\":7,\"expires\":12}"))
        .is_err());
    assert!(session.api_token.is_none());
}

#[test]
fn test_end_to_end_range_batch() {
    // Range [5, 7], GET verb: three sub-requests in ascending identifier
    // order; however completions arrive, the drained outcomes hold all three
    // results with no duplicates and no omissions.
    let details = ApiEndpoints::get_api_details(&show_range(5, 7)).unwrap();
    assert_eq!(details.endpoint.method, HttpMethod::Get);
    let batch = plan_sub_requests(String::from("https://host:8443"), details, true);
    let urls: Vec<&String> = batch.iter().map(|s| &s.url).collect();
    assert_eq!(
        urls,
        vec![
            "https://host:8443/JSSResource/computers/id/5",
            "https://host:8443/JSSResource/computers/id/6",
            "https://host:8443/JSSResource/computers/id/7",
        ]
    );

    // Completions arrive out of generation order.
    let arrival = [1, 2, 0];
    let mut stream = Vec::new();
    for &k in &arrival {
        stream.push(classify_response(200, &batch[k].url, format!("record-{}", 5 + k)));
    }

    assert_eq!(stream.len(), 3);
    let mut bodies: Vec<String> = stream.into_iter().map(|o| o.unwrap()).collect();
    bodies.sort();
    assert_eq!(bodies, vec!["record-5", "record-6", "record-7"]);
}
