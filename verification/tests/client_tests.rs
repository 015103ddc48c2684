use track_search::client::run_response;
use track_search::status::{
    classify_status, exit_code, failure_message, FailureKind, RunOutcome, StatusDecision,
};

const SCENARIO: &str = r#"{"tracks":{"items":[{"name":"Song A","href":"http://api.example/t1","popularity":42,"album":{"name":"Album X","artists":[{"name":"Artist1","external_urls":{"spotify":"http://sp/art1"}},{"name":"Artist2","external_urls":{"spotify":"http://sp/art2"}}],"external_urls":{"spotify":"http://sp/album1"}},"external_urls":{"spotify":"http://sp/track1"}}]}}"#;

#[test]
fn scenario_renders_one_exact_block() {
    let out = run_response(200, SCENARIO.as_bytes()).expect("scenario must render");
    let lines: Vec<&str> = out.lines().collect();
    assert_eq!(lines.len(), 6);
    assert_eq!(lines[0], "Track: Song A from the album Album X");
    assert_eq!(lines[1], "Artist1Artist2");
    assert_eq!(lines[2], "Spotify URL: http://sp/track1");
    assert_eq!(lines[3], "Popularity: 42");
    assert_eq!(lines[4], "Preview URL: http://api.example/t1");
    assert_eq!(lines[5], " --------------------------------------------- ");
    assert!(out.ends_with('\n'));
}

#[test]
fn status_200_parses_the_body() {
    assert_eq!(classify_status(200), StatusDecision::ParseBody);
    let empty = run_response(200, br#"{"tracks":{"items":[]}}"#).expect("empty result renders");
    assert_eq!(empty, "");
}

#[test]
fn status_401_fails_without_touching_the_body() {
    assert_eq!(
        classify_status(401),
        StatusDecision::Reject(FailureKind::Unauthorized)
    );
    // Even a body that would render fine is never looked at.
    assert_eq!(
        run_response(401, SCENARIO.as_bytes()),
        Err(FailureKind::Unauthorized)
    );
    assert_eq!(run_response(401, b"not json"), Err(FailureKind::Unauthorized));
}

#[test]
fn other_statuses_fail_without_touching_the_body() {
    for status in [100u16, 204, 301, 403, 404, 429, 500, 503] {
        assert_eq!(
            classify_status(status),
            StatusDecision::Reject(FailureKind::RequestFailed)
        );
        assert_eq!(
            run_response(status, SCENARIO.as_bytes()),
            Err(FailureKind::RequestFailed)
        );
    }
}

#[test]
fn unparsable_body_on_200_fails() {
    assert_eq!(
        run_response(200, b"garbage"),
        Err(FailureKind::MalformedResponse)
    );
    assert_eq!(
        run_response(200, br#"{"tracks":{}}"#),
        Err(FailureKind::MalformedResponse)
    );
}

#[test]
fn exit_codes_map_outcomes() {
    assert_eq!(exit_code(&RunOutcome::Rendered), 0);
    assert_eq!(exit_code(&RunOutcome::Failed(FailureKind::MalformedResponse)), 1);
    assert_eq!(exit_code(&RunOutcome::Failed(FailureKind::Unauthorized)), 1);
    assert_eq!(exit_code(&RunOutcome::Failed(FailureKind::RequestFailed)), 1);
}

#[test]
fn failure_messages_match_the_reported_errors() {
    assert_eq!(
        failure_message(&FailureKind::MalformedResponse),
        "Error while parsing the response"
    );
    assert_eq!(failure_message(&FailureKind::Unauthorized), "Invalid API key");
    assert_eq!(
        failure_message(&FailureKind::RequestFailed),
        "Error while making the request"
    );
}
