use psor_sdk::run_isolate;
use psor_sdk::run_unisolate;

fn tokens(list: &[&str]) -> Vec<String> {
    list.iter().map(|s| s.to_string()).collect()
}

#[test]
fn isolate_with_endpoint_id() {
    let r = run_isolate(&tokens(&["endpoint_id=host-42"]));
    assert_eq!(r.exit_code, 0);
    assert_eq!(
        r.stdout_line,
        "{\"status\":\"success\",\"message\":\"Successfully submitted network isolation request for endpoint 'host-42'.\",\"details\":{\"endpoint_id\":\"host-42\"}}"
    );
    assert_eq!(
        r.stderr_lines,
        tokens(&["*** SIMULATION: Would trigger network isolation for endpoint 'host-42' ***"])
    );
}

#[test]
fn unisolate_with_endpoint_id() {
    let r = run_unisolate(&tokens(&["endpoint_id=host-7"]));
    assert_eq!(r.exit_code, 0);
    assert_eq!(
        r.stdout_line,
        "{\"status\":\"success\",\"message\":\"Successfully submitted request to UNISOLATE endpoint 'host-7'.\",\"details\":{\"endpoint_id\":\"host-7\"}}"
    );
    assert_eq!(
        r.stderr_lines,
        tokens(&["*** SIMULATION: Would remove network isolation for endpoint 'host-7' ***"])
    );
}

#[test]
fn unisolate_with_no_arguments() {
    let r = run_unisolate(&Vec::new());
    assert_eq!(r.exit_code, 1);
    assert_eq!(
        r.stdout_line,
        "{\"status\":\"error\",\"message\":\"Missing parameter: endpoint_id\",\"details\":null}"
    );
    assert!(r.stderr_lines.is_empty());
}

#[test]
fn isolate_without_endpoint_id() {
    let r = run_isolate(&tokens(&["other=1", "still=2"]));
    assert_eq!(r.exit_code, 1);
    assert_eq!(
        r.stdout_line,
        "{\"status\":\"error\",\"message\":\"Missing parameter: endpoint_id\",\"details\":null}"
    );
    assert!(r.stderr_lines.is_empty());
}

#[test]
fn malformed_token_is_warned_about_and_skipped() {
    let r = run_isolate(&tokens(&["endpoint_id=abc", "badtoken", "endpoint_id=xyz"]));
    assert_eq!(r.exit_code, 0);
    assert_eq!(
        r.stdout_line,
        "{\"status\":\"success\",\"message\":\"Successfully submitted network isolation request for endpoint 'xyz'.\",\"details\":{\"endpoint_id\":\"xyz\"}}"
    );
    assert_eq!(
        r.stderr_lines,
        tokens(&[
            "Warning: Malformed argument ignored: badtoken",
            "*** SIMULATION: Would trigger network isolation for endpoint 'xyz' ***",
        ])
    );
}

#[test]
fn only_malformed_tokens_still_reports_the_missing_parameter() {
    let r = run_unisolate(&tokens(&["nope", "also nope"]));
    assert_eq!(r.exit_code, 1);
    assert_eq!(
        r.stdout_line,
        "{\"status\":\"error\",\"message\":\"Missing parameter: endpoint_id\",\"details\":null}"
    );
    assert_eq!(
        r.stderr_lines,
        tokens(&[
            "Warning: Malformed argument ignored: nope",
            "Warning: Malformed argument ignored: also nope",
        ])
    );
}

#[test]
fn stdout_is_one_line_even_for_hostile_ids() {
    let r = run_isolate(&tokens(&["endpoint_id=a\nb\"c\\d"]));
    assert_eq!(r.exit_code, 0);
    assert!(!r.stdout_line.contains('\n'));
    assert_eq!(
        r.stdout_line,
        "{\"status\":\"success\",\"message\":\"Successfully submitted network isolation request for endpoint 'a\\nb\\\"c\\\\d'.\",\"details\":{\"endpoint_id\":\"a\\nb\\\"c\\\\d\"}}"
    );
}
