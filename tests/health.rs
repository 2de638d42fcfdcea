use chefctl::health::{client_check, update_health_checks, version_check, version_check_from, CheckError, State};

fn pair(a: &str, b: &str) -> (String, String) {
    (a.to_string(), b.to_string())
}

#[test]
fn version_check_reads_build_version() {
    let r = version_check("{\"build_version\": \"14.10.9\", \"name\": \"chef\"}");
    assert_eq!(r, Ok(pair("Chef Client Version Check", "14.10.9")));
}

#[test]
fn version_check_fails_without_the_member() {
    assert_eq!(version_check("{\"name\": \"chef\"}"), Err(CheckError));
    assert_eq!(version_check("{\"build_version\": 14}"), Err(CheckError));
}

#[test]
fn version_check_fails_on_bad_json() {
    assert_eq!(version_check("not json"), Err(CheckError));
}

#[test]
fn version_check_from_found_values() {
    assert_eq!(version_check_from(None), Err(CheckError));
    assert_eq!(version_check_from(Some(None)), Err(CheckError));
    assert_eq!(
        version_check_from(Some(Some(String::from("1.2")))),
        Ok(pair("Chef Client Version Check", "1.2"))
    );
}

#[test]
fn client_check_reports_success() {
    assert_eq!(client_check(true), pair("Chef Client Executes Normally Check", "true"));
    assert_eq!(client_check(false), pair("Chef Client Executes Normally Check", "false"));
}

#[test]
fn check_error_texts() {
    assert_eq!(CheckError.description(), "CheckError");
    assert_eq!(CheckError.message(), "check error");
}

#[test]
fn health_checks_record_both_findings() {
    let mut health = State::new();
    let r = update_health_checks(
        &mut health,
        Ok(pair("Chef Client Version Check", "14.10.9")),
        Err(CheckError),
    );
    assert!(r.is_ok());
    assert_eq!(
        health.checks(),
        &vec![pair("Chef Client Version Check", "14.10.9"), pair("ChefClientCheck", "CheckError")]
    );
}

#[test]
fn health_checks_with_equal_names_keep_the_second() {
    let mut health = State::new();
    let _ = update_health_checks(&mut health, Ok(pair("k", "1")), Ok(pair("k", "2")));
    assert_eq!(health.checks(), &vec![pair("k", "2")]);
}
