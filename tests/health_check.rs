use influxdb_client_rust::{HealthCheck, Status};

#[test]
fn new_health_check_has_no_optional_parts() {
    let h = HealthCheck::new("influxdb".to_string(), Status::Fail);
    assert_eq!(h.name, "influxdb");
    assert_eq!(h.status, Status::Fail);
    assert!(h.message.is_none());
    assert!(h.checks.is_none());
    assert!(h.version.is_none());
    assert!(h.commit.is_none());
}

#[test]
fn fail_token_decodes_to_fail() {
    assert_eq!(Status::from_token("fail"), Some(Status::Fail));
    let h = HealthCheck::new("influxdb".to_string(), Status::from_token("fail").unwrap());
    assert_eq!(h.status, Status::Fail);
    assert!(h.message.is_none() && h.checks.is_none());
    assert!(h.version.is_none() && h.commit.is_none());
}

#[test]
fn status_tokens() {
    assert_eq!(Status::Pass.as_token(), "pass");
    assert_eq!(Status::Fail.as_token(), "fail");
}

#[test]
fn status_token_round_trip() {
    for s in [Status::Pass, Status::Fail] {
        assert_eq!(Status::from_token(s.as_token()), Some(s));
    }
}

#[test]
fn unknown_status_tokens_are_refused() {
    assert_eq!(Status::from_token("PASS"), None);
    assert_eq!(Status::from_token("passed"), None);
    assert_eq!(Status::from_token("pas"), None);
    assert_eq!(Status::from_token(""), None);
}

#[test]
fn nested_checks() {
    let mut top = HealthCheck::new("influxdb".to_string(), Status::Pass);
    top.checks = Some(vec![HealthCheck::new("storage".to_string(), Status::Fail)]);
    assert_eq!(top.checks.as_ref().unwrap()[0].status, Status::Fail);
    assert_ne!(top, HealthCheck::new("influxdb".to_string(), Status::Pass));
}

#[test]
fn clone_copies_nested_reports() {
    let mut inner = HealthCheck::new("storage".to_string(), Status::Fail);
    inner.message = Some("disk full".to_string());
    let mut top = HealthCheck::new("influxdb".to_string(), Status::Pass);
    top.version = Some("2.0.0".to_string());
    top.commit = Some("abc123".to_string());
    top.checks = Some(vec![inner]);
    let copy = top.clone();
    assert_eq!(copy, top);
    assert_eq!(copy.checks.unwrap()[0].message.as_deref(), Some("disk full"));
}
