use ticktick_cli::ticktick::{ApiBase, BASE_URL};
use ticktick_cli::web::{reply_body, UrlError};

#[test]
fn api_base_gets_a_trailing_slash() {
    let base = ApiBase::new(BASE_URL).unwrap();
    assert_eq!(base.as_str(), "https://api.ticktick.com/open/v1/");
    let again = ApiBase::new(base.as_str()).unwrap();
    assert_eq!(again.as_str(), "https://api.ticktick.com/open/v1/");
}

#[test]
fn api_base_must_be_a_url() {
    assert_eq!(ApiBase::new("open/v1").err(), Some(UrlError::RelativeUrlWithoutBase));
    assert_eq!(ApiBase::new("").err(), Some(UrlError::RelativeUrlWithoutBase));
}

#[test]
fn api_endpoints() {
    let base = ApiBase::new(BASE_URL).unwrap();
    assert_eq!(base.projects_url().unwrap(), "https://api.ticktick.com/open/v1/project");
    assert_eq!(
        base.project_data_url("abc123").unwrap(),
        "https://api.ticktick.com/open/v1/project/abc123/data"
    );
    assert_eq!(
        base.task_url("p1", "t9").unwrap(),
        "https://api.ticktick.com/open/v1/project/p1/task/t9"
    );
}

#[test]
fn api_base_is_serialized_as_given() {
    let base = ApiBase::new("HTTPS://Example.COM/api").unwrap();
    assert_eq!(base.as_str(), "HTTPS://Example.COM/api/");
    assert_eq!(base.projects_url().unwrap(), "https://example.com/api/project");
}

#[test]
fn endpoints_below_a_cannot_be_a_base_root_fail() {
    let base = ApiBase::new("mailto:me@example.com").unwrap();
    assert_eq!(base.projects_url(), Err(UrlError::RelativeUrlWithCannotBeABaseBase));
}

#[test]
fn endpoint_paths_are_resolved_below_the_root() {
    let base = ApiBase::new("https://h.example/a/b").unwrap();
    assert_eq!(base.project_data_url("../x").unwrap(), "https://h.example/a/b/x/data");
    assert_eq!(base.task_url("p", "t?x=1").unwrap(), "https://h.example/a/b/project/p/task/t?x=1");
}

#[test]
fn replies_succeed_exactly_for_2xx() {
    assert_eq!(reply_body(200, "ok".to_string()).unwrap(), "ok");
    assert_eq!(reply_body(299, "fine".to_string()).unwrap(), "fine");
    let failure = reply_body(404, "missing".to_string()).unwrap_err();
    assert_eq!(failure.status, 404);
    assert_eq!(failure.body, "missing");
    assert!(reply_body(199, String::new()).is_err());
    assert!(reply_body(300, String::new()).is_err());
}
