use zombie_relay::envelope::{
    Failure, GenericResponse, normalize, ACCESS_FAIL_MESSAGE, FAILURE_CODE, FATAL_MESSAGE,
    INTERNAL_MESSAGE, PARSE_ERROR_MESSAGE, SUCCESS_MESSAGE,
};
use zombie_relay::error::Error;
use zombie_relay::handler::{is_success, zombie_task, Action, Event, KV_BINDING, KV_UPSTREAM_URL_KEY};

fn payload() -> serde_json::Value {
    serde_json::from_str("{\"x\":1}").unwrap()
}

fn reduced(code: i32, data: Option<serde_json::Value>) -> GenericResponse {
    GenericResponse { code, message: None, data }
}

fn expect_respond(a: Action) -> (GenericResponse, Option<Error>) {
    match a {
        Action::Respond { envelope, cause } => (envelope, cause),
        other => panic!("expected an answer, got {:?}", other),
    }
}

fn assert_failure(env: &GenericResponse, message: &str) {
    assert_eq!(env.code, -1);
    assert_eq!(env.message.as_deref(), Some(message));
    assert!(env.data.is_none());
}

/// Drives one request through the step function with the given reports.
fn serve(
    config: Result<Option<String>, Error>,
    status: Result<u16, Error>,
    body: Result<GenericResponse, Error>,
) -> (GenericResponse, Option<Error>) {
    match zombie_task(Event::Begin) {
        Action::LookupConfig { .. } => {}
        other => panic!("expected a lookup, got {:?}", other),
    }
    let mut status = Some(status);
    let mut body = Some(body);
    let mut action = zombie_task(Event::Config(config));
    loop {
        action = match action {
            Action::Fetch { .. } => zombie_task(Event::Status(status.take().unwrap())),
            Action::ReadBody => zombie_task(Event::Body(body.take().unwrap())),
            Action::LookupConfig { .. } => panic!("looked up twice"),
            Action::Respond { envelope, cause } => return (envelope, cause),
        };
    }
}

#[test]
fn begins_with_lookup_of_fixed_key() {
    match zombie_task(Event::Begin) {
        Action::LookupConfig { binding, key } => {
            assert_eq!(binding, "EMAR_BORING");
            assert_eq!(key, "dp_zombie_task");
            assert_eq!(binding, KV_BINDING);
            assert_eq!(key, KV_UPSTREAM_URL_KEY);
        }
        other => panic!("expected a lookup, got {:?}", other),
    }
}

#[test]
fn example_reduced_success_relays_data() {
    let url = "https://example.test/ok".to_string();
    match zombie_task(Event::Config(Ok(Some(url.clone())))) {
        Action::Fetch { url: u } => assert_eq!(u, url),
        other => panic!("expected a fetch, got {:?}", other),
    }
    assert!(matches!(zombie_task(Event::Status(Ok(200))), Action::ReadBody));
    let (env, cause) = expect_respond(zombie_task(Event::Body(Ok(reduced(0, Some(payload()))))));
    assert_eq!(env.code, 0);
    assert_eq!(env.message.as_deref(), Some("接口请求成功"));
    assert_eq!(env.data, Some(payload()));
    assert!(cause.is_none());
}

#[test]
fn example_status_503_is_fatal() {
    let (env, cause) = expect_respond(zombie_task(Event::Status(Ok(503))));
    assert_eq!(env.code, -1);
    assert_eq!(env.message.as_deref(), Some("接口无法正常响应"));
    assert!(env.data.is_none());
    assert!(matches!(cause, Some(Error::UpstreamApi(503, _))));
}

#[test]
fn reduced_success_keeps_any_data() {
    for status in [200u16, 201, 204, 299] {
        let (env, _) = serve(
            Ok(Some("https://example.test/ok".to_string())),
            Ok(status),
            Ok(reduced(0, Some(serde_json::Value::from(vec![1, 2, 3])))),
        );
        assert_eq!(env.code, 0);
        assert_eq!(env.message.as_deref(), Some(SUCCESS_MESSAGE));
        assert_eq!(env.data, Some(serde_json::Value::from(vec![1, 2, 3])));
    }
    let (env, _) = serve(Ok(Some("u".to_string())), Ok(200), Ok(reduced(0, None)));
    assert_eq!(env.code, 0);
    assert_eq!(env.message.as_deref(), Some(SUCCESS_MESSAGE));
    assert!(env.data.is_none());
}

#[test]
fn reduced_failure_code_is_parse_error() {
    for code in [1, -1, 42, i32::MAX, i32::MIN] {
        let (env, cause) = serve(
            Ok(Some("https://example.test/ok".to_string())),
            Ok(200),
            Ok(reduced(code, Some(payload()))),
        );
        assert_failure(&env, "接口数据解析失败");
        assert!(cause.is_none());
    }
}

#[test]
fn non_success_status_is_fatal_whatever_the_body() {
    for status in [100u16, 199, 300, 301, 404, 500, 503, 599] {
        let (env, cause) = serve(
            Ok(Some("https://example.test/ok".to_string())),
            Ok(status),
            Ok(reduced(0, Some(payload()))),
        );
        assert_failure(&env, FATAL_MESSAGE);
        match cause {
            Some(Error::UpstreamApi(s, _)) => assert_eq!(s, status),
            other => panic!("unexpected cause {:?}", other),
        }
    }
}

#[test]
fn transport_failure_is_access_fail() {
    let (env, cause) = serve(
        Ok(Some("http://127.0.0.1:1/".to_string())),
        Err(Error::Reqwest("connection refused".to_string())),
        Ok(reduced(0, None)),
    );
    assert_failure(&env, "接口访问失败");
    assert_failure(&env, ACCESS_FAIL_MESSAGE);
    assert!(matches!(cause, Some(Error::Reqwest(m)) if m == "connection refused"));
}

#[test]
fn missing_key_is_internal_error() {
    let (env, cause) = serve(Ok(None), Ok(200), Ok(reduced(0, None)));
    assert_failure(&env, INTERNAL_MESSAGE);
    assert_eq!(env.message.as_deref(), Some("An internal server error occurred."));
    match cause {
        Some(Error::KvKeyNotFound(k)) => assert_eq!(k, "dp_zombie_task"),
        other => panic!("unexpected cause {:?}", other),
    }
}

#[test]
fn missing_binding_and_store_failure_are_internal_errors() {
    let (env, cause) = serve(Err(Error::Worker("no binding".to_string())), Ok(200), Ok(reduced(0, None)));
    assert_failure(&env, INTERNAL_MESSAGE);
    assert!(matches!(cause, Some(Error::Worker(_))));
    let (env, cause) = serve(Err(Error::KvError("store down".to_string())), Ok(200), Ok(reduced(0, None)));
    assert_failure(&env, INTERNAL_MESSAGE);
    assert!(matches!(cause, Some(Error::KvError(_))));
}

#[test]
fn malformed_body_is_parse_error() {
    let (env, cause) = serve(
        Ok(Some("https://example.test/ok".to_string())),
        Ok(200),
        Err(Error::MalformedBody("expected value at line 1".to_string())),
    );
    assert_failure(&env, PARSE_ERROR_MESSAGE);
    assert!(matches!(cause, Some(Error::MalformedBody(_))));
}

#[test]
fn full_envelope_passes_through_unchanged() {
    let raw = GenericResponse { code: 7, message: Some("busy".to_string()), data: Some(payload()) };
    let env = normalize(raw);
    assert_eq!(env.code, 7);
    assert_eq!(env.message.as_deref(), Some("busy"));
    assert_eq!(env.data, Some(payload()));
    let raw = GenericResponse { code: 0, message: Some("ok".to_string()), data: None };
    let env = normalize(raw);
    assert_eq!(env.code, 0);
    assert_eq!(env.message.as_deref(), Some("ok"));
    assert!(env.data.is_none());
}

#[test]
fn same_request_twice_gives_identical_envelopes() {
    let run = || {
        serve(
            Ok(Some("https://example.test/ok".to_string())),
            Ok(200),
            Ok(reduced(0, Some(payload()))),
        )
        .0
    };
    let a = run();
    let b = run();
    assert_eq!(format!("{:?}", a), format!("{:?}", b));
    assert_eq!(a.code, b.code);
    assert_eq!(a.message, b.message);
    assert_eq!(a.data, b.data);
}

#[test]
fn success_class_bounds() {
    assert!(!is_success(0));
    assert!(!is_success(199));
    assert!(is_success(200));
    assert!(is_success(250));
    assert!(is_success(299));
    assert!(!is_success(300));
    assert!(!is_success(u16::MAX));
}

#[test]
fn each_failure_has_its_envelope() {
    assert_eq!(FAILURE_CODE, -1);
    let cases = [
        (Failure::Internal, "An internal server error occurred."),
        (Failure::AccessFail, "接口访问失败"),
        (Failure::Fatal, "接口无法正常响应"),
        (Failure::ParseError, "接口数据解析失败"),
    ];
    for (f, m) in cases {
        assert_eq!(f.message(), m);
        assert_failure(&f.envelope(), m);
    }
}

#[test]
fn each_error_maps_to_its_failure() {
    assert_eq!(Error::Worker(String::new()).failure(), Failure::Internal);
    assert_eq!(Error::KvError(String::new()).failure(), Failure::Internal);
    assert_eq!(Error::KvKeyNotFound(String::new()).failure(), Failure::Internal);
    assert_eq!(Error::Reqwest(String::new()).failure(), Failure::AccessFail);
    assert_eq!(Error::UpstreamApi(404, String::new()).failure(), Failure::Fatal);
    assert_eq!(Error::MalformedBody(String::new()).failure(), Failure::ParseError);
}
