use secret_server::binding::rocket;
use secret_server::handler::index;
use secret_server::handler::render_failure;
use secret_server::handler::render_log_line;
use secret_server::handler::render_success;
use secret_server::handler::respond;
use secret_server::handler::Response;

const FAILURE_PREFIX: &str = "Internal server error. Contact IT with log id: ";
const LOG_PREFIX: &str = "Log id: ";

fn is_id_rendering(s: &str) -> bool {
    s.chars().count() == 36
        && s.chars().enumerate().all(|(i, c)| {
            if i == 8 || i == 13 || i == 18 || i == 23 {
                c == '-'
            } else {
                c.is_ascii_hexdigit() && !c.is_ascii_uppercase()
            }
        })
}

fn logged_id(line: &str) -> &str {
    assert!(line.starts_with(LOG_PREFIX));
    &line[LOG_PREFIX.len()..]
}

#[test]
fn success_prod() {
    let stage = Some(String::from("prod"));
    let secret = Some(String::from("hunter2"));
    let r = respond(&stage, &secret, "ignored");
    assert_eq!(r.status(), 200);
    assert_eq!(
        r.body().as_str(),
        "Hello World! I am on prod stage. This is my secret: hunter2."
    );
}

#[test]
fn success_empty_secret() {
    let stage = Some(String::from("dev"));
    let secret = Some(String::from(""));
    let r = respond(&stage, &secret, "ignored");
    assert_eq!(r.status(), 200);
    assert_eq!(
        r.body().as_str(),
        "Hello World! I am on dev stage. This is my secret: ."
    );
}

#[test]
fn failure_stage_unset() {
    let secret = Some(String::from("x"));
    let r = respond(&None, &secret, "0f3b2a18-9c4d-4e5f-8a6b-7c8d9e0f1a2b");
    assert_eq!(r.status(), 500);
    assert!(r.body().starts_with(FAILURE_PREFIX));
    assert_eq!(
        r.body().as_str(),
        "Internal server error. Contact IT with log id: 0f3b2a18-9c4d-4e5f-8a6b-7c8d9e0f1a2b"
    );
}

#[test]
fn failure_secret_unset() {
    let stage = Some(String::from("prod"));
    let r = respond(&stage, &None, "0f3b2a18-9c4d-4e5f-8a6b-7c8d9e0f1a2b");
    assert_eq!(r.status(), 500);
    assert!(r.body().starts_with(FAILURE_PREFIX));
    assert!(!r.body().contains("STAGE"));
    assert!(!r.body().contains("SECRET_MESSAGE"));
    assert!(!r.body().contains("prod"));
}

#[test]
fn failure_both_unset() {
    let r = respond(&None, &None, "0f3b2a18-9c4d-4e5f-8a6b-7c8d9e0f1a2b");
    assert_eq!(r.status(), 500);
    assert!(!r.body().contains("STAGE"));
    assert!(!r.body().contains("SECRET_MESSAGE"));
}

#[test]
fn render_success_exact() {
    assert_eq!(
        render_success("prod", "hunter2"),
        "Hello World! I am on prod stage. This is my secret: hunter2."
    );
}

#[test]
fn render_failure_exact() {
    assert_eq!(
        render_failure("abc"),
        "Internal server error. Contact IT with log id: abc"
    );
}

#[test]
fn render_log_line_exact() {
    assert_eq!(render_log_line("abc"), "Log id: abc");
}

#[test]
fn index_logs_fresh_id() {
    let (line, r) = index(Some(String::from("prod")), Some(String::from("s")));
    assert_eq!(r.status(), 200);
    let id = logged_id(&line);
    assert!(is_id_rendering(id));
}

#[test]
fn index_failure_id_matches_log() {
    let (line, r) = index(None, Some(String::from("s")));
    assert_eq!(r.status(), 500);
    let id = logged_id(&line);
    assert!(is_id_rendering(id));
    let body = r.body();
    assert!(body.starts_with(FAILURE_PREFIX));
    assert_eq!(&body[FAILURE_PREFIX.len()..], id);
}

#[test]
fn parallel_requests_distinct_ids() {
    let (line1, r1) = index(Some(String::from("prod")), Some(String::from("s")));
    let (line2, r2) = index(Some(String::from("prod")), Some(String::from("s")));
    let id1 = logged_id(&line1);
    let id2 = logged_id(&line2);
    assert!(is_id_rendering(id1));
    assert!(is_id_rendering(id2));
    assert_ne!(id1, id2);
    assert_eq!(r1.status(), 200);
    assert_eq!(r2.status(), 200);
    assert_eq!(r1.body(), r2.body());
}

#[test]
fn failure_ids_distinct_across_requests() {
    let (line1, r1) = index(None, None);
    let (line2, r2) = index(None, None);
    assert_eq!(r1.status(), 500);
    assert_eq!(r2.status(), 500);
    assert_ne!(logged_id(&line1), logged_id(&line2));
    assert_ne!(r1.body(), r2.body());
}

#[test]
fn binding_routes_get_root_only() {
    let b = rocket();
    assert_eq!(b.mount_point.as_str(), "/");
    assert_eq!(b.method.as_str(), "GET");
    assert_eq!(b.path.as_str(), "/");
    assert!(b.routes(&String::from("GET"), &String::from("/")));
    assert!(!b.routes(&String::from("POST"), &String::from("/")));
    assert!(!b.routes(&String::from("GET"), &String::from("/other")));
    assert!(!b.routes(&String::from("get"), &String::from("/")));
}

#[test]
fn envelope_accessors() {
    let ok = Response::Success(String::from("a"));
    let err = Response::Failure(String::from("b"));
    assert_eq!(ok.status(), 200);
    assert_eq!(err.status(), 500);
    assert_eq!(ok.body().as_str(), "a");
    assert_eq!(err.body().as_str(), "b");
}
