use docker::http::{Method, Request};
use docker::text::decimal;
use docker::Client;

fn check(r: &Request, method: Method, url: &str, payload: Option<&str>, expected: u32) {
    assert_eq!(r.method, method);
    assert_eq!(r.url, url);
    assert_eq!(r.payload.as_deref(), payload);
    assert_eq!(r.expected, expected);
}

#[test]
fn listing_requests() {
    let client = Client::from_env();
    check(&client.images().all(), Method::Get, "http://v1.27/images/json", None, 200);
    check(&client.containers().all(), Method::Get, "http://v1.27/containers/json", None, 200);
    check(&client.networks().all(), Method::Get, "http://v1.27/networks", None, 200);
    check(&client.volumes().get(), Method::Get, "http://v1.27/volumes", None, 200);
    check(&client.tasks().get(), Method::Get, "http://v1.27/tasks", None, 200);
    check(&client.swarm().get(), Method::Get, "http://v1.27/swarm", None, 200);
    check(&client.secrets().all(), Method::Get, "http://v1.27/secrets", None, 200);
}

#[test]
fn secret_requests() {
    let client = Client::new("http://engine/v1.40/");
    let secrets = client.secrets();
    let id = String::from("abc");
    check(&secrets.inspect(&id), Method::Get, "http://engine/v1.40/secrets/abc", None, 200);
    check(&secrets.delete(&id), Method::Delete, "http://engine/v1.40/secrets/abc", None, 204);
    check(
        &secrets.create(r#"{"Name":"s"}"#),
        Method::Post,
        "http://engine/v1.40/secrets/create",
        Some(r#"{"Name":"s"}"#),
        201,
    );
    check(
        &secrets.update(&id, "{}", 42),
        Method::Post,
        "http://engine/v1.40/secrets/abc/update?version=42",
        Some("{}"),
        200,
    );
}

#[test]
fn client_url_joins_base_and_path() {
    let client = Client::new("http://v1.27/");
    assert_eq!(client.url("tasks"), "http://v1.27/tasks");
    assert_eq!(client.url(""), "http://v1.27/");
}

#[test]
fn decimal_matches_std() {
    for v in [0i64, 7, 9, 10, 42, 100, 1234567890, -1, -10, -305, i64::MAX, i64::MIN] {
        assert_eq!(decimal(v), v.to_string());
    }
}
