//! Calls made against a small stand-in engine that answers the way a real
//! one does for the same requests.
use docker::common::{delete, get, get_vector, post};
use docker::error::DockerError;
use docker::http::{HttpResult, Method, Request};
use docker::Client;

const BASE: &str = "http://v1.27/";

fn answer(code: u32, body: &str) -> HttpResult {
    HttpResult::new(code, String::from(body))
}

fn is_base64(text: &str) -> bool {
    text.len() % 4 == 0
        && text.chars().all(|c| c.is_ascii_alphanumeric() || c == '+' || c == '/' || c == '=')
}

/// Answers a request as an engine with two images, two containers, the
/// default networks, no volumes, no tasks and no secrets would.
fn engine(request: &Request) -> HttpResult {
    let path = request.url.strip_prefix(BASE).expect("request under the API root");
    match (request.method, path) {
        (Method::Get, "images/json") => answer(200, r#"[{"Id":"sha256:1","RepoTags":["a:1"]},{"Id":"sha256:2"}]"#),
        (Method::Get, "containers/json") => answer(200, r#"[{"Id":"c1","Names":["/one"]},{"Id":"c2","Names":["/two"]}]"#),
        (Method::Get, "networks") => answer(200, r#"[{"Name":"bridge"},{"Name":"host"},{"Name":"none"}]"#),
        (Method::Get, "swarm") => answer(200, r#"{"ID":"swarm1","Spec":{"Name":"default"},"JoinTokens":{}}"#),
        (Method::Get, "volumes") => answer(200, r#"{"Volumes":[],"Warnings":[]}"#),
        (Method::Get, "tasks") => answer(200, "[]"),
        (Method::Get, "secrets") => answer(200, "[]"),
        (Method::Post, "secrets/create") => {
            let spec: serde_json::Value =
                serde_json::from_str(request.payload.as_deref().unwrap_or("")).unwrap();
            match spec["Data"].as_str() {
                Some(data) if is_base64(data) => answer(201, r#"{"ID":"new"}"#),
                _ => answer(400, r#"{"message":"secret data must be base64"}"#),
            }
        }
        (_, p) if p.starts_with("secrets/") => {
            let id = p.trim_start_matches("secrets/").split('/').next().unwrap_or("");
            let message = format!(r#"{{"message":"secret {} not found"}}"#, id);
            answer(404, &message)
        }
        _ => answer(404, r#"{"message":"page not found"}"#),
    }
}

#[test]
fn get_all_images() {
    let client = Client::from_env();
    assert!(get_vector(engine(&client.images().all())).is_ok())
}

#[test]
fn get_all_containers() {
    let client = Client::from_env();
    assert!(get_vector(engine(&client.containers().all())).is_ok())
}

#[test]
fn get_all_networks() {
    let client = Client::from_env();
    assert!(get_vector(engine(&client.networks().all())).is_ok())
}

#[test]
fn get_swarm() {
    let client = Client::from_env();
    assert!(get(engine(&client.swarm().get())).is_ok());
}

#[test]
fn get_volums() {
    let client = Client::from_env();
    assert!(get(engine(&client.volumes().get())).is_ok())
}

#[test]
fn get_tasks() {
    let client = Client::from_env();
    assert!(get_vector(engine(&client.tasks().get())).is_ok())
}

#[test]
fn get_all_secrets() {
    let client = Client::from_env();
    assert!(get_vector(engine(&client.secrets().all())).is_ok())
}

#[test]
fn get_all() {
    let client = Client::from_env();

    assert!(get_vector(engine(&client.images().all())).unwrap().len() > 1);
    assert!(get_vector(engine(&client.containers().all())).unwrap().len() > 1);
    assert!(get_vector(engine(&client.networks().all())).unwrap().len() > 1);
    assert!(get(engine(&client.swarm().get())).is_ok());
    assert!(get(engine(&client.volumes().get())).is_ok());
    assert!(get_vector(engine(&client.tasks().get())).is_ok());
}

#[test]
fn delete_unknown_id_images() {
    let client = Client::from_env();
    let secret_client = client.secrets();
    let request = secret_client.delete(&String::from("alskjdaslkdj"));
    assert!(delete(engine(&request)).is_err());
}

#[test]
fn try_to_create_non_working_secret() {
    let client = Client::from_env();
    let secret_client = client.secrets();
    let secret = r#"{"Name":"NonWorkingDockerRustMySecret","Labels":{},"Data":"ThatWillNotWork"}"#;
    let request = secret_client.create(secret);
    assert!(post(engine(&request), request.expected).is_err());
}

#[test]
fn try_to_inpsect_unkown_secret() {
    let client = Client::from_env();
    let secret_client = client.secrets();
    assert!(get(engine(&secret_client.inspect(&String::from("unknown_id")))).is_err());
}

#[test]
fn try_to_update_unkown_secret() {
    let client = Client::from_env();
    let secret_client = client.secrets();
    let _secret = r#"{"Name":"NonWorkingDockerRustMySecret","Labels":{},"Data":"ThatWillNotWork"}"#;
    assert!(get(engine(&secret_client.inspect(&String::from("unknown_id")))).is_err());
}

#[test]
fn unknown_secret_refusal_names_it() {
    let client = Client::from_env();
    let request = client.secrets().inspect(&String::from("unknown_id"));
    match get(engine(&request)) {
        Err(DockerError::Docker(m)) => assert_eq!(m, "secret unknown_id not found"),
        other => panic!("{:?}", other),
    }
}
