use oauth::dtos::{
    CreateRoleReq, CreateUserReq, CreateUserRes, GetAllRolesRes, GetRoleRes, GetUserRes,
    GetUsersRes, LoginReqKeycloak, LoginResKeycloak, UpdateRolePartialReq, UpdateUserReq,
};
use oauth::error::{AppError, ErrorStackItem};
use oauth::http::{
    Body, HttpReply, HttpRequest, KeycloakConfig, Method, Step, TransportFailure, Upstream,
};
use oauth::json::Json;
use oauth::keycloak::auth::KeycloakAuthAdapter;
use oauth::keycloak::role::KeycloakRoleAdapter;
use oauth::keycloak::user::KeycloakUserAdapter;

fn config() -> KeycloakConfig {
    KeycloakConfig {
        protocol: "http".into(),
        host: "kc".into(),
        port: "8080".into(),
        realm: "demo".into(),
    }
}

fn reply(status: u16, body: &str) -> Upstream {
    Upstream::Reply(HttpReply { status, location: None, body: Ok(body.to_string()) })
}

fn located(status: u16, location: &str) -> Upstream {
    Upstream::Reply(HttpReply {
        status,
        location: Some(location.to_string()),
        body: Ok(String::new()),
    })
}

fn unread(status: u16) -> Upstream {
    Upstream::Reply(HttpReply { status, location: None, body: Err("reset".to_string()) })
}

fn text(s: &str) -> Json {
    Json::Text(s.to_string())
}

fn object(fields: Vec<(&str, Json)>) -> Json {
    Json::Object(fields.into_iter().map(|(k, v)| (k.to_string(), v)).collect())
}

fn get(url: &str) -> HttpRequest {
    HttpRequest {
        method: Method::Get,
        url: url.to_string(),
        authorization: Some("Bearer t".to_string()),
        body: Body::Empty,
    }
}

fn send(method: Method, url: &str, body: Json) -> HttpRequest {
    HttpRequest {
        method,
        url: url.to_string(),
        authorization: Some("Bearer t".to_string()),
        body: Body::Json(body),
    }
}

fn external(code: u16, details: &str) -> AppError {
    AppError::ExternalServiceError { code, details: details.into(), source: None }
}

fn login_req() -> LoginReqKeycloak {
    LoginReqKeycloak {
        client_id: "c".into(),
        client_secret: "s".into(),
        username: "a@b.c".into(),
        password: "p".into(),
        grant_type: "password".into(),
    }
}

const USERS: &str = "http://kc:8080/admin/realms/demo/users";
const ROLES: &str = "http://kc:8080/admin/realms/demo/roles";
const ROLE_R1: &str = "http://kc:8080/admin/realms/demo/roles-by-id/r1";

#[test]
fn urls_of_the_realm() {
    let c = config();
    assert_eq!(c.base(), "http://kc:8080");
    assert_eq!(c.token_url(), "http://kc:8080/realms/demo/protocol/openid-connect/token");
    assert_eq!(c.admin_url(), "http://kc:8080/admin/realms/demo");
    assert_eq!(c.users_url(), USERS);
    assert_eq!(c.enabled_users_url(), "http://kc:8080/admin/realms/demo/users?enabled=true");
    assert_eq!(c.user_url("u1"), "http://kc:8080/admin/realms/demo/users/u1");
    assert_eq!(
        c.reset_password_url("u1"),
        "http://kc:8080/admin/realms/demo/users/u1/reset-password"
    );
    assert_eq!(
        c.role_mappings_url("u1"),
        "http://kc:8080/admin/realms/demo/users/u1/role-mappings/realm"
    );
    assert_eq!(c.roles_url(), ROLES);
    assert_eq!(c.role_url("r1"), ROLE_R1);
}

#[test]
fn login_posts_the_form() {
    let adapter = KeycloakAuthAdapter::new(config());
    assert_eq!(
        adapter.login(&login_req(), &vec![]),
        Step::Call(HttpRequest {
            method: Method::Post,
            url: "http://kc:8080/realms/demo/protocol/openid-connect/token".into(),
            authorization: None,
            body: Body::Form(vec![
                ("client_id".into(), "c".into()),
                ("client_secret".into(), "s".into()),
                ("username".into(), "a@b.c".into()),
                ("password".into(), "p".into()),
                ("grant_type".into(), "password".into()),
            ]),
        })
    );
}

#[test]
fn login_success_passes_the_session_on() {
    let adapter = KeycloakAuthAdapter::new(config());
    let payload = r#"{"access_token":"A","expires_in":300,"refresh_expires_in":1800,
                      "refresh_token":"R","token_type":"Bearer","not-before-policy":0}"#;
    assert_eq!(
        adapter.login(&login_req(), &vec![reply(200, payload)]),
        Step::Done(Ok(LoginResKeycloak {
            access_token: "A".into(),
            expires_in: 300,
            refresh_expires_in: 1800,
            refresh_token: "R".into(),
            token_type: "Bearer".into(),
        }))
    );
}

#[test]
fn login_refusals_by_status() {
    let adapter = KeycloakAuthAdapter::new(config());
    let run = |event: Upstream| adapter.login(&login_req(), &vec![event]);
    assert_eq!(
        run(reply(401, "{\"error\":\"invalid_grant\"}")),
        Step::Done(Err(AppError::InvalidCredentials { code: 401 }))
    );
    assert_eq!(
        run(reply(400, "bad form")),
        Step::Done(Err(AppError::ValidationError { details: "bad form".into() }))
    );
    assert_eq!(
        run(unread(400)),
        Step::Done(Err(AppError::ValidationError { details: "Could not read error body".into() }))
    );
    assert_eq!(run(reply(503, "down")), Step::Done(Err(external(503, "down"))));
    assert_eq!(run(reply(403, "no")), Step::Done(Err(external(403, "no"))));
    assert_eq!(run(reply(302, "")), Step::Done(Err(external(302, ""))));
    assert_eq!(
        run(unread(500)),
        Step::Done(Err(external(500, "Could not read error body")))
    );
}

#[test]
fn login_answers_that_cannot_be_read() {
    let adapter = KeycloakAuthAdapter::new(config());
    match adapter.login(&login_req(), &vec![reply(200, "<html>")]) {
        Step::Done(Err(AppError::ExternalServiceError { code, details, source })) => {
            assert_eq!(code, 500);
            assert!(details.starts_with("Failed to parse Keycloak response: "));
            assert!(details.len() > "Failed to parse Keycloak response: ".len());
            assert_eq!(source, None);
        }
        other => panic!("expected a failure of the provider, got {:?}", other),
    }
    assert_eq!(
        adapter.login(&login_req(), &vec![reply(200, "{\"access_token\":\"A\"}")]),
        Step::Done(Err(external(
            500,
            "Failed to parse Keycloak response: a field of the token payload is missing or of \
             another type"
        )))
    );
    assert_eq!(
        adapter.login(&login_req(), &vec![unread(200)]),
        Step::Done(Err(external(500, "Failed to parse Keycloak response: reset")))
    );
}

#[test]
fn failed_exchange_becomes_a_failure_of_the_provider() {
    let chain = vec![ErrorStackItem { source: "Connect".into(), description: "refused".into() }];
    let failure = |status| {
        Upstream::Failure(TransportFailure {
            status,
            description: "error sending request".into(),
            chain: chain.clone(),
        })
    };
    let adapter = KeycloakUserAdapter::new(config());
    assert_eq!(
        adapter.get_user("u1", "Bearer t", &vec![failure(None)]),
        Step::Done(Err(AppError::ExternalServiceError {
            code: 500,
            details: "error sending request".into(),
            source: Some(chain.clone()),
        }))
    );
    assert_eq!(
        adapter.delete_user("u1", "Bearer t", &vec![failure(Some(504))]),
        Step::Done(Err(AppError::ExternalServiceError {
            code: 504,
            details: "error sending request".into(),
            source: Some(chain.clone()),
        }))
    );
}

#[test]
fn create_user_takes_the_id_from_the_location() {
    let adapter = KeycloakUserAdapter::new(config());
    let req = CreateUserReq {
        username: "a@b.c".into(),
        password: "pw".into(),
        first_name: "F".into(),
        last_name: "L".into(),
    };
    match adapter.create_user(&req, "Bearer t", &vec![]) {
        Step::Call(request) => {
            assert_eq!(request.method, Method::Post);
            assert_eq!(request.url, USERS);
            assert_eq!(request.authorization, Some("Bearer t".to_string()));
            match request.body {
                Body::Json(doc) => {
                    assert_eq!(doc.get("email"), Some(&text("a@b.c")));
                    assert_eq!(doc.get("enabled"), Some(&Json::Bool(true)));
                }
                other => panic!("expected a JSON body, got {:?}", other),
            }
        }
        other => panic!("expected a request, got {:?}", other),
    }
    let run = |event: Upstream| adapter.create_user(&req, "Bearer t", &vec![event]);
    assert_eq!(
        run(located(201, "http://kc:8080/admin/realms/demo/users/abc123")),
        Step::Done(Ok(CreateUserRes {
            id: "abc123".into(),
            username: "a@b.c".into(),
            first_name: "F".into(),
            last_name: "L".into(),
            enabled: true,
        }))
    );
    match run(reply(201, "")) {
        Step::Done(Ok(created)) => assert_eq!(created.id, ""),
        other => panic!("expected a user, got {:?}", other),
    }
    assert_eq!(
        run(reply(409, "exists")),
        Step::Done(Err(AppError::Conflict {
            code: 409,
            resource: "user".into(),
            details: "Username already exists".into(),
        }))
    );
    assert_eq!(run(reply(401, "")), Step::Done(Err(AppError::InvalidToken { code: 401 })));
    assert_eq!(run(reply(403, "")), Step::Done(Err(AppError::Forbidden { code: 403 })));
    assert_eq!(run(reply(200, "odd")), Step::Done(Err(external(200, "odd"))));
    assert_eq!(run(unread(500)), Step::Done(Err(external(500, "Unknown error"))));
}

#[test]
fn users_are_listed_and_fetched() {
    let adapter = KeycloakUserAdapter::new(config());
    assert_eq!(
        adapter.get_users("Bearer t", &vec![]),
        Step::Call(get("http://kc:8080/admin/realms/demo/users?enabled=true"))
    );
    assert_eq!(
        adapter.get_users(
            "Bearer t",
            &vec![reply(200, r#"[{"id":"u1","username":"n","lastName":"L","enabled":true}]"#)]
        ),
        Step::Done(Ok(GetUsersRes {
            users: vec![GetUserRes {
                id: "u1".into(),
                username: "n".into(),
                first_name: "".into(),
                last_name: "L".into(),
                enabled: true,
            }]
        }))
    );
    assert_eq!(
        adapter.get_users("Bearer t", &vec![reply(200, "{}")]),
        Step::Done(Err(external(
            500,
            "Failed to parse Keycloak response: the document is not a list"
        )))
    );
    assert_eq!(
        adapter.get_users("Bearer t", &vec![reply(404, "nf")]),
        Step::Done(Err(external(404, "nf")))
    );
    assert_eq!(
        adapter.get_user("u1", "Bearer t", &vec![]),
        Step::Call(get("http://kc:8080/admin/realms/demo/users/u1"))
    );
    assert_eq!(
        adapter.get_user("u1", "Bearer t", &vec![reply(204, r#"{"id":"u1"}"#)]),
        Step::Done(Ok(GetUserRes {
            id: "u1".into(),
            username: "".into(),
            first_name: "".into(),
            last_name: "".into(),
            enabled: false,
        }))
    );
    assert_eq!(
        adapter.get_user("u1", "Bearer t", &vec![reply(404, "")]),
        Step::Done(Err(AppError::NotFound { code: 404, resource: "user".into(), id: "u1".into() }))
    );
    assert_eq!(
        adapter.get_user("u1", "Bearer t", &vec![unread(418)]),
        Step::Done(Err(external(418, "Could not read error body")))
    );
}

#[test]
fn update_user_reads_then_writes() {
    let adapter = KeycloakUserAdapter::new(config());
    let req = UpdateUserReq {
        username: Some("new@x.y".into()),
        first_name: None,
        last_name: Some("L".into()),
    };
    let url = "http://kc:8080/admin/realms/demo/users/u1";
    let current = reply(200, r#"{"id":"u1","username":"old","firstName":"F","enabled":false}"#);
    assert_eq!(adapter.update_user("u1", &req, "Bearer t", &vec![]), Step::Call(get(url)));
    let merged = object(vec![
        ("enabled", Json::Bool(false)),
        ("firstName", text("F")),
        ("id", text("u1")),
        ("username", text("new@x.y")),
        ("email", text("new@x.y")),
        ("lastName", text("L")),
    ]);
    assert_eq!(
        adapter.update_user("u1", &req, "Bearer t", &vec![reply(200, r#"{"id":"u1","username":"old","firstName":"F","enabled":false}"#)]),
        Step::Call(send(Method::Put, url, merged))
    );
    let done = |second: Upstream| {
        adapter.update_user(
            "u1",
            &req,
            "Bearer t",
            &vec![
                reply(200, r#"{"id":"u1","username":"old","firstName":"F","enabled":false}"#),
                second,
            ],
        )
    };
    let updated = CreateUserRes {
        id: "u1".into(),
        username: "new@x.y".into(),
        first_name: "F".into(),
        last_name: "L".into(),
        enabled: false,
    };
    assert_eq!(done(reply(204, "")), Step::Done(Ok(updated.clone())));
    assert_eq!(done(reply(200, "")), Step::Done(Ok(updated)));
    assert_eq!(done(reply(201, "x")), Step::Done(Err(external(201, "x"))));
    assert_eq!(
        done(reply(404, "")),
        Step::Done(Err(AppError::NotFound { code: 404, resource: "user".into(), id: "u1".into() }))
    );
    assert_eq!(
        done(reply(409, "")),
        Step::Done(Err(AppError::Conflict {
            code: 409,
            resource: "user".into(),
            details: "Username already exists".into(),
        }))
    );
    assert_eq!(done(reply(401, "")), Step::Done(Err(AppError::InvalidToken { code: 401 })));
    assert_eq!(done(reply(403, "")), Step::Done(Err(AppError::Forbidden { code: 403 })));
    drop(current);

    let first = |event: Upstream| adapter.update_user("u1", &req, "Bearer t", &vec![event]);
    assert_eq!(
        first(reply(404, "")),
        Step::Done(Err(AppError::NotFound { code: 404, resource: "user".into(), id: "u1".into() }))
    );
    assert_eq!(first(reply(401, "no")), Step::Done(Err(external(401, "no"))));
    assert_eq!(first(unread(500)), Step::Done(Err(external(500, ""))));
    match first(reply(200, "{")) {
        Step::Done(Err(AppError::ExternalServiceError { code: 500, details, .. })) => {
            assert!(details.starts_with("Failed to parse user data: "))
        }
        other => panic!("expected a failure of the provider, got {:?}", other),
    }
}

#[test]
fn password_and_delete_are_one_request() {
    let adapter = KeycloakUserAdapter::new(config());
    assert_eq!(
        adapter.update_password("u1", "pw", "Bearer t", &vec![]),
        Step::Call(send(
            Method::Put,
            "http://kc:8080/admin/realms/demo/users/u1/reset-password",
            object(vec![
                ("type", text("password")),
                ("value", text("pw")),
                ("temporary", Json::Bool(false)),
            ])
        ))
    );
    assert_eq!(
        adapter.update_password("u1", "pw", "Bearer t", &vec![reply(204, "")]),
        Step::Done(Ok(()))
    );
    assert_eq!(
        adapter.update_password("u1", "pw", "Bearer t", &vec![reply(404, "")]),
        Step::Done(Err(AppError::NotFound { code: 404, resource: "user".into(), id: "u1".into() }))
    );
    assert_eq!(
        adapter.delete_user("u1", "Bearer t", &vec![]),
        Step::Call(send(
            Method::Put,
            "http://kc:8080/admin/realms/demo/users/u1",
            object(vec![("enabled", Json::Bool(false))])
        ))
    );
    assert_eq!(
        adapter.delete_user("u1", "Bearer t", &vec![reply(403, "")]),
        Step::Done(Err(AppError::Forbidden { code: 403 }))
    );
}

#[test]
fn delete_user_can_be_repeated() {
    let adapter = KeycloakUserAdapter::new(config());
    let first = adapter.delete_user("u1", "Bearer t", &vec![]);
    assert_eq!(adapter.delete_user("u1", "Bearer t", &vec![reply(204, "")]), Step::Done(Ok(())));
    let again = adapter.delete_user("u1", "Bearer t", &vec![]);
    assert_eq!(first, again);
    assert_eq!(adapter.delete_user("u1", "Bearer t", &vec![reply(204, "")]), Step::Done(Ok(())));
    assert_eq!(adapter.delete_user("u1", "Bearer t", &vec![reply(200, "{}")]), Step::Done(Ok(())));
}

#[test]
fn roles_are_given_and_taken() {
    let adapter = KeycloakUserAdapter::new(config());
    let mappings = "http://kc:8080/admin/realms/demo/users/u1/role-mappings/realm";
    let role = r#"{"id":"r1","name":"admin","composite":false}"#;
    let reference = Json::Array(vec![object(vec![("id", text("r1")), ("name", text("admin"))])]);
    assert_eq!(adapter.add_role("u1", "r1", "Bearer t", &vec![]), Step::Call(get(ROLE_R1)));
    assert_eq!(adapter.remove_role("u1", "r1", "Bearer t", &vec![]), Step::Call(get(ROLE_R1)));
    assert_eq!(
        adapter.add_role("u1", "r1", "Bearer t", &vec![reply(200, role)]),
        Step::Call(send(Method::Post, mappings, reference.duplicate()))
    );
    assert_eq!(
        adapter.remove_role("u1", "r1", "Bearer t", &vec![reply(200, role)]),
        Step::Call(send(Method::Delete, mappings, reference))
    );
    assert_eq!(
        adapter.add_role("u1", "r1", "Bearer t", &vec![reply(200, role), reply(204, "")]),
        Step::Done(Ok(()))
    );
    assert_eq!(
        adapter.add_role("u1", "r1", "Bearer t", &vec![reply(200, role), reply(200, "")]),
        Step::Done(Err(external(200, "")))
    );
    assert_eq!(
        adapter.remove_role("u1", "r1", "Bearer t", &vec![reply(200, role), reply(404, "")]),
        Step::Done(Err(AppError::NotFound { code: 404, resource: "user".into(), id: "u1".into() }))
    );
    assert_eq!(
        adapter.add_role("u1", "r1", "Bearer t", &vec![reply(404, "")]),
        Step::Done(Err(AppError::NotFound { code: 404, resource: "role".into(), id: "r1".into() }))
    );
    assert_eq!(
        adapter.add_role("u1", "r1", "Bearer t", &vec![reply(401, "x")]),
        Step::Done(Err(external(401, "x")))
    );
}

#[test]
fn deleted_role_is_not_given() {
    let adapter = KeycloakUserAdapter::new(config());
    let deleted = r#"{"id":"r1","name":"old","attributes":{"deleted":["true"]}}"#;
    assert_eq!(
        adapter.add_role("u1", "r1", "Bearer t", &vec![reply(200, deleted)]),
        Step::Done(Err(AppError::ValidationError { details: "Role is deleted".into() }))
    );
    match adapter.remove_role("u1", "r1", "Bearer t", &vec![reply(200, deleted)]) {
        Step::Call(request) => assert_eq!(request.method, Method::Delete),
        other => panic!("expected a request, got {:?}", other),
    }
}

#[test]
fn roles_are_fetched_and_listed() {
    let adapter = KeycloakRoleAdapter::new(config());
    assert_eq!(adapter.get_role("r1", "Bearer t", &vec![]), Step::Call(get(ROLE_R1)));
    assert_eq!(
        adapter.get_role(
            "r1",
            "Bearer t",
            &vec![reply(200, r#"{"id":"r1","name":"admin","description":"d"}"#)]
        ),
        Step::Done(Ok(GetRoleRes { id: "r1".into(), name: "admin".into(), description: "d".into() }))
    );
    let gone = AppError::NotFound { code: 404, resource: "role".into(), id: "r1".into() };
    assert_eq!(
        adapter.get_role(
            "r1",
            "Bearer t",
            &vec![reply(200, r#"{"id":"r1","attributes":{"deleted":["true"]}}"#)]
        ),
        Step::Done(Err(gone.clone()))
    );
    assert_eq!(adapter.get_role("r1", "Bearer t", &vec![reply(404, "")]), Step::Done(Err(gone)));
    assert_eq!(
        adapter.get_role("r1", "Bearer t", &vec![reply(204, "x")]),
        Step::Done(Err(external(204, "x")))
    );
    assert_eq!(adapter.get_roles("Bearer t", &vec![]), Step::Call(get(ROLES)));
    assert_eq!(
        adapter.get_roles(
            "Bearer t",
            &vec![reply(
                200,
                r#"[{"id":"r1","name":"a"},{"id":"r2","attributes":{"deleted":["true"]}}]"#
            )]
        ),
        Step::Done(Ok(GetAllRolesRes {
            roles: vec![GetRoleRes { id: "r1".into(), name: "a".into(), description: "".into() }]
        }))
    );
    assert_eq!(
        adapter.get_roles("Bearer t", &vec![reply(200, "7")]),
        Step::Done(Err(external(500, "Failed to parse roles list: the document is not a list")))
    );
    assert_eq!(
        adapter.get_roles("Bearer t", &vec![unread(500)]),
        Step::Done(Err(external(500, "Unknown error")))
    );
}

#[test]
fn role_is_created_then_fetched() {
    let adapter = KeycloakRoleAdapter::new(config());
    let req = CreateRoleReq {
        name: "admin".into(),
        composite: false,
        client_role: false,
        container_id: "demo".into(),
    };
    assert_eq!(
        adapter.create_role(&req, "Bearer t", &vec![]),
        Step::Call(send(
            Method::Post,
            ROLES,
            object(vec![
                ("name", text("admin")),
                ("composite", Json::Bool(false)),
                ("clientRole", Json::Bool(false)),
                ("containerId", text("demo")),
            ])
        ))
    );
    let created = || located(201, "http://kc:8080/admin/realms/demo/roles-by-id/r1");
    assert_eq!(adapter.create_role(&req, "Bearer t", &vec![created()]), Step::Call(get(ROLE_R1)));
    assert_eq!(
        adapter.create_role(
            &req,
            "Bearer t",
            &vec![created(), reply(200, r#"{"id":"r1","name":"admin"}"#)]
        ),
        Step::Done(Ok(GetRoleRes { id: "r1".into(), name: "admin".into(), description: "".into() }))
    );
    assert_eq!(
        adapter.create_role(&req, "Bearer t", &vec![reply(409, "")]),
        Step::Done(Err(AppError::Conflict {
            code: 409,
            resource: "role".into(),
            details: "Role with name 'admin' already exists".into(),
        }))
    );
    assert_eq!(
        adapter.create_role(&req, "Bearer t", &vec![reply(403, "")]),
        Step::Done(Err(AppError::Forbidden { code: 403 }))
    );
}

#[test]
fn role_is_updated_in_place() {
    let adapter = KeycloakRoleAdapter::new(config());
    let req = CreateRoleReq {
        name: "new".into(),
        composite: true,
        client_role: false,
        container_id: "c".into(),
    };
    let current = r#"{"id":"r1","name":"old","description":"kept","attributes":{"k":["v"]}}"#;
    assert_eq!(adapter.update_role("r1", &req, "Bearer t", &vec![]), Step::Call(get(ROLE_R1)));
    assert_eq!(
        adapter.update_role("r1", &req, "Bearer t", &vec![reply(200, current)]),
        Step::Call(send(
            Method::Put,
            ROLE_R1,
            object(vec![
                ("attributes", object(vec![("k", Json::Array(vec![text("v")]))])),
                ("description", text("kept")),
                ("id", text("r1")),
                ("name", text("new")),
                ("composite", Json::Bool(true)),
                ("clientRole", Json::Bool(false)),
                ("containerId", text("c")),
            ])
        ))
    );
    let done = |second: Upstream| {
        adapter.update_role("r1", &req, "Bearer t", &vec![reply(200, current), second])
    };
    assert_eq!(done(reply(204, "")), Step::Done(Ok(())));
    assert_eq!(done(reply(200, "")), Step::Done(Ok(())));
    assert_eq!(
        done(reply(409, "")),
        Step::Done(Err(AppError::Conflict {
            code: 409,
            resource: "role".into(),
            details: "Role with name 'new' already exists".into(),
        }))
    );
    assert_eq!(
        done(reply(404, "")),
        Step::Done(Err(AppError::NotFound { code: 404, resource: "role".into(), id: "r1".into() }))
    );
    assert_eq!(
        adapter.update_role(
            "r1",
            &req,
            "Bearer t",
            &vec![reply(200, r#"{"attributes":{"deleted":["1"]}}"#)]
        ),
        Step::Done(Err(AppError::ValidationError { details: "Role is deleted".into() }))
    );
    assert_eq!(
        adapter.update_role("r1", &req, "Bearer t", &vec![reply(401, "")]),
        Step::Done(Err(AppError::InvalidToken { code: 401 }))
    );
}

#[test]
fn role_is_patched_then_fetched() {
    let adapter = KeycloakRoleAdapter::new(config());
    let req = UpdateRolePartialReq {
        name: Some("p".into()),
        description: None,
        composite: None,
        client_role: Some(true),
        container_id: None,
    };
    assert_eq!(
        adapter.patch_role("r1", &req, "Bearer t", &vec![]),
        Step::Call(send(
            Method::Put,
            ROLE_R1,
            object(vec![("name", text("p")), ("clientRole", Json::Bool(true))])
        ))
    );
    assert_eq!(
        adapter.patch_role("r1", &req, "Bearer t", &vec![reply(204, "")]),
        Step::Call(get(ROLE_R1))
    );
    assert_eq!(
        adapter.patch_role(
            "r1",
            &req,
            "Bearer t",
            &vec![reply(204, ""), reply(200, r#"{"id":"r1","name":"p"}"#)]
        ),
        Step::Done(Ok(GetRoleRes { id: "r1".into(), name: "p".into(), description: "".into() }))
    );
    assert_eq!(
        adapter.patch_role("r1", &req, "Bearer t", &vec![reply(200, "")]),
        Step::Done(Err(external(200, "")))
    );
    assert_eq!(
        adapter.patch_role("r1", &req, "Bearer t", &vec![reply(404, "")]),
        Step::Done(Err(AppError::NotFound { code: 404, resource: "role".into(), id: "r1".into() }))
    );
}

#[test]
fn role_is_deleted_by_a_mark() {
    let adapter = KeycloakRoleAdapter::new(config());
    assert_eq!(adapter.delete_role("r1", "Bearer t", &vec![]), Step::Call(get(ROLE_R1)));
    assert_eq!(
        adapter.delete_role("r1", "Bearer t", &vec![reply(200, r#"{"id":"r1","name":"n"}"#)]),
        Step::Call(send(
            Method::Put,
            ROLE_R1,
            object(vec![
                ("id", text("r1")),
                ("name", text("n")),
                ("attributes", object(vec![("deleted", Json::Array(vec![text("true")]))])),
            ])
        ))
    );
    let done = |second: Upstream| {
        adapter.delete_role("r1", "Bearer t", &vec![reply(200, r#"{"id":"r1"}"#), second])
    };
    assert_eq!(done(reply(204, "")), Step::Done(Ok(())));
    assert_eq!(done(reply(200, "")), Step::Done(Ok(())));
    assert_eq!(done(reply(409, "c")), Step::Done(Err(external(409, "c"))));
    assert_eq!(
        adapter.delete_role("r1", "Bearer t", &vec![reply(404, "")]),
        Step::Done(Err(AppError::NotFound { code: 404, resource: "role".into(), id: "r1".into() }))
    );
}

#[test]
fn no_use_case_asks_a_third_time() {
    let users = KeycloakUserAdapter::new(config());
    let roles = KeycloakRoleAdapter::new(config());
    let three = || vec![reply(200, "{}"), reply(204, ""), reply(200, "{}")];
    let update = UpdateUserReq { username: None, first_name: None, last_name: None };
    let role = CreateRoleReq {
        name: "n".into(),
        composite: false,
        client_role: false,
        container_id: "c".into(),
    };
    assert!(matches!(users.update_user("u", &update, "t", &three()), Step::Done(_)));
    assert!(matches!(users.add_role("u", "r", "t", &three()), Step::Done(_)));
    assert!(matches!(users.remove_role("u", "r", "t", &three()), Step::Done(_)));
    assert!(matches!(roles.update_role("r", &role, "t", &three()), Step::Done(_)));
    assert!(matches!(roles.delete_role("r", "t", &three()), Step::Done(_)));
    assert!(matches!(roles.get_roles("t", &three()), Step::Done(_)));
}
