use oauth::bodies::{
    make_credential_body, make_disable_body, make_login_form, make_partial_role_body,
    make_role_body, make_role_reference, make_user_body, mark_deleted, merge_role, overlay_user,
    read_updated_user,
};
use oauth::dtos::{
    CreateRoleReq, CreateUserReq, CreateUserRes, GetRoleRes, GetUserRes, LoginReqKeycloak,
    LoginResKeycloak, UpdateRolePartialReq, UpdateUserReq,
};
use oauth::json::Json;
use oauth::mapping::{
    coerce_expiry, is_marked_deleted, is_truthy, parse_i64, role_from_json, roles_from_json,
    session_from_json, user_from_json, users_from_json,
};

fn text(s: &str) -> Json {
    Json::Text(s.to_string())
}

fn object(fields: Vec<(&str, Json)>) -> Json {
    Json::Object(fields.into_iter().map(|(k, v)| (k.to_string(), v)).collect())
}

#[test]
fn parse_reads_every_kind() {
    let doc = Json::parse(r#"{"b":[1,-2,3.5,1e3,"x",true,null],"a":{"k":"v"}}"#).expect("json");
    assert_eq!(
        doc.get("b"),
        Some(&Json::Array(vec![
            Json::Number("1".into()),
            Json::Number("-2".into()),
            Json::Number("3.5".into()),
            Json::Number("1000.0".into()),
            text("x"),
            Json::Bool(true),
            Json::Null,
        ]))
    );
    assert_eq!(doc.get("a"), Some(&object(vec![("k", text("v"))])));
    assert_eq!(doc.get("c"), None);
    assert_eq!(Json::parse("  \"s\" "), Ok(text("s")));
}

#[test]
fn parse_refuses_what_is_no_json() {
    assert!(Json::parse("").is_err());
    assert!(Json::parse("{").is_err());
    assert!(Json::parse("{\"a\":1,}").is_err());
    let message = Json::parse("nope").unwrap_err();
    assert!(!message.is_empty());
}

#[test]
fn lookups_and_defaults() {
    let doc = object(vec![("id", text("7")), ("on", Json::Bool(true)), ("id", text("8"))]);
    assert_eq!(doc.get("id"), Some(&text("7")));
    assert_eq!(doc.text_at("id", "d"), "7");
    assert_eq!(doc.text_at("on", "d"), "d");
    assert_eq!(doc.text_at("none", "d"), "d");
    assert!(doc.truth_at("on", false));
    assert!(doc.truth_at("id", true));
    assert!(!doc.truth_at("none", false));
    assert_eq!(text("x").get("id"), None);
    assert_eq!(text("x").as_str(), Some("x"));
    assert_eq!(Json::Bool(false).as_bool(), Some(false));
    assert_eq!(Json::Null.as_bool(), None);
    assert_eq!(Json::Array(vec![Json::Null]).as_array(), Some(&vec![Json::Null]));
    assert!(doc.is_object());
    assert!(!Json::Null.is_object());
}

#[test]
fn set_replaces_or_adds() {
    let mut doc = object(vec![("a", text("1")), ("b", text("2"))]);
    doc.set("a", Json::Bool(true));
    doc.set("c", Json::Null);
    assert_eq!(
        doc,
        object(vec![("a", Json::Bool(true)), ("b", text("2")), ("c", Json::Null)])
    );
    let mut other = text("x");
    other.set("a", Json::Null);
    assert_eq!(other, text("x"));
}

#[test]
fn duplicate_copies_the_tree() {
    let doc = object(vec![
        ("a", Json::Array(vec![Json::Number("1".into()), object(vec![("b", Json::Null)])])),
        ("c", text("d")),
    ]);
    assert_eq!(doc.duplicate(), doc);
}

#[test]
fn user_fields_come_under_any_spelling() {
    let doc = Json::parse(
        r#"{"id":"u1","email":"e@x.y","first-name":"F","last_name":"L","enabled":true}"#,
    )
    .expect("json");
    assert_eq!(
        user_from_json(&doc),
        GetUserRes {
            id: "u1".into(),
            username: "e@x.y".into(),
            first_name: "F".into(),
            last_name: "L".into(),
            enabled: true,
        }
    );
    let camel = Json::parse(
        r#"{"id":"u2","username":"n","email":"e","firstName":"A","first_name":"B","lastName":"C"}"#,
    )
    .expect("json");
    assert_eq!(
        user_from_json(&camel),
        GetUserRes {
            id: "u2".into(),
            username: "n".into(),
            first_name: "A".into(),
            last_name: "C".into(),
            enabled: false,
        }
    );
}

#[test]
fn user_missing_first_name_is_empty() {
    let doc = Json::parse(r#"{"id":"u1","username":"n","lastName":"L"}"#).expect("json");
    let user = user_from_json(&doc);
    assert_eq!(user.first_name, "");
    assert_eq!(user.last_name, "L");
    let list = Json::parse(r#"[{"id":"u1"},{"id":"u2","firstName":"F"},7]"#).expect("json");
    let users = users_from_json(&list).expect("a list");
    assert_eq!(users.len(), 3);
    assert_eq!(users[0].first_name, "");
    assert_eq!(users[1].first_name, "F");
    assert_eq!(users[2].id, "");
    assert_eq!(users_from_json(&text("x")), None);
}

#[test]
fn user_name_of_another_type_is_not_skipped() {
    let doc = Json::parse(r#"{"firstName":5,"first_name":"x","username":5,"email":"e"}"#)
        .expect("json");
    let user = user_from_json(&doc);
    assert_eq!(user.first_name, "");
    assert_eq!(user.username, "e");
}

#[test]
fn deleted_marks() {
    for marked in [
        r#"{"attributes":{"deleted":["true"]}}"#,
        r#"{"attributes":{"deleted":["no","TRUE"]}}"#,
        r#"{"attributes":{"deleted":["1"]}}"#,
        r#"{"attributes":{"deleted":[true]}}"#,
        r#"{"attributes":{"deleted":true}}"#,
        r#"{"attributes":{"deleted":"True"}}"#,
        r#"{"attributes":{"deleted":"1"}}"#,
    ] {
        assert!(is_marked_deleted(&Json::parse(marked).expect("json")), "{marked}");
    }
    for clear in [
        r#"{}"#,
        r#"{"attributes":{}}"#,
        r#"{"attributes":{"deleted":[]}}"#,
        r#"{"attributes":{"deleted":["false"]}}"#,
        r#"{"attributes":{"deleted":["yes"]}}"#,
        r#"{"attributes":{"deleted":false}}"#,
        r#"{"attributes":{"deleted":1}}"#,
        r#"{"attributes":{"deleted":[1]}}"#,
        r#"{"attributes":["deleted"]}"#,
        r#"{"deleted":["true"]}"#,
    ] {
        assert!(!is_marked_deleted(&Json::parse(clear).expect("json")), "{clear}");
    }
    assert!(is_truthy(&text("tRuE")));
    assert!(!is_truthy(&text("true ")));
    assert!(!is_truthy(&Json::Number("1".into())));
}

#[test]
fn roles_are_read_and_deleted_ones_left_out() {
    let list = Json::parse(
        r#"[{"id":"r1","name":"admin","description":"d"},
            {"id":"r2","name":"old","attributes":{"deleted":["true"]}},
            {"id":"r3"}]"#,
    )
    .expect("json");
    assert_eq!(
        roles_from_json(&list),
        Some(vec![
            GetRoleRes { id: "r1".into(), name: "admin".into(), description: "d".into() },
            GetRoleRes { id: "r3".into(), name: "".into(), description: "".into() },
        ])
    );
    assert_eq!(roles_from_json(&object(vec![])), None);
    assert_eq!(
        role_from_json(&Json::parse(r#"{"name":"n","description":7}"#).expect("json")),
        GetRoleRes { id: "".into(), name: "n".into(), description: "".into() }
    );
}

#[test]
fn whole_numbers() {
    assert_eq!(parse_i64("0"), Some(0));
    assert_eq!(parse_i64("300"), Some(300));
    assert_eq!(parse_i64("-1"), Some(-1));
    assert_eq!(parse_i64("007"), Some(7));
    assert_eq!(parse_i64("9223372036854775807"), Some(i64::MAX));
    assert_eq!(parse_i64("-9223372036854775808"), Some(i64::MIN));
    assert_eq!(parse_i64("9223372036854775808"), None);
    assert_eq!(parse_i64("-9223372036854775809"), None);
    assert_eq!(parse_i64("99999999999999999999999999"), None);
    assert_eq!(parse_i64(""), None);
    assert_eq!(parse_i64("-"), None);
    assert_eq!(parse_i64("+1"), None);
    assert_eq!(parse_i64("1.0"), None);
    assert_eq!(parse_i64("1e3"), None);
    assert_eq!(parse_i64("12a"), None);
    assert_eq!(parse_i64("--1"), None);
}

#[test]
fn expiries() {
    assert_eq!(coerce_expiry(0), 0);
    assert_eq!(coerce_expiry(300), 300);
    assert_eq!(coerce_expiry(65535), 65535);
    assert_eq!(coerce_expiry(65536), 0);
    assert_eq!(coerce_expiry(-1), 0);
    assert_eq!(coerce_expiry(i64::MIN), 0);
}

#[test]
fn sessions_need_every_field() {
    let full = Json::parse(
        r#"{"access_token":"A","expires_in":300,"refresh_expires_in":1800,
            "refresh_token":"R","token_type":"Bearer","scope":"email"}"#,
    )
    .expect("json");
    assert_eq!(
        session_from_json(&full),
        Some(LoginResKeycloak {
            access_token: "A".into(),
            expires_in: 300,
            refresh_expires_in: 1800,
            refresh_token: "R".into(),
            token_type: "Bearer".into(),
        })
    );
    for lacking in [
        r#"{"expires_in":300,"refresh_expires_in":1800,"refresh_token":"R","token_type":"B"}"#,
        r#"{"access_token":"A","expires_in":"300","refresh_expires_in":1800,"refresh_token":"R","token_type":"B"}"#,
        r#"{"access_token":"A","expires_in":300.5,"refresh_expires_in":1800,"refresh_token":"R","token_type":"B"}"#,
        r#"{"access_token":"A","expires_in":300,"refresh_expires_in":1800,"refresh_token":null,"token_type":"B"}"#,
        r#"[]"#,
    ] {
        assert_eq!(session_from_json(&Json::parse(lacking).expect("json")), None, "{lacking}");
    }
}

#[test]
fn bodies_for_the_provider() {
    assert_eq!(
        make_login_form(&LoginReqKeycloak {
            client_id: "c".into(),
            client_secret: "s".into(),
            username: "u".into(),
            password: "p".into(),
            grant_type: "password".into(),
        }),
        vec![
            ("client_id".to_string(), "c".to_string()),
            ("client_secret".to_string(), "s".to_string()),
            ("username".to_string(), "u".to_string()),
            ("password".to_string(), "p".to_string()),
            ("grant_type".to_string(), "password".to_string()),
        ]
    );
    let credential = object(vec![
        ("type", text("password")),
        ("value", text("pw")),
        ("temporary", Json::Bool(false)),
    ]);
    assert_eq!(make_credential_body("pw"), credential);
    assert_eq!(
        make_user_body(&CreateUserReq {
            username: "a@b.c".into(),
            password: "pw".into(),
            first_name: "F".into(),
            last_name: "L".into(),
        }),
        object(vec![
            ("username", text("a@b.c")),
            ("email", text("a@b.c")),
            ("firstName", text("F")),
            ("lastName", text("L")),
            ("enabled", Json::Bool(true)),
            ("credentials", Json::Array(vec![credential])),
        ])
    );
    assert_eq!(make_disable_body(), object(vec![("enabled", Json::Bool(false))]));
    assert_eq!(
        make_role_body(&CreateRoleReq {
            name: "n".into(),
            composite: true,
            client_role: false,
            container_id: "c".into(),
        }),
        object(vec![
            ("name", text("n")),
            ("composite", Json::Bool(true)),
            ("clientRole", Json::Bool(false)),
            ("containerId", text("c")),
        ])
    );
    assert_eq!(
        make_partial_role_body(&UpdateRolePartialReq {
            name: None,
            description: Some("d".into()),
            composite: Some(false),
            client_role: None,
            container_id: Some("c".into()),
        }),
        object(vec![
            ("description", text("d")),
            ("composite", Json::Bool(false)),
            ("containerId", text("c")),
        ])
    );
    let role = object(vec![("id", text("rid")), ("name", text("admin"))]);
    assert_eq!(
        make_role_reference(&role, "asked"),
        Json::Array(vec![object(vec![("id", text("rid")), ("name", text("admin"))])])
    );
    assert_eq!(
        make_role_reference(&object(vec![]), "asked"),
        Json::Array(vec![object(vec![("id", text("asked")), ("name", text(""))])])
    );
}

#[test]
fn overlays_keep_what_is_left_out() {
    let mut doc = Json::parse(
        r#"{"id":"u1","username":"old","email":"old","firstName":"F","createdTimestamp":17,"enabled":false}"#,
    )
    .expect("json");
    overlay_user(
        &mut doc,
        &UpdateUserReq { username: Some("new@x.y".into()), first_name: None, last_name: Some("L".into()) },
    );
    assert_eq!(
        doc,
        object(vec![
            ("createdTimestamp", Json::Number("17".into())),
            ("email", text("new@x.y")),
            ("enabled", Json::Bool(false)),
            ("firstName", text("F")),
            ("id", text("u1")),
            ("username", text("new@x.y")),
            ("lastName", text("L")),
        ])
    );
    assert_eq!(
        read_updated_user("u1", &doc),
        CreateUserRes {
            id: "u1".into(),
            username: "new@x.y".into(),
            first_name: "F".into(),
            last_name: "L".into(),
            enabled: false,
        }
    );
    assert!(read_updated_user("u", &object(vec![])).enabled);

    let mut role = object(vec![
        ("name", text("old")),
        ("description", text("kept")),
        ("attributes", object(vec![("k", Json::Array(vec![text("v")]))])),
    ]);
    merge_role(
        &mut role,
        &CreateRoleReq { name: "new".into(), composite: true, client_role: true, container_id: "c".into() },
    );
    assert_eq!(
        role,
        object(vec![
            ("name", text("new")),
            ("description", text("kept")),
            ("attributes", object(vec![("k", Json::Array(vec![text("v")]))])),
            ("composite", Json::Bool(true)),
            ("clientRole", Json::Bool(true)),
            ("containerId", text("c")),
        ])
    );
}

#[test]
fn marking_a_role_as_deleted() {
    let mut with = object(vec![
        ("id", text("r")),
        ("attributes", object(vec![("k", text("v")), ("deleted", Json::Array(vec![]))])),
    ]);
    mark_deleted(&mut with);
    assert_eq!(
        with,
        object(vec![
            ("id", text("r")),
            (
                "attributes",
                object(vec![("k", text("v")), ("deleted", Json::Array(vec![text("true")]))])
            ),
        ])
    );
    assert!(is_marked_deleted(&with));

    let mut without = object(vec![("id", text("r"))]);
    mark_deleted(&mut without);
    assert_eq!(
        without,
        object(vec![
            ("id", text("r")),
            ("attributes", object(vec![("deleted", Json::Array(vec![text("true")]))])),
        ])
    );

    let mut odd = object(vec![("attributes", text("x"))]);
    mark_deleted(&mut odd);
    assert!(is_marked_deleted(&odd));
}
