//! The documents and forms that are sent to the provider.

use vstd::prelude::*;

use crate::dtos::{
    CreateRoleReq, CreateRoleReqView, CreateUserReq, CreateUserReqView, CreateUserRes,
    CreateUserResView, LoginReqKeycloak, LoginReqKeycloakView, UpdateRolePartialReq,
    UpdateRolePartialReqView, UpdateUserReq, UpdateUserReqView,
};
use crate::json::{
    field_views, item_views, lemma_array_view, lemma_object_view, Json, JsonView,
};

verus! {

fn add_field(fields: &mut Vec<(String, Json)>, name: &str, value: Json)
    ensures
        field_views(final(fields)@) == field_views(old(fields)@).push((name@, value@)),
{
    fields.push((name.to_owned(), value));
    assert(field_views(fields@) =~= field_views(old(fields)@).push((name@, value@)));
}

fn no_fields() -> (fields: Vec<(String, Json)>)
    ensures
        field_views(fields@) == Seq::<(Seq<char>, JsonView)>::empty(),
{
    let fields: Vec<(String, Json)> = Vec::new();
    assert(field_views(fields@) =~= Seq::<(Seq<char>, JsonView)>::empty());
    fields
}

fn object(fields: Vec<(String, Json)>) -> (json: Json)
    ensures
        json@ == JsonView::Object(field_views(fields@)),
{
    proof {
        lemma_object_view(fields);
    }
    Json::Object(fields)
}

fn list_of_one(item: Json) -> (json: Json)
    ensures
        json@ == JsonView::Array(seq![item@]),
{
    let mut items: Vec<Json> = Vec::new();
    items.push(item);
    proof {
        lemma_array_view(items);
        assert(item_views(items@) =~= seq![item@]);
    }
    Json::Array(items)
}

/// The form of a login, the fields in the order in which they are sent.
pub open spec fn login_form(req: LoginReqKeycloakView) -> Seq<(Seq<char>, Seq<char>)> {
    seq![
        ("client_id"@, req.client_id),
        ("client_secret"@, req.client_secret),
        ("username"@, req.username),
        ("password"@, req.password),
        ("grant_type"@, req.grant_type),
    ]
}

/// Makes the form of a login.
pub fn make_login_form(req: &LoginReqKeycloak) -> (form: Vec<(String, String)>)
    ensures
        form.deep_view() == login_form(req@),
{
    let mut form: Vec<(String, String)> = Vec::new();
    form.push(("client_id".to_owned(), req.client_id.clone()));
    form.push(("client_secret".to_owned(), req.client_secret.clone()));
    form.push(("username".to_owned(), req.username.clone()));
    form.push(("password".to_owned(), req.password.clone()));
    form.push(("grant_type".to_owned(), req.grant_type.clone()));
    assert(form.deep_view() =~= login_form(req@));
    form
}

/// A password as the provider takes it: a credential that is not temporary.
pub open spec fn credential_body(password: Seq<char>) -> JsonView {
    JsonView::Object(
        seq![
            ("type"@, JsonView::Text("password"@)),
            ("value"@, JsonView::Text(password)),
            ("temporary"@, JsonView::Bool(false)),
        ],
    )
}

/// Makes the credential for a password.
pub fn make_credential_body(password: &str) -> (json: Json)
    ensures
        json@ == credential_body(password@),
{
    let mut fields = no_fields();
    add_field(&mut fields, "type", Json::text("password"));
    add_field(&mut fields, "value", Json::text(password));
    add_field(&mut fields, "temporary", Json::Bool(false));
    assert(field_views(fields@) =~= credential_body(password@)->Object_0);
    object(fields)
}

/// A user to create as the provider takes it: the user name also as e-mail
/// address, the user enabled, and the password as its one credential.
pub open spec fn user_body(req: CreateUserReqView) -> JsonView {
    JsonView::Object(
        seq![
            ("username"@, JsonView::Text(req.username)),
            ("email"@, JsonView::Text(req.username)),
            ("firstName"@, JsonView::Text(req.first_name)),
            ("lastName"@, JsonView::Text(req.last_name)),
            ("enabled"@, JsonView::Bool(true)),
            ("credentials"@, JsonView::Array(seq![credential_body(req.password)])),
        ],
    )
}

/// Makes the document of a user to create.
pub fn make_user_body(req: &CreateUserReq) -> (json: Json)
    ensures
        json@ == user_body(req@),
{
    let mut fields = no_fields();
    add_field(&mut fields, "username", Json::text(req.username.as_str()));
    add_field(&mut fields, "email", Json::text(req.username.as_str()));
    add_field(&mut fields, "firstName", Json::text(req.first_name.as_str()));
    add_field(&mut fields, "lastName", Json::text(req.last_name.as_str()));
    add_field(&mut fields, "enabled", Json::Bool(true));
    add_field(
        &mut fields,
        "credentials",
        list_of_one(make_credential_body(req.password.as_str())),
    );
    assert(field_views(fields@) =~= user_body(req@)->Object_0);
    object(fields)
}

/// The document that disables a user.
pub open spec fn disable_body() -> JsonView {
    JsonView::Object(seq![("enabled"@, JsonView::Bool(false))])
}

/// Makes the document that disables a user.
pub fn make_disable_body() -> (json: Json)
    ensures
        json@ == disable_body(),
{
    let mut fields = no_fields();
    add_field(&mut fields, "enabled", Json::Bool(false));
    assert(field_views(fields@) =~= disable_body()->Object_0);
    object(fields)
}

/// A field given a text where the text is present.
pub open spec fn overlay_text(doc: JsonView, name: Seq<char>, text: Option<Seq<char>>) -> JsonView {
    match text {
        Some(s) => doc.with_field(name, JsonView::Text(s)),
        None => doc,
    }
}

/// A field given a truth value where that is present.
pub open spec fn overlay_truth(doc: JsonView, name: Seq<char>, truth: Option<bool>) -> JsonView {
    match truth {
        Some(b) => doc.with_field(name, JsonView::Bool(b)),
        None => doc,
    }
}

/// The user as the provider holds it, with the fields of a partial update laid
/// over it: a new user name also as e-mail address; what the update leaves out
/// stays as it is.
pub open spec fn overlaid_user(doc: JsonView, req: UpdateUserReqView) -> JsonView {
    overlay_text(
        overlay_text(
            overlay_text(overlay_text(doc, "username"@, req.username), "email"@, req.username),
            "firstName"@,
            req.first_name,
        ),
        "lastName"@,
        req.last_name,
    )
}

fn lay_text(doc: &mut Json, name: &str, text: &Option<String>)
    ensures
        final(doc)@ == overlay_text(old(doc)@, name@, text.deep_view()),
{
    match text {
        Some(s) => doc.set(name, Json::text(s.as_str())),
        None => {},
    }
}

fn lay_truth(doc: &mut Json, name: &str, truth: Option<bool>)
    ensures
        final(doc)@ == overlay_truth(old(doc)@, name@, truth),
{
    match truth {
        Some(b) => doc.set(name, Json::Bool(b)),
        None => {},
    }
}

/// Lays a partial update over the user as the provider holds it.
pub fn overlay_user(doc: &mut Json, req: &UpdateUserReq)
    ensures
        final(doc)@ == overlaid_user(old(doc)@, req@),
{
    lay_text(doc, "username", &req.username);
    lay_text(doc, "email", &req.username);
    lay_text(doc, "firstName", &req.first_name);
    lay_text(doc, "lastName", &req.last_name);
}

/// The user that an update answers with, read from the document that was sent:
/// a name that is missing is empty, and a user without the field `enabled`
/// counts as enabled.
pub open spec fn updated_user(id: Seq<char>, doc: JsonView) -> CreateUserResView {
    CreateUserResView {
        id,
        username: doc.text_at("username"@, Seq::empty()),
        first_name: doc.text_at("firstName"@, Seq::empty()),
        last_name: doc.text_at("lastName"@, Seq::empty()),
        enabled: doc.truth_at("enabled"@, true),
    }
}

/// Reads the user that an update answers with.
pub fn read_updated_user(id: &str, doc: &Json) -> (user: CreateUserRes)
    ensures
        user@ == updated_user(id@, doc@),
{
    proof {
        reveal_strlit("");
        assert(""@ =~= Seq::<char>::empty());
    }
    CreateUserRes {
        id: id.to_owned(),
        username: doc.text_at("username", ""),
        first_name: doc.text_at("firstName", ""),
        last_name: doc.text_at("lastName", ""),
        enabled: doc.truth_at("enabled", true),
    }
}

/// The list of one role by which a role is given to a user or taken from one:
/// the id and the name that the provider states, the id that was asked for
/// where it states none.
pub open spec fn role_reference(role: JsonView, role_id: Seq<char>) -> JsonView {
    JsonView::Array(
        seq![
            JsonView::Object(
                seq![
                    ("id"@, JsonView::Text(role.text_at("id"@, role_id))),
                    ("name"@, JsonView::Text(role.text_at("name"@, Seq::empty()))),
                ],
            ),
        ],
    )
}

/// Makes the list of one role for a role mapping.
pub fn make_role_reference(role: &Json, role_id: &str) -> (json: Json)
    ensures
        json@ == role_reference(role@, role_id@),
{
    proof {
        reveal_strlit("");
        assert(""@ =~= Seq::<char>::empty());
    }
    let mut fields = no_fields();
    add_field(&mut fields, "id", Json::Text(role.text_at("id", role_id)));
    add_field(&mut fields, "name", Json::Text(role.text_at("name", "")));
    assert(field_views(fields@) =~= role_reference(role@, role_id@)->Array_0[0]->Object_0);
    list_of_one(object(fields))
}

/// A role to create as the provider takes it.
pub open spec fn role_body(req: CreateRoleReqView) -> JsonView {
    JsonView::Object(
        seq![
            ("name"@, JsonView::Text(req.name)),
            ("composite"@, JsonView::Bool(req.composite)),
            ("clientRole"@, JsonView::Bool(req.client_role)),
            ("containerId"@, JsonView::Text(req.container_id)),
        ],
    )
}

/// Makes the document of a role to create.
pub fn make_role_body(req: &CreateRoleReq) -> (json: Json)
    ensures
        json@ == role_body(req@),
{
    let mut fields = no_fields();
    add_field(&mut fields, "name", Json::text(req.name.as_str()));
    add_field(&mut fields, "composite", Json::Bool(req.composite));
    add_field(&mut fields, "clientRole", Json::Bool(req.client_role));
    add_field(&mut fields, "containerId", Json::text(req.container_id.as_str()));
    assert(field_views(fields@) =~= role_body(req@)->Object_0);
    object(fields)
}

/// The role as the provider holds it, with the new name, flags and container
/// laid over it; its description and its attributes stay as they are.
pub open spec fn merged_role(doc: JsonView, req: CreateRoleReqView) -> JsonView {
    doc.with_field("name"@, JsonView::Text(req.name)).with_field(
        "composite"@,
        JsonView::Bool(req.composite),
    ).with_field("clientRole"@, JsonView::Bool(req.client_role)).with_field(
        "containerId"@,
        JsonView::Text(req.container_id),
    )
}

/// Lays the new state of a role over the role as the provider holds it.
pub fn merge_role(doc: &mut Json, req: &CreateRoleReq)
    ensures
        final(doc)@ == merged_role(old(doc)@, req@),
{
    doc.set("name", Json::text(req.name.as_str()));
    doc.set("composite", Json::Bool(req.composite));
    doc.set("clientRole", Json::Bool(req.client_role));
    doc.set("containerId", Json::text(req.container_id.as_str()));
}

/// The fields of a partial update of a role that are present, under the names
/// by which the provider knows them.
pub open spec fn partial_role_body(req: UpdateRolePartialReqView) -> JsonView {
    overlay_text(
        overlay_truth(
            overlay_truth(
                overlay_text(
                    overlay_text(JsonView::Object(Seq::empty()), "name"@, req.name),
                    "description"@,
                    req.description,
                ),
                "composite"@,
                req.composite,
            ),
            "clientRole"@,
            req.client_role,
        ),
        "containerId"@,
        req.container_id,
    )
}

/// Makes the document of a partial update of a role.
pub fn make_partial_role_body(req: &UpdateRolePartialReq) -> (json: Json)
    ensures
        json@ == partial_role_body(req@),
{
    let mut doc = object(no_fields());
    lay_text(&mut doc, "name", &req.name);
    lay_text(&mut doc, "description", &req.description);
    lay_truth(&mut doc, "composite", req.composite);
    lay_truth(&mut doc, "clientRole", req.client_role);
    lay_text(&mut doc, "containerId", &req.container_id);
    doc
}

/// The mark of a deleted role: a list that holds the text `true`.
pub open spec fn deleted_mark() -> JsonView {
    JsonView::Array(seq![JsonView::Text("true"@)])
}

/// The attributes of a role with the mark of deletion set; attributes that are
/// missing or no object count as none.
pub open spec fn marked_attributes(doc: JsonView) -> JsonView {
    match doc.field("attributes"@) {
        Some(JsonView::Object(fields)) => JsonView::Object(fields).with_field(
            "deleted"@,
            deleted_mark(),
        ),
        _ => JsonView::Object(seq![("deleted"@, deleted_mark())]),
    }
}

/// The role as the provider holds it, marked as deleted.
pub open spec fn deleted_role(doc: JsonView) -> JsonView {
    doc.with_field("attributes"@, marked_attributes(doc))
}

/// Marks the role as deleted.
pub fn mark_deleted(doc: &mut Json)
    ensures
        final(doc)@ == deleted_role(old(doc)@),
{
    let mut attributes = match doc.get("attributes") {
        Some(found) => if found.is_object() {
            found.duplicate()
        } else {
            object(no_fields())
        },
        None => object(no_fields()),
    };
    let ghost start = attributes@;
    attributes.set("deleted", list_of_one(Json::text("true")));
    proof {
        if !(doc@.field("attributes"@) matches Some(JsonView::Object(_))) {
            assert(start == JsonView::Object(Seq::empty()));
            assert(attributes@->Object_0 =~= seq![("deleted"@, deleted_mark())]);
        }
    }
    doc.set("attributes", attributes);
}

} // verus!
