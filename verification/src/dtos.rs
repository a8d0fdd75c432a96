//! The requests and responses that pass through the service, each with the
//! mathematical value that the contracts speak of.

use vstd::prelude::*;

verus! {

/// The values of a list of items.
pub open spec fn views<T: View>(items: Seq<T>) -> Seq<T::V> {
    Seq::new(items.len(), |i: int| items[i]@)
}

/// Credentials of a login, as they come in.
#[derive(Debug, Clone, PartialEq, Eq)]
pub struct LoginReq {
    pub username: String,
    pub password: String,
}

/// The value of a [`LoginReq`].
pub struct LoginReqView {
    pub username: Seq<char>,
    pub password: Seq<char>,
}

impl View for LoginReq {
    type V = LoginReqView;

    open spec fn view(&self) -> LoginReqView {
        LoginReqView {
            username: self.username@,
            password: self.password@,
        }
    }
}

/// The form that the provider's token endpoint takes.
#[derive(Debug, Clone, PartialEq, Eq)]
pub struct LoginReqKeycloak {
    pub client_id: String,
    pub client_secret: String,
    pub username: String,
    pub password: String,
    pub grant_type: String,
}

/// The value of a [`LoginReqKeycloak`].
pub struct LoginReqKeycloakView {
    pub client_id: Seq<char>,
    pub client_secret: Seq<char>,
    pub username: Seq<char>,
    pub password: Seq<char>,
    pub grant_type: Seq<char>,
}

impl View for LoginReqKeycloak {
    type V = LoginReqKeycloakView;

    open spec fn view(&self) -> LoginReqKeycloakView {
        LoginReqKeycloakView {
            client_id: self.client_id@,
            client_secret: self.client_secret@,
            username: self.username@,
            password: self.password@,
            grant_type: self.grant_type@,
        }
    }
}

/// The session handed to the caller after a login.
#[derive(Debug, Clone, PartialEq, Eq)]
pub struct LoginRes {
    pub token_type: String,
    pub access_token: String,
    pub expires_in: u16,
    pub refresh_token: String,
    pub refresh_expires_in: u16,
}

/// The value of a [`LoginRes`].
pub struct LoginResView {
    pub token_type: Seq<char>,
    pub access_token: Seq<char>,
    pub expires_in: u16,
    pub refresh_token: Seq<char>,
    pub refresh_expires_in: u16,
}

impl View for LoginRes {
    type V = LoginResView;

    open spec fn view(&self) -> LoginResView {
        LoginResView {
            token_type: self.token_type@,
            access_token: self.access_token@,
            expires_in: self.expires_in,
            refresh_token: self.refresh_token@,
            refresh_expires_in: self.refresh_expires_in,
        }
    }
}

/// The session as the provider's token endpoint states it.
#[derive(Debug, Clone, PartialEq, Eq)]
pub struct LoginResKeycloak {
    pub access_token: String,
    pub expires_in: i64,
    pub refresh_expires_in: i64,
    pub refresh_token: String,
    pub token_type: String,
}

/// The value of a [`LoginResKeycloak`].
pub struct LoginResKeycloakView {
    pub access_token: Seq<char>,
    pub expires_in: i64,
    pub refresh_expires_in: i64,
    pub refresh_token: Seq<char>,
    pub token_type: Seq<char>,
}

impl View for LoginResKeycloak {
    type V = LoginResKeycloakView;

    open spec fn view(&self) -> LoginResKeycloakView {
        LoginResKeycloakView {
            access_token: self.access_token@,
            expires_in: self.expires_in,
            refresh_expires_in: self.refresh_expires_in,
            refresh_token: self.refresh_token@,
            token_type: self.token_type@,
        }
    }
}

/// A user to create.
#[derive(Debug, Clone, PartialEq, Eq)]
pub struct CreateUserReq {
    pub username: String,
    pub password: String,
    pub first_name: String,
    pub last_name: String,
}

/// The value of a [`CreateUserReq`].
pub struct CreateUserReqView {
    pub username: Seq<char>,
    pub password: Seq<char>,
    pub first_name: Seq<char>,
    pub last_name: Seq<char>,
}

impl View for CreateUserReq {
    type V = CreateUserReqView;

    open spec fn view(&self) -> CreateUserReqView {
        CreateUserReqView {
            username: self.username@,
            password: self.password@,
            first_name: self.first_name@,
            last_name: self.last_name@,
        }
    }
}

/// A partial update of a user: an absent field is left as it is.
#[derive(Debug, Clone, PartialEq, Eq)]
pub struct UpdateUserReq {
    pub username: Option<String>,
    pub first_name: Option<String>,
    pub last_name: Option<String>,
}

/// The value of a [`UpdateUserReq`].
pub struct UpdateUserReqView {
    pub username: Option<Seq<char>>,
    pub first_name: Option<Seq<char>>,
    pub last_name: Option<Seq<char>>,
}

impl View for UpdateUserReq {
    type V = UpdateUserReqView;

    open spec fn view(&self) -> UpdateUserReqView {
        UpdateUserReqView {
            username: self.username.deep_view(),
            first_name: self.first_name.deep_view(),
            last_name: self.last_name.deep_view(),
        }
    }
}

/// A new password for a user.
#[derive(Debug, Clone, PartialEq, Eq)]
pub struct PasswordUpdateReq {
    pub password: String,
}

/// The value of a [`PasswordUpdateReq`].
pub struct PasswordUpdateReqView {
    pub password: Seq<char>,
}

impl View for PasswordUpdateReq {
    type V = PasswordUpdateReqView;

    open spec fn view(&self) -> PasswordUpdateReqView {
        PasswordUpdateReqView {
            password: self.password@,
        }
    }
}

/// The role to give to a user.
#[derive(Debug, Clone, PartialEq, Eq)]
pub struct AssignRoleReq {
    pub role_id: String,
}

/// The value of a [`AssignRoleReq`].
pub struct AssignRoleReqView {
    pub role_id: Seq<char>,
}

impl View for AssignRoleReq {
    type V = AssignRoleReqView;

    open spec fn view(&self) -> AssignRoleReqView {
        AssignRoleReqView {
            role_id: self.role_id@,
        }
    }
}

/// A role to create, or the new state of a role.
#[derive(Debug, Clone, PartialEq, Eq)]
pub struct CreateRoleReq {
    pub name: String,
    pub composite: bool,
    pub client_role: bool,
    pub container_id: String,
}

/// The value of a [`CreateRoleReq`].
pub struct CreateRoleReqView {
    pub name: Seq<char>,
    pub composite: bool,
    pub client_role: bool,
    pub container_id: Seq<char>,
}

impl View for CreateRoleReq {
    type V = CreateRoleReqView;

    open spec fn view(&self) -> CreateRoleReqView {
        CreateRoleReqView {
            name: self.name@,
            composite: self.composite,
            client_role: self.client_role,
            container_id: self.container_id@,
        }
    }
}

/// A partial update of a role: an absent field is left as it is.
#[derive(Debug, Clone, PartialEq, Eq)]
pub struct UpdateRolePartialReq {
    pub name: Option<String>,
    pub description: Option<String>,
    pub composite: Option<bool>,
    pub client_role: Option<bool>,
    pub container_id: Option<String>,
}

/// The value of a [`UpdateRolePartialReq`].
pub struct UpdateRolePartialReqView {
    pub name: Option<Seq<char>>,
    pub description: Option<Seq<char>>,
    pub composite: Option<bool>,
    pub client_role: Option<bool>,
    pub container_id: Option<Seq<char>>,
}

impl View for UpdateRolePartialReq {
    type V = UpdateRolePartialReqView;

    open spec fn view(&self) -> UpdateRolePartialReqView {
        UpdateRolePartialReqView {
            name: self.name.deep_view(),
            description: self.description.deep_view(),
            composite: self.composite,
            client_role: self.client_role,
            container_id: self.container_id.deep_view(),
        }
    }
}

/// A user as returned after it was created or updated.
#[derive(Debug, Clone, PartialEq, Eq)]
pub struct CreateUserRes {
    pub id: String,
    pub username: String,
    pub first_name: String,
    pub last_name: String,
    pub enabled: bool,
}

/// The value of a [`CreateUserRes`].
pub struct CreateUserResView {
    pub id: Seq<char>,
    pub username: Seq<char>,
    pub first_name: Seq<char>,
    pub last_name: Seq<char>,
    pub enabled: bool,
}

impl View for CreateUserRes {
    type V = CreateUserResView;

    open spec fn view(&self) -> CreateUserResView {
        CreateUserResView {
            id: self.id@,
            username: self.username@,
            first_name: self.first_name@,
            last_name: self.last_name@,
            enabled: self.enabled,
        }
    }
}

/// A user as the provider holds it.
#[derive(Debug, Clone, PartialEq, Eq)]
pub struct GetUserRes {
    pub id: String,
    pub username: String,
    pub first_name: String,
    pub last_name: String,
    pub enabled: bool,
}

/// The value of a [`GetUserRes`].
pub struct GetUserResView {
    pub id: Seq<char>,
    pub username: Seq<char>,
    pub first_name: Seq<char>,
    pub last_name: Seq<char>,
    pub enabled: bool,
}

impl View for GetUserRes {
    type V = GetUserResView;

    open spec fn view(&self) -> GetUserResView {
        GetUserResView {
            id: self.id@,
            username: self.username@,
            first_name: self.first_name@,
            last_name: self.last_name@,
            enabled: self.enabled,
        }
    }
}

/// The users of the realm.
#[derive(Debug, Clone, PartialEq, Eq)]
pub struct GetUsersRes {
    pub users: Vec<GetUserRes>,
}

/// The value of a [`GetUsersRes`].
pub struct GetUsersResView {
    pub users: Seq<GetUserResView>,
}

impl View for GetUsersRes {
    type V = GetUsersResView;

    open spec fn view(&self) -> GetUsersResView {
        GetUsersResView {
            users: views(self.users@),
        }
    }
}

/// A role as the provider holds it.
#[derive(Debug, Clone, PartialEq, Eq)]
pub struct GetRoleRes {
    pub id: String,
    pub name: String,
    pub description: String,
}

/// The value of a [`GetRoleRes`].
pub struct GetRoleResView {
    pub id: Seq<char>,
    pub name: Seq<char>,
    pub description: Seq<char>,
}

impl View for GetRoleRes {
    type V = GetRoleResView;

    open spec fn view(&self) -> GetRoleResView {
        GetRoleResView {
            id: self.id@,
            name: self.name@,
            description: self.description@,
        }
    }
}

/// The roles of the realm that are not deleted.
#[derive(Debug, Clone, PartialEq, Eq)]
pub struct GetAllRolesRes {
    pub roles: Vec<GetRoleRes>,
}

/// The value of a [`GetAllRolesRes`].
pub struct GetAllRolesResView {
    pub roles: Seq<GetRoleResView>,
}

impl View for GetAllRolesRes {
    type V = GetAllRolesResView;

    open spec fn view(&self) -> GetAllRolesResView {
        GetAllRolesResView {
            roles: views(self.roles@),
        }
    }
}

} // verus!
