//! The capabilities that the services ask of an identity provider. The adapters
//! for the real provider stand behind them, and so may any stand-in.
//!
//! Each capability comes with a relation that says which outcomes the provider
//! may give for which arguments. A provider that says nothing of itself keeps the
//! relation that holds of every outcome; one that is verified may state more.

use vstd::prelude::*;

use crate::dtos::{
    CreateRoleReq, CreateRoleReqView, CreateUserReq, CreateUserReqView, CreateUserRes,
    CreateUserResView, GetAllRolesRes, GetAllRolesResView, GetRoleRes, GetRoleResView,
    GetUserRes, GetUserResView, GetUsersRes, GetUsersResView, LoginReqKeycloak,
    LoginReqKeycloakView, LoginResKeycloak, LoginResKeycloakView, UpdateRolePartialReq,
    UpdateRolePartialReqView, UpdateUserReq, UpdateUserReqView,
};
use crate::error::{outcome_view, AppError, AppErrorView};

verus! {

/// A provider of logins.
pub trait AuthProvider {
    /// Whether the provider may give this outcome to `login` with these arguments.
    open spec fn login_answer(
        &self,
        req: LoginReqKeycloakView,
        outcome: Result<LoginResKeycloakView, AppErrorView>,
    ) -> bool {
        true
    }

    /// Logs in with the given form.
    fn login(&self, req: &LoginReqKeycloak) -> (r: Result<LoginResKeycloak, AppError>)
        ensures
            self.login_answer(req@, outcome_view(r)),
    ;
}

/// A provider of the use cases on users; `token` is the caller's bearer token.
pub trait UserProvider {
    /// Whether the provider may give this outcome to `create_user` with these arguments.
    open spec fn create_user_answer(
        &self,
        req: CreateUserReqView,
        token: Seq<char>,
        outcome: Result<CreateUserResView, AppErrorView>,
    ) -> bool {
        true
    }

    /// Creates a user.
    fn create_user(&self, req: &CreateUserReq, token: &str) -> (r: Result<CreateUserRes, AppError>)
        ensures
            self.create_user_answer(req@, token@, outcome_view(r)),
    ;

    /// Whether the provider may give this outcome to `get_users` with these arguments.
    open spec fn get_users_answer(
        &self,
        token: Seq<char>,
        outcome: Result<GetUsersResView, AppErrorView>,
    ) -> bool {
        true
    }

    /// Lists the users.
    fn get_users(&self, token: &str) -> (r: Result<GetUsersRes, AppError>)
        ensures
            self.get_users_answer(token@, outcome_view(r)),
    ;

    /// Whether the provider may give this outcome to `get_user` with these arguments.
    open spec fn get_user_answer(
        &self,
        id: Seq<char>,
        token: Seq<char>,
        outcome: Result<GetUserResView, AppErrorView>,
    ) -> bool {
        true
    }

    /// Fetches a user.
    fn get_user(&self, id: &str, token: &str) -> (r: Result<GetUserRes, AppError>)
        ensures
            self.get_user_answer(id@, token@, outcome_view(r)),
    ;

    /// Whether the provider may give this outcome to `update_user` with these arguments.
    open spec fn update_user_answer(
        &self,
        id: Seq<char>,
        req: UpdateUserReqView,
        token: Seq<char>,
        outcome: Result<CreateUserResView, AppErrorView>,
    ) -> bool {
        true
    }

    /// Updates the fields of a user that the request brings.
    fn update_user(&self, id: &str, req: &UpdateUserReq, token: &str) -> (r: Result<CreateUserRes, AppError>)
        ensures
            self.update_user_answer(id@, req@, token@, outcome_view(r)),
    ;

    /// Whether the provider may give this outcome to `update_password` with these arguments.
    open spec fn update_password_answer(
        &self,
        id: Seq<char>,
        password: Seq<char>,
        token: Seq<char>,
        outcome: Result<(), AppErrorView>,
    ) -> bool {
        true
    }

    /// Sets the password of a user.
    fn update_password(&self, id: &str, password: &str, token: &str) -> (r: Result<(), AppError>)
        ensures
            self.update_password_answer(id@, password@, token@, outcome_view(r)),
    ;

    /// Whether the provider may give this outcome to `delete_user` with these arguments.
    open spec fn delete_user_answer(
        &self,
        id: Seq<char>,
        token: Seq<char>,
        outcome: Result<(), AppErrorView>,
    ) -> bool {
        true
    }

    /// Deletes a user.
    fn delete_user(&self, id: &str, token: &str) -> (r: Result<(), AppError>)
        ensures
            self.delete_user_answer(id@, token@, outcome_view(r)),
    ;

    /// Whether the provider may give this outcome to `add_role` with these arguments.
    open spec fn add_role_answer(
        &self,
        user_id: Seq<char>,
        role_id: Seq<char>,
        token: Seq<char>,
        outcome: Result<(), AppErrorView>,
    ) -> bool {
        true
    }

    /// Gives a role to a user.
    fn add_role(&self, user_id: &str, role_id: &str, token: &str) -> (r: Result<(), AppError>)
        ensures
            self.add_role_answer(user_id@, role_id@, token@, outcome_view(r)),
    ;

    /// Whether the provider may give this outcome to `remove_role` with these arguments.
    open spec fn remove_role_answer(
        &self,
        user_id: Seq<char>,
        role_id: Seq<char>,
        token: Seq<char>,
        outcome: Result<(), AppErrorView>,
    ) -> bool {
        true
    }

    /// Takes a role from a user.
    fn remove_role(&self, user_id: &str, role_id: &str, token: &str) -> (r: Result<(), AppError>)
        ensures
            self.remove_role_answer(user_id@, role_id@, token@, outcome_view(r)),
    ;
}

/// A provider of the use cases on roles; `token` is the caller's bearer token.
pub trait RoleProvider {
    /// Whether the provider may give this outcome to `create_role` with these arguments.
    open spec fn create_role_answer(
        &self,
        req: CreateRoleReqView,
        token: Seq<char>,
        outcome: Result<GetRoleResView, AppErrorView>,
    ) -> bool {
        true
    }

    /// Creates a role.
    fn create_role(&self, req: &CreateRoleReq, token: &str) -> (r: Result<GetRoleRes, AppError>)
        ensures
            self.create_role_answer(req@, token@, outcome_view(r)),
    ;

    /// Whether the provider may give this outcome to `get_roles` with these arguments.
    open spec fn get_roles_answer(
        &self,
        token: Seq<char>,
        outcome: Result<GetAllRolesResView, AppErrorView>,
    ) -> bool {
        true
    }

    /// Lists the roles.
    fn get_roles(&self, token: &str) -> (r: Result<GetAllRolesRes, AppError>)
        ensures
            self.get_roles_answer(token@, outcome_view(r)),
    ;

    /// Whether the provider may give this outcome to `get_role` with these arguments.
    open spec fn get_role_answer(
        &self,
        id: Seq<char>,
        token: Seq<char>,
        outcome: Result<GetRoleResView, AppErrorView>,
    ) -> bool {
        true
    }

    /// Fetches a role.
    fn get_role(&self, id: &str, token: &str) -> (r: Result<GetRoleRes, AppError>)
        ensures
            self.get_role_answer(id@, token@, outcome_view(r)),
    ;

    /// Whether the provider may give this outcome to `update_role` with these arguments.
    open spec fn update_role_answer(
        &self,
        id: Seq<char>,
        req: CreateRoleReqView,
        token: Seq<char>,
        outcome: Result<(), AppErrorView>,
    ) -> bool {
        true
    }

    /// Gives a role a new state.
    fn update_role(&self, id: &str, req: &CreateRoleReq, token: &str) -> (r: Result<(), AppError>)
        ensures
            self.update_role_answer(id@, req@, token@, outcome_view(r)),
    ;

    /// Whether the provider may give this outcome to `patch_role` with these arguments.
    open spec fn patch_role_answer(
        &self,
        id: Seq<char>,
        req: UpdateRolePartialReqView,
        token: Seq<char>,
        outcome: Result<GetRoleResView, AppErrorView>,
    ) -> bool {
        true
    }

    /// Updates the fields of a role that the request brings.
    fn patch_role(&self, id: &str, req: &UpdateRolePartialReq, token: &str) -> (r: Result<GetRoleRes, AppError>)
        ensures
            self.patch_role_answer(id@, req@, token@, outcome_view(r)),
    ;

    /// Whether the provider may give this outcome to `delete_role` with these arguments.
    open spec fn delete_role_answer(
        &self,
        id: Seq<char>,
        token: Seq<char>,
        outcome: Result<(), AppErrorView>,
    ) -> bool {
        true
    }

    /// Deletes a role.
    fn delete_role(&self, id: &str, token: &str) -> (r: Result<(), AppError>)
        ensures
            self.delete_role_answer(id@, token@, outcome_view(r)),
    ;
}

} // verus!
