//! The bodies that the server reads and writes besides meals.

use vstd::prelude::*;

verus! {

/// Body of a failed request: what went wrong, in words.
#[derive(Debug, Clone, PartialEq, Eq)]
pub struct ErrorResp {
    pub error: String,
}

/// Body of the health check.
#[derive(Debug, Clone, PartialEq, Eq)]
pub struct Health {
    pub healthy: bool,
    pub version: String,
}

/// Body of a login request.
#[derive(Debug, Clone, PartialEq, Eq)]
pub struct Login {
    pub user: String,
    pub pw: String,
}

/// What a session token carries.
#[derive(Debug, Clone, PartialEq, Eq)]
pub struct Claims {
    /// Expiry, in seconds since the epoch. Carried in the token, never checked.
    pub exp: u32,
    /// The user the token was issued to.
    pub sub: String,
}

/// Body of a successful login.
#[derive(Debug, Clone, PartialEq, Eq)]
pub struct LoginResp {
    pub jwt: String,
}

pub struct ErrorRespView {
    pub error: Seq<char>,
}

pub struct HealthView {
    pub healthy: bool,
    pub version: Seq<char>,
}

pub struct LoginView {
    pub user: Seq<char>,
    pub pw: Seq<char>,
}

pub struct ClaimsView {
    pub exp: u32,
    pub sub: Seq<char>,
}

pub struct LoginRespView {
    pub jwt: Seq<char>,
}

impl View for ErrorResp {
    type V = ErrorRespView;

    open spec fn view(&self) -> ErrorRespView {
        ErrorRespView { error: self.error@ }
    }
}

impl View for Health {
    type V = HealthView;

    open spec fn view(&self) -> HealthView {
        HealthView { healthy: self.healthy, version: self.version@ }
    }
}

impl View for Login {
    type V = LoginView;

    open spec fn view(&self) -> LoginView {
        LoginView { user: self.user@, pw: self.pw@ }
    }
}

impl View for Claims {
    type V = ClaimsView;

    open spec fn view(&self) -> ClaimsView {
        ClaimsView { exp: self.exp, sub: self.sub@ }
    }
}

impl View for LoginResp {
    type V = LoginRespView;

    open spec fn view(&self) -> LoginRespView {
        LoginRespView { jwt: self.jwt@ }
    }
}

} // verus!
