//! Wire types of the service around the library.
//!
//! Plain data carried between the inventory service and its clients:
//! authentication state, chat exchanges, and the calendar-authorization
//! handshake of the reminder subsystem.  They are kept free of any web
//! framework so that the rest of the library can be verified against
//! them; an application layer converts to its own serializable copies.

use vstd::prelude::*;

verus! {

/// A client's authentication state.
#[derive(Clone, Debug)]
pub struct AuthContext {
    pub token: Option<String>,
    pub user_id: Option<i32>,
    pub username: Option<String>,
    pub is_authenticated: bool,
}

impl Default for AuthContext {
    /// The signed-out state: no token, no user, not authenticated.
    fn default() -> (r: Self)
        ensures
            r.token is None,
            r.user_id is None,
            r.username is None,
            !r.is_authenticated,
    {
        AuthContext { token: None, user_id: None, username: None, is_authenticated: false }
    }
}

/// One chat request from a client.
#[derive(Clone, Debug)]
pub struct ChatRequest {
    pub message: String,
    pub session_id: Option<String>,
}

/// The service's reply to a chat request.
#[derive(Clone, Debug)]
pub struct ChatResponse {
    pub response: String,
    pub session_id: String,
}

/// A login attempt.
#[derive(Clone, Debug)]
pub struct LoginRequest {
    pub email: String,
    pub password: String,
}

/// A successful login.
#[derive(Clone, Debug)]
pub struct LoginResponse {
    pub access_token: String,
    pub token_type: String,
    pub user_id: i32,
    pub username: String,
}

/// A registration attempt.
#[derive(Clone, Debug)]
pub struct RegisterRequest {
    pub username: String,
    pub email: String,
    pub password: String,
}

/// A successful registration.
#[derive(Clone, Debug)]
pub struct RegisterResponse {
    pub access_token: String,
    pub token_type: String,
    pub user_id: i32,
    pub username: String,
}

/// One stored chat exchange.
#[derive(Clone, Debug)]
pub struct SessionMessage {
    pub message: String,
    pub response: String,
    pub created_at: String,
}

/// Every exchange of one session.
#[derive(Clone, Debug)]
pub struct SessionMessagesResponse {
    pub messages: Vec<SessionMessage>,
}

/// Where a client is sent to authorize calendar access.
#[derive(Clone, Debug)]
pub struct GoogleCalendarUrlResponse {
    pub auth_url: String,
}

/// Whether a client's calendar access is authorized.
#[derive(Clone, Debug)]
pub struct GoogleCalendarStatusResponse {
    pub is_authenticated: bool,
    pub message: String,
}

/// The authorization code a client brings back.
#[derive(Clone, Debug)]
pub struct GoogleAuthRequest {
    pub auth_code: String,
}

/// The outcome of redeeming an authorization code.
#[derive(Clone, Debug)]
pub struct GoogleAuthResponse {
    pub success: bool,
    pub message: String,
}

/// One rendered chat line.
#[derive(Clone, Debug)]
pub struct ChatMessage {
    pub content: String,
    pub is_user: bool,
    pub timestamp: String,
}

} // verus!
