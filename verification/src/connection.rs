//! The server's side of one connection before and between sessions: it reads
//! login and registration requests, answers them, and starts a session for
//! a user who logged in. Reading, the account checks and the session itself
//! are done by the caller, which reports each outcome as an event.
use vstd::prelude::*;
use crate::types::{AuthData, ClientServerAuthMsg, RegisterData, ServerClientMsg, User};

verus! {

/// Why reading a request failed.
#[derive(Debug, Clone, Copy, PartialEq, Eq, Structural)]
pub enum ReadError {
    /// The client closed the connection.
    ConnectionClosed,
    /// The data could not be read or decoded.
    Invalid,
}

/// How a session ended.
#[derive(Debug, Clone, Copy, PartialEq, Eq, Structural)]
pub enum SessionEnd {
    /// The connection closed.
    Close,
    /// The user logged out; the connection stays open for another login.
    Logout,
}

/// What happened on the connection.
#[derive(Debug)]
pub enum ConnectionEvent {
    /// A request was read, or reading failed.
    Read(Result<ClientServerAuthMsg, ReadError>),
    /// The outcome of a registration request.
    Registered(Result<User, String>),
    /// The outcome of a login request.
    LoggedIn(Result<User, String>),
    /// The session of a logged in user ended.
    SessionEnded(SessionEnd),
}

/// What the caller does next.
#[derive(Debug)]
pub enum ConnectionAction {
    /// Close the connection without error.
    Finish,
    /// Close the connection with an error.
    Fail,
    /// Register an account with this data.
    Register(RegisterData),
    /// Check these login data.
    Authenticate(AuthData),
    /// Send this answer and read the next request.
    Reply(ServerClientMsg),
    /// Send this answer, then run a session for `user`.
    StartSession { reply: ServerClientMsg, user: User },
    /// Read the next request.
    ReadNext,
}

/// Decides the next step of a connection from what just happened: requests
/// are passed on to be handled, registration outcomes and refused logins are
/// answered, an accepted login is answered and starts a session, and a
/// logout waits for the next request.
pub fn connection_step(event: ConnectionEvent) -> (a: ConnectionAction)
    ensures
        match event {
            ConnectionEvent::Read(Err(ReadError::ConnectionClosed)) => a is Finish,
            ConnectionEvent::Read(Err(ReadError::Invalid)) => a is Fail,
            ConnectionEvent::Read(Ok(ClientServerAuthMsg::Register(d))) => a
                == ConnectionAction::Register(d),
            ConnectionEvent::Read(Ok(ClientServerAuthMsg::Login(d))) => a
                == ConnectionAction::Authenticate(d),
            ConnectionEvent::Registered(res) => a == ConnectionAction::Reply(
                ServerClientMsg::Register(res),
            ),
            ConnectionEvent::LoggedIn(Err(e)) => a == ConnectionAction::Reply(
                ServerClientMsg::Auth(Err(e)),
            ),
            ConnectionEvent::LoggedIn(Ok(u)) => a matches ConnectionAction::StartSession {
                reply: ServerClientMsg::Auth(Ok(r)),
                user,
            } && r@ == u@ && user == u,
            ConnectionEvent::SessionEnded(SessionEnd::Close) => a is Finish,
            ConnectionEvent::SessionEnded(SessionEnd::Logout) => a is ReadNext,
        },
{
    match event {
        ConnectionEvent::Read(Err(ReadError::ConnectionClosed)) => ConnectionAction::Finish,
        ConnectionEvent::Read(Err(ReadError::Invalid)) => ConnectionAction::Fail,
        ConnectionEvent::Read(Ok(ClientServerAuthMsg::Register(d))) => ConnectionAction::Register(d),
        ConnectionEvent::Read(Ok(ClientServerAuthMsg::Login(d))) => ConnectionAction::Authenticate(d),
        ConnectionEvent::Registered(res) => ConnectionAction::Reply(ServerClientMsg::Register(res)),
        ConnectionEvent::LoggedIn(Err(e)) => ConnectionAction::Reply(ServerClientMsg::Auth(Err(e))),
        ConnectionEvent::LoggedIn(Ok(u)) => {
            let reply = ServerClientMsg::Auth(Ok(u.duplicate()));
            ConnectionAction::StartSession { reply, user: u }
        },
        ConnectionEvent::SessionEnded(SessionEnd::Close) => ConnectionAction::Finish,
        ConnectionEvent::SessionEnded(SessionEnd::Logout) => ConnectionAction::ReadNext,
    }
}

} // verus!
