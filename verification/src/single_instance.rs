//! One instance at a time: the first one binds a socket, and later ones ask it to show its
//! window.

use crate::error::{AppError, AppResult};
use vstd::prelude::*;

verus! {

/// The name of the socket, in the abstract namespace: it begins with a zero byte.
pub const SOCKET_NAME: [u8; 22] = [
    0, 119, 105, 114, 101, 103, 117, 97, 114, 100, 45, 103, 117, 105, 45, 114, 117, 115, 116, 45,
    118, 49,
];

/// The byte that asks the first instance to show its window.
pub const RAISE_BYTE: u8 = 82;

/// What came of binding the socket.
#[derive(Debug)]
pub enum BindOutcome {
    /// It is bound.
    Bound,
    /// Another instance has bound it; `asked` says whether that one could be asked to show its
    /// window.
    InUse { asked: Result<(), String> },
    /// It could not be bound.
    Failed(String),
}

/// Which instance this is.
#[derive(Debug, Clone, Copy, PartialEq, Eq, Structural)]
pub enum Role {
    /// The first: it keeps the socket and listens on it.
    Primary,
    /// A later one: it has asked the first one to show its window, and ends.
    Secondary,
}

/// Which instance this is, by what came of binding the socket.
pub fn try_become_primary(o: BindOutcome) -> (r: AppResult<Role>)
    ensures
        match o {
            BindOutcome::Bound => r matches Ok(Role::Primary),
            BindOutcome::InUse { asked: Ok(_) } => r matches Ok(Role::Secondary),
            BindOutcome::InUse { asked: Err(e) } => r == Err::<Role, AppError>(
                AppError::IpcFailed(e),
            ),
            BindOutcome::Failed(e) => r == Err::<Role, AppError>(AppError::IpcFailed(e)),
        },
{
    match o {
        BindOutcome::Bound => Ok(Role::Primary),
        BindOutcome::InUse { asked } => match send_raise(asked) {
            Ok(()) => Ok(Role::Secondary),
            Err(e) => Err(e),
        },
        BindOutcome::Failed(e) => Err(AppError::IpcFailed(e)),
    }
}

/// The result of asking the first instance to show its window.
pub fn send_raise(asked: Result<(), String>) -> (r: AppResult<()>)
    ensures
        match asked {
            Ok(()) => r is Ok,
            Err(e) => r == Err::<(), AppError>(AppError::IpcFailed(e)),
        },
{
    match asked {
        Ok(()) => Ok(()),
        Err(e) => Err(AppError::IpcFailed(e)),
    }
}

/// What came of looking for a connection.
#[derive(Debug, Clone, Copy, PartialEq, Eq, Structural)]
pub enum AcceptOutcome {
    /// There was one.
    Connected,
    /// There was none yet.
    WouldBlock,
    /// The socket has failed.
    Failed,
}

/// What the listener does next.
#[derive(Debug, Clone, Copy, PartialEq, Eq, Structural)]
pub enum ListenStep {
    /// It passes one request on.
    Forward,
    /// It waits a moment.
    Nap,
    /// It ends.
    Stop,
}

/// What the listener does after looking for a connection.
pub fn listen_step(o: AcceptOutcome) -> (r: ListenStep)
    ensures
        r == (match o {
            AcceptOutcome::Connected => ListenStep::Forward,
            AcceptOutcome::WouldBlock => ListenStep::Nap,
            AcceptOutcome::Failed => ListenStep::Stop,
        }),
{
    match o {
        AcceptOutcome::Connected => ListenStep::Forward,
        AcceptOutcome::WouldBlock => ListenStep::Nap,
        AcceptOutcome::Failed => ListenStep::Stop,
    }
}

// ── laws ────────────────────────────────────────────────────────────────────

/// An instance is the first exactly when it has bound the socket. A later one ends in peace
/// exactly when it could ask the first to show its window; anything else is an error.
pub proof fn law_there_is_one_first_instance(o: BindOutcome, r: AppResult<Role>)
    requires
        call_ensures(try_become_primary, (o,), r),
    ensures
        r == Ok::<Role, AppError>(Role::Primary) <==> o is Bound,
        r == Ok::<Role, AppError>(Role::Secondary) <==> (o is InUse && o->asked is Ok),
        o is InUse && o->asked is Err ==> r == Err::<Role, AppError>(
            AppError::IpcFailed(o->asked->Err_0),
        ),
        o is Failed ==> r == Err::<Role, AppError>(AppError::IpcFailed(o->Failed_0)),
{
}

/// Each connection is passed on; without one the listener waits, and it ends only when the socket
/// has failed.
pub proof fn law_the_listener_goes_on(o: AcceptOutcome, r: ListenStep)
    requires
        call_ensures(listen_step, (o,), r),
    ensures
        r is Forward <==> o is Connected,
        r is Nap <==> o is WouldBlock,
        r is Stop <==> o is Failed,
{
}

} // verus!
