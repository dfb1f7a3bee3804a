//! The decision step of the per-connection read/dispatch/write loop.
//!
//! The transport loop around this crate pulls the next decode result off
//! the wire, hands it to [`handle_incoming_message`], and then performs
//! the returned [`LoopAction`]: sending and flushing responses, or
//! closing the connection. Send and flush failures are the transport's
//! own and are connection-fatal there; no decision about them is made
//! here.

use vstd::prelude::*;
use vstd::string::StringExecFns;
use crate::backend::BackendHandler;
use crate::messages::{LdapMsg, LdapResultCode, MsgView, ServerOps, msg_views};
use crate::session::{LdapHandler, dispatch_post};

verus! {

/// What the transport handed over for one read: a decoded operation, or
/// the news that the bytes could not be decoded.
pub enum MessageOutcome {
    Op(ServerOps),
    Malformed,
}

/// What the connection loop must do next.
pub enum LoopAction {
    /// Send these responses in order, flush, and keep reading.
    Respond(Vec<LdapMsg>),
    /// Close the connection cleanly, sending nothing.
    CloseGracefully,
    /// Best-effort, send this one notice and flush, then close the
    /// connection and report the error upward.
    Abort(LdapMsg),
}

/// The notice sent before dropping a connection whose bytes could not be
/// decoded.
pub open spec fn internal_error_notice() -> MsgView {
    MsgView::DisconnectionNotice { code: LdapResultCode::Other, message: "Internal Server Error"@ }
}

/// Decide one cycle of the connection loop. A decode failure is
/// connection-fatal: the session is left untouched and the loop must
/// send one disconnection notice and close. A decoded operation goes to
/// the session's dispatcher; its close sentinel becomes a graceful
/// close, its responses become sends. No outcome here is ever fatal to
/// anything beyond this one connection.
pub fn handle_incoming_message<Backend: BackendHandler>(
    session: &mut LdapHandler<Backend>,
    msg: MessageOutcome,
) -> (action: LoopAction)
    ensures
        final(session).backend() == old(session).backend(),
        match msg {
            MessageOutcome::Op(op) => match action {
                LoopAction::Respond(v) => dispatch_post(
                    *old(session),
                    op,
                    *final(session),
                    Some(msg_views(v@)),
                ),
                LoopAction::CloseGracefully => dispatch_post(
                    *old(session),
                    op,
                    *final(session),
                    None::<Seq<MsgView>>,
                ),
                LoopAction::Abort(_) => false,
            },
            MessageOutcome::Malformed => {
                &&& final(session).identity() == old(session).identity()
                &&& action matches LoopAction::Abort(m) && m@ == internal_error_notice()
            },
        },
{
    match msg {
        MessageOutcome::Malformed => LoopAction::Abort(
            LdapMsg::DisconnectionNotice {
                code: LdapResultCode::Other,
                message: String::from_str("Internal Server Error"),
            },
        ),
        MessageOutcome::Op(op) => match session.handle_ldap_message(op) {
            None => LoopAction::CloseGracefully,
            Some(v) => LoopAction::Respond(v),
        },
    }
}

} // verus!
