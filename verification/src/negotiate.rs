//! Channel negotiation: an authenticated session becomes an
//! interactive channel in three fixed, ordered steps — open a session
//! channel, request a pseudo-terminal, request a shell — each
//! independently fallible and short-circuiting on first failure.

use vstd::prelude::*;
use vstd::string::*;
use crate::errors::ChannelError;

verus! {

/// Where the negotiation stands: which request must be issued next.
#[derive(Clone, Copy, Debug, PartialEq, Eq, Structural)]
pub enum NegotiationState {
    NeedOpen,
    NeedPty,
    NeedShell,
    Ready,
}

/// Which negotiation step failed.
#[derive(Clone, Copy, Debug, PartialEq, Eq, Structural)]
pub enum NegotiationFailure {
    OpenFailed,
    PtyFailed,
    ShellFailed,
}

/// The geometry and terminal type of the pseudo-terminal request:
/// fixed defaults, no pixel dimensions, no terminal modes.
pub struct PtyRequest {
    pub want_reply: bool,
    pub term: String,
    pub col_width: u32,
    pub row_height: u32,
    pub pix_width: u32,
    pub pix_height: u32,
}

/// The fixed pseudo-terminal request: an 80 by 24 "xterm".
pub fn default_pty_request() -> (p: PtyRequest)
    ensures
        p.want_reply,
        p.term@ == "xterm"@,
        p.col_width == 80,
        p.row_height == 24,
        p.pix_width == 0,
        p.pix_height == 0,
{
    PtyRequest {
        want_reply: true,
        term: String::from_str("xterm"),
        col_width: 80,
        row_height: 24,
        pix_width: 0,
        pix_height: 0,
    }
}

/// The state after one step's outcome: success moves to the next
/// request in the fixed order, failure names the step that failed.
/// A negotiation already `Ready` stays `Ready`.
pub open spec fn spec_advance(s: NegotiationState, ok: bool) -> Result<
    NegotiationState,
    NegotiationFailure,
> {
    match s {
        NegotiationState::NeedOpen => if ok {
            Ok(NegotiationState::NeedPty)
        } else {
            Err(NegotiationFailure::OpenFailed)
        },
        NegotiationState::NeedPty => if ok {
            Ok(NegotiationState::NeedShell)
        } else {
            Err(NegotiationFailure::PtyFailed)
        },
        NegotiationState::NeedShell => if ok {
            Ok(NegotiationState::Ready)
        } else {
            Err(NegotiationFailure::ShellFailed)
        },
        NegotiationState::Ready => Ok(NegotiationState::Ready),
    }
}

/// The starting state: nothing has been requested yet.
pub fn initial_state() -> (s: NegotiationState)
    ensures
        s == NegotiationState::NeedOpen,
{
    NegotiationState::NeedOpen
}

/// Advances the negotiation by one step's outcome. On failure the
/// returned error is the failed step's own kind and carries the
/// transport's cause text unchanged.
pub fn advance(s: NegotiationState, outcome: Result<(), String>) -> (r: Result<
    NegotiationState,
    ChannelError,
>)
    ensures
        r is Ok <==> spec_advance(s, outcome is Ok) is Ok,
        r matches Ok(n) ==> spec_advance(s, outcome is Ok) == Ok::<
            NegotiationState,
            NegotiationFailure,
        >(n),
        r matches Err(ChannelError::Open(m)) ==> (spec_advance(s, false) == Err::<
            NegotiationState,
            NegotiationFailure,
        >(NegotiationFailure::OpenFailed) && (outcome matches Err(c) && m@ == c@)),
        r matches Err(ChannelError::Pty(m)) ==> (spec_advance(s, false) == Err::<
            NegotiationState,
            NegotiationFailure,
        >(NegotiationFailure::PtyFailed) && (outcome matches Err(c) && m@ == c@)),
        r matches Err(ChannelError::Shell(m)) ==> (spec_advance(s, false) == Err::<
            NegotiationState,
            NegotiationFailure,
        >(NegotiationFailure::ShellFailed) && (outcome matches Err(c) && m@ == c@)),
{
    match outcome {
        Ok(_) => match s {
            NegotiationState::NeedOpen => Ok(NegotiationState::NeedPty),
            NegotiationState::NeedPty => Ok(NegotiationState::NeedShell),
            NegotiationState::NeedShell => Ok(NegotiationState::Ready),
            NegotiationState::Ready => Ok(NegotiationState::Ready),
        },
        Err(cause) => match s {
            NegotiationState::NeedOpen => Err(ChannelError::Open(cause)),
            NegotiationState::NeedPty => Err(ChannelError::Pty(cause)),
            NegotiationState::NeedShell => Err(ChannelError::Shell(cause)),
            NegotiationState::Ready => Ok(NegotiationState::Ready),
        },
    }
}

/// The whole negotiation, as a function of the three step outcomes:
/// opening, then the PTY request, then the shell request.
pub open spec fn spec_negotiate(open_ok: bool, pty_ok: bool, shell_ok: bool) -> Result<
    NegotiationState,
    NegotiationFailure,
> {
    match spec_advance(NegotiationState::NeedOpen, open_ok) {
        Ok(s1) => match spec_advance(s1, pty_ok) {
            Ok(s2) => spec_advance(s2, shell_ok),
            Err(f) => Err(f),
        },
        Err(f) => Err(f),
    }
}

/// The negotiation order is fixed: the channel is ready exactly when
/// all three steps succeed in order, and a failure at any step yields
/// that step's error whatever the later outcomes would have been —
/// the later steps are never reached.
pub proof fn lemma_negotiation_order(open_ok: bool, pty_ok: bool, shell_ok: bool)
    ensures
        (spec_negotiate(open_ok, pty_ok, shell_ok) == Ok::<NegotiationState, NegotiationFailure>(
            NegotiationState::Ready,
        )) <==> (open_ok && pty_ok && shell_ok),
        !open_ok ==> spec_negotiate(open_ok, pty_ok, shell_ok) == Err::<
            NegotiationState,
            NegotiationFailure,
        >(NegotiationFailure::OpenFailed),
        open_ok && !pty_ok ==> spec_negotiate(open_ok, pty_ok, shell_ok) == Err::<
            NegotiationState,
            NegotiationFailure,
        >(NegotiationFailure::PtyFailed),
        open_ok && pty_ok && !shell_ok ==> spec_negotiate(open_ok, pty_ok, shell_ok) == Err::<
            NegotiationState,
            NegotiationFailure,
        >(NegotiationFailure::ShellFailed),
{
}

} // verus!
