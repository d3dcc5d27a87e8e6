//! The clipboard guardian: a secret placed on the clipboard must disappear
//! from it after a fixed dwell interval, even though the invocation that
//! placed it exits immediately.
//!
//! The state machine here makes every decision of that lifecycle; the caller
//! performs the platform work it cannot: detaching a worker that survives
//! the invoking process, setting the system clipboard, sleeping out the
//! dwell, and clearing.  The caller reports each outcome and the machine
//! says what holds and what may happen next.  The protocol is strict:
//! detachment comes first, and the clipboard must not be set when no
//! detached worker exists to clear it later.

use vstd::prelude::*;

use crate::err::AikotError;

verus! {

/// How long a secret may dwell on the clipboard, in seconds.
pub const CLIP_DWELL_SECS: u64 = 45;

/// One arming of the clipboard, from the perspective of a single
/// invocation.
#[derive(Debug)]
pub enum ClipSession {
    /// Nothing has been copied.
    Idle,
    /// The clipboard holds `content`, and the clear is owed at `deadline`
    /// (seconds, on the caller's clock).
    Armed { content: String, deadline: u64 },
    /// The dwell elapsed and the clipboard was cleared or abandoned.
    Cleared,
}

/// The clear transition: an armed session whose deadline has arrived becomes
/// cleared; nothing else changes state, so a clear never fires early.
pub open spec fn spec_clear_due(s: ClipSession, now: u64) -> ClipSession {
    match s {
        ClipSession::Armed { content, deadline } => {
            if now >= deadline {
                ClipSession::Cleared
            } else {
                s
            }
        },
        _ => s,
    }
}

impl ClipSession {
    /// A session that has copied nothing yet.
    pub fn idle() -> (r: ClipSession)
        ensures
            r is Idle,
    {
        ClipSession::Idle
    }

    /// The arming transition.  The caller first detaches the clearing
    /// worker, then — only if that succeeded — sets the system clipboard,
    /// and reports both outcomes here.  A session is armed exactly when both
    /// succeeded, and its clear is owed one dwell interval after `now`; a
    /// failed detachment means the clipboard was never to be touched.
    pub fn arm(self, now: u64, text: String, spawn_ok: bool, set_ok: bool) -> (r: Result<
        ClipSession,
        AikotError,
    >)
        requires
            self is Idle,
            now + CLIP_DWELL_SECS <= u64::MAX,
        ensures
            !spawn_ok ==> r == Err::<ClipSession, AikotError>(AikotError::DaemonizeFailed),
            spawn_ok && !set_ok ==> r == Err::<ClipSession, AikotError>(
                AikotError::ClipboardBackendUnavailable,
            ),
            spawn_ok && set_ok ==> (r matches Ok(s) && s matches ClipSession::Armed {
                content,
                deadline,
            } && content@ == text@ && deadline == now + CLIP_DWELL_SECS),
    {
        if !spawn_ok {
            Err(AikotError::DaemonizeFailed)
        } else if !set_ok {
            Err(AikotError::ClipboardBackendUnavailable)
        } else {
            Ok(ClipSession::Armed { content: text, deadline: now + CLIP_DWELL_SECS })
        }
    }

    /// Whether the clear is due: the session is armed and its deadline has
    /// arrived.
    pub fn should_clear(&self, now: u64) -> (r: bool)
        ensures
            r == (self matches ClipSession::Armed { deadline, .. } && now >= *deadline),
    {
        match self {
            ClipSession::Armed { deadline, .. } => now >= *deadline,
            _ => false,
        }
    }

    /// The clear transition, as [`spec_clear_due`] describes it.  The caller
    /// that sees `Cleared` come back performs the platform's clear (or, on a
    /// selection-ownership clipboard, simply exits the serving worker).
    pub fn clear_due(self, now: u64) -> (r: ClipSession)
        ensures
            r == spec_clear_due(self, now),
    {
        match self {
            ClipSession::Armed { content, deadline } => {
                if now >= deadline {
                    ClipSession::Cleared
                } else {
                    ClipSession::Armed { content, deadline }
                }
            },
            other => other,
        }
    }

    /// The text this session is serving, while it is armed.
    pub fn content(&self) -> (r: Option<&String>)
        ensures
            self matches ClipSession::Armed { content, .. } ==> (r matches Some(c) && c@
                == content@),
            !(self is Armed) ==> r is None,
    {
        match self {
            ClipSession::Armed { content, .. } => Some(content),
            _ => None,
        }
    }

    /// When this session's clear is owed, while it is armed.
    pub fn deadline(&self) -> (r: Option<u64>)
        ensures
            self matches ClipSession::Armed { deadline, .. } ==> r == Some(*deadline),
            !(self is Armed) ==> r is None,
    {
        match self {
            ClipSession::Armed { deadline, .. } => Some(*deadline),
            _ => None,
        }
    }
}

/// A clear never fires before the deadline: earlier ticks leave an armed
/// session exactly as it is.
pub proof fn lemma_no_early_clear(s: ClipSession, now: u64)
    requires
        s matches ClipSession::Armed { deadline, .. } && now < deadline,
    ensures
        spec_clear_due(s, now) == s,
{
}

/// A clear always fires once the deadline arrives: from then on, a tick of
/// an armed session clears it, whatever it holds.
pub proof fn lemma_clear_on_deadline(s: ClipSession, now: u64)
    requires
        s matches ClipSession::Armed { deadline, .. } && now >= deadline,
    ensures
        spec_clear_due(s, now) is Cleared,
{
}

} // verus!
