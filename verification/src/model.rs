//! A ghost model of the whole console server.
//!
//! The running server is a set of fully independent sessions plus an accept
//! loop that never stops taking new connections.  This module states that
//! shape as a transition system: a state maps session ids to their open
//! flag, an event is a connect, one read buffer arriving on one session, or
//! a connection failing, and each transition says which sessions change and
//! which bytes go to whom.  The laws below pin down the two system-wide
//! guarantees: accepting never depends on past sessions' fates, and no
//! event on one session touches another.

use vstd::prelude::*;
use crate::session::banner_for;
use crate::session::response;
use crate::session::stays_open;

verus! {

/// The server's state: which session ids exist and whether each is still
/// open, and the id the next accepted connection will get.
pub struct ConsoleState {
    pub sessions: Map<nat, bool>,
    pub next_sid: nat,
}

/// Every live session id was handed out before the next one.
pub open spec fn wf(s: ConsoleState) -> bool {
    forall|i: nat| s.sessions.dom().contains(i) ==> i < s.next_sid
}

/// One thing the outside world does to the server.
pub enum Event {
    /// A client connects; `ident` is what this session's identity read
    /// returned (it is re-read for every session).
    Connect { ident: Option<Seq<u8>> },
    /// One read on session `sid` completed with these bytes.
    Line { sid: nat, bytes: Seq<u8> },
    /// Session `sid`'s connection failed or the client went away.
    Hangup { sid: nat },
}

/// Bytes owed to one session's client.
pub struct Emission {
    pub sid: nat,
    pub bytes: Seq<u8>,
}

/// The server's next state after one event.
pub open spec fn console_next(s: ConsoleState, e: Event) -> ConsoleState {
    match e {
        Event::Connect { ident } => ConsoleState {
            sessions: s.sessions.insert(s.next_sid, true),
            next_sid: s.next_sid + 1,
        },
        Event::Line { sid, bytes } => {
            if s.sessions.dom().contains(sid) && s.sessions[sid] {
                ConsoleState { sessions: s.sessions.insert(sid, stays_open(bytes)), ..s }
            } else {
                s
            }
        },
        Event::Hangup { sid } => ConsoleState { sessions: s.sessions.remove(sid), ..s },
    }
}

/// The bytes one event sends, each tagged with the session they go to: a
/// connect sends the new session its banner; a read on an open session
/// sends that session its response; everything else sends nothing.
pub open spec fn console_out(s: ConsoleState, e: Event) -> Seq<Emission> {
    match e {
        Event::Connect { ident } => seq![
            Emission { sid: s.next_sid, bytes: banner_for(ident) },
        ],
        Event::Line { sid, bytes } => {
            if s.sessions.dom().contains(sid) && s.sessions[sid] {
                seq![Emission { sid, bytes: response(bytes) }]
            } else {
                seq![]
            }
        },
        Event::Hangup { sid } => seq![],
    }
}

/// Law: a connect is always served, whatever became of every earlier
/// session.  The new session is open, it alone receives bytes — its
/// banner — and every existing session is left exactly as it was.
pub proof fn lemma_accept_always_serves(s: ConsoleState, ident: Option<Seq<u8>>)
    requires
        wf(s),
    ensures
        console_next(s, Event::Connect { ident }).sessions.dom().contains(s.next_sid),
        console_next(s, Event::Connect { ident }).sessions[s.next_sid],
        console_out(s, Event::Connect { ident }) == seq![
            Emission { sid: s.next_sid, bytes: banner_for(ident) },
        ],
        wf(console_next(s, Event::Connect { ident })),
        forall|j: nat|
            s.sessions.dom().contains(j) ==> console_next(
                s,
                Event::Connect { ident },
            ).sessions.dom().contains(j) && console_next(
                s,
                Event::Connect { ident },
            ).sessions[j] == s.sessions[j],
{
}

/// Law: sessions are independent.  A read arriving on one session changes
/// no other session's state and sends bytes to no other session's client;
/// in particular one session's `exit` cannot close another.
pub proof fn lemma_sessions_independent(s: ConsoleState, sid: nat, bytes: Seq<u8>, other: nat)
    requires
        other != sid,
    ensures
        console_next(s, Event::Line { sid, bytes }).next_sid == s.next_sid,
        console_next(s, Event::Line { sid, bytes }).sessions.dom().contains(other)
            == s.sessions.dom().contains(other),
        s.sessions.dom().contains(other) ==> console_next(
            s,
            Event::Line { sid, bytes },
        ).sessions[other] == s.sessions[other],
        forall|k: int|
            0 <= k < console_out(s, Event::Line { sid, bytes }).len() ==> console_out(
                s,
                Event::Line { sid, bytes },
            )[k].sid == sid,
{
}

/// Law: a failed connection takes only its own session with it.
pub proof fn lemma_hangup_is_contained(s: ConsoleState, sid: nat, other: nat)
    requires
        other != sid,
    ensures
        console_next(s, Event::Hangup { sid }).next_sid == s.next_sid,
        !console_next(s, Event::Hangup { sid }).sessions.dom().contains(sid),
        console_next(s, Event::Hangup { sid }).sessions.dom().contains(other)
            == s.sessions.dom().contains(other),
        s.sessions.dom().contains(other) ==> console_next(s, Event::Hangup { sid }).sessions[other]
            == s.sessions[other],
        console_out(s, Event::Hangup { sid }) == Seq::<Emission>::empty(),
{
}

/// Law: a session that has closed — by `exit` or hangup — answers nothing
/// ever after: no response, no prompt, no state change.
pub proof fn lemma_closed_session_is_silent(s: ConsoleState, sid: nat, bytes: Seq<u8>)
    requires
        !(s.sessions.dom().contains(sid) && s.sessions[sid]),
    ensures
        console_next(s, Event::Line { sid, bytes }) == s,
        console_out(s, Event::Line { sid, bytes }) == Seq::<Emission>::empty(),
{
    assert(console_out(s, Event::Line { sid, bytes }) =~= Seq::<Emission>::empty());
}

/// Law: after an open session reads `exit`, it is closed, and every later
/// read on it is silent.
pub proof fn lemma_exit_ends_the_session(s: ConsoleState, sid: nat, bytes: Seq<u8>, later: Seq<u8>)
    requires
        s.sessions.dom().contains(sid),
        s.sessions[sid],
        !stays_open(bytes),
    ensures
        !console_next(s, Event::Line { sid, bytes }).sessions[sid],
        console_next(console_next(s, Event::Line { sid, bytes }), Event::Line { sid, bytes: later })
            == console_next(s, Event::Line { sid, bytes }),
        console_out(console_next(s, Event::Line { sid, bytes }), Event::Line { sid, bytes: later })
            == Seq::<Emission>::empty(),
{
    let s2 = console_next(s, Event::Line { sid, bytes });
    lemma_closed_session_is_silent(s2, sid, later);
}

} // verus!
