//! One console session: banner, prompt, and the command loop's step.
//!
//! A session owns one accepted connection.  It starts open, answers one
//! response per read buffer, asks the surrounding process to toggle the
//! remote-access service when told to, and closes only on `exit` (or when
//! the connection itself fails, which is the caller's concern).

use vstd::prelude::*;
use crate::command::Command;
use crate::command::parse;
use crate::command::parse_command;
use crate::command::is_prefix_of;
use crate::command::help_pat;
use crate::command::exit_pat;
use crate::command::ssh_on_pat;
use crate::command::ssh_off_pat;

verus! {

/// What the caller must do to the remote-access service after a step.
#[derive(Clone, Copy, Debug, PartialEq, Eq, Structural)]
pub enum SshAction {
    Keep,
    Enable,
    Disable,
}

pub open spec fn lol_reply() -> Seq<u8> {
    seq!['l' as u8, 'o' as u8, 'l' as u8, 10u8]
}

pub open spec fn bye_reply() -> Seq<u8> {
    seq!['b' as u8, 'y' as u8, 'e' as u8, 10u8]
}

pub open spec fn enabled_reply() -> Seq<u8> {
    seq![
        'e' as u8, 'n' as u8, 'a' as u8, 'b' as u8, 'l' as u8, 'e' as u8, 'd' as u8, ' ' as u8,
        's' as u8, 's' as u8, 'h' as u8, 10u8,
    ]
}

pub open spec fn disabled_reply() -> Seq<u8> {
    seq![
        'd' as u8, 'i' as u8, 's' as u8, 'a' as u8, 'b' as u8, 'l' as u8, 'e' as u8, 'd' as u8,
        ' ' as u8, 's' as u8, 's' as u8, 'h' as u8, 10u8,
    ]
}

/// `"Unknown command: "` — what precedes the echoed buffer.
pub open spec fn unknown_prefix() -> Seq<u8> {
    seq![
        'U' as u8, 'n' as u8, 'k' as u8, 'n' as u8, 'o' as u8, 'w' as u8, 'n' as u8, ' ' as u8,
        'c' as u8, 'o' as u8, 'm' as u8, 'm' as u8, 'a' as u8, 'n' as u8, 'd' as u8, ':' as u8,
        ' ' as u8,
    ]
}

/// The response owed to one read buffer: a fixed reply for each recognised
/// command, and `"Unknown command: "` followed by the buffer, byte for byte,
/// for everything else.
pub open spec fn response(buf: Seq<u8>) -> Seq<u8> {
    match parse(buf) {
        Command::Help => lol_reply(),
        Command::Exit => bye_reply(),
        Command::SshOn => enabled_reply(),
        Command::SshOff => disabled_reply(),
        Command::Unknown => unknown_prefix() + buf,
    }
}

/// Which toggle of the remote-access service one command asks for.
pub open spec fn action_for(c: Command) -> SshAction {
    match c {
        Command::SshOn => SshAction::Enable,
        Command::SshOff => SshAction::Disable,
        _ => SshAction::Keep,
    }
}

/// Whether a session that was open stays open after one read buffer.
pub open spec fn stays_open(buf: Seq<u8>) -> bool {
    parse(buf) != Command::Exit
}

/// `"\n>"` — written before every read.
pub open spec fn prompt_pat() -> Seq<u8> {
    seq![10u8, '>' as u8]
}

/// `"Bitahoy Watchdog debug console\nwdcode: "` — the fixed head of the banner.
pub open spec fn banner_prefix() -> Seq<u8> {
    seq![
        'B' as u8, 'i' as u8, 't' as u8, 'a' as u8, 'h' as u8, 'o' as u8, 'y' as u8, ' ' as u8,
        'W' as u8, 'a' as u8, 't' as u8, 'c' as u8, 'h' as u8, 'd' as u8, 'o' as u8, 'g' as u8,
        ' ' as u8, 'd' as u8, 'e' as u8, 'b' as u8, 'u' as u8, 'g' as u8, ' ' as u8, 'c' as u8,
        'o' as u8, 'n' as u8, 's' as u8, 'o' as u8, 'l' as u8, 'e' as u8, 10u8, 'w' as u8,
        'd' as u8, 'c' as u8, 'o' as u8, 'd' as u8, 'e' as u8, ':' as u8, ' ' as u8,
    ]
}

/// `"<unknown>"` — stands in for the identity when it cannot be read.
pub open spec fn unknown_ident() -> Seq<u8> {
    seq![
        '<' as u8, 'u' as u8, 'n' as u8, 'k' as u8, 'n' as u8, 'o' as u8, 'w' as u8, 'n' as u8,
        '>' as u8,
    ]
}

/// The whole banner for a given outcome of the identity read.
pub open spec fn banner_for(ident: Option<Seq<u8>>) -> Seq<u8> {
    match ident {
        Some(code) => banner_prefix() + code,
        None => banner_prefix() + unknown_ident(),
    }
}

/// The identity read's outcome, as a sequence of bytes.
pub open spec fn ident_bytes(wdcode: Option<[u8; 16]>) -> Option<Seq<u8>> {
    match wdcode {
        Some(code) => Some(code@),
        None => None,
    }
}

fn lol_line() -> (r: Vec<u8>)
    ensures
        r@ == lol_reply(),
{
    let mut v: Vec<u8> = Vec::new();
    v.push('l' as u8);
    v.push('o' as u8);
    v.push('l' as u8);
    v.push(10u8);
    assert(v@ =~= lol_reply());
    v
}

fn bye_line() -> (r: Vec<u8>)
    ensures
        r@ == bye_reply(),
{
    let mut v: Vec<u8> = Vec::new();
    v.push('b' as u8);
    v.push('y' as u8);
    v.push('e' as u8);
    v.push(10u8);
    assert(v@ =~= bye_reply());
    v
}

fn enabled_line() -> (r: Vec<u8>)
    ensures
        r@ == enabled_reply(),
{
    let mut v: Vec<u8> = Vec::new();
    v.push('e' as u8);
    v.push('n' as u8);
    v.push('a' as u8);
    v.push('b' as u8);
    v.push('l' as u8);
    v.push('e' as u8);
    v.push('d' as u8);
    v.push(' ' as u8);
    v.push('s' as u8);
    v.push('s' as u8);
    v.push('h' as u8);
    v.push(10u8);
    assert(v@ =~= enabled_reply());
    v
}

fn disabled_line() -> (r: Vec<u8>)
    ensures
        r@ == disabled_reply(),
{
    let mut v: Vec<u8> = Vec::new();
    v.push('d' as u8);
    v.push('i' as u8);
    v.push('s' as u8);
    v.push('a' as u8);
    v.push('b' as u8);
    v.push('l' as u8);
    v.push('e' as u8);
    v.push('d' as u8);
    v.push(' ' as u8);
    v.push('s' as u8);
    v.push('s' as u8);
    v.push('h' as u8);
    v.push(10u8);
    assert(v@ =~= disabled_reply());
    v
}

fn unknown_prefix_line() -> (r: Vec<u8>)
    ensures
        r@ == unknown_prefix(),
{
    let mut v: Vec<u8> = Vec::new();
    v.push('U' as u8);
    v.push('n' as u8);
    v.push('k' as u8);
    v.push('n' as u8);
    v.push('o' as u8);
    v.push('w' as u8);
    v.push('n' as u8);
    v.push(' ' as u8);
    v.push('c' as u8);
    v.push('o' as u8);
    v.push('m' as u8);
    v.push('m' as u8);
    v.push('a' as u8);
    v.push('n' as u8);
    v.push('d' as u8);
    v.push(':' as u8);
    v.push(' ' as u8);
    assert(v@ =~= unknown_prefix());
    v
}

fn banner_prefix_line() -> (r: Vec<u8>)
    ensures
        r@ == banner_prefix(),
{
    let mut v: Vec<u8> = Vec::new();
    v.push('B' as u8);
    v.push('i' as u8);
    v.push('t' as u8);
    v.push('a' as u8);
    v.push('h' as u8);
    v.push('o' as u8);
    v.push('y' as u8);
    v.push(' ' as u8);
    v.push('W' as u8);
    v.push('a' as u8);
    v.push('t' as u8);
    v.push('c' as u8);
    v.push('h' as u8);
    v.push('d' as u8);
    v.push('o' as u8);
    v.push('g' as u8);
    v.push(' ' as u8);
    v.push('d' as u8);
    v.push('e' as u8);
    v.push('b' as u8);
    v.push('u' as u8);
    v.push('g' as u8);
    v.push(' ' as u8);
    v.push('c' as u8);
    v.push('o' as u8);
    v.push('n' as u8);
    v.push('s' as u8);
    v.push('o' as u8);
    v.push('l' as u8);
    v.push('e' as u8);
    v.push(10u8);
    v.push('w' as u8);
    v.push('d' as u8);
    v.push('c' as u8);
    v.push('o' as u8);
    v.push('d' as u8);
    v.push('e' as u8);
    v.push(':' as u8);
    v.push(' ' as u8);
    assert(v@ =~= banner_prefix());
    v
}

/// The response to one read buffer.
pub fn respond(buf: &[u8]) -> (r: Vec<u8>)
    ensures
        r@ == response(buf@),
{
    match parse_command(buf) {
        Command::Help => lol_line(),
        Command::Exit => bye_line(),
        Command::SshOn => enabled_line(),
        Command::SshOff => disabled_line(),
        Command::Unknown => {
            let mut v = unknown_prefix_line();
            let mut i: usize = 0;
            while i < buf.len()
                invariant
                    i <= buf@.len(),
                    v@ == unknown_prefix() + buf@.subrange(0, i as int),
                decreases buf@.len() - i,
            {
                proof {
                    assert(buf@.subrange(0, i + 1) =~= buf@.subrange(0, i as int).push(
                        buf@[i as int],
                    ));
                }
                v.push(buf[i]);
                i += 1;
            }
            proof {
                assert(buf@.subrange(0, buf@.len() as int) =~= buf@);
            }
            v
        },
    }
}

/// The prompt written before every read.
pub fn prompt() -> (r: Vec<u8>)
    ensures
        r@ == prompt_pat(),
{
    let mut v: Vec<u8> = Vec::new();
    v.push(10u8);
    v.push('>' as u8);
    assert(v@ =~= prompt_pat());
    v
}

/// The banner written on connect, for a given outcome of the identity read.
pub fn banner(wdcode: &Option<[u8; 16]>) -> (r: Vec<u8>)
    ensures
        r@ == banner_for(ident_bytes(*wdcode)),
{
    let mut v = banner_prefix_line();
    match wdcode {
        Some(code) => {
            let mut i: usize = 0;
            while i < 16
                invariant
                    i <= 16,
                    v@ == banner_prefix() + code@.subrange(0, i as int),
                decreases 16 - i,
            {
                proof {
                    assert(code@.subrange(0, i + 1) =~= code@.subrange(0, i as int).push(
                        code@[i as int],
                    ));
                }
                let b = *vstd::array::array_index_get(code, i);
                v.push(b);
                i += 1;
            }
            proof {
                assert(code@.subrange(0, 16) =~= code@);
            }
        },
        None => {
            v.push('<' as u8);
            v.push('u' as u8);
            v.push('n' as u8);
            v.push('k' as u8);
            v.push('n' as u8);
            v.push('o' as u8);
            v.push('w' as u8);
            v.push('n' as u8);
            v.push('>' as u8);
            proof {
                assert(v@ =~= banner_prefix() + unknown_ident());
            }
        },
    }
    v
}

/// One console session's state: open until `exit`.
pub struct Session {
    pub active: bool,
}

impl Session {
    /// A fresh session, open, as created on accept.
    pub fn new() -> (s: Session)
        ensures
            s.active,
    {
        Session { active: true }
    }

    /// Whether the command loop should run another round.
    pub fn is_active(&self) -> (r: bool)
        ensures
            r == self.active,
    {
        self.active
    }

    /// One round of the command loop: take one read buffer, hand back the
    /// response to write and the toggle the caller owes the remote-access
    /// service, and close the session exactly on `exit`.
    pub fn step(&mut self, buf: &[u8]) -> (r: (Vec<u8>, SshAction))
        requires
            old(self).active,
        ensures
            r.0@ == response(buf@),
            r.1 == action_for(parse(buf@)),
            final(self).active == stays_open(buf@),
    {
        let c = parse_command(buf);
        let action = match c {
            Command::SshOn => SshAction::Enable,
            Command::SshOff => SshAction::Disable,
            _ => SshAction::Keep,
        };
        if matches!(c, Command::Exit) {
            self.active = false;
        }
        let reply = respond(buf);
        (reply, action)
    }
}

/// Law: a buffer that matches none of the four command patterns is answered
/// with `"Unknown command: "` followed by the buffer's bytes, unmodified.
pub proof fn lemma_unknown_echoed(buf: Seq<u8>)
    requires
        !is_prefix_of(help_pat(), buf),
        !is_prefix_of(exit_pat(), buf),
        !is_prefix_of(ssh_on_pat(), buf),
        !is_prefix_of(ssh_off_pat(), buf),
    ensures
        parse(buf) == Command::Unknown,
        response(buf) == unknown_prefix() + buf,
        response(buf).subrange(unknown_prefix().len() as int, response(buf).len() as int) == buf,
        stays_open(buf),
{
    assert((unknown_prefix() + buf).subrange(
        unknown_prefix().len() as int,
        (unknown_prefix() + buf).len() as int,
    ) =~= buf);
}

/// Law: `help` is answered with `"lol\n"` and leaves the session open.
pub proof fn lemma_help_leaves_open(buf: Seq<u8>)
    requires
        is_prefix_of(help_pat(), buf),
    ensures
        response(buf) == lol_reply(),
        stays_open(buf),
{
}

/// Law: `exit` is answered with `"bye\n"` and closes the session.
pub proof fn lemma_exit_closes(buf: Seq<u8>)
    requires
        is_prefix_of(exit_pat(), buf),
    ensures
        response(buf) == bye_reply(),
        !stays_open(buf),
{
    assert(buf[0] == 'e' as u8);
    assert(!is_prefix_of(help_pat(), buf));
}

/// Law: within one session, `ssh on` and then `ssh off` are answered with
/// `"enabled ssh\n"` and then `"disabled ssh\n"`, ask for the matching
/// toggles, and leave the session open after each of the two steps.
pub proof fn lemma_ssh_toggle_sequence(first: Seq<u8>, second: Seq<u8>)
    requires
        is_prefix_of(ssh_on_pat(), first),
        is_prefix_of(ssh_off_pat(), second),
    ensures
        response(first) == enabled_reply(),
        action_for(parse(first)) == SshAction::Enable,
        stays_open(first),
        response(second) == disabled_reply(),
        action_for(parse(second)) == SshAction::Disable,
        stays_open(second),
{
    assert(first[0] == 's' as u8);
    assert(second[0] == 's' as u8);
    assert(second[5] == 'f' as u8);
    assert(!is_prefix_of(ssh_on_pat(), second));
}

/// Law: the banner is the fixed head followed by an identity segment that is
/// either the identity's 16 bytes exactly, or the literal `"<unknown>"`
/// exactly — never a mix, never truncated.
pub proof fn lemma_banner_shape(ident: Option<Seq<u8>>)
    requires
        ident matches Some(code) ==> code.len() == 16,
    ensures
        banner_for(ident).subrange(0, banner_prefix().len() as int) == banner_prefix(),
        ident matches Some(code) ==> banner_for(ident).len() == banner_prefix().len() + 16
            && banner_for(ident).subrange(
            banner_prefix().len() as int,
            banner_for(ident).len() as int,
        ) == code,
        ident is None ==> banner_for(ident).len() == banner_prefix().len()
            + unknown_ident().len() && banner_for(ident).subrange(
            banner_prefix().len() as int,
            banner_for(ident).len() as int,
        ) == unknown_ident(),
{
    let tail = match ident {
        Some(code) => code,
        None => unknown_ident(),
    };
    assert(banner_for(ident) == banner_prefix() + tail);
    assert((banner_prefix() + tail).subrange(0, banner_prefix().len() as int) =~= banner_prefix());
    assert((banner_prefix() + tail).subrange(
        banner_prefix().len() as int,
        (banner_prefix() + tail).len() as int,
    ) =~= tail);
}

} // verus!
