//! Command recognition.
//!
//! A command is recognised by matching the leading bytes of the read buffer
//! against a literal newline-terminated pattern; any bytes after the matched
//! pattern are ignored.  Anything that matches no pattern is `Unknown`.

use vstd::prelude::*;

verus! {

/// The console's command vocabulary, plus the catch-all for unrecognised input.
#[derive(Clone, Copy, Debug, PartialEq, Eq, Structural)]
pub enum Command {
    Help,
    Exit,
    SshOn,
    SshOff,
    Unknown,
}

/// `pat` stands at the front of `buf`; bytes past `pat.len()` play no part.
pub open spec fn is_prefix_of(pat: Seq<u8>, buf: Seq<u8>) -> bool {
    &&& pat.len() <= buf.len()
    &&& forall|j: int| 0 <= j < pat.len() ==> buf[j] == pat[j]
}

pub open spec fn help_pat() -> Seq<u8> {
    seq!['h' as u8, 'e' as u8, 'l' as u8, 'p' as u8, 10u8]
}

pub open spec fn exit_pat() -> Seq<u8> {
    seq!['e' as u8, 'x' as u8, 'i' as u8, 't' as u8, 10u8]
}

pub open spec fn ssh_on_pat() -> Seq<u8> {
    seq!['s' as u8, 's' as u8, 'h' as u8, ' ' as u8, 'o' as u8, 'n' as u8, 10u8]
}

pub open spec fn ssh_off_pat() -> Seq<u8> {
    seq!['s' as u8, 's' as u8, 'h' as u8, ' ' as u8, 'o' as u8, 'f' as u8, 'f' as u8, 10u8]
}

/// What one read buffer means: the first pattern that stands at its front,
/// or `Unknown` if none does.
pub open spec fn parse(buf: Seq<u8>) -> Command {
    if is_prefix_of(help_pat(), buf) {
        Command::Help
    } else if is_prefix_of(exit_pat(), buf) {
        Command::Exit
    } else if is_prefix_of(ssh_on_pat(), buf) {
        Command::SshOn
    } else if is_prefix_of(ssh_off_pat(), buf) {
        Command::SshOff
    } else {
        Command::Unknown
    }
}

fn has_prefix(buf: &[u8], pat: &Vec<u8>) -> (r: bool)
    ensures
        r == is_prefix_of(pat@, buf@),
{
    if pat.len() > buf.len() {
        return false;
    }
    let mut i: usize = 0;
    while i < pat.len()
        invariant
            i <= pat@.len() <= buf@.len(),
            forall|j: int| 0 <= j < i ==> buf@[j] == pat@[j],
        decreases pat@.len() - i,
    {
        if buf[i] != pat[i] {
            return false;
        }
        i += 1;
    }
    true
}

fn help_line() -> (r: Vec<u8>)
    ensures
        r@ == help_pat(),
{
    let mut v: Vec<u8> = Vec::new();
    v.push('h' as u8);
    v.push('e' as u8);
    v.push('l' as u8);
    v.push('p' as u8);
    v.push(10u8);
    assert(v@ =~= help_pat());
    v
}

fn exit_line() -> (r: Vec<u8>)
    ensures
        r@ == exit_pat(),
{
    let mut v: Vec<u8> = Vec::new();
    v.push('e' as u8);
    v.push('x' as u8);
    v.push('i' as u8);
    v.push('t' as u8);
    v.push(10u8);
    assert(v@ =~= exit_pat());
    v
}

fn ssh_on_line() -> (r: Vec<u8>)
    ensures
        r@ == ssh_on_pat(),
{
    let mut v: Vec<u8> = Vec::new();
    v.push('s' as u8);
    v.push('s' as u8);
    v.push('h' as u8);
    v.push(' ' as u8);
    v.push('o' as u8);
    v.push('n' as u8);
    v.push(10u8);
    assert(v@ =~= ssh_on_pat());
    v
}

fn ssh_off_line() -> (r: Vec<u8>)
    ensures
        r@ == ssh_off_pat(),
{
    let mut v: Vec<u8> = Vec::new();
    v.push('s' as u8);
    v.push('s' as u8);
    v.push('h' as u8);
    v.push(' ' as u8);
    v.push('o' as u8);
    v.push('f' as u8);
    v.push('f' as u8);
    v.push(10u8);
    assert(v@ =~= ssh_off_pat());
    v
}

/// Recognise the command at the front of one read buffer.
pub fn parse_command(buf: &[u8]) -> (c: Command)
    ensures
        c == parse(buf@),
{
    let help = help_line();
    if has_prefix(buf, &help) {
        return Command::Help;
    }
    let exit_cmd = exit_line();
    if has_prefix(buf, &exit_cmd) {
        return Command::Exit;
    }
    let on = ssh_on_line();
    if has_prefix(buf, &on) {
        return Command::SshOn;
    }
    let off = ssh_off_line();
    if has_prefix(buf, &off) {
        return Command::SshOff;
    }
    Command::Unknown
}

} // verus!
