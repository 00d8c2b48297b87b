//! Device-facing helpers: the identity read's outcome, the LED control
//! bytes, and the liveness announcer stub.
//!
//! The surrounding process does the actual reads and writes against the
//! platform paths; these functions decide what those bytes mean or what
//! bytes to hand over.

use vstd::prelude::*;

verus! {

/// The console's fixed TCP port, bound on all interfaces at startup.
pub const CONSOLE_PORT: u16 = 9123;

/// How many bytes a device identity holds.
pub const IDENT_LEN: usize = 16;

/// How many bytes one command read fills.
pub const CMD_BUF_LEN: usize = 256;

/// Judge one read against the identity file: only a full read of all 16
/// bytes yields an identity; a short read means the identity is absent,
/// just as an unreadable file does.
pub fn identity_from_read(buf: [u8; 16], nread: usize) -> (r: Option<[u8; 16]>)
    ensures
        nread == IDENT_LEN ==> r == Some(buf),
        nread != IDENT_LEN ==> r is None,
{
    if nread == IDENT_LEN {
        Some(buf)
    } else {
        None
    }
}

/// `"255\n"` — full brightness.
pub open spec fn led_on_bytes() -> Seq<u8> {
    seq!['2' as u8, '5' as u8, '5' as u8, 10u8]
}

/// `"0\n"` — dark.
pub open spec fn led_off_bytes() -> Seq<u8> {
    seq!['0' as u8, 10u8]
}

/// `"none\n"` — detaches the LED from any kernel trigger so the heartbeat
/// loop alone drives it.
pub open spec fn led_no_trigger_bytes() -> Seq<u8> {
    seq!['n' as u8, 'o' as u8, 'n' as u8, 'e' as u8, 10u8]
}

/// The bytes to write to the LED's brightness file for one heartbeat phase.
pub fn led_level(on: bool) -> (r: Vec<u8>)
    ensures
        on ==> r@ == led_on_bytes(),
        !on ==> r@ == led_off_bytes(),
{
    let mut v: Vec<u8> = Vec::new();
    if on {
        v.push('2' as u8);
        v.push('5' as u8);
        v.push('5' as u8);
        v.push(10u8);
        assert(v@ =~= led_on_bytes());
    } else {
        v.push('0' as u8);
        v.push(10u8);
        assert(v@ =~= led_off_bytes());
    }
    v
}

/// The bytes to write to the LED's trigger file before the heartbeat starts.
pub fn led_no_trigger() -> (r: Vec<u8>)
    ensures
        r@ == led_no_trigger_bytes(),
{
    let mut v: Vec<u8> = Vec::new();
    v.push('n' as u8);
    v.push('o' as u8);
    v.push('n' as u8);
    v.push('e' as u8);
    v.push(10u8);
    assert(v@ =~= led_no_trigger_bytes());
    v
}

/// Announce a phrase aloud.  Builds without a speech engine keep the
/// announcements as no-ops; a build that carries one performs the call in
/// the surrounding process instead.
pub fn say(_output: String) {
}

} // verus!
