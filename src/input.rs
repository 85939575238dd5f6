//! Raw input records as a keyboard or pointing device delivers them, and the
//! events that keyboard records stand for.

use crate::types::Message;
use vstd::prelude::*;

verus! {

/// Size of one raw input record: two 64-bit timestamps, a 16-bit type, a
/// 16-bit code and a 32-bit value, little-endian.
pub const RECORD_LEN: usize = 24;

/// The record type of a key.
pub const EV_KEY: u16 = 1;

/// The record value of a key press (release is 0, repeat 2).
pub const KEY_PRESS: i32 = 1;

/// One decoded input record.
#[derive(Clone, Copy, Debug, PartialEq, Eq)]
pub struct InputEvent {
    pub tv_sec: i64,
    pub tv_usec: i64,
    pub type_: u16,
    pub code: u16,
    pub value: i32,
}

/// The unsigned little-endian number in `n` bytes of `b` from `at`.
pub open spec fn le_bytes(b: Seq<u8>, at: int, n: nat) -> int
    decreases n,
{
    if n == 0 {
        0
    } else {
        b[at] as int + 256 * le_bytes(b, at + 1, (n - 1) as nat)
    }
}

/// The two's complement reading of an unsigned number `u` below `2 * half`.
pub open spec fn signed(u: int, half: int) -> int {
    if u >= half {
        u - 2 * half
    } else {
        u
    }
}

/// What a record of exactly `RECORD_LEN` bytes holds.
pub open spec fn decoded(b: Seq<u8>) -> InputEvent {
    InputEvent {
        tv_sec: signed(le_bytes(b, 0, 8), 0x8000_0000_0000_0000) as i64,
        tv_usec: signed(le_bytes(b, 8, 8), 0x8000_0000_0000_0000) as i64,
        type_: le_bytes(b, 16, 2) as u16,
        code: le_bytes(b, 18, 2) as u16,
        value: signed(le_bytes(b, 20, 4), 0x8000_0000) as i32,
    }
}

proof fn lemma_le_split(b: Seq<u8>, at: int, n: nat, m: nat)
    ensures
        le_bytes(b, at, n + m) == le_bytes(b, at, n) + pow256(n) * le_bytes(b, at + n, m),
    decreases n,
{
    if n > 0 {
        lemma_le_split(b, at + 1, (n - 1) as nat, m);
        assert((n + m - 1) as nat == (n - 1) as nat + m);
        assert(pow256(n) == 256 * pow256((n - 1) as nat));
        assert(at + 1 + (n - 1) == at + n);
        assert(256 * (pow256((n - 1) as nat) * le_bytes(b, at + n, m)) == pow256(n) * le_bytes(
            b,
            at + n,
            m,
        )) by (nonlinear_arith)
            requires
                pow256(n) == 256 * pow256((n - 1) as nat),
        ;
    }
}

spec fn pow256(n: nat) -> int
    decreases n,
{
    if n == 0 {
        1
    } else {
        256 * pow256((n - 1) as nat)
    }
}

fn read_u16(b: &[u8], at: usize) -> (r: u16)
    requires
        b@.len() == RECORD_LEN,
        at + 2 <= RECORD_LEN,
    ensures
        r == le_bytes(b@, at as int, 2),
{
    proof {
        reveal_with_fuel(le_bytes, 3);
    }
    b[at] as u16 + 256 * (b[at + 1] as u16)
}

fn read_u32(b: &[u8], at: usize) -> (r: u32)
    requires
        b@.len() == RECORD_LEN,
        at + 4 <= RECORD_LEN,
    ensures
        r == le_bytes(b@, at as int, 4),
{
    let lo = read_u16(b, at);
    let hi = read_u16(b, at + 2);
    proof {
        lemma_le_split(b@, at as int, 2, 2);
        reveal_with_fuel(pow256, 3);
    }
    lo as u32 + 65536 * (hi as u32)
}

fn read_u64(b: &[u8], at: usize) -> (r: u64)
    requires
        b@.len() == RECORD_LEN,
        at + 8 <= RECORD_LEN,
    ensures
        r == le_bytes(b@, at as int, 8),
{
    let lo = read_u32(b, at);
    let hi = read_u32(b, at + 4);
    proof {
        lemma_le_split(b@, at as int, 4, 4);
        reveal_with_fuel(pow256, 5);
    }
    lo as u64 + 0x1_0000_0000 * (hi as u64)
}

fn to_i64(u: u64) -> (r: i64)
    ensures
        r == signed(u as int, 0x8000_0000_0000_0000),
{
    if u >= 0x8000_0000_0000_0000 {
        i64::MIN + ((u - 0x8000_0000_0000_0000) as i64)
    } else {
        u as i64
    }
}

fn to_i32(u: u32) -> (r: i32)
    ensures
        r == signed(u as int, 0x8000_0000),
{
    if u >= 0x8000_0000 {
        i32::MIN + ((u - 0x8000_0000) as i32)
    } else {
        u as i32
    }
}

/// Decode one record. Only a buffer of exactly `RECORD_LEN` bytes is a
/// record; anything shorter or longer is refused.
pub fn decode_record(buf: &[u8]) -> (r: Option<InputEvent>)
    ensures
        r.is_some() <==> buf@.len() == RECORD_LEN,
        r.is_some() ==> r == Some(decoded(buf@)),
{
    if buf.len() != RECORD_LEN {
        return None;
    }
    let tv_sec = to_i64(read_u64(buf, 0));
    let tv_usec = to_i64(read_u64(buf, 8));
    let type_ = read_u16(buf, 16);
    let code = read_u16(buf, 18);
    let value = to_i32(read_u32(buf, 20));
    Some(InputEvent { tv_sec, tv_usec, type_, code, value })
}

/// Whether a record type is a key.
pub fn is_key_event(type_: u16) -> (r: bool)
    ensures
        r == (type_ == EV_KEY),
{
    type_ == EV_KEY
}

/// Whether a key record's value is a press.
pub fn is_key_press(value: i32) -> (r: bool)
    ensures
        r == (value == KEY_PRESS),
{
    value == KEY_PRESS
}

/// The event a key press with this code stands for.
pub open spec fn key_message(code: u16) -> Message {
    if code == 224 {
        Message::DspDown
    } else if code == 225 {
        Message::DspUp
    } else if code == 229 {
        Message::KbdDown
    } else if code == 230 {
        Message::KbdUp
    } else {
        Message::Input
    }
}

/// The event a keyboard record stands for: key presses only; the brightness
/// keys step a channel and any other key is activity.
pub fn message_for(ev: &InputEvent) -> (r: Option<Message>)
    ensures
        r == (if ev.type_ == EV_KEY && ev.value == KEY_PRESS {
            Some(key_message(ev.code))
        } else {
            None
        }),
{
    if is_key_event(ev.type_) && is_key_press(ev.value) {
        let m = match ev.code {
            224 => Message::DspDown,
            225 => Message::DspUp,
            229 => Message::KbdDown,
            230 => Message::KbdUp,
            _ => Message::Input,
        };
        Some(m)
    } else {
        None
    }
}

} // verus!
