//! The request dispatcher: decodes one framed client request into one
//! engine command, applies it to the engine, and encodes a one-byte result
//! code. A malformed request applies nothing — either the whole command is
//! valid and applied, or the engine is left untouched and the bad-request
//! code is returned.

use vstd::prelude::*;

use crate::color::Rgb;
use crate::driver::Driver;
use crate::keyboard::{Keyboard, KeyboardState, KeyboardView, SyncError};
use crate::keyboard::{auto_sync_result, auto_synced, sync_result, synced};

verus! {

/// Command opcodes: the first payload byte of a request.
pub const OP_SET_STATE: u8 = 0x01;

pub const OP_SET_COLOR: u8 = 0x02;

pub const OP_ADD_COLOR: u8 = 0x03;

pub const OP_SET_BRIGHTNESS: u8 = 0x04;

pub const OP_SET_SPEED: u8 = 0x05;

pub const OP_SET_POWER: u8 = 0x06;

pub const OP_TOGGLE_POWER: u8 = 0x07;

pub const OP_RESET_COLORS: u8 = 0x08;

pub const OP_LOCK_SYNC: u8 = 0x09;

pub const OP_UNLOCK_SYNC: u8 = 0x0A;

pub const OP_SYNC: u8 = 0x0B;

/// The one-byte result of handling one request.
#[derive(Clone, Copy, PartialEq, Eq, Structural, Debug)]
pub enum ProtoResponse {
    /// The command was applied.
    ResultOk,
    /// The request was malformed; nothing was applied.
    ResultBadRequest,
    /// The command was applied but the sync it triggered failed fatally.
    ResultError,
}

impl ProtoResponse {
    /// The fixed one-byte code of each result.
    pub open spec fn spec_to_u8(&self) -> u8 {
        match *self {
            ProtoResponse::ResultOk => 0x00,
            ProtoResponse::ResultBadRequest => 0x01,
            ProtoResponse::ResultError => 0x02,
        }
    }

    pub fn to_u8(&self) -> (b: u8)
        ensures
            b == self.spec_to_u8(),
    {
        match *self {
            ProtoResponse::ResultOk => 0x00,
            ProtoResponse::ResultBadRequest => 0x01,
            ProtoResponse::ResultError => 0x02,
        }
    }
}

/// Whether a request payload is one well-formed command: a known opcode,
/// exactly the operands it takes, and a decodable state byte where one is
/// taken.
pub open spec fn valid_command(p: Seq<u8>) -> bool {
    if p.len() == 0 {
        false
    } else if p[0] == OP_SET_STATE {
        p.len() == 2 && KeyboardState::spec_from_u8(p[1]) is Some
    } else if p[0] == OP_SET_COLOR {
        p.len() == 4
    } else if p[0] == OP_ADD_COLOR {
        p.len() == 4
    } else if p[0] == OP_SET_BRIGHTNESS {
        p.len() == 2
    } else if p[0] == OP_SET_SPEED {
        p.len() == 2
    } else if p[0] == OP_SET_POWER {
        p.len() == 2
    } else if p[0] == OP_TOGGLE_POWER {
        p.len() == 1
    } else if p[0] == OP_RESET_COLORS {
        p.len() == 1
    } else if p[0] == OP_LOCK_SYNC {
        p.len() == 1
    } else if p[0] == OP_UNLOCK_SYNC {
        p.len() == 1
    } else if p[0] == OP_SYNC {
        p.len() == 1
    } else {
        false
    }
}

/// The engine view after a valid command: exactly the engine mutator the
/// opcode names, applied to the operands.
pub open spec fn command_view(v: KeyboardView, p: Seq<u8>) -> KeyboardView
    recommends
        valid_command(p),
{
    if p[0] == OP_SET_STATE {
        auto_synced(
            KeyboardView {
                state: KeyboardState::spec_from_u8(p[1]).unwrap(),
                need_sync: true,
                ..v
            },
        )
    } else if p[0] == OP_SET_COLOR {
        auto_synced(
            KeyboardView {
                colors: seq![Rgb { r: p[1], g: p[2], b: p[3] }],
                need_sync: true,
                ..v
            },
        )
    } else if p[0] == OP_ADD_COLOR {
        auto_synced(
            KeyboardView {
                colors: v.colors.push(Rgb { r: p[1], g: p[2], b: p[3] }),
                need_sync: true,
                ..v
            },
        )
    } else if p[0] == OP_SET_BRIGHTNESS {
        auto_synced(KeyboardView { brightness: p[1], need_sync: true, ..v })
    } else if p[0] == OP_SET_SPEED {
        auto_synced(KeyboardView { speed: p[1], need_sync: true, ..v })
    } else if p[0] == OP_SET_POWER {
        KeyboardView { power: p[1] != 0, need_sync: true, ..v }
    } else if p[0] == OP_TOGGLE_POWER {
        synced(KeyboardView { power: !v.power, need_sync: true, ..v })
    } else if p[0] == OP_RESET_COLORS {
        KeyboardView { colors: Seq::<Rgb>::empty(), ..v }
    } else if p[0] == OP_LOCK_SYNC {
        KeyboardView { syncing: false, ..v }
    } else if p[0] == OP_UNLOCK_SYNC {
        KeyboardView { syncing: true, ..v }
    } else {
        synced(v)
    }
}

/// The sync outcome of a valid command: the outcome of the sync it
/// triggers, or plain success for commands that trigger none.
pub open spec fn command_result(v: KeyboardView, p: Seq<u8>) -> Result<(), SyncError>
    recommends
        valid_command(p),
{
    if p[0] == OP_SET_STATE {
        auto_sync_result(
            KeyboardView {
                state: KeyboardState::spec_from_u8(p[1]).unwrap(),
                need_sync: true,
                ..v
            },
        )
    } else if p[0] == OP_SET_COLOR {
        auto_sync_result(
            KeyboardView {
                colors: seq![Rgb { r: p[1], g: p[2], b: p[3] }],
                need_sync: true,
                ..v
            },
        )
    } else if p[0] == OP_ADD_COLOR {
        auto_sync_result(
            KeyboardView {
                colors: v.colors.push(Rgb { r: p[1], g: p[2], b: p[3] }),
                need_sync: true,
                ..v
            },
        )
    } else if p[0] == OP_SET_BRIGHTNESS {
        auto_sync_result(KeyboardView { brightness: p[1], need_sync: true, ..v })
    } else if p[0] == OP_SET_SPEED {
        auto_sync_result(KeyboardView { speed: p[1], need_sync: true, ..v })
    } else if p[0] == OP_TOGGLE_POWER {
        sync_result(KeyboardView { power: !v.power, need_sync: true, ..v })
    } else if p[0] == OP_SYNC {
        sync_result(v)
    } else {
        Ok(())
    }
}

/// The engine view after handling a payload: a malformed one changes
/// nothing.
pub open spec fn dispatch_view(v: KeyboardView, p: Seq<u8>) -> KeyboardView {
    if valid_command(p) {
        command_view(v, p)
    } else {
        v
    }
}

/// The result code of handling a payload.
pub open spec fn dispatch_response(v: KeyboardView, p: Seq<u8>) -> ProtoResponse {
    if !valid_command(p) {
        ProtoResponse::ResultBadRequest
    } else if command_result(v, p) is Err {
        ProtoResponse::ResultError
    } else {
        ProtoResponse::ResultOk
    }
}

/// The result code for one applied command's sync outcome.
pub open spec fn spec_response_of(r: Result<(), SyncError>) -> ProtoResponse {
    if r is Ok {
        ProtoResponse::ResultOk
    } else {
        ProtoResponse::ResultError
    }
}

fn response_of(r: Result<(), SyncError>) -> (p: ProtoResponse)
    ensures
        p == spec_response_of(r),
{
    match r {
        Ok(()) => ProtoResponse::ResultOk,
        Err(_) => ProtoResponse::ResultError,
    }
}

/// Handle one decoded request payload: apply the command it encodes to the
/// engine and return the result code. A malformed payload — empty, unknown
/// opcode, wrong operand count, bad state byte — applies nothing and is
/// answered with the bad-request code.
pub fn proto_handle_message<D: Driver>(keyboard: &mut Keyboard<D>, buffer: &Vec<u8>) -> (r:
    ProtoResponse)
    ensures
        final(keyboard)@ == dispatch_view(old(keyboard)@, buffer@),
        r == dispatch_response(old(keyboard)@, buffer@),
{
    if buffer.len() == 0 {
        return ProtoResponse::ResultBadRequest;
    }
    let op = buffer[0];
    if op == OP_SET_STATE {
        if buffer.len() != 2 {
            return ProtoResponse::ResultBadRequest;
        }
        match KeyboardState::from_u8(buffer[1]) {
            Some(s) => response_of(keyboard.set_state(s)),
            None => ProtoResponse::ResultBadRequest,
        }
    } else if op == OP_SET_COLOR {
        if buffer.len() != 4 {
            return ProtoResponse::ResultBadRequest;
        }
        response_of(keyboard.set_color(Rgb::new(buffer[1], buffer[2], buffer[3])))
    } else if op == OP_ADD_COLOR {
        if buffer.len() != 4 {
            return ProtoResponse::ResultBadRequest;
        }
        response_of(keyboard.add_color(Rgb::new(buffer[1], buffer[2], buffer[3])))
    } else if op == OP_SET_BRIGHTNESS {
        if buffer.len() != 2 {
            return ProtoResponse::ResultBadRequest;
        }
        response_of(keyboard.set_brightness(buffer[1]))
    } else if op == OP_SET_SPEED {
        if buffer.len() != 2 {
            return ProtoResponse::ResultBadRequest;
        }
        response_of(keyboard.set_speed(buffer[1]))
    } else if op == OP_SET_POWER {
        if buffer.len() != 2 {
            return ProtoResponse::ResultBadRequest;
        }
        keyboard.set_power(buffer[1] != 0);
        ProtoResponse::ResultOk
    } else if op == OP_TOGGLE_POWER {
        if buffer.len() != 1 {
            return ProtoResponse::ResultBadRequest;
        }
        response_of(keyboard.toggle_power())
    } else if op == OP_RESET_COLORS {
        if buffer.len() != 1 {
            return ProtoResponse::ResultBadRequest;
        }
        keyboard.reset_colors();
        ProtoResponse::ResultOk
    } else if op == OP_LOCK_SYNC {
        if buffer.len() != 1 {
            return ProtoResponse::ResultBadRequest;
        }
        keyboard.lock_sync();
        ProtoResponse::ResultOk
    } else if op == OP_UNLOCK_SYNC {
        if buffer.len() != 1 {
            return ProtoResponse::ResultBadRequest;
        }
        keyboard.unlock_sync();
        ProtoResponse::ResultOk
    } else if op == OP_SYNC {
        if buffer.len() != 1 {
            return ProtoResponse::ResultBadRequest;
        }
        response_of(keyboard.sync())
    } else {
        ProtoResponse::ResultBadRequest
    }
}

/// Whether a raw framed request is well-formed: a nonzero length byte,
/// then exactly that many payload bytes.
pub open spec fn frame_ok(raw: Seq<u8>) -> bool {
    &&& raw.len() >= 1
    &&& raw[0] != 0
    &&& raw.len() == 1 + raw[0] as int
}

/// The payload of a framed request: everything after the length byte.
pub open spec fn frame_payload(raw: Seq<u8>) -> Seq<u8> {
    raw.subrange(1, raw.len() as int)
}

/// The engine view after handling a raw framed request: a bad frame
/// changes nothing.
pub open spec fn framed_view(v: KeyboardView, raw: Seq<u8>) -> KeyboardView {
    if frame_ok(raw) {
        dispatch_view(v, frame_payload(raw))
    } else {
        v
    }
}

/// The result code of handling a raw framed request.
pub open spec fn framed_response(v: KeyboardView, raw: Seq<u8>) -> ProtoResponse {
    if frame_ok(raw) {
        dispatch_response(v, frame_payload(raw))
    } else {
        ProtoResponse::ResultBadRequest
    }
}

/// Law: requests are all-or-nothing. A malformed payload, or a bad frame,
/// applies nothing at all — the engine, its driver log included, stays
/// exactly what it was, and the answer is the bad-request code.
pub proof fn lemma_bad_request_changes_nothing(v: KeyboardView, p: Seq<u8>, raw: Seq<u8>)
    ensures
        !valid_command(p) ==> dispatch_view(v, p) == v && dispatch_response(v, p)
            == ProtoResponse::ResultBadRequest,
        !frame_ok(raw) ==> framed_view(v, raw) == v && framed_response(v, raw)
            == ProtoResponse::ResultBadRequest,
{
}

/// Handle one raw framed request: one length byte, then that many payload
/// bytes. A zero length byte, or a frame whose size does not match its
/// length byte, is a bad request and changes nothing.
pub fn handle_framed_request<D: Driver>(keyboard: &mut Keyboard<D>, raw: &Vec<u8>) -> (r:
    ProtoResponse)
    ensures
        final(keyboard)@ == framed_view(old(keyboard)@, raw@),
        r == framed_response(old(keyboard)@, raw@),
{
    if raw.len() == 0 {
        return ProtoResponse::ResultBadRequest;
    }
    let sz = raw[0];
    if sz == 0 {
        return ProtoResponse::ResultBadRequest;
    }
    if raw.len() != 1 + sz as usize {
        return ProtoResponse::ResultBadRequest;
    }
    let mut payload: Vec<u8> = Vec::new();
    let mut i: usize = 1;
    proof {
        assert(payload@ =~= raw@.subrange(1, 1));
    }
    while i < raw.len()
        invariant
            1 <= i <= raw.len(),
            payload@ == raw@.subrange(1, i as int),
        decreases raw.len() - i,
    {
        payload.push(raw[i]);
        proof {
            assert(payload@ =~= raw@.subrange(1, i + 1 as int));
        }
        i = i + 1;
    }
    proof {
        assert(payload@ =~= frame_payload(raw@));
    }
    proto_handle_message(keyboard, &payload)
}

} // verus!
