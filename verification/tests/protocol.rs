use klmd::color::Rgb;
use klmd::driver::{KeyboardMode, RecordedCall, RecordingDriver};
use klmd::keyboard::{Keyboard, KeyboardState};
use klmd::proto::{
    handle_framed_request, proto_handle_message, ProtoResponse, OP_ADD_COLOR, OP_LOCK_SYNC,
    OP_RESET_COLORS, OP_SET_BRIGHTNESS, OP_SET_COLOR, OP_SET_POWER, OP_SET_SPEED, OP_SET_STATE,
    OP_SYNC, OP_TOGGLE_POWER, OP_UNLOCK_SYNC,
};

fn fresh_keyboard() -> Keyboard<RecordingDriver> {
    let modes = vec![KeyboardMode::ModeSteady, KeyboardMode::ModeBreathing];
    Keyboard::new(RecordingDriver::new(modes, 4))
}

#[test]
fn response_codes() {
    assert_eq!(ProtoResponse::ResultOk.to_u8(), 0x00);
    assert_eq!(ProtoResponse::ResultBadRequest.to_u8(), 0x01);
    assert_eq!(ProtoResponse::ResultError.to_u8(), 0x02);
}

#[test]
fn zero_length_frame_is_a_bad_request() {
    let mut kb = fresh_keyboard();
    let response = handle_framed_request(&mut kb, &vec![0x00]);
    assert_eq!(
        response.to_u8(),
        ProtoResponse::ResultBadRequest.to_u8()
    );
    // Nothing was applied.
    assert_eq!(kb.state(), KeyboardState::KeyboardOff);
    assert_eq!(kb.brightness(), 0);
    assert!(!kb.power());
    assert!(!kb.need_sync());
    assert_eq!(kb.driver().call_count(), 0);
}

#[test]
fn empty_frame_is_a_bad_request() {
    let mut kb = fresh_keyboard();
    assert_eq!(
        handle_framed_request(&mut kb, &vec![]),
        ProtoResponse::ResultBadRequest
    );
}

#[test]
fn frame_size_must_match_its_length_byte() {
    let mut kb = fresh_keyboard();
    // Length byte says two payload bytes; only one follows.
    assert_eq!(
        handle_framed_request(&mut kb, &vec![0x02, OP_SET_BRIGHTNESS]),
        ProtoResponse::ResultBadRequest
    );
    // Length byte says one payload byte; two follow.
    assert_eq!(
        handle_framed_request(&mut kb, &vec![0x01, OP_SET_BRIGHTNESS, 40]),
        ProtoResponse::ResultBadRequest
    );
    assert!(!kb.need_sync());
}

#[test]
fn framed_command_is_applied() {
    let mut kb = fresh_keyboard();
    assert_eq!(
        handle_framed_request(&mut kb, &vec![0x02, OP_SET_BRIGHTNESS, 40]),
        ProtoResponse::ResultOk
    );
    assert_eq!(kb.brightness(), 40);
    assert!(kb.need_sync());
}

#[test]
fn unknown_opcode_is_a_bad_request() {
    let mut kb = fresh_keyboard();
    assert_eq!(
        proto_handle_message(&mut kb, &vec![0xEE]),
        ProtoResponse::ResultBadRequest
    );
    assert_eq!(
        proto_handle_message(&mut kb, &vec![]),
        ProtoResponse::ResultBadRequest
    );
    assert!(!kb.need_sync());
}

#[test]
fn wrong_operand_count_is_a_bad_request() {
    let mut kb = fresh_keyboard();
    assert_eq!(
        proto_handle_message(&mut kb, &vec![OP_SET_COLOR, 1, 2]),
        ProtoResponse::ResultBadRequest
    );
    assert_eq!(
        proto_handle_message(&mut kb, &vec![OP_SYNC, 0]),
        ProtoResponse::ResultBadRequest
    );
    assert_eq!(
        proto_handle_message(&mut kb, &vec![OP_SET_STATE]),
        ProtoResponse::ResultBadRequest
    );
    assert!(!kb.need_sync());
    assert_eq!(kb.driver().call_count(), 0);
}

#[test]
fn set_state_with_bad_state_byte_is_a_bad_request() {
    let mut kb = fresh_keyboard();
    assert_eq!(
        proto_handle_message(&mut kb, &vec![OP_SET_STATE, 0x07]),
        ProtoResponse::ResultBadRequest
    );
    assert_eq!(kb.state(), KeyboardState::KeyboardOff);
    assert!(!kb.need_sync());
}

#[test]
fn commands_drive_the_engine() {
    let mut kb = fresh_keyboard();
    assert_eq!(
        proto_handle_message(&mut kb, &vec![OP_RESET_COLORS]),
        ProtoResponse::ResultOk
    );
    assert_eq!(
        proto_handle_message(&mut kb, &vec![OP_SET_COLOR, 255, 0, 0]),
        ProtoResponse::ResultOk
    );
    assert_eq!(
        proto_handle_message(&mut kb, &vec![OP_ADD_COLOR, 0, 255, 0]),
        ProtoResponse::ResultOk
    );
    assert_eq!(
        proto_handle_message(&mut kb, &vec![OP_SET_BRIGHTNESS, 90]),
        ProtoResponse::ResultOk
    );
    assert_eq!(
        proto_handle_message(&mut kb, &vec![OP_SET_SPEED, 7]),
        ProtoResponse::ResultOk
    );
    assert_eq!(
        proto_handle_message(&mut kb, &vec![OP_SET_STATE, 0x02]),
        ProtoResponse::ResultOk
    );
    assert_eq!(
        proto_handle_message(&mut kb, &vec![OP_SET_POWER, 1]),
        ProtoResponse::ResultOk
    );
    assert_eq!(kb.colors().as_slice(), &[Rgb::new(255, 0, 0), Rgb::new(0, 255, 0)]);
    assert_eq!(kb.brightness(), 90);
    assert_eq!(kb.speed(), 7);
    assert_eq!(kb.state(), KeyboardState::KeyboardBreathing);
    assert!(kb.power());
    // The auto-sync gate was closed the whole time: no driver call yet.
    assert_eq!(kb.driver().call_count(), 0);
    assert_eq!(
        proto_handle_message(&mut kb, &vec![OP_SYNC]),
        ProtoResponse::ResultOk
    );
    assert_eq!(kb.driver().call_count(), 1);
    match &kb.driver().log()[0] {
        RecordedCall::Breathing(colors, brightness, speed) => {
            assert_eq!(colors.as_slice(), &[Rgb::new(255, 0, 0), Rgb::new(0, 255, 0)]);
            assert_eq!(*brightness, 90);
            assert_eq!(*speed, 7);
        }
        _ => panic!("expected a breathing call"),
    }
}

#[test]
fn unlock_command_opens_the_auto_sync_gate() {
    let mut kb = fresh_keyboard();
    assert_eq!(
        proto_handle_message(&mut kb, &vec![OP_UNLOCK_SYNC]),
        ProtoResponse::ResultOk
    );
    assert!(kb.syncing());
    assert_eq!(
        proto_handle_message(&mut kb, &vec![OP_LOCK_SYNC]),
        ProtoResponse::ResultOk
    );
    assert!(!kb.syncing());
}

#[test]
fn toggle_power_command_forces_a_sync() {
    let mut kb = fresh_keyboard();
    assert_eq!(
        proto_handle_message(&mut kb, &vec![OP_TOGGLE_POWER]),
        ProtoResponse::ResultOk
    );
    assert!(kb.power());
    assert_eq!(kb.driver().call_count(), 1);
}

#[test]
fn fatal_sync_through_a_command_is_an_error_response() {
    let mut kb = fresh_keyboard();
    assert_eq!(
        proto_handle_message(&mut kb, &vec![OP_RESET_COLORS]),
        ProtoResponse::ResultOk
    );
    assert_eq!(
        proto_handle_message(&mut kb, &vec![OP_SET_POWER, 1]),
        ProtoResponse::ResultOk
    );
    assert_eq!(
        proto_handle_message(&mut kb, &vec![OP_UNLOCK_SYNC]),
        ProtoResponse::ResultOk
    );
    // Steady with an empty color list: the command itself is well-formed,
    // but the auto-sync it triggers hits the empty-colors guard.
    assert_eq!(
        proto_handle_message(&mut kb, &vec![OP_SET_STATE, 0x01]),
        ProtoResponse::ResultError
    );
    assert_eq!(kb.state(), KeyboardState::KeyboardSteady);
    assert_eq!(kb.driver().call_count(), 0);
}
