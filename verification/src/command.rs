//! The command surface: which frame each command puts on the wire, and what
//! is read back out of the response.

use vstd::prelude::*;
use crate::checksum::checksum_spec;
use crate::frame::{MsgBuilder, encoded_frame, header_bytes};

verus! {

/// Whether the LED is to be switched on or off.
#[derive(Copy, Clone, Debug, PartialEq, Eq, PartialOrd, Ord, Structural)]
pub enum LedState {
    On,
    Off,
}

/// Caller-supplied bytes sent verbatim, with no encoding applied.
#[derive(Debug, Clone)]
pub struct Raw {
    pub bytes: Vec<u8>,
}

/// The LED command: opcode 100, payload byte 7 holds the requested state.
#[derive(Debug, Clone, Copy)]
pub struct SetLed {
    pub on: LedState,
}

/// The payload `SetLed` encodes: all zero but for the last byte, which is 1
/// exactly when the LED is to be switched on.
pub open spec fn set_led_sdu(s: SetLed) -> Seq<u8> {
    seq![0u8, 0u8, 0u8, 0u8, 0u8, 0u8, 0u8, (if s.on == LedState::On { 1u8 } else { 0u8 })]
}

impl SetLed {
    /// The 8-byte payload for this command.
    pub fn as_sdu(self) -> (r: [u8; 8])
        ensures
            r@ == set_led_sdu(self),
    {
        let mut sdu: [u8; 8] = [0, 0, 0, 0, 0, 0, 0, 0];
        if self.on == LedState::On {
            sdu[7] = 1;
        }
        assert(sdu@ =~= set_led_sdu(self));
        sdu
    }
}

/// One operator command.
#[derive(Debug, Clone)]
pub enum Command {
    Raw(Raw),
    SetLed(SetLed),
    ReadButtonPresses,
    ReadUid,
}

/// The command-line arguments the program runs on.
#[derive(Debug, Clone)]
pub struct CliArgs {
    pub device: String,
    pub id: u8,
    pub echo: bool,
    pub baud_rate: u32,
    pub timeout: u64,
    pub cmd: Command,
}

/// A command the codec refuses.
#[derive(Debug, Clone, Copy, PartialEq, Eq, Structural)]
pub enum CommandError {
    /// The operation exists in the command surface but is not implemented.
    NotImplemented,
}

/// What a command puts on the wire, and what to do around it.
#[derive(Debug, Clone)]
pub struct Transmission {
    /// The bytes to write to the device.
    pub bytes: Vec<u8>,
    /// Whether to warn that the bytes are not one whole 16-byte frame.
    /// The bytes are transmitted unchanged either way.
    pub warn_length: bool,
    /// Whether the response carries a button-press count to report.
    pub expect_button_count: bool,
}

/// The frame a framed command addresses to `to`: the given opcode and
/// payload behind a zeroed source address and hop count, version 4, with
/// their checksum.
pub open spec fn wire_frame(to: u8, opcode: u8, sdu: Seq<u8>) -> Seq<u8> {
    let covered = seq![to, 0u8, 4u8, 0u8, opcode] + sdu;
    seq![0u8] + covered + seq![checksum_spec(covered), 0u8]
}

/// Decide what a command transmits. Raw bytes go out verbatim, with a
/// warning when they are not exactly 16; the framed commands encode opcode
/// 100 or 101; the unimplemented command is refused.
pub fn prepare(id: u8, cmd: Command) -> (r: Result<Transmission, CommandError>)
    ensures
        match cmd {
            Command::Raw(raw) => r matches Ok(t) && t.bytes@ == raw.bytes@
                && t.warn_length == (raw.bytes@.len() != 16) && !t.expect_button_count,
            Command::SetLed(s) => r matches Ok(t) && t.bytes@ == wire_frame(id, 100, set_led_sdu(s))
                && !t.warn_length && !t.expect_button_count,
            Command::ReadButtonPresses => r matches Ok(t)
                && t.bytes@ == wire_frame(id, 101, seq![0u8, 0u8, 0u8, 0u8, 0u8, 0u8, 0u8, 0u8])
                && !t.warn_length && t.expect_button_count,
            Command::ReadUid => r matches Err(e) && e == CommandError::NotImplemented,
        },
{
    match cmd {
        Command::Raw(raw) => {
            let warn: bool = raw.bytes.len() != 16;
            Ok(Transmission { bytes: raw.bytes, warn_length: warn, expect_button_count: false })
        }
        Command::SetLed(set_led) => {
            let b = MsgBuilder::new(id, 100, set_led.as_sdu());
            let frame: [u8; 16] = b.build();
            proof {
                assert(header_bytes(b) =~= seq![id, 0u8, 4u8, 0u8, 100u8] + set_led_sdu(set_led));
                assert(encoded_frame(b) =~= wire_frame(id, 100, set_led_sdu(set_led)));
            }
            let mut bytes: Vec<u8> = Vec::new();
            bytes.extend_from_slice(&frame);
            Ok(Transmission { bytes, warn_length: false, expect_button_count: false })
        }
        Command::ReadButtonPresses => {
            let b = MsgBuilder::new(id, 101, [0, 0, 0, 0, 0, 0, 0, 0]);
            let frame: [u8; 16] = b.build();
            proof {
                let zeros = seq![0u8, 0u8, 0u8, 0u8, 0u8, 0u8, 0u8, 0u8];
                assert(b.l7_sdu@ =~= zeros);
                assert(header_bytes(b) =~= seq![id, 0u8, 4u8, 0u8, 101u8] + zeros);
                assert(encoded_frame(b) =~= wire_frame(id, 101, zeros));
            }
            let mut bytes: Vec<u8> = Vec::new();
            bytes.extend_from_slice(&frame);
            Ok(Transmission { bytes, warn_length: false, expect_button_count: true })
        }
        Command::ReadUid => Err(CommandError::NotImplemented),
    }
}

/// The button-press count a response to `ReadButtonPresses` reports: the
/// byte at offset 13 of the 16-byte response.
pub fn button_presses(response: &[u8; 16]) -> (r: u8)
    ensures
        r == response@[13],
{
    response[13]
}

} // verus!
