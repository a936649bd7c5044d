//! Command and response frames of the card protocol.
//!
//! A command frame is `CLA INS P1 P2 [Lc data]`; the length byte and the data
//! field are left out when there is no data. A response frame is
//! `data SW1 SW2`: the status word decides the outcome, and data that comes
//! with a failing status word is never used.
use crate::bytes::append_bytes;
use crate::error::CardError;
use vstd::prelude::*;
use vstd::slice::slice_subrange;
use vstd::slice::slice_to_vec;

verus! {

/// Class byte of the application's own commands.
pub const CLA: u8 = 0x80;

/// Stores one chunk of data.
pub const INS_STORE_DATA: u8 = 0x01;

/// Reads one chunk of data.
pub const INS_READ_DATA: u8 = 0x02;

/// Asks for the status record.
pub const INS_GET_STATUS: u8 = 0x03;

/// Erases the stored data.
pub const INS_ERASE_DATA: u8 = 0x04;

/// Sets the type of the stored data.
pub const INS_SET_TYPE: u8 = 0x10;

/// Sets the label of the stored data.
pub const INS_SET_LABEL: u8 = 0x11;

/// Verifies the PIN for the current connection.
pub const INS_VERIFY_PIN: u8 = 0x20;

/// Replaces the PIN.
pub const INS_CHANGE_PIN: u8 = 0x21;

/// Sets the first PIN.
pub const INS_SET_PIN: u8 = 0x22;

/// Class byte of the interindustry SELECT command.
pub const SELECT_CLA: u8 = 0x00;

/// Instruction byte of SELECT.
pub const SELECT_INS: u8 = 0xA4;

/// P1 of SELECT: select by application identifier.
pub const SELECT_BY_NAME: u8 = 0x04;

/// The identifier of the application on the card.
pub open spec fn application_id() -> Seq<u8> {
    seq![0xF0u8, 0x53u8, 0x51u8, 0x52u8, 0x54u8, 0x53u8, 0x01u8, 0x00u8, 0x00u8]
}

/// One command for the card, before it is framed.
#[derive(Debug)]
pub struct Command {
    pub cla: u8,
    pub ins: u8,
    pub p1: u8,
    pub p2: u8,
    pub data: Vec<u8>,
}

/// A command with its data as a sequence.
pub struct CommandView {
    pub cla: u8,
    pub ins: u8,
    pub p1: u8,
    pub p2: u8,
    pub data: Seq<u8>,
}

impl View for Command {
    type V = CommandView;

    open spec fn view(&self) -> CommandView {
        CommandView { cla: self.cla, ins: self.ins, p1: self.p1, p2: self.p2, data: self.data@ }
    }
}

/// The bytes of a command frame. The length byte holds the length of the data
/// modulo 256: a frame is well formed only for data of at most 255 bytes.
pub open spec fn command_frame(command: CommandView) -> Seq<u8> {
    let header = seq![command.cla, command.ins, command.p1, command.p2];
    if command.data.len() == 0 {
        header
    } else {
        header + seq![(command.data.len() % 256) as u8] + command.data
    }
}

/// The error that a status word stands for after a command of the
/// application, or `None` for success (90 00).
pub open spec fn status_error(sw1: u8, sw2: u8) -> Option<CardError> {
    if sw1 == 0x90 && sw2 == 0x00 {
        None
    } else if sw1 == 0x69 && sw2 == 0x82 {
        Some(CardError::PinRequired)
    } else if sw1 == 0x69 && sw2 == 0x84 {
        Some(CardError::CardLocked)
    } else if sw1 == 0x6A && sw2 == 0x84 {
        Some(CardError::StorageFull)
    } else {
        Some(CardError::Unknown(sw1, sw2))
    }
}

/// The error that a status word stands for after SELECT, or `None` for
/// success. Only here does 6A 82 mean that the application is missing.
pub open spec fn select_status_error(sw1: u8, sw2: u8) -> Option<CardError> {
    if sw1 == 0x90 && sw2 == 0x00 {
        None
    } else if sw1 == 0x6A && sw2 == 0x82 {
        Some(CardError::ApplicationNotFound)
    } else {
        Some(CardError::Unknown(sw1, sw2))
    }
}

/// The outcome of a response frame: the data before the status word on
/// success, the error of the status word otherwise.
pub open spec fn response_outcome(response: Seq<u8>) -> Result<Seq<u8>, CardError> {
    if response.len() < 2 {
        Err(CardError::InvalidResponse)
    } else {
        match status_error(response[response.len() - 2], response[response.len() - 1]) {
            None => Ok(response.subrange(0, response.len() - 2)),
            Some(e) => Err(e),
        }
    }
}

/// The outcome of the response to SELECT.
pub open spec fn select_outcome(response: Seq<u8>) -> Result<(), CardError> {
    if response.len() < 2 {
        Err(CardError::InvalidResponse)
    } else {
        match select_status_error(response[response.len() - 2], response[response.len() - 1]) {
            None => Ok(()),
            Some(e) => Err(e),
        }
    }
}

impl Command {
    /// A command with the given header and a copy of `data`.
    pub fn new(cla: u8, ins: u8, p1: u8, p2: u8, data: &[u8]) -> (command: Command)
        ensures
            command@ == (CommandView { cla, ins, p1, p2, data: data@ }),
    {
        Command { cla, ins, p1, p2, data: slice_to_vec(data) }
    }

    /// The frame to transmit.
    pub fn frame(&self) -> (bytes: Vec<u8>)
        ensures
            bytes@ == command_frame(self@),
    {
        let mut bytes: Vec<u8> = Vec::new();
        bytes.push(self.cla);
        bytes.push(self.ins);
        bytes.push(self.p1);
        bytes.push(self.p2);
        assert(bytes@ =~= seq![self.cla, self.ins, self.p1, self.p2]);
        if self.data.len() > 0 {
            bytes.push((self.data.len() % 256) as u8);
            assert(bytes@ =~= seq![self.cla, self.ins, self.p1, self.p2] + seq![
                (self.data@.len() % 256) as u8,
            ]);
            append_bytes(&mut bytes, self.data.as_slice());
        }
        bytes
    }
}

/// The SELECT command that activates the application: it must succeed on a
/// connection before any other command is sent.
pub fn select_command() -> (command: Command)
    ensures
        command@ == (CommandView {
            cla: SELECT_CLA,
            ins: SELECT_INS,
            p1: SELECT_BY_NAME,
            p2: 0,
            data: application_id(),
        }),
{
    let mut data: Vec<u8> = Vec::new();
    data.push(0xF0);
    data.push(0x53);
    data.push(0x51);
    data.push(0x52);
    data.push(0x54);
    data.push(0x53);
    data.push(0x01);
    data.push(0x00);
    data.push(0x00);
    assert(data@ =~= application_id());
    Command { cla: SELECT_CLA, ins: SELECT_INS, p1: SELECT_BY_NAME, p2: 0, data }
}

/// Classifies the status word of a response to a command of the application.
pub fn classify_status(sw1: u8, sw2: u8) -> (result: Result<(), CardError>)
    ensures
        match result {
            Ok(()) => status_error(sw1, sw2) is None,
            Err(e) => status_error(sw1, sw2) == Some(e),
        },
{
    if sw1 == 0x90 && sw2 == 0x00 {
        Ok(())
    } else if sw1 == 0x69 && sw2 == 0x82 {
        Err(CardError::PinRequired)
    } else if sw1 == 0x69 && sw2 == 0x84 {
        Err(CardError::CardLocked)
    } else if sw1 == 0x6A && sw2 == 0x84 {
        Err(CardError::StorageFull)
    } else {
        Err(CardError::Unknown(sw1, sw2))
    }
}

/// Classifies the status word of a response to SELECT.
pub fn classify_select_status(sw1: u8, sw2: u8) -> (result: Result<(), CardError>)
    ensures
        match result {
            Ok(()) => select_status_error(sw1, sw2) is None,
            Err(e) => select_status_error(sw1, sw2) == Some(e),
        },
{
    if sw1 == 0x90 && sw2 == 0x00 {
        Ok(())
    } else if sw1 == 0x6A && sw2 == 0x82 {
        Err(CardError::ApplicationNotFound)
    } else {
        Err(CardError::Unknown(sw1, sw2))
    }
}

/// Splits a response frame into its data and status word and returns the
/// data if the status word reports success.
pub fn parse_response(response: &[u8]) -> (result: Result<Vec<u8>, CardError>)
    ensures
        match result {
            Ok(data) => response_outcome(response@) == Ok::<Seq<u8>, CardError>(data@),
            Err(e) => response_outcome(response@) == Err::<Seq<u8>, CardError>(e),
        },
{
    let len = response.len();
    if len < 2 {
        return Err(CardError::InvalidResponse);
    }
    match classify_status(response[len - 2], response[len - 1]) {
        Ok(()) => Ok(slice_to_vec(slice_subrange(response, 0, len - 2))),
        Err(e) => Err(e),
    }
}

/// Checks the response to SELECT.
pub fn parse_select_response(response: &[u8]) -> (result: Result<(), CardError>)
    ensures
        match result {
            Ok(()) => select_outcome(response@) is Ok,
            Err(e) => select_outcome(response@) == Err::<(), CardError>(e),
        },
{
    let len = response.len();
    if len < 2 {
        return Err(CardError::InvalidResponse);
    }
    classify_select_status(response[len - 2], response[len - 1])
}

} // verus!
