//! The operations of the card application: which commands each one sends, in
//! which order, and what the answers mean.
//!
//! Every operation runs on a connection of its own: SELECT first, then the
//! PIN if one was given, then the commands of the operation. The card keeps a
//! verified PIN only until the application is selected again, so a protected
//! operation verifies and acts within one connection. The connection itself
//! belongs to the caller: this module hands out the commands to transmit and
//! takes the response data back.
use crate::apdu::parse_response;
use crate::apdu::response_outcome;
use crate::apdu::Command;
use crate::apdu::CommandView;
use crate::apdu::CLA;
use crate::apdu::INS_CHANGE_PIN;
use crate::apdu::INS_ERASE_DATA;
use crate::apdu::INS_GET_STATUS;
use crate::apdu::INS_READ_DATA;
use crate::apdu::INS_SET_LABEL;
use crate::apdu::INS_SET_PIN;
use crate::apdu::INS_SET_TYPE;
use crate::apdu::INS_STORE_DATA;
use crate::apdu::INS_VERIFY_PIN;
use crate::bytes::append_bytes;
use crate::error::CardError;
use crate::primitives::lossy_text;
use crate::primitives::text_from_utf8;
use crate::primitives::text_from_utf8_lossy;
use vstd::prelude::*;
use vstd::slice::slice_subrange;
use vstd::string::StrSliceExecFns;
use vstd::string::StringSliceAdditionalSpecFns;
use vstd::utf8::*;

verus! {

/// Largest data field of one command, in bytes.
pub const CHUNK_SIZE: usize = 240;

/// Type code of a single share.
pub const TYPE_SHARE: u8 = 0x01;

/// Type code of a vault.
pub const TYPE_VAULT: u8 = 0x02;

/// Longest label that is sent to the card, in bytes.
pub const MAX_LABEL_LENGTH: usize = 64;

/// Most chunks that one read accepts. This is a guard against a card that
/// declares a length it never delivers, not a limit of the protocol: it also
/// turns away a payload of more than 24,000 bytes.
pub const MAX_READ_CHUNKS: u8 = 100;

/// Shortest PIN that can be set.
pub const MIN_PIN_LENGTH: usize = 8;

/// Longest PIN that can be set.
pub const MAX_PIN_LENGTH: usize = 16;

/// Length of the fixed part of the status record.
pub const STATUS_HEADER_LENGTH: usize = 6;

/// What the card reports about itself. `pin_verified` holds for the
/// connection that asked, and for no other.
#[derive(Clone, Debug)]
pub struct CardStatus {
    pub has_data: bool,
    pub data_length: u16,
    pub data_type: String,
    pub label: String,
    pub pin_set: bool,
    pub pin_verified: bool,
}

/// The payload read back from the card, with its type and label.
#[derive(Clone, Debug)]
pub struct CardData {
    pub data: String,
    pub data_type: String,
    pub label: String,
}

/// The name of a type code.
pub open spec fn kind_name(code: u8) -> Seq<char> {
    if code == TYPE_SHARE {
        "share"@
    } else if code == TYPE_VAULT {
        "vault"@
    } else {
        "empty"@
    }
}

/// The length that a status record declares: two bytes, big-endian.
pub open spec fn declared_length(record: Seq<u8>) -> int
    recommends
        record.len() >= STATUS_HEADER_LENGTH,
{
    record[0] as int * 256 + record[1] as int
}

/// The label bytes of a status record: as many as the length byte announces,
/// none where the record is shorter than that.
pub open spec fn status_label_bytes(record: Seq<u8>) -> Seq<u8>
    recommends
        record.len() >= STATUS_HEADER_LENGTH,
{
    let n = record[5] as int;
    if record.len() >= STATUS_HEADER_LENGTH + n {
        record.subrange(STATUS_HEADER_LENGTH as int, STATUS_HEADER_LENGTH + n)
    } else {
        Seq::<u8>::empty()
    }
}

/// The label of a status record: its label bytes read leniently, with
/// invalid sequences replaced and not rejected.
pub open spec fn status_label(record: Seq<u8>) -> Seq<char>
    recommends
        record.len() >= STATUS_HEADER_LENGTH,
{
    if status_label_bytes(record).len() == 0 {
        Seq::<char>::empty()
    } else {
        lossy_text(status_label_bytes(record))
    }
}

/// Whether `status` is what the status record says.
pub open spec fn status_matches(status: CardStatus, record: Seq<u8>) -> bool
    recommends
        record.len() >= STATUS_HEADER_LENGTH,
{
    &&& status.data_length as int == declared_length(record)
    &&& status.has_data == (declared_length(record) > 0)
    &&& status.data_type@ == kind_name(record[2])
    &&& status.pin_set == (record[3] == 0x01)
    &&& status.pin_verified == (record[4] == 0x01)
    &&& status.label@ == status_label(record)
}

/// The name of a type code, as a string.
pub fn type_label(code: u8) -> (name: String)
    ensures
        name@ == kind_name(code),
{
    if code == TYPE_SHARE {
        "share".to_string()
    } else if code == TYPE_VAULT {
        "vault".to_string()
    } else {
        "empty".to_string()
    }
}

/// The command that asks for the status record.
pub fn status_command() -> (command: Command)
    ensures
        command@ == (CommandView {
            cla: CLA,
            ins: INS_GET_STATUS,
            p1: 0,
            p2: 0,
            data: Seq::<u8>::empty(),
        }),
{
    Command { cla: CLA, ins: INS_GET_STATUS, p1: 0, p2: 0, data: Vec::new() }
}

/// Reads the status record: length (2 bytes, big-endian), type code, PIN-set
/// flag, PIN-verified flag, label length, label. A record of fewer than six
/// bytes is rejected, and nothing else is.
pub fn parse_status(record: &[u8]) -> (result: Result<CardStatus, CardError>)
    ensures
        match result {
            Ok(status) => record@.len() >= STATUS_HEADER_LENGTH && status_matches(status, record@),
            Err(e) => record@.len() < STATUS_HEADER_LENGTH && e == CardError::InvalidResponse,
        },
        valid_utf8(status_label_bytes(record@)) ==> match result {
            Ok(status) => status.label@ == decode_utf8(status_label_bytes(record@)),
            Err(_) => true,
        },
{
    if record.len() < STATUS_HEADER_LENGTH {
        return Err(CardError::InvalidResponse);
    }
    let data_length: u16 = (record[0] as u16) * 256 + (record[1] as u16);
    let label_length: usize = record[5] as usize;
    let label = if label_length > 0 && record.len() >= STATUS_HEADER_LENGTH + label_length {
        text_from_utf8_lossy(
            slice_subrange(record, STATUS_HEADER_LENGTH, STATUS_HEADER_LENGTH + label_length),
        )
    } else {
        proof {
            assert(decode_utf8(Seq::<u8>::empty()) =~= Seq::<char>::empty()) by {
                reveal_with_fuel(decode_utf8, 1);
            }
        }
        String::new()
    };
    Ok(
        CardStatus {
            has_data: data_length > 0,
            data_length,
            data_type: type_label(record[2]),
            label,
            pin_set: record[3] == 0x01,
            pin_verified: record[4] == 0x01,
        },
    )
}

/// The command that erases the stored data.
pub fn erase_command() -> (command: Command)
    ensures
        command@ == (CommandView {
            cla: CLA,
            ins: INS_ERASE_DATA,
            p1: 0,
            p2: 0,
            data: Seq::<u8>::empty(),
        }),
{
    Command { cla: CLA, ins: INS_ERASE_DATA, p1: 0, p2: 0, data: Vec::new() }
}

/// The command that verifies `pin` for the current connection.
pub fn verify_pin_command(pin: &str) -> (command: Command)
    ensures
        command@ == (CommandView {
            cla: CLA,
            ins: INS_VERIFY_PIN,
            p1: 0,
            p2: 0,
            data: encode_utf8(pin@),
        }),
{
    Command::new(CLA, INS_VERIFY_PIN, 0, 0, pin.as_bytes())
}

/// The verification that precedes a protected command: the VERIFY command
/// where a PIN is given and not empty, nothing otherwise.
pub fn verify_pin_if_needed(pin: &Option<String>) -> (command: Option<Command>)
    ensures
        match *pin {
            Some(p) if p@.len() > 0 => command is Some && command->0@ == (CommandView {
                cla: CLA,
                ins: INS_VERIFY_PIN,
                p1: 0,
                p2: 0,
                data: encode_utf8(p@),
            }),
            _ => command is None,
        },
{
    match pin {
        Some(p) => {
            if p.as_str().is_empty() {
                None
            } else {
                Some(verify_pin_command(p.as_str()))
            }
        },
        None => None,
    }
}

/// Whether a PIN of this length can be set.
pub open spec fn pin_length_ok(len: nat) -> bool {
    MIN_PIN_LENGTH <= len <= MAX_PIN_LENGTH
}

/// The command that sets the first PIN. The PIN must have 8 to 16
/// characters; whether the card still has no PIN is for the card to decide.
pub fn set_pin_command(pin: &str) -> (result: Result<Command, CardError>)
    ensures
        match result {
            Ok(command) => pin_length_ok(pin@.len()) && command@ == (CommandView {
                cla: CLA,
                ins: INS_SET_PIN,
                p1: 0,
                p2: 0,
                data: encode_utf8(pin@),
            }),
            Err(e) => !pin_length_ok(pin@.len()) && e == CardError::InvalidPinLength,
        },
{
    let len = pin.unicode_len();
    if len < MIN_PIN_LENGTH || len > MAX_PIN_LENGTH {
        return Err(CardError::InvalidPinLength);
    }
    Ok(Command::new(CLA, INS_SET_PIN, 0, 0, pin.as_bytes()))
}

/// The command that replaces the PIN. The new PIN must have 8 to 16 bytes
/// of UTF-8.
/// The data field is the old PIN directly followed by the new one, and P1 is
/// the length of the old PIN (modulo 256), by which the card splits the two.
pub fn change_pin_command(old_pin: &str, new_pin: &str) -> (result: Result<Command, CardError>)
    ensures
        match result {
            Ok(command) => pin_length_ok(encode_utf8(new_pin@).len()) && command@ == (CommandView {
                cla: CLA,
                ins: INS_CHANGE_PIN,
                p1: (encode_utf8(old_pin@).len() % 256) as u8,
                p2: 0,
                data: encode_utf8(old_pin@) + encode_utf8(new_pin@),
            }),
            Err(e) => !pin_length_ok(encode_utf8(new_pin@).len()) && e
                == CardError::InvalidPinLength,
        },
{
    let new_bytes = new_pin.as_bytes();
    if new_bytes.len() < MIN_PIN_LENGTH || new_bytes.len() > MAX_PIN_LENGTH {
        return Err(CardError::InvalidPinLength);
    }
    let old_bytes = old_pin.as_bytes();
    let mut data: Vec<u8> = Vec::new();
    append_bytes(&mut data, old_bytes);
    append_bytes(&mut data, new_bytes);
    Ok(Command { cla: CLA, ins: INS_CHANGE_PIN, p1: (old_bytes.len() % 256) as u8, p2: 0, data })
}

/// The readers that were found, or `NoReaders` where there is none.
pub fn require_readers(readers: Vec<String>) -> (result: Result<Vec<String>, CardError>)
    ensures
        match result {
            Ok(found) => readers@.len() > 0 && found == readers,
            Err(e) => readers@.len() == 0 && e == CardError::NoReaders,
        },
{
    if readers.len() == 0 {
        Err(CardError::NoReaders)
    } else {
        Ok(readers)
    }
}

/// The number of chunks that data of `len` bytes is stored in.
pub open spec fn chunk_count(len: nat) -> nat {
    (len + CHUNK_SIZE - 1) as nat / (CHUNK_SIZE as nat)
}

/// The bytes of chunk `i`: the next 240 of them, or what is left.
pub open spec fn chunk_at(data: Seq<u8>, i: int) -> Seq<u8> {
    let start = i * CHUNK_SIZE;
    let end = if start + CHUNK_SIZE < data.len() {
        start + CHUNK_SIZE
    } else {
        data.len() as int
    };
    data.subrange(start, end)
}

/// The STORE command of chunk `i`: P1 is the chunk's index (modulo 256) and
/// P2 is 1 on the last chunk and 0 on every other.
pub open spec fn store_command(data: Seq<u8>, i: int) -> CommandView {
    CommandView {
        cla: CLA,
        ins: INS_STORE_DATA,
        p1: (i % 256) as u8,
        p2: if i == chunk_count(data.len()) - 1 {
            1u8
        } else {
            0u8
        },
        data: chunk_at(data, i),
    }
}

/// The STORE commands for `data`, in the order in which they are sent.
pub open spec fn store_plan(data: Seq<u8>) -> Seq<CommandView> {
    Seq::new(chunk_count(data.len()), |i: int| store_command(data, i))
}

/// The part of a label that is sent: its first 64 bytes.
pub open spec fn sent_label(label: Seq<u8>) -> Seq<u8> {
    if label.len() > MAX_LABEL_LENGTH {
        label.subrange(0, MAX_LABEL_LENGTH as int)
    } else {
        label
    }
}

/// The commands that come before the data: erase, set the type, and set the
/// label unless it is empty.
pub open spec fn write_prelude(kind: u8, label: Seq<u8>) -> Seq<CommandView> {
    let erase = CommandView {
        cla: CLA,
        ins: INS_ERASE_DATA,
        p1: 0,
        p2: 0,
        data: Seq::<u8>::empty(),
    };
    let set_type = CommandView {
        cla: CLA,
        ins: INS_SET_TYPE,
        p1: kind,
        p2: 0,
        data: Seq::<u8>::empty(),
    };
    let set_label = CommandView {
        cla: CLA,
        ins: INS_SET_LABEL,
        p1: 0,
        p2: 0,
        data: sent_label(label),
    };
    if sent_label(label).len() == 0 {
        seq![erase, set_type]
    } else {
        seq![erase, set_type, set_label]
    }
}

/// All commands of a write, in order.
pub open spec fn write_plan(data: Seq<u8>, kind: u8, label: Seq<u8>) -> Seq<CommandView> {
    write_prelude(kind, label) + store_plan(data)
}

/// A list of commands, each as its view.
pub open spec fn plan_view(commands: Seq<Command>) -> Seq<CommandView> {
    commands.map_values(|c: Command| c@)
}

/// Appends the STORE commands for `data` to `commands`.
fn push_store_commands(commands: &mut Vec<Command>, data: &[u8])
    ensures
        plan_view(final(commands)@) == plan_view(old(commands)@) + store_plan(data@),
{
    let ghost before = commands@;
    let mut offset: usize = 0;
    let mut index: usize = 0;
    while offset < data.len()
        invariant
            offset <= data@.len(),
            offset < data@.len() ==> offset == index * CHUNK_SIZE,
            offset == data@.len() ==> index == chunk_count(data@.len()),
            commands@.len() == before.len() + index,
            forall|j: int| 0 <= j < before.len() ==> commands@[j] == before[j],
            forall|j: int|
                0 <= j < index ==> (#[trigger] commands@[before.len() + j])@ == store_command(
                    data@,
                    j,
                ),
        decreases data@.len() - offset,
    {
        let end = if data.len() - offset > CHUNK_SIZE {
            offset + CHUNK_SIZE
        } else {
            data.len()
        };
        let p2: u8 = if end == data.len() {
            1
        } else {
            0
        };
        let command = Command::new(
            CLA,
            INS_STORE_DATA,
            (index % 256) as u8,
            p2,
            slice_subrange(data, offset, end),
        );
        assert(command@ == store_command(data@, index as int));
        commands.push(command);
        offset = end;
        index += 1;
    }
    assert forall|j: int| 0 <= j < commands@.len() implies plan_view(commands@)[j] == (plan_view(
        before,
    ) + store_plan(data@))[j] by {
        if j >= before.len() {
            assert(commands@[before.len() + (j - before.len())]@ == store_command(
                data@,
                j - before.len(),
            ));
        }
    }
    assert(plan_view(commands@) =~= plan_view(before) + store_plan(data@));
}

/// The commands that write `data` with its type and label: erase what is
/// stored, set the type, set the label (its first 64 bytes; no command for an
/// empty label), then store the data in chunks of at most 240 bytes. They are
/// to be sent in this order, and the first failure ends the write.
pub fn write_commands(data: &[u8], data_type: u8, label: &str) -> (commands: Vec<Command>)
    ensures
        plan_view(commands@) == write_plan(data@, data_type, encode_utf8(label@)),
{
    let mut commands: Vec<Command> = Vec::new();
    commands.push(erase_command());
    commands.push(Command { cla: CLA, ins: INS_SET_TYPE, p1: data_type, p2: 0, data: Vec::new() });
    let label_bytes = label.as_bytes();
    let label_to_send = if label_bytes.len() > MAX_LABEL_LENGTH {
        slice_subrange(label_bytes, 0, MAX_LABEL_LENGTH)
    } else {
        label_bytes
    };
    if label_to_send.len() > 0 {
        commands.push(Command::new(CLA, INS_SET_LABEL, 0, 0, label_to_send));
    }
    assert(plan_view(commands@) =~= write_prelude(data_type, encode_utf8(label@)));
    push_store_commands(&mut commands, data);
    commands
}

/// The step of a write after the response to command `sent` of `total`: a
/// failing response ends the write with its error, and nothing more is sent;
/// after a successful one the next command follows, if there is one.
pub fn after_write_response(sent: usize, total: usize, response: &[u8]) -> (result: Result<
    Option<usize>,
    CardError,
>)
    ensures
        match result {
            Ok(next) => response_outcome(response@) is Ok && next == (if sent + 1 < total {
                Some((sent + 1) as usize)
            } else {
                None::<usize>
            }),
            Err(e) => response_outcome(response@) == Err::<Seq<u8>, CardError>(e),
        },
{
    match parse_response(response) {
        Err(e) => Err(e),
        Ok(_) => {
            if sent < total && sent + 1 < total {
                Ok(Some(sent + 1))
            } else {
                Ok(None)
            }
        },
    }
}

/// A read in progress: what the status record declared, what has arrived, and
/// which chunk is asked for next.
#[derive(Debug)]
pub struct CardRead {
    /// The name of the type that the status record declared.
    pub data_type: String,
    /// The label of the status record.
    pub label: String,
    /// The length that the status record declared.
    pub expected: u16,
    /// The bytes received so far, in order.
    pub received: Vec<u8>,
    /// The index of the next chunk to ask for.
    pub next_chunk: u8,
    /// Whether the card answered with an empty chunk.
    pub ended: bool,
}

/// A read in progress, with its texts and bytes as sequences.
pub struct CardReadView {
    pub data_type: Seq<char>,
    pub label: Seq<char>,
    pub expected: nat,
    pub received: Seq<u8>,
    pub next_chunk: nat,
    pub ended: bool,
}

impl View for CardRead {
    type V = CardReadView;

    open spec fn view(&self) -> CardReadView {
        CardReadView {
            data_type: self.data_type@,
            label: self.label@,
            expected: self.expected as nat,
            received: self.received@,
            next_chunk: self.next_chunk as nat,
            ended: self.ended,
        }
    }
}

/// The state in which a read of `expected` bytes begins.
pub open spec fn read_start(data_type: Seq<char>, label: Seq<char>, expected: nat) -> CardReadView {
    CardReadView {
        data_type,
        label,
        expected,
        received: Seq::<u8>::empty(),
        next_chunk: 0,
        ended: false,
    }
}

/// The state in which the read that a status record announces begins, or why
/// there is nothing to read.
pub open spec fn read_of_status(record: Seq<u8>) -> Result<CardReadView, CardError> {
    if record.len() < STATUS_HEADER_LENGTH {
        Err(CardError::InvalidResponse)
    } else if declared_length(record) == 0 {
        Err(CardError::NoData)
    } else {
        Ok(
            read_start(
                kind_name(record[2]),
                status_label(record),
                declared_length(record) as nat,
            ),
        )
    }
}

/// Whether the read asks for another chunk: the declared length has not
/// arrived yet and the card has not answered with an empty chunk.
pub open spec fn wants_chunk(read: CardReadView) -> bool {
    !read.ended && read.received.len() < read.expected
}

/// The state after the card answered the pending READ with `chunk`. An empty
/// chunk ends the read. Any other is appended, unless it would be the 101st.
pub open spec fn after_chunk(read: CardReadView, chunk: Seq<u8>) -> Result<
    CardReadView,
    CardError,
> {
    if chunk.len() == 0 {
        Ok(CardReadView { ended: true, ..read })
    } else if read.next_chunk >= MAX_READ_CHUNKS {
        Err(CardError::TooManyChunks)
    } else {
        Ok(
            CardReadView {
                received: read.received + chunk,
                next_chunk: read.next_chunk + 1,
                ..read
            },
        )
    }
}

/// The state after the card answered with `chunks[from..]`, one chunk for
/// each READ that the read asks for.
pub open spec fn after_chunks(read: CardReadView, chunks: Seq<Seq<u8>>, from: nat) -> Result<
    CardReadView,
    CardError,
>
    decreases chunks.len() - from,
{
    if from >= chunks.len() || !wants_chunk(read) {
        Ok(read)
    } else {
        match after_chunk(read, chunks[from as int]) {
            Err(e) => Err(e),
            Ok(next) => after_chunks(next, chunks, from + 1),
        }
    }
}

/// The payload of a read: what arrived, cut to the declared length.
pub open spec fn read_payload(read: CardReadView) -> Seq<u8> {
    if read.received.len() > read.expected {
        read.received.subrange(0, read.expected as int)
    } else {
        read.received
    }
}

impl CardRead {
    /// No more chunks were accepted than a read allows.
    pub open spec fn wf(&self) -> bool {
        self.next_chunk <= MAX_READ_CHUNKS
    }

    /// Begins the read that a status record announces, with the type and
    /// the label that the status reports. A record of fewer than six bytes
    /// is rejected, and a card that declares no data is not read.
    pub fn begin(record: &[u8]) -> (result: Result<CardRead, CardError>)
        ensures
            match result {
                Ok(read) => read.wf() && read_of_status(record@) == Ok::<CardReadView, CardError>(
                    read@,
                ),
                Err(e) => read_of_status(record@) == Err::<CardReadView, CardError>(e),
            },
    {
        let status = match parse_status(record) {
            Ok(status) => status,
            Err(e) => return Err(e),
        };
        if status.data_length == 0 {
            return Err(CardError::NoData);
        }
        Ok(
            CardRead {
                data_type: status.data_type,
                label: status.label,
                expected: status.data_length,
                received: Vec::new(),
                next_chunk: 0,
                ended: false,
            },
        )
    }

    /// Whether another chunk is to be asked for.
    pub fn wants_chunk(&self) -> (wanted: bool)
        ensures
            wanted == wants_chunk(self@),
    {
        !self.ended && self.received.len() < self.expected as usize
    }

    /// The READ command for the next chunk, while one is wanted.
    pub fn next_command(&self) -> (command: Option<Command>)
        ensures
            match command {
                Some(c) => wants_chunk(self@) && c@ == (CommandView {
                    cla: CLA,
                    ins: INS_READ_DATA,
                    p1: self.next_chunk,
                    p2: 0,
                    data: Seq::<u8>::empty(),
                }),
                None => !wants_chunk(self@),
            },
    {
        if self.wants_chunk() {
            Some(
                Command {
                    cla: CLA,
                    ins: INS_READ_DATA,
                    p1: self.next_chunk,
                    p2: 0,
                    data: Vec::new(),
                },
            )
        } else {
            None
        }
    }

    /// Takes the data of the response to the pending READ. On an error the
    /// read is left as it was.
    pub fn accept(&mut self, chunk: &[u8]) -> (result: Result<(), CardError>)
        requires
            old(self).wf(),
        ensures
            final(self).wf(),
            match result {
                Ok(()) => after_chunk(old(self)@, chunk@) == Ok::<CardReadView, CardError>(
                    final(self)@,
                ),
                Err(e) => after_chunk(old(self)@, chunk@) == Err::<CardReadView, CardError>(e)
                    && *final(self) == *old(self),
            },
    {
        if chunk.len() == 0 {
            self.ended = true;
            return Ok(());
        }
        if self.next_chunk >= MAX_READ_CHUNKS {
            return Err(CardError::TooManyChunks);
        }
        append_bytes(&mut self.received, chunk);
        self.next_chunk = self.next_chunk + 1;
        Ok(())
    }

    /// Ends the read: cuts what arrived to the declared length and decodes it
    /// as text.
    pub fn finish(self) -> (result: Result<CardData, CardError>)
        ensures
            match result {
                Ok(record) => {
                    &&& valid_utf8(read_payload(self@))
                    &&& record.data@ == decode_utf8(read_payload(self@))
                    &&& record.data_type@ == self@.data_type
                    &&& record.label@ == self@.label
                },
                Err(e) => !valid_utf8(read_payload(self@)) && e == CardError::NotUtf8,
            },
    {
        let mut bytes = self.received;
        bytes.truncate(self.expected as usize);
        assert(bytes@ =~= read_payload(self@));
        match text_from_utf8(bytes) {
            Some(data) => Ok(CardData { data, data_type: self.data_type, label: self.label }),
            None => Err(CardError::NotUtf8),
        }
    }
}

/// The data fields of a list of commands.
pub open spec fn data_fields(commands: Seq<CommandView>) -> Seq<Seq<u8>> {
    commands.map_values(|c: CommandView| c.data)
}

/// The state of a read of `data` after `k` of its chunks.
pub open spec fn read_after(start: CardReadView, data: Seq<u8>, k: nat) -> CardReadView {
    CardReadView {
        data_type: start.data_type,
        label: start.label,
        expected: data.len(),
        received: if k * CHUNK_SIZE < data.len() {
            data.subrange(0, k * CHUNK_SIZE)
        } else {
            data
        },
        next_chunk: k,
        ended: false,
    }
}

/// Induction step of [`lemma_read_back_written`]: from `k` chunks on.
proof fn lemma_read_back_from(start: CardReadView, data: Seq<u8>, k: nat)
    requires
        chunk_count(data.len()) <= MAX_READ_CHUNKS,
        k <= chunk_count(data.len()),
    ensures
        after_chunks(read_after(start, data, k), data_fields(store_plan(data)), k) == Ok::<
            CardReadView,
            CardError,
        >(read_after(start, data, chunk_count(data.len()))),
    decreases chunk_count(data.len()) - k,
{
    let chunks = data_fields(store_plan(data));
    let n = chunk_count(data.len());
    let read = read_after(start, data, k);
    assert(chunks.len() == n);
    if k < n {
        assert(k * CHUNK_SIZE < data.len());
        assert(wants_chunk(read));
        assert(chunks[k as int] == chunk_at(data, k as int));
        assert(chunk_at(data, k as int).len() > 0);
        assert(read.received + chunk_at(data, k as int) =~= read_after(
            start,
            data,
            k + 1,
        ).received);
        assert(after_chunk(read, chunks[k as int]) == Ok::<CardReadView, CardError>(
            read_after(start, data, k + 1),
        ));
        lemma_read_back_from(start, data, k + 1);
    } else {
        assert(read == read_after(start, data, n));
    }
}

/// What was written is read back: if the card answers the READ commands, in
/// order, with the data fields of the STORE commands that wrote `data`, a
/// read of `data.len()` bytes ends without an error, wants no further chunk,
/// and its payload is `data`. This holds for data of at most 100 chunks.
pub proof fn lemma_read_back_written(data: Seq<u8>, data_type: Seq<char>, label: Seq<char>)
    requires
        chunk_count(data.len()) <= MAX_READ_CHUNKS,
    ensures
        match after_chunks(
            read_start(data_type, label, data.len()),
            data_fields(store_plan(data)),
            0,
        ) {
            Ok(read) => {
                &&& !wants_chunk(read)
                &&& read_payload(read) == data
                &&& read.data_type == data_type
                &&& read.label == label
            },
            Err(_) => false,
        },
{
    let start = read_start(data_type, label, data.len());
    assert(read_after(start, data, 0).received =~= Seq::<u8>::empty()) by {
        if data.len() > 0 {
            assert(data.subrange(0, 0) =~= Seq::<u8>::empty());
        }
    }
    assert(start == read_after(start, data, 0));
    lemma_read_back_from(start, data, 0);
}

/// Induction step of [`lemma_read_back_too_long`]: from `k` chunks on.
proof fn lemma_read_gives_up_from(start: CardReadView, data: Seq<u8>, k: nat)
    requires
        chunk_count(data.len()) > MAX_READ_CHUNKS,
        k <= MAX_READ_CHUNKS,
    ensures
        after_chunks(read_after(start, data, k), data_fields(store_plan(data)), k) == Err::<
            CardReadView,
            CardError,
        >(CardError::TooManyChunks),
    decreases MAX_READ_CHUNKS - k,
{
    let chunks = data_fields(store_plan(data));
    let read = read_after(start, data, k);
    assert(chunks.len() == chunk_count(data.len()));
    assert(k * CHUNK_SIZE < data.len());
    assert(wants_chunk(read));
    assert(chunks[k as int] == chunk_at(data, k as int));
    assert(chunk_at(data, k as int).len() > 0);
    if k < MAX_READ_CHUNKS {
        assert(read.received + chunk_at(data, k as int) =~= read_after(
            start,
            data,
            k + 1,
        ).received);
        assert(after_chunk(read, chunks[k as int]) == Ok::<CardReadView, CardError>(
            read_after(start, data, k + 1),
        ));
        lemma_read_gives_up_from(start, data, k + 1);
    }
}

/// The chunk guard turns away what is too long: data of more than 100 chunks
/// (more than 24,000 bytes) can be written, but reading it back fails with
/// `TooManyChunks` even from a card that answers faithfully.
pub proof fn lemma_read_back_too_long(data: Seq<u8>, data_type: Seq<char>, label: Seq<char>)
    requires
        chunk_count(data.len()) > MAX_READ_CHUNKS,
    ensures
        after_chunks(
            read_start(data_type, label, data.len()),
            data_fields(store_plan(data)),
            0,
        ) == Err::<CardReadView, CardError>(CardError::TooManyChunks),
{
    let start = read_start(data_type, label, data.len());
    assert(data.subrange(0, 0) =~= Seq::<u8>::empty());
    assert(start == read_after(start, data, 0));
    lemma_read_gives_up_from(start, data, 0);
}

} // verus!
