use seqrets_core::apdu::{
    classify_select_status, classify_status, parse_response, parse_select_response,
    select_command, Command, CLA, INS_CHANGE_PIN, INS_ERASE_DATA, INS_GET_STATUS, INS_READ_DATA,
    INS_SET_LABEL, INS_SET_PIN, INS_SET_TYPE, INS_STORE_DATA, INS_VERIFY_PIN,
};
use seqrets_core::error::CardError;
use seqrets_core::smartcard::{
    after_write_response, change_pin_command, erase_command, parse_status, require_readers, set_pin_command,
    status_command, type_label, verify_pin_command, verify_pin_if_needed, write_commands,
    CardData, CardRead, CardStatus, CHUNK_SIZE, TYPE_SHARE, TYPE_VAULT,
};

fn status_of(length: u16) -> Vec<u8> {
    vec![(length >> 8) as u8, (length & 0xFF) as u8, 0x01, 0x00, 0x00, 0x04, b'l', b'a', b'b', b'l']
}

fn payload(len: usize) -> Vec<u8> {
    (0..len).map(|i| b'a' + (i % 26) as u8).collect()
}

#[test]
fn instruction_codes() {
    assert_eq!(CLA, 0x80);
    assert_eq!(INS_STORE_DATA, 0x01);
    assert_eq!(INS_READ_DATA, 0x02);
    assert_eq!(INS_GET_STATUS, 0x03);
    assert_eq!(INS_ERASE_DATA, 0x04);
    assert_eq!(INS_SET_TYPE, 0x10);
    assert_eq!(INS_SET_LABEL, 0x11);
    assert_eq!(INS_VERIFY_PIN, 0x20);
    assert_eq!(INS_CHANGE_PIN, 0x21);
    assert_eq!(INS_SET_PIN, 0x22);
    assert_eq!(CHUNK_SIZE, 240);
}

#[test]
fn frame_without_data_has_no_length_byte() {
    let command = Command::new(0x80, 0x03, 0x00, 0x00, &[]);
    assert_eq!(command.frame(), vec![0x80, 0x03, 0x00, 0x00]);
    assert_eq!(status_command().frame(), vec![0x80, 0x03, 0x00, 0x00]);
    assert_eq!(erase_command().frame(), vec![0x80, 0x04, 0x00, 0x00]);
}

#[test]
fn frame_with_data_carries_its_length() {
    let command = Command::new(0x80, 0x01, 0x02, 0x01, &[0xAA, 0xBB, 0xCC]);
    assert_eq!(command.frame(), vec![0x80, 0x01, 0x02, 0x01, 0x03, 0xAA, 0xBB, 0xCC]);
    let full = Command::new(0x80, 0x01, 0x00, 0x00, &[0x11; 240]);
    let frame = full.frame();
    assert_eq!(frame.len(), 245);
    assert_eq!(frame[4], 240);
    assert_eq!(&frame[5..], &[0x11; 240][..]);
}

#[test]
fn select_frame_carries_the_application_identifier() {
    assert_eq!(
        select_command().frame(),
        vec![0x00, 0xA4, 0x04, 0x00, 0x09, 0xF0, 0x53, 0x51, 0x52, 0x54, 0x53, 0x01, 0x00, 0x00]
    );
}

#[test]
fn status_word_table() {
    assert_eq!(classify_status(0x90, 0x00), Ok(()));
    assert_eq!(classify_status(0x69, 0x82), Err(CardError::PinRequired));
    assert_eq!(classify_status(0x69, 0x84), Err(CardError::CardLocked));
    assert_eq!(classify_status(0x6A, 0x84), Err(CardError::StorageFull));
    assert_eq!(classify_status(0x6A, 0x82), Err(CardError::Unknown(0x6A, 0x82)));
}

#[test]
fn every_unlisted_status_word_is_unknown_with_its_bytes() {
    let listed = [(0x90u8, 0x00u8), (0x69, 0x82), (0x69, 0x84), (0x6A, 0x84)];
    for sw1 in 0..=255u8 {
        for sw2 in 0..=255u8 {
            if !listed.contains(&(sw1, sw2)) {
                assert_eq!(classify_status(sw1, sw2), Err(CardError::Unknown(sw1, sw2)));
            }
            if (sw1, sw2) != (0x90, 0x00) && (sw1, sw2) != (0x6A, 0x82) {
                assert_eq!(classify_select_status(sw1, sw2), Err(CardError::Unknown(sw1, sw2)));
            }
        }
    }
}

#[test]
fn select_status_words() {
    assert_eq!(classify_select_status(0x90, 0x00), Ok(()));
    assert_eq!(classify_select_status(0x6A, 0x82), Err(CardError::ApplicationNotFound));
    assert_eq!(classify_select_status(0x69, 0x82), Err(CardError::Unknown(0x69, 0x82)));
    assert_eq!(parse_select_response(&[0x90, 0x00]), Ok(()));
    assert_eq!(parse_select_response(&[0x01, 0x02, 0x90, 0x00]), Ok(()));
    assert_eq!(parse_select_response(&[0x6A, 0x82]), Err(CardError::ApplicationNotFound));
    assert_eq!(parse_select_response(&[0x6F, 0x00]), Err(CardError::Unknown(0x6F, 0x00)));
    assert_eq!(parse_select_response(&[0x90]), Err(CardError::InvalidResponse));
    assert_eq!(parse_select_response(&[]), Err(CardError::InvalidResponse));
}

#[test]
fn response_data_comes_before_the_status_word() {
    assert_eq!(parse_response(&[0x90, 0x00]), Ok(vec![]));
    assert_eq!(parse_response(&[1, 2, 3, 0x90, 0x00]), Ok(vec![1, 2, 3]));
    assert_eq!(parse_response(&[1, 2, 3, 0x69, 0x82]), Err(CardError::PinRequired));
    assert_eq!(parse_response(&[0x69, 0x84]), Err(CardError::CardLocked));
    assert_eq!(parse_response(&[0x6A, 0x84]), Err(CardError::StorageFull));
    assert_eq!(parse_response(&[0x6A, 0x82]), Err(CardError::Unknown(0x6A, 0x82)));
    assert_eq!(parse_response(&[0x90, 0x01]), Err(CardError::Unknown(0x90, 0x01)));
    assert_eq!(parse_response(&[0x90]), Err(CardError::InvalidResponse));
    assert_eq!(parse_response(&[]), Err(CardError::InvalidResponse));
}

#[test]
fn status_record_is_parsed_field_by_field() {
    let record = [0x00, 0x05, 0x01, 0x01, 0x00, 0x04, b'l', b'a', b'b', b'l'];
    let status = parse_status(&record).unwrap();
    assert!(status.has_data);
    assert_eq!(status.data_length, 5);
    assert_eq!(status.data_type, "share");
    assert!(status.pin_set);
    assert!(!status.pin_verified);
    assert_eq!(status.label, "labl");
}

#[test]
fn status_record_of_an_empty_card() {
    let status = parse_status(&[0x00, 0x00, 0x00, 0x00, 0x01, 0x00]).unwrap();
    assert!(!status.has_data);
    assert_eq!(status.data_length, 0);
    assert_eq!(status.data_type, "empty");
    assert!(!status.pin_set);
    assert!(status.pin_verified);
    assert_eq!(status.label, "");
}

#[test]
fn status_record_length_is_big_endian() {
    let status = parse_status(&[0x12, 0x34, 0x02, 0x02, 0x02, 0x00]).unwrap();
    assert_eq!(status.data_length, 0x1234);
    assert_eq!(status.data_type, "vault");
    assert!(!status.pin_set);
    assert!(!status.pin_verified);
    assert_eq!(parse_status(&[0xFF, 0xFF, 0x09, 0, 0, 0]).unwrap().data_length, 65535);
    assert_eq!(parse_status(&[0xFF, 0xFF, 0x09, 0, 0, 0]).unwrap().data_type, "empty");
}

#[test]
fn status_record_shorter_than_six_bytes_is_invalid() {
    assert_eq!(parse_status(&[]).err(), Some(CardError::InvalidResponse));
    assert_eq!(parse_status(&[0, 5, 1, 1, 0]).err(), Some(CardError::InvalidResponse));
}

#[test]
fn status_label_is_read_leniently() {
    let status = parse_status(&[0, 1, 1, 0, 0, 3, b'a', 0xFF, b'b']).unwrap();
    assert_eq!(status.label, "a\u{FFFD}b");
    // A record that announces more label than it carries has no label.
    let short = parse_status(&[0, 1, 1, 0, 0, 4, b'a', b'b']).unwrap();
    assert_eq!(short.label, "");
    // Bytes behind the label are ignored.
    let long = parse_status(&[0, 1, 1, 0, 0, 1, b'a', b'b']).unwrap();
    assert_eq!(long.label, "a");
}

#[test]
fn type_codes_have_names() {
    assert_eq!(type_label(TYPE_SHARE), "share");
    assert_eq!(type_label(TYPE_VAULT), "vault");
    assert_eq!(type_label(0), "empty");
    assert_eq!(type_label(3), "empty");
}

#[test]
fn write_of_500_bytes_takes_three_chunks() {
    let data = payload(500);
    let commands = write_commands(&data, TYPE_SHARE, "labl");
    assert_eq!(commands.len(), 6);
    assert_eq!(commands[0].frame(), vec![0x80, 0x04, 0x00, 0x00]);
    assert_eq!(commands[1].frame(), vec![0x80, 0x10, 0x01, 0x00]);
    assert_eq!(commands[2].frame(), vec![0x80, 0x11, 0x00, 0x00, 0x04, b'l', b'a', b'b', b'l']);
    let stores: Vec<&Command> = commands.iter().filter(|c| c.ins == INS_STORE_DATA).collect();
    assert_eq!(stores.len(), 3);
    assert_eq!(stores.iter().map(|c| c.p1).collect::<Vec<u8>>(), vec![0, 1, 2]);
    assert_eq!(stores.iter().map(|c| c.p2).collect::<Vec<u8>>(), vec![0, 0, 1]);
    assert_eq!(stores.iter().map(|c| c.data.len()).collect::<Vec<usize>>(), vec![240, 240, 20]);
    assert!(stores.iter().all(|c| c.cla == 0x80));
    assert_eq!(&stores[0].data[..], &data[..240]);
    assert_eq!(&stores[1].data[..], &data[240..480]);
    assert_eq!(&stores[2].data[..], &data[480..]);

    let mut read = CardRead::begin(&status_of(500)).unwrap();
    let mut asked = Vec::new();
    while let Some(command) = read.next_command() {
        assert_eq!(command.frame(), vec![0x80, 0x02, command.p1, 0x00]);
        asked.push(command.p1);
        read.accept(&stores[command.p1 as usize].data).unwrap();
    }
    assert_eq!(asked, vec![0, 1, 2]);
    let record = read.finish().unwrap();
    assert_eq!(record.data.as_bytes(), &data[..]);
    assert_eq!(record.data_type, "share");
    assert_eq!(record.label, "labl");
}

#[test]
fn write_chunk_boundaries() {
    for (len, chunks) in [(0usize, 0usize), (1, 1), (239, 1), (240, 1), (241, 2), (480, 2), (481, 3)] {
        let commands = write_commands(&payload(len), TYPE_VAULT, "");
        assert_eq!(commands.len(), 2 + chunks, "length {len}");
        assert_eq!(commands[1].p1, 0x02);
        let stores = &commands[2..];
        let mut joined = Vec::new();
        for (i, store) in stores.iter().enumerate() {
            assert_eq!(store.ins, INS_STORE_DATA);
            assert_eq!(store.p1 as usize, i);
            assert_eq!(store.p2, if i + 1 == chunks { 1 } else { 0 });
            assert!(!store.data.is_empty() && store.data.len() <= 240);
            joined.extend_from_slice(&store.data);
        }
        assert_eq!(joined, payload(len));
    }
}

#[test]
fn chunk_index_wraps_after_256_chunks() {
    let commands = write_commands(&payload(240 * 256 + 1), TYPE_SHARE, "");
    assert_eq!(commands.len(), 2 + 257);
    assert_eq!(commands[2 + 255].p1, 255);
    assert_eq!(commands[2 + 255].p2, 0);
    assert_eq!(commands[2 + 256].p1, 0);
    assert_eq!(commands[2 + 256].p2, 1);
    assert_eq!(commands[2 + 256].data.len(), 1);
}

#[test]
fn label_is_cut_to_64_bytes_and_left_out_when_empty() {
    let long = "x".repeat(100);
    let commands = write_commands(b"d", TYPE_SHARE, &long);
    assert_eq!(commands[2].ins, INS_SET_LABEL);
    assert_eq!(commands[2].data, vec![b'x'; 64]);
    let exact = write_commands(b"d", TYPE_SHARE, &"y".repeat(64));
    assert_eq!(exact[2].data, vec![b'y'; 64]);
    let none = write_commands(b"d", TYPE_SHARE, "");
    assert_eq!(none.len(), 3);
    assert!(none.iter().all(|c| c.ins != INS_SET_LABEL));
    // The cut is made on bytes, also inside a character.
    let wide = "é".repeat(40);
    let cut = write_commands(b"d", TYPE_SHARE, &wide);
    assert_eq!(cut[2].data, wide.as_bytes()[..64].to_vec());
}

#[test]
fn read_of_an_empty_card_is_refused() {
    assert_eq!(CardRead::begin(&status_of(0)).err(), Some(CardError::NoData));
    assert_eq!(CardRead::begin(&[0, 0, 0, 0, 0, 0]).err(), Some(CardError::NoData));
}

#[test]
fn read_needs_a_whole_status_record() {
    assert_eq!(CardRead::begin(&[0, 5, 1, 0, 0]).err(), Some(CardError::InvalidResponse));
    assert_eq!(CardRead::begin(&[]).err(), Some(CardError::InvalidResponse));
}

#[test]
fn read_begins_with_what_the_status_declares() {
    let read = CardRead::begin(&[0x01, 0x00, 0x02, 1, 1, 2, b'h', b'i', b'!']).unwrap();
    assert_eq!(read.expected, 256);
    assert_eq!(read.data_type, "vault");
    assert_eq!(read.label, "hi");
    assert_eq!(read.next_chunk, 0);
    assert!(read.received.is_empty());
    assert!(!read.ended);
    assert_eq!(CardRead::begin(&status_of(1)).unwrap().data_type, "share");
    assert_eq!(CardRead::begin(&[0, 1, 7, 0, 0, 0]).unwrap().data_type, "empty");
    assert_eq!(CardRead::begin(&[0, 1, 0, 0, 0, 0]).unwrap().label, "");
}

#[test]
fn status_and_record_are_plain_data() {
    let status: CardStatus = parse_status(&status_of(3)).unwrap();
    let copy = status.clone();
    assert_eq!(copy.data_length, 3);
    assert_eq!(copy.label, "labl");
    let mut read = CardRead::begin(&status_of(3)).unwrap();
    read.accept(b"abc").unwrap();
    let record: CardData = read.finish().unwrap();
    let copy = record.clone();
    assert_eq!(copy.data, "abc");
    assert_eq!(copy.data_type, "share");
    assert_eq!(copy.label, "labl");
}

#[test]
fn card_errors_have_messages() {
    assert_eq!(
        CardError::NoReaders.message(),
        "No smart card readers detected. Please connect a reader."
    );
    assert_eq!(
        CardError::ApplicationNotFound.message(),
        "seQRets applet not found on this card. Please install the applet first."
    );
    assert_eq!(
        CardError::PinRequired.message(),
        "PIN verification required. Please verify your PIN first."
    );
    assert_eq!(
        CardError::CardLocked.message(),
        "Card is locked. Too many incorrect PIN attempts."
    );
    assert_eq!(
        CardError::StorageFull.message(),
        "Card storage full. Data too large for this card."
    );
    assert_eq!(CardError::NotUtf8.message(), "Card data is not valid UTF-8");
    assert_eq!(CardError::TooManyChunks.message(), "Too many chunks — data may be corrupted");
    assert_eq!(CardError::NoData.message(), "No data stored on this card.");
    assert_eq!(CardError::InvalidPinLength.message(), "PIN must be 8-16 characters.");
    assert_eq!(CardError::InvalidResponse.message(), "Invalid response from card");
    assert_eq!(CardError::ConnectFailure.message(), "Cannot connect to the card");
}

#[test]
fn unknown_status_word_is_shown_in_hexadecimal() {
    assert_eq!(CardError::Unknown(0x6A, 0x82).message(), "Card returned error: SW=6A82");
    assert_eq!(CardError::Unknown(0x00, 0x0F).message(), "Card returned error: SW=000F");
    assert_eq!(CardError::Unknown(0xFF, 0x90).message(), "Card returned error: SW=FF90");
    for sw1 in 0..=255u8 {
        assert_eq!(
            CardError::Unknown(sw1, 0x39).message(),
            format!("Card returned error: SW={:02X}{:02X}", sw1, 0x39)
        );
    }
}

#[test]
fn read_stops_at_the_declared_length_and_cuts_the_rest() {
    let mut read = CardRead::begin(&status_of(5)).unwrap();
    assert!(read.wants_chunk());
    assert_eq!(read.accept(b"hello world"), Ok(()));
    assert!(!read.wants_chunk());
    assert!(read.next_command().is_none());
    assert_eq!(read.finish().unwrap().data, "hello");
}

#[test]
fn read_ends_on_an_empty_chunk() {
    let mut read = CardRead::begin(&status_of(10)).unwrap();
    assert_eq!(read.accept(b"abc"), Ok(()));
    assert_eq!(read.next_command().unwrap().p1, 1);
    assert_eq!(read.accept(b""), Ok(()));
    assert!(!read.wants_chunk());
    assert!(read.next_command().is_none());
    assert_eq!(read.finish().unwrap().data, "abc");
}

#[test]
fn read_gives_up_on_the_101st_chunk() {
    let mut read = CardRead::begin(&status_of(65535)).unwrap();
    for index in 0..100u8 {
        assert_eq!(read.next_command().unwrap().p1, index);
        assert_eq!(read.accept(b"x"), Ok(()));
    }
    assert_eq!(read.next_command().unwrap().p1, 100);
    assert_eq!(read.accept(b"x"), Err(CardError::TooManyChunks));
    assert_eq!(read.received.len(), 100);
    assert_eq!(read.next_chunk, 100);
}

#[test]
fn read_of_exactly_100_chunks_succeeds() {
    let data = payload(24000);
    let commands = write_commands(&data, TYPE_SHARE, "");
    let mut read = CardRead::begin(&status_of(24000)).unwrap();
    while let Some(command) = read.next_command() {
        read.accept(&commands[2 + command.p1 as usize].data).unwrap();
    }
    assert_eq!(read.next_chunk, 100);
    assert_eq!(read.finish().unwrap().data.as_bytes(), &data[..]);
}

#[test]
fn read_of_bytes_that_are_not_text_fails() {
    let mut read = CardRead::begin(&status_of(2)).unwrap();
    read.accept(&[0xC3, 0x28]).unwrap();
    assert_eq!(read.finish().err(), Some(CardError::NotUtf8));
    // The cut to the declared length can split a character.
    let mut split = CardRead::begin(&status_of(1)).unwrap();
    split.accept("é".as_bytes()).unwrap();
    assert_eq!(split.finish().err(), Some(CardError::NotUtf8));
}

#[test]
fn verify_command_carries_the_pin() {
    assert_eq!(
        verify_pin_command("12345678").frame(),
        vec![0x80, 0x20, 0x00, 0x00, 0x08, b'1', b'2', b'3', b'4', b'5', b'6', b'7', b'8']
    );
}

#[test]
fn verification_is_sent_only_for_a_pin_that_is_given() {
    assert!(verify_pin_if_needed(&None).is_none());
    assert!(verify_pin_if_needed(&Some(String::new())).is_none());
    let command = verify_pin_if_needed(&Some("1234".to_string())).unwrap();
    assert_eq!(command.frame(), vec![0x80, 0x20, 0x00, 0x00, 0x04, b'1', b'2', b'3', b'4']);
}

#[test]
fn new_pin_must_have_8_to_16_characters() {
    assert_eq!(set_pin_command("1234567").err(), Some(CardError::InvalidPinLength));
    assert_eq!(set_pin_command("").err(), Some(CardError::InvalidPinLength));
    assert_eq!(set_pin_command("12345678901234567").err(), Some(CardError::InvalidPinLength));
    let shortest = set_pin_command("12345678").unwrap();
    assert_eq!(shortest.frame()[..5], [0x80, 0x22, 0x00, 0x00, 0x08]);
    assert_eq!(shortest.data, b"12345678".to_vec());
    let longest = set_pin_command("1234567890123456").unwrap();
    assert_eq!(longest.frame()[..5], [0x80, 0x22, 0x00, 0x00, 0x10]);
}

#[test]
fn new_pin_is_measured_in_characters_and_sent_as_bytes() {
    // Nine characters of two bytes each pass, and go out as eighteen bytes.
    let nine = "ééééééééé";
    let command = set_pin_command(nine).unwrap();
    let mut expected = vec![0x80, 0x22, 0x00, 0x00, 0x12];
    expected.extend_from_slice(nine.as_bytes());
    assert_eq!(command.frame(), expected);
    // Seven characters are too few, though they are fourteen bytes.
    assert_eq!(set_pin_command("ééééééé").err(), Some(CardError::InvalidPinLength));
    // Sixteen characters pass with thirty-two bytes, seventeen do not.
    assert_eq!(set_pin_command(&"é".repeat(16)).unwrap().data.len(), 32);
    assert_eq!(set_pin_command(&"é".repeat(17)).err(), Some(CardError::InvalidPinLength));
}

#[test]
fn read_back_of_an_untyped_record_is_named_empty() {
    let mut read = CardRead::begin(&[0x00, 0x01, 0x00, 0x00, 0x00, 0x00]).unwrap();
    assert_eq!(read.next_command().unwrap().frame(), vec![0x80, 0x02, 0x00, 0x00]);
    read.accept(b"a").unwrap();
    assert!(read.next_command().is_none());
    let record = read.finish().unwrap();
    assert_eq!(record.data, "a");
    assert_eq!(record.data_type, "empty");
    assert_eq!(record.label, "");
}

#[test]
fn write_goes_on_after_success_and_ends_at_the_first_failure() {
    assert_eq!(after_write_response(0, 3, &[0x90, 0x00]), Ok(Some(1)));
    assert_eq!(after_write_response(1, 3, &[0x90, 0x00]), Ok(Some(2)));
    assert_eq!(after_write_response(2, 3, &[0x90, 0x00]), Ok(None));
    assert_eq!(after_write_response(0, 1, &[0xAA, 0x90, 0x00]), Ok(None));
    assert_eq!(after_write_response(0, 3, &[0x6A, 0x84]), Err(CardError::StorageFull));
    assert_eq!(after_write_response(1, 3, &[0x69, 0x82]), Err(CardError::PinRequired));
    assert_eq!(after_write_response(2, 3, &[0x69, 0x84]), Err(CardError::CardLocked));
    assert_eq!(after_write_response(0, 3, &[0x6F, 0x00]), Err(CardError::Unknown(0x6F, 0x00)));
    assert_eq!(after_write_response(0, 3, &[0x90]), Err(CardError::InvalidResponse));
    // Past the end there is nothing more to send.
    assert_eq!(after_write_response(3, 3, &[0x90, 0x00]), Ok(None));
    assert_eq!(after_write_response(usize::MAX, usize::MAX, &[0x90, 0x00]), Ok(None));
}

#[test]
fn a_write_is_driven_command_by_command() {
    let commands = write_commands(&payload(500), TYPE_SHARE, "x");
    // The card takes the first chunk and is full at the second.
    let replies: [&[u8]; 6] =
        [&[0x90, 0x00], &[0x90, 0x00], &[0x90, 0x00], &[0x90, 0x00], &[0x6A, 0x84], &[0x90, 0x00]];
    let mut sent = Vec::new();
    let mut next = Some(0);
    let mut outcome = Ok(());
    while let Some(index) = next {
        sent.push(index);
        match after_write_response(index, commands.len(), replies[index]) {
            Ok(following) => next = following,
            Err(e) => {
                outcome = Err(e);
                next = None;
            }
        }
    }
    assert_eq!(sent, vec![0, 1, 2, 3, 4]);
    assert_eq!(outcome, Err(CardError::StorageFull));
}

#[test]
fn change_pin_joins_old_and_new_and_marks_the_split() {
    let command = change_pin_command("oldpin", "newpin12").unwrap();
    assert_eq!(command.cla, 0x80);
    assert_eq!(command.ins, 0x21);
    assert_eq!(command.p1, 6);
    assert_eq!(command.p2, 0);
    assert_eq!(command.data, b"oldpinnewpin12".to_vec());
    assert_eq!(command.frame()[4], 14);
    assert_eq!(change_pin_command("oldpin12", "short").err(), Some(CardError::InvalidPinLength));
    assert_eq!(
        change_pin_command("oldpin12", "12345678901234567").err(),
        Some(CardError::InvalidPinLength)
    );
    // The old PIN is not checked here: the card decides.
    assert_eq!(change_pin_command("", "newpin12").unwrap().p1, 0);
}

#[test]
fn an_empty_reader_list_is_an_error() {
    assert_eq!(require_readers(Vec::new()), Err(CardError::NoReaders));
    let readers = vec!["Reader A".to_string(), "Reader B".to_string()];
    assert_eq!(require_readers(readers.clone()), Ok(readers));
}
