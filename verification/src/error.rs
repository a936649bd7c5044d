//! The two error taxonomies of the library.
use vstd::prelude::*;
use vstd::string::StringExecFns;

verus! {

/// Why sealing or opening a blob failed.
#[derive(Clone, Copy, Debug, PartialEq, Eq, Structural)]
pub enum CryptoError {
    /// The salt or the data string is not base64.
    InvalidBase64,
    /// The keyfile is not base64.
    InvalidInput,
    /// The data string decodes to fewer bytes than a nonce has.
    MalformedInput,
    /// Argon2 rejected its parameters, the salt or the secret.
    KdfFailure,
    /// The cipher rejected the key.
    CipherInitFailure,
    /// The cipher or the encoder rejected the plaintext.
    EncryptionFailure,
    /// The tag did not verify: wrong password, wrong keyfile or damaged data.
    AuthenticationFailure,
    /// The compressor reported an error.
    CompressionFailure,
    /// The authenticated plaintext is not a gzip stream.
    DecompressionFailure,
    /// The decompressed payload is not UTF-8.
    TextDecodeFailure,
}

/// Why a card operation failed.
#[derive(Clone, Copy, Debug, PartialEq, Eq, Structural)]
pub enum CardError {
    /// No reader is attached.
    NoReaders,
    /// The reader is absent or busy.
    ConnectFailure,
    /// The card does not hold the application (status word 6A82 on SELECT).
    ApplicationNotFound,
    /// The command needs a verified PIN (status word 6982).
    PinRequired,
    /// Too many wrong PINs (status word 6984).
    CardLocked,
    /// The card has no room for the data (status word 6A84).
    StorageFull,
    /// A response is shorter than its fixed part.
    InvalidResponse,
    /// The data read from the card is not UTF-8.
    NotUtf8,
    /// A read would take more than the allowed number of chunks.
    TooManyChunks,
    /// The card holds no data.
    NoData,
    /// A new PIN is shorter than 8 or longer than 16.
    InvalidPinLength,
    /// Any other status word, with its two bytes.
    Unknown(u8, u8),
}

impl CryptoError {
    /// The message of the error. An authentication failure has one message,
    /// whatever its cause.
    pub open spec fn message_text(self) -> Seq<char> {
        match self {
            CryptoError::InvalidBase64 => "Base64 decode error"@,
            CryptoError::InvalidInput => "Keyfile base64 decode error"@,
            CryptoError::MalformedInput => "Encrypted data is too short to contain a nonce"@,
            CryptoError::KdfFailure => "Argon2 hash error"@,
            CryptoError::CipherInitFailure => "Cipher init error (invalid key length)"@,
            CryptoError::EncryptionFailure => "Encryption error"@,
            CryptoError::AuthenticationFailure =>
                "Decryption failed — wrong password, keyfile, or corrupted data"@,
            CryptoError::CompressionFailure => "Gzip write error"@,
            CryptoError::DecompressionFailure => "Gzip decompress error"@,
            CryptoError::TextDecodeFailure => "UTF-8 decode error"@,
        }
    }

    /// The message to show for the error.
    pub fn message(&self) -> (text: String)
        ensures
            text@ == self.message_text(),
    {
        match self {
            CryptoError::InvalidBase64 => "Base64 decode error".to_string(),
            CryptoError::InvalidInput => "Keyfile base64 decode error".to_string(),
            CryptoError::MalformedInput =>
                "Encrypted data is too short to contain a nonce".to_string(),
            CryptoError::KdfFailure => "Argon2 hash error".to_string(),
            CryptoError::CipherInitFailure => "Cipher init error (invalid key length)".to_string(),
            CryptoError::EncryptionFailure => "Encryption error".to_string(),
            CryptoError::AuthenticationFailure =>
                "Decryption failed — wrong password, keyfile, or corrupted data".to_string(),
            CryptoError::CompressionFailure => "Gzip write error".to_string(),
            CryptoError::DecompressionFailure => "Gzip decompress error".to_string(),
            CryptoError::TextDecodeFailure => "UTF-8 decode error".to_string(),
        }
    }
}

/// The upper-case hexadecimal digit of a value below 16.
pub open spec fn hex_digit(value: int) -> char {
    if value == 0 {
        '0'
    } else if value == 1 {
        '1'
    } else if value == 2 {
        '2'
    } else if value == 3 {
        '3'
    } else if value == 4 {
        '4'
    } else if value == 5 {
        '5'
    } else if value == 6 {
        '6'
    } else if value == 7 {
        '7'
    } else if value == 8 {
        '8'
    } else if value == 9 {
        '9'
    } else if value == 10 {
        'A'
    } else if value == 11 {
        'B'
    } else if value == 12 {
        'C'
    } else if value == 13 {
        'D'
    } else if value == 14 {
        'E'
    } else {
        'F'
    }
}

/// The two upper-case hexadecimal digits of a byte.
pub open spec fn hex_text(byte: u8) -> Seq<char> {
    seq![hex_digit(byte as int / 16), hex_digit(byte as int % 16)]
}

fn hex_str(value: u8) -> (text: &'static str)
    requires
        value < 16,
    ensures
        text@ == seq![hex_digit(value as int)],
{
    proof {
        reveal_strlit("0");
        reveal_strlit("1");
        reveal_strlit("2");
        reveal_strlit("3");
        reveal_strlit("4");
        reveal_strlit("5");
        reveal_strlit("6");
        reveal_strlit("7");
        reveal_strlit("8");
        reveal_strlit("9");
        reveal_strlit("A");
        reveal_strlit("B");
        reveal_strlit("C");
        reveal_strlit("D");
        reveal_strlit("E");
        reveal_strlit("F");
    }
    let text = match value {
        0 => "0",
        1 => "1",
        2 => "2",
        3 => "3",
        4 => "4",
        5 => "5",
        6 => "6",
        7 => "7",
        8 => "8",
        9 => "9",
        10 => "A",
        11 => "B",
        12 => "C",
        13 => "D",
        14 => "E",
        _ => "F",
    };
    assert(text@ =~= seq![hex_digit(value as int)]);
    text
}

impl CardError {
    /// The message of the error. An unlisted status word is shown as four
    /// hexadecimal digits.
    pub open spec fn message_text(self) -> Seq<char> {
        match self {
            CardError::NoReaders => "No smart card readers detected. Please connect a reader."@,
            CardError::ConnectFailure => "Cannot connect to the card"@,
            CardError::ApplicationNotFound =>
                "seQRets applet not found on this card. Please install the applet first."@,
            CardError::PinRequired => "PIN verification required. Please verify your PIN first."@,
            CardError::CardLocked => "Card is locked. Too many incorrect PIN attempts."@,
            CardError::StorageFull => "Card storage full. Data too large for this card."@,
            CardError::InvalidResponse => "Invalid response from card"@,
            CardError::NotUtf8 => "Card data is not valid UTF-8"@,
            CardError::TooManyChunks => "Too many chunks — data may be corrupted"@,
            CardError::NoData => "No data stored on this card."@,
            CardError::InvalidPinLength => "PIN must be 8-16 characters."@,
            CardError::Unknown(sw1, sw2) => "Card returned error: SW="@ + hex_text(sw1)
                + hex_text(sw2),
        }
    }

    /// The message to show for the error.
    pub fn message(&self) -> (text: String)
        ensures
            text@ == self.message_text(),
    {
        match self {
            CardError::NoReaders =>
                "No smart card readers detected. Please connect a reader.".to_string(),
            CardError::ConnectFailure => "Cannot connect to the card".to_string(),
            CardError::ApplicationNotFound =>
                "seQRets applet not found on this card. Please install the applet first.".to_string(),
            CardError::PinRequired =>
                "PIN verification required. Please verify your PIN first.".to_string(),
            CardError::CardLocked => "Card is locked. Too many incorrect PIN attempts.".to_string(),
            CardError::StorageFull => "Card storage full. Data too large for this card.".to_string(),
            CardError::InvalidResponse => "Invalid response from card".to_string(),
            CardError::NotUtf8 => "Card data is not valid UTF-8".to_string(),
            CardError::TooManyChunks => "Too many chunks — data may be corrupted".to_string(),
            CardError::NoData => "No data stored on this card.".to_string(),
            CardError::InvalidPinLength => "PIN must be 8-16 characters.".to_string(),
            CardError::Unknown(sw1, sw2) => {
                let mut text = "Card returned error: SW=".to_string();
                text.append(hex_str(*sw1 / 16));
                text.append(hex_str(*sw1 % 16));
                text.append(hex_str(*sw2 / 16));
                text.append(hex_str(*sw2 % 16));
                assert(text@ =~= "Card returned error: SW="@ + hex_text(*sw1) + hex_text(*sw2));
                text
            },
        }
    }
}

} // verus!
