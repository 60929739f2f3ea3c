//! Command codes and response statuses.

use vstd::prelude::*;

verus! {

/// Protocol command codes.
#[derive(Debug, Clone, Copy, PartialEq, Eq, Structural)]
pub enum Command {
    /// Empty request and empty answer that keep a connection alive.
    Ping,
}

/// The command code of a ping.
pub const PING: u32 = 0;

impl vstd::std_specs::convert::FromSpecImpl<Command> for u32 {
    open spec fn obeys_from_spec() -> bool {
        true
    }

    open spec fn from_spec(command: Command) -> u32 {
        match command {
            Command::Ping => PING,
        }
    }
}

impl From<Command> for u32 {
    fn from(command: Command) -> (code: u32) {
        match command {
            Command::Ping => PING,
        }
    }
}

/// Status of a response.
#[derive(Debug, Clone, Copy, PartialEq, Eq, Structural)]
pub enum ResponseStatus {
    Unknown,
    Success,
    Finish,
    Error,
    DatabaseError,
    InvalidCommand,
    InvalidData,
    InvalidDataSize,
    InvalidDataFormat,
    InvalidDataValue,
    InvalidDomain,
    InvalidRequest,
    InvalidResponse,
    InvalidSignature,
}

/// The status byte of success.
pub const STATUS_OK: u8 = 1;

/// The status byte that refuses a request for its size.
pub const STATUS_INVALID_DATA_SIZE: u8 = 7;

/// The highest status byte that has a meaning of its own.
pub const STATUS_LAST: u8 = 13;

impl ResponseStatus {
    /// The byte that stands for the status on the wire.
    pub open spec fn code(self) -> u8 {
        match self {
            ResponseStatus::Unknown => 0,
            ResponseStatus::Success => STATUS_OK,
            ResponseStatus::Finish => 2,
            ResponseStatus::Error => 3,
            ResponseStatus::DatabaseError => 4,
            ResponseStatus::InvalidCommand => 5,
            ResponseStatus::InvalidData => 6,
            ResponseStatus::InvalidDataSize => STATUS_INVALID_DATA_SIZE,
            ResponseStatus::InvalidDataFormat => 8,
            ResponseStatus::InvalidDataValue => 9,
            ResponseStatus::InvalidDomain => 10,
            ResponseStatus::InvalidRequest => 11,
            ResponseStatus::InvalidResponse => 12,
            ResponseStatus::InvalidSignature => STATUS_LAST,
        }
    }

    /// The status that a byte stands for; `Unknown` where it stands for none.
    pub open spec fn of_code(code: u8) -> ResponseStatus {
        if exists|status: ResponseStatus| status.code() == code {
            choose|status: ResponseStatus| status.code() == code
        } else {
            ResponseStatus::Unknown
        }
    }

    /// The text shown to users.
    pub open spec fn display(self) -> Seq<char> {
        match self {
            ResponseStatus::Unknown => "Unknown error"@,
            ResponseStatus::Success => "No error"@,
            ResponseStatus::Finish => "Finish"@,
            ResponseStatus::Error => "Error"@,
            ResponseStatus::DatabaseError => "Database error"@,
            ResponseStatus::InvalidCommand => "Invalid command"@,
            ResponseStatus::InvalidData => "Invalid data"@,
            ResponseStatus::InvalidDataSize => "Invalid data size"@,
            ResponseStatus::InvalidDataFormat => "Invalid data format"@,
            ResponseStatus::InvalidDataValue => "Invalid data value"@,
            ResponseStatus::InvalidDomain => "Invalid domain"@,
            ResponseStatus::InvalidRequest => "Invalid request"@,
            ResponseStatus::InvalidResponse => "Invalid response"@,
            ResponseStatus::InvalidSignature => "Invalid signature"@,
        }
    }

    /// The status that a byte stands for, if there is one.
    pub fn from_repr(code: u8) -> (status: Option<ResponseStatus>)
        ensures
            status is Some <==> code <= STATUS_LAST,
            status is Some <==> code <= 13,
            status matches Some(known) ==> known.code() == code,
    {
        match code {
            0 => Some(ResponseStatus::Unknown),
            1 => Some(ResponseStatus::Success),
            2 => Some(ResponseStatus::Finish),
            3 => Some(ResponseStatus::Error),
            4 => Some(ResponseStatus::DatabaseError),
            5 => Some(ResponseStatus::InvalidCommand),
            6 => Some(ResponseStatus::InvalidData),
            7 => Some(ResponseStatus::InvalidDataSize),
            8 => Some(ResponseStatus::InvalidDataFormat),
            9 => Some(ResponseStatus::InvalidDataValue),
            10 => Some(ResponseStatus::InvalidDomain),
            11 => Some(ResponseStatus::InvalidRequest),
            12 => Some(ResponseStatus::InvalidResponse),
            13 => Some(ResponseStatus::InvalidSignature),
            _ => None,
        }
    }

    /// The text shown to users.
    pub fn to_string(&self) -> (text: String)
        ensures
            text@ == self.display(),
    {
        match self {
            ResponseStatus::Unknown => "Unknown error".to_owned(),
            ResponseStatus::Success => "No error".to_owned(),
            ResponseStatus::Finish => "Finish".to_owned(),
            ResponseStatus::Error => "Error".to_owned(),
            ResponseStatus::DatabaseError => "Database error".to_owned(),
            ResponseStatus::InvalidCommand => "Invalid command".to_owned(),
            ResponseStatus::InvalidData => "Invalid data".to_owned(),
            ResponseStatus::InvalidDataSize => "Invalid data size".to_owned(),
            ResponseStatus::InvalidDataFormat => "Invalid data format".to_owned(),
            ResponseStatus::InvalidDataValue => "Invalid data value".to_owned(),
            ResponseStatus::InvalidDomain => "Invalid domain".to_owned(),
            ResponseStatus::InvalidRequest => "Invalid request".to_owned(),
            ResponseStatus::InvalidResponse => "Invalid response".to_owned(),
            ResponseStatus::InvalidSignature => "Invalid signature".to_owned(),
        }
    }
}

/// Different statuses have different bytes.
pub proof fn status_codes_are_distinct(a: ResponseStatus, b: ResponseStatus)
    ensures
        a.code() == b.code() ==> a == b,
{
}

/// A status survives being sent as a byte.
pub proof fn status_survives_its_code(status: ResponseStatus)
    ensures
        ResponseStatus::of_code(status.code()) == status,
{
    assert(exists|other: ResponseStatus| other.code() == status.code());
}

/// Every byte up to the last status stands for the status that sends it;
/// every byte beyond reads as `Unknown`.
pub proof fn codes_beyond_the_last_are_unknown(code: u8)
    ensures
        code <= STATUS_LAST ==> ResponseStatus::of_code(code).code() == code,
        code > STATUS_LAST ==> ResponseStatus::of_code(code) == ResponseStatus::Unknown,
{
    if code <= STATUS_LAST {
        let status = if code == 0 {
            ResponseStatus::Unknown
        } else if code == 1 {
            ResponseStatus::Success
        } else if code == 2 {
            ResponseStatus::Finish
        } else if code == 3 {
            ResponseStatus::Error
        } else if code == 4 {
            ResponseStatus::DatabaseError
        } else if code == 5 {
            ResponseStatus::InvalidCommand
        } else if code == 6 {
            ResponseStatus::InvalidData
        } else if code == 7 {
            ResponseStatus::InvalidDataSize
        } else if code == 8 {
            ResponseStatus::InvalidDataFormat
        } else if code == 9 {
            ResponseStatus::InvalidDataValue
        } else if code == 10 {
            ResponseStatus::InvalidDomain
        } else if code == 11 {
            ResponseStatus::InvalidRequest
        } else if code == 12 {
            ResponseStatus::InvalidResponse
        } else {
            ResponseStatus::InvalidSignature
        };
        assert(status.code() == code);
    }
}

impl vstd::std_specs::convert::FromSpecImpl<ResponseStatus> for u8 {
    open spec fn obeys_from_spec() -> bool {
        true
    }

    open spec fn from_spec(status: ResponseStatus) -> u8 {
        status.code()
    }
}

impl From<ResponseStatus> for u8 {
    fn from(status: ResponseStatus) -> (code: u8) {
        match status {
            ResponseStatus::Unknown => 0,
            ResponseStatus::Success => STATUS_OK,
            ResponseStatus::Finish => 2,
            ResponseStatus::Error => 3,
            ResponseStatus::DatabaseError => 4,
            ResponseStatus::InvalidCommand => 5,
            ResponseStatus::InvalidData => 6,
            ResponseStatus::InvalidDataSize => STATUS_INVALID_DATA_SIZE,
            ResponseStatus::InvalidDataFormat => 8,
            ResponseStatus::InvalidDataValue => 9,
            ResponseStatus::InvalidDomain => 10,
            ResponseStatus::InvalidRequest => 11,
            ResponseStatus::InvalidResponse => 12,
            ResponseStatus::InvalidSignature => STATUS_LAST,
        }
    }
}

impl vstd::std_specs::convert::FromSpecImpl<ResponseStatus> for u32 {
    open spec fn obeys_from_spec() -> bool {
        true
    }

    open spec fn from_spec(status: ResponseStatus) -> u32 {
        status.code() as u32
    }
}

impl From<ResponseStatus> for u32 {
    fn from(status: ResponseStatus) -> (code: u32) {
        let byte: u8 = u8::from(status);
        byte as u32
    }
}

impl vstd::std_specs::convert::FromSpecImpl<u8> for ResponseStatus {
    open spec fn obeys_from_spec() -> bool {
        true
    }

    open spec fn from_spec(code: u8) -> ResponseStatus {
        ResponseStatus::of_code(code)
    }
}

impl From<u8> for ResponseStatus {
    fn from(code: u8) -> (status: ResponseStatus) {
        proof {
            codes_beyond_the_last_are_unknown(code);
        }
        match ResponseStatus::from_repr(code) {
            Some(status) => status,
            None => ResponseStatus::Unknown,
        }
    }
}

impl vstd::std_specs::convert::FromSpecImpl<u32> for ResponseStatus {
    open spec fn obeys_from_spec() -> bool {
        true
    }

    /// Only the low byte counts.
    open spec fn from_spec(code: u32) -> ResponseStatus {
        ResponseStatus::of_code((code % 256) as u8)
    }
}

impl From<u32> for ResponseStatus {
    fn from(code: u32) -> (status: ResponseStatus) {
        ResponseStatus::from((code % 256) as u8)
    }
}

/// Values that can be turned into a payload.
pub trait ToBytes {
    fn to_bytes(&self) -> Vec<u8>;
}

/// Values that can be made from a payload.
pub trait FromBytes: Sized {
    fn from_bytes(bytes: &[u8]) -> Self;
}

/// The codes of the protocol. They count up from zero in the order of the statuses, and a
/// ping is command zero.
pub proof fn protocol_codes()
    ensures
        ResponseStatus::Unknown.code() == 0,
        ResponseStatus::Success.code() == ResponseStatus::Unknown.code() + 1,
        ResponseStatus::Finish.code() == ResponseStatus::Success.code() + 1,
        ResponseStatus::Error.code() == ResponseStatus::Finish.code() + 1,
        ResponseStatus::DatabaseError.code() == ResponseStatus::Error.code() + 1,
        ResponseStatus::InvalidCommand.code() == ResponseStatus::DatabaseError.code() + 1,
        ResponseStatus::InvalidData.code() == ResponseStatus::InvalidCommand.code() + 1,
        ResponseStatus::InvalidDataSize.code() == ResponseStatus::InvalidData.code() + 1,
        ResponseStatus::InvalidDataFormat.code() == ResponseStatus::InvalidDataSize.code() + 1,
        ResponseStatus::InvalidDataValue.code() == ResponseStatus::InvalidDataFormat.code() + 1,
        ResponseStatus::InvalidDomain.code() == ResponseStatus::InvalidDataValue.code() + 1,
        ResponseStatus::InvalidRequest.code() == ResponseStatus::InvalidDomain.code() + 1,
        ResponseStatus::InvalidResponse.code() == ResponseStatus::InvalidRequest.code() + 1,
        ResponseStatus::InvalidSignature.code() == ResponseStatus::InvalidResponse.code() + 1,
        STATUS_OK == 1,
        STATUS_INVALID_DATA_SIZE == 7,
        STATUS_LAST == 13,
        PING == 0,
        <u32 as vstd::std_specs::convert::FromSpec<Command>>::from_spec(Command::Ping) == 0,
{
}

/// A status is sent as its code, as a byte or as a number, and read back from the low byte
/// of a number. A byte beyond the last code reads as `Unknown`.
pub proof fn statuses_are_read_back(status: ResponseStatus, number: u32)
    ensures
        <u8 as vstd::std_specs::convert::FromSpec<ResponseStatus>>::from_spec(status)
            == status.code(),
        <u32 as vstd::std_specs::convert::FromSpec<ResponseStatus>>::from_spec(status)
            == status.code(),
        <ResponseStatus as vstd::std_specs::convert::FromSpec<u8>>::from_spec(status.code())
            == status,
        number % 256 == status.code() ==> <ResponseStatus as vstd::std_specs::convert::FromSpec<
            u32,
        >>::from_spec(number) == status,
        number % 256 > 13 ==> {
            &&& <ResponseStatus as vstd::std_specs::convert::FromSpec<u32>>::from_spec(number)
                == ResponseStatus::Unknown
            &&& <ResponseStatus as vstd::std_specs::convert::FromSpec<u8>>::from_spec(
                (number % 256) as u8,
            ) == ResponseStatus::Unknown
        },
{
    status_survives_its_code(status);
    codes_beyond_the_last_are_unknown((number % 256) as u8);
}

/// What users are shown of each status.
pub proof fn status_texts()
    ensures
        ResponseStatus::Unknown.display() == "Unknown error"@,
        ResponseStatus::Success.display() == "No error"@,
        ResponseStatus::Finish.display() == "Finish"@,
        ResponseStatus::Error.display() == "Error"@,
        ResponseStatus::DatabaseError.display() == "Database error"@,
        ResponseStatus::InvalidCommand.display() == "Invalid command"@,
        ResponseStatus::InvalidData.display() == "Invalid data"@,
        ResponseStatus::InvalidDataSize.display() == "Invalid data size"@,
        ResponseStatus::InvalidDataFormat.display() == "Invalid data format"@,
        ResponseStatus::InvalidDataValue.display() == "Invalid data value"@,
        ResponseStatus::InvalidDomain.display() == "Invalid domain"@,
        ResponseStatus::InvalidRequest.display() == "Invalid request"@,
        ResponseStatus::InvalidResponse.display() == "Invalid response"@,
        ResponseStatus::InvalidSignature.display() == "Invalid signature"@,
{
}

} // verus!
