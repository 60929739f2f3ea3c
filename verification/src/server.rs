//! The server's side of the protocol: taking requests, reading their payloads and
//! answering them.

use vstd::arithmetic::power::pow;
use vstd::prelude::*;
use vstd::slice::slice_to_vec;

use crate::error::{outcome, Error, Result};
use crate::exchange::size_bytes_are_low_bytes;
use crate::protocol_structs::{PING, STATUS_INVALID_DATA_SIZE, STATUS_OK};
use crate::request_header::{request_header_reading, RequestHeader};
use crate::response_header::ResponseHeader;
use crate::timeout_config::TimeoutConfig;
use crate::transport::{payload_size_field, size_field, Action, Event, Progress};

verus! {

/// A request that was taken.
#[derive(Debug, Clone, Copy, PartialEq, Eq, Structural)]
pub enum Request {
    /// A keep-alive ping. It has been answered; nothing follows it.
    Ping,
    /// A command with a payload of `data_size` bytes still to be read.
    Command { command: u32, data_size: usize },
}

impl View for Request {
    type V = Request;

    open spec fn view(&self) -> Request {
        *self
    }
}

/// What becomes of a request.
#[derive(Debug, Clone, Copy, PartialEq, Eq, Structural)]
pub enum Verdict {
    /// It is taken.
    Take(Request),
    /// Its payload is over the limit.
    Refuse,
    /// It is a ping that announces a payload.
    Reject,
}

impl Verdict {
    /// What becomes of a request with this header: the ping command is taken without a
    /// payload and rejected with one; any other command is refused where its payload is
    /// over the limit.
    pub open spec fn on(header: RequestHeader, max_buffer_size: usize) -> Verdict {
        if header.command == PING {
            if header.data_size == 0 {
                Verdict::Take(Request::Ping)
            } else {
                Verdict::Reject
            }
        } else if header.data_size > max_buffer_size {
            Verdict::Refuse
        } else {
            Verdict::Take(
                Request::Command {
                    command: header.command,
                    data_size: header.data_size as usize,
                },
            )
        }
    }

    /// The bytes that the client is answered: a status, or nothing where the request is
    /// rejected.
    pub open spec fn answer(self) -> Seq<u8> {
        match self {
            Verdict::Take(_) => ResponseHeader::announcement(STATUS_OK, 0),
            Verdict::Refuse => ResponseHeader::announcement(STATUS_INVALID_DATA_SIZE, 0),
            Verdict::Reject => seq![],
        }
    }

    /// What the server's caller is told once the client has its answer, if it gets one.
    pub open spec fn conclusion(self) -> Result<Request, Error<Seq<char>>> {
        match self {
            Verdict::Take(request) => Ok(request),
            Verdict::Refuse => Err(
                Error::Msg("Data size exceeds maximum allowed buffer size"@),
            ),
            Verdict::Reject => Err(Error::Protocol("Ping must have data_size=0"@)),
        }
    }

    /// Decides on a request.
    pub fn decide(header: &RequestHeader, max_buffer_size: usize) -> (verdict: Verdict)
        ensures
            verdict == Verdict::on(*header, max_buffer_size),
    {
        if header.command == PING {
            if header.data_size == 0 {
                Verdict::Take(Request::Ping)
            } else {
                Verdict::Reject
            }
        } else if header.data_size as usize > max_buffer_size {
            Verdict::Refuse
        } else {
            Verdict::Take(
                Request::Command {
                    command: header.command,
                    data_size: header.data_size as usize,
                },
            )
        }
    }

    fn answer_bytes(&self) -> (bytes: Vec<u8>)
        ensures
            bytes@ == self.answer(),
    {
        match self {
            Verdict::Take(_) => ResponseHeader::announce(STATUS_OK, 0),
            Verdict::Refuse => ResponseHeader::announce(STATUS_INVALID_DATA_SIZE, 0),
            Verdict::Reject => Vec::new(),
        }
    }

    fn conclude(self) -> (result: Result<Request>)
        ensures
            outcome(result) == self.conclusion(),
    {
        match self {
            Verdict::Take(request) => Ok(request),
            Verdict::Refuse => Err(
                Error::Msg("Data size exceeds maximum allowed buffer size".to_owned()),
            ),
            Verdict::Reject => Err(Error::Protocol("Ping must have data_size=0".to_owned())),
        }
    }
}

/// How far a request has been taken.
#[derive(Debug, Clone, Copy)]
pub enum ReadCommandStage {
    /// The header is awaited.
    Header,
    /// The answer is to be written.
    Answer(Verdict),
    /// The answer is to be flushed.
    Flush(Verdict),
}

/// Takes one request: reads its header, answers it with one byte, and hands it out. A
/// ping that announces a payload is an error at once, without an answer.
#[derive(Debug, Clone, Copy)]
pub struct ReadCommand {
    pub max_buffer_size: usize,
    pub timeouts: TimeoutConfig,
    pub stage: ReadCommandStage,
}

impl View for ReadCommand {
    type V = ReadCommand;

    open spec fn view(&self) -> ReadCommand {
        *self
    }
}

impl ReadCommand {
    /// The I/O that is due.
    pub open spec fn due(self) -> Action<Seq<u8>, nat> {
        match self.stage {
            ReadCommandStage::Header => Action::Read {
                len: RequestHeader::REQUEST_HEADER_SIZE,
                timeout: Some(self.timeouts.read_header@),
            },
            ReadCommandStage::Answer(verdict) => Action::Write {
                bytes: verdict.answer(),
                timeout: Some(self.timeouts.write@),
            },
            ReadCommandStage::Flush(_) => Action::Flush,
        }
    }

    /// The error of a timeout, where the I/O that is due has one.
    pub open spec fn late(self) -> Option<Error<Seq<char>>> {
        match self.stage {
            ReadCommandStage::Header => Some(Error::Msg("Timeout waiting for request header"@)),
            ReadCommandStage::Answer(_) => Some(Error::Msg("Sending response header timeout"@)),
            ReadCommandStage::Flush(_) => None,
        }
    }

    pub open spec fn at(self, stage: ReadCommandStage) -> ReadCommand {
        ReadCommand { stage, ..self }
    }

    /// Where the machine stands after `event`. An event that does not answer the I/O
    /// that is due changes nothing.
    pub open spec fn after(self, event: Event<Seq<u8>, Seq<char>>) -> Progress<
        ReadCommand,
        Request,
        Seq<char>,
    > {
        match (self.stage, event) {
            (_, Event::Failed(text)) => Progress::Finished(Err(Error::Io(text))),
            (_, Event::TimedOut) => match self.late() {
                Some(error) => Progress::Finished(Err(error)),
                None => Progress::Pending(self),
            },
            (ReadCommandStage::Header, Event::Received(bytes)) => match RequestHeader::parse(
                bytes,
                usize::MAX,
            ) {
                Ok(header) => match Verdict::on(header, self.max_buffer_size) {
                    Verdict::Reject => Progress::Finished(Verdict::Reject.conclusion()),
                    verdict => Progress::Pending(self.at(ReadCommandStage::Answer(verdict))),
                },
                Err(error) => Progress::Finished(Err(error)),
            },
            (ReadCommandStage::Answer(verdict), Event::Completed) => Progress::Pending(
                self.at(ReadCommandStage::Flush(verdict)),
            ),
            (ReadCommandStage::Flush(verdict), Event::Completed) => Progress::Finished(
                verdict.conclusion(),
            ),
            _ => Progress::Pending(self),
        }
    }

    /// The I/O that is due.
    pub fn action(&self) -> (action: Action)
        ensures
            action@ == self.due(),
    {
        match &self.stage {
            ReadCommandStage::Header => Action::Read {
                len: RequestHeader::encoded_len(),
                timeout: Some(self.timeouts.read_header),
            },
            ReadCommandStage::Answer(verdict) => Action::Write {
                bytes: verdict.answer_bytes(),
                timeout: Some(self.timeouts.write),
            },
            ReadCommandStage::Flush(_) => Action::Flush,
        }
    }

    /// Takes in what came of the I/O that was due.
    pub fn advance(self, event: Event) -> (progress: Progress<ReadCommand, Request>)
        ensures
            progress@ == self.after(event@),
    {
        match event {
            Event::Failed(text) => Progress::Finished(Err(Error::Io(text))),
            Event::TimedOut => match self.stage {
                ReadCommandStage::Header => Progress::Finished(
                    Err(Error::Msg("Timeout waiting for request header".to_owned())),
                ),
                ReadCommandStage::Answer(_) => Progress::Finished(
                    Err(Error::Msg("Sending response header timeout".to_owned())),
                ),
                ReadCommandStage::Flush(_) => Progress::Pending(self),
            },
            Event::Received(bytes) => match self.stage {
                ReadCommandStage::Header => {
                    let mut rest: &[u8] = bytes.as_slice();
                    // An oversized request is owed an answer, so its header is read without
                    // a limit.
                    match RequestHeader::decode(&mut rest, usize::MAX) {
                        Ok(header) => match Verdict::decide(&header, self.max_buffer_size) {
                            Verdict::Reject => Progress::Finished(Verdict::Reject.conclude()),
                            verdict => Progress::Pending(
                                ReadCommand { stage: ReadCommandStage::Answer(verdict), ..self },
                            ),
                        },
                        Err(error) => Progress::Finished(Err(error)),
                    }
                },
                _ => Progress::Pending(self),
            },
            Event::Completed => match self.stage {
                ReadCommandStage::Header => Progress::Pending(self),
                ReadCommandStage::Answer(verdict) => Progress::Pending(
                    ReadCommand { stage: ReadCommandStage::Flush(verdict), ..self },
                ),
                ReadCommandStage::Flush(verdict) => Progress::Finished(verdict.conclude()),
            },
        }
    }
}

/// Reads the payload of a request.
#[derive(Debug, Clone, Copy)]
pub struct ReceiveData {
    pub len: usize,
    pub timeouts: TimeoutConfig,
}

impl View for ReceiveData {
    type V = ReceiveData;

    open spec fn view(&self) -> ReceiveData {
        *self
    }
}

impl ReceiveData {
    /// How reading a payload of `len` bytes begins: it fails at once where `len` is over
    /// the limit.
    pub open spec fn opening(
        len: usize,
        max_buffer_size: usize,
        timeouts: TimeoutConfig,
    ) -> Result<ReceiveData, Error<Seq<char>>> {
        if len > max_buffer_size {
            Err(Error::Msg("Invalid data size"@))
        } else {
            Ok(ReceiveData { len, timeouts })
        }
    }

    /// The I/O that is due.
    pub open spec fn due(self) -> Action<Seq<u8>, nat> {
        Action::Read { len: self.len, timeout: Some(self.timeouts.read_data@) }
    }

    /// Where the machine stands after `event`. An event that does not answer the I/O
    /// that is due changes nothing.
    pub open spec fn after(self, event: Event<Seq<u8>, Seq<char>>) -> Progress<
        ReceiveData,
        Seq<u8>,
        Seq<char>,
    > {
        match event {
            Event::Received(bytes) => Progress::Finished(Ok(bytes)),
            Event::Failed(text) => Progress::Finished(Err(Error::Io(text))),
            Event::TimedOut => Progress::Finished(Err(Error::Msg("Timeout waiting for data"@))),
            Event::Completed => Progress::Pending(self),
        }
    }

    /// Begins to read a payload of `len` bytes.
    pub fn begin(len: usize, max_buffer_size: usize, timeouts: TimeoutConfig) -> (result: Result<
        ReceiveData,
    >)
        ensures
            outcome(result) == ReceiveData::opening(len, max_buffer_size, timeouts),
            result is Ok <==> len <= max_buffer_size,
            result matches Ok(machine) ==> machine.len == len && machine.timeouts == timeouts,
    {
        if len > max_buffer_size {
            return Err(Error::Msg("Invalid data size".to_owned()));
        }
        Ok(ReceiveData { len, timeouts })
    }

    /// The I/O that is due.
    pub fn action(&self) -> (action: Action)
        ensures
            action@ == self.due(),
    {
        Action::Read { len: self.len, timeout: Some(self.timeouts.read_data) }
    }

    /// Takes in what came of the I/O that was due.
    pub fn advance(self, event: Event) -> (progress: Progress<ReceiveData, Vec<u8>>)
        ensures
            progress@ == self.after(event@),
    {
        match event {
            Event::Received(bytes) => Progress::Finished(Ok(bytes)),
            Event::Failed(text) => Progress::Finished(Err(Error::Io(text))),
            Event::TimedOut => Progress::Finished(
                Err(Error::Msg("Timeout waiting for data".to_owned())),
            ),
            Event::Completed => Progress::Pending(self),
        }
    }
}

/// How far a response has been sent.
#[derive(Debug, Clone, Copy, PartialEq, Eq, Structural)]
pub enum SendDataStage {
    /// The header is to be written.
    Header,
    /// The header is to be flushed.
    FlushHeader,
    /// The client's acknowledgement is awaited.
    Acknowledgement,
    /// The payload is to be written.
    Payload,
    /// What was written is to be flushed.
    FlushPayload,
}

/// Sends a response: its header, and once the client acknowledges that, its payload.
#[derive(Debug)]
pub struct SendData<B = Vec<u8>> {
    pub status: u8,
    pub payload: Option<B>,
    pub timeouts: TimeoutConfig,
    pub stage: SendDataStage,
}

impl View for SendData {
    type V = SendData<Seq<u8>>;

    open spec fn view(&self) -> SendData<Seq<u8>> {
        SendData {
            status: self.status,
            payload: match self.payload {
                Some(bytes) => Some(bytes@),
                None => None,
            },
            timeouts: self.timeouts,
            stage: self.stage,
        }
    }
}

impl SendData<Seq<u8>> {
    /// The bytes of the payload; none where there is no payload.
    pub open spec fn bytes(self) -> Seq<u8> {
        match self.payload {
            Some(bytes) => bytes,
            None => seq![],
        }
    }

    /// The bytes of the header.
    pub open spec fn header(self) -> Seq<u8> {
        ResponseHeader::announcement(self.status, size_field(self.bytes().len()))
    }

    /// The I/O that is due.
    pub open spec fn due(self) -> Action<Seq<u8>, nat> {
        match self.stage {
            SendDataStage::Header => Action::Write {
                bytes: self.header(),
                timeout: Some(self.timeouts.write@),
            },
            SendDataStage::FlushHeader => Action::Flush,
            SendDataStage::Acknowledgement => Action::Read {
                len: ResponseHeader::DEFAULT_RESPONSE_HEADER_SIZE,
                timeout: Some(self.timeouts.read_header@),
            },
            SendDataStage::Payload => Action::Write {
                bytes: self.bytes(),
                timeout: Some(self.timeouts.write@),
            },
            SendDataStage::FlushPayload => Action::Flush,
        }
    }

    /// The error of a timeout, where the I/O that is due has one.
    pub open spec fn late(self) -> Option<Error<Seq<char>>> {
        match self.stage {
            SendDataStage::Header => Some(Error::Msg("Sending response header timeout"@)),
            SendDataStage::Acknowledgement => Some(
                Error::Msg("Timeout waiting for response header"@),
            ),
            SendDataStage::Payload => Some(Error::Msg("Timeout sending data"@)),
            _ => None,
        }
    }

    pub open spec fn at(self, stage: SendDataStage) -> SendData<Seq<u8>> {
        SendData { stage, ..self }
    }

    /// Where the machine stands once the client has acknowledged the header with `bytes`.
    pub open spec fn acknowledged(self, bytes: Seq<u8>) -> Progress<
        SendData<Seq<u8>>,
        (),
        Seq<char>,
    > {
        match ResponseHeader::parse(bytes, true, usize::MAX) {
            Err(error) => Progress::Finished(Err(error)),
            Ok(header) => if header.status != STATUS_OK {
                Progress::Finished(Err(Error::Msg("Receiving response status is not OK"@)))
            } else if self.payload is Some {
                Progress::Pending(self.at(SendDataStage::Payload))
            } else {
                Progress::Pending(self.at(SendDataStage::FlushPayload))
            },
        }
    }

    /// Where the machine stands after `event`. An event that does not answer the I/O
    /// that is due changes nothing.
    pub open spec fn after(self, event: Event<Seq<u8>, Seq<char>>) -> Progress<
        SendData<Seq<u8>>,
        (),
        Seq<char>,
    > {
        match (self.stage, event) {
            (_, Event::Failed(text)) => Progress::Finished(Err(Error::Io(text))),
            (_, Event::TimedOut) => match self.late() {
                Some(error) => Progress::Finished(Err(error)),
                None => Progress::Pending(self),
            },
            (SendDataStage::Header, Event::Completed) => Progress::Pending(
                self.at(SendDataStage::FlushHeader),
            ),
            (SendDataStage::FlushHeader, Event::Completed) => Progress::Pending(
                self.at(SendDataStage::Acknowledgement),
            ),
            (SendDataStage::Acknowledgement, Event::Received(bytes)) => self.acknowledged(bytes),
            (SendDataStage::Payload, Event::Completed) => Progress::Pending(
                self.at(SendDataStage::FlushPayload),
            ),
            (SendDataStage::FlushPayload, Event::Completed) => Progress::Finished(Ok(())),
            _ => Progress::Pending(self),
        }
    }
}

impl SendData {
    /// Begins to send a response.
    pub fn begin(status: u8, payload: Option<&[u8]>, timeouts: TimeoutConfig) -> (machine: SendData)
        ensures
            machine@ == (SendData {
                status,
                payload: match payload {
                    Some(bytes) => Some(bytes@),
                    None => None,
                },
                timeouts,
                stage: SendDataStage::Header,
            }),
            machine.status == status,
            machine.timeouts == timeouts,
            machine.stage is Header,
            payload is None <==> machine.payload is None,
            payload matches Some(bytes) ==> machine.payload->Some_0@ == bytes@,
    {
        let payload: Option<Vec<u8>> = match payload {
            Some(bytes) => Some(slice_to_vec(bytes)),
            None => None,
        };
        SendData { status, payload, timeouts, stage: SendDataStage::Header }
    }

    fn header_bytes(&self) -> (bytes: Vec<u8>)
        ensures
            bytes@ == self@.header(),
    {
        let len: usize = match &self.payload {
            Some(bytes) => bytes.len(),
            None => 0,
        };
        ResponseHeader::announce(self.status, payload_size_field(len))
    }

    fn payload_bytes(&self) -> (bytes: Vec<u8>)
        ensures
            bytes@ == self@.bytes(),
    {
        match &self.payload {
            Some(bytes) => slice_to_vec(bytes.as_slice()),
            None => Vec::new(),
        }
    }

    /// The I/O that is due.
    pub fn action(&self) -> (action: Action)
        ensures
            action@ == self@.due(),
    {
        match self.stage {
            SendDataStage::Header => Action::Write {
                bytes: self.header_bytes(),
                timeout: Some(self.timeouts.write),
            },
            SendDataStage::FlushHeader => Action::Flush,
            SendDataStage::Acknowledgement => Action::Read {
                len: ResponseHeader::encoded_len(true, true),
                timeout: Some(self.timeouts.read_header),
            },
            SendDataStage::Payload => Action::Write {
                bytes: self.payload_bytes(),
                timeout: Some(self.timeouts.write),
            },
            SendDataStage::FlushPayload => Action::Flush,
        }
    }

    fn acknowledge(self, bytes: Vec<u8>) -> (progress: Progress<SendData, ()>)
        ensures
            progress@ == self@.acknowledged(bytes@),
    {
        let mut rest: &[u8] = bytes.as_slice();
        match ResponseHeader::decode(&mut rest, true, usize::MAX) {
            Err(error) => Progress::Finished(Err(error)),
            Ok(header) => if header.status != STATUS_OK {
                Progress::Finished(
                    Err(Error::Msg("Receiving response status is not OK".to_owned())),
                )
            } else if self.payload.is_some() {
                Progress::Pending(SendData { stage: SendDataStage::Payload, ..self })
            } else {
                Progress::Pending(SendData { stage: SendDataStage::FlushPayload, ..self })
            },
        }
    }

    /// Takes in what came of the I/O that was due.
    pub fn advance(self, event: Event) -> (progress: Progress<SendData, ()>)
        ensures
            progress@ == self@.after(event@),
    {
        match event {
            Event::Failed(text) => Progress::Finished(Err(Error::Io(text))),
            Event::TimedOut => match self.stage {
                SendDataStage::Header => Progress::Finished(
                    Err(Error::Msg("Sending response header timeout".to_owned())),
                ),
                SendDataStage::Acknowledgement => Progress::Finished(
                    Err(Error::Msg("Timeout waiting for response header".to_owned())),
                ),
                SendDataStage::Payload => Progress::Finished(
                    Err(Error::Msg("Timeout sending data".to_owned())),
                ),
                _ => Progress::Pending(self),
            },
            Event::Received(bytes) => match self.stage {
                SendDataStage::Acknowledgement => self.acknowledge(bytes),
                _ => Progress::Pending(self),
            },
            Event::Completed => match self.stage {
                SendDataStage::Header => Progress::Pending(
                    SendData { stage: SendDataStage::FlushHeader, ..self },
                ),
                SendDataStage::FlushHeader => Progress::Pending(
                    SendData { stage: SendDataStage::Acknowledgement, ..self },
                ),
                SendDataStage::Acknowledgement => Progress::Pending(self),
                SendDataStage::Payload => Progress::Pending(
                    SendData { stage: SendDataStage::FlushPayload, ..self },
                ),
                SendDataStage::FlushPayload => Progress::Finished(Ok(())),
            },
        }
    }
}

/// A request from its header to what the server's caller is told. The header of eight bytes
/// has the limit for headers, and the answer that for writing. The answer is one byte: a
/// one where the request is taken, a seven where its payload is over the limit. A ping
/// with a payload ends it without an answer.
pub proof fn requests_are_taken(max_buffer_size: usize, timeouts: TimeoutConfig, bytes: Seq<u8>)
    requires
        bytes.len() == 8,
    ensures
        ({
            let machine = ReadCommand {
                max_buffer_size,
                timeouts,
                stage: ReadCommandStage::Header,
            };
            let sent = bytes[0] * 16_777_216 + bytes[1] * 65_536 + bytes[2] * 256 + bytes[3];
            let size = bytes[4] * 16_777_216 + bytes[5] * 65_536 + bytes[6] * 256 + bytes[7];
            let read = machine.after(Event::Received(bytes));
            let answering = read->Pending_0;
            let flushing = answering.after(Event::Completed)->Pending_0;
            let end = flushing.after(Event::Completed);
            &&& machine.due() == (Action::<Seq<u8>, nat>::Read {
                len: 8,
                timeout: Some(timeouts.read_header@),
            })
            &&& sent == 0 && size > 0 ==> read == Progress::<
                ReadCommand,
                Request,
                Seq<char>,
            >::Finished(
                Err(Error::Protocol("Ping must have data_size=0"@)),
            )
            &&& !(sent == 0 && size > 0) ==> {
                let answer: u8 = if size <= max_buffer_size {
                    1
                } else {
                    7
                };
                &&& read is Pending
                &&& answering.due() == (Action::Write {
                    bytes: seq![answer],
                    timeout: Some(timeouts.write@),
                })
                &&& answering.after(Event::Completed) is Pending
                &&& flushing.due() is Flush
                &&& end is Finished
                &&& sent == 0 ==> end->Finished_0 == Ok::<Request, Error<Seq<char>>>(Request::Ping)
                &&& size > max_buffer_size ==> end == Progress::<
                    ReadCommand,
                    Request,
                    Seq<char>,
                >::Finished(
                    Err(Error::Msg("Data size exceeds maximum allowed buffer size"@)),
                )
                &&& sent > 0 && size <= max_buffer_size ==> {
                    &&& end->Finished_0 matches Ok(request)
                    &&& request matches Request::Command { command, data_size }
                    &&& command == sent
                    &&& data_size == size
                }
            }
        }),
{
    crate::be_bytes::byte_powers();
    request_header_reading(bytes, usize::MAX);
    assert(ResponseHeader::announcement(STATUS_OK, 0) =~= seq![1u8]);
    assert(ResponseHeader::announcement(STATUS_INVALID_DATA_SIZE, 0) =~= seq![7u8]);
}

/// A payload is read in one piece, of the size asked for and within the limit for payloads,
/// and handed out as it came. A size over the limit is refused, and only such a size.
pub proof fn payloads_are_read(
    len: usize,
    max_buffer_size: usize,
    timeouts: TimeoutConfig,
    bytes: Seq<u8>,
)
    ensures
        ({
            let result = ReceiveData::opening(len, max_buffer_size, timeouts);
            let machine = result->Ok_0;
            &&& len > max_buffer_size ==> result == Err::<ReceiveData, _>(
                Error::Msg("Invalid data size"@),
            )
            &&& len <= max_buffer_size ==> {
                &&& result is Ok
                &&& machine.due() == (Action::<Seq<u8>, nat>::Read {
                    len,
                    timeout: Some(timeouts.read_data@),
                })
                &&& machine.after(Event::Received(bytes)) == Progress::<
                    ReceiveData,
                    Seq<u8>,
                    Seq<char>,
                >::Finished(Ok(bytes))
                &&& machine.after(Event::TimedOut) == Progress::<
                    ReceiveData,
                    Seq<u8>,
                    Seq<char>,
                >::Finished(
                    Err(Error::Msg("Timeout waiting for data"@)),
                )
                &&& machine.after(Event::Completed) == Progress::<
                    ReceiveData,
                    Seq<u8>,
                    Seq<char>,
                >::Pending(machine)
            }
        }),
{
}

/// A response from its header to its last byte. The header is the status, and where there
/// are payload bytes their number after it. The payload follows as it was given, once the
/// client has answered with a one; any other answer is an error. Writes have the limit for
/// writing, and the answer that for headers.
pub proof fn responses_are_sent(
    status: u8,
    payload: Option<Seq<u8>>,
    timeouts: TimeoutConfig,
    answer: u8,
)
    ensures
        ({
            let machine = SendData { status, payload, timeouts, stage: SendDataStage::Header };
            let done = Event::Completed;
            let write = Some(timeouts.write@);
            let len = match payload {
                Some(bytes) => bytes.len(),
                None => 0,
            };
            let flushing = machine.after(done)->Pending_0;
            let waiting = flushing.after(done)->Pending_0;
            let answered = waiting.after(Event::Received(seq![answer]));
            let sending = answered->Pending_0;
            let last = match payload {
                Some(_) => sending.after(done)->Pending_0,
                None => sending,
            };
            &&& machine.due() matches Action::Write { bytes: header, timeout }
            &&& timeout == write
            &&& header.len() == if len % 0x1_0000_0000 == 0 {
                1nat
            } else {
                5nat
            }
            &&& header[0] == status
            &&& forall|i: int|
                1 <= i < header.len() ==> #[trigger] header[i] == (len as int / pow(
                    256,
                    (4 - i) as nat,
                )) % 256
            &&& machine.after(done) is Pending
            &&& flushing.due() is Flush
            &&& flushing.after(done) is Pending
            &&& waiting.due() == (Action::<Seq<u8>, nat>::Read {
                len: 1,
                timeout: Some(timeouts.read_header@),
            })
            &&& answer != 1 ==> answered == Progress::<SendData<Seq<u8>>, (), Seq<char>>::Finished(
                Err(Error::Msg("Receiving response status is not OK"@)),
            )
            &&& answer == 1 ==> {
                &&& answered is Pending
                &&& payload matches Some(bytes) ==> {
                    &&& sending.due() == (Action::Write { bytes, timeout: write })
                    &&& sending.after(done) is Pending
                }
                &&& last.due() is Flush
                &&& last.after(done) == Progress::<
                    SendData<Seq<u8>>,
                    (),
                    Seq<char>,
                >::Finished(Ok(()))
            }
        }),
{
    let machine = SendData { status, payload, timeouts, stage: SendDataStage::Header };
    let len = machine.bytes().len();
    let header = ResponseHeader { status, data_size: size_field(len) };
    crate::response_header::response_header_layout(header);
    crate::response_header::response_header_reading(seq![answer], true, usize::MAX);
    assert forall|i: int| 1 <= i < machine.header().len() implies #[trigger] machine.header()[i]
        == (len as int / pow(256, (4 - i) as nat)) % 256 by {
        size_bytes_are_low_bytes(len, i - 1);
    }
}

/// Every failure of the transport ends what the server does with an I/O error.
pub proof fn servers_report_failures(
    taking: ReadCommand,
    reading: ReceiveData,
    sending: SendData<Seq<u8>>,
    text: Seq<char>,
)
    ensures
        taking.after(Event::Failed(text)) == Progress::<
            ReadCommand,
            Request,
            Seq<char>,
        >::Finished(Err(Error::Io(text))),
        reading.after(Event::Failed(text)) == Progress::<
            ReceiveData,
            Seq<u8>,
            Seq<char>,
        >::Finished(Err(Error::Io(text))),
        sending.after(Event::Failed(text)) == Progress::<
            SendData<Seq<u8>>,
            (),
            Seq<char>,
        >::Finished(Err(Error::Io(text))),
{
}

/// The error of a limit that ran out tells what was waited for. Flushing has no limit.
pub proof fn servers_report_timeouts(taking: ReadCommand, sending: SendData<Seq<u8>>)
    ensures
        match taking.due() {
            Action::Read { .. } => taking.after(Event::TimedOut) == Progress::<
                ReadCommand,
                Request,
                Seq<char>,
            >::Finished(
                Err(Error::Msg("Timeout waiting for request header"@)),
            ),
            Action::Write { .. } => taking.after(Event::TimedOut) == Progress::<
                ReadCommand,
                Request,
                Seq<char>,
            >::Finished(
                Err(Error::Msg("Sending response header timeout"@)),
            ),
            Action::Flush => taking.after(Event::TimedOut) == Progress::<
                ReadCommand,
                Request,
                Seq<char>,
            >::Pending(taking),
        },
        match sending.due() {
            Action::Read { .. } => sending.after(Event::TimedOut) == Progress::<
                SendData<Seq<u8>>,
                (),
                Seq<char>,
            >::Finished(
                Err(Error::Msg("Timeout waiting for response header"@)),
            ),
            Action::Write { .. } => sending.after(Event::TimedOut) == Progress::<
                SendData<Seq<u8>>,
                (),
                Seq<char>,
            >::Finished(
                Err(
                    if sending.stage is Header {
                        Error::Msg("Sending response header timeout"@)
                    } else {
                        Error::Msg("Timeout sending data"@)
                    },
                ),
            ),
            Action::Flush => sending.after(Event::TimedOut) == Progress::<
                SendData<Seq<u8>>,
                (),
                Seq<char>,
            >::Pending(sending),
        },
{
}

/// Whatever happens, the server's machines keep what they were given, and an event that
/// answers something else than what is due leaves them as they are.
pub proof fn servers_keep_their_settings(
    taking: ReadCommand,
    sending: SendData<Seq<u8>>,
    event: Event<Seq<u8>, Seq<char>>,
)
    ensures
        taking.after(event) matches Progress::Pending(next) ==> {
            &&& next.max_buffer_size == taking.max_buffer_size
            &&& next.timeouts == taking.timeouts
        },
        sending.after(event) matches Progress::Pending(next) ==> {
            &&& next.status == sending.status
            &&& next.payload == sending.payload
            &&& next.timeouts == sending.timeouts
        },
        event is Completed && taking.due() is Read || event is Received && !(
        taking.due() is Read) ==> taking.after(event) == Progress::<
            ReadCommand,
            Request,
            Seq<char>,
        >::Pending(taking),
        event is Completed && sending.due() is Read || event is Received && !(
        sending.due() is Read) ==> sending.after(event) == Progress::<
            SendData<Seq<u8>>,
            (),
            Seq<char>,
        >::Pending(sending),
{
}

/// Contracts speak of the server's machines field by field.
pub proof fn responses_are_viewed_whole(
    sending: SendData,
    taking: ReadCommand,
    reading: ReceiveData,
    request: Request,
)
    ensures
        sending@.status == sending.status,
        sending@.timeouts == sending.timeouts,
        sending@.stage == sending.stage,
        sending.payload is None <==> sending@.payload is None,
        sending.payload matches Some(bytes) ==> sending@.payload == Some(bytes@),
        taking@ == taking,
        reading@ == reading,
        request@ == request,
{
}

/// A header or an answer that is cut short is refused.
pub proof fn servers_refuse_short_headers(
    taking: ReadCommand,
    sending: SendData<Seq<u8>>,
    bytes: Seq<u8>,
)
    ensures
        taking.due() is Read && bytes.len() < 8 ==> taking.after(Event::Received(bytes))
            == Progress::<ReadCommand, Request, Seq<char>>::Finished(
            Err(Error::Protocol("Not enough bytes to decode RequestHeader"@)),
        ),
        sending.due() is Read && bytes.len() < 1 ==> sending.after(Event::Received(bytes))
            == Progress::<SendData<Seq<u8>>, (), Seq<char>>::Finished(
            Err(Error::Protocol("Not enough bytes to decode ResponseHeader"@)),
        ),
{
}

} // verus!
