//! Server on a TLS connection.

use vstd::prelude::*;

use crate::error::{outcome, Result};
use crate::protocol_structs::PING;
use crate::protocol_structs::{STATUS_INVALID_DATA_SIZE, STATUS_OK};
use crate::response_header::ResponseHeader;
use crate::server::{ReadCommand, ReadCommandStage, ReceiveData, Request, SendData, SendDataStage};
use crate::timeout_config::TimeoutConfig;
use crate::transport::{
    buffer_limit, choose_buffer_limit, Action, Event, Progress, DEFAULT_MAX_BUFFER_SIZE,
};

verus! {

/// Handler of one TLS connection, with the operations of the plain one.
/// The handshake is up to the caller.
#[derive(Debug)]
pub struct ServerTLS {
    pub max_buffer_size: usize,
    pub timeout_config: TimeoutConfig,
}

impl ServerTLS {
    /// A payload limit is set.
    pub open spec fn wf(self) -> bool {
        self.max_buffer_size > 0
    }

    /// A handler with default limits.
    pub fn new() -> (server: ServerTLS)
        ensures
            server.wf(),
            server.max_buffer_size == DEFAULT_MAX_BUFFER_SIZE,
            server.timeout_config.is_default(),
            server.max_buffer_size == 10_485_760,
    {
        ServerTLS {
            max_buffer_size: DEFAULT_MAX_BUFFER_SIZE,
            timeout_config: TimeoutConfig::default(),
        }
    }

    /// Sets the limit for request payloads; zero resets it to the default.
    pub fn set_max_buffer_size(&mut self, max_buffer_size: usize)
        ensures
            final(self).wf(),
            *final(self) == (ServerTLS {
                max_buffer_size: buffer_limit(max_buffer_size),
                ..*old(self)
            }),
            final(self).max_buffer_size == if max_buffer_size > 0 {
                max_buffer_size
            } else {
                10_485_760
            },
            final(self).timeout_config == old(self).timeout_config,
    {
        self.max_buffer_size = choose_buffer_limit(max_buffer_size);
    }

    /// Sets the time limits.
    pub fn set_timeout_config(&mut self, timeout_config: TimeoutConfig)
        ensures
            *final(self) == (ServerTLS { timeout_config, ..*old(self) }),
    {
        self.timeout_config = timeout_config;
    }

    /// Begins to take a request. Its header is answered with one byte, unless it is a ping
    /// that announces a payload.
    pub fn read_command(&self) -> (machine: ReadCommand)
        ensures
            machine == (ReadCommand {
                max_buffer_size: self.max_buffer_size,
                timeouts: self.timeout_config,
                stage: ReadCommandStage::Header,
            }),
            machine.due() == (Action::<Seq<u8>, nat>::Read {
                len: 8,
                timeout: Some(self.timeout_config.read_header@),
            }),
            forall|bytes: Seq<u8>|
                (#[trigger] machine.after(Event::Received(bytes))) matches Progress::Pending(next)
                    ==> {
                    &&& next.due() matches Action::Write { bytes: answer, timeout }
                    &&& answer == seq![1u8] || answer == seq![7u8]
                    &&& timeout == Some(self.timeout_config.write@)
                },
    {
        proof {
            assert(ResponseHeader::announcement(STATUS_OK, 0) =~= seq![1u8]);
            assert(ResponseHeader::announcement(STATUS_INVALID_DATA_SIZE, 0) =~= seq![7u8]);
        }
        ReadCommand {
            max_buffer_size: self.max_buffer_size,
            timeouts: self.timeout_config,
            stage: ReadCommandStage::Header,
        }
    }

    /// The command and the size of its payload; the ping command and no payload for a
    /// ping, which needs no further handling.
    pub fn command(request: Request) -> (command: (u32, usize))
        ensures
            command == match request {
                Request::Ping => (PING, 0),
                Request::Command { command, data_size } => (command, data_size),
            },
    {
        match request {
            Request::Ping => (PING, 0),
            Request::Command { command, data_size } => (command, data_size),
        }
    }

    /// Begins to read the payload of a request. `buf_size` must be the size that came
    /// with the command.
    pub fn receive_data(&self, buf_size: usize) -> (result: Result<ReceiveData>)
        ensures
            outcome(result) == ReceiveData::opening(
                buf_size,
                self.max_buffer_size,
                self.timeout_config,
            ),
            result is Ok <==> buf_size <= self.max_buffer_size,
            result matches Ok(machine) ==> machine.due() == (Action::<Seq<u8>, nat>::Read {
                len: buf_size,
                timeout: Some(self.timeout_config.read_data@),
            }),
    {
        ReceiveData::begin(buf_size, self.max_buffer_size, self.timeout_config)
    }

    /// Begins to send a response.
    pub fn send_data(&self, status: u8, buf: Option<&[u8]>) -> (machine: SendData)
        ensures
            machine@ == (SendData {
                status,
                payload: match buf {
                    Some(bytes) => Some(bytes@),
                    None => None,
                },
                timeouts: self.timeout_config,
                stage: SendDataStage::Header,
            }),
            machine@.due() matches Action::Write { bytes: header, timeout } && {
                &&& header[0] == status
                &&& timeout == Some(self.timeout_config.write@)
            },
            (SendData { stage: SendDataStage::Acknowledgement, ..machine@ }).due() == (Action::<
                Seq<u8>,
                nat,
            >::Read { len: 1, timeout: Some(self.timeout_config.read_header@) }),
            buf matches Some(bytes) ==> (SendData {
                stage: SendDataStage::Payload,
                ..machine@
            }).due() == (Action::Write {
                bytes: bytes@,
                timeout: Some(self.timeout_config.write@),
            }),
    {
        SendData::begin(status, buf, self.timeout_config)
    }
}

} // verus!
