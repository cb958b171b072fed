//! Requests to the driver, the bytes they are sent in, and how the driver's
//! replies are reported to the caller.

use vstd::prelude::*;
use vstd::string::StringExecFns;

verus! {

/// What precedes the driver's message when reading a model-specific register
/// fails.
pub const READ_MSR_PREFIX: &'static str = "Error reading msr: ";

/// What precedes the driver's message when a raw control call fails.
pub const RAW_IO_PREFIX: &'static str = "Error doing IO: ";

/// The payload of a request to write one byte to an I/O port.
#[derive(Clone, Copy, Debug, PartialEq, Eq)]
pub struct OlsWriteIoPortInput {
    pub port_number: u32,
    pub char_data: u8,
}

impl OlsWriteIoPortInput {
    /// The payload for writing the low eight bits of `value` to `port`.
    pub open spec fn spec_new(port: u32, value: u32) -> OlsWriteIoPortInput {
        OlsWriteIoPortInput { port_number: port, char_data: (value % 0x100) as u8 }
    }

    /// The bytes that the driver receives: the port number in four bytes,
    /// least significant first, then the data byte, and nothing after it.
    pub open spec fn wire(self) -> Seq<u8> {
        seq![
            (self.port_number % 0x100) as u8,
            (self.port_number / 0x100 % 0x100) as u8,
            (self.port_number / 0x1_0000 % 0x100) as u8,
            (self.port_number / 0x100_0000) as u8,
            self.char_data,
        ]
    }

    #[verifier::when_used_as_spec(spec_new)]
    pub fn new(port: u32, value: u32) -> (input: OlsWriteIoPortInput)
        ensures
            input == OlsWriteIoPortInput::spec_new(port, value),
    {
        OlsWriteIoPortInput { port_number: port, char_data: (value % 0x100) as u8 }
    }

    /// Writes the payload out field by field.
    pub fn to_bytes(&self) -> (bytes: Vec<u8>)
        ensures
            bytes@ == self.wire(),
            bytes@.len() == 5,
    {
        let port: u32 = self.port_number;
        let mut bytes: Vec<u8> = Vec::new();
        bytes.push((port % 0x100) as u8);
        bytes.push((port / 0x100 % 0x100) as u8);
        bytes.push((port / 0x1_0000 % 0x100) as u8);
        bytes.push((port / 0x100_0000) as u8);
        bytes.push(self.char_data);
        assert(bytes@ =~= self.wire());
        bytes
    }
}

/// The wire form has five bytes and loses nothing: its first four bytes are
/// the port number in little-endian order and its last byte is the data.
pub proof fn lemma_wire_is_little_endian(input: OlsWriteIoPortInput)
    ensures
        input.wire().len() == 5,
        input.wire()[0] + 0x100 * input.wire()[1] + 0x1_0000 * input.wire()[2] + 0x100_0000
            * input.wire()[3] == input.port_number,
        input.wire()[4] == input.char_data,
{
}

/// Two payloads with the same wire form are the same payload.
pub proof fn lemma_wire_is_injective(a: OlsWriteIoPortInput, b: OlsWriteIoPortInput)
    requires
        a.wire() == b.wire(),
    ensures
        a == b,
{
    lemma_wire_is_little_endian(a);
    lemma_wire_is_little_endian(b);
}

/// The operation of the client that a request serves.
#[derive(Clone, Copy, Debug, PartialEq, Eq)]
pub enum Operation {
    ReadMsr,
    RawIo,
    ReadIoPortByte,
    WriteIoPortByte,
}

/// A reply as mathematical values: the driver's 64-bit result, or its message.
pub open spec fn reply_view(reply: Result<u64, String>) -> Result<u64, Seq<char>> {
    match reply {
        Ok(value) => Ok(value),
        Err(message) => Err(message@),
    }
}

impl Operation {
    /// What the operation puts in front of the message of a failure. Reading a
    /// register and raw I/O name themselves; the port operations add nothing.
    pub open spec fn error_prefix(self) -> Seq<char> {
        match self {
            Operation::ReadMsr => READ_MSR_PREFIX@,
            Operation::RawIo => RAW_IO_PREFIX@,
            Operation::ReadIoPortByte | Operation::WriteIoPortByte => Seq::empty(),
        }
    }

    /// The message under which the operation reports a failure with the given
    /// cause.
    pub open spec fn failure(self, cause: Seq<char>) -> Seq<char> {
        self.error_prefix() + cause
    }

    /// What the caller of the operation gets for a reply of the driver: a
    /// result as it came, a failure under the operation's message.
    pub open spec fn settle(self, reply: Result<u64, Seq<char>>) -> Result<u64, Seq<char>> {
        match reply {
            Ok(value) => Ok(value),
            Err(cause) => Err(self.failure(cause)),
        }
    }

    /// Builds the message for a failure of the operation.
    pub fn report(self, cause: String) -> (message: String)
        ensures
            message@ == self.failure(cause@),
    {
        match self {
            Operation::ReadMsr => String::from_str(READ_MSR_PREFIX).concat(cause.as_str()),
            Operation::RawIo => String::from_str(RAW_IO_PREFIX).concat(cause.as_str()),
            Operation::ReadIoPortByte | Operation::WriteIoPortByte => {
                assert(cause@ =~= self.failure(cause@));
                cause
            },
        }
    }
}

/// What a request hands to the driver.
#[derive(Debug, PartialEq, Eq)]
pub enum IoInput {
    /// One 32-bit value, such as a register index or a port number.
    Scalar(u32),
    /// Bytes in the layout that the driver expects.
    Buffer(Vec<u8>),
}

/// An `IoInput` as mathematical values.
pub enum IoInputView {
    Scalar(u32),
    Buffer(Seq<u8>),
}

impl View for IoInput {
    type V = IoInputView;

    open spec fn view(&self) -> IoInputView {
        match self {
            IoInput::Scalar(value) => IoInputView::Scalar(*value),
            IoInput::Buffer(bytes) => IoInputView::Buffer(bytes@),
        }
    }
}

/// One device control call that the caller is to make on the open driver.
#[derive(Debug, PartialEq, Eq)]
pub struct IoRequest {
    pub operation: Operation,
    pub code: u32,
    pub input: IoInput,
}

/// An `IoRequest` as mathematical values.
pub struct IoRequestView {
    pub operation: Operation,
    pub code: u32,
    pub input: IoInputView,
}

impl View for IoRequest {
    type V = IoRequestView;

    open spec fn view(&self) -> IoRequestView {
        IoRequestView { operation: self.operation, code: self.code, input: self.input@ }
    }
}

/// The outcome of issuing a request as mathematical values: the request, or
/// the message that says why there is none.
pub open spec fn issued_view(issued: Result<IoRequest, String>) -> Result<
    IoRequestView,
    Seq<char>,
> {
    match issued {
        Ok(request) => Ok(request@),
        Err(message) => Err(message@),
    }
}

impl IoRequest {
    /// Turns the driver's reply to this request into the result of the
    /// operation that it serves.
    pub fn complete(&self, reply: Result<u64, String>) -> (result: Result<u64, String>)
        ensures
            reply_view(result) == self.operation.settle(reply_view(reply)),
    {
        match reply {
            Ok(value) => Ok(value),
            Err(cause) => Err(self.operation.report(cause)),
        }
    }
}

/// A result of the driver reaches the caller unmodified, and a failure keeps
/// the driver's message, behind the fixed prefix of the operation.
pub proof fn lemma_settle_keeps_reply(operation: Operation, reply: Result<u64, Seq<char>>)
    ensures
        reply matches Ok(value) ==> operation.settle(reply) == Ok::<u64, Seq<char>>(value),
        reply matches Err(cause) ==> {
            &&& operation.settle(reply) matches Err(message)
            &&& operation.error_prefix().is_prefix_of(message)
            &&& message.skip(operation.error_prefix().len() as int) == cause
        },
        Operation::ReadMsr.error_prefix() == READ_MSR_PREFIX@,
        Operation::RawIo.error_prefix() == RAW_IO_PREFIX@,
{
    if let Err(cause) = reply {
        let prefix = operation.error_prefix();
        let message = operation.failure(cause);
        assert(message.subrange(0, prefix.len() as int) =~= prefix);
        assert(message.skip(prefix.len() as int) =~= cause);
    }
}

} // verus!
