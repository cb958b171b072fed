//! The client of the driver service.
//!
//! A client is made for one driver image, which must be the one for the host.
//! It owns at most one handle to the service. The handle is held from a
//! successful `open` to the next `close`, and requests are issued only while
//! it is held.

use vstd::prelude::*;
use vstd::string::StringExecFns;

use crate::driver::{
    winring0_descriptor, DriverImage, InstallerDescriptor, InstallerDescriptorView,
};
use crate::ioctl::IOCTL;
use crate::request::{
    issued_view, lemma_settle_keeps_reply, IoInput, IoInputView, IoRequest, IoRequestView,
    OlsWriteIoPortInput, Operation, RAW_IO_PREFIX, READ_MSR_PREFIX,
};

verus! {

/// Why no client is made for a driver image that is not the host's.
pub const ERR_IMAGE_MISMATCH: &'static str =
    "driver image does not match the pointer width of the host";

/// Why no request is issued while the client holds no handle.
pub const ERR_NOT_OPEN: &'static str = "driver is not open";

/// Client of the WinRing0 driver service.
pub struct WinRing0 {
    image: DriverImage,
    descriptor: InstallerDescriptor,
    open: bool,
}

/// A client as mathematical values.
pub struct ClientState {
    /// The driver image that the client was made for.
    pub image: DriverImage,
    /// What is registered with the operating system.
    pub descriptor: InstallerDescriptorView,
    /// Whether the client holds a handle to the service.
    pub open: bool,
}

/// What an operation returns when the driver answers `reply` to the request
/// that was issued for it, or when none was issued.
pub open spec fn round_trip(
    issued: Result<IoRequestView, Seq<char>>,
    reply: Result<u64, Seq<char>>,
) -> Result<u64, Seq<char>> {
    match issued {
        Ok(request) => request.operation.settle(reply),
        Err(message) => Err(message),
    }
}

impl ClientState {
    /// The client for `image` and the bytes of its binary, before it is opened.
    pub open spec fn initial(image: DriverImage, driver_bin: Seq<u8>) -> ClientState {
        ClientState { image, descriptor: winring0_descriptor(driver_bin), open: false }
    }

    /// What holds of every client: its image is the one for the host, and it
    /// registers the WinRing0 service.
    pub open spec fn wf(self) -> bool {
        &&& self.image.pointer_width() == usize::BITS
        &&& self.descriptor == winring0_descriptor(self.descriptor.driver_bin)
    }

    /// The client after an attempt to open the service: a success gives it
    /// the handle, a failure leaves it as it was.
    pub open spec fn opened(self, success: bool) -> ClientState {
        ClientState { open: self.open || success, ..self }
    }

    /// The client after closing: it holds no handle.
    pub open spec fn closed(self) -> ClientState {
        ClientState { open: false, ..self }
    }

    /// The request for `operation`, which is issued only while the handle is
    /// held. Without the handle the operation fails with its own message.
    pub open spec fn issue(self, operation: Operation, code: u32, input: IoInputView) -> Result<
        IoRequestView,
        Seq<char>,
    > {
        if self.open {
            Ok(IoRequestView { operation, code, input })
        } else {
            Err(operation.failure(ERR_NOT_OPEN@))
        }
    }

    /// Reading the model-specific register `msr`: the register's index goes
    /// to the driver as it is.
    pub open spec fn read_msr(self, msr: u32) -> Result<IoRequestView, Seq<char>> {
        self.issue(Operation::ReadMsr, IOCTL::OLS_READ_MSR.code(), IoInputView::Scalar(msr))
    }

    /// A raw control call for any operation of the driver with one 32-bit
    /// value as input.
    pub open spec fn io(self, ioctl: IOCTL, in_buffer: u32) -> Result<IoRequestView, Seq<char>> {
        self.issue(Operation::RawIo, ioctl.code(), IoInputView::Scalar(in_buffer))
    }

    /// Reading one byte from the I/O port `port`.
    pub open spec fn read_io_port_byte(self, port: u32) -> Result<IoRequestView, Seq<char>> {
        self.issue(
            Operation::ReadIoPortByte,
            IOCTL::OLS_READ_IO_PORT_BYTE.code(),
            IoInputView::Scalar(port),
        )
    }

    /// Writing the low eight bits of `value` to the I/O port `port`: the
    /// driver gets the five bytes of the payload.
    pub open spec fn write_io_port_byte(self, port: u32, value: u32) -> Result<
        IoRequestView,
        Seq<char>,
    > {
        self.issue(
            Operation::WriteIoPortByte,
            IOCTL::OLS_WRITE_IO_PORT_BYTE.code(),
            IoInputView::Buffer(OlsWriteIoPortInput::new(port, value).wire()),
        )
    }
}

impl View for WinRing0 {
    type V = ClientState;

    closed spec fn view(&self) -> ClientState {
        ClientState { image: self.image, descriptor: self.descriptor@, open: self.open }
    }
}

impl WinRing0 {
    #[verifier::type_invariant]
    spec fn well_formed(self) -> bool {
        self@.wf()
    }

    /// Makes the client for the driver binary `driver_bin`, which is the
    /// build `image`. The image must be the one for the host: a client for
    /// any other is refused.
    pub fn new(image: DriverImage, driver_bin: Vec<u8>) -> (result: Result<WinRing0, String>)
        ensures
            match result {
                Ok(client) => {
                    &&& image.pointer_width() == usize::BITS
                    &&& client@ == ClientState::initial(image, driver_bin@)
                    &&& client@.wf()
                },
                Err(message) => {
                    &&& image.pointer_width() != usize::BITS
                    &&& message@ == ERR_IMAGE_MISMATCH@
                },
            },
    {
        if image.pointer_width() == usize::BITS {
            let descriptor = InstallerDescriptor::winring0(driver_bin);
            Ok(WinRing0 { image, descriptor, open: false })
        } else {
            Err(String::from_str(ERR_IMAGE_MISMATCH))
        }
    }

    /// The driver image of the client, which is the one for the host.
    pub fn image(&self) -> (image: DriverImage)
        ensures
            image == self@.image,
            image.pointer_width() == usize::BITS,
    {
        proof {
            use_type_invariant(self);
        }
        self.image
    }

    /// What to register with the operating system when the service is
    /// installed.
    pub fn descriptor(&self) -> (descriptor: &InstallerDescriptor)
        ensures
            descriptor@ == self@.descriptor,
            descriptor@ == winring0_descriptor(descriptor.driver_bin@),
    {
        proof {
            use_type_invariant(self);
        }
        &self.descriptor
    }

    /// Whether the client holds a handle to the service.
    pub fn is_open(&self) -> (open: bool)
        ensures
            open == self@.open,
    {
        self.open
    }

    /// Takes note of how opening the service went. After a success the client
    /// holds the handle. A failure changes nothing and is handed on as it
    /// came.
    pub fn open(&mut self, outcome: Result<(), String>) -> (result: Result<(), String>)
        ensures
            result == outcome,
            final(self)@ == old(self)@.opened(outcome is Ok),
    {
        proof {
            use_type_invariant(&*self);
        }
        if outcome.is_ok() {
            self.open = true;
        }
        outcome
    }

    /// Gives the handle up. Returns whether the client held one: if so, the
    /// caller releases it now, once. Closing a client that holds none does
    /// nothing.
    #[must_use]
    pub fn close(&mut self) -> (release: bool)
        ensures
            release == old(self)@.open,
            final(self)@ == old(self)@.closed(),
    {
        proof {
            use_type_invariant(&*self);
        }
        let release = self.open;
        self.open = false;
        release
    }

    fn issue(&self, operation: Operation, code: u32, input: IoInput) -> (result: Result<
        IoRequest,
        String,
    >)
        ensures
            issued_view(result) == self@.issue(operation, code, input@),
    {
        if self.open {
            Ok(IoRequest { operation, code, input })
        } else {
            Err(operation.report(String::from_str(ERR_NOT_OPEN)))
        }
    }

    /// Issues the request that reads the model-specific register `msr`.
    #[allow(non_snake_case)]
    pub fn readMsr(&self, msr: u32) -> (result: Result<IoRequest, String>)
        ensures
            issued_view(result) == self@.read_msr(msr),
    {
        self.issue(Operation::ReadMsr, IOCTL::OLS_READ_MSR.code(), IoInput::Scalar(msr))
    }

    /// Issues a raw control call with one 32-bit value as input.
    pub fn io(&self, ioctl: IOCTL, in_buffer: u32) -> (result: Result<IoRequest, String>)
        ensures
            issued_view(result) == self@.io(ioctl, in_buffer),
    {
        self.issue(Operation::RawIo, ioctl.code(), IoInput::Scalar(in_buffer))
    }

    /// Issues the request that reads one byte from the I/O port `port`.
    pub fn read_io_port_byte(&self, port: u32) -> (result: Result<IoRequest, String>)
        ensures
            issued_view(result) == self@.read_io_port_byte(port),
    {
        self.issue(
            Operation::ReadIoPortByte,
            IOCTL::OLS_READ_IO_PORT_BYTE.code(),
            IoInput::Scalar(port),
        )
    }

    /// Issues the request that writes the low eight bits of `value` to the
    /// I/O port `port`.
    pub fn write_io_port_byte(&self, port: u32, value: u32) -> (result: Result<IoRequest, String>)
        ensures
            issued_view(result) == self@.write_io_port_byte(port, value),
    {
        let input = OlsWriteIoPortInput::new(port, value);
        self.issue(
            Operation::WriteIoPortByte,
            IOCTL::OLS_WRITE_IO_PORT_BYTE.code(),
            IoInput::Buffer(input.to_bytes()),
        )
    }
}

/// Every host has a driver image, and a client is made for that image and
/// for no other.
pub proof fn lemma_image_matches_host(image: DriverImage, driver_bin: Seq<u8>)
    ensures
        DriverImage::select(usize::BITS) is Some,
        ClientState::initial(image, driver_bin).wf() <==> DriverImage::select(usize::BITS) == Some(
            image,
        ),
        ClientState::initial(image, driver_bin).wf() <==> image.pointer_width() == usize::BITS,
{
}

/// Requests are issued from a successful open to the next close and at no
/// other time. An attempt to open that fails changes nothing.
pub proof fn lemma_handle_window(
    state: ClientState,
    operation: Operation,
    code: u32,
    input: IoInputView,
)
    ensures
        state.issue(operation, code, input) is Ok <==> state.open,
        state.opened(true).issue(operation, code, input) is Ok,
        state.closed().issue(operation, code, input) is Err,
        state.opened(false) == state,
        state.wf() ==> state.opened(true).wf(),
{
}

/// Closing twice is closing once: the second time no handle is left to
/// release, and the client is what it was after the first.
pub proof fn lemma_close_twice(state: ClientState)
    ensures
        !state.closed().open,
        state.closed().closed() == state.closed(),
        state.closed().image == state.image,
        state.closed().descriptor == state.descriptor,
        state.wf() ==> state.closed().wf(),
{
}

/// Reading a register and raw I/O return the driver's result unmodified, and
/// whatever fails is reported behind the fixed prefix of the operation.
pub proof fn lemma_read_msr_and_io_replies(
    state: ClientState,
    msr: u32,
    ioctl: IOCTL,
    in_buffer: u32,
    value: u64,
    cause: Seq<char>,
    reply: Result<u64, Seq<char>>,
)
    ensures
        state.open ==> round_trip(state.read_msr(msr), Ok(value)) == Ok::<u64, Seq<char>>(value),
        state.open ==> round_trip(state.io(ioctl, in_buffer), Ok(value)) == Ok::<u64, Seq<char>>(
            value,
        ),
        state.open ==> round_trip(state.read_msr(msr), Err(cause)) == Err::<u64, Seq<char>>(
            READ_MSR_PREFIX@ + cause,
        ),
        state.open ==> round_trip(state.io(ioctl, in_buffer), Err(cause)) == Err::<u64, Seq<char>>(
            RAW_IO_PREFIX@ + cause,
        ),
        round_trip(state.read_msr(msr), reply) is Ok ==> state.open && round_trip(
            state.read_msr(msr),
            reply,
        ) == reply,
        round_trip(state.io(ioctl, in_buffer), reply) is Ok ==> state.open && round_trip(
            state.io(ioctl, in_buffer),
            reply,
        ) == reply,
        round_trip(state.read_msr(msr), reply) matches Err(message)
            ==> READ_MSR_PREFIX@.is_prefix_of(message),
        round_trip(state.io(ioctl, in_buffer), reply) matches Err(message)
            ==> RAW_IO_PREFIX@.is_prefix_of(message),
{
    lemma_settle_keeps_reply(Operation::ReadMsr, reply);
    lemma_settle_keeps_reply(Operation::RawIo, reply);
    assert(READ_MSR_PREFIX@.is_prefix_of(READ_MSR_PREFIX@ + ERR_NOT_OPEN@));
    assert(RAW_IO_PREFIX@.is_prefix_of(RAW_IO_PREFIX@ + ERR_NOT_OPEN@));
}

} // verus!
