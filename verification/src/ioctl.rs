//! Device control codes of the WinRing0 kernel driver.
//!
//! A control code packs four fields into 32 bits: the device type in bits
//! 16..32, the required access in bits 14..16, the function number in bits
//! 2..14 and the transfer method in bits 0..2. The driver registers all of its
//! functions under one device type and uses buffered transfer throughout.

use vstd::prelude::*;

verus! {

/// Device type of the driver, from the range left to vendors.
pub const OLS_TYPE: u32 = 40000;

/// Transfer method of every control code of the driver.
pub const METHOD_BUFFERED: u32 = 0;

/// The request needs no particular access to the device.
pub const FILE_ANY_ACCESS: u32 = 0;

/// The request needs read access to the device.
pub const FILE_READ_ACCESS: u32 = 1;

/// The request needs write access to the device.
pub const FILE_WRITE_ACCESS: u32 = 2;

/// Whether the four fields fit the bits that a control code has for them.
pub open spec fn ctl_fields_fit(device_type: u32, function: u32, method: u32, access: u32) -> bool {
    &&& device_type < 0x1_0000
    &&& function < 0x1000
    &&& method < 4
    &&& access < 4
}

/// The control code made of the four fields.
pub open spec fn ctl_code(device_type: u32, function: u32, method: u32, access: u32) -> int {
    device_type * 0x1_0000 + access * 0x4000 + function * 4 + method
}

/// On fields that fit, `ctl_code` is the usual shift-and-or packing, and each
/// field can be read back from the code.
pub proof fn lemma_ctl_code_packs_fields(device_type: u32, function: u32, method: u32, access: u32)
    requires
        ctl_fields_fit(device_type, function, method, access),
    ensures
        0 <= ctl_code(device_type, function, method, access) <= u32::MAX,
        ctl_code(device_type, function, method, access)
            == (device_type << 16) | (access << 14) | (function << 2) | method,
        ctl_code(device_type, function, method, access) / 0x1_0000 == device_type,
        ctl_code(device_type, function, method, access) / 0x4000 % 4 == access,
        ctl_code(device_type, function, method, access) / 4 % 0x1000 == function,
        ctl_code(device_type, function, method, access) % 4 == method,
{
    assert(device_type * 0x1_0000 + access * 0x4000 + function * 4 + method
        == (device_type << 16) | (access << 14) | (function << 2) | method) by (bit_vector)
        requires
            device_type < 0x1_0000,
            function < 0x1000,
            method < 4,
            access < 4,
    ;
}

/// The operations that the driver offers, one control code each.
#[allow(non_camel_case_types)]
#[derive(Clone, Copy, Debug, PartialEq, Eq)]
pub enum IOCTL {
    /// Reports the version of the driver.
    OLS_GET_DRIVER_VERSION,
    /// Reports how many handles to the driver are open.
    OLS_GET_REFCOUNT,
    /// Reads a model-specific register.
    OLS_READ_MSR,
    /// Writes a model-specific register.
    OLS_WRITE_MSR,
    /// Reads a performance-monitoring counter.
    OLS_READ_PMC,
    /// Executes the halt instruction.
    OLS_HALT,
    /// Reads an I/O port.
    OLS_READ_IO_PORT,
    /// Writes an I/O port.
    OLS_WRITE_IO_PORT,
    /// Reads one byte from an I/O port.
    OLS_READ_IO_PORT_BYTE,
    /// Reads a 16-bit word from an I/O port.
    OLS_READ_IO_PORT_WORD,
    /// Reads a 32-bit word from an I/O port.
    OLS_READ_IO_PORT_DWORD,
    /// Writes one byte to an I/O port.
    OLS_WRITE_IO_PORT_BYTE,
    /// Writes a 16-bit word to an I/O port.
    OLS_WRITE_IO_PORT_WORD,
    /// Writes a 32-bit word to an I/O port.
    OLS_WRITE_IO_PORT_DWORD,
    /// Reads physical memory.
    OLS_READ_MEMORY,
    /// Writes physical memory.
    OLS_WRITE_MEMORY,
    /// Reads the PCI configuration space.
    OLS_READ_PCI_CONFIG,
    /// Writes the PCI configuration space.
    OLS_WRITE_PCI_CONFIG,
}

impl IOCTL {
    /// The function number of the operation within the driver's device type.
    pub open spec fn spec_function(self) -> u32 {
        match self {
            IOCTL::OLS_GET_DRIVER_VERSION => 0x800,
            IOCTL::OLS_GET_REFCOUNT => 0x801,
            IOCTL::OLS_READ_MSR => 0x821,
            IOCTL::OLS_WRITE_MSR => 0x822,
            IOCTL::OLS_READ_PMC => 0x823,
            IOCTL::OLS_HALT => 0x824,
            IOCTL::OLS_READ_IO_PORT => 0x831,
            IOCTL::OLS_WRITE_IO_PORT => 0x832,
            IOCTL::OLS_READ_IO_PORT_BYTE => 0x833,
            IOCTL::OLS_READ_IO_PORT_WORD => 0x834,
            IOCTL::OLS_READ_IO_PORT_DWORD => 0x835,
            IOCTL::OLS_WRITE_IO_PORT_BYTE => 0x836,
            IOCTL::OLS_WRITE_IO_PORT_WORD => 0x837,
            IOCTL::OLS_WRITE_IO_PORT_DWORD => 0x838,
            IOCTL::OLS_READ_MEMORY => 0x841,
            IOCTL::OLS_WRITE_MEMORY => 0x842,
            IOCTL::OLS_READ_PCI_CONFIG => 0x851,
            IOCTL::OLS_WRITE_PCI_CONFIG => 0x852,
        }
    }

    /// The access to the device that the operation needs.
    pub open spec fn spec_access(self) -> u32 {
        match self {
            IOCTL::OLS_GET_DRIVER_VERSION
            | IOCTL::OLS_GET_REFCOUNT
            | IOCTL::OLS_READ_MSR
            | IOCTL::OLS_WRITE_MSR
            | IOCTL::OLS_READ_PMC
            | IOCTL::OLS_HALT => FILE_ANY_ACCESS,
            IOCTL::OLS_READ_IO_PORT
            | IOCTL::OLS_READ_IO_PORT_BYTE
            | IOCTL::OLS_READ_IO_PORT_WORD
            | IOCTL::OLS_READ_IO_PORT_DWORD
            | IOCTL::OLS_READ_MEMORY
            | IOCTL::OLS_READ_PCI_CONFIG => FILE_READ_ACCESS,
            IOCTL::OLS_WRITE_IO_PORT
            | IOCTL::OLS_WRITE_IO_PORT_BYTE
            | IOCTL::OLS_WRITE_IO_PORT_WORD
            | IOCTL::OLS_WRITE_IO_PORT_DWORD
            | IOCTL::OLS_WRITE_MEMORY
            | IOCTL::OLS_WRITE_PCI_CONFIG => FILE_WRITE_ACCESS,
        }
    }

    /// The control code of the operation.
    pub open spec fn spec_code(self) -> u32 {
        ctl_code(OLS_TYPE, self.spec_function(), METHOD_BUFFERED, self.spec_access()) as u32
    }

    #[verifier::when_used_as_spec(spec_function)]
    pub fn function(self) -> (function: u32)
        ensures
            function == self.spec_function(),
    {
        match self {
            IOCTL::OLS_GET_DRIVER_VERSION => 0x800,
            IOCTL::OLS_GET_REFCOUNT => 0x801,
            IOCTL::OLS_READ_MSR => 0x821,
            IOCTL::OLS_WRITE_MSR => 0x822,
            IOCTL::OLS_READ_PMC => 0x823,
            IOCTL::OLS_HALT => 0x824,
            IOCTL::OLS_READ_IO_PORT => 0x831,
            IOCTL::OLS_WRITE_IO_PORT => 0x832,
            IOCTL::OLS_READ_IO_PORT_BYTE => 0x833,
            IOCTL::OLS_READ_IO_PORT_WORD => 0x834,
            IOCTL::OLS_READ_IO_PORT_DWORD => 0x835,
            IOCTL::OLS_WRITE_IO_PORT_BYTE => 0x836,
            IOCTL::OLS_WRITE_IO_PORT_WORD => 0x837,
            IOCTL::OLS_WRITE_IO_PORT_DWORD => 0x838,
            IOCTL::OLS_READ_MEMORY => 0x841,
            IOCTL::OLS_WRITE_MEMORY => 0x842,
            IOCTL::OLS_READ_PCI_CONFIG => 0x851,
            IOCTL::OLS_WRITE_PCI_CONFIG => 0x852,
        }
    }

    #[verifier::when_used_as_spec(spec_access)]
    pub fn access(self) -> (access: u32)
        ensures
            access == self.spec_access(),
    {
        match self {
            IOCTL::OLS_GET_DRIVER_VERSION
            | IOCTL::OLS_GET_REFCOUNT
            | IOCTL::OLS_READ_MSR
            | IOCTL::OLS_WRITE_MSR
            | IOCTL::OLS_READ_PMC
            | IOCTL::OLS_HALT => FILE_ANY_ACCESS,
            IOCTL::OLS_READ_IO_PORT
            | IOCTL::OLS_READ_IO_PORT_BYTE
            | IOCTL::OLS_READ_IO_PORT_WORD
            | IOCTL::OLS_READ_IO_PORT_DWORD
            | IOCTL::OLS_READ_MEMORY
            | IOCTL::OLS_READ_PCI_CONFIG => FILE_READ_ACCESS,
            IOCTL::OLS_WRITE_IO_PORT
            | IOCTL::OLS_WRITE_IO_PORT_BYTE
            | IOCTL::OLS_WRITE_IO_PORT_WORD
            | IOCTL::OLS_WRITE_IO_PORT_DWORD
            | IOCTL::OLS_WRITE_MEMORY
            | IOCTL::OLS_WRITE_PCI_CONFIG => FILE_WRITE_ACCESS,
        }
    }

    /// The 32-bit value that selects the operation in a device control call.
    #[verifier::when_used_as_spec(spec_code)]
    pub fn code(self) -> (code: u32)
        ensures
            code == self.spec_code(),
            code == ctl_code(OLS_TYPE, self.function(), METHOD_BUFFERED, self.access()),
    {
        OLS_TYPE * 0x1_0000 + self.access() * 0x4000 + self.function() * 4 + METHOD_BUFFERED
    }
}

/// The fields of every operation fit a control code, so the code keeps them.
pub proof fn lemma_code_fields(ioctl: IOCTL)
    ensures
        ctl_fields_fit(OLS_TYPE, ioctl.function(), METHOD_BUFFERED, ioctl.access()),
        ioctl.code() == ctl_code(OLS_TYPE, ioctl.function(), METHOD_BUFFERED, ioctl.access()),
        ioctl.code() / 0x1_0000 == OLS_TYPE,
        ioctl.code() / 0x4000 % 4 == ioctl.access(),
        ioctl.code() / 4 % 0x1000 == ioctl.function(),
        ioctl.code() % 4 == METHOD_BUFFERED,
{
    lemma_ctl_code_packs_fields(OLS_TYPE, ioctl.function(), METHOD_BUFFERED, ioctl.access());
}

/// No two operations share a control code.
pub proof fn lemma_codes_distinct(a: IOCTL, b: IOCTL)
    ensures
        a.code() == b.code() <==> a == b,
{
    lemma_code_fields(a);
    lemma_code_fields(b);
}

/// The codes of the three operations that the client issues by name.
pub proof fn lemma_named_codes()
    ensures
        IOCTL::OLS_READ_MSR.code() == 0x9C40_2084,
        IOCTL::OLS_READ_IO_PORT_BYTE.code() == 0x9C40_60CC,
        IOCTL::OLS_WRITE_IO_PORT_BYTE.code() == 0x9C40_A0D8,
{
}

} // verus!
