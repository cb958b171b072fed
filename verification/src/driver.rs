//! The driver binary and what is registered with the operating system for it.

use vstd::prelude::*;
use vstd::string::StringExecFns;

use crate::ioctl::OLS_TYPE;

verus! {

/// Human-readable description under which the service is registered.
pub const DEVICE_DESCRIPTION: &'static str = "Rust winRing0 driver";

/// Identifier of the device that the driver creates.
pub const DEVICE_ID: &'static str = "WinRing0_1_2_0";

/// The two builds of the driver binary, one for each pointer width.
#[derive(Clone, Copy, Debug, PartialEq, Eq)]
pub enum DriverImage {
    /// The build for hosts with 64-bit pointers.
    X64,
    /// The build for hosts with 32-bit pointers.
    X86,
}

impl DriverImage {
    /// The pointer width, in bits, of the hosts that the image runs on.
    pub open spec fn spec_pointer_width(self) -> u32 {
        match self {
            DriverImage::X64 => 64,
            DriverImage::X86 => 32,
        }
    }

    /// The image for a host of the given pointer width, if the driver has one.
    pub open spec fn select(bits: u32) -> Option<DriverImage> {
        if bits == 64 {
            Some(DriverImage::X64)
        } else if bits == 32 {
            Some(DriverImage::X86)
        } else {
            None
        }
    }

    #[verifier::when_used_as_spec(spec_pointer_width)]
    pub fn pointer_width(self) -> (bits: u32)
        ensures
            bits == self.spec_pointer_width(),
    {
        match self {
            DriverImage::X64 => 64,
            DriverImage::X86 => 32,
        }
    }

    /// Selects the image by pointer width. There is one for 32 and one for 64
    /// bits, and none for any other width.
    pub fn for_pointer_width(bits: u32) -> (image: Option<DriverImage>)
        ensures
            image == DriverImage::select(bits),
            image is Some <==> bits == 32 || bits == 64,
            image matches Some(i) ==> i.pointer_width() == bits,
    {
        if bits == 64 {
            Some(DriverImage::X64)
        } else if bits == 32 {
            Some(DriverImage::X86)
        } else {
            None
        }
    }

    /// The image for the host that this code runs on.
    pub fn host() -> (image: DriverImage)
        ensures
            DriverImage::select(usize::BITS) == Some(image),
            image.pointer_width() == usize::BITS,
    {
        if usize::BITS == 64 {
            DriverImage::X64
        } else {
            DriverImage::X86
        }
    }
}

/// What the operating system is told when the driver is registered as a
/// service.
#[derive(Debug, PartialEq, Eq)]
pub struct InstallerDescriptor {
    pub device_description: String,
    pub device_id: String,
    pub device_type: u32,
    pub driver_bin: Vec<u8>,
}

/// An `InstallerDescriptor` as mathematical values.
pub struct InstallerDescriptorView {
    pub device_description: Seq<char>,
    pub device_id: Seq<char>,
    pub device_type: u32,
    pub driver_bin: Seq<u8>,
}

impl View for InstallerDescriptor {
    type V = InstallerDescriptorView;

    open spec fn view(&self) -> InstallerDescriptorView {
        InstallerDescriptorView {
            device_description: self.device_description@,
            device_id: self.device_id@,
            device_type: self.device_type,
            driver_bin: self.driver_bin@,
        }
    }
}

/// The descriptor of the WinRing0 service for a given driver binary.
pub open spec fn winring0_descriptor(driver_bin: Seq<u8>) -> InstallerDescriptorView {
    InstallerDescriptorView {
        device_description: DEVICE_DESCRIPTION@,
        device_id: DEVICE_ID@,
        device_type: OLS_TYPE,
        driver_bin,
    }
}

impl InstallerDescriptor {
    /// Assembles the descriptor of the WinRing0 service around the bytes of
    /// the driver binary.
    pub fn winring0(driver_bin: Vec<u8>) -> (descriptor: InstallerDescriptor)
        ensures
            descriptor@ == winring0_descriptor(driver_bin@),
    {
        InstallerDescriptor {
            device_description: String::from_str(DEVICE_DESCRIPTION),
            device_id: String::from_str(DEVICE_ID),
            device_type: OLS_TYPE,
            driver_bin,
        }
    }
}

} // verus!
