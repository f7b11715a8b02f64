//! The boot status structure: a fixed header, six reserved bytes, one
//! status byte, a variant-dependent trailing payload, and two trailing
//! reserved bytes. Its length byte is the only payload-dependent one in
//! the format.

use crate::error::SmbiosError;
use crate::wire::le16;
use crate::{Sink, SmbiosStructure};
use vstd::prelude::*;

verus! {

/// The closed set of boot outcomes: seven parameterless ones, plus three
/// that own trailing raw payload bytes for the instance's lifetime.
#[derive(Clone, Copy, Debug)]
pub enum BootStatus<'a> {
    NoErrorsDetected,
    NoBootableMedia,
    NormalOperatingSystemFailedToLoad,
    FirmwareDetectedHardwareFailure,
    OperatingSystemDetectedHardwareFailure,
    UserRequestedBoot,
    SystemSecurityViolation,
    PreviouslyRequestedImage(&'a [u8]),
    SystemWatchdogTimer,
    /// The code must lie in 128..=191.
    VendorSpecific(u8, &'a [u8]),
    /// The code must be at least 192.
    ProductSpecific(u8, &'a [u8]),
}

impl<'a> BootStatus<'a> {
    /// The status byte a variant encodes to.
    pub open spec fn spec_code(&self) -> u8 {
        match self {
            BootStatus::NoErrorsDetected => 0,
            BootStatus::NoBootableMedia => 1,
            BootStatus::NormalOperatingSystemFailedToLoad => 2,
            BootStatus::FirmwareDetectedHardwareFailure => 3,
            BootStatus::OperatingSystemDetectedHardwareFailure => 4,
            BootStatus::UserRequestedBoot => 5,
            BootStatus::SystemSecurityViolation => 6,
            BootStatus::PreviouslyRequestedImage(_) => 7,
            BootStatus::SystemWatchdogTimer => 8,
            BootStatus::VendorSpecific(code, _) => *code,
            BootStatus::ProductSpecific(code, _) => *code,
        }
    }

    /// The payload bytes appended verbatim after the status byte.
    pub open spec fn spec_payload(self) -> Seq<u8> {
        match self {
            BootStatus::PreviouslyRequestedImage(extra) => extra@,
            BootStatus::VendorSpecific(_, extra) => extra@,
            BootStatus::ProductSpecific(_, extra) => extra@,
            _ => Seq::empty(),
        }
    }

    /// Whether a payload-bearing variant's code lies in its allowed range.
    pub open spec fn code_ok(self) -> bool {
        match self {
            BootStatus::VendorSpecific(code, _) => 128 <= code <= 191,
            BootStatus::ProductSpecific(code, _) => code >= 192,
            _ => true,
        }
    }

    /// Whether the payload leaves the total byte count within the
    /// structure's one-byte length field.
    pub open spec fn payload_ok(self) -> bool {
        self.spec_payload().len() <= 244
    }

    #[verifier::when_used_as_spec(spec_code)]
    pub fn code(&self) -> (r: u8)
        ensures
            r == self.spec_code(),
    {
        match self {
            BootStatus::NoErrorsDetected => 0,
            BootStatus::NoBootableMedia => 1,
            BootStatus::NormalOperatingSystemFailedToLoad => 2,
            BootStatus::FirmwareDetectedHardwareFailure => 3,
            BootStatus::OperatingSystemDetectedHardwareFailure => 4,
            BootStatus::UserRequestedBoot => 5,
            BootStatus::SystemSecurityViolation => 6,
            BootStatus::PreviouslyRequestedImage(_) => 7,
            BootStatus::SystemWatchdogTimer => 8,
            BootStatus::VendorSpecific(code, _) => *code,
            BootStatus::ProductSpecific(code, _) => *code,
        }
    }
}

/// The structure wrapping one boot status under a handle.
#[derive(Debug)]
pub struct SystemBootInformation<'a> {
    handle: u16,
    status: BootStatus<'a>,
}

impl<'a> SystemBootInformation<'a> {
    pub closed spec fn spec_handle(&self) -> u16 {
        self.handle
    }

    pub closed spec fn spec_status(&self) -> BootStatus<'a> {
        self.status
    }

    /// Accepts the status only when its code lies in the variant's allowed
    /// range and its payload fits the length byte; an out-of-range code or
    /// an oversized payload is refused at construction.
    pub fn new(handle: u16, status: BootStatus<'a>) -> (r: Result<Self, SmbiosError>)
        ensures
            status.code_ok() && status.payload_ok() ==> r is Ok && r->Ok_0.spec_handle() == handle
                && r->Ok_0.spec_status() == status,
            !status.code_ok() ==> r == Err::<Self, SmbiosError>(SmbiosError::InvalidStatusCode),
            status.code_ok() && !status.payload_ok() ==> r == Err::<Self, SmbiosError>(
                SmbiosError::PayloadTooLong,
            ),
    {
        match status {
            BootStatus::VendorSpecific(code, _) => {
                if code < 128 || code > 191 {
                    return Err(SmbiosError::InvalidStatusCode);
                }
            },
            BootStatus::ProductSpecific(code, _) => {
                if code < 192 {
                    return Err(SmbiosError::InvalidStatusCode);
                }
            },
            _ => {},
        }
        let payload_len: usize = match status {
            BootStatus::PreviouslyRequestedImage(extra) => extra.len(),
            BootStatus::VendorSpecific(_, extra) => extra.len(),
            BootStatus::ProductSpecific(_, extra) => extra.len(),
            _ => 0,
        };
        if payload_len > 244 {
            return Err(SmbiosError::PayloadTooLong);
        }
        Ok(SystemBootInformation { handle, status })
    }
}

impl SmbiosStructure for SystemBootInformation<'_> {
    /// Type id, length byte covering header through payload, handle, six
    /// reserved zero bytes, the status byte, the payload verbatim, and two
    /// trailing reserved zero bytes.
    open spec fn spec_serialized(&self) -> Seq<u8> {
        seq![32u8, (11 + self.spec_status().spec_payload().len()) as u8] + le16(self.spec_handle())
            + seq![0u8, 0u8, 0u8, 0u8, 0u8, 0u8] + seq![self.spec_status().spec_code()]
            + self.spec_status().spec_payload() + seq![0u8, 0u8]
    }

    open spec fn wf(&self) -> bool {
        self.spec_status().code_ok() && self.spec_status().payload_ok()
    }

    fn serialize<S: Sink>(&self, sink: &mut S) {
        let payload_len: usize = match self.status {
            BootStatus::PreviouslyRequestedImage(extra) => extra.len(),
            BootStatus::VendorSpecific(_, extra) => extra.len(),
            BootStatus::ProductSpecific(_, extra) => extra.len(),
            _ => 0,
        };
        sink.byte(32);
        // The header and status byte span 11 bytes; the payload follows
        // before the trailing reserved bytes, which the length excludes.
        sink.byte((11 + payload_len) as u8);
        sink.word(self.handle);
        sink.byte(0);
        sink.byte(0);
        sink.byte(0);
        sink.byte(0);
        sink.byte(0);
        sink.byte(0);
        sink.byte(self.status.code());
        match self.status {
            BootStatus::PreviouslyRequestedImage(extra) => sink.vec(extra),
            BootStatus::VendorSpecific(_, extra) => sink.vec(extra),
            BootStatus::ProductSpecific(_, extra) => sink.vec(extra),
            _ => {},
        }
        sink.byte(0);
        sink.byte(0);
        proof {
            assert(sink.sunk() =~= old(sink).sunk() + self.spec_serialized());
        }
    }
}

} // verus!
