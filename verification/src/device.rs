//! CUDA device metadata.

use crate::arch::arch_of;
use crate::arch::capability_error;
use crate::arch::Arch;
use crate::error::failure;
use crate::error::first;
use crate::error::invalid;
use crate::error::message_of;
use crate::error::status_error;
use crate::error::with_last_error;
use crate::error::Error;
use crate::error::ErrorModel;
use crate::sys::flashmla_status_t;
use crate::text::labelled;
use crate::text::signed_decimal;
use crate::text::signed_number;
use vstd::prelude::*;
use vstd::string::StringExecFns;

verus! {

/// CUDA device metadata needed for FlashMLA dispatch and workspace sizing.
#[derive(Debug, Copy, Clone, PartialEq, Eq)]
pub struct DeviceInfo {
    /// CUDA device ordinal.
    pub device_id: i32,
    /// CUDA compute capability major version.
    pub major: u32,
    /// CUDA compute capability minor version.
    pub minor: u32,
    /// Number of streaming multiprocessors reported by CUDA.
    pub num_sms: u32,
    /// FlashMLA-supported architecture for this device.
    pub arch: Arch,
}

/// What the kernel library reports about a CUDA device.
#[derive(Debug, Copy, Clone, PartialEq, Eq)]
pub struct DeviceReply {
    /// Status of the query.
    pub status: flashmla_status_t,
    /// Compute capability major version.
    pub major: i32,
    /// Compute capability minor version.
    pub minor: i32,
    /// Number of streaming multiprocessors.
    pub num_sms: i32,
}

/// Why `value`, reported by CUDA as the quantity `what`, is unusable, if it is.
pub open spec fn reported_error(value: i32, what: Seq<char>) -> Option<ErrorModel> {
    if value < 0 {
        Some(
            ErrorModel::Internal(
                "CUDA returned a negative "@ + what + ": "@ + signed_decimal(value as int),
            ),
        )
    } else {
        None
    }
}

/// Why the reply of a query on device `device_id` describes no usable device, if it does not.
pub open spec fn reply_error(
    device_id: i32,
    reply: DeviceReply,
    last_error: Option<Seq<char>>,
) -> Option<ErrorModel> {
    if reply.status != flashmla_status_t::FLASHMLA_STATUS_SUCCESS {
        Some(
            status_error(
                reply.status,
                with_last_error(
                    "failed to query CUDA device "@ + signed_decimal(device_id as int),
                    last_error,
                ),
            ),
        )
    } else {
        first(
            reported_error(reply.major, "major version"@),
            first(
                reported_error(reply.minor, "minor version"@),
                first(
                    reported_error(reply.num_sms, "SM count"@),
                    capability_error(reply.major as u32, reply.minor as u32),
                ),
            ),
        )
    }
}

/// Why `device_id` cannot be passed to a device query, if it cannot.
pub open spec fn device_id_error(device_id: i32) -> Option<ErrorModel> {
    if device_id < 0 {
        invalid("device_id must be non-negative"@)
    } else {
        None
    }
}

/// Whether `info` describes the device that the reply of a query reports.
pub open spec fn describes(info: DeviceInfo, device_id: i32, reply: DeviceReply) -> bool {
    &&& info.device_id == device_id
    &&& info.major == reply.major
    &&& info.minor == reply.minor
    &&& info.num_sms == reply.num_sms
    &&& arch_of(info.major, info.minor) == Some(info.arch)
}

/// Checks that `device_id` may be passed to a device query.
pub fn check_device_id(device_id: i32) -> (r: Result<(), Error>)
    ensures
        failure(r) == device_id_error(device_id),
{
    if device_id < 0 {
        return Err(
            Error::InvalidArgument(String::from_str("device_id must be non-negative")),
        );
    }
    Ok(())
}

/// Converts a quantity reported by CUDA to an unsigned integer.
fn reported(value: i32, what: &str) -> (r: Result<u32, Error>)
    ensures
        failure(r) == reported_error(value, what@),
        r matches Ok(v) ==> v == value,
{
    if value < 0 {
        Err(
            Error::Internal(
                labelled("CUDA returned a negative ", what).concat(": ").concat(
                    signed_number(value).as_str(),
                ),
            ),
        )
    } else {
        Ok(value as u32)
    }
}

impl DeviceInfo {
    /// Interprets the reply of a device query and maps the compute capability to a FlashMLA
    /// architecture.
    pub fn from_reply(device_id: i32, reply: DeviceReply, last_error: Option<String>) -> (r: Result<
        DeviceInfo,
        Error,
    >)
        ensures
            failure(r) == reply_error(device_id, reply, message_of(last_error)),
            r matches Ok(info) ==> describes(info, device_id, reply),
    {
        if reply.status != flashmla_status_t::FLASHMLA_STATUS_SUCCESS {
            return Err(
                Error::from_status(
                    reply.status,
                    labelled("failed to query CUDA device ", signed_number(device_id).as_str()),
                    last_error,
                ),
            );
        }
        let major = reported(reply.major, "major version")?;
        let minor = reported(reply.minor, "minor version")?;
        let num_sms = reported(reply.num_sms, "SM count")?;
        let arch = Arch::from_compute_capability(major, minor)?;
        Ok(DeviceInfo { device_id, major, minor, num_sms, arch })
    }

    /// The number of streaming multiprocessors, as a size.
    pub fn num_sm(self) -> (n: usize)
        ensures
            n == self.num_sms,
    {
        self.num_sms as usize
    }
}

/// A device is usable if and only if the query succeeded and reported a compute capability of an
/// architecture, with a count of multiprocessors.
pub proof fn usable_devices(device_id: i32, reply: DeviceReply, last_error: Option<Seq<char>>)
    ensures
        reply_error(device_id, reply, last_error) is None <==> {
            &&& reply.status == flashmla_status_t::FLASHMLA_STATUS_SUCCESS
            &&& (reply.major == 9 || reply.major == 10) && reply.minor == 0
            &&& reply.num_sms >= 0
        },
        reported_error(reply.num_sms, "SM count"@) is None <==> reply.num_sms >= 0,
{
}

/// What is said of a device is what was reported of it, and its architecture is that of its compute
/// capability. Only devices of non-negative ordinals are asked for.
pub proof fn devices_are_described_as_reported(
    info: DeviceInfo,
    device_id: i32,
    reply: DeviceReply,
)
    requires
        describes(info, device_id, reply),
    ensures
        info.device_id == device_id,
        info.major == reply.major && info.minor == reply.minor && info.num_sms == reply.num_sms,
        info.arch == Arch::Sm90a <==> reply.major == 9 && reply.minor == 0,
        info.arch == Arch::Sm100f <==> reply.major == 10 && reply.minor == 0,
        device_id >= 0 ==> device_id_error(device_id) is None,
        device_id < 0 ==> device_id_error(device_id) == Some(
            ErrorModel::InvalidArgument("device_id must be non-negative"@),
        ),
{
}

} // verus!
