use crate::decimal::{parse_u64, parsed_u64};
use vstd::prelude::*;
use vstd::string::StringSliceAdditionalSpecFns;

verus! {

/// Upload size limit, in megabytes, when none is configured.
pub const DEFAULT_UPLOAD_MB: u64 = 10;

pub const BYTES_PER_MB: u64 = 1_048_576;

/// The configured megabytes where the setting is a decimal `u64`, the
/// default otherwise.
pub open spec fn upload_megabytes(setting: Option<Seq<u8>>) -> u64 {
    match setting {
        Some(s) => match parsed_u64(s) {
            Ok(mb) => mb,
            Err(_) => DEFAULT_UPLOAD_MB,
        },
        None => DEFAULT_UPLOAD_MB,
    }
}

/// The request body limit in bytes, saturating at `u64::MAX`.
pub open spec fn upload_limit(setting: Option<Seq<u8>>) -> u64 {
    let bytes = upload_megabytes(setting) * BYTES_PER_MB;
    if bytes > u64::MAX {
        u64::MAX
    } else {
        bytes as u64
    }
}

/// Reads the upload limit setting into a byte count.
pub fn upload_limit_bytes(setting: Option<&str>) -> (r: u64)
    ensures
        r == upload_limit(
            match setting {
                Some(s) => Some(s.spec_bytes()),
                None => None,
            },
        ),
{
    let megabytes = match setting {
        Some(s) => match parse_u64(s.as_bytes()) {
            Ok(mb) => mb,
            Err(_) => DEFAULT_UPLOAD_MB,
        },
        None => DEFAULT_UPLOAD_MB,
    };
    match megabytes.checked_mul(BYTES_PER_MB) {
        Some(bytes) => bytes,
        None => u64::MAX,
    }
}

} // verus!
