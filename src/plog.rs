//! Log records for the host's log callback.
use vstd::prelude::*;
use vstd::string::StringSliceAdditionalSpecFns;
use crate::codec::str_to_cstr_ret;

verus! {

pub const LOG_LEVEL_TRACE: &'static str = "trace";
pub const LOG_LEVEL_DEBUG: &'static str = "debug";
pub const LOG_LEVEL_INFO: &'static str = "info";
pub const LOG_LEVEL_WARN: &'static str = "warn";
pub const LOG_LEVEL_ERROR: &'static str = "error";

/// The two null-terminated buffers handed to the host's log callback: the
/// level and the message.
pub fn log_record(level: &str, msg: &str) -> (r: (Vec<u8>, Vec<u8>))
    ensures
        r.0@ == level.spec_bytes() + seq![0u8],
        r.1@ == msg.spec_bytes() + seq![0u8],
{
    (str_to_cstr_ret(level), str_to_cstr_ret(msg))
}

} // verus!
