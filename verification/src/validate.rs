use vstd::prelude::*;
use vstd::string::*;
use crate::strutil::{spec_parse_uint, parse_uint_max};

verus! {

/// Largest time-to-live the service accepts for a record, in seconds.
pub const MAX_DNS_TTL: u32 = 2147483647;

/// Accepts any decimal rendering of a 32-bit unsigned integer.
pub fn valid_u32(arg: String) -> (r: Result<(), String>)
    ensures
        r is Ok <==> spec_parse_uint(arg@, u32::MAX as nat) is Some,
        r is Err ==> r->Err_0@ == "Value must be an integer; received: "@ + arg@,
{
    match parse_uint_max(arg.as_str(), u32::MAX) {
        Some(_) => Ok(()),
        None => {
            let mut m = String::from_str("Value must be an integer; received: ");
            m.append(arg.as_str());
            Err(m)
        },
    }
}

/// Accepts any decimal rendering of a 16-bit unsigned integer.
pub fn valid_priority(arg: String) -> (r: Result<(), String>)
    ensures
        r is Ok <==> spec_parse_uint(arg@, u16::MAX as nat) is Some,
        r is Err ==> r->Err_0@ == "Value must be an 16-bit integer; received: "@ + arg@,
{
    match parse_uint_max(arg.as_str(), u16::MAX as u32) {
        Some(_) => Ok(()),
        None => {
            let mut m = String::from_str("Value must be an 16-bit integer; received: ");
            m.append(arg.as_str());
            Err(m)
        },
    }
}

/// Accepts a decimal integer between 1 and `MAX_DNS_TTL` seconds.
pub fn valid_ttl(arg: String) -> (r: Result<(), String>)
    ensures
        r is Ok <==> (spec_parse_uint(arg@, u32::MAX as nat) matches Some(v) && 1 <= v
            <= MAX_DNS_TTL),
        r is Err && spec_parse_uint(arg@, u32::MAX as nat) is None ==> r->Err_0@
            == "Value must be an integer; received: "@ + arg@,
        r is Err && spec_parse_uint(arg@, u32::MAX as nat) is Some ==> r->Err_0@
            == "Value must be between 1 and 2147483647 seconds"@,
{
    match parse_uint_max(arg.as_str(), u32::MAX) {
        Some(value) => {
            if value < 1 || value > MAX_DNS_TTL {
                return Err(String::from_str("Value must be between 1 and 2147483647 seconds"));
            }
            Ok(())
        },
        None => {
            let mut m = String::from_str("Value must be an integer; received: ");
            m.append(arg.as_str());
            Err(m)
        },
    }
}

} // verus!
