//! Process configuration defaults: the bind address and port computed from
//! optional environment values. Reading the environment is the shell's job;
//! the choice of what the values mean is decided and proved here.

use vstd::prelude::*;

use crate::text::id_value;
use crate::text::parse_identity;
use crate::text::valid_identity;

verus! {

/// The address bound when none is configured.
pub open spec fn default_bind_ip() -> Seq<char> {
    "0.0.0.0"@
}

/// The port bound when none is configured, or the configured one is not a
/// port number.
pub const DEFAULT_BIND_PORT: u16 = 6969;

/// A valid port string: an optional leading plus, then digits denoting a
/// value up to the largest 16-bit port.
pub open spec fn valid_port(s: Seq<char>) -> bool {
    &&& !(s.len() > 0 && s[0] == '-')
    &&& valid_identity(s)
    &&& id_value(s) <= u16::MAX
}

/// Parse a decimal port number. Returns the value exactly when the string is
/// a valid unsigned 16-bit decimal numeral.
pub fn parse_port(s: &str) -> (r: Option<u16>)
    ensures
        r is Some <==> valid_port(s@),
        r matches Some(v) ==> v as int == id_value(s@),
{
    if s.unicode_len() > 0 && s.get_char(0) == '-' {
        return None;
    }
    match parse_identity(s) {
        Some(v) => {
            proof {
                if valid_identity(s@) && !(s@.len() > 0 && s@[0] == '-') {
                    crate::text::lemma_digits_value_nonneg(crate::text::digit_part(s@));
                }
            }
            if v <= u16::MAX as i64 {
                Some(v as u16)
            } else {
                None
            }
        },
        None => None,
    }
}

/// The bind address and port: the configured values where they are present
/// and well-formed, the documented defaults otherwise. Total — absence or a
/// malformed port never prevents startup.
pub fn bind_defaults(ip: Option<String>, port: Option<&str>) -> (r: (String, u16))
    ensures
        ip matches Some(s) ==> r.0 == s,
        ip is None ==> r.0@ == default_bind_ip(),
        (match port {
            Some(p) => valid_port(p@) ==> r.1 as int == id_value(p@),
            None => r.1 == DEFAULT_BIND_PORT,
        }),
        (match port {
            Some(p) => !valid_port(p@) ==> r.1 == DEFAULT_BIND_PORT,
            None => r.1 == DEFAULT_BIND_PORT,
        }),
{
    let bound_ip = match ip {
        Some(s) => s,
        None => String::from_str("0.0.0.0"),
    };
    let bound_port = match port {
        Some(p) => match parse_port(p) {
            Some(v) => v,
            None => DEFAULT_BIND_PORT,
        },
        None => DEFAULT_BIND_PORT,
    };
    (bound_ip, bound_port)
}

} // verus!
