use vstd::prelude::*;
use vstd::string::StringExecFns;
use crate::cli::u32_text;

verus! {

/// The region name given to a local queue emulator.
pub const SQS_LOCAL_REGION: &'static str = "sqs-local";

/// Decimal digits in canonical form: no sign, and no leading zero unless
/// the number is zero itself.
pub open spec fn canonical_decimal(s: Seq<char>, n: u32) -> bool {
    &&& u32_text(s) == Some(n)
    &&& s.len() > 0 && s[0] != '+'
    &&& s.len() > 1 ==> s[0] != '0'
}

/// Relies on `u32`'s `Display`: it writes the plain decimal digits of the
/// number, without sign or leading zeros.
#[verifier::external_body]
fn decimal(n: u32) -> (r: String)
    ensures
        canonical_decimal(r@, n),
{
    n.to_string()
}

/// The address of a queue emulator listening on `port` of this machine.
pub fn local_endpoint(port: u32) -> (r: String)
    ensures
        exists|digits: Seq<char>|
            canonical_decimal(digits, port) && r@ == "http://localhost:"@ + digits,
{
    let digits = decimal(port);
    let mut r = String::from_str("http://localhost:");
    r.append(digits.as_str());
    r
}

} // verus!
