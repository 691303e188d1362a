//! Textual forms of network addresses, produced only where a summary is
//! rendered; decoding itself keeps addresses as bytes.

use vstd::prelude::*;

verus! {

/// The character of a decimal digit.
pub open spec fn digit_char(d: int) -> char
    recommends
        0 <= d < 10,
{
    (48 + d) as u8 as char
}

/// Decimal representation of `n`, without leading zeros.
pub open spec fn decimal(n: nat) -> Seq<char>
    decreases n,
{
    if n < 10 {
        seq![digit_char(n as int)]
    } else {
        decimal(n / 10).push(digit_char((n % 10) as int))
    }
}

/// Dotted-decimal form of a 4-byte address: the four bytes in decimal, in
/// order, separated by dots.
pub open spec fn dotted_decimal(octets: Seq<u8>) -> Seq<char>
    recommends
        octets.len() == 4,
{
    decimal(octets[0] as nat).push('.') + decimal(octets[1] as nat).push('.') + decimal(
        octets[2] as nat,
    ).push('.') + decimal(octets[3] as nat)
}

/// Colon-hex form of a 16-byte address, as the standard library's `Ipv6Addr`
/// displays it (groups of lower-case hex digits, the longest run of zero
/// groups compressed, the embedded-IPv4 forms written with a dotted tail).
pub uninterp spec fn colon_hex(octets: Seq<u8>) -> Seq<char>;

/// Marker that stands for an address where none could be decoded.
pub open spec fn not_applicable() -> Seq<char> {
    "N/A"@
}

/// Trusted: `Ipv4Addr::to_string`, on the address type that the packet crate
/// hands out. The text is the dotted-decimal form of the four bytes.
#[verifier::external_body]
pub(crate) fn ipv4_text(octets: &[u8; 4]) -> (text: String)
    ensures
        text@ == dotted_decimal(octets@),
{
    pnet::util::core_net::Ipv4Addr::from(*octets).to_string()
}

/// Trusted: `Ipv6Addr::to_string`, on the address type that the packet crate
/// hands out. The text depends on the sixteen bytes alone; its form is not
/// spelled out here.
#[verifier::external_body]
pub(crate) fn ipv6_text(octets: &[u8; 16]) -> (text: String)
    ensures
        text@ == colon_hex(octets@),
{
    pnet::util::core_net::Ipv6Addr::from(*octets).to_string()
}

/// The marker text, as an owned string.
pub fn not_applicable_text() -> (text: String)
    ensures
        text@ == not_applicable(),
{
    "N/A".to_owned()
}

} // verus!
