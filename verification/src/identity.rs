//! Derivation of the device identity used as hostname and interface key.
//!
//! The identity is the configured device name when one is set; otherwise
//! it falls back to the station MAC rendered as twelve uppercase hex
//! digits with no separators.

use vstd::prelude::*;

verus! {

/// The ASCII byte of one uppercase hex digit.
pub open spec fn hex_digit(v: u8) -> u8
    recommends
        v < 16,
{
    if v < 10 {
        (48 + v) as u8
    } else {
        (55 + v) as u8
    }
}

/// A 6-byte MAC as twelve uppercase hex digits, high nibble first, no
/// separators.
pub open spec fn mac_hex(mac: Seq<u8>) -> Seq<u8>
    recommends
        mac.len() == 6,
{
    Seq::new(
        12,
        |i: int|
            if i % 2 == 0 {
                hex_digit(mac[i / 2] >> 4)
            } else {
                hex_digit(mac[i / 2] & 0xf)
            },
    )
}

/// The identity a configuration and a MAC yield: the configured name if it
/// is non-empty, else the MAC fallback.
pub open spec fn spec_device_identity(configured: Seq<u8>, mac: Seq<u8>) -> Seq<u8> {
    if configured.len() > 0 {
        configured
    } else {
        mac_hex(mac)
    }
}

/// The ASCII byte of one uppercase hex digit.
fn hex_digit_byte(v: u8) -> (r: u8)
    requires
        v < 16,
    ensures
        r == hex_digit(v),
{
    if v < 10 {
        48 + v
    } else {
        55 + v
    }
}

/// Render a MAC as its colon-free uppercase hex form.
pub fn mac_hex_bytes(mac: &[u8; 6]) -> (r: Vec<u8>)
    ensures
        r@ == mac_hex(mac@),
{
    let mut out: Vec<u8> = Vec::new();
    let mut i: usize = 0;
    while i < 6
        invariant
            i <= 6,
            out@ == mac_hex(mac@).take(2 * i as int),
        decreases 6 - i,
    {
        let b: u8 = mac[i];
        proof {
            assert(b >> 4 < 16 && b & 0xf < 16) by (bit_vector);
        }
        out.push(hex_digit_byte(b >> 4));
        out.push(hex_digit_byte(b & 0xf));
        proof {
            assert(out@ =~= mac_hex(mac@).take(2 * (i + 1) as int));
        }
        i = i + 1;
    }
    proof {
        assert(mac_hex(mac@).take(12) =~= mac_hex(mac@));
    }
    out
}

/// Choose the device identity: the configured name when non-empty, else
/// the uppercase hex MAC fallback.
pub fn device_identity(configured: Vec<u8>, mac: &[u8; 6]) -> (r: Vec<u8>)
    ensures
        r@ == spec_device_identity(configured@, mac@),
{
    if configured.len() > 0 {
        configured
    } else {
        mac_hex_bytes(mac)
    }
}

} // verus!
