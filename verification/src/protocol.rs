//! Wire-protocol encoder: report framing, vendor classification, checksum.
//!
//! Two incompatible report layouts exist. The legacy format is a 9-byte
//! report without a checksum; the extended format is a 65-byte report whose
//! last two bytes carry a 16-bit big-endian additive checksum over the
//! first 63 bytes. Which format applies is decided once, by vendor id, at
//! connect time.

use vstd::prelude::*;

verus! {

/// Length of the report buffer (the extended wire payload uses all of it).
pub const REPORT_LEN: usize = 65;

/// Length of the legacy wire payload: the first 9 bytes of the buffer.
pub const LEGACY_WIRE_LEN: usize = 9;

/// Number of bytes covered by the extended checksum (bytes 0..=62).
pub const CHECKSUM_SPAN: usize = 63;

/// Vendor id of extended-protocol devices (decimal 10171, hex 0x27BB —
/// the same id either way it is written).
pub const VENDOR_EXTENDED: u16 = 10171;

/// Vendor id of legacy-protocol devices.
pub const VENDOR_LEGACY: u16 = 0x04d8;

/// Which of the two wire formats the connected device speaks.
#[derive(Clone, Copy, PartialEq, Eq, Structural, Debug)]
pub enum ProtocolVariant {
    Legacy,
    Extended,
}

/// The protocol variant the allow-list assigns to a vendor id, or `None`
/// for a vendor that is not allow-listed.
pub open spec fn classify_spec(vendor_id: u16) -> Option<ProtocolVariant> {
    if vendor_id == VENDOR_EXTENDED {
        Some(ProtocolVariant::Extended)
    } else if vendor_id == VENDOR_LEGACY {
        Some(ProtocolVariant::Legacy)
    } else {
        None
    }
}

/// Classifies a vendor id against the fixed device allow-list.
pub fn classify_vendor(vendor_id: u16) -> (variant: Option<ProtocolVariant>)
    ensures
        variant == classify_spec(vendor_id),
{
    if vendor_id == VENDOR_EXTENDED {
        Some(ProtocolVariant::Extended)
    } else if vendor_id == VENDOR_LEGACY {
        Some(ProtocolVariant::Legacy)
    } else {
        None
    }
}

/// Number of bytes actually transmitted for a variant.
pub open spec fn wire_len_spec(variant: ProtocolVariant) -> int {
    match variant {
        ProtocolVariant::Legacy => LEGACY_WIRE_LEN as int,
        ProtocolVariant::Extended => REPORT_LEN as int,
    }
}

/// Number of bytes actually transmitted for a variant: 9 for legacy,
/// 65 for extended.
pub fn wire_len(variant: ProtocolVariant) -> (n: usize)
    ensures
        n == wire_len_spec(variant),
{
    match variant {
        ProtocolVariant::Legacy => LEGACY_WIRE_LEN,
        ProtocolVariant::Extended => REPORT_LEN,
    }
}

/// Sum of the first `n` bytes of `s`, as an unbounded integer.
pub open spec fn sum_prefix(s: Seq<u8>, n: int) -> int
    decreases n,
{
    if n <= 0 {
        0
    } else {
        sum_prefix(s, n - 1) + s[n - 1]
    }
}

/// The sum of a prefix is bounded by 255 per byte.
pub proof fn lemma_sum_prefix_bound(s: Seq<u8>, n: int)
    requires
        0 <= n <= s.len(),
    ensures
        0 <= sum_prefix(s, n) <= n * 255,
    decreases n,
{
    if n > 0 {
        lemma_sum_prefix_bound(s, n - 1);
    }
}

/// Two sequences that agree on their first `n` elements have the same
/// prefix sum over those elements.
pub proof fn lemma_sum_prefix_pointwise(s: Seq<u8>, t: Seq<u8>, n: int)
    requires
        n <= s.len(),
        n <= t.len(),
        forall|i: int| 0 <= i < n ==> s[i] == t[i],
    ensures
        sum_prefix(s, n) == sum_prefix(t, n),
    decreases n,
{
    if n > 0 {
        lemma_sum_prefix_pointwise(s, t, n - 1);
    }
}

/// The checksum over the first 63 bytes of a full-size report buffer.
pub open spec fn checksum_spec(s: Seq<u8>) -> int {
    sum_prefix(s, CHECKSUM_SPAN as int)
}

/// High byte of the 16-bit big-endian checksum trailer.
pub open spec fn checksum_hi(s: Seq<u8>) -> u8 {
    ((checksum_spec(s) / 256) % 256) as u8
}

/// Low byte of the 16-bit big-endian checksum trailer.
pub open spec fn checksum_lo(s: Seq<u8>) -> u8 {
    (checksum_spec(s) % 256) as u8
}

/// Computes the additive checksum over the first 63 bytes of the buffer.
pub fn checksum(buffer: &Vec<u8>) -> (sum: u32)
    requires
        buffer@.len() == REPORT_LEN,
    ensures
        sum == checksum_spec(buffer@),
        sum <= 63 * 255,
{
    let mut sum: u32 = 0;
    let mut i: usize = 0;
    while i < CHECKSUM_SPAN
        invariant
            0 <= i <= CHECKSUM_SPAN,
            buffer@.len() == REPORT_LEN,
            sum == sum_prefix(buffer@, i as int),
            sum <= i * 255,
        decreases CHECKSUM_SPAN - i,
    {
        sum = sum + buffer[i] as u32;
        i = i + 1;
    }
    proof {
        lemma_sum_prefix_bound(buffer@, CHECKSUM_SPAN as int);
    }
    sum
}

/// A full-size buffer whose trailer bytes 63 and 64 hold the big-endian
/// checksum of its own first 63 bytes.
pub open spec fn checksummed(s: Seq<u8>) -> Seq<u8> {
    s.update(63, checksum_hi(s)).update(64, checksum_lo(s))
}

/// Recomputes and writes the two checksum trailer bytes. Only bytes 63
/// and 64 change; the covered prefix is untouched.
pub fn write_checksum(buffer: &mut Vec<u8>)
    requires
        old(buffer)@.len() == REPORT_LEN,
    ensures
        final(buffer)@ == checksummed(old(buffer)@),
        final(buffer)@.len() == REPORT_LEN,
{
    let sum: u32 = checksum(buffer);
    buffer[63] = ((sum >> 8) & 0xff) as u8;
    buffer[64] = (sum % 256) as u8;
    proof {
        let s = old(buffer)@;
        lemma_sum_prefix_bound(s, CHECKSUM_SPAN as int);
        assert(((sum >> 8) & 0xff) == (sum / 256) % 256) by (bit_vector)
            requires
                sum <= 63 * 255,
        ;
        assert(buffer@ =~= checksummed(s));
    }
}

/// Writing the checksum trailer does not disturb the bytes it covers, so
/// re-summing an already-checksummed buffer reproduces the same trailer:
/// the checksum is idempotent.
pub proof fn lemma_checksum_idempotent(s: Seq<u8>)
    requires
        s.len() == REPORT_LEN,
    ensures
        checksum_spec(checksummed(s)) == checksum_spec(s),
        checksummed(checksummed(s)) == checksummed(s),
{
    let c = checksummed(s);
    lemma_sum_prefix_pointwise(c, s, CHECKSUM_SPAN as int);
    assert(checksummed(c) =~= c);
}

} // verus!
