//! Wide units as pairs of bytes, low byte first.

use vstd::prelude::*;

verus! {

/// The byte at `i`, and 0 past the end.
pub open spec fn byte_at(bytes: Seq<u8>, i: int) -> int {
    if 0 <= i < bytes.len() {
        bytes[i] as int
    } else {
        0
    }
}

/// The wide units that `bytes` hold, two bytes to a unit with the low byte
/// first. A last byte without a partner is the low byte of a unit whose high
/// byte is 0.
pub open spec fn units_of_bytes(bytes: Seq<u8>) -> Seq<u16> {
    Seq::new(
        ((bytes.len() + 1) / 2) as nat,
        |k: int| (byte_at(bytes, 2 * k) + 256 * byte_at(bytes, 2 * k + 1)) as u16,
    )
}

/// The bytes of `units`, two for each unit with the low byte first.
pub open spec fn bytes_of_units(units: Seq<u16>) -> Seq<u8> {
    Seq::new(
        2 * units.len(),
        |i: int|
            if i % 2 == 0 {
                (units[i / 2] % 256) as u8
            } else {
                (units[i / 2] / 256) as u8
            },
    )
}

/// A zero byte appended to an odd number of bytes changes no unit.
pub proof fn lemma_odd_padding(bytes: Seq<u8>)
    requires
        bytes.len() % 2 == 1,
    ensures
        units_of_bytes(bytes.push(0u8)) == units_of_bytes(bytes),
{
    let padded = bytes.push(0u8);
    assert(units_of_bytes(padded).len() == units_of_bytes(bytes).len());
    assert forall|k: int| 0 <= k < units_of_bytes(bytes).len() implies #[trigger] units_of_bytes(
        padded,
    )[k] == units_of_bytes(bytes)[k] by {
        assert(byte_at(padded, 2 * k) == byte_at(bytes, 2 * k));
        assert(byte_at(padded, 2 * k + 1) == byte_at(bytes, 2 * k + 1));
    }
    assert(units_of_bytes(padded) =~= units_of_bytes(bytes));
}

/// Units written out as bytes and read back are the same units.
pub proof fn lemma_units_round_trip(units: Seq<u16>)
    ensures
        units_of_bytes(bytes_of_units(units)) == units,
{
    let bytes = bytes_of_units(units);
    assert forall|k: int| 0 <= k < units.len() implies #[trigger] units_of_bytes(bytes)[k]
        == units[k] by {
        assert(byte_at(bytes, 2 * k) == units[k] % 256);
        assert(byte_at(bytes, 2 * k + 1) == units[k] / 256);
    }
    assert(units_of_bytes(bytes) =~= units);
}

/// An even number of bytes read as units and written back are the same
/// bytes.
pub proof fn lemma_bytes_round_trip(bytes: Seq<u8>)
    requires
        bytes.len() % 2 == 0,
    ensures
        bytes_of_units(units_of_bytes(bytes)) == bytes,
{
    let units = units_of_bytes(bytes);
    assert forall|i: int| 0 <= i < bytes.len() implies #[trigger] bytes_of_units(units)[i]
        == bytes[i] by {
        let k = i / 2;
        assert(units[k] == byte_at(bytes, 2 * k) + 256 * byte_at(bytes, 2 * k + 1));
    }
    assert(bytes_of_units(units) =~= bytes);
}

/// Reads `bytes` as wide units.
pub fn pack(bytes: &[u8]) -> (units: Vec<u16>)
    ensures
        units@ == units_of_bytes(bytes@),
{
    let n: usize = bytes.len();
    let m: usize = n / 2 + n % 2;
    let mut units: Vec<u16> = Vec::new();
    let mut k: usize = 0;
    while k < m
        invariant
            n == bytes@.len(),
            m == (n + 1) / 2,
            0 <= k <= m,
            units@.len() == k,
            forall|j: int| 0 <= j < k ==> units@[j] == #[trigger] units_of_bytes(bytes@)[j],
        decreases m - k,
    {
        let lo: u16 = bytes[2 * k] as u16;
        let hi: u16 = if 2 * k + 1 < n {
            bytes[2 * k + 1] as u16
        } else {
            0
        };
        units.push(lo + 256 * hi);
        k += 1;
    }
    assert(units@ =~= units_of_bytes(bytes@));
    units
}

/// Writes `units` out as bytes.
pub fn unpack(units: &[u16]) -> (bytes: Vec<u8>)
    ensures
        bytes@ == bytes_of_units(units@),
{
    let n: usize = units.len();
    let mut bytes: Vec<u8> = Vec::new();
    let mut k: usize = 0;
    while k < n
        invariant
            n == units@.len(),
            0 <= k <= n,
            bytes@.len() == 2 * k,
            forall|j: int| 0 <= j < 2 * k ==> bytes@[j] == #[trigger] bytes_of_units(units@)[j],
        decreases n - k,
    {
        let u: u16 = units[k];
        bytes.push((u % 256) as u8);
        bytes.push((u / 256) as u8);
        k += 1;
    }
    assert(bytes@ =~= bytes_of_units(units@));
    bytes
}

} // verus!
