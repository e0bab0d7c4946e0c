//! Big-endian two's-complement integers, as the PostgreSQL binary format
//! writes them.

use vstd::prelude::*;

verus! {

/// 256 to the power `width`: how many values `width` bytes can tell apart.
pub open spec fn radix(width: nat) -> nat
    decreases width,
{
    if width == 0 {
        1
    } else {
        256 * radix((width - 1) as nat)
    }
}

/// The unsigned number that `bytes` denote, most significant byte first.
pub open spec fn be_value(bytes: Seq<u8>) -> nat
    decreases bytes.len(),
{
    if bytes.len() == 0 {
        0
    } else {
        be_value(bytes.drop_last()) * 256 + bytes.last() as nat
    }
}

/// The `width` low-order bytes of `n`, most significant byte first.
pub open spec fn be_bytes(n: nat, width: nat) -> Seq<u8>
    decreases width,
{
    if width == 0 {
        Seq::<u8>::empty()
    } else {
        be_bytes(n / 256, (width - 1) as nat).push((n % 256) as u8)
    }
}

/// The unsigned number that stands for `v` in two's complement on `width`
/// bytes.
pub open spec fn to_unsigned(v: int, width: nat) -> nat {
    if v >= 0 {
        v as nat
    } else {
        (v + radix(width)) as nat
    }
}

/// The signed number that `n` stands for in two's complement on `width`
/// bytes.
pub open spec fn to_signed(n: nat, width: nat) -> int {
    if 2 * n < radix(width) {
        n as int
    } else {
        n - radix(width)
    }
}

/// The bytes of the signed integer `v` on `width` bytes.
pub open spec fn signed_be_bytes(v: int, width: nat) -> Seq<u8> {
    be_bytes(to_unsigned(v, width), width)
}

/// The signed integer that `bytes` hold.
pub open spec fn signed_be_value(bytes: Seq<u8>) -> int {
    to_signed(be_value(bytes), bytes.len())
}

/// Whether `v` fits in two's complement on `width` bytes.
pub open spec fn fits_signed(v: int, width: nat) -> bool {
    -(radix(width) as int) <= 2 * v < radix(width)
}

pub proof fn lemma_radix_values()
    ensures
        radix(1) == 0x100,
        radix(2) == 0x1_0000,
        radix(4) == 0x1_0000_0000,
        radix(8) == 0x1_0000_0000_0000_0000,
{
    reveal_with_fuel(radix, 9);
}

/// `be_bytes` yields exactly `width` bytes.
pub proof fn lemma_be_bytes_len(n: nat, width: nat)
    ensures
        be_bytes(n, width).len() == width,
    decreases width,
{
    if width > 0 {
        lemma_be_bytes_len(n / 256, (width - 1) as nat);
    }
}

/// Reading back what `be_bytes` wrote gives the number, as long as it fits.
pub proof fn lemma_be_round_trip(n: nat, width: nat)
    requires
        n < radix(width),
    ensures
        be_value(be_bytes(n, width)) == n,
    decreases width,
{
    if width > 0 {
        let rest = be_bytes(n / 256, (width - 1) as nat);
        let all = rest.push((n % 256) as u8);
        lemma_be_round_trip(n / 256, (width - 1) as nat);
        assert(all.drop_last() =~= rest);
        assert(all.last() == (n % 256) as u8);
    }
}

/// A signed integer that fits comes back unchanged from its bytes.
pub proof fn lemma_signed_round_trip(v: int, width: nat)
    requires
        fits_signed(v, width),
    ensures
        signed_be_bytes(v, width).len() == width,
        signed_be_value(signed_be_bytes(v, width)) == v,
{
    let n = to_unsigned(v, width);
    lemma_be_bytes_len(n, width);
    lemma_be_round_trip(n, width);
}

/// What `width` bytes denote is less than 256 to the power `width`.
pub proof fn lemma_be_value_bound(bytes: Seq<u8>)
    ensures
        be_value(bytes) < radix(bytes.len()),
    decreases bytes.len(),
{
    if bytes.len() > 0 {
        lemma_be_value_bound(bytes.drop_last());
    }
}

} // verus!
