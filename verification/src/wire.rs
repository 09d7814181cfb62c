//! Byte-level building blocks of the record layout: little-endian integers
//! of a fixed width and byte strings behind a 32-bit length.

use vstd::prelude::*;

verus! {

/// Why a byte string is not the encoding of a value, or why a value has no
/// encoding.
#[derive(Debug, Clone, Copy, PartialEq, Eq, Structural)]
pub enum WireError {
    /// The input ends before the value does.
    UnexpectedLength,
    /// The stored card index does not fit this machine's `usize`.
    IndexOverflow,
    /// Bytes are left over after the value.
    TrailingBytes,
    /// A byte string is longer than a 32-bit length can say.
    LengthOverflow,
}

/// `256` to the power `width`: the number of values that `width` bytes hold.
pub open spec fn pow256(width: nat) -> nat
    decreases width,
{
    if width == 0 {
        1
    } else {
        256 * pow256((width - 1) as nat)
    }
}

/// The `width` low-order bytes of `value`, least significant first.
pub open spec fn le_bytes(value: nat, width: nat) -> Seq<u8>
    decreases width,
{
    if width == 0 {
        Seq::empty()
    } else {
        seq![(value % 256) as u8] + le_bytes(value / 256, (width - 1) as nat)
    }
}

/// The number that `bytes` spell, least significant byte first.
pub open spec fn le_value(bytes: Seq<u8>) -> nat
    decreases bytes.len(),
{
    if bytes.len() == 0 {
        0
    } else {
        bytes[0] as nat + 256 * le_value(bytes.skip(1))
    }
}

/// A byte string behind its length as a 32-bit little-endian integer.
pub open spec fn prefixed(bytes: Seq<u8>) -> Seq<u8> {
    le_bytes(bytes.len(), 4) + bytes
}

/// The powers of `256` for the widths that the layout uses.
pub proof fn lemma_pow256_values()
    ensures
        pow256(0) == 1,
        pow256(1) == 0x100,
        pow256(4) == 0x1_0000_0000,
        pow256(8) == 0x1_0000_0000_0000_0000,
{
    reveal_with_fuel(pow256, 9);
}

/// A number written in `width` bytes takes `width` bytes.
pub proof fn lemma_le_bytes_len(value: nat, width: nat)
    ensures
        le_bytes(value, width).len() == width,
    decreases width,
{
    if width > 0 {
        lemma_le_bytes_len(value / 256, (width - 1) as nat);
    }
}

/// A byte string spells a number below `256` to the power of its length.
pub proof fn lemma_le_value_bound(bytes: Seq<u8>)
    ensures
        le_value(bytes) < pow256(bytes.len()),
    decreases bytes.len(),
{
    if bytes.len() > 0 {
        lemma_le_value_bound(bytes.skip(1));
    }
}

/// Reading back what was written gives the number, if it fits the width.
pub proof fn lemma_le_value_of_bytes(value: nat, width: nat)
    requires
        value < pow256(width),
    ensures
        le_value(le_bytes(value, width)) == value,
    decreases width,
{
    if width > 0 {
        let rest = (width - 1) as nat;
        let tail = le_bytes(value / 256, rest);
        lemma_le_value_of_bytes(value / 256, rest);
        lemma_le_bytes_len(value / 256, rest);
        assert(le_bytes(value, width).skip(1) =~= tail);
        assert(le_bytes(value, width)[0] == (value % 256) as u8);
    }
}

/// Writing the number that a byte string spells gives the byte string.
pub proof fn lemma_le_bytes_of_value(bytes: Seq<u8>)
    ensures
        le_bytes(le_value(bytes), bytes.len()) == bytes,
    decreases bytes.len(),
{
    if bytes.len() > 0 {
        let tail = bytes.skip(1);
        lemma_le_bytes_of_value(tail);
        let v = le_value(bytes);
        assert(v % 256 == bytes[0] as nat);
        assert(v / 256 == le_value(tail));
        assert(le_bytes(v, bytes.len()) =~= bytes);
    }
}

/// A larger width holds at least as many values.
pub proof fn lemma_pow256_grows(narrow: nat, wide: nat)
    requires
        narrow <= wide,
    ensures
        pow256(narrow) <= pow256(wide),
        pow256(narrow) >= 1,
    decreases wide,
{
    if narrow < wide {
        lemma_pow256_grows(narrow, (wide - 1) as nat);
    } else if narrow > 0 {
        lemma_pow256_grows((narrow - 1) as nat, (narrow - 1) as nat);
    }
}

/// Appends the `width` low-order bytes of `value`, least significant first.
pub fn push_le(out: &mut Vec<u8>, value: u64, width: usize)
    ensures
        final(out)@ == old(out)@ + le_bytes(value as nat, width as nat),
{
    let mut rest: u64 = value;
    let mut written: usize = 0;
    while written < width
        invariant
            written <= width,
            out@ + le_bytes(rest as nat, (width - written) as nat) == old(out)@ + le_bytes(
                value as nat,
                width as nat,
            ),
        decreases width - written,
    {
        let ghost before = out@;
        let ghost tail = le_bytes((rest / 256) as nat, (width - written - 1) as nat);
        out.push((rest % 256) as u8);
        assert(out@ + tail =~= before + le_bytes(rest as nat, (width - written) as nat));
        rest = rest / 256;
        written = written + 1;
    }
    assert(le_bytes(rest as nat, 0) =~= Seq::<u8>::empty());
    assert(out@ + Seq::<u8>::empty() =~= out@);
}

/// Reads `width` bytes from `start` as a little-endian number.
pub fn read_le(data: &[u8], start: usize, width: usize) -> (value: u64)
    requires
        width <= 8,
        start + width <= data@.len(),
    ensures
        value as nat == le_value(data@.subrange(start as int, start + width)),
{
    let mut value: u64 = 0;
    let mut left: usize = width;
    let total = data.len();
    let ghost end = start + width;
    assert(data@.subrange(end, end).len() == 0);
    while left > 0
        invariant
            left <= width <= 8,
            end == start + width,
            end <= total == data@.len(),
            value as nat == le_value(data@.subrange(start + left, end)),
        decreases left,
    {
        let ghost upper = data@.subrange(start + left, end);
        left = left - 1;
        let ghost lower = data@.subrange(start + left, end);
        proof {
            lemma_le_value_bound(upper);
            lemma_pow256_values();
            lemma_pow256_grows(upper.len(), 7);
            assert(lower.skip(1) =~= upper);
            assert(lower[0] == data@[start + left]);
        }
        value = value * 256 + data[start + left] as u64;
    }
    value
}

} // verus!
