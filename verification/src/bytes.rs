use vstd::prelude::*;

verus! {

/// Unsigned little-endian value of the `n` bytes of `s` starting at `off`.
pub open spec fn le_value(s: Seq<u8>, off: int, n: nat) -> nat
    decreases n,
{
    if n == 0 {
        0
    } else {
        s[off] as nat + 256 * le_value(s, off + 1, (n - 1) as nat)
    }
}

/// `256^n`.
pub open spec fn byte_base(n: nat) -> nat
    decreases n,
{
    if n == 0 {
        1
    } else {
        256 * byte_base((n - 1) as nat)
    }
}

/// A little-endian value of `n` bytes is below `256^n`.
pub proof fn lemma_le_value_bound(s: Seq<u8>, off: int, n: nat)
    ensures
        le_value(s, off, n) < byte_base(n),
    decreases n,
{
    if n > 0 {
        lemma_le_value_bound(s, off + 1, (n - 1) as nat);
    }
}

/// `256^n` grows with `n`.
pub proof fn lemma_byte_base_monotone(a: nat, b: nat)
    requires
        a <= b,
    ensures
        byte_base(a) <= byte_base(b),
    decreases b,
{
    if a < b {
        lemma_byte_base_monotone(a, (b - 1) as nat);
    }
}

/// Concrete values of `256^n` for the widths the decoders use.
pub proof fn lemma_byte_base_values()
    ensures
        byte_base(1) == 0x100,
        byte_base(4) == 0x1_0000_0000,
        byte_base(8) == 0x1_0000_0000_0000_0000,
        byte_base(16) == 0x1_0000_0000_0000_0000_0000_0000_0000_0000int,
{
    reveal_with_fuel(byte_base, 17);
}

/// Reads the `n`-byte little-endian unsigned value at `off` (at most 16 bytes).
pub fn read_le(data: &[u8], off: usize, n: usize) -> (res: u128)
    requires
        n <= 16,
        off + n <= data@.len(),
    ensures
        res == le_value(data@, off as int, n as nat),
{
    let mut acc: u128 = 0;
    let mut k: usize = n;
    proof {
        lemma_byte_base_values();
    }
    while k > 0
        invariant
            k <= n,
            n <= 16,
            off + n <= data@.len(),
            off + n <= data.len(),
            acc == le_value(data@, (off + k) as int, (n - k) as nat),
            byte_base(16) == 0x1_0000_0000_0000_0000_0000_0000_0000_0000int,
        decreases k,
    {
        proof {
            lemma_le_value_bound(data@, (off + k) as int, (n - k) as nat);
            lemma_byte_base_monotone((n - k + 1) as nat, 16);
            assert(byte_base((n - k + 1) as nat) == 256 * byte_base((n - k) as nat));
        }
        let byte = data[off + (k - 1)];
        acc = acc * 256 + byte as u128;
        k = k - 1;
        proof {
            assert(le_value(data@, (off + k) as int, (n - k) as nat) == data@[(off + k) as int]
                as nat + 256 * le_value(data@, (off + k + 1) as int, (n - k - 1) as nat));
        }
    }
    acc
}

} // verus!
