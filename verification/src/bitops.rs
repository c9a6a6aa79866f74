use vstd::prelude::*;

verus! {

/// Masking can only lower a value.
pub broadcast proof fn lemma_u8_and_le(x: u8, m: u8)
    by (bit_vector)
    ensures
        #[trigger] (x & m) <= m,
{
}

/// Masking can only lower a value.
pub broadcast proof fn lemma_u16_and_le(x: u16, m: u16)
    by (bit_vector)
    ensures
        #[trigger] (x & m) <= m,
{
}

/// Masking can only lower a value.
pub broadcast proof fn lemma_usize_and_le(x: usize, m: usize)
    by (bit_vector)
    ensures
        #[trigger] (x & m) <= m,
{
}

/// Setting or clearing one one-hot bit leaves every other one-hot
/// bit alone.
pub proof fn lemma_onehot_update(s: u8, fm: u8, m: u8)
    by (bit_vector)
    requires
        m == 0x01 || m == 0x02 || m == 0x04 || m == 0x08 || m == 0x10 || m == 0x20 || m == 0x40
            || m == 0x80,
        fm == 0x01 || fm == 0x02 || fm == 0x04 || fm == 0x08 || fm == 0x10 || fm == 0x20 || fm
            == 0x40 || fm == 0x80,
    ensures
        (s | fm) & m == (if m == fm { m } else { s & m }),
        (s & !fm) & m == (if m == fm { 0u8 } else { s & m }),
        m != 0,
{
}

/// Masking can only lower a value.
pub broadcast proof fn lemma_u8_and_le_self(x: u8, m: u8)
    by (bit_vector)
    ensures
        #[trigger] (x & m) <= x,
{
}

/// Dropping the low bit and stepping up stays below an even bound.
pub proof fn lemma_even_pair_bound(b: u8, n: u16)
    by (bit_vector)
    requires
        (b as u16) < n,
        n % 2 == 0,
    ensures
        ((b & 0xfe) as u16) + 1 < n,
{
}

/// A whole slot fits when its index is in range.
pub proof fn lemma_slot_bound(k: int, unit: int, n: int)
    by (nonlinear_arith)
    requires
        0 <= k < n,
        unit > 0,
    ensures
        k * unit + unit <= n * unit,
{
}

/// A bank-relative offset stays inside the whole memory when the bank
/// index is in range.
pub proof fn lemma_bank_bound(sel: int, bank_size: int, n: int, off: int)
    by (nonlinear_arith)
    requires
        0 <= sel < n,
        0 <= off < bank_size,
    ensures
        0 <= sel * bank_size + off < n * bank_size,
{
}

} // verus!
