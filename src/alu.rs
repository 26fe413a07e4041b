//! Pure arithmetic of the CPU: binary add and subtract with carry, and
//! the address arithmetic of indexed modes and branches.
use vstd::prelude::*;

verus! {

/// The two's-complement value of a byte.
pub open spec fn signed(x: u8) -> int {
    if x < 128 { x as int } else { x as int - 256 }
}

/// Binary-mode add with carry: the result byte, the carry out (the sum
/// exceeds 255) and the overflow (the signed sum leaves -128..=127).
pub open spec fn adc_spec(a: u8, m: u8, carry: bool) -> (u8, bool, bool) {
    let c = if carry { 1int } else { 0int };
    let s = a + m + c;
    let sv = signed(a) + signed(m) + c;
    ((s % 256) as u8, s > 255, sv < -128 || sv > 127)
}

/// Binary-mode subtract with borrow (carry clear means borrow): the
/// result byte, the carry out (no borrow was needed) and the overflow
/// (the signed difference leaves -128..=127).
pub open spec fn sbc_spec(a: u8, m: u8, carry: bool) -> (u8, bool, bool) {
    let b = if carry { 0int } else { 1int };
    let d = a - m - b;
    let sv = signed(a) - signed(m) - b;
    (((d + 256) % 256) as u8, d >= 0, sv < -128 || sv > 127)
}

/// Adds with carry as the CPU does, on a 9-bit sum.
pub fn add_with_carry(a: u8, m: u8, carry: bool) -> (r: (u8, bool, bool))
    ensures
        r == adc_spec(a, m, carry),
{
    let c: u16 = if carry { 1 } else { 0 };
    let a16 = a as u16;
    let m16 = m as u16;
    let temp: u16 = a16 + m16 + c;
    let v = (!(a16 ^ m16) & (a16 ^ temp)) & 0x0080 != 0;
    proof {
        assert(((!(a16 ^ m16) & (a16 ^ temp)) & 0x0080 != 0) == ((a16 & 0x80 != 0) == (m16 & 0x80 != 0) && (a16 & 0x80 != 0) != (temp & 0x80 != 0)))
            by (bit_vector);
        assert((a16 & 0x80 != 0) == (a16 >= 128)) by (bit_vector)
            requires
                a16 < 256,
        ;
        assert((m16 & 0x80 != 0) == (m16 >= 128)) by (bit_vector)
            requires
                m16 < 256,
        ;
        assert((temp & 0x80 != 0) == (temp % 256 >= 128)) by (bit_vector);
        assert(temp & 0x00FF == temp % 256) by (bit_vector);
        assert(temp % 256 == if temp >= 256 { temp - 256 } else { temp as int });
    }
    ((temp & 0x00FF) as u8, temp > 255, v)
}

/// Subtracts with borrow as the CPU does: adds the one's complement of
/// the operand.
pub fn subtract_with_carry(a: u8, m: u8, carry: bool) -> (r: (u8, bool, bool))
    ensures
        r == sbc_spec(a, m, carry),
{
    proof {
        lemma_sbc_is_adc_of_complement(a, m, carry);
    }
    add_with_carry(a, m ^ 0xFF, carry)
}

/// Subtraction is addition of the one's complement: for every pair of
/// bytes and carry in, `sbc_spec` agrees with `adc_spec` on the inverted
/// operand in result, carry and overflow.
pub proof fn lemma_sbc_is_adc_of_complement(a: u8, m: u8, carry: bool)
    ensures
        sbc_spec(a, m, carry) == adc_spec(a, m ^ 0xFF, carry),
{
    assert(m ^ 0xFF == 255 - m) by (bit_vector);
}

/// The two ways of reading overflow agree: the signed sum leaves the byte
/// range exactly when both operands have the same sign and the result's
/// sign differs from it.
pub proof fn lemma_overflow_by_signs(a: u8, m: u8, carry: bool)
    ensures
        adc_spec(a, m, carry).2 == ((a >= 128) == (m >= 128) && (a >= 128) != (adc_spec(a, m, carry).0 >= 128)),
{
}

/// An indexed address: `hi`:`lo` plus `idx`, and 1 where the high byte
/// changed (a page was crossed), else 0.
pub open spec fn indexed_spec(lo: u8, hi: u8, idx: u8) -> (u16, u8) {
    let base = (hi as u16) * 256 + lo;
    let addr = ((base + idx) % 65536) as u16;
    (addr, if addr / 256 != hi as u16 { 1u8 } else { 0u8 })
}

/// Computes an indexed address and whether indexing crossed a page.
pub fn index_address(lo: u8, hi: u8, idx: u8) -> (r: (u16, u8))
    ensures
        r == indexed_spec(lo, hi, idx),
{
    let base: u16 = ((hi as u16) << 8u16) | (lo as u16);
    let addr: u16 = base.wrapping_add(idx as u16);
    proof {
        let h = hi as u16;
        let l = lo as u16;
        assert((h << 8u16) | l == h * 256 + l) by (bit_vector)
            requires
                h < 256,
                l < 256,
        ;
        assert(addr & 0xFF00 == (addr / 256) * 256) by (bit_vector);
        assert(h << 8u16 == h * 256) by (bit_vector)
            requires
                h < 256,
        ;
    }
    (addr, if (addr & 0xFF00) != ((hi as u16) << 8u16) { 1 } else { 0 })
}

/// Indexing adds a cycle exactly when the low byte plus the index carries
/// into the high byte, that is, when it crosses a 256-byte page.
pub proof fn lemma_index_crossing(lo: u8, hi: u8, idx: u8)
    ensures
        (indexed_spec(lo, hi, idx).1 == 1) == (lo + idx > 255),
{
}

/// A taken branch from `pc` by the sign-extended offset `rel`: the
/// target, and the extra cycles (one, plus one more when the target lies
/// on another page).
pub open spec fn branch_spec(pc: u16, rel: u16) -> (u16, u8) {
    let target = ((pc + rel) % 65536) as u16;
    (target, if target / 256 != pc / 256 { 2u8 } else { 1u8 })
}

/// A taken branch costs one cycle more than the table gives, and one
/// more again exactly when its target lies on another 256-byte page than
/// the address after the branch.
pub proof fn lemma_branch_cycles(pc: u16, rel: u16)
    ensures
        branch_spec(pc, rel).1 == 1 + (if branch_spec(pc, rel).0 / 256 != pc / 256 { 1int } else { 0int }),
{
}

/// Computes a taken branch's target and its extra cycles.
pub fn branch_target(pc: u16, rel: u16) -> (r: (u16, u8))
    ensures
        r == branch_spec(pc, rel),
{
    let target = rel.wrapping_add(pc);
    proof {
        assert(target & 0xFF00 == (target / 256) * 256) by (bit_vector);
        assert(pc & 0xFF00 == (pc / 256) * 256) by (bit_vector);
    }
    (target, if (target & 0xFF00) != (pc & 0xFF00) { 2 } else { 1 })
}

} // verus!
