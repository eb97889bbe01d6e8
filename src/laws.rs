//! General properties of the instruction set, proved from the instructions' contracts.

use vstd::prelude::*;
use crate::alu8::{alu_step, incdec_step, AluOp};
use crate::bytes::{high_of, lemma_demote_promote, low_of, word_of};
use crate::cpu::{flag_pv, has_bit, lemma_pack_flags, CpuView, Register16};
use crate::exchange::{ld_block, ld_repeat_step, ld_run, ld_run_ok, BLOCK_LIMIT};
use crate::load::{pop_step, push_step, wide, Wide};
use crate::operand::{loc_value, source_value, target_loc, Source, Target};
use crate::rotate::{bit_mask, bit_number, bit_step};

verus! {

/// Demoting a promoted pair of bytes gives the pair back.
pub proof fn law_promote_demote(h: u8, l: u8)
    ensures
        high_of(word_of(h, l)) == h,
        low_of(word_of(h, l)) == l,
{
}

/// ADD A with an operand `v`: A becomes `(A + v) mod 256`; Z is set iff that is zero, S iff its
/// bit 7 is set, and C iff `A + v` exceeds 255.
pub proof fn law_add_flags(s: CpuView, src: Source)
    requires
        alu_step(s, AluOp::Add, src) is Ok,
    ensures
        ({
            let t = alu_step(s, AluOp::Add, src)->Ok_0;
            let v = source_value(s, src)->Ok_0;
            &&& t.a == (s.a + v) % 256
            &&& t.z() == ((s.a + v) % 256 == 0)
            &&& t.s() == (t.a >= 128)
            &&& t.cf() == (s.a + v > 255)
        }),
{
    let v = source_value(s, src)->Ok_0;
    let r = ((s.a + v) % 256) as u8;
    lemma_pack_flags(
        s.f,
        r >= 128,
        r == 0,
        s.a % 16 + v % 16 >= 16,
        crate::alu8::overflow_add(s.a, v, 0),
        false,
        s.a + v >= 256,
    );
}

/// INC sets PV iff the byte held 0x7F before; DEC sets PV iff it held 0x80.
pub proof fn law_incdec_overflow(s: CpuView, up: bool, t: Target, len: int)
    requires
        incdec_step(s, up, t, len) is Ok,
    ensures
        ({
            let v = loc_value(s, target_loc(s, t)->Ok_0);
            let after = incdec_step(s, up, t, len)->Ok_0;
            after.pv() == (if up { v == 0x7f } else { v == 0x80 })
        }),
{
    let v = loc_value(s, target_loc(s, t)->Ok_0);
    let r = if up { crate::alu8::add_result(v, 1, 0) } else { crate::alu8::sub_result(v, 1, 0) };
    if up {
        lemma_pack_flags(s.f, r >= 128, r == 0, crate::alu8::half_carry_add(v, 1, 0), v == 0x7f, false, s.cf());
    } else {
        lemma_pack_flags(s.f, r >= 128, r == 0, crate::alu8::half_borrow_sub(v, 1, 0), v == 0x80, true, s.cf());
    }
}

/// BIT b: Z is set iff the tested bit is 0, H is set and N is reset, whatever the bit and the
/// operand.
pub proof fn law_bit_test(s: CpuView, t: Target, k: int, len: int)
    requires
        bit_step(s, t, k, len) is Ok,
    ensures
        ({
            let v = loc_value(s, target_loc(s, t)->Ok_0);
            let after = bit_step(s, t, k, len)->Ok_0;
            &&& after.z() == !has_bit(v, bit_mask(bit_number(s, k)))
            &&& after.hf()
            &&& !after.n()
        }),
{
    let v = loc_value(s, target_loc(s, t)->Ok_0);
    let z = !has_bit(v, bit_mask(bit_number(s, k)));
    lemma_pack_flags(s.f, s.s(), z, true, s.pv(), false, s.cf());
}

/// PUSH of a register followed by POP of the same register gives the register its value back and
/// SP its value before the push.
pub proof fn law_push_pop(s: CpuView, w: Wide, len1: int, len2: int)
    requires
        w != Wide::Pair(Register16::sp),
        push_step(s, w, len1) is Ok,
    ensures
        pop_step(push_step(s, w, len1)->Ok_0, w, len2) is Ok,
        wide(pop_step(push_step(s, w, len1)->Ok_0, w, len2)->Ok_0, w) == wide(s, w),
        (pop_step(push_step(s, w, len1)->Ok_0, w, len2)->Ok_0).sp == s.sp,
{
    let v = wide(s, w);
    lemma_demote_promote(v);
    let t = push_step(s, w, len1)->Ok_0;
    let hi = (s.sp - 1) % 0x10000;
    let lo = (s.sp - 2) % 0x10000;
    assert(t.memory[lo] == low_of(v));
    assert(t.memory[hi] == high_of(v));
    assert((lo + 1) % 0x10000 == hi);
}

/// LDIR with BC = n from a source that does not overlap the destination: the n bytes from HL are
/// copied to DE, BC ends at 0 with PV reset, HL and DE advance by n, and no other byte changes.
pub proof fn law_ldir_copies(s: CpuView)
    requires
        s.len() <= 0x10000,
        s.bc() >= 1,
        s.hl() + s.bc() <= s.len(),
        s.de() + s.bc() <= s.len(),
        s.hl() + s.bc() <= s.de() || s.de() + s.bc() <= s.hl(),
    ensures
        ld_repeat_step(s, true) is Ok,
        ({
            let t = ld_repeat_step(s, true)->Ok_0;
            let n = s.bc() as int;
            &&& t.bc() == 0
            &&& !t.pv()
            &&& t.hl() == (s.hl() + n) % 0x10000
            &&& t.de() == (s.de() + n) % 0x10000
            &&& t.pc == s.next_pc(2)
            &&& t.len() == s.len()
            &&& forall|i: int| 0 <= i < n ==> #[trigger] t.memory[s.de() + i] == s.memory[s.hl() + i]
            &&& forall|j: int|
                0 <= j < s.len() && !(s.de() <= j < s.de() + n) ==> #[trigger] t.memory[j] == s.memory[j]
        }),
{
    lemma_ldir_run(s, BLOCK_LIMIT as nat);
}

#[verifier::rlimit(100)]
proof fn lemma_ldir_run(s: CpuView, k: nat)
    requires
        s.len() <= 0x10000,
        1 <= s.bc() <= k,
        s.hl() + s.bc() <= s.len(),
        s.de() + s.bc() <= s.len(),
        s.hl() + s.bc() <= s.de() || s.de() + s.bc() <= s.hl(),
    ensures
        ld_run_ok(s.len(), s.hl(), s.de(), s.bc(), true, k),
        ({
            let t = ld_run(s, true, k);
            let n = s.bc() as int;
            &&& t.bc() == 0
            &&& !flag_pv(t.f)
            &&& t.hl() == (s.hl() + n) % 0x10000
            &&& t.de() == (s.de() + n) % 0x10000
            &&& t.pc == s.pc
            &&& t.len() == s.len()
            &&& forall|i: int| 0 <= i < n ==> #[trigger] t.memory[s.de() + i] == s.memory[s.hl() + i]
            &&& forall|j: int|
                0 <= j < s.len() && !(s.de() <= j < s.de() + n) ==> #[trigger] t.memory[j] == s.memory[j]
        }),
    decreases k,
{
    let u = ld_block(s, true);
    crate::exchange::lemma_ld_block(s, true);
    crate::exchange::lemma_ld_run_ok_unfold(s.len(), s.hl(), s.de(), s.bc(), true, k);
    crate::exchange::lemma_ld_run_unfold_law(s, true, k);
    if s.bc() == 1 {
        assert(ld_run(s, true, k) == u);
    } else {
        lemma_ldir_run(u, (k - 1) as nat);
        let t = ld_run(u, true, (k - 1) as nat);
        let n = s.bc() as int;
        assert forall|i: int| 0 <= i < n implies #[trigger] t.memory[s.de() + i] == s.memory[s.hl() + i] by {
            if i > 0 {
                assert(t.memory[u.de() + (i - 1)] == u.memory[u.hl() + (i - 1)]);
            } else {
                assert(!(u.de() <= s.de() < u.de() + (n - 1)));
            }
        }
        assert forall|j: int|
            0 <= j < s.len() && !(s.de() <= j < s.de() + n) implies #[trigger] t.memory[j] == s.memory[j] by {
            assert(!(u.de() <= j < u.de() + (n - 1)));
        }
    }
}

} // verus!
