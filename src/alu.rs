//! Integer operations of RV64IM, 64-bit and word-width.
use vstd::prelude::*;
use crate::fields::{sign_extend, signed_field, to_u64};
use crate::insts::Inst64;

verus! {

pub open spec fn add64(a: u64, b: u64) -> u64 {
    ((a + b) % 0x1_0000_0000_0000_0000) as u64
}

pub open spec fn sub64(a: u64, b: u64) -> u64 {
    ((a - b + 0x1_0000_0000_0000_0000) % 0x1_0000_0000_0000_0000) as u64
}

pub open spec fn mul64(a: u64, b: u64) -> u64 {
    ((a * b) % 0x1_0000_0000_0000_0000) as u64
}

/// The signed value of a 64-bit pattern.
pub open spec fn sval(a: u64) -> int {
    signed_field(a as int, 0x8000_0000_0000_0000)
}

/// The low 32 bits.
pub open spec fn lo32(a: u64) -> u32 {
    (a % 0x1_0000_0000) as u32
}

/// The signed value of a 32-bit pattern.
pub open spec fn sval32(x: u32) -> int {
    signed_field(x as int, 0x8000_0000)
}

/// A 32-bit pattern sign-extended to 64 bits.
pub open spec fn sext32(x: u32) -> u64 {
    to_u64(sval32(x))
}

pub open spec fn abs(x: int) -> int {
    if x < 0 { -x } else { x }
}

/// Division rounding toward zero.
pub open spec fn trunc_div(x: int, y: int) -> int {
    let q = abs(x) / abs(y);
    if (x < 0) != (y < 0) { -q } else { q }
}

/// The remainder of `trunc_div`; it takes the sign of the dividend.
pub open spec fn trunc_rem(x: int, y: int) -> int {
    let r = abs(x) % abs(y);
    if x < 0 { -r } else { r }
}

/// Arithmetic right shift of a 64-bit pattern.
pub open spec fn sra64(a: u64, s: u64) -> u64 {
    if a >= 0x8000_0000_0000_0000 { !((!a) >> s) } else { a >> s }
}

/// Arithmetic right shift of a 32-bit pattern.
pub open spec fn sra32(x: u32, s: u32) -> u32 {
    if x >= 0x8000_0000 { !((!x) >> s) } else { x >> s }
}

/// RV64 `div`: division by zero gives all ones; `MIN / -1` gives `MIN`.
pub open spec fn div_spec(a: u64, b: u64) -> u64 {
    if b == 0 { 0xffff_ffff_ffff_ffff } else { to_u64(trunc_div(sval(a), sval(b)) % 0x1_0000_0000_0000_0000) }
}

/// RV64 `rem`: remainder by zero gives the dividend; `MIN % -1` gives 0.
pub open spec fn rem_spec(a: u64, b: u64) -> u64 {
    if b == 0 { a } else { to_u64(trunc_rem(sval(a), sval(b))) }
}

pub open spec fn divu_spec(a: u64, b: u64) -> u64 {
    if b == 0 { 0xffff_ffff_ffff_ffff } else { a / b }
}

pub open spec fn remu_spec(a: u64, b: u64) -> u64 {
    if b == 0 { a } else { a % b }
}

pub open spec fn divw_spec(a: u64, b: u64) -> u64 {
    if lo32(b) == 0 {
        0xffff_ffff_ffff_ffff
    } else {
        sext32((trunc_div(sval32(lo32(a)), sval32(lo32(b))) % 0x1_0000_0000) as u32)
    }
}

pub open spec fn remw_spec(a: u64, b: u64) -> u64 {
    if lo32(b) == 0 {
        sext32(lo32(a))
    } else {
        sext32((trunc_rem(sval32(lo32(a)), sval32(lo32(b))) % 0x1_0000_0000) as u32)
    }
}

pub open spec fn divuw_spec(a: u64, b: u64) -> u64 {
    if lo32(b) == 0 { 0xffff_ffff_ffff_ffff } else { sext32(lo32(a) / lo32(b)) }
}

pub open spec fn remuw_spec(a: u64, b: u64) -> u64 {
    if lo32(b) == 0 { sext32(lo32(a)) } else { sext32(lo32(a) % lo32(b)) }
}

/// High 64 bits of the 128-bit product, both operands unsigned.
pub open spec fn mulhu_spec(a: u64, b: u64) -> u64 {
    ((a * b) / 0x1_0000_0000_0000_0000) as u64
}

proof fn lemma_lo32(a: u64)
    ensures
        a & 0xffff_ffff == a % 0x1_0000_0000,
{
    assert(a & 0xffff_ffff == a % 0x1_0000_0000) by (bit_vector);
}

pub fn add64_exec(a: u64, b: u64) -> (r: u64)
    ensures
        r == add64(a, b),
{
    a.wrapping_add(b)
}

pub fn sub64_exec(a: u64, b: u64) -> (r: u64)
    ensures
        r == sub64(a, b),
{
    a.wrapping_sub(b)
}

pub fn mul64_exec(a: u64, b: u64) -> (r: u64)
    ensures
        r == mul64(a, b),
{
    a.wrapping_mul(b)
}

fn lo32_exec(a: u64) -> (r: u32)
    ensures
        r == lo32(a),
{
    proof {
        lemma_lo32(a);
    }
    (a & 0xffff_ffff) as u32
}

pub fn sext32_exec(x: u32) -> (r: u64)
    ensures
        r == sext32(x),
{
    sign_extend(x, 0x8000_0000)
}

pub fn sra64_exec(a: u64, s: u64) -> (r: u64)
    requires
        s < 64,
    ensures
        r == sra64(a, s),
{
    if a >= 0x8000_0000_0000_0000 { !((!a) >> s) } else { a >> s }
}

pub fn sra32_exec(x: u32, s: u32) -> (r: u32)
    requires
        s < 32,
    ensures
        r == sra32(x, s),
{
    if x >= 0x8000_0000 { !((!x) >> s) } else { x >> s }
}

/// Magnitude and sign of a signed 64-bit pattern.
fn magnitude(a: u64) -> (r: (u64, bool))
    ensures
        r.0 == abs(sval(a)),
        r.1 == (sval(a) < 0),
{
    if a >= 0x8000_0000_0000_0000 {
        (0u64.wrapping_sub(a), true)
    } else {
        (a, false)
    }
}

/// `q` negated or not, as a 64-bit pattern.
fn signed_result(q: u64, neg: bool) -> (r: u64)
    ensures
        r == to_u64(if neg { -q } else { q as int } % 0x1_0000_0000_0000_0000),
{
    if neg && q != 0 {
        0u64.wrapping_sub(q)
    } else {
        q
    }
}

pub fn div_exec(a: u64, b: u64) -> (r: u64)
    ensures
        r == div_spec(a, b),
{
    if b == 0 {
        return 0xffff_ffff_ffff_ffff;
    }
    let (ua, na) = magnitude(a);
    let (ub, nb) = magnitude(b);
    signed_result(ua / ub, na != nb)
}

pub fn rem_exec(a: u64, b: u64) -> (r: u64)
    ensures
        r == rem_spec(a, b),
{
    if b == 0 {
        return a;
    }
    let (ua, na) = magnitude(a);
    let (ub, _) = magnitude(b);
    signed_result(ua % ub, na)
}

/// High 64 bits of the 128-bit product of two signed operands.
pub open spec fn mulh_spec(a: u64, b: u64) -> u64 {
    to_u64((sval(a) * sval(b)) / 0x1_0000_0000_0000_0000)
}

/// High 64 bits of the product of a signed and an unsigned operand.
pub open spec fn mulhsu_spec(a: u64, b: u64) -> u64 {
    to_u64((sval(a) * b) / 0x1_0000_0000_0000_0000)
}

proof fn lemma_floor_of_negative(m: int, d: int)
    requires
        m >= 0,
        d > 0,
    ensures
        (-m) / d == if m % d == 0 { -(m / d) } else { -(m / d) - 1 },
{
    let q = m / d;
    let r = m % d;
    assert(m == d * q + r && 0 <= r < d) by {
        vstd::arithmetic::div_mod::lemma_fundamental_div_mod(m, d);
    }
    let q2 = if r == 0 { -q } else { -q - 1 };
    let r2 = if r == 0 { 0 } else { d - r };
    assert(-m == d * q2 + r2) by (nonlinear_arith)
        requires
            m == d * q + r,
            q2 == if r == 0 { -q } else { -q - 1 },
            r2 == if r == 0 { 0 } else { d - r },
    ;
    vstd::arithmetic::div_mod::lemma_fundamental_div_mod_converse(-m, d, q2, r2);
}

proof fn lemma_shr64_is_div(p: u128)
    ensures
        p >> 64u128 == p / 0x1_0000_0000_0000_0000,
{
    assert(p >> 64u128 == p / 0x1_0000_0000_0000_0000) by (bit_vector);
}

/// The 64-bit pattern of `floor(s * m / 2^64)` for a magnitude product `m`
/// with sign `neg`.
fn high_of_signed_product(m: u128, neg: bool) -> (r: u64)
    requires
        m <= 0x8000_0000_0000_0000_0000_0000_0000_0000,
    ensures
        r == to_u64((if neg { -m } else { m as int }) / 0x1_0000_0000_0000_0000),
{
    proof {
        lemma_shr64_is_div(m);
        lemma_floor_of_negative(m as int, 0x1_0000_0000_0000_0000);
    }
    let hi = (m >> 64u128) as u64;
    if !neg {
        hi
    } else if m & 0xffff_ffff_ffff_ffff == 0 {
        proof {
            assert(m & 0xffff_ffff_ffff_ffff == m % 0x1_0000_0000_0000_0000) by (bit_vector);
        }
        0u64.wrapping_sub(hi)
    } else {
        proof {
            assert(m & 0xffff_ffff_ffff_ffff == m % 0x1_0000_0000_0000_0000) by (bit_vector);
        }
        0u64.wrapping_sub(hi).wrapping_sub(1)
    }
}

pub fn mulhu_exec(a: u64, b: u64) -> (r: u64)
    ensures
        r == mulhu_spec(a, b),
{
    assert((a as int) * (b as int) <= 0xffff_ffff_ffff_ffff * 0xffff_ffff_ffff_ffff)
        by (nonlinear_arith);
    let p = (a as u128) * (b as u128);
    proof {
        lemma_shr64_is_div(p);
    }
    (p >> 64u128) as u64
}

pub fn mulh_exec(a: u64, b: u64) -> (r: u64)
    ensures
        r == mulh_spec(a, b),
{
    let (ua, na) = magnitude(a);
    let (ub, nb) = magnitude(b);
    assert((ua as int) * (ub as int) <= 0x8000_0000_0000_0000 * 0x8000_0000_0000_0000)
        by (nonlinear_arith)
        requires
            ua <= 0x8000_0000_0000_0000,
            ub <= 0x8000_0000_0000_0000,
    ;
    let m = (ua as u128) * (ub as u128);
    assert(sval(a) * sval(b) == if na != nb { -(m as int) } else { m as int }) by (nonlinear_arith)
        requires
            ua == abs(sval(a)),
            ub == abs(sval(b)),
            na == (sval(a) < 0),
            nb == (sval(b) < 0),
            m == ua * ub,
    ;
    high_of_signed_product(m, na != nb)
}

pub fn mulhsu_exec(a: u64, b: u64) -> (r: u64)
    ensures
        r == mulhsu_spec(a, b),
{
    let (ua, na) = magnitude(a);
    assert((ua as int) * (b as int) <= 0x8000_0000_0000_0000 * 0xffff_ffff_ffff_ffff)
        by (nonlinear_arith)
        requires
            ua <= 0x8000_0000_0000_0000,
    ;
    let m = (ua as u128) * (b as u128);
    assert(sval(a) * b == if na { -(m as int) } else { m as int }) by (nonlinear_arith)
        requires
            ua == abs(sval(a)),
            na == (sval(a) < 0),
            m == ua * b,
    ;
    high_of_signed_product(m, na)
}

/// The value the ALU produces for `op` at `pc` on operands `a` (first source)
/// and `b` (second source or immediate). Loads and stores produce their
/// address, jumps their link address `pc + 4`, CSR accesses zero.
pub open spec fn alu_spec(op: Inst64, pc: u64, a: u64, b: u64) -> u64 {
    match op {
        Inst64::Add | Inst64::Addi | Inst64::Lb | Inst64::Lh | Inst64::Lw | Inst64::Ld
        | Inst64::Lbu | Inst64::Lhu | Inst64::Lwu | Inst64::Sb | Inst64::Sh | Inst64::Sw
        | Inst64::Sd => add64(a, b),
        Inst64::Sub => sub64(a, b),
        Inst64::Sll | Inst64::Slli => a << (b & 63),
        Inst64::Slt | Inst64::Slti => if sval(a) < sval(b) { 1 } else { 0 },
        Inst64::Sltu | Inst64::Sltiu => if a < b { 1 } else { 0 },
        Inst64::Xor | Inst64::Xori => a ^ b,
        Inst64::Or | Inst64::Ori => a | b,
        Inst64::And | Inst64::Andi => a & b,
        Inst64::Srl | Inst64::Srli => a >> (b & 63),
        Inst64::Sra | Inst64::Srai => sra64(a, b & 63),
        Inst64::Mul => mul64(a, b),
        Inst64::Mulh => mulh_spec(a, b),
        Inst64::Mulhsu => mulhsu_spec(a, b),
        Inst64::Mulhu => mulhu_spec(a, b),
        Inst64::Div => div_spec(a, b),
        Inst64::Divu => divu_spec(a, b),
        Inst64::Rem => rem_spec(a, b),
        Inst64::Remu => remu_spec(a, b),
        Inst64::Addw | Inst64::Addiw => sext32(lo32(add64(a, b))),
        Inst64::Subw => sext32(lo32(sub64(a, b))),
        Inst64::Mulw => sext32(lo32(mul64(a, b))),
        Inst64::Sllw | Inst64::Slliw => sext32(lo32(a << (b & 31))),
        Inst64::Srlw | Inst64::Srliw => sext32(lo32(a) >> lo32(b & 31)),
        Inst64::Sraw | Inst64::Sraiw => sext32(sra32(lo32(a), lo32(b & 31))),
        Inst64::Divw => divw_spec(a, b),
        Inst64::Divuw => divuw_spec(a, b),
        Inst64::Remw => remw_spec(a, b),
        Inst64::Remuw => remuw_spec(a, b),
        Inst64::Lui => b,
        Inst64::Auipc => add64(pc, b),
        Inst64::Jal | Inst64::Jalr => add64(pc, 4),
        _ => 0,
    }
}

/// Whether a branch or jump `op` redirects fetch, on operands `a` and `b`.
pub open spec fn taken_spec(op: Inst64, a: u64, b: u64) -> bool {
    match op {
        Inst64::Beq => a == b,
        Inst64::Bne => a != b,
        Inst64::Blt => sval(a) < sval(b),
        Inst64::Bge => sval(a) >= sval(b),
        Inst64::Bltu => a < b,
        Inst64::Bgeu => a >= b,
        Inst64::Jal | Inst64::Jalr => true,
        _ => false,
    }
}

/// Where a taken branch or jump goes: `pc + imm`, or `(a + imm) & !1` for `jalr`.
pub open spec fn target_spec(op: Inst64, pc: u64, a: u64, imm: u64) -> u64 {
    if op == Inst64::Jalr { add64(a, imm) & !1u64 } else { add64(pc, imm) }
}

fn signed_less(a: u64, b: u64) -> (r: bool)
    ensures
        r == (sval(a) < sval(b)),
{
    let na = a >= 0x8000_0000_0000_0000;
    let nb = b >= 0x8000_0000_0000_0000;
    if na != nb { na } else { a < b }
}

fn divw_exec(a: u64, b: u64) -> (r: u64)
    ensures
        r == divw_spec(a, b),
{
    let x = lo32_exec(a);
    let y = lo32_exec(b);
    if y == 0 {
        return 0xffff_ffff_ffff_ffff;
    }
    let q = div_exec(sext32_exec(x), sext32_exec(y));
    proof {
        assert(sval(sext32(x)) == sval32(x));
        assert(sval(sext32(y)) == sval32(y));
    }
    let w = lo32_exec(q);
    sext32_exec(w)
}

fn remw_exec(a: u64, b: u64) -> (r: u64)
    ensures
        r == remw_spec(a, b),
{
    let x = lo32_exec(a);
    let y = lo32_exec(b);
    if y == 0 {
        return sext32_exec(x);
    }
    let q = rem_exec(sext32_exec(x), sext32_exec(y));
    proof {
        assert(sval(sext32(x)) == sval32(x));
        assert(sval(sext32(y)) == sval32(y));
    }
    let w = lo32_exec(q);
    sext32_exec(w)
}

pub fn alu(op: Inst64, pc: u64, a: u64, b: u64) -> (r: u64)
    ensures
        r == alu_spec(op, pc, a, b),
{
    assert(b & 63 < 64) by (bit_vector);
    assert(b & 31 < 32) by (bit_vector);
    match op {
        Inst64::Add | Inst64::Addi | Inst64::Lb | Inst64::Lh | Inst64::Lw | Inst64::Ld
        | Inst64::Lbu | Inst64::Lhu | Inst64::Lwu | Inst64::Sb | Inst64::Sh | Inst64::Sw
        | Inst64::Sd => add64_exec(a, b),
        Inst64::Sub => sub64_exec(a, b),
        Inst64::Sll | Inst64::Slli => a << (b & 63),
        Inst64::Slt | Inst64::Slti => if signed_less(a, b) { 1 } else { 0 },
        Inst64::Sltu | Inst64::Sltiu => if a < b { 1 } else { 0 },
        Inst64::Xor | Inst64::Xori => a ^ b,
        Inst64::Or | Inst64::Ori => a | b,
        Inst64::And | Inst64::Andi => a & b,
        Inst64::Srl | Inst64::Srli => a >> (b & 63),
        Inst64::Sra | Inst64::Srai => sra64_exec(a, b & 63),
        Inst64::Mul => mul64_exec(a, b),
        Inst64::Mulh => mulh_exec(a, b),
        Inst64::Mulhsu => mulhsu_exec(a, b),
        Inst64::Mulhu => mulhu_exec(a, b),
        Inst64::Div => div_exec(a, b),
        Inst64::Divu => if b == 0 { 0xffff_ffff_ffff_ffff } else { a / b },
        Inst64::Rem => rem_exec(a, b),
        Inst64::Remu => if b == 0 { a } else { a % b },
        Inst64::Addw | Inst64::Addiw => sext32_exec(lo32_exec(add64_exec(a, b))),
        Inst64::Subw => sext32_exec(lo32_exec(sub64_exec(a, b))),
        Inst64::Mulw => sext32_exec(lo32_exec(mul64_exec(a, b))),
        Inst64::Sllw | Inst64::Slliw => sext32_exec(lo32_exec(a << (b & 31))),
        Inst64::Srlw | Inst64::Srliw => {
            let s = lo32_exec(b & 31);
            proof {
                lemma_lo32(b & 31);
            }
            sext32_exec(lo32_exec(a) >> s)
        },
        Inst64::Sraw | Inst64::Sraiw => {
            let s = lo32_exec(b & 31);
            sext32_exec(sra32_exec(lo32_exec(a), s))
        },
        Inst64::Divw => divw_exec(a, b),
        Inst64::Divuw => {
            let x = lo32_exec(a);
            let y = lo32_exec(b);
            if y == 0 { 0xffff_ffff_ffff_ffff } else { sext32_exec(x / y) }
        },
        Inst64::Remw => remw_exec(a, b),
        Inst64::Remuw => {
            let x = lo32_exec(a);
            let y = lo32_exec(b);
            if y == 0 { sext32_exec(x) } else { sext32_exec(x % y) }
        },
        Inst64::Lui => b,
        Inst64::Auipc => add64_exec(pc, b),
        Inst64::Jal | Inst64::Jalr => add64_exec(pc, 4),
        _ => 0,
    }
}

pub fn branch_taken(op: Inst64, a: u64, b: u64) -> (r: bool)
    ensures
        r == taken_spec(op, a, b),
{
    match op {
        Inst64::Beq => a == b,
        Inst64::Bne => a != b,
        Inst64::Blt => signed_less(a, b),
        Inst64::Bge => !signed_less(a, b),
        Inst64::Bltu => a < b,
        Inst64::Bgeu => a >= b,
        Inst64::Jal | Inst64::Jalr => true,
        _ => false,
    }
}

pub fn branch_target(op: Inst64, pc: u64, a: u64, imm: u64) -> (r: u64)
    ensures
        r == target_spec(op, pc, a, imm),
{
    if op == Inst64::Jalr { add64_exec(a, imm) & !1u64 } else { add64_exec(pc, imm) }
}

} // verus!
