use vstd::arithmetic::div_mod::{
    lemma_div_basics_2, lemma_div_basics_4, lemma_div_basics_5, lemma_div_is_ordered_by_denominator,
    lemma_fundamental_div_mod, lemma_mod_multiples_basic, lemma_mod_pos_bound,
};
use vstd::prelude::*;

verus! {

#[derive(Clone, Copy, PartialEq, Eq, Structural, Debug)]
pub enum IntOp {
    Add,
    Sub,
    Mul,
    Div,
    Rem,
    Shl,
    Shr,
    Ushr,
    And,
    Or,
    Xor,
}

#[derive(Clone, Copy, PartialEq, Eq, Structural, Debug)]
pub enum Cond {
    Eq,
    Ne,
    Lt,
    Ge,
    Gt,
    Le,
}

pub open spec fn wrap32(x: int) -> i32 {
    if x % 0x1_0000_0000 > i32::MAX {
        (x % 0x1_0000_0000 - 0x1_0000_0000) as i32
    } else {
        (x % 0x1_0000_0000) as i32
    }
}

pub open spec fn wrap64(x: int) -> i64 {
    if x % 0x1_0000_0000_0000_0000 > i64::MAX {
        (x % 0x1_0000_0000_0000_0000 - 0x1_0000_0000_0000_0000) as i64
    } else {
        (x % 0x1_0000_0000_0000_0000) as i64
    }
}

/// Division that rounds toward zero.
pub open spec fn tdiv(x: int, d: int) -> int {
    if x == 0 {
        0
    } else if x > 0 && d > 0 {
        x / d
    } else if x < 0 && d < 0 {
        (-x) / (-d)
    } else if x < 0 {
        -((-x) / d)
    } else {
        -(x / (-d))
    }
}

/// The remainder of division that rounds toward zero: it takes the sign of the dividend.
pub open spec fn trem(x: int, d: int) -> int {
    if x == 0 {
        0
    } else if x > 0 && d > 0 {
        x % d
    } else if x < 0 && d < 0 {
        -((-x) % (-d))
    } else if x < 0 {
        -((-x) % d)
    } else {
        x % (-d)
    }
}

/// The int that an integer instruction computes from its two operands.
pub open spec fn int_op_value(op: IntOp, a: i32, b: i32) -> i32 {
    match op {
        IntOp::Add => wrap32(a + b),
        IntOp::Sub => wrap32(a - b),
        IntOp::Mul => wrap32(a * b),
        IntOp::Div => wrap32(tdiv(a as int, b as int)),
        IntOp::Rem => wrap32(trem(a as int, b as int)),
        IntOp::Shl => a << ((b & 0x1f) as u32),
        IntOp::Shr => a >> ((b & 0x1f) as u32),
        IntOp::Ushr => ((a as u32) >> ((b & 0x1f) as u32)) as i32,
        IntOp::And => a & b,
        IntOp::Or => a | b,
        IntOp::Xor => a ^ b,
    }
}

/// The long that a long instruction computes; shifts take an int amount.
pub open spec fn long_op_value(op: IntOp, a: i64, b: i64) -> i64 {
    match op {
        IntOp::Add => wrap64(a + b),
        IntOp::Sub => wrap64(a - b),
        IntOp::Mul => wrap64(a * b),
        IntOp::Div => wrap64(tdiv(a as int, b as int)),
        IntOp::Rem => wrap64(trem(a as int, b as int)),
        IntOp::Shl => a << ((b & 0x3f) as u32),
        IntOp::Shr => a >> ((b & 0x3f) as u32),
        IntOp::Ushr => ((a as u64) >> ((b & 0x3f) as u32)) as i64,
        IntOp::And => a & b,
        IntOp::Or => a | b,
        IntOp::Xor => a ^ b,
    }
}

pub open spec fn is_shift(op: IntOp) -> bool {
    op == IntOp::Shl || op == IntOp::Shr || op == IntOp::Ushr
}

pub open spec fn is_division(op: IntOp) -> bool {
    op == IntOp::Div || op == IntOp::Rem
}

pub open spec fn lcmp_value(a: i64, b: i64) -> i32 {
    if a > b {
        1
    } else if a == b {
        0
    } else {
        -1i32
    }
}

pub open spec fn f32_is_nan(b: u32) -> bool {
    (b & 0x7f80_0000) == 0x7f80_0000 && (b & 0x007f_ffff) != 0
}

pub open spec fn f64_is_nan(b: u64) -> bool {
    (b & 0x7ff0_0000_0000_0000) == 0x7ff0_0000_0000_0000 && (b & 0x000f_ffff_ffff_ffff) != 0
}

/// Where a float that is not NaN stands on the number line: both zeros at 0.
pub open spec fn f32_rank(b: u32) -> int {
    if b & 0x8000_0000 != 0 {
        -((b & 0x7fff_ffff) as int)
    } else {
        (b & 0x7fff_ffff) as int
    }
}

pub open spec fn f64_rank(b: u64) -> int {
    if b & 0x8000_0000_0000_0000 != 0 {
        -((b & 0x7fff_ffff_ffff_ffff) as int)
    } else {
        (b & 0x7fff_ffff_ffff_ffff) as int
    }
}

/// `fcmpg` (with `g`) and `fcmpl` on the bit patterns of two floats.
pub open spec fn fcmp_value(a: u32, b: u32, g: bool) -> i32 {
    if f32_is_nan(a) || f32_is_nan(b) {
        if g {
            1
        } else {
            -1i32
        }
    } else if f32_rank(a) > f32_rank(b) {
        1
    } else if f32_rank(a) == f32_rank(b) {
        0
    } else {
        -1i32
    }
}

/// `dcmpg` (with `g`) and `dcmpl` on the bit patterns of two doubles.
pub open spec fn dcmp_value(a: u64, b: u64, g: bool) -> i32 {
    if f64_is_nan(a) || f64_is_nan(b) {
        if g {
            1
        } else {
            -1i32
        }
    } else if f64_rank(a) > f64_rank(b) {
        1
    } else if f64_rank(a) == f64_rank(b) {
        0
    } else {
        -1i32
    }
}

pub open spec fn cond_holds(c: Cond, a: i32, b: i32) -> bool {
    match c {
        Cond::Eq => a == b,
        Cond::Ne => a != b,
        Cond::Lt => a < b,
        Cond::Ge => a >= b,
        Cond::Gt => a > b,
        Cond::Le => a <= b,
    }
}


proof fn lemma_wrap_in_range(x: int, m: int)
    requires
        m == 0x8000_0000 || m == 0x8000_0000_0000_0000,
        -m <= x < m,
    ensures
        m == 0x8000_0000 ==> wrap32(x) == x,
        m == 0x8000_0000_0000_0000 ==> wrap64(x) == x,
{
}

proof fn lemma_wrap64_add(a: i64, b: i64)
    ensures
        vstd::wrapping::i64_specs::wrapping_add(a, b) == wrap64(a + b),
{
    let m: int = 0x1_0000_0000_0000_0000;
    if a + b > i64::MAX {
        assert((a + b) % m == a + b);
    } else if a + b < i64::MIN {
        assert((a + b) % m == a + b + m);
    } else if a + b >= 0 {
        assert((a + b) % m == a + b);
    } else {
        assert((a + b) % m == a + b + m);
    }
}

proof fn lemma_wrap64_sub(a: i64, b: i64)
    ensures
        vstd::wrapping::i64_specs::wrapping_sub(a, b) == wrap64(a - b),
{
    let m: int = 0x1_0000_0000_0000_0000;
    if a - b > i64::MAX {
        assert((a - b) % m == a - b);
    } else if a - b < i64::MIN {
        assert((a - b) % m == a - b + m);
    } else if a - b >= 0 {
        assert((a - b) % m == a - b);
    } else {
        assert((a - b) % m == a - b + m);
    }
}

/// Truncating division stays in range but for the most negative value divided by -1.
proof fn lemma_tdiv_range(x: int, d: int, m: int)
    requires
        m > 1,
        -m <= x < m,
        -m <= d < m,
        d != 0,
        !(x == -m && d == -1),
    ensures
        -m <= tdiv(x, d) < m,
        -m < trem(x, d) < m,
{
    broadcast use lemma_div_basics_2, lemma_div_basics_4, lemma_div_basics_5;

    if x < 0 && d < 0 && d != -1 {
        lemma_div_is_ordered_by_denominator(-x, 2, -d);
    }
    if d > 0 {
        if x >= 0 {
            lemma_mod_pos_bound(x, d);
        } else {
            lemma_mod_pos_bound(-x, d);
        }
    } else {
        if x >= 0 {
            lemma_mod_pos_bound(x, -d);
        } else {
            lemma_mod_pos_bound(-x, -d);
        }
    }
}

proof fn lemma_shift_mask(b: i32)
    ensures
        ((b & 0x1f) as u32) < 32,
        ((b as i64 & 0x3f) as u32) < 64,
{
    assert(((b & 0x1f) as u32) < 32) by (bit_vector);
    assert(((b as i64 & 0x3f) as u32) < 64) by (bit_vector);
}

/// Computes what an int instruction pushes.
pub fn int_op(op: IntOp, a: i32, b: i32) -> (r: i32)
    requires
        is_division(op) ==> b != 0,
    ensures
        r == int_op_value(op, a, b),
{
    proof {
        lemma_shift_mask(b);
    }
    match op {
        IntOp::Add => a.wrapping_add(b),
        IntOp::Sub => a.wrapping_sub(b),
        IntOp::Mul => a.wrapping_mul(b),
        IntOp::Div => {
            if a == i32::MIN && b == -1 {
                i32::MIN
            } else {
                proof {
                    lemma_tdiv_range(a as int, b as int, 0x8000_0000);
                    lemma_wrap_in_range(tdiv(a as int, b as int), 0x8000_0000);
                }
                a.checked_div(b).unwrap()
            }
        },
        IntOp::Rem => {
            if a == i32::MIN && b == -1 {
                0
            } else {
                proof {
                    lemma_tdiv_range(a as int, b as int, 0x8000_0000);
                    lemma_wrap_in_range(trem(a as int, b as int), 0x8000_0000);
                }
                a.checked_rem(b).unwrap()
            }
        },
        IntOp::Shl => a << ((b & 0x1f) as u32),
        IntOp::Shr => a >> ((b & 0x1f) as u32),
        IntOp::Ushr => ((a as u32) >> ((b & 0x1f) as u32)) as i32,
        IntOp::And => a & b,
        IntOp::Or => a | b,
        IntOp::Xor => a ^ b,
    }
}

/// Computes what a long instruction pushes; a shift amount is an int widened to a long.
pub fn long_op(op: IntOp, a: i64, b: i64) -> (r: i64)
    requires
        is_division(op) ==> b != 0,
        is_shift(op) ==> i32::MIN <= b <= i32::MAX,
    ensures
        r == long_op_value(op, a, b),
{
    match op {
        IntOp::Add => {
            proof {
                lemma_wrap64_add(a, b);
            }
            a.wrapping_add(b)
        },
        IntOp::Sub => {
            proof {
                lemma_wrap64_sub(a, b);
            }
            a.wrapping_sub(b)
        },
        IntOp::Mul => a.wrapping_mul(b),
        IntOp::Div => {
            if a == i64::MIN && b == -1 {
                assert(0x8000_0000_0000_0000int / 1 == 0x8000_0000_0000_0000int);
                i64::MIN
            } else {
                proof {
                    lemma_tdiv_range(a as int, b as int, 0x8000_0000_0000_0000);
                    lemma_wrap_in_range(tdiv(a as int, b as int), 0x8000_0000_0000_0000);
                }
                a.checked_div(b).unwrap()
            }
        },
        IntOp::Rem => {
            if a == i64::MIN && b == -1 {
                assert(0x8000_0000_0000_0000int % 1 == 0);
                0
            } else {
                proof {
                    lemma_tdiv_range(a as int, b as int, 0x8000_0000_0000_0000);
                    lemma_wrap_in_range(trem(a as int, b as int), 0x8000_0000_0000_0000);
                }
                a.checked_rem(b).unwrap()
            }
        },
        IntOp::Shl => {
            proof {
                lemma_shift_mask(b as i32);
            }
            a << ((b & 0x3f) as u32)
        },
        IntOp::Shr => {
            proof {
                lemma_shift_mask(b as i32);
            }
            a >> ((b & 0x3f) as u32)
        },
        IntOp::Ushr => {
            proof {
                lemma_shift_mask(b as i32);
            }
            ((a as u64) >> ((b & 0x3f) as u32)) as i64
        },
        IntOp::And => a & b,
        IntOp::Or => a | b,
        IntOp::Xor => a ^ b,
    }
}

pub fn lcmp(a: i64, b: i64) -> (r: i32)
    ensures
        r == lcmp_value(a, b),
{
    if a > b {
        1
    } else if a == b {
        0
    } else {
        -1
    }
}

/// Compares two floats given as bit patterns; `g` decides the result when one is NaN.
pub fn fcmp_bits(a: u32, b: u32, g: bool) -> (r: i32)
    ensures
        r == fcmp_value(a, b, g),
{
    let a_nan = (a & 0x7f80_0000) == 0x7f80_0000 && (a & 0x007f_ffff) != 0;
    let b_nan = (b & 0x7f80_0000) == 0x7f80_0000 && (b & 0x007f_ffff) != 0;
    if a_nan || b_nan {
        return if g {
            1
        } else {
            -1
        };
    }
    let ra: i64 = if a & 0x8000_0000 != 0 {
        -((a & 0x7fff_ffff) as i64)
    } else {
        (a & 0x7fff_ffff) as i64
    };
    let rb: i64 = if b & 0x8000_0000 != 0 {
        -((b & 0x7fff_ffff) as i64)
    } else {
        (b & 0x7fff_ffff) as i64
    };
    if ra > rb {
        1
    } else if ra == rb {
        0
    } else {
        -1
    }
}

/// Compares two doubles given as bit patterns; `g` decides the result when one is NaN.
pub fn dcmp_bits(a: u64, b: u64, g: bool) -> (r: i32)
    ensures
        r == dcmp_value(a, b, g),
{
    let a_nan = (a & 0x7ff0_0000_0000_0000) == 0x7ff0_0000_0000_0000 && (a & 0x000f_ffff_ffff_ffff)
        != 0;
    let b_nan = (b & 0x7ff0_0000_0000_0000) == 0x7ff0_0000_0000_0000 && (b & 0x000f_ffff_ffff_ffff)
        != 0;
    if a_nan || b_nan {
        return if g {
            1
        } else {
            -1
        };
    }
    let ma = a & 0x7fff_ffff_ffff_ffff;
    let mb = b & 0x7fff_ffff_ffff_ffff;
    let na = a & 0x8000_0000_0000_0000 != 0;
    let nb = b & 0x8000_0000_0000_0000 != 0;
    // Compare sign and magnitude without leaving the range of u64.
    if !na && !nb {
        if ma > mb {
            1
        } else if ma == mb {
            0
        } else {
            -1
        }
    } else if na && nb {
        if ma < mb {
            1
        } else if ma == mb {
            0
        } else {
            -1
        }
    } else if !na {
        if ma == 0 && mb == 0 {
            0
        } else {
            1
        }
    } else {
        if ma == 0 && mb == 0 {
            0
        } else {
            -1
        }
    }
}

pub fn cond(c: Cond, a: i32, b: i32) -> (r: bool)
    ensures
        r == cond_holds(c, a, b),
{
    match c {
        Cond::Eq => a == b,
        Cond::Ne => a != b,
        Cond::Lt => a < b,
        Cond::Ge => a >= b,
        Cond::Gt => a > b,
        Cond::Le => a <= b,
    }
}


proof fn lemma_wrap_congruent(x: int)
    ensures
        (wrap32(x) - x) % 0x1_0000_0000 == 0,
        (wrap64(x) - x) % 0x1_0000_0000_0000_0000 == 0,
{
    let m: int = 0x1_0000_0000;
    lemma_fundamental_div_mod(x, m);
    lemma_mod_multiples_basic(-(x / m), m);
    lemma_mod_multiples_basic(-(x / m) - 1, m);
    assert((-(x / m)) * m == x % m - x) by (nonlinear_arith)
        requires
            x == m * (x / m) + x % m,
    ;
    assert((-(x / m) - 1) * m == x % m - m - x) by (nonlinear_arith)
        requires
            x == m * (x / m) + x % m,
    ;
    let w: int = 0x1_0000_0000_0000_0000;
    lemma_fundamental_div_mod(x, w);
    lemma_mod_multiples_basic(-(x / w), w);
    lemma_mod_multiples_basic(-(x / w) - 1, w);
    assert((-(x / w)) * w == x % w - x) by (nonlinear_arith)
        requires
            x == w * (x / w) + x % w,
    ;
    assert((-(x / w) - 1) * w == x % w - w - x) by (nonlinear_arith)
        requires
            x == w * (x / w) + x % w,
    ;
}

/// Integer addition, subtraction, multiplication and negation wrap: each result is the
/// exact one modulo 2^32 (int) or 2^64 (long).
pub proof fn lemma_arithmetic_wraps(a: i32, b: i32, c: i64, d: i64)
    ensures
        (int_op_value(IntOp::Add, a, b) - (a + b)) % 0x1_0000_0000 == 0,
        (int_op_value(IntOp::Sub, a, b) - (a - b)) % 0x1_0000_0000 == 0,
        (int_op_value(IntOp::Mul, a, b) - (a * b)) % 0x1_0000_0000 == 0,
        (int_op_value(IntOp::Sub, 0, a) - (-a)) % 0x1_0000_0000 == 0,
        (long_op_value(IntOp::Add, c, d) - (c + d)) % 0x1_0000_0000_0000_0000 == 0,
        (long_op_value(IntOp::Sub, c, d) - (c - d)) % 0x1_0000_0000_0000_0000 == 0,
        (long_op_value(IntOp::Mul, c, d) - (c * d)) % 0x1_0000_0000_0000_0000 == 0,
        (long_op_value(IntOp::Sub, 0, c) - (-c)) % 0x1_0000_0000_0000_0000 == 0,
{
    lemma_wrap_congruent(a + b);
    lemma_wrap_congruent(a - b);
    lemma_wrap_congruent(a * b);
    lemma_wrap_congruent(0 - a);
    lemma_wrap_congruent(c + d);
    lemma_wrap_congruent(c - d);
    lemma_wrap_congruent(c * d);
    lemma_wrap_congruent(0 - c);
}

/// Shift amounts are masked to their low five (int) or six (long) bits, so shifting by 33
/// is shifting by 1, and shifting a long by 65 is shifting it by 1.
pub proof fn lemma_shift_masked(v: i32, s: i32, w: i64)
    ensures
        int_op_value(IntOp::Shl, v, s) == int_op_value(IntOp::Shl, v, s & 0x1f),
        int_op_value(IntOp::Shr, v, s) == int_op_value(IntOp::Shr, v, s & 0x1f),
        int_op_value(IntOp::Ushr, v, s) == int_op_value(IntOp::Ushr, v, s & 0x1f),
        long_op_value(IntOp::Shl, w, s as i64) == long_op_value(IntOp::Shl, w, (s & 0x3f) as i64),
        long_op_value(IntOp::Shr, w, s as i64) == long_op_value(IntOp::Shr, w, (s & 0x3f) as i64),
        long_op_value(IntOp::Ushr, w, s as i64) == long_op_value(IntOp::Ushr, w, (s & 0x3f) as i64),
        int_op_value(IntOp::Shl, v, 33) == int_op_value(IntOp::Shl, v, 1),
        long_op_value(IntOp::Shl, w, 65) == long_op_value(IntOp::Shl, w, 1),
{
    assert((s & 0x1f) & 0x1f == s & 0x1f) by (bit_vector);
    assert(((s as i64) & 0x3f) == (((s & 0x3f) as i64) & 0x3f)) by (bit_vector);
    assert(33i32 & 0x1f == 1i32 & 0x1f) by (bit_vector);
    assert(65i64 & 0x3f == 1i64 & 0x3f) by (bit_vector);
}

/// `lcmp` yields -1, 0 or 1, with the sign of `a - b`.
pub proof fn lemma_lcmp_sign(a: i64, b: i64)
    ensures
        lcmp_value(a, b) == 1 <==> a - b > 0,
        lcmp_value(a, b) == 0 <==> a - b == 0,
        lcmp_value(a, b) == -1 <==> a - b < 0,
{
}

/// A NaN operand makes `fcmpg`/`dcmpg` yield 1 and `fcmpl`/`dcmpl` yield -1.
pub proof fn lemma_nan_compare(nan: u32, x: u32, dnan: u64, y: u64)
    requires
        f32_is_nan(nan),
        f64_is_nan(dnan),
    ensures
        fcmp_value(nan, x, true) == 1,
        fcmp_value(nan, x, false) == -1,
        fcmp_value(x, nan, true) == 1,
        fcmp_value(x, nan, false) == -1,
        dcmp_value(dnan, y, true) == 1,
        dcmp_value(dnan, y, false) == -1,
        dcmp_value(y, dnan, true) == 1,
        dcmp_value(y, dnan, false) == -1,
{
}

} // verus!
