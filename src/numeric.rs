use vstd::prelude::*;

use crate::math_op::MathOp;
use crate::value::Value;

verus! {

/// The fourteen numeric sub-types.
#[derive(Clone, Copy, Debug, PartialEq, Eq, Structural)]
pub enum NumericType {
    UInt8,
    UInt16,
    UInt32,
    UInt64,
    UInt128,
    Int8,
    Int16,
    Int32,
    Int64,
    Int128,
    Float32,
    Float64,
    USize,
    ISize,
}

impl NumericType {
    pub open spec fn is_float(self) -> bool {
        self == NumericType::Float32 || self == NumericType::Float64
    }

    pub open spec fn is_signed(self) -> bool {
        match self {
            NumericType::Int8 | NumericType::Int16 | NumericType::Int32 | NumericType::Int64
            | NumericType::Int128 | NumericType::ISize => true,
            _ => false,
        }
    }

    pub open spec fn is_unsigned(self) -> bool {
        !self.is_float() && !self.is_signed()
    }

    /// Smallest value of an integer sub-type.
    pub open spec fn min_value(self) -> int {
        match self {
            NumericType::Int8 => i8::MIN as int,
            NumericType::Int16 => i16::MIN as int,
            NumericType::Int32 => i32::MIN as int,
            NumericType::Int64 => i64::MIN as int,
            NumericType::Int128 => i128::MIN as int,
            NumericType::ISize => isize::MIN as int,
            _ => 0,
        }
    }

    /// Largest value of an integer sub-type.
    pub open spec fn max_value(self) -> int {
        match self {
            NumericType::UInt8 => u8::MAX as int,
            NumericType::UInt16 => u16::MAX as int,
            NumericType::UInt32 => u32::MAX as int,
            NumericType::UInt64 => u64::MAX as int,
            NumericType::UInt128 => u128::MAX as int,
            NumericType::Int8 => i8::MAX as int,
            NumericType::Int16 => i16::MAX as int,
            NumericType::Int32 => i32::MAX as int,
            NumericType::Int64 => i64::MAX as int,
            NumericType::Int128 => i128::MAX as int,
            NumericType::USize => usize::MAX as int,
            NumericType::ISize => isize::MAX as int,
            _ => 0,
        }
    }

    /// Whether an integer sub-type can represent `v` exactly.
    pub open spec fn holds(self, v: int) -> bool {
        self.min_value() <= v <= self.max_value()
    }

    /// `v` saturated into the range of an integer sub-type.
    pub open spec fn saturate(self, v: int) -> int {
        if v < self.min_value() {
            self.min_value()
        } else if v > self.max_value() {
            self.max_value()
        } else {
            v
        }
    }

    pub fn signed(&self) -> (r: bool)
        ensures
            r == self.is_signed(),
    {
        match self {
            NumericType::Int8 | NumericType::Int16 | NumericType::Int32 | NumericType::Int64
            | NumericType::Int128 | NumericType::ISize => true,
            _ => false,
        }
    }
}

/// A numeric value tagged with its sub-type.
///
/// Floating-point values are carried as their IEEE-754 bit patterns; their
/// arithmetic is supplied by a [`FloatUnit`]. The derived equality compares
/// sub-types and representations.
#[derive(Clone, Copy, Debug, PartialEq, Eq, Structural)]
pub enum Numeric {
    UInt8(u8),
    UInt16(u16),
    UInt32(u32),
    UInt64(u64),
    UInt128(u128),
    Int8(i8),
    Int16(i16),
    Int32(i32),
    Int64(i64),
    Int128(i128),
    Float32(u32),
    Float64(u64),
    USize(usize),
    ISize(isize),
}

/// Floating-point arithmetic on bit patterns, supplied by the embedder.
///
/// Each method follows the host's native `f32` / `f64` semantics; conversions
/// follow Rust's `as` (saturating float-to-integer, NaN to zero, rounding
/// integer-to-float).
pub trait FloatUnit {
    /// `a op b` for `Add`, `Sub`, `Mul` or `Div` on two `f32`.
    fn f32_arith(&self, op: MathOp, a: u32, b: u32) -> u32;

    /// `a op b` for `Add`, `Sub`, `Mul` or `Div` on two `f64`.
    fn f64_arith(&self, op: MathOp, a: u64, b: u64) -> u64;

    /// The comparison `op` on two `f32`.
    fn f32_compare(&self, op: MathOp, a: u32, b: u32) -> bool;

    /// The comparison `op` on two `f64`.
    fn f64_compare(&self, op: MathOp, a: u64, b: u64) -> bool;

    /// `a as i128` for an `f32`.
    fn f32_to_i128(&self, a: u32) -> i128;

    /// `a as u128` for an `f32`.
    fn f32_to_u128(&self, a: u32) -> u128;

    /// `a as i128` for an `f64`.
    fn f64_to_i128(&self, a: u64) -> i128;

    /// `a as u128` for an `f64`.
    fn f64_to_u128(&self, a: u64) -> u128;

    /// `a as f32`, as bits.
    fn i128_to_f32(&self, a: i128) -> u32;

    /// `a as f32`, as bits.
    fn u128_to_f32(&self, a: u128) -> u32;

    /// `a as f64`, as bits.
    fn i128_to_f64(&self, a: i128) -> u64;

    /// `a as f64`, as bits.
    fn u128_to_f64(&self, a: u128) -> u64;

    /// `a as f64` for an `f32`.
    fn f32_to_f64(&self, a: u32) -> u64;

    /// `a as f32` for an `f64`.
    fn f64_to_f32(&self, a: u64) -> u32;
}

/// Integer division rounding toward zero, as the host's `/` does.
pub open spec fn trunc_div(x: int, d: int) -> int {
    if x == 0 {
        0
    } else if x > 0 && d > 0 {
        x / d
    } else if x < 0 && d < 0 {
        (x * -1) / (d * -1)
    } else if x < 0 {
        ((x * -1) / d) * -1
    } else {
        (x / (d * -1)) * -1
    }
}

/// The exact (unbounded) result of `Add`, `Sub` or `Mul`.
pub open spec fn exact_arith(op: MathOp, x: int, y: int) -> int {
    match op {
        MathOp::Add => x + y,
        MathOp::Sub => x - y,
        MathOp::Mul => x * y,
        _ => trunc_div(x, y),
    }
}

/// The comparison `op` on two integers.
pub open spec fn int_compare(op: MathOp, x: int, y: int) -> bool {
    match op {
        MathOp::GreaterThan => x > y,
        MathOp::LessThan => x < y,
        MathOp::GreaterThanEq => x >= y,
        MathOp::LessThanEq => x <= y,
        _ => x == y,
    }
}

/// The result of an arithmetic operation on two integers of sub-type `t`:
/// sums, differences and products wrap around as the host's two's-complement
/// arithmetic does; a quotient exists only for a non-zero divisor and when it
/// is representable.
pub open spec fn int_arith(op: MathOp, t: NumericType, x: int, y: int) -> Option<Numeric> {
    if op == MathOp::Div {
        if y == 0 || !t.holds(trunc_div(x, y)) {
            None
        } else {
            Some(Numeric::from_int(t, trunc_div(x, y)))
        }
    } else {
        Some(Numeric::from_int(t, exact_arith(op, x, y)))
    }
}

impl Numeric {
    pub open spec fn sub_type(self) -> NumericType {
        match self {
            Numeric::UInt8(_) => NumericType::UInt8,
            Numeric::UInt16(_) => NumericType::UInt16,
            Numeric::UInt32(_) => NumericType::UInt32,
            Numeric::UInt64(_) => NumericType::UInt64,
            Numeric::UInt128(_) => NumericType::UInt128,
            Numeric::Int8(_) => NumericType::Int8,
            Numeric::Int16(_) => NumericType::Int16,
            Numeric::Int32(_) => NumericType::Int32,
            Numeric::Int64(_) => NumericType::Int64,
            Numeric::Int128(_) => NumericType::Int128,
            Numeric::Float32(_) => NumericType::Float32,
            Numeric::Float64(_) => NumericType::Float64,
            Numeric::USize(_) => NumericType::USize,
            Numeric::ISize(_) => NumericType::ISize,
        }
    }

    /// The mathematical value of an integer numeric (zero for floats).
    pub open spec fn int_value(self) -> int {
        match self {
            Numeric::UInt8(v) => v as int,
            Numeric::UInt16(v) => v as int,
            Numeric::UInt32(v) => v as int,
            Numeric::UInt64(v) => v as int,
            Numeric::UInt128(v) => v as int,
            Numeric::Int8(v) => v as int,
            Numeric::Int16(v) => v as int,
            Numeric::Int32(v) => v as int,
            Numeric::Int64(v) => v as int,
            Numeric::Int128(v) => v as int,
            Numeric::USize(v) => v as int,
            Numeric::ISize(v) => v as int,
            _ => 0,
        }
    }

    /// The integer `v` converted to the integer sub-type `t` by keeping its
    /// low bits, as the host's `as` does.
    pub open spec fn from_int(t: NumericType, v: int) -> Numeric {
        match t {
            NumericType::UInt8 => Numeric::UInt8(v as u8),
            NumericType::UInt16 => Numeric::UInt16(v as u16),
            NumericType::UInt32 => Numeric::UInt32(v as u32),
            NumericType::UInt64 => Numeric::UInt64(v as u64),
            NumericType::UInt128 => Numeric::UInt128(v as u128),
            NumericType::Int8 => Numeric::Int8(v as i8),
            NumericType::Int16 => Numeric::Int16(v as i16),
            NumericType::Int32 => Numeric::Int32(v as i32),
            NumericType::Int64 => Numeric::Int64(v as i64),
            NumericType::Int128 => Numeric::Int128(v as i128),
            NumericType::USize => Numeric::USize(v as usize),
            NumericType::ISize => Numeric::ISize(v as isize),
            NumericType::Float32 => Numeric::Float32(0),
            NumericType::Float64 => Numeric::Float64(0),
        }
    }

    /// What converting `self` to the sub-type `to` may yield: a value of that
    /// sub-type; `self` itself when it has it already; between integer
    /// sub-types exactly the low bits.
    pub open spec fn cast_admits(self, to: NumericType, r: Numeric) -> bool {
        &&& r.sub_type() == to
        &&& self.sub_type() == to ==> r == self
        &&& !self.sub_type().is_float() && !to.is_float() ==> r == Numeric::from_int(
            to,
            self.int_value(),
        )
    }

    /// What `op` may yield on `a` and `b`: nothing across sub-types; for
    /// integers exactly [`int_arith`] or [`int_compare`]; for floats a value of
    /// the operands' sub-type, or a `Bool` for a comparison.
    pub open spec fn admits(op: MathOp, a: Numeric, b: Numeric, r: Option<Value>) -> bool {
        let t = a.sub_type();
        if t != b.sub_type() {
            r is None
        } else if op.is_comparison() {
            if t.is_float() {
                r matches Some(Value::Bool(_))
            } else {
                r == Some(Value::Bool(int_compare(op, a.int_value(), b.int_value())))
            }
        } else if t.is_float() {
            match r {
                Some(Value::Numeric(n)) => n.sub_type() == t,
                _ => false,
            }
        } else {
            match int_arith(op, t, a.int_value(), b.int_value()) {
                Some(n) => r == Some(Value::Numeric(n)),
                None => r is None,
            }
        }
    }

    pub fn numeric_type(&self) -> (t: NumericType)
        ensures
            t == self.sub_type(),
    {
        match self {
            Numeric::UInt8(_) => NumericType::UInt8,
            Numeric::UInt16(_) => NumericType::UInt16,
            Numeric::UInt32(_) => NumericType::UInt32,
            Numeric::UInt64(_) => NumericType::UInt64,
            Numeric::UInt128(_) => NumericType::UInt128,
            Numeric::Int8(_) => NumericType::Int8,
            Numeric::Int16(_) => NumericType::Int16,
            Numeric::Int32(_) => NumericType::Int32,
            Numeric::Int64(_) => NumericType::Int64,
            Numeric::Int128(_) => NumericType::Int128,
            Numeric::Float32(_) => NumericType::Float32,
            Numeric::Float64(_) => NumericType::Float64,
            Numeric::USize(_) => NumericType::USize,
            Numeric::ISize(_) => NumericType::ISize,
        }
    }

    /// The value of a signed integer numeric, widened.
    fn signed_wide(&self) -> (r: i128)
        requires
            self.sub_type().is_signed(),
        ensures
            r == self.int_value(),
    {
        match *self {
            Numeric::Int8(v) => v as i128,
            Numeric::Int16(v) => v as i128,
            Numeric::Int32(v) => v as i128,
            Numeric::Int64(v) => v as i128,
            Numeric::Int128(v) => v,
            Numeric::ISize(v) => v as i128,
            _ => 0,
        }
    }

    /// The value of an unsigned integer numeric, widened.
    fn unsigned_wide(&self) -> (r: u128)
        requires
            self.sub_type().is_unsigned(),
        ensures
            r == self.int_value(),
    {
        match *self {
            Numeric::UInt8(v) => v as u128,
            Numeric::UInt16(v) => v as u128,
            Numeric::UInt32(v) => v as u128,
            Numeric::UInt64(v) => v as u128,
            Numeric::UInt128(v) => v,
            Numeric::USize(v) => v as u128,
            _ => 0,
        }
    }

    /// `v` converted to the integer sub-type `to`, keeping its low bits.
    fn from_i128(v: i128, to: NumericType) -> (r: Numeric)
        requires
            !to.is_float(),
        ensures
            r == Numeric::from_int(to, v as int),
    {
        match to {
            NumericType::UInt8 => Numeric::UInt8(v as u8),
            NumericType::UInt16 => Numeric::UInt16(v as u16),
            NumericType::UInt32 => Numeric::UInt32(v as u32),
            NumericType::UInt64 => Numeric::UInt64(v as u64),
            NumericType::UInt128 => Numeric::UInt128(v as u128),
            NumericType::Int8 => Numeric::Int8(v as i8),
            NumericType::Int16 => Numeric::Int16(v as i16),
            NumericType::Int32 => Numeric::Int32(v as i32),
            NumericType::Int64 => Numeric::Int64(v as i64),
            NumericType::Int128 => Numeric::Int128(v),
            NumericType::USize => Numeric::USize(v as usize),
            NumericType::ISize => Numeric::ISize(v as isize),
            NumericType::Float32 => Numeric::Float32(0),
            NumericType::Float64 => Numeric::Float64(0),
        }
    }

    /// `v` converted to the integer sub-type `to`, keeping its low bits.
    fn from_u128(v: u128, to: NumericType) -> (r: Numeric)
        requires
            !to.is_float(),
        ensures
            r == Numeric::from_int(to, v as int),
    {
        match to {
            NumericType::UInt8 => Numeric::UInt8(v as u8),
            NumericType::UInt16 => Numeric::UInt16(v as u16),
            NumericType::UInt32 => Numeric::UInt32(v as u32),
            NumericType::UInt64 => Numeric::UInt64(v as u64),
            NumericType::UInt128 => Numeric::UInt128(v),
            NumericType::Int8 => Numeric::Int8(v as i8),
            NumericType::Int16 => Numeric::Int16(v as i16),
            NumericType::Int32 => Numeric::Int32(v as i32),
            NumericType::Int64 => Numeric::Int64(v as i64),
            NumericType::Int128 => Numeric::Int128(v as i128),
            NumericType::USize => Numeric::USize(v as usize),
            NumericType::ISize => Numeric::ISize(v as isize),
            NumericType::Float32 => Numeric::Float32(0),
            NumericType::Float64 => Numeric::Float64(0),
        }
    }

    /// Wrapping arithmetic on two `i128`.
    fn wide_signed_arith(op: MathOp, x: i128, y: i128) -> (r: Option<Numeric>)
        requires
            !op.is_comparison(),
        ensures
            r == int_arith(op, NumericType::Int128, x as int, y as int),
    {
        match op {
            MathOp::Add => {
                proof {
                    assert(x.wrapping_add(y) == (x + y) as i128) by (bit_vector);
                }
                Some(Numeric::Int128(x.wrapping_add(y)))
            },
            MathOp::Sub => {
                proof {
                    assert(x.wrapping_sub(y) == (x - y) as i128) by (bit_vector);
                }
                Some(Numeric::Int128(x.wrapping_sub(y)))
            },
            MathOp::Mul => {
                proof {
                    assert(x.wrapping_mul(y) == (x * y) as i128) by (bit_vector);
                }
                Some(Numeric::Int128(x.wrapping_mul(y)))
            },
            _ => match x.checked_div(y) {
                Some(q) => Some(Numeric::Int128(q)),
                None => None,
            },
        }
    }

    /// Wrapping arithmetic on two `u128`.
    fn wide_unsigned_arith(op: MathOp, x: u128, y: u128) -> (r: Option<Numeric>)
        requires
            !op.is_comparison(),
        ensures
            r == int_arith(op, NumericType::UInt128, x as int, y as int),
    {
        match op {
            MathOp::Add => {
                proof {
                    assert(x.wrapping_add(y) == (x + y) as u128) by (bit_vector);
                }
                Some(Numeric::UInt128(x.wrapping_add(y)))
            },
            MathOp::Sub => {
                proof {
                    assert(x.wrapping_sub(y) == (x - y) as u128) by (bit_vector);
                }
                Some(Numeric::UInt128(x.wrapping_sub(y)))
            },
            MathOp::Mul => {
                proof {
                    assert(x.wrapping_mul(y) == (x * y) as u128) by (bit_vector);
                }
                Some(Numeric::UInt128(x.wrapping_mul(y)))
            },
            _ => match x.checked_div(y) {
                Some(q) => Some(Numeric::UInt128(q)),
                None => None,
            },
        }
    }

    /// Bounds of a signed sub-type.
    fn signed_bounds(t: NumericType) -> (r: (i128, i128))
        requires
            t.is_signed(),
        ensures
            r.0 == t.min_value(),
            r.1 == t.max_value(),
    {
        match t {
            NumericType::Int8 => (i8::MIN as i128, i8::MAX as i128),
            NumericType::Int16 => (i16::MIN as i128, i16::MAX as i128),
            NumericType::Int32 => (i32::MIN as i128, i32::MAX as i128),
            NumericType::Int64 => (i64::MIN as i128, i64::MAX as i128),
            NumericType::ISize => (isize::MIN as i128, isize::MAX as i128),
            _ => (i128::MIN, i128::MAX),
        }
    }

    /// Largest value of an unsigned sub-type.
    fn unsigned_max(t: NumericType) -> (r: u128)
        requires
            t.is_unsigned(),
        ensures
            r == t.max_value(),
    {
        match t {
            NumericType::UInt8 => u8::MAX as u128,
            NumericType::UInt16 => u16::MAX as u128,
            NumericType::UInt32 => u32::MAX as u128,
            NumericType::UInt64 => u64::MAX as u128,
            NumericType::USize => usize::MAX as u128,
            _ => u128::MAX,
        }
    }

    /// Arithmetic on a signed sub-type of at most 64 bits, computed exactly in
    /// `i128` and then narrowed.
    fn narrow_signed_arith(op: MathOp, t: NumericType, x: i128, y: i128) -> (r: Option<Numeric>)
        requires
            !op.is_comparison(),
            t.is_signed(),
            t != NumericType::Int128,
            t.holds(x as int),
            t.holds(y as int),
        ensures
            r == int_arith(op, t, x as int, y as int),
    {
        assert(i64::MIN <= x <= i64::MAX && i64::MIN <= y <= i64::MAX);
        match op {
            MathOp::Add => Some(Self::from_i128(x + y, t)),
            MathOp::Sub => Some(Self::from_i128(x - y, t)),
            MathOp::Mul => {
                proof {
                    let bound: int = 0x8000_0000_0000_0000;
                    assert(-bound * bound <= x * y <= bound * bound) by (nonlinear_arith)
                        requires
                            -bound <= x <= bound,
                            -bound <= y <= bound,
                    ;
                }
                Some(Self::from_i128(x * y, t))
            },
            _ => {
                let (lo, hi) = Self::signed_bounds(t);
                match x.checked_div(y) {
                    Some(q) => {
                        if lo <= q && q <= hi {
                            Some(Self::from_i128(q, t))
                        } else {
                            None
                        }
                    },
                    None => None,
                }
            },
        }
    }

    /// Arithmetic on an unsigned sub-type of at most 64 bits, computed exactly
    /// and then narrowed.
    fn narrow_unsigned_arith(op: MathOp, t: NumericType, x: u128, y: u128) -> (r: Option<Numeric>)
        requires
            !op.is_comparison(),
            t.is_unsigned(),
            t != NumericType::UInt128,
            t.holds(x as int),
            t.holds(y as int),
        ensures
            r == int_arith(op, t, x as int, y as int),
    {
        assert(x <= u64::MAX && y <= u64::MAX);
        match op {
            MathOp::Add => Some(Self::from_u128(x + y, t)),
            MathOp::Sub => Some(Self::from_i128(x as i128 - y as i128, t)),
            MathOp::Mul => {
                proof {
                    let bound: int = 0x1_0000_0000_0000_0000;
                    assert(x * y < bound * bound) by (nonlinear_arith)
                        requires
                            0 <= x < bound,
                            0 <= y < bound,
                    ;
                }
                Some(Self::from_u128(x * y, t))
            },
            _ => {
                if y == 0 {
                    None
                } else {
                    let q = x / y;
                    proof {
                        assert(q <= x) by (nonlinear_arith)
                            requires
                                q == x / y,
                                y > 0,
                                x >= 0,
                        ;
                        if x == 0 {
                            assert(x / y == 0) by (nonlinear_arith)
                                requires
                                    x == 0,
                                    y > 0,
                            ;
                        }
                    }
                    Some(Self::from_u128(q, t))
                }
            },
        }
    }

    /// Arithmetic on two integers of one sub-type.
    fn int_apply(op: MathOp, a: &Numeric, b: &Numeric) -> (r: Option<Numeric>)
        requires
            !op.is_comparison(),
            a.sub_type() == b.sub_type(),
            !a.sub_type().is_float(),
        ensures
            r == int_arith(op, a.sub_type(), a.int_value(), b.int_value()),
    {
        let t = a.numeric_type();
        match t {
            NumericType::Int128 => Self::wide_signed_arith(op, a.signed_wide(), b.signed_wide()),
            NumericType::UInt128 => Self::wide_unsigned_arith(op, a.unsigned_wide(), b.unsigned_wide()),
            NumericType::Int8 | NumericType::Int16 | NumericType::Int32 | NumericType::Int64
            | NumericType::ISize => Self::narrow_signed_arith(op, t, a.signed_wide(), b.signed_wide()),
            _ => Self::narrow_unsigned_arith(op, t, a.unsigned_wide(), b.unsigned_wide()),
        }
    }

    /// A comparison of two integers of one sub-type.
    fn int_compare_apply(op: MathOp, a: &Numeric, b: &Numeric) -> (r: bool)
        requires
            a.sub_type() == b.sub_type(),
            !a.sub_type().is_float(),
        ensures
            r == int_compare(op, a.int_value(), b.int_value()),
    {
        let t = a.numeric_type();
        if t == NumericType::Int8 || t == NumericType::Int16 || t == NumericType::Int32
            || t == NumericType::Int64 || t == NumericType::Int128 || t == NumericType::ISize {
            let x = a.signed_wide();
            let y = b.signed_wide();
            match op {
                MathOp::GreaterThan => x > y,
                MathOp::LessThan => x < y,
                MathOp::GreaterThanEq => x >= y,
                MathOp::LessThanEq => x <= y,
                _ => x == y,
            }
        } else {
            let x = a.unsigned_wide();
            let y = b.unsigned_wide();
            match op {
                MathOp::GreaterThan => x > y,
                MathOp::LessThan => x < y,
                MathOp::GreaterThanEq => x >= y,
                MathOp::LessThanEq => x <= y,
                _ => x == y,
            }
        }
    }

    /// Applies `op` to `self` (left) and `rhs` (right). `None` when the
    /// sub-types differ or an integer quotient does not exist.
    pub fn apply<F: FloatUnit>(&self, op: MathOp, rhs: &Self, unit: &F) -> (r: Option<Value>)
        ensures
            Numeric::admits(op, *self, *rhs, r),
    {
        if self.numeric_type() != rhs.numeric_type() {
            return None;
        }
        match (*self, *rhs) {
            (Numeric::Float32(a), Numeric::Float32(b)) => {
                if op.is_comparison_exec() {
                    Some(Value::Bool(unit.f32_compare(op, a, b)))
                } else {
                    Some(Value::Numeric(Numeric::Float32(unit.f32_arith(op, a, b))))
                }
            },
            (Numeric::Float64(a), Numeric::Float64(b)) => {
                if op.is_comparison_exec() {
                    Some(Value::Bool(unit.f64_compare(op, a, b)))
                } else {
                    Some(Value::Numeric(Numeric::Float64(unit.f64_arith(op, a, b))))
                }
            },
            _ => {
                if op.is_comparison_exec() {
                    Some(Value::Bool(Self::int_compare_apply(op, self, rhs)))
                } else {
                    match Self::int_apply(op, self, rhs) {
                        Some(n) => Some(Value::Numeric(n)),
                        None => None,
                    }
                }
            },
        }
    }

    /// `v` saturated into the range of the signed sub-type `t`.
    fn saturate_signed(v: i128, t: NumericType) -> (r: i128)
        requires
            t.is_signed(),
        ensures
            r == t.saturate(v as int),
    {
        let (lo, hi) = Self::signed_bounds(t);
        if v < lo {
            lo
        } else if v > hi {
            hi
        } else {
            v
        }
    }

    /// `v` saturated into the range of the unsigned sub-type `t`.
    fn saturate_unsigned(v: u128, t: NumericType) -> (r: u128)
        requires
            t.is_unsigned(),
        ensures
            r == t.saturate(v as int),
    {
        let hi = Self::unsigned_max(t);
        if v > hi {
            hi
        } else {
            v
        }
    }

    /// A float converted to the integer sub-type `to`, given the conversions
    /// of the float to `i128` and to `u128`: the one that matches the
    /// signedness of `to`, saturated into its range.
    fn from_float_parts(signed: i128, unsigned: u128, to: NumericType) -> (r: Numeric)
        requires
            !to.is_float(),
        ensures
            r.sub_type() == to,
            to.is_signed() ==> r == Numeric::from_int(to, to.saturate(signed as int)),
            !to.is_signed() ==> r == Numeric::from_int(to, to.saturate(unsigned as int)),
    {
        if to.signed() {
            Self::from_i128(Self::saturate_signed(signed, to), to)
        } else {
            Self::from_u128(Self::saturate_unsigned(unsigned, to), to)
        }
    }

    /// Converts to the sub-type `to` as the host's `as` does: integers keep
    /// their low bits, floats saturate toward the integer range and integers
    /// round to floats. Converting to the value's own sub-type changes nothing.
    pub fn cast<F: FloatUnit>(self, to: &NumericType, unit: &F) -> (r: Numeric)
        ensures
            self.cast_admits(*to, r),
    {
        let to = *to;
        if self.numeric_type() == to {
            return self;
        }
        match self {
            Numeric::Float32(a) => match to {
                NumericType::Float64 => Numeric::Float64(unit.f32_to_f64(a)),
                NumericType::Float32 => self,
                _ => Self::from_float_parts(unit.f32_to_i128(a), unit.f32_to_u128(a), to),
            },
            Numeric::Float64(a) => match to {
                NumericType::Float32 => Numeric::Float32(unit.f64_to_f32(a)),
                NumericType::Float64 => self,
                _ => Self::from_float_parts(unit.f64_to_i128(a), unit.f64_to_u128(a), to),
            },
            _ => {
                if self.numeric_type().signed() {
                    let v = self.signed_wide();
                    match to {
                        NumericType::Float32 => Numeric::Float32(unit.i128_to_f32(v)),
                        NumericType::Float64 => Numeric::Float64(unit.i128_to_f64(v)),
                        _ => Self::from_i128(v, to),
                    }
                } else {
                    let v = self.unsigned_wide();
                    match to {
                        NumericType::Float32 => Numeric::Float32(unit.u128_to_f32(v)),
                        NumericType::Float64 => Numeric::Float64(unit.u128_to_f64(v)),
                        _ => Self::from_u128(v, to),
                    }
                }
            },
        }
    }

    /// `self + rhs`, wrapping for integers.
    pub fn add<F: FloatUnit>(&self, rhs: &Self, unit: &F) -> (r: Option<Value>)
        ensures
            Numeric::admits(MathOp::Add, *self, *rhs, r),
    {
        self.apply(MathOp::Add, rhs, unit)
    }

    /// `self - rhs`, wrapping for integers.
    pub fn sub<F: FloatUnit>(&self, rhs: &Self, unit: &F) -> (r: Option<Value>)
        ensures
            Numeric::admits(MathOp::Sub, *self, *rhs, r),
    {
        self.apply(MathOp::Sub, rhs, unit)
    }

    /// `self * rhs`, wrapping for integers.
    pub fn mul<F: FloatUnit>(&self, rhs: &Self, unit: &F) -> (r: Option<Value>)
        ensures
            Numeric::admits(MathOp::Mul, *self, *rhs, r),
    {
        self.apply(MathOp::Mul, rhs, unit)
    }

    /// `self / rhs`, rounding integers toward zero.
    pub fn div<F: FloatUnit>(&self, rhs: &Self, unit: &F) -> (r: Option<Value>)
        ensures
            Numeric::admits(MathOp::Div, *self, *rhs, r),
    {
        self.apply(MathOp::Div, rhs, unit)
    }

    pub fn greater_than<F: FloatUnit>(&self, rhs: &Self, unit: &F) -> (r: Option<Value>)
        ensures
            Numeric::admits(MathOp::GreaterThan, *self, *rhs, r),
    {
        self.apply(MathOp::GreaterThan, rhs, unit)
    }

    pub fn greater_than_eq<F: FloatUnit>(&self, rhs: &Self, unit: &F) -> (r: Option<Value>)
        ensures
            Numeric::admits(MathOp::GreaterThanEq, *self, *rhs, r),
    {
        self.apply(MathOp::GreaterThanEq, rhs, unit)
    }

    pub fn less_than<F: FloatUnit>(&self, rhs: &Self, unit: &F) -> (r: Option<Value>)
        ensures
            Numeric::admits(MathOp::LessThan, *self, *rhs, r),
    {
        self.apply(MathOp::LessThan, rhs, unit)
    }

    pub fn less_than_eq<F: FloatUnit>(&self, rhs: &Self, unit: &F) -> (r: Option<Value>)
        ensures
            Numeric::admits(MathOp::LessThanEq, *self, *rhs, r),
    {
        self.apply(MathOp::LessThanEq, rhs, unit)
    }

    pub fn eq<F: FloatUnit>(&self, rhs: &Self, unit: &F) -> (r: Option<Value>)
        ensures
            Numeric::admits(MathOp::Eql, *self, *rhs, r),
    {
        self.apply(MathOp::Eql, rhs, unit)
    }
}

/// Adding two numerics of one sub-type gives a numeric of that sub-type, for
/// integers the sum wrapped to it; adding across sub-types gives nothing.
pub proof fn lemma_add_keeps_sub_type(a: Numeric, b: Numeric, r: Option<Value>)
    requires
        Numeric::admits(MathOp::Add, a, b, r),
    ensures
        a.sub_type() != b.sub_type() ==> r is None,
        a.sub_type() == b.sub_type() ==> (r matches Some(Value::Numeric(n)) && n.sub_type()
            == a.sub_type()),
        a.sub_type() == b.sub_type() && !a.sub_type().is_float() ==> r == Some(
            Value::Numeric(Numeric::from_int(a.sub_type(), a.int_value() + b.int_value())),
        ),
{
}

/// Converting a numeric to its own sub-type gives it back unchanged.
pub proof fn lemma_cast_to_own_type(x: Numeric, r: Numeric)
    requires
        x.cast_admits(x.sub_type(), r),
    ensures
        r == x,
{
}

} // verus!
