//! The checked primitives of the numeric types that an expression can be
//! computed in.

use vstd::prelude::*;
use vstd::arithmetic::power::pow;
use crate::ops::Primitive;

verus! {

/// A numeric type with one checked operation for each primitive. Each
/// yields the value, or `None` where the operation fails: on overflow, on
/// division by zero, on a shift by the type's width or more.
///
/// Both operands have the type itself. The exponent of a power and the
/// amount of a shift take part as a `u32`; where the operand has no such
/// value, the primitive fails.
pub trait Arithmetic: Sized + Copy {
    /// What a primitive yields on two operands.
    spec fn binary(primitive: Primitive, left: Self, right: Self) -> Option<Self>;

    /// What the checked negation yields.
    spec fn negation(operand: Self) -> Option<Self>;

    /// Applies a primitive to two operands.
    fn checked_binary(primitive: Primitive, left: Self, right: Self) -> (result: Option<Self>)
        ensures
            result == Self::binary(primitive, left, right),
    ;

    /// Negates an operand.
    fn checked_negation(operand: Self) -> (result: Option<Self>)
        ensures
            result == Self::negation(operand),
    ;
}

/// The power of an unsigned base, where it fits the type.
pub open spec fn power_u64(base: u64, exp: u32) -> Option<u64> {
    let power = pow(base as int, exp as nat);
    if power <= u64::MAX {
        Some(power as u64)
    } else {
        None
    }
}

/// The power of a signed base, where it fits the type.
pub open spec fn power_i64(base: i64, exp: u32) -> Option<i64> {
    let power = pow(base as int, exp as nat);
    if i64::MIN <= power <= i64::MAX {
        Some(power as i64)
    } else {
        None
    }
}

/// `u64::checked_neg` of std: the negation of zero is zero, and no other
/// unsigned value has a negation.
#[verifier::external_body]
fn neg_u64(operand: u64) -> (result: Option<u64>)
    ensures
        result == (if operand == 0 {
            Some(0u64)
        } else {
            None
        }),
{
    operand.checked_neg()
}

/// `u64::checked_pow` of std: the power, or `None` where it overflows.
#[verifier::external_body]
fn pow_u64(base: u64, exp: u32) -> (result: Option<u64>)
    ensures
        result == power_u64(base, exp),
{
    base.checked_pow(exp)
}

/// `u64::checked_shl` of std: `None` where the amount is 64 or more, else
/// the value shifted left by the amount, the bits beyond the width lost.
#[verifier::external_body]
fn shl_u64(operand: u64, amount: u32) -> (result: Option<u64>)
    ensures
        result == (if amount < 64 {
            Some(operand.wrapping_shl(amount))
        } else {
            None
        }),
{
    operand.checked_shl(amount)
}

/// `u64::checked_shr` of std: `None` where the amount is 64 or more, else
/// the value shifted right by the amount.
#[verifier::external_body]
fn shr_u64(operand: u64, amount: u32) -> (result: Option<u64>)
    ensures
        result == (if amount < 64 {
            Some(operand.wrapping_shr(amount))
        } else {
            None
        }),
{
    operand.checked_shr(amount)
}

/// `i64::checked_neg` of std: the negation, or `None` for the least value,
/// whose negation overflows.
#[verifier::external_body]
fn neg_i64(operand: i64) -> (result: Option<i64>)
    ensures
        result == (if operand == i64::MIN {
            None
        } else {
            Some((-operand) as i64)
        }),
{
    operand.checked_neg()
}

/// `i64::checked_pow` of std: the power, or `None` where it overflows.
#[verifier::external_body]
fn pow_i64(base: i64, exp: u32) -> (result: Option<i64>)
    ensures
        result == power_i64(base, exp),
{
    base.checked_pow(exp)
}

/// `i64::checked_shl` of std: `None` where the amount is 64 or more, else
/// the value shifted left by the amount, the bits beyond the width lost.
#[verifier::external_body]
fn shl_i64(operand: i64, amount: u32) -> (result: Option<i64>)
    ensures
        result == (if amount < 64 {
            Some(operand.wrapping_shl(amount))
        } else {
            None
        }),
{
    operand.checked_shl(amount)
}

/// `i64::checked_shr` of std: `None` where the amount is 64 or more, else
/// the value shifted right by the amount, the sign kept.
#[verifier::external_body]
fn shr_i64(operand: i64, amount: u32) -> (result: Option<i64>)
    ensures
        result == (if amount < 64 {
            Some(operand.wrapping_shr(amount))
        } else {
            None
        }),
{
    operand.checked_shr(amount)
}

impl Arithmetic for u64 {
    open spec fn binary(primitive: Primitive, left: u64, right: u64) -> Option<u64> {
        match primitive {
            Primitive::Add => left.checked_add(right),
            Primitive::Sub => left.checked_sub(right),
            Primitive::Mul => left.checked_mul(right),
            Primitive::Div => left.checked_div(right),
            Primitive::Rem => left.checked_rem(right),
            Primitive::Pow => if right <= u32::MAX {
                power_u64(left, right as u32)
            } else {
                None
            },
            Primitive::Shl => if right < 64 {
                Some(left.wrapping_shl(right as u32))
            } else {
                None
            },
            Primitive::Shr => if right < 64 {
                Some(left.wrapping_shr(right as u32))
            } else {
                None
            },
        }
    }

    open spec fn negation(operand: u64) -> Option<u64> {
        if operand == 0 {
            Some(0u64)
        } else {
            None
        }
    }

    fn checked_binary(primitive: Primitive, left: u64, right: u64) -> (result: Option<u64>) {
        match primitive {
            Primitive::Add => left.checked_add(right),
            Primitive::Sub => left.checked_sub(right),
            Primitive::Mul => left.checked_mul(right),
            Primitive::Div => left.checked_div(right),
            Primitive::Rem => left.checked_rem(right),
            Primitive::Pow => if right <= 0xffff_ffff {
                pow_u64(left, right as u32)
            } else {
                None
            },
            Primitive::Shl => if right <= 0xffff_ffff {
                shl_u64(left, right as u32)
            } else {
                None
            },
            Primitive::Shr => if right <= 0xffff_ffff {
                shr_u64(left, right as u32)
            } else {
                None
            },
        }
    }

    fn checked_negation(operand: u64) -> (result: Option<u64>) {
        neg_u64(operand)
    }
}

impl Arithmetic for i64 {
    open spec fn binary(primitive: Primitive, left: i64, right: i64) -> Option<i64> {
        match primitive {
            Primitive::Add => left.checked_add(right),
            Primitive::Sub => left.checked_sub(right),
            Primitive::Mul => left.checked_mul(right),
            Primitive::Div => left.checked_div(right),
            Primitive::Rem => left.checked_rem(right),
            Primitive::Pow => if 0 <= right <= u32::MAX {
                power_i64(left, right as u32)
            } else {
                None
            },
            Primitive::Shl => if 0 <= right < 64 {
                Some(left.wrapping_shl(right as u32))
            } else {
                None
            },
            Primitive::Shr => if 0 <= right < 64 {
                Some(left.wrapping_shr(right as u32))
            } else {
                None
            },
        }
    }

    open spec fn negation(operand: i64) -> Option<i64> {
        if operand == i64::MIN {
            None
        } else {
            Some((-operand) as i64)
        }
    }

    fn checked_binary(primitive: Primitive, left: i64, right: i64) -> (result: Option<i64>) {
        match primitive {
            Primitive::Add => left.checked_add(right),
            Primitive::Sub => left.checked_sub(right),
            Primitive::Mul => left.checked_mul(right),
            Primitive::Div => left.checked_div(right),
            Primitive::Rem => left.checked_rem(right),
            Primitive::Pow => if 0 <= right && right <= 0xffff_ffff {
                pow_i64(left, right as u32)
            } else {
                None
            },
            Primitive::Shl => if 0 <= right && right <= 0xffff_ffff {
                shl_i64(left, right as u32)
            } else {
                None
            },
            Primitive::Shr => if 0 <= right && right <= 0xffff_ffff {
                shr_i64(left, right as u32)
            } else {
                None
            },
        }
    }

    fn checked_negation(operand: i64) -> (result: Option<i64>) {
        neg_i64(operand)
    }
}

} // verus!
