//! Small expression-level functions: arithmetic, block expressions and `if`.
use vstd::prelude::*;

verus! {

/// Twice `x`.
pub fn double(x: i32) -> (r: i32)
    requires
        i32::MIN <= 2 * x <= i32::MAX,
    ensures
        r == 2 * x,
{
    2 * x
}

/// The value of a block that binds 3 and yields one more.
pub fn expression() -> (r: i32)
    ensures
        r == 4,
{
    let y: i32 = {
        let x: i32 = 3;
        x + 1
    };
    y
}

/// The value of a block that reads an outer binding of 5 and yields one more.
pub fn expression_scope() -> (r: i32)
    ensures
        r == 6,
{
    let x: i32 = 5;
    let y: i32 = {
        let _z: i32 = 1;
        x + 1
    };
    y
}

/// How `x` compares with 5, in words.
pub fn if_expression(x: i32) -> (r: &'static str)
    ensures
        r@ == (if x > 5 {
            "greater than 5"@
        } else if x == 5 {
            "equal 5"@
        } else {
            "less than 5"@
        }),
{
    let res = if x > 5 {
        "greater than 5"
    } else if x == 5 {
        "equal 5"
    } else {
        "less than 5"
    };
    res
}

} // verus!
