use vstd::prelude::*;

verus! {

/// Three hours, expressed in seconds.
pub const THREE_HOURS_IN_SECONDS: u32 = 60 * 60 * 3;

/// Shadows a binding twice: once by adding one, and once more, inside an
/// inner scope, by doubling. Returns the inner value and the outer value,
/// in that order.
pub fn shadowing() -> (r: (i32, i32))
    ensures
        r.0 == 12,
        r.1 == 6,
{
    let x: i32 = 5;
    let x: i32 = x + 1;
    let inner: i32 = {
        let x: i32 = x * 2;
        x
    };
    (inner, x)
}

/// Shadows a string binding with its own length, changing the
/// binding's type.
pub fn shadowing_2() {
    let spaces: &str = "   ";
    let _spaces: usize = spaces.len();
}

} // verus!
