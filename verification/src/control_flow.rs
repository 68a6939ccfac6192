use vstd::prelude::*;

verus! {

/// Describes the divisibility of `n`, trying the divisors four, three and
/// two in that order and reporting the first that divides it.
pub fn divisibility_message(n: u32) -> (r: &'static str)
    ensures
        n % 4 == 0 ==> r@ == "number is divisible by 4"@,
        n % 4 != 0 && n % 3 == 0 ==> r@ == "number is divisible by 3"@,
        n % 4 != 0 && n % 3 != 0 && n % 2 == 0 ==> r@ == "number is divisible by 2"@,
        n % 4 != 0 && n % 3 != 0 && n % 2 != 0 ==> r@ == "number is not divisible by 4, 3, or 2"@,
{
    if n % 4 == 0 {
        "number is divisible by 4"
    } else if n % 3 == 0 {
        "number is divisible by 3"
    } else if n % 2 == 0 {
        "number is divisible by 2"
    } else {
        "number is not divisible by 4, 3, or 2"
    }
}

/// Counts up to ten and returns double the counter, by breaking out of a
/// loop with the value.
pub fn loop_result() -> (r: i32)
    ensures
        r == 20,
{
    let mut counter: i32 = 0;
    let mut result: i32 = 0;
    loop
        invariant_except_break
            0 <= counter <= 9,
        ensures
            result == 20,
        decreases 10 - counter,
    {
        counter += 1;
        if counter == 10 {
            result = counter * 2;
            break;
        }
    }
    result
}

} // verus!
