use vstd::prelude::*;

verus! {

/// A United States coin denomination.
pub enum Coin {
    Penny,
    Nickel,
    Dime,
    Quarter,
}

/// The face value of a coin, in cents.
pub open spec fn coin_value(coin: Coin) -> u8 {
    match coin {
        Coin::Penny => 1,
        Coin::Nickel => 5,
        Coin::Dime => 10,
        Coin::Quarter => 25,
    }
}

/// Returns the face value of `coin` in cents.
pub fn value_in_cents(coin: Coin) -> (r: u8)
    ensures
        r == coin_value(coin),
{
    match coin {
        Coin::Penny => 1,
        Coin::Nickel => 5,
        Coin::Dime => 10,
        Coin::Quarter => 25,
    }
}

/// Adds one to the number inside an `Option`, if there is one.
pub fn plus_one(x: Option<i32>) -> (r: Option<i32>)
    requires
        x is Some ==> x->0 < i32::MAX,
    ensures
        match x {
            None => r is None,
            Some(i) => r == Some((i + 1) as i32),
        },
{
    match x {
        None => None,
        Some(i) => Some(i + 1),
    }
}

fn add_fancy_hat() {
}

fn remove_fancy_hat() {
}

fn move_player(_num_spaces: u8) {
}

/// Dispatches on a fixed dice roll: special handling for a 3 or a 7,
/// and a catch-all that moves the player by the rolled number.
pub fn dice_roll() {
    let roll: u8 = 9;
    match roll {
        3 => add_fancy_hat(),
        7 => remove_fancy_hat(),
        _ => move_player(roll),
    }
}

/// Returns the configured maximum, which is fixed at three.
pub fn config_max() -> (r: Option<u8>)
    ensures
        r == Some(3u8),
{
    let max: Option<u8> = Some(3);
    max
}

} // verus!
