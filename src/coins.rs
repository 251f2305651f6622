//! Enums and matching on them: coins and their value, messages, addresses,
//! optional numbers and dice rolls.
use vstd::prelude::*;

verus! {

#[derive(PartialEq, Eq, Structural, Clone, Copy, Debug)]
pub enum UsState {
    Alabama,
    Alaska,
}

#[derive(PartialEq, Eq, Structural, Clone, Copy, Debug)]
pub enum Coin {
    Penny,
    Nickel,
    Dime,
    Quarter(UsState),
}

/// What a coin is worth, in cents.
pub open spec fn cents(coin: Coin) -> u8 {
    match coin {
        Coin::Penny => 1,
        Coin::Nickel => 5,
        Coin::Dime => 10,
        Coin::Quarter(_) => 25,
    }
}

/// What `coin` is worth, in cents.
pub fn value_in_cents(coin: Coin) -> (r: u8)
    ensures
        r == cents(coin),
{
    match coin {
        Coin::Penny => 1,
        Coin::Nickel => 5,
        Coin::Dime => 10,
        Coin::Quarter(_state) => 25,
    }
}

/// The state on a quarter; none for the other coins.
pub fn quarter_state(coin: Coin) -> (r: Option<UsState>)
    ensures
        r == match coin {
            Coin::Quarter(state) => Some(state),
            _ => None::<UsState>,
        },
{
    if let Coin::Quarter(state) = coin {
        Some(state)
    } else {
        None
    }
}

/// Adds `count` to the number of coins that are not quarters when `coin` is
/// one of them.
pub fn coin_example(coin: Coin, count: u32) -> (r: u32)
    requires
        count < u32::MAX,
    ensures
        r == if coin is Quarter {
            count
        } else {
            (count + 1) as u32
        },
{
    let mut count = count;
    if let Coin::Quarter(_state) = coin {
    } else {
        count = count + 1;
    }
    count
}

pub enum Message {
    Quit,
    Move { x: i32, y: i32 },
    Write(String),
    ChangeColor(i32, i32, i32),
}

impl Message {
    /// Handles the message; no message has any effect yet.
    pub fn call(&self) {
    }
}

pub enum IpAddr {
    V4(u8, u8, u8, u8),
    V6(String),
}

/// One more than the number inside, if there is one.
pub fn plus_one(x: Option<i32>) -> (r: Option<i32>)
    requires
        x matches Some(i) ==> i < i32::MAX,
    ensures
        r == match x {
            None => None::<i32>,
            Some(i) => Some((i + 1) as i32),
        },
{
    match x {
        None => None,
        Some(i) => Some(i + 1),
    }
}

/// One more than the number inside, for a value known to hold one.
pub fn plus_one_without_none(x: Option<i32>) -> (r: Option<i32>)
    requires
        x matches Some(i) && i < i32::MAX,
    ensures
        r == Some((x->Some_0 + 1) as i32),
{
    let i = x.unwrap();
    Some(i + 1)
}

/// `plus_one` of five and of nothing.
pub fn matching_with_option() -> (r: (Option<i32>, Option<i32>))
    ensures
        r == (Some(6i32), None::<i32>),
{
    let five = Some(5);
    let six = plus_one(five);
    let none = plus_one(None);
    (six, none)
}

/// What a roll of the dice makes a player do.
#[derive(PartialEq, Eq, Structural, Clone, Copy, Debug)]
pub enum Move {
    AddFancyHat,
    RemoveFancyHat,
    MovePlayer(u8),
    Reroll,
    Stay,
}

/// A 3 gives a fancy hat, a 7 takes one away, any other roll moves the
/// player that many spaces.
pub fn dice_roll_1(dice_roll: u8) -> (r: Move)
    ensures
        r == if dice_roll == 3 {
            Move::AddFancyHat
        } else if dice_roll == 7 {
            Move::RemoveFancyHat
        } else {
            Move::MovePlayer(dice_roll)
        },
{
    match dice_roll {
        3 => Move::AddFancyHat,
        7 => Move::RemoveFancyHat,
        other => Move::MovePlayer(other),
    }
}

/// A 3 gives a fancy hat, a 7 takes one away, any other roll is rolled
/// again.
pub fn dice_roll_2(dice_roll: u8) -> (r: Move)
    ensures
        r == if dice_roll == 3 {
            Move::AddFancyHat
        } else if dice_roll == 7 {
            Move::RemoveFancyHat
        } else {
            Move::Reroll
        },
{
    match dice_roll {
        3 => Move::AddFancyHat,
        7 => Move::RemoveFancyHat,
        _ => Move::Reroll,
    }
}

/// A 3 gives a fancy hat, a 7 takes one away, nothing happens on any other
/// roll.
pub fn dice_roll_3(dice_roll: u8) -> (r: Move)
    ensures
        r == if dice_roll == 3 {
            Move::AddFancyHat
        } else if dice_roll == 7 {
            Move::RemoveFancyHat
        } else {
            Move::Stay
        },
{
    match dice_roll {
        3 => Move::AddFancyHat,
        7 => Move::RemoveFancyHat,
        _ => Move::Stay,
    }
}

} // verus!
