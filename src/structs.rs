//! User records, coins and optional integers.
use vstd::prelude::*;
use vstd::string::StringExecFns;

verus! {

/// An account: its names, how often it signed in, and whether it is active.
#[derive(Debug)]
pub struct User {
    pub username: String,
    pub email: String,
    pub sign_in_count: u64,
    pub active: bool,
}

impl User {
    /// Twice the number of sign-ins.
    pub fn double_count(&self) -> (r: u64)
        requires
            2 * self.sign_in_count <= u64::MAX,
        ensures
            r == 2 * self.sign_in_count,
    {
        2 * self.sign_in_count
    }

    /// The active test account, signed in once.
    pub fn test_account() -> (r: User)
        ensures
            r.email@ == "test@example.com"@,
            r.username@ == "test"@,
            r.active,
            r.sign_in_count == 1,
    {
        User {
            email: String::from_str("test@example.com"),
            username: String::from_str("test"),
            active: true,
            sign_in_count: 1,
        }
    }
}

/// A new active account with the given names, signed in once.
pub fn build_user_by_omitted_syntax(email: String, username: String) -> (r: User)
    ensures
        r.email == email,
        r.username == username,
        r.active,
        r.sign_in_count == 1,
{
    User { email, username, active: true, sign_in_count: 1 }
}

/// A US coin.
pub enum Coin {
    Penny,
    Nickel,
    Dime,
    Quarter,
}

/// The worth of a coin in cents.
pub open spec fn cents(coin: Coin) -> u32 {
    match coin {
        Coin::Penny => 1,
        Coin::Nickel => 5,
        Coin::Dime => 10,
        Coin::Quarter => 25,
    }
}

/// The worth of `coin` in cents.
pub fn value_in_cents(coin: Coin) -> (r: u32)
    ensures
        r == cents(coin),
{
    match coin {
        Coin::Penny => 1,
        Coin::Nickel => 5,
        Coin::Dime => 10,
        Coin::Quarter => 25,
    }
}

/// One more than the number inside, if there is one.
pub fn plus_one(x: Option<i32>) -> (r: Option<i32>)
    requires
        x != Some(i32::MAX),
    ensures
        r == (match x {
            Some(i) => Some((i + 1) as i32),
            None => None::<i32>,
        }),
{
    match x {
        Some(i) => Some(i + 1),
        None => None,
    }
}

} // verus!
