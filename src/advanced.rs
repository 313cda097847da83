//! Higher-order calls, a trait with an associated type, addition on types of
//! one's own, and associated functions that share a name.
use vstd::prelude::*;
use vstd::string::StringExecFns;

verus! {

/// `x` plus one.
pub fn add_one(x: i32) -> (r: i32)
    requires
        x < i32::MAX,
    ensures
        r == x + 1,
{
    x + 1
}

/// Calls `f` on `arg` twice and adds the two results.
pub fn do_twice<F: Fn(i32) -> i32>(f: F, arg: i32) -> (r: i32)
    requires
        f.requires((arg,)),
        forall|a: i32, b: i32|
            f.ensures((arg,), a) && f.ensures((arg,), b) ==> i32::MIN <= a + b <= i32::MAX,
    ensures
        exists|a: i32, b: i32| f.ensures((arg,), a) && f.ensures((arg,), b) && r == a + b,
{
    let a = f(arg);
    let b = f(arg);
    a + b
}

/// A source of items handed out one at a time; `None` once there are no more.
pub trait Iterator {
    type Item;

    fn next(&mut self) -> Option<Self::Item>;
}

/// A point on the integer grid.
#[derive(Debug, PartialEq)]
pub struct Point {
    pub x: i32,
    pub y: i32,
}

impl std::ops::Add for Point {
    type Output = Point;

    /// The sum of two points, coordinate by coordinate.
    fn add(self, other: Point) -> (r: Point) {
        Point { x: self.x + other.x, y: self.y + other.y }
    }
}

impl vstd::std_specs::ops::AddSpecImpl for Point {
    open spec fn obeys_add_spec() -> bool {
        true
    }

    open spec fn add_req(self, rhs: Point) -> bool {
        &&& i32::MIN <= self.x + rhs.x <= i32::MAX
        &&& i32::MIN <= self.y + rhs.y <= i32::MAX
    }

    open spec fn add_spec(self, rhs: Point) -> Point {
        Point { x: (self.x + rhs.x) as i32, y: (self.y + rhs.y) as i32 }
    }
}

/// A length in millimeters.
#[derive(Debug)]
pub struct Millimeters(pub u32);

/// A length in meters.
pub struct Meters(pub u32);

impl std::ops::Add<Meters> for Millimeters {
    type Output = Millimeters;

    /// The sum of the two lengths, in millimeters.
    fn add(self, other: Meters) -> (r: Millimeters) {
        Millimeters(self.0 + (other.0 * 1000))
    }
}

impl vstd::std_specs::ops::AddSpecImpl<Meters> for Millimeters {
    open spec fn obeys_add_spec() -> bool {
        true
    }

    open spec fn add_req(self, rhs: Meters) -> bool {
        self.0 + rhs.0 * 1000 <= u32::MAX
    }

    open spec fn add_spec(self, rhs: Meters) -> Millimeters {
        Millimeters((self.0 + rhs.0 * 1000) as u32)
    }
}

/// Something that names its young.
pub trait Animal {
    /// The name of a young one.
    fn baby_name() -> String;
}

/// A dog.
pub struct Dog;

impl Dog {
    /// The name this dog gives its puppies: Spot.
    pub fn baby_name() -> (r: String)
        ensures
            r@ == "Spot"@,
    {
        String::from_str("Spot")
    }
}

impl Animal for Dog {
    fn baby_name() -> String {
        String::from_str("puppy")
    }
}

} // verus!
