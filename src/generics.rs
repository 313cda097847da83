//! Largest elements, generic holders, the longer of two strings, and summaries.
use vstd::prelude::*;
use vstd::string::StringExecFns;
use crate::ownership::byte_len;
use core::cmp::Ordering;
use vstd::std_specs::cmp::PartialOrdSpec;

verus! {

/// The largest number in `list`, which must not be empty.
pub fn largest_i32(list: &[i32]) -> (r: i32)
    requires
        list@.len() > 0,
    ensures
        list@.contains(r),
        forall|i: int| 0 <= i < list@.len() ==> list@[i] <= r,
{
    let mut largest = list[0];
    let mut i: usize = 0;
    while i < list.len()
        invariant
            i <= list@.len(),
            list@.contains(largest),
            forall|j: int| 0 <= j < i ==> list@[j] <= largest,
        decreases list@.len() - i,
    {
        let item = list[i];
        if item > largest {
            largest = item;
        }
        i = i + 1;
    }
    largest
}

/// The largest character in `list`, which must not be empty.
pub fn largest_char(list: &[char]) -> (r: char)
    requires
        list@.len() > 0,
    ensures
        list@.contains(r),
        forall|i: int| 0 <= i < list@.len() ==> list@[i] <= r,
{
    let mut largest = list[0];
    let mut i: usize = 0;
    while i < list.len()
        invariant
            i <= list@.len(),
            list@.contains(largest),
            forall|j: int| 0 <= j < i ==> list@[j] <= largest,
        decreases list@.len() - i,
    {
        let item = list[i];
        if item > largest {
            largest = item;
        }
        i = i + 1;
    }
    largest
}

/// No element of `list` compares as greater than `x`.
pub open spec fn none_greater<T: PartialOrd>(list: Seq<T>, x: T) -> bool {
    forall|i: int| 0 <= i < list.len() ==> #[trigger] list[i].partial_cmp_spec(&x) != Some(Ordering::Greater)
}

/// The comparison of `T` is the one its specification describes, and
/// "greater than" is irreflexive and transitive.
pub open spec fn orders_well<T: PartialOrd>() -> bool {
    &&& T::obeys_partial_cmp_spec()
    &&& forall|x: T| #[trigger] x.partial_cmp_spec(&x) != Some(Ordering::Greater)
    &&& forall|x: T, y: T, z: T|
        x.partial_cmp_spec(&y) == Some(Ordering::Greater) && #[trigger] y.partial_cmp_spec(&z) == Some(
            Ordering::Greater,
        ) ==> #[trigger] x.partial_cmp_spec(&z) == Some(Ordering::Greater)
}

/// An element of `list`, which must not be empty; when the comparison is well
/// behaved, no element of `list` is greater than it.
pub fn largest1<T: PartialOrd + Copy>(list: &[T]) -> (r: T)
    requires
        list@.len() > 0,
    ensures
        list@.contains(r),
        orders_well::<T>() ==> none_greater(list@, r),
{
    let mut largest = list[0];
    let mut i: usize = 0;
    while i < list.len()
        invariant
            i <= list@.len(),
            list@.contains(largest),
            orders_well::<T>() ==> forall|j: int|
                0 <= j < i ==> #[trigger] list@[j].partial_cmp_spec(&largest) != Some(Ordering::Greater),
        decreases list@.len() - i,
    {
        let item = list[i];
        let ghost before = largest;
        let greater = item > largest;
        if greater {
            largest = item;
        }
        proof {
            if orders_well::<T>() {
                lemma_step_keeps_none_greater(list@.take(i as int), before, item, greater, largest);
                assert forall|j: int| 0 <= j < i + 1 implies #[trigger] list@[j].partial_cmp_spec(
                    &largest,
                ) != Some(Ordering::Greater) by {
                    assert(list@.take(i as int).push(list@[i as int])[j] == list@[j]);
                }
            }
        }
        i = i + 1;
    }
    largest
}

/// A reference to an element of `list`, which must not be empty; when the
/// comparison is well behaved, no element of `list` is greater than it.
pub fn largest<T: PartialOrd>(list: &[T]) -> (r: &T)
    requires
        list@.len() > 0,
    ensures
        list@.contains(*r),
        orders_well::<T>() ==> none_greater(list@, *r),
{
    let mut arg_largest: usize = 0;
    let mut i: usize = 0;
    while i < list.len()
        invariant
            i <= list@.len(),
            arg_largest < list@.len(),
            orders_well::<T>() ==> forall|j: int|
                0 <= j < i ==> #[trigger] list@[j].partial_cmp_spec(&list@[arg_largest as int]) != Some(
                    Ordering::Greater,
                ),
        decreases list@.len() - i,
    {
        let ghost before = list@[arg_largest as int];
        let greater = &list[i] > &list[arg_largest];
        if greater {
            arg_largest = i;
        }
        proof {
            if orders_well::<T>() {
                let now = list@[arg_largest as int];
                lemma_step_keeps_none_greater(list@.take(i as int), before, list@[i as int], greater, now);
                assert forall|j: int| 0 <= j < i + 1 implies #[trigger] list@[j].partial_cmp_spec(
                    &list@[arg_largest as int],
                ) != Some(Ordering::Greater) by {
                    assert(list@.take(i as int).push(list@[i as int])[j] == list@[j]);
                }
            }
        }
        i = i + 1;
    }
    &list[arg_largest]
}

/// One step of the search for a largest element: if nothing in `seen` is
/// greater than `before`, and the next element `item` replaces `before`
/// exactly when it is greater, then nothing in `seen` nor `item` is greater
/// than the element kept.
proof fn lemma_step_keeps_none_greater<T: PartialOrd>(seen: Seq<T>, before: T, item: T, greater: bool, kept: T)
    requires
        orders_well::<T>(),
        none_greater(seen, before),
        greater <==> item.partial_cmp_spec(&before) == Some(Ordering::Greater),
        kept == (if greater { item } else { before }),
    ensures
        none_greater(seen.push(item), kept),
{
    assert forall|j: int| 0 <= j < seen.len() + 1 implies #[trigger] seen.push(item)[j].partial_cmp_spec(
        &kept,
    ) != Some(Ordering::Greater) by {
        if j < seen.len() {
            assert(seen.push(item)[j] == seen[j]);
            if greater && seen[j].partial_cmp_spec(&item) == Some(Ordering::Greater) {
                assert(seen[j].partial_cmp_spec(&before) == Some(Ordering::Greater));
            }
        } else {
            assert(seen.push(item)[j] == item);
            assert(item.partial_cmp_spec(&item) != Some(Ordering::Greater));
        }
    }
}

/// A point with two coordinates of one type.
pub struct Point<T> {
    pub x: T,
    pub y: T,
}

impl<T> Point<T> {
    /// The first coordinate.
    pub fn get_x(&self) -> (r: &T)
        ensures
            *r == self.x,
    {
        &self.x
    }
}

/// Two values of one type.
pub struct Pair<T> {
    pub x: T,
    pub y: T,
}

impl<T> Pair<T> {
    /// The pair of `x` and `y`.
    pub fn new(x: T, y: T) -> (r: Self)
        ensures
            r.x == x,
            r.y == y,
    {
        Self { x, y }
    }
}

/// The longer of two strings by their length in bytes; `y` on a tie.
pub fn longest<'a>(x: &'a str, y: &'a str) -> (r: &'a str)
    ensures
        r@ == (if byte_len(x@) as usize > byte_len(y@) as usize {
            x@
        } else {
            y@
        }),
{
    if x.len() > y.len() {
        x
    } else {
        y
    }
}

/// A borrowed part of a longer text.
pub struct ImportantExcerpt<'a> {
    pub part: &'a str,
}

impl<'a> ImportantExcerpt<'a> {
    /// The level of every excerpt, three.
    pub fn level(&self) -> (r: i32)
        ensures
            r == 3,
    {
        3
    }
}

/// Something that can be summed up in a line of text.
pub trait Summary {
    /// The text of the summary.
    spec fn summary(&self) -> Seq<char>;

    /// The summary, as a string.
    fn summarize(&self) -> (r: String)
        ensures
            r@ == self.summary(),
    ;
}

/// A news article.
pub struct NewsArticle {
    pub headline: String,
    pub location: String,
    pub author: String,
    pub content: String,
}

impl Summary for NewsArticle {
    open spec fn summary(&self) -> Seq<char> {
        "(Read more...)"@
    }

    fn summarize(&self) -> (r: String) {
        String::from_str("(Read more...)")
    }
}

/// A short post by a user.
pub struct Tweet {
    pub username: String,
    pub content: String,
    pub reply: bool,
    pub retweet: bool,
}

impl Summary for Tweet {
    open spec fn summary(&self) -> Seq<char> {
        self.username@ + ": "@ + self.content@
    }

    fn summarize(&self) -> (r: String) {
        let mut s = self.username.clone();
        s.append(": ");
        s.append(self.content.as_str());
        s
    }
}

} // verus!
