//! A cache around a calculation, filtering shoes by size, and a counter that
//! counts from one to five.
use vstd::prelude::*;

verus! {

/// A calculation whose first result is kept and handed out from then on.
pub struct Cacher<T: Fn(u32) -> u32> {
    calculation: T,
    value: Option<u32>,
}

impl<T: Fn(u32) -> u32> Cacher<T> {
    /// The calculation behind the cache.
    pub closed spec fn calculation(&self) -> T {
        self.calculation
    }

    /// The kept result, once there is one.
    pub closed spec fn cached(&self) -> Option<u32> {
        self.value
    }

    /// A cache around `calculation` that holds nothing yet.
    pub fn new(calculation: T) -> (r: Cacher<T>)
        ensures
            r.calculation() == calculation,
            r.cached() is None,
    {
        Cacher { calculation, value: None }
    }

    /// The kept result if there is one; otherwise the calculation's result for
    /// `arg`, which is kept from then on.
    pub fn value(&mut self, arg: u32) -> (r: u32)
        requires
            old(self).cached() is None ==> old(self).calculation().requires((arg,)),
        ensures
            final(self).calculation() == old(self).calculation(),
            final(self).cached() == Some(r),
            match old(self).cached() {
                Some(v) => r == v,
                None => old(self).calculation().ensures((arg,), r),
            },
    {
        match self.value {
            Some(v) => v,
            None => {
                let v = (self.calculation)(arg);
                self.value = Some(v);
                v
            },
        }
    }
}

/// A day's exercise.
pub enum Workout {
    /// Pushups, then situps.
    Strength { pushups: u32, situps: u32 },
    /// A day off.
    Rest,
    /// A run of some minutes.
    Run { minutes: u32 },
}

/// The workout for `intensity`: below 25, as many pushups and then situps as
/// `calculation` gives for it; otherwise a rest day when `random_number` is 3,
/// else a run of as many minutes as `calculation` gives. The calculation is
/// asked at most once; its one answer serves every count.
pub fn generate_workout<T: Fn(u32) -> u32>(intensity: u32, random_number: u32, calculation: T) -> (r:
    Workout)
    requires
        calculation.requires((intensity,)),
    ensures
        intensity < 25 ==> exists|v: u32|
            calculation.ensures((intensity,), v) && r == (Workout::Strength { pushups: v, situps: v }),
        intensity >= 25 && random_number == 3 ==> r is Rest,
        intensity >= 25 && random_number != 3 ==> exists|v: u32|
            calculation.ensures((intensity,), v) && r == (Workout::Run { minutes: v }),
{
    let mut expensive_result = Cacher::new(calculation);
    if intensity < 25 {
        let pushups = expensive_result.value(intensity);
        let situps = expensive_result.value(intensity);
        Workout::Strength { pushups, situps }
    } else {
        if random_number == 3 {
            Workout::Rest
        } else {
            Workout::Run { minutes: expensive_result.value(intensity) }
        }
    }
}

/// A shoe of some size and style.
#[derive(PartialEq, Debug)]
pub struct Shoe {
    pub size: u32,
    pub style: String,
}

/// The shoes of `shoes` that have size `shoe_size`, in their order.
pub fn shoes_in_my_size(shoes: Vec<Shoe>, shoe_size: u32) -> (r: Vec<Shoe>)
    ensures
        r@ == shoes@.filter(|s: Shoe| s.size == shoe_size),
{
    let ghost all = shoes@;
    let n = shoes.len();
    let mut rest = shoes;
    let mut kept: Vec<Shoe> = Vec::new();
    let mut k: usize = 0;
    proof {
        reveal(Seq::filter);
        assert(all.take(0) =~= Seq::<Shoe>::empty());
        assert(all.skip(0) =~= all);
    }
    while rest.len() > 0
        invariant
            n == all.len(),
            k <= n,
            rest@ == all.skip(k as int),
            kept@ == all.take(k as int).filter(|s: Shoe| s.size == shoe_size),
        decreases rest@.len(),
    {
        let s = rest.remove(0);
        proof {
            reveal(Seq::filter);
            assert(all.take(k + 1).drop_last() =~= all.take(k as int));
            assert(all.take(k + 1).last() == s);
        }
        if s.size == shoe_size {
            kept.push(s);
        }
        k = k + 1;
        proof {
            assert(rest@ =~= all.skip(k as int));
        }
    }
    proof {
        assert(all.take(k as int) =~= all);
    }
    kept
}

/// Counts from one to five, then reports that it is done.
pub struct Counter {
    count: u32,
}

impl Counter {
    /// How many times `next` was called.
    pub closed spec fn count(&self) -> u32 {
        self.count
    }

    /// A counter that has not started.
    pub fn new() -> (r: Counter)
        ensures
            r.count() == 0,
    {
        Counter { count: 0 }
    }

    /// The next number below six, or nothing once five was reached.
    pub fn next(&mut self) -> (r: Option<u32>)
        requires
            old(self).count() < u32::MAX,
        ensures
            final(self).count() == old(self).count() + 1,
            r == (if final(self).count() < 6 {
                Some(final(self).count())
            } else {
                None
            }),
    {
        self.count = self.count + 1;
        if self.count < 6 {
            Some(self.count)
        } else {
            None
        }
    }
}

} // verus!
