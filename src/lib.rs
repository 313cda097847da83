//! A blocking-work bridge for a single-task executor, and the small libraries
//! that sit beside it.
//!
//! The decision logic of the executor lives here and is verified: the shared
//! completion cell that a background worker fills and a suspended computation
//! polls (`cell`, with its laws in `laws`), and the bookkeeping of the driving
//! loop that alternates progress attempts and parking (`driver`). Threads,
//! locks, wakers and parking are the application's concern.
//!
//! Beside it: the answer of a one-page web server (`http`), a number-guessing
//! game's verdicts (`guessing`), a search configuration (`minigrep`), blog
//! posts and drawable screens (`blog`), and smaller helpers on numbers,
//! strings, records and closures.

pub mod adder;
pub mod advanced;
pub mod art;
pub mod basics;
pub mod blog;
pub mod cell;
pub mod driver;
pub mod functional;
pub mod generics;
pub mod guessing;
pub mod http;
pub mod laws;
pub mod minigrep;
pub mod ownership;
pub mod restaurant;
pub mod smart_pointers;
pub mod structs;
