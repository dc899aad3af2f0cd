//! The verified core of a desktop tally counter.
use vstd::prelude::*;

pub mod catalog;
pub mod dates;
pub mod error;
pub mod path;
pub mod platform;
pub mod service;
pub mod text;
pub mod ui;

verus! {
} // verus!
