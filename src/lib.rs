//! An owned, singly linked sequence with consuming, borrowing and mutably
//! borrowing traversal, in-place splitting and bulk construction.

pub mod iter;
pub mod list;
pub mod primes;

pub use iter::{add_to_each, Iter, IterMut};
pub use list::{List, Next};
pub use primes::expensive_computation;
