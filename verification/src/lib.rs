//! A byte budget for an allocator.
//!
//! The crate wraps an allocator in a [`Cap`], which admits or denies every
//! request against a configurable limit, returns the bytes of freed blocks to
//! the budget, and keeps two statistics: the bytes ever granted and the peak
//! of the bytes allocated at one time.
//!
//! * [`budget`] holds the mathematical model, a [`Budget`], and each
//!   operation as a function on it.
//! * [`cap`] holds the executable [`Cap`], verified against the model.
//! * [`history`] holds the laws that follow for every sequence of requests.

pub mod budget;
pub mod cap;
pub mod history;

pub use budget::Budget;
pub use cap::Cap;
pub use history::Event;
