//! A fixed-capacity bump (arena) allocator.
//!
//! The allocator owns the bookkeeping for a byte arena of fixed capacity:
//! a cursor marking the next free address and a count of live allocations.
//! Requests are served by advancing the cursor; space is reclaimed all at
//! once when the live count returns to zero.

pub mod allocator;
pub mod report;

pub use allocator::BumpAllocator;
pub use allocator::ExhaustionError;
pub use report::decimal_string;
pub use report::report;
