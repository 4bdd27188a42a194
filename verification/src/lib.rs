//! A meal-tracking service: the rules of its HTTP backend and of the
//! single-page frontend that talks to it, with machine-checked contracts.

pub mod backend;
pub mod frontend;
pub mod shared;
pub mod text;
