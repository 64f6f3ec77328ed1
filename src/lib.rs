//! Engine of a low-and-slow connection holder: the partial request each
//! connection sends, the randomized keep-alive cycle, the lifecycle of one
//! connection unit and the supervisor that keeps every slot occupied.

pub mod random;
pub mod request;
pub mod unit;
pub mod supervisor;
pub mod config;
