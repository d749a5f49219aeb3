//! Cancellable fetch pipeline: cancellation signals, timer-backed cancellation,
//! the request entity model and the redirect-following dispatcher.
use vstd::prelude::*;

pub mod attribute;
pub mod dispatch;
pub mod globals;
pub mod iterator;
pub mod request;
pub mod signal;
pub mod text;
pub mod urls;

verus! {

} // verus!
