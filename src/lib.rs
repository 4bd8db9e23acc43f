//! Technical-analysis indicators over in-memory price series: the verified part.
//!
//! Every indicator validates its parameters the same way, emits one value per
//! window position, and advances its rolling state by one incoming (and, for
//! windowed indicators, one outgoing) sample per step. That shared geometry is
//! what this crate states and proves:
//!
//! - [`kind`]: the indicator family and, per member, where its first output
//!   stands and how long its input must be;
//! - [`error`]: the error taxonomy and its messages;
//! - [`window`]: validation and the step cursor that hands out, for every
//!   output position, the sample indices the rolling state consumes;
//! - [`rolling`]: the exact-arithmetic identities behind the rolling updates;
//! - [`circular_buffer`]: a bounded FIFO of recent samples.
use vstd::prelude::*;

pub mod circular_buffer;
pub mod error;
pub mod kind;
pub mod rolling;
pub mod window;

verus! {

/// Common interface of the indicators: drain every remaining step into one
/// output collection.
pub trait Indicator<'a> {
    type Output;

    fn calculate(&mut self) -> Result<Self::Output, String>;
}

} // verus!
