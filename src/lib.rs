//! Telemetry agent core: link settings and configuration, reading encoding,
//! bounded retry, and the supervision cycle that ties them together.
use vstd::prelude::*;

pub mod link;
pub mod payload;
pub mod retry;
pub mod supervisor;

verus! {

} // verus!
