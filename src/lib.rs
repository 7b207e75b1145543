//! A fixed-size worker pool: the dispatch channel, the decisions of each
//! worker's loop, the shutdown protocol, and the answers of a small web server
//! whose requests the pool runs.

use vstd::prelude::*;

pub mod channel;
pub mod http;
pub mod message;
pub mod pool;
pub mod worker;

verus! {

} // verus!
