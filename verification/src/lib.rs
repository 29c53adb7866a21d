//! Fleet bottles: immutable messages that agents of a fleet cast to one
//! another, their builder, their wire framing and an in-memory queue of
//! encoded frames.

use vstd::prelude::*;

pub mod bottle;
pub mod metadata;
pub mod payload;
pub mod priority;
pub mod protocol;
pub mod time;
pub mod transport;

pub use bottle::{Bottle, BottleBuilder};
pub use metadata::Metadata;
pub use payload::{
    AlertMessage, AlertSeverity, BottleCommand, BottlePayload, BottleState, ConsensusVote,
    DiscoveryReport, VoteValue,
};
pub use priority::Priority;
pub use protocol::{WireError, WireFormat};
pub use time::{Duration, Timestamp};
pub use transport::MemoryTransport;

verus! {

/// Unique identifier for an agent in the fleet.
pub type AgentId = String;

} // verus!
