//! The shape rules of a fully connected feedforward network with one hidden
//! layer: which configurations may build a network, and which input and
//! target vectors a built network accepts.
pub mod topology;

pub use topology::{NetError, Topology, TopologyModel};
