//! The core of an edge agent that reports detection events to a central
//! system over a message queue.

pub mod eventpb;
pub mod mq;
pub mod stamp;
pub mod wire;
