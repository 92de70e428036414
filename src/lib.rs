//! A fan-out task dispatcher: the message codec, the decisions of a worker's
//! event loop and the coordinator's run plan.
pub mod codec;
pub mod worker;
pub mod coordinator;
