//! A bidirectional byte-relay engine: the verified core of a bridge between a
//! point-to-point serial link and a TCP connection.
//!
//! The engine is deliberately free of I/O. It holds the two bounded hand-off
//! channels (one per direction) and the decision logic of the two relay tasks
//! and of the connection supervisor, each as a step function from an observed
//! transport event to the next state and the action the surrounding loop must
//! perform. The surrounding program owns the transports, performs the reads,
//! writes, accepts and suspensions, and feeds every outcome back in as an
//! event.

pub mod channel;
pub mod engine;
pub mod supervisor;
