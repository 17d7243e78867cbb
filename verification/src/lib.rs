//! Verified decision logic of the Gateway -> Circuit bridge relay: how command
//! line calls and messages are turned into Gateway runtime calls, how message
//! delivery and confirmation transactions are put together, and the limits the
//! message lane loop runs with.

pub mod primitives;
pub mod chain;
pub mod runtime;
pub mod messages_lane;
pub mod encode_call;
pub mod encode_message;
pub mod lane_loop;
