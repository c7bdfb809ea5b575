//! Reads the multi-block election state of a Substrate chain and simulates its elections.
//!
//! The crate holds everything that is decided or computed: which storage entries and constants
//! are asked for, what their bytes mean, which defaults stand in for what a chain does not
//! provide, and how an election is solved. Talking to a node is left to the caller, who performs
//! the requests that the crate describes and hands the replies back.

pub mod decode_error;
pub mod scale;
pub mod models;
pub mod primitives;
pub mod storage;
pub mod staking;
pub mod multi_block_state_client;
pub mod miner_config;
pub mod block_details;
pub mod snapshot;
pub mod cli;
pub mod laws;
