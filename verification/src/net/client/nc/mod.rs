/// The configuration of the NpcControl client.
pub mod config;
