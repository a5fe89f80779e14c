//! The reconcilers, one per managed application.

pub mod deployer;
pub mod protocol;

pub use deployer::{Deployer, DeployerArgs};
