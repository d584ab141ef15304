//! Startup of a price-oracle publishing agent: the settings it runs with, the
//! identity it signs with, and the ledger client it is about to use.
//!
//! Nothing here reads a file, the environment or the network. The caller
//! reads, hands over what it read as plain values, and acts on what comes back.

pub mod client;
pub mod document;
pub mod endpoint;
pub mod identity;
pub mod report;
pub mod settings;
pub mod startup;

pub use client::{bootstrap, BootstrapError, NonceStrategy, PreparationPolicy, RpcClient};
pub use endpoint::Endpoint;
pub use identity::{SigningIdentity, SigningWallet};
pub use report::{Disposition, LogRecord, Progress, Severity, Stage, Verification};
pub use settings::{
    ConfigurationError, EnvVar, FileLayer, FileValue, Overlay, Settings, SettingsKey,
};
pub use startup::{open, Opening};
