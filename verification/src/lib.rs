//! The decisions behind a GPU context that windows share: which adapter to try
//! first, what to ask of it, when to give it up, and when a context has to be
//! made anew.
//!
//! Nothing here waits for the system. Where a driver has to be asked, a function
//! says what to ask and another takes the answer.

pub mod adapter;
pub mod config;
pub mod context;
pub mod device_choice;
pub mod error;
pub mod features;
pub mod handles;
pub mod instance;
pub mod limits;
pub mod pci_id;
pub mod selection;
pub mod web;

pub use adapter::CompositorGpuHint;
pub use config::{FeatureFilterFn, GpuContextConfig};
pub use context::{GpuContext, WgpuContext};
pub use pci_id::parse_pci_id;
