//! The data pipeline behind the live audio-spectrum bars: settings resolution,
//! the analyzer's configuration artifact and launch command, the shared frame
//! state driven by the analyzer's output, and the registry of consumers.

pub mod config;
pub mod text;
pub mod launch;
pub mod state;
pub mod registry;
