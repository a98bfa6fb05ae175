//! Launch core of a kiosk menu: the entry registry, console arbitration,
//! child-process supervision and output relaying, each as verified decisions
//! that the surrounding program carries out.

pub mod config;
pub mod console;
pub mod launcher;
pub mod registry;
pub mod registry_laws;
pub mod relay;
pub mod supervisor;
pub mod supervisor_laws;
pub mod text;
