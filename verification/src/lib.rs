//! Session logic for a single hardware wallet: what the firmware descriptors
//! of its Bitcoin apps mean, which messages the session and the presentation
//! layer exchange, and how each side moves from one state to the next.
//!
//! Nothing here touches the device or the network. The session is a state
//! machine: it is handed commands and the results of outside work, and answers
//! with the events to publish and the next piece of outside work to perform.

pub mod cli;
pub mod device;
pub mod driver;
pub mod gui;
pub mod gui_laws;
pub mod install_url;
pub mod ledger_service;
pub mod message;
pub mod notice;
pub mod screen;
pub mod session;
pub mod session_laws;
pub mod text;
pub mod version;
