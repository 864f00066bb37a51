//! Native shell logic of the InTime desktop application: the tray menu, the
//! main window's visibility state machine, and the commands offered to the
//! hosted frontend, each stated as a pure decision that the host runtime
//! carries out.
pub mod commands;
pub mod window;
pub mod tray;
pub mod laws;
