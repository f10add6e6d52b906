//! A live model of a PipeWire graph (nodes, their ports, and the links
//! between them), kept up to date from the registry's news, announcing each
//! change on broadcast channels, and shaped for web clients.
mod broadcast;
pub mod pipewire;
pub mod server;
pub mod text;
