pub mod capture;
pub mod clients;
pub mod event;
pub mod frames;
pub mod handle;
pub mod interactive;
pub mod laws;
pub mod mode;
pub mod outcomes;
pub mod rendering;
pub mod server;
pub mod size;
pub mod terminal;
