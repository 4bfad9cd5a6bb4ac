pub mod actions;
pub mod app;
pub mod io;
pub mod key;
pub mod laws;
pub mod request;
pub mod state;
pub mod text;
