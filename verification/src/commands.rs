//! What the user interface can ask of the app.
pub mod peers;
pub mod settings;
pub mod transfers;
