//! The rules of a desktop shell around Google Chat: which links stay in its window, how new
//! messages are announced, what the settings say and what the windows do.

pub mod base64;
pub mod images;
pub mod links;
pub mod notifications;
pub mod settings;
pub mod text;
pub mod transfers;
pub mod windows;
