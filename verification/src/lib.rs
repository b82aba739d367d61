pub mod text;
pub mod unread;
pub mod navigation;
pub mod badge;
pub mod privacy;
pub mod permission;
pub mod state;
