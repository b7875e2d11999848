pub mod events;
pub mod list;
pub mod page;
pub mod laws;
