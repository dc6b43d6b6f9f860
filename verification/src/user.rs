pub mod contact;
pub mod contact_self;
pub mod entity;
pub mod message;
pub mod room;
