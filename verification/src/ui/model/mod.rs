//! What the application keeps of the user interface and what it does with
//! a message.

pub mod update;
