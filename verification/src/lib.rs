//! The decision logic of a Discord bot that posts random Reddit memes,
//! counts how often its commands are used, and lets a user page through
//! a history of memes with reactions.

pub mod text;
pub mod post;
pub mod table;
pub mod counter;
pub mod emoji;
pub mod meme;
pub mod momo;
pub mod hooks;
