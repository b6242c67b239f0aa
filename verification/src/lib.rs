//! An ephemeral, encrypted, one-time object store.

pub mod calls;
pub mod clock;
pub mod config;
pub mod dummy;
pub mod hexadecimal;
pub mod history;
pub mod identifier;
pub mod laws;
pub mod limiter;
pub mod object;
pub mod pages;
pub mod reply;
pub mod sealing;
pub mod storage;
