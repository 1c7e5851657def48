//! The decision-making core of a browser application that renders on a pool
//! of web workers and patches itself while it runs.
//!
//! The browser itself stays outside: this crate says which worker is used
//! next, what goes into each message, what an incoming message asks for, where
//! a pixel lies and what is to be done with a word from the development
//! server. The application performs those actions and hands back what came of
//! them.

pub mod hotpatch;
pub mod message;
pub mod pool;
pub mod pool_laws;
pub mod scene;
pub mod shared_pool;
pub mod text;
pub mod work;
