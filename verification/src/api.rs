//! What travels between operators, server and agents, and what the
//! server's endpoints answer.

pub mod application;
pub mod env;
pub mod node;
pub mod req;
pub mod resp;
