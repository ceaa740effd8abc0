//! A broker that runs whitelisted PowerShell commands with administrator rights,
//! and the client that reaches it: what they decide, apart from the input and
//! output that a program does for them.

pub mod broker;
pub mod client;
pub mod error;
pub mod limiter;
pub mod log;
pub mod normalize;
pub mod output;
pub mod pipe;
pub mod policy;
pub mod protocol;
pub mod service;
pub mod text;
pub mod whitelist;
pub mod wide;
