//! Supervision of a Node extension host process.

pub mod failure;
pub mod info;
pub mod json;
pub mod launch;
pub mod laws;
pub mod lifecycle;
pub mod manifest;
pub mod model;
pub mod paths;
pub mod port;
pub mod session;
pub mod stderr;
pub mod supervisor;
pub mod text;
