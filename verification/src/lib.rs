//! A bridge between a desktop application shell and a scripting host:
//! structured values, the registry of host callbacks, command dispatch,
//! event relay and the decisions of the shell's lifecycle.

pub mod assoc;
pub mod dispatch;
pub mod fs_protocol;
pub mod host;
pub mod interpreter;
pub mod json;
pub mod lifecycle;
pub mod python_utils;
pub mod registry;
pub mod relay;
pub mod shell;
pub mod text;
pub mod value;
