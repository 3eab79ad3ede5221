//! Operator command protocol: the discrete control state that commands act
//! on, the commands themselves, and the transition each command makes.

pub mod types;
pub mod command;
