pub mod types;
pub mod state;
pub mod flow;
pub mod backend;
pub mod interp;
pub mod flags;
pub mod lower;
pub mod control;
pub mod string;
pub mod instruction;
pub mod block;
pub mod run;
