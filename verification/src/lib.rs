//! Recovery of a virtual-reality session.
//!
//! The library holds the logic of a small recovery tool: it decides, from a
//! snapshot of which processes run and from the client's log text, which world
//! the user was last in, which log file is the most recent one, and in which
//! order the processes are to be killed and restarted.  Reading the log,
//! listing the directory and driving the processes is operating-system glue
//! and stays outside.

pub mod extract;
pub mod lines;
pub mod locate;
pub mod plan;
pub mod text;
