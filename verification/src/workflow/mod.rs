pub mod flow;
pub mod tasklist;
