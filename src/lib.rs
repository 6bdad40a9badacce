pub mod file_scan;
pub mod node;
pub mod outcome;
pub mod output;
pub mod port;
pub mod restriction;
pub mod wait_group;
