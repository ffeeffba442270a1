//! Port scanning logic: the knowledge base of well-known ports, the scan
//! session state machine, the application state fed by scan messages, and the
//! text handling around them.

pub mod ports;
pub mod text;
pub mod scan;
pub mod state;
pub mod results;
pub mod cli;
pub mod banner;
pub mod port_list;
