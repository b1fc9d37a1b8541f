//! A model of a CAN database (DBC): nodes, messages and their frame
//! identifiers, and the signals carried by messages.

pub mod frame_id;
pub mod node;
pub mod signal;
pub mod message;
pub mod dbc;
