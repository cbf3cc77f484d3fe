//! A manager of simulated backend HTTP servers, for testing monitoring tools.
//!
//! The library holds the decisions of the manager: the registry of virtual
//! servers and what each management request does to it, the validation of
//! requests, which listener a server mode calls for, and the replies a
//! virtual server gives.

pub mod text;
pub mod trusted;
pub mod state;
pub mod virtual_server;
pub mod management;
pub mod laws;
