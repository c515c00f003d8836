//! The four flows of a partial checkout: initialise, extend the selection,
//! refresh, and report status. Each is a function from where the flow stands and
//! what the driver answered to what the driver is to do next.

pub mod add_paths;
pub mod clone;
pub mod smart_pull;
pub mod status;
