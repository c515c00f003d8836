//! A sans-I/O engine for partial checkouts of a large repository.
//!
//! A partial checkout holds a chosen, growing subset of the files of a
//! repository, with a record of what was chosen and of the commit it was last
//! brought to. This library holds everything that is decided about such a
//! checkout; it runs nothing and touches no disk.
//!
//! - [`metadata`] and [`path_set`]: the record and its set of selected paths.
//! - [`path_selector`]: glob patterns and the test of a path against them.
//! - [`git`]: the command lines handed to git and the reading of their output.
//! - [`backend`]: the requests a flow hands to its driver, and the replies.
//! - [`flows`]: initialise, extend the selection, refresh, report status; each
//!   a function from the state of the flow and a reply to the next request.
//! - [`repository`]: a working copy as one value, with the flows that open
//!   one, make one and add paths to one.
//! - [`report`]: the words of a status report.
//!
//! A driver starts a flow with `Reply::Start`, carries out each request that
//! comes back, and hands in the reply, until the flow says it is finished.

pub mod backend;
pub mod error;
pub mod flows;
pub mod git;
pub mod metadata;
pub mod path_selector;
pub mod path_set;
pub mod report;
pub mod repository;
pub mod text;
