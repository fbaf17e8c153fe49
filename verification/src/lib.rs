//! Management of a personal directory of small executable scripts: list
//! them, create one from a fixed template, edit one, soft-delete one into
//! a trash subdirectory, or run one with forwarded arguments.
//!
//! The library holds the decision logic and its proofs: which command a
//! set of flags selects, which directory entries count as scripts, the
//! exact effects and messages of each operation, and a directory model
//! under which the lifecycle laws are proved. A thin binary around the
//! library observes the filesystem, asks the library what to do, and
//! carries the planned effects out.

pub mod config;
pub mod dispatch;
pub mod lifecycle;
pub mod listing;
pub mod model;
