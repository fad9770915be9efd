//! A remote, paginated mailbox presented as a read-only file tree.
//!
//! The mount point is a directory with one directory per message; each
//! message holds its attachments as files. Four parts make this up:
//!
//! * [`inode`] maps 64-bit inode numbers to places in the tree and back;
//! * [`cache`] and [`lru`] bound how stale an answer may be: listings and
//!   details expire by age, downloaded attachments by residency;
//! * [`fuse`] answers `lookup`, `getattr`, `read` and `readdir` from the
//!   caches and asks the remote mailbox, a [`client::Client`], where they
//!   cannot;
//! * [`error`] names the failures and the error numbers they are reported as.
//!
//! Around them stand the records of the mailbox ([`model`]), sessions
//! ([`session`]) and what the command line and the terminal interface decide
//! ([`cli`], [`tui`], [`util`], [`table`]). Every function carries a contract
//! that Verus proves; time, the network and the terminal stay with the caller.

pub mod cache;
pub mod cli;
pub mod client;
pub mod error;
pub mod fuse;
pub mod inode;
pub mod lru;
pub mod model;
pub mod session;
pub mod table;
pub mod text;
pub mod time;
pub mod tui;
pub mod util;
