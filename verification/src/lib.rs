//! Verified building blocks for a handful of small file-system tools:
//! expansion of a leading `~` to the user's home directory, the protocol by
//! which a rename's destination is obtained from an interactive editor, and
//! the decisions the tools take around their file-system calls.
//!
//! Apart from asking the environment for the home directory, nothing here
//! touches the file system, a terminal or a child process. The caller
//! performs those effects and hands their outcomes back as plain values;
//! every function that decides anything is proved against its contract.
//!
//! A few operations are not proved but taken on trust from the libraries
//! that provide them: the lookup of the home directory in `lookup`, the
//! lexical path operations in `paths`, and the lowering of ASCII letters in
//! `text`. Each is a thin wrapper whose documentation says what is assumed.

pub mod editor;
pub mod home;
pub mod lookup;
pub mod mkall;
pub mod paths;
pub mod remove;
pub mod rename;
pub mod report;
pub mod segments;
pub mod text;
pub mod touch;

pub use home::{ExpandUser, HomeDirError};
pub use segments::SegmentedPath;
