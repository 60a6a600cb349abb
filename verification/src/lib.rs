//! Core logic of the TList desktop shell: validation of user-supplied git
//! names and paths, the decisions of the git synchronisation commands, the
//! taskbar badge picture, and the string operations they rest on.

pub mod text;
pub mod validate;
pub mod badge;
pub mod git;
