//! State core of a multi-panel text editor: the panel and tab tree, the text
//! buffers with their cursors, the observer registry, and the decision logic
//! behind the input, hover and file-tree event loops.

pub mod cursor_sync;
pub mod debounce;
pub mod explorer;
pub mod file_tree;
pub mod hover;
pub mod keys;
pub mod lsp;
pub mod manager;
pub mod paths;
pub mod rope;
pub mod store;
pub mod subscription;
pub mod text;
