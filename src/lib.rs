//! A live wiki editor's core: a document tree and its renderer, the
//! debounced autosave state machine, the document store rules, the route
//! resolver and the page controller's decisions.

pub mod autosave;
pub mod doc;
pub mod editor;
pub mod element;
pub mod page;
pub mod render;
pub mod route;
pub mod storage;
