//! Application state core for a desktop shell: a dirty-tracked key-value
//! store, a debounced persistence facade over it, a page router driven by a
//! closed set of actions, and a lifecycle supervisor for a background broker.

pub mod device_page;
pub mod error;
pub mod persistence;
pub mod router;
pub mod service;
pub mod storage;
pub mod window_event;
