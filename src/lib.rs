//! Session bookkeeping for drag-and-drop: the drag side that owns outgoing
//! sessions, the drop side that turns native pointer signals into delegate
//! events, and the reader that hands dropped items to the application.

pub mod model;
pub mod drag;
pub mod codec;
pub mod reader;
pub mod drop;
pub mod lifecycle;
pub mod hot_key;
pub mod menu;
pub mod data_provider;
