//! Live topology of a multi-room audio server: the snapshot model, the
//! synchronizer that fetches and installs snapshots, and the navigation state
//! machine that tracks which view and which row an operator has selected.

pub mod navigation;
pub mod protocol;
pub mod snapcast;
pub mod state;
