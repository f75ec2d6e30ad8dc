//! Bookkeeping decisions of the desktop app's managed agents: upload
//! progress chunking, boot recovery of the store journal, and agent lookup.

pub mod agents;
pub mod recovery;
pub mod upload;
