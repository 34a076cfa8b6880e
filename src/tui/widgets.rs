pub mod bufferlist;
pub mod chat;
pub mod nicklist;
pub mod prompt;
pub mod status;
pub mod topic;
pub mod vertbar;
