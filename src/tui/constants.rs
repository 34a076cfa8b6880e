use vstd::prelude::*;

verus! {

/// Width of the list of buffers, on the left.
pub const MIN_BUFFER_LIST_WIDTH: u16 = 20;

/// Width of the list of nicknames, on the right.
pub const MIN_NICK_LIST_WIDTH: u16 = 20;

/// Least width of the chat area between the two lists.
pub const MIN_CHAT_WIDTH: u16 = 30;

} // verus!
