//! Comments on promotions.

use vstd::prelude::*;
use crate::identity::Identity;

verus! {

/// Longest comment, in characters.
pub const MAX_COMMENT_LEN: usize = 500;

/// A comment on a promotion, possibly in reply to an earlier comment.
#[derive(Clone, Debug, PartialEq, Eq)]
pub struct Comment {
    /// Who wrote the comment.
    pub user: Identity,
    /// The address of the promotion.
    pub promotion: Identity,
    /// The text.
    pub content: String,
    /// When the comment was written.
    pub created_at: i64,
    /// How often the comment was liked.
    pub likes: u32,
    /// Whether the writer was the authority of the promotion's merchant.
    pub is_merchant_reply: bool,
    /// The address of the comment that this one replies to.
    pub parent_comment: Option<Identity>,
}

impl Comment {
    /// The text is not empty and within its limit.
    pub open spec fn wf(&self) -> bool {
        0 < self.content@.len() <= 500
    }
}

} // verus!
