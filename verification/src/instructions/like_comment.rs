//! Liking a comment.

use vstd::prelude::*;
use crate::errors::CouponError;
use crate::events::CommentLiked;
use crate::identity::Identity;
use crate::state::comment::Comment;

verus! {

/// Counts one more like of `comment`, or reports `ArithmeticOverflow` and
/// changes nothing when the count is at its limit.
pub fn handler(comment: &mut Comment, comment_key: Identity, user: Identity) -> (r: Result<
    CommentLiked,
    CouponError,
>)
    ensures
        match r {
            Ok(event) => {
                &&& old(comment).likes < u32::MAX
                &&& *final(comment) == (Comment {
                    likes: (old(comment).likes + 1) as u32,
                    ..*old(comment)
                })
                &&& event == (CommentLiked { comment: comment_key, user })
            },
            Err(e) => {
                &&& old(comment).likes == u32::MAX
                &&& e == CouponError::ArithmeticOverflow
                &&& *final(comment) == *old(comment)
            },
        },
        old(comment).wf() ==> final(comment).wf(),
{
    if comment.likes == u32::MAX {
        return Err(CouponError::ArithmeticOverflow);
    }
    comment.likes = comment.likes + 1;
    Ok(CommentLiked { comment: comment_key, user })
}

} // verus!
