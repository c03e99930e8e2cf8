//! Commenting on a promotion.

use vstd::prelude::*;
use crate::errors::CouponError;
use crate::events::CommentAdded;
use crate::identity::Identity;
use crate::state::badge::{
    award_applied,
    award_refusal,
    award_to,
    slot_wf,
    Activity,
    UserReputation,
};
use crate::state::comment::{Comment, MAX_COMMENT_LEN};
use crate::state::merchant::Merchant;
use crate::state::promotion::Promotion;

verus! {

/// Why a comment is refused, if it is. The guards, in order: the text has
/// at most 500 characters (else `DescriptionTooLong`); it is not empty
/// (else `NameTooLong`); `merchant_key` is the merchant of the promotion;
/// the reputation record, if there is one, is the user's and can take a
/// comment.
pub open spec fn refusal(
    promotion: Promotion,
    reputation: Option<UserReputation>,
    merchant_key: Identity,
    user: Identity,
    content: Seq<char>,
) -> Option<CouponError> {
    if content.len() > 500 {
        Some(CouponError::DescriptionTooLong)
    } else if content.len() == 0 {
        Some(CouponError::NameTooLong)
    } else if promotion.merchant != merchant_key {
        Some(CouponError::WrongMerchant)
    } else {
        award_refusal(reputation, user, Activity::Comment)
    }
}

/// The record of a comment that has just been posted. It counts as the
/// merchant's reply exactly when the writer is the authority of the
/// promotion's merchant.
pub open spec fn posted(
    merchant: Merchant,
    promotion_key: Identity,
    user: Identity,
    content: String,
    parent_comment: Option<Identity>,
    now: i64,
) -> Comment {
    Comment {
        user,
        promotion: promotion_key,
        content,
        created_at: now,
        likes: 0,
        is_merchant_reply: merchant.authority == user,
        parent_comment,
    }
}

/// Posts a comment of `user` on the promotion kept under `promotion_key`,
/// in reply to `parent_comment` if one is named.
///
/// `merchant` is the promotion's merchant, kept under `merchant_key`, and
/// `comment_key` the address under which the new comment will be kept. On
/// success the user has earned the points of a comment. `reputation` is
/// the user's reputation record, or nothing if the user has none yet: the
/// record is then created.
pub fn handler(
    promotion: &Promotion,
    merchant: &Merchant,
    reputation: &mut Option<UserReputation>,
    comment_key: Identity,
    promotion_key: Identity,
    merchant_key: Identity,
    user: Identity,
    content: String,
    parent_comment: Option<Identity>,
    now: i64,
) -> (r: Result<(Comment, CommentAdded), CouponError>)
    ensures
        match r {
            Ok((comment, event)) => {
                &&& refusal(*promotion, *old(reputation), merchant_key, user, content@) is None
                &&& comment == posted(*merchant, promotion_key, user, content, parent_comment, now)
                &&& comment.wf()
                &&& award_applied(
                    *old(reputation),
                    *final(reputation),
                    user,
                    now,
                    Activity::Comment,
                )
                &&& event == (CommentAdded {
                    comment: comment_key,
                    user,
                    promotion: promotion_key,
                    content,
                    is_reply: parent_comment is Some,
                })
            },
            Err(e) => {
                &&& refusal(*promotion, *old(reputation), merchant_key, user, content@) == Some(e)
                &&& *final(reputation) == *old(reputation)
            },
        },
        slot_wf(*old(reputation)) ==> slot_wf(*final(reputation)),
{
    let length = content.as_str().unicode_len();
    if length > MAX_COMMENT_LEN {
        return Err(CouponError::DescriptionTooLong);
    }
    if length == 0 {
        return Err(CouponError::NameTooLong);
    }
    if promotion.merchant != merchant_key {
        return Err(CouponError::WrongMerchant);
    }
    match award_to(reputation, user, now, Activity::Comment) {
        Ok(()) => {},
        Err(e) => {
            return Err(e);
        },
    }
    let event = CommentAdded {
        comment: comment_key,
        user,
        promotion: promotion_key,
        content: content.clone(),
        is_reply: parent_comment.is_some(),
    };
    let comment = Comment {
        user,
        promotion: promotion_key,
        content,
        created_at: now,
        likes: 0,
        is_merchant_reply: merchant.authority == user,
        parent_comment,
    };
    Ok((comment, event))
}

} // verus!
