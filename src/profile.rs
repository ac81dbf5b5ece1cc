//! Creator profiles and their mathematical view.
use crate::amount::Amount;
use vstd::prelude::*;

verus! {

/// A creator's public record, as callers read it.
#[derive(Clone, Debug)]
pub struct CreatorProfile {
    pub name: String,
    pub bio: String,
    pub avatar_url: String,
    pub is_active: bool,
    pub total_tips_received: Amount,
    pub tip_count: Amount,
}

/// What a profile says, with text as character sequences and counters as
/// natural numbers.
pub struct ProfileView {
    pub name: Seq<char>,
    pub bio: Seq<char>,
    pub avatar_url: Seq<char>,
    pub is_active: bool,
    pub total_tips_received: nat,
    pub tip_count: nat,
}

/// The profile of an identity that never registered: empty and inactive.
pub open spec fn empty_profile() -> ProfileView {
    ProfileView {
        name: Seq::empty(),
        bio: Seq::empty(),
        avatar_url: Seq::empty(),
        is_active: false,
        total_tips_received: 0,
        tip_count: 0,
    }
}

impl View for CreatorProfile {
    type V = ProfileView;

    open spec fn view(&self) -> ProfileView {
        ProfileView {
            name: self.name@,
            bio: self.bio@,
            avatar_url: self.avatar_url@,
            is_active: self.is_active,
            total_tips_received: self.total_tips_received.value(),
            tip_count: self.tip_count.value(),
        }
    }
}

} // verus!
