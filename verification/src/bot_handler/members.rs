//! Keeping track of who is in which group chat.
use super::{account_id, User};
use crate::db::{
    track_chat_member, track_chat_member_statement, untrack_chat_member,
    untrack_chat_member_statement, Statement,
};
use vstd::prelude::*;

verus! {

/// A user in a chat.
#[derive(Clone, Copy, Debug, PartialEq, Eq, Structural)]
pub struct Membership {
    pub chat_id: i64,
    pub user_id: i64,
}

impl Membership {
    /// The statement that tracks the user in the chat.
    pub fn track(&self) -> (statement: Statement)
        ensures
            statement@ == track_chat_member_statement(self.chat_id, self.user_id),
    {
        track_chat_member(self.chat_id, self.user_id)
    }

    /// The statement that ends the tracking.
    pub fn untrack(&self) -> (statement: Statement)
        ensures
            statement@ == untrack_chat_member_statement(self.chat_id, self.user_id),
    {
        untrack_chat_member(self.chat_id, self.user_id)
    }
}

/// The membership that a message in a group shows: its sender's, unless that
/// is a bot or nobody.
pub open spec fn shown_membership(chat_id: i64, from: Option<User>) -> Option<Membership> {
    match from {
        Some(user) => if user.is_bot {
            None
        } else {
            Some(Membership { chat_id, user_id: account_id(user) })
        },
        None => None,
    }
}

/// What a message in a group leads to.
#[derive(Clone, Copy, Debug, PartialEq, Eq, Structural)]
pub enum TrackStep {
    /// Nothing has to be done.
    Done,
    /// See whether the cache holds the membership.
    LookInCache(LookInCache),
    /// Put the membership into the cache, then track it in the database.
    Track(Membership),
}

/// See whether the cache holds the membership.
#[derive(Clone, Copy, Debug, PartialEq, Eq, Structural)]
pub struct LookInCache {
    pub membership: Membership,
}

/// What a message in a group leads to.
pub open spec fn group_step(chat_id: i64, from: Option<User>) -> TrackStep {
    match shown_membership(chat_id, from) {
        Some(membership) => TrackStep::LookInCache(LookInCache { membership }),
        None => TrackStep::Done,
    }
}

/// Handles a message in a group, whose sender is to be tracked.
pub fn handle_group_message(chat_id: i64, from: Option<User>) -> (step: TrackStep)
    ensures
        step == group_step(chat_id, from),
{
    match from {
        Some(user) => if user.is_bot {
            TrackStep::Done
        } else {
            let membership = Membership { chat_id, user_id: user.id as i64 };
            TrackStep::LookInCache(LookInCache { membership })
        },
        None => TrackStep::Done,
    }
}

impl LookInCache {
    pub open spec fn after(self, cached: bool) -> TrackStep {
        if cached {
            TrackStep::Done
        } else {
            TrackStep::Track(self.membership)
        }
    }

    /// Goes on with what the cache says: one that was tracked lately is left
    /// alone.
    pub fn resume(self, cached: bool) -> (step: TrackStep)
        ensures
            step == self.after(cached),
    {
        if cached {
            TrackStep::Done
        } else {
            TrackStep::Track(self.membership)
        }
    }
}

/// The memberships of those who joined, without the bots, in order.
pub open spec fn joined_memberships(chat_id: i64, users: Seq<User>) -> Seq<Membership> {
    users.filter(|user: User| !user.is_bot).map_values(
        |user: User| Membership { chat_id, user_id: account_id(user) },
    )
}

/// Handles new members of a group. Each membership of the result is to be put
/// into the cache, then tracked in the database, in order.
pub fn handle_new_chat_members(chat_id: i64, joined: Option<Vec<User>>) -> (memberships: Vec<
    Membership,
>)
    ensures
        memberships@ == match joined {
            Some(users) => joined_memberships(chat_id, users@),
            None => Seq::empty(),
        },
{
    let mut memberships: Vec<Membership> = Vec::new();
    let users = match joined {
        Some(users) => users,
        None => return memberships,
    };
    let ghost no_bot = |user: User| !user.is_bot;
    let ghost member = |user: User| Membership { chat_id, user_id: account_id(user) };
    assert(users@.take(0).filter(no_bot).map_values(member) =~= Seq::empty()) by {
        reveal(Seq::filter);
    }
    let mut i: usize = 0;
    while i < users.len()
        invariant
            i <= users@.len(),
            no_bot == (|user: User| !user.is_bot),
            member == (|user: User| Membership { chat_id, user_id: account_id(user) }),
            memberships@ == users@.take(i as int).filter(no_bot).map_values(member),
        decreases users@.len() - i,
    {
        let user = users[i];
        proof {
            reveal(Seq::filter);
            let seen = users@.take(i as int);
            assert(users@.take(i + 1).drop_last() =~= seen);
            assert(seen.filter(no_bot).push(user).map_values(member) =~= seen.filter(
                no_bot,
            ).map_values(member).push(member(user)));
        }
        if !user.is_bot {
            memberships.push(Membership { chat_id, user_id: user.id as i64 });
        }
        i = i + 1;
    }
    assert(users@.take(i as int) =~= users@);
    memberships
}

/// The membership that ended with a member who left.
pub open spec fn ended_membership(chat_id: i64, left: Option<User>) -> Option<Membership> {
    match left {
        Some(user) => Some(Membership { chat_id, user_id: account_id(user) }),
        None => None,
    }
}

/// Handles a member who left a group. The membership of the result is to be
/// taken out of the cache, then its tracking ended in the database.
pub fn handle_left_chat_member(chat_id: i64, left: Option<User>) -> (membership: Option<Membership>)
    ensures
        membership == ended_membership(chat_id, left),
{
    match left {
        Some(user) => Some(Membership { chat_id, user_id: user.id as i64 }),
        None => None,
    }
}

/// A bot is never tracked, neither when it writes nor when it joins.
pub proof fn law_bots_are_not_tracked(chat_id: i64, bot: User, others: Seq<User>)
    requires
        bot.is_bot,
    ensures
        shown_membership(chat_id, Some(bot)) is None,
        joined_memberships(chat_id, others.push(bot)) == joined_memberships(chat_id, others),
{
    reveal(Seq::filter);
    assert(others.push(bot).drop_last() =~= others);
}

/// What ends the tracking of a user who left is about the very row that the
/// user's joining, or the next message of theirs, tracks.
pub proof fn law_leaving_undoes_joining(chat_id: i64, user: User)
    requires
        !user.is_bot,
    ensures
        shown_membership(chat_id, Some(user)) == Some(
            Membership { chat_id, user_id: account_id(user) },
        ),
        joined_memberships(chat_id, seq![user]) == seq![
            Membership { chat_id, user_id: account_id(user) },
        ],
        track_chat_member_statement(chat_id, account_id(user)).params
            == untrack_chat_member_statement(chat_id, account_id(user)).params,
{
    reveal_with_fuel(Seq::filter, 2);
    assert(seq![user].drop_last() =~= Seq::<User>::empty());
    assert(joined_memberships(chat_id, seq![user]) =~= seq![
        Membership { chat_id, user_id: account_id(user) },
    ]);
}

/// Whatever memberships the cache holds, once that of a user who left is taken
/// out of it, the next message of theirs in the chat leads to tracking them
/// again at once; and a message of anyone else, or in another chat, leads to
/// what it would have led to.
pub proof fn law_return_is_tracked_at_once(chat_id: i64, user: User, cached: Set<Membership>)
    requires
        !user.is_bot,
    ensures
        ({
            let membership = ended_membership(chat_id, Some(user))->0;
            let left = cached.remove(membership);
            &&& ended_membership(chat_id, Some(user)) is Some
            &&& group_step(chat_id, Some(user)) == TrackStep::LookInCache(
                LookInCache { membership },
            )
            &&& (LookInCache { membership }).after(left.contains(membership)) == TrackStep::Track(
                membership,
            )
            &&& forall|other: LookInCache|
                other.membership != membership ==> #[trigger] other.after(
                    left.contains(other.membership),
                ) == other.after(cached.contains(other.membership))
        }),
{
}

}
