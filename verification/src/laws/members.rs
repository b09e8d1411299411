//! Who is tracked in which chat.
use crate::bot_handler::members::{
    ended_membership, group_step, joined_memberships, shown_membership, LookInCache, Membership,
    TrackStep,
};
use crate::bot_handler::{account_id, User};
use vstd::prelude::*;

verus! {

/// How many of `users` are no bots.
pub open spec fn people(users: Seq<User>) -> nat
    decreases users.len(),
{
    if users.len() == 0 {
        0
    } else if users.last().is_bot {
        people(users.drop_last())
    } else {
        people(users.drop_last()) + 1
    }
}

/// Of two groups that join one after the other the same memberships come as of
/// both at once.
pub proof fn law_joining_adds_up(chat_id: i64, first: Seq<User>, second: Seq<User>)
    ensures
        joined_memberships(chat_id, first + second) == joined_memberships(chat_id, first)
            + joined_memberships(chat_id, second),
{
    let no_bot = |user: User| !user.is_bot;
    Seq::filter_distributes_over_add(first, second, no_bot);
    assert(joined_memberships(chat_id, first + second) =~= joined_memberships(chat_id, first)
        + joined_memberships(chat_id, second));
}

/// Everyone who joins is tracked in the chat unless they are a bot, and no one
/// else is; there are as many memberships as people.
pub proof fn law_everyone_who_joins_is_tracked(chat_id: i64, users: Seq<User>, m: Membership)
    ensures
        joined_memberships(chat_id, users).contains(m) <==> exists|i: int|
            0 <= i < users.len() && !(#[trigger] users[i]).is_bot && m == (Membership {
                chat_id,
                user_id: account_id(users[i]),
            }),
        joined_memberships(chat_id, users).len() == people(users),
    decreases users.len(),
{
    reveal(Seq::filter);
    let all = joined_memberships(chat_id, users);
    if users.len() > 0 {
        let rest = users.drop_last();
        let last = users.last();
        let before = joined_memberships(chat_id, rest);
        law_everyone_who_joins_is_tracked(chat_id, rest, m);
        law_joining_adds_up(chat_id, rest, seq![last]);
        assert(users =~= rest + seq![last]);
        assert(seq![last].drop_last() =~= Seq::<User>::empty());
        let added = joined_memberships(chat_id, seq![last]);
        let theirs = Membership { chat_id, user_id: account_id(last) };
        if last.is_bot {
            assert(added =~= Seq::empty());
            assert(all =~= before);
        } else {
            assert(added =~= seq![theirs]);
            assert(all =~= before.push(theirs));
        }
        if all.contains(m) {
            let j = all.index_of(m);
            if j < before.len() {
                assert(before[j] == m);
                let i = choose|i: int|
                    0 <= i < rest.len() && !(#[trigger] rest[i]).is_bot && m == (Membership {
                        chat_id,
                        user_id: account_id(rest[i]),
                    });
                assert(users[i] == rest[i]);
            } else {
                assert(users[users.len() - 1] == last);
            }
        }
        if exists|i: int|
            0 <= i < users.len() && !(#[trigger] users[i]).is_bot && m == (Membership {
                chat_id,
                user_id: account_id(users[i]),
            }) {
            let i = choose|i: int|
                0 <= i < users.len() && !(#[trigger] users[i]).is_bot && m == (Membership {
                    chat_id,
                    user_id: account_id(users[i]),
                });
            if i < rest.len() {
                assert(rest[i] == users[i]);
                let j = before.index_of(m);
                assert(all[j] == m);
            } else {
                assert(all[all.len() - 1] == m);
            }
        }
    }
}

/// Who writes in a group is there, unless they are a bot: their membership is
/// looked for in the cache, tracked if it is not there, and left alone if it is.
pub proof fn law_everyone_who_writes_is_tracked(chat_id: i64, user: User, cached: bool)
    ensures
        group_step(chat_id, None) == TrackStep::Done,
        user.is_bot ==> group_step(chat_id, Some(user)) == TrackStep::Done,
        !user.is_bot ==> {
            let membership = Membership { chat_id, user_id: account_id(user) };
            &&& shown_membership(chat_id, Some(user)) == Some(membership)
            &&& group_step(chat_id, Some(user)) == TrackStep::LookInCache(
                LookInCache { membership },
            )
            &&& (LookInCache { membership }).after(true) == TrackStep::Done
            &&& (LookInCache { membership }).after(false) == TrackStep::Track(membership)
        },
{
}

/// Whoever leaves, bot or not, it is their membership in that chat that ends.
pub proof fn law_whoever_leaves_is_gone(chat_id: i64, user: User)
    ensures
        ended_membership(chat_id, Some(user)) == Some(
            Membership { chat_id, user_id: account_id(user) },
        ),
        ended_membership(chat_id, None) is None,
{
}

}
