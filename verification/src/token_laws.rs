//! What the statements on API tokens come to, by the meaning of their SQL.
//!
//! The table `api_tokens` is taken as a map from users to tokens, and its
//! statements as what their SQL says they do to it. That SQLite runs them so is
//! not proved here.
use crate::db::{
    insert_token_statement, select_token_statement, update_token_statement,
    validate_user_token_statement, Param, StatementView, INSERT_TOKEN, SELECT_TOKEN, UPDATE_TOKEN,
    VALIDATE_USER_TOKEN,
};
use vstd::prelude::*;

verus! {

/// The tokens of the table, by user.
pub type Tokens = Map<i64, Seq<char>>;

/// Whether some user has the token.
pub open spec fn in_use(tokens: Tokens, token: Seq<char>) -> bool {
    exists|user_id: i64| #[trigger] tokens.contains_key(user_id) && tokens[user_id] == token
}

/// Whether no two users have the same token, which the table's `UNIQUE` demands.
pub open spec fn are_unique(tokens: Tokens) -> bool {
    forall|a: i64, b: i64| #[trigger]
        tokens.contains_key(a) && #[trigger] tokens.contains_key(b) && tokens[a] == tokens[b] ==> a
            == b
}

/// The table after a statement. An `INSERT OR IGNORE` adds a row unless the user
/// or the token has one; an `UPDATE` replaces the token in the user's row, unless
/// another row has it, which makes it fail; anything else changes nothing.
pub open spec fn after_statement(tokens: Tokens, statement: StatementView) -> Tokens {
    if statement.sql == INSERT_TOKEN@ {
        match (statement.params[0], statement.params[1]) {
            (Param::Int(user_id), Param::Text(token)) => if tokens.contains_key(user_id) || in_use(
                tokens,
                token,
            ) {
                tokens
            } else {
                tokens.insert(user_id, token)
            },
            _ => tokens,
        }
    } else if statement.sql == UPDATE_TOKEN@ {
        match (statement.params[0], statement.params[1]) {
            (Param::Text(token), Param::Int(user_id)) => if tokens.contains_key(user_id) && !in_use(
                tokens.remove(user_id),
                token,
            ) {
                tokens.insert(user_id, token)
            } else {
                tokens
            },
            _ => tokens,
        }
    } else {
        tokens
    }
}

/// The token that a query for that of a user reads.
pub open spec fn token_read(tokens: Tokens, statement: StatementView) -> Option<Seq<char>> {
    match statement.params[0] {
        Param::Int(user_id) => if statement.sql == SELECT_TOKEN@ && tokens.contains_key(user_id) {
            Some(tokens[user_id])
        } else {
            None
        },
        _ => None,
    }
}

/// Whether a query for a token finds it.
pub open spec fn token_found(tokens: Tokens, statement: StatementView) -> bool {
    statement.sql == VALIDATE_USER_TOKEN@ && (statement.params[0] matches Param::Text(token)
        && in_use(tokens, token))
}

/// The table after a user's token was asked for, with `fresh` as the new one.
pub open spec fn after_request(tokens: Tokens, user_id: i64, fresh: Seq<char>) -> Tokens {
    after_statement(tokens, insert_token_statement(user_id, fresh))
}

/// The table after a user's token was rotated, with `fresh` as the new one.
pub open spec fn after_rotation(tokens: Tokens, user_id: i64, fresh: Seq<char>) -> Tokens {
    after_statement(tokens, update_token_statement(fresh, user_id))
}

/// What happens to tokens.
pub enum TokenEvent {
    /// A user's token is asked for.
    Request { user_id: i64, fresh: Seq<char> },
    /// A user's token is rotated.
    Rotation { user_id: i64, fresh: Seq<char> },
}

/// The table after `events`, in order.
pub open spec fn after_events(tokens: Tokens, events: Seq<TokenEvent>) -> Tokens
    decreases events.len(),
{
    if events.len() == 0 {
        tokens
    } else {
        let before = after_events(tokens, events.drop_last());
        match events.last() {
            TokenEvent::Request { user_id, fresh } => after_request(before, user_id, fresh),
            TokenEvent::Rotation { user_id, fresh } => after_rotation(before, user_id, fresh),
        }
    }
}

proof fn lemma_statements_differ()
    ensures
        INSERT_TOKEN@ != UPDATE_TOKEN@,
{
    reveal_strlit("INSERT OR IGNORE INTO api_tokens (user_id, api_token) VALUES (?, ?)");
    reveal_strlit(
        "UPDATE api_tokens SET api_token = ?, updated_at = datetime('now') WHERE user_id = ?",
    );
    assert(INSERT_TOKEN@[0] != UPDATE_TOKEN@[0]);
}

/// Who asks for their token gets the one that they have, and then the table is
/// unchanged; who has none gets the fresh one, if no one has it. Either way,
/// asking again gives the same token and changes nothing, whatever token is fresh
/// then; and the rows of others stay as they are.
pub proof fn law_asking_for_a_token(
    tokens: Tokens,
    user_id: i64,
    fresh: Seq<char>,
    later: Seq<char>,
)
    requires
        tokens.contains_key(user_id) || !in_use(tokens, fresh),
    ensures
        ({
            let after = after_request(tokens, user_id, fresh);
            let token = if tokens.contains_key(user_id) {
                tokens[user_id]
            } else {
                fresh
            };
            &&& tokens.contains_key(user_id) ==> after == tokens
            &&& token_read(after, select_token_statement(user_id)) == Some(token)
            &&& token_found(after, validate_user_token_statement(token))
            &&& after_request(after, user_id, later) == after
            &&& after.remove(user_id) == tokens.remove(user_id)
            &&& are_unique(tokens) ==> are_unique(after)
        }),
{
    let after = after_request(tokens, user_id, fresh);
    assert(after.contains_key(user_id));
    assert(after.remove(user_id) =~= tokens.remove(user_id));
    if are_unique(tokens) {
        assert forall|a: i64, b: i64| #[trigger]
            after.contains_key(a) && #[trigger] after.contains_key(b) && after[a]
                == after[b] implies a == b by {
            assert(a != user_id ==> tokens.contains_key(a));
            assert(b != user_id ==> tokens.contains_key(b));
        }
    }
}

/// Rotation replaces the token of a user who has one, for good: the fresh token
/// is another one, it is what the user gets from then on, it is found and the old
/// one is not; and the rows of others stay as they are. The fresh token is one
/// that no one has.
pub proof fn law_rotation_replaces_the_token(
    tokens: Tokens,
    user_id: i64,
    fresh: Seq<char>,
    later: Seq<char>,
)
    requires
        are_unique(tokens),
        tokens.contains_key(user_id),
        !in_use(tokens, fresh),
    ensures
        ({
            let after = after_rotation(tokens, user_id, fresh);
            &&& fresh != tokens[user_id]
            &&& after_request(after, user_id, later) == after
            &&& token_read(after, select_token_statement(user_id)) == Some(fresh)
            &&& token_found(after, validate_user_token_statement(fresh))
            &&& !token_found(after, validate_user_token_statement(tokens[user_id]))
            &&& after.remove(user_id) == tokens.remove(user_id)
            &&& are_unique(after)
        }),
{
    lemma_statements_differ();
    let after = after_rotation(tokens, user_id, fresh);
    let others = tokens.remove(user_id);
    if in_use(others, fresh) {
        let holder = choose|u: i64| #[trigger] others.contains_key(u) && others[u] == fresh;
        assert(tokens.contains_key(holder));
    }
    assert(after == tokens.insert(user_id, fresh));
    assert(after.contains_key(user_id));
    assert(after.remove(user_id) =~= others);
    if in_use(after, tokens[user_id]) {
        let holder = choose|u: i64| #[trigger]
            after.contains_key(u) && after[u] == tokens[user_id];
        assert(tokens.contains_key(holder));
    }
    assert forall|a: i64, b: i64| #[trigger]
        after.contains_key(a) && #[trigger] after.contains_key(b) && after[a]
            == after[b] implies a == b by {
        assert(tokens.contains_key(a));
        assert(tokens.contains_key(b));
    }
}

/// Rotation gives no token to a user who has none.
pub proof fn law_rotation_needs_a_token(tokens: Tokens, user_id: i64, fresh: Seq<char>)
    requires
        !tokens.contains_key(user_id),
    ensures
        after_rotation(tokens, user_id, fresh) == tokens,
{
    lemma_statements_differ();
}

/// A user's token stays the same until it is rotated: whatever else happens,
/// whoever asks for a token, and whoever else's is rotated.
pub proof fn law_token_stays_until_rotated(
    tokens: Tokens,
    events: Seq<TokenEvent>,
    user_id: i64,
)
    requires
        tokens.contains_key(user_id),
        forall|i: int|
            0 <= i < events.len() ==> !(#[trigger] events[i] matches TokenEvent::Rotation {
                user_id: rotated,
                fresh,
            } && rotated == user_id),
    ensures
        token_read(after_events(tokens, events), select_token_statement(user_id)) == Some(
            tokens[user_id],
        ),
    decreases events.len(),
{
    lemma_statements_differ();
    if events.len() > 0 {
        let earlier = events.drop_last();
        assert forall|i: int| 0 <= i < earlier.len() implies !(
        #[trigger] earlier[i] matches TokenEvent::Rotation { user_id: rotated, fresh } && rotated
            == user_id) by {
            assert(earlier[i] == events[i]);
        }
        law_token_stays_until_rotated(tokens, earlier, user_id);
        assert(events.last() == events[events.len() - 1]);
    }
}

}
