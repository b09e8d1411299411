//! What the bot does with the updates that it receives.
//!
//! Each handler decides from the update what has to be done first. Where that
//! needs the database, the lookup or Telegram itself, it names the step;
//! whoever drives the handler does it and hands the outcome to `resume`. A
//! message that cannot be sent ends the handler with that failure, unless
//! `resume` takes the outcome.
use crate::api_client::ApiError;
use crate::db::{
    check_telega_id, check_telega_id_statement, row_found, save_telega_id,
    save_telega_id_statement, Statement,
};
use crate::text::{decimal, i64_value, parse_i64, trim};
use vstd::prelude::*;

pub mod conversation;
pub mod members;
pub mod plugins;
pub mod upload;

pub use conversation::{handle_inline_query, handle_mention_lookup, handle_message};
pub use members::{handle_group_message, handle_left_chat_member, handle_new_chat_members};
pub use plugins::{handle_callback_query, handle_delete_asset, handle_plugins, handle_start};
pub use upload::handle_upload_assets;

verus! {

// ---------------------------------------------------------------------------
// Users, chats and Telegram IDs
// ---------------------------------------------------------------------------

/// A Telegram user.
#[derive(Clone, Copy, Debug)]
pub struct User {
    pub id: u64,
    pub is_bot: bool,
}

/// The kinds of chats.
#[derive(Clone, Copy, Debug, PartialEq, Eq, Structural)]
pub enum ChatKind {
    Private,
    Group,
    Supergroup,
    Channel,
}

/// Whether a message is from a group or supergroup.
pub fn is_group_chat(chat: ChatKind) -> (b: bool)
    ensures
        b == (chat == ChatKind::Group || chat == ChatKind::Supergroup),
{
    match chat {
        ChatKind::Group => true,
        ChatKind::Supergroup => true,
        _ => false,
    }
}

/// Whether a message is from a private chat.
pub fn is_private_chat(chat: ChatKind) -> (b: bool)
    ensures
        b == (chat == ChatKind::Private),
{
    match chat {
        ChatKind::Private => true,
        _ => false,
    }
}

/// The ID of a user, as the database holds it.
pub open spec fn account_id(user: User) -> i64 {
    user.id as i64
}

/// The ID of who sent a message; zero where nobody did.
pub open spec fn sender_id(from: Option<User>) -> i64 {
    match from {
        Some(user) => account_id(user),
        None => 0,
    }
}

/// The ID of who sent a message; zero where nobody did.
pub fn sender(from: Option<User>) -> (id: i64)
    ensures
        id == sender_id(from),
{
    match from {
        Some(user) => user.id as i64,
        None => 0,
    }
}

/// The Telegram ID that `s` denotes: a positive `i64` in decimal notation.
pub open spec fn telegram_id_value(s: Seq<char>) -> Option<i64> {
    match i64_value(s) {
        Some(id) => if id > 0 {
            Some(id)
        } else {
            None
        },
        None => None,
    }
}

/// Reads a Telegram ID.
pub fn parse_telegram_id(text: &str) -> (id: Option<i64>)
    ensures
        id == telegram_id_value(text@),
{
    match parse_i64(text) {
        Some(id) => if id > 0 {
            Some(id)
        } else {
            None
        },
        None => None,
    }
}

/// The decimal notation of a positive ID, with any white space around it, is
/// read as that ID once it is trimmed.
pub proof fn law_telegram_id_is_read(id: i64, before: Seq<char>, after: Seq<char>)
    requires
        id > 0,
        forall|i: int|
            0 <= i < before.len() ==> crate::text::is_white_space(#[trigger] before[i]),
        forall|i: int| 0 <= i < after.len() ==> crate::text::is_white_space(#[trigger] after[i]),
    ensures
        trim(before + decimal(id as int) + after) == decimal(id as int),
        telegram_id_value(trim(before + decimal(id as int) + after)) == Some(id),
{
    let core = decimal(id as int);
    crate::text::lemma_decimal_is_graphic(id as int);
    assert(crate::text::is_digit(core[0]));
    assert(crate::text::is_digit(core.last()));
    crate::text::law_trim_cuts_white_space(before, core, after);
    crate::text::law_decimal_denotes(id as int);
}

// ---------------------------------------------------------------------------
// The lookup behind the cache
// ---------------------------------------------------------------------------

/// How many answers the cache of lookups holds.
pub const LOOKUP_CACHE_CAPACITY: u64 = 100_000;

/// How long it holds an answer: 24 hours.
pub const LOOKUP_CACHE_SECONDS: u64 = 86_400;

/// How many chat members the cache of the tracking holds.
pub const TRACKING_CACHE_CAPACITY: u64 = 50_000;

/// How long it holds one: 5 minutes.
pub const TRACKING_CACHE_SECONDS: u64 = 300;

/// Why a lookup failed.
#[derive(Debug)]
pub enum CheckError<S> {
    Database(S),
    Api(ApiError<S>),
}

impl View for CheckError<String> {
    type V = CheckError<Seq<char>>;

    open spec fn view(&self) -> CheckError<Seq<char>> {
        match *self {
            CheckError::Database(e) => CheckError::Database(e@),
            CheckError::Api(e) => CheckError::Api(e@),
        }
    }
}

impl CheckError<Seq<char>> {
    /// How a failed lookup reads.
    pub open spec fn text(self) -> Seq<char> {
        "Lookup failed: "@ + match self {
            CheckError::Database(e) => e,
            CheckError::Api(e) => e.text(),
        }
    }
}

impl CheckError<String> {
    /// How the failed lookup reads.
    pub fn message(&self) -> (text: String)
        ensures
            text@ == self@.text(),
    {
        let mut text = "Lookup failed: ".to_owned();
        match self {
            CheckError::Database(e) => text.append(e.as_str()),
            CheckError::Api(e) => {
                let reason = e.message();
                text.append(reason.as_str());
            },
        }
        text
    }
}

/// What the lookup of an ID that is not cached needs done next.
#[derive(Debug)]
pub enum CheckStep<S> {
    QueryKnown(QueryKnown),
    QueryApi(QueryApi),
    SaveKnown(SaveKnown),
    /// The lookup is over. Only an answer is cached, a failure is not.
    Done(Result<bool, CheckError<S>>),
}

/// Look the ID up in the database.
#[derive(Debug)]
pub struct QueryKnown {
    pub telegram_id: i64,
}

/// Look the ID up with the API.
#[derive(Debug)]
pub struct QueryApi {
    pub telegram_id: i64,
}

/// Persist the ID in the database.
#[derive(Debug)]
pub struct SaveKnown {
    pub telegram_id: i64,
}

impl View for CheckStep<String> {
    type V = CheckStep<Seq<char>>;

    open spec fn view(&self) -> CheckStep<Seq<char>> {
        match *self {
            CheckStep::QueryKnown(s) => CheckStep::QueryKnown(s),
            CheckStep::QueryApi(s) => CheckStep::QueryApi(s),
            CheckStep::SaveKnown(s) => CheckStep::SaveKnown(s),
            CheckStep::Done(result) => CheckStep::Done(
                match result {
                    Ok(found) => Ok(found),
                    Err(e) => Err(e@),
                },
            ),
        }
    }
}

/// Starts the lookup of an ID that is not cached: first the database, then the
/// API, whose hits are persisted.
pub fn check_user(telegram_id: i64) -> (step: CheckStep<String>)
    ensures
        step@ == CheckStep::<Seq<char>>::QueryKnown(QueryKnown { telegram_id }),
{
    CheckStep::QueryKnown(QueryKnown { telegram_id })
}

impl QueryKnown {
    /// The query to run.
    pub fn statement(&self) -> (statement: Statement)
        ensures
            statement@ == check_telega_id_statement(self.telegram_id),
    {
        check_telega_id(self.telegram_id)
    }

    pub open spec fn after(self, row: Result<bool, Seq<char>>) -> CheckStep<Seq<char>> {
        match row {
            Ok(known) => if known {
                CheckStep::Done(Ok(true))
            } else {
                CheckStep::QueryApi(QueryApi { telegram_id: self.telegram_id })
            },
            Err(e) => CheckStep::Done(Err(CheckError::Database(e))),
        }
    }

    /// Goes on with the row that was found, if any.
    pub fn resume(self, row: Result<Option<i32>, String>) -> (step: CheckStep<String>)
        ensures
            step@ == self.after(
                match row {
                    Ok(r) => Ok(r is Some),
                    Err(e) => Err(e@),
                },
            ),
    {
        match row {
            Ok(r) => if row_found(r) {
                CheckStep::Done(Ok(true))
            } else {
                CheckStep::QueryApi(QueryApi { telegram_id: self.telegram_id })
            },
            Err(e) => CheckStep::Done(Err(CheckError::Database(e))),
        }
    }
}

impl QueryApi {
    pub open spec fn after(self, answer: Result<bool, ApiError<Seq<char>>>) -> CheckStep<
        Seq<char>,
    > {
        match answer {
            Ok(found) => if found {
                CheckStep::SaveKnown(SaveKnown { telegram_id: self.telegram_id })
            } else {
                CheckStep::Done(Ok(false))
            },
            Err(e) => CheckStep::Done(Err(CheckError::Api(e))),
        }
    }

    /// Goes on with the API's answer.
    pub fn resume(self, answer: Result<bool, ApiError<String>>) -> (step: CheckStep<String>)
        ensures
            step@ == self.after(crate::api_client::answer_view(answer)),
    {
        match answer {
            Ok(found) => if found {
                CheckStep::SaveKnown(SaveKnown { telegram_id: self.telegram_id })
            } else {
                CheckStep::Done(Ok(false))
            },
            Err(e) => CheckStep::Done(Err(CheckError::Api(e))),
        }
    }
}

impl SaveKnown {
    /// The statement to run.
    pub fn statement(&self) -> (statement: Statement)
        ensures
            statement@ == save_telega_id_statement(self.telegram_id),
    {
        save_telega_id(self.telegram_id)
    }

    pub open spec fn after(self, saved: Result<(), Seq<char>>) -> CheckStep<Seq<char>> {
        match saved {
            Ok(_) => CheckStep::Done(Ok(true)),
            Err(e) => CheckStep::Done(Err(CheckError::Database(e))),
        }
    }

    /// Goes on once the statement ran.
    pub fn resume(self, saved: Result<(), String>) -> (step: CheckStep<String>)
        ensures
            step@ == self.after(
                match saved {
                    Ok(u) => Ok(u),
                    Err(e) => Err(e@),
                },
            ),
    {
        match saved {
            Ok(_) => CheckStep::Done(Ok(true)),
            Err(e) => CheckStep::Done(Err(CheckError::Database(e))),
        }
    }
}

/// What the lookup of an ID meets: whether the database knows it, what the API
/// answers, and whether a hit can be persisted.
pub struct Sources {
    pub known: Result<bool, Seq<char>>,
    pub api: Result<bool, ApiError<Seq<char>>>,
    pub saved: Result<(), Seq<char>>,
}

/// Where the lookup of an ID stands after `n` steps.
pub open spec fn check_at(telegram_id: i64, sources: Sources, n: nat) -> CheckStep<Seq<char>>
    decreases n,
{
    if n == 0 {
        CheckStep::QueryKnown(QueryKnown { telegram_id })
    } else {
        match check_at(telegram_id, sources, (n - 1) as nat) {
            CheckStep::QueryKnown(s) => s.after(sources.known),
            CheckStep::QueryApi(s) => s.after(sources.api),
            CheckStep::SaveKnown(s) => s.after(sources.saved),
            CheckStep::Done(result) => CheckStep::Done(result),
        }
    }
}

/// A lookup takes at most three steps. It finds an ID that the database knows;
/// of any other ID it answers what the API says, once a hit is persisted; the
/// first failure on the way is its own.
pub proof fn law_check_user_answers(telegram_id: i64, sources: Sources)
    ensures
        check_at(telegram_id, sources, 3) == CheckStep::<Seq<char>>::Done(
            match sources.known {
                Err(e) => Err(CheckError::Database(e)),
                Ok(true) => Ok(true),
                Ok(false) => match sources.api {
                    Err(e) => Err(CheckError::Api(e)),
                    Ok(false) => Ok(false),
                    Ok(true) => match sources.saved {
                        Ok(_) => Ok(true),
                        Err(e) => Err(CheckError::Database(e)),
                    },
                },
            },
        ),
{
    reveal_with_fuel(check_at, 4);
}

/// The API is asked if and only if the database does not know the ID, and the
/// ID is persisted if and only if, besides, the API knows it.
pub proof fn law_check_user_asks_in_order(telegram_id: i64, sources: Sources, n: nat)
    ensures
        check_at(telegram_id, sources, 1) is QueryApi <==> sources.known == Ok::<bool, Seq<char>>(
            false,
        ),
        check_at(telegram_id, sources, 2) is SaveKnown <==> sources.known == Ok::<bool, Seq<char>>(
            false,
        ) && sources.api == Ok::<bool, ApiError<Seq<char>>>(true),
        check_at(telegram_id, sources, n) is QueryKnown ==> n == 0,
        check_at(telegram_id, sources, n) is QueryApi ==> n == 1,
        check_at(telegram_id, sources, n) is SaveKnown ==> n == 2,
    decreases n,
{
    reveal_with_fuel(check_at, 4);
    if n > 0 {
        law_check_user_asks_in_order(telegram_id, sources, (n - 1) as nat);
    }
}

/// Every step of a lookup is about the ID that it was started with.
pub proof fn law_check_user_keeps_its_id(telegram_id: i64, sources: Sources, n: nat)
    ensures
        match check_at(telegram_id, sources, n) {
            CheckStep::QueryKnown(s) => s.telegram_id == telegram_id,
            CheckStep::QueryApi(s) => s.telegram_id == telegram_id,
            CheckStep::SaveKnown(s) => s.telegram_id == telegram_id,
            CheckStep::Done(_) => true,
        },
    decreases n,
{
    if n > 0 {
        law_check_user_keeps_its_id(telegram_id, sources, (n - 1) as nat);
    }
}

/// Where the database cannot be read, or does not know the ID and the API fails,
/// or the API knows the ID and it cannot be persisted, the lookup fails with a
/// text that begins `Lookup failed: `. It has no answer then that could be
/// cached, and persists nothing.
pub proof fn law_failed_lookup_leaves_nothing(telegram_id: i64, sources: Sources, n: nat)
    requires
        ({
            ||| sources.known is Err
            ||| sources.known == Ok::<bool, Seq<char>>(false) && sources.api is Err
            ||| sources.known == Ok::<bool, Seq<char>>(false) && sources.api == Ok::<
                bool,
                ApiError<Seq<char>>,
            >(true) && sources.saved is Err
        }),
    ensures
        check_at(telegram_id, sources, 3) matches CheckStep::Done(Err(e))
            && "Lookup failed: "@.is_prefix_of(e.text()),
        check_at(telegram_id, sources, n) matches CheckStep::Done(result) ==> result is Err,
        check_at(telegram_id, sources, n) is SaveKnown ==> sources.saved is Err,
    decreases n,
{
    law_check_user_answers(telegram_id, sources);
    if let CheckStep::Done(Err(e)) = check_at(telegram_id, sources, 3) {
        assert(e.text().take("Lookup failed: "@.len() as int) =~= "Lookup failed: "@);
    }
    reveal_with_fuel(check_at, 4);
    law_check_user_asks_in_order(telegram_id, sources, n);
    if n > 0 {
        law_failed_lookup_leaves_nothing(telegram_id, sources, (n - 1) as nat);
        law_check_user_asks_in_order(telegram_id, sources, (n - 1) as nat);
    }
}

/// What a lookup came to.
#[derive(Clone, Copy, Debug, PartialEq, Eq, Structural)]
pub enum Outcome {
    Found,
    NotFound,
    Failed,
}

/// What the result of a lookup means.
pub open spec fn outcome_of<E>(result: Result<bool, E>) -> Outcome {
    match result {
        Ok(found) => if found {
            Outcome::Found
        } else {
            Outcome::NotFound
        },
        Err(e) => Outcome::Failed,
    }
}

/// Reads the result of a lookup.
pub fn read_outcome<E>(result: &Result<bool, E>) -> (outcome: Outcome)
    ensures
        outcome == outcome_of(*result),
{
    match result {
        Ok(found) => if *found {
            Outcome::Found
        } else {
            Outcome::NotFound
        },
        Err(_) => Outcome::Failed,
    }
}

}
