//! Lookups that a user asks for: in a private chat, by mentioning the bot in a
//! group, or inline.
use super::{account_id, parse_telegram_id, sender, sender_id, telegram_id_value, Outcome, User};
use crate::crypto::{hash_user_id, user_hash};
use crate::db::{
    log_bot_user, log_bot_user_statement, log_request, log_request_statement, Statement,
};
use crate::messages::Message;
use crate::text::{
    ascii_lowercase, begins_with, between, decimal, i64_text, is_digit, is_white_space,
    law_trim_cuts_white_space, lemma_decimal_is_graphic, lowercase, trim, trimmed,
};
use vstd::prelude::*;
use vstd::utf8::is_ascii_chars;

verus! {

/// Where a lookup was asked for.
#[derive(Clone, Copy, Debug, PartialEq, Eq, Structural)]
pub enum Place {
    Private,
    Group,
}

/// Who asked for which ID, and where.
#[derive(Clone, Copy, Debug)]
pub struct Talk {
    pub user_id: i64,
    pub telegram_id: i64,
    pub place: Place,
}

/// What the handling of a text message needs done next.
#[derive(Debug)]
pub enum TalkStep<S> {
    LogUser(LogUser),
    CheckUser(CheckUser),
    LogRequest(LogRequest),
    /// Send this message; then the handling is over.
    Reply(Message<S>),
    /// The handling is over.
    Done,
}

/// Record who asked. Whether that succeeds makes no difference.
#[derive(Debug)]
pub struct LogUser {
    pub talk: Talk,
}

/// Look the ID up.
#[derive(Debug)]
pub struct CheckUser {
    pub talk: Talk,
}

/// Record the request. Whether that succeeds makes no difference.
#[derive(Debug)]
pub struct LogRequest {
    pub talk: Talk,
    pub outcome: Outcome,
}

impl View for TalkStep<String> {
    type V = TalkStep<Seq<char>>;

    open spec fn view(&self) -> TalkStep<Seq<char>> {
        match *self {
            TalkStep::LogUser(s) => TalkStep::LogUser(s),
            TalkStep::CheckUser(s) => TalkStep::CheckUser(s),
            TalkStep::LogRequest(s) => TalkStep::LogRequest(s),
            TalkStep::Reply(m) => TalkStep::Reply(m@),
            TalkStep::Done => TalkStep::Done,
        }
    }
}

/// How an outcome is recorded.
pub open spec fn outcome_text(outcome: Outcome) -> Seq<char> {
    match outcome {
        Outcome::Found => "YES"@,
        Outcome::NotFound => "NO"@,
        Outcome::Failed => "ERROR"@,
    }
}

/// Says how an outcome is recorded.
fn recorded(outcome: Outcome) -> (text: &'static str)
    ensures
        text@ == outcome_text(outcome),
{
    match outcome {
        Outcome::Found => "YES",
        Outcome::NotFound => "NO",
        Outcome::Failed => "ERROR",
    }
}

/// The answer to who asked, in the manner of the place.
pub open spec fn reply_to(place: Place, outcome: Outcome) -> Message<Seq<char>> {
    match place {
        Place::Private => match outcome {
            Outcome::Found => Message::Found,
            Outcome::NotFound => Message::NotFound,
            Outcome::Failed => Message::LookupFailed,
        },
        Place::Group => match outcome {
            Outcome::Found => Message::FoundInGroup,
            Outcome::NotFound => Message::NotFoundInGroup,
            Outcome::Failed => Message::LookupFailedBriefly,
        },
    }
}

impl LogUser {
    /// The statement to run, under the pseudonym of who asked.
    pub fn statement(&self, salt: &str) -> (statement: Statement)
        ensures
            statement@ == log_bot_user_statement(user_hash(self.talk.user_id, salt@)),
    {
        let hash = hash_user_id(self.talk.user_id, salt);
        log_bot_user(hash.as_str())
    }

    pub open spec fn after(self) -> TalkStep<Seq<char>> {
        TalkStep::CheckUser(CheckUser { talk: self.talk })
    }

    /// Goes on once the statement was tried.
    pub fn resume(self) -> (step: TalkStep<String>)
        ensures
            step@ == self.after(),
    {
        TalkStep::CheckUser(CheckUser { talk: self.talk })
    }
}

impl CheckUser {
    pub open spec fn after(self, outcome: Outcome) -> TalkStep<Seq<char>> {
        TalkStep::LogRequest(LogRequest { talk: self.talk, outcome })
    }

    /// Goes on with what the lookup came to.
    pub fn resume(self, outcome: Outcome) -> (step: TalkStep<String>)
        ensures
            step@ == self.after(outcome),
    {
        TalkStep::LogRequest(LogRequest { talk: self.talk, outcome })
    }
}

impl LogRequest {
    /// The statement to run, under the pseudonym of who asked.
    pub fn statement(&self, salt: &str) -> (statement: Statement)
        ensures
            statement@ == log_request_statement(
                user_hash(self.talk.user_id, salt@),
                self.talk.telegram_id,
                outcome_text(self.outcome),
            ),
    {
        let hash = hash_user_id(self.talk.user_id, salt);
        log_request(hash.as_str(), self.talk.telegram_id, recorded(self.outcome))
    }

    pub open spec fn after(self) -> TalkStep<Seq<char>> {
        TalkStep::Reply(reply_to(self.talk.place, self.outcome))
    }

    /// Goes on once the statement was tried.
    pub fn resume(self) -> (step: TalkStep<String>)
        ensures
            step@ == self.after(),
    {
        let message = match self.talk.place {
            Place::Private => match self.outcome {
                Outcome::Found => Message::Found,
                Outcome::NotFound => Message::NotFound,
                Outcome::Failed => Message::LookupFailed,
            },
            Place::Group => match self.outcome {
                Outcome::Found => Message::FoundInGroup,
                Outcome::NotFound => Message::NotFoundInGroup,
                Outcome::Failed => Message::LookupFailedBriefly,
            },
        };
        TalkStep::Reply(message)
    }
}

/// The first step of the lookup of `telegram_id` for whoever sent the message.
pub open spec fn first_talk_step(from: Option<User>, telegram_id: i64, place: Place) -> TalkStep<
    Seq<char>,
> {
    TalkStep::LogUser(LogUser { talk: Talk { user_id: sender_id(from), telegram_id, place } })
}

// ---------------------------------------------------------------------------
// Private chats
// ---------------------------------------------------------------------------

/// What a text message in a private chat leads to: nothing without a text or
/// for a command, a lookup of the ID that it holds, else a complaint.
pub open spec fn message_step(text: Option<Seq<char>>, from: Option<User>) -> TalkStep<Seq<char>> {
    match text {
        None => TalkStep::Done,
        Some(t) => if trim(t).len() > 0 && trim(t)[0] == '/' {
            TalkStep::Done
        } else {
            match telegram_id_value(trim(t)) {
                Some(id) => first_talk_step(from, id, Place::Private),
                None => TalkStep::Reply(Message::InvalidId),
            }
        },
    }
}

/// Handles a text message in a private chat, which is to hold a Telegram ID.
pub fn handle_message(text: Option<&str>, from: Option<User>) -> (step: TalkStep<String>)
    ensures
        step@ == message_step(
            match text {
                Some(t) => Some(t@),
                None => None,
            },
            from,
        ),
{
    let text = match text {
        Some(t) => trimmed(t),
        None => return TalkStep::Done,
    };
    if begins_with(text.as_str(), "/") {
        proof {
            reveal_strlit("/");
            assert(text@[0] == text@.subrange(0, 1)[0]);
        }
        return TalkStep::Done;
    }
    proof {
        reveal_strlit("/");
        assert(text@.len() > 0 && text@[0] == '/' ==> "/"@ =~= text@.subrange(0, 1));
    }
    match parse_telegram_id(text.as_str()) {
        Some(telegram_id) => TalkStep::LogUser(
            LogUser { talk: Talk { user_id: sender(from), telegram_id, place: Place::Private } },
        ),
        None => TalkStep::Reply(Message::InvalidId),
    }
}

/// A message that holds the decimal notation of a positive ID, whatever white
/// space stands around it, leads to the lookup of that ID.
pub proof fn law_message_with_id_is_looked_up(
    id: i64,
    before: Seq<char>,
    after: Seq<char>,
    from: Option<User>,
)
    requires
        id > 0,
        forall|i: int| 0 <= i < before.len() ==> is_white_space(#[trigger] before[i]),
        forall|i: int| 0 <= i < after.len() ==> is_white_space(#[trigger] after[i]),
    ensures
        message_step(Some(before + decimal(id as int) + after), from) == first_talk_step(
            from,
            id,
            Place::Private,
        ),
{
    super::law_telegram_id_is_read(id, before, after);
    lemma_decimal_is_graphic(id as int);
    assert(is_digit(decimal(id as int)[0]));
}

/// Whatever is sent, an ID that is looked up is positive.
pub proof fn law_only_positive_ids_are_looked_up(
    text: Option<Seq<char>>,
    username: Seq<char>,
    from: Option<User>,
    query: Seq<char>,
    asker: User,
)
    ensures
        message_step(text, from) matches TalkStep::LogUser(s) ==> s.talk.telegram_id > 0,
        mention_step(text, username, from) matches TalkStep::LogUser(s) ==> s.talk.telegram_id > 0,
        inline_step(query, asker) matches InlineStep::CheckUser(s) ==> s.telegram_id > 0,
{
}

// ---------------------------------------------------------------------------
// Mentions in groups
// ---------------------------------------------------------------------------

/// How a message mentions the bot.
pub open spec fn mention_of(username: Seq<char>) -> Seq<char> {
    seq!['@'] + username
}

/// Whether the first `k` characters of `text` mention the bot, in whatever case.
pub open spec fn mentions_in(text: Seq<char>, username: Seq<char>, k: int) -> bool {
    0 <= k <= text.len() && lowercase(text.take(k)) == lowercase(mention_of(username))
}

/// Where the mention of the bot that `text` begins with ends: the least `k` from
/// `from` on such that the first `k` characters mention the bot.
pub open spec fn mention_end(text: Seq<char>, username: Seq<char>, from: int) -> Option<int>
    decreases text.len() + 1 - from,
{
    if from > text.len() {
        None
    } else if mentions_in(text, username, from) {
        Some(from)
    } else {
        mention_end(text, username, from + 1)
    }
}

/// What a text message in a group leads to: a lookup where it begins with a
/// mention of the bot, in whatever case, and a Telegram ID is everything after
/// it. Anything else is ignored.
pub open spec fn mention_step(
    text: Option<Seq<char>>,
    username: Seq<char>,
    from: Option<User>,
) -> TalkStep<Seq<char>> {
    match text {
        None => TalkStep::Done,
        Some(t) => match mention_end(trim(t), username, 0) {
            None => TalkStep::Done,
            Some(k) => match telegram_id_value(trim(trim(t).skip(k))) {
                Some(id) => first_talk_step(from, id, Place::Group),
                None => TalkStep::Done,
            },
        },
    }
}

/// What follows the mention of the bot that `text` begins with. Every beginning
/// is tried, since the case of a letter can change how many characters it takes.
fn after_mention(text: &str, username: &str) -> (rest: Option<String>)
    ensures
        match mention_end(text@, username@, 0) {
            Some(k) => rest matches Some(r) && r@ == text@.skip(k),
            None => rest is None,
        },
{
    let mut mention = String::new();
    mention.push('@');
    mention.append(username);
    assert(mention@ =~= mention_of(username@));
    let wanted = mention.as_str().to_lowercase();
    let n: usize = text.unicode_len();
    let mut k: usize = 0;
    loop
        invariant
            k <= n == text@.len(),
            wanted@ == lowercase(mention_of(username@)),
            mention_end(text@, username@, 0) == mention_end(text@, username@, k as int),
        decreases n - k,
    {
        let beginning = text.substring_char(0, k);
        assert(text@.subrange(0, k as int) =~= text@.take(k as int));
        if beginning.to_lowercase() == wanted {
            let rest = text.substring_char(k, n);
            assert(text@.subrange(k as int, n as int) =~= text@.skip(k as int));
            return Some(rest.to_owned());
        }
        if k == n {
            assert(mention_end(text@, username@, n + 1) is None);
            return None;
        }
        k = k + 1;
    }
}

/// Handles a message in a group that may mention the bot and a Telegram ID.
pub fn handle_mention_lookup(
    text: Option<&str>,
    username: &str,
    from: Option<User>,
) -> (step: TalkStep<String>)
    ensures
        step@ == mention_step(
            match text {
                Some(t) => Some(t@),
                None => None,
            },
            username@,
            from,
        ),
{
    let text = match text {
        Some(t) => trimmed(t),
        None => return TalkStep::Done,
    };
    match after_mention(text.as_str(), username) {
        None => TalkStep::Done,
        Some(rest) => {
            let rest = trimmed(rest.as_str());
            match parse_telegram_id(rest.as_str()) {
                Some(telegram_id) => TalkStep::LogUser(
                    LogUser {
                        talk: Talk { user_id: sender(from), telegram_id, place: Place::Group },
                    },
                ),
                None => TalkStep::Done,
            }
        },
    }
}

/// A mention ends as early as it can: after `k` characters if and only if these
/// mention the bot and no fewer do; and a text that no beginning of mentions the
/// bot has no mention.
pub proof fn law_mention_ends_first(text: Seq<char>, username: Seq<char>, k: int)
    ensures
        mention_end(text, username, 0) == Some(k) <==> {
            &&& mentions_in(text, username, k)
            &&& forall|j: int| 0 <= j < k ==> !mentions_in(text, username, j)
        },
        mention_end(text, username, 0) is None <==> forall|j: int|
            !mentions_in(text, username, j),
{
    lemma_mention_end(text, username, 0);
}

proof fn lemma_mention_end(text: Seq<char>, username: Seq<char>, from: int)
    requires
        0 <= from,
    ensures
        match mention_end(text, username, from) {
            Some(k) => from <= k && mentions_in(text, username, k) && forall|j: int|
                from <= j < k ==> !mentions_in(text, username, j),
            None => forall|j: int| from <= j ==> !mentions_in(text, username, j),
        },
    decreases text.len() + 1 - from,
{
    if from <= text.len() && !mentions_in(text, username, from) {
        lemma_mention_end(text, username, from + 1);
    }
}

/// A message that mentions the bot in any case, followed by a positive ID with
/// whatever white space between them or none, leads to the lookup of that ID.
/// The mention is one that no shorter part of reads the same.
pub proof fn law_mention_with_id_is_looked_up(
    username: Seq<char>,
    mention: Seq<char>,
    gap: Seq<char>,
    id: i64,
    from: Option<User>,
)
    requires
        id > 0,
        mention.len() > 0,
        !is_white_space(mention[0]),
        lowercase(mention) == lowercase(mention_of(username)),
        forall|j: int|
            0 <= j < mention.len() ==> lowercase(#[trigger] mention.take(j)) != lowercase(mention),
        forall|i: int| 0 <= i < gap.len() ==> is_white_space(#[trigger] gap[i]),
    ensures
        mention_step(Some(mention + gap + decimal(id as int)), username, from) == first_talk_step(
            from,
            id,
            Place::Group,
        ),
{
    let text = mention + gap + decimal(id as int);
    let none = Seq::<char>::empty();
    let n = mention.len() as int;
    lemma_decimal_is_graphic(id as int);
    assert(is_digit(decimal(id as int).last()));
    law_trim_cuts_white_space(none, text, none);
    assert(none + text + none =~= text);
    assert(text.take(n) =~= mention);
    assert forall|j: int| 0 <= j < n implies !mentions_in(text, username, j) by {
        assert(text.take(j) =~= mention.take(j));
    }
    law_mention_ends_first(text, username, n);
    assert(text.skip(n) =~= gap + decimal(id as int) + none);
    super::law_telegram_id_is_read(id, gap, none);
}

/// Of an ASCII mention of an ASCII name no shorter part reads the same, so that
/// an ID after it is always looked up.
pub proof fn law_ascii_mention_with_id_is_looked_up(
    username: Seq<char>,
    mention: Seq<char>,
    gap: Seq<char>,
    id: i64,
    from: Option<User>,
)
    requires
        id > 0,
        is_ascii_chars(username),
        is_ascii_chars(mention),
        lowercase(mention) == lowercase(mention_of(username)),
        forall|i: int| 0 <= i < gap.len() ==> is_white_space(#[trigger] gap[i]),
    ensures
        mention_step(Some(mention + gap + decimal(id as int)), username, from) == first_talk_step(
            from,
            id,
            Place::Group,
        ),
{
    let at = mention_of(username);
    assert(is_ascii_chars(at));
    assert(lowercase(mention).len() == mention.len());
    assert(lowercase(at).len() == at.len());
    assert(lowercase(at)[0] == '@');
    assert(lowercase(mention)[0] == ascii_lowercase(mention[0]));
    assert forall|j: int| 0 <= j < mention.len() implies lowercase(#[trigger] mention.take(j))
        != lowercase(mention) by {
        assert(is_ascii_chars(mention.take(j)));
        assert(lowercase(mention.take(j)).len() == j);
    }
    law_mention_with_id_is_looked_up(username, mention, gap, id, from);
}

// ---------------------------------------------------------------------------
// The course of a lookup
// ---------------------------------------------------------------------------

/// Where a talk stands `n` steps after `first`, if the lookup comes to
/// `outcome`.
pub open spec fn talk_at(first: TalkStep<Seq<char>>, outcome: Outcome, n: nat) -> TalkStep<
    Seq<char>,
>
    decreases n,
{
    if n == 0 {
        first
    } else {
        match talk_at(first, outcome, (n - 1) as nat) {
            TalkStep::LogUser(s) => s.after(),
            TalkStep::CheckUser(s) => s.after(outcome),
            TalkStep::LogRequest(s) => s.after(),
            other => other,
        }
    }
}

/// Every lookup that is asked for records who asked, looks the ID up, records
/// the request, and answers, in this order.
pub proof fn law_talk_runs_its_course(
    from: Option<User>,
    telegram_id: i64,
    place: Place,
    outcome: Outcome,
)
    ensures
        ({
            let first = first_talk_step(from, telegram_id, place);
            let talk = Talk { user_id: sender_id(from), telegram_id, place };
            &&& talk_at(first, outcome, 0) == TalkStep::<Seq<char>>::LogUser(LogUser { talk })
            &&& talk_at(first, outcome, 1) == TalkStep::<Seq<char>>::CheckUser(CheckUser { talk })
            &&& talk_at(first, outcome, 2) == TalkStep::<Seq<char>>::LogRequest(
                LogRequest { talk, outcome },
            )
            &&& talk_at(first, outcome, 3) == TalkStep::Reply(reply_to(place, outcome))
        }),
{
    reveal_with_fuel(talk_at, 4);
}

// ---------------------------------------------------------------------------
// Inline queries
// ---------------------------------------------------------------------------

/// How long Telegram may keep the answer to an inline query.
pub const INLINE_CACHE_SECONDS: u32 = 300;

/// What an inline query needs done next. `S` is a text.
#[derive(Debug)]
pub enum InlineStep<S> {
    /// Answer with no result; then the handling is over.
    Empty,
    CheckUser(InlineCheck),
    LogRequest(InlineLog),
    /// Answer with the article; then the handling is over.
    Answer(InlineAnswer<S>),
}

/// Look the ID up.
#[derive(Debug)]
pub struct InlineCheck {
    pub user_id: i64,
    pub telegram_id: i64,
}

/// Record the request. Whether that succeeds makes no difference.
#[derive(Debug)]
pub struct InlineLog {
    pub user_id: i64,
    pub telegram_id: i64,
    pub outcome: Outcome,
}

/// The answer, and how many seconds Telegram may keep it.
#[derive(Debug)]
pub struct InlineAnswer<S> {
    pub article: Article<S>,
    pub cache_seconds: u32,
}

impl View for InlineStep<String> {
    type V = InlineStep<Seq<char>>;

    open spec fn view(&self) -> InlineStep<Seq<char>> {
        match *self {
            InlineStep::Empty => InlineStep::Empty,
            InlineStep::CheckUser(s) => InlineStep::CheckUser(s),
            InlineStep::LogRequest(s) => InlineStep::LogRequest(s),
            InlineStep::Answer(a) => InlineStep::Answer(
                InlineAnswer { article: a.article@, cache_seconds: a.cache_seconds },
            ),
        }
    }
}

/// What an inline query leads to: a lookup of the ID that it holds, else an
/// empty answer.
pub open spec fn inline_step(query: Seq<char>, from: User) -> InlineStep<Seq<char>> {
    match telegram_id_value(trim(query)) {
        Some(telegram_id) => InlineStep::CheckUser(
            InlineCheck { user_id: account_id(from), telegram_id },
        ),
        None => InlineStep::Empty,
    }
}

/// Handles an inline query, which is to hold a Telegram ID.
pub fn handle_inline_query(query: &str, from: User) -> (step: InlineStep<String>)
    ensures
        step@ == inline_step(query@, from),
{
    let input = trimmed(query);
    match parse_telegram_id(input.as_str()) {
        Some(telegram_id) => InlineStep::CheckUser(
            InlineCheck { user_id: from.id as i64, telegram_id },
        ),
        None => InlineStep::Empty,
    }
}

impl InlineCheck {
    pub open spec fn after(self, outcome: Outcome) -> InlineStep<Seq<char>> {
        InlineStep::LogRequest(
            InlineLog { user_id: self.user_id, telegram_id: self.telegram_id, outcome },
        )
    }

    /// Goes on with what the lookup came to.
    pub fn resume(self, outcome: Outcome) -> (step: InlineStep<String>)
        ensures
            step@ == self.after(outcome),
    {
        InlineStep::LogRequest(
            InlineLog { user_id: self.user_id, telegram_id: self.telegram_id, outcome },
        )
    }
}

impl InlineLog {
    /// The statement to run, under the pseudonym of who asked.
    pub fn statement(&self, salt: &str) -> (statement: Statement)
        ensures
            statement@ == log_request_statement(
                user_hash(self.user_id, salt@),
                self.telegram_id,
                outcome_text(self.outcome),
            ),
    {
        let hash = hash_user_id(self.user_id, salt);
        log_request(hash.as_str(), self.telegram_id, recorded(self.outcome))
    }

    pub open spec fn after(self) -> InlineStep<Seq<char>> {
        InlineStep::Answer(
            InlineAnswer {
                article: article_for(self.telegram_id, self.outcome),
                cache_seconds: INLINE_CACHE_SECONDS,
            },
        )
    }

    /// Goes on once the statement was tried.
    pub fn resume(self) -> (step: InlineStep<String>)
        ensures
            step@ == self.after(),
    {
        InlineStep::Answer(
            InlineAnswer {
                article: inline_article(self.telegram_id, self.outcome),
                cache_seconds: INLINE_CACHE_SECONDS,
            },
        )
    }
}

/// An inline query that holds the decimal notation of a positive ID, whatever
/// white space stands around it, leads to the lookup of that ID; the request is
/// recorded with its outcome; and the answer is about that ID and that outcome.
pub proof fn law_inline_query_runs_its_course(
    id: i64,
    before: Seq<char>,
    after: Seq<char>,
    from: User,
    outcome: Outcome,
)
    requires
        id > 0,
        forall|i: int| 0 <= i < before.len() ==> is_white_space(#[trigger] before[i]),
        forall|i: int| 0 <= i < after.len() ==> is_white_space(#[trigger] after[i]),
    ensures
        ({
            let user_id = account_id(from);
            let check = InlineCheck { user_id, telegram_id: id };
            let log = InlineLog { user_id, telegram_id: id, outcome };
            &&& inline_step(before + decimal(id as int) + after, from) == InlineStep::<
                Seq<char>,
            >::CheckUser(check)
            &&& check.after(outcome) == InlineStep::<Seq<char>>::LogRequest(log)
            &&& log.after() == InlineStep::Answer(
                InlineAnswer {
                    article: article_for(id, outcome),
                    cache_seconds: INLINE_CACHE_SECONDS,
                },
            )
        }),
{
    super::law_telegram_id_is_read(id, before, after);
}

/// An answer to an inline query. `S` is `String` in code and `Seq<char>` in
/// contracts.
#[derive(Debug)]
pub struct Article<S> {
    pub id: S,
    pub title: S,
    pub description: S,
    pub text: S,
}

impl View for Article<String> {
    type V = Article<Seq<char>>;

    open spec fn view(&self) -> Article<Seq<char>> {
        Article {
            id: self.id@,
            title: self.title@,
            description: self.description@,
            text: self.text@,
        }
    }
}

/// The answer to an inline query for `telegram_id`.
pub open spec fn article_for(telegram_id: i64, outcome: Outcome) -> Article<Seq<char>> {
    let id = decimal(telegram_id as int);
    match outcome {
        Outcome::Found => Article {
            id: "check_"@ + id,
            title: "✅ ДА"@,
            description: "ID "@ + id + " зарегистрирован в Telega"@,
            text: "✅ ДА — ID "@ + id + " зарегистрирован в Telega."@,
        },
        Outcome::NotFound => Article {
            id: "check_"@ + id,
            title: "❌ НЕТ"@,
            description: "ID "@ + id + " не найден в Telega"@,
            text: "❌ НЕТ — ID "@ + id + " не найден в Telega."@,
        },
        Outcome::Failed => Article {
            id: "check_"@ + id,
            title: "⚠️ Ошибка"@,
            description: "Не удалось проверить ID "@ + id,
            text: "⚠️ Ошибка при проверке ID "@ + id + "."@,
        },
    }
}

/// Builds the answer to an inline query for `telegram_id`.
pub fn inline_article(telegram_id: i64, outcome: Outcome) -> (article: Article<String>)
    ensures
        article@ == article_for(telegram_id, outcome),
{
    let number = i64_text(telegram_id);
    let id = "check_".to_owned().concat(number.as_str());
    match outcome {
        Outcome::Found => Article {
            id,
            title: "✅ ДА".to_owned(),
            description: between("ID ", &number, " зарегистрирован в Telega"),
            text: between("✅ ДА — ID ", &number, " зарегистрирован в Telega."),
        },
        Outcome::NotFound => Article {
            id,
            title: "❌ НЕТ".to_owned(),
            description: between("ID ", &number, " не найден в Telega"),
            text: between("❌ НЕТ — ID ", &number, " не найден в Telega."),
        },
        Outcome::Failed => Article {
            id,
            title: "⚠️ Ошибка".to_owned(),
            description: "Не удалось проверить ID ".to_owned().concat(number.as_str()),
            text: between("⚠️ Ошибка при проверке ID ", &number, "."),
        },
    }
}

}
