//! Lookups that a user asks for, and what the bot says to them.
use crate::bot_handler::conversation::{
    article_for, inline_step, mention_step, message_step, outcome_text, reply_to,
    InlineCheck, InlineStep, LogUser, Place, Talk, TalkStep,
};
use crate::bot_handler::{account_id, sender_id, telegram_id_value, Outcome, User};
use crate::messages::message_text;
use crate::text::{decimal, i64_value, lowercase, trim};
use vstd::prelude::*;

verus! {

/// A user's ID is taken over bit by bit, so that it can be had back; a message
/// that nobody sent counts as sent by zero.
pub proof fn law_senders_keep_their_id(user: User)
    ensures
        account_id(user) as u64 == user.id,
        user.id <= 0x7fff_ffff_ffff_ffff ==> account_id(user) == user.id,
        sender_id(Some(user)) == account_id(user),
        sender_id(None) == 0,
{
    let id = user.id;
    assert((id as i64) as u64 == id) by (bit_vector);
}

/// A text is a Telegram ID if and only if it denotes a positive `i64`, and then it
/// is that one.
pub proof fn law_telegram_ids_are_positive(s: Seq<char>, id: i64)
    ensures
        telegram_id_value(s) == Some(id) <==> i64_value(s) == Some(id) && id > 0,
        telegram_id_value(s) is None <==> forall|n: i64| n > 0 ==> i64_value(s) != Some(n),
{
    if telegram_id_value(s) is None && i64_value(s) is Some {
        assert(i64_value(s)->0 <= 0);
    }
    if telegram_id_value(s) is Some {
        let n = telegram_id_value(s)->0;
        assert(n > 0 && i64_value(s) == Some(n));
    }
}

/// In a private chat, a message without a text and one that begins with `/` are
/// ignored; one that is a Telegram ID, white space aside, is looked up for whoever
/// sent it; and any other is answered with a complaint.
pub proof fn law_private_messages(text: Seq<char>, from: Option<User>, id: i64)
    ensures
        message_step(None, from) is Done,
        trim(text).len() > 0 && trim(text)[0] == '/' ==> message_step(Some(text), from) is Done,
        !(trim(text).len() > 0 && trim(text)[0] == '/') ==> {
            &&& i64_value(trim(text)) == Some(id) && id > 0 ==> message_step(Some(text), from)
                == TalkStep::<Seq<char>>::LogUser(
                LogUser {
                    talk: Talk {
                        user_id: sender_id(from),
                        telegram_id: id,
                        place: Place::Private,
                    },
                },
            )
            &&& telegram_id_value(trim(text)) is None ==> (message_step(
                Some(text),
                from,
            ) matches TalkStep::Reply(m) && message_text(m)
                == "Пожалуйста, отправь корректный Telegram ID (только цифры)."@)
        },
{
}

/// In a group the bot looks up or keeps silent: it looks up only where the message
/// begins with what reads, in lowercase, as the bot's name behind an `@` does; the
/// ID is what everything after that is; and it is looked up for whoever sent the
/// message.
pub proof fn law_group_messages(
    text: Option<Seq<char>>,
    username: Seq<char>,
    from: Option<User>,
)
    ensures
        mention_step(text, username, from) is LogUser || mention_step(text, username, from) is Done,
        mention_step(None, username, from) is Done,
        mention_step(text, username, from) matches TalkStep::LogUser(s) ==> {
            &&& s.talk.user_id == sender_id(from)
            &&& s.talk.place == Place::Group
            &&& text is Some
            &&& exists|k: int|
                0 <= k <= trim(text->0).len() && lowercase(trim(text->0).take(k)) == lowercase(
                    seq!['@'] + username,
                ) && telegram_id_value(trim(#[trigger] trim(text->0).skip(k))) == Some(
                    s.talk.telegram_id,
                )
        },
{
    if let Some(t) = text {
        if let TalkStep::LogUser(s) = mention_step(text, username, from) {
            let k = crate::bot_handler::conversation::mention_end(trim(t), username, 0)->0;
            crate::bot_handler::conversation::law_mention_ends_first(trim(t), username, k);
            assert(telegram_id_value(trim(trim(t).skip(k))) == Some(s.talk.telegram_id));
        }
    }
}

/// An inline query that is a Telegram ID, white space aside, is looked up for
/// whoever asks, and any other is answered with nothing.
pub proof fn law_inline_queries(query: Seq<char>, from: User, id: i64)
    ensures
        i64_value(trim(query)) == Some(id) && id > 0 ==> inline_step(query, from) == InlineStep::<
            Seq<char>,
        >::CheckUser(InlineCheck { user_id: account_id(from), telegram_id: id }),
        telegram_id_value(trim(query)) is None ==> inline_step(query, from) is Empty,
{
}

/// Lookups are recorded as `YES` if and only if the ID was found, as `NO` if and
/// only if it was not, and as `ERROR` if and only if the lookup failed.
pub proof fn law_records_tell_outcomes_apart(outcome: Outcome)
    ensures
        outcome_text(outcome) == "YES"@ <==> outcome == Outcome::Found,
        outcome_text(outcome) == "NO"@ <==> outcome == Outcome::NotFound,
        outcome_text(outcome) == "ERROR"@ <==> outcome == Outcome::Failed,
{
    reveal_strlit("YES");
    reveal_strlit("NO");
    reveal_strlit("ERROR");
    assert("YES"@.len() == 3 && "NO"@.len() == 2 && "ERROR"@.len() == 5);
}

/// Whoever asks is told what the lookup came to: in a private chat with the
/// English sentences, in a group with the Russian ones, and of a failure in either
/// place.
pub proof fn law_replies_say_the_outcome(outcome: Outcome)
    ensures
        ({
            let said = message_text(reply_to(Place::Private, outcome));
            &&& outcome == Outcome::Found ==> said == "YES — this ID is registered in Telega."@
            &&& outcome == Outcome::NotFound ==> said == "NO — this ID was not found in Telega."@
            &&& outcome == Outcome::Failed ==> said
                == "⚠️ Произошла ошибка при проверке. Попробуйте позже."@
        }),
        ({
            let said = message_text(reply_to(Place::Group, outcome));
            &&& outcome == Outcome::Found ==> said == "✅ ДА — этот ID зарегистрирован в Telega."@
            &&& outcome == Outcome::NotFound ==> said == "❌ НЕТ — этот ID не найден в Telega."@
            &&& outcome == Outcome::Failed ==> said == "⚠️ Ошибка при проверке."@
        }),
{
}

/// Which words an inline answer uses depends on the outcome alone: for every ID it
/// says yes around the ID's decimal notation if and only if the ID was found, no
/// if and only if it was not, and that the check failed if and only if it did.
pub proof fn law_articles_say_the_outcome(telegram_id: i64, outcome: Outcome)
    ensures
        ({
            let id = decimal(telegram_id as int);
            let article = article_for(telegram_id, outcome);
            &&& article.id == "check_"@ + id
            &&& outcome == Outcome::Found <==> {
                &&& article.title == "✅ ДА"@
                &&& article.description == "ID "@ + id + " зарегистрирован в Telega"@
                &&& article.text == "✅ ДА — ID "@ + id + " зарегистрирован в Telega."@
            }
            &&& outcome == Outcome::NotFound <==> {
                &&& article.title == "❌ НЕТ"@
                &&& article.description == "ID "@ + id + " не найден в Telega"@
                &&& article.text == "❌ НЕТ — ID "@ + id + " не найден в Telega."@
            }
            &&& outcome == Outcome::Failed <==> {
                &&& article.title == "⚠️ Ошибка"@
                &&& article.description == "Не удалось проверить ID "@ + id
                &&& article.text == "⚠️ Ошибка при проверке ID "@ + id + "."@
            }
        }),
{
    reveal_strlit("✅ ДА");
    reveal_strlit("❌ НЕТ");
    reveal_strlit("⚠️ Ошибка");
    assert("✅ ДА"@[0] != "❌ НЕТ"@[0]);
    assert("✅ ДА"@[0] != "⚠️ Ошибка"@[0]);
    assert("❌ НЕТ"@[0] != "⚠️ Ошибка"@[0]);
}

/// Answers about two IDs are two answers: they are told apart by their IDs.
pub proof fn law_articles_are_about_their_id(a: i64, b: i64, outcome: Outcome, other: Outcome)
    requires
        article_for(a, outcome).id == article_for(b, other).id,
    ensures
        a == b,
{
    law_articles_say_the_outcome(a, outcome);
    law_articles_say_the_outcome(b, other);
    let n = "check_"@.len() as int;
    assert(article_for(a, outcome).id.skip(n) =~= decimal(a as int));
    assert(article_for(b, other).id.skip(n) =~= decimal(b as int));
    crate::text::law_decimal_injective(a as int, b as int);
}

/// What an inline query asked for is what is recorded and what is answered, with
/// the outcome of its lookup, and Telegram may keep the answer for five minutes.
pub proof fn law_inline_answers_are_about_the_query(check: InlineCheck, outcome: Outcome)
    ensures
        check.after(outcome) matches InlineStep::LogRequest(log) && log.user_id == check.user_id
            && log.telegram_id == check.telegram_id && log.outcome == outcome && (
        log.after() matches InlineStep::Answer(answer) && answer.cache_seconds == 300
            && answer.article.id == "check_"@ + decimal(check.telegram_id as int)
            && answer.article == article_for(check.telegram_id, outcome)),
{
}

}
