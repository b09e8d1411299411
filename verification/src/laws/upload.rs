//! The upload of the plugin files, and its summary.
use crate::bot_handler::upload::{
    asset_name, failure_lines, file_step, is_plugin, plugin_stem, stored_count, summary_text,
    upload_command_step, Announce, AssetOutcome, ListDirectory, Listing, StoreAsset, UploadFile,
    UploadReply, UploadResult, UploadStep, UploadView,
};
use crate::bot_handler::{sender_id, User};
use crate::laws::text::law_without_a_mark;
use crate::messages::{message_text, Message};
use crate::text::{decimal, is_letter_or_number, join, lowercase};
use vstd::prelude::*;
use vstd::utf8::is_ascii_chars;

verus! {

/// The administrator's command is announced and then carried out; anyone else's
/// is ignored.
pub proof fn law_administrator_uploads(from: Option<User>, admin_id: i64)
    ensures
        sender_id(from) == admin_id ==> upload_command_step(from, admin_id)
            == UploadView::Announce(Announce),
        sender_id(from) != admin_id ==> upload_command_step(from, admin_id) is Ignore,
        Announce.after() == UploadView::ListDirectory(ListDirectory),
{
}

/// A directory that is missing or cannot be read is reported; the files of any
/// other are gone through from the first on, with no result yet.
pub proof fn law_directories_are_gone_through(
    names: Seq<Option<Seq<char>>>,
    cause: Seq<char>,
)
    ensures
        ListDirectory.after(Listing::Missing) matches UploadStep::Reply(m) && message_text(m)
            == "Директория plugins/ не найдена. Убедитесь, что бот запущен из корня проекта."@,
        ListDirectory.after(Listing::Unreadable(cause)) matches UploadStep::Reply(m)
            && message_text(m) == "Ошибка чтения директории: "@ + cause,
        ListDirectory.after(Listing::Files(names)) == file_step(names, Seq::empty()),
{
}

/// A file is a plugin if and only if its name is something followed by `.plugin`,
/// and that is its stem; any other file's stem is its name.
pub proof fn law_plugins_have_the_extension(stem: Seq<char>, filename: Seq<char>)
    ensures
        is_plugin(stem + ".plugin"@),
        plugin_stem(stem + ".plugin"@) == stem,
        is_plugin(filename) ==> filename == plugin_stem(filename) + ".plugin"@,
        !is_plugin(filename) ==> plugin_stem(filename) == filename,
{
    let whole = stem + ".plugin"@;
    let n = ".plugin"@.len() as int;
    assert(whole.skip(whole.len() - n) =~= ".plugin"@);
    assert(plugin_stem(whole) =~= stem);
    if is_plugin(filename) {
        assert(filename =~= plugin_stem(filename) + ".plugin"@);
    }
}

/// Of a client's name in ASCII, without an underscore, the asset's name keeps
/// exactly the letters and numbers, in order and in lowercase: what two parts
/// give one after the other, the whole gives, and a single character gives itself
/// or nothing.
pub proof fn law_asset_names_keep_letters_and_numbers(
    first: Seq<char>,
    second: Seq<char>,
    c: char,
)
    requires
        is_ascii_chars(first),
        is_ascii_chars(second),
        !first.contains('_'),
        !second.contains('_'),
        (c as u32) < 128,
        c != '_',
    ensures
        asset_name(first + second + ".plugin"@) == asset_name(first + ".plugin"@) + asset_name(
            second + ".plugin"@,
        ),
        '0' <= c <= '9' || 'a' <= c <= 'z' ==> asset_name(seq![c] + ".plugin"@) == seq![c],
        'A' <= c <= 'Z' ==> asset_name(seq![c] + ".plugin"@) == seq![(c as int + 32) as char],
        !('0' <= c <= '9' || 'a' <= c <= 'z' || 'A' <= c <= 'Z') ==> asset_name(
            seq![c] + ".plugin"@,
        ) == Seq::<char>::empty(),
        asset_name(".plugin"@) == Seq::<char>::empty(),
{
    let wanted = |c: char| is_letter_or_number(c);
    let none = Seq::<char>::empty();
    let both = first + second;
    let one = seq![c];
    assert(!both.contains('_')) by {
        if both.contains('_') {
            let i = both.index_of('_');
            if i < first.len() {
                assert(first[i] == '_');
            } else {
                assert(second[i - first.len()] == '_');
            }
        }
    }
    assert(!one.contains('_'));
    law_plugins_have_the_extension(first, first);
    law_plugins_have_the_extension(second, second);
    law_plugins_have_the_extension(both, both);
    law_plugins_have_the_extension(one, one);
    law_plugins_have_the_extension(none, none);
    assert(none + ".plugin"@ =~= ".plugin"@);
    law_without_a_mark(first, '_');
    law_without_a_mark(second, '_');
    law_without_a_mark(both, '_');
    law_without_a_mark(one, '_');
    law_without_a_mark(none, '_');
    assert(is_ascii_chars(both));
    assert(lowercase(both) =~= lowercase(first) + lowercase(second));
    Seq::filter_distributes_over_add(lowercase(first), lowercase(second), wanted);
    let lower = lowercase(one);
    assert(is_ascii_chars(one));
    assert(lower =~= seq![crate::text::ascii_lowercase(c)]);
    assert(lowercase(none) =~= none);
    reveal_with_fuel(Seq::filter, 2);
    assert(lower.drop_last() =~= none);
    assert(lower.filter(wanted) =~= if wanted(lower[0]) {
        lower
    } else {
        none
    });
}

/// An entry that is no text or no plugin is passed over; a plugin is uploaded
/// under its asset's name, with the entries behind it still to come and the
/// results so far kept; and where no entry is left, the summary is sent.
pub proof fn law_entries_are_taken_in_order(
    name: Seq<char>,
    rest: Seq<Option<Seq<char>>>,
    results: Seq<UploadResult<Seq<char>>>,
)
    ensures
        file_step(seq![None::<Seq<char>>] + rest, results) == file_step(rest, results),
        !is_plugin(name) ==> file_step(seq![Some(name)] + rest, results) == file_step(
            rest,
            results,
        ),
        is_plugin(name) ==> file_step(seq![Some(name)] + rest, results) == UploadView::UploadFile(
            UploadFile { file: name, asset: asset_name(name), waiting: rest, results },
        ),
        file_step(Seq::empty(), results) == UploadView::Reply(
            Message::UploadSummary(summary_text(results)),
        ),
{
    assert((seq![None::<Seq<char>>] + rest).skip(1) =~= rest);
    assert((seq![Some(name)] + rest).skip(1) =~= rest);
}

/// An uploaded document is stored under the asset's name with the file ID that
/// Telegram gave it; one that failed, or that Telegram names no document for, is
/// noted as such, once, and the next file is taken.
pub proof fn law_uploads_are_noted(
    upload: UploadFile<Seq<char>, Seq<Option<Seq<char>>>, Seq<UploadResult<Seq<char>>>>,
    file_id: Seq<char>,
)
    ensures
        upload.after(UploadReply::Document(file_id)) == UploadView::StoreAsset(
            StoreAsset {
                asset: upload.asset,
                file_id,
                waiting: upload.waiting,
                results: upload.results,
            },
        ),
        upload.after(UploadReply::NoDocument) == file_step(
            upload.waiting,
            upload.results.push(
                UploadResult { asset: upload.asset, outcome: AssetOutcome::NoDocument },
            ),
        ),
        upload.after(UploadReply::Failed) == file_step(
            upload.waiting,
            upload.results.push(
                UploadResult { asset: upload.asset, outcome: AssetOutcome::NotUploaded },
            ),
        ),
{
}

/// An asset is noted as stored if and only if it was, once, and the next file is
/// taken.
pub proof fn law_stored_assets_are_noted(
    store: StoreAsset<Seq<char>, Seq<Option<Seq<char>>>, Seq<UploadResult<Seq<char>>>>,
)
    ensures
        store.after(true) == file_step(
            store.waiting,
            store.results.push(UploadResult { asset: store.asset, outcome: AssetOutcome::Stored }),
        ),
        store.after(false) == file_step(
            store.waiting,
            store.results.push(
                UploadResult { asset: store.asset, outcome: AssetOutcome::NotStored },
            ),
        ),
{
}

/// Each further result counts as stored, or adds one line with its asset and what
/// went wrong; without results there is neither.
pub proof fn law_results_are_counted(
    results: Seq<UploadResult<Seq<char>>>,
    asset: Seq<char>,
)
    ensures
        stored_count(Seq::empty()) == 0,
        failure_lines(Seq::empty()) == Seq::<Seq<char>>::empty(),
        ({
            let more = results.push(UploadResult { asset, outcome: AssetOutcome::Stored });
            stored_count(more) == stored_count(results) + 1 && failure_lines(more)
                == failure_lines(results)
        }),
        ({
            let more = results.push(UploadResult { asset, outcome: AssetOutcome::NotStored });
            stored_count(more) == stored_count(results) && failure_lines(more) == failure_lines(
                results,
            ).push(asset + ": DB error"@)
        }),
        ({
            let more = results.push(UploadResult { asset, outcome: AssetOutcome::NoDocument });
            stored_count(more) == stored_count(results) && failure_lines(more) == failure_lines(
                results,
            ).push(asset + ": no document in response"@)
        }),
        ({
            let more = results.push(UploadResult { asset, outcome: AssetOutcome::NotUploaded });
            stored_count(more) == stored_count(results) && failure_lines(more) == failure_lines(
                results,
            ).push(asset + ": upload failed"@)
        }),
{
    reveal(Seq::filter);
    lemma_one_more(results, UploadResult { asset, outcome: AssetOutcome::Stored });
    lemma_one_more(results, UploadResult { asset, outcome: AssetOutcome::NotStored });
    lemma_one_more(results, UploadResult { asset, outcome: AssetOutcome::NoDocument });
    lemma_one_more(results, UploadResult { asset, outcome: AssetOutcome::NotUploaded });
    assert(failure_lines(Seq::empty()) =~= Seq::<Seq<char>>::empty());
}

proof fn lemma_one_more(
    results: Seq<UploadResult<Seq<char>>>,
    result: UploadResult<Seq<char>>,
)
    ensures
        ({
            let more = results.push(result);
            let line = result.asset + crate::bot_handler::upload::failure_text(result.outcome);
            if result.outcome == AssetOutcome::Stored {
                stored_count(more) == stored_count(results) + 1 && failure_lines(more)
                    == failure_lines(results)
            } else {
                stored_count(more) == stored_count(results) && failure_lines(more)
                    == failure_lines(results).push(line)
            }
        }),
{
    reveal(Seq::filter);
    let more = results.push(result);
    let failed = |r: UploadResult<Seq<char>>| !crate::bot_handler::upload::is_stored(r);
    let to_line = |r: UploadResult<Seq<char>>|
        r.asset + crate::bot_handler::upload::failure_text(r.outcome);
    assert(more.drop_last() =~= results);
    assert(results.filter(failed).push(result).map_values(to_line) =~= results.filter(
        failed,
    ).map_values(to_line).push(to_line(result)));
}

/// The summary says how many assets are stored and, where some are not, lists
/// their lines, each on a line of its own.
pub proof fn law_summaries_say_what_failed(results: Seq<UploadResult<Seq<char>>>)
    ensures
        failure_lines(results).len() == 0 ==> summary_text(results) == "Загружено плагинов: "@
            + decimal(stored_count(results) as int),
        failure_lines(results).len() > 0 ==> summary_text(results) == "Загружено плагинов: "@
            + decimal(stored_count(results) as int) + "\nОшибки:\n"@ + join(
            failure_lines(results),
            "\n"@,
        ),
{
    if failure_lines(results).len() == 0 {
        assert(summary_text(results) =~= "Загружено плагинов: "@ + decimal(
            stored_count(results) as int,
        ));
    } else {
        assert(summary_text(results) =~= "Загружено плагинов: "@ + decimal(
            stored_count(results) as int,
        ) + "\nОшибки:\n"@ + join(failure_lines(results), "\n"@));
    }
}

}
