//! The upload of the plugin files to Telegram, which the administrator asks for.
use super::{sender, sender_id, User};
use crate::db::{upsert_plugin_asset, upsert_plugin_asset_statement, Statement};
use crate::laws::text::{law_after_the_last_mark, law_without_a_mark};
use crate::messages::Message;
use crate::text::{
    after_last, alphanumeric_only, ascii_lowercase, decimal, ends_with, is_letter_or_number, join, joined,
    last_segment, lowercase, optional_view, texts_view, u64_text,
};
use vstd::prelude::*;
use vstd::utf8::is_ascii_chars;

verus! {

// ---------------------------------------------------------------------------
// Plugin files and asset names
// ---------------------------------------------------------------------------

/// The directory of the plugin files.
pub const PLUGIN_DIRECTORY: &'static str = "plugins";

/// How the names of plugin files end.
pub const PLUGIN_EXTENSION: &'static str = ".plugin";

/// Whether a file is a plugin, by its name.
pub open spec fn is_plugin(filename: Seq<char>) -> bool {
    PLUGIN_EXTENSION@.is_suffix_of(filename)
}

/// The name of a plugin file without its extension.
pub open spec fn plugin_stem(filename: Seq<char>) -> Seq<char> {
    if is_plugin(filename) {
        filename.take(filename.len() - PLUGIN_EXTENSION@.len())
    } else {
        filename
    }
}

/// The name of a plugin's asset: the last segment of the file's stem between
/// underscores (the client's name), in lowercase, its letters and numbers only.
pub open spec fn asset_name(filename: Seq<char>) -> Seq<char> {
    lowercase(after_last(plugin_stem(filename), '_')).filter(|c: char| is_letter_or_number(c))
}

/// Derives a friendly asset name from the name of a plugin file, such as
/// `ayugram` from `telega_checker_rust_AyuGram.plugin`.
pub fn derive_asset_name(filename: &str) -> (name: String)
    ensures
        name@ == asset_name(filename@),
{
    let segment = if ends_with(filename, PLUGIN_EXTENSION) {
        let end: usize = filename.unicode_len() - PLUGIN_EXTENSION.unicode_len();
        let stem = filename.substring_char(0, end);
        assert(filename@.subrange(0, end as int) =~= filename@.take(end as int));
        last_segment(stem, '_')
    } else {
        last_segment(filename, '_')
    };
    let lower = segment.as_str().to_lowercase();
    alphanumeric_only(lower.as_str())
}

/// An asset name holds nothing but letters and numbers.
pub proof fn law_asset_name_is_alphanumeric(filename: Seq<char>, i: int)
    requires
        0 <= i < asset_name(filename).len(),
    ensures
        is_letter_or_number(asset_name(filename)[i]),
{
    let segment = lowercase(after_last(plugin_stem(filename), '_'));
    let wanted = |c: char| is_letter_or_number(c);
    segment.lemma_filter_pred(wanted, i);
}

/// Only what follows the last underscore of a file's name counts for the name of
/// its asset.
pub proof fn law_only_the_last_segment_counts(before: Seq<char>, rest: Seq<char>)
    requires
        !rest.contains('_'),
    ensures
        asset_name(before + seq!['_'] + rest) == asset_name(rest),
{
    let whole = before + seq!['_'] + rest;
    let n = PLUGIN_EXTENSION@.len() as int;
    reveal_strlit(".plugin");
    if rest.len() >= n {
        assert(whole.skip(whole.len() - n) =~= rest.skip(rest.len() - n));
        assert(is_plugin(whole) == is_plugin(rest));
    } else if whole.len() >= n {
        assert(whole.skip(whole.len() - n)[n - 1 - rest.len()] == '_');
        assert(!is_plugin(whole));
    }
    let stem = plugin_stem(rest);
    assert(plugin_stem(whole) =~= before + seq!['_'] + stem);
    assert forall|c: char| stem.contains(c) implies rest.contains(c) by {
        let i = stem.index_of(c);
        assert(rest[i] == c);
    }
    law_after_the_last_mark(before, stem, '_');
    law_without_a_mark(stem, '_');
}

/// The name of an asset stays as it is when it is derived from once more, since
/// it is in lowercase.
pub proof fn law_asset_name_is_kept(filename: Seq<char>)
    requires
        lowercase(asset_name(filename)) == asset_name(filename),
    ensures
        asset_name(asset_name(filename)) == asset_name(filename),
{
    let wanted = |c: char| is_letter_or_number(c);
    let name = asset_name(filename);
    assert forall|i: int| 0 <= i < name.len() implies wanted(#[trigger] name[i]) by {
        law_asset_name_is_alphanumeric(filename, i);
    }
    reveal_strlit(".plugin");
    if is_plugin(name) {
        assert(name[name.len() - 7] == name.skip(name.len() - 7)[0]);
        assert(wanted(name[name.len() - 7]));
    }
    assert(plugin_stem(name) == name);
    assert(!name.contains('_')) by {
        if name.contains('_') {
            assert(wanted(name[name.index_of('_')]));
        }
    }
    law_without_a_mark(name, '_');
    lemma_all_kept(name, wanted);
}

/// The name of an asset whose file names the client in ASCII is in lowercase.
pub proof fn law_ascii_asset_name_is_lowercase(filename: Seq<char>)
    requires
        is_ascii_chars(after_last(plugin_stem(filename), '_')),
    ensures
        lowercase(asset_name(filename)) == asset_name(filename),
{
    let segment = after_last(plugin_stem(filename), '_');
    let lower = lowercase(segment);
    let wanted = |c: char| is_letter_or_number(c);
    let name = asset_name(filename);
    assert forall|i: int| 0 <= i < name.len() implies (#[trigger] name[i] as u32) < 128
        && ascii_lowercase(name[i]) == name[i] by {
        lower.lemma_filter_contains_rev(wanted, name[i]);
        let j = lower.index_of(name[i]);
        assert(lower[j] == ascii_lowercase(segment[j]));
    }
    assert(is_ascii_chars(name));
    assert(lowercase(name) =~= name);
}

proof fn lemma_all_kept(text: Seq<char>, wanted: spec_fn(char) -> bool)
    requires
        forall|i: int| 0 <= i < text.len() ==> wanted(#[trigger] text[i]),
    ensures
        text.filter(wanted) == text,
    decreases text.len(),
{
    reveal(Seq::filter);
    if text.len() > 0 {
        lemma_all_kept(text.drop_last(), wanted);
        assert(text.drop_last().push(text.last()) =~= text);
    }
}

// ---------------------------------------------------------------------------
// The course of an upload
// ---------------------------------------------------------------------------

/// What the plugin directory holds. `S` is a text, `E` a list of file names, of
/// which those that are no text are missing.
#[derive(Debug)]
pub enum Listing<S, E> {
    /// There is no such directory.
    Missing,
    /// It cannot be read.
    Unreadable(S),
    /// Its entries.
    Files(E),
}

/// What became of an upload.
#[derive(Debug)]
pub enum UploadReply<S> {
    /// Telegram holds the document under this file ID.
    Document(S),
    /// Telegram's answer names no document.
    NoDocument,
    /// The upload failed.
    Failed,
}

/// What became of an asset.
#[derive(Clone, Copy, Debug, PartialEq, Eq, Structural)]
pub enum AssetOutcome {
    Stored,
    NotStored,
    NoDocument,
    NotUploaded,
}

/// What became of which asset.
#[derive(Debug)]
pub struct UploadResult<S> {
    pub asset: S,
    pub outcome: AssetOutcome,
}

/// The view of a list of file names.
pub open spec fn names_view(names: Seq<Option<String>>) -> Seq<Option<Seq<char>>> {
    names.map_values(|n: Option<String>| optional_view(n))
}

/// The view of a list of results.
pub open spec fn results_view(results: Seq<UploadResult<String>>) -> Seq<UploadResult<Seq<char>>> {
    results.map_values(
        |r: UploadResult<String>| UploadResult { asset: r.asset@, outcome: r.outcome },
    )
}

/// What an upload needs done next. `S` is a text, `E` a list of file names and
/// `R` a list of results.
#[derive(Debug)]
pub enum UploadStep<S, E, R> {
    /// Nothing: the sender is not the administrator.
    Ignore,
    /// Send [`Message::Uploading`].
    Announce(Announce),
    ListDirectory(ListDirectory),
    UploadFile(UploadFile<S, E, R>),
    StoreAsset(StoreAsset<S, E, R>),
    /// Send this message; then the upload is over.
    Reply(Message<S>),
}

/// An [`UploadStep`] in code.
pub type Upload = UploadStep<String, Vec<Option<String>>, Vec<UploadResult<String>>>;

/// The view of an [`UploadStep`].
pub type UploadView = UploadStep<
    Seq<char>,
    Seq<Option<Seq<char>>>,
    Seq<UploadResult<Seq<char>>>,
>;

/// Announce the upload.
#[derive(Debug)]
pub struct Announce;

/// List the entries of [`PLUGIN_DIRECTORY`].
#[derive(Debug)]
pub struct ListDirectory;

/// Upload a file of [`PLUGIN_DIRECTORY`].
#[derive(Debug)]
pub struct UploadFile<S, E, R> {
    pub file: S,
    pub asset: S,
    /// The entries that follow.
    pub waiting: E,
    /// What became of the assets so far.
    pub results: R,
}

/// Store the file ID of an asset.
#[derive(Debug)]
pub struct StoreAsset<S, E, R> {
    pub asset: S,
    pub file_id: S,
    /// The entries that follow.
    pub waiting: E,
    /// What became of the assets so far.
    pub results: R,
}

impl View for UploadFile<String, Vec<Option<String>>, Vec<UploadResult<String>>> {
    type V = UploadFile<Seq<char>, Seq<Option<Seq<char>>>, Seq<UploadResult<Seq<char>>>>;

    open spec fn view(&self) -> Self::V {
        UploadFile {
            file: self.file@,
            asset: self.asset@,
            waiting: names_view(self.waiting@),
            results: results_view(self.results@),
        }
    }
}

impl View for StoreAsset<String, Vec<Option<String>>, Vec<UploadResult<String>>> {
    type V = StoreAsset<Seq<char>, Seq<Option<Seq<char>>>, Seq<UploadResult<Seq<char>>>>;

    open spec fn view(&self) -> Self::V {
        StoreAsset {
            asset: self.asset@,
            file_id: self.file_id@,
            waiting: names_view(self.waiting@),
            results: results_view(self.results@),
        }
    }
}

impl View for UploadStep<String, Vec<Option<String>>, Vec<UploadResult<String>>> {
    type V = UploadView;

    open spec fn view(&self) -> UploadView {
        match *self {
            UploadStep::Ignore => UploadStep::Ignore,
            UploadStep::Announce(s) => UploadStep::Announce(s),
            UploadStep::ListDirectory(s) => UploadStep::ListDirectory(s),
            UploadStep::UploadFile(s) => UploadStep::UploadFile(s@),
            UploadStep::StoreAsset(s) => UploadStep::StoreAsset(s@),
            UploadStep::Reply(m) => UploadStep::Reply(m@),
        }
    }
}

/// What the command /upload_assets leads to: nothing unless the administrator
/// sent it.
pub open spec fn upload_command_step(from: Option<User>, admin_id: i64) -> UploadView {
    if sender_id(from) == admin_id {
        UploadStep::Announce(Announce)
    } else {
        UploadStep::Ignore
    }
}

/// Handles the command /upload_assets.
pub fn handle_upload_assets(from: Option<User>, admin_id: i64) -> (step: Upload)
    ensures
        step@ == upload_command_step(from, admin_id),
{
    if sender(from) != admin_id {
        return UploadStep::Ignore;
    }
    UploadStep::Announce(Announce)
}

// ---------------------------------------------------------------------------
// The summary
// ---------------------------------------------------------------------------

/// How a failure is reported.
pub open spec fn failure_text(outcome: AssetOutcome) -> Seq<char> {
    match outcome {
        AssetOutcome::Stored => Seq::empty(),
        AssetOutcome::NotStored => ": DB error"@,
        AssetOutcome::NoDocument => ": no document in response"@,
        AssetOutcome::NotUploaded => ": upload failed"@,
    }
}

/// Whether an asset was uploaded and stored.
pub open spec fn is_stored(result: UploadResult<Seq<char>>) -> bool {
    result.outcome == AssetOutcome::Stored
}

/// How many assets were uploaded and stored.
pub open spec fn stored_count(results: Seq<UploadResult<Seq<char>>>) -> nat {
    results.filter(|r: UploadResult<Seq<char>>| is_stored(r)).len()
}

/// One line for each asset that was not, in order.
pub open spec fn failure_lines(results: Seq<UploadResult<Seq<char>>>) -> Seq<Seq<char>> {
    results.filter(|r: UploadResult<Seq<char>>| !is_stored(r)).map_values(
        |r: UploadResult<Seq<char>>| r.asset + failure_text(r.outcome),
    )
}

/// How the upload went: how many assets are stored, and which failed how.
pub open spec fn summary_text(results: Seq<UploadResult<Seq<char>>>) -> Seq<char> {
    "Загружено плагинов: "@ + decimal(stored_count(results) as int) + if failure_lines(
        results,
    ).len() == 0 {
        Seq::empty()
    } else {
        "\nОшибки:\n"@ + join(failure_lines(results), "\n"@)
    }
}

/// Writes the summary.
fn summary(results: &Vec<UploadResult<String>>) -> (text: String)
    ensures
        text@ == summary_text(results_view(results@)),
{
    let ghost views = results_view(results@);
    let ghost stored = |r: UploadResult<Seq<char>>| is_stored(r);
    let ghost failed = |r: UploadResult<Seq<char>>| !is_stored(r);
    let ghost line = |r: UploadResult<Seq<char>>| r.asset + failure_text(r.outcome);
    let mut count: u64 = 0;
    let mut errors: Vec<String> = Vec::new();
    let mut i: usize = 0;
    proof {
        reveal(Seq::filter);
        assert(texts_view(errors@) =~= views.take(0).filter(failed).map_values(line));
    }
    while i < results.len()
        invariant
            i <= results@.len(),
            count <= i,
            views == results_view(results@),
            stored == (|r: UploadResult<Seq<char>>| is_stored(r)),
            failed == (|r: UploadResult<Seq<char>>| !is_stored(r)),
            line == (|r: UploadResult<Seq<char>>| r.asset + failure_text(r.outcome)),
            count == views.take(i as int).filter(stored).len(),
            texts_view(errors@) == views.take(i as int).filter(failed).map_values(line),
        decreases results@.len() - i,
    {
        let ghost before = views.take(i as int);
        let ghost result = views[i as int];
        proof {
            reveal(Seq::filter);
            assert(views.take(i + 1).drop_last() =~= before);
            assert(before.filter(failed).push(result).map_values(line) =~= before.filter(
                failed,
            ).map_values(line).push(line(result)));
        }
        let asset = results[i].asset.clone();
        match results[i].outcome {
            AssetOutcome::Stored => {
                count = count + 1;
            },
            outcome => {
                let failure = match outcome {
                    AssetOutcome::NotStored => ": DB error",
                    AssetOutcome::NoDocument => ": no document in response",
                    _ => ": upload failed",
                };
                let error = asset.concat(failure);
                let ghost old_errors = errors@;
                errors.push(error);
                assert(texts_view(errors@) =~= texts_view(old_errors).push(error@));
            },
        }
        i = i + 1;
    }
    assert(views.take(i as int) =~= views);
    let mut text = "Загружено плагинов: ".to_owned();
    let number = u64_text(count);
    text.append(number.as_str());
    if errors.len() > 0 {
        text.append("\nОшибки:\n");
        let lines = joined(&errors, "\n");
        text.append(lines.as_str());
    }
    assert(text@ =~= summary_text(views));
    text
}

// ---------------------------------------------------------------------------
// File by file
// ---------------------------------------------------------------------------

/// Upload the first plugin among `names`, or report where none is left.
pub open spec fn file_step(
    names: Seq<Option<Seq<char>>>,
    results: Seq<UploadResult<Seq<char>>>,
) -> UploadView
    decreases names.len(),
{
    if names.len() == 0 {
        UploadStep::Reply(Message::UploadSummary(summary_text(results)))
    } else {
        match names[0] {
            Some(name) => if is_plugin(name) {
                UploadStep::UploadFile(
                    UploadFile {
                        file: name,
                        asset: asset_name(name),
                        waiting: names.skip(1),
                        results,
                    },
                )
            } else {
                file_step(names.skip(1), results)
            },
            None => file_step(names.skip(1), results),
        }
    }
}

/// Uploads the first plugin among `names`, or reports where none is left.
fn next_file(entries: Vec<Option<String>>, results: Vec<UploadResult<String>>) -> (step: Upload)
    ensures
        step@ == file_step(names_view(entries@), results_view(results@)),
{
    let ghost start = names_view(entries@);
    let ghost done = results_view(results@);
    let mut names = entries;
    while names.len() > 0
        invariant
            start == names_view(entries@),
            done == results_view(results@),
            file_step(names_view(names@), done) == file_step(start, done),
        decreases names@.len(),
    {
        let ghost before = names_view(names@);
        let first = names.remove(0);
        assert(names_view(names@) =~= before.skip(1));
        assert(before[0] == optional_view(first));
        if let Some(file) = first {
            if ends_with(file.as_str(), PLUGIN_EXTENSION) {
                let asset = derive_asset_name(file.as_str());
                return UploadStep::UploadFile(
                    UploadFile { file, asset, waiting: names, results },
                );
            }
        }
    }
    UploadStep::Reply(Message::UploadSummary(summary(&results)))
}

/// Adds a result.
fn noted(
    results: Vec<UploadResult<String>>,
    asset: String,
    outcome: AssetOutcome,
) -> (all: Vec<UploadResult<String>>)
    ensures
        results_view(all@) == results_view(results@).push(
            UploadResult { asset: asset@, outcome },
        ),
{
    let ghost before = results@;
    let mut all = results;
    all.push(UploadResult { asset, outcome });
    assert(results_view(all@) =~= results_view(before).push(
        UploadResult { asset: asset@, outcome },
    ));
    all
}

impl Announce {
    pub open spec fn after(self) -> UploadView {
        UploadStep::ListDirectory(ListDirectory)
    }

    /// Goes on once the announcement is sent.
    pub fn resume(self) -> (step: Upload)
        ensures
            step@ == self.after(),
    {
        UploadStep::ListDirectory(ListDirectory)
    }
}

impl ListDirectory {
    pub open spec fn after(self, listing: Listing<Seq<char>, Seq<Option<Seq<char>>>>) -> UploadView {
        match listing {
            Listing::Missing => UploadStep::Reply(Message::NoPluginDirectory),
            Listing::Unreadable(e) => UploadStep::Reply(Message::DirectoryUnreadable(e)),
            Listing::Files(names) => file_step(names, Seq::empty()),
        }
    }

    /// Goes on with what the directory holds.
    pub fn resume(self, listing: Listing<String, Vec<Option<String>>>) -> (step: Upload)
        ensures
            step@ == self.after(
                match listing {
                    Listing::Missing => Listing::Missing,
                    Listing::Unreadable(e) => Listing::Unreadable(e@),
                    Listing::Files(names) => Listing::Files(names_view(names@)),
                },
            ),
    {
        match listing {
            Listing::Missing => UploadStep::Reply(Message::NoPluginDirectory),
            Listing::Unreadable(e) => UploadStep::Reply(Message::DirectoryUnreadable(e)),
            Listing::Files(names) => {
                let results: Vec<UploadResult<String>> = Vec::new();
                assert(results_view(results@) =~= Seq::empty());
                next_file(names, results)
            },
        }
    }
}

impl UploadFile<Seq<char>, Seq<Option<Seq<char>>>, Seq<UploadResult<Seq<char>>>> {
    pub open spec fn after(self, reply: UploadReply<Seq<char>>) -> UploadView {
        match reply {
            UploadReply::Document(file_id) => UploadStep::StoreAsset(
                StoreAsset {
                    asset: self.asset,
                    file_id,
                    waiting: self.waiting,
                    results: self.results,
                },
            ),
            UploadReply::NoDocument => file_step(
                self.waiting,
                self.results.push(
                    UploadResult { asset: self.asset, outcome: AssetOutcome::NoDocument },
                ),
            ),
            UploadReply::Failed => file_step(
                self.waiting,
                self.results.push(
                    UploadResult { asset: self.asset, outcome: AssetOutcome::NotUploaded },
                ),
            ),
        }
    }
}

impl UploadFile<String, Vec<Option<String>>, Vec<UploadResult<String>>> {
    /// Goes on with what became of the upload.
    pub fn resume(self, reply: UploadReply<String>) -> (step: Upload)
        ensures
            step@ == self@.after(
                match reply {
                    UploadReply::Document(file_id) => UploadReply::Document(file_id@),
                    UploadReply::NoDocument => UploadReply::NoDocument,
                    UploadReply::Failed => UploadReply::Failed,
                },
            ),
    {
        match reply {
            UploadReply::Document(file_id) => UploadStep::StoreAsset(
                StoreAsset {
                    asset: self.asset,
                    file_id,
                    waiting: self.waiting,
                    results: self.results,
                },
            ),
            UploadReply::NoDocument => next_file(
                self.waiting,
                noted(self.results, self.asset, AssetOutcome::NoDocument),
            ),
            UploadReply::Failed => next_file(
                self.waiting,
                noted(self.results, self.asset, AssetOutcome::NotUploaded),
            ),
        }
    }
}

impl StoreAsset<Seq<char>, Seq<Option<Seq<char>>>, Seq<UploadResult<Seq<char>>>> {
    pub open spec fn after(self, stored: bool) -> UploadView {
        file_step(
            self.waiting,
            self.results.push(
                UploadResult {
                    asset: self.asset,
                    outcome: if stored {
                        AssetOutcome::Stored
                    } else {
                        AssetOutcome::NotStored
                    },
                },
            ),
        )
    }
}

impl StoreAsset<String, Vec<Option<String>>, Vec<UploadResult<String>>> {
    /// The statement to run.
    pub fn statement(&self) -> (statement: Statement)
        ensures
            statement@ == upsert_plugin_asset_statement(self.asset@, self.file_id@),
    {
        upsert_plugin_asset(self.asset.as_str(), self.file_id.as_str())
    }

    /// Goes on with whether the statement succeeded.
    pub fn resume(self, stored: bool) -> (step: Upload)
        ensures
            step@ == self@.after(stored),
    {
        let outcome = if stored {
            AssetOutcome::Stored
        } else {
            AssetOutcome::NotStored
        };
        next_file(self.waiting, noted(self.results, self.asset, outcome))
    }
}

// ---------------------------------------------------------------------------
// What holds of every upload
// ---------------------------------------------------------------------------

/// What an upload meets on its way: what becomes of the file that step `n`
/// uploads, and whether the asset of step `n` can be stored.
pub struct UploadWorld {
    pub upload: spec_fn(nat) -> UploadReply<Seq<char>>,
    pub store: spec_fn(nat) -> bool,
}

/// Where the upload of `names` stands after `n` steps.
pub open spec fn upload_at(
    names: Seq<Option<Seq<char>>>,
    world: UploadWorld,
    n: nat,
) -> UploadView
    decreases n,
{
    if n == 0 {
        file_step(names, Seq::empty())
    } else {
        match upload_at(names, world, (n - 1) as nat) {
            UploadStep::UploadFile(s) => s.after((world.upload)((n - 1) as nat)),
            UploadStep::StoreAsset(s) => s.after((world.store)((n - 1) as nat)),
            other => other,
        }
    }
}

/// Whether a directory entry is a plugin.
pub open spec fn is_plugin_entry(name: Option<Seq<char>>) -> bool {
    name is Some && is_plugin(name->0)
}

/// The asset names of the plugins among `names`, in order.
pub open spec fn plugin_assets(names: Seq<Option<Seq<char>>>) -> Seq<Seq<char>>
    decreases names.len(),
{
    if names.len() == 0 {
        Seq::empty()
    } else if is_plugin_entry(names[0]) {
        seq![asset_name(names[0]->0)] + plugin_assets(names.skip(1))
    } else {
        plugin_assets(names.skip(1))
    }
}

/// The assets that results are about, in order.
pub open spec fn assets_of(results: Seq<UploadResult<Seq<char>>>) -> Seq<Seq<char>> {
    results.map_values(|r: UploadResult<Seq<char>>| r.asset)
}

/// Whether `step` is that of an upload of `assets` in this order, of which
/// those before the current one are accounted for.
spec fn accounts_for(step: UploadView, assets: Seq<Seq<char>>) -> bool {
    match step {
        UploadStep::UploadFile(s) => assets_of(s.results) + seq![s.asset] + plugin_assets(s.waiting)
            == assets,
        UploadStep::StoreAsset(s) => assets_of(s.results) + seq![s.asset] + plugin_assets(s.waiting)
            == assets,
        UploadStep::Reply(m) => reports_on(m, assets),
        _ => false,
    }
}

/// Whether `message` is the summary of results about exactly `assets`, in
/// order.
pub open spec fn reports_on(message: Message<Seq<char>>, assets: Seq<Seq<char>>) -> bool {
    exists|results: Seq<UploadResult<Seq<char>>>| #[trigger]
        assets_of(results) == assets && message == Message::UploadSummary(summary_text(results))
}

/// How many steps can follow.
spec fn steps_left(step: UploadView) -> nat {
    match step {
        UploadStep::UploadFile(s) => 2 * s.waiting.len() + 2,
        UploadStep::StoreAsset(s) => 2 * s.waiting.len() + 1,
        _ => 0,
    }
}

proof fn lemma_file_step(
    names: Seq<Option<Seq<char>>>,
    results: Seq<UploadResult<Seq<char>>>,
    assets: Seq<Seq<char>>,
)
    requires
        assets_of(results) + plugin_assets(names) == assets,
    ensures
        accounts_for(file_step(names, results), assets),
        steps_left(file_step(names, results)) <= 2 * names.len(),
    decreases names.len(),
{
    if names.len() == 0 {
        assert(assets_of(results) =~= assets);
    } else if is_plugin_entry(names[0]) {
        assert(assets_of(results) + seq![asset_name(names[0]->0)] + plugin_assets(names.skip(1))
            =~= assets);
    } else {
        lemma_file_step(names.skip(1), results, assets);
    }
}

proof fn lemma_noted(
    results: Seq<UploadResult<Seq<char>>>,
    result: UploadResult<Seq<char>>,
    names: Seq<Option<Seq<char>>>,
    assets: Seq<Seq<char>>,
)
    requires
        assets_of(results) + seq![result.asset] + plugin_assets(names) == assets,
    ensures
        accounts_for(file_step(names, results.push(result)), assets),
        steps_left(file_step(names, results.push(result))) <= 2 * names.len(),
{
    assert(assets_of(results.push(result)) =~= assets_of(results) + seq![result.asset]);
    lemma_file_step(names, results.push(result), assets);
}

proof fn lemma_upload(names: Seq<Option<Seq<char>>>, world: UploadWorld, n: nat)
    ensures
        accounts_for(upload_at(names, world, n), plugin_assets(names)),
        steps_left(upload_at(names, world, n)) + n <= 2 * names.len() || upload_at(
            names,
            world,
            n,
        ) is Reply,
    decreases n,
{
    let assets = plugin_assets(names);
    if n == 0 {
        assert(assets_of(Seq::empty()) + assets =~= assets);
        lemma_file_step(names, Seq::empty(), assets);
    } else {
        let m = (n - 1) as nat;
        lemma_upload(names, world, m);
        match upload_at(names, world, m) {
            UploadStep::UploadFile(s) => {
                lemma_noted(
                    s.results,
                    UploadResult { asset: s.asset, outcome: AssetOutcome::NoDocument },
                    s.waiting,
                    assets,
                );
                lemma_noted(
                    s.results,
                    UploadResult { asset: s.asset, outcome: AssetOutcome::NotUploaded },
                    s.waiting,
                    assets,
                );
            },
            UploadStep::StoreAsset(s) => {
                let outcome = if (world.store)(m) {
                    AssetOutcome::Stored
                } else {
                    AssetOutcome::NotStored
                };
                lemma_noted(
                    s.results,
                    UploadResult { asset: s.asset, outcome },
                    s.waiting,
                    assets,
                );
            },
            _ => {},
        }
    }
}

/// Whatever fails on the way, an upload is over after at most two steps for
/// each entry of the directory, and its summary is about every plugin of the
/// directory exactly once, in order.
pub proof fn law_upload_reports_every_plugin(names: Seq<Option<Seq<char>>>, world: UploadWorld)
    ensures
        ({
            let last = upload_at(names, world, 2 * names.len());
            last is Reply && reports_on(last->Reply_0, plugin_assets(names))
        }),
{
    lemma_upload(names, world, 2 * names.len());
}

/// In a summary the assets that are stored and the lines about failures add up
/// to all assets.
pub proof fn law_summary_adds_up(results: Seq<UploadResult<Seq<char>>>)
    ensures
        stored_count(results) + failure_lines(results).len() == results.len(),
    decreases results.len(),
{
    reveal(Seq::filter);
    if results.len() > 0 {
        law_summary_adds_up(results.drop_last());
    }
}

/// No one but the administrator can start an upload or delete an asset.
pub proof fn law_only_the_administrator_changes_assets(
    from: Option<User>,
    admin_id: i64,
    argument: Seq<char>,
)
    requires
        sender_id(from) != admin_id,
    ensures
        super::plugins::delete_step(from, admin_id, argument) is Ignore,
        upload_command_step(from, admin_id) is Ignore,
{
}

}
