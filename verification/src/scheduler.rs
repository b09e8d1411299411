//! The daily scan of the group chats for members who use Telega.
use crate::bot_handler::Outcome;
use crate::db::{
    deactivate_chat, deactivate_chat_statement, get_active_chat_ids,
    get_active_chat_ids_statement, get_active_members, get_active_members_statement, Statement,
};
use crate::messages::Message;
use crate::text::{decimal, i64_text, join, joined, texts_view, u64_text};
use vstd::prelude::*;

verus! {

/// Maximum number of concurrent checks during the daily scan, so that the API
/// is not overloaded.
pub const MAX_CONCURRENT_CHECKS: usize = 10;

/// When the daily scan starts: at 09:00 UTC.
pub const DAILY_SCAN_SCHEDULE: &'static str = "0 0 9 * * *";

// ---------------------------------------------------------------------------
// All chats
// ---------------------------------------------------------------------------

/// What a scan needs done next. `S` is a text, `M` a list of IDs.
#[derive(Debug)]
pub enum ScanStep<S, M> {
    LoadChats(LoadChats),
    ScanChat(ScanChat<M>),
    /// The scan is over.
    Done(Result<(), S>),
}

/// A [`ScanStep`] in code.
pub type Scan = ScanStep<String, Vec<i64>>;

/// The view of a [`ScanStep`].
pub type ScanView = ScanStep<Seq<char>, Seq<i64>>;

/// List the chats to scan.
#[derive(Debug)]
pub struct LoadChats;

/// Scan a chat. Whether that succeeds makes no difference to the others.
#[derive(Debug)]
pub struct ScanChat<M> {
    pub chat_id: i64,
    /// The chats that follow.
    pub waiting: M,
}

/// The view of a result without a value.
pub open spec fn unit_result_view(result: Result<(), String>) -> Result<(), Seq<char>> {
    match result {
        Ok(u) => Ok(u),
        Err(e) => Err(e@),
    }
}

/// The view of a list of IDs that may be missing.
pub open spec fn ids_view(ids: Result<Vec<i64>, String>) -> Result<Seq<i64>, Seq<char>> {
    match ids {
        Ok(v) => Ok(v@),
        Err(e) => Err(e@),
    }
}

impl View for ScanStep<String, Vec<i64>> {
    type V = ScanView;

    open spec fn view(&self) -> ScanView {
        match *self {
            ScanStep::LoadChats(s) => ScanStep::LoadChats(s),
            ScanStep::ScanChat(s) => ScanStep::ScanChat(
                ScanChat { chat_id: s.chat_id, waiting: s.waiting@ },
            ),
            ScanStep::Done(r) => ScanStep::Done(unit_result_view(r)),
        }
    }
}

/// Starts a scan of all chats with active members.
pub fn run_scan() -> (step: Scan)
    ensures
        step@ == ScanView::LoadChats(LoadChats),
{
    ScanStep::LoadChats(LoadChats)
}

/// Scan the first of `chats`, or end where none is left.
pub open spec fn chat_step(chats: Seq<i64>) -> ScanView {
    if chats.len() == 0 {
        ScanStep::Done(Ok(()))
    } else {
        ScanStep::ScanChat(ScanChat { chat_id: chats[0], waiting: chats.skip(1) })
    }
}

/// Scans the first of `chats`, or ends where none is left.
fn next_chat(chats: Vec<i64>) -> (step: Scan)
    ensures
        step@ == chat_step(chats@),
{
    if chats.len() == 0 {
        return ScanStep::Done(Ok(()));
    }
    let mut waiting = chats;
    let chat_id: i64 = waiting.remove(0);
    assert(waiting@ =~= chats@.skip(1));
    ScanStep::ScanChat(ScanChat { chat_id, waiting })
}

impl LoadChats {
    /// The query to run.
    pub fn statement(&self) -> (statement: Statement)
        ensures
            statement@ == get_active_chat_ids_statement(),
    {
        get_active_chat_ids()
    }

    pub open spec fn after(self, chats: Result<Seq<i64>, Seq<char>>) -> ScanView {
        match chats {
            Ok(ids) => chat_step(ids),
            Err(e) => ScanStep::Done(Err(e)),
        }
    }

    /// Goes on with the chats.
    pub fn resume(self, chats: Result<Vec<i64>, String>) -> (step: Scan)
        ensures
            step@ == self.after(ids_view(chats)),
    {
        match chats {
            Ok(ids) => next_chat(ids),
            Err(e) => ScanStep::Done(Err(e)),
        }
    }
}

impl ScanChat<Seq<i64>> {
    pub open spec fn after(self) -> ScanView {
        chat_step(self.waiting)
    }
}

impl View for ScanChat<Vec<i64>> {
    type V = ScanChat<Seq<i64>>;

    open spec fn view(&self) -> ScanChat<Seq<i64>> {
        ScanChat { chat_id: self.chat_id, waiting: self.waiting@ }
    }
}

impl ScanChat<Vec<i64>> {
    /// The first step of the chat's scan.
    pub fn start(&self) -> (step: ChatScan)
        ensures
            step@ == ChatScanView::LoadMembers(LoadMembers { chat_id: self.chat_id }),
    {
        scan_chat(self.chat_id)
    }

    /// Goes on once the chat was scanned, or that failed.
    pub fn resume(self) -> (step: Scan)
        ensures
            step@ == self@.after(),
    {
        next_chat(self.waiting)
    }
}

/// Where a scan of `chats` stands after `n` of them.
pub open spec fn scan_at(chats: Seq<i64>, n: nat) -> ScanView
    decreases n,
{
    if n == 0 {
        chat_step(chats)
    } else {
        match scan_at(chats, (n - 1) as nat) {
            ScanStep::ScanChat(s) => s.after(),
            other => other,
        }
    }
}

/// A scan visits every chat once, in order, and then ends well, whichever of
/// them fails.
pub proof fn law_scan_visits_every_chat(chats: Seq<i64>, n: nat)
    requires
        n <= chats.len(),
    ensures
        scan_at(chats, n) == chat_step(chats.skip(n as int)),
        n < chats.len() ==> (scan_at(chats, n) matches ScanStep::ScanChat(s) && s.chat_id
            == chats[n as int]),
        n == chats.len() ==> scan_at(chats, n) == ScanView::Done(Ok(())),
    decreases n,
{
    if n == 0 {
        assert(chats.skip(0) =~= chats);
    } else {
        law_scan_visits_every_chat(chats, (n - 1) as nat);
        assert(chats.skip(n - 1).skip(1) =~= chats.skip(n as int));
    }
}

// ---------------------------------------------------------------------------
// One chat
// ---------------------------------------------------------------------------

/// What the scan of a chat needs done next. `S` is a text, `M` a list of IDs.
#[derive(Debug)]
pub enum ChatScanStep<S, M> {
    LoadMembers(LoadMembers),
    CheckMembers(CheckMembers<M>),
    SendReport(SendReport<M>),
    Deactivate(Deactivate),
    /// The scan of the chat is over.
    Done(Result<(), S>),
}

/// A [`ChatScanStep`] in code.
pub type ChatScan = ChatScanStep<String, Vec<i64>>;

/// The view of a [`ChatScanStep`].
pub type ChatScanView = ChatScanStep<Seq<char>, Seq<i64>>;

/// List the active members of the chat.
#[derive(Debug)]
pub struct LoadMembers {
    pub chat_id: i64,
}

/// Look every member up, at most [`MAX_CONCURRENT_CHECKS`] at a time.
#[derive(Debug)]
pub struct CheckMembers<M> {
    pub chat_id: i64,
    pub members: M,
}

/// Send the report to the chat.
#[derive(Debug)]
pub struct SendReport<M> {
    pub chat_id: i64,
    pub hits: M,
}

/// Forget the members of the chat, which the bot has no place in any more.
/// Whether that succeeds makes no difference.
#[derive(Debug)]
pub struct Deactivate {
    pub chat_id: i64,
}

/// What became of the report.
#[derive(Clone, Copy, Debug, PartialEq, Eq, Structural)]
pub enum Sending {
    Sent,
    BotKicked,
    BotKickedFromSupergroup,
    ChatNotFound,
    UserDeactivated,
    GroupDeactivated,
    /// Any other failure.
    Failed,
}

impl View for ChatScanStep<String, Vec<i64>> {
    type V = ChatScanView;

    open spec fn view(&self) -> ChatScanView {
        match *self {
            ChatScanStep::LoadMembers(s) => ChatScanStep::LoadMembers(s),
            ChatScanStep::CheckMembers(s) => ChatScanStep::CheckMembers(
                CheckMembers { chat_id: s.chat_id, members: s.members@ },
            ),
            ChatScanStep::SendReport(s) => ChatScanStep::SendReport(
                SendReport { chat_id: s.chat_id, hits: s.hits@ },
            ),
            ChatScanStep::Deactivate(s) => ChatScanStep::Deactivate(s),
            ChatScanStep::Done(r) => ChatScanStep::Done(unit_result_view(r)),
        }
    }
}

/// Starts the scan of a chat.
pub fn scan_chat(chat_id: i64) -> (step: ChatScan)
    ensures
        step@ == ChatScanView::LoadMembers(LoadMembers { chat_id }),
{
    ChatScanStep::LoadMembers(LoadMembers { chat_id })
}

impl LoadMembers {
    /// The query to run.
    pub fn statement(&self) -> (statement: Statement)
        ensures
            statement@ == get_active_members_statement(self.chat_id),
    {
        get_active_members(self.chat_id)
    }

    pub open spec fn after(self, members: Result<Seq<i64>, Seq<char>>) -> ChatScanView {
        match members {
            Err(e) => ChatScanStep::Done(Err(e)),
            Ok(ids) => if ids.len() == 0 {
                ChatScanStep::Done(Ok(()))
            } else {
                ChatScanStep::CheckMembers(CheckMembers { chat_id: self.chat_id, members: ids })
            },
        }
    }

    /// Goes on with the members.
    pub fn resume(self, members: Result<Vec<i64>, String>) -> (step: ChatScan)
        ensures
            step@ == self.after(ids_view(members)),
    {
        match members {
            Err(e) => ChatScanStep::Done(Err(e)),
            Ok(ids) => if ids.len() == 0 {
                ChatScanStep::Done(Ok(()))
            } else {
                ChatScanStep::CheckMembers(CheckMembers { chat_id: self.chat_id, members: ids })
            },
        }
    }
}

/// Whether a member was found.
pub open spec fn is_hit(check: (i64, Outcome)) -> bool {
    check.1 == Outcome::Found
}

/// The members that were found, in the order of the checks.
pub open spec fn hits_of(checks: Seq<(i64, Outcome)>) -> Seq<i64> {
    checks.filter(|c: (i64, Outcome)| is_hit(c)).map_values(|c: (i64, Outcome)| c.0)
}

/// Collects the members that were found.
fn collect_hits(checks: &Vec<(i64, Outcome)>) -> (hits: Vec<i64>)
    ensures
        hits@ == hits_of(checks@),
{
    let ghost hit = |c: (i64, Outcome)| is_hit(c);
    let ghost id = |c: (i64, Outcome)| c.0;
    let mut hits: Vec<i64> = Vec::new();
    let mut i: usize = 0;
    assert(hits@ =~= checks@.take(0).filter(hit).map_values(id)) by {
        reveal(Seq::filter);
    }
    while i < checks.len()
        invariant
            i <= checks@.len(),
            hit == (|c: (i64, Outcome)| is_hit(c)),
            id == (|c: (i64, Outcome)| c.0),
            hits@ == checks@.take(i as int).filter(hit).map_values(id),
        decreases checks@.len() - i,
    {
        let check = checks[i];
        proof {
            reveal(Seq::filter);
            let seen = checks@.take(i as int);
            assert(checks@.take(i + 1).drop_last() =~= seen);
            assert(seen.filter(hit).push(check).map_values(id) =~= seen.filter(hit).map_values(
                id,
            ).push(check.0));
        }
        match check.1 {
            Outcome::Found => {
                hits.push(check.0);
            },
            _ => {},
        }
        i = i + 1;
    }
    assert(checks@.take(i as int) =~= checks@);
    hits
}

impl CheckMembers<Seq<i64>> {
    pub open spec fn after(self, checks: Seq<(i64, Outcome)>) -> ChatScanView {
        if hits_of(checks).len() == 0 {
            ChatScanStep::Done(Ok(()))
        } else {
            ChatScanStep::SendReport(SendReport { chat_id: self.chat_id, hits: hits_of(checks) })
        }
    }
}

impl CheckMembers<Vec<i64>> {
    /// Goes on with what the lookups came to, in the order in which they did.
    /// A member whose lookup failed is no hit.
    pub fn resume(self, checks: Vec<(i64, Outcome)>) -> (step: ChatScan)
        ensures
            step@ == (CheckMembers { chat_id: self.chat_id, members: self.members@ }).after(
                checks@,
            ),
    {
        let hits = collect_hits(&checks);
        if hits.len() == 0 {
            ChatScanStep::Done(Ok(()))
        } else {
            ChatScanStep::SendReport(SendReport { chat_id: self.chat_id, hits })
        }
    }
}

/// What a report begins with.
pub const REPORT_HEADING: &'static str =
    "🛡 <b>Daily Scan Report</b>\n\nThe following members are using the compromised Telega client:\n\n";

/// The line of a report for hit number `i`, counted from zero.
pub open spec fn report_line(i: int, user_id: i64) -> Seq<char> {
    decimal(i + 1) + ". <a href=\"tg://user?id="@ + decimal(user_id as int) + "\">"@ + decimal(
        user_id as int,
    ) + "</a>"@
}

/// The lines of a report.
pub open spec fn report_lines(hits: Seq<i64>) -> Seq<Seq<char>> {
    Seq::new(hits.len(), |i: int| report_line(i, hits[i]))
}

/// The report: a numbered line with a link for each hit, in order.
pub open spec fn report_text(hits: Seq<i64>) -> Seq<char> {
    REPORT_HEADING@ + join(report_lines(hits), "\n"@)
}

impl SendReport<Vec<i64>> {
    /// The message to send.
    pub fn message(&self) -> (message: Message<String>)
        ensures
            message@ == Message::ScanReport(report_text(self.hits@)),
    {
        let mut lines: Vec<String> = Vec::new();
        let mut i: usize = 0;
        while i < self.hits.len()
            invariant
                i <= self.hits@.len(),
                texts_view(lines@) == report_lines(self.hits@).take(i as int),
            decreases self.hits@.len() - i,
        {
            let id = i64_text(self.hits[i]);
            let mut line = u64_text(i as u64 + 1);
            line.append(". <a href=\"tg://user?id=");
            line.append(id.as_str());
            line.append("\">");
            line.append(id.as_str());
            line.append("</a>");
            let ghost before = lines@;
            lines.push(line);
            assert(texts_view(lines@) =~= texts_view(before).push(line@));
            assert(report_lines(self.hits@).take(i + 1) =~= report_lines(self.hits@).take(
                i as int,
            ).push(report_lines(self.hits@)[i as int]));
            i = i + 1;
        }
        assert(report_lines(self.hits@).take(i as int) =~= report_lines(self.hits@));
        let mut report = REPORT_HEADING.to_owned();
        let list = joined(&lines, "\n");
        report.append(list.as_str());
        Message::ScanReport(report)
    }
}

/// Whether a failure shows that the bot has no place in the chat any more.
pub open spec fn is_gone(sending: Sending) -> bool {
    ||| sending == Sending::BotKicked
    ||| sending == Sending::BotKickedFromSupergroup
    ||| sending == Sending::ChatNotFound
    ||| sending == Sending::UserDeactivated
    ||| sending == Sending::GroupDeactivated
}

impl<M> SendReport<M> {
    pub open spec fn after(self, sending: Sending) -> ChatScanView {
        if is_gone(sending) {
            ChatScanStep::Deactivate(Deactivate { chat_id: self.chat_id })
        } else {
            ChatScanStep::Done(Ok(()))
        }
    }
}

impl SendReport<Vec<i64>> {
    /// Goes on with what became of the report.
    pub fn resume(self, sending: Sending) -> (step: ChatScan)
        ensures
            step@ == self.after(sending),
    {
        match sending {
            Sending::Sent => ChatScanStep::Done(Ok(())),
            Sending::Failed => ChatScanStep::Done(Ok(())),
            _ => ChatScanStep::Deactivate(Deactivate { chat_id: self.chat_id }),
        }
    }
}

impl Deactivate {
    /// The statement to run.
    pub fn statement(&self) -> (statement: Statement)
        ensures
            statement@ == deactivate_chat_statement(self.chat_id),
    {
        deactivate_chat(self.chat_id)
    }

    pub open spec fn after(self) -> ChatScanView {
        ChatScanStep::Done(Ok(()))
    }

    /// Goes on once the statement was tried.
    pub fn resume(self) -> (step: ChatScan)
        ensures
            step@ == self.after(),
    {
        ChatScanStep::Done(Ok(()))
    }
}

/// What the scan of a chat meets on its way.
pub struct ChatWorld {
    pub members: Result<Seq<i64>, Seq<char>>,
    pub checks: Seq<(i64, Outcome)>,
    pub sending: Sending,
}

/// Where the scan of a chat stands after `n` steps.
pub open spec fn chat_scan_at(chat_id: i64, world: ChatWorld, n: nat) -> ChatScanView
    decreases n,
{
    if n == 0 {
        ChatScanStep::LoadMembers(LoadMembers { chat_id })
    } else {
        match chat_scan_at(chat_id, world, (n - 1) as nat) {
            ChatScanStep::LoadMembers(s) => s.after(world.members),
            ChatScanStep::CheckMembers(s) => s.after(world.checks),
            ChatScanStep::SendReport(s) => s.after(world.sending),
            ChatScanStep::Deactivate(s) => s.after(),
            ChatScanStep::Done(r) => ChatScanStep::Done(r),
        }
    }
}

/// The scan of a chat is over after at most four steps. It reports if and only
/// if there was a hit, and then about all hits; it forgets the chat if and only
/// if the report showed that the bot is gone from it; and it fails only where
/// the members cannot be listed.
pub proof fn law_chat_scan(chat_id: i64, world: ChatWorld)
    ensures
        ({
            let listed = world.members matches Ok(ids) && ids.len() > 0;
            let hits = hits_of(world.checks);
            &&& chat_scan_at(chat_id, world, 4) == ChatScanView::Done(
                match world.members {
                    Ok(ids) => Ok(()),
                    Err(e) => Err(e),
                },
            )
            &&& listed && hits.len() > 0 <==> chat_scan_at(chat_id, world, 2) is SendReport
            &&& listed && hits.len() > 0 ==> chat_scan_at(chat_id, world, 2)
                == ChatScanView::SendReport(SendReport { chat_id, hits })
            &&& listed && hits.len() > 0 && is_gone(world.sending) <==> chat_scan_at(
                chat_id,
                world,
                3,
            ) is Deactivate
        }),
{
    reveal_with_fuel(chat_scan_at, 5);
}

/// The hits are exactly the members whose lookup found them.
pub proof fn law_hits_are_those_found(checks: Seq<(i64, Outcome)>, user_id: i64)
    ensures
        hits_of(checks).contains(user_id) <==> checks.contains((user_id, Outcome::Found)),
    decreases checks.len(),
{
    reveal(Seq::filter);
    let hit = |c: (i64, Outcome)| is_hit(c);
    let id = |c: (i64, Outcome)| c.0;
    if checks.len() > 0 {
        let rest = checks.drop_last();
        let last = checks.last();
        law_hits_are_those_found(rest, user_id);
        assert(checks =~= rest.push(last));
        assert(rest.filter(hit).push(last).map_values(id) =~= hits_of(rest).push(last.0));
        if hits_of(checks).contains(user_id) {
            if is_hit(last) && last.0 == user_id {
                assert(checks[checks.len() - 1] == (user_id, Outcome::Found));
            } else {
                let i = choose|i: int| 0 <= i < hits_of(checks).len() && hits_of(checks)[i] == user_id;
                assert(hits_of(rest)[i] == user_id);
                let j = choose|j: int| 0 <= j < rest.len() && rest[j] == (user_id, Outcome::Found);
                assert(checks[j] == (user_id, Outcome::Found));
            }
        }
        if checks.contains((user_id, Outcome::Found)) {
            let j = choose|j: int|
                0 <= j < checks.len() && checks[j] == (user_id, Outcome::Found);
            if j < rest.len() {
                assert(rest[j] == (user_id, Outcome::Found));
                let i = choose|i: int| 0 <= i < hits_of(rest).len() && hits_of(rest)[i] == user_id;
                assert(hits_of(checks)[i] == user_id);
            } else {
                assert(hits_of(checks)[hits_of(checks).len() - 1] == user_id);
            }
        }
    }
}

/// The members of a chat that are registered in Telega, if `outcome` is what
/// their lookups come to.
pub open spec fn found_members(members: Seq<i64>, outcome: spec_fn(i64) -> Outcome) -> Seq<i64> {
    members.filter(|id: i64| outcome(id) == Outcome::Found)
}

/// What the lookups of `members` come to, in their order.
pub open spec fn checks_of(members: Seq<i64>, outcome: spec_fn(i64) -> Outcome) -> Seq<
    (i64, Outcome),
> {
    members.map_values(|id: i64| (id, outcome(id)))
}

proof fn lemma_hits_count(checks: Seq<(i64, Outcome)>, user_id: i64)
    ensures
        hits_of(checks).to_multiset().count(user_id) == checks.to_multiset().count(
            (user_id, Outcome::Found),
        ),
    decreases checks.len(),
{
    broadcast use vstd::seq_lib::group_to_multiset_ensures;

    reveal(Seq::filter);
    let hit = |c: (i64, Outcome)| is_hit(c);
    let id = |c: (i64, Outcome)| c.0;
    if checks.len() == 0 {
        assert(hits_of(checks) =~= Seq::empty());
    } else {
        let rest = checks.drop_last();
        let last = checks.last();
        lemma_hits_count(rest, user_id);
        assert(checks =~= rest.push(last));
        assert(rest.filter(hit).push(last).map_values(id) =~= hits_of(rest).push(last.0));
    }
}

proof fn lemma_members_count(members: Seq<i64>, outcome: spec_fn(i64) -> Outcome, user_id: i64)
    ensures
        found_members(members, outcome).to_multiset().count(user_id) == checks_of(
            members,
            outcome,
        ).to_multiset().count((user_id, Outcome::Found)),
    decreases members.len(),
{
    broadcast use vstd::seq_lib::group_to_multiset_ensures;

    reveal(Seq::filter);
    if members.len() == 0 {
        assert(found_members(members, outcome) =~= Seq::empty());
        assert(checks_of(members, outcome) =~= Seq::empty());
    } else {
        let rest = members.drop_last();
        let last = members.last();
        lemma_members_count(rest, outcome, user_id);
        assert(checks_of(members, outcome) =~= checks_of(rest, outcome).push(
            (last, outcome(last)),
        ));
    }
}

/// In whatever order the lookups of the members come to their end, the report
/// lists each member that was found exactly as often as the chat does, and no one
/// else.
pub proof fn law_order_of_checks_is_irrelevant(
    members: Seq<i64>,
    outcome: spec_fn(i64) -> Outcome,
    checks: Seq<(i64, Outcome)>,
)
    requires
        checks.to_multiset() == checks_of(members, outcome).to_multiset(),
    ensures
        hits_of(checks).to_multiset() == found_members(members, outcome).to_multiset(),
{
    assert forall|user_id: i64|
        hits_of(checks).to_multiset().count(user_id) == #[trigger] found_members(
            members,
            outcome,
        ).to_multiset().count(user_id) by {
        lemma_hits_count(checks, user_id);
        lemma_members_count(members, outcome, user_id);
    }
    assert(hits_of(checks).to_multiset() =~= found_members(members, outcome).to_multiset());
}

}
