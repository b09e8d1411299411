//! The daily scan and its reports.
use crate::bot_handler::Outcome;
use crate::scheduler::{
    chat_step, hits_of, report_line, report_lines, report_text, ChatScanView,
    CheckMembers, Deactivate, LoadChats, LoadMembers, ScanStep, ScanView, SendReport, Sending,
};
use crate::text::{decimal, join};
use vstd::prelude::*;

verus! {

/// A report has a line for each hit and no other: line `i` is numbered from one
/// and links the ID of hit `i`; and the report is the heading followed by these
/// lines, each on a line of its own.
pub proof fn law_reports_list_every_hit(hits: Seq<i64>, i: int)
    ensures
        report_lines(hits).len() == hits.len(),
        0 <= i < hits.len() ==> report_lines(hits)[i] == decimal(i + 1)
            + ". <a href=\"tg://user?id="@ + decimal(hits[i] as int) + "\">"@ + decimal(
            hits[i] as int,
        ) + "</a>"@,
        report_text(hits)
            == "🛡 <b>Daily Scan Report</b>\n\nThe following members are using the compromised Telega client:\n\n"@
            + join(report_lines(hits), "\n"@),
{
}

/// A further hit adds its line to the end of the report and changes nothing of
/// what stands before.
pub proof fn law_further_hits_add_lines(hits: Seq<i64>, user_id: i64)
    ensures
        hits.len() > 0 ==> report_text(hits.push(user_id)) == report_text(hits) + "\n"@ + decimal(
            hits.len() as int + 1,
        ) + ". <a href=\"tg://user?id="@ + decimal(user_id as int) + "\">"@ + decimal(
            user_id as int,
        ) + "</a>"@,
{
    let more = hits.push(user_id);
    if hits.len() > 0 {
        assert(report_lines(more).drop_last() =~= report_lines(hits));
        assert(report_lines(more).last() == report_line(hits.len() as int, user_id));
        assert(report_text(more) =~= report_text(hits) + "\n"@ + decimal(hits.len() as int + 1)
            + ". <a href=\"tg://user?id="@ + decimal(user_id as int) + "\">"@ + decimal(
            user_id as int,
        ) + "</a>"@);
    }
}

/// Hits are taken in the order of the checks: those of two rows of checks are
/// those of the first followed by those of the second, and a single check gives
/// its member if and only if they were found.
pub proof fn law_hits_add_up(
    first: Seq<(i64, Outcome)>,
    second: Seq<(i64, Outcome)>,
    user_id: i64,
    outcome: Outcome,
)
    ensures
        hits_of(first + second) == hits_of(first) + hits_of(second),
        outcome == Outcome::Found ==> hits_of(seq![(user_id, outcome)]) == seq![user_id],
        outcome != Outcome::Found ==> hits_of(seq![(user_id, outcome)]) == Seq::<i64>::empty(),
        hits_of(Seq::empty()) == Seq::<i64>::empty(),
{
    let hit = |c: (i64, Outcome)| crate::scheduler::is_hit(c);
    Seq::filter_distributes_over_add(first, second, hit);
    assert(hits_of(first + second) =~= hits_of(first) + hits_of(second));
    reveal_with_fuel(Seq::filter, 2);
    let one = seq![(user_id, outcome)];
    assert(one.drop_last() =~= Seq::<(i64, Outcome)>::empty());
    assert(hits_of(one) =~= if outcome == Outcome::Found {
        seq![user_id]
    } else {
        Seq::empty()
    });
    assert(hits_of(Seq::empty()) =~= Seq::<i64>::empty());
}

/// A scan begins with the first chat and keeps the others; without chats it ends
/// well, and where the chats cannot be listed it ends with that failure.
pub proof fn law_scans_take_the_chats_in_order(
    load: LoadChats,
    first: i64,
    rest: Seq<i64>,
    cause: Seq<char>,
)
    ensures
        load.after(Ok(seq![first] + rest)) matches ScanStep::ScanChat(s) && s.chat_id == first
            && s.waiting == rest && s.after() == chat_step(rest),
        load.after(Ok(Seq::empty())) == ScanView::Done(Ok(())),
        load.after(Err(cause)) == ScanView::Done(Err(cause)),
        chat_step(Seq::empty()) == ScanView::Done(Ok(())),
{
    assert((seq![first] + rest).skip(1) =~= rest);
}

/// All listed members of a chat are checked; a chat without members is done, and
/// one whose members cannot be listed ends with that failure.
pub proof fn law_all_members_are_checked(
    load: LoadMembers,
    members: Seq<i64>,
    cause: Seq<char>,
)
    ensures
        members.len() > 0 ==> load.after(Ok(members)) == ChatScanView::CheckMembers(
            CheckMembers { chat_id: load.chat_id, members },
        ),
        members.len() == 0 ==> load.after(Ok(members)) == ChatScanView::Done(Ok(())),
        load.after(Err(cause)) == ChatScanView::Done(Err(cause)),
{
}

/// A chat is sent a report if and only if one of its checks found a member, and
/// the report is about exactly the hits.
pub proof fn law_reports_need_hits(
    check: CheckMembers<Seq<i64>>,
    checks: Seq<(i64, Outcome)>,
)
    ensures
        (exists|i: int| 0 <= i < checks.len() && (#[trigger] checks[i]).1 == Outcome::Found)
            ==> check.after(checks) == ChatScanView::SendReport(
            SendReport { chat_id: check.chat_id, hits: hits_of(checks) },
        ),
        (forall|i: int| 0 <= i < checks.len() ==> (#[trigger] checks[i]).1 != Outcome::Found)
            ==> check.after(checks) == ChatScanView::Done(Ok(())),
{
    if exists|i: int| 0 <= i < checks.len() && (#[trigger] checks[i]).1 == Outcome::Found {
        let i = choose|i: int| 0 <= i < checks.len() && (#[trigger] checks[i]).1 == Outcome::Found;
        crate::scheduler::law_hits_are_those_found(checks, checks[i].0);
        assert(checks.contains((checks[i].0, Outcome::Found)));
        assert(hits_of(checks).contains(checks[i].0));
    } else if hits_of(checks).len() > 0 {
        let id = hits_of(checks)[0];
        assert(hits_of(checks).contains(id));
        crate::scheduler::law_hits_are_those_found(checks, id);
        let i = checks.index_of((id, Outcome::Found));
        assert(checks[i].1 == Outcome::Found);
    }
}

/// A report that Telegram refuses because the bot was kicked from the chat, or
/// because the chat is not there, or because the user or the group is deactivated,
/// makes the scan forget that chat. One that was sent, or that failed otherwise,
/// does not.
pub proof fn law_chats_are_forgotten_when_the_bot_is_gone(
    report: SendReport<Seq<i64>>,
    sending: Sending,
)
    ensures
        match sending {
            Sending::Sent => report.after(sending) == ChatScanView::Done(Ok(())),
            Sending::Failed => report.after(sending) == ChatScanView::Done(Ok(())),
            _ => report.after(sending) == ChatScanView::Deactivate(
                Deactivate { chat_id: report.chat_id },
            ),
        },
        (Deactivate { chat_id: report.chat_id }).after() == ChatScanView::Done(Ok(())),
{
}

}
