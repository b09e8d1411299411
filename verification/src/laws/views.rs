//! What contracts see of a value is what whoever drives the library reads from
//! it: a view changes nothing but the types, part by part.
use crate::api_client::{
    ApiClient, ApiError, Attempt, AuthError, FormRequest, HttpReply, LockSession, LookupError,
    LookupReply, LookupStep, LoginReply, PostLookup, ReadSession, StoreSession, Turn,
};
use crate::api_server::{EndpointStep, ErrorResponse};
use crate::bot_handler::conversation::{Article, InlineAnswer, InlineStep, TalkStep};
use crate::bot_handler::plugins::{
    AnswerRotated, Assets, CallbackStep, DeleteAsset, DeleteStep, LoadAssets, PluginStep,
};
use crate::bot_handler::upload::{StoreAsset, Upload, UploadFile, UploadResult, UploadStep};
use crate::bot_handler::{CheckError, CheckStep};
use crate::db::{Param, Statement};
use crate::dispatch::Incoming;
use crate::messages::Message;
use crate::scheduler::{ChatScan, ChatScanStep, Scan, ScanChat, ScanStep};
use vstd::prelude::*;

verus! {

/// A form is posted to the address and with the fields that its contract speaks
/// of.
pub proof fn law_view_of_forms(form: FormRequest, i: int)
    ensures
        form@.url == form.url@,
        form@.fields.len() == form.fields@.len(),
        0 <= i < form.fields@.len() ==> form@.fields[i].0 == form.fields@[i].0@
            && form@.fields[i].1 == form.fields@[i].1@,
{
}

/// An answer to a login is read as it was received.
pub proof fn law_view_of_login_replies(cause: String, status: u16, body: String, key: String)
    ensures
        LoginReply::SendFailed(cause)@ == HttpReply::<Seq<char>, Seq<char>>::SendFailed(cause@),
        LoginReply::BodyFailed(cause)@ == HttpReply::<Seq<char>, Seq<char>>::BodyFailed(cause@),
        (LoginReply::Received { status, body, parsed: Ok(key) })@ == (HttpReply::<
            Seq<char>,
            Seq<char>,
        >::Received { status, body: body@, parsed: Ok(key@) }),
        (LoginReply::Received { status, body, parsed: Err(cause) })@ == (HttpReply::<
            Seq<char>,
            Seq<char>,
        >::Received { status, body: body@, parsed: Err(cause@) }),
{
}

/// An answer to a lookup is read as it was received, ID by ID.
pub proof fn law_view_of_lookup_replies(
    cause: String,
    status: u16,
    body: String,
    ids: Vec<String>,
    i: int,
)
    ensures
        LookupReply::SendFailed(cause)@ == HttpReply::<Seq<char>, Seq<Seq<char>>>::SendFailed(
            cause@,
        ),
        LookupReply::BodyFailed(cause)@ == HttpReply::<Seq<char>, Seq<Seq<char>>>::BodyFailed(
            cause@,
        ),
        (LookupReply::Received { status, body, parsed: Err(cause) })@ == (HttpReply::<
            Seq<char>,
            Seq<Seq<char>>,
        >::Received { status, body: body@, parsed: Err(cause@) }),
        (LookupReply::Received { status, body, parsed: Ok(ids) })@ matches HttpReply::Received {
            status: seen_status,
            body: seen_body,
            parsed: Ok(seen),
        } && seen_status == status && seen_body == body@ && seen.len() == ids@.len() && (0 <= i
            < ids@.len() ==> seen[i] == ids@[i]@),
{
}

/// A failed login is what its contract speaks of.
pub proof fn law_view_of_login_failures(cause: String, status: u16)
    ensures
        AuthError::Send(cause)@ == AuthError::Send(cause@),
        AuthError::Read(cause)@ == AuthError::Read(cause@),
        AuthError::Parse(cause)@ == AuthError::Parse(cause@),
        (AuthError::Status { status, body: cause })@ == (AuthError::Status {
            status,
            body: cause@,
        }),
{
}

/// A failed lookup is what its contract speaks of.
pub proof fn law_view_of_lookup_failures(
    cause: String,
    status: u16,
    login: AuthError<String>,
    telegram_id: i64,
    retries: u32,
    error: ApiError<String>,
)
    ensures
        ApiError::<String>::NoSession@ == ApiError::<Seq<char>>::NoSession,
        ApiError::Send(cause)@ == ApiError::Send(cause@),
        ApiError::Read(cause)@ == ApiError::Read(cause@),
        ApiError::Parse(cause)@ == ApiError::Parse(cause@),
        (ApiError::Status { status, body: cause })@ == (ApiError::Status { status, body: cause@ }),
        ApiError::Reauthentication(login)@ == ApiError::Reauthentication(login@),
        (ApiError::<String>::RateLimited { telegram_id, retries })@ == (ApiError::<
            Seq<char>,
        >::RateLimited { telegram_id, retries }),
        LookupError::Auth(error)@ == LookupError::Auth(error@),
        LookupError::Other(error)@ == LookupError::Other(error@),
        LookupError::<String>::RateLimited@ == LookupError::<Seq<char>>::RateLimited,
        CheckError::Database(cause)@ == CheckError::Database(cause@),
        CheckError::Api(error)@ == CheckError::Api(error@),
{
}

/// The keys of a client are those that its contract speaks of.
pub proof fn law_view_of_clients(client: ApiClient)
    ensures
        client@.application_key == client.application_key@,
        client.session_key matches Some(key) ==> client@.session_key == Some(key@),
        client.session_key is None ==> client@.session_key is None,
{
}

/// A step of a lookup asks for what its contract says, with the same ID, attempt,
/// turn and key, and ends with the same answer.
pub proof fn law_view_of_lookup_steps(
    run: Attempt,
    seen: Option<String>,
    key: String,
    found: bool,
    error: ApiError<String>,
    step: LookupStep<String>,
)
    ensures
        ({
            let seen_view = match seen {
                Some(k) => Some(k@),
                None => None,
            };
            let first = Turn::First { seen };
            &&& LookupStep::ReadSession(ReadSession { run, turn: first })@
                == LookupStep::ReadSession(
                ReadSession { run, turn: Turn::First { seen: seen_view } },
            )
            &&& LookupStep::ReadSession(ReadSession { run, turn: Turn::<String>::Retry })@
                == LookupStep::ReadSession(ReadSession { run, turn: Turn::<Seq<char>>::Retry })
            &&& LookupStep::PostLookup(PostLookup { run, turn: first, session_key: key })@
                == LookupStep::PostLookup(
                PostLookup { run, turn: Turn::First { seen: seen_view }, session_key: key@ },
            )
            &&& LookupStep::PostLookup(PostLookup { run, turn: Turn::Retry, session_key: key })@
                == LookupStep::PostLookup(
                PostLookup { run, turn: Turn::Retry, session_key: key@ },
            )
            &&& LookupStep::LockSession(LockSession { run, seen })@ == LookupStep::LockSession(
                LockSession { run, seen: seen_view },
            )
            &&& LookupStep::StoreSession(StoreSession { run, session_key: key })@
                == LookupStep::StoreSession(StoreSession { run, session_key: key@ })
        }),
        step matches LookupStep::SnapshotSession(s) ==> step@ == LookupStep::<
            Seq<char>,
        >::SnapshotSession(s),
        step matches LookupStep::ReleaseSession(s) ==> step@ == LookupStep::<
            Seq<char>,
        >::ReleaseSession(s),
        step matches LookupStep::PostLogin(s) ==> step@ == LookupStep::<Seq<char>>::PostLogin(s),
        step matches LookupStep::Backoff(s) ==> step@ == LookupStep::<Seq<char>>::Backoff(s),
        LookupStep::<String>::Done(Ok(found))@ == LookupStep::<Seq<char>>::Done(Ok(found)),
        LookupStep::<String>::Done(Err(error))@ == LookupStep::<Seq<char>>::Done(Err(error@)),
{
}

/// A statement is run with the SQL and the values that its contract speaks of.
pub proof fn law_view_of_statements(statement: Statement, i: int)
    ensures
        statement@.sql == statement.sql@,
        statement@.params.len() == statement.params@.len(),
        0 <= i < statement.params@.len() ==> match statement.params@[i] {
            Param::Int(n) => statement@.params[i] == Param::<Seq<char>>::Int(n),
            Param::Text(t) => statement@.params[i] == Param::Text(t@),
        },
{
}

/// A message quotes what its contract says that it quotes.
pub proof fn law_view_of_messages(message: Message<String>, t: String)
    ensures
        Message::DirectoryUnreadable(t)@ == Message::DirectoryUnreadable(t@),
        Message::UploadSummary(t)@ == Message::UploadSummary(t@),
        Message::AssetDeleted(t)@ == Message::AssetDeleted(t@),
        Message::AssetNotFound(t)@ == Message::AssetNotFound(t@),
        Message::Instruction(t)@ == Message::Instruction(t@),
        Message::NewToken(t)@ == Message::NewToken(t@),
        Message::ScanReport(t)@ == Message::ScanReport(t@),
        message is Found <==> message@ is Found,
        message is NotFound <==> message@ is NotFound,
        message is FoundInGroup <==> message@ is FoundInGroup,
        message is NotFoundInGroup <==> message@ is NotFoundInGroup,
        message is Greeting <==> message@ is Greeting,
        message is Instruction <==> message@ is Instruction,
        message is NewToken <==> message@ is NewToken,
{
}

/// A step of a check asks for what its contract says, and ends with the same
/// answer.
pub proof fn law_view_of_checks(step: CheckStep<String>)
    ensures
        match step {
            CheckStep::QueryKnown(s) => step@ == CheckStep::<Seq<char>>::QueryKnown(s),
            CheckStep::QueryApi(s) => step@ == CheckStep::<Seq<char>>::QueryApi(s),
            CheckStep::SaveKnown(s) => step@ == CheckStep::<Seq<char>>::SaveKnown(s),
            CheckStep::Done(Ok(found)) => step@ == CheckStep::<Seq<char>>::Done(Ok(found)),
            CheckStep::Done(Err(e)) => step@ == CheckStep::<Seq<char>>::Done(Err(e@)),
        },
{
}

/// A step of a talk or of an inline query asks for what its contract says.
pub proof fn law_view_of_talks(
    talk: TalkStep<String>,
    inline: InlineStep<String>,
    article: Article<String>,
)
    ensures
        match talk {
            TalkStep::LogUser(s) => talk@ == TalkStep::<Seq<char>>::LogUser(s),
            TalkStep::CheckUser(s) => talk@ == TalkStep::<Seq<char>>::CheckUser(s),
            TalkStep::LogRequest(s) => talk@ == TalkStep::<Seq<char>>::LogRequest(s),
            TalkStep::Reply(m) => talk@ == TalkStep::Reply(m@),
            TalkStep::Done => talk@ is Done,
        },
        match inline {
            InlineStep::Empty => inline@ is Empty,
            InlineStep::CheckUser(s) => inline@ == InlineStep::<Seq<char>>::CheckUser(s),
            InlineStep::LogRequest(s) => inline@ == InlineStep::<Seq<char>>::LogRequest(s),
            InlineStep::Answer(a) => inline@ == InlineStep::Answer(
                InlineAnswer { article: a.article@, cache_seconds: a.cache_seconds },
            ),
        },
        article@.id == article.id@,
        article@.title == article.title@,
        article@.description == article.description@,
        article@.text == article.text@,
{
}

/// A step of a delivery sends the asset and keeps the assets that its contract
/// says.
pub proof fn law_view_of_deliveries(step: PluginStep<String, Assets>, i: int)
    ensures
        match step {
            PluginStep::LoadToken(s) => step@ matches PluginStep::LoadToken(v) && v == s,
            PluginStep::LoadAssets(s) => step@ matches PluginStep::LoadAssets(v) && v == (
            LoadAssets { token: s.token@ }),
            PluginStep::SendAsset(s) => {
                &&& step@ matches PluginStep::SendAsset(v)
                &&& v.token == s.token@
                &&& v.name == s.name@
                &&& v.file_id == s.file_id@
                &&& v.waiting.len() == s.waiting@.len()
                &&& 0 <= i < s.waiting@.len() ==> v.waiting[i].0 == s.waiting@[i].0@
                    && v.waiting[i].1 == s.waiting@[i].1@
            },
            PluginStep::Reply(m) => step@ matches PluginStep::Reply(v) && v == m@,
            PluginStep::Done => step@ is Done,
        },
        step matches PluginStep::SendAsset(s) ==> step@->SendAsset_0 == s@,
        step matches PluginStep::LoadAssets(s) ==> step@->LoadAssets_0 == s@,
{
}

/// A step of a deletion or of a press asks for what its contract says.
pub proof fn law_view_of_presses(
    delete: DeleteStep<String>,
    asset: DeleteAsset<String>,
    press: CallbackStep<String>,
    answer: AnswerRotated<String>,
)
    ensures
        asset@.name == asset.name@,
        answer@ == (AnswerRotated { chat_id: answer.chat_id, token: answer.token@ }),
        match delete {
            DeleteStep::Ignore => delete@ is Ignore,
            DeleteStep::Reply(m) => delete@ == DeleteStep::Reply(m@),
            DeleteStep::Delete(s) => delete@ == DeleteStep::Delete(DeleteAsset { name: s.name@ }),
        },
        match press {
            CallbackStep::Done => press@ is Done,
            CallbackStep::Dismiss => press@ is Dismiss,
            CallbackStep::Acknowledge(s) => press@ == CallbackStep::<Seq<char>>::Acknowledge(s),
            CallbackStep::Deliver(s) => press@ == CallbackStep::<Seq<char>>::Deliver(s),
            CallbackStep::RotateToken(s) => press@ == CallbackStep::<Seq<char>>::RotateToken(s),
            CallbackStep::AnswerRotated(s) => press@ == CallbackStep::AnswerRotated(s@),
            CallbackStep::AnswerNotRotated(_) => press@ is AnswerNotRotated,
            CallbackStep::Send(chat_id, m) => press@ == CallbackStep::Send(chat_id, m@),
        },
{
}

/// A step of an upload takes the file and keeps the entries and results that its
/// contract says.
pub proof fn law_view_of_uploads(
    step: Upload,
    file: UploadFile<String, Vec<Option<String>>, Vec<UploadResult<String>>>,
    store: StoreAsset<String, Vec<Option<String>>, Vec<UploadResult<String>>>,
    i: int,
)
    ensures
        file@.file == file.file@,
        file@.asset == file.asset@,
        file@.waiting.len() == file.waiting@.len(),
        0 <= i < file.waiting@.len() ==> file@.waiting[i] == match file.waiting@[i] {
            Some(name) => Some(name@),
            None => None,
        },
        file@.results.len() == file.results@.len(),
        0 <= i < file.results@.len() ==> file@.results[i].asset == file.results@[i].asset@
            && file@.results[i].outcome == file.results@[i].outcome,
        store@.asset == store.asset@,
        store@.file_id == store.file_id@,
        store@.waiting.len() == store.waiting@.len(),
        0 <= i < store.waiting@.len() ==> store@.waiting[i] == match store.waiting@[i] {
            Some(name) => Some(name@),
            None => None,
        },
        store@.results.len() == store.results@.len(),
        0 <= i < store.results@.len() ==> store@.results[i].asset == store.results@[i].asset@
            && store@.results[i].outcome == store.results@[i].outcome,
        match step {
            UploadStep::Ignore => step@ is Ignore,
            UploadStep::Announce(_) => step@ is Announce,
            UploadStep::ListDirectory(_) => step@ is ListDirectory,
            UploadStep::UploadFile(s) => step@ matches UploadStep::UploadFile(v) && v == s@,
            UploadStep::StoreAsset(s) => step@ matches UploadStep::StoreAsset(v) && v == s@,
            UploadStep::Reply(m) => step@ matches UploadStep::Reply(v) && v == m@,
        },
{
}

/// A step of a scan is about the chats, members and hits that its contract says,
/// and ends with the same result.
pub proof fn law_view_of_scans(scan: Scan, chat: ChatScan, one: ScanChat<Vec<i64>>)
    ensures
        one@.chat_id == one.chat_id,
        one@.waiting == one.waiting@,
        match scan {
            ScanStep::LoadChats(_) => scan@ is LoadChats,
            ScanStep::ScanChat(s) => scan@ matches ScanStep::ScanChat(v) && v.chat_id == s.chat_id
                && v.waiting == s.waiting@,
            ScanStep::Done(Ok(_)) => scan@ matches ScanStep::Done(Ok(_)),
            ScanStep::Done(Err(e)) => scan@ matches ScanStep::Done(Err(v)) && v == e@,
        },
        match chat {
            ChatScanStep::LoadMembers(s) => chat@ matches ChatScanStep::LoadMembers(v) && v == s,
            ChatScanStep::CheckMembers(s) => chat@ matches ChatScanStep::CheckMembers(v)
                && v.chat_id == s.chat_id && v.members == s.members@,
            ChatScanStep::SendReport(s) => chat@ matches ChatScanStep::SendReport(v) && v.chat_id
                == s.chat_id && v.hits == s.hits@,
            ChatScanStep::Deactivate(s) => chat@ matches ChatScanStep::Deactivate(v) && v == s,
            ChatScanStep::Done(Ok(_)) => chat@ matches ChatScanStep::Done(Ok(_)),
            ChatScanStep::Done(Err(e)) => chat@ matches ChatScanStep::Done(Err(v)) && v == e@,
        },
{
}

/// A response is what its contract says, and a message is routed by what it holds.
pub proof fn law_view_of_requests(
    step: EndpointStep<String>,
    error: ErrorResponse<String>,
    message: Incoming<String>,
)
    ensures
        error@.status == error.status,
        error@.error == error.error@,
        match step {
            EndpointStep::LookUp(s) => step@ == EndpointStep::<Seq<char>>::LookUp(s),
            EndpointStep::Respond(Ok(r)) => step@ == EndpointStep::<Seq<char>>::Respond(Ok(r)),
            EndpointStep::Respond(Err(e)) => step@ == EndpointStep::<Seq<char>>::Respond(Err(e@)),
        },
        message@.user_command == message.user_command,
        message@.admin_command == message.admin_command,
        message@.from == message.from,
        message@.members_joined == message.members_joined,
        message@.member_left == message.member_left,
        message@.chat == message.chat,
        message.text matches Some(t) ==> message@.text == Some(t@),
        message.text is None ==> message@.text is None,
{
}

}
