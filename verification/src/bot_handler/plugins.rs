//! Plugins and API tokens: their delivery to users, and the upkeep of the
//! plugin assets by the administrator.
use super::{account_id, is_private_chat, sender, sender_id, ChatKind, User};
use crate::db::{
    delete_plugin_asset, delete_plugin_asset_statement, get_or_create_token, get_plugin_assets,
    get_plugin_assets_statement, insert_token_statement, is_uuid_v4, rotate_token, rows_changed,
    select_token_statement, update_token_statement, Statement, TokenRotation, TokenStatements,
};
use crate::messages::{Message, GET_PLUGINS, RESET_TOKEN};
use crate::text::{same_text, trim, trimmed};
use vstd::prelude::*;

verus! {

// ---------------------------------------------------------------------------
// Greeting and delivery
// ---------------------------------------------------------------------------

/// Handles the command /start.
pub fn handle_start() -> (message: Message<String>)
    ensures
        message@ == Message::<Seq<char>>::Greeting,
{
    Message::Greeting
}

/// A plugin asset: its name and its file ID.
pub type Assets = Vec<(String, String)>;

/// The views of plugin assets.
pub open spec fn assets_view(assets: Seq<(String, String)>) -> Seq<(Seq<char>, Seq<char>)> {
    assets.map_values(|a: (String, String)| (a.0@, a.1@))
}

/// What the delivery of the plugins needs done next. `S` is `String` in code
/// and `Seq<char>` in contracts; `A` is a list of assets.
#[derive(Debug)]
pub enum PluginStep<S, A> {
    LoadToken(LoadToken),
    LoadAssets(LoadAssets<S>),
    SendAsset(SendAsset<S, A>),
    /// Send this message; then the delivery is over.
    Reply(Message<S>),
    /// The delivery is over.
    Done,
}

/// The view of a [`PluginStep`].
pub type PluginStepView = PluginStep<Seq<char>, Seq<(Seq<char>, Seq<char>)>>;

/// Have the user's API token, a new one if need be.
#[derive(Debug)]
pub struct LoadToken {
    pub user_id: i64,
}

/// Have the plugin assets.
#[derive(Debug)]
pub struct LoadAssets<S> {
    pub token: S,
}

/// Send a plugin asset. Whether that succeeds makes no difference.
#[derive(Debug)]
pub struct SendAsset<S, A> {
    pub token: S,
    pub name: S,
    pub file_id: S,
    /// The assets that follow.
    pub waiting: A,
}

impl View for LoadAssets<String> {
    type V = LoadAssets<Seq<char>>;

    open spec fn view(&self) -> LoadAssets<Seq<char>> {
        LoadAssets { token: self.token@ }
    }
}

impl View for SendAsset<String, Assets> {
    type V = SendAsset<Seq<char>, Seq<(Seq<char>, Seq<char>)>>;

    open spec fn view(&self) -> SendAsset<Seq<char>, Seq<(Seq<char>, Seq<char>)>> {
        SendAsset {
            token: self.token@,
            name: self.name@,
            file_id: self.file_id@,
            waiting: assets_view(self.waiting@),
        }
    }
}

impl View for PluginStep<String, Assets> {
    type V = PluginStepView;

    open spec fn view(&self) -> PluginStepView {
        match *self {
            PluginStep::LoadToken(s) => PluginStep::LoadToken(s),
            PluginStep::LoadAssets(s) => PluginStep::LoadAssets(s@),
            PluginStep::SendAsset(s) => PluginStep::SendAsset(s@),
            PluginStep::Reply(m) => PluginStep::Reply(m@),
            PluginStep::Done => PluginStep::Done,
        }
    }
}

/// What the command /plugins leads to: it works in private chats only, and for
/// senders that have an ID.
pub open spec fn plugins_step(chat: ChatKind, from: Option<User>) -> PluginStepView {
    if chat != ChatKind::Private {
        PluginStep::Reply(Message::PrivateOnly)
    } else if sender_id(from) == 0 {
        PluginStep::Done
    } else {
        PluginStep::LoadToken(LoadToken { user_id: sender_id(from) })
    }
}

/// Handles the command /plugins.
pub fn handle_plugins(chat: ChatKind, from: Option<User>) -> (step: PluginStep<String, Assets>)
    ensures
        step@ == plugins_step(chat, from),
{
    if !is_private_chat(chat) {
        return PluginStep::Reply(Message::PrivateOnly);
    }
    let user_id = sender(from);
    if user_id == 0 {
        return PluginStep::Done;
    }
    send_plugins_and_token(user_id)
}

/// Starts the delivery of the plugins and the API token to a user.
pub fn send_plugins_and_token(user_id: i64) -> (step: PluginStep<String, Assets>)
    ensures
        step@ == PluginStepView::LoadToken(LoadToken { user_id }),
{
    PluginStep::LoadToken(LoadToken { user_id })
}

impl LoadToken {
    /// The statements to run, in order.
    pub fn statements(&self) -> (statements: TokenStatements)
        ensures
            exists|token: Seq<char>| #[trigger]
                is_uuid_v4(token) && statements.insert@ == insert_token_statement(
                    self.user_id,
                    token,
                ),
            statements.select@ == select_token_statement(self.user_id),
    {
        get_or_create_token(self.user_id)
    }

    pub open spec fn after(self, token: Result<Seq<char>, Seq<char>>) -> PluginStepView {
        match token {
            Ok(token) => PluginStep::LoadAssets(LoadAssets { token }),
            Err(_) => PluginStep::Reply(Message::TokenFailed),
        }
    }

    /// Goes on with the token that the user has now, or with why there is none.
    pub fn resume(self, token: Result<String, String>) -> (step: PluginStep<String, Assets>)
        ensures
            step@ == self.after(
                match token {
                    Ok(t) => Ok(t@),
                    Err(e) => Err(e@),
                },
            ),
    {
        match token {
            Ok(token) => PluginStep::LoadAssets(LoadAssets { token }),
            Err(_) => PluginStep::Reply(Message::TokenFailed),
        }
    }
}

/// Send the first of `assets`, or the instruction where none is left.
pub open spec fn asset_step(
    token: Seq<char>,
    assets: Seq<(Seq<char>, Seq<char>)>,
) -> PluginStepView {
    if assets.len() == 0 {
        PluginStep::Reply(Message::Instruction(token))
    } else {
        PluginStep::SendAsset(
            SendAsset {
                token,
                name: assets[0].0,
                file_id: assets[0].1,
                waiting: assets.skip(1),
            },
        )
    }
}

/// Sends the first of `assets`, or the instruction where none is left.
fn next_asset(token: String, assets: Assets) -> (step: PluginStep<String, Assets>)
    ensures
        step@ == asset_step(token@, assets_view(assets@)),
{
    if assets.len() == 0 {
        return PluginStep::Reply(Message::Instruction(token));
    }
    let ghost views = assets_view(assets@);
    let mut waiting = assets;
    let (name, file_id) = waiting.remove(0);
    assert(assets_view(waiting@) =~= views.skip(1));
    PluginStep::SendAsset(SendAsset { token, name, file_id, waiting })
}

impl LoadAssets<Seq<char>> {
    pub open spec fn after(
        self,
        assets: Result<Seq<(Seq<char>, Seq<char>)>, Seq<char>>,
    ) -> PluginStepView {
        match assets {
            Err(_) => PluginStep::Reply(Message::AssetsFailed),
            Ok(assets) => if assets.len() == 0 {
                PluginStep::Reply(Message::NoAssets)
            } else {
                asset_step(self.token, assets)
            },
        }
    }
}

impl LoadAssets<String> {
    /// The query to run.
    pub fn statement(&self) -> (statement: Statement)
        ensures
            statement@ == get_plugin_assets_statement(),
    {
        get_plugin_assets()
    }

    /// Goes on with the assets.
    pub fn resume(self, assets: Result<Assets, String>) -> (step: PluginStep<String, Assets>)
        ensures
            step@ == self@.after(
                match assets {
                    Ok(a) => Ok(assets_view(a@)),
                    Err(e) => Err(e@),
                },
            ),
    {
        match assets {
            Err(_) => PluginStep::Reply(Message::AssetsFailed),
            Ok(assets) => if assets.len() == 0 {
                PluginStep::Reply(Message::NoAssets)
            } else {
                next_asset(self.token, assets)
            },
        }
    }
}

impl SendAsset<Seq<char>, Seq<(Seq<char>, Seq<char>)>> {
    pub open spec fn after(self) -> PluginStepView {
        asset_step(self.token, self.waiting)
    }
}

impl SendAsset<String, Assets> {
    /// Goes on once the asset was tried to be sent.
    pub fn resume(self) -> (step: PluginStep<String, Assets>)
        ensures
            step@ == self@.after(),
    {
        next_asset(self.token, self.waiting)
    }
}

/// Where a delivery stands after `n` assets.
pub open spec fn delivery_at(
    token: Seq<char>,
    assets: Seq<(Seq<char>, Seq<char>)>,
    n: nat,
) -> PluginStepView
    decreases n,
{
    if n == 0 {
        asset_step(token, assets)
    } else {
        match delivery_at(token, assets, (n - 1) as nat) {
            PluginStep::SendAsset(s) => s.after(),
            other => other,
        }
    }
}

/// A delivery sends every asset once, in order, and then the instruction with
/// the user's token, whichever of the assets cannot be sent.
pub proof fn law_delivery_is_complete(
    token: Seq<char>,
    assets: Seq<(Seq<char>, Seq<char>)>,
    n: nat,
)
    requires
        n <= assets.len(),
    ensures
        delivery_at(token, assets, n) == asset_step(token, assets.skip(n as int)),
        n < assets.len() ==> (delivery_at(token, assets, n) matches PluginStep::SendAsset(s)
            && s.name == assets[n as int].0 && s.file_id == assets[n as int].1),
        n == assets.len() ==> delivery_at(token, assets, n) == PluginStepView::Reply(Message::Instruction(token)),
    decreases n,
{
    if n == 0 {
        assert(assets.skip(0) =~= assets);
    } else {
        law_delivery_is_complete(token, assets, (n - 1) as nat);
        assert(assets.skip(n - 1).skip(1) =~= assets.skip(n as int));
    }
}

// ---------------------------------------------------------------------------
// Deleting an asset
// ---------------------------------------------------------------------------

/// What the command to delete an asset needs done next.
#[derive(Debug)]
pub enum DeleteStep<S> {
    /// Nothing: the sender is not the administrator.
    Ignore,
    /// Send this message; then the handling is over.
    Reply(Message<S>),
    Delete(DeleteAsset<S>),
}

/// Delete the asset.
#[derive(Debug)]
pub struct DeleteAsset<S> {
    pub name: S,
}

impl View for DeleteStep<String> {
    type V = DeleteStep<Seq<char>>;

    open spec fn view(&self) -> DeleteStep<Seq<char>> {
        match *self {
            DeleteStep::Ignore => DeleteStep::Ignore,
            DeleteStep::Reply(m) => DeleteStep::Reply(m@),
            DeleteStep::Delete(s) => DeleteStep::Delete(DeleteAsset { name: s.name@ }),
        }
    }
}

/// What the command /delete_asset leads to: nothing unless the administrator
/// sent it; without a name a hint; else the deletion of that asset.
pub open spec fn delete_step(from: Option<User>, admin_id: i64, argument: Seq<char>) -> DeleteStep<
    Seq<char>,
> {
    if sender_id(from) != admin_id {
        DeleteStep::Ignore
    } else if trim(argument).len() == 0 {
        DeleteStep::Reply(Message::AssetNameMissing)
    } else {
        DeleteStep::Delete(DeleteAsset { name: trim(argument) })
    }
}

/// Handles the command /delete_asset.
pub fn handle_delete_asset(from: Option<User>, admin_id: i64, argument: &str) -> (step: DeleteStep<
    String,
>)
    ensures
        step@ == delete_step(from, admin_id, argument@),
{
    if sender(from) != admin_id {
        return DeleteStep::Ignore;
    }
    let name = trimmed(argument);
    if name.as_str().is_empty() {
        return DeleteStep::Reply(Message::AssetNameMissing);
    }
    DeleteStep::Delete(DeleteAsset { name })
}

impl DeleteAsset<Seq<char>> {
    /// The answer, from how many rows were deleted.
    pub open spec fn after(self, rows_affected: Result<u64, Seq<char>>) -> Message<Seq<char>> {
        match rows_affected {
            Ok(n) => if n > 0 {
                Message::AssetDeleted(self.name)
            } else {
                Message::AssetNotFound(self.name)
            },
            Err(_) => Message::DeleteFailed,
        }
    }
}

impl View for DeleteAsset<String> {
    type V = DeleteAsset<Seq<char>>;

    open spec fn view(&self) -> DeleteAsset<Seq<char>> {
        DeleteAsset { name: self.name@ }
    }
}

impl DeleteAsset<String> {
    /// The statement to run.
    pub fn statement(&self) -> (statement: Statement)
        ensures
            statement@ == delete_plugin_asset_statement(self.name@),
    {
        delete_plugin_asset(self.name.as_str())
    }

    /// The answer, from how many rows were deleted.
    pub fn resume(self, rows_affected: Result<u64, String>) -> (message: Message<String>)
        ensures
            message@ == self@.after(
                match rows_affected {
                    Ok(n) => Ok(n),
                    Err(e) => Err(e@),
                },
            ),
    {
        match rows_affected {
            Ok(n) => if rows_changed(n) {
                Message::AssetDeleted(self.name)
            } else {
                Message::AssetNotFound(self.name)
            },
            Err(_) => Message::DeleteFailed,
        }
    }
}

// ---------------------------------------------------------------------------
// Buttons
// ---------------------------------------------------------------------------

/// What the press of a button needs done next.
#[derive(Debug)]
pub enum CallbackStep<S> {
    /// The handling is over.
    Done,
    /// Answer without a text; then the handling is over.
    Dismiss,
    Acknowledge(Acknowledge),
    /// Deliver the plugins; then the handling is over, whether that succeeds
    /// or not.
    Deliver(Deliver),
    RotateToken(RotateToken),
    AnswerRotated(AnswerRotated<S>),
    /// Answer with the failure's text; then the handling is over.
    AnswerNotRotated(AnswerNotRotated),
    /// Send this message to the chat; then the handling is over.
    Send(i64, Message<S>),
}

/// Answer without a text, which ends the waiting at the button.
#[derive(Debug)]
pub struct Acknowledge {
    pub user_id: i64,
    pub chat_id: Option<i64>,
}

/// Deliver the plugins and the API token of a user to a chat.
#[derive(Debug)]
pub struct Deliver {
    pub chat_id: i64,
    pub user_id: i64,
}

/// Replace the API token of a user.
#[derive(Debug)]
pub struct RotateToken {
    pub user_id: i64,
    pub chat_id: Option<i64>,
}

/// Answer that the token was replaced.
#[derive(Debug)]
pub struct AnswerRotated<S> {
    pub chat_id: Option<i64>,
    pub token: S,
}

/// Answer that the token could not be replaced.
#[derive(Debug)]
pub struct AnswerNotRotated;

impl View for AnswerRotated<String> {
    type V = AnswerRotated<Seq<char>>;

    open spec fn view(&self) -> AnswerRotated<Seq<char>> {
        AnswerRotated { chat_id: self.chat_id, token: self.token@ }
    }
}

impl View for CallbackStep<String> {
    type V = CallbackStep<Seq<char>>;

    open spec fn view(&self) -> CallbackStep<Seq<char>> {
        match *self {
            CallbackStep::Done => CallbackStep::Done,
            CallbackStep::Dismiss => CallbackStep::Dismiss,
            CallbackStep::Acknowledge(s) => CallbackStep::Acknowledge(s),
            CallbackStep::Deliver(s) => CallbackStep::Deliver(s),
            CallbackStep::RotateToken(s) => CallbackStep::RotateToken(s),
            CallbackStep::AnswerRotated(s) => CallbackStep::AnswerRotated(s@),
            CallbackStep::AnswerNotRotated(s) => CallbackStep::AnswerNotRotated(s),
            CallbackStep::Send(chat_id, m) => CallbackStep::Send(chat_id, m@),
        }
    }
}

/// What the press of a button leads to. `chat_id` is the chat of the message
/// that the button stands below, where there still is one.
pub open spec fn callback_step(
    data: Option<Seq<char>>,
    from: User,
    chat_id: Option<i64>,
) -> CallbackStep<Seq<char>> {
    match data {
        None => CallbackStep::Done,
        Some(d) => if d == GET_PLUGINS@ {
            CallbackStep::Acknowledge(Acknowledge { user_id: account_id(from), chat_id })
        } else if d == RESET_TOKEN@ {
            CallbackStep::RotateToken(RotateToken { user_id: account_id(from), chat_id })
        } else {
            CallbackStep::Dismiss
        },
    }
}

/// Handles the press of a button.
pub fn handle_callback_query(data: Option<&str>, from: User, chat_id: Option<i64>) -> (step:
    CallbackStep<String>)
    ensures
        step@ == callback_step(
            match data {
                Some(d) => Some(d@),
                None => None,
            },
            from,
            chat_id,
        ),
{
    let data = match data {
        Some(d) => d,
        None => return CallbackStep::Done,
    };
    let user_id = from.id as i64;
    if same_text(data, GET_PLUGINS) {
        CallbackStep::Acknowledge(Acknowledge { user_id, chat_id })
    } else if same_text(data, RESET_TOKEN) {
        CallbackStep::RotateToken(RotateToken { user_id, chat_id })
    } else {
        CallbackStep::Dismiss
    }
}

impl Acknowledge {
    pub open spec fn after(self) -> CallbackStep<Seq<char>> {
        match self.chat_id {
            Some(chat_id) => CallbackStep::Deliver(Deliver { chat_id, user_id: self.user_id }),
            None => CallbackStep::Done,
        }
    }

    /// Goes on once the press is answered.
    pub fn resume(self) -> (step: CallbackStep<String>)
        ensures
            step@ == self.after(),
    {
        match self.chat_id {
            Some(chat_id) => CallbackStep::Deliver(Deliver { chat_id, user_id: self.user_id }),
            None => CallbackStep::Done,
        }
    }
}

impl Deliver {
    /// The first step of the delivery.
    pub fn start(&self) -> (step: PluginStep<String, Assets>)
        ensures
            step@ == PluginStepView::LoadToken(LoadToken { user_id: self.user_id }),
    {
        send_plugins_and_token(self.user_id)
    }
}

impl RotateToken {
    /// A fresh token, and the statement that makes it the user's.
    pub fn rotation(&self) -> (rotation: TokenRotation)
        ensures
            is_uuid_v4(rotation.token@),
            rotation.update@ == update_token_statement(rotation.token@, self.user_id),
    {
        rotate_token(self.user_id)
    }

    pub open spec fn after(self, token: Result<Seq<char>, Seq<char>>) -> CallbackStep<Seq<char>> {
        match token {
            Ok(token) => CallbackStep::AnswerRotated(
                AnswerRotated { chat_id: self.chat_id, token },
            ),
            Err(e) => CallbackStep::AnswerNotRotated(AnswerNotRotated),
        }
    }

    /// Goes on with the token that the user has now if they had one, or with why
    /// it could not be stored.
    pub fn resume(self, token: Result<String, String>) -> (step: CallbackStep<String>)
        ensures
            step@ == self.after(
                match token {
                    Ok(t) => Ok(t@),
                    Err(e) => Err(e@),
                },
            ),
    {
        match token {
            Ok(token) => CallbackStep::AnswerRotated(
                AnswerRotated { chat_id: self.chat_id, token },
            ),
            Err(_) => CallbackStep::AnswerNotRotated(AnswerNotRotated),
        }
    }
}

impl AnswerRotated<Seq<char>> {
    pub open spec fn after(self) -> CallbackStep<Seq<char>> {
        match self.chat_id {
            Some(chat_id) => CallbackStep::Send(chat_id, Message::NewToken(self.token)),
            None => CallbackStep::Done,
        }
    }
}

impl AnswerNotRotated {
    /// The text to answer with.
    pub fn text(&self) -> (text: &'static str)
        ensures
            text@ == "Ошибка при обновлении токена"@,
    {
        "Ошибка при обновлении токена"
    }
}

impl AnswerRotated<String> {
    /// The text to answer with.
    pub fn text(&self) -> (text: &'static str)
        ensures
            text@ == "Токен обновлён!"@,
    {
        "Токен обновлён!"
    }

    /// Goes on once the press is answered.
    pub fn resume(self) -> (step: CallbackStep<String>)
        ensures
            step@ == self@.after(),
    {
        match self.chat_id {
            Some(chat_id) => CallbackStep::Send(chat_id, Message::NewToken(self.token)),
            None => CallbackStep::Done,
        }
    }
}

/// Each button reports what its handler expects: the one for the plugins leads
/// to their delivery to the chat of the button, the one for a new token to its
/// replacement, if the user had one, and to a message with the very token that
/// the statement carries.
pub proof fn law_buttons_do_what_they_say(from: User, chat_id: i64, token: Seq<char>)
    ensures
        ({
            let press = callback_step(
                Some(crate::messages::Button::GetPlugins.data_text()),
                from,
                Some(chat_id),
            );
            &&& press is Acknowledge
            &&& press->Acknowledge_0.after() == CallbackStep::<Seq<char>>::Deliver(
                Deliver { chat_id, user_id: account_id(from) },
            )
        }),
        ({
            let press = callback_step(
                Some(crate::messages::Button::ResetToken.data_text()),
                from,
                Some(chat_id),
            );
            &&& press is RotateToken
            &&& press->RotateToken_0.user_id == account_id(from)
            &&& press->RotateToken_0.after(Ok(token)) is AnswerRotated
            &&& press->RotateToken_0.after(Ok(token))->AnswerRotated_0.after()
                == CallbackStep::Send(chat_id, Message::NewToken(token))
        }),
{
    reveal_strlit("get_plugins");
    reveal_strlit("reset_token");
    assert(GET_PLUGINS@[0] != RESET_TOKEN@[0]);
}

}
