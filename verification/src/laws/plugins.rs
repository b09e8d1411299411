//! The delivery and upkeep of the plugins, and the buttons.
use crate::bot_handler::plugins::{
    callback_step, delete_step, plugins_step, Acknowledge, AnswerRotated,
    CallbackStep, DeleteAsset, DeleteStep, Deliver, LoadAssets, LoadToken, PluginStep,
    PluginStepView, RotateToken, SendAsset,
};
use crate::bot_handler::{account_id, sender_id, ChatKind, User};
use crate::messages::{message_button, message_is_html, message_text, Button, Message};
use crate::text::trim;
use vstd::prelude::*;

verus! {

/// The command /plugins is refused outside private chats; in one it loads the
/// token of whoever sent it, unless they have no ID.
pub proof fn law_plugins_are_for_private_chats(chat: ChatKind, from: Option<User>)
    ensures
        chat != ChatKind::Private ==> (plugins_step(chat, from) matches PluginStep::Reply(m)
            && message_text(m) == "Эта команда доступна только в личных сообщениях."@),
        chat == ChatKind::Private && sender_id(from) == 0 ==> plugins_step(chat, from) is Done,
        chat == ChatKind::Private && sender_id(from) != 0 ==> plugins_step(chat, from)
            == PluginStepView::LoadToken(LoadToken { user_id: sender_id(from) }),
{
}

/// A delivery goes on with the very token that was loaded; without one it says so
/// and ends.
pub proof fn law_delivery_needs_a_token(load: LoadToken, token: Seq<char>, cause: Seq<char>)
    ensures
        load.after(Ok(token)) == PluginStepView::LoadAssets(LoadAssets { token }),
        load.after(Err(cause)) matches PluginStep::Reply(m) && message_text(m)
            == "Ошибка при создании API токена."@,
{
}

/// A delivery without assets says so and ends; one with assets sends the first of
/// them, and keeps the others and the token.
pub proof fn law_delivery_sends_the_first_asset(
    load: LoadAssets<Seq<char>>,
    assets: Seq<(Seq<char>, Seq<char>)>,
    cause: Seq<char>,
)
    ensures
        load.after(Err(cause)) matches PluginStep::Reply(m) && message_text(m)
            == "Ошибка при загрузке плагинов."@,
        assets.len() == 0 ==> (load.after(Ok(assets)) matches PluginStep::Reply(m) && message_text(
            m,
        ) == "Плагины ещё не загружены. Администратор должен выполнить /upload_assets."@),
        assets.len() > 0 ==> load.after(Ok(assets)) == PluginStep::SendAsset(
            SendAsset {
                token: load.token,
                name: assets[0].0,
                file_id: assets[0].1,
                waiting: assets.skip(1),
            },
        ),
{
}

/// After an asset the next one is sent, and after the last one the instruction
/// with the token.
pub proof fn law_delivery_goes_on(
    sent: SendAsset<Seq<char>, Seq<(Seq<char>, Seq<char>)>>,
)
    ensures
        sent.waiting.len() == 0 ==> sent.after() == PluginStepView::Reply(
            Message::Instruction(sent.token),
        ),
        sent.waiting.len() > 0 ==> (sent.after() matches PluginStep::SendAsset(next) && next.token
            == sent.token && next.name == sent.waiting[0].0 && next.file_id == sent.waiting[0].1
            && next.waiting == sent.waiting.skip(1)),
{
}

/// The administrator deletes the asset that the command names, white space aside;
/// without a name they get a hint; and no one else gets anything.
pub proof fn law_administrator_deletes_assets(
    from: Option<User>,
    admin_id: i64,
    argument: Seq<char>,
)
    ensures
        sender_id(from) != admin_id ==> delete_step(from, admin_id, argument) is Ignore,
        sender_id(from) == admin_id && trim(argument).len() > 0 ==> delete_step(
            from,
            admin_id,
            argument,
        ) == DeleteStep::Delete(DeleteAsset { name: trim(argument) }),
        sender_id(from) == admin_id && trim(argument).len() == 0 ==> (delete_step(
            from,
            admin_id,
            argument,
        ) matches DeleteStep::Reply(m) && message_text(m)
            == "Пожалуйста, укажите имя плагина. Пример: <code>/delete_asset ayugram</code>"@),
{
}

/// A deletion is reported by the asset's name: as done if and only if rows were
/// deleted, as not found if and only if none was, and as failed otherwise.
pub proof fn law_deletions_are_reported(
    asset: DeleteAsset<Seq<char>>,
    rows: u64,
    cause: Seq<char>,
)
    ensures
        rows > 0 ==> message_text(asset.after(Ok(rows))) == "Плагин <b>"@ + asset.name
            + "</b> успешно удалён."@,
        rows == 0 ==> message_text(asset.after(Ok(rows))) == "Плагин <b>"@ + asset.name
            + "</b> не найден."@,
        message_text(asset.after(Err(cause))) == "Произошла ошибка при удалении плагина."@,
{
}

/// A press without data is over at once; the data `get_plugins` is acknowledged,
/// `reset_token` rotates the presser's token, and any other data is dismissed.
pub proof fn law_presses_are_told_apart(data: Seq<char>, from: User, chat_id: Option<i64>)
    ensures
        callback_step(None, from, chat_id) is Done,
        data == "get_plugins"@ ==> callback_step(Some(data), from, chat_id) == CallbackStep::<
            Seq<char>,
        >::Acknowledge(Acknowledge { user_id: account_id(from), chat_id }),
        data == "reset_token"@ ==> callback_step(Some(data), from, chat_id) == CallbackStep::<
            Seq<char>,
        >::RotateToken(RotateToken { user_id: account_id(from), chat_id }),
        data != "get_plugins"@ && data != "reset_token"@ ==> callback_step(
            Some(data),
            from,
            chat_id,
        ) is Dismiss,
{
    reveal_strlit("get_plugins");
    reveal_strlit("reset_token");
    assert("get_plugins"@[0] != "reset_token"@[0]);
}

/// An acknowledged press leads to the delivery to the chat of the button, for the
/// user who pressed it; where that chat is not known, to nothing.
pub proof fn law_acknowledged_presses_deliver(user_id: i64, chat_id: i64)
    ensures
        (Acknowledge { user_id, chat_id: Some(chat_id) }).after() == CallbackStep::<
            Seq<char>,
        >::Deliver(Deliver { chat_id, user_id }),
        (Acknowledge { user_id, chat_id: None }).after() is Done,
{
}

/// A rotated token is the one that the chat of the button is told; a token that
/// could not be stored is told to no one.
pub proof fn law_rotated_tokens_are_told(
    user_id: i64,
    chat_id: i64,
    token: Seq<char>,
    cause: Seq<char>,
)
    ensures
        (RotateToken { user_id, chat_id: Some(chat_id) }).after(Ok(token))
            == CallbackStep::AnswerRotated(AnswerRotated { chat_id: Some(chat_id), token }),
        (RotateToken { user_id, chat_id: None }).after(Ok(token)) == CallbackStep::AnswerRotated(
            AnswerRotated { chat_id: None, token },
        ),
        (RotateToken { user_id, chat_id: Some(chat_id) }).after(Err(cause)) is AnswerNotRotated,
        (RotateToken { user_id, chat_id: None }).after(Err(cause)) is AnswerNotRotated,
        (AnswerRotated { chat_id: Some(chat_id), token }).after() matches CallbackStep::Send(
            to,
            m,
        ) && to == chat_id && message_text(m) == "<b>Ваш новый API токен:</b>\n\n<code>"@ + token
            + "</code>\n\nОбновите токен в настройках плагина."@,
        (AnswerRotated::<Seq<char>> { chat_id: None, token }).after() is Done,
{
}

/// The greeting has the button for the plugins, and every message with a token
/// the one for a new token; no other message has a button.
pub proof fn law_buttons_stand_below_their_messages(message: Message<Seq<char>>)
    ensures
        message_button(message) == Some(Button::GetPlugins) <==> message is Greeting,
        message_button(message) == Some(Button::ResetToken) <==> message is Instruction
            || message is NewToken,
        message_button(message) is None <==> !(message is Greeting || message is Instruction
            || message is NewToken),
        Button::GetPlugins.label_text() == "Скачать плагины и получить API ключ"@,
        Button::GetPlugins.data_text() == "get_plugins"@,
        Button::ResetToken.label_text() == "Сбросить API токен"@,
        Button::ResetToken.data_text() == "reset_token"@,
{
}

/// A message is marked up if and only if its text holds markup of the bot's own.
pub proof fn law_marked_up_messages(message: Message<Seq<char>>)
    ensures
        message_is_html(message) <==> match message {
            Message::Greeting => true,
            Message::AssetNameMissing => true,
            Message::AssetDeleted(_) => true,
            Message::AssetNotFound(_) => true,
            Message::Instruction(_) => true,
            Message::NewToken(_) => true,
            Message::ScanReport(_) => true,
            _ => false,
        },
{
}

/// A message that quotes a token, a cause, a summary or a report quotes it in
/// full, whatever it is; one that announces or complains always says the same.
pub proof fn law_messages_quote_in_full(t: Seq<char>)
    ensures
        message_text(Message::Instruction(t)) == "<b>Инструкция по установке плагинов</b>

1. Скачайте файл(ы) плагина выше.
2. Переместите .plugin файл в папку <code>plugins/</code> вашего Telegram-клиента (AyuGram или exteraGram).
3. В настройках плагина укажите ваш персональный API-токен:

<b>Ваш API токен:</b>
<code>"@ + t + "</code>

4. Укажите базовый URL (API URL):
<code>https://tc.berektassuly.com</code>

<b>Важно:</b>
• Токен привязан к вашему Telegram аккаунту.
• Не передавайте токен третьим лицам.
• При компрометации — нажмите кнопку ниже для сброса.

Подробная инструкция: /plugins"@,
        message_text(Message::DirectoryUnreadable(t)) == "Ошибка чтения директории: "@ + t,
        message_text(Message::UploadSummary(t)) == t,
        message_text(Message::ScanReport(t)) == t,
        message_text(Message::Greeting) == "Добро пожаловать в TelegaChecker!

Telega Checker специализированный инструмент для проверки аккаунтов. Основная задача определение, числится ли конкретный Telegram ID в инфраструктуре Telega.

Как пользоваться ботом:
• Просто отправьте мне Telegram ID (только цифры, например: 123456789).
• Используйте inline-режим в любом чате: введите @telega_checker_rs_bot 123456789.
• В группе просто упомяните меня: @telega_checker_rs_bot 123456789.
В ответ я мгновенно сообщу, найден ли этот пользователь в системе.

О приватности:
Статья о возможных подводных камнях и уязвимостях при использовании Telega:
<a href=\"https://telegra.ph/How-Telega-Intercepts-Your-Messages-and-Data-03-24\">Как Telega перехватывает ваши сообщения и данные</a>

Связь с разработчиком:
По вопросам сотрудничества, баг-репортам или предложениям обращайтесь: @Berektassuly"@,
        message_text(Message::Uploading) == "Загрузка плагинов из директории plugins/..."@,
        message_text(Message::NoPluginDirectory)
            == "Директория plugins/ не найдена. Убедитесь, что бот запущен из корня проекта."@,
{
}

}
