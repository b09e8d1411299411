//! The messages that the bot sends.
use crate::text::between;
use vstd::prelude::*;

verus! {

/// A message to a chat. `S` is `String` in code and `Seq<char>` in contracts.
#[derive(Debug)]
pub enum Message<S> {
    /// What the bot is and how to use it.
    Greeting,
    /// The command works in private chats only.
    PrivateOnly,
    /// The upload of the plugins begins.
    Uploading,
    /// There is no plugin directory.
    NoPluginDirectory,
    /// The plugin directory cannot be read.
    DirectoryUnreadable(S),
    /// How the upload of the plugins went.
    UploadSummary(S),
    /// The command to delete an asset needs a name.
    AssetNameMissing,
    /// The named asset was deleted.
    AssetDeleted(S),
    /// There is no asset of that name.
    AssetNotFound(S),
    /// The asset could not be deleted.
    DeleteFailed,
    /// The user's API token could not be had.
    TokenFailed,
    /// The plugin assets could not be had.
    AssetsFailed,
    /// No plugin was uploaded yet.
    NoAssets,
    /// How to install the plugins, with the user's API token.
    Instruction(S),
    /// The user's new API token.
    NewToken(S),
    /// The text is no Telegram ID.
    InvalidId,
    /// The ID is registered in Telega, said in a private chat.
    Found,
    /// The ID is not registered in Telega, said in a private chat.
    NotFound,
    /// The ID is registered in Telega, said in a group.
    FoundInGroup,
    /// The ID is not registered in Telega, said in a group.
    NotFoundInGroup,
    /// The lookup failed.
    LookupFailed,
    /// The lookup failed, said briefly.
    LookupFailedBriefly,
    /// The members of a chat that use Telega.
    ScanReport(S),
}

/// A button below a message.
#[derive(Clone, Copy, Debug, PartialEq, Eq, Structural)]
pub enum Button {
    GetPlugins,
    ResetToken,
}

impl View for Message<String> {
    type V = Message<Seq<char>>;

    open spec fn view(&self) -> Message<Seq<char>> {
        match *self {
            Message::Greeting => Message::Greeting,
            Message::PrivateOnly => Message::PrivateOnly,
            Message::Uploading => Message::Uploading,
            Message::NoPluginDirectory => Message::NoPluginDirectory,
            Message::DirectoryUnreadable(e) => Message::DirectoryUnreadable(e@),
            Message::UploadSummary(t) => Message::UploadSummary(t@),
            Message::AssetNameMissing => Message::AssetNameMissing,
            Message::AssetDeleted(n) => Message::AssetDeleted(n@),
            Message::AssetNotFound(n) => Message::AssetNotFound(n@),
            Message::DeleteFailed => Message::DeleteFailed,
            Message::TokenFailed => Message::TokenFailed,
            Message::AssetsFailed => Message::AssetsFailed,
            Message::NoAssets => Message::NoAssets,
            Message::Instruction(t) => Message::Instruction(t@),
            Message::NewToken(t) => Message::NewToken(t@),
            Message::InvalidId => Message::InvalidId,
            Message::Found => Message::Found,
            Message::NotFound => Message::NotFound,
            Message::FoundInGroup => Message::FoundInGroup,
            Message::NotFoundInGroup => Message::NotFoundInGroup,
            Message::LookupFailed => Message::LookupFailed,
            Message::LookupFailedBriefly => Message::LookupFailedBriefly,
            Message::ScanReport(t) => Message::ScanReport(t@),
        }
    }
}

pub const GREETING: &'static str =
    "Добро пожаловать в TelegaChecker!

Telega Checker специализированный инструмент для проверки аккаунтов. Основная задача определение, числится ли конкретный Telegram ID в инфраструктуре Telega.

Как пользоваться ботом:
• Просто отправьте мне Telegram ID (только цифры, например: 123456789).
• Используйте inline-режим в любом чате: введите @telega_checker_rs_bot 123456789.
• В группе просто упомяните меня: @telega_checker_rs_bot 123456789.
В ответ я мгновенно сообщу, найден ли этот пользователь в системе.

О приватности:
Статья о возможных подводных камнях и уязвимостях при использовании Telega:
<a href=\"https://telegra.ph/How-Telega-Intercepts-Your-Messages-and-Data-03-24\">Как Telega перехватывает ваши сообщения и данные</a>

Связь с разработчиком:
По вопросам сотрудничества, баг-репортам или предложениям обращайтесь: @Berektassuly";

/// The instruction, up to the token.
pub const INSTRUCTION_BEFORE_TOKEN: &'static str =
    "<b>Инструкция по установке плагинов</b>

1. Скачайте файл(ы) плагина выше.
2. Переместите .plugin файл в папку <code>plugins/</code> вашего Telegram-клиента (AyuGram или exteraGram).
3. В настройках плагина укажите ваш персональный API-токен:

<b>Ваш API токен:</b>
<code>";

/// The instruction, from the token on.
pub const INSTRUCTION_AFTER_TOKEN: &'static str =
    "</code>

4. Укажите базовый URL (API URL):
<code>https://tc.berektassuly.com</code>

<b>Важно:</b>
• Токен привязан к вашему Telegram аккаунту.
• Не передавайте токен третьим лицам.
• При компрометации — нажмите кнопку ниже для сброса.

Подробная инструкция: /plugins";

/// The text of a message.
pub open spec fn message_text(message: Message<Seq<char>>) -> Seq<char> {
    match message {
        Message::Greeting => GREETING@,
        Message::PrivateOnly => "Эта команда доступна только в личных сообщениях."@,
        Message::Uploading => "Загрузка плагинов из директории plugins/..."@,
        Message::NoPluginDirectory =>
            "Директория plugins/ не найдена. Убедитесь, что бот запущен из корня проекта."@,
        Message::DirectoryUnreadable(e) => "Ошибка чтения директории: "@ + e,
        Message::UploadSummary(t) => t,
        Message::AssetNameMissing =>
            "Пожалуйста, укажите имя плагина. Пример: <code>/delete_asset ayugram</code>"@,
        Message::AssetDeleted(n) => "Плагин <b>"@ + n + "</b> успешно удалён."@,
        Message::AssetNotFound(n) => "Плагин <b>"@ + n + "</b> не найден."@,
        Message::DeleteFailed => "Произошла ошибка при удалении плагина."@,
        Message::TokenFailed => "Ошибка при создании API токена."@,
        Message::AssetsFailed => "Ошибка при загрузке плагинов."@,
        Message::NoAssets =>
            "Плагины ещё не загружены. Администратор должен выполнить /upload_assets."@,
        Message::Instruction(t) => INSTRUCTION_BEFORE_TOKEN@ + t + INSTRUCTION_AFTER_TOKEN@,
        Message::NewToken(t) => "<b>Ваш новый API токен:</b>\n\n<code>"@ + t
            + "</code>\n\nОбновите токен в настройках плагина."@,
        Message::InvalidId => "Пожалуйста, отправь корректный Telegram ID (только цифры)."@,
        Message::Found => "YES — this ID is registered in Telega."@,
        Message::NotFound => "NO — this ID was not found in Telega."@,
        Message::FoundInGroup => "✅ ДА — этот ID зарегистрирован в Telega."@,
        Message::NotFoundInGroup => "❌ НЕТ — этот ID не найден в Telega."@,
        Message::LookupFailed => "⚠️ Произошла ошибка при проверке. Попробуйте позже."@,
        Message::LookupFailedBriefly => "⚠️ Ошибка при проверке."@,
        Message::ScanReport(t) => t,
    }
}

/// Whether a message is marked up in HTML.
pub open spec fn message_is_html<S>(message: Message<S>) -> bool {
    ||| message is Greeting
    ||| message is AssetNameMissing
    ||| message is AssetDeleted
    ||| message is AssetNotFound
    ||| message is Instruction
    ||| message is NewToken
    ||| message is ScanReport
}

/// The button below a message.
pub open spec fn message_button<S>(message: Message<S>) -> Option<Button> {
    match message {
        Message::Greeting => Some(Button::GetPlugins),
        Message::Instruction(t) => Some(Button::ResetToken),
        Message::NewToken(t) => Some(Button::ResetToken),
        _ => None,
    }
}

impl Message<String> {
    /// The text of the message.
    pub fn text(&self) -> (text: String)
        ensures
            text@ == message_text(self@),
    {
        match self {
            Message::Greeting => GREETING.to_owned(),
            Message::PrivateOnly => "Эта команда доступна только в личных сообщениях.".to_owned(),
            Message::Uploading => "Загрузка плагинов из директории plugins/...".to_owned(),
            Message::NoPluginDirectory =>
                "Директория plugins/ не найдена. Убедитесь, что бот запущен из корня проекта.".to_owned(),
            Message::DirectoryUnreadable(e) => {
                let mut text = "Ошибка чтения директории: ".to_owned();
                text.append(e.as_str());
                text
            },
            Message::UploadSummary(t) => t.clone(),
            Message::AssetNameMissing =>
                "Пожалуйста, укажите имя плагина. Пример: <code>/delete_asset ayugram</code>".to_owned(),
            Message::AssetDeleted(n) => between("Плагин <b>", n, "</b> успешно удалён."),
            Message::AssetNotFound(n) => between("Плагин <b>", n, "</b> не найден."),
            Message::DeleteFailed => "Произошла ошибка при удалении плагина.".to_owned(),
            Message::TokenFailed => "Ошибка при создании API токена.".to_owned(),
            Message::AssetsFailed => "Ошибка при загрузке плагинов.".to_owned(),
            Message::NoAssets =>
                "Плагины ещё не загружены. Администратор должен выполнить /upload_assets.".to_owned(),
            Message::Instruction(t) => between(
                INSTRUCTION_BEFORE_TOKEN,
                t,
                INSTRUCTION_AFTER_TOKEN,
            ),
            Message::NewToken(t) => between(
                "<b>Ваш новый API токен:</b>\n\n<code>",
                t,
                "</code>\n\nОбновите токен в настройках плагина.",
            ),
            Message::InvalidId =>
                "Пожалуйста, отправь корректный Telegram ID (только цифры).".to_owned(),
            Message::Found => "YES — this ID is registered in Telega.".to_owned(),
            Message::NotFound => "NO — this ID was not found in Telega.".to_owned(),
            Message::FoundInGroup => "✅ ДА — этот ID зарегистрирован в Telega.".to_owned(),
            Message::NotFoundInGroup => "❌ НЕТ — этот ID не найден в Telega.".to_owned(),
            Message::LookupFailed =>
                "⚠️ Произошла ошибка при проверке. Попробуйте позже.".to_owned(),
            Message::LookupFailedBriefly => "⚠️ Ошибка при проверке.".to_owned(),
            Message::ScanReport(t) => t.clone(),
        }
    }

    /// Whether the message is marked up in HTML.
    pub fn is_html(&self) -> (html: bool)
        ensures
            html == message_is_html(*self),
    {
        match self {
            Message::Greeting => true,
            Message::AssetNameMissing => true,
            Message::AssetDeleted(_) => true,
            Message::AssetNotFound(_) => true,
            Message::Instruction(_) => true,
            Message::NewToken(_) => true,
            Message::ScanReport(_) => true,
            _ => false,
        }
    }

    /// The button below the message.
    pub fn button(&self) -> (button: Option<Button>)
        ensures
            button == message_button(*self),
    {
        match self {
            Message::Greeting => Some(Button::GetPlugins),
            Message::Instruction(_) => Some(Button::ResetToken),
            Message::NewToken(_) => Some(Button::ResetToken),
            _ => None,
        }
    }
}

/// What the press of the button for the plugins reports.
pub const GET_PLUGINS: &'static str = "get_plugins";

/// What the press of the button for a new token reports.
pub const RESET_TOKEN: &'static str = "reset_token";

impl Button {
    pub open spec fn label_text(self) -> Seq<char> {
        match self {
            Button::GetPlugins => "Скачать плагины и получить API ключ"@,
            Button::ResetToken => "Сбросить API токен"@,
        }
    }

    pub open spec fn data_text(self) -> Seq<char> {
        match self {
            Button::GetPlugins => GET_PLUGINS@,
            Button::ResetToken => RESET_TOKEN@,
        }
    }

    /// What is written on the button.
    pub fn label(self) -> (text: &'static str)
        ensures
            text@ == self.label_text(),
    {
        match self {
            Button::GetPlugins => "Скачать плагины и получить API ключ",
            Button::ResetToken => "Сбросить API токен",
        }
    }

    /// What a press of the button reports.
    pub fn data(self) -> (text: &'static str)
        ensures
            text@ == self.data_text(),
    {
        match self {
            Button::GetPlugins => GET_PLUGINS,
            Button::ResetToken => RESET_TOKEN,
        }
    }
}

}
