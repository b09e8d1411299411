//! Which handler an incoming message goes to.
use crate::bot_handler::{account_id, is_group_chat, is_private_chat, ChatKind, User};
use crate::text::begins_with;
use vstd::prelude::*;

verus! {

/// The commands that anyone may give.
#[derive(Clone, Copy, Debug, PartialEq, Eq, Structural)]
pub enum UserCommand {
    /// Start the bot / show help
    Start,
    /// Download plugins and get API key
    Plugins,
}

/// The commands that only the administrator may give.
#[derive(Clone, Copy, Debug, PartialEq, Eq, Structural)]
pub enum AdminCommand {
    /// Upload plugin assets (admin only)
    UploadAssets,
    /// Delete a plugin asset (admin only)
    DeleteAsset,
}

/// What the routing of a message depends on. `S` is a text.
#[derive(Debug)]
pub struct Incoming<S> {
    /// The command that the message gives, if it is one for anyone.
    pub user_command: Option<UserCommand>,
    /// The command that the message gives, if it is one for the administrator.
    pub admin_command: Option<AdminCommand>,
    pub from: Option<User>,
    /// Whether the message says that members joined the chat.
    pub members_joined: bool,
    /// Whether the message says that a member left the chat.
    pub member_left: bool,
    pub chat: ChatKind,
    pub text: Option<S>,
}

impl View for Incoming<String> {
    type V = Incoming<Seq<char>>;

    open spec fn view(&self) -> Incoming<Seq<char>> {
        Incoming {
            user_command: self.user_command,
            admin_command: self.admin_command,
            from: self.from,
            members_joined: self.members_joined,
            member_left: self.member_left,
            chat: self.chat,
            text: match self.text {
                Some(t) => Some(t@),
                None => None,
            },
        }
    }
}

/// Where a message goes.
#[derive(Clone, Copy, Debug, PartialEq, Eq, Structural)]
pub enum Route {
    Command(UserCommand),
    Administration(AdminCommand),
    NewChatMembers,
    LeftChatMember,
    MentionLookup,
    GroupMessage,
    PrivateMessage,
    /// No handler wants the message.
    Unhandled,
}

/// Whether the administrator sent a message.
pub open spec fn from_administrator(from: Option<User>, admin_id: i64) -> bool {
    from matches Some(user) && user.id == admin_id as u64
}

/// Whether the administrator sent a message.
pub fn is_from_administrator(from: Option<User>, admin_id: i64) -> (b: bool)
    ensures
        b == from_administrator(from, admin_id),
{
    match from {
        Some(user) => user.id == admin_id as u64,
        None => false,
    }
}

/// Whether a chat is a group or a supergroup.
pub open spec fn in_group(chat: ChatKind) -> bool {
    chat == ChatKind::Group || chat == ChatKind::Supergroup
}

/// Whether a message in a group begins with a mention.
pub open spec fn mentions(message: Incoming<Seq<char>>) -> bool {
    in_group(message.chat) && (message.text matches Some(text) && "@"@.is_prefix_of(text))
}

/// Where a message goes: to the first of the handlers that wants it.
pub open spec fn route_of(message: Incoming<Seq<char>>, admin_id: i64) -> Route {
    if message.user_command is Some {
        Route::Command(message.user_command->0)
    } else if message.admin_command is Some && from_administrator(message.from, admin_id) {
        Route::Administration(message.admin_command->0)
    } else if message.members_joined {
        Route::NewChatMembers
    } else if message.member_left {
        Route::LeftChatMember
    } else if mentions(message) {
        Route::MentionLookup
    } else if in_group(message.chat) {
        Route::GroupMessage
    } else if message.chat == ChatKind::Private {
        Route::PrivateMessage
    } else {
        Route::Unhandled
    }
}

/// Finds the handler for a message.
pub fn route(message: &Incoming<String>, admin_id: i64) -> (route: Route)
    ensures
        route == route_of(message@, admin_id),
{
    if let Some(command) = message.user_command {
        return Route::Command(command);
    }
    if let Some(command) = message.admin_command {
        if is_from_administrator(message.from, admin_id) {
            return Route::Administration(command);
        }
    }
    if message.members_joined {
        return Route::NewChatMembers;
    }
    if message.member_left {
        return Route::LeftChatMember;
    }
    if is_group_chat(message.chat) {
        if let Some(text) = &message.text {
            if begins_with(text.as_str(), "@") {
                return Route::MentionLookup;
            }
        }
        return Route::GroupMessage;
    }
    if is_private_chat(message.chat) {
        return Route::PrivateMessage;
    }
    Route::Unhandled
}

/// An administrator's command reaches its handler only from the administrator,
/// and there it is taken for the administrator's too: both tell the administrator
/// by the same ID.
pub proof fn law_administration_is_for_the_administrator(
    message: Incoming<Seq<char>>,
    admin_id: i64,
)
    ensures
        route_of(message, admin_id) is Administration ==> (message.from matches Some(user)
            && account_id(user) == admin_id),
        (message.from matches Some(user) && account_id(user) == admin_id)
            && message.admin_command is Some && message.user_command is None ==> route_of(
            message,
            admin_id,
        ) == Route::Administration(message.admin_command->0),
{
    if let Some(user) = message.from {
        let id = user.id;
        assert(id == admin_id as u64 <==> id as i64 == admin_id) by (bit_vector);
    }
}

/// A message that anyone else sends with an administrator's command is treated
/// as if it gave no command.
pub proof fn law_others_give_no_administrators_command(
    message: Incoming<Seq<char>>,
    admin_id: i64,
)
    requires
        !from_administrator(message.from, admin_id),
    ensures
        route_of(message, admin_id) == route_of(
            (Incoming { admin_command: None::<AdminCommand>, ..message }),
            admin_id,
        ),
{
}

/// IDs are looked up for a message in a private chat, or for one in a group that
/// begins with a mention; any other message in a group only tells that its sender
/// is there.
pub proof fn law_lookups_are_asked_for(message: Incoming<Seq<char>>, admin_id: i64)
    ensures
        route_of(message, admin_id) == Route::PrivateMessage ==> message.chat
            == ChatKind::Private,
        route_of(message, admin_id) == Route::MentionLookup ==> mentions(message),
        route_of(message, admin_id) == Route::GroupMessage ==> in_group(message.chat)
            && !mentions(message),
        route_of(message, admin_id) == Route::Unhandled ==> message.chat == ChatKind::Channel,
{
}

}
