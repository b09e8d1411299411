//! Which handler a message reaches.
use crate::bot_handler::ChatKind;
use crate::dispatch::{from_administrator, route_of, AdminCommand, Incoming, Route, UserCommand};
use vstd::prelude::*;

verus! {

/// A command for anyone reaches its handler from whoever gives it, in whatever
/// chat and with whatever else the message holds.
pub proof fn law_commands_come_first(
    message: Incoming<Seq<char>>,
    command: UserCommand,
    admin_id: i64,
)
    requires
        message.user_command == Some(command),
    ensures
        route_of(message, admin_id) == Route::Command(command),
{
}

/// A command of the administrator's comes next, whatever else the message holds.
pub proof fn law_administrators_commands_come_next(
    message: Incoming<Seq<char>>,
    command: AdminCommand,
    admin_id: i64,
)
    requires
        message.user_command is None,
        message.admin_command == Some(command),
        message.from is Some,
        message.from->0.id == admin_id as u64,
    ensures
        route_of(message, admin_id) == Route::Administration(command),
{
}

/// Without a command, a message that says that members joined goes to those who
/// join; else one that says that a member left to those who leave; in any chat.
pub proof fn law_notices_come_before_texts(message: Incoming<Seq<char>>, admin_id: i64)
    requires
        message.user_command is None,
        message.admin_command is None || !from_administrator(message.from, admin_id),
    ensures
        message.members_joined ==> route_of(message, admin_id) == Route::NewChatMembers,
        !message.members_joined && message.member_left ==> route_of(message, admin_id)
            == Route::LeftChatMember,
{
}

/// A message that gives no command and no notice goes by its chat: in a private
/// chat to the lookups there, in a group or supergroup to the lookups by mention
/// if its text begins with `@` and to the tracking of its sender if not, and in a
/// channel nowhere.
pub proof fn law_texts_go_by_their_chat(message: Incoming<Seq<char>>, admin_id: i64)
    requires
        message.user_command is None,
        message.admin_command is None || !from_administrator(message.from, admin_id),
        !message.members_joined,
        !message.member_left,
    ensures
        ({
            let at = message.text is Some && message.text->0.len() > 0 && message.text->0[0] == '@';
            let route = route_of(message, admin_id);
            match message.chat {
                ChatKind::Private => route == Route::PrivateMessage,
                ChatKind::Group => route == if at {
                    Route::MentionLookup
                } else {
                    Route::GroupMessage
                },
                ChatKind::Supergroup => route == if at {
                    Route::MentionLookup
                } else {
                    Route::GroupMessage
                },
                ChatKind::Channel => route == Route::Unhandled,
            }
        }),
{
    reveal_strlit("@");
    if let Some(text) = message.text {
        if "@"@.is_prefix_of(text) {
            assert(text[0] == text.subrange(0, 1)[0]);
        }
        if text.len() > 0 && text[0] == '@' {
            assert("@"@ =~= text.subrange(0, 1));
        }
    }
}

/// The administrator is told by the whole ID: no one with another ID is taken for
/// them, and a message that nobody sent is not from them.
pub proof fn law_one_administrator(message: Incoming<Seq<char>>, admin_id: i64)
    ensures
        from_administrator(message.from, admin_id) <==> message.from is Some
            && message.from->0.id == admin_id as u64,
{
}

}
