//! What subscribers are told: one value for each change of the application
//! state that they may want to hear of.

use crate::address::Address;
use vstd::prelude::*;

verus! {

/// What the subscribers of a message are told.
#[derive(Clone, Copy, Debug, PartialEq, Eq)]
pub enum MessageNotice {
    /// The message has been acknowledged by its recipient.
    Acknowledged,
}

/// What the subscribers of a connection are told.
#[derive(Clone, Copy, Debug, PartialEq, Eq)]
pub enum ConnectionNotice {
    /// The connection is running, under the given address.
    Started(Address),
    /// The connection has come to a full stop.
    Shutdown,
}

/// What the subscribers of a conversation are told. A message is named by
/// its position in the conversation's history.
#[derive(Clone, Debug, PartialEq, Eq)]
pub enum ConversationNotice {
    RecipientChanged(Option<Address>),
    PendingMessageChanged(String),
    MessageReceived(usize),
    MessageSent(usize),
}

/// What a `ConversationNotice` holds.
pub enum ConversationNoticeModel {
    RecipientChanged(Option<Address>),
    PendingMessageChanged(Seq<char>),
    MessageReceived(int),
    MessageSent(int),
}

impl View for ConversationNotice {
    type V = ConversationNoticeModel;

    open spec fn view(&self) -> ConversationNoticeModel {
        match *self {
            ConversationNotice::RecipientChanged(recipient) => {
                ConversationNoticeModel::RecipientChanged(recipient)
            },
            ConversationNotice::PendingMessageChanged(text) => {
                ConversationNoticeModel::PendingMessageChanged(text@)
            },
            ConversationNotice::MessageReceived(position) => {
                ConversationNoticeModel::MessageReceived(position as int)
            },
            ConversationNotice::MessageSent(position) => ConversationNoticeModel::MessageSent(
                position as int,
            ),
        }
    }
}

impl DeepView for ConversationNotice {
    type V = ConversationNoticeModel;

    open spec fn deep_view(&self) -> ConversationNoticeModel {
        self@
    }
}

/// What the subscribers of a conversation list are told. A conversation is
/// named by its position in the list.
#[derive(Clone, Copy, Debug, PartialEq, Eq)]
pub enum ConversationListNotice {
    ConversationAdded(usize),
    ConversationSelected(usize),
}

/// A notice together with the part of the application state whose
/// subscribers it is for. Positions are those in the list, and in the
/// conversation's history, as the call that gave the notice left them.
#[derive(Clone, Debug, PartialEq, Eq)]
#[allow(inconsistent_fields)]
pub enum Notice {
    Connection(ConnectionNotice),
    List(ConversationListNotice),
    Conversation { conversation: usize, notice: ConversationNotice },
    Message { conversation: usize, message: usize, notice: MessageNotice },
}

/// What a `Notice` holds.
#[allow(inconsistent_fields)]
pub enum NoticeModel {
    Connection(ConnectionNotice),
    List(ConversationListNotice),
    Conversation { conversation: int, notice: ConversationNoticeModel },
    Message { conversation: int, message: int, notice: MessageNotice },
}

impl View for Notice {
    type V = NoticeModel;

    open spec fn view(&self) -> NoticeModel {
        match *self {
            Notice::Connection(notice) => NoticeModel::Connection(notice),
            Notice::List(notice) => NoticeModel::List(notice),
            Notice::Conversation { conversation, notice } => NoticeModel::Conversation {
                conversation: conversation as int,
                notice: notice@,
            },
            Notice::Message { conversation, message, notice } => NoticeModel::Message {
                conversation: conversation as int,
                message: message as int,
                notice,
            },
        }
    }
}

impl DeepView for Notice {
    type V = NoticeModel;

    open spec fn deep_view(&self) -> NoticeModel {
        self@
    }
}

} // verus!
