//! What holds of the application state whatever happens to it.

use crate::address::Address;
use crate::connection::{may_follow, ConnectionModel, ConnectionState};
use crate::conversation::{unacknowledged, ConversationModel};
use crate::conversation_list::{incoming, ListModel};
use crate::message::{MessageDirection, MessageModel};
use crate::network::{EventModel, TaskModel, TextMessageModel};
use crate::notice::ConversationNoticeModel;
use vstd::prelude::*;

verus! {

/// The list after the texts have come in one after the other.
pub open spec fn receive_texts(list: ListModel, texts: Seq<TextMessageModel>) -> ListModel
    decreases texts.len(),
{
    if texts.len() == 0 {
        list
    } else {
        receive_texts(list, texts.drop_last()).receive_text(texts.last())
    }
}

/// The list after the events were taken note of one after the other.
pub open spec fn run(list: ListModel, events: Seq<EventModel>) -> ListModel
    decreases events.len(),
{
    if events.len() == 0 {
        list
    } else {
        run(list, events.drop_last()).step(events.last())
    }
}

/// At most one conversation of the list is with `peer`.
pub open spec fn at_most_one_with(list: ListModel, peer: Address) -> bool {
    forall|i: int, j: int|
        0 <= i < list.conversations.len() && 0 <= j < list.conversations.len() && (
        #[trigger] list.conversations[i]).recipient == Some(peer) && (
        #[trigger] list.conversations[j]).recipient == Some(peer) ==> i == j
}

/// Exactly one conversation of the list is with `peer`.
pub open spec fn exactly_one_with(list: ListModel, peer: Address) -> bool {
    list.knows(peer) && at_most_one_with(list, peer)
}

/// What was said so far in the first conversation with `peer`: nothing if
/// there is no such conversation.
pub open spec fn history_with(list: ListModel, peer: Address) -> Seq<MessageModel> {
    if list.knows(peer) {
        list.conversations[list.first_with(peer)].messages
    } else {
        Seq::empty()
    }
}

proof fn lemma_first_from(list: ListModel, peer: Address, from: int, at: int)
    requires
        0 <= from <= at < list.conversations.len(),
        list.conversations[at].recipient == Some(peer),
        forall|j: int| 0 <= j < from ==> (#[trigger] list.conversations[j]).recipient != Some(peer),
    ensures
        exists|i: int| list.is_first_with(peer, i),
    decreases at - from,
{
    if list.conversations[from].recipient == Some(peer) {
        assert(list.is_first_with(peer, from));
    } else {
        lemma_first_from(list, peer, from + 1, at);
    }
}

/// Among the conversations with a peer there is a first one.
pub proof fn lemma_first_with(list: ListModel, peer: Address)
    requires
        list.knows(peer),
    ensures
        list.is_first_with(peer, list.first_with(peer)),
{
    let at = choose|i: int|
        0 <= i < list.conversations.len() && (#[trigger] list.conversations[i]).recipient == Some(
            peer,
        );
    lemma_first_from(list, peer, 0, at);
}

/// A text leaves every conversation with the peer it is with, adds a
/// conversation only for a sender that has none, and stands afterwards at
/// the end of the first conversation with its sender.
pub proof fn lemma_receive_text(list: ListModel, text: TextMessageModel)
    requires
        at_most_one_with(list, text.sender),
    ensures
        exactly_one_with(list.receive_text(text), text.sender),
        history_with(list.receive_text(text), text.sender) == history_with(list, text.sender).push(
            incoming(text),
        ),
        list.one_conversation_each() ==> list.receive_text(text).one_conversation_each(),
{
    let sender = text.sender;
    let after = list.receive_text(text);
    if list.knows(sender) {
        // The text goes to the first conversation with its sender, and
        // every conversation stays with whom it was with.
        lemma_first_with(list, sender);
        let i = list.first_with(sender);
        assert(after.conversations[i].recipient == Some(sender));
        assert forall|j: int| 0 <= j < after.conversations.len() implies (
        #[trigger] after.conversations[j]).recipient == list.conversations[j].recipient by {}
        lemma_first_with(after, sender);
        assert(at_most_one_with(after, sender));
        if list.one_conversation_each() {
            assert(after.one_conversation_each());
        }
    } else {
        // The text opens a conversation in front of the others, none of
        // which is with its sender.
        assert forall|j: int| 1 <= j < after.conversations.len() implies (
        #[trigger] after.conversations[j]) == list.conversations[j - 1] by {}
        lemma_first_with(after, sender);
        assert(after.conversations[0].messages =~= Seq::<MessageModel>::empty().push(
            incoming(text),
        ));
        assert(at_most_one_with(after, sender));
        if list.one_conversation_each() {
            assert forall|a: int, b: int|
                0 <= a < after.conversations.len() && 0 <= b < after.conversations.len() && (
                #[trigger] after.conversations[a]).recipient is Some
                    && after.conversations[a].recipient == (
                #[trigger] after.conversations[b]).recipient implies a == b by {
                if a > 0 && b > 0 {
                    assert(list.conversations[a - 1].recipient == list.conversations[b
                        - 1].recipient);
                }
            }
        }
    }
}

/// After any number of texts from one sender, at least one, exactly one
/// conversation is with that sender, and it holds what it held before,
/// followed by all those texts in the order in which they came.
///
/// This supposes that the list did not hold two conversations with the
/// sender to begin with.
pub proof fn lemma_texts_of_one_sender(list: ListModel, texts: Seq<TextMessageModel>, sender: Address)
    requires
        texts.len() > 0,
        forall|i: int| 0 <= i < texts.len() ==> (#[trigger] texts[i]).sender == sender,
        at_most_one_with(list, sender),
    ensures
        exactly_one_with(receive_texts(list, texts), sender),
        history_with(receive_texts(list, texts), sender) == history_with(list, sender)
            + texts.map_values(|text: TextMessageModel| incoming(text)),
    decreases texts.len(),
{
    let earlier = texts.drop_last();
    let last = texts.last();
    let kept = |text: TextMessageModel| incoming(text);
    if earlier.len() == 0 {
        lemma_receive_text(list, last);
        assert(history_with(list, sender).push(incoming(last)) =~= history_with(list, sender)
            + texts.map_values(kept));
    } else {
        lemma_texts_of_one_sender(list, earlier, sender);
        let before = receive_texts(list, earlier);
        lemma_receive_text(before, last);
        assert((history_with(list, sender) + earlier.map_values(kept)).push(incoming(last))
            =~= history_with(list, sender) + texts.map_values(kept));
    }
}

/// Whether `later` is what `earlier` can become by what the network client
/// reports: it is with the same peer, and it holds every message that
/// `earlier` holds, at the same place and with the same identity, text and
/// direction. A message that was acknowledged is so still.
pub open spec fn grown_from(later: ConversationModel, earlier: ConversationModel) -> bool {
    &&& later.recipient == earlier.recipient
    &&& later.pending_message == earlier.pending_message
    &&& earlier.messages.len() <= later.messages.len()
    &&& forall|p: int|
        0 <= p < earlier.messages.len() ==> {
            let before = #[trigger] earlier.messages[p];
            let after = later.messages[p];
            &&& after.id == before.id
            &&& after.text == before.text
            &&& after.direction == before.direction
            &&& before.acknowledged ==> after.acknowledged
        }
}

/// Conversations are never lost, histories only grow at the end, and an
/// acknowledgement is never taken back, whatever the network client
/// reports. The number of older conversations names a conversation for
/// good: going from a position to that number and back gives the position,
/// and after the report the number leads to what the conversation has
/// become.
pub proof fn lemma_conversations_only_grow(list: ListModel, position: int, event: EventModel)
    requires
        0 <= position < list.conversations.len(),
    ensures
        list.mirror(list.mirror(position)->0) == Some(position),
        list.step(event).mirror(list.mirror(position)->0) is Some,
        grown_from(
            list.step(event).conversations[list.step(event).mirror(list.mirror(position)->0)->0],
            list.conversations[position],
        ),
{
    match event {
        EventModel::ReceivedTextMessage(text) => {
            if list.knows(text.sender) {
                lemma_first_with(list, text.sender);
            }
        },
        _ => {},
    }
}

/// A list in which no two conversations are with the same peer stays so
/// whatever the network client reports.
pub proof fn lemma_one_conversation_each(list: ListModel, event: EventModel)
    requires
        list.one_conversation_each(),
    ensures
        list.step(event).one_conversation_each(),
{
    match event {
        EventModel::ReceivedTextMessage(text) => {
            lemma_receive_text(list, text);
        },
        EventModel::ReceivedMessageAcknowledgement(_) => {
            // An acknowledgement leaves every conversation with whom it
            // was with.
            assert(list.step(event).one_conversation_each());
        },
        _ => {},
    }
}

/// A connection changes its state only along the cycle stopped, starting,
/// running, stopping, stopped: whatever is done to it, it stays where it is
/// or moves one step on. A request to shut down moves a running connection
/// only.
pub proof fn lemma_connection_life_cycle(connection: ConnectionModel, identity: Address, task: TaskModel)
    ensures
        may_follow(connection.state, connection.start(identity).state),
        may_follow(connection.state, connection.shutdown().state),
        may_follow(connection.state, connection.handle_started().state),
        may_follow(connection.state, connection.handle_shutdown().state),
        connection.submit(task).state == connection.state,
        connection.drain().state == connection.state,
        connection.state != ConnectionState::Running ==> connection.shutdown() == connection,
        connection.state != ConnectionState::Stopped ==> connection.start(identity) == connection,
        connection.state != ConnectionState::Starting ==> connection.handle_started() == connection,
        connection.state != ConnectionState::Stopping ==> connection.handle_shutdown()
            == connection,
{
}

/// The address and the command channel of a connection are there exactly
/// while it is not stopped, whatever is done to it.
pub proof fn lemma_connection_stays_wf(connection: ConnectionModel, identity: Address, task: TaskModel)
    requires
        connection.wf(),
    ensures
        ConnectionModel::stopped().wf(),
        connection.start(identity).wf(),
        connection.shutdown().wf(),
        connection.handle_started().wf(),
        connection.handle_shutdown().wf(),
        connection.submit(task).wf(),
        connection.drain().wf(),
{
}

/// Whatever the network client reports, the connection stays in its state
/// or moves one step on along its cycle.
pub proof fn lemma_events_follow_life_cycle(list: ListModel, event: EventModel)
    ensures
        may_follow(list.connection.state, list.step(event).connection.state),
{
}

/// Sending without a recipient changes nothing and tells nobody anything.
/// Sending with one empties the draft, adds exactly one message to the
/// history, sent and not acknowledged, and tells the subscribers exactly
/// once that a message was sent.
pub proof fn lemma_send_message(conversation: ConversationModel, id: Address)
    ensures
        conversation.recipient is None ==> {
            &&& conversation.send_message(id) == conversation
            &&& conversation.send_notices().len() == 0
        },
        conversation.recipient is Some ==> {
            let after = conversation.send_message(id);
            let notices = conversation.send_notices();
            &&& after.pending_message.len() == 0
            &&& after.recipient == conversation.recipient
            &&& after.messages.len() == conversation.messages.len() + 1
            &&& after.messages.drop_last() == conversation.messages
            &&& after.messages.last().id == id
            &&& after.messages.last().text == conversation.pending_message
            &&& after.messages.last().direction == MessageDirection::Sent
            &&& !after.messages.last().acknowledged
            &&& notices.len() == 2
            &&& notices[0] == ConversationNoticeModel::PendingMessageChanged(Seq::empty())
            &&& notices[1] == ConversationNoticeModel::MessageSent(
                conversation.messages.len() as int,
            )
        },
{
}

/// When a draft was sent and the acknowledgement of its identity comes in,
/// the message stands acknowledged at the end of its conversation, and the
/// subscribers of that message are among those to be told, unless the
/// identity was acknowledged before.
pub proof fn lemma_sent_then_acknowledged(list: ListModel, index: int, id: Address)
    requires
        0 <= index < list.conversations.len(),
        list.conversations[index].recipient is Some,
    ensures
        ({
            let sent = list.send_message(index, id);
            let after = sent.acknowledge(id);
            let history = after.conversations[index].messages;
            &&& history.len() == list.conversations[index].messages.len() + 1
            &&& history.last().id == id
            &&& history.last().text == list.conversations[index].pending_message
            &&& history.last().direction == MessageDirection::Sent
            &&& history.last().acknowledged
            &&& unacknowledged(sent.conversations[index].messages, id).len() > 0
            &&& unacknowledged(sent.conversations[index].messages, id).last() == history.len() - 1
        }),
{
    let sent = list.send_message(index, id);
    assert(sent.conversations[index].messages.last() == list.conversations[index].sent(id));
}

/// An acknowledgement changes nothing in a conversation that holds no
/// message of its identity, and there is nothing to tell of such a
/// conversation.
pub proof fn lemma_acknowledgement_elsewhere(conversation: ConversationModel, id: Address)
    requires
        forall|i: int|
            0 <= i < conversation.messages.len() ==> (#[trigger] conversation.messages[i]).id != id,
    ensures
        conversation.acknowledge(id) == conversation,
        unacknowledged(conversation.messages, id) == Seq::<int>::empty(),
    decreases conversation.messages.len(),
{
    assert(conversation.acknowledge(id).messages =~= conversation.messages);
    if conversation.messages.len() > 0 {
        let shorter = ConversationModel { messages: conversation.messages.drop_last(), ..conversation };
        lemma_acknowledgement_elsewhere(shorter, id);
    }
}

/// A second acknowledgement of the same identity changes nothing in a
/// conversation and leaves nothing to tell.
pub proof fn lemma_acknowledged_twice(conversation: ConversationModel, id: Address)
    ensures
        conversation.acknowledge(id).acknowledge(id) == conversation.acknowledge(id),
        unacknowledged(conversation.acknowledge(id).messages, id) == Seq::<int>::empty(),
    decreases conversation.messages.len(),
{
    let once = conversation.acknowledge(id);
    assert(once.acknowledge(id).messages =~= once.messages);
    if conversation.messages.len() > 0 {
        let shorter = ConversationModel { messages: conversation.messages.drop_last(), ..conversation };
        lemma_acknowledged_twice(shorter, id);
        assert(shorter.acknowledge(id).messages =~= once.messages.drop_last());
    }
}

} // verus!
