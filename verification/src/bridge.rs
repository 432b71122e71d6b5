//! The way from the network client to the application state: a mailbox in
//! which the events wait in the order in which they came, and from which
//! they are taken one at a time.

use crate::conversation_list::{ConversationList, ListModel};
use crate::laws::run;
use crate::network::{Event, EventModel};
use crate::notice::{Notice, NoticeModel};
use std::collections::VecDeque;
use vstd::prelude::*;

verus! {

/// What an event handler holds, apart from all subscribers: the list, and
/// the events that wait, oldest first.
pub struct HandlerModel {
    pub list: ListModel,
    pub mailbox: Seq<EventModel>,
}

impl HandlerModel {
    /// The handler with one more event waiting, behind the others.
    pub open spec fn post(self, event: EventModel) -> HandlerModel {
        HandlerModel { mailbox: self.mailbox.push(event), ..self }
    }

    /// The handler with more events waiting, behind the others.
    pub open spec fn post_all(self, events: Seq<EventModel>) -> HandlerModel {
        HandlerModel { mailbox: self.mailbox + events, ..self }
    }

    /// The handler after one look into the mailbox: the oldest event, if
    /// there is one, was taken out and taken note of.
    pub open spec fn poll(self) -> HandlerModel {
        if self.mailbox.len() == 0 {
            self
        } else {
            HandlerModel {
                list: self.list.step(self.mailbox.first()),
                mailbox: self.mailbox.drop_first(),
            }
        }
    }

    /// What subscribers are told after one look into the mailbox, if an
    /// event was found there.
    pub open spec fn poll_notices(self) -> Option<Seq<NoticeModel>> {
        if self.mailbox.len() == 0 {
            None
        } else {
            Some(self.list.notices(self.mailbox.first()))
        }
    }

    /// The handler after `times` looks into the mailbox.
    pub open spec fn poll_times(self, times: nat) -> HandlerModel
        decreases times,
    {
        if times == 0 {
            self
        } else {
            self.poll().poll_times((times - 1) as nat)
        }
    }
}

/// Taking note of events one after the other is the same as taking note of
/// the first and then of the others.
pub proof fn lemma_run_first(list: ListModel, events: Seq<EventModel>)
    requires
        events.len() > 0,
    ensures
        run(list, events) == run(list.step(events.first()), events.drop_first()),
    decreases events.len(),
{
    if events.len() == 1 {
        assert(run(list, Seq::<EventModel>::empty()) == list);
        assert(run(list.step(events.first()), Seq::<EventModel>::empty()) == list.step(
            events.first(),
        ));
    } else {
        lemma_run_first(list, events.drop_last());
        assert(events.drop_last().drop_first() =~= events.drop_first().drop_last());
    }
}

/// Events are taken note of in the order in which they came, one for each
/// look into the mailbox: after as many looks as events wait, the list is
/// as if the events had reached it directly, oldest first, and the mailbox
/// is empty.
pub proof fn lemma_first_in_first_out(handler: HandlerModel)
    ensures
        handler.poll_times(handler.mailbox.len()).list == run(handler.list, handler.mailbox),
        handler.poll_times(handler.mailbox.len()).mailbox == Seq::<EventModel>::empty(),
    decreases handler.mailbox.len(),
{
    if handler.mailbox.len() > 0 {
        lemma_first_in_first_out(handler.poll());
        lemma_run_first(handler.list, handler.mailbox);
    }
}

/// Receives what the network client reports and hands it to the
/// conversation list, one event at a time.
pub struct EventHandler<O> {
    conversations: ConversationList<O>,
    mailbox: VecDeque<Event>,
}

impl<O> View for EventHandler<O> {
    type V = HandlerModel;

    closed spec fn view(&self) -> HandlerModel {
        HandlerModel { list: self.conversations@, mailbox: self.mailbox.deep_view() }
    }
}

impl<O> EventHandler<O> {
    /// The conversation list, with all its subscribers.
    pub closed spec fn list(&self) -> ConversationList<O> {
        self.conversations
    }

    /// The view of a handler shows its list.
    pub proof fn lemma_list(&self)
        ensures
            self@.list == self.list()@,
    {
    }

    /// A handler for `conversations` with an empty mailbox.
    pub fn new(conversations: ConversationList<O>) -> (handler: EventHandler<O>)
        ensures
            handler@ == (HandlerModel { list: conversations@, mailbox: Seq::empty() }),
            handler.list() == conversations,
    {
        let handler = EventHandler { conversations, mailbox: VecDeque::new() };
        assert(handler@.mailbox =~= Seq::<EventModel>::empty());
        handler
    }

    pub fn conversations(&self) -> (conversations: &ConversationList<O>)
        ensures
            *conversations == self.list(),
    {
        &self.conversations
    }

    /// The conversation list, to change it on behalf of the user.
    pub fn conversations_mut(&mut self) -> (conversations: &mut ConversationList<O>)
        ensures
            *conversations == old(self).list(),
            final(self).list() == *final(conversations),
            final(self)@.mailbox == old(self)@.mailbox,
    {
        &mut self.conversations
    }

    /// The number of events that wait.
    pub fn pending(&self) -> (pending: usize)
        ensures
            pending == self@.mailbox.len(),
    {
        self.mailbox.len()
    }

    /// Hands `event` to the conversation list at once, past the mailbox,
    /// and says what subscribers are to be told, in order.
    pub fn handle_event(&mut self, event: Event) -> (notices: Vec<Notice>)
        ensures
            final(self)@.list == old(self)@.list.step(event@),
            final(self)@.mailbox == old(self)@.mailbox,
            notices.deep_view() == old(self)@.list.notices(event@),
            final(self).list().keeps_subscribers(&old(self).list()),
    {
        self.conversations.handle_event(event)
    }

    /// Puts `event` into the mailbox, behind those that wait already.
    pub fn post(&mut self, event: Event)
        ensures
            final(self)@ == old(self)@.post(event@),
            final(self).list() == old(self).list(),
    {
        self.mailbox.push_back(event);
        assert(self@.mailbox =~= old(self)@.mailbox.push(event@));
    }

    /// Looks into the mailbox once, without waiting. If an event is there,
    /// the oldest one is taken out and handed to the conversation list, and
    /// the result is what subscribers are to be told, in order. If none is
    /// there, nothing happens.
    pub fn poll(&mut self) -> (notices: Option<Vec<Notice>>)
        ensures
            final(self)@ == old(self)@.poll(),
            match notices {
                Some(notices) => old(self)@.poll_notices() == Some(notices.deep_view()),
                None => old(self)@.poll_notices() is None,
            },
            final(self).list().keeps_subscribers(&old(self).list()),
    {
        match self.mailbox.pop_front() {
            Some(event) => {
                assert(self@.mailbox =~= old(self)@.mailbox.drop_first());
                Some(self.conversations.handle_event(event))
            },
            None => {
                proof {
                    self.list().lemma_keeps_own_subscribers();
                }
                None
            },
        }
    }
}

} // verus!
