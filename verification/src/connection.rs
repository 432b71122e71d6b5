//! The link to the network client and its life cycle.

use crate::address::Address;
use crate::configuration::{text_of, Configuration, ConfigurationError};
use crate::network::{Task, TaskModel};
use crate::notice::ConnectionNotice;
use crate::registry::{Observable, ObserverSet};
use vstd::prelude::*;

verus! {

/// Where a connection stands in its life cycle.
#[derive(Clone, Copy, Debug, PartialEq, Eq, Structural)]
pub enum ConnectionState {
    Running,
    Starting,
    Stopped,
    Stopping,
}

/// What the user asks for by pressing the button that connects and
/// disconnects.
#[derive(Clone, Copy, Debug, PartialEq, Eq, Structural)]
pub enum Toggle {
    Connect,
    Disconnect,
}

impl ConnectionState {
    /// What pressing the button asks for in this state: to connect when
    /// stopped, to disconnect when running, and nothing while the connection
    /// is on its way from one to the other.
    pub fn toggle(&self) -> (toggle: Option<Toggle>)
        ensures
            toggle == match *self {
                ConnectionState::Stopped => Some(Toggle::Connect),
                ConnectionState::Running => Some(Toggle::Disconnect),
                _ => None::<Toggle>,
            },
    {
        match self {
            ConnectionState::Stopped => Some(Toggle::Connect),
            ConnectionState::Running => Some(Toggle::Disconnect),
            _ => None,
        }
    }
}

/// The state that comes after `state` in the life cycle:
/// stopped, starting, running, stopping, and stopped again.
pub open spec fn successor(state: ConnectionState) -> ConnectionState {
    match state {
        ConnectionState::Stopped => ConnectionState::Starting,
        ConnectionState::Starting => ConnectionState::Running,
        ConnectionState::Running => ConnectionState::Stopping,
        ConnectionState::Stopping => ConnectionState::Stopped,
    }
}

/// A connection may stay in its state or move on to the next one.
pub open spec fn may_follow(before: ConnectionState, after: ConnectionState) -> bool {
    after == before || after == successor(before)
}

/// What a connection holds, apart from its subscribers. The commands are
/// those that wait to be handed to the network client, oldest first; there
/// are none to speak of while there is no client.
pub struct ConnectionModel {
    pub state: ConnectionState,
    pub self_address: Option<Address>,
    pub commands: Option<Seq<TaskModel>>,
}

impl ConnectionModel {
    /// The address and the command channel are there exactly while the
    /// connection is not stopped.
    pub open spec fn wf(self) -> bool {
        &&& (self.state == ConnectionState::Stopped) == (self.self_address is None)
        &&& (self.state == ConnectionState::Stopped) == (self.commands is None)
    }

    /// The connection before it was ever started.
    pub open spec fn stopped() -> ConnectionModel {
        ConnectionModel { state: ConnectionState::Stopped, self_address: None, commands: None }
    }

    /// A stopped connection after it was started under `identity`.
    pub open spec fn start(self, identity: Address) -> ConnectionModel {
        if self.state == ConnectionState::Stopped {
            ConnectionModel {
                state: ConnectionState::Starting,
                self_address: Some(identity),
                commands: Some(Seq::empty()),
            }
        } else {
            self
        }
    }

    /// The connection with one more command waiting, if there is a channel.
    pub open spec fn submit(self, task: TaskModel) -> ConnectionModel {
        match self.commands {
            Some(commands) => ConnectionModel { commands: Some(commands.push(task)), ..self },
            None => self,
        }
    }

    /// The connection after the user asked to disconnect: only a running
    /// connection takes notice.
    pub open spec fn shutdown(self) -> ConnectionModel {
        if self.state == ConnectionState::Running {
            ConnectionModel { state: ConnectionState::Stopping, ..self.submit(TaskModel::Shutdown) }
        } else {
            self
        }
    }

    /// The connection after the client reported that it has started.
    pub open spec fn handle_started(self) -> ConnectionModel {
        if self.state == ConnectionState::Starting {
            ConnectionModel { state: ConnectionState::Running, ..self }
        } else {
            self
        }
    }

    /// What the subscribers are told when the client reports that it has
    /// started.
    pub open spec fn started_notice(self) -> Option<ConnectionNotice> {
        if self.state == ConnectionState::Starting && self.self_address is Some {
            Some(ConnectionNotice::Started(self.self_address->0))
        } else {
            None
        }
    }

    /// The connection after the client reported that it has shut down.
    pub open spec fn handle_shutdown(self) -> ConnectionModel {
        if self.state == ConnectionState::Stopping {
            ConnectionModel::stopped()
        } else {
            self
        }
    }

    /// What the subscribers are told when the client reports that it has
    /// shut down.
    pub open spec fn shutdown_notice(self) -> Option<ConnectionNotice> {
        if self.state == ConnectionState::Stopping {
            Some(ConnectionNotice::Shutdown)
        } else {
            None
        }
    }

    /// The connection after the waiting commands were taken out.
    pub open spec fn drain(self) -> ConnectionModel {
        match self.commands {
            Some(_) => ConnectionModel { commands: Some(Seq::empty()), ..self },
            None => self,
        }
    }

    /// The commands that wait, none if there is no channel.
    pub open spec fn waiting(self) -> Seq<TaskModel> {
        match self.commands {
            Some(commands) => commands,
            None => Seq::empty(),
        }
    }
}

/// What the network client is to be started with.
#[derive(Clone, Debug, PartialEq, Eq)]
pub struct Launch {
    /// The address under which to join.
    pub identity: Address,
    /// The local port to listen on, on every interface.
    pub port: u16,
    /// The router to find the network through, if one is configured.
    pub router: Option<String>,
}

/// What a `Launch` holds.
pub struct LaunchModel {
    pub identity: Address,
    pub port: u16,
    pub router: Option<Seq<char>>,
}

impl View for Launch {
    type V = LaunchModel;

    open spec fn view(&self) -> LaunchModel {
        LaunchModel { identity: self.identity, port: self.port, router: text_of(self.router) }
    }
}

/// Where a connection that is up stands.
enum Phase {
    Starting,
    Running,
    Stopping,
}

/// What there is of a connection: nothing while it is down; while it is
/// up, the address, and the commands that wait.
enum Link {
    Down,
    Up { phase: Phase, self_address: Address, commands: Vec<Task> },
}

/// The link to the network client: its state, the address under which the
/// user is known while it is up, the commands that wait for the client, and
/// those who want to hear of its starting and stopping.
pub struct Connection<O> {
    link: Link,
    observers: ObserverSet<O>,
}

impl<O> View for Connection<O> {
    type V = ConnectionModel;

    closed spec fn view(&self) -> ConnectionModel {
        match self.link {
            Link::Down => ConnectionModel::stopped(),
            Link::Up { phase, self_address, commands } => ConnectionModel {
                state: match phase {
                    Phase::Starting => ConnectionState::Starting,
                    Phase::Running => ConnectionState::Running,
                    Phase::Stopping => ConnectionState::Stopping,
                },
                self_address: Some(self_address),
                commands: Some(commands.deep_view()),
            },
        }
    }
}

impl<O> Observable<O> for Connection<O> {
    closed spec fn observer_set(&self) -> ObserverSet<O> {
        self.observers
    }

    open spec fn same_state(&self, other: &Self) -> bool {
        self@ == other@
    }

    fn observers(&mut self) -> (set: &mut ObserverSet<O>) {
        &mut self.observers
    }
}

impl<O> Connection<O> {
    /// Those who have subscribed, to tell them something.
    pub fn subscribers(&self) -> (set: &ObserverSet<O>)
        ensures
            *set == self.observer_set(),
    {
        &self.observers
    }

    /// The address and the command channel of a connection are there exactly
    /// while it is not stopped.
    pub proof fn lemma_wf(&self)
        ensures
            self@.wf(),
    {
    }

    /// A stopped connection without subscribers.
    pub fn new() -> (connection: Connection<O>)
        ensures
            connection@ == ConnectionModel::stopped(),
            connection.observer_set().unused(),
    {
        Connection { link: Link::Down, observers: ObserverSet::new() }
    }

    pub fn state(&self) -> (state: ConnectionState)
        ensures
            state == self@.state,
    {
        match &self.link {
            Link::Down => ConnectionState::Stopped,
            Link::Up { phase, .. } => match phase {
                Phase::Starting => ConnectionState::Starting,
                Phase::Running => ConnectionState::Running,
                Phase::Stopping => ConnectionState::Stopping,
            },
        }
    }

    /// The address under which the user is known, if the connection is not
    /// stopped.
    pub fn address(&self) -> (address: Option<Address>)
        ensures
            address == self@.self_address,
    {
        match &self.link {
            Link::Up { self_address, .. } => Some(*self_address),
            Link::Down => None,
        }
    }

    /// The address under which the user is known. There is one while the
    /// connection is not stopped.
    pub fn self_address(&self) -> (address: Address)
        requires
            self@.state != ConnectionState::Stopped,
        ensures
            self@.self_address == Some(address),
    {
        match &self.link {
            Link::Up { self_address, .. } => *self_address,
            Link::Down => vstd::pervasive::unreached(),
        }
    }

    /// The commands that wait to be handed to the network client, oldest
    /// first. There is a channel for them while the connection is not
    /// stopped.
    pub fn commands(&self) -> (commands: &Vec<Task>)
        requires
            self@.state != ConnectionState::Stopped,
        ensures
            self@.commands == Some(commands.deep_view()),
    {
        match &self.link {
            Link::Up { commands, .. } => commands,
            Link::Down => vstd::pervasive::unreached(),
        }
    }

    /// Takes the waiting commands out, oldest first, for the network client
    /// to carry out. Of a stopped connection there are none.
    pub fn take_commands(&mut self) -> (commands: Vec<Task>)
        ensures
            commands.deep_view() == old(self)@.waiting(),
            final(self)@ == old(self)@.drain(),
            final(self).observer_set() == old(self).observer_set(),
    {
        let mut taken: Vec<Task> = Vec::new();
        match &mut self.link {
            Link::Up { commands, .. } => {
                core::mem::swap(commands, &mut taken);
                assert(commands.deep_view() =~= Seq::<TaskModel>::empty());
            },
            Link::Down => {
            },
        }
        taken
    }

    /// Puts a command into the channel.
    pub fn submit(&mut self, task: Task)
        requires
            old(self)@.state != ConnectionState::Stopped,
        ensures
            final(self)@ == old(self)@.submit(task@),
            final(self).observer_set() == old(self).observer_set(),
    {
        match &mut self.link {
            Link::Up { commands, .. } => {
                let ghost before = commands.deep_view();
                commands.push(task);
                assert(commands.deep_view() =~= before.push(task@));
            },
            Link::Down => {},
        }
    }

    /// Asks the network client to leave the network. Only a running
    /// connection does so, and is stopping from then on; in any other state
    /// nothing happens.
    pub fn shutdown(&mut self)
        ensures
            final(self)@ == old(self)@.shutdown(),
            final(self).observer_set() == old(self).observer_set(),
    {
        match &mut self.link {
            Link::Up { phase, commands, .. } => {
                if let Phase::Running = phase {
                    let ghost before = commands.deep_view();
                    commands.push(Task::Shutdown);
                    assert(commands.deep_view() =~= before.push(TaskModel::Shutdown));
                    *phase = Phase::Stopping;
                }
            },
            Link::Down => {},
        }
    }

    /// Starts a stopped connection with the given configuration.
    ///
    /// A configuration without a secret, with an empty one or without a port
    /// is refused, and nothing changes. Otherwise the user's address is
    /// derived from the secret by `derive`, the connection is starting, and
    /// the result says what the network client is to be started with.
    pub fn start<F: Fn(&str) -> Address>(&mut self, configuration: &Configuration, derive: F) -> (result:
        Result<Launch, ConfigurationError>)
        requires
            old(self)@.state == ConnectionState::Stopped,
            configuration@.problem() is None ==> forall|secret: &str|
                configuration@.secret == Some(secret@) ==> call_requires(derive, (secret,)),
        ensures
            final(self).observer_set() == old(self).observer_set(),
            match result {
                Ok(launch) => {
                    &&& configuration@.problem() is None
                    &&& launch@ == (LaunchModel {
                        identity: launch.identity,
                        port: configuration@.port->0,
                        router: configuration@.router,
                    })
                    &&& exists|secret: &str|
                        configuration@.secret == Some(secret@) && call_ensures(
                            derive,
                            (secret,),
                            launch.identity,
                        )
                    &&& final(self)@ == old(self)@.start(launch.identity)
                },
                Err(error) => {
                    &&& configuration@.problem() == Some(error)
                    &&& final(self)@ == old(self)@
                },
            },
    {
        if let Err(error) = configuration.check() {
            return Err(error);
        }
        let identity = match configuration.secret() {
            Some(secret) => derive(secret.as_str()),
            None => vstd::pervasive::unreached(),
        };
        let port = match configuration.port() {
            Some(port) => *port,
            None => vstd::pervasive::unreached(),
        };
        let router = match configuration.router() {
            Some(router) => Some(router.clone()),
            None => None,
        };
        let commands: Vec<Task> = Vec::new();
        assert(commands.deep_view() =~= Seq::<TaskModel>::empty());
        self.link = Link::Up { phase: Phase::Starting, self_address: identity, commands };
        Ok(Launch { identity, port, router })
    }

    /// Takes note that the network client has started. A starting connection
    /// is running from then on, and its subscribers are to be told so; in any
    /// other state nothing happens.
    pub fn handle_started(&mut self) -> (notice: Option<ConnectionNotice>)
        ensures
            final(self)@ == old(self)@.handle_started(),
            notice == old(self)@.started_notice(),
            final(self).observer_set() == old(self).observer_set(),
    {
        match &mut self.link {
            Link::Up { phase, self_address, .. } => {
                if let Phase::Starting = phase {
                    *phase = Phase::Running;
                    Some(ConnectionNotice::Started(*self_address))
                } else {
                    None
                }
            },
            Link::Down => None,
        }
    }

    /// Takes note that the network client has shut down. A stopping
    /// connection is stopped from then on, without address and channel, and
    /// its subscribers are to be told so; in any other state nothing happens.
    pub fn handle_shutdown(&mut self) -> (notice: Option<ConnectionNotice>)
        ensures
            final(self)@ == old(self)@.handle_shutdown(),
            notice == old(self)@.shutdown_notice(),
            final(self).observer_set() == old(self).observer_set(),
    {
        let stopping = match &self.link {
            Link::Up { phase, .. } => {
                if let Phase::Stopping = phase {
                    true
                } else {
                    false
                }
            },
            Link::Down => false,
        };
        if stopping {
            self.link = Link::Down;
            Some(ConnectionNotice::Shutdown)
        } else {
            None
        }
    }
}

} // verus!
