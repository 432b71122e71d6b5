use comm_messenger::address::Address;
use comm_messenger::configuration::{Configuration, ConfigurationError};
use comm_messenger::connection::{Connection, ConnectionState, Launch, Toggle};
use comm_messenger::network::{Task, TextMessage};
use comm_messenger::notice::ConnectionNotice;

fn derive(secret: &str) -> Address {
    let mut bytes = [0u8; 20];
    for (i, byte) in secret.bytes().enumerate() {
        bytes[i % 20] = bytes[i % 20].wrapping_mul(31).wrapping_add(byte);
    }
    Address::from_bytes(bytes)
}

fn configuration(secret: Option<&str>, router: Option<&str>, port: Option<u16>) -> Configuration {
    let mut configuration = Configuration::empty();
    configuration.update(
        secret.map(String::from),
        router.map(String::from),
        port,
    );
    configuration
}

fn running() -> Connection<u32> {
    let mut connection = Connection::new();
    connection
        .start(&configuration(Some("abc"), None, Some(9000)), derive)
        .unwrap();
    connection.handle_started();
    connection
}

#[test]
fn new_connection_is_stopped() {
    let connection: Connection<u32> = Connection::new();
    assert_eq!(connection.state(), ConnectionState::Stopped);
    assert_eq!(connection.address(), None);
}

#[test]
fn scenario_start_then_started() {
    let mut connection: Connection<u32> = Connection::new();
    let launch = connection
        .start(&configuration(Some("abc"), None, Some(9000)), derive)
        .unwrap();
    assert_eq!(
        launch,
        Launch {
            identity: derive("abc"),
            port: 9000,
            router: None
        }
    );
    assert_eq!(connection.state(), ConnectionState::Starting);
    assert_eq!(connection.address(), Some(derive("abc")));
    assert!(connection.commands().is_empty());

    let notice = connection.handle_started();
    assert_eq!(notice, Some(ConnectionNotice::Started(derive("abc"))));
    assert_eq!(connection.state(), ConnectionState::Running);
    assert_eq!(connection.self_address(), derive("abc"));
    assert!(derive("abc") != derive("abd"));
}

#[test]
fn start_hands_the_router_on() {
    let mut connection: Connection<u32> = Connection::new();
    let launch = connection
        .start(
            &configuration(Some("s3cret"), Some("10.0.0.1:6667"), Some(1)),
            derive,
        )
        .unwrap();
    assert_eq!(launch.identity, derive("s3cret"));
    assert_eq!(launch.port, 1);
    assert_eq!(launch.router, Some(String::from("10.0.0.1:6667")));
}

#[test]
fn start_without_secret_fails_and_changes_nothing() {
    let mut connection: Connection<u32> = Connection::new();
    let result = connection.start(&configuration(None, None, Some(9000)), derive);
    assert_eq!(result, Err(ConfigurationError::InvalidSecret));
    assert_eq!(connection.state(), ConnectionState::Stopped);
    assert_eq!(connection.address(), None);
}

#[test]
fn start_with_empty_secret_fails() {
    let mut connection: Connection<u32> = Connection::new();
    let result = connection.start(&configuration(Some(""), None, Some(9000)), derive);
    assert_eq!(result, Err(ConfigurationError::InvalidSecret));
    assert_eq!(connection.state(), ConnectionState::Stopped);
}

#[test]
fn start_without_port_fails_and_changes_nothing() {
    let mut connection: Connection<u32> = Connection::new();
    let result = connection.start(&configuration(Some("abc"), Some("r:1"), None), derive);
    assert_eq!(result, Err(ConfigurationError::InvalidPort));
    assert_eq!(connection.state(), ConnectionState::Stopped);
    assert_eq!(connection.address(), None);
}

#[test]
fn start_does_not_derive_from_a_refused_configuration() {
    let mut connection: Connection<u32> = Connection::new();
    let calls = std::cell::Cell::new(0);
    let counting = |secret: &str| {
        calls.set(calls.get() + 1);
        derive(secret)
    };
    assert!(connection
        .start(&configuration(Some("abc"), None, None), &counting)
        .is_err());
    assert_eq!(calls.get(), 0);
    assert!(connection
        .start(&configuration(Some("abc"), None, Some(5)), &counting)
        .is_ok());
    assert_eq!(calls.get(), 1);
}

#[test]
fn connection_goes_once_around_the_cycle() {
    let mut connection: Connection<u32> = Connection::new();
    assert_eq!(connection.state(), ConnectionState::Stopped);
    connection
        .start(&configuration(Some("abc"), None, Some(9000)), derive)
        .unwrap();
    assert_eq!(connection.state(), ConnectionState::Starting);
    connection.handle_started();
    assert_eq!(connection.state(), ConnectionState::Running);
    connection.shutdown();
    assert_eq!(connection.state(), ConnectionState::Stopping);
    assert_eq!(connection.commands(), &vec![Task::Shutdown]);
    assert_eq!(connection.address(), Some(derive("abc")));
    let notice = connection.handle_shutdown();
    assert_eq!(notice, Some(ConnectionNotice::Shutdown));
    assert_eq!(connection.state(), ConnectionState::Stopped);
    assert_eq!(connection.address(), None);
    connection
        .start(&configuration(Some("other"), None, Some(9001)), derive)
        .unwrap();
    assert_eq!(connection.state(), ConnectionState::Starting);
    assert_eq!(connection.address(), Some(derive("other")));
    assert!(connection.commands().is_empty());
}

#[test]
fn shutdown_while_stopped_changes_nothing() {
    let mut connection: Connection<u32> = Connection::new();
    connection.shutdown();
    assert_eq!(connection.state(), ConnectionState::Stopped);
    assert_eq!(connection.address(), None);
    assert!(connection.take_commands().is_empty());
}

#[test]
fn shutdown_while_starting_changes_nothing() {
    let mut connection: Connection<u32> = Connection::new();
    connection
        .start(&configuration(Some("abc"), None, Some(9000)), derive)
        .unwrap();
    connection.shutdown();
    assert_eq!(connection.state(), ConnectionState::Starting);
    assert!(connection.commands().is_empty());
}

#[test]
fn shutdown_while_stopping_changes_nothing() {
    let mut connection = running();
    connection.shutdown();
    connection.shutdown();
    assert_eq!(connection.state(), ConnectionState::Stopping);
    assert_eq!(connection.commands(), &vec![Task::Shutdown]);
}

#[test]
fn started_is_heeded_only_while_starting() {
    let mut stopped: Connection<u32> = Connection::new();
    assert_eq!(stopped.handle_started(), None);
    assert_eq!(stopped.state(), ConnectionState::Stopped);

    let mut connection = running();
    assert_eq!(connection.handle_started(), None);
    assert_eq!(connection.state(), ConnectionState::Running);

    connection.shutdown();
    assert_eq!(connection.handle_started(), None);
    assert_eq!(connection.state(), ConnectionState::Stopping);
}

#[test]
fn shutdown_report_is_heeded_only_while_stopping() {
    let mut stopped: Connection<u32> = Connection::new();
    assert_eq!(stopped.handle_shutdown(), None);
    assert_eq!(stopped.state(), ConnectionState::Stopped);

    let mut starting: Connection<u32> = Connection::new();
    starting
        .start(&configuration(Some("abc"), None, Some(9000)), derive)
        .unwrap();
    assert_eq!(starting.handle_shutdown(), None);
    assert_eq!(starting.state(), ConnectionState::Starting);
    assert_eq!(starting.address(), Some(derive("abc")));

    let mut connection = running();
    assert_eq!(connection.handle_shutdown(), None);
    assert_eq!(connection.state(), ConnectionState::Running);
    assert_eq!(connection.address(), Some(derive("abc")));
}

#[test]
fn commands_wait_in_order_until_taken() {
    let mut connection = running();
    let recipient = derive("peer");
    let first = TextMessage::new(derive("m1"), String::from("one"), derive("abc"));
    let second = TextMessage::new(derive("m2"), String::from("two"), derive("abc"));
    connection.submit(Task::ScheduleMessageDelivery(recipient, first.clone()));
    connection.submit(Task::ScheduleMessageDelivery(recipient, second.clone()));
    connection.shutdown();
    assert_eq!(connection.commands().len(), 3);
    let taken = connection.take_commands();
    assert_eq!(
        taken,
        vec![
            Task::ScheduleMessageDelivery(recipient, first),
            Task::ScheduleMessageDelivery(recipient, second),
            Task::Shutdown,
        ]
    );
    assert!(connection.commands().is_empty());
    assert!(connection.take_commands().is_empty());
    assert_eq!(connection.state(), ConnectionState::Stopping);
}

#[test]
fn the_button_connects_and_disconnects() {
    assert_eq!(ConnectionState::Stopped.toggle(), Some(Toggle::Connect));
    assert_eq!(ConnectionState::Running.toggle(), Some(Toggle::Disconnect));
    assert_eq!(ConnectionState::Starting.toggle(), None);
    assert_eq!(ConnectionState::Stopping.toggle(), None);
}
