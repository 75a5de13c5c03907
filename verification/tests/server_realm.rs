use realm_core::action_handler::{ActionHandler, ActionHandlerError};
use realm_core::repository::RepositoryFactory;
use realm_core::client_handler::{
    client_read_step, ClientReadEvent, ClientReadStep, TcpClientProtocol, TcpClientTaskHandle,
    TcpClientTaskMessage, CLIENT_BUFFER_SIZE,
};
use realm_core::realm::{
    realm_shutdown_result, realm_step, RealmError, RealmEvent, RealmStep, TcpServerJoinOutcome,
};
use realm_core::server::{
    TcpServer, TcpServerError, TcpServerEvent, TcpServerHandle, TcpServerMessage, TcpServerStep,
    BUFFER_SIZE,
};
use realm_core::tcp_client_action::{TcpClientAction, TcpClientActionHandle};
use tokio::io::{AsyncReadExt, AsyncWriteExt};

#[test]
fn server_step_spawns_on_accept_and_breaks_on_stop() {
    assert!(matches!(
        TcpServer::handle_event(TcpServerEvent::ClientAccepted),
        TcpServerStep::SpawnClient
    ));
    assert!(matches!(
        TcpServer::handle_event(TcpServerEvent::ClientTaskFinished),
        TcpServerStep::Continue
    ));
    match TcpServer::handle_event(TcpServerEvent::StopReceived) {
        TcpServerStep::Break { result } => assert!(result.is_ok()),
        _ => panic!("stop must leave the loop cleanly"),
    }
}

#[test]
fn server_step_treats_accept_failure_as_fatal() {
    let cause = std::io::Error::new(std::io::ErrorKind::ConnectionAborted, "gone");
    match TcpServer::handle_event(TcpServerEvent::AcceptFailed { source: cause }) {
        TcpServerStep::Break { result } => match result {
            Err(TcpServerError::AcceptClientError(e)) => {
                assert_eq!(e.kind(), std::io::ErrorKind::ConnectionAborted)
            }
            _ => panic!("an accept failure becomes AcceptClientError"),
        },
        _ => panic!("an accept failure breaks the loop"),
    }
}

#[test]
fn server_handle_stop_is_safe_to_repeat_and_to_call_after_shutdown() {
    let (tx, mut rx) = tokio::sync::mpsc::channel::<TcpServerMessage>(1);
    let handle = TcpServerHandle::new(tx);
    assert!(handle.stop().is_ok());
    // The channel is full now: a repeat is refused, not a crash.
    match handle.stop() {
        Err(TcpServerError::SendMessageError(m)) => assert!(matches!(m, TcpServerMessage::Stop)),
        _ => panic!("a full control channel refuses the message"),
    }
    assert!(matches!(rx.try_recv().unwrap(), TcpServerMessage::Stop));
    // After the acceptor is gone, stopping again is still safe.
    drop(rx);
    assert!(handle.stop().is_err());
    assert!(handle.stop().is_err());
}

#[test]
fn server_message_labels() {
    assert_eq!(TcpServerMessage::Stop.label(), "Stop");
    assert_eq!(TcpServerMessage::Other.label(), "Other");
}

#[test]
fn binding_renders_address_and_port() {
    assert_eq!(TcpServer::binding("127.0.0.1", 3456), "127.0.0.1:3456");
    assert_eq!(TcpServer::binding("0.0.0.0", 0), "0.0.0.0:0");
    assert_eq!(TcpServer::binding("localhost", 65535), "localhost:65535");
    assert_eq!(TcpServer::binding("::1", 10), "::1:10");
}

struct NoopFactory;

impl RepositoryFactory for NoopFactory {}

struct CountingHandler {
    hits: std::cell::Cell<usize>,
}

impl ActionHandler for CountingHandler {
    fn handle<T: RepositoryFactory>(
        &self,
        _action: TcpClientAction,
        _repository_factory: &T,
    ) -> Result<(), ActionHandlerError> {
        self.hits.set(self.hits.get() + 1);
        Ok(())
    }
}

#[test]
fn a_handled_action_reaches_the_handler_once_and_continues_the_loop() {
    let (bus_tx, mut bus_rx) = tokio::sync::mpsc::channel::<TcpClientAction>(BUFFER_SIZE);
    let (task_tx, _task_rx) = tokio::sync::mpsc::channel::<TcpClientTaskMessage>(1);
    let capability = TcpClientTaskHandle::new(task_tx);
    let emit = TcpClientActionHandle::new(bus_tx.clone(), capability.clone());
    assert!(emit.client_connect().is_ok());

    let handler = CountingHandler { hits: std::cell::Cell::new(0) };
    let action = bus_rx.try_recv().unwrap();
    let result = handler.handle(action, &NoopFactory);
    assert_eq!(handler.hits.get(), 1);
    assert!(matches!(
        realm_step(&RealmEvent::ActionHandled { result }),
        RealmStep::Continue
    ));
}

#[test]
fn realm_step_continues_on_handled_actions_and_breaks_on_stop() {
    assert!(matches!(
        realm_step(&RealmEvent::ActionHandled { result: Ok(()) }),
        RealmStep::Continue
    ));
    match realm_step(&RealmEvent::StopReceived) {
        RealmStep::Break { error } => assert_eq!(error, None),
        _ => panic!("stop must break"),
    }
}

#[test]
fn realm_step_turns_handler_failure_into_client_handle_error() {
    match realm_step(&RealmEvent::ActionHandled { result: Err(ActionHandlerError::Failed) }) {
        RealmStep::Break { error } => assert_eq!(error, Some(RealmError::ClientHandleError)),
        _ => panic!("a handler failure is fatal to the realm"),
    }
}

#[test]
fn realm_step_turns_server_trouble_into_server_error() {
    match realm_step(&RealmEvent::ServerFinished { outcome: TcpServerJoinOutcome::JoinFailed }) {
        RealmStep::Break { error } => assert_eq!(error, Some(RealmError::ServerError)),
        _ => panic!("a failed join is fatal"),
    }
    let aborted = std::io::Error::new(std::io::ErrorKind::Other, "accept");
    match realm_step(&RealmEvent::ServerFinished {
        outcome: TcpServerJoinOutcome::Finished {
            result: Err(TcpServerError::AcceptClientError(aborted)),
        },
    }) {
        RealmStep::Break { error } => assert_eq!(error, Some(RealmError::ServerError)),
        _ => panic!("an acceptor error is fatal"),
    }
    match realm_step(&RealmEvent::ServerFinished {
        outcome: TcpServerJoinOutcome::Finished { result: Ok(()) },
    }) {
        RealmStep::Break { error } => assert_eq!(error, None),
        _ => panic!("a clean acceptor exit still breaks the loop"),
    }
}

#[test]
fn realm_shutdown_aggregates_loop_and_join_outcomes() {
    assert_eq!(
        realm_shutdown_result(None, TcpServerJoinOutcome::Finished { result: Ok(()) }),
        Ok(())
    );
    assert_eq!(
        realm_shutdown_result(
            Some(RealmError::ClientHandleError),
            TcpServerJoinOutcome::Finished { result: Ok(()) },
        ),
        Err(RealmError::ClientHandleError)
    );
    // A join failure overrides whatever the loop had recorded.
    assert_eq!(
        realm_shutdown_result(Some(RealmError::ClientHandleError), TcpServerJoinOutcome::JoinFailed),
        Err(RealmError::ServerError)
    );
    let cause = std::io::Error::new(std::io::ErrorKind::Other, "late");
    assert_eq!(
        realm_shutdown_result(
            None,
            TcpServerJoinOutcome::Finished {
                result: Err(TcpServerError::AcceptClientError(cause)),
            },
        ),
        Err(RealmError::ServerError)
    );
}

#[test]
fn binding_twice_fails_the_second_realm_before_any_action() {
    let runtime = tokio::runtime::Runtime::new().unwrap();
    runtime.block_on(async {
        let first = tokio::net::TcpListener::bind("127.0.0.1:0").await.unwrap();
        let taken = first.local_addr().unwrap();
        let address = TcpServer::binding("127.0.0.1", taken.port());
        let second = tokio::net::TcpListener::bind(address.as_str()).await;
        let source = match second {
            Err(e) => e,
            Ok(_) => panic!("binding the same address twice must fail"),
        };
        // The failed acceptor reports BindingError through its join, before
        // its loop - and hence any ConnectionAction - ever existed; the
        // realm turns that join into a break with ServerError.
        let failed = TcpServerJoinOutcome::Finished {
            result: Err(TcpServerError::BindingError { address, source }),
        };
        match realm_step(&RealmEvent::ServerFinished { outcome: failed }) {
            RealmStep::Break { error } => assert_eq!(error, Some(RealmError::ServerError)),
            _ => panic!("a bind failure is fatal to the realm"),
        }
    });
}

#[test]
fn single_client_scenario_connect_ping_disconnect_stop() {
    let runtime = tokio::runtime::Runtime::new().unwrap();
    runtime.block_on(async {
        // An in-memory byte stream stands in for the accepted socket, so
        // the scenario needs no real network.
        let (mut client, mut server_side) = tokio::io::duplex(CLIENT_BUFFER_SIZE);
        let (bus_tx, mut bus_rx) = tokio::sync::mpsc::channel::<TcpClientAction>(BUFFER_SIZE);

        let (task_tx, _task_rx) = tokio::sync::mpsc::channel::<TcpClientTaskMessage>(BUFFER_SIZE);
        let capability = TcpClientTaskHandle::new(task_tx);
        let mut protocol = TcpClientProtocol::new();

        let connect = TcpClientActionHandle::new(bus_tx.clone(), capability.clone());
        assert!(protocol.connect_attempted(connect.client_connect().is_ok()).is_none());

        client.write_all(b"ping").await.unwrap();
        let mut buffer = vec![0u8; CLIENT_BUFFER_SIZE];
        let read = server_side.read(&mut buffer).await.unwrap();
        assert!(read > 0);
        match client_read_step(ClientReadEvent::Data { bytes: buffer[0..read].to_vec() }) {
            ClientReadStep::EmitData { text } => {
                assert_eq!(text, "ping");
                protocol.begin_data(text.as_str());
                let emit = TcpClientActionHandle::new(bus_tx.clone(), capability.clone());
                assert!(protocol.data_attempted(emit.client_data(text).is_ok()).is_none());
            }
            _ => panic!("the chunk must become one data event"),
        }

        drop(client);
        let closed = server_side.read(&mut buffer).await.unwrap();
        assert_eq!(closed, 0);
        match client_read_step(ClientReadEvent::Closed) {
            ClientReadStep::EmitDisconnect => {
                let emit = TcpClientActionHandle::new(bus_tx.clone(), capability.clone());
                assert!(protocol.disconnect_attempted(emit.client_disconnect().is_ok()).is_none());
            }
            _ => panic!("end of stream must become the disconnect event"),
        }

        // The realm loop, with a no-op handler, observes exactly one
        // Connect, one DataReceived with "ping", one Disconnect - then its
        // stop message, then a clean shutdown.
        assert!(matches!(bus_rx.recv().await.unwrap(), TcpClientAction::Connect { .. }));
        assert!(matches!(
            realm_step(&RealmEvent::ActionHandled { result: Ok(()) }),
            RealmStep::Continue
        ));
        match bus_rx.recv().await.unwrap() {
            TcpClientAction::SendData { data, .. } => assert_eq!(data, "ping"),
            _ => panic!("the second event carries the data"),
        }
        assert!(matches!(bus_rx.recv().await.unwrap(), TcpClientAction::Disconnect { .. }));
        assert!(bus_rx.try_recv().is_err());

        let step = realm_step(&RealmEvent::StopReceived);
        let loop_error = match step {
            RealmStep::Break { error } => error,
            _ => panic!("stop must break the realm loop"),
        };
        assert_eq!(
            realm_shutdown_result(
                loop_error,
                TcpServerJoinOutcome::Finished { result: Ok(()) },
            ),
            Ok(())
        );
    });
}
