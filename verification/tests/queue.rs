use mcpi::connection::commands::{SerializableCommand, TileCoords, WorldGetBlock, WorldSetBlock};
use mcpi::connection::queued::{
    run_worker, worker_step, Command, CommandQueue, QueueItem, SubmitOutcome, WorkerAction,
};
use mcpi::connection::{
    send_plan, ConnectOptions, ConnectionError, ReadOutcome, SendPlan, Tile, TileData,
};

fn request(payload: &[u8], expects_response: bool) -> Command {
    Command {
        payload: payload.to_vec(),
        expects_response,
    }
}

fn drain(queue: &mut CommandQueue) -> Vec<QueueItem> {
    let mut items = Vec::new();
    while let Some(item) = queue.take_next() {
        items.push(item);
    }
    items
}

#[test]
fn fifo_correlation_delivers_each_response_to_its_own_caller() {
    let mut queue = CommandQueue::new(10);
    let mut tickets = Vec::new();
    for payload in [b"q0\n".as_slice(), b"q1\n", b"q2\n"] {
        match queue.submit_request(request(payload, true)) {
            SubmitOutcome::Accepted(t) => tickets.push(t),
            other => panic!("submission refused: {other:?}"),
        }
    }
    let items = drain(&mut queue);
    let events = vec![
        ReadOutcome::Frame(b"r0".to_vec()),
        ReadOutcome::Frame(b"r1".to_vec()),
        ReadOutcome::Frame(b"r2".to_vec()),
    ];
    let (deliveries, wire) = run_worker(items, ConnectOptions::default(), events);
    assert_eq!(deliveries.len(), 3);
    for (i, delivery) in deliveries.iter().enumerate() {
        assert_eq!(delivery.ticket, tickets[i]);
        assert_eq!(delivery.result, Ok(format!("r{i}").into_bytes()));
    }
    assert_eq!(
        wire,
        vec![b"q0\n".to_vec(), b"q1\n".to_vec(), b"q2\n".to_vec()]
    );
}

#[test]
fn backpressure_never_lets_the_queue_grow_past_capacity() {
    let mut queue = CommandQueue::new(2);
    assert!(matches!(
        queue.submit_request(request(b"a\n", true)),
        SubmitOutcome::Accepted(_)
    ));
    assert!(matches!(
        queue.submit_request(request(b"b\n", true)),
        SubmitOutcome::Accepted(_)
    ));
    // the queue is full: the third submission must wait for a slot
    assert_eq!(queue.submit_request(request(b"c\n", true)), SubmitOutcome::Full);
    assert_eq!(queue.len(), 2);
    // a non-blocking options update against a full queue is refused
    assert_eq!(
        queue.submit_options(ConnectOptions::default()),
        Err(ConnectionError::QueueFull)
    );
    // a slot frees, and the waiting submission goes through
    assert!(queue.take_next().is_some());
    assert!(matches!(
        queue.submit_request(request(b"c\n", true)),
        SubmitOutcome::Accepted(_)
    ));
    assert_eq!(queue.len(), 2);
}

#[test]
fn graceful_shutdown_answers_every_request() {
    let mut queue = CommandQueue::new(10);
    for payload in [b"a\n".as_slice(), b"b\n", b"c\n"] {
        assert!(matches!(
            queue.submit_request(request(payload, true)),
            SubmitOutcome::Accepted(_)
        ));
    }
    assert!(matches!(queue.submit_close(), SubmitOutcome::Accepted(_)));
    let items = drain(&mut queue);
    assert_eq!(items.len(), 4);
    // the queue refuses submissions once the close marker is taken
    assert_eq!(
        queue.submit_request(request(b"late\n", true)),
        SubmitOutcome::Closed
    );
    // only one response ever arrives; everyone still gets a result
    let events = vec![ReadOutcome::Frame(b"r0".to_vec())];
    let (deliveries, _) = run_worker(items, ConnectOptions::default(), events);
    assert_eq!(deliveries.len(), 3);
    assert_eq!(deliveries[0].result, Ok(b"r0".to_vec()));
    assert_eq!(deliveries[1].result, Err(ConnectionError::ConnectionClosed));
    assert_eq!(deliveries[2].result, Err(ConnectionError::ConnectionClosed));
}

#[test]
fn requests_behind_a_close_marker_fail_instead_of_hanging() {
    let mut queue = CommandQueue::new(10);
    assert!(matches!(queue.submit_close(), SubmitOutcome::Accepted(_)));
    assert!(matches!(
        queue.submit_request(request(b"after\n", true)),
        SubmitOutcome::Accepted(_)
    ));
    let items = drain(&mut queue);
    let (deliveries, wire) = run_worker(items, ConnectOptions::default(), vec![]);
    assert_eq!(deliveries.len(), 1);
    assert_eq!(deliveries[0].result, Err(ConnectionError::ConnectionClosed));
    assert!(wire.is_empty());
}

#[test]
fn fire_and_forget_returns_empty_without_reading() {
    let options = ConnectOptions {
        response_timeout: Some(1000),
        always_wait_for_response: false,
    };
    assert_eq!(send_plan(&options, false), SendPlan::NoWait);
    let mut queue = CommandQueue::new(4);
    assert!(matches!(
        queue.submit_request(request(b"set\n", false)),
        SubmitOutcome::Accepted(_)
    ));
    let items = drain(&mut queue);
    // no read outcome is offered, and none is needed
    let (deliveries, wire) = run_worker(items, options, vec![]);
    assert_eq!(deliveries.len(), 1);
    assert_eq!(deliveries[0].result, Ok(Vec::new()));
    assert_eq!(wire, vec![b"set\n".to_vec()]);
}

#[test]
fn always_wait_without_timeout_rejects_silent_commands_eagerly() {
    let options = ConnectOptions {
        response_timeout: None,
        always_wait_for_response: true,
    };
    assert_eq!(send_plan(&options, false), SendPlan::Refuse);
    let mut queue = CommandQueue::new(4);
    assert!(matches!(
        queue.submit_request(request(b"set\n", false)),
        SubmitOutcome::Accepted(_)
    ));
    let items = drain(&mut queue);
    let (deliveries, wire) = run_worker(items, options, vec![]);
    assert_eq!(
        deliveries[0].result,
        Err(ConnectionError::ConfigurationError)
    );
    // rejected eagerly: nothing reached the wire
    assert!(wire.is_empty());
}

#[test]
fn wait_outcomes_surface_as_their_errors() {
    let mut queue = CommandQueue::new(8);
    for _ in 0..3 {
        assert!(matches!(
            queue.submit_request(request(b"q\n", true)),
            SubmitOutcome::Accepted(_)
        ));
    }
    let items = drain(&mut queue);
    let events = vec![
        ReadOutcome::TimedOut,
        ReadOutcome::TransportFailed,
        ReadOutcome::Closed,
    ];
    let (deliveries, _) = run_worker(items, ConnectOptions::default(), events);
    assert_eq!(deliveries[0].result, Err(ConnectionError::Timeout));
    assert_eq!(deliveries[1].result, Err(ConnectionError::Transport));
    assert_eq!(deliveries[2].result, Err(ConnectionError::ConnectionClosed));
}

#[test]
fn options_update_changes_how_later_requests_wait() {
    let mut options = ConnectOptions::default();
    let update = QueueItem::OptionsUpdate {
        options: ConnectOptions {
            response_timeout: None,
            always_wait_for_response: true,
        },
    };
    assert!(matches!(
        worker_step(&mut options, update),
        WorkerAction::Updated
    ));
    assert_eq!(options.response_timeout, None);
    assert!(options.always_wait_for_response);
    let item = QueueItem::Request {
        command: request(b"q\n", true),
        ticket: 0,
    };
    match worker_step(&mut options, item) {
        WorkerAction::Transmit { payload, plan, .. } => {
            assert_eq!(payload, b"q\n".to_vec());
            assert_eq!(plan, SendPlan::WaitUnbounded);
        }
        other => panic!("unexpected action: {other:?}"),
    }
}

#[test]
fn scenario_block_query_mutation_and_backpressure() {
    // options: one second of patience, no waiting after silent commands
    let options = ConnectOptions {
        response_timeout: Some(1000),
        always_wait_for_response: false,
    };
    let mut queue = CommandQueue::new(100);

    // a block query at the origin is answered with the frame "1"
    let query = WorldGetBlock {
        coords: TileCoords { x: 0, y: 0, z: 0 },
    };
    assert!(query.has_response());
    assert!(matches!(
        queue.submit_request(Command::of(&query)),
        SubmitOutcome::Accepted(_)
    ));
    let items = drain(&mut queue);
    let (deliveries, wire) = run_worker(items, options, vec![ReadOutcome::Frame(b"1".to_vec())]);
    assert_eq!(wire, vec![b"world.getBlock(0,0,0)\n".to_vec()]);
    assert_eq!(deliveries[0].result, Ok(b"1".to_vec()));

    // a block mutation expects no response and returns at once
    let mutation = WorldSetBlock {
        coords: TileCoords { x: 0, y: 0, z: 0 },
        tile: Tile(1),
        data: TileData(0),
        json_nbt: None,
    };
    assert!(!mutation.has_response());
    assert!(matches!(
        queue.submit_request(Command::of(&mutation)),
        SubmitOutcome::Accepted(_)
    ));
    let items = drain(&mut queue);
    let (deliveries, _) = run_worker(items, options, vec![]);
    assert_eq!(deliveries[0].result, Ok(Vec::new()));

    // with the worker paused, one hundred requests fill the queue and the
    // next submission must wait until one is taken
    for _ in 0..100 {
        assert!(matches!(
            queue.submit_request(Command::of(&query)),
            SubmitOutcome::Accepted(_)
        ));
    }
    assert_eq!(queue.submit_request(Command::of(&query)), SubmitOutcome::Full);
    assert!(queue.take_next().is_some());
    assert!(matches!(
        queue.submit_request(Command::of(&query)),
        SubmitOutcome::Accepted(_)
    ));
}

#[test]
fn pressure_reports_occupancy_as_hundredths() {
    let mut queue = CommandQueue::new(4);
    assert_eq!(queue.pressure_percent(), 0);
    assert!(matches!(
        queue.submit_request(request(b"a\n", true)),
        SubmitOutcome::Accepted(_)
    ));
    assert_eq!(queue.pressure_percent(), 25);
    assert!(matches!(
        queue.submit_request(request(b"b\n", true)),
        SubmitOutcome::Accepted(_)
    ));
    assert_eq!(queue.pressure_percent(), 50);
    assert!(queue.take_next().is_some());
    assert_eq!(queue.pressure_percent(), 25);
}

#[test]
fn options_update_in_the_queue_changes_later_sends() {
    let start = ConnectOptions {
        response_timeout: Some(1000),
        always_wait_for_response: false,
    };
    let mut queue = CommandQueue::new(8);
    assert!(matches!(
        queue.submit_request(request(b"first\n", false)),
        SubmitOutcome::Accepted(_)
    ));
    assert_eq!(
        queue.submit_options(ConnectOptions {
            response_timeout: Some(1000),
            always_wait_for_response: true,
        }),
        Ok(())
    );
    assert!(matches!(
        queue.submit_request(request(b"second\n", false)),
        SubmitOutcome::Accepted(_)
    ));
    let items = drain(&mut queue);
    let events = vec![ReadOutcome::Frame(b"Fail".to_vec())];
    let (deliveries, wire) = run_worker(items, start, events);
    // before the update the silent command returns at once; after it, the
    // same kind of command waits and sees the server's line
    assert_eq!(deliveries[0].result, Ok(Vec::new()));
    assert_eq!(deliveries[1].result, Ok(b"Fail".to_vec()));
    assert_eq!(wire, vec![b"first\n".to_vec(), b"second\n".to_vec()]);
}
