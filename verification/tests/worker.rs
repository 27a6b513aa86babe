use rabbitmq_consumer_lib::client::consumer::message::CommandResult;
use rabbitmq_consumer_lib::client::consumer::worker::{Action, Delivery, Event, Worker};
use rabbitmq_consumer_lib::client::consumer::{Consumer, ConsumerError, ConsumerStatus};
use rabbitmq_consumer_lib::config::file::File;
use rabbitmq_consumer_lib::config::queue::config::QueueConfig;
use rabbitmq_consumer_lib::config::queue::{Answer, Ask, Queue, RetryMode};
use rabbitmq_consumer_lib::config::{Config, DatabaseConfig, RabbitConfig};

fn get_queues() -> Vec<QueueConfig> {
    vec![
        QueueConfig {
            id: 1,
            queue_name: "example".into(),
            consumer_name: "example".into(),
            command: "echo 1".into(),
            command_timeout: None,
            base64: false,
            start_hour: None,
            end_hour: None,
            count: 100,
            nack_code: None,
            prefetch_count: None,
            retry_wait: 120,
            retry_mode: "static".into(),
            enabled: true,
        },
        QueueConfig {
            id: 2,
            queue_name: "example2".into(),
            consumer_name: "example".into(),
            command: "echo 1".into(),
            command_timeout: None,
            base64: false,
            start_hour: None,
            end_hour: None,
            count: 100,
            nack_code: None,
            prefetch_count: None,
            retry_wait: 120,
            retry_mode: "ignored".into(),
            enabled: false,
        },
        QueueConfig {
            id: 3,
            queue_name: "example3".into(),
            consumer_name: "example".into(),
            command: "echo 1".into(),
            command_timeout: None,
            base64: true,
            start_hour: None,
            end_hour: None,
            count: 100,
            nack_code: None,
            prefetch_count: None,
            retry_wait: 120,
            retry_mode: "incremental".into(),
            enabled: true,
        },
    ]
}

fn get_cfg() -> Config {
    Config {
        rabbit: RabbitConfig {
            host: "127.0.0.1".into(),
            port: 5672,
            username: "guest".into(),
            password: "guest".into(),
            vhost: "/".into(),
            queues: get_queues(),
            queue_prefix: "sample_".into(),
            reconnections: Some(0),
        },
        database: DatabaseConfig {
            enabled: false,
            host: "".into(),
            port: None,
            user: "".into(),
            password: "".into(),
            db_name: "".into(),
            retries: None,
        },
    }
}

fn create_config() -> Config {
    let config = get_cfg();

    assert_eq!(config.database.enabled, false);

    config
}

fn create_data() -> Queue<File> {
    let config = create_config();
    let mut data = Queue::new(Box::new(File::new(config.rabbit.queues.clone())));

    assert_eq!(data.get_queues().is_empty(), false);

    data
}

fn registry(queues: Vec<QueueConfig>) -> Queue<File> {
    Queue::new(Box::new(File::new(queues)))
}

fn delivery(tag: u64, body: &[u8]) -> Event {
    Event::Delivery(Some(Ok(Delivery { delivery_tag: tag, data: body.to_vec() })))
}

/// A worker of `definition` that has subscribed and waits for a delivery.
fn listening(data: &mut Queue<File>, definition: &QueueConfig, index: i32) -> Worker {
    let mut worker = Worker::new(index, definition.clone());
    assert!(worker.expects(&Event::Started));
    match worker.step(data, Event::Started) {
        Action::Subscribe(tag) => {
            assert_eq!(tag, format!("{}_consumer_{}", definition.consumer_name, index))
        }
        other => panic!("unexpected action {:?}", other),
    }
    assert!(matches!(worker.step(data, Event::Broker(Ok(()))), Action::Receive));
    worker
}

/// Feeds a delivery to a listening worker and lets its command end with
/// `result`; returns the settlement that the worker asks for.
fn dispatch(
    data: &mut Queue<File>,
    worker: &mut Worker,
    tag: u64,
    body: &[u8],
    result: CommandResult,
) -> Action {
    match worker.step(data, delivery(tag, body)) {
        Action::Execute(_, _) => {}
        other => panic!("unexpected action {:?}", other),
    }
    assert!(worker.expects(&Event::Raced(result)));
    worker.step(data, Event::Raced(result))
}

#[test]
fn consumer_changed() {
    let mut data = create_data();
    let mut queue_config: QueueConfig = data.get_queues().get(0).unwrap().to_owned();

    queue_config.count = 10;

    assert!(data.is_changed(queue_config.id, queue_config.count));

    let mut worker = listening(&mut data, &queue_config, 0);
    let result = match worker.step(&mut data, delivery(1, b"This is a test!")) {
        Action::Return(result) => result,
        other => panic!("unexpected action {:?}", other),
    };

    assert!(result.is_ok());
    assert_eq!(result.unwrap(), ConsumerStatus::CountChanged);
}

#[test]
fn mod_consumer_changed() {
    let config = create_config();
    let mut data = create_data();
    let mut queue_config: QueueConfig = data.get_queues().get(0).unwrap().to_owned();

    queue_config.count = 10;

    assert!(data.is_changed(queue_config.id, queue_config.count));

    let consumer = Consumer::new(config);
    assert_eq!(consumer.queue_prefix(), "sample_");
    let mut worker = Consumer::consume(0, queue_config, Ok(())).unwrap();
    assert!(matches!(worker.step(&mut data, Event::Started), Action::Subscribe(_)));
    assert!(matches!(worker.step(&mut data, Event::Broker(Ok(()))), Action::Receive));
    let result = match worker.step(&mut data, delivery(1, b"This is a test!")) {
        Action::Return(result) => result,
        other => panic!("unexpected action {:?}", other),
    };

    assert!(result.is_ok());
    assert_eq!(result.unwrap(), ConsumerStatus::CountChanged);
}

#[test]
fn ack_path() {
    let mut definition = get_queues().remove(0);
    definition.count = 1;
    let mut data = registry(vec![definition.clone()]);
    let mut worker = listening(&mut data, &definition, 0);
    match worker.step(&mut data, delivery(7, b"hello")) {
        Action::Execute(command, timeout) => {
            assert_eq!(command.program, "echo");
            assert_eq!(command.arguments, vec!["1", "hello"]);
            assert_eq!(command.human, "echo 1 hello");
            assert_eq!(timeout, 1_800_000);
        }
        other => panic!("unexpected action {:?}", other),
    }
    let settle = worker.step(&mut data, Event::Raced(CommandResult::Exited(Some(0))));
    assert!(matches!(settle, Action::Ack(7)));
    assert!(matches!(worker.step(&mut data, Event::Broker(Ok(()))), Action::Receive));
    assert_eq!(data.get_queue_wait(1, 0), 120_000);
}

#[test]
fn requeue_with_increment() {
    let mut definition = get_queues().remove(2);
    definition.base64 = false;
    let mut data = registry(vec![definition.clone()]);
    let mut worker = listening(&mut data, &definition, 0);
    let settle = dispatch(&mut data, &mut worker, 5, b"x", CommandResult::Exited(Some(1)));
    assert!(matches!(settle, Action::Reject(5, true)));
    let mut action = worker.step(&mut data, Event::Broker(Ok(())));
    let mut rounds = 0;
    while let Action::Sleep(ms) = action {
        assert_eq!(ms, 1000);
        rounds += 1;
        assert_eq!(data.get_queue_wait(3, 0), 120_000 - 1000 * rounds);
        action = worker.step(&mut data, Event::Slept);
    }
    assert_eq!(rounds, 119);
    assert!(matches!(action, Action::Receive));
    assert_eq!(data.get_queue_wait(3, 0), 240_000);
}

#[test]
fn requeue_on_a_static_queue_keeps_the_wait() {
    let mut definition = get_queues().remove(0);
    definition.retry_wait = 2;
    let mut data = registry(vec![definition.clone()]);
    let mut worker = listening(&mut data, &definition, 4);
    let settle = dispatch(&mut data, &mut worker, 5, b"x", CommandResult::Exited(Some(1)));
    assert!(matches!(settle, Action::Reject(5, true)));
    assert!(matches!(worker.step(&mut data, Event::Broker(Ok(()))), Action::Sleep(1000)));
    assert_eq!(data.get_queue_wait(1, 4), 1000);
    assert!(matches!(worker.step(&mut data, Event::Slept), Action::Receive));
    assert_eq!(data.get_queue_wait(1, 4), 2000);
}

#[test]
fn drop_via_sentinel() {
    let mut definition = get_queues().remove(0);
    definition.nack_code = Some(42);
    let mut data = registry(vec![definition.clone()]);
    let mut worker = listening(&mut data, &definition, 0);
    let settle = dispatch(&mut data, &mut worker, 9, b"x", CommandResult::Exited(Some(42)));
    assert!(matches!(settle, Action::Reject(9, false)));
    assert!(matches!(worker.step(&mut data, Event::Broker(Ok(()))), Action::Receive));
}

#[test]
fn requeue_via_sentinel_coercion() {
    let mut definition = get_queues().remove(0);
    definition.nack_code = Some(42);
    let mut data = registry(vec![definition.clone()]);
    let mut worker = listening(&mut data, &definition, 0);
    let settle = dispatch(&mut data, &mut worker, 9, b"x", CommandResult::Exited(Some(7)));
    assert!(matches!(settle, Action::Reject(9, true)));
}

#[test]
fn ignored_mode() {
    let mut definition = get_queues().remove(1);
    definition.enabled = true;
    let mut data = registry(vec![definition.clone()]);
    let mut worker = listening(&mut data, &definition, 0);
    let settle = dispatch(&mut data, &mut worker, 3, b"x", CommandResult::Exited(Some(99)));
    assert!(matches!(settle, Action::Ack(3)));
    assert!(matches!(worker.step(&mut data, Event::Broker(Ok(()))), Action::Receive));
}

#[test]
fn timeout() {
    let mut definition = get_queues().remove(0);
    definition.command_timeout = Some(1);
    let mut data = registry(vec![definition.clone()]);
    let mut worker = listening(&mut data, &definition, 0);
    match worker.step(&mut data, delivery(11, b"x")) {
        Action::Execute(_, timeout) => assert_eq!(timeout, 60_000),
        other => panic!("unexpected action {:?}", other),
    }
    let settle = worker.step(&mut data, Event::Raced(CommandResult::Timeout));
    assert!(matches!(settle, Action::Reject(11, true)));
    assert!(matches!(worker.step(&mut data, Event::Broker(Ok(()))), Action::Receive));
}

#[test]
fn runner_failure_drops_the_message() {
    let definition = get_queues().remove(0);
    let mut data = registry(vec![definition.clone()]);
    let mut worker = listening(&mut data, &definition, 0);
    let settle = dispatch(&mut data, &mut worker, 12, b"x", CommandResult::Failed);
    assert!(matches!(settle, Action::Reject(12, false)));
}

#[test]
fn hot_disable() {
    let mut definition = get_queues().remove(0);
    let mut data = registry(vec![definition.clone()]);
    let mut worker = listening(&mut data, &definition, 2);
    let settle = dispatch(&mut data, &mut worker, 1, b"x", CommandResult::Exited(Some(0)));
    assert!(matches!(settle, Action::Ack(1)));
    assert!(matches!(worker.step(&mut data, Event::Broker(Ok(()))), Action::Receive));

    definition.enabled = false;
    let mut data = registry(vec![definition.clone()]);
    match worker.step(&mut data, delivery(2, b"y")) {
        Action::Cancel(tag) => assert_eq!(tag, "example_consumer_2"),
        other => panic!("unexpected action {:?}", other),
    }
    assert!(matches!(worker.step(&mut data, Event::Broker(Ok(()))), Action::Sleep(1000)));
    assert!(matches!(worker.step(&mut data, Event::Slept), Action::Recover));
    let result = worker.step(&mut data, Event::Broker(Ok(())));
    assert!(matches!(result, Action::Return(Ok(ConsumerStatus::ConsumerChanged))));
    assert!(!worker.expects(&Event::Slept));
    assert!(!worker.expects(&Event::Started));
}

#[test]
fn failed_cancel_and_failed_recover() {
    let mut definition = get_queues().remove(0);
    definition.enabled = false;
    let mut data = registry(vec![definition.clone()]);
    let mut worker = Worker::new(0, definition.clone());
    assert!(matches!(worker.step(&mut data, Event::Started), Action::Sleep(60_000)));
    assert!(matches!(worker.step(&mut data, Event::Slept), Action::Sleep(60_000)));
    definition.enabled = true;
    let mut enabled = registry(vec![definition.clone()]);
    assert!(matches!(worker.step(&mut enabled, Event::Slept), Action::Subscribe(_)));
    assert!(matches!(worker.step(&mut enabled, Event::Broker(Ok(()))), Action::Receive));
    assert!(matches!(worker.step(&mut data, delivery(2, b"y")), Action::Cancel(_)));
    let refused = Event::Broker(Err(lapin::Error::ChannelsLimitReached));
    assert!(matches!(worker.step(&mut data, refused), Action::Recover));
    let refused = Event::Broker(Err(lapin::Error::ChannelsLimitReached));
    let result = worker.step(&mut data, refused);
    assert!(matches!(result, Action::Return(Ok(ConsumerStatus::GenericOk))));
}

#[test]
fn disabled_and_changed_recovers_without_cancel() {
    let mut definition = get_queues().remove(0);
    let mut data = registry(vec![definition.clone()]);
    let mut worker = listening(&mut data, &definition, 0);
    definition.enabled = false;
    definition.count = 3;
    let mut data = registry(vec![definition]);
    assert!(matches!(worker.step(&mut data, delivery(2, b"y")), Action::Recover));
    let result = worker.step(&mut data, Event::Broker(Ok(())));
    assert!(matches!(result, Action::Return(Ok(ConsumerStatus::ConsumerChanged))));
}

#[test]
fn count_change() {
    let mut definition = get_queues().remove(0);
    definition.count = 2;
    let mut data = registry(vec![definition.clone()]);
    let mut first = listening(&mut data, &definition, 0);
    let mut second = listening(&mut data, &definition, 1);
    definition.count = 10;
    let mut data = registry(vec![definition]);
    for worker in [&mut first, &mut second] {
        let result = worker.step(&mut data, delivery(1, b"x"));
        assert!(matches!(result, Action::Return(Ok(ConsumerStatus::CountChanged))));
    }
}

#[test]
fn broker_errors_end_the_worker() {
    let definition = get_queues().remove(0);
    let mut data = registry(vec![definition.clone()]);

    let mut worker = Worker::new(0, definition.clone());
    assert!(matches!(worker.step(&mut data, Event::Started), Action::Subscribe(_)));
    let refused = Event::Broker(Err(lapin::Error::InvalidChannel(3)));
    match worker.step(&mut data, refused) {
        Action::Return(Err(ConsumerError::LapinError(lapin::Error::InvalidChannel(3)))) => {}
        other => panic!("unexpected action {:?}", other),
    }

    let mut worker = listening(&mut data, &definition, 0);
    let broken = Event::Delivery(Some(Err(lapin::Error::InvalidChannel(4))));
    match worker.step(&mut data, broken) {
        Action::Return(Err(ConsumerError::LapinError(lapin::Error::InvalidChannel(4)))) => {}
        other => panic!("unexpected action {:?}", other),
    }

    let mut worker = listening(&mut data, &definition, 0);
    let ended = worker.step(&mut data, Event::Delivery(None));
    assert!(matches!(ended, Action::Return(Ok(ConsumerStatus::GenericOk))));

    let mut worker = listening(&mut data, &definition, 0);
    let settle = dispatch(&mut data, &mut worker, 8, b"x", CommandResult::Exited(Some(0)));
    assert!(matches!(settle, Action::Ack(8)));
    let refused = Event::Broker(Err(lapin::Error::InvalidChannel(5)));
    match worker.step(&mut data, refused) {
        Action::Return(Err(ConsumerError::MessageError(_))) => {}
        other => panic!("unexpected action {:?}", other),
    }
    assert_eq!(data.get_queue_wait(1, 0), 120_000);
}

#[test]
fn countdown_stops_when_the_queue_is_disabled() {
    let mut definition = get_queues().remove(2);
    let mut data = registry(vec![definition.clone()]);
    let mut worker = listening(&mut data, &definition, 0);
    let settle = dispatch(&mut data, &mut worker, 5, b"x", CommandResult::Exited(Some(1)));
    assert!(matches!(settle, Action::Reject(5, true)));
    assert!(matches!(worker.step(&mut data, Event::Broker(Ok(()))), Action::Sleep(1000)));
    assert_eq!(data.get_queue_wait(3, 0), 119_000);
    definition.enabled = false;
    let mut disabled = registry(vec![definition]);
    assert!(matches!(worker.step(&mut disabled, Event::Slept), Action::Receive));
    assert_eq!(disabled.get_queue_wait(3, 0), 240_000);
}

#[test]
fn worker_asks_one_question_at_a_time() {
    let definition = get_queues().remove(0);
    let mut worker = Worker::new(6, definition);
    assert!(!worker.expects(&Event::Slept));
    assert!(matches!(worker.advance(Event::Started), Action::Ask(Ask::IsEnabled { id: 1 })));
    assert!(worker.expects(&Event::Answer(Answer::Flag(true))));
    assert!(!worker.expects(&Event::Answer(Answer::Stored)));
    assert!(matches!(worker.advance(Event::Answer(Answer::Flag(true))), Action::Subscribe(_)));
    assert!(matches!(worker.advance(Event::Broker(Ok(()))), Action::Receive));
    assert!(matches!(
        worker.advance(delivery(1, b"a b")),
        Action::Ask(Ask::IsChanged { id: 1, count: 100 })
    ));
    assert!(matches!(
        worker.advance(Event::Answer(Answer::Flag(false))),
        Action::Ask(Ask::IsEnabled { id: 1 })
    ));
    assert!(matches!(
        worker.advance(Event::Answer(Answer::Flag(true))),
        Action::Ask(Ask::GetCommand { id: 1 })
    ));
    assert!(matches!(
        worker.advance(Event::Answer(Answer::Command("run it".into()))),
        Action::Ask(Ask::GetCommandTimeout { id: 1 })
    ));
    match worker.advance(Event::Answer(Answer::Millis(5))) {
        Action::Execute(command, 5) => {
            assert_eq!(command.program, "run");
            assert_eq!(command.arguments, vec!["it", "a", "b"]);
        }
        other => panic!("unexpected action {:?}", other),
    }
    assert!(matches!(
        worker.advance(Event::Raced(CommandResult::Exited(Some(1)))),
        Action::Ask(Ask::GetRetryType { id: 1 })
    ));
    assert!(matches!(
        worker.advance(Event::Answer(Answer::Retry(
            rabbitmq_consumer_lib::config::queue::RetryType::Static
        ))),
        Action::Reject(1, true)
    ));
    assert!(matches!(
        worker.advance(Event::Broker(Ok(()))),
        Action::Ask(Ask::GetQueueWait { id: 1, index: 6 })
    ));
    assert!(matches!(
        worker.advance(Event::Answer(Answer::Millis(5000))),
        Action::Ask(Ask::IsEnabled { id: 1 })
    ));
    assert!(matches!(
        worker.advance(Event::Answer(Answer::Flag(true))),
        Action::Ask(Ask::GetQueueWait { id: 1, index: 6 })
    ));
    assert!(matches!(
        worker.advance(Event::Answer(Answer::Millis(u64::MAX))),
        Action::Ask(Ask::SetQueueWait {
            id: 1,
            waiting: 18_446_744_073_709_550_615,
            index: 6,
            mode: RetryMode::Forced
        })
    ));
    assert!(matches!(worker.advance(Event::Answer(Answer::Stored)), Action::Sleep(1000)));
    assert!(matches!(worker.advance(Event::Slept), Action::Ask(Ask::IsEnabled { id: 1 })));
    assert!(matches!(
        worker.advance(Event::Answer(Answer::Flag(true))),
        Action::Ask(Ask::GetQueueWait { id: 1, index: 6 })
    ));
    assert!(matches!(
        worker.advance(Event::Answer(Answer::Millis(1000))),
        Action::Ask(Ask::SetQueueWait {
            id: 1,
            waiting: 120,
            index: 6,
            mode: RetryMode::Normal
        })
    ));
    assert!(matches!(
        worker.advance(Event::Answer(Answer::Stored)),
        Action::Ask(Ask::SetQueueWait {
            id: 1,
            waiting: 5000,
            index: 6,
            mode: RetryMode::Retry
        })
    ));
    assert!(matches!(worker.advance(Event::Answer(Answer::Stored)), Action::Receive));
}

#[test]
fn workers_of_a_run() {
    let config = create_config();
    let consumer = Consumer::new(config);
    let mut queues = get_queues();
    queues[0].count = 2;
    queues[1].count = 0;
    queues[2].count = 3;
    let mut data = registry(queues);
    let seats = consumer.run(&mut data).expect("three queues are listed");
    let taken: Vec<(i32, i32)> =
        seats.iter().map(|seat| (seat.queue_config.id, seat.index)).collect();
    assert_eq!(taken, vec![(1, 0), (1, 1), (3, 0), (3, 1), (3, 2)]);
    assert_eq!(seats[4].queue_config.queue_name, "example3");
    let names: Vec<String> = seats
        .into_iter()
        .map(|seat| Consumer::consume(seat.index, seat.queue_config, Ok(())).unwrap())
        .map(|worker| worker.consumer_name())
        .collect();
    assert_eq!(names[1], "example_consumer_1");
    assert_eq!(names[4], "example_consumer_2");
    let mut empty = registry(vec![]);
    assert!(consumer.run(&mut empty).is_none());
    assert_eq!(consumer.address(), ("127.0.0.1", 5672));
}

#[test]
fn channel_that_did_not_open_is_the_workers_error() {
    let definition = get_queues().remove(0);
    let refused = Consumer::consume(0, definition, Err(lapin::Error::InvalidChannel(1)));
    assert!(matches!(
        refused,
        Err(ConsumerError::LapinError(lapin::Error::InvalidChannel(1)))
    ));
}

#[test]
fn every_delivery_is_settled_once() {
    let mut definition = get_queues().remove(0);
    definition.nack_code = Some(42);
    definition.retry_wait = 1;
    let mut data = registry(vec![definition.clone()]);
    let mut worker = listening(&mut data, &definition, 0);
    let results = [
        CommandResult::Exited(Some(0)),
        CommandResult::Exited(Some(42)),
        CommandResult::Timeout,
        CommandResult::Exited(Some(7)),
        CommandResult::Failed,
        CommandResult::Exited(None),
        CommandResult::Exited(Some(0)),
    ];
    let mut acks = vec![];
    let mut requeues = vec![];
    let mut drops = vec![];
    for (tag, result) in results.iter().enumerate() {
        let tag = tag as u64 + 1;
        let mut action = worker.step(&mut data, delivery(tag, b"x"));
        let mut settled = 0;
        loop {
            let event = match action {
                Action::Execute(_, _) => Event::Raced(*result),
                Action::Ack(tag) => {
                    settled += 1;
                    acks.push(tag);
                    Event::Broker(Ok(()))
                }
                Action::Reject(tag, true) => {
                    settled += 1;
                    requeues.push(tag);
                    Event::Broker(Ok(()))
                }
                Action::Reject(tag, false) => {
                    settled += 1;
                    drops.push(tag);
                    Event::Broker(Ok(()))
                }
                Action::Sleep(_) => Event::Slept,
                Action::Receive => break,
                other => panic!("unexpected action {:?}", other),
            };
            action = worker.step(&mut data, event);
        }
        assert_eq!(settled, 1);
    }
    assert_eq!(acks, vec![1, 7]);
    assert_eq!(requeues, vec![3, 4, 6]);
    assert_eq!(drops, vec![2, 5]);
}
