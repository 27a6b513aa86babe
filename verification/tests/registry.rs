use rabbitmq_consumer_lib::config::file::{copy_queues, queues_valid, File};
use rabbitmq_consumer_lib::config::queue::clock::TimeOfDay;
use rabbitmq_consumer_lib::config::queue::config::{
    QueueConfig, DEFAULT_WAIT, TIME_MS_MULTIPLIER,
};
use rabbitmq_consumer_lib::config::queue::model::QueueModel;
use rabbitmq_consumer_lib::config::queue::{
    retry_type_from_name, wait_to_store, Answer, Ask, Queue, RetryMode, RetryType,
};

fn definition(id: i32, name: &str, retry_mode: &str, base64: bool, enabled: bool) -> QueueConfig {
    QueueConfig {
        id,
        queue_name: name.into(),
        consumer_name: "example".into(),
        command: "echo 1".into(),
        command_timeout: None,
        base64,
        start_hour: None,
        end_hour: None,
        count: 100,
        nack_code: None,
        prefetch_count: None,
        retry_wait: 120,
        retry_mode: retry_mode.into(),
        enabled,
    }
}

fn definitions() -> Vec<QueueConfig> {
    vec![
        definition(1, "example", "static", false, true),
        definition(2, "example2", "ignored", false, false),
        definition(3, "example3", "incremental", true, true),
    ]
}

fn check_waits(queues: Vec<QueueConfig>) {
    let mut data = Queue::new(Box::new(File::new(queues.clone())));

    const TEST_WAIT: u64 = 120;

    for queue in queues {
        for consumer_index in 0..queue.count {
            assert_eq!(
                data.get_queue_wait(queue.id, consumer_index),
                queue.retry_wait * TIME_MS_MULTIPLIER
            );

            data.set_queue_wait(queue.id, TEST_WAIT, consumer_index, RetryMode::Normal);

            assert_eq!(
                data.get_queue_wait(queue.id, consumer_index),
                TEST_WAIT * TIME_MS_MULTIPLIER
            );

            data.set_queue_wait(queue.id, TEST_WAIT, consumer_index, RetryMode::Retry);

            match data.get_retry_type(queue.id) {
                RetryType::Ignored => {
                    assert_eq!(data.get_queue_wait(queue.id, consumer_index), TEST_WAIT);
                }
                RetryType::Incremental => {
                    assert_eq!(data.get_queue_wait(queue.id, consumer_index), TEST_WAIT * 2);
                }
                RetryType::Static => {
                    assert_eq!(data.get_queue_wait(queue.id, consumer_index), TEST_WAIT);
                }
            }

            for wait in vec![
                u64::max_value(),
                ((u64::max_value() as f64 / 1.5) as u64),
                ((u64::max_value() as f64 / 2.0) as u64),
            ] {
                data.set_queue_wait(queue.id, wait, consumer_index, RetryMode::Retry);

                match data.get_retry_type(queue.id) {
                    RetryType::Incremental => {
                        assert_eq!(data.get_queue_wait(queue.id, consumer_index), wait);
                    }
                    _ => {}
                }
            }

            data.set_queue_wait(queue.id, TEST_WAIT, consumer_index, RetryMode::Forced);

            assert_eq!(data.get_queue_wait(queue.id, consumer_index), TEST_WAIT);
        }
    }
}

fn check_retry_type(queues: Vec<QueueConfig>) {
    let mut data = Queue::new(Box::new(File::new(queues.clone())));

    for queue in queues {
        match data.get_retry_type(queue.id) {
            RetryType::Ignored => {
                assert_eq!(queue.retry_mode, "ignored");
            }
            RetryType::Incremental => {
                assert_eq!(queue.retry_mode, "incremental");
            }
            RetryType::Static => {
                assert_eq!(queue.retry_mode, "static");
            }
        }
    }
}

#[test]
fn waits() {
    check_waits(definitions());
}

#[test]
fn mod_waits() {
    check_waits(definitions());
}

#[test]
fn retry_type() {
    check_retry_type(definitions());
}

#[test]
fn mod_retry_type() {
    check_retry_type(definitions());
}

#[test]
fn retry_type_names() {
    assert_eq!(retry_type_from_name(&"incremental".to_string()), RetryType::Incremental);
    assert_eq!(retry_type_from_name(&"ignored".to_string()), RetryType::Ignored);
    assert_eq!(retry_type_from_name(&"static".to_string()), RetryType::Static);
    assert_eq!(retry_type_from_name(&"Incremental".to_string()), RetryType::Static);
    assert_eq!(retry_type_from_name(&"".to_string()), RetryType::Static);
}

#[test]
fn stored_wait_by_mode() {
    assert_eq!(wait_to_store(RetryMode::Normal, RetryType::Static, 120), 120_000);
    assert_eq!(wait_to_store(RetryMode::Forced, RetryType::Incremental, 119_000), 119_000);
    assert_eq!(wait_to_store(RetryMode::Retry, RetryType::Static, 120_000), 120_000);
    assert_eq!(wait_to_store(RetryMode::Retry, RetryType::Ignored, 120_000), 120_000);
    assert_eq!(wait_to_store(RetryMode::Retry, RetryType::Incremental, 120_000), 240_000);
}

#[test]
fn incremental_wait_saturates() {
    let half = u64::MAX / 2;
    assert_eq!(wait_to_store(RetryMode::Retry, RetryType::Incremental, half - 1), (half - 1) * 2);
    assert_eq!(wait_to_store(RetryMode::Retry, RetryType::Incremental, half), half);
    assert_eq!(wait_to_store(RetryMode::Retry, RetryType::Incremental, half + 1), half + 1);
    assert_eq!(wait_to_store(RetryMode::Retry, RetryType::Incremental, u64::MAX), u64::MAX);
}

#[test]
fn unknown_queue_has_defaults() {
    let mut data = Queue::new(Box::new(File::new(definitions())));
    assert_eq!(data.get_command(9), "");
    assert_eq!(data.get_command_timeout(9), 30 * 60 * 1000);
    assert!(!data.is_enabled(9));
    assert!(!data.is_changed(9, 5));
    assert_eq!(data.get_retry_type(9), RetryType::Static);
    assert_eq!(data.get_queue_wait(9, 0), DEFAULT_WAIT * TIME_MS_MULTIPLIER);
}

#[test]
fn known_queue_answers() {
    let mut queues = definitions();
    queues[0].command_timeout = Some(1);
    queues[0].command = "php run.php".into();
    let mut data = Queue::new(Box::new(File::new(queues)));
    assert_eq!(data.get_command(1), "php run.php");
    assert_eq!(data.get_command_timeout(1), 60_000);
    assert_eq!(data.get_command_timeout(3), 1_800_000);
    assert!(data.is_enabled(1));
    assert!(!data.is_enabled(2));
    assert!(!data.is_changed(1, 100));
    assert!(data.is_changed(1, 10));
    assert_eq!(data.get_queues().len(), 3);
}

#[test]
fn lookup_takes_the_first_definition() {
    let mut queues = definitions();
    let mut twin = definition(1, "twin", "ignored", false, false);
    twin.command = "other".into();
    queues.push(twin);
    let mut file = File::new(queues);
    let found = file.get_queue(1).expect("queue 1 is listed");
    assert_eq!(found.queue_name, "example");
    assert_eq!(found.retry_mode, "static");
    assert!(file.get_queue(4).is_none());
    assert_eq!(file.get_command(1), "echo 1");
}

#[test]
fn waits_of_workers_are_separate() {
    let mut data = Queue::new(Box::new(File::new(definitions())));
    data.set_queue_wait(1, 7, 0, RetryMode::Forced);
    data.set_queue_wait(1, 8, 1, RetryMode::Forced);
    data.set_queue_wait(3, 9, 0, RetryMode::Forced);
    data.set_queue_wait(-1, 10, -1, RetryMode::Forced);
    assert_eq!(data.get_queue_wait(1, 0), 7);
    assert_eq!(data.get_queue_wait(1, 1), 8);
    assert_eq!(data.get_queue_wait(3, 0), 9);
    assert_eq!(data.get_queue_wait(-1, -1), 10);
    assert_eq!(data.get_queue_wait(0, 1), DEFAULT_WAIT * TIME_MS_MULTIPLIER);
}

#[test]
fn registry_answers_requests() {
    let mut data = Queue::new(Box::new(File::new(definitions())));
    assert!(matches!(data.answer(Ask::IsEnabled { id: 1 }), Answer::Flag(true)));
    assert!(matches!(data.answer(Ask::IsEnabled { id: 2 }), Answer::Flag(false)));
    assert!(matches!(data.answer(Ask::IsChanged { id: 1, count: 2 }), Answer::Flag(true)));
    assert!(matches!(data.answer(Ask::GetCommandTimeout { id: 1 }), Answer::Millis(1_800_000)));
    assert!(matches!(
        data.answer(Ask::GetRetryType { id: 3 }),
        Answer::Retry(RetryType::Incremental)
    ));
    assert!(matches!(data.answer(Ask::GetQueueWait { id: 3, index: 0 }), Answer::Millis(120_000)));
    assert!(matches!(
        data.answer(Ask::SetQueueWait {
            id: 3,
            waiting: 120_000,
            index: 0,
            mode: RetryMode::Retry
        }),
        Answer::Stored
    ));
    assert!(matches!(data.answer(Ask::GetQueueWait { id: 3, index: 0 }), Answer::Millis(240_000)));
    match data.answer(Ask::GetCommand { id: 1 }) {
        Answer::Command(command) => assert_eq!(command, "echo 1"),
        other => panic!("unexpected answer {:?}", other),
    }
}

#[test]
fn validity_of_definitions() {
    let mut queue = definition(1, "example", "static", false, true);
    assert!(queue.is_valid());
    queue.count = -1;
    assert!(!queue.is_valid());
    queue.count = 0;
    assert!(queue.is_valid());
    queue.retry_wait = u64::MAX / 1000;
    assert!(queue.is_valid());
    queue.retry_wait = u64::MAX / 1000 + 1;
    assert!(!queue.is_valid());
    queue.retry_wait = 1;
    queue.command_timeout = Some(u64::MAX / 60_000);
    assert!(queue.is_valid());
    queue.command_timeout = Some(u64::MAX / 60_000 + 1);
    assert!(!queue.is_valid());
    assert!(queues_valid(&definitions()));
    assert!(!queues_valid(&vec![definition(1, "a", "static", false, true), queue]));
    assert_eq!(copy_queues(&definitions()).len(), 3);
    assert_eq!(copy_queues(&definitions())[2].queue_name, "example3");
}

#[test]
fn window_of_hours() {
    let at = |secs: u32| TimeOfDay { secs, frac: 0 };
    let mut queue = definition(1, "example", "static", false, true);
    assert!(queue.is_enabled_at(&at(0)));
    queue.start_hour = Some(at(8 * 3600));
    assert!(queue.is_enabled_at(&at(0)));
    queue.end_hour = Some(at(18 * 3600));
    assert!(!queue.is_enabled_at(&at(8 * 3600 - 1)));
    assert!(queue.is_enabled_at(&at(8 * 3600)));
    assert!(queue.is_enabled_at(&at(12 * 3600)));
    assert!(queue.is_enabled_at(&at(18 * 3600)));
    assert!(!queue.is_enabled_at(&TimeOfDay { secs: 18 * 3600, frac: 1 }));
    queue.enabled = false;
    assert!(!queue.is_enabled_at(&at(12 * 3600)));
    assert!(TimeOfDay { secs: 5, frac: 9 }.le(&TimeOfDay { secs: 5, frac: 9 }));
    assert!(TimeOfDay { secs: 5, frac: 9 }.le(&TimeOfDay { secs: 6, frac: 0 }));
    assert!(!TimeOfDay { secs: 6, frac: 0 }.le(&TimeOfDay { secs: 5, frac: 9 }));
}

#[test]
fn window_reads_the_clock() {
    let whole_day = |queue: &mut QueueConfig| {
        queue.start_hour = Some(TimeOfDay { secs: 0, frac: 0 });
        queue.end_hour = Some(TimeOfDay { secs: 86_399, frac: 1_999_999_999 });
    };
    let mut queues = definitions();
    whole_day(&mut queues[0]);
    queues[2].start_hour = Some(TimeOfDay { secs: 86_399, frac: 1_999_999_999 });
    queues[2].end_hour = Some(TimeOfDay { secs: 0, frac: 0 });
    let mut data = Queue::new(Box::new(File::new(queues)));
    assert!(data.is_enabled(1));
    assert!(!data.is_enabled(3));
}
