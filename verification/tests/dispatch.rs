use rabbitmq_consumer_lib::client::consumer::message::{
    CommandResult, Message, Settlement, Verdict,
};
use rabbitmq_consumer_lib::config::queue::RetryType;
use rabbitmq_consumer_lib::text::{
    chars_of, push_decimal, replace_all, split_on_space, without_quotes,
};

fn decimal(n: i32) -> String {
    let mut out = String::new();
    push_decimal(&mut out, n);
    out
}

#[test]
fn splitting_on_single_spaces() {
    assert_eq!(split_on_space("echo 1"), vec!["echo", "1"]);
    assert_eq!(split_on_space(""), vec![""]);
    assert_eq!(split_on_space(" "), vec!["", ""]);
    assert_eq!(split_on_space("a  b "), vec!["a", "", "b", ""]);
    assert_eq!(split_on_space("php\tbin/console"), vec!["php\tbin/console"]);
    assert_eq!(split_on_space("più lento"), vec!["più", "lento"]);
}

#[test]
fn stripping_quotes() {
    assert_eq!(without_quotes("{\"id\": 1}"), "{id: 1}");
    assert_eq!(without_quotes("\"\"\""), "");
    assert_eq!(without_quotes("it's"), "it's");
    assert_eq!(without_quotes(""), "");
}

#[test]
fn writing_decimals() {
    assert_eq!(decimal(0), "0");
    assert_eq!(decimal(7), "7");
    assert_eq!(decimal(10), "10");
    assert_eq!(decimal(3306), "3306");
    assert_eq!(decimal(-1), "-1");
    assert_eq!(decimal(-120), "-120");
    assert_eq!(decimal(i32::MAX), "2147483647");
    assert_eq!(decimal(i32::MIN), "-2147483648");
    let mut tag = String::from("example_consumer_");
    push_decimal(&mut tag, 42);
    assert_eq!(tag, "example_consumer_42");
}

#[test]
fn replacing_texts() {
    assert_eq!(replace_all("a-b-c", "-", "+"), "a+b+c");
    assert_eq!(replace_all("aaa", "aa", "b"), "ba");
    assert_eq!(replace_all("abc", "", "x"), "abc");
    assert_eq!(replace_all("ab", "abc", "x"), "ab");
    assert_eq!(replace_all("abab", "ab", "abab"), "abababab");
    assert_eq!(replace_all("", "a", "b"), "");
    assert_eq!(chars_of("añb"), vec!['a', 'ñ', 'b']);
}

#[test]
fn payload_of_a_plain_queue_loses_its_quotes() {
    assert_eq!(Message::payload(b"hello", false), "hello");
    assert_eq!(Message::payload(b"{\"a\": \"b c\"}", false), "{a: b c}");
    assert_eq!(Message::payload(b"", false), "");
}

#[test]
fn payload_of_a_base64_queue_is_encoded() {
    assert_eq!(Message::payload(b"hello", true), "aGVsbG8=");
    assert_eq!(Message::payload(b"{\"a\": 1}", true), "eyJhIjogMX0=");
    assert_eq!(Message::payload(b"This is a test!", true), "VGhpcyBpcyBhIHRlc3Qh");
    assert_eq!(Message::payload(b"", true), "");
}

#[test]
fn payload_that_is_not_utf8_is_empty() {
    assert_eq!(Message::payload(&[0xff, 0xfe, 0x41], false), "");
    assert_eq!(Message::payload(&[0xc3], true), "");
    assert_eq!(Message::payload(&[0xc3, 0xa8], false), "è");
}

#[test]
fn command_of_a_plain_queue() {
    let built = Message::command("php bin/console run", "a b", false);
    assert_eq!(built.program, "php");
    assert_eq!(built.arguments, vec!["bin/console", "run", "a", "b"]);
    assert_eq!(built.human, "php bin/console run a b");
    let bare = Message::command("", "", false);
    assert_eq!(bare.program, "");
    assert_eq!(bare.arguments, vec![""]);
    assert_eq!(bare.human, " ");
}

#[test]
fn command_of_a_base64_queue() {
    let built = Message::command("echo 1", "aGVsbG8=", true);
    assert_eq!(built.program, "echo");
    assert_eq!(built.arguments, vec!["1", "--body", "aGVsbG8="]);
    assert_eq!(built.human, "echo 1 --body aGVsbG8=");
}

#[test]
fn command_from_a_delivery() {
    let plain = Message::handle_message("echo 1", false, b"say \"hi\" twice");
    assert_eq!(plain.program, "echo");
    assert_eq!(plain.arguments, vec!["1", "say", "hi", "twice"]);
    assert_eq!(plain.human, "echo 1 say hi twice");
    let encoded = Message::handle_message("echo 1", true, b"say \"hi\"");
    assert_eq!(encoded.arguments, vec!["1", "--body", "c2F5ICJoaSI="]);
    let broken = Message::handle_message("echo 1", true, &[0x80]);
    assert_eq!(broken.arguments, vec!["1", "--body", ""]);
    assert_eq!(broken.human, "echo 1 --body ");
}

#[test]
fn exit_codes_without_sentinel() {
    let verdict = |code| Verdict::new(RetryType::Static, None, CommandResult::Exited(code));
    assert_eq!(verdict(Some(0)), Verdict::Succeeded);
    assert_eq!(verdict(Some(1)), Verdict::Retry);
    assert_eq!(verdict(Some(2)), Verdict::Rejected);
    assert_eq!(verdict(Some(99)), Verdict::Rejected);
    assert_eq!(verdict(Some(-1)), Verdict::Rejected);
    assert_eq!(verdict(None), Verdict::Rejected);
}

#[test]
fn exit_codes_with_sentinel() {
    let verdict =
        |code| Verdict::new(RetryType::Incremental, Some(42), CommandResult::Exited(code));
    assert_eq!(verdict(Some(42)).settlement(), Settlement::RejectDrop);
    assert_eq!(verdict(Some(7)).settlement(), Settlement::RejectRequeue);
    assert_eq!(verdict(Some(2)).settlement(), Settlement::RejectRequeue);
    assert_eq!(verdict(Some(1)).settlement(), Settlement::RejectRequeue);
    assert_eq!(verdict(Some(0)).settlement(), Settlement::Ack);
    assert_eq!(verdict(None).settlement(), Settlement::RejectRequeue);
    let two = |code| Verdict::new(RetryType::Static, Some(2), CommandResult::Exited(code));
    assert_eq!(two(None), Verdict::Rejected);
    assert_eq!(two(Some(2)), Verdict::Rejected);
    let zero = |code| Verdict::new(RetryType::Static, Some(0), CommandResult::Exited(code));
    assert_eq!(zero(Some(0)), Verdict::Rejected);
    assert_eq!(zero(Some(5)), Verdict::Retry);
}

#[test]
fn ignored_queue_acknowledges_everything() {
    for code in [Some(0), Some(1), Some(2), Some(42), Some(99), None] {
        for nack_code in [None, Some(42), Some(0)] {
            let verdict = Verdict::new(RetryType::Ignored, nack_code, CommandResult::Exited(code));
            assert_eq!(verdict, Verdict::Ignored);
            assert_eq!(verdict.settlement(), Settlement::Ack);
        }
    }
}

#[test]
fn timeout_and_runner_failure() {
    for retry_type in [RetryType::Static, RetryType::Incremental, RetryType::Ignored] {
        let timed_out = Verdict::new(retry_type, Some(42), CommandResult::Timeout);
        assert_eq!(timed_out, Verdict::TimedOut);
        assert_eq!(timed_out.settlement(), Settlement::RejectRequeue);
        let failed = Verdict::new(retry_type, None, CommandResult::Failed);
        assert_eq!(failed, Verdict::RunnerFailed);
        assert_eq!(failed.settlement(), Settlement::RejectDrop);
    }
}
