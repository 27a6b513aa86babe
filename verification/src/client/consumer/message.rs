//! From one delivery to one command line, and from the command's end to the
//! answer the broker gets.

use vstd::prelude::*;
use vstd::string::StringExecFns;
use vstd::string::StringSliceAdditionalSpecFns;
use vstd::utf8::{decode_utf8, valid_utf8};

use crate::config::queue::RetryType;
use crate::text::{split_on_space, split_spaces, unquoted, without_quotes};

verus! {

/// Exit status that acknowledges the message.
pub const ACKNOWLEDGEMENT: i32 = 0;

/// Exit status that rejects the message and asks for another delivery.
pub const NEGATIVE_ACKNOWLEDGEMENT_AND_RE_QUEUE: i32 = 1;

/// Exit status that rejects the message for good; every status but the two
/// above does, and so does a command that a signal ended.
pub const NEGATIVE_ACKNOWLEDGEMENT: i32 = 2;

/// The broker client's error type. The library carries such values from the
/// event that reports them to the result that ends a run and never looks
/// inside.
#[verifier::external_type_specification]
#[verifier::external_body]
pub struct ExLapinError(lapin::Error);

/// Why a delivery could not be settled.
#[derive(Debug)]
pub enum MessageError {
    /// The broker refused the acknowledgement or the rejection.
    LapinError(lapin::Error),
}

/// How the race between the command and its timer ended.
#[derive(Clone, Copy, Debug, PartialEq, Eq, Structural)]
pub enum CommandResult {
    /// The timer fired first.
    Timeout,
    /// The command could not be started or followed to its end.
    Failed,
    /// The command ended with the given exit code, or without one where a
    /// signal ended it.
    Exited(Option<i32>),
}

/// What the dispatcher makes of a finished race.
#[derive(Clone, Copy, Debug, PartialEq, Eq, Structural)]
pub enum Verdict {
    /// The queue ignores exit codes: acknowledge, leave the wait alone.
    Ignored,
    /// The command succeeded: acknowledge, reset the wait.
    Succeeded,
    /// The command asks for another try: requeue, then wait.
    Retry,
    /// The command gave the message up: drop it.
    Rejected,
    /// The timer fired first: requeue at once.
    TimedOut,
    /// The command never ran: drop the message.
    RunnerFailed,
}

/// The answer the broker gets for a delivery.
#[derive(Clone, Copy, Debug, PartialEq, Eq, Structural)]
pub enum Settlement {
    /// `basic_ack` of the single delivery.
    Ack,
    /// `basic_reject` with `requeue` set.
    RejectRequeue,
    /// `basic_reject` with `requeue` cleared.
    RejectDrop,
}

/// Exit code that decides, after the queue's sentinel has been applied. A
/// command without an exit code counts as [`NEGATIVE_ACKNOWLEDGEMENT`]. Where
/// the queue has a sentinel, the sentinel means drop, zero stays zero and
/// every other code means requeue.
pub open spec fn effective_code(nack_code: Option<i32>, code: Option<i32>) -> i32 {
    let exit_code = match code {
        Some(code) => code,
        None => NEGATIVE_ACKNOWLEDGEMENT,
    };
    match nack_code {
        Some(nack_code) => if nack_code == exit_code {
            NEGATIVE_ACKNOWLEDGEMENT
        } else if exit_code == ACKNOWLEDGEMENT {
            exit_code
        } else {
            NEGATIVE_ACKNOWLEDGEMENT_AND_RE_QUEUE
        },
        None => exit_code,
    }
}

/// Verdict on a command that ran to its end.
pub open spec fn verdict_on_exit(retry_type: RetryType, nack_code: Option<i32>, code: Option<i32>)
    -> Verdict {
    if retry_type == RetryType::Ignored {
        Verdict::Ignored
    } else if effective_code(nack_code, code) == ACKNOWLEDGEMENT {
        Verdict::Succeeded
    } else if effective_code(nack_code, code) == NEGATIVE_ACKNOWLEDGEMENT_AND_RE_QUEUE {
        Verdict::Retry
    } else {
        Verdict::Rejected
    }
}

/// Verdict on a finished race.
pub open spec fn verdict_of(retry_type: RetryType, nack_code: Option<i32>, result: CommandResult)
    -> Verdict {
    match result {
        CommandResult::Timeout => Verdict::TimedOut,
        CommandResult::Failed => Verdict::RunnerFailed,
        CommandResult::Exited(code) => verdict_on_exit(retry_type, nack_code, code),
    }
}

/// The broker answer that a verdict stands for.
pub open spec fn settlement_of(verdict: Verdict) -> Settlement {
    match verdict {
        Verdict::Ignored | Verdict::Succeeded => Settlement::Ack,
        Verdict::Retry | Verdict::TimedOut => Settlement::RejectRequeue,
        Verdict::Rejected | Verdict::RunnerFailed => Settlement::RejectDrop,
    }
}

/// With a queue that ignores exit codes, every command that ran to its end
/// is acknowledged, whatever its exit code and whatever the sentinel.
pub proof fn ignored_queue_acknowledges(nack_code: Option<i32>, code: Option<i32>)
    ensures
        settlement_of(verdict_of(RetryType::Ignored, nack_code, CommandResult::Exited(code)))
            == Settlement::Ack,
{
}

/// With a sentinel other than zero on a queue that reads exit codes, the
/// sentinel drops the message, zero acknowledges it and every other exit code
/// requeues it.
pub proof fn sentinel_decides(retry_type: RetryType, nack_code: i32, code: i32)
    requires
        retry_type != RetryType::Ignored,
        nack_code != 0,
    ensures
        settlement_of(verdict_of(retry_type, Some(nack_code), CommandResult::Exited(Some(code))))
            == if code == nack_code {
            Settlement::RejectDrop
        } else if code == 0 {
            Settlement::Ack
        } else {
            Settlement::RejectRequeue
        },
{
}

/// Without a sentinel on a queue that reads exit codes, zero acknowledges,
/// one requeues and everything else, a missing exit code included, drops; a
/// timeout requeues and a command that never ran drops, whatever the queue.
pub proof fn exit_code_decides(retry_type: RetryType, nack_code: Option<i32>, code: Option<i32>)
    ensures
        retry_type != RetryType::Ignored ==> settlement_of(
            verdict_of(retry_type, None, CommandResult::Exited(code)),
        ) == if code == Some(0i32) {
            Settlement::Ack
        } else if code == Some(1i32) {
            Settlement::RejectRequeue
        } else {
            Settlement::RejectDrop
        },
        settlement_of(verdict_of(retry_type, nack_code, CommandResult::Timeout))
            == Settlement::RejectRequeue,
        settlement_of(verdict_of(retry_type, nack_code, CommandResult::Failed))
            == Settlement::RejectDrop,
{
}

impl Verdict {
    /// Verdict on a finished race.
    pub fn new(retry_type: RetryType, nack_code: Option<i32>, result: CommandResult) -> (verdict:
        Verdict)
        ensures
            verdict == verdict_of(retry_type, nack_code, result),
    {
        match result {
            CommandResult::Timeout => Verdict::TimedOut,
            CommandResult::Failed => Verdict::RunnerFailed,
            CommandResult::Exited(code) => match retry_type {
                RetryType::Ignored => Verdict::Ignored,
                _ => {
                    let exit_code = match code {
                        Some(code) => code,
                        None => NEGATIVE_ACKNOWLEDGEMENT,
                    };
                    let exit_code = match nack_code {
                        Some(nack_code) => {
                            if nack_code == exit_code {
                                NEGATIVE_ACKNOWLEDGEMENT
                            } else if exit_code == ACKNOWLEDGEMENT {
                                exit_code
                            } else {
                                NEGATIVE_ACKNOWLEDGEMENT_AND_RE_QUEUE
                            }
                        },
                        None => exit_code,
                    };
                    if exit_code == ACKNOWLEDGEMENT {
                        Verdict::Succeeded
                    } else if exit_code == NEGATIVE_ACKNOWLEDGEMENT_AND_RE_QUEUE {
                        Verdict::Retry
                    } else {
                        Verdict::Rejected
                    }
                },
            },
        }
    }

    /// The broker answer that the verdict stands for.
    pub fn settlement(&self) -> (settlement: Settlement)
        ensures
            settlement == settlement_of(*self),
    {
        match self {
            Verdict::Ignored | Verdict::Succeeded => Settlement::Ack,
            Verdict::Retry | Verdict::TimedOut => Settlement::RejectRequeue,
            Verdict::Rejected | Verdict::RunnerFailed => Settlement::RejectDrop,
        }
    }
}

/// The base64 text that `base64::encode` gives for the UTF-8 bytes of a text:
/// standard alphabet, padded.
pub uninterp spec fn base64_text(text: Seq<char>) -> Seq<char>;

/// Calls `base64::encode` on the bytes of `text`. The encoding depends on the
/// text alone; the contract gives it the name [`base64_text`] and says nothing
/// else of it.
#[verifier::external_body]
fn base64_encode(text: &str) -> (encoded: String)
    ensures
        encoded@ == base64_text(text@),
{
    base64::encode(text)
}

/// Calls `core::str::from_utf8`, which checks the bytes and hands them back as
/// text without copying: it succeeds exactly on valid UTF-8, and the text's
/// bytes are then the given bytes.
#[verifier::external_body]
fn utf8_text(bytes: &[u8]) -> (text: Option<&str>)
    ensures
        text is Some <==> valid_utf8(bytes@),
        text matches Some(text) ==> text.spec_bytes() == bytes@,
{
    match core::str::from_utf8(bytes) {
        Ok(text) => Some(text),
        Err(_) => None,
    }
}

/// The payload as the command gets it: empty where the body is not UTF-8,
/// base64 of the body for a base64 queue, and the body without its double
/// quotes otherwise.
pub open spec fn rendered(body: Seq<u8>, base64: bool) -> Seq<char> {
    if !valid_utf8(body) {
        Seq::empty()
    } else if base64 {
        base64_text(decode_utf8(body))
    } else {
        unquoted(decode_utf8(body))
    }
}

/// Program and arguments: the words of the configured command, then either
/// `--body` and the payload, or the words of the payload.
pub open spec fn command_words(command: Seq<char>, payload: Seq<char>, base64: bool) -> Seq<
    Seq<char>,
> {
    if base64 {
        split_spaces(command) + seq!["--body"@, payload]
    } else {
        split_spaces(command) + split_spaces(payload)
    }
}

/// The command line as a log shows it.
pub open spec fn human_command(command: Seq<char>, payload: Seq<char>, base64: bool) -> Seq<
    char,
> {
    if base64 {
        command + " --body "@ + payload
    } else {
        command + " "@ + payload
    }
}

/// A command ready to run.
#[derive(Debug)]
pub struct MessageCommand {
    /// The program to start.
    pub program: String,
    /// Its arguments, in order.
    pub arguments: Vec<String>,
    /// The whole line, for logs.
    pub human: String,
}

impl MessageCommand {
    /// Program and arguments as one sequence of words.
    pub open spec fn words(&self) -> Seq<Seq<char>> {
        seq![self.program@] + self.arguments.deep_view()
    }
}

/// The dispatcher of deliveries.
pub struct Message {}

impl Message {
    /// The payload of a delivery as its command gets it.
    pub fn payload(data: &[u8], base64: bool) -> (payload: String)
        ensures
            payload@ == rendered(data@, base64),
    {
        match utf8_text(data) {
            Some(text) => {
                proof {
                    vstd::utf8::encode_utf8_decode_utf8(text@);
                }
                if base64 {
                    base64_encode(text)
                } else {
                    without_quotes(text)
                }
            },
            None => String::new(),
        }
    }

    /// Builds the command for a delivery from the queue's configured command
    /// line and the rendered payload.
    pub fn command(command: &str, payload: &str, base64: bool) -> (built: MessageCommand)
        ensures
            built.words() == command_words(command@, payload@, base64),
            built.human@ == human_command(command@, payload@, base64),
    {
        let mut human = String::from_str(command);
        let mut words = split_on_space(command);
        let ghost head = words.deep_view();
        if base64 {
            human.append(" --body ");
            human.append(payload);
            words.push(String::from_str("--body"));
            words.push(String::from_str(payload));
            proof {
                assert(words.deep_view() =~= head + seq!["--body"@, payload@]);
            }
        } else {
            human.append(" ");
            human.append(payload);
            let mut extra = split_on_space(payload);
            let ghost tail = extra.deep_view();
            words.append(&mut extra);
            proof {
                assert(words.deep_view() =~= head + tail);
            }
        }
        let ghost all = words.deep_view();
        let program = words.remove(0);
        proof {
            assert(seq![program@] + words.deep_view() =~= all);
        }
        MessageCommand { program, arguments: words, human }
    }

    /// Renders the payload of a delivery and builds its command.
    pub fn handle_message(command: &str, base64: bool, data: &[u8]) -> (built: MessageCommand)
        ensures
            built.words() == command_words(command@, rendered(data@, base64), base64),
            built.human@ == human_command(command@, rendered(data@, base64), base64),
    {
        let payload = Message::payload(data, base64);
        Message::command(command, payload.as_str(), base64)
    }
}

} // verus!
