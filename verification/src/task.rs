//! The task poller: a state machine over the status of one
//! asynchronous server-side ingestion job.
//!
//! One `poll` of the server is one `TaskPoller::step`: the caller
//! fetches the task's status (or fails in transport), hands the outcome
//! in as a [`PollEvent`], and the machine answers with the next
//! [`PollAction`]: keep polling after the fixed delay, stop with the
//! task's result, or stop with an error. A single transient transport
//! failure is tolerated; two consecutive ones abort with the transport
//! error. There is no built-in timeout: absent a terminal status the
//! machine asks to continue indefinitely.

use vstd::prelude::*;
use vstd::string::StrSliceExecFns;

use crate::errors::PaperlessToolError;

verus! {

/// Whether a character is a decimal digit.
pub open spec fn is_decimal_digit(c: char) -> bool {
    48 <= c as int && c as int <= 57
}

/// Whether a text is a well-formed decimal number: nonempty and
/// nothing but digits.
pub open spec fn is_decimal(s: Seq<char>) -> bool {
    s.len() > 0 && (forall|i: int| 0 <= i < s.len() ==> is_decimal_digit(s[i]))
}

/// The value of a decimal digit string.
pub open spec fn decimal_value(s: Seq<char>) -> int
    decreases s.len(),
{
    if s.len() == 0 {
        0
    } else {
        decimal_value(s.drop_last()) * 10 + (s.last() as int - 48)
    }
}

proof fn lemma_decimal_value_nonneg(s: Seq<char>)
    requires
        forall|j: int| 0 <= j < s.len() ==> is_decimal_digit(s[j]),
    ensures
        decimal_value(s) >= 0,
    decreases s.len(),
{
    if s.len() > 0 {
        lemma_decimal_value_nonneg(s.drop_last());
    }
}

proof fn lemma_decimal_value_prefix_le(s: Seq<char>, i: int)
    requires
        0 <= i <= s.len(),
        forall|j: int| 0 <= j < s.len() ==> is_decimal_digit(s[j]),
    ensures
        decimal_value(s.take(i)) <= decimal_value(s),
    decreases s.len() - i,
{
    if i == s.len() {
        assert(s.take(i) =~= s);
    } else {
        assert(s.take(i + 1).drop_last() =~= s.take(i));
        assert(s.take(i + 1).last() == s[i]);
        lemma_decimal_value_nonneg(s.take(i));
        lemma_decimal_value_prefix_le(s, i + 1);
    }
}

/// The status of one asynchronous server-side job.
/// `Pending` and `Started` are non-terminal; `Success` and `Failure`
/// are terminal.
#[derive(Clone, Copy, Debug, PartialEq, Eq, Structural)]
pub enum TaskStatus {
    Pending,
    Started,
    Success,
    Failure,
}

/// Whether a status is terminal: no further transition occurs from it.
pub open spec fn is_terminal(status: TaskStatus) -> bool {
    status is Success || status is Failure
}

/// One observed snapshot of a task, as decoded from a status fetch.
#[derive(Debug)]
pub struct TaskSnapshot {
    pub file_name: String,
    pub status: TaskStatus,
    pub result: Option<String>,
    pub related_document: Option<i32>,
}

/// What a successfully completed task yields: the server's result text
/// (empty if the server sent none) and the ingested document's id, if
/// the server linked one.
#[derive(Debug)]
pub struct TaskResult {
    pub result: String,
    pub related_document: Option<i32>,
}

/// The outcome of one poll attempt, as the I/O layer observed it.
#[derive(Debug)]
pub enum PollEvent {
    /// The status fetch succeeded and decoded to this snapshot.
    Snapshot { snapshot: TaskSnapshot },
    /// The status fetch itself failed in transport.
    Transport { message: String },
}

/// What the caller must do after one poll.
#[derive(Debug)]
pub enum PollAction {
    /// Wait the fixed inter-poll delay, then poll again.
    Continue,
    /// The task succeeded; stop polling.
    Done { result: TaskResult },
    /// The task failed, or transport failed twice in a row; stop.
    Fail { error: PaperlessToolError },
}

/// The message a `TaskFailed` error carries when the server reported
/// failure without any result text.
pub open spec fn spec_generic_failure_text() -> Seq<char> {
    "task reported failure without a result message"@
}

/// Exec counterpart of [`spec_generic_failure_text`].
pub fn generic_failure_text() -> (r: String)
    ensures
        r@ == spec_generic_failure_text(),
{
    "task reported failure without a result message".to_owned()
}

/// The poller's state between polls: how many polls in a row failed in
/// transport (0 or 1; a second consecutive failure aborts).
#[derive(Debug)]
pub struct TaskPoller {
    pub consecutive_failures: u32,
}

/// The full transition relation of one poll step: from the state
/// `before` and the observed `event` to the state `after` and the
/// answered `action`.
///
/// - A decoded snapshot resets the transport-failure count. A
///   `Success` snapshot ends polling with the task's result; a
///   `Failure` snapshot ends it with `TaskFailed`, carrying the
///   server's result text if present and a generic description
///   otherwise; a non-terminal snapshot asks to poll again.
/// - A transport failure after a clean poll asks to poll again (one
///   transient failure is tolerated); a second consecutive one ends
///   polling with `TransportError`.
pub open spec fn poll_step_spec(
    before: TaskPoller,
    event: PollEvent,
    after: TaskPoller,
    action: PollAction,
) -> bool {
    match event {
        PollEvent::Snapshot { snapshot } => match snapshot.status {
            TaskStatus::Success => {
                &&& after.consecutive_failures == 0
                &&& action matches PollAction::Done { result }
                &&& result.related_document == snapshot.related_document
                &&& match snapshot.result {
                    Some(text) => result.result == text,
                    None => result.result@ == Seq::<char>::empty(),
                }
            },
            TaskStatus::Failure => {
                &&& after.consecutive_failures == 0
                &&& action matches PollAction::Fail { error }
                &&& error matches PaperlessToolError::TaskFailed { message }
                &&& match snapshot.result {
                    Some(text) => message == text,
                    None => message@ == spec_generic_failure_text(),
                }
            },
            _ => {
                &&& after.consecutive_failures == 0
                &&& action is Continue
            },
        },
        PollEvent::Transport { message } => {
            if before.consecutive_failures == 0 {
                &&& after.consecutive_failures == 1
                &&& action is Continue
            } else {
                &&& after.consecutive_failures == before.consecutive_failures
                &&& action matches PollAction::Fail { error }
                &&& error matches PaperlessToolError::TransportError { message: m }
                &&& m == message
            }
        },
    }
}

impl TaskPoller {
    /// A fresh poller, before the first poll.
    pub fn new() -> (r: Self)
        ensures
            r.consecutive_failures == 0,
    {
        TaskPoller { consecutive_failures: 0 }
    }

    /// Takes the outcome of one poll and decides what happens next;
    /// the decision is exactly [`poll_step_spec`].
    pub fn step(&mut self, event: PollEvent) -> (action: PollAction)
        ensures
            poll_step_spec(*old(self), event, *final(self), action),
    {
        match event {
            PollEvent::Snapshot { snapshot } => {
                self.consecutive_failures = 0;
                match snapshot.status {
                    TaskStatus::Success => {
                        let text = match snapshot.result {
                            Some(text) => text,
                            None => String::new(),
                        };
                        PollAction::Done {
                            result: TaskResult {
                                result: text,
                                related_document: snapshot.related_document,
                            },
                        }
                    },
                    TaskStatus::Failure => {
                        let message = match snapshot.result {
                            Some(text) => text,
                            None => generic_failure_text(),
                        };
                        PollAction::Fail {
                            error: PaperlessToolError::TaskFailed { message },
                        }
                    },
                    _ => PollAction::Continue,
                }
            },
            PollEvent::Transport { message } => {
                if self.consecutive_failures == 0 {
                    self.consecutive_failures = 1;
                    PollAction::Continue
                } else {
                    PollAction::Fail {
                        error: PaperlessToolError::TransportError { message },
                    }
                }
            },
        }
    }
}

/// Decides whether a status is terminal, as [`is_terminal`] says.
pub fn status_is_terminal(status: TaskStatus) -> (r: bool)
    ensures
        r == is_terminal(status),
{
    match status {
        TaskStatus::Success => true,
        TaskStatus::Failure => true,
        _ => false,
    }
}

/// Decodes the document id the server links to a completed task:
/// exactly the nonempty all-digit texts whose value fits the id type
/// decode, and to their decimal value; anything else is `None`.
pub fn parse_document_id(text: &str) -> (r: Option<i32>)
    ensures
        r is Some <==> (is_decimal(text@) && decimal_value(text@) <= i32::MAX),
        r matches Some(v) ==> v as int == decimal_value(text@),
{
    let n = text.unicode_len();
    if n == 0 {
        return None;
    }
    let mut acc: u64 = 0;
    let mut i: usize = 0;
    while i < n
        invariant
            text@.len() == n,
            0 < n,
            i <= n,
            forall|j: int| 0 <= j < i ==> is_decimal_digit(text@[j]),
            acc as int == decimal_value(text@.take(i as int)),
            acc <= 0x7fff_ffff,
        decreases n - i,
    {
        let u = text.get_char(i) as u32;
        if u < 48 || u > 57 {
            return None;
        }
        proof {
            assert(text@.take(i as int + 1).drop_last() =~= text@.take(i as int));
            assert(text@.take(i as int + 1).last() == text@[i as int]);
        }
        acc = acc * 10 + ((u - 48) as u64);
        if acc > 0x7fff_ffff {
            proof {
                if is_decimal(text@) {
                    lemma_decimal_value_prefix_le(text@, i as int + 1);
                }
            }
            return None;
        }
        i = i + 1;
    }
    proof {
        assert(text@.take(n as int) =~= text@);
    }
    Some(acc as i32)
}

/// Decodes the server's task status text into a [`TaskStatus`]:
/// exactly the four known status strings decode, anything else is
/// `None`.
pub fn parse_task_status(text: &String) -> (r: Option<TaskStatus>)
    ensures
        r == Some(TaskStatus::Pending) <==> text@ == "PENDING"@,
        r == Some(TaskStatus::Started) <==> text@ == "STARTED"@,
        r == Some(TaskStatus::Success) <==> text@ == "SUCCESS"@,
        r == Some(TaskStatus::Failure) <==> text@ == "FAILURE"@,
        r is None <==> (text@ != "PENDING"@ && text@ != "STARTED"@ && text@ != "SUCCESS"@
            && text@ != "FAILURE"@),
{
    proof {
        reveal_strlit("PENDING");
        reveal_strlit("STARTED");
        reveal_strlit("SUCCESS");
        reveal_strlit("FAILURE");
        assert("PENDING"@[0] == 'P' && "FAILURE"@[0] == 'F');
        assert("STARTED"@[0] == 'S' && "SUCCESS"@[0] == 'S');
        assert("STARTED"@[1] == 'T' && "SUCCESS"@[1] == 'U');
    }
    if *text == "PENDING".to_owned() {
        Some(TaskStatus::Pending)
    } else if *text == "STARTED".to_owned() {
        Some(TaskStatus::Started)
    } else if *text == "SUCCESS".to_owned() {
        Some(TaskStatus::Success)
    } else if *text == "FAILURE".to_owned() {
        Some(TaskStatus::Failure)
    } else {
        None
    }
}

} // verus!
