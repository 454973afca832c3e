//! Names of performance marks, and the thread tag that may follow them.

use crate::text::{decimal, lemma_radix_digits_injective, lower_hex, push_decimal, push_lower_hex};
use vstd::prelude::*;

verus! {

/// How the thread that reports a span or an event shows in the output.
#[derive(Debug, PartialEq, Eq, Clone, Copy)]
pub enum ThreadMark {
    /// Threads are not told apart: nothing is added to the output.
    Unmarked,
    /// The reporting thread is not a worker of a thread pool.
    Main,
    /// The reporting thread is the worker with this index in its pool.
    Worker(usize),
}

impl ThreadMark {
    /// The mark of a thread whose index in its pool is `index`, where `None`
    /// stands for a thread outside any pool.
    pub open spec fn of_index(index: Option<usize>) -> ThreadMark {
        match index {
            Some(i) => ThreadMark::Worker(i),
            None => ThreadMark::Main,
        }
    }

    /// The text that follows the origin of a message: nothing when threads
    /// are not told apart, else ` #` and the worker's index, or ` #main`.
    pub open spec fn suffix(self) -> Seq<char> {
        match self {
            ThreadMark::Unmarked => Seq::empty(),
            ThreadMark::Main => " #main"@,
            ThreadMark::Worker(i) => " #"@ + decimal(i as nat),
        }
    }

    /// The number that ends the mark name of a span: the worker's index, and
    /// 999 for a thread outside any pool.
    pub open spec fn mark_index(self) -> nat {
        match self {
            ThreadMark::Worker(i) => i as nat,
            _ => 999,
        }
    }

    /// The text that ends the mark name of a span: nothing when threads are
    /// not told apart, else `-` and [`Self::mark_index`].
    pub open spec fn mark_tail(self) -> Seq<char> {
        match self {
            ThreadMark::Unmarked => Seq::empty(),
            _ => "-"@ + decimal(self.mark_index()),
        }
    }

    /// The mark of a thread whose index in its pool is `index`.
    pub fn from_index(index: Option<usize>) -> (mark: ThreadMark)
        ensures
            mark == ThreadMark::of_index(index),
    {
        match index {
            Some(i) => ThreadMark::Worker(i),
            None => ThreadMark::Main,
        }
    }

    /// The mark of the calling thread, for output that tells threads apart.
    /// Which of `Main` and `Worker` comes back depends on the caller's
    /// thread alone.
    pub fn current() -> (mark: ThreadMark)
        ensures
            !(mark is Unmarked),
    {
        ThreadMark::from_index(pool_thread_index())
    }
}

/// Asks `rayon::current_thread_index` for the index of the calling thread
/// within its rayon pool; `None` means that the caller is no rayon worker.
/// The answer depends on the thread that asks, so nothing is claimed of it.
#[verifier::external_body]
fn pool_thread_index() -> Option<usize> {
    rayon::current_thread_index()
}

/// The mark name of the span with identifier `id`: `t`, the identifier in
/// lower-case hexadecimal, and the thread's tail.
pub open spec fn span_mark(id: u64, thread: ThreadMark) -> Seq<char> {
    "t"@ + lower_hex(id as nat) + thread.mark_tail()
}

/// The mark name of the event that drew `event_id` from the event counter:
/// `c` and the number in lower-case hexadecimal.
pub open spec fn event_mark(event_id: usize) -> Seq<char> {
    "c"@ + lower_hex(event_id as nat)
}

/// Events that drew different numbers from the event counter have different
/// mark names.
pub proof fn lemma_event_marks_distinct(a: usize, b: usize)
    requires
        a != b,
    ensures
        event_mark(a) != event_mark(b),
{
    reveal_strlit("c");
    if event_mark(a) == event_mark(b) {
        assert(lower_hex(a as nat) =~= event_mark(a).subrange(1, event_mark(a).len() as int));
        assert(lower_hex(b as nat) =~= event_mark(b).subrange(1, event_mark(b).len() as int));
        lemma_radix_digits_injective(a as nat, b as nat, 16);
    }
}

/// Spans with different identifiers, reported from one thread, have
/// different mark names.
pub proof fn lemma_span_marks_distinct(a: u64, b: u64, thread: ThreadMark)
    requires
        a != b,
    ensures
        span_mark(a, thread) != span_mark(b, thread),
{
    reveal_strlit("t");
    let tail = thread.mark_tail();
    let name_a = span_mark(a, thread);
    let name_b = span_mark(b, thread);
    if name_a == name_b {
        assert(lower_hex(a as nat) =~= name_a.subrange(1, name_a.len() - tail.len()));
        assert(lower_hex(b as nat) =~= name_b.subrange(1, name_b.len() - tail.len()));
        lemma_radix_digits_injective(a as nat, b as nat, 16);
    }
}

/// Appends the thread's suffix to `out`.
pub fn push_thread_suffix(out: &mut String, thread: ThreadMark)
    ensures
        final(out)@ == old(out)@ + thread.suffix(),
{
    match thread {
        ThreadMark::Unmarked => {},
        ThreadMark::Main => {
            out.append(" #main");
        },
        ThreadMark::Worker(i) => {
            out.append(" #");
            push_decimal(out, i as u64);
        },
    }
}

/// The text that tells the reporting thread in a message.
pub fn thread_display_suffix(thread: ThreadMark) -> (suffix: String)
    ensures
        suffix@ == thread.suffix(),
{
    let mut suffix = String::new();
    push_thread_suffix(&mut suffix, thread);
    suffix
}

/// The name under which the span with identifier `id` is marked when it is
/// entered, and from which it is measured when it exits.
pub fn mark_name(id: u64, thread: ThreadMark) -> (name: String)
    ensures
        name@ == span_mark(id, thread),
{
    let mut name = String::new();
    name.append("t");
    push_lower_hex(&mut name, id);
    match thread {
        ThreadMark::Unmarked => {},
        ThreadMark::Main => {
            name.append("-");
            push_decimal(&mut name, 999);
        },
        ThreadMark::Worker(i) => {
            name.append("-");
            push_decimal(&mut name, i as u64);
        },
    }
    name
}

/// The name under which the event that drew `event_id` from the event
/// counter is marked.
pub fn event_mark_name(event_id: usize) -> (name: String)
    ensures
        name@ == event_mark(event_id),
{
    let mut name = String::new();
    name.append("c");
    push_lower_hex(&mut name, event_id as u64);
    name
}

} // verus!
