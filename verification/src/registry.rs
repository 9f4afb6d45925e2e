//! The single-slot registry of the log sink, and the entry point through
//! which the native driver emits diagnostic text.
//!
//! The slot is explicit state: the embedding kernel keeps the one slot of the
//! process and hands it to the two operations, `set_log_printer` and
//! `put_string`.

use crate::text::{raw_bytes, text_of, validate_and_borrow};
use vstd::prelude::*;
use vstd::string::StringExecFns;

verus! {

/// A destination for diagnostic text.
pub trait LogSink {
    /// All the text that this sink has accepted, in the order it came.
    spec fn output(&self) -> Seq<char>;

    /// Accepts one piece of text.
    fn print(&mut self, text: &str)
        ensures
            final(self).output() == old(self).output() + text@,
    ;
}

/// A sink that keeps what it is given.
pub struct BufferSink {
    content: String,
}

impl BufferSink {
    /// A sink that has accepted nothing yet.
    pub fn new() -> (res: Self)
        ensures
            res.output() == Seq::<char>::empty(),
    {
        proof {
            reveal_strlit("");
        }
        let content = String::from_str("");
        assert(content@ =~= Seq::<char>::empty());
        BufferSink { content }
    }

    /// The text accumulated so far.
    pub fn content(&self) -> (res: &str)
        ensures
            res@ == self.output(),
    {
        self.content.as_str()
    }
}

impl LogSink for BufferSink {
    closed spec fn output(&self) -> Seq<char> {
        self.content@
    }

    fn print(&mut self, text: &str) {
        self.content.append(text);
    }
}

/// A sink that hands each text on to a callable, such as a plain function.
pub struct FnSink<F: Fn(&str)> {
    printer: F,
    handed: Ghost<Seq<char>>,
}

impl<F: Fn(&str)> FnSink<F> {
    #[verifier::type_invariant]
    spec fn accepts_all(self) -> bool {
        forall|text: &str| call_requires(self.printer, (text,))
    }

    /// A sink in front of `printer`, which has been handed nothing yet.
    pub fn new(printer: F) -> (res: Self)
        requires
            forall|text: &str| call_requires(printer, (text,)),
        ensures
            res.output() == Seq::<char>::empty(),
    {
        FnSink { printer, handed: Ghost(Seq::empty()) }
    }
}

impl<F: Fn(&str)> LogSink for FnSink<F> {
    closed spec fn output(&self) -> Seq<char> {
        self.handed@
    }

    fn print(&mut self, text: &str) {
        proof {
            use_type_invariant(&*self);
        }
        (self.printer)(text);
        self.handed = Ghost(self.handed@ + text@);
    }
}

/// The slot that holds the installed sink, if any.
pub struct CallbackSlot<S: LogSink> {
    sink: Option<S>,
}

impl<S: LogSink> View for CallbackSlot<S> {
    type V = Option<S>;

    closed spec fn view(&self) -> Option<S> {
        self.sink
    }
}

impl<S: LogSink> CallbackSlot<S> {
    /// The empty slot, as it is at process start.
    pub fn new() -> (res: Self)
        ensures
            res@.is_none(),
    {
        CallbackSlot { sink: None }
    }

    /// The installed sink, if any.
    pub fn sink(&self) -> (res: Option<&S>)
        ensures
            match res {
                Some(s) => self@ == Some(*s),
                None => self@.is_none(),
            },
    {
        self.sink.as_ref()
    }
}

/// What the slot holds once text `t` has gone to the sink held in `before`.
pub open spec fn delivered<S: LogSink>(before: Option<S>, after: Option<S>, t: Seq<char>) -> bool {
    match (before, after) {
        (Some(b), Some(a)) => a.output() == b.output() + t,
        _ => false,
    }
}

/// Text that reaches a sink piece by piece has reached it as one: two
/// deliveries in a row are the delivery of the two texts joined, in order.
pub proof fn lemma_delivered_in_order<S: LogSink>(
    first: Option<S>,
    second: Option<S>,
    third: Option<S>,
    t: Seq<char>,
    u: Seq<char>,
)
    requires
        delivered(first, second, t),
        delivered(second, third, u),
    ensures
        delivered(first, third, t + u),
{
    let base = first.unwrap().output();
    assert((base + t) + u =~= base + (t + u));
}

/// Installs `printer`, replacing the sink that was installed, if any.
pub fn set_log_printer<S: LogSink>(slot: &mut CallbackSlot<S>, printer: S)
    ensures
        final(slot)@ == Some(printer),
{
    slot.sink = Some(printer);
}

/// Emits one line of diagnostic text.
///
/// Text that fails validation is dropped, and so is text that arrives while
/// no sink is installed: the slot is then unchanged and the result `false`.
/// Otherwise the installed sink accepts the text, once, and the result is
/// `true`.
pub fn put_string<S: LogSink>(slot: &mut CallbackSlot<S>, s: Option<&[u8]>) -> (res: bool)
    ensures
        res == (text_of(raw_bytes(s)).is_some() && old(slot)@.is_some()),
        res ==> delivered(old(slot)@, final(slot)@, text_of(raw_bytes(s)).unwrap()),
        !res ==> final(slot)@ == old(slot)@,
{
    let text = match validate_and_borrow(s) {
        Some(text) => text,
        None => { return false; },
    };
    match &mut slot.sink {
        Some(sink) => {
            sink.print(text);
            true
        },
        None => false,
    }
}

} // verus!
