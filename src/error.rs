use vstd::prelude::*;
use vstd::string::to_string_from_display_ensures;

use std::backtrace::Backtrace;

use crate::render::{debug_text, render_debug};
use crate::trace::{status_of, TraceStatus};
use crate::value::{messages_of, ErrorValue, TypeKey};

verus! {

/// A handle on any error value: one owning pointer to a heap record that
/// holds the value, the identity of its type and, when the value brings none
/// of its own, a backtrace taken when the handle was made.
pub struct Error {
    inner: Box<ErrorImpl>,
}

struct ErrorImpl {
    type_id: TypeKey,
    backtrace: Option<Backtrace>,
    error: ErrorValue,
}

/// The value an ad hoc error made from `message` holds.
pub open spec fn message_value(message: String) -> ErrorValue {
    ErrorValue { kind: TypeKey::Message, message, source: None, backtrace: None }
}

impl Error {
    /// The identity token recorded when the handle was made.
    pub closed spec fn type_id(self) -> TypeKey {
        self.inner.type_id
    }

    /// The wrapped value.
    pub closed spec fn root(self) -> ErrorValue {
        self.inner.error
    }

    /// The backtrace taken when the handle was made, if one was.
    pub closed spec fn captured(self) -> Option<Backtrace> {
        self.inner.backtrace
    }

    /// A backtrace is at hand: the one taken here, or else the value's own.
    /// Construction leaves exactly one of the two in place; a value written
    /// through a mutable borrow may bring a second, and the one taken here
    /// then still comes first.
    pub open spec fn wf(self) -> bool {
        self.captured().is_some() || self.root().backtrace.is_some()
    }

    /// The handle was made from `value` under the identity `key`: it holds the
    /// value, and took a backtrace exactly when the value brought none.
    pub open spec fn wraps(self, value: ErrorValue, key: TypeKey) -> bool {
        &&& self.root() == value
        &&& self.type_id() == key
        &&& self.captured().is_some() == value.backtrace.is_none()
    }

    /// The backtrace that belongs to this error.
    pub open spec fn trace(self) -> Backtrace {
        match self.captured() {
            Some(b) => b,
            None => self.root().backtrace.unwrap(),
        }
    }

    /// Whether the wrapped value is of the type that `key` identifies.
    pub open spec fn holds_type(self, key: TypeKey) -> bool {
        self.type_id() == key
    }

    /// What a downcast by value to `key` gives back.
    pub open spec fn downcast_result(self, key: TypeKey) -> Result<ErrorValue, Error> {
        if self.holds_type(key) {
            Ok(self.root())
        } else {
            Err(self)
        }
    }

    /// Wraps any error value. A backtrace is taken here only when the value
    /// does not carry one of its own.
    pub fn new(error: ErrorValue) -> (r: Error)
        ensures
            r.wraps(error, error.kind),
            r.wf(),
    {
        let key = error.kind;
        Error::construct(error, key)
    }

    /// Wraps a bare message as an error with no cause and no backtrace of its
    /// own; every such error shares the identity `TypeKey::Message`.
    pub fn new_adhoc(message: String) -> (r: Error)
        ensures
            r.wraps(message_value(message), TypeKey::Message),
            r.wf(),
    {
        let value = ErrorValue { kind: TypeKey::Message, message, source: None, backtrace: None };
        Error::construct(value, TypeKey::Message)
    }

    fn construct(error: ErrorValue, type_id: TypeKey) -> (r: Error)
        ensures
            r.wraps(error, type_id),
            r.wf(),
    {
        let backtrace = match &error.backtrace {
            Some(_) => None,
            None => Some(Backtrace::capture()),
        };
        Error { inner: Box::new(ErrorImpl { type_id, backtrace, error }) }
    }

    /// The wrapped value.
    pub fn as_error(&self) -> (r: &ErrorValue)
        ensures
            *r == self.root(),
    {
        &self.inner.error
    }

    /// The wrapped value, mutably. The handle keeps its identity token and its
    /// own backtrace; whatever is written through `r` becomes its value.
    pub fn as_error_mut(&mut self) -> (r: &mut ErrorValue)
        ensures
            *r == old(self).root(),
            final(self).root() == *final(r),
            final(self).type_id() == old(self).type_id(),
            final(self).captured() == old(self).captured(),
    {
        &mut self.inner.error
    }

    /// The backtrace of this error: the one taken when the handle was made,
    /// or else the one the value carries.
    pub fn backtrace(&self) -> (r: &Backtrace)
        requires
            self.wf(),
        ensures
            *r == self.trace(),
    {
        match &self.inner.backtrace {
            Some(b) => b,
            None => self.inner.error.backtrace.as_ref().unwrap(),
        }
    }

    /// Walks the cause chain, starting at the wrapped value.
    pub fn errors(&self) -> (r: Errors<'_>)
        ensures
            r@ == self.root().chain(),
    {
        Errors { next: Some(&self.inner.error) }
    }

    /// Whether the wrapped value is of the type that `key` identifies.
    pub fn is(&self, key: TypeKey) -> (r: bool)
        ensures
            r == self.holds_type(key),
    {
        key == self.inner.type_id
    }

    /// Takes the value out when it is of the type that `key` identifies;
    /// otherwise hands the handle back untouched.
    pub fn downcast(self, key: TypeKey) -> (r: Result<ErrorValue, Error>)
        ensures
            r == self.downcast_result(key),
    {
        if self.is(key) {
            let ErrorImpl { type_id: _, backtrace: _, error } = *self.inner;
            Ok(error)
        } else {
            Err(self)
        }
    }

    /// The value, mutably borrowed, when it is of the type that `key`
    /// identifies. The handle keeps its identity token and its own backtrace.
    pub fn downcast_mut(&mut self, key: TypeKey) -> (r: Option<&mut ErrorValue>)
        ensures
            r.is_some() == old(self).holds_type(key),
            match r {
                Some(v) => {
                    &&& *v == old(self).root()
                    &&& final(self).root() == *final(v)
                    &&& final(self).type_id() == old(self).type_id()
                    &&& final(self).captured() == old(self).captured()
                },
                None => *final(self) == *old(self),
            },
    {
        if self.is(key) {
            Some(&mut self.inner.error)
        } else {
            None
        }
    }

    /// The one-line rendering: exactly the wrapped value's own message.
    pub fn display(&self) -> (r: String)
        ensures
            r@ == self.root().message@,
    {
        self.inner.error.message.clone()
    }

    /// The multi-line diagnostic rendering: the messages of the whole cause
    /// chain, root first, then the section for this error's backtrace.
    pub fn debug(&self) -> (r: String)
        requires
            self.wf(),
        ensures
            exists|status: TraceStatus, trace: String|
                to_string_from_display_ensures::<Backtrace>(&self.trace(), trace) && r@
                    == debug_text(messages_of(self.root().chain()), status, trace@),
    {
        let ghost all = self.root().chain();
        let mut messages: Vec<String> = Vec::new();
        let mut walk = self.errors();
        loop
            invariant
                all == self.root().chain(),
                messages@.map_values(|m: String| m@) + messages_of(walk@) =~= messages_of(all),
            ensures
                walk@.len() == 0,
            decreases walk@.len(),
        {
            match walk.next() {
                Some(e) => {
                    messages.push(e.message.clone());
                },
                None => {
                    break;
                },
            }
        }
        assert(messages@.map_values(|m: String| m@) =~= messages_of(all));
        let trace = self.backtrace();
        let status = status_of(trace);
        let text = trace.to_string();
        render_debug(&messages, status, text.as_str())
    }

    /// The value, borrowed, when it is of the type that `key` identifies.
    pub fn downcast_ref(&self, key: TypeKey) -> (r: Option<&ErrorValue>)
        ensures
            r.is_some() == self.holds_type(key),
            r.is_some() ==> *r.unwrap() == self.root(),
    {
        if self.is(key) {
            Some(&self.inner.error)
        } else {
            None
        }
    }
}

impl From<ErrorValue> for Error {
    /// Wraps any error value, as `Error::new` does.
    fn from(error: ErrorValue) -> (r: Error)
        ensures
            r.wraps(error, error.kind),
            r.wf(),
    {
        Error::new(error)
    }
}

impl vstd::std_specs::convert::FromSpecImpl<ErrorValue> for Error {
    /// The backtrace a conversion may take is not a function of its argument,
    /// so no single result can be named.
    open spec fn obeys_from_spec() -> bool {
        false
    }

    open spec fn from_spec(v: ErrorValue) -> Error {
        arbitrary()
    }
}

/// A walk along a cause chain, root first. Each step yields one value and
/// moves on to its source.
pub struct Errors<'a> {
    next: Option<&'a ErrorValue>,
}

impl<'a> View for Errors<'a> {
    type V = Seq<ErrorValue>;

    /// The values the walk has still to yield, in order.
    closed spec fn view(&self) -> Seq<ErrorValue> {
        match self.next {
            Some(e) => e.chain(),
            None => Seq::empty(),
        }
    }
}

impl<'a> Errors<'a> {
    /// Yields the next value of the chain, or `None` once the chain is spent.
    pub fn next(&mut self) -> (r: Option<&'a ErrorValue>)
        ensures
            old(self)@.len() == 0 ==> r.is_none() && final(self)@ == old(self)@,
            old(self)@.len() > 0 ==> r.is_some() && *r.unwrap() == old(self)@[0]
                && final(self)@ == old(self)@.drop_first(),
    {
        match self.next {
            None => None,
            Some(e) => {
                self.next = match &e.source {
                    Some(s) => Some(&**s),
                    None => None,
                };
                assert(e.chain().drop_first() =~= self@);
                Some(e)
            },
        }
    }
}

} // verus!
