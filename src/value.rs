use vstd::prelude::*;

verus! {

/// The identity token of a concrete error type.
///
/// Ad hoc message errors all share `Message`; every other error type is told
/// apart by its own number.
#[derive(Clone, Copy, Debug, PartialEq, Eq, Structural)]
pub enum TypeKey {
    Message,
    Custom(u64),
}

/// A concrete error value: what it is, how it displays on one line, what
/// caused it, and the backtrace it carries itself, if any.
pub struct ErrorValue {
    pub kind: TypeKey,
    pub message: String,
    pub source: Option<Box<ErrorValue>>,
    pub backtrace: Option<std::backtrace::Backtrace>,
}

impl ErrorValue {
    /// The cause chain that starts at this value: the value itself, then its
    /// source, then the source's source, until one has none.
    pub open spec fn chain(self) -> Seq<ErrorValue>
        decreases self,
    {
        match self.source {
            Some(next) => seq![self].add((*next).chain()),
            None => seq![self],
        }
    }
}

/// `next` is the direct source of `e`.
pub open spec fn caused_by(e: ErrorValue, next: ErrorValue) -> bool {
    match e.source {
        Some(n) => *n == next,
        None => false,
    }
}

/// The one-line renderings of the values in `chain`, in order.
pub open spec fn messages_of(chain: Seq<ErrorValue>) -> Seq<Seq<char>> {
    chain.map_values(|e: ErrorValue| e.message@)
}

} // verus!
