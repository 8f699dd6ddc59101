use vstd::prelude::*;

use crate::error::Error;
use crate::value::{caused_by, ErrorValue, TypeKey};

verus! {

/// Every handle made from a value (by `Error::new`, `Error::from` or
/// `Error::new_adhoc`) has exactly one backtrace at hand. When the value
/// brings its own, that one is the error's backtrace and none was taken;
/// otherwise one was taken when the handle was made.
pub proof fn backtrace_always_present(e: Error, value: ErrorValue, key: TypeKey)
    requires
        e.wraps(value, key),
    ensures
        e.wf(),
        e.captured().is_some() != value.backtrace.is_some(),
        value.backtrace.is_some() ==> e.captured().is_none() && e.trace() == value.backtrace.unwrap(),
        value.backtrace.is_none() ==> e.captured().is_some() && e.trace() == e.captured().unwrap(),
{
}

/// A handle made from a value of one type reports that type, and never any
/// other.
pub proof fn identity_sound(e: Error, value: ErrorValue, other: TypeKey)
    requires
        e.wraps(value, value.kind),
    ensures
        e.holds_type(value.kind),
        other != value.kind ==> !e.holds_type(other),
{
}

/// Downcasting a handle to the type of the value it was made from gives that
/// value back; downcasting it to any other type gives the handle back as it
/// was.
pub proof fn downcast_round_trip(e: Error, value: ErrorValue, other: TypeKey)
    requires
        e.wraps(value, value.kind),
    ensures
        e.downcast_result(value.kind) == Ok::<ErrorValue, Error>(value),
        other != value.kind ==> e.downcast_result(other) == Err::<ErrorValue, Error>(e),
{
}

/// The cause chain of a value is finite and in cause order: it starts at the
/// value, each entry is followed by its own source, and the last has none.
pub proof fn chain_in_cause_order(value: ErrorValue)
    ensures
        value.chain().len() >= 1,
        value.chain()[0] == value,
        forall|i: int|
            0 <= i < value.chain().len() - 1 ==> caused_by(
                #[trigger] value.chain()[i],
                value.chain()[i + 1],
            ),
        value.chain().last().source is None,
    decreases value,
{
    match value.source {
        Some(next) => {
            chain_in_cause_order(*next);
            let c = value.chain();
            let rest = (*next).chain();
            assert(c =~= seq![value].add(rest));
            assert forall|i: int| 0 <= i < c.len() - 1 implies caused_by(#[trigger] c[i], c[i + 1]) by {
                if i > 0 {
                    assert(c[i] == rest[i - 1]);
                    assert(c[i + 1] == rest[i]);
                }
            }
        },
        None => {},
    }
}

} // verus!
