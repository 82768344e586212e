//! A builder seen as an accumulator of setter calls: each field ends up with
//! the value of the last call that sets it.
use vstd::prelude::*;

verus! {

/// The last value that `pick` finds in a sequence of setter calls.
pub open spec fn last_value<S, T>(settings: Seq<S>, pick: spec_fn(S) -> Option<T>) -> Option<T>
    decreases settings.len(),
{
    if settings.len() == 0 {
        None
    } else {
        match pick(settings.last()) {
            Some(v) => Some(v),
            None => last_value(settings.drop_last(), pick),
        }
    }
}

/// An optional field as the last call that sets it leaves it, or as it was.
pub open spec fn field_after<S, T>(
    settings: Seq<S>,
    pick: spec_fn(S) -> Option<T>,
    before: Option<T>,
) -> Option<T> {
    match last_value(settings, pick) {
        Some(v) => Some(v),
        None => before,
    }
}

/// A plain field as the last call that sets it leaves it, or as it was.
pub open spec fn value_after<S, T>(
    settings: Seq<S>,
    pick: spec_fn(S) -> Option<T>,
    before: T,
) -> T {
    match last_value(settings, pick) {
        Some(v) => v,
        None => before,
    }
}

/// A flag that calls can only raise: raised when it was, or when some call
/// raises it.
pub open spec fn flag_after<S>(settings: Seq<S>, raise: S, before: bool) -> bool {
    before || settings.contains(raise)
}

} // verus!
