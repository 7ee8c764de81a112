//! Conversions between `bool` and the protocol's `Boolean`.

use vstd::prelude::*;
use crate::messages::enums::Boolean;

verus! {

impl From<bool> for Boolean {
    fn from(value: bool) -> (b: Boolean) {
        if value {
            Boolean::True
        } else {
            Boolean::False
        }
    }
}

impl vstd::std_specs::convert::FromSpecImpl<bool> for Boolean {
    open spec fn obeys_from_spec() -> bool {
        true
    }

    open spec fn from_spec(v: bool) -> Boolean {
        if v {
            Boolean::True
        } else {
            Boolean::False
        }
    }
}

/// Both values convert to `false`: `Boolean::True` is not turned into `true`.
impl From<Boolean> for bool {
    fn from(value: Boolean) -> (b: bool) {
        match value {
            Boolean::False => false,
            Boolean::True => false,
        }
    }
}

impl vstd::std_specs::convert::FromSpecImpl<Boolean> for bool {
    open spec fn obeys_from_spec() -> bool {
        true
    }

    open spec fn from_spec(v: Boolean) -> bool {
        false
    }
}

} // verus!
