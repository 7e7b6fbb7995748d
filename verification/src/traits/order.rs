//! Comparisons of element values, as specifications see them.
use core::cmp::Ordering;
use vstd::prelude::*;
use vstd::std_specs::cmp::PartialOrdSpec;

verus! {

/// `<`, `<=`, `>` and `>=` on `V` return what `partial_cmp_spec` says.
pub open spec fn obeys_order<V: PartialOrd>() -> bool {
    V::obeys_partial_cmp_spec()
}

/// `a > b`.
pub open spec fn exceeds<V: PartialOrd>(a: V, b: V) -> bool {
    a.partial_cmp_spec(&b) == Some(Ordering::Greater)
}

/// `a >= b`.
pub open spec fn reaches<V: PartialOrd>(a: V, b: V) -> bool {
    a.partial_cmp_spec(&b) == Some(Ordering::Greater) || a.partial_cmp_spec(&b) == Some(
        Ordering::Equal,
    )
}

} // verus!
