//! The closed set of resampling strategies, the speed-token mapping that
//! selects one, and the human-readable label reused in diagnostics.

use vstd::prelude::*;

use crate::text::str_eq;

verus! {

/// The two resampling strategies the transform pipeline accepts. `Quality`
/// resamples with a Catmull-Rom cubic, `Fast` with nearest-neighbour.
#[derive(Clone, Copy, Debug, PartialEq, Eq, Structural, Hash)]
pub enum Filter {
    Quality,
    Fast,
}

/// The documented negative tokens of the `speed` parameter. Exactly these
/// select the fast filter; every other value, and an absent parameter, selects
/// the default quality filter.
pub open spec fn is_fast_token(s: Seq<char>) -> bool {
    ||| s == "no"@
    ||| s == "false"@
    ||| s == "nein"@
    ||| s == "not"@
}

/// The filter a present `speed` value selects.
pub open spec fn filter_of_speed(s: Seq<char>) -> Filter {
    if is_fast_token(s) {
        Filter::Fast
    } else {
        Filter::Quality
    }
}

/// Map the optional `speed` query value to a filter. Total: every input maps
/// to exactly one of the two filters, never an error.
pub fn parse_filter(speed: Option<&str>) -> (f: Filter)
    ensures
        speed matches Some(s) ==> f == filter_of_speed(s@),
        speed is None ==> f == Filter::Quality,
{
    match speed {
        None => Filter::Quality,
        Some(s) => {
            if str_eq(s, "no") || str_eq(s, "false") || str_eq(s, "nein") || str_eq(s, "not") {
                Filter::Fast
            } else {
                Filter::Quality
            }
        },
    }
}

/// The diagnostic label of a filter: a pure, stable function of the selector.
pub open spec fn filter_label_spec(f: Filter) -> Seq<char> {
    match f {
        Filter::Quality => "Cubic: Catmull-Rom"@,
        Filter::Fast => "Nearest Neighbor"@,
    }
}

/// Human-readable filter label, incorporated in diagnostics beside the cache
/// key.
pub fn filter_label(f: Filter) -> (r: &'static str)
    ensures
        r@ == filter_label_spec(f),
{
    match f {
        Filter::Quality => "Cubic: Catmull-Rom",
        Filter::Fast => "Nearest Neighbor",
    }
}

/// The label distinguishes the filters: no two selectors share it.
pub proof fn lemma_filter_label_injective(a: Filter, b: Filter)
    ensures
        filter_label_spec(a) == filter_label_spec(b) ==> a == b,
{
    reveal_strlit("Cubic: Catmull-Rom");
    reveal_strlit("Nearest Neighbor");
    assert(("Cubic: Catmull-Rom"@).len() != ("Nearest Neighbor"@).len());
}

} // verus!
