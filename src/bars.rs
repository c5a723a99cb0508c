use vstd::prelude::*;

use crate::price::Price;

verus! {

/// The low and high of one historical bar.
#[derive(Clone, Copy, PartialEq, Eq, Structural, Debug)]
pub struct Bar {
    pub low: Price,
    pub high: Price,
}

/// The lowest low and the highest high of `bars`, or nothing for no bars.
pub fn day_range(bars: &Vec<Bar>) -> (r: Option<(Price, Price)>)
    ensures
        bars@.len() == 0 <==> r is None,
        r matches Some((lo, hi)) ==> {
            &&& exists|i: int| 0 <= i < bars@.len() && (#[trigger] bars@[i]).low == lo
            &&& exists|i: int| 0 <= i < bars@.len() && (#[trigger] bars@[i]).high == hi
            &&& forall|i: int|
                0 <= i < bars@.len() ==> lo.units <= (#[trigger] bars@[i]).low.units
                    && hi.units >= bars@[i].high.units
        },
{
    if bars.len() == 0 {
        return None;
    }
    let mut lo = bars[0].low;
    let mut hi = bars[0].high;
    let mut i: usize = 1;
    while i < bars.len()
        invariant
            1 <= i <= bars@.len(),
            exists|j: int| 0 <= j < bars@.len() && (#[trigger] bars@[j]).low == lo,
            exists|j: int| 0 <= j < bars@.len() && (#[trigger] bars@[j]).high == hi,
            forall|j: int|
                0 <= j < i ==> lo.units <= (#[trigger] bars@[j]).low.units && hi.units
                    >= bars@[j].high.units,
        decreases bars@.len() - i,
    {
        if bars[i].low.units < lo.units {
            lo = bars[i].low;
        }
        if bars[i].high.units > hi.units {
            hi = bars[i].high;
        }
        i = i + 1;
    }
    Some((lo, hi))
}

} // verus!
