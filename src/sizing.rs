//! Choosing a buffer size: a power of two, on whole pages, within a budget
//! of wasted bytes.

use vstd::prelude::*;
use crate::offset::{checked_next_power_of_two, is_a_power_of_two, is_power_of_two, next_power_of_two, LARGEST_POWER_OF_TWO};

verus! {

/// The smallest power-of-two multiple of a power-of-two `page_size` that is
/// at least `preferred`, if it wastes at most `waste` bytes.
pub open spec fn fit_on_pages(preferred: u64, page_size: u64, waste: u64) -> Option<u64> {
    if preferred > LARGEST_POWER_OF_TWO || !is_power_of_two(page_size) {
        None
    } else {
        let rounded = next_power_of_two(preferred);
        let n = if page_size >= rounded { page_size } else { rounded };
        if n - preferred <= waste { Some(n) } else { None }
    }
}

/// The fit on the first of `page_sizes`, in order of preference, that has
/// one.
pub open spec fn best_fit(preferred: u64, page_sizes: Seq<u64>, waste: u64) -> Option<u64>
    decreases page_sizes.len(),
{
    if page_sizes.len() == 0 {
        None
    } else {
        match fit_on_pages(preferred, page_sizes[0], waste) {
            Some(n) => Some(n),
            None => best_fit(preferred, page_sizes.drop_first(), waste),
        }
    }
}

/// The smallest power-of-two multiple of `page_size` that is at least
/// `preferred`, if it wastes at most `inclusive_maximum_bytes_wasted` bytes.
pub fn fit_on_page_size(preferred: u64, page_size: u64, inclusive_maximum_bytes_wasted: u64) -> (r: Option<u64>)
    ensures
        r == fit_on_pages(preferred, page_size, inclusive_maximum_bytes_wasted),
        r matches Some(n) ==> is_power_of_two(n) && preferred <= n && n - preferred <= inclusive_maximum_bytes_wasted,
{
    if !is_a_power_of_two(page_size) {
        return None;
    }
    match checked_next_power_of_two(preferred) {
        None => None,
        Some(rounded) => {
            let n = if page_size >= rounded { page_size } else { rounded };
            if n - preferred <= inclusive_maximum_bytes_wasted {
                Some(n)
            } else {
                None
            }
        },
    }
}

/// The best buffer size for `preferred` bytes: on the first of
/// `page_sizes` (in order of preference; an ordinary page, then huge pages)
/// whose smallest power-of-two multiple at least `preferred` wastes at most
/// `inclusive_maximum_bytes_wasted` bytes; `None` when there is none.
pub fn size_suitable_for_a_power_of_two_ring_queue(preferred: u64, page_sizes: &Vec<u64>, inclusive_maximum_bytes_wasted: u64) -> (r: Option<u64>)
    ensures
        r == best_fit(preferred, page_sizes@, inclusive_maximum_bytes_wasted),
{
    let mut i: usize = 0;
    assert(page_sizes@.subrange(0, page_sizes@.len() as int) =~= page_sizes@);
    while i < page_sizes.len()
        invariant
            i <= page_sizes@.len(),
            best_fit(preferred, page_sizes@, inclusive_maximum_bytes_wasted)
                == best_fit(preferred, page_sizes@.subrange(i as int, page_sizes@.len() as int), inclusive_maximum_bytes_wasted),
        decreases page_sizes@.len() - i,
    {
        proof {
            let rest = page_sizes@.subrange(i as int, page_sizes@.len() as int);
            assert(rest.drop_first() =~= page_sizes@.subrange(i + 1, page_sizes@.len() as int));
        }
        match fit_on_page_size(preferred, page_sizes[i], inclusive_maximum_bytes_wasted) {
            Some(n) => return Some(n),
            None => {},
        }
        i = i + 1;
    }
    None
}

} // verus!
