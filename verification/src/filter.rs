//! The filter pass: classifies each candidate against the typed text in
//! supplied order, threading a running accumulator (matches so far, exact
//! match seen) through the pass, and keeps the matching candidates as
//! displayed options tagged with their source index.

use vstd::prelude::*;

use crate::cursor::CursorPos;
use crate::value::CustomOption;
use crate::value::FilterResult;
use crate::value::FilterState;
use crate::value::ValueOption;

verus! {

/// An option retained after filtering, tagged with its source index and
/// whether it equals the currently bound value.
pub struct DisplayedOption<Opt> {
    /// Position of this option in the caller-supplied iteration order.
    pub source_index: usize,
    /// The retained option itself.
    pub option: Opt,
    /// Whether this option resolves to the same value as the bound one.
    pub equals: bool,
}

/// The accumulated state of a filter pass over the first `n` candidates:
/// the source indices kept so far, in order, and whether an exact match has
/// occurred.
pub open spec fn pass_at<V, Opt: ValueOption<V>>(opts: Seq<Opt>, text: Seq<char>, n: int) -> (Seq<
    int,
>, bool)
    decreases n,
{
    if n <= 0 {
        (Seq::<int>::empty(), false)
    } else {
        let prev = pass_at(opts, text, n - 1);
        let r = opts[n - 1].filter_spec(text, prev.0.len() as int, prev.1);
        (
            if r == FilterResult::NoMatch {
                prev.0
            } else {
                prev.0.push(n - 1)
            },
            prev.1 || r == FilterResult::Exact,
        )
    }
}

/// The source indices kept by a filter pass over the first `n` candidates.
pub open spec fn kept_indices<V, Opt: ValueOption<V>>(opts: Seq<Opt>, text: Seq<char>, n: int) -> Seq<
    int,
> {
    pass_at::<V, Opt>(opts, text, n).0
}

/// How many of the first `n` candidates a filter pass keeps.
pub open spec fn prev_matches_at<V, Opt: ValueOption<V>>(
    opts: Seq<Opt>,
    text: Seq<char>,
    n: int,
) -> int {
    kept_indices::<V, Opt>(opts, text, n).len() as int
}

/// Whether any of the first `n` candidates classified as an exact match.
pub open spec fn had_exact_at<V, Opt: ValueOption<V>>(opts: Seq<Opt>, text: Seq<char>, n: int) -> bool {
    pass_at::<V, Opt>(opts, text, n).1
}

/// The classification the pass gives to candidate `i`, fed with the
/// accumulator over the candidates before it.
pub open spec fn result_at<V, Opt: ValueOption<V>>(opts: Seq<Opt>, text: Seq<char>, i: int) -> FilterResult {
    opts[i].filter_spec(
        text,
        prev_matches_at::<V, Opt>(opts, text, i),
        had_exact_at::<V, Opt>(opts, text, i),
    )
}

/// Whether candidate `i` is kept by the pass.
pub open spec fn retained_at<V, Opt: ValueOption<V>>(opts: Seq<Opt>, text: Seq<char>, i: int) -> bool {
    result_at::<V, Opt>(opts, text, i) != FilterResult::NoMatch
}

/// The largest index below `n` whose option resolves to the same value as
/// `selection`, if any.
pub open spec fn last_equal_index<V, Opt: ValueOption<V>>(
    opts: Seq<Opt>,
    selection: V,
    text: Seq<char>,
    n: int,
) -> Option<int>
    decreases n,
{
    if n <= 0 {
        Option::<int>::None
    } else if opts[n - 1].equals_spec(selection, text) {
        Option::Some(n - 1)
    } else {
        last_equal_index(opts, selection, text, n - 1)
    }
}

/// A found last-equal index lies within the scanned prefix.
pub proof fn lemma_last_equal_index_bounds<V, Opt: ValueOption<V>>(
    opts: Seq<Opt>,
    selection: V,
    text: Seq<char>,
    n: int,
)
    ensures
        (match last_equal_index(opts, selection, text, n) {
            Option::Some(i) => 0 <= i < n,
            Option::None => true,
        }),
    decreases n,
{
    if n > 0 {
        lemma_last_equal_index_bounds(opts, selection, text, n - 1);
    }
}

/// The kept indices are exactly the retained candidates, in source order,
/// so their sequence is strictly increasing.
pub proof fn lemma_kept_indices<V, Opt: ValueOption<V>>(opts: Seq<Opt>, text: Seq<char>, n: int)
    requires
        0 <= n,
    ensures
        forall|j: int|
            0 <= j < kept_indices::<V, Opt>(opts, text, n).len() ==> 0 <= #[trigger] kept_indices::<
                V,
                Opt,
            >(opts, text, n)[j] < n,
        forall|j1: int, j2: int|
            0 <= j1 < j2 < kept_indices::<V, Opt>(opts, text, n).len() ==> kept_indices::<V, Opt>(
                opts,
                text,
                n,
            )[j1] < kept_indices::<V, Opt>(opts, text, n)[j2],
        forall|k: int|
            0 <= k < n ==> (#[trigger] retained_at::<V, Opt>(opts, text, k) <==> kept_indices::<
                V,
                Opt,
            >(opts, text, n).contains(k)),
    decreases n,
{
    if n > 0 {
        lemma_kept_indices::<V, Opt>(opts, text, n - 1);
        let prev = kept_indices::<V, Opt>(opts, text, n - 1);
        let cur = kept_indices::<V, Opt>(opts, text, n);
        assert forall|k: int|
            0 <= k < n implies (#[trigger] retained_at::<V, Opt>(opts, text, k) <==> cur.contains(
            k,
        )) by {
            if k < n - 1 {
                if retained_at::<V, Opt>(opts, text, k) {
                    let j = choose|j: int| 0 <= j < prev.len() && prev[j] == k;
                    assert(cur[j] == k);
                } else {
                    if cur.contains(k) {
                        let j = choose|j: int| 0 <= j < cur.len() && cur[j] == k;
                        assert(j < prev.len() && prev[j] == k);
                    }
                }
            } else {
                if retained_at::<V, Opt>(opts, text, n - 1) {
                    assert(cur[cur.len() - 1] == n - 1);
                } else {
                    if cur.contains(n - 1) {
                        let j = choose|j: int| 0 <= j < cur.len() && cur[j] == n - 1;
                    }
                }
            }
        }
    }
}

/// What an exhausted accumulator means: an exact match was seen iff some
/// earlier candidate classified Exact, and a match was counted iff some
/// earlier candidate was retained.
pub proof fn lemma_pass_state<V, Opt: ValueOption<V>>(opts: Seq<Opt>, text: Seq<char>, n: int)
    requires
        0 <= n,
    ensures
        had_exact_at::<V, Opt>(opts, text, n) <==> exists|k: int|
            0 <= k < n && #[trigger] result_at::<V, Opt>(opts, text, k) == FilterResult::Exact,
        prev_matches_at::<V, Opt>(opts, text, n) > 0 <==> exists|k: int|
            0 <= k < n && #[trigger] retained_at::<V, Opt>(opts, text, k),
    decreases n,
{
    if n > 0 {
        lemma_pass_state::<V, Opt>(opts, text, n - 1);
        assert(had_exact_at::<V, Opt>(opts, text, n) == (had_exact_at::<V, Opt>(opts, text, n - 1)
            || result_at::<V, Opt>(opts, text, n - 1) == FilterResult::Exact));
        assert(prev_matches_at::<V, Opt>(opts, text, n) == prev_matches_at::<V, Opt>(
            opts,
            text,
            n - 1,
        ) + (if retained_at::<V, Opt>(opts, text, n - 1) {
            1int
        } else {
            0int
        }));
    }
}

/// Runs the filter pass over this frame's candidates in supplied order.
///
/// Returns the retained candidates as displayed options, and, when the
/// popup just opened (`popup_opened`), a cursor seeded to the last
/// candidate that resolves to the bound value.
pub fn filter_options<V, Opt: ValueOption<V>>(
    options: Vec<Opt>,
    text: &str,
    selection: &V,
    popup_opened: bool,
) -> (r: (Vec<DisplayedOption<Opt>>, Option<CursorPos>))
    ensures
        ({
            let kept = kept_indices::<V, Opt>(options@, text@, options@.len() as int);
            &&& r.0@.len() == kept.len()
            &&& forall|j: int|
                0 <= j < kept.len() ==> #[trigger] r.0@[j] == (DisplayedOption {
                    source_index: kept[j] as usize,
                    option: options@[kept[j]],
                    equals: options@[kept[j]].equals_spec(*selection, text@),
                })
        }),
        popup_opened ==> r.1 == (match last_equal_index(
            options@,
            *selection,
            text@,
            options@.len() as int,
        ) {
            Option::Some(i) => Option::Some(CursorPos { source_index: i as usize }),
            Option::None => Option::<CursorPos>::None,
        }),
        !popup_opened ==> r.1 is None,
{
    let ghost opts_view = options@;
    let n = options.len();
    let mut remaining = options;
    let mut filtered: Vec<DisplayedOption<Opt>> = Vec::new();
    let mut had_exact = false;
    let mut seed: Option<CursorPos> = Option::None;
    let mut i: usize = 0;
    while i < n
        invariant
            n == opts_view.len(),
            i <= n,
            remaining@ == opts_view.subrange(i as int, n as int),
            filtered@.len() == kept_indices::<V, Opt>(opts_view, text@, i as int).len(),
            forall|j: int|
                0 <= j < filtered@.len() ==> #[trigger] filtered@[j] == (DisplayedOption {
                    source_index: kept_indices::<V, Opt>(opts_view, text@, i as int)[j] as usize,
                    option: opts_view[kept_indices::<V, Opt>(opts_view, text@, i as int)[j]],
                    equals: opts_view[kept_indices::<V, Opt>(opts_view, text@, i as int)[j]].equals_spec(
                        *selection,
                        text@,
                    ),
                }),
            had_exact == had_exact_at::<V, Opt>(opts_view, text@, i as int),
            popup_opened ==> seed == (match last_equal_index(opts_view, *selection, text@, i as int) {
                Option::Some(k) => Option::Some(CursorPos { source_index: k as usize }),
                Option::None => Option::<CursorPos>::None,
            }),
            !popup_opened ==> seed is None,
        decreases n - i,
    {
        proof {
            assert(remaining@[0] == opts_view[i as int]);
        }
        let option = remaining.remove(0);
        proof {
            assert(remaining@ =~= opts_view.subrange(i + 1, n as int));
        }
        let equals = option.equals_value(selection, text);
        if popup_opened && equals {
            seed = Option::Some(CursorPos { source_index: i });
        }
        let state = FilterState { prev_matches: filtered.len(), had_exact };
        let result = option.filter_by_text(text, state);
        proof {
            assert(result == result_at::<V, Opt>(opts_view, text@, i as int));
        }
        match result {
            FilterResult::Partial => {
                filtered.push(DisplayedOption { source_index: i, option, equals });
            },
            FilterResult::Exact => {
                filtered.push(DisplayedOption { source_index: i, option, equals });
                had_exact = true;
            },
            FilterResult::NoMatch => {},
        }
        i = i + 1;
    }
    (filtered, seed)
}

/// A displayed list that mirrors the kept indices of a full filter pass —
/// as [`filter_options`] produces — carries strictly increasing source
/// indices, so the cursor laws apply to it.
pub proof fn lemma_filtered_sorted<V, Opt: ValueOption<V>>(
    opts: Seq<Opt>,
    text: Seq<char>,
    filtered: Seq<DisplayedOption<Opt>>,
)
    requires
        filtered.len() == kept_indices::<V, Opt>(opts, text, opts.len() as int).len(),
        forall|j: int|
            0 <= j < filtered.len() ==> #[trigger] filtered[j].source_index as int == kept_indices::<
                V,
                Opt,
            >(opts, text, opts.len() as int)[j],
    ensures
        crate::cursor::strictly_sorted_indices(filtered),
{
    lemma_kept_indices::<V, Opt>(opts, text, opts.len() as int);
    assert forall|i: int, j: int|
        0 <= i < j < filtered.len() implies #[trigger] filtered[i].source_index
        < #[trigger] filtered[j].source_index by {
        assert(filtered[i].source_index as int == kept_indices::<V, Opt>(
            opts,
            text,
            opts.len() as int,
        )[i]);
        assert(filtered[j].source_index as int == kept_indices::<V, Opt>(
            opts,
            text,
            opts.len() as int,
        )[j]);
    }
}

/// Custom-entry precedence: in a candidate sequence ending with the custom
/// pseudo-option, the custom entry is hidden when an earlier candidate
/// matched exactly, listed as a partial match when an earlier candidate
/// matched at all, and offered as the exact match otherwise.
pub proof fn lemma_custom_entry_precedence<V, Opt: ValueOption<V>>(
    opts: Seq<CustomOption<Opt>>,
    text: Seq<char>,
)
    requires
        opts.len() > 0,
        opts.last() is Custom,
    ensures
        (exists|k: int|
            0 <= k < opts.len() - 1 && #[trigger] result_at::<crate::value::CustomValue<V>,
                CustomOption<Opt>,
            >(opts, text, k) == FilterResult::Exact) ==> !retained_at::<crate::value::CustomValue<
            V,
        >, CustomOption<Opt>>(opts, text, opts.len() - 1),
        (!(exists|k: int|
            0 <= k < opts.len() - 1 && #[trigger] result_at::<crate::value::CustomValue<V>,
                CustomOption<Opt>,
            >(opts, text, k) == FilterResult::Exact) && (exists|k: int|
            0 <= k < opts.len() - 1 && #[trigger] retained_at::<crate::value::CustomValue<V>,
                CustomOption<Opt>,
            >(opts, text, k))) ==> result_at::<crate::value::CustomValue<V>, CustomOption<Opt>>(
            opts,
            text,
            opts.len() - 1,
        ) == FilterResult::Partial,
        (!(exists|k: int|
            0 <= k < opts.len() - 1 && #[trigger] result_at::<crate::value::CustomValue<V>,
                CustomOption<Opt>,
            >(opts, text, k) == FilterResult::Exact) && !(exists|k: int|
            0 <= k < opts.len() - 1 && #[trigger] retained_at::<crate::value::CustomValue<V>,
                CustomOption<Opt>,
            >(opts, text, k))) ==> result_at::<crate::value::CustomValue<V>, CustomOption<Opt>>(
            opts,
            text,
            opts.len() - 1,
        ) == FilterResult::Exact,
{
    let n = opts.len() - 1;
    lemma_pass_state::<crate::value::CustomValue<V>, CustomOption<Opt>>(opts, text, n);
}

} // verus!
