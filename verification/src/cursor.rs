//! The keyboard cursor: a stable source index into the candidate order,
//! mapped to a display position within the filtered list and moved by
//! keyboard motions with wraparound.

use vstd::prelude::*;

use crate::filter::DisplayedOption;

verus! {

/// The source index of the candidate the keyboard cursor targets.
///
/// The cursor survives re-filtering because it references a source index,
/// not a position in the filtered list; it may point at a candidate no
/// longer displayed, in which case the display position falls back to the
/// nearest entry at or after it.
#[derive(Clone, Copy, Debug, PartialEq, Eq, Structural)]
pub struct CursorPos {
    /// Position of the targeted candidate in the caller-supplied iteration
    /// order of the current frame.
    pub source_index: usize,
}

/// A keyboard motion recognised once per frame while the dropdown is open.
#[derive(Clone, Copy, Debug, PartialEq, Eq, Structural)]
pub enum Motion {
    /// Jump to the first displayed entry.
    Home,
    /// Jump to the last displayed entry.
    End,
    /// Step to the previous displayed entry, wrapping to the last.
    Up,
    /// Step to the next displayed entry, wrapping to the first.
    Down,
}

/// The source indices of the displayed options are strictly increasing.
pub open spec fn strictly_sorted_indices<Opt>(s: Seq<DisplayedOption<Opt>>) -> bool {
    forall|i: int, j: int|
        0 <= i < j < s.len() ==> #[trigger] s[i].source_index < #[trigger] s[j].source_index
}

/// The position of the first displayed option whose source index is at
/// least `ci`, or the length of the list if there is none.
pub open spec fn first_ge<Opt>(s: Seq<DisplayedOption<Opt>>, ci: int) -> int
    decreases s.len(),
{
    if s.len() == 0 {
        0
    } else if s[0].source_index >= ci {
        0
    } else {
        1 + first_ge(s.drop_first(), ci)
    }
}

/// Where a cursor with source index `ci` lands in the displayed list: the
/// first entry at or after `ci`, clamped to the last entry when `ci` is past
/// the end. Meaningful only for a non-empty list.
pub open spec fn display_pos_spec<Opt>(s: Seq<DisplayedOption<Opt>>, ci: int) -> int {
    if first_ge(s, ci) < s.len() {
        first_ge(s, ci)
    } else {
        s.len() - 1
    }
}

/// `first_ge` is the least position whose source index reaches `ci`.
pub proof fn lemma_first_ge<Opt>(s: Seq<DisplayedOption<Opt>>, ci: int)
    ensures
        0 <= first_ge(s, ci) <= s.len(),
        forall|k: int| 0 <= k < first_ge(s, ci) ==> #[trigger] s[k].source_index < ci,
        first_ge(s, ci) < s.len() ==> s[first_ge(s, ci)].source_index >= ci,
    decreases s.len(),
{
    if s.len() == 0 {
    } else if s[0].source_index >= ci {
    } else {
        lemma_first_ge(s.drop_first(), ci);
        assert forall|k: int| 0 <= k < first_ge(s, ci) implies #[trigger] s[k].source_index
            < ci by {
            if k > 0 {
                assert(s.drop_first()[k - 1] == s[k]);
            }
        }
        if first_ge(s, ci) < s.len() {
            assert(s.drop_first()[first_ge(s.drop_first(), ci)] == s[first_ge(s, ci)]);
        }
    }
}

/// Maps the cursor's source index to its display position in the filtered
/// list, or `None` when the list is empty.
pub fn display_position<Opt>(displayed: &Vec<DisplayedOption<Opt>>, cursor: &CursorPos) -> (r:
    Option<usize>)
    ensures
        r is None <==> displayed@.len() == 0,
        displayed@.len() > 0 ==> (r matches Option::Some(p) && p as int == display_pos_spec(
            displayed@,
            cursor.source_index as int,
        )),
{
    let len = displayed.len();
    if len == 0 {
        return Option::None;
    }
    let ci = cursor.source_index;
    proof {
        lemma_first_ge(displayed@, ci as int);
    }
    let mut i: usize = 0;
    while i < len
        invariant
            len == displayed@.len(),
            0 < len,
            i <= len,
            ci == cursor.source_index,
            forall|k: int| 0 <= k < i ==> #[trigger] displayed@[k].source_index < ci,
        decreases len - i,
    {
        if displayed[i].source_index >= ci {
            proof {
                lemma_first_ge(displayed@, ci as int);
                let fg = first_ge(displayed@, ci as int);
                if fg < i {
                    assert(displayed@[fg].source_index < ci);
                }
                assert(fg == i);
            }
            return Option::Some(i);
        }
        i = i + 1;
    }
    proof {
        lemma_first_ge(displayed@, ci as int);
        let fg = first_ge(displayed@, ci as int);
        if fg < len {
            assert(displayed@[fg].source_index < ci);
        }
        assert(fg == len);
    }
    Option::Some(len - 1)
}

/// The source index the cursor holds after applying motion `m`, for a
/// non-empty displayed list: first or last for Home and End, and one step
/// from the current display position with wraparound for Up and Down.
pub open spec fn moved_cursor<Opt>(s: Seq<DisplayedOption<Opt>>, ci: int, m: Motion) -> int {
    let d = display_pos_spec(s, ci);
    match m {
        Motion::Home => s[0].source_index as int,
        Motion::End => s[s.len() - 1].source_index as int,
        Motion::Up => if d <= 0 {
            s[s.len() - 1].source_index as int
        } else {
            s[d - 1].source_index as int
        },
        Motion::Down => if d >= s.len() - 1 {
            s[0].source_index as int
        } else {
            s[d + 1].source_index as int
        },
    }
}

/// Applies this frame's keyboard motion, if any, to the cursor. Motions are
/// no-ops when the displayed list is empty.
pub fn move_cursor_pos<Opt>(
    cursor: &mut CursorPos,
    displayed: &Vec<DisplayedOption<Opt>>,
    motion: Option<Motion>,
)
    ensures
        displayed@.len() == 0 || motion is None ==> *final(cursor) == *old(cursor),
        displayed@.len() > 0 ==> (match motion {
            Option::Some(m) => final(cursor).source_index as int == moved_cursor(
                displayed@,
                old(cursor).source_index as int,
                m,
            ),
            Option::None => *final(cursor) == *old(cursor),
        }),
{
    let len = displayed.len();
    if len == 0 {
        return ;
    }
    let m = match motion {
        Option::Some(m) => m,
        Option::None => {
            return ;
        },
    };
    match m {
        Motion::Home => {
            cursor.source_index = displayed[0].source_index;
        },
        Motion::End => {
            cursor.source_index = displayed[len - 1].source_index;
        },
        Motion::Up => {
            let d = match display_position(displayed, cursor) {
                Option::Some(d) => d,
                Option::None => {
                    return ;
                },
            };
            if d == 0 {
                cursor.source_index = displayed[len - 1].source_index;
            } else {
                cursor.source_index = displayed[d - 1].source_index;
            }
        },
        Motion::Down => {
            let d = match display_position(displayed, cursor) {
                Option::Some(d) => d,
                Option::None => {
                    return ;
                },
            };
            if d == len - 1 {
                cursor.source_index = displayed[0].source_index;
            } else {
                cursor.source_index = displayed[d + 1].source_index;
            }
        },
    }
}

/// Chooses this frame's starting cursor: the seed derived from the bound
/// value if the popup just opened, else the persisted cursor, else the
/// first source index.
pub fn resolve_cursor_pos(seeded: Option<CursorPos>, stored: Option<CursorPos>) -> (r: CursorPos)
    ensures
        r == (match seeded {
            Option::Some(c) => c,
            Option::None => (match stored {
                Option::Some(c) => c,
                Option::None => (CursorPos { source_index: 0 }),
            }),
        }),
{
    match seeded {
        Option::Some(c) => c,
        Option::None => match stored {
            Option::Some(c) => c,
            Option::None => CursorPos { source_index: 0 },
        },
    }
}

/// Re-filtering never silently relocates the cursor off its target while
/// that target remains visible: when the cursor's source index is present
/// in the displayed list, the display position is exactly that entry's
/// position in the list.
pub proof fn lemma_cursor_stability<Opt>(s: Seq<DisplayedOption<Opt>>, j: int)
    requires
        strictly_sorted_indices(s),
        0 <= j < s.len(),
    ensures
        display_pos_spec(s, s[j].source_index as int) == j,
{
    let ci = s[j].source_index as int;
    lemma_first_ge(s, ci);
    let fg = first_ge(s, ci);
    if fg < j {
        assert(s[fg].source_index < s[j].source_index);
    }
    if j < fg {
        assert(s[j].source_index < ci);
    }
}

/// Wraparound navigation: Up from the first displayed entry selects the
/// last, and Down from the last selects the first.
pub proof fn lemma_wraparound_navigation<Opt>(s: Seq<DisplayedOption<Opt>>)
    requires
        strictly_sorted_indices(s),
        s.len() > 0,
    ensures
        moved_cursor(s, s[0].source_index as int, Motion::Up) == s[s.len() - 1].source_index as int,
        moved_cursor(s, s[s.len() - 1].source_index as int, Motion::Down) == s[0].source_index as int,
{
    lemma_cursor_stability(s, 0);
    lemma_cursor_stability(s, s.len() - 1);
}

} // verus!
