//! The per-frame synchronisation protocol: reconciling the text buffer with
//! the bound value across focus transitions, running the filter pass, and
//! resolving the keyboard cursor — everything one update call decides, with
//! the rendering itself left to the host toolkit.

use vstd::prelude::*;
use vstd::string::StringExecFns;

use crate::cursor::CursorPos;
use crate::cursor::Motion;
use crate::cursor::display_pos_spec;
use crate::cursor::display_position;
use crate::cursor::move_cursor_pos;
use crate::cursor::moved_cursor;
use crate::cursor::resolve_cursor_pos;
use crate::filter::DisplayedOption;
use crate::filter::filter_options;
use crate::filter::kept_indices;
use crate::filter::lemma_last_equal_index_bounds;
use crate::filter::last_equal_index;
use crate::text::str_eq;
use crate::value::ValueOption;

verus! {

/// The focus transitions of the text field observed this frame.
#[derive(Clone, Copy, Debug, PartialEq, Eq, Structural)]
pub struct FocusState {
    /// The field currently holds input focus.
    pub has_focus: bool,
    /// The field gained focus this frame.
    pub gained_focus: bool,
    /// The field lost focus this frame.
    pub lost_focus: bool,
}

/// Whether the dropdown is shown this frame: the field holds focus, or is
/// losing it this exact frame (the popup is closing).
pub open spec fn popup_visible(focus: FocusState) -> bool {
    focus.has_focus || focus.lost_focus
}

/// Loads the persisted text buffer, defaulting to the bound value's
/// editable projection on the first frame for a widget identity.
pub fn load_text_buf(stored: Option<String>, hint: &str) -> (r: String)
    ensures
        r@ == (match stored {
            Option::Some(s) => s@,
            Option::None => hint@,
        }),
{
    match stored {
        Option::Some(s) => s,
        Option::None => String::from_str(hint),
    }
}

/// Reconciles the edited buffer with the bound value's editable projection:
/// when the field is idle the buffer is forced back to `hint`, and on the
/// frame focus is gained the buffer is cleared so typing starts from
/// scratch. The returned flag requests a redraw for an applied change.
pub fn sync_text_buffer(buffer: String, hint: &str, focus: FocusState) -> (r: (String, bool))
    ensures
        !popup_visible(focus) ==> r.0@ == hint@ && (r.1 <==> buffer@ != hint@),
        popup_visible(focus) && focus.gained_focus ==> r.0@ == Seq::<char>::empty() && r.1,
        popup_visible(focus) && !focus.gained_focus ==> r.0@ == buffer@ && !r.1,
{
    if !focus.has_focus && !focus.lost_focus {
        if !str_eq(buffer.as_str(), hint) {
            (String::from_str(hint), true)
        } else {
            (buffer, false)
        }
    } else if focus.gained_focus {
        (String::new(), true)
    } else {
        (buffer, false)
    }
}

/// Commits a displayed option against the current text: the bound value is
/// overwritten with the option's committed value, which the option then
/// recognises as equal to itself.
pub fn commit_selection<V, Opt: ValueOption<V>>(
    displayed: DisplayedOption<Opt>,
    text: &str,
    selection: &mut V,
)
    ensures
        displayed.option.commit_spec(*final(selection), text@),
        displayed.option.equals_spec(*final(selection), text@),
{
    let DisplayedOption { option, source_index: _, equals: _ } = displayed;
    let ghost o = option;
    *selection = option.into_value(text);
    proof {
        o.commit_round_trip(*selection, text@);
    }
}

/// Everything one update call decides, handed back to the host toolkit:
/// the buffer to show and persist, the filtered list to render, and the
/// cursor to highlight and persist.
pub struct FramePlan<Opt> {
    /// The reconciled text buffer, to render and persist.
    pub buffer: String,
    /// A redraw should be requested (the buffer was changed here).
    pub repaint: bool,
    /// The dropdown is visible this frame.
    pub show_popup: bool,
    /// The candidates retained by the filter pass, in source order.
    pub filtered: Vec<DisplayedOption<Opt>>,
    /// The cursor to persist for the next frame, or `None` when the popup
    /// is not shown and stale navigation state must be discarded.
    pub cursor: Option<CursorPos>,
    /// The position of the cursor within `filtered`, when any entry exists.
    pub display_cursor: Option<usize>,
}

/// The source index the cursor starts from this frame: the seed found from
/// the bound value when the popup just opened, else the persisted cursor,
/// else the first candidate.
pub open spec fn resolved_cursor_index<V, Opt: ValueOption<V>>(
    opts: Seq<Opt>,
    selection: V,
    text: Seq<char>,
    stored: Option<CursorPos>,
    gained_focus: bool,
) -> int {
    let seeded = if gained_focus {
        last_equal_index(opts, selection, text, opts.len() as int)
    } else {
        Option::<int>::None
    };
    match seeded {
        Option::Some(i) => i,
        Option::None => match stored {
            Option::Some(c) => c.source_index as int,
            Option::None => 0,
        },
    }
}

/// The source index the cursor holds at the end of the frame, after the
/// pending keyboard motion is applied to the resolved cursor.
pub open spec fn frame_cursor_index<V, Opt: ValueOption<V>>(
    opts: Seq<Opt>,
    selection: V,
    text: Seq<char>,
    stored: Option<CursorPos>,
    gained_focus: bool,
    motion: Option<Motion>,
    filtered: Seq<DisplayedOption<Opt>>,
) -> int {
    let resolved = resolved_cursor_index::<V, Opt>(opts, selection, text, stored, gained_focus);
    if filtered.len() > 0 {
        match motion {
            Option::Some(m) => moved_cursor(filtered, resolved, m),
            Option::None => resolved,
        }
    } else {
        resolved
    }
}

/// One update pass over the supplied candidates, excluding the rendering:
/// reconciles the edited buffer with the bound value, and — when the popup
/// is visible — filters the candidates against the reconciled text, seeds
/// or loads the cursor, applies the keyboard motion, and maps the cursor to
/// its display position. When the popup is not visible, the persisted
/// cursor is discarded so reopening recomputes it from the bound value.
pub fn plan_frame<V, Opt: ValueOption<V>>(
    buffer: String,
    hint: &str,
    stored_cursor: Option<CursorPos>,
    selection: &V,
    options: Vec<Opt>,
    focus: FocusState,
    motion: Option<Motion>,
) -> (r: FramePlan<Opt>)
    ensures
        !popup_visible(focus) ==> r.buffer@ == hint@ && (r.repaint <==> buffer@ != hint@),
        popup_visible(focus) && focus.gained_focus ==> r.buffer@ == Seq::<char>::empty()
            && r.repaint,
        popup_visible(focus) && !focus.gained_focus ==> r.buffer@ == buffer@ && !r.repaint,
        r.show_popup == popup_visible(focus),
        !popup_visible(focus) ==> r.filtered@.len() == 0 && r.cursor is None && r.display_cursor
            is None,
        popup_visible(focus) ==> ({
            let kept = kept_indices::<V, Opt>(options@, r.buffer@, options@.len() as int);
            &&& r.filtered@.len() == kept.len()
            &&& forall|j: int|
                0 <= j < kept.len() ==> #[trigger] r.filtered@[j] == (DisplayedOption {
                    source_index: kept[j] as usize,
                    option: options@[kept[j]],
                    equals: options@[kept[j]].equals_spec(*selection, r.buffer@),
                })
        }),
        popup_visible(focus) ==> ({
            let ci = frame_cursor_index::<V, Opt>(
                options@,
                *selection,
                r.buffer@,
                stored_cursor,
                focus.gained_focus,
                motion,
                r.filtered@,
            );
            &&& r.cursor == Option::Some(CursorPos { source_index: ci as usize })
            &&& ci as usize as int == ci
            &&& (r.display_cursor is None <==> r.filtered@.len() == 0)
            &&& r.filtered@.len() > 0 ==> (r.display_cursor matches Option::Some(p) && p as int
                == display_pos_spec(r.filtered@, ci))
        }),
{
    let (buffer, repaint) = sync_text_buffer(buffer, hint, focus);
    if !focus.has_focus && !focus.lost_focus {
        return FramePlan {
            buffer,
            repaint,
            show_popup: false,
            filtered: Vec::new(),
            cursor: Option::None,
            display_cursor: Option::None,
        };
    }
    let ghost opts_view = options@;
    let option_count = options.len();
    assert(opts_view.len() == option_count);
    let (filtered, seeded) = filter_options(options, buffer.as_str(), selection, focus.gained_focus);
    proof {
        lemma_last_equal_index_bounds::<V, Opt>(opts_view, *selection, buffer@, opts_view.len() as int);
    }
    let mut cursor = resolve_cursor_pos(seeded, stored_cursor);
    move_cursor_pos(&mut cursor, &filtered, motion);
    let display_cursor = display_position(&filtered, &cursor);
    FramePlan {
        buffer,
        repaint,
        show_popup: true,
        filtered,
        cursor: Option::Some(cursor),
        display_cursor,
    }
}

} // verus!
