//! An editable combo box: a single-line text field whose dropdown offers a
//! filtered list of typed candidate values, with keyboard navigation and an
//! optional "custom entry" pseudo-option for free-form input.
//!
//! The crate is split along the frame loop: everything that decides (text
//! buffer synchronisation, filtering and ranking, cursor resolution, commit)
//! lives here with full contracts, while the host UI toolkit supplies the
//! rendering and the per-widget persistent store around it.

mod controller;
mod cursor;
mod filter;
mod text;
mod value;

pub use controller::FocusState;
pub use controller::FramePlan;
pub use controller::commit_selection;
pub use controller::frame_cursor_index;
pub use controller::load_text_buf;
pub use controller::plan_frame;
pub use controller::popup_visible;
pub use controller::resolved_cursor_index;
pub use controller::sync_text_buffer;
pub use cursor::CursorPos;
pub use cursor::Motion;
pub use cursor::display_pos_spec;
pub use cursor::display_position;
pub use cursor::first_ge;
pub use cursor::lemma_cursor_stability;
pub use cursor::lemma_first_ge;
pub use cursor::lemma_wraparound_navigation;
pub use cursor::move_cursor_pos;
pub use cursor::moved_cursor;
pub use cursor::resolve_cursor_pos;
pub use cursor::strictly_sorted_indices;
pub use filter::DisplayedOption;
pub use filter::filter_options;
pub use filter::had_exact_at;
pub use filter::kept_indices;
pub use filter::last_equal_index;
pub use filter::lemma_custom_entry_precedence;
pub use filter::lemma_filtered_sorted;
pub use filter::lemma_kept_indices;
pub use filter::lemma_pass_state;
pub use filter::pass_at;
pub use filter::prev_matches_at;
pub use filter::result_at;
pub use filter::retained_at;
pub use text::contains_seq;
pub use text::lower_of;
pub use text::str_contains;
pub use text::str_eq;
pub use value::CustomOption;
pub use value::CustomValue;
pub use value::DisplayText;
pub use value::FilterResult;
pub use value::FilterState;
pub use value::ParseDisplayValue;
pub use value::Value;
pub use value::ValueOption;
pub use value::lemma_filter_correctness;
pub use value::spec_case_insensitive_filter;
