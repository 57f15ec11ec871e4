use egui_editable_combobox::CursorPos;
use egui_editable_combobox::CustomOption;
use egui_editable_combobox::CustomValue;
use egui_editable_combobox::DisplayedOption;
use egui_editable_combobox::FilterResult;
use egui_editable_combobox::FilterState;
use egui_editable_combobox::FocusState;
use egui_editable_combobox::Motion;
use egui_editable_combobox::ParseDisplayValue;
use egui_editable_combobox::Value;
use egui_editable_combobox::ValueOption;
use egui_editable_combobox::commit_selection;
use egui_editable_combobox::display_position;
use egui_editable_combobox::filter_options;
use egui_editable_combobox::load_text_buf;
use egui_editable_combobox::move_cursor_pos;
use egui_editable_combobox::plan_frame;
use egui_editable_combobox::resolve_cursor_pos;
use egui_editable_combobox::str_contains;
use egui_editable_combobox::str_eq;
use egui_editable_combobox::sync_text_buffer;

fn continents() -> Vec<String> {
    vec![
        "Africa".to_string(),
        "America".to_string(),
        "Antarctica".to_string(),
        "Eurasia".to_string(),
        "Oceania".to_string(),
    ]
}

fn idle() -> FocusState {
    FocusState { has_focus: false, gained_focus: false, lost_focus: false }
}

fn focused() -> FocusState {
    FocusState { has_focus: true, gained_focus: false, lost_focus: false }
}

fn gaining() -> FocusState {
    FocusState { has_focus: true, gained_focus: true, lost_focus: false }
}

#[test]
fn str_helpers() {
    assert!(str_eq("abc", "abc"));
    assert!(!str_eq("abc", "abd"));
    assert!(!str_eq("abc", "abcd"));
    assert!(str_contains("antarctica", "arc"));
    assert!(str_contains("antarctica", ""));
    assert!(!str_contains("antarctica", "zz"));
    assert!(!str_contains("ant", "antar"));
}

#[test]
fn filter_classification() {
    assert_eq!(
        FilterResult::from_case_insensitive_substring("Antarctica", "ant"),
        FilterResult::Partial
    );
    assert_eq!(
        FilterResult::from_case_insensitive_substring("Africa", "africa"),
        FilterResult::Exact
    );
    assert_eq!(
        FilterResult::from_case_insensitive_substring("africa", "AFRICA"),
        FilterResult::Exact
    );
    assert_eq!(
        FilterResult::from_case_insensitive_substring("Africa", "zz"),
        FilterResult::NoMatch
    );
    assert_eq!(FilterResult::from_case_insensitive_substring("Africa", ""), FilterResult::Partial);
    assert_eq!(FilterResult::from_case_insensitive_substring("", ""), FilterResult::Exact);
}

#[test]
fn custom_option_state_rules() {
    let custom: CustomOption<String> = CustomOption::Custom;
    let no_prior = FilterState { prev_matches: 0, had_exact: false };
    assert_eq!(
        ValueOption::<CustomValue<String>>::filter_by_text(&custom, "zz", no_prior),
        FilterResult::Exact
    );
    let partial_prior = FilterState { prev_matches: 2, had_exact: false };
    assert_eq!(
        ValueOption::<CustomValue<String>>::filter_by_text(&custom, "a", partial_prior),
        FilterResult::Partial
    );
    let exact_prior = FilterState { prev_matches: 1, had_exact: true };
    assert_eq!(
        ValueOption::<CustomValue<String>>::filter_by_text(&custom, "africa", exact_prior),
        FilterResult::NoMatch
    );
}

#[test]
fn filter_pass_typed_ant() {
    // Candidates filtered against "ant": only "Antarctica" remains.
    let bound = "Antarctica".to_string();
    let (filtered, seed) = filter_options(continents(), "ant", &bound, false);
    assert_eq!(filtered.len(), 1);
    assert_eq!(filtered[0].source_index, 2);
    assert_eq!(filtered[0].option, "Antarctica".to_string());
    assert!(filtered[0].equals); // the retained option is the bound value itself
    assert!(seed.is_none());
}

#[test]
fn filter_pass_seeds_cursor_on_open() {
    let bound = "Antarctica".to_string();
    let (filtered, seed) = filter_options(continents(), "", &bound, true);
    assert_eq!(filtered.len(), 5);
    assert_eq!(seed, Some(CursorPos { source_index: 2 }));
    assert!(filtered[2].equals);
    assert!(!filtered[0].equals);
}

#[test]
fn exact_match_hides_custom_entry() {
    // Typing "africa" matches "Africa" exactly, so the custom entry is hidden.
    let bound: CustomValue<String> = CustomValue::Value("Africa".to_string());
    let options: Vec<CustomOption<String>> = vec![
        CustomOption::Value("Africa".to_string()),
        CustomOption::Value("America".to_string()),
        CustomOption::Custom,
    ];
    let (filtered, _) = filter_options(options, "africa", &bound, false);
    assert_eq!(filtered.len(), 1);
    assert_eq!(filtered[0].source_index, 0);
}

#[test]
fn unmatched_text_offers_custom_entry() {
    // No candidate matches "zz": only the custom pseudo-option remains.
    let bound: CustomValue<String> = CustomValue::Value("Africa".to_string());
    let options: Vec<CustomOption<String>> = vec![
        CustomOption::Value("Africa".to_string()),
        CustomOption::Value("America".to_string()),
        CustomOption::Custom,
    ];
    let (mut filtered, _) = filter_options(options, "zz", &bound, false);
    assert_eq!(filtered.len(), 1);
    assert_eq!(filtered[0].source_index, 2);
    // Committing the custom entry wraps the typed text.
    let displayed = filtered.remove(0);
    let mut value: CustomValue<String> = CustomValue::Value("Africa".to_string());
    commit_selection(displayed, "zz", &mut value);
    match value {
        CustomValue::Custom(s) => assert_eq!(s, "zz"),
        CustomValue::Value(_) => panic!("expected a custom value"),
    }
}

#[test]
fn partial_matches_list_custom_entry_last() {
    let bound: CustomValue<String> = CustomValue::Value("Africa".to_string());
    let options: Vec<CustomOption<String>> = vec![
        CustomOption::Value("Africa".to_string()),
        CustomOption::Value("America".to_string()),
        CustomOption::Custom,
    ];
    let (filtered, _) = filter_options(options, "a", &bound, false);
    assert_eq!(filtered.len(), 3);
    assert_eq!(filtered[0].source_index, 0);
    assert_eq!(filtered[1].source_index, 1);
    assert_eq!(filtered[2].source_index, 2);
}

fn displayed(indices: &[usize]) -> Vec<DisplayedOption<String>> {
    indices
        .iter()
        .map(|&source_index| DisplayedOption {
            source_index,
            option: format!("option {source_index}"),
            equals: false,
        })
        .collect()
}

#[test]
fn cursor_clamps_to_nearest_successor() {
    // Cursor at "America" (index 1); the list re-filters to indices 0 and 3:
    // the display position falls on index 3, not back to the start.
    let list = displayed(&[0, 3]);
    let cursor = CursorPos { source_index: 1 };
    assert_eq!(display_position(&list, &cursor), Some(1));
}

#[test]
fn cursor_keeps_exact_target() {
    let list = displayed(&[0, 2, 4]);
    assert_eq!(display_position(&list, &CursorPos { source_index: 2 }), Some(1));
    assert_eq!(display_position(&list, &CursorPos { source_index: 4 }), Some(2));
}

#[test]
fn cursor_clamps_past_end() {
    let list = displayed(&[0, 2]);
    assert_eq!(display_position(&list, &CursorPos { source_index: 9 }), Some(1));
    let empty: Vec<DisplayedOption<String>> = Vec::new();
    assert_eq!(display_position(&empty, &CursorPos { source_index: 0 }), None);
}

#[test]
fn wraparound_navigation() {
    let list = displayed(&[1, 3, 5]);
    // Down from the last entry wraps to the first.
    let mut cursor = CursorPos { source_index: 5 };
    move_cursor_pos(&mut cursor, &list, Some(Motion::Down));
    assert_eq!(cursor.source_index, 1);
    // Up from the first entry wraps to the last.
    let mut cursor = CursorPos { source_index: 1 };
    move_cursor_pos(&mut cursor, &list, Some(Motion::Up));
    assert_eq!(cursor.source_index, 5);
}

#[test]
fn stepwise_navigation() {
    let list = displayed(&[1, 3, 5]);
    let mut cursor = CursorPos { source_index: 3 };
    move_cursor_pos(&mut cursor, &list, Some(Motion::Down));
    assert_eq!(cursor.source_index, 5);
    move_cursor_pos(&mut cursor, &list, Some(Motion::Up));
    assert_eq!(cursor.source_index, 3);
    move_cursor_pos(&mut cursor, &list, Some(Motion::Home));
    assert_eq!(cursor.source_index, 1);
    move_cursor_pos(&mut cursor, &list, Some(Motion::End));
    assert_eq!(cursor.source_index, 5);
    move_cursor_pos(&mut cursor, &list, None);
    assert_eq!(cursor.source_index, 5);
}

#[test]
fn motions_ignore_empty_list() {
    let empty: Vec<DisplayedOption<String>> = Vec::new();
    let mut cursor = CursorPos { source_index: 7 };
    move_cursor_pos(&mut cursor, &empty, Some(Motion::Down));
    assert_eq!(cursor.source_index, 7);
}

#[test]
fn cursor_resolution_order() {
    let seeded = Some(CursorPos { source_index: 4 });
    let stored = Some(CursorPos { source_index: 1 });
    assert_eq!(resolve_cursor_pos(seeded, stored).source_index, 4);
    assert_eq!(resolve_cursor_pos(None, stored).source_index, 1);
    assert_eq!(resolve_cursor_pos(None, None).source_index, 0);
}

#[test]
fn idle_buffer_follows_bound_value() {
    // First frame for a widget: no stored buffer, the hint fills in.
    assert_eq!(load_text_buf(None, "Antarctica"), "Antarctica");
    assert_eq!(load_text_buf(Some("ant".to_string()), "Antarctica"), "ant");
    // An idle field keeps showing the bound value without a redraw.
    let (buf, repaint) = sync_text_buffer("Antarctica".to_string(), "Antarctica", idle());
    assert_eq!(buf, "Antarctica");
    assert!(!repaint);
}

#[test]
fn focus_gain_clears_buffer() {
    let (buf, repaint) = sync_text_buffer("Antarctica".to_string(), "Antarctica", gaining());
    assert_eq!(buf, "");
    assert!(repaint);
}

#[test]
fn focus_loss_resynchronizes_buffer() {
    // Buffer drifted to "ant" with no commit; the next idle frame resets it.
    let (buf, repaint) = sync_text_buffer("ant".to_string(), "Antarctica", idle());
    assert_eq!(buf, "Antarctica");
    assert!(repaint);
}

#[test]
fn commit_round_trip_plain_string() {
    let displayed = DisplayedOption {
        source_index: 2,
        option: "Antarctica".to_string(),
        equals: false,
    };
    let mut value = "Oceania".to_string();
    commit_selection(displayed, "ant", &mut value);
    assert_eq!(value, "Antarctica");
}

#[test]
fn commit_round_trip_parse_display() {
    let displayed = DisplayedOption {
        source_index: 0,
        option: ParseDisplayValue("Africa".to_string()),
        equals: false,
    };
    let mut value = ParseDisplayValue("Oceania".to_string());
    commit_selection(displayed, "afr", &mut value);
    assert_eq!(value.0, "Africa");
    assert_eq!(value.to_editable(), "Africa");
}

#[test]
fn custom_value_editable_projection() {
    let plain: CustomValue<String> = CustomValue::Value("Africa".to_string());
    assert_eq!(plain.to_editable(), "Africa");
    let custom: CustomValue<String> = CustomValue::Custom("zz".to_string());
    assert_eq!(custom.to_editable(), "zz");
}

#[test]
fn frame_idle_resets_drifted_buffer() {
    let bound = "Antarctica".to_string();
    let plan = plan_frame(
        "ant".to_string(),
        "Antarctica",
        Some(CursorPos { source_index: 2 }),
        &bound,
        continents(),
        idle(),
        None,
    );
    assert_eq!(plan.buffer, "Antarctica");
    assert!(plan.repaint);
    assert!(!plan.show_popup);
    assert!(plan.filtered.is_empty());
    // The persisted cursor is discarded while the popup is closed.
    assert_eq!(plan.cursor, None);
    assert_eq!(plan.display_cursor, None);
}

#[test]
fn frame_focus_gain_opens_full_list() {
    let bound = "Antarctica".to_string();
    let plan = plan_frame(
        "Antarctica".to_string(),
        "Antarctica",
        None,
        &bound,
        continents(),
        gaining(),
        None,
    );
    assert_eq!(plan.buffer, "");
    assert!(plan.repaint);
    assert!(plan.show_popup);
    assert_eq!(plan.filtered.len(), 5);
    // The cursor is seeded to the bound value's candidate.
    assert_eq!(plan.cursor, Some(CursorPos { source_index: 2 }));
    assert_eq!(plan.display_cursor, Some(2));
}

#[test]
fn frame_typed_text_filters_and_commits() {
    let mut bound = "Antarctica".to_string();
    let mut plan = plan_frame(
        "ant".to_string(),
        "Antarctica",
        Some(CursorPos { source_index: 2 }),
        &bound,
        continents(),
        focused(),
        None,
    );
    assert_eq!(plan.buffer, "ant");
    assert!(!plan.repaint);
    assert_eq!(plan.filtered.len(), 1);
    assert_eq!(plan.filtered[0].source_index, 2);
    assert_eq!(plan.display_cursor, Some(0));
    // Enter on the cursor row commits the displayed option.
    let row = plan.filtered.remove(0);
    commit_selection(row, "ant", &mut bound);
    assert_eq!(bound, "Antarctica");
}

#[test]
fn frame_down_from_last_wraps() {
    let bound = "Antarctica".to_string();
    let plan = plan_frame(
        "".to_string(),
        "Antarctica",
        Some(CursorPos { source_index: 4 }),
        &bound,
        continents(),
        focused(),
        Some(Motion::Down),
    );
    assert_eq!(plan.cursor, Some(CursorPos { source_index: 0 }));
    assert_eq!(plan.display_cursor, Some(0));
}
