//! The typed value / option abstraction: how a bound value converts to
//! editable text, how a candidate option is matched against typed text,
//! committed into a value, and compared against the bound value.

use vstd::prelude::*;
use vstd::string::StringExecFns;

use crate::text::contains_seq;
use crate::text::lower_of;
use crate::text::str_contains;
use crate::text::str_eq;
use crate::text::to_lowercase_str;

verus! {

/// Whether the user text fully or partially matched an option.
#[derive(Clone, Copy, Debug, PartialEq, Eq, Structural)]
pub enum FilterResult {
    /// The option fully matches the user text.
    Exact,
    /// The option partially matches the user text.
    Partial,
    /// The option does not match the user text.
    NoMatch,
}

/// State provided to [`ValueOption::filter_by_text`] about the options
/// filtered before the current one in the same pass.
pub struct FilterState {
    /// How many preceding options returned [`FilterResult::Partial`] or
    /// [`FilterResult::Exact`].
    pub prev_matches: usize,
    /// Whether any of the preceding options returned [`FilterResult::Exact`].
    pub had_exact: bool,
}

/// The classification of `full` against the typed `input`: equal under
/// lowercasing is an exact match, containment under lowercasing a partial
/// one, anything else no match.
pub open spec fn spec_case_insensitive_filter(full: Seq<char>, input: Seq<char>) -> FilterResult {
    if lower_of(full) == lower_of(input) {
        FilterResult::Exact
    } else if contains_seq(lower_of(full), lower_of(input)) {
        FilterResult::Partial
    } else {
        FilterResult::NoMatch
    }
}

impl FilterResult {
    /// Filters `full` by allowing `input` to be a case-insensitive substring,
    /// with case-insensitive equality promoted to an exact match.
    pub fn from_case_insensitive_substring(full: &str, input: &str) -> (r: FilterResult)
        ensures
            r == spec_case_insensitive_filter(full@, input@),
    {
        let full_lower = to_lowercase_str(full);
        let input_lower = to_lowercase_str(input);
        if str_eq(full_lower.as_str(), input_lower.as_str()) {
            FilterResult::Exact
        } else if str_contains(full_lower.as_str(), input_lower.as_str()) {
            FilterResult::Partial
        } else {
            FilterResult::NoMatch
        }
    }
}

/// The three-way classification is exactly determined by case-insensitive
/// equality and containment of the lowercase projections.
pub proof fn lemma_filter_correctness(full: Seq<char>, input: Seq<char>)
    ensures
        spec_case_insensitive_filter(full, input) == FilterResult::Exact <==> lower_of(full)
            == lower_of(input),
        spec_case_insensitive_filter(full, input) == FilterResult::Partial <==> (lower_of(full)
            != lower_of(input) && contains_seq(lower_of(full), lower_of(input))),
        spec_case_insensitive_filter(full, input) == FilterResult::NoMatch <==> (lower_of(full)
            != lower_of(input) && !contains_seq(lower_of(full), lower_of(input))),
{
}

/// The selected value of a combo box: anything with a stable editable
/// text projection.
pub trait Value: Sized {
    /// The characters of the editable projection of this value.
    spec fn edit_spec(&self) -> Seq<char>;

    /// Converts the value to the string edited by the user.
    ///
    /// This conversion is used to populate the text editor when the user is
    /// not editing and the value is changed externally.
    fn to_editable(&self) -> (r: String)
        ensures
            r@ == self.edit_spec(),
    ;
}

impl Value for String {
    open spec fn edit_spec(&self) -> Seq<char> {
        self@
    }

    fn to_editable(&self) -> (r: String) {
        self.clone()
    }
}

/// An option offered when displaying the list of selectable values.
///
/// `V` is the [`Value`] type this option resolves into.
pub trait ValueOption<V>: Sized {
    /// The classification this option gives to `text`, given the running
    /// filter state about preceding options.
    spec fn filter_spec(&self, text: Seq<char>, prev_matches: int, had_exact: bool) -> FilterResult;

    /// Tests if this option matches the given text filter.
    ///
    /// `FilterState` provides context about the options filtered *before*
    /// this one, which allows conditional options such as
    /// [`CustomOption::Custom`].
    fn filter_by_text(&self, text: &str, state: FilterState) -> (r: FilterResult)
        ensures
            r == self.filter_spec(text@, state.prev_matches as int, state.had_exact),
    ;

    /// Which committed values this option can produce from `text`.
    spec fn commit_spec(&self, v: V, text: Seq<char>) -> bool;

    /// Converts this option into the value.
    fn into_value(self, text: &str) -> (r: V)
        ensures
            self.commit_spec(r, text@),
    ;

    /// Whether this option resolves to the same value as `v` under `text`.
    spec fn equals_spec(&self, v: V, text: Seq<char>) -> bool;

    /// Tests if this option can be converted into the same value as `value`.
    fn equals_value(&self, value: &V, text: &str) -> (r: bool)
        ensures
            r == self.equals_spec(*value, text@),
    ;

    /// Committing always produces a value that the option itself recognises
    /// as equal: the committed value round-trips.
    proof fn commit_round_trip(&self, v: V, text: Seq<char>)
        requires
            self.commit_spec(v, text),
        ensures
            self.equals_spec(v, text),
    ;
}

impl ValueOption<String> for String {
    open spec fn filter_spec(&self, text: Seq<char>, prev_matches: int, had_exact: bool) -> FilterResult {
        spec_case_insensitive_filter(self@, text)
    }

    fn filter_by_text(&self, text: &str, state: FilterState) -> (r: FilterResult) {
        FilterResult::from_case_insensitive_substring(self.as_str(), text)
    }

    open spec fn commit_spec(&self, v: String, text: Seq<char>) -> bool {
        v@ == self@
    }

    fn into_value(self, text: &str) -> (r: String) {
        self
    }

    open spec fn equals_spec(&self, v: String, text: Seq<char>) -> bool {
        self@ == v@
    }

    fn equals_value(&self, value: &String, text: &str) -> (r: bool) {
        str_eq(self.as_str(), value.as_str())
    }

    proof fn commit_round_trip(&self, v: String, text: Seq<char>) {
    }
}

impl<'a> ValueOption<String> for &'a str {
    open spec fn filter_spec(&self, text: Seq<char>, prev_matches: int, had_exact: bool) -> FilterResult {
        spec_case_insensitive_filter(self@, text)
    }

    fn filter_by_text(&self, text: &str, state: FilterState) -> (r: FilterResult) {
        FilterResult::from_case_insensitive_substring(self, text)
    }

    open spec fn commit_spec(&self, v: String, text: Seq<char>) -> bool {
        v@ == self@
    }

    fn into_value(self, text: &str) -> (r: String) {
        String::from_str(self)
    }

    open spec fn equals_spec(&self, v: String, text: Seq<char>) -> bool {
        self@ == v@
    }

    fn equals_value(&self, value: &String, text: &str) -> (r: bool) {
        str_eq(self, value.as_str())
    }

    proof fn commit_round_trip(&self, v: String, text: Seq<char>) {
    }
}

/// Textual behaviour that [`ParseDisplayValue`] asks of the adapted type: a
/// stable display string and an equality test. These stand in for the
/// standard formatting and comparison traits, which verified code cannot
/// call directly.
pub trait DisplayText: Sized {
    /// The characters of the display form of this value.
    spec fn text_spec(&self) -> Seq<char>;

    /// Renders this value as its display form.
    fn display_text(&self) -> (r: String)
        ensures
            r@ == self.text_spec(),
    ;

    /// Whether this value equals `other`.
    spec fn eq_spec(&self, other: &Self) -> bool;

    /// Tests this value against `other`.
    fn eq_value(&self, other: &Self) -> (r: bool)
        ensures
            r == self.eq_spec(other),
    ;

    /// The equality test accepts a value against itself.
    proof fn eq_spec_reflexive(&self)
        ensures
            self.eq_spec(self),
    ;
}

impl DisplayText for String {
    open spec fn text_spec(&self) -> Seq<char> {
        self@
    }

    fn display_text(&self) -> (r: String) {
        self.clone()
    }

    open spec fn eq_spec(&self, other: &Self) -> bool {
        self@ == other@
    }

    fn eq_value(&self, other: &Self) -> (r: bool) {
        str_eq(self.as_str(), other.as_str())
    }

    proof fn eq_spec_reflexive(&self) {
    }
}

/// A wrapper implementing [`Value`] and [`ValueOption`] for any type with a
/// textual display form, by delegating to [`DisplayText`].
///
/// The adapted type's parser, if it has one, plays no part here: committing
/// an option hands back the already-constructed value, so free text is never
/// parsed into the adapted type.
pub struct ParseDisplayValue<T>(pub T);

impl<T: DisplayText> Value for ParseDisplayValue<T> {
    open spec fn edit_spec(&self) -> Seq<char> {
        self.0.text_spec()
    }

    fn to_editable(&self) -> (r: String) {
        self.0.display_text()
    }
}

impl<T: DisplayText> ValueOption<ParseDisplayValue<T>> for ParseDisplayValue<T> {
    open spec fn filter_spec(&self, text: Seq<char>, prev_matches: int, had_exact: bool) -> FilterResult {
        spec_case_insensitive_filter(self.0.text_spec(), text)
    }

    fn filter_by_text(&self, text: &str, state: FilterState) -> (r: FilterResult) {
        let shown = self.0.display_text();
        FilterResult::from_case_insensitive_substring(shown.as_str(), text)
    }

    open spec fn commit_spec(&self, v: ParseDisplayValue<T>, text: Seq<char>) -> bool {
        v == *self
    }

    fn into_value(self, text: &str) -> (r: ParseDisplayValue<T>) {
        self
    }

    open spec fn equals_spec(&self, v: ParseDisplayValue<T>, text: Seq<char>) -> bool {
        self.0.eq_spec(&v.0)
    }

    fn equals_value(&self, value: &ParseDisplayValue<T>, text: &str) -> (r: bool) {
        self.0.eq_value(&value.0)
    }

    proof fn commit_round_trip(&self, v: ParseDisplayValue<T>, text: Seq<char>) {
        self.0.eq_spec_reflexive();
    }
}

/// The selected value for [`CustomOption`]: either one of the offered
/// options, or the free-form text the user entered.
pub enum CustomValue<V> {
    /// User selected one of the given options.
    Value(V),
    /// User entered a custom value.
    Custom(String),
}

impl<V: Value> Value for CustomValue<V> {
    open spec fn edit_spec(&self) -> Seq<char> {
        match self {
            CustomValue::Value(v) => v.edit_spec(),
            CustomValue::Custom(s) => s@,
        }
    }

    fn to_editable(&self) -> (r: String) {
        match self {
            CustomValue::Value(v) => v.to_editable(),
            CustomValue::Custom(s) => s.clone(),
        }
    }
}

/// Wraps a [`ValueOption`] to add a "custom" entry that accepts the typed
/// text itself as the value.
pub enum CustomOption<V> {
    /// Provides an existing value option.
    Value(V),
    /// Allows entering a custom value.
    ///
    /// This option should be provided after all [`CustomOption::Value`]
    /// options, so that it correctly hides when a previous option was
    /// matched exactly.
    Custom,
}

impl<V, Opt: ValueOption<V>> ValueOption<CustomValue<V>> for CustomOption<Opt> {
    open spec fn filter_spec(&self, text: Seq<char>, prev_matches: int, had_exact: bool) -> FilterResult {
        match self {
            CustomOption::Value(v) => v.filter_spec(text, prev_matches, had_exact),
            CustomOption::Custom => if had_exact {
                FilterResult::NoMatch
            } else if prev_matches > 0 {
                FilterResult::Partial
            } else {
                FilterResult::Exact
            },
        }
    }

    fn filter_by_text(&self, text: &str, state: FilterState) -> (r: FilterResult) {
        match self {
            CustomOption::Value(v) => v.filter_by_text(text, state),
            CustomOption::Custom => {
                if state.had_exact {
                    FilterResult::NoMatch
                } else if state.prev_matches > 0 {
                    FilterResult::Partial
                } else {
                    FilterResult::Exact
                }
            },
        }
    }

    open spec fn commit_spec(&self, v: CustomValue<V>, text: Seq<char>) -> bool {
        match self {
            CustomOption::Value(opt) => match v {
                CustomValue::Value(inner) => opt.commit_spec(inner, text),
                CustomValue::Custom(_) => false,
            },
            CustomOption::Custom => match v {
                CustomValue::Value(_) => false,
                CustomValue::Custom(s) => s@ == text,
            },
        }
    }

    fn into_value(self, text: &str) -> (r: CustomValue<V>) {
        match self {
            CustomOption::Value(opt) => CustomValue::Value(opt.into_value(text)),
            CustomOption::Custom => CustomValue::Custom(String::from_str(text)),
        }
    }

    open spec fn equals_spec(&self, v: CustomValue<V>, text: Seq<char>) -> bool {
        match self {
            CustomOption::Value(opt) => match v {
                CustomValue::Value(inner) => opt.equals_spec(inner, text),
                CustomValue::Custom(_) => false,
            },
            CustomOption::Custom => match v {
                CustomValue::Value(_) => false,
                CustomValue::Custom(s) => text == s@,
            },
        }
    }

    fn equals_value(&self, value: &CustomValue<V>, text: &str) -> (r: bool) {
        match (self, value) {
            (CustomOption::Value(opt), CustomValue::Value(inner)) => opt.equals_value(inner, text),
            (CustomOption::Custom, CustomValue::Custom(s)) => str_eq(text, s.as_str()),
            _ => false,
        }
    }

    proof fn commit_round_trip(&self, v: CustomValue<V>, text: Seq<char>) {
        match self {
            CustomOption::Value(opt) => match v {
                CustomValue::Value(inner) => opt.commit_round_trip(inner, text),
                CustomValue::Custom(_) => (),
            },
            CustomOption::Custom => (),
        }
    }
}

} // verus!
