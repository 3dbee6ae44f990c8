//! The name dispatch of the selector parser: pseudo-class and pseudo-element
//! names matched ASCII-case-insensitively against a fixed table, including
//! the vendor-prefixed spellings; unknown names become custom pseudos, with
//! a warning owed for those that do not start with `-`.
//!
//! The token-level driver sits outside this crate and calls in here for
//! every decision the grammar leaves to the selector dialect.

use vstd::prelude::*;
use vstd::string::{StringExecFns, StrSliceExecFns};
use crate::selector::{
    Direction, PseudoClass, PseudoElement, WebKitScrollbarPseudoClass,
    WebKitScrollbarPseudoElement,
};
use crate::vendor_prefix::VendorPrefix;

verus! {

/// Whether a character matches an expected lower-case character,
/// ASCII-case-insensitively.
pub open spec fn char_matches_ci(c: char, l: char) -> bool {
    c == l || ('A' <= c && c <= 'Z' && c as u32 + 32 == l as u32)
}

/// Whether a text matches an expected lower-case text,
/// ASCII-case-insensitively.
pub open spec fn str_eq_ci(s: Seq<char>, t: Seq<char>) -> bool {
    s.len() == t.len() && forall|i: int| 0 <= i < s.len() ==> char_matches_ci(#[trigger] s[i], t[i])
}

/// Whether a name matches a lower-case table entry,
/// ASCII-case-insensitively.
pub fn eq_ignore_ascii_case(name: &str, table: &str) -> (r: bool)
    ensures
        r == str_eq_ci(name@, table@),
{
    let n = name.unicode_len();
    if n != table.unicode_len() {
        return false;
    }
    let mut i: usize = 0;
    while i < n
        invariant
            i <= n,
            n == name@.len(),
            n == table@.len(),
            forall|k: int| 0 <= k < i ==> char_matches_ci(#[trigger] name@[k], table@[k]),
        decreases n - i,
    {
        let c = name.get_char(i);
        let l = table.get_char(i);
        let ok = c == l || (c >= 'A' && c <= 'Z' && (c as u32) + 32 == (l as u32));
        if !ok {
            return false;
        }
        i = i + 1;
    }
    true
}

/// Whether an unknown pseudo name is owed a warning: those that do not start
/// with `-` are.
pub open spec fn spec_unknown_warns(name: Seq<char>) -> bool {
    !(name.len() > 0 && name[0] == '-')
}

/// Whether an unknown pseudo name is owed a warning.
pub fn unknown_warns(name: &str) -> (r: bool)
    ensures
        r == spec_unknown_warns(name@),
{
    if name.unicode_len() == 0 {
        true
    } else {
        !(name.get_char(0) == '-')
    }
}

/// The pseudo-class a recognized name stands for.
pub open spec fn spec_pseudo_class_for_name(name: Seq<char>) -> Option<PseudoClass> {
    if str_eq_ci(name, "hover"@) {
        Some(PseudoClass::Hover)
    } else if str_eq_ci(name, "active"@) {
        Some(PseudoClass::Active)
    } else if str_eq_ci(name, "focus"@) {
        Some(PseudoClass::Focus)
    } else if str_eq_ci(name, "focus-visible"@) {
        Some(PseudoClass::FocusVisible)
    } else if str_eq_ci(name, "focus-within"@) {
        Some(PseudoClass::FocusWithin)
    } else if str_eq_ci(name, "current"@) {
        Some(PseudoClass::Current)
    } else if str_eq_ci(name, "past"@) {
        Some(PseudoClass::Past)
    } else if str_eq_ci(name, "future"@) {
        Some(PseudoClass::Future)
    } else if str_eq_ci(name, "playing"@) {
        Some(PseudoClass::Playing)
    } else if str_eq_ci(name, "paused"@) {
        Some(PseudoClass::Paused)
    } else if str_eq_ci(name, "seeking"@) {
        Some(PseudoClass::Seeking)
    } else if str_eq_ci(name, "buffering"@) {
        Some(PseudoClass::Buffering)
    } else if str_eq_ci(name, "stalled"@) {
        Some(PseudoClass::Stalled)
    } else if str_eq_ci(name, "muted"@) {
        Some(PseudoClass::Muted)
    } else if str_eq_ci(name, "volume-locked"@) {
        Some(PseudoClass::VolumeLocked)
    } else if str_eq_ci(name, "fullscreen"@) {
        Some(PseudoClass::Fullscreen(VendorPrefix::spec_unprefixed()))
    } else if str_eq_ci(name, "-webkit-full-screen"@) {
        Some(PseudoClass::Fullscreen(VendorPrefix::spec_webkit()))
    } else if str_eq_ci(name, "-moz-full-screen"@) {
        Some(PseudoClass::Fullscreen(VendorPrefix::spec_moz()))
    } else if str_eq_ci(name, "-ms-fullscreen"@) {
        Some(PseudoClass::Fullscreen(VendorPrefix::spec_ms()))
    } else if str_eq_ci(name, "defined"@) {
        Some(PseudoClass::Defined)
    } else if str_eq_ci(name, "any-link"@) {
        Some(PseudoClass::AnyLink(VendorPrefix::spec_unprefixed()))
    } else if str_eq_ci(name, "-webkit-any-link"@) {
        Some(PseudoClass::AnyLink(VendorPrefix::spec_webkit()))
    } else if str_eq_ci(name, "-moz-any-link"@) {
        Some(PseudoClass::AnyLink(VendorPrefix::spec_moz()))
    } else if str_eq_ci(name, "link"@) {
        Some(PseudoClass::Link)
    } else if str_eq_ci(name, "local-link"@) {
        Some(PseudoClass::LocalLink)
    } else if str_eq_ci(name, "target"@) {
        Some(PseudoClass::Target)
    } else if str_eq_ci(name, "target-within"@) {
        Some(PseudoClass::TargetWithin)
    } else if str_eq_ci(name, "visited"@) {
        Some(PseudoClass::Visited)
    } else if str_eq_ci(name, "enabled"@) {
        Some(PseudoClass::Enabled)
    } else if str_eq_ci(name, "disabled"@) {
        Some(PseudoClass::Disabled)
    } else if str_eq_ci(name, "read-only"@) {
        Some(PseudoClass::ReadOnly(VendorPrefix::spec_unprefixed()))
    } else if str_eq_ci(name, "-moz-read-only"@) {
        Some(PseudoClass::ReadOnly(VendorPrefix::spec_moz()))
    } else if str_eq_ci(name, "read-write"@) {
        Some(PseudoClass::ReadWrite(VendorPrefix::spec_unprefixed()))
    } else if str_eq_ci(name, "-moz-read-write"@) {
        Some(PseudoClass::ReadWrite(VendorPrefix::spec_moz()))
    } else if str_eq_ci(name, "placeholder-shown"@) {
        Some(PseudoClass::PlaceholderShown(VendorPrefix::spec_unprefixed()))
    } else if str_eq_ci(name, "-moz-placeholder-shown"@) {
        Some(PseudoClass::PlaceholderShown(VendorPrefix::spec_moz()))
    } else if str_eq_ci(name, "-ms-placeholder-shown"@) {
        Some(PseudoClass::PlaceholderShown(VendorPrefix::spec_ms()))
    } else if str_eq_ci(name, "default"@) {
        Some(PseudoClass::Default)
    } else if str_eq_ci(name, "checked"@) {
        Some(PseudoClass::Checked)
    } else if str_eq_ci(name, "indeterminate"@) {
        Some(PseudoClass::Indeterminate)
    } else if str_eq_ci(name, "blank"@) {
        Some(PseudoClass::Blank)
    } else if str_eq_ci(name, "valid"@) {
        Some(PseudoClass::Valid)
    } else if str_eq_ci(name, "invalid"@) {
        Some(PseudoClass::Invalid)
    } else if str_eq_ci(name, "in-range"@) {
        Some(PseudoClass::InRange)
    } else if str_eq_ci(name, "out-of-range"@) {
        Some(PseudoClass::OutOfRange)
    } else if str_eq_ci(name, "required"@) {
        Some(PseudoClass::Required)
    } else if str_eq_ci(name, "optional"@) {
        Some(PseudoClass::Optional)
    } else if str_eq_ci(name, "user-valid"@) {
        Some(PseudoClass::UserValid)
    } else if str_eq_ci(name, "user-invalid"@) {
        Some(PseudoClass::UserInvalid)
    } else if str_eq_ci(name, "autofill"@) {
        Some(PseudoClass::Autofill(VendorPrefix::spec_unprefixed()))
    } else if str_eq_ci(name, "-webkit-autofill"@) {
        Some(PseudoClass::Autofill(VendorPrefix::spec_webkit()))
    } else if str_eq_ci(name, "-o-autofill"@) {
        Some(PseudoClass::Autofill(VendorPrefix::spec_o()))
    } else if str_eq_ci(name, "horizontal"@) {
        Some(PseudoClass::WebKitScrollbar(WebKitScrollbarPseudoClass::Horizontal))
    } else if str_eq_ci(name, "vertical"@) {
        Some(PseudoClass::WebKitScrollbar(WebKitScrollbarPseudoClass::Vertical))
    } else if str_eq_ci(name, "decrement"@) {
        Some(PseudoClass::WebKitScrollbar(WebKitScrollbarPseudoClass::Decrement))
    } else if str_eq_ci(name, "increment"@) {
        Some(PseudoClass::WebKitScrollbar(WebKitScrollbarPseudoClass::Increment))
    } else if str_eq_ci(name, "start"@) {
        Some(PseudoClass::WebKitScrollbar(WebKitScrollbarPseudoClass::Start))
    } else if str_eq_ci(name, "end"@) {
        Some(PseudoClass::WebKitScrollbar(WebKitScrollbarPseudoClass::End))
    } else if str_eq_ci(name, "double-button"@) {
        Some(PseudoClass::WebKitScrollbar(WebKitScrollbarPseudoClass::DoubleButton))
    } else if str_eq_ci(name, "single-button"@) {
        Some(PseudoClass::WebKitScrollbar(WebKitScrollbarPseudoClass::SingleButton))
    } else if str_eq_ci(name, "no-button"@) {
        Some(PseudoClass::WebKitScrollbar(WebKitScrollbarPseudoClass::NoButton))
    } else if str_eq_ci(name, "corner-present"@) {
        Some(PseudoClass::WebKitScrollbar(WebKitScrollbarPseudoClass::CornerPresent))
    } else if str_eq_ci(name, "window-inactive"@) {
        Some(PseudoClass::WebKitScrollbar(WebKitScrollbarPseudoClass::WindowInactive))
    } else {
        None
    }
}

/// The pseudo-element a recognized name stands for.
pub open spec fn spec_pseudo_element_for_name(name: Seq<char>) -> Option<PseudoElement> {
    if str_eq_ci(name, "before"@) {
        Some(PseudoElement::Before)
    } else if str_eq_ci(name, "after"@) {
        Some(PseudoElement::After)
    } else if str_eq_ci(name, "first-line"@) {
        Some(PseudoElement::FirstLine)
    } else if str_eq_ci(name, "first-letter"@) {
        Some(PseudoElement::FirstLetter)
    } else if str_eq_ci(name, "cue"@) {
        Some(PseudoElement::Cue)
    } else if str_eq_ci(name, "cue-region"@) {
        Some(PseudoElement::CueRegion)
    } else if str_eq_ci(name, "selection"@) {
        Some(PseudoElement::Selection(VendorPrefix::spec_unprefixed()))
    } else if str_eq_ci(name, "-moz-selection"@) {
        Some(PseudoElement::Selection(VendorPrefix::spec_moz()))
    } else if str_eq_ci(name, "placeholder"@) {
        Some(PseudoElement::Placeholder(VendorPrefix::spec_unprefixed()))
    } else if str_eq_ci(name, "-webkit-input-placeholder"@) {
        Some(PseudoElement::Placeholder(VendorPrefix::spec_webkit()))
    } else if str_eq_ci(name, "-moz-placeholder"@) {
        Some(PseudoElement::Placeholder(VendorPrefix::spec_moz()))
    } else if str_eq_ci(name, "-ms-input-placeholder"@) {
        Some(PseudoElement::Placeholder(VendorPrefix::spec_moz()))
    } else if str_eq_ci(name, "marker"@) {
        Some(PseudoElement::Marker)
    } else if str_eq_ci(name, "backdrop"@) {
        Some(PseudoElement::Backdrop(VendorPrefix::spec_unprefixed()))
    } else if str_eq_ci(name, "-webkit-backdrop"@) {
        Some(PseudoElement::Backdrop(VendorPrefix::spec_webkit()))
    } else if str_eq_ci(name, "file-selector-button"@) {
        Some(PseudoElement::FileSelectorButton(VendorPrefix::spec_unprefixed()))
    } else if str_eq_ci(name, "-webkit-file-upload-button"@) {
        Some(PseudoElement::FileSelectorButton(VendorPrefix::spec_webkit()))
    } else if str_eq_ci(name, "-ms-browse"@) {
        Some(PseudoElement::FileSelectorButton(VendorPrefix::spec_ms()))
    } else if str_eq_ci(name, "-webkit-scrollbar"@) {
        Some(PseudoElement::WebKitScrollbar(WebKitScrollbarPseudoElement::Scrollbar))
    } else if str_eq_ci(name, "-webkit-scrollbar-button"@) {
        Some(PseudoElement::WebKitScrollbar(WebKitScrollbarPseudoElement::Button))
    } else if str_eq_ci(name, "-webkit-scrollbar-track"@) {
        Some(PseudoElement::WebKitScrollbar(WebKitScrollbarPseudoElement::Track))
    } else if str_eq_ci(name, "-webkit-scrollbar-track-piece"@) {
        Some(PseudoElement::WebKitScrollbar(WebKitScrollbarPseudoElement::TrackPiece))
    } else if str_eq_ci(name, "-webkit-scrollbar-thumb"@) {
        Some(PseudoElement::WebKitScrollbar(WebKitScrollbarPseudoElement::Thumb))
    } else if str_eq_ci(name, "-webkit-scrollbar-corner"@) {
        Some(PseudoElement::WebKitScrollbar(WebKitScrollbarPseudoElement::Corner))
    } else if str_eq_ci(name, "-webkit-resizer"@) {
        Some(PseudoElement::WebKitScrollbar(WebKitScrollbarPseudoElement::Resizer))
    } else {
        None
    }
}

/// The functional pseudo-classes the parser dispatches on.
#[derive(Debug, Clone, Copy, PartialEq, Eq, Structural)]
pub enum FunctionalPseudoClassKind {
    /// `:lang()`
    Lang,
    /// `:dir()`
    Dir,
    /// `:local()`, in CSS-modules mode.
    Local,
    /// `:global()`, in CSS-modules mode.
    Global,
    /// Anything else: kept as an unknown functional pseudo-class.
    Custom,
}

/// The functional pseudo-elements the parser dispatches on.
#[derive(Debug, Clone, Copy, PartialEq, Eq, Structural)]
pub enum FunctionalPseudoElementKind {
    /// `::cue()`
    Cue,
    /// `::cue-region()`
    CueRegion,
    /// Anything else: kept as an unknown functional pseudo-element.
    Custom,
}

/// The dispatch of a functional pseudo-class name: `:local()` and
/// `:global()` only exist in CSS-modules mode.
pub open spec fn spec_functional_pseudo_class_kind(
    name: Seq<char>,
    css_modules: bool,
) -> FunctionalPseudoClassKind {
    if str_eq_ci(name, "lang"@) {
        FunctionalPseudoClassKind::Lang
    } else if str_eq_ci(name, "dir"@) {
        FunctionalPseudoClassKind::Dir
    } else if str_eq_ci(name, "local"@) && css_modules {
        FunctionalPseudoClassKind::Local
    } else if str_eq_ci(name, "global"@) && css_modules {
        FunctionalPseudoClassKind::Global
    } else {
        FunctionalPseudoClassKind::Custom
    }
}

/// The dispatch of a functional pseudo-element name.
pub open spec fn spec_functional_pseudo_element_kind(name: Seq<char>) -> FunctionalPseudoElementKind {
    if str_eq_ci(name, "cue"@) {
        FunctionalPseudoElementKind::Cue
    } else if str_eq_ci(name, "cue-region"@) {
        FunctionalPseudoElementKind::CueRegion
    } else {
        FunctionalPseudoElementKind::Custom
    }
}

/// The selector dialect's parsing configuration.
#[derive(Debug, Clone, Copy, PartialEq, Eq, Structural)]
pub struct SelectorParser {
    /// Whether the `&` nesting selector may appear.
    pub is_nesting_allowed: bool,
    /// Whether CSS-modules mode is on, enabling `:local()` and `:global()`.
    pub css_modules: bool,
}

impl SelectorParser {
    /// The pseudo-class for a non-functional name: a table entry, or an
    /// unknown pseudo-class carrying the name; the flag says whether a
    /// warning is owed.
    #[verifier::rlimit(100)]
    pub fn parse_non_ts_pseudo_class(&self, name: &str) -> (r: (PseudoClass, bool))
        ensures
            match spec_pseudo_class_for_name(name@) {
                Some(pc) => r.0 == pc && r.1 == false,
                None => (match r.0 {
                    PseudoClass::Custom { name: n } => n@ == name@,
                    _ => false,
                }) && r.1 == spec_unknown_warns(name@),
            },
    {
        if eq_ignore_ascii_case(name, "hover") {
            (PseudoClass::Hover, false)
        } else if eq_ignore_ascii_case(name, "active") {
            (PseudoClass::Active, false)
        } else if eq_ignore_ascii_case(name, "focus") {
            (PseudoClass::Focus, false)
        } else if eq_ignore_ascii_case(name, "focus-visible") {
            (PseudoClass::FocusVisible, false)
        } else if eq_ignore_ascii_case(name, "focus-within") {
            (PseudoClass::FocusWithin, false)
        } else if eq_ignore_ascii_case(name, "current") {
            (PseudoClass::Current, false)
        } else if eq_ignore_ascii_case(name, "past") {
            (PseudoClass::Past, false)
        } else if eq_ignore_ascii_case(name, "future") {
            (PseudoClass::Future, false)
        } else if eq_ignore_ascii_case(name, "playing") {
            (PseudoClass::Playing, false)
        } else if eq_ignore_ascii_case(name, "paused") {
            (PseudoClass::Paused, false)
        } else if eq_ignore_ascii_case(name, "seeking") {
            (PseudoClass::Seeking, false)
        } else if eq_ignore_ascii_case(name, "buffering") {
            (PseudoClass::Buffering, false)
        } else if eq_ignore_ascii_case(name, "stalled") {
            (PseudoClass::Stalled, false)
        } else if eq_ignore_ascii_case(name, "muted") {
            (PseudoClass::Muted, false)
        } else if eq_ignore_ascii_case(name, "volume-locked") {
            (PseudoClass::VolumeLocked, false)
        } else if eq_ignore_ascii_case(name, "fullscreen") {
            (PseudoClass::Fullscreen(VendorPrefix::unprefixed()), false)
        } else if eq_ignore_ascii_case(name, "-webkit-full-screen") {
            (PseudoClass::Fullscreen(VendorPrefix::webkit()), false)
        } else if eq_ignore_ascii_case(name, "-moz-full-screen") {
            (PseudoClass::Fullscreen(VendorPrefix::moz()), false)
        } else if eq_ignore_ascii_case(name, "-ms-fullscreen") {
            (PseudoClass::Fullscreen(VendorPrefix::ms()), false)
        } else if eq_ignore_ascii_case(name, "defined") {
            (PseudoClass::Defined, false)
        } else if eq_ignore_ascii_case(name, "any-link") {
            (PseudoClass::AnyLink(VendorPrefix::unprefixed()), false)
        } else if eq_ignore_ascii_case(name, "-webkit-any-link") {
            (PseudoClass::AnyLink(VendorPrefix::webkit()), false)
        } else if eq_ignore_ascii_case(name, "-moz-any-link") {
            (PseudoClass::AnyLink(VendorPrefix::moz()), false)
        } else if eq_ignore_ascii_case(name, "link") {
            (PseudoClass::Link, false)
        } else if eq_ignore_ascii_case(name, "local-link") {
            (PseudoClass::LocalLink, false)
        } else if eq_ignore_ascii_case(name, "target") {
            (PseudoClass::Target, false)
        } else if eq_ignore_ascii_case(name, "target-within") {
            (PseudoClass::TargetWithin, false)
        } else if eq_ignore_ascii_case(name, "visited") {
            (PseudoClass::Visited, false)
        } else if eq_ignore_ascii_case(name, "enabled") {
            (PseudoClass::Enabled, false)
        } else if eq_ignore_ascii_case(name, "disabled") {
            (PseudoClass::Disabled, false)
        } else if eq_ignore_ascii_case(name, "read-only") {
            (PseudoClass::ReadOnly(VendorPrefix::unprefixed()), false)
        } else if eq_ignore_ascii_case(name, "-moz-read-only") {
            (PseudoClass::ReadOnly(VendorPrefix::moz()), false)
        } else if eq_ignore_ascii_case(name, "read-write") {
            (PseudoClass::ReadWrite(VendorPrefix::unprefixed()), false)
        } else if eq_ignore_ascii_case(name, "-moz-read-write") {
            (PseudoClass::ReadWrite(VendorPrefix::moz()), false)
        } else if eq_ignore_ascii_case(name, "placeholder-shown") {
            (PseudoClass::PlaceholderShown(VendorPrefix::unprefixed()), false)
        } else if eq_ignore_ascii_case(name, "-moz-placeholder-shown") {
            (PseudoClass::PlaceholderShown(VendorPrefix::moz()), false)
        } else if eq_ignore_ascii_case(name, "-ms-placeholder-shown") {
            (PseudoClass::PlaceholderShown(VendorPrefix::ms()), false)
        } else if eq_ignore_ascii_case(name, "default") {
            (PseudoClass::Default, false)
        } else if eq_ignore_ascii_case(name, "checked") {
            (PseudoClass::Checked, false)
        } else if eq_ignore_ascii_case(name, "indeterminate") {
            (PseudoClass::Indeterminate, false)
        } else if eq_ignore_ascii_case(name, "blank") {
            (PseudoClass::Blank, false)
        } else if eq_ignore_ascii_case(name, "valid") {
            (PseudoClass::Valid, false)
        } else if eq_ignore_ascii_case(name, "invalid") {
            (PseudoClass::Invalid, false)
        } else if eq_ignore_ascii_case(name, "in-range") {
            (PseudoClass::InRange, false)
        } else if eq_ignore_ascii_case(name, "out-of-range") {
            (PseudoClass::OutOfRange, false)
        } else if eq_ignore_ascii_case(name, "required") {
            (PseudoClass::Required, false)
        } else if eq_ignore_ascii_case(name, "optional") {
            (PseudoClass::Optional, false)
        } else if eq_ignore_ascii_case(name, "user-valid") {
            (PseudoClass::UserValid, false)
        } else if eq_ignore_ascii_case(name, "user-invalid") {
            (PseudoClass::UserInvalid, false)
        } else if eq_ignore_ascii_case(name, "autofill") {
            (PseudoClass::Autofill(VendorPrefix::unprefixed()), false)
        } else if eq_ignore_ascii_case(name, "-webkit-autofill") {
            (PseudoClass::Autofill(VendorPrefix::webkit()), false)
        } else if eq_ignore_ascii_case(name, "-o-autofill") {
            (PseudoClass::Autofill(VendorPrefix::o()), false)
        } else if eq_ignore_ascii_case(name, "horizontal") {
            (PseudoClass::WebKitScrollbar(WebKitScrollbarPseudoClass::Horizontal), false)
        } else if eq_ignore_ascii_case(name, "vertical") {
            (PseudoClass::WebKitScrollbar(WebKitScrollbarPseudoClass::Vertical), false)
        } else if eq_ignore_ascii_case(name, "decrement") {
            (PseudoClass::WebKitScrollbar(WebKitScrollbarPseudoClass::Decrement), false)
        } else if eq_ignore_ascii_case(name, "increment") {
            (PseudoClass::WebKitScrollbar(WebKitScrollbarPseudoClass::Increment), false)
        } else if eq_ignore_ascii_case(name, "start") {
            (PseudoClass::WebKitScrollbar(WebKitScrollbarPseudoClass::Start), false)
        } else if eq_ignore_ascii_case(name, "end") {
            (PseudoClass::WebKitScrollbar(WebKitScrollbarPseudoClass::End), false)
        } else if eq_ignore_ascii_case(name, "double-button") {
            (PseudoClass::WebKitScrollbar(WebKitScrollbarPseudoClass::DoubleButton), false)
        } else if eq_ignore_ascii_case(name, "single-button") {
            (PseudoClass::WebKitScrollbar(WebKitScrollbarPseudoClass::SingleButton), false)
        } else if eq_ignore_ascii_case(name, "no-button") {
            (PseudoClass::WebKitScrollbar(WebKitScrollbarPseudoClass::NoButton), false)
        } else if eq_ignore_ascii_case(name, "corner-present") {
            (PseudoClass::WebKitScrollbar(WebKitScrollbarPseudoClass::CornerPresent), false)
        } else if eq_ignore_ascii_case(name, "window-inactive") {
            (PseudoClass::WebKitScrollbar(WebKitScrollbarPseudoClass::WindowInactive), false)
        } else {
            let warn = unknown_warns(name);
            (PseudoClass::Custom { name: String::from_str(name) }, warn)
        }
    }

    /// The pseudo-element for a non-functional name, and whether a warning
    /// is owed.
    #[verifier::rlimit(100)]
    pub fn parse_pseudo_element(&self, name: &str) -> (r: (PseudoElement, bool))
        ensures
            match spec_pseudo_element_for_name(name@) {
                Some(pe) => r.0 == pe && r.1 == false,
                None => (match r.0 {
                    PseudoElement::Custom { name: n } => n@ == name@,
                    _ => false,
                }) && r.1 == spec_unknown_warns(name@),
            },
    {
        if eq_ignore_ascii_case(name, "before") {
            (PseudoElement::Before, false)
        } else if eq_ignore_ascii_case(name, "after") {
            (PseudoElement::After, false)
        } else if eq_ignore_ascii_case(name, "first-line") {
            (PseudoElement::FirstLine, false)
        } else if eq_ignore_ascii_case(name, "first-letter") {
            (PseudoElement::FirstLetter, false)
        } else if eq_ignore_ascii_case(name, "cue") {
            (PseudoElement::Cue, false)
        } else if eq_ignore_ascii_case(name, "cue-region") {
            (PseudoElement::CueRegion, false)
        } else if eq_ignore_ascii_case(name, "selection") {
            (PseudoElement::Selection(VendorPrefix::unprefixed()), false)
        } else if eq_ignore_ascii_case(name, "-moz-selection") {
            (PseudoElement::Selection(VendorPrefix::moz()), false)
        } else if eq_ignore_ascii_case(name, "placeholder") {
            (PseudoElement::Placeholder(VendorPrefix::unprefixed()), false)
        } else if eq_ignore_ascii_case(name, "-webkit-input-placeholder") {
            (PseudoElement::Placeholder(VendorPrefix::webkit()), false)
        } else if eq_ignore_ascii_case(name, "-moz-placeholder") {
            (PseudoElement::Placeholder(VendorPrefix::moz()), false)
        } else if eq_ignore_ascii_case(name, "-ms-input-placeholder") {
            (PseudoElement::Placeholder(VendorPrefix::moz()), false)
        } else if eq_ignore_ascii_case(name, "marker") {
            (PseudoElement::Marker, false)
        } else if eq_ignore_ascii_case(name, "backdrop") {
            (PseudoElement::Backdrop(VendorPrefix::unprefixed()), false)
        } else if eq_ignore_ascii_case(name, "-webkit-backdrop") {
            (PseudoElement::Backdrop(VendorPrefix::webkit()), false)
        } else if eq_ignore_ascii_case(name, "file-selector-button") {
            (PseudoElement::FileSelectorButton(VendorPrefix::unprefixed()), false)
        } else if eq_ignore_ascii_case(name, "-webkit-file-upload-button") {
            (PseudoElement::FileSelectorButton(VendorPrefix::webkit()), false)
        } else if eq_ignore_ascii_case(name, "-ms-browse") {
            (PseudoElement::FileSelectorButton(VendorPrefix::ms()), false)
        } else if eq_ignore_ascii_case(name, "-webkit-scrollbar") {
            (PseudoElement::WebKitScrollbar(WebKitScrollbarPseudoElement::Scrollbar), false)
        } else if eq_ignore_ascii_case(name, "-webkit-scrollbar-button") {
            (PseudoElement::WebKitScrollbar(WebKitScrollbarPseudoElement::Button), false)
        } else if eq_ignore_ascii_case(name, "-webkit-scrollbar-track") {
            (PseudoElement::WebKitScrollbar(WebKitScrollbarPseudoElement::Track), false)
        } else if eq_ignore_ascii_case(name, "-webkit-scrollbar-track-piece") {
            (PseudoElement::WebKitScrollbar(WebKitScrollbarPseudoElement::TrackPiece), false)
        } else if eq_ignore_ascii_case(name, "-webkit-scrollbar-thumb") {
            (PseudoElement::WebKitScrollbar(WebKitScrollbarPseudoElement::Thumb), false)
        } else if eq_ignore_ascii_case(name, "-webkit-scrollbar-corner") {
            (PseudoElement::WebKitScrollbar(WebKitScrollbarPseudoElement::Corner), false)
        } else if eq_ignore_ascii_case(name, "-webkit-resizer") {
            (PseudoElement::WebKitScrollbar(WebKitScrollbarPseudoElement::Resizer), false)
        } else {
            let warn = unknown_warns(name);
            (PseudoElement::Custom { name: String::from_str(name) }, warn)
        }
    }

    /// The vendor prefix of a legacy `:-*-any()` spelling, if the name is
    /// one.
    pub fn parse_any_prefix(&self, name: &str) -> (r: Option<VendorPrefix>)
        ensures
            str_eq_ci(name@, "-webkit-any"@) ==> r == Some(VendorPrefix::spec_webkit()),
            !str_eq_ci(name@, "-webkit-any"@) && str_eq_ci(name@, "-moz-any"@) ==> r == Some(
                VendorPrefix::spec_moz(),
            ),
            !str_eq_ci(name@, "-webkit-any"@) && !str_eq_ci(name@, "-moz-any"@) ==> r is None,
    {
        if eq_ignore_ascii_case(name, "-webkit-any") {
            Some(VendorPrefix::webkit())
        } else if eq_ignore_ascii_case(name, "-moz-any") {
            Some(VendorPrefix::moz())
        } else {
            None
        }
    }

    /// The dispatch of a functional pseudo-class name; the flag says whether
    /// a warning is owed for an unknown one.
    pub fn parse_non_ts_functional_pseudo_class(&self, name: &str) -> (r: (
        FunctionalPseudoClassKind,
        bool,
    ))
        ensures
            r.0 == spec_functional_pseudo_class_kind(name@, self.css_modules),
            r.1 == (r.0 == FunctionalPseudoClassKind::Custom && spec_unknown_warns(name@)),
    {
        if eq_ignore_ascii_case(name, "lang") {
            (FunctionalPseudoClassKind::Lang, false)
        } else if eq_ignore_ascii_case(name, "dir") {
            (FunctionalPseudoClassKind::Dir, false)
        } else if eq_ignore_ascii_case(name, "local") && self.css_modules {
            (FunctionalPseudoClassKind::Local, false)
        } else if eq_ignore_ascii_case(name, "global") && self.css_modules {
            (FunctionalPseudoClassKind::Global, false)
        } else {
            let warn = unknown_warns(name);
            (FunctionalPseudoClassKind::Custom, warn)
        }
    }

    /// The dispatch of a functional pseudo-element name; the flag says
    /// whether a warning is owed for an unknown one.
    pub fn parse_functional_pseudo_element(&self, name: &str) -> (r: (
        FunctionalPseudoElementKind,
        bool,
    ))
        ensures
            r.0 == spec_functional_pseudo_element_kind(name@),
            r.1 == (r.0 == FunctionalPseudoElementKind::Custom && spec_unknown_warns(name@)),
    {
        if eq_ignore_ascii_case(name, "cue") {
            (FunctionalPseudoElementKind::Cue, false)
        } else if eq_ignore_ascii_case(name, "cue-region") {
            (FunctionalPseudoElementKind::CueRegion, false)
        } else {
            let warn = unknown_warns(name);
            (FunctionalPseudoElementKind::Custom, warn)
        }
    }

    /// The argument of `:dir()`, when the identifier is one of its two
    /// directions.
    pub fn parse_direction(&self, ident: &str) -> (r: Option<Direction>)
        ensures
            str_eq_ci(ident@, "ltr"@) ==> r == Some(Direction::Ltr),
            !str_eq_ci(ident@, "ltr"@) && str_eq_ci(ident@, "rtl"@) ==> r == Some(Direction::Rtl),
            !str_eq_ci(ident@, "ltr"@) && !str_eq_ci(ident@, "rtl"@) ==> r is None,
    {
        if eq_ignore_ascii_case(ident, "ltr") {
            Some(Direction::Ltr)
        } else if eq_ignore_ascii_case(ident, "rtl") {
            Some(Direction::Rtl)
        } else {
            None
        }
    }

    /// `::slotted()` is parsed.
    pub fn parse_slotted(&self) -> (r: bool)
        ensures
            r == true,
    {
        true
    }

    /// `:host` and `:host()` are parsed.
    pub fn parse_host(&self) -> (r: bool)
        ensures
            r == true,
    {
        true
    }

    /// `:is()` and `:where()` are parsed.
    pub fn parse_is_and_where(&self) -> (r: bool)
        ensures
            r == true,
    {
        true
    }

    /// `::part()` is parsed.
    pub fn parse_part(&self) -> (r: bool)
        ensures
            r == true,
    {
        true
    }

    /// There is no default namespace.
    pub fn default_namespace(&self) -> (r: Option<String>)
        ensures
            r is None,
    {
        None
    }

    /// A namespace prefix resolves to itself.
    pub fn namespace_for_prefix(&self, prefix: &str) -> (r: String)
        ensures
            r@ == prefix@,
    {
        String::from_str(prefix)
    }

    /// Whether the `&` nesting selector may appear.
    pub fn is_nesting_allowed(&self) -> (r: bool)
        ensures
            r == self.is_nesting_allowed,
    {
        self.is_nesting_allowed
    }
}

} // verus!
