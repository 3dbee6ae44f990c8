//! The compatibility oracle: which selector features a target browser set
//! supports, and which vendor prefixes each prefixable feature needs there.
//!
//! The browser database itself is an external collaborator; its answers for a
//! chosen target set are carried here as a plain record that the rewriting
//! and serialization logic consults.

use vstd::prelude::*;
use crate::vendor_prefix::VendorPrefix;

verus! {

/// A selector feature whose availability depends on the browser targets.
#[derive(Clone, Copy, PartialEq, Eq, Structural, Debug)]
pub enum Feature {
    /// CSS Selectors Level 2 constructs.
    CssSel2,
    /// CSS Selectors Level 3 constructs.
    CssSel3,
    /// Namespace prefixes in selectors.
    CssNamespaces,
    /// Case-insensitivity flags on attribute selectors.
    CssCaseInsensitive,
    /// The `:is()` pseudo-class.
    CssMatchesPseudo,
    /// The legacy `:-webkit-any()` / `:-moz-any()` pseudo-classes.
    AnyPseudo,
    /// The `:has()` pseudo-class.
    CssHas,
    /// Shadow DOM v1 (`:host`, `::slotted`, `:scope`).
    Shadowdomv1,
    /// The `:any-link` pseudo-class.
    CssAnyLink,
    /// The `:indeterminate` pseudo-class.
    CssIndeterminatePseudo,
    /// The `:fullscreen` pseudo-class.
    Fullscreen,
    /// The `:focus-visible` pseudo-class.
    CssFocusVisible,
    /// The `:focus-within` pseudo-class.
    CssFocusWithin,
    /// The `:default` pseudo-class.
    CssDefaultPseudo,
    /// The `:dir()` pseudo-class.
    CssDirPseudo,
    /// The `:optional` pseudo-class.
    CssOptionalPseudo,
    /// The `:placeholder-shown` pseudo-class.
    CssPlaceholderShown,
    /// The `:read-only` / `:read-write` pseudo-classes.
    CssReadOnlyWrite,
    /// The `:valid`, `:invalid` and `:required` pseudo-classes.
    FormValidation,
    /// The `:in-range` / `:out-of-range` pseudo-classes.
    CssInOutOfRange,
    /// The `:autofill` pseudo-class.
    CssAutofill,
    /// The `::placeholder` pseudo-element.
    CssPlaceholder,
    /// The `::selection` pseudo-element.
    CssSelection,
    /// The `::backdrop` pseudo-element.
    Dialog,
    /// The `::first-line` pseudo-element.
    CssFirstLine,
    /// The `::first-letter` pseudo-element.
    CssFirstLetter,
    /// The `::before` / `::after` pseudo-elements.
    CssGencontent,
    /// The `::marker` pseudo-element.
    CssMarkerPseudo,
    /// The `::cue` pseudo-element.
    Cue,
    /// The `::cue()` functional pseudo-element.
    CueFunction,
    /// Multiple arguments to `:lang()`.
    LangList,
    /// CSS nesting (the `&` selector).
    CssNesting,
    /// Selector lists as the argument of `:not()`.
    CssNotSelList,
}

/// A feature that, when not natively supported, is reached through a
/// vendor-prefixed spelling.
#[derive(Clone, Copy, PartialEq, Eq, Structural, Debug)]
pub enum PrefixFeature {
    /// `:fullscreen`
    PseudoClassFullscreen,
    /// `:any-link`
    PseudoClassAnyLink,
    /// `:read-only`
    PseudoClassReadOnly,
    /// `:read-write`
    PseudoClassReadWrite,
    /// `:placeholder-shown`
    PseudoClassPlaceholderShown,
    /// `:autofill`
    PseudoClassAutofill,
    /// `::selection`
    PseudoElementSelection,
    /// `::placeholder`
    PseudoElementPlaceholder,
    /// `::backdrop`
    PseudoElementBackdrop,
    /// `::file-selector-button`
    PseudoElementFileSelectorButton,
    /// `:-webkit-any()` / `:-moz-any()`
    AnyPseudo,
}

/// The compatibility database's answers for one browser target set: a
/// support flag per [`Feature`] and a prefix set per [`PrefixFeature`].
#[derive(Clone, Copy, PartialEq, Eq, Structural, Debug)]
pub struct Targets {
    /// Support for [`Feature::CssSel2`].
    pub sel2: bool,
    /// Support for [`Feature::CssSel3`].
    pub sel3: bool,
    /// Support for [`Feature::CssNamespaces`].
    pub namespaces: bool,
    /// Support for [`Feature::CssCaseInsensitive`].
    pub case_insensitive: bool,
    /// Support for [`Feature::CssMatchesPseudo`].
    pub matches_pseudo: bool,
    /// Support for [`Feature::AnyPseudo`].
    pub any_pseudo: bool,
    /// Support for [`Feature::CssHas`].
    pub has: bool,
    /// Support for [`Feature::Shadowdomv1`].
    pub shadowdomv1: bool,
    /// Support for [`Feature::CssAnyLink`].
    pub any_link: bool,
    /// Support for [`Feature::CssIndeterminatePseudo`].
    pub indeterminate_pseudo: bool,
    /// Support for [`Feature::Fullscreen`].
    pub fullscreen: bool,
    /// Support for [`Feature::CssFocusVisible`].
    pub focus_visible: bool,
    /// Support for [`Feature::CssFocusWithin`].
    pub focus_within: bool,
    /// Support for [`Feature::CssDefaultPseudo`].
    pub default_pseudo: bool,
    /// Support for [`Feature::CssDirPseudo`].
    pub dir_pseudo: bool,
    /// Support for [`Feature::CssOptionalPseudo`].
    pub optional_pseudo: bool,
    /// Support for [`Feature::CssPlaceholderShown`].
    pub placeholder_shown: bool,
    /// Support for [`Feature::CssReadOnlyWrite`].
    pub read_only_write: bool,
    /// Support for [`Feature::FormValidation`].
    pub form_validation: bool,
    /// Support for [`Feature::CssInOutOfRange`].
    pub in_out_of_range: bool,
    /// Support for [`Feature::CssAutofill`].
    pub autofill: bool,
    /// Support for [`Feature::CssPlaceholder`].
    pub placeholder: bool,
    /// Support for [`Feature::CssSelection`].
    pub selection: bool,
    /// Support for [`Feature::Dialog`].
    pub dialog: bool,
    /// Support for [`Feature::CssFirstLine`].
    pub first_line: bool,
    /// Support for [`Feature::CssFirstLetter`].
    pub first_letter: bool,
    /// Support for [`Feature::CssGencontent`].
    pub gencontent: bool,
    /// Support for [`Feature::CssMarkerPseudo`].
    pub marker_pseudo: bool,
    /// Support for [`Feature::Cue`].
    pub cue: bool,
    /// Support for [`Feature::CueFunction`].
    pub cue_function: bool,
    /// Support for [`Feature::LangList`].
    pub lang_list: bool,
    /// Support for [`Feature::CssNesting`].
    pub nesting: bool,
    /// Support for [`Feature::CssNotSelList`].
    pub not_sel_list: bool,
    /// Prefixes needed for [`PrefixFeature::PseudoClassFullscreen`].
    pub prefix_fullscreen: VendorPrefix,
    /// Prefixes needed for [`PrefixFeature::PseudoClassAnyLink`].
    pub prefix_any_link: VendorPrefix,
    /// Prefixes needed for [`PrefixFeature::PseudoClassReadOnly`].
    pub prefix_read_only: VendorPrefix,
    /// Prefixes needed for [`PrefixFeature::PseudoClassReadWrite`].
    pub prefix_read_write: VendorPrefix,
    /// Prefixes needed for [`PrefixFeature::PseudoClassPlaceholderShown`].
    pub prefix_placeholder_shown: VendorPrefix,
    /// Prefixes needed for [`PrefixFeature::PseudoClassAutofill`].
    pub prefix_autofill: VendorPrefix,
    /// Prefixes needed for [`PrefixFeature::PseudoElementSelection`].
    pub prefix_selection: VendorPrefix,
    /// Prefixes needed for [`PrefixFeature::PseudoElementPlaceholder`].
    pub prefix_placeholder: VendorPrefix,
    /// Prefixes needed for [`PrefixFeature::PseudoElementBackdrop`].
    pub prefix_backdrop: VendorPrefix,
    /// Prefixes needed for [`PrefixFeature::PseudoElementFileSelectorButton`].
    pub prefix_file_selector_button: VendorPrefix,
    /// Prefixes needed for [`PrefixFeature::AnyPseudo`].
    pub prefix_any_pseudo: VendorPrefix,
}

impl Targets {
    /// A record that supports no feature and asks for no prefix.
    pub fn none() -> (r: Self)
        ensures
            r == Self::spec_none(),
    {
        Targets {
            sel2: false,
            sel3: false,
            namespaces: false,
            case_insensitive: false,
            matches_pseudo: false,
            any_pseudo: false,
            has: false,
            shadowdomv1: false,
            any_link: false,
            indeterminate_pseudo: false,
            fullscreen: false,
            focus_visible: false,
            focus_within: false,
            default_pseudo: false,
            dir_pseudo: false,
            optional_pseudo: false,
            placeholder_shown: false,
            read_only_write: false,
            form_validation: false,
            in_out_of_range: false,
            autofill: false,
            placeholder: false,
            selection: false,
            dialog: false,
            first_line: false,
            first_letter: false,
            gencontent: false,
            marker_pseudo: false,
            cue: false,
            cue_function: false,
            lang_list: false,
            nesting: false,
            not_sel_list: false,
            prefix_fullscreen: VendorPrefix::empty(),
            prefix_any_link: VendorPrefix::empty(),
            prefix_read_only: VendorPrefix::empty(),
            prefix_read_write: VendorPrefix::empty(),
            prefix_placeholder_shown: VendorPrefix::empty(),
            prefix_autofill: VendorPrefix::empty(),
            prefix_selection: VendorPrefix::empty(),
            prefix_placeholder: VendorPrefix::empty(),
            prefix_backdrop: VendorPrefix::empty(),
            prefix_file_selector_button: VendorPrefix::empty(),
            prefix_any_pseudo: VendorPrefix::empty(),
        }
    }

    /// The record that [`Targets::none`] returns.
    pub open spec fn spec_none() -> Self {
        Targets {
            sel2: false,
            sel3: false,
            namespaces: false,
            case_insensitive: false,
            matches_pseudo: false,
            any_pseudo: false,
            has: false,
            shadowdomv1: false,
            any_link: false,
            indeterminate_pseudo: false,
            fullscreen: false,
            focus_visible: false,
            focus_within: false,
            default_pseudo: false,
            dir_pseudo: false,
            optional_pseudo: false,
            placeholder_shown: false,
            read_only_write: false,
            form_validation: false,
            in_out_of_range: false,
            autofill: false,
            placeholder: false,
            selection: false,
            dialog: false,
            first_line: false,
            first_letter: false,
            gencontent: false,
            marker_pseudo: false,
            cue: false,
            cue_function: false,
            lang_list: false,
            nesting: false,
            not_sel_list: false,
            prefix_fullscreen: VendorPrefix { none: false, webkit: false, moz: false, ms: false, o: false },
            prefix_any_link: VendorPrefix { none: false, webkit: false, moz: false, ms: false, o: false },
            prefix_read_only: VendorPrefix { none: false, webkit: false, moz: false, ms: false, o: false },
            prefix_read_write: VendorPrefix { none: false, webkit: false, moz: false, ms: false, o: false },
            prefix_placeholder_shown: VendorPrefix { none: false, webkit: false, moz: false, ms: false, o: false },
            prefix_autofill: VendorPrefix { none: false, webkit: false, moz: false, ms: false, o: false },
            prefix_selection: VendorPrefix { none: false, webkit: false, moz: false, ms: false, o: false },
            prefix_placeholder: VendorPrefix { none: false, webkit: false, moz: false, ms: false, o: false },
            prefix_backdrop: VendorPrefix { none: false, webkit: false, moz: false, ms: false, o: false },
            prefix_file_selector_button: VendorPrefix { none: false, webkit: false, moz: false, ms: false, o: false },
            prefix_any_pseudo: VendorPrefix { none: false, webkit: false, moz: false, ms: false, o: false },
        }
    }
}

impl Feature {
    /// The support flag this feature reads from a target record.
    pub open spec fn spec_is_compatible(self, targets: Targets) -> bool {
        match self {
            Feature::CssSel2 => targets.sel2,
            Feature::CssSel3 => targets.sel3,
            Feature::CssNamespaces => targets.namespaces,
            Feature::CssCaseInsensitive => targets.case_insensitive,
            Feature::CssMatchesPseudo => targets.matches_pseudo,
            Feature::AnyPseudo => targets.any_pseudo,
            Feature::CssHas => targets.has,
            Feature::Shadowdomv1 => targets.shadowdomv1,
            Feature::CssAnyLink => targets.any_link,
            Feature::CssIndeterminatePseudo => targets.indeterminate_pseudo,
            Feature::Fullscreen => targets.fullscreen,
            Feature::CssFocusVisible => targets.focus_visible,
            Feature::CssFocusWithin => targets.focus_within,
            Feature::CssDefaultPseudo => targets.default_pseudo,
            Feature::CssDirPseudo => targets.dir_pseudo,
            Feature::CssOptionalPseudo => targets.optional_pseudo,
            Feature::CssPlaceholderShown => targets.placeholder_shown,
            Feature::CssReadOnlyWrite => targets.read_only_write,
            Feature::FormValidation => targets.form_validation,
            Feature::CssInOutOfRange => targets.in_out_of_range,
            Feature::CssAutofill => targets.autofill,
            Feature::CssPlaceholder => targets.placeholder,
            Feature::CssSelection => targets.selection,
            Feature::Dialog => targets.dialog,
            Feature::CssFirstLine => targets.first_line,
            Feature::CssFirstLetter => targets.first_letter,
            Feature::CssGencontent => targets.gencontent,
            Feature::CssMarkerPseudo => targets.marker_pseudo,
            Feature::Cue => targets.cue,
            Feature::CueFunction => targets.cue_function,
            Feature::LangList => targets.lang_list,
            Feature::CssNesting => targets.nesting,
            Feature::CssNotSelList => targets.not_sel_list,
        }
    }

    /// Whether the targets support this feature.
    pub fn is_compatible(&self, targets: &Targets) -> (r: bool)
        ensures
            r == self.spec_is_compatible(*targets),
    {
        match self {
            Feature::CssSel2 => targets.sel2,
            Feature::CssSel3 => targets.sel3,
            Feature::CssNamespaces => targets.namespaces,
            Feature::CssCaseInsensitive => targets.case_insensitive,
            Feature::CssMatchesPseudo => targets.matches_pseudo,
            Feature::AnyPseudo => targets.any_pseudo,
            Feature::CssHas => targets.has,
            Feature::Shadowdomv1 => targets.shadowdomv1,
            Feature::CssAnyLink => targets.any_link,
            Feature::CssIndeterminatePseudo => targets.indeterminate_pseudo,
            Feature::Fullscreen => targets.fullscreen,
            Feature::CssFocusVisible => targets.focus_visible,
            Feature::CssFocusWithin => targets.focus_within,
            Feature::CssDefaultPseudo => targets.default_pseudo,
            Feature::CssDirPseudo => targets.dir_pseudo,
            Feature::CssOptionalPseudo => targets.optional_pseudo,
            Feature::CssPlaceholderShown => targets.placeholder_shown,
            Feature::CssReadOnlyWrite => targets.read_only_write,
            Feature::FormValidation => targets.form_validation,
            Feature::CssInOutOfRange => targets.in_out_of_range,
            Feature::CssAutofill => targets.autofill,
            Feature::CssPlaceholder => targets.placeholder,
            Feature::CssSelection => targets.selection,
            Feature::Dialog => targets.dialog,
            Feature::CssFirstLine => targets.first_line,
            Feature::CssFirstLetter => targets.first_letter,
            Feature::CssGencontent => targets.gencontent,
            Feature::CssMarkerPseudo => targets.marker_pseudo,
            Feature::Cue => targets.cue,
            Feature::CueFunction => targets.cue_function,
            Feature::LangList => targets.lang_list,
            Feature::CssNesting => targets.nesting,
            Feature::CssNotSelList => targets.not_sel_list,
        }
    }
}

impl PrefixFeature {
    /// The prefix set this feature reads from a target record.
    pub open spec fn spec_prefixes_for(self, targets: Targets) -> VendorPrefix {
        match self {
            PrefixFeature::PseudoClassFullscreen => targets.prefix_fullscreen,
            PrefixFeature::PseudoClassAnyLink => targets.prefix_any_link,
            PrefixFeature::PseudoClassReadOnly => targets.prefix_read_only,
            PrefixFeature::PseudoClassReadWrite => targets.prefix_read_write,
            PrefixFeature::PseudoClassPlaceholderShown => targets.prefix_placeholder_shown,
            PrefixFeature::PseudoClassAutofill => targets.prefix_autofill,
            PrefixFeature::PseudoElementSelection => targets.prefix_selection,
            PrefixFeature::PseudoElementPlaceholder => targets.prefix_placeholder,
            PrefixFeature::PseudoElementBackdrop => targets.prefix_backdrop,
            PrefixFeature::PseudoElementFileSelectorButton => targets.prefix_file_selector_button,
            PrefixFeature::AnyPseudo => targets.prefix_any_pseudo,
        }
    }

    /// The vendor prefixes the targets need for this feature.
    pub fn prefixes_for(&self, targets: &Targets) -> (r: VendorPrefix)
        ensures
            r == self.spec_prefixes_for(*targets),
    {
        match self {
            PrefixFeature::PseudoClassFullscreen => targets.prefix_fullscreen,
            PrefixFeature::PseudoClassAnyLink => targets.prefix_any_link,
            PrefixFeature::PseudoClassReadOnly => targets.prefix_read_only,
            PrefixFeature::PseudoClassReadWrite => targets.prefix_read_write,
            PrefixFeature::PseudoClassPlaceholderShown => targets.prefix_placeholder_shown,
            PrefixFeature::PseudoClassAutofill => targets.prefix_autofill,
            PrefixFeature::PseudoElementSelection => targets.prefix_selection,
            PrefixFeature::PseudoElementPlaceholder => targets.prefix_placeholder,
            PrefixFeature::PseudoElementBackdrop => targets.prefix_backdrop,
            PrefixFeature::PseudoElementFileSelectorButton => targets.prefix_file_selector_button,
            PrefixFeature::AnyPseudo => targets.prefix_any_pseudo,
        }
    }
}

} // verus!
