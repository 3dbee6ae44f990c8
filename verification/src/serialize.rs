//! Serialization of selector trees, following the CSSOM "serializing
//! selectors" algorithm: parse-order emission of match-order storage,
//! universal-type elision, `:scope` elision in relative selectors, `:is()`
//! collapsing, `:not()` list downleveling on emission, nesting expansion
//! against a parent style context, and shortest-form attribute values.
//!
//! The spec functions in this module are the reference semantics; each
//! executable function appends exactly the text its spec function denotes.

use vstd::prelude::*;
use vstd::string::{StrSliceExecFns, StringExecFns};
use crate::printer::{
    delim_text, escape_ident, escape_string, escaped_ident, escaped_string, whitespace_text,
    Printer, PrintState, PseudoClasses,
};
use crate::selector::{
    component_seq_size, component_size, last_combinator_index, lemma_component_seq_size_ge,
    lemma_component_seq_size_split, lemma_component_seq_size_subrange,
    lemma_last_combinator_index, lemma_selector_seq_size_ge, pseudo_class_size,
    pseudo_element_size, selector_seq_size, selector_size, spec_has_type_selector,
    spec_is_combinator, spec_is_simple, spec_is_type_selector, AttrSelectorOperation,
    AttrSelectorOperator, Combinator, Component, Direction, NamespaceConstraint,
    ParsedCaseSensitivity, PseudoClass, PseudoElement, Selector, SelectorList, Selectors,
    WebKitScrollbarPseudoClass, WebKitScrollbarPseudoElement,
};
use crate::targets::Feature;
use crate::vendor_prefix::VendorPrefix;

verus! {

/// The parent context for nesting expansion: the enclosing rule's selector
/// list, and its own parent in turn.
#[derive(Debug, PartialEq, Eq)]
pub struct StyleContext {
    /// The enclosing rule's selectors.
    pub selectors: SelectorList,
    /// The context of the enclosing rule itself, if it is nested too.
    pub parent: Option<Box<StyleContext>>,
}

/// The depth of a context chain.
pub open spec fn ctx_depth(c: StyleContext) -> nat
    decreases c,
{
    match c.parent {
        Some(b) => 1 + ctx_depth(*b),
        None => 1,
    }
}

/// The depth of an optional context chain.
pub open spec fn opt_ctx_depth(ctx: Option<StyleContext>) -> nat {
    match ctx {
        Some(c) => ctx_depth(c),
        None => 0,
    }
}

/// The parent of a context, as an optional value.
pub open spec fn ctx_parent(c: StyleContext) -> Option<StyleContext> {
    match c.parent {
        Some(b) => Some(*b),
        None => None,
    }
}

/// The value an optional context reference stands for.
pub open spec fn deref_ctx(ctx: Option<&StyleContext>) -> Option<StyleContext> {
    match ctx {
        Some(c) => Some(*c),
        None => None,
    }
}

/// Whether the targets of a print state support CSS nesting; absent targets
/// mean everything is supported.
pub open spec fn spec_supports_nesting(st: PrintState) -> bool {
    match st.targets {
        None => true,
        Some(t) => Feature::CssNesting.spec_is_compatible(t),
    }
}

/// Whether the targets of a print state support selector lists in `:not()`.
pub open spec fn spec_supports_not_list(st: PrintState) -> bool {
    match st.targets {
        None => true,
        Some(t) => Feature::CssNotSelList.spec_is_compatible(t),
    }
}

// ---------------------------------------------------------------------------
// Texts of the simple atoms.
// ---------------------------------------------------------------------------

/// The decimal digit for a value below ten.
pub open spec fn digit_char(d: nat) -> char {
    if d == 0 {
        '0'
    } else if d == 1 {
        '1'
    } else if d == 2 {
        '2'
    } else if d == 3 {
        '3'
    } else if d == 4 {
        '4'
    } else if d == 5 {
        '5'
    } else if d == 6 {
        '6'
    } else if d == 7 {
        '7'
    } else if d == 8 {
        '8'
    } else {
        '9'
    }
}

/// The decimal text of a natural number.
pub open spec fn dec_nat(n: nat) -> Seq<char>
    decreases n,
{
    if n < 10 {
        seq![digit_char(n)]
    } else {
        dec_nat(n / 10).push(digit_char(n % 10))
    }
}

/// The decimal text of an integer, with `-` for negative values.
pub open spec fn dec_int(n: int) -> Seq<char> {
    if n < 0 {
        seq!['-'] + dec_nat((-n) as nat)
    } else {
        dec_nat(n as nat)
    }
}

/// The decimal text of an integer with an explicit sign, as `{:+}` formats.
pub open spec fn dec_signed(n: int) -> Seq<char> {
    if n < 0 {
        seq!['-'] + dec_nat((-n) as nat)
    } else {
        seq!['+'] + dec_nat(n as nat)
    }
}

/// The text of an `An+B` argument, per the CSS Syntax serialization of
/// `<an+b>` values, with `odd` for `2n+1`.
pub open spec fn anb_text(a: int, b: int) -> Seq<char> {
    if a == 0 && b == 0 {
        seq!['0']
    } else if a == 1 && b == 0 {
        seq!['n']
    } else if a == -1 && b == 0 {
        seq!['-', 'n']
    } else if b == 0 {
        dec_int(a) + seq!['n']
    } else if a == 2 && b == 1 {
        "odd"@
    } else if a == 0 {
        dec_int(b)
    } else if a == 1 {
        seq!['n'] + dec_signed(b)
    } else if a == -1 {
        seq!['-', 'n'] + dec_signed(b)
    } else {
        dec_int(a) + seq!['n'] + dec_signed(b)
    }
}

/// The text of a combinator between two compounds: spaced delimiters for the
/// tree combinators, nothing for the synthetic markers.
pub open spec fn comb_text(c: Combinator, minify: bool) -> Seq<char> {
    match c {
        Combinator::Descendant => " "@,
        Combinator::Child => delim_text(">"@, true, minify),
        Combinator::NextSibling => delim_text("+"@, true, minify),
        Combinator::LaterSibling => delim_text("~"@, true, minify),
        Combinator::PseudoElement => Seq::<char>::empty(),
        Combinator::SlotAssignment => Seq::<char>::empty(),
        Combinator::Part => Seq::<char>::empty(),
    }
}

/// The text of an optional combinator.
pub open spec fn opt_comb_text(c: Option<Combinator>, minify: bool) -> Seq<char> {
    match c {
        Some(k) => comb_text(k, minify),
        None => Seq::<char>::empty(),
    }
}

/// The text of a combinator that opens a relative selector after an elided
/// `:scope`: no whitespace before it, and none at all for the descendant
/// combinator.
pub open spec fn leading_comb_text(c: Combinator, minify: bool) -> Seq<char> {
    match c {
        Combinator::Descendant => Seq::<char>::empty(),
        Combinator::Child => ">"@ + whitespace_text(minify),
        Combinator::NextSibling => "+"@ + whitespace_text(minify),
        Combinator::LaterSibling => "~"@ + whitespace_text(minify),
        Combinator::PseudoElement => Seq::<char>::empty(),
        Combinator::SlotAssignment => Seq::<char>::empty(),
        Combinator::Part => Seq::<char>::empty(),
    }
}

/// The text of an attribute selector operator.
pub open spec fn attr_operator_text(op: AttrSelectorOperator) -> Seq<char> {
    match op {
        AttrSelectorOperator::Equal => "="@,
        AttrSelectorOperator::Includes => "~="@,
        AttrSelectorOperator::DashMatch => "|="@,
        AttrSelectorOperator::Prefix => "^="@,
        AttrSelectorOperator::Substring => "*="@,
        AttrSelectorOperator::Suffix => "$="@,
    }
}

/// The suffix an attribute selector's case flag emits.
pub open spec fn case_flag_text(c: ParsedCaseSensitivity) -> Seq<char> {
    match c {
        ParsedCaseSensitivity::CaseSensitive => Seq::<char>::empty(),
        ParsedCaseSensitivity::AsciiCaseInsensitiveIfInHtmlElementInHtmlDocument => Seq::<
            char,
        >::empty(),
        ParsedCaseSensitivity::AsciiCaseInsensitive => " i"@,
        ParsedCaseSensitivity::ExplicitCaseSensitive => " s"@,
    }
}

/// The text of an attribute value: when minifying and the value is a plain
/// identifier already (escaping leaves it unchanged) and that form is
/// shorter, the bare identifier; otherwise the quoted-string form.
pub open spec fn attr_value_text(v: Seq<char>, minify: bool) -> Seq<char> {
    if minify && escaped_ident(v) == v && v.len() > 0 && v.len() < escaped_string(v).len() {
        escaped_ident(v)
    } else {
        escaped_string(v)
    }
}

/// The vendor prefix a prefixable pseudo is spelled with: the printer's
/// override when one is set, else the pseudo's own.
pub open spec fn effective_prefix(st: PrintState, own: VendorPrefix) -> VendorPrefix {
    if !st.vendor_prefix.spec_is_empty() {
        st.vendor_prefix
    } else {
        own
    }
}

/// The text of `:dir()`'s argument.
pub open spec fn direction_text(d: Direction) -> Seq<char> {
    match d {
        Direction::Ltr => "ltr"@,
        Direction::Rtl => "rtl"@,
    }
}

/// The text of a WebKit scrollbar state pseudo-class.
pub open spec fn webkit_scrollbar_class_text(s: WebKitScrollbarPseudoClass) -> Seq<char> {
    match s {
        WebKitScrollbarPseudoClass::Horizontal => ":horizontal"@,
        WebKitScrollbarPseudoClass::Vertical => ":vertical"@,
        WebKitScrollbarPseudoClass::Decrement => ":decrement"@,
        WebKitScrollbarPseudoClass::Increment => ":increment"@,
        WebKitScrollbarPseudoClass::Start => ":start"@,
        WebKitScrollbarPseudoClass::End => ":end"@,
        WebKitScrollbarPseudoClass::DoubleButton => ":double-button"@,
        WebKitScrollbarPseudoClass::SingleButton => ":single-button"@,
        WebKitScrollbarPseudoClass::NoButton => ":no-button"@,
        WebKitScrollbarPseudoClass::CornerPresent => ":corner-present"@,
        WebKitScrollbarPseudoClass::WindowInactive => ":window-inactive"@,
    }
}

/// The text of a WebKit scrollbar pseudo-element.
pub open spec fn webkit_scrollbar_element_text(s: WebKitScrollbarPseudoElement) -> Seq<char> {
    match s {
        WebKitScrollbarPseudoElement::Scrollbar => "::-webkit-scrollbar"@,
        WebKitScrollbarPseudoElement::Button => "::-webkit-scrollbar-button"@,
        WebKitScrollbarPseudoElement::Track => "::-webkit-scrollbar-track"@,
        WebKitScrollbarPseudoElement::TrackPiece => "::-webkit-scrollbar-track-piece"@,
        WebKitScrollbarPseudoElement::Thumb => "::-webkit-scrollbar-thumb"@,
        WebKitScrollbarPseudoElement::Corner => "::-webkit-scrollbar-corner"@,
        WebKitScrollbarPseudoElement::Resizer => "::-webkit-resizer"@,
    }
}

/// The text of a user-action pseudo-class under an optional remapping: the
/// remapped class name when one is set, else the plain spelling.
pub open spec fn remapped_text(remap: Option<String>, plain: Seq<char>) -> Seq<char> {
    match remap {
        Some(cls) => "."@ + escaped_ident(cls@),
        None => plain,
    }
}

/// The joined `:lang()` argument list: identifiers separated by commas.
pub open spec fn lang_list_text(ls: Seq<String>, minify: bool) -> Seq<char> {
    if ls.len() == 0 {
        Seq::<char>::empty()
    } else {
        escaped_ident(ls[0]@) + lang_list_rest(ls.drop_first(), minify)
    }
}

/// The `:lang()` arguments after the first one: each preceded by a comma.
pub open spec fn lang_list_rest(ls: Seq<String>, minify: bool) -> Seq<char>
    decreases ls.len(),
{
    if ls.len() == 0 {
        Seq::<char>::empty()
    } else {
        delim_text(","@, false, minify) + escaped_ident(ls[0]@) + lang_list_rest(
            ls.drop_first(),
            minify,
        )
    }
}

/// The joined `::part()` argument list: identifiers separated by spaces.
pub open spec fn part_list_text(ls: Seq<String>) -> Seq<char> {
    if ls.len() == 0 {
        Seq::<char>::empty()
    } else {
        escaped_ident(ls[0]@) + part_list_rest(ls.drop_first())
    }
}

/// The `::part()` arguments after the first one: each preceded by a space.
pub open spec fn part_list_rest(ls: Seq<String>) -> Seq<char>
    decreases ls.len(),
{
    if ls.len() == 0 {
        Seq::<char>::empty()
    } else {
        " "@ + escaped_ident(ls[0]@) + part_list_rest(ls.drop_first())
    }
}

// ---------------------------------------------------------------------------
// The serialization semantics.
// ---------------------------------------------------------------------------

/// The text of a pseudo-class.
pub open spec fn ser_pseudo_class(
    pc: PseudoClass,
    st: PrintState,
    ctx: Option<StyleContext>,
) -> Seq<char>
    decreases opt_ctx_depth(ctx), pseudo_class_size(pc), 0int,
{
    match pc {
        PseudoClass::Lang { languages } => ":lang("@ + lang_list_text(languages@, st.minify)
            + ")"@,
        PseudoClass::Dir { direction } => ":dir("@ + direction_text(direction) + ")"@,
        PseudoClass::Hover => match st.pseudo_classes {
            Some(pcs) => remapped_text(pcs.hover, ":hover"@),
            None => ":hover"@,
        },
        PseudoClass::Active => match st.pseudo_classes {
            Some(pcs) => remapped_text(pcs.active, ":active"@),
            None => ":active"@,
        },
        PseudoClass::Focus => match st.pseudo_classes {
            Some(pcs) => remapped_text(pcs.focus, ":focus"@),
            None => ":focus"@,
        },
        PseudoClass::FocusVisible => match st.pseudo_classes {
            Some(pcs) => remapped_text(pcs.focus_visible, ":focus-visible"@),
            None => ":focus-visible"@,
        },
        PseudoClass::FocusWithin => match st.pseudo_classes {
            Some(pcs) => remapped_text(pcs.focus_within, ":focus-within"@),
            None => ":focus-within"@,
        },
        PseudoClass::Current => ":current"@,
        PseudoClass::Past => ":past"@,
        PseudoClass::Future => ":future"@,
        PseudoClass::Playing => ":playing"@,
        PseudoClass::Paused => ":paused"@,
        PseudoClass::Seeking => ":seeking"@,
        PseudoClass::Buffering => ":buffering"@,
        PseudoClass::Stalled => ":stalled"@,
        PseudoClass::Muted => ":muted"@,
        PseudoClass::VolumeLocked => ":volume-locked"@,
        PseudoClass::Fullscreen(p) => {
            let vp = effective_prefix(st, p);
            if vp == VendorPrefix::spec_webkit() || vp == VendorPrefix::spec_moz() {
                ":"@ + vp.spec_text() + "full-screen"@
            } else {
                ":"@ + vp.spec_text() + "fullscreen"@
            }
        },
        PseudoClass::Defined => ":defined"@,
        PseudoClass::AnyLink(p) => ":"@ + effective_prefix(st, p).spec_text() + "any-link"@,
        PseudoClass::Link => ":link"@,
        PseudoClass::LocalLink => ":local-link"@,
        PseudoClass::Target => ":target"@,
        PseudoClass::TargetWithin => ":target-within"@,
        PseudoClass::Visited => ":visited"@,
        PseudoClass::Enabled => ":enabled"@,
        PseudoClass::Disabled => ":disabled"@,
        PseudoClass::ReadOnly(p) => ":"@ + effective_prefix(st, p).spec_text() + "read-only"@,
        PseudoClass::ReadWrite(p) => ":"@ + effective_prefix(st, p).spec_text() + "read-write"@,
        PseudoClass::PlaceholderShown(p) => ":"@ + effective_prefix(st, p).spec_text()
            + "placeholder-shown"@,
        PseudoClass::Default => ":default"@,
        PseudoClass::Checked => ":checked"@,
        PseudoClass::Indeterminate => ":indeterminate"@,
        PseudoClass::Blank => ":blank"@,
        PseudoClass::Valid => ":valid"@,
        PseudoClass::Invalid => ":invalid"@,
        PseudoClass::InRange => ":in-range"@,
        PseudoClass::OutOfRange => ":out-of-range"@,
        PseudoClass::Required => ":required"@,
        PseudoClass::Optional => ":optional"@,
        PseudoClass::UserValid => ":user-valid"@,
        PseudoClass::UserInvalid => ":user-invalid"@,
        PseudoClass::Autofill(p) => ":"@ + effective_prefix(st, p).spec_text() + "autofill"@,
        PseudoClass::Local { selector } => ser_selector(*selector, st, ctx, false),
        PseudoClass::Global { selector } => ser_selector(
            *selector,
            PrintState { css_module: false, ..st },
            ctx,
            false,
        ),
        PseudoClass::WebKitScrollbar(s) => webkit_scrollbar_class_text(s),
        PseudoClass::Custom { name } => ":"@ + name@,
        PseudoClass::CustomFunction { name, arguments } => ":"@ + name@ + "("@ + arguments@
            + ")"@,
    }
}

/// The text of a pseudo-element. The CSS2 pseudo-elements are spelled with a
/// single colon, which is shorter and supported everywhere.
pub open spec fn ser_pseudo_element(
    pe: PseudoElement,
    st: PrintState,
    ctx: Option<StyleContext>,
) -> Seq<char>
    decreases opt_ctx_depth(ctx), pseudo_element_size(pe), 0int,
{
    match pe {
        PseudoElement::After => ":after"@,
        PseudoElement::Before => ":before"@,
        PseudoElement::FirstLine => ":first-line"@,
        PseudoElement::FirstLetter => ":first-letter"@,
        PseudoElement::Marker => "::marker"@,
        PseudoElement::Selection(p) => "::"@ + effective_prefix(st, p).spec_text() + "selection"@,
        PseudoElement::Cue => "::cue"@,
        PseudoElement::CueRegion => "::cue-region"@,
        PseudoElement::CueFunction { selector } => "::cue("@ + ser_selector(
            *selector,
            st,
            ctx,
            false,
        ) + ")"@,
        PseudoElement::CueRegionFunction { selector } => "::cue-region("@ + ser_selector(
            *selector,
            st,
            ctx,
            false,
        ) + ")"@,
        PseudoElement::Placeholder(p) => {
            let vp = effective_prefix(st, p);
            if vp == VendorPrefix::spec_webkit() || vp == VendorPrefix::spec_ms() {
                "::"@ + vp.spec_text() + "input-placeholder"@
            } else {
                "::"@ + vp.spec_text() + "placeholder"@
            }
        },
        PseudoElement::Backdrop(p) => "::"@ + effective_prefix(st, p).spec_text() + "backdrop"@,
        PseudoElement::FileSelectorButton(p) => {
            let vp = effective_prefix(st, p);
            if vp == VendorPrefix::spec_webkit() {
                "::"@ + vp.spec_text() + "file-upload-button"@
            } else if vp == VendorPrefix::spec_ms() {
                "::"@ + vp.spec_text() + "browse"@
            } else {
                "::"@ + vp.spec_text() + "file-selector-button"@
            }
        },
        PseudoElement::WebKitScrollbar(s) => webkit_scrollbar_element_text(s),
        PseudoElement::Custom { name } => "::"@ + name@,
        PseudoElement::CustomFunction { name, arguments } => "::"@ + name@ + "("@ + arguments@
            + ")"@,
    }
}

/// The text of one component.
pub open spec fn ser_component(c: Component, st: PrintState, ctx: Option<StyleContext>) -> Seq<
    char,
>
    decreases opt_ctx_depth(ctx), component_size(c), 0int,
{
    match c {
        Component::Combinator(k) => comb_text(k, st.minify),
        Component::ExplicitAnyNamespace => "*|"@,
        Component::ExplicitNoNamespace => "|"@,
        Component::DefaultNamespace(_) => Seq::<char>::empty(),
        Component::Namespace(prefix, _) => escaped_ident(prefix@) + "|"@,
        Component::ExplicitUniversalType => "*"@,
        Component::LocalName(name) => escaped_ident(name@),
        Component::ID(name) => "#"@ + escaped_ident(name@),
        Component::Class(name) => "."@ + escaped_ident(name@),
        Component::AttributeInNoNamespaceExists { local_name } => "["@ + escaped_ident(
            local_name@,
        ) + "]"@,
        Component::AttributeInNoNamespace { local_name, operator, value, case_sensitivity } => {
            "["@ + escaped_ident(local_name@) + attr_operator_text(operator) + attr_value_text(
                value@,
                st.minify,
            ) + case_flag_text(case_sensitivity) + "]"@
        },
        Component::AttributeOther { namespace, local_name, operation } => {
            let ns_text = match namespace {
                Some(NamespaceConstraint::Any) => "*|"@,
                Some(NamespaceConstraint::Specific(prefix, _)) => escaped_ident(prefix@) + "|"@,
                None => Seq::<char>::empty(),
            };
            let op_text = match operation {
                AttrSelectorOperation::Exists => Seq::<char>::empty(),
                AttrSelectorOperation::WithValue { operator, case_sensitivity, value } => {
                    attr_operator_text(operator) + escaped_string(value@) + case_flag_text(
                        case_sensitivity,
                    )
                },
            };
            "["@ + ns_text + escaped_ident(local_name@) + op_text + "]"@
        },
        Component::FirstChild => ":first-child"@,
        Component::LastChild => ":last-child"@,
        Component::OnlyChild => ":only-child"@,
        Component::Root => ":root"@,
        Component::Empty => ":empty"@,
        Component::Scope => ":scope"@,
        Component::FirstOfType => ":first-of-type"@,
        Component::LastOfType => ":last-of-type"@,
        Component::OnlyOfType => ":only-of-type"@,
        Component::NthChild(a, b) => ":nth-child("@ + anb_text(a as int, b as int) + ")"@,
        Component::NthLastChild(a, b) => ":nth-last-child("@ + anb_text(a as int, b as int)
            + ")"@,
        Component::NthOfType(a, b) => ":nth-of-type("@ + anb_text(a as int, b as int) + ")"@,
        Component::NthLastOfType(a, b) => ":nth-last-of-type("@ + anb_text(a as int, b as int)
            + ")"@,
        Component::NthCol(a, b) => ":nth-col("@ + anb_text(a as int, b as int) + ")"@,
        Component::NthLastCol(a, b) => ":nth-last-col("@ + anb_text(a as int, b as int) + ")"@,
        Component::NonTSPseudoClass(pc) => ser_pseudo_class(pc, st, ctx),
        Component::PseudoElement(pe) => ser_pseudo_element(pe, st, ctx),
        Component::Negation(list) => {
            if spec_supports_not_list(st) {
                ":not("@ + ser_selector_list(list@, st, ctx, false) + ")"@
            } else {
                ser_negation_text(list@, st, ctx)
            }
        },
        Component::Is(list) => {
            if st.vendor_prefix.spec_intersects(
                VendorPrefix::spec_webkit().spec_or(VendorPrefix::spec_moz()),
            ) {
                ":"@ + st.vendor_prefix.spec_text() + "any("@ + ser_selector_list(
                    list@,
                    st,
                    ctx,
                    false,
                ) + ")"@
            } else if list@.len() == 1 && !spec_has_type_selector(list@[0]) && spec_is_simple(
                list@[0],
            ) {
                ser_selector(list@[0], st, ctx, false)
            } else {
                ":is("@ + ser_selector_list(list@, st, ctx, false) + ")"@
            }
        },
        Component::Where(list) => ":where("@ + ser_selector_list(list@, st, ctx, false) + ")"@,
        Component::Has(list) => ":has("@ + ser_selector_list(list@, st, ctx, true) + ")"@,
        Component::Any(prefix, list) => ":"@ + prefix.spec_text() + "any("@ + ser_selector_list(
            list@,
            st,
            ctx,
            false,
        ) + ")"@,
        Component::Slotted(s) => "::slotted("@ + ser_selector(*s, st, ctx, false) + ")"@,
        Component::Part(names) => "::part("@ + part_list_text(names@) + ")"@,
        Component::Host(os) => {
            match os {
                Some(s) => ":host("@ + ser_selector(*s, st, ctx, false) + ")"@,
                None => ":host"@,
            }
        },
        Component::Nesting => ser_nesting(st, ctx, false),
    }
}

/// The concatenated text of every component of a sequence, in order.
pub open spec fn ser_components_all(
    cs: Seq<Component>,
    st: PrintState,
    ctx: Option<StyleContext>,
) -> Seq<char>
    decreases opt_ctx_depth(ctx), component_seq_size(cs), 1int,
        via ser_components_all_decreases
{
    if cs.len() == 0 {
        Seq::<char>::empty()
    } else {
        ser_component(cs[0], st, ctx) + ser_components_all(cs.drop_first(), st, ctx)
    }
}

#[via_fn]
proof fn ser_components_all_decreases(cs: Seq<Component>, st: PrintState, ctx: Option<StyleContext>) {
    if cs.len() > 0 {
        lemma_component_seq_size_ge(cs, 0);
    }
}

/// The concatenated text of the components of a sequence, eliding the
/// explicit universal selector when the namespace allows it.
pub open spec fn ser_components_elide(
    cs: Seq<Component>,
    can_elide: bool,
    st: PrintState,
    ctx: Option<StyleContext>,
) -> Seq<char>
    decreases opt_ctx_depth(ctx), component_seq_size(cs), 1int,
        via ser_components_elide_decreases
{
    if cs.len() == 0 {
        Seq::<char>::empty()
    } else {
        (if cs[0] is ExplicitUniversalType && can_elide {
            Seq::<char>::empty()
        } else {
            ser_component(cs[0], st, ctx)
        }) + ser_components_elide(cs.drop_first(), can_elide, st, ctx)
    }
}

/// The text of one compound selector, per the CSSOM algorithm: a lone
/// universal selector is emitted with its namespace; otherwise each simple
/// selector is emitted, eliding a universal selector whose namespace is the
/// default; a leading nesting selector that would precede a type selector
/// after substitution is swapped behind it.
pub open spec fn ser_compound(
    seg: Seq<Component>,
    comb: Option<Combinator>,
    first: bool,
    st: PrintState,
    ctx: Option<StyleContext>,
) -> Seq<char>
    decreases opt_ctx_depth(ctx), component_seq_size(seg), 2int,
        via ser_compound_decreases
{
    if seg.len() == 0 {
        Seq::<char>::empty()
    } else {
        let nest = first && seg[0] is Nesting;
        let fi: int = if nest {
            1
        } else {
            0
        };
        let can_elide = !(fi < seg.len() && (seg[fi] is ExplicitAnyNamespace
            || seg[fi] is ExplicitNoNamespace || seg[fi] is Namespace));
        let fnn: int = if fi < seg.len() && (seg[fi] is ExplicitAnyNamespace
            || seg[fi] is ExplicitNoNamespace || seg[fi] is Namespace
            || seg[fi] is DefaultNamespace) {
            fi + 1
        } else {
            fi
        };
        let sup_nest = spec_supports_nesting(st);
        if fnn == seg.len() - 1 && !(comb == Some(Combinator::PseudoElement) || comb == Some(
            Combinator::SlotAssignment,
        )) && seg[fnn] is ExplicitUniversalType {
            if nest && !sup_nest {
                ser_components_all(seg.subrange(1, seg.len() as int), st, ctx) + ser_nesting(
                    st,
                    ctx,
                    false,
                )
            } else {
                ser_components_all(seg, st, ctx)
            }
        } else {
            if nest && !sup_nest && fnn < seg.len() && spec_is_type_selector(seg[fnn]) {
                ser_components_all(seg.subrange(1, fnn + 1), st, ctx) + ser_nesting(st, ctx, false)
                    + ser_components_elide(seg.subrange(fnn + 1, seg.len() as int), can_elide, st, ctx)
            } else if nest && !sup_nest {
                ser_nesting(st, ctx, true) + ser_components_elide(
                    seg.subrange(1, seg.len() as int),
                    can_elide,
                    st,
                    ctx,
                )
            } else {
                ser_components_elide(seg, can_elide, st, ctx)
            }
        }
    }
}

/// The text of a selector's components, walked in parse order: the storage
/// suffix after the last combinator entry is the first compound; a leading
/// `:scope` of a relative selector that stands alone before a combinator is
/// elided.
pub open spec fn ser_sel_components(
    cs: Seq<Component>,
    st: PrintState,
    ctx: Option<StyleContext>,
    first: bool,
    is_relative: bool,
) -> Seq<char>
    decreases opt_ctx_depth(ctx), component_seq_size(cs), 3int,
        via ser_sel_components_decreases
{
    if cs.len() == 0 {
        Seq::<char>::empty()
    } else {
        let j = last_combinator_index(cs);
        let seg = cs.subrange(j + 1, cs.len() as int);
        let rest = cs.take(if j >= 0 {
            j
        } else {
            0
        });
        let comb: Option<Combinator> = if j >= 0 {
            match cs[j] {
                Component::Combinator(k) => Some(k),
                _ => None,
            }
        } else {
            None
        };
        if is_relative && seg.len() == 1 && seg[0] is Scope && comb is Some {
            leading_comb_text(comb->0, st.minify) + ser_sel_components(rest, st, ctx, first, false)
        } else if seg.len() == 0 {
            opt_comb_text(comb, st.minify) + ser_sel_components(rest, st, ctx, first, is_relative)
        } else {
            ser_compound(seg, comb, first, st, ctx) + opt_comb_text(comb, st.minify)
                + ser_sel_components(rest, st, ctx, false, is_relative)
        }
    }
}

/// The text of one selector.
pub open spec fn ser_selector(
    sel: Selector,
    st: PrintState,
    ctx: Option<StyleContext>,
    is_relative: bool,
) -> Seq<char>
    decreases opt_ctx_depth(ctx), selector_size(sel), 4int,
{
    ser_sel_components(sel.components@, st, ctx, true, is_relative)
}

/// The text `:not()` emits when the targets lack selector-list support: one
/// `:not()` per branch.
pub open spec fn ser_negation_text(
    ss: Seq<Selector>,
    st: PrintState,
    ctx: Option<StyleContext>,
) -> Seq<char>
    decreases opt_ctx_depth(ctx), selector_seq_size(ss), 5int,
        via ser_negation_text_decreases
{
    if ss.len() == 0 {
        Seq::<char>::empty()
    } else {
        ":not("@ + ser_selector(ss[0], st, ctx, false) + ")"@ + ser_negation_text(
            ss.drop_first(),
            st,
            ctx,
        )
    }
}

/// The text of the branches after the first one: each preceded by a comma.
pub open spec fn ser_selector_list_tail(
    ss: Seq<Selector>,
    st: PrintState,
    ctx: Option<StyleContext>,
    is_relative: bool,
) -> Seq<char>
    decreases opt_ctx_depth(ctx), selector_seq_size(ss), 5int,
        via ser_selector_list_tail_decreases
{
    if ss.len() == 0 {
        Seq::<char>::empty()
    } else {
        delim_text(","@, false, st.minify) + ser_selector(ss[0], st, ctx, is_relative)
            + ser_selector_list_tail(ss.drop_first(), st, ctx, is_relative)
    }
}

/// The text of a selector list: its branches in order, separated by commas.
pub open spec fn ser_selector_list(
    ss: Seq<Selector>,
    st: PrintState,
    ctx: Option<StyleContext>,
    is_relative: bool,
) -> Seq<char>
    decreases opt_ctx_depth(ctx), selector_seq_size(ss), 6int,
{
    if ss.len() == 0 {
        Seq::<char>::empty()
    } else {
        ser_selector(ss[0], st, ctx, is_relative) + ser_selector_list_tail(
            ss.drop_first(),
            st,
            ctx,
            is_relative,
        )
    }
}

/// The text the nesting selector emits: `&` itself when nesting is
/// supported and there is no context; `:scope` without support and context;
/// with a context, the parent selector list, inlined when it is one branch
/// that may stand at this position, else wrapped in `:is()`.
pub open spec fn ser_nesting(st: PrintState, ctx: Option<StyleContext>, first: bool) -> Seq<char>
    decreases opt_ctx_depth(ctx), 0int, 0int,
{
    match ctx {
        Some(c) => {
            if c.selectors.selectors@.len() == 1 && (first || (!spec_has_type_selector(
                c.selectors.selectors@[0],
            ) && spec_is_simple(c.selectors.selectors@[0]))) {
                ser_selector(c.selectors.selectors@[0], st, ctx_parent(c), false)
            } else {
                ":is("@ + ser_selector_list(c.selectors.selectors@, st, ctx_parent(c), false)
                    + ")"@
            }
        },
        None => {
            if spec_supports_nesting(st) {
                "&"@
            } else {
                ":scope"@
            }
        },
    }
}

#[via_fn]
proof fn ser_components_elide_decreases(
    cs: Seq<Component>,
    can_elide: bool,
    st: PrintState,
    ctx: Option<StyleContext>,
) {
    if cs.len() > 0 {
        lemma_component_seq_size_ge(cs, 0);
    }
}

#[via_fn]
proof fn ser_compound_decreases(
    seg: Seq<Component>,
    comb: Option<Combinator>,
    first: bool,
    st: PrintState,
    ctx: Option<StyleContext>,
) {
    if seg.len() > 0 {
        lemma_component_seq_size_ge(seg, 0);
        lemma_component_seq_size_subrange(seg, 1, seg.len() as int);
        let nest = first && seg[0] is Nesting;
        let fi: int = if nest {
            1
        } else {
            0
        };
        let fnn: int = if fi < seg.len() && (seg[fi] is ExplicitAnyNamespace
            || seg[fi] is ExplicitNoNamespace || seg[fi] is Namespace
            || seg[fi] is DefaultNamespace) {
            fi + 1
        } else {
            fi
        };
        if fnn + 1 <= seg.len() {
            lemma_component_seq_size_subrange(seg, 1, fnn + 1);
            lemma_component_seq_size_subrange(seg, fnn + 1, seg.len() as int);
        }
    }
}

#[via_fn]
proof fn ser_sel_components_decreases(
    cs: Seq<Component>,
    st: PrintState,
    ctx: Option<StyleContext>,
    first: bool,
    is_relative: bool,
) {
    if cs.len() > 0 {
        lemma_last_combinator_index(cs);
        let j = last_combinator_index(cs);
        lemma_component_seq_size_subrange(cs, j + 1, cs.len() as int);
        if j >= 0 {
            lemma_component_seq_size_split(cs, j);
            lemma_component_seq_size_ge(cs.skip(j), 0);
            assert(cs.skip(j)[0] == cs[j]);
        } else {
            assert(cs.subrange(0, cs.len() as int) =~= cs);
            lemma_component_seq_size_ge(cs, 0);
            assert(cs.take(0) =~= Seq::<Component>::empty());
        }
    }
}

#[via_fn]
proof fn ser_negation_text_decreases(
    ss: Seq<Selector>,
    st: PrintState,
    ctx: Option<StyleContext>,
) {
    if ss.len() > 0 {
        lemma_selector_seq_size_ge(ss, 0);
    }
}

#[via_fn]
proof fn ser_selector_list_tail_decreases(
    ss: Seq<Selector>,
    st: PrintState,
    ctx: Option<StyleContext>,
    is_relative: bool,
) {
    if ss.len() > 0 {
        lemma_selector_seq_size_ge(ss, 0);
    }
}


// ---------------------------------------------------------------------------
// The executable serializer.
// ---------------------------------------------------------------------------

/// The views of the small string literals the serializer writes piecewise.
proof fn strlit_seq_facts()
    ensures
        "0"@ == seq!['0'],
        "n"@ == seq!['n'],
        "-n"@ == seq!['-', 'n'],
        "-"@ == seq!['-'],
        "+"@ == seq!['+'],
{
    reveal_strlit("0");
    reveal_strlit("n");
    reveal_strlit("-n");
    reveal_strlit("-");
    reveal_strlit("+");
    assert("0"@ =~= seq!['0']);
    assert("n"@ =~= seq!['n']);
    assert("-n"@ =~= seq!['-', 'n']);
    assert("-"@ =~= seq!['-']);
    assert("+"@ =~= seq!['+']);
}

/// The one-character text of a decimal digit.
fn digit_str(d: u64) -> (r: &'static str)
    requires
        d < 10,
    ensures
        r@ == seq![digit_char(d as nat)],
{
    proof {
        reveal_strlit("0");
        reveal_strlit("1");
        reveal_strlit("2");
        reveal_strlit("3");
        reveal_strlit("4");
        reveal_strlit("5");
        reveal_strlit("6");
        reveal_strlit("7");
        reveal_strlit("8");
        reveal_strlit("9");
        assert("0"@ =~= seq![digit_char(0)]);
        assert("1"@ =~= seq![digit_char(1)]);
        assert("2"@ =~= seq![digit_char(2)]);
        assert("3"@ =~= seq![digit_char(3)]);
        assert("4"@ =~= seq![digit_char(4)]);
        assert("5"@ =~= seq![digit_char(5)]);
        assert("6"@ =~= seq![digit_char(6)]);
        assert("7"@ =~= seq![digit_char(7)]);
        assert("8"@ =~= seq![digit_char(8)]);
        assert("9"@ =~= seq![digit_char(9)]);
    }
    if d == 0 {
        "0"
    } else if d == 1 {
        "1"
    } else if d == 2 {
        "2"
    } else if d == 3 {
        "3"
    } else if d == 4 {
        "4"
    } else if d == 5 {
        "5"
    } else if d == 6 {
        "6"
    } else if d == 7 {
        "7"
    } else if d == 8 {
        "8"
    } else {
        "9"
    }
}

/// Append the decimal text of a natural number.
fn write_dec_nat(n: u64, dest: &mut Printer)
    ensures
        final(dest).out@ == old(dest).out@ + dec_nat(n as nat),
        final(dest).state == old(dest).state,
    decreases n,
{
    if n < 10 {
        let d = digit_str(n);
        dest.write_str(d);
    } else {
        write_dec_nat(n / 10, dest);
        let d = digit_str(n % 10);
        dest.write_str(d);
        proof {
            assert(dest.out@ =~= old(dest).out@ + dec_nat(n as nat));
        }
    }
}

/// Append the decimal text of an integer.
fn write_dec_int(n: i64, dest: &mut Printer)
    requires
        n > i64::MIN,
    ensures
        final(dest).out@ == old(dest).out@ + dec_int(n as int),
        final(dest).state == old(dest).state,
{
    proof {
        strlit_seq_facts();
    }
    if n < 0 {
        dest.write_str("-");
        write_dec_nat((-n) as u64, dest);
        proof {
            assert(dest.out@ =~= old(dest).out@ + dec_int(n as int));
        }
    } else {
        write_dec_nat(n as u64, dest);
    }
}

/// Append the decimal text of an integer with an explicit sign.
fn write_dec_signed(n: i64, dest: &mut Printer)
    requires
        n > i64::MIN,
    ensures
        final(dest).out@ == old(dest).out@ + dec_signed(n as int),
        final(dest).state == old(dest).state,
{
    proof {
        strlit_seq_facts();
    }
    if n < 0 {
        dest.write_str("-");
        write_dec_nat((-n) as u64, dest);
    } else {
        dest.write_str("+");
        write_dec_nat(n as u64, dest);
    }
    proof {
        assert(dest.out@ =~= old(dest).out@ + dec_signed(n as int));
    }
}

/// Append the text of an `An+B` argument.
fn write_anb(a: i32, b: i32, dest: &mut Printer)
    ensures
        final(dest).out@ == old(dest).out@ + anb_text(a as int, b as int),
        final(dest).state == old(dest).state,
{
    proof {
        strlit_seq_facts();
    }
    if a == 0 && b == 0 {
        dest.write_str("0");
    } else if a == 1 && b == 0 {
        dest.write_str("n");
    } else if a == -1 && b == 0 {
        dest.write_str("-n");
    } else if b == 0 {
        write_dec_int(a as i64, dest);
        dest.write_str("n");
    } else if a == 2 && b == 1 {
        dest.write_str("odd");
    } else if a == 0 {
        write_dec_int(b as i64, dest);
    } else if a == 1 {
        dest.write_str("n");
        write_dec_signed(b as i64, dest);
    } else if a == -1 {
        dest.write_str("-n");
        write_dec_signed(b as i64, dest);
    } else {
        write_dec_int(a as i64, dest);
        dest.write_str("n");
        write_dec_signed(b as i64, dest);
    }
    proof {
        assert(dest.out@ =~= old(dest).out@ + anb_text(a as int, b as int));
    }
}

impl Combinator {
    /// Append the text this combinator emits between two compounds.
    pub fn to_css(&self, dest: &mut Printer)
        ensures
            final(dest).out@ == old(dest).out@ + comb_text(*self, old(dest).state.minify),
            final(dest).state == old(dest).state,
    {
        match self {
            Combinator::Descendant => dest.write_str(" "),
            Combinator::Child => dest.delim(">", true),
            Combinator::NextSibling => dest.delim("+", true),
            Combinator::LaterSibling => dest.delim("~", true),
            Combinator::PseudoElement => (),
            Combinator::SlotAssignment => (),
            Combinator::Part => (),
        }
        proof {
            assert(dest.out@ =~= old(dest).out@ + comb_text(*self, old(dest).state.minify));
        }
    }

    /// Append the text this combinator emits when it opens a relative
    /// selector whose implicit `:scope` was elided.
    pub fn to_css_leading(&self, dest: &mut Printer)
        ensures
            final(dest).out@ == old(dest).out@ + leading_comb_text(*self, old(dest).state.minify),
            final(dest).state == old(dest).state,
    {
        match self {
            Combinator::Descendant => (),
            Combinator::Child => {
                dest.write_str(">");
                dest.whitespace();
            },
            Combinator::NextSibling => {
                dest.write_str("+");
                dest.whitespace();
            },
            Combinator::LaterSibling => {
                dest.write_str("~");
                dest.whitespace();
            },
            Combinator::PseudoElement => (),
            Combinator::SlotAssignment => (),
            Combinator::Part => (),
        }
        proof {
            assert(dest.out@ =~= old(dest).out@ + leading_comb_text(
                *self,
                old(dest).state.minify,
            ));
        }
    }
}

/// Whether the printer's targets support CSS nesting.
fn supports_nesting(st: &PrintState) -> (r: bool)
    ensures
        r == spec_supports_nesting(*st),
{
    match &st.targets {
        None => true,
        Some(t) => Feature::CssNesting.is_compatible(t),
    }
}

/// Whether the printer's targets support selector lists in `:not()`.
fn supports_not_list(st: &PrintState) -> (r: bool)
    ensures
        r == spec_supports_not_list(*st),
{
    match &st.targets {
        None => true,
        Some(t) => Feature::CssNotSelList.is_compatible(t),
    }
}

/// Append the comma-separated `:lang()` argument list.
fn serialize_lang_list(langs: &Vec<String>, dest: &mut Printer)
    ensures
        final(dest).out@ == old(dest).out@ + lang_list_text(langs@, old(dest).state.minify),
        final(dest).state == old(dest).state,
{
    let ghost minify = dest.state.minify;
    let n = langs.len();
    if n == 0 {
        proof {
            assert(dest.out@ =~= old(dest).out@ + lang_list_text(langs@, minify));
        }
        return ;
    }
    dest.write_ident(langs[0].as_str());
    let mut i: usize = 1;
    while i < n
        invariant
            1 <= i <= n,
            n == langs@.len(),
            dest.state == old(dest).state,
            minify == dest.state.minify,
            old(dest).out@ + lang_list_text(langs@, minify) == dest.out@ + lang_list_rest(
                langs@.skip(i as int),
                minify,
            ),
        decreases n - i,
    {
        proof {
            assert(langs@.skip(i as int)[0] == langs@[i as int]);
            assert(langs@.skip(i as int).drop_first() =~= langs@.skip(i + 1 as int));
        }
        dest.delim(",", false);
        dest.write_ident(langs[i].as_str());
        i = i + 1;
    }
    proof {
        assert(langs@.skip(n as int) =~= Seq::<String>::empty());
        assert(dest.out@ =~= old(dest).out@ + lang_list_text(langs@, minify));
    }
}

/// Append the space-separated `::part()` argument list.
fn serialize_part_list(names: &Vec<String>, dest: &mut Printer)
    ensures
        final(dest).out@ == old(dest).out@ + part_list_text(names@),
        final(dest).state == old(dest).state,
{
    let n = names.len();
    if n == 0 {
        proof {
            assert(dest.out@ =~= old(dest).out@ + part_list_text(names@));
        }
        return ;
    }
    dest.write_ident(names[0].as_str());
    let mut i: usize = 1;
    while i < n
        invariant
            1 <= i <= n,
            n == names@.len(),
            dest.state == old(dest).state,
            old(dest).out@ + part_list_text(names@) == dest.out@ + part_list_rest(
                names@.skip(i as int),
            ),
        decreases n - i,
    {
        proof {
            assert(names@.skip(i as int)[0] == names@[i as int]);
            assert(names@.skip(i as int).drop_first() =~= names@.skip(i + 1 as int));
        }
        dest.write_str(" ");
        dest.write_ident(names[i].as_str());
        i = i + 1;
    }
    proof {
        assert(names@.skip(n as int) =~= Seq::<String>::empty());
        assert(dest.out@ =~= old(dest).out@ + part_list_text(names@));
    }
}

/// Append an attribute value, choosing the shorter of the identifier and
/// quoted forms when minifying.
pub fn serialize_attr_value(value: &str, dest: &mut Printer)
    ensures
        final(dest).out@ == old(dest).out@ + attr_value_text(value@, old(dest).state.minify),
        final(dest).state == old(dest).state,
{
    if dest.state.minify {
        let id = escape_ident(value);
        let quoted = escape_string(value);
        let owned = String::from_str(value);
        if id.eq(&owned) && id.as_str().unicode_len() > 0 && id.as_str().unicode_len()
            < quoted.as_str().unicode_len() {
            dest.write_str(id.as_str());
        } else {
            dest.write_str(quoted.as_str());
        }
    } else {
        let quoted = escape_string(value);
        dest.write_str(quoted.as_str());
    }
}

/// Append a user-action pseudo-class, remapped to a class name when the
/// printer asks for that.
fn write_remapped(remap: Option<String>, plain: &str, dest: &mut Printer)
    ensures
        final(dest).out@ == old(dest).out@ + remapped_text(remap, plain@),
        final(dest).state == old(dest).state,
{
    match remap {
        Some(cls) => {
            dest.write_str(".");
            dest.write_ident(cls.as_str());
            proof {
                assert(dest.out@ =~= old(dest).out@ + remapped_text(Some(cls), plain@));
            }
        },
        None => {
            dest.write_str(plain);
        },
    }
}


/// The text of an attribute operator.
fn attr_operator_str(op: &AttrSelectorOperator) -> (r: &'static str)
    ensures
        r@ == attr_operator_text(*op),
{
    match op {
        AttrSelectorOperator::Equal => "=",
        AttrSelectorOperator::Includes => "~=",
        AttrSelectorOperator::DashMatch => "|=",
        AttrSelectorOperator::Prefix => "^=",
        AttrSelectorOperator::Substring => "*=",
        AttrSelectorOperator::Suffix => "$=",
    }
}

/// Append the suffix of an attribute selector's case flag.
fn write_case_flag(c: &ParsedCaseSensitivity, dest: &mut Printer)
    ensures
        final(dest).out@ == old(dest).out@ + case_flag_text(*c),
        final(dest).state == old(dest).state,
{
    match c {
        ParsedCaseSensitivity::CaseSensitive => (),
        ParsedCaseSensitivity::AsciiCaseInsensitiveIfInHtmlElementInHtmlDocument => (),
        ParsedCaseSensitivity::AsciiCaseInsensitive => dest.write_str(" i"),
        ParsedCaseSensitivity::ExplicitCaseSensitive => dest.write_str(" s"),
    }
    proof {
        assert(dest.out@ =~= old(dest).out@ + case_flag_text(*c));
    }
}


/// Append `:` or `::`, a vendor prefix, and a name.
fn write_prefixed(dest: &mut Printer, colons: &str, vp: VendorPrefix, name: &str)
    ensures
        final(dest).out@ == old(dest).out@ + (colons@ + vp.spec_text() + name@),
        final(dest).state == old(dest).state,
{
    dest.write_str(colons);
    dest.write_str(vp.text());
    dest.write_str(name);
    proof {
        assert(dest.out@ =~= old(dest).out@ + (colons@ + vp.spec_text() + name@));
    }
}

/// Append the text of a pseudo-class.
#[verifier::rlimit(100)]
pub fn serialize_pseudo_class(pc: &PseudoClass, dest: &mut Printer, ctx: Option<&StyleContext>)
    ensures
        final(dest).out@ == old(dest).out@ + ser_pseudo_class(
            *pc,
            old(dest).state,
            deref_ctx(ctx),
        ),
        final(dest).state == old(dest).state,
    decreases opt_ctx_depth(deref_ctx(ctx)), pseudo_class_size(*pc), 0int,
{
    match pc {
        PseudoClass::Lang { languages } => {
            dest.write_str(":lang(");
            serialize_lang_list(languages, dest);
            dest.write_str(")");
            proof {
                assert(dest.out@ =~= old(dest).out@ + (":lang("@ + lang_list_text(
                    languages@,
                    old(dest).state.minify,
                ) + ")"@));
            }
        },
        PseudoClass::Dir { direction } => {
            dest.write_str(":dir(");
            match direction {
                Direction::Ltr => dest.write_str("ltr"),
                Direction::Rtl => dest.write_str("rtl"),
            }
            dest.write_str(")");
            proof {
                assert(dest.out@ =~= old(dest).out@ + (":dir("@ + direction_text(*direction)
                    + ")"@));
            }
        },
        PseudoClass::Hover => {
            let remap: Option<String> = match &dest.state.pseudo_classes {
                Some(pcs) => match &pcs.hover {
                    Some(c) => Some(c.clone()),
                    None => None,
                },
                None => None,
            };
            write_remapped(remap, ":hover", dest);
        },
        PseudoClass::Active => {
            let remap: Option<String> = match &dest.state.pseudo_classes {
                Some(pcs) => match &pcs.active {
                    Some(c) => Some(c.clone()),
                    None => None,
                },
                None => None,
            };
            write_remapped(remap, ":active", dest);
        },
        PseudoClass::Focus => {
            let remap: Option<String> = match &dest.state.pseudo_classes {
                Some(pcs) => match &pcs.focus {
                    Some(c) => Some(c.clone()),
                    None => None,
                },
                None => None,
            };
            write_remapped(remap, ":focus", dest);
        },
        PseudoClass::FocusVisible => {
            let remap: Option<String> = match &dest.state.pseudo_classes {
                Some(pcs) => match &pcs.focus_visible {
                    Some(c) => Some(c.clone()),
                    None => None,
                },
                None => None,
            };
            write_remapped(remap, ":focus-visible", dest);
        },
        PseudoClass::FocusWithin => {
            let remap: Option<String> = match &dest.state.pseudo_classes {
                Some(pcs) => match &pcs.focus_within {
                    Some(c) => Some(c.clone()),
                    None => None,
                },
                None => None,
            };
            write_remapped(remap, ":focus-within", dest);
        },
        PseudoClass::Current => dest.write_str(":current"),
        PseudoClass::Past => dest.write_str(":past"),
        PseudoClass::Future => dest.write_str(":future"),
        PseudoClass::Playing => dest.write_str(":playing"),
        PseudoClass::Paused => dest.write_str(":paused"),
        PseudoClass::Seeking => dest.write_str(":seeking"),
        PseudoClass::Buffering => dest.write_str(":buffering"),
        PseudoClass::Stalled => dest.write_str(":stalled"),
        PseudoClass::Muted => dest.write_str(":muted"),
        PseudoClass::VolumeLocked => dest.write_str(":volume-locked"),
        PseudoClass::Fullscreen(p) => {
            let vp = if !dest.state.vendor_prefix.is_empty() {
                dest.state.vendor_prefix
            } else {
                *p
            };
            if vp == VendorPrefix::webkit() || vp == VendorPrefix::moz() {
                write_prefixed(dest, ":", vp, "full-screen");
            } else {
                write_prefixed(dest, ":", vp, "fullscreen");
            }
        },
        PseudoClass::Defined => dest.write_str(":defined"),
        PseudoClass::AnyLink(p) => {
            let vp = if !dest.state.vendor_prefix.is_empty() {
                dest.state.vendor_prefix
            } else {
                *p
            };
            write_prefixed(dest, ":", vp, "any-link");
        },
        PseudoClass::Link => dest.write_str(":link"),
        PseudoClass::LocalLink => dest.write_str(":local-link"),
        PseudoClass::Target => dest.write_str(":target"),
        PseudoClass::TargetWithin => dest.write_str(":target-within"),
        PseudoClass::Visited => dest.write_str(":visited"),
        PseudoClass::Enabled => dest.write_str(":enabled"),
        PseudoClass::Disabled => dest.write_str(":disabled"),
        PseudoClass::ReadOnly(p) => {
            let vp = if !dest.state.vendor_prefix.is_empty() {
                dest.state.vendor_prefix
            } else {
                *p
            };
            write_prefixed(dest, ":", vp, "read-only");
        },
        PseudoClass::ReadWrite(p) => {
            let vp = if !dest.state.vendor_prefix.is_empty() {
                dest.state.vendor_prefix
            } else {
                *p
            };
            write_prefixed(dest, ":", vp, "read-write");
        },
        PseudoClass::PlaceholderShown(p) => {
            let vp = if !dest.state.vendor_prefix.is_empty() {
                dest.state.vendor_prefix
            } else {
                *p
            };
            write_prefixed(dest, ":", vp, "placeholder-shown");
        },
        PseudoClass::Default => dest.write_str(":default"),
        PseudoClass::Checked => dest.write_str(":checked"),
        PseudoClass::Indeterminate => dest.write_str(":indeterminate"),
        PseudoClass::Blank => dest.write_str(":blank"),
        PseudoClass::Valid => dest.write_str(":valid"),
        PseudoClass::Invalid => dest.write_str(":invalid"),
        PseudoClass::InRange => dest.write_str(":in-range"),
        PseudoClass::OutOfRange => dest.write_str(":out-of-range"),
        PseudoClass::Required => dest.write_str(":required"),
        PseudoClass::Optional => dest.write_str(":optional"),
        PseudoClass::UserValid => dest.write_str(":user-valid"),
        PseudoClass::UserInvalid => dest.write_str(":user-invalid"),
        PseudoClass::Autofill(p) => {
            let vp = if !dest.state.vendor_prefix.is_empty() {
                dest.state.vendor_prefix
            } else {
                *p
            };
            write_prefixed(dest, ":", vp, "autofill");
        },
        PseudoClass::Local { selector } => {
            serialize_selector(&**selector, dest, ctx, false);
        },
        PseudoClass::Global { selector } => {
            let saved = dest.state.css_module;
            dest.state.css_module = false;
            serialize_selector(&**selector, dest, ctx, false);
            dest.state.css_module = saved;
        },
        PseudoClass::WebKitScrollbar(sc) => {
            match sc {
                WebKitScrollbarPseudoClass::Horizontal => dest.write_str(":horizontal"),
                WebKitScrollbarPseudoClass::Vertical => dest.write_str(":vertical"),
                WebKitScrollbarPseudoClass::Decrement => dest.write_str(":decrement"),
                WebKitScrollbarPseudoClass::Increment => dest.write_str(":increment"),
                WebKitScrollbarPseudoClass::Start => dest.write_str(":start"),
                WebKitScrollbarPseudoClass::End => dest.write_str(":end"),
                WebKitScrollbarPseudoClass::DoubleButton => dest.write_str(":double-button"),
                WebKitScrollbarPseudoClass::SingleButton => dest.write_str(":single-button"),
                WebKitScrollbarPseudoClass::NoButton => dest.write_str(":no-button"),
                WebKitScrollbarPseudoClass::CornerPresent => dest.write_str(":corner-present"),
                WebKitScrollbarPseudoClass::WindowInactive => dest.write_str(":window-inactive"),
            }
        },
        PseudoClass::Custom { name } => {
            dest.write_str(":");
            dest.write_str(name.as_str());
            proof {
                assert(dest.out@ =~= old(dest).out@ + (":"@ + name@));
            }
        },
        PseudoClass::CustomFunction { name, arguments } => {
            dest.write_str(":");
            dest.write_str(name.as_str());
            dest.write_str("(");
            dest.write_str(arguments.as_str());
            dest.write_str(")");
            proof {
                assert(dest.out@ =~= old(dest).out@ + (":"@ + name@ + "("@ + arguments@
                    + ")"@));
            }
        },
    }
}

/// Append the text of a pseudo-element.
#[verifier::rlimit(100)]
pub fn serialize_pseudo_element(pe: &PseudoElement, dest: &mut Printer, ctx: Option<&StyleContext>)
    ensures
        final(dest).out@ == old(dest).out@ + ser_pseudo_element(
            *pe,
            old(dest).state,
            deref_ctx(ctx),
        ),
        final(dest).state == old(dest).state,
    decreases opt_ctx_depth(deref_ctx(ctx)), pseudo_element_size(*pe), 0int,
{
    match pe {
        PseudoElement::After => dest.write_str(":after"),
        PseudoElement::Before => dest.write_str(":before"),
        PseudoElement::FirstLine => dest.write_str(":first-line"),
        PseudoElement::FirstLetter => dest.write_str(":first-letter"),
        PseudoElement::Marker => dest.write_str("::marker"),
        PseudoElement::Selection(p) => {
            let vp = if !dest.state.vendor_prefix.is_empty() {
                dest.state.vendor_prefix
            } else {
                *p
            };
            write_prefixed(dest, "::", vp, "selection");
        },
        PseudoElement::Cue => dest.write_str("::cue"),
        PseudoElement::CueRegion => dest.write_str("::cue-region"),
        PseudoElement::CueFunction { selector } => {
            dest.write_str("::cue(");
            serialize_selector(&**selector, dest, ctx, false);
            dest.write_str(")");
            proof {
                assert(dest.out@ =~= old(dest).out@ + ("::cue("@ + ser_selector(
                    **selector,
                    old(dest).state,
                    deref_ctx(ctx),
                    false,
                ) + ")"@));
            }
        },
        PseudoElement::CueRegionFunction { selector } => {
            dest.write_str("::cue-region(");
            serialize_selector(&**selector, dest, ctx, false);
            dest.write_str(")");
            proof {
                assert(dest.out@ =~= old(dest).out@ + ("::cue-region("@ + ser_selector(
                    **selector,
                    old(dest).state,
                    deref_ctx(ctx),
                    false,
                ) + ")"@));
            }
        },
        PseudoElement::Placeholder(p) => {
            let vp = if !dest.state.vendor_prefix.is_empty() {
                dest.state.vendor_prefix
            } else {
                *p
            };
            if vp == VendorPrefix::webkit() || vp == VendorPrefix::ms() {
                write_prefixed(dest, "::", vp, "input-placeholder");
            } else {
                write_prefixed(dest, "::", vp, "placeholder");
            }
        },
        PseudoElement::Backdrop(p) => {
            let vp = if !dest.state.vendor_prefix.is_empty() {
                dest.state.vendor_prefix
            } else {
                *p
            };
            write_prefixed(dest, "::", vp, "backdrop");
        },
        PseudoElement::FileSelectorButton(p) => {
            let vp = if !dest.state.vendor_prefix.is_empty() {
                dest.state.vendor_prefix
            } else {
                *p
            };
            if vp == VendorPrefix::webkit() {
                write_prefixed(dest, "::", vp, "file-upload-button");
            } else if vp == VendorPrefix::ms() {
                write_prefixed(dest, "::", vp, "browse");
            } else {
                write_prefixed(dest, "::", vp, "file-selector-button");
            }
        },
        PseudoElement::WebKitScrollbar(se) => {
            match se {
                WebKitScrollbarPseudoElement::Scrollbar => dest.write_str("::-webkit-scrollbar"),
                WebKitScrollbarPseudoElement::Button => dest.write_str(
                    "::-webkit-scrollbar-button",
                ),
                WebKitScrollbarPseudoElement::Track => dest.write_str("::-webkit-scrollbar-track"),
                WebKitScrollbarPseudoElement::TrackPiece => dest.write_str(
                    "::-webkit-scrollbar-track-piece",
                ),
                WebKitScrollbarPseudoElement::Thumb => dest.write_str("::-webkit-scrollbar-thumb"),
                WebKitScrollbarPseudoElement::Corner => dest.write_str(
                    "::-webkit-scrollbar-corner",
                ),
                WebKitScrollbarPseudoElement::Resizer => dest.write_str("::-webkit-resizer"),
            }
        },
        PseudoElement::Custom { name } => {
            dest.write_str("::");
            dest.write_str(name.as_str());
            proof {
                assert(dest.out@ =~= old(dest).out@ + ("::"@ + name@));
            }
        },
        PseudoElement::CustomFunction { name, arguments } => {
            dest.write_str("::");
            dest.write_str(name.as_str());
            dest.write_str("(");
            dest.write_str(arguments.as_str());
            dest.write_str(")");
            proof {
                assert(dest.out@ =~= old(dest).out@ + ("::"@ + name@ + "("@ + arguments@
                    + ")"@));
            }
        },
    }
}


/// Whether a component is a plain atom: one that nests no selector list and
/// no pseudo.
pub open spec fn is_basic_component(c: Component) -> bool {
    match c {
        Component::NonTSPseudoClass(_) => false,
        Component::PseudoElement(_) => false,
        Component::Negation(_) => false,
        Component::Is(_) => false,
        Component::Where(_) => false,
        Component::Has(_) => false,
        Component::Any(_, _) => false,
        Component::Slotted(_) => false,
        Component::Part(_) => false,
        Component::Host(_) => false,
        Component::Nesting => false,
        _ => true,
    }
}

/// Append the text of a plain atom.
#[verifier::rlimit(100)]
fn serialize_basic_component(c: &Component, dest: &mut Printer, ctx: Option<&StyleContext>)
    requires
        is_basic_component(*c),
    ensures
        final(dest).out@ == old(dest).out@ + ser_component(*c, old(dest).state, deref_ctx(ctx)),
        final(dest).state == old(dest).state,
{
    match c {
        Component::Combinator(k) => k.to_css(dest),
        Component::ExplicitAnyNamespace => dest.write_str("*|"),
        Component::ExplicitNoNamespace => dest.write_str("|"),
        Component::DefaultNamespace(_) => (),
        Component::Namespace(prefix, _) => {
            dest.write_ident(prefix.as_str());
            dest.write_str("|");
            proof {
                assert(dest.out@ =~= old(dest).out@ + (escaped_ident(prefix@) + "|"@));
            }
        },
        Component::ExplicitUniversalType => dest.write_str("*"),
        Component::LocalName(name) => dest.write_ident(name.as_str()),
        Component::ID(name) => {
            dest.write_str("#");
            dest.write_ident(name.as_str());
            proof {
                assert(dest.out@ =~= old(dest).out@ + ("#"@ + escaped_ident(name@)));
            }
        },
        Component::Class(name) => {
            dest.write_str(".");
            dest.write_ident(name.as_str());
            proof {
                assert(dest.out@ =~= old(dest).out@ + ("."@ + escaped_ident(name@)));
            }
        },
        Component::AttributeInNoNamespaceExists { local_name } => {
            dest.write_str("[");
            dest.write_ident(local_name.as_str());
            dest.write_str("]");
            proof {
                assert(dest.out@ =~= old(dest).out@ + ("["@ + escaped_ident(local_name@)
                    + "]"@));
            }
        },
        Component::AttributeInNoNamespace { local_name, operator, value, case_sensitivity } => {
            dest.write_str("[");
            dest.write_ident(local_name.as_str());
            dest.write_str(attr_operator_str(operator));
            serialize_attr_value(value.as_str(), dest);
            write_case_flag(case_sensitivity, dest);
            dest.write_str("]");
            proof {
                assert(dest.out@ =~= old(dest).out@ + ("["@ + escaped_ident(local_name@)
                    + attr_operator_text(*operator) + attr_value_text(
                    value@,
                    old(dest).state.minify,
                ) + case_flag_text(*case_sensitivity) + "]"@));
            }
        },
        Component::AttributeOther { namespace, local_name, operation } => {
            dest.write_str("[");
            match namespace {
                Some(NamespaceConstraint::Any) => dest.write_str("*|"),
                Some(NamespaceConstraint::Specific(prefix, _)) => {
                    dest.write_ident(prefix.as_str());
                    dest.write_str("|");
                },
                None => (),
            }
            dest.write_ident(local_name.as_str());
            match operation {
                AttrSelectorOperation::Exists => (),
                AttrSelectorOperation::WithValue { operator, case_sensitivity, value } => {
                    dest.write_str(attr_operator_str(operator));
                    let quoted = escape_string(value.as_str());
                    dest.write_str(quoted.as_str());
                    write_case_flag(case_sensitivity, dest);
                },
            }
            dest.write_str("]");
            proof {
                assert(dest.out@ =~= old(dest).out@ + ser_component(
                    *c,
                    old(dest).state,
                    deref_ctx(ctx),
                ));
            }
        },
        Component::FirstChild => dest.write_str(":first-child"),
        Component::LastChild => dest.write_str(":last-child"),
        Component::OnlyChild => dest.write_str(":only-child"),
        Component::Root => dest.write_str(":root"),
        Component::Empty => dest.write_str(":empty"),
        Component::Scope => dest.write_str(":scope"),
        Component::FirstOfType => dest.write_str(":first-of-type"),
        Component::LastOfType => dest.write_str(":last-of-type"),
        Component::OnlyOfType => dest.write_str(":only-of-type"),
        Component::NthChild(a, b) => {
            dest.write_str(":nth-child(");
            write_anb(*a, *b, dest);
            dest.write_str(")");
            proof {
                assert(dest.out@ =~= old(dest).out@ + (":nth-child("@ + anb_text(
                    *a as int,
                    *b as int,
                ) + ")"@));
            }
        },
        Component::NthLastChild(a, b) => {
            dest.write_str(":nth-last-child(");
            write_anb(*a, *b, dest);
            dest.write_str(")");
            proof {
                assert(dest.out@ =~= old(dest).out@ + (":nth-last-child("@ + anb_text(
                    *a as int,
                    *b as int,
                ) + ")"@));
            }
        },
        Component::NthOfType(a, b) => {
            dest.write_str(":nth-of-type(");
            write_anb(*a, *b, dest);
            dest.write_str(")");
            proof {
                assert(dest.out@ =~= old(dest).out@ + (":nth-of-type("@ + anb_text(
                    *a as int,
                    *b as int,
                ) + ")"@));
            }
        },
        Component::NthLastOfType(a, b) => {
            dest.write_str(":nth-last-of-type(");
            write_anb(*a, *b, dest);
            dest.write_str(")");
            proof {
                assert(dest.out@ =~= old(dest).out@ + (":nth-last-of-type("@ + anb_text(
                    *a as int,
                    *b as int,
                ) + ")"@));
            }
        },
        Component::NthCol(a, b) => {
            dest.write_str(":nth-col(");
            write_anb(*a, *b, dest);
            dest.write_str(")");
            proof {
                assert(dest.out@ =~= old(dest).out@ + (":nth-col("@ + anb_text(
                    *a as int,
                    *b as int,
                ) + ")"@));
            }
        },
        Component::NthLastCol(a, b) => {
            dest.write_str(":nth-last-col(");
            write_anb(*a, *b, dest);
            dest.write_str(")");
            proof {
                assert(dest.out@ =~= old(dest).out@ + (":nth-last-col("@ + anb_text(
                    *a as int,
                    *b as int,
                ) + ")"@));
            }
        },
        _ => {
            proof {
                assert(false);
            }
        },
    }
}

/// Append the text of one component.
#[verifier::rlimit(100)]
pub fn serialize_component(c: &Component, dest: &mut Printer, ctx: Option<&StyleContext>)
    ensures
        final(dest).out@ == old(dest).out@ + ser_component(*c, old(dest).state, deref_ctx(ctx)),
        final(dest).state == old(dest).state,
    decreases opt_ctx_depth(deref_ctx(ctx)), component_size(*c), 0int,
{
    match c {
        Component::NonTSPseudoClass(pc) => serialize_pseudo_class(pc, dest, ctx),
        Component::PseudoElement(pe) => serialize_pseudo_element(pe, dest, ctx),
        Component::Negation(list) => {
            if supports_not_list(&dest.state) {
                dest.write_str(":not(");
                serialize_selector_list(list, dest, ctx, false);
                dest.write_str(")");
                proof {
                    assert(dest.out@ =~= old(dest).out@ + (":not("@ + ser_selector_list(
                        list@,
                        old(dest).state,
                        deref_ctx(ctx),
                        false,
                    ) + ")"@));
                }
            } else {
                serialize_negation(list, dest, ctx);
            }
        },
        Component::Is(list) => {
            let wkmoz = VendorPrefix::webkit().or(&VendorPrefix::moz());
            if dest.state.vendor_prefix.intersects(&wkmoz) {
                let vp = dest.state.vendor_prefix;
                dest.write_str(":");
                dest.write_str(vp.text());
                dest.write_str("any(");
                serialize_selector_list(list, dest, ctx, false);
                dest.write_str(")");
                proof {
                    assert(dest.out@ =~= old(dest).out@ + ser_component(
                        *c,
                        old(dest).state,
                        deref_ctx(ctx),
                    ));
                }
            } else {
                let mut handled = false;
                if list.len() == 1 {
                    let first_sel = &list[0];
                    if !first_sel.has_type_selector() && first_sel.is_simple() {
                        proof {
                            lemma_selector_seq_size_ge(list@, 0);
                        }
                        serialize_selector(first_sel, dest, ctx, false);
                        handled = true;
                    }
                }
                if !handled {
                    dest.write_str(":is(");
                    serialize_selector_list(list, dest, ctx, false);
                    dest.write_str(")");
                    proof {
                        assert(dest.out@ =~= old(dest).out@ + ser_component(
                            *c,
                            old(dest).state,
                            deref_ctx(ctx),
                        ));
                    }
                }
            }
        },
        Component::Where(list) => {
            dest.write_str(":where(");
            serialize_selector_list(list, dest, ctx, false);
            dest.write_str(")");
            proof {
                assert(dest.out@ =~= old(dest).out@ + (":where("@ + ser_selector_list(
                    list@,
                    old(dest).state,
                    deref_ctx(ctx),
                    false,
                ) + ")"@));
            }
        },
        Component::Has(list) => {
            dest.write_str(":has(");
            serialize_selector_list(list, dest, ctx, true);
            dest.write_str(")");
            proof {
                assert(dest.out@ =~= old(dest).out@ + (":has("@ + ser_selector_list(
                    list@,
                    old(dest).state,
                    deref_ctx(ctx),
                    true,
                ) + ")"@));
            }
        },
        Component::Any(prefix, list) => {
            dest.write_str(":");
            dest.write_str(prefix.text());
            dest.write_str("any(");
            serialize_selector_list(list, dest, ctx, false);
            dest.write_str(")");
            proof {
                assert(dest.out@ =~= old(dest).out@ + (":"@ + prefix.spec_text() + "any("@
                    + ser_selector_list(list@, old(dest).state, deref_ctx(ctx), false) + ")"@));
            }
        },
        Component::Slotted(sel) => {
            dest.write_str("::slotted(");
            serialize_selector(&**sel, dest, ctx, false);
            dest.write_str(")");
            proof {
                assert(dest.out@ =~= old(dest).out@ + ("::slotted("@ + ser_selector(
                    **sel,
                    old(dest).state,
                    deref_ctx(ctx),
                    false,
                ) + ")"@));
            }
        },
        Component::Part(names) => {
            dest.write_str("::part(");
            serialize_part_list(names, dest);
            dest.write_str(")");
            proof {
                assert(dest.out@ =~= old(dest).out@ + ("::part("@ + part_list_text(names@)
                    + ")"@));
            }
        },
        Component::Host(os) => {
            match os {
                Some(sel) => {
                    dest.write_str(":host(");
                    serialize_selector(&**sel, dest, ctx, false);
                    dest.write_str(")");
                    proof {
                        assert(dest.out@ =~= old(dest).out@ + (":host("@ + ser_selector(
                            **sel,
                            old(dest).state,
                            deref_ctx(ctx),
                            false,
                        ) + ")"@));
                    }
                },
                None => dest.write_str(":host"),
            }
        },
        Component::Nesting => serialize_nesting(dest, ctx, false),
        _ => serialize_basic_component(c, dest, ctx),
    }
}

/// Append every component of the given range, in order.
fn serialize_components_all(
    sel: &Selector,
    lo: usize,
    hi: usize,
    dest: &mut Printer,
    ctx: Option<&StyleContext>,
)
    requires
        lo <= hi <= sel.components@.len(),
    ensures
        final(dest).out@ == old(dest).out@ + ser_components_all(
            sel.components@.subrange(lo as int, hi as int),
            old(dest).state,
            deref_ctx(ctx),
        ),
        final(dest).state == old(dest).state,
    decreases opt_ctx_depth(deref_ctx(ctx)), component_seq_size(
        sel.components@.subrange(lo as int, hi as int),
    ), 1int,
{
    let ghost cs = sel.components@;
    let ghost seg = cs.subrange(lo as int, hi as int);
    let mut i: usize = lo;
    while i < hi
        invariant
            lo <= i <= hi <= cs.len(),
            cs == sel.components@,
            seg == cs.subrange(lo as int, hi as int),
            dest.state == old(dest).state,
            old(dest).out@ + ser_components_all(seg, old(dest).state, deref_ctx(ctx)) == dest.out@
                + ser_components_all(
                cs.subrange(i as int, hi as int),
                old(dest).state,
                deref_ctx(ctx),
            ),
        decreases hi - i,
    {
        proof {
            assert(cs.subrange(i as int, hi as int)[0] == cs[i as int]);
            assert(cs.subrange(i as int, hi as int).drop_first() =~= cs.subrange(
                i + 1 as int,
                hi as int,
            ));
            lemma_component_seq_size_ge(seg, i - lo);
            assert(seg[i - lo] == cs[i as int]);
        }
        serialize_component(&sel.components[i], dest, ctx);
        i = i + 1;
    }
    proof {
        assert(cs.subrange(hi as int, hi as int) =~= Seq::<Component>::empty());
        assert(dest.out@ =~= old(dest).out@ + ser_components_all(
            seg,
            old(dest).state,
            deref_ctx(ctx),
        ));
    }
}

/// Append the components of the given range, eliding the explicit universal
/// selector when the namespace allows it.
fn serialize_components_elide(
    sel: &Selector,
    lo: usize,
    hi: usize,
    can_elide: bool,
    dest: &mut Printer,
    ctx: Option<&StyleContext>,
)
    requires
        lo <= hi <= sel.components@.len(),
    ensures
        final(dest).out@ == old(dest).out@ + ser_components_elide(
            sel.components@.subrange(lo as int, hi as int),
            can_elide,
            old(dest).state,
            deref_ctx(ctx),
        ),
        final(dest).state == old(dest).state,
    decreases opt_ctx_depth(deref_ctx(ctx)), component_seq_size(
        sel.components@.subrange(lo as int, hi as int),
    ), 1int,
{
    let ghost cs = sel.components@;
    let ghost seg = cs.subrange(lo as int, hi as int);
    let mut i: usize = lo;
    while i < hi
        invariant
            lo <= i <= hi <= cs.len(),
            cs == sel.components@,
            seg == cs.subrange(lo as int, hi as int),
            dest.state == old(dest).state,
            old(dest).out@ + ser_components_elide(seg, can_elide, old(dest).state, deref_ctx(ctx))
                == dest.out@ + ser_components_elide(
                cs.subrange(i as int, hi as int),
                can_elide,
                old(dest).state,
                deref_ctx(ctx),
            ),
        decreases hi - i,
    {
        proof {
            assert(cs.subrange(i as int, hi as int)[0] == cs[i as int]);
            assert(cs.subrange(i as int, hi as int).drop_first() =~= cs.subrange(
                i + 1 as int,
                hi as int,
            ));
            lemma_component_seq_size_ge(seg, i - lo);
            assert(seg[i - lo] == cs[i as int]);
        }
        let skip_it = can_elide && match &sel.components[i] {
            Component::ExplicitUniversalType => true,
            _ => false,
        };
        if !skip_it {
            serialize_component(&sel.components[i], dest, ctx);
        }
        i = i + 1;
    }
    proof {
        assert(cs.subrange(hi as int, hi as int) =~= Seq::<Component>::empty());
        assert(dest.out@ =~= old(dest).out@ + ser_components_elide(
            seg,
            can_elide,
            old(dest).state,
            deref_ctx(ctx),
        ));
    }
}

/// Append a compound that reduced to a lone universal selector: everything
/// including its namespace is emitted, with a leading nesting selector
/// optionally swapped behind the rest.
fn serialize_compound_universal(
    sel: &Selector,
    lo: usize,
    hi: usize,
    swap: bool,
    dest: &mut Printer,
    ctx: Option<&StyleContext>,
)
    requires
        lo < hi <= sel.components@.len(),
    ensures
        final(dest).out@ == old(dest).out@ + (if swap {
            ser_components_all(
                sel.components@.subrange(lo + 1 as int, hi as int),
                old(dest).state,
                deref_ctx(ctx),
            ) + ser_nesting(old(dest).state, deref_ctx(ctx), false)
        } else {
            ser_components_all(
                sel.components@.subrange(lo as int, hi as int),
                old(dest).state,
                deref_ctx(ctx),
            )
        }),
        final(dest).state == old(dest).state,
    decreases opt_ctx_depth(deref_ctx(ctx)), component_seq_size(
        sel.components@.subrange(lo as int, hi as int),
    ), 2int,
{
    let ghost seg = sel.components@.subrange(lo as int, hi as int);
    proof {
        lemma_component_seq_size_ge(seg, 0);
        assert(sel.components@.subrange(lo + 1 as int, hi as int) =~= seg.drop_first());
    }
    if swap {
        serialize_components_all(sel, lo + 1, hi, dest, ctx);
        serialize_nesting(dest, ctx, false);
        proof {
            assert(dest.out@ =~= old(dest).out@ + (ser_components_all(
                sel.components@.subrange(lo + 1 as int, hi as int),
                old(dest).state,
                deref_ctx(ctx),
            ) + ser_nesting(old(dest).state, deref_ctx(ctx), false)));
        }
    } else {
        serialize_components_all(sel, lo, hi, dest, ctx);
    }
}

/// Append a compound per the general rule: each simple selector in order,
/// the universal selector elided when its namespace is the default, and a
/// leading nesting selector placed or swapped as substitution requires.
fn serialize_compound_general(
    sel: &Selector,
    lo: usize,
    hi: usize,
    fnn: usize,
    can_elide: bool,
    nest_here: bool,
    dest: &mut Printer,
    ctx: Option<&StyleContext>,
)
    requires
        lo < hi <= sel.components@.len(),
        lo <= fnn <= hi,
        nest_here ==> lo < fnn || fnn < hi,
    ensures
        final(dest).out@ == old(dest).out@ + (if nest_here {
            if fnn < hi && spec_is_type_selector(sel.components@[fnn as int]) {
                ser_components_all(
                    sel.components@.subrange(lo + 1 as int, fnn + 1 as int),
                    old(dest).state,
                    deref_ctx(ctx),
                ) + ser_nesting(old(dest).state, deref_ctx(ctx), false) + ser_components_elide(
                    sel.components@.subrange(fnn + 1 as int, hi as int),
                    can_elide,
                    old(dest).state,
                    deref_ctx(ctx),
                )
            } else {
                ser_nesting(old(dest).state, deref_ctx(ctx), true) + ser_components_elide(
                    sel.components@.subrange(lo + 1 as int, hi as int),
                    can_elide,
                    old(dest).state,
                    deref_ctx(ctx),
                )
            }
        } else {
            ser_components_elide(
                sel.components@.subrange(lo as int, hi as int),
                can_elide,
                old(dest).state,
                deref_ctx(ctx),
            )
        }),
        final(dest).state == old(dest).state,
    decreases opt_ctx_depth(deref_ctx(ctx)), component_seq_size(
        sel.components@.subrange(lo as int, hi as int),
    ), 2int,
{
    let ghost seg = sel.components@.subrange(lo as int, hi as int);
    proof {
        lemma_component_seq_size_ge(seg, 0);
        assert(sel.components@.subrange(lo + 1 as int, hi as int) =~= seg.drop_first());
    }
    if nest_here {
        let is_type = fnn < hi && sel.components[fnn].is_type_selector();
        if is_type {
            proof {
                assert(sel.components@.subrange(lo + 1 as int, fnn + 1 as int) =~= seg.subrange(
                    1,
                    fnn - lo + 1,
                ));
                assert(sel.components@.subrange(fnn + 1 as int, hi as int) =~= seg.subrange(
                    fnn - lo + 1,
                    seg.len() as int,
                ));
                lemma_component_seq_size_subrange(seg, 1, fnn - lo + 1);
                lemma_component_seq_size_subrange(seg, fnn - lo + 1, seg.len() as int);
            }
            serialize_components_all(sel, lo + 1, fnn + 1, dest, ctx);
            serialize_nesting(dest, ctx, false);
            serialize_components_elide(sel, fnn + 1, hi, can_elide, dest, ctx);
            proof {
                assert(dest.out@ =~= old(dest).out@ + (ser_components_all(
                    sel.components@.subrange(lo + 1 as int, fnn + 1 as int),
                    old(dest).state,
                    deref_ctx(ctx),
                ) + ser_nesting(old(dest).state, deref_ctx(ctx), false) + ser_components_elide(
                    sel.components@.subrange(fnn + 1 as int, hi as int),
                    can_elide,
                    old(dest).state,
                    deref_ctx(ctx),
                )));
            }
        } else {
            serialize_nesting(dest, ctx, true);
            serialize_components_elide(sel, lo + 1, hi, can_elide, dest, ctx);
            proof {
                assert(dest.out@ =~= old(dest).out@ + (ser_nesting(
                    old(dest).state,
                    deref_ctx(ctx),
                    true,
                ) + ser_components_elide(
                    sel.components@.subrange(lo + 1 as int, hi as int),
                    can_elide,
                    old(dest).state,
                    deref_ctx(ctx),
                )));
            }
        }
    } else {
        serialize_components_elide(sel, lo, hi, can_elide, dest, ctx);
    }
}

/// Append the text of one compound selector of a selector's storage.
#[verifier::rlimit(100)]
#[verifier::spinoff_prover]
fn serialize_compound(
    sel: &Selector,
    lo: usize,
    hi: usize,
    comb: Option<Combinator>,
    first: bool,
    dest: &mut Printer,
    ctx: Option<&StyleContext>,
)
    requires
        lo < hi <= sel.components@.len(),
    ensures
        final(dest).out@ == old(dest).out@ + ser_compound(
            sel.components@.subrange(lo as int, hi as int),
            comb,
            first,
            old(dest).state,
            deref_ctx(ctx),
        ),
        final(dest).state == old(dest).state,
    decreases opt_ctx_depth(deref_ctx(ctx)), component_seq_size(
        sel.components@.subrange(lo as int, hi as int),
    ), 3int,
{
    let ghost cs = sel.components@;
    let ghost seg = cs.subrange(lo as int, hi as int);
    proof {
        lemma_component_seq_size_ge(seg, 0);
        assert(seg[0] == cs[lo as int]);
    }
    let nest = first && match &sel.components[lo] {
        Component::Nesting => true,
        _ => false,
    };
    let fi: usize = if nest {
        lo + 1
    } else {
        lo
    };
    let (can_elide, fnn): (bool, usize) = if fi < hi {
        proof {
            assert(seg[fi - lo] == cs[fi as int]);
        }
        match &sel.components[fi] {
            Component::ExplicitAnyNamespace => (false, fi + 1),
            Component::ExplicitNoNamespace => (false, fi + 1),
            Component::Namespace(_, _) => (false, fi + 1),
            Component::DefaultNamespace(_) => (true, fi + 1),
            _ => (true, fi),
        }
    } else {
        (true, fi)
    };
    let sup_nest = supports_nesting(&dest.state);
    let comb_is_marker = match comb {
        Some(Combinator::PseudoElement) => true,
        Some(Combinator::SlotAssignment) => true,
        _ => false,
    };
    let step_one = fnn == hi - 1 && !comb_is_marker && match &sel.components[fnn] {
        Component::ExplicitUniversalType => true,
        _ => false,
    };
    proof {
        if fnn < hi {
            assert(seg[fnn - lo] == cs[fnn as int]);
        }
    }
    if step_one {
        serialize_compound_universal(sel, lo, hi, nest && !sup_nest, dest, ctx);
        proof {
            assert(cs.subrange(lo + 1 as int, hi as int) =~= seg.subrange(1, seg.len() as int));
        }
    } else {
        serialize_compound_general(sel, lo, hi, fnn, can_elide, nest && !sup_nest, dest, ctx);
        proof {
            assert(cs.subrange(lo + 1 as int, hi as int) =~= seg.subrange(1, seg.len() as int));
            if fnn < hi {
                assert(cs.subrange(lo + 1 as int, fnn + 1 as int) =~= seg.subrange(
                    1,
                    fnn - lo + 1,
                ));
                assert(cs.subrange(fnn + 1 as int, hi as int) =~= seg.subrange(
                    fnn - lo + 1,
                    seg.len() as int,
                ));
            }
        }
    }
}

/// Append the text of one selector, walking its compounds in parse order.
#[verifier::rlimit(100)]
pub fn serialize_selector(
    sel: &Selector,
    dest: &mut Printer,
    ctx: Option<&StyleContext>,
    is_relative: bool,
)
    ensures
        final(dest).out@ == old(dest).out@ + ser_selector(
            *sel,
            old(dest).state,
            deref_ctx(ctx),
            is_relative,
        ),
        final(dest).state == old(dest).state,
    decreases opt_ctx_depth(deref_ctx(ctx)), selector_size(*sel), 4int,
{
    let ghost cs = sel.components@;
    let n = sel.components.len();
    proof {
        assert(cs.take(n as int) =~= cs);
    }
    let mut hi: usize = n;
    let mut first = true;
    let mut rel = is_relative;
    while hi > 0
        invariant
            hi <= n,
            n == cs.len(),
            cs == sel.components@,
            dest.state == old(dest).state,
            old(dest).out@ + ser_sel_components(
                cs,
                old(dest).state,
                deref_ctx(ctx),
                true,
                is_relative,
            ) == dest.out@ + ser_sel_components(
                cs.take(hi as int),
                old(dest).state,
                deref_ctx(ctx),
                first,
                rel,
            ),
        decreases hi,
    {
        let ghost pre = cs.take(hi as int);
        let j_opt = sel.find_last_combinator(hi);
        proof {
            lemma_last_combinator_index(pre);
            lemma_component_seq_size_subrange(cs, 0, hi as int);
        }
        match j_opt {
            Some(j) => {
                proof {
                    assert(pre[j as int] == cs[j as int]);
                    assert(pre.subrange(j + 1 as int, hi as int) =~= cs.subrange(
                        j + 1 as int,
                        hi as int,
                    ));
                    assert(pre.take(j as int) =~= cs.take(j as int));
                    lemma_component_seq_size_subrange(pre, j + 1 as int, hi as int);
                    lemma_component_seq_size_split(pre, j as int);
                    lemma_component_seq_size_ge(pre.skip(j as int), 0);
                    assert(pre.skip(j as int)[0] == pre[j as int]);
                }
                let k: Combinator = match &sel.components[j] {
                    Component::Combinator(kk) => *kk,
                    _ => {
                        proof {
                            assert(false);
                        }
                        Combinator::Descendant
                    },
                };
                let lo = j + 1;
                if lo == hi {
                    k.to_css(dest);
                    hi = j;
                } else {
                    let lone_scope = hi - lo == 1 && match &sel.components[lo] {
                        Component::Scope => true,
                        _ => false,
                    };
                    proof {
                        assert(pre.subrange(j + 1 as int, hi as int)[0] == cs[lo as int]);
                    }
                    if rel && lone_scope {
                        k.to_css_leading(dest);
                        rel = false;
                        hi = j;
                    } else {
                        serialize_compound(sel, lo, hi, Some(k), first, dest, ctx);
                        k.to_css(dest);
                        first = false;
                        hi = j;
                    }
                }
                proof {
                    assert(old(dest).out@ + ser_sel_components(
                        cs,
                        old(dest).state,
                        deref_ctx(ctx),
                        true,
                        is_relative,
                    ) =~= dest.out@ + ser_sel_components(
                        cs.take(hi as int),
                        old(dest).state,
                        deref_ctx(ctx),
                        first,
                        rel,
                    ));
                }
            },
            None => {
                proof {
                    assert(pre.subrange(0, hi as int) =~= pre);
                    assert(pre.subrange(0, hi as int) =~= cs.subrange(0, hi as int));
                    assert(pre.take(0) =~= Seq::<Component>::empty());
                    assert(cs.take(0) =~= Seq::<Component>::empty());
                    lemma_component_seq_size_ge(pre, 0);
                    assert(pre[0] == cs[0]);
                }
                serialize_compound(sel, 0, hi, None, first, dest, ctx);
                first = false;
                hi = 0;
                proof {
                    assert(old(dest).out@ + ser_sel_components(
                        cs,
                        old(dest).state,
                        deref_ctx(ctx),
                        true,
                        is_relative,
                    ) =~= dest.out@ + ser_sel_components(
                        cs.take(0),
                        old(dest).state,
                        deref_ctx(ctx),
                        first,
                        rel,
                    ));
                }
            },
        }
    }
    proof {
        assert(cs.take(0) =~= Seq::<Component>::empty());
        assert(dest.out@ =~= old(dest).out@ + ser_selector(
            *sel,
            old(dest).state,
            deref_ctx(ctx),
            is_relative,
        ));
    }
}

/// Append `:not(x)` for each branch, for targets without selector-list
/// support in `:not()`.
pub fn serialize_negation(list: &Vec<Selector>, dest: &mut Printer, ctx: Option<&StyleContext>)
    ensures
        final(dest).out@ == old(dest).out@ + ser_negation_text(
            list@,
            old(dest).state,
            deref_ctx(ctx),
        ),
        final(dest).state == old(dest).state,
    decreases opt_ctx_depth(deref_ctx(ctx)), selector_seq_size(list@), 5int,
{
    let n = list.len();
    proof {
        assert(list@.skip(0) =~= list@);
    }
    let mut i: usize = 0;
    while i < n
        invariant
            i <= n,
            n == list@.len(),
            dest.state == old(dest).state,
            old(dest).out@ + ser_negation_text(list@, old(dest).state, deref_ctx(ctx)) == dest.out@
                + ser_negation_text(list@.skip(i as int), old(dest).state, deref_ctx(ctx)),
        decreases n - i,
    {
        proof {
            assert(list@.skip(i as int)[0] == list@[i as int]);
            assert(list@.skip(i as int).drop_first() =~= list@.skip(i + 1 as int));
            lemma_selector_seq_size_ge(list@, i as int);
        }
        dest.write_str(":not(");
        serialize_selector(&list[i], dest, ctx, false);
        dest.write_str(")");
        i = i + 1;
    }
    proof {
        assert(list@.skip(n as int) =~= Seq::<Selector>::empty());
        assert(dest.out@ =~= old(dest).out@ + ser_negation_text(
            list@,
            old(dest).state,
            deref_ctx(ctx),
        ));
    }
}

/// Append the text of a selector list: branches in order, separated by
/// commas.
pub fn serialize_selector_list(
    list: &Vec<Selector>,
    dest: &mut Printer,
    ctx: Option<&StyleContext>,
    is_relative: bool,
)
    ensures
        final(dest).out@ == old(dest).out@ + ser_selector_list(
            list@,
            old(dest).state,
            deref_ctx(ctx),
            is_relative,
        ),
        final(dest).state == old(dest).state,
    decreases opt_ctx_depth(deref_ctx(ctx)), selector_seq_size(list@), 6int,
{
    let n = list.len();
    if n == 0 {
        proof {
            assert(dest.out@ =~= old(dest).out@ + ser_selector_list(
                list@,
                old(dest).state,
                deref_ctx(ctx),
                is_relative,
            ));
        }
        return ;
    }
    proof {
        lemma_selector_seq_size_ge(list@, 0);
    }
    serialize_selector(&list[0], dest, ctx, is_relative);
    let mut i: usize = 1;
    while i < n
        invariant
            1 <= i <= n,
            n == list@.len(),
            dest.state == old(dest).state,
            old(dest).out@ + ser_selector_list(
                list@,
                old(dest).state,
                deref_ctx(ctx),
                is_relative,
            ) == dest.out@ + ser_selector_list_tail(
                list@.skip(i as int),
                old(dest).state,
                deref_ctx(ctx),
                is_relative,
            ),
        decreases n - i,
    {
        proof {
            assert(list@.skip(i as int)[0] == list@[i as int]);
            assert(list@.skip(i as int).drop_first() =~= list@.skip(i + 1 as int));
            lemma_selector_seq_size_ge(list@, i as int);
        }
        dest.delim(",", false);
        serialize_selector(&list[i], dest, ctx, is_relative);
        i = i + 1;
    }
    proof {
        assert(list@.skip(n as int) =~= Seq::<Selector>::empty());
        assert(dest.out@ =~= old(dest).out@ + ser_selector_list(
            list@,
            old(dest).state,
            deref_ctx(ctx),
            is_relative,
        ));
    }
}

/// Append what the nesting selector stands for: the parent selector list
/// (inlined or wrapped in `:is()`), or `&` / `:scope` at the root.
pub fn serialize_nesting(dest: &mut Printer, ctx: Option<&StyleContext>, first: bool)
    ensures
        final(dest).out@ == old(dest).out@ + ser_nesting(old(dest).state, deref_ctx(ctx), first),
        final(dest).state == old(dest).state,
    decreases opt_ctx_depth(deref_ctx(ctx)), 0int, 0int,
{
    match ctx {
        Some(c) => {
            let parent: Option<&StyleContext> = match &c.parent {
                Some(b) => Some(&**b),
                None => None,
            };
            proof {
                assert(deref_ctx(parent) == ctx_parent(*c));
                assert(opt_ctx_depth(ctx_parent(*c)) < ctx_depth(*c));
            }
            let inline_it = c.selectors.selectors.len() == 1 && (first || {
                let s0 = &c.selectors.selectors[0];
                !s0.has_type_selector() && s0.is_simple()
            });
            if inline_it {
                serialize_selector(&c.selectors.selectors[0], dest, parent, false);
            } else {
                dest.write_str(":is(");
                serialize_selector_list(&c.selectors.selectors, dest, parent, false);
                dest.write_str(")");
            }
        },
        None => {
            if supports_nesting(&dest.state) {
                dest.write_str("&");
            } else {
                dest.write_str(":scope");
            }
        },
    }
    proof {
        assert(dest.out@ =~= old(dest).out@ + ser_nesting(
            old(dest).state,
            deref_ctx(ctx),
            first,
        ));
    }
}

impl Selector {
    /// Append this selector's text.
    pub fn to_css(&self, dest: &mut Printer, ctx: Option<&StyleContext>)
        ensures
            final(dest).out@ == old(dest).out@ + ser_selector(
                *self,
                old(dest).state,
                deref_ctx(ctx),
                false,
            ),
            final(dest).state == old(dest).state,
    {
        serialize_selector(self, dest, ctx, false);
    }
}

impl SelectorList {
    /// Append this list's text.
    pub fn to_css(&self, dest: &mut Printer, ctx: Option<&StyleContext>)
        ensures
            final(dest).out@ == old(dest).out@ + ser_selector_list(
                self.selectors@,
                old(dest).state,
                deref_ctx(ctx),
                false,
            ),
            final(dest).state == old(dest).state,
    {
        serialize_selector_list(&self.selectors, dest, ctx, false);
    }

    /// This list's text under the given options, with no parent context.
    pub fn to_css_string(&self, state: PrintState) -> (r: String)
        ensures
            r@ == ser_selector_list(self.selectors@, state, None, false),
    {
        let mut printer = Printer::new(state);
        serialize_selector_list(&self.selectors, &mut printer, None, false);
        proof {
            assert(printer.out@ =~= ser_selector_list(
                self.selectors@,
                printer.state,
                deref_ctx(None),
                false,
            ));
        }
        printer.out
    }
}

impl Selectors {
    /// A list's text under plain options: no minification, no targets, no
    /// prefix override, no CSS modules, no remapping.
    pub fn to_css(list: &SelectorList) -> (r: String)
        ensures
            r@ == ser_selector_list(list.selectors@, PrintState::spec_plain(), None, false),
    {
        list.to_css_string(PrintState::plain())
    }
}


// ---------------------------------------------------------------------------
// Universal-type elision.
// ---------------------------------------------------------------------------

/// In a compound whose namespace is the default, an explicit universal
/// selector accompanied by another simple selector is elided: `*.foo`
/// serializes exactly as `.foo`.
pub proof fn lemma_universal_type_elided(s: Selector, name: String, st: PrintState)
    requires
        s.components@ =~= seq![
            Component::ExplicitUniversalType,
            Component::Class(name),
        ],
    ensures
        ser_selector(s, st, None, false) == "."@ + escaped_ident(name@),
{
    let cs = s.components@;
    assert(!spec_is_combinator(cs[0]));
    assert(!spec_is_combinator(cs[1]));
    crate::selector::lemma_last_combinator_index_none(cs);
    let seg = cs.subrange(0, 2);
    assert(seg =~= cs);
    assert(cs.take(0) =~= Seq::<Component>::empty());
    assert(ser_components_elide(seg.drop_first().drop_first(), true, st, None) =~= Seq::<
        char,
    >::empty());
    assert(seg.drop_first()[0] == cs[1]);
    assert(ser_component(cs[1], st, None) == "."@ + escaped_ident(name@));
    assert(ser_components_elide(seg.drop_first(), true, st, None) =~= "."@ + escaped_ident(
        name@,
    ));
    assert(ser_components_elide(seg, true, st, None) =~= "."@ + escaped_ident(name@));
    assert(ser_compound(seg, None, true, st, None) == ser_components_elide(seg, true, st, None));
    assert(ser_sel_components(Seq::<Component>::empty(), st, None, false, false) =~= Seq::<
        char,
    >::empty());
    assert(ser_sel_components(cs, st, None, true, false) =~= "."@ + escaped_ident(name@));
}

/// With an explicit namespace prefix, the universal selector is not elided:
/// `ns|*.foo` keeps its `ns|*`.
pub proof fn lemma_namespaced_universal_kept(
    s: Selector,
    prefix: String,
    url: String,
    name: String,
    st: PrintState,
)
    requires
        s.components@ =~= seq![
            Component::Namespace(prefix, url),
            Component::ExplicitUniversalType,
            Component::Class(name),
        ],
    ensures
        ser_selector(s, st, None, false) == escaped_ident(prefix@) + "|"@ + "*"@ + "."@
            + escaped_ident(name@),
{
    let cs = s.components@;
    assert(!spec_is_combinator(cs[0]));
    assert(!spec_is_combinator(cs[1]));
    assert(!spec_is_combinator(cs[2]));
    crate::selector::lemma_last_combinator_index_none(cs);
    let seg = cs.subrange(0, 3);
    assert(seg =~= cs);
    assert(cs.take(0) =~= Seq::<Component>::empty());
    assert(seg.drop_first()[0] == cs[1]);
    assert(seg.drop_first().drop_first()[0] == cs[2]);
    assert(ser_components_elide(
        seg.drop_first().drop_first().drop_first(),
        false,
        st,
        None,
    ) =~= Seq::<char>::empty());
    assert(ser_component(cs[0], st, None) == escaped_ident(prefix@) + "|"@);
    assert(ser_component(cs[1], st, None) == "*"@);
    assert(ser_component(cs[2], st, None) == "."@ + escaped_ident(name@));
    assert(ser_components_elide(seg.drop_first().drop_first(), false, st, None) =~= "."@
        + escaped_ident(name@));
    assert(ser_components_elide(seg.drop_first(), false, st, None) =~= "*"@ + "."@
        + escaped_ident(name@));
    assert(ser_components_elide(seg, false, st, None) =~= escaped_ident(prefix@) + "|"@ + "*"@
        + "."@ + escaped_ident(name@));
    assert(ser_compound(seg, None, true, st, None) == ser_components_elide(
        seg,
        false,
        st,
        None,
    ));
    assert(ser_sel_components(Seq::<Component>::empty(), st, None, false, false) =~= Seq::<
        char,
    >::empty());
    assert(ser_sel_components(cs, st, None, true, false) =~= escaped_ident(prefix@) + "|"@ + "*"@
        + "."@ + escaped_ident(name@));
}

} // verus!
