use css_selectors::printer::{Printer, PrintState, PseudoClasses};
use css_selectors::selector::{
    AttrSelectorOperator, Combinator, Component, Direction, ParsedCaseSensitivity, PseudoClass,
    PseudoElement, Selector, SelectorList, Selectors,
};
use css_selectors::serialize::{serialize_selector, StyleContext};
use css_selectors::targets::Targets;
use css_selectors::vendor_prefix::VendorPrefix;

fn class(name: &str) -> Component {
    Component::Class(name.to_string())
}

fn local_name(name: &str) -> Component {
    Component::LocalName(name.to_string())
}

fn sel(components: Vec<Component>) -> Selector {
    Selector { components }
}

fn list(selectors: Vec<Selector>) -> SelectorList {
    SelectorList { selectors }
}

fn to_text(l: &SelectorList) -> String {
    Selectors::to_css(l)
}

#[test]
fn simple_class_and_id() {
    let l = list(vec![sel(vec![Component::ID("a".to_string()), class("b")])]);
    assert_eq!(to_text(&l), "#a.b");
}

#[test]
fn compound_order_is_parse_order() {
    // div > .foo is stored match-order: [.foo, >, div]
    let l = list(vec![sel(vec![
        class("foo"),
        Component::Combinator(Combinator::Child),
        local_name("div"),
    ])]);
    assert_eq!(to_text(&l), "div > .foo");
}

#[test]
fn combinators_minified() {
    let mut st = PrintState::plain();
    st.minify = true;
    let l = list(vec![sel(vec![
        class("foo"),
        Component::Combinator(Combinator::Child),
        local_name("div"),
    ])]);
    assert_eq!(l.to_css_string(st), "div>.foo");
}

#[test]
fn selector_list_commas() {
    let l = list(vec![sel(vec![class("a")]), sel(vec![class("b")])]);
    assert_eq!(to_text(&l), ".a, .b");
}

#[test]
fn universal_elided_before_class() {
    let l = list(vec![sel(vec![Component::ExplicitUniversalType, class("foo")])]);
    assert_eq!(to_text(&l), ".foo");
}

#[test]
fn universal_kept_with_namespace_prefix() {
    let l = list(vec![sel(vec![
        Component::Namespace("ns".to_string(), "ns".to_string()),
        Component::ExplicitUniversalType,
        class("foo"),
    ])]);
    assert_eq!(to_text(&l), "ns|*.foo");
}

#[test]
fn lone_universal_kept() {
    let l = list(vec![sel(vec![Component::ExplicitUniversalType])]);
    assert_eq!(to_text(&l), "*");
}

#[test]
fn scope_elision_in_relative_selector() {
    // :has(:scope > a) -> :has(> a)
    let inner = sel(vec![
        local_name("a"),
        Component::Combinator(Combinator::Child),
        Component::Scope,
    ]);
    let l = list(vec![sel(vec![Component::Has(vec![inner])])]);
    assert_eq!(to_text(&l), ":has(> a)");
}

#[test]
fn is_collapsed_when_single_simple_argument() {
    let l = list(vec![sel(vec![Component::Is(vec![sel(vec![class("a")])])])]);
    assert_eq!(to_text(&l), ".a");
}

#[test]
fn is_kept_when_argument_has_type_selector() {
    let l = list(vec![sel(vec![Component::Is(vec![sel(vec![
        local_name("div"),
        class("a"),
    ])])])]);
    assert_eq!(to_text(&l), ":is(div.a)");
}

#[test]
fn is_spelled_webkit_any_under_prefix_override() {
    let mut st = PrintState::plain();
    st.vendor_prefix = VendorPrefix::webkit();
    let l = list(vec![sel(vec![Component::Is(vec![
        sel(vec![class("a")]),
        sel(vec![class("b")]),
    ])])]);
    assert_eq!(l.to_css_string(st), ":-webkit-any(.a, .b)");
}

#[test]
fn not_list_split_without_support() {
    let mut st = PrintState::plain();
    st.targets = Some(Targets::none());
    let l = list(vec![sel(vec![Component::Negation(vec![
        sel(vec![class("a")]),
        sel(vec![class("b")]),
    ])])]);
    assert_eq!(l.to_css_string(st), ":not(.a):not(.b)");
}

#[test]
fn not_list_kept_with_support() {
    let mut t = Targets::none();
    t.not_sel_list = true;
    let mut st = PrintState::plain();
    st.targets = Some(t);
    let l = list(vec![sel(vec![Component::Negation(vec![
        sel(vec![class("a")]),
        sel(vec![class("b")]),
    ])])]);
    assert_eq!(l.to_css_string(st), ":not(.a, .b)");
}

#[test]
fn nesting_inlines_single_simple_parent() {
    // &.foo with parent .bar and nesting unsupported -> .bar.foo
    let ctx = StyleContext {
        selectors: list(vec![sel(vec![class("bar")])]),
        parent: None,
    };
    let mut st = PrintState::plain();
    st.targets = Some(Targets::none());
    let mut printer = Printer::new(st);
    let s = sel(vec![Component::Nesting, class("foo")]);
    serialize_selector(&s, &mut printer, Some(&ctx), false);
    assert_eq!(printer.out, ".bar.foo");
}

#[test]
fn nesting_wraps_parent_list_in_is() {
    // &.foo with parent .bar, .baz and nesting unsupported -> :is(.bar, .baz).foo
    let ctx = StyleContext {
        selectors: list(vec![sel(vec![class("bar")]), sel(vec![class("baz")])]),
        parent: None,
    };
    let mut st = PrintState::plain();
    st.targets = Some(Targets::none());
    let mut printer = Printer::new(st);
    let s = sel(vec![Component::Nesting, class("foo")]);
    serialize_selector(&s, &mut printer, Some(&ctx), false);
    assert_eq!(printer.out, ":is(.bar, .baz).foo");
}

#[test]
fn nesting_swaps_behind_type_selector() {
    // &div with parent .bar and nesting unsupported -> div.bar
    let ctx = StyleContext {
        selectors: list(vec![sel(vec![class("bar")])]),
        parent: None,
    };
    let mut st = PrintState::plain();
    st.targets = Some(Targets::none());
    let mut printer = Printer::new(st);
    let s = sel(vec![Component::Nesting, local_name("div")]);
    serialize_selector(&s, &mut printer, Some(&ctx), false);
    assert_eq!(printer.out, "div.bar");
}

#[test]
fn nesting_without_context_or_support_is_scope() {
    let mut st = PrintState::plain();
    st.targets = Some(Targets::none());
    let mut printer = Printer::new(st);
    let s = sel(vec![Component::Nesting, class("foo")]);
    serialize_selector(&s, &mut printer, None, false);
    assert_eq!(printer.out, ":scope.foo");
}

#[test]
fn nesting_kept_when_supported() {
    let mut t = Targets::none();
    t.nesting = true;
    let mut st = PrintState::plain();
    st.targets = Some(t);
    let mut printer = Printer::new(st);
    let s = sel(vec![Component::Nesting, class("foo")]);
    serialize_selector(&s, &mut printer, None, false);
    assert_eq!(printer.out, "&.foo");
}

#[test]
fn attribute_value_identifier_form_when_shorter() {
    // [data-x="foo"] minified -> [data-x=foo]
    let mut st = PrintState::plain();
    st.minify = true;
    let l = list(vec![sel(vec![Component::AttributeInNoNamespace {
        local_name: "data-x".to_string(),
        operator: AttrSelectorOperator::Equal,
        value: "foo".to_string(),
        case_sensitivity: ParsedCaseSensitivity::CaseSensitive,
    }])]);
    assert_eq!(l.to_css_string(st), "[data-x=foo]");
}

#[test]
fn attribute_value_quoted_form_when_not_shorter() {
    // [data-x="foo bar"] minified keeps the quoted form: the identifier form
    // escapes the space and is longer.
    let mut st = PrintState::plain();
    st.minify = true;
    let l = list(vec![sel(vec![Component::AttributeInNoNamespace {
        local_name: "data-x".to_string(),
        operator: AttrSelectorOperator::Equal,
        value: "foo bar".to_string(),
        case_sensitivity: ParsedCaseSensitivity::CaseSensitive,
    }])]);
    assert_eq!(l.to_css_string(st), "[data-x=\"foo bar\"]");
}

#[test]
fn attribute_value_quoted_when_not_minifying() {
    let l = list(vec![sel(vec![Component::AttributeInNoNamespace {
        local_name: "data-x".to_string(),
        operator: AttrSelectorOperator::Includes,
        value: "foo".to_string(),
        case_sensitivity: ParsedCaseSensitivity::AsciiCaseInsensitive,
    }])]);
    assert_eq!(to_text(&l), "[data-x~=\"foo\" i]");
}

#[test]
fn class_name_is_escaped() {
    // The escaping runs through cssparser: a space inside an identifier is
    // written with a backslash.
    let l = list(vec![sel(vec![class("a b")])]);
    assert_eq!(to_text(&l), ".a\\ b");
}

#[test]
fn nth_child_forms() {
    let l = list(vec![sel(vec![Component::NthChild(2, 1)])]);
    assert_eq!(to_text(&l), ":nth-child(odd)");
    let l2 = list(vec![sel(vec![Component::NthChild(0, 4)])]);
    assert_eq!(to_text(&l2), ":nth-child(4)");
    let l3 = list(vec![sel(vec![Component::NthChild(3, -2)])]);
    assert_eq!(to_text(&l3), ":nth-child(3n-2)");
    let l4 = list(vec![sel(vec![Component::NthLastOfType(-1, 3)])]);
    assert_eq!(to_text(&l4), ":nth-last-of-type(-n+3)");
    let l5 = list(vec![sel(vec![Component::NthCol(1, 0)])]);
    assert_eq!(to_text(&l5), ":nth-col(n)");
}

#[test]
fn pseudo_element_single_colon_forms() {
    let l = list(vec![sel(vec![
        Component::PseudoElement(PseudoElement::Before),
        Component::Combinator(Combinator::PseudoElement),
        local_name("p"),
    ])]);
    assert_eq!(to_text(&l), "p:before");
    let l2 = list(vec![sel(vec![Component::PseudoElement(PseudoElement::Marker)])]);
    assert_eq!(to_text(&l2), "::marker");
}

#[test]
fn prefixed_pseudo_spellings() {
    let l = list(vec![sel(vec![Component::NonTSPseudoClass(PseudoClass::Fullscreen(
        VendorPrefix::webkit(),
    ))])]);
    assert_eq!(to_text(&l), ":-webkit-full-screen");
    let l2 = list(vec![sel(vec![Component::PseudoElement(PseudoElement::Placeholder(
        VendorPrefix::ms(),
    ))])]);
    assert_eq!(to_text(&l2), "::-ms-input-placeholder");
    let l3 = list(vec![sel(vec![Component::PseudoElement(
        PseudoElement::FileSelectorButton(VendorPrefix::ms()),
    )])]);
    assert_eq!(to_text(&l3), "::-ms-browse");
}

#[test]
fn vendor_prefix_override_rewrites_prefixable_pseudos() {
    let mut st = PrintState::plain();
    st.vendor_prefix = VendorPrefix::moz();
    let l = list(vec![sel(vec![Component::NonTSPseudoClass(PseudoClass::ReadOnly(
        VendorPrefix::unprefixed(),
    ))])]);
    assert_eq!(l.to_css_string(st), ":-moz-read-only");
}

#[test]
fn user_action_pseudo_class_remapping() {
    let mut st = PrintState::plain();
    st.pseudo_classes = Some(PseudoClasses {
        hover: Some("is-hover".to_string()),
        active: None,
        focus: None,
        focus_visible: None,
        focus_within: None,
    });
    let l = list(vec![sel(vec![
        class("btn"),
        Component::NonTSPseudoClass(PseudoClass::Hover),
    ])]);
    assert_eq!(l.to_css_string(st), ".btn.is-hover");
}

#[test]
fn lang_list_and_dir_spellings() {
    let l = list(vec![sel(vec![Component::NonTSPseudoClass(PseudoClass::Lang {
        languages: vec!["en".to_string(), "fr".to_string()],
    })])]);
    assert_eq!(to_text(&l), ":lang(en, fr)");
    let l2 = list(vec![sel(vec![Component::NonTSPseudoClass(PseudoClass::Dir {
        direction: Direction::Rtl,
    })])]);
    assert_eq!(to_text(&l2), ":dir(rtl)");
}

#[test]
fn custom_pseudos_round_trip_raw() {
    let l = list(vec![sel(vec![Component::NonTSPseudoClass(PseudoClass::CustomFunction {
        name: "my-fn".to_string(),
        arguments: "1, 2".to_string(),
    })])]);
    assert_eq!(to_text(&l), ":my-fn(1, 2)");
    let l2 = list(vec![sel(vec![Component::PseudoElement(PseudoElement::Custom {
        name: "thumb".to_string(),
    })])]);
    assert_eq!(to_text(&l2), "::thumb");
}

#[test]
fn slotted_host_part() {
    let l = list(vec![sel(vec![Component::Host(Some(Box::new(sel(vec![class(
        "a",
    )]))))])]);
    assert_eq!(to_text(&l), ":host(.a)");
    let l2 = list(vec![sel(vec![Component::Part(vec![
        "tab".to_string(),
        "active".to_string(),
    ])])]);
    assert_eq!(to_text(&l2), "::part(tab active)");
}
