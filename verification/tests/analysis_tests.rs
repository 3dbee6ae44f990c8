use css_selectors::compat::is_compatible;
use css_selectors::downlevel::downlevel;
use css_selectors::equivalence::is_equivalent;
use css_selectors::parse::{FunctionalPseudoClassKind, SelectorParser};
use css_selectors::printer::PrintState;
use css_selectors::queries::{get_prefix, is_unused};
use css_selectors::selector::{
    Combinator, Component, Direction, PseudoClass, PseudoElement, Selector, SelectorList,
};
use css_selectors::targets::Targets;
use css_selectors::vendor_prefix::VendorPrefix;

fn class(name: &str) -> Component {
    Component::Class(name.to_string())
}

fn sel(components: Vec<Component>) -> Selector {
    Selector { components }
}

fn list(selectors: Vec<Selector>) -> SelectorList {
    SelectorList { selectors }
}

fn text(l: &SelectorList) -> String {
    l.to_css_string(PrintState::plain())
}

#[test]
fn downlevel_is_to_webkit_any() {
    // :is(.a) with :is() unsupported and the legacy any pseudo needing the
    // WebKit prefix: the returned prefix set is {webkit}; serialization with
    // the override spells :-webkit-any(.a), and without it collapses to .a.
    let mut t = Targets::none();
    t.prefix_any_pseudo = VendorPrefix::webkit();
    let l = list(vec![sel(vec![Component::Is(vec![sel(vec![class("a")])])])]);
    let (out, prefixes) = downlevel(l, &t);
    assert_eq!(prefixes, VendorPrefix::webkit());
    let mut st = PrintState::plain();
    st.vendor_prefix = VendorPrefix::webkit();
    assert_eq!(out.to_css_string(st), ":-webkit-any(.a)");
    assert_eq!(text(&out), ".a");
}

#[test]
fn downlevel_multi_lang_to_is() {
    // :lang(en, fr) without language-list support -> :is(:lang(en), :lang(fr))
    let t = Targets::none();
    let l = list(vec![sel(vec![Component::NonTSPseudoClass(PseudoClass::Lang {
        languages: vec!["en".to_string(), "fr".to_string()],
    })])]);
    let (out, _) = downlevel(l, &t);
    assert_eq!(text(&out), ":is(:lang(en), :lang(fr))");
}

#[test]
fn downlevel_dir_rtl_to_lang_list() {
    // :dir(rtl) without :dir() but with language-list support -> one :lang()
    // over the right-to-left languages.
    let mut t = Targets::none();
    t.lang_list = true;
    let l = list(vec![sel(vec![Component::NonTSPseudoClass(PseudoClass::Dir {
        direction: Direction::Rtl,
    })])]);
    let (out, prefixes) = downlevel(l, &t);
    assert!(prefixes.is_empty());
    assert_eq!(
        text(&out),
        ":lang(ae, ar, arc, bcc, bqi, ckb, dv, fa, glk, he, ku, mzn, nqo, pnb, ps, sd, ug, ur, yi)"
    );
}

#[test]
fn downlevel_dir_ltr_to_negated_lang_list() {
    let mut t = Targets::none();
    t.lang_list = true;
    t.not_sel_list = true;
    let l = list(vec![sel(vec![Component::NonTSPseudoClass(PseudoClass::Dir {
        direction: Direction::Ltr,
    })])]);
    let (out, _) = downlevel(l, &t);
    let mut st = PrintState::plain();
    st.targets = Some(t);
    assert_eq!(
        out.to_css_string(st),
        ":not(:lang(ae, ar, arc, bcc, bqi, ckb, dv, fa, glk, he, ku, mzn, nqo, pnb, ps, sd, ug, ur, yi))"
    );
}

#[test]
fn downlevel_dir_rtl_without_lang_list() {
    // Without language lists, :dir(rtl) becomes :is over one :lang() per
    // language; with :is() supported no prefix is owed.
    let mut t = Targets::none();
    t.matches_pseudo = true;
    let l = list(vec![sel(vec![Component::NonTSPseudoClass(PseudoClass::Dir {
        direction: Direction::Rtl,
    })])]);
    let (out, prefixes) = downlevel(l, &t);
    assert!(prefixes.is_empty());
    let got = text(&out);
    assert!(got.starts_with(":is(:lang(ae), :lang(ar)"));
    assert!(got.ends_with(":lang(yi))"));
}

#[test]
fn downlevel_keeps_supported_dir() {
    let mut t = Targets::none();
    t.dir_pseudo = true;
    let l = list(vec![sel(vec![Component::NonTSPseudoClass(PseudoClass::Dir {
        direction: Direction::Rtl,
    })])]);
    let (out, prefixes) = downlevel(l, &t);
    assert!(prefixes.is_empty());
    assert_eq!(text(&out), ":dir(rtl)");
}

#[test]
fn downlevel_reports_prefixes_for_unprefixed_pseudos() {
    let mut t = Targets::none();
    t.prefix_placeholder = VendorPrefix::webkit().or(&VendorPrefix::moz());
    let l = list(vec![sel(vec![Component::PseudoElement(PseudoElement::Placeholder(
        VendorPrefix::unprefixed(),
    ))])]);
    let (_, prefixes) = downlevel(l, &t);
    assert_eq!(prefixes, VendorPrefix::webkit().or(&VendorPrefix::moz()));
}

#[test]
fn compatible_class_without_targets() {
    let l = list(vec![sel(vec![class("a")])]);
    assert!(is_compatible(&l, None));
    assert!(is_compatible(&l, Some(Targets::none())));
}

#[test]
fn incompatible_feature_component_without_support() {
    let l = list(vec![sel(vec![Component::NonTSPseudoClass(PseudoClass::Hover)])]);
    assert!(!is_compatible(&l, Some(Targets::none())));
    let mut t = Targets::none();
    t.sel2 = true;
    assert!(is_compatible(&l, Some(t)));
    assert!(!is_compatible(&l, None));
}

#[test]
fn custom_pseudo_is_never_compatible() {
    let mut t = Targets::none();
    t.sel2 = true;
    t.sel3 = true;
    let l = list(vec![sel(vec![Component::NonTSPseudoClass(PseudoClass::Custom {
        name: "x".to_string(),
    })])]);
    assert!(!is_compatible(&l, Some(t)));
}

#[test]
fn prefixed_pseudo_is_never_compatible() {
    let mut t = Targets::none();
    t.any_link = true;
    let unprefixed = list(vec![sel(vec![Component::NonTSPseudoClass(PseudoClass::AnyLink(
        VendorPrefix::unprefixed(),
    ))])]);
    assert!(is_compatible(&unprefixed, Some(t)));
    let prefixed = list(vec![sel(vec![Component::NonTSPseudoClass(PseudoClass::AnyLink(
        VendorPrefix::webkit(),
    ))])]);
    assert!(!is_compatible(&prefixed, Some(t)));
}

#[test]
fn combinator_features() {
    let mut t = Targets::none();
    t.sel2 = true;
    let child = list(vec![sel(vec![
        class("a"),
        Component::Combinator(Combinator::Child),
        class("b"),
    ])]);
    assert!(is_compatible(&child, Some(t)));
    let later = list(vec![sel(vec![
        class("a"),
        Component::Combinator(Combinator::LaterSibling),
        class("b"),
    ])]);
    assert!(!is_compatible(&later, Some(t)));
}

#[test]
fn equivalence_ignores_prefixes_on_prefixable_pseudos() {
    let a = list(vec![sel(vec![Component::NonTSPseudoClass(PseudoClass::Fullscreen(
        VendorPrefix::webkit(),
    ))])]);
    let b = list(vec![sel(vec![Component::NonTSPseudoClass(PseudoClass::Fullscreen(
        VendorPrefix::moz(),
    ))])]);
    assert!(is_equivalent(&a, &b));
    let c = list(vec![sel(vec![Component::NonTSPseudoClass(PseudoClass::Hover)])]);
    assert!(!is_equivalent(&a, &c));
}

#[test]
fn equivalence_is_structural_elsewhere() {
    let a = list(vec![sel(vec![class("x"), class("y")])]);
    let b = list(vec![sel(vec![class("x"), class("y")])]);
    let c = list(vec![sel(vec![class("x"), class("z")])]);
    assert!(is_equivalent(&a, &b));
    assert!(!is_equivalent(&a, &c));
    assert!(is_equivalent(&a, &a));
}

#[test]
fn get_prefix_consistent_and_mixed() {
    let wk = list(vec![sel(vec![Component::NonTSPseudoClass(PseudoClass::Fullscreen(
        VendorPrefix::webkit(),
    ))])]);
    assert_eq!(get_prefix(&wk), VendorPrefix::webkit());
    let mixed = list(vec![sel(vec![
        Component::NonTSPseudoClass(PseudoClass::Fullscreen(VendorPrefix::webkit())),
        Component::NonTSPseudoClass(PseudoClass::ReadOnly(VendorPrefix::moz())),
    ])]);
    assert!(get_prefix(&mixed).is_empty());
    let none = list(vec![sel(vec![class("a")])]);
    assert!(get_prefix(&none).is_empty());
}

#[test]
fn get_prefix_forced_unprefixed_by_list_bearing() {
    // A list-bearing composite reports the unprefixed flag so that
    // downleveling still runs.
    let l = list(vec![sel(vec![Component::Is(vec![sel(vec![class("a")])])])]);
    assert_eq!(get_prefix(&l), VendorPrefix::unprefixed());
    let lang = list(vec![sel(vec![Component::NonTSPseudoClass(PseudoClass::Lang {
        languages: vec!["en".to_string()],
    })])]);
    assert_eq!(get_prefix(&lang), VendorPrefix::unprefixed());
}

#[test]
fn unused_symbols() {
    let symbols = vec!["dead".to_string()];
    let l = vec![sel(vec![class("dead"), class("live")])];
    assert!(is_unused(&l, &symbols, false));
    let l2 = vec![sel(vec![class("live")])];
    assert!(!is_unused(&l2, &symbols, false));
    // Every branch must be unused.
    let l3 = vec![sel(vec![class("dead")]), sel(vec![class("live")])];
    assert!(!is_unused(&l3, &symbols, false));
    // An empty symbol set marks nothing unused.
    assert!(!is_unused(&l, &Vec::new(), false));
    // The nesting selector counts as the parent.
    let l4 = vec![sel(vec![Component::Nesting])];
    assert!(is_unused(&l4, &symbols, true));
    assert!(!is_unused(&l4, &symbols, false));
    // Recursion through :is().
    let l5 = vec![sel(vec![Component::Is(vec![sel(vec![class("dead")])])])];
    assert!(is_unused(&l5, &symbols, false));
}

#[test]
fn pseudo_class_names_dispatch_case_insensitively() {
    let p = SelectorParser { is_nesting_allowed: false, css_modules: false };
    assert_eq!(p.parse_non_ts_pseudo_class("HOVER"), (PseudoClass::Hover, false));
    assert_eq!(
        p.parse_non_ts_pseudo_class("-WebKit-Full-Screen"),
        (PseudoClass::Fullscreen(VendorPrefix::webkit()), false)
    );
    assert_eq!(
        p.parse_non_ts_pseudo_class("-ms-fullscreen"),
        (PseudoClass::Fullscreen(VendorPrefix::ms()), false)
    );
    assert_eq!(
        p.parse_non_ts_pseudo_class("frobnicate"),
        (PseudoClass::Custom { name: "frobnicate".to_string() }, true)
    );
    assert_eq!(
        p.parse_non_ts_pseudo_class("-x-frobnicate"),
        (PseudoClass::Custom { name: "-x-frobnicate".to_string() }, false)
    );
}

#[test]
fn pseudo_element_names_dispatch() {
    let p = SelectorParser { is_nesting_allowed: false, css_modules: false };
    assert_eq!(
        p.parse_pseudo_element("-MOZ-selection"),
        (PseudoElement::Selection(VendorPrefix::moz()), false)
    );
    // The historical alias: -ms-input-placeholder carries the Moz prefix.
    assert_eq!(
        p.parse_pseudo_element("-ms-input-placeholder"),
        (PseudoElement::Placeholder(VendorPrefix::moz()), false)
    );
    assert_eq!(
        p.parse_pseudo_element("glow"),
        (PseudoElement::Custom { name: "glow".to_string() }, true)
    );
}

#[test]
fn functional_dispatch_gates_css_modules() {
    let without = SelectorParser { is_nesting_allowed: false, css_modules: false };
    let with = SelectorParser { is_nesting_allowed: false, css_modules: true };
    assert_eq!(
        without.parse_non_ts_functional_pseudo_class("local").0,
        FunctionalPseudoClassKind::Custom
    );
    assert_eq!(
        with.parse_non_ts_functional_pseudo_class("local").0,
        FunctionalPseudoClassKind::Local
    );
    assert_eq!(
        with.parse_non_ts_functional_pseudo_class("LANG").0,
        FunctionalPseudoClassKind::Lang
    );
    assert_eq!(with.parse_any_prefix("-webkit-any"), Some(VendorPrefix::webkit()));
    assert_eq!(with.parse_any_prefix("-moz-any"), Some(VendorPrefix::moz()));
    assert_eq!(with.parse_any_prefix("any"), None);
    assert_eq!(with.parse_direction("LTR"), Some(Direction::Ltr));
    assert_eq!(with.parse_direction("rtl"), Some(Direction::Rtl));
    assert_eq!(with.parse_direction("sideways"), None);
}

#[test]
fn css_module_flag_is_restored_around_global() {
    let mut st = PrintState::plain();
    st.css_module = true;
    let l = list(vec![sel(vec![Component::NonTSPseudoClass(PseudoClass::Global {
        selector: Box::new(sel(vec![class("g")])),
    })])]);
    assert_eq!(l.to_css_string(st), ".g");
}
