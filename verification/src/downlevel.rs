//! Downleveling: rewriting selectors so that older browser targets can match
//! them, and computing the vendor prefixes the caller must emit duplicate
//! rules for.
//!
//! `:dir()` becomes a `:lang()` test over the right-to-left language list,
//! `:lang()` with several languages becomes `:is(:lang(a), :lang(b), ...)`,
//! and unprefixed prefixable pseudos report the prefixes the targets need.
//! The rewriting consumes its input and returns the rewritten tree.

use vstd::prelude::*;
use crate::equivalence::string_seq_view;
use crate::selector::{
    component_size, selector_seq_size, lemma_selector_seq_size_ge, Component, Direction,
    PseudoClass, Selector, SelectorList, spec_has_tree_combinator,
};
use crate::targets::{Feature, PrefixFeature, Targets};
use crate::vendor_prefix::VendorPrefix;
use vstd::string::StringExecFns;

verus! {

/// The languages written right-to-left, as `:dir(rtl)` is downleveled to.
pub open spec fn rtl_langs() -> Seq<Seq<char>> {
    seq![
        "ae"@,
        "ar"@,
        "arc"@,
        "bcc"@,
        "bqi"@,
        "ckb"@,
        "dv"@,
        "fa"@,
        "glk"@,
        "he"@,
        "ku"@,
        "mzn"@,
        "nqo"@,
        "pnb"@,
        "ps"@,
        "sd"@,
        "ug"@,
        "ur"@,
        "yi"@,
    ]
}

/// Whether a selector is exactly `:lang()` with the one given language.
pub open spec fn is_single_lang(s: Selector, lang: Seq<char>) -> bool {
    s.components@.len() == 1 && match s.components@[0] {
        Component::NonTSPseudoClass(PseudoClass::Lang { languages }) => languages@.len() == 1
            && languages@[0]@ == lang,
        _ => false,
    }
}

/// Whether a selector sequence is one `:lang()` branch per given language.
pub open spec fn is_lang_singletons(ss: Seq<Selector>, langs: Seq<Seq<char>>) -> bool {
    ss.len() == langs.len() && forall|i: int|
        0 <= i < ss.len() ==> is_single_lang(#[trigger] ss[i], langs[i])
}

/// Whether a selector is exactly one `:lang()` carrying the given language
/// list.
pub open spec fn is_single_multi_lang(s: Selector, langs: Seq<Seq<char>>) -> bool {
    s.components@.len() == 1 && match s.components@[0] {
        Component::NonTSPseudoClass(PseudoClass::Lang { languages }) => string_seq_view(languages@)
            == langs,
        _ => false,
    }
}

/// What `:dir()` becomes when the targets lack it: with multi-argument
/// `:lang()` support, one `:lang()` over the right-to-left languages
/// (negated for `ltr`); otherwise `:is()` (or `:not()`) over one `:lang()`
/// per language.
pub open spec fn dir_replacement_rel(d: Direction, r: Component, t: Targets) -> bool {
    if t.lang_list {
        if d == Direction::Rtl {
            match r {
                Component::NonTSPseudoClass(PseudoClass::Lang { languages }) => string_seq_view(
                    languages@,
                ) == rtl_langs(),
                _ => false,
            }
        } else {
            match r {
                Component::Negation(list) => list@.len() == 1 && is_single_multi_lang(
                    list@[0],
                    rtl_langs(),
                ),
                _ => false,
            }
        }
    } else {
        if d == Direction::Rtl {
            match r {
                Component::Is(list) => is_lang_singletons(list@, rtl_langs()),
                _ => false,
            }
        } else {
            match r {
                Component::Negation(list) => is_lang_singletons(list@, rtl_langs()),
                _ => false,
            }
        }
    }
}

/// How downleveling rewrites one component.
pub open spec fn downlevel_component_rel(c: Component, r: Component, t: Targets) -> bool
    decreases component_size(c), 0int,
{
    match c {
        Component::NonTSPseudoClass(pc) => match pc {
            PseudoClass::Dir { direction } => if Feature::CssDirPseudo.spec_is_compatible(t) {
                r == c
            } else {
                dir_replacement_rel(direction, r, t)
            },
            PseudoClass::Lang { languages } => if languages@.len() > 1
                && !Feature::LangList.spec_is_compatible(t) {
                match r {
                    Component::Is(list) => is_lang_singletons(
                        list@,
                        string_seq_view(languages@),
                    ),
                    _ => false,
                }
            } else {
                r == c
            },
            _ => r == c,
        },
        Component::Is(list) => match r {
            Component::Is(rl) => downlevel_selectors_rel(list@, rl@, t),
            _ => false,
        },
        Component::Where(list) => match r {
            Component::Where(rl) => downlevel_selectors_rel(list@, rl@, t),
            _ => false,
        },
        Component::Negation(list) => match r {
            Component::Negation(rl) => downlevel_selectors_rel(list@, rl@, t),
            _ => false,
        },
        Component::Has(list) => match r {
            Component::Has(rl) => downlevel_selectors_rel(list@, rl@, t),
            _ => false,
        },
        Component::Any(p, list) => match r {
            Component::Any(rp, rl) => rp == p && downlevel_selectors_rel(list@, rl@, t),
            _ => false,
        },
        _ => r == c,
    }
}

/// How downleveling rewrites a component sequence: elementwise.
pub open spec fn downlevel_components_rel(a: Seq<Component>, b: Seq<Component>, t: Targets) -> bool
    decreases crate::selector::component_seq_size(a), 1int,
        via downlevel_components_rel_decreases
{
    if a.len() != b.len() {
        false
    } else if a.len() == 0 {
        true
    } else {
        downlevel_component_rel(a[0], b[0], t) && downlevel_components_rel(
            a.drop_first(),
            b.drop_first(),
            t,
        )
    }
}

#[via_fn]
proof fn downlevel_components_rel_decreases(a: Seq<Component>, b: Seq<Component>, t: Targets) {
    if a.len() > 0 {
        crate::selector::lemma_component_seq_size_ge(a, 0);
    }
}

/// How downleveling rewrites a selector sequence: branchwise.
pub open spec fn downlevel_selectors_rel(a: Seq<Selector>, b: Seq<Selector>, t: Targets) -> bool
    decreases selector_seq_size(a), 2int,
        via downlevel_selectors_rel_decreases
{
    if a.len() != b.len() {
        false
    } else if a.len() == 0 {
        true
    } else {
        downlevel_components_rel(a[0].components@, b[0].components@, t)
            && downlevel_selectors_rel(a.drop_first(), b.drop_first(), t)
    }
}

#[via_fn]
proof fn downlevel_selectors_rel_decreases(a: Seq<Selector>, b: Seq<Selector>, t: Targets) {
    if a.len() > 0 {
        lemma_selector_seq_size_ge(a, 0);
    }
}

// ---------------------------------------------------------------------------
// The prefixes downleveling reports.
// ---------------------------------------------------------------------------

/// Whether no branch holds a tree combinator.
pub open spec fn all_branches_simple(ss: Seq<Selector>) -> bool {
    forall|i: int| 0 <= i < ss.len() ==> !spec_has_tree_combinator(#[trigger] ss[i])
}

/// The empty prefix set.
pub open spec fn no_prefixes() -> VendorPrefix {
    VendorPrefix { none: false, webkit: false, moz: false, ms: false, o: false }
}

/// The prefixes a downleveled `:is()` adds: when the targets lack `:is()`
/// and every branch is combinator-free, the prefixes of the legacy
/// `:-*-any()` spelling.
pub open spec fn any_pseudo_prefixes(ss: Seq<Selector>, t: Targets) -> VendorPrefix {
    if !Feature::CssMatchesPseudo.spec_is_compatible(t) && all_branches_simple(ss) {
        PrefixFeature::AnyPseudo.spec_prefixes_for(t)
    } else {
        no_prefixes()
    }
}

/// The prefixes downleveling one component reports.
pub open spec fn spec_downlevel_prefixes_component(c: Component, t: Targets) -> VendorPrefix
    decreases component_size(c), 0int,
{
    match c {
        Component::NonTSPseudoClass(pc) => match pc {
            PseudoClass::Dir { direction } => if Feature::CssDirPseudo.spec_is_compatible(t) {
                no_prefixes()
            } else if Feature::LangList.spec_is_compatible(t) {
                no_prefixes()
            } else if direction == Direction::Rtl
                && !Feature::CssMatchesPseudo.spec_is_compatible(t) {
                PrefixFeature::AnyPseudo.spec_prefixes_for(t)
            } else {
                no_prefixes()
            },
            PseudoClass::Lang { languages } => if languages@.len() > 1
                && !Feature::LangList.spec_is_compatible(t)
                && !Feature::CssMatchesPseudo.spec_is_compatible(t) {
                PrefixFeature::AnyPseudo.spec_prefixes_for(t)
            } else {
                no_prefixes()
            },
            _ => pc.spec_get_necessary_prefixes(t),
        },
        Component::PseudoElement(pe) => pe.spec_get_necessary_prefixes(t),
        Component::Is(list) => spec_downlevel_prefixes_selectors(list@, t).spec_or(
            any_pseudo_prefixes(list@, t),
        ),
        Component::Where(list) => spec_downlevel_prefixes_selectors(list@, t),
        Component::Negation(list) => spec_downlevel_prefixes_selectors(list@, t),
        Component::Has(list) => spec_downlevel_prefixes_selectors(list@, t),
        Component::Any(_, list) => spec_downlevel_prefixes_selectors(list@, t),
        _ => no_prefixes(),
    }
}

/// The prefixes downleveling a component sequence reports.
pub open spec fn spec_downlevel_prefixes_components(cs: Seq<Component>, t: Targets) -> VendorPrefix
    decreases crate::selector::component_seq_size(cs), 1int,
        via spec_downlevel_prefixes_components_decreases
{
    if cs.len() == 0 {
        no_prefixes()
    } else {
        spec_downlevel_prefixes_component(cs[0], t).spec_or(
            spec_downlevel_prefixes_components(cs.drop_first(), t),
        )
    }
}

#[via_fn]
proof fn spec_downlevel_prefixes_components_decreases(cs: Seq<Component>, t: Targets) {
    if cs.len() > 0 {
        crate::selector::lemma_component_seq_size_ge(cs, 0);
    }
}

/// The prefixes downleveling a selector sequence reports.
pub open spec fn spec_downlevel_prefixes_selectors(ss: Seq<Selector>, t: Targets) -> VendorPrefix
    decreases selector_seq_size(ss), 2int,
        via spec_downlevel_prefixes_selectors_decreases
{
    if ss.len() == 0 {
        no_prefixes()
    } else {
        spec_downlevel_prefixes_components(ss[0].components@, t).spec_or(
            spec_downlevel_prefixes_selectors(ss.drop_first(), t),
        )
    }
}

#[via_fn]
proof fn spec_downlevel_prefixes_selectors_decreases(ss: Seq<Selector>, t: Targets) {
    if ss.len() > 0 {
        lemma_selector_seq_size_ge(ss, 0);
    }
}

// ---------------------------------------------------------------------------
// The executable downleveler.
// ---------------------------------------------------------------------------

/// One `:lang()` branch per language of the given list.
pub fn lang_list_to_selectors(langs: &Vec<String>) -> (r: Vec<Selector>)
    ensures
        is_lang_singletons(r@, string_seq_view(langs@)),
        all_branches_simple(r@),
{
    let n = langs.len();
    let mut out: Vec<Selector> = Vec::new();
    let mut i: usize = 0;
    while i < n
        invariant
            i <= n,
            n == langs@.len(),
            out@.len() == i,
            forall|k: int| 0 <= k < i ==> is_single_lang(#[trigger] out@[k], langs@[k]@),
        decreases n - i,
    {
        let mut languages: Vec<String> = Vec::new();
        languages.push(langs[i].clone());
        let mut components: Vec<Component> = Vec::new();
        components.push(Component::NonTSPseudoClass(PseudoClass::Lang { languages }));
        out.push(Selector { components });
        i = i + 1;
    }
    proof {
        assert(string_seq_view(langs@).len() == langs@.len());
        assert forall|k: int| 0 <= k < out@.len() implies is_single_lang(
            #[trigger] out@[k],
            string_seq_view(langs@)[k],
        ) by {
            assert(string_seq_view(langs@)[k] == langs@[k]@);
        }
        assert forall|k: int| 0 <= k < out@.len() implies !spec_has_tree_combinator(
            #[trigger] out@[k],
        ) by {
            assert(out@[k].components@.len() == 1);
        }
    }
    out
}

/// The right-to-left language list.
#[verifier::rlimit(100)]
fn rtl_lang_vec() -> (r: Vec<String>)
    ensures
        string_seq_view(r@) == rtl_langs(),
{
    let mut out: Vec<String> = Vec::new();
    out.push(String::from_str("ae"));
    out.push(String::from_str("ar"));
    out.push(String::from_str("arc"));
    out.push(String::from_str("bcc"));
    out.push(String::from_str("bqi"));
    out.push(String::from_str("ckb"));
    out.push(String::from_str("dv"));
    out.push(String::from_str("fa"));
    out.push(String::from_str("glk"));
    out.push(String::from_str("he"));
    out.push(String::from_str("ku"));
    out.push(String::from_str("mzn"));
    out.push(String::from_str("nqo"));
    out.push(String::from_str("pnb"));
    out.push(String::from_str("ps"));
    out.push(String::from_str("sd"));
    out.push(String::from_str("ug"));
    out.push(String::from_str("ur"));
    out.push(String::from_str("yi"));
    proof {
        assert(string_seq_view(out@) =~= rtl_langs());
    }
    out
}

/// The replacement for `:dir()` when the targets lack it, and the prefixes
/// that replacement needs.
fn downlevel_dir(dir: Direction, targets: &Targets) -> (r: (Component, VendorPrefix))
    ensures
        dir_replacement_rel(dir, r.0, *targets),
        r.1 == (if Feature::LangList.spec_is_compatible(*targets) {
            no_prefixes()
        } else if dir == Direction::Rtl && !Feature::CssMatchesPseudo.spec_is_compatible(
            *targets,
        ) {
            PrefixFeature::AnyPseudo.spec_prefixes_for(*targets)
        } else {
            no_prefixes()
        }),
{
    let langs = rtl_lang_vec();
    if Feature::LangList.is_compatible(targets) {
        let c = Component::NonTSPseudoClass(PseudoClass::Lang { languages: langs });
        if dir == Direction::Ltr {
            let mut components: Vec<Component> = Vec::new();
            components.push(c);
            let mut list: Vec<Selector> = Vec::new();
            list.push(Selector { components });
            (Component::Negation(list), VendorPrefix::empty())
        } else {
            (c, VendorPrefix::empty())
        }
    } else {
        let list = lang_list_to_selectors(&langs);
        if dir == Direction::Ltr {
            (Component::Negation(list), VendorPrefix::empty())
        } else {
            let pfx = if !Feature::CssMatchesPseudo.is_compatible(targets) {
                PrefixFeature::AnyPseudo.prefixes_for(targets)
            } else {
                VendorPrefix::empty()
            };
            (Component::Is(list), pfx)
        }
    }
}

/// Downlevel one component; the result and the prefixes it needs.
pub fn downlevel_component(c: Component, targets: &Targets) -> (r: (Component, VendorPrefix))
    ensures
        downlevel_component_rel(c, r.0, *targets),
        r.1 == spec_downlevel_prefixes_component(c, *targets),
    decreases component_size(c), 0int,
{
    match c {
        Component::NonTSPseudoClass(pc) => match pc {
            PseudoClass::Dir { direction } => {
                if Feature::CssDirPseudo.is_compatible(targets) {
                    (
                        Component::NonTSPseudoClass(PseudoClass::Dir { direction }),
                        VendorPrefix::empty(),
                    )
                } else {
                    downlevel_dir(direction, targets)
                }
            },
            PseudoClass::Lang { languages } => {
                if languages.len() > 1 && !Feature::LangList.is_compatible(targets) {
                    let list = lang_list_to_selectors(&languages);
                    let pfx = if !Feature::CssMatchesPseudo.is_compatible(targets) {
                        PrefixFeature::AnyPseudo.prefixes_for(targets)
                    } else {
                        VendorPrefix::empty()
                    };
                    (Component::Is(list), pfx)
                } else {
                    (
                        Component::NonTSPseudoClass(PseudoClass::Lang { languages }),
                        VendorPrefix::empty(),
                    )
                }
            },
            other => {
                let pfx = other.get_necessary_prefixes(targets);
                (Component::NonTSPseudoClass(other), pfx)
            },
        },
        Component::PseudoElement(pe) => {
            let pfx = pe.get_necessary_prefixes(targets);
            (Component::PseudoElement(pe), pfx)
        },
        Component::Is(list) => {
            let mut simple = true;
            let n = list.len();
            let mut i: usize = 0;
            while i < n
                invariant
                    i <= n,
                    n == list@.len(),
                    simple == (forall|k: int|
                        0 <= k < i ==> !spec_has_tree_combinator(#[trigger] list@[k])),
                decreases n - i,
            {
                if list[i].has_combinator() {
                    simple = false;
                }
                i = i + 1;
            }
            let (rl, mut pfx) = downlevel_selectors(list, targets);
            if !Feature::CssMatchesPseudo.is_compatible(targets) && simple {
                pfx = pfx.or(&PrefixFeature::AnyPseudo.prefixes_for(targets));
            } else {
                proof {
                    assert(pfx.spec_or(no_prefixes()) == pfx);
                }
            }
            (Component::Is(rl), pfx)
        },
        Component::Where(list) => {
            let (rl, pfx) = downlevel_selectors(list, targets);
            (Component::Where(rl), pfx)
        },
        Component::Negation(list) => {
            let (rl, pfx) = downlevel_selectors(list, targets);
            (Component::Negation(rl), pfx)
        },
        Component::Has(list) => {
            let (rl, pfx) = downlevel_selectors(list, targets);
            (Component::Has(rl), pfx)
        },
        Component::Any(p, list) => {
            let (rl, pfx) = downlevel_selectors(list, targets);
            (Component::Any(p, rl), pfx)
        },
        other => (other, VendorPrefix::empty()),
    }
}

/// Downlevel every branch of a selector vector; the rewritten branches and
/// the union of the prefixes they need.
#[verifier::loop_isolation(false)]
pub fn downlevel_selectors(list: Vec<Selector>, targets: &Targets) -> (r: (
    Vec<Selector>,
    VendorPrefix,
))
    ensures
        downlevel_selectors_rel(list@, r.0@, *targets),
        r.1 == spec_downlevel_prefixes_selectors(list@, *targets),
    decreases selector_seq_size(list@), 3int,
{
    let ghost input = list@;
    let mut list = list;
    let mut out: Vec<Selector> = Vec::new();
    let mut pfx = VendorPrefix::empty();
    proof {
        assert(input.skip(0) =~= input);
        assert(input.take(0) =~= Seq::<Selector>::empty());
    }
    while list.len() > 0
        invariant
            out@.len() + list@.len() == input.len(),
            list@ =~= input.skip(out@.len() as int),
            downlevel_selectors_rel(input.take(out@.len() as int), out@, *targets),
            pfx == spec_downlevel_prefixes_selectors(input.take(out@.len() as int), *targets),
        decreases list@.len(),
    {
        let i = out.len();
        let sel = list.remove(0);
        proof {
            assert(input.skip(i as int)[0] == input[i as int]);
            assert(sel == input[i as int]);
            lemma_selector_seq_size_ge(input, i as int);
            assert(input.skip(i as int).drop_first() =~= input.skip(i + 1 as int));
            assert(list@ =~= input.skip(i + 1 as int));
        }
        let (components2, p) = downlevel_components(sel.components, targets);
        let ghost prev_out = out@;
        let sel2 = Selector { components: components2 };
        proof {
            lemma_downlevel_rel_snoc(
                input.take(i as int),
                prev_out,
                input[i as int],
                sel2,
                *targets,
            );
            assert(input.take(i + 1 as int) =~= input.take(i as int).push(input[i as int]));
            lemma_downlevel_prefixes_take_step(input, i as int, *targets);
        }
        out.push(sel2);
        pfx = pfx.or(&p);
    }
    proof {
        assert(input.take(input.len() as int) =~= input);
        assert(input.skip(input.len() as int) =~= Seq::<Selector>::empty());
    }
    (out, pfx)
}

/// Downlevel the components of one selector.
#[verifier::loop_isolation(false)]
pub fn downlevel_components(components: Vec<Component>, targets: &Targets) -> (r: (
    Vec<Component>,
    VendorPrefix,
))
    ensures
        downlevel_components_rel(components@, r.0@, *targets),
        r.1 == spec_downlevel_prefixes_components(components@, *targets),
    decreases crate::selector::component_seq_size(components@), 2int,
{
    let ghost input = components@;
    let mut components = components;
    let mut out: Vec<Component> = Vec::new();
    let mut pfx = VendorPrefix::empty();
    proof {
        assert(input.skip(0) =~= input);
        assert(input.take(0) =~= Seq::<Component>::empty());
    }
    while components.len() > 0
        invariant
            out@.len() + components@.len() == input.len(),
            components@ =~= input.skip(out@.len() as int),
            downlevel_components_rel(input.take(out@.len() as int), out@, *targets),
            pfx == spec_downlevel_prefixes_components(input.take(out@.len() as int), *targets),
        decreases components@.len(),
    {
        let i = out.len();
        let c = components.remove(0);
        proof {
            assert(input.skip(i as int)[0] == input[i as int]);
            assert(c == input[i as int]);
            crate::selector::lemma_component_seq_size_ge(input, i as int);
            lemma_component_seq_size_subrange_skip(input, i as int);
            assert(input.skip(i as int).drop_first() =~= input.skip(i + 1 as int));
            assert(components@ =~= input.skip(i + 1 as int));
        }
        let (c2, p) = downlevel_component(c, targets);
        let ghost prev_out = out@;
        proof {
            lemma_downlevel_comp_rel_snoc(
                input.take(i as int),
                prev_out,
                input[i as int],
                c2,
                *targets,
            );
            assert(input.take(i + 1 as int) =~= input.take(i as int).push(input[i as int]));
            lemma_downlevel_comp_prefixes_take_step(input, i as int, *targets);
        }
        out.push(c2);
        pfx = pfx.or(&p);
    }
    proof {
        assert(input.take(input.len() as int) =~= input);
        assert(input.skip(input.len() as int) =~= Seq::<Component>::empty());
    }
    (out, pfx)
}

/// Downlevel a selector list in place of the given one, and report the
/// prefixes the caller must emit duplicate rules for.
pub fn downlevel(list: SelectorList, targets: &Targets) -> (r: (SelectorList, VendorPrefix))
    ensures
        downlevel_selectors_rel(list.selectors@, r.0.selectors@, *targets),
        r.1 == spec_downlevel_prefixes_selectors(list.selectors@, *targets),
{
    let (out, pfx) = downlevel_selectors(list.selectors, targets);
    (SelectorList { selectors: out }, pfx)
}

/// A component-sequence suffix weighs no more than the whole.
proof fn lemma_component_seq_size_subrange_skip(cs: Seq<Component>, i: int)
    requires
        0 <= i <= cs.len(),
    ensures
        crate::selector::component_seq_size(cs.skip(i)) <= crate::selector::component_seq_size(
            cs,
        ),
{
    crate::selector::lemma_component_seq_size_split(cs, i);
}

/// Extending both sides of the branchwise relation by one related pair keeps
/// it.
proof fn lemma_downlevel_rel_snoc(
    a: Seq<Selector>,
    b: Seq<Selector>,
    x: Selector,
    y: Selector,
    t: Targets,
)
    requires
        downlevel_selectors_rel(a, b, t),
        downlevel_components_rel(x.components@, y.components@, t),
    ensures
        downlevel_selectors_rel(a.push(x), b.push(y), t),
    decreases a.len(),
{
    if a.len() == 0 {
        assert(a.push(x).drop_first() =~= Seq::<Selector>::empty().push(x).drop_first());
        assert(a.push(x)[0] == x);
        assert(b.push(y)[0] == y);
        assert(a.push(x).drop_first() =~= a);
        assert(b.push(y).drop_first() =~= b);
    } else {
        lemma_downlevel_rel_snoc(a.drop_first(), b.drop_first(), x, y, t);
        assert(a.push(x)[0] == a[0]);
        assert(b.push(y)[0] == b[0]);
        assert(a.push(x).drop_first() =~= a.drop_first().push(x));
        assert(b.push(y).drop_first() =~= b.drop_first().push(y));
    }
}

/// Extending both sides of the componentwise relation by one related pair
/// keeps it.
proof fn lemma_downlevel_comp_rel_snoc(
    a: Seq<Component>,
    b: Seq<Component>,
    x: Component,
    y: Component,
    t: Targets,
)
    requires
        downlevel_components_rel(a, b, t),
        downlevel_component_rel(x, y, t),
    ensures
        downlevel_components_rel(a.push(x), b.push(y), t),
    decreases a.len(),
{
    if a.len() == 0 {
        assert(a.push(x)[0] == x);
        assert(b.push(y)[0] == y);
        assert(a.push(x).drop_first() =~= a);
        assert(b.push(y).drop_first() =~= b);
    } else {
        lemma_downlevel_comp_rel_snoc(a.drop_first(), b.drop_first(), x, y, t);
        assert(a.push(x)[0] == a[0]);
        assert(b.push(y)[0] == b[0]);
        assert(a.push(x).drop_first() =~= a.drop_first().push(x));
        assert(b.push(y).drop_first() =~= b.drop_first().push(y));
    }
}

/// The prefix fold over a take grows by the element at the boundary.
proof fn lemma_downlevel_prefixes_take_step(ss: Seq<Selector>, i: int, t: Targets)
    requires
        0 <= i < ss.len(),
    ensures
        spec_downlevel_prefixes_selectors(ss.take(i + 1), t)
            == spec_downlevel_prefixes_selectors(ss.take(i), t).spec_or(
            spec_downlevel_prefixes_components(ss[i].components@, t),
        ),
    decreases i,
{
    if i == 0 {
        assert(ss.take(1)[0] == ss[0]);
        assert(ss.take(1).drop_first() =~= Seq::<Selector>::empty());
        assert(ss.take(0) =~= Seq::<Selector>::empty());
    } else {
        lemma_downlevel_prefixes_take_step(ss.drop_first(), i - 1, t);
        assert(ss.take(i + 1)[0] == ss[0]);
        assert(ss.take(i + 1).drop_first() =~= ss.drop_first().take(i));
        assert(ss.take(i)[0] == ss[0]);
        assert(ss.take(i).drop_first() =~= ss.drop_first().take(i - 1));
        assert(ss.drop_first()[i - 1] == ss[i]);
    }
}

/// The component prefix fold over a take grows by the element at the
/// boundary.
proof fn lemma_downlevel_comp_prefixes_take_step(cs: Seq<Component>, i: int, t: Targets)
    requires
        0 <= i < cs.len(),
    ensures
        spec_downlevel_prefixes_components(cs.take(i + 1), t)
            == spec_downlevel_prefixes_components(cs.take(i), t).spec_or(
            spec_downlevel_prefixes_component(cs[i], t),
        ),
    decreases i,
{
    if i == 0 {
        assert(cs.take(1)[0] == cs[0]);
        assert(cs.take(1).drop_first() =~= Seq::<Component>::empty());
        assert(cs.take(0) =~= Seq::<Component>::empty());
    } else {
        lemma_downlevel_comp_prefixes_take_step(cs.drop_first(), i - 1, t);
        assert(cs.take(i + 1)[0] == cs[0]);
        assert(cs.take(i + 1).drop_first() =~= cs.drop_first().take(i));
        assert(cs.take(i)[0] == cs[0]);
        assert(cs.take(i).drop_first() =~= cs.drop_first().take(i - 1));
        assert(cs.drop_first()[i - 1] == cs[i]);
    }
}


// ---------------------------------------------------------------------------
// What downleveling guarantees about the rewritten tree.
// ---------------------------------------------------------------------------

/// No `:dir()` remains in the positions downleveling rewrites: at the top
/// level of a compound and inside the list-bearing composites it recurses
/// into.
pub open spec fn component_dir_free(c: Component) -> bool
    decreases component_size(c), 0int,
{
    match c {
        Component::NonTSPseudoClass(pc) => !(pc is Dir),
        Component::Is(list) => selectors_dir_free(list@),
        Component::Where(list) => selectors_dir_free(list@),
        Component::Negation(list) => selectors_dir_free(list@),
        Component::Has(list) => selectors_dir_free(list@),
        Component::Any(_, list) => selectors_dir_free(list@),
        _ => true,
    }
}

/// No component of the sequence holds a reachable `:dir()`.
pub open spec fn components_dir_free(cs: Seq<Component>) -> bool
    decreases crate::selector::component_seq_size(cs), 1int,
        via components_dir_free_decreases
{
    if cs.len() == 0 {
        true
    } else {
        component_dir_free(cs[0]) && components_dir_free(cs.drop_first())
    }
}

#[via_fn]
proof fn components_dir_free_decreases(cs: Seq<Component>) {
    if cs.len() > 0 {
        crate::selector::lemma_component_seq_size_ge(cs, 0);
    }
}

/// No branch of the sequence holds a reachable `:dir()`.
pub open spec fn selectors_dir_free(ss: Seq<Selector>) -> bool
    decreases selector_seq_size(ss), 2int,
        via selectors_dir_free_decreases
{
    if ss.len() == 0 {
        true
    } else {
        components_dir_free(ss[0].components@) && selectors_dir_free(ss.drop_first())
    }
}

#[via_fn]
proof fn selectors_dir_free_decreases(ss: Seq<Selector>) {
    if ss.len() > 0 {
        lemma_selector_seq_size_ge(ss, 0);
    }
}

/// No reachable `:lang()` carries more than one language.
pub open spec fn component_multi_lang_free(c: Component) -> bool
    decreases component_size(c), 0int,
{
    match c {
        Component::NonTSPseudoClass(pc) => match pc {
            PseudoClass::Lang { languages } => languages@.len() <= 1,
            _ => true,
        },
        Component::Is(list) => selectors_multi_lang_free(list@),
        Component::Where(list) => selectors_multi_lang_free(list@),
        Component::Negation(list) => selectors_multi_lang_free(list@),
        Component::Has(list) => selectors_multi_lang_free(list@),
        Component::Any(_, list) => selectors_multi_lang_free(list@),
        _ => true,
    }
}

/// No component of the sequence holds a reachable multi-argument `:lang()`.
pub open spec fn components_multi_lang_free(cs: Seq<Component>) -> bool
    decreases crate::selector::component_seq_size(cs), 1int,
        via components_multi_lang_free_decreases
{
    if cs.len() == 0 {
        true
    } else {
        component_multi_lang_free(cs[0]) && components_multi_lang_free(cs.drop_first())
    }
}

#[via_fn]
proof fn components_multi_lang_free_decreases(cs: Seq<Component>) {
    if cs.len() > 0 {
        crate::selector::lemma_component_seq_size_ge(cs, 0);
    }
}

/// No branch of the sequence holds a reachable multi-argument `:lang()`.
pub open spec fn selectors_multi_lang_free(ss: Seq<Selector>) -> bool
    decreases selector_seq_size(ss), 2int,
        via selectors_multi_lang_free_decreases
{
    if ss.len() == 0 {
        true
    } else {
        components_multi_lang_free(ss[0].components@) && selectors_multi_lang_free(
            ss.drop_first(),
        )
    }
}

#[via_fn]
proof fn selectors_multi_lang_free_decreases(ss: Seq<Selector>) {
    if ss.len() > 0 {
        lemma_selector_seq_size_ge(ss, 0);
    }
}

/// A sequence of one-`:lang()` branches holds no `:dir()` and no
/// multi-argument `:lang()`.
proof fn lemma_lang_singletons_clean(ss: Seq<Selector>, langs: Seq<Seq<char>>)
    requires
        is_lang_singletons(ss, langs),
    ensures
        selectors_dir_free(ss),
        selectors_multi_lang_free(ss),
    decreases ss.len(),
{
    if ss.len() > 0 {
        assert(is_single_lang(ss[0], langs[0]));
        assert(ss[0].components@.drop_first() =~= Seq::<Component>::empty());
        assert(component_dir_free(ss[0].components@[0]));
        assert(component_multi_lang_free(ss[0].components@[0]));
        assert(components_dir_free(Seq::<Component>::empty()));
        assert(components_multi_lang_free(Seq::<Component>::empty()));
        assert(components_dir_free(ss[0].components@));
        assert(components_multi_lang_free(ss[0].components@));
        assert forall|i: int| 0 <= i < ss.drop_first().len() implies is_single_lang(
            #[trigger] ss.drop_first()[i],
            langs.drop_first()[i],
        ) by {
            assert(ss.drop_first()[i] == ss[i + 1]);
            assert(langs.drop_first()[i] == langs[i + 1]);
        }
        lemma_lang_singletons_clean(ss.drop_first(), langs.drop_first());
    }
}

/// Downleveling one component leaves no reachable `:dir()` when the targets
/// lack it, and no reachable multi-argument `:lang()` when the targets lack
/// language lists.
proof fn lemma_downlevel_component_linguistics(c: Component, r: Component, t: Targets)
    requires
        downlevel_component_rel(c, r, t),
    ensures
        !t.dir_pseudo ==> component_dir_free(r),
        !t.lang_list ==> component_multi_lang_free(r),
    decreases component_size(c), 0int,
{
    match c {
        Component::NonTSPseudoClass(pc) => match pc {
            PseudoClass::Dir { direction } => {
                if !Feature::CssDirPseudo.spec_is_compatible(t) {
                    if t.lang_list {
                        match r {
                            Component::Negation(list) => {
                                assert(list@.drop_first() =~= Seq::<Selector>::empty());
                                assert(list@[0].components@.drop_first() =~= Seq::<
                                    Component,
                                >::empty());
                                assert(component_dir_free(list@[0].components@[0]));
                                assert(components_dir_free(Seq::<Component>::empty()));
                                assert(selectors_dir_free(Seq::<Selector>::empty()));
                                assert(components_dir_free(list@[0].components@));
                                assert(selectors_dir_free(list@));
                            },
                            _ => (),
                        }
                    } else {
                        match r {
                            Component::Is(list) => {
                                lemma_lang_singletons_clean(list@, rtl_langs());
                            },
                            Component::Negation(list) => {
                                lemma_lang_singletons_clean(list@, rtl_langs());
                            },
                            _ => (),
                        }
                    }
                }
            },
            PseudoClass::Lang { languages } => {
                if languages@.len() > 1 && !Feature::LangList.spec_is_compatible(t) {
                    match r {
                        Component::Is(list) => {
                            lemma_lang_singletons_clean(list@, string_seq_view(languages@));
                        },
                        _ => (),
                    }
                }
            },
            _ => (),
        },
        Component::Is(list) => match r {
            Component::Is(rl) => lemma_downlevel_selectors_linguistics(list@, rl@, t),
            _ => (),
        },
        Component::Where(list) => match r {
            Component::Where(rl) => lemma_downlevel_selectors_linguistics(list@, rl@, t),
            _ => (),
        },
        Component::Negation(list) => match r {
            Component::Negation(rl) => lemma_downlevel_selectors_linguistics(list@, rl@, t),
            _ => (),
        },
        Component::Has(list) => match r {
            Component::Has(rl) => lemma_downlevel_selectors_linguistics(list@, rl@, t),
            _ => (),
        },
        Component::Any(_, list) => match r {
            Component::Any(_, rl) => lemma_downlevel_selectors_linguistics(list@, rl@, t),
            _ => (),
        },
        _ => (),
    }
}

/// Downleveling a component sequence leaves it free of unsupported
/// linguistic pseudo-classes.
proof fn lemma_downlevel_components_linguistics(a: Seq<Component>, b: Seq<Component>, t: Targets)
    requires
        downlevel_components_rel(a, b, t),
    ensures
        !t.dir_pseudo ==> components_dir_free(b),
        !t.lang_list ==> components_multi_lang_free(b),
    decreases crate::selector::component_seq_size(a), 1int,
{
    if a.len() > 0 {
        crate::selector::lemma_component_seq_size_ge(a, 0);
        lemma_downlevel_component_linguistics(a[0], b[0], t);
        lemma_downlevel_components_linguistics(a.drop_first(), b.drop_first(), t);
    }
}

/// Downleveling a selector sequence leaves it free of unsupported linguistic
/// pseudo-classes: no `:dir()` remains when the targets lack it, and no
/// multi-argument `:lang()` remains when the targets lack language lists,
/// anywhere the downleveler rewrites.
pub proof fn lemma_downlevel_selectors_linguistics(a: Seq<Selector>, b: Seq<Selector>, t: Targets)
    requires
        downlevel_selectors_rel(a, b, t),
    ensures
        !t.dir_pseudo ==> selectors_dir_free(b),
        !t.lang_list ==> selectors_multi_lang_free(b),
    decreases selector_seq_size(a), 2int,
{
    if a.len() > 0 {
        lemma_selector_seq_size_ge(a, 0);
        lemma_downlevel_components_linguistics(a[0].components@, b[0].components@, t);
        lemma_downlevel_selectors_linguistics(a.drop_first(), b.drop_first(), t);
    }
}

} // verus!
