//! Whole-list queries: the vendor prefix a selector list consistently uses,
//! and dead-code detection against a set of unused class and id names.

use vstd::prelude::*;
use crate::selector::{
    component_size, pseudo_class_size, pseudo_element_size, selector_seq_size,
    lemma_component_seq_size_ge, lemma_selector_seq_size_ge, Component, PseudoClass,
    PseudoElement, Selector, SelectorList,
};
use crate::targets::{PrefixFeature, Targets};
use crate::vendor_prefix::VendorPrefix;

verus! {

impl PseudoClass {
    /// The prefix a prefixable pseudo-class carries; empty for the rest.
    pub open spec fn spec_get_prefix(self) -> VendorPrefix {
        match self {
            PseudoClass::Fullscreen(p) => p,
            PseudoClass::AnyLink(p) => p,
            PseudoClass::ReadOnly(p) => p,
            PseudoClass::ReadWrite(p) => p,
            PseudoClass::PlaceholderShown(p) => p,
            PseudoClass::Autofill(p) => p,
            _ => VendorPrefix { none: false, webkit: false, moz: false, ms: false, o: false },
        }
    }

    /// The prefix this pseudo-class carries.
    pub fn get_prefix(&self) -> (r: VendorPrefix)
        ensures
            r == self.spec_get_prefix(),
    {
        match self {
            PseudoClass::Fullscreen(p) => *p,
            PseudoClass::AnyLink(p) => *p,
            PseudoClass::ReadOnly(p) => *p,
            PseudoClass::ReadWrite(p) => *p,
            PseudoClass::PlaceholderShown(p) => *p,
            PseudoClass::Autofill(p) => *p,
            _ => VendorPrefix::empty(),
        }
    }

    /// The prefixes the targets need for an unprefixed prefixable
    /// pseudo-class; empty for anything else.
    pub open spec fn spec_get_necessary_prefixes(self, targets: Targets) -> VendorPrefix {
        match self {
            PseudoClass::Fullscreen(p) => if p == VendorPrefix::spec_unprefixed() {
                PrefixFeature::PseudoClassFullscreen.spec_prefixes_for(targets)
            } else {
                VendorPrefix { none: false, webkit: false, moz: false, ms: false, o: false }
            },
            PseudoClass::AnyLink(p) => if p == VendorPrefix::spec_unprefixed() {
                PrefixFeature::PseudoClassAnyLink.spec_prefixes_for(targets)
            } else {
                VendorPrefix { none: false, webkit: false, moz: false, ms: false, o: false }
            },
            PseudoClass::ReadOnly(p) => if p == VendorPrefix::spec_unprefixed() {
                PrefixFeature::PseudoClassReadOnly.spec_prefixes_for(targets)
            } else {
                VendorPrefix { none: false, webkit: false, moz: false, ms: false, o: false }
            },
            PseudoClass::ReadWrite(p) => if p == VendorPrefix::spec_unprefixed() {
                PrefixFeature::PseudoClassReadWrite.spec_prefixes_for(targets)
            } else {
                VendorPrefix { none: false, webkit: false, moz: false, ms: false, o: false }
            },
            PseudoClass::PlaceholderShown(p) => if p == VendorPrefix::spec_unprefixed() {
                PrefixFeature::PseudoClassPlaceholderShown.spec_prefixes_for(targets)
            } else {
                VendorPrefix { none: false, webkit: false, moz: false, ms: false, o: false }
            },
            PseudoClass::Autofill(p) => if p == VendorPrefix::spec_unprefixed() {
                PrefixFeature::PseudoClassAutofill.spec_prefixes_for(targets)
            } else {
                VendorPrefix { none: false, webkit: false, moz: false, ms: false, o: false }
            },
            _ => VendorPrefix { none: false, webkit: false, moz: false, ms: false, o: false },
        }
    }

    /// The prefixes the targets need for this pseudo-class.
    pub fn get_necessary_prefixes(&self, targets: &Targets) -> (r: VendorPrefix)
        ensures
            r == self.spec_get_necessary_prefixes(*targets),
    {
        let feature: PrefixFeature = match self {
            PseudoClass::Fullscreen(p) => if *p == VendorPrefix::unprefixed() {
                PrefixFeature::PseudoClassFullscreen
            } else {
                return VendorPrefix::empty();
            },
            PseudoClass::AnyLink(p) => if *p == VendorPrefix::unprefixed() {
                PrefixFeature::PseudoClassAnyLink
            } else {
                return VendorPrefix::empty();
            },
            PseudoClass::ReadOnly(p) => if *p == VendorPrefix::unprefixed() {
                PrefixFeature::PseudoClassReadOnly
            } else {
                return VendorPrefix::empty();
            },
            PseudoClass::ReadWrite(p) => if *p == VendorPrefix::unprefixed() {
                PrefixFeature::PseudoClassReadWrite
            } else {
                return VendorPrefix::empty();
            },
            PseudoClass::PlaceholderShown(p) => if *p == VendorPrefix::unprefixed() {
                PrefixFeature::PseudoClassPlaceholderShown
            } else {
                return VendorPrefix::empty();
            },
            PseudoClass::Autofill(p) => if *p == VendorPrefix::unprefixed() {
                PrefixFeature::PseudoClassAutofill
            } else {
                return VendorPrefix::empty();
            },
            _ => {
                return VendorPrefix::empty();
            },
        };
        feature.prefixes_for(targets)
    }
}

impl PseudoElement {
    /// The prefix a prefixable pseudo-element carries; empty for the rest.
    pub open spec fn spec_get_prefix(self) -> VendorPrefix {
        match self {
            PseudoElement::Selection(p) => p,
            PseudoElement::Placeholder(p) => p,
            PseudoElement::Backdrop(p) => p,
            PseudoElement::FileSelectorButton(p) => p,
            _ => VendorPrefix { none: false, webkit: false, moz: false, ms: false, o: false },
        }
    }

    /// The prefix this pseudo-element carries.
    pub fn get_prefix(&self) -> (r: VendorPrefix)
        ensures
            r == self.spec_get_prefix(),
    {
        match self {
            PseudoElement::Selection(p) => *p,
            PseudoElement::Placeholder(p) => *p,
            PseudoElement::Backdrop(p) => *p,
            PseudoElement::FileSelectorButton(p) => *p,
            _ => VendorPrefix::empty(),
        }
    }

    /// The prefixes the targets need for an unprefixed prefixable
    /// pseudo-element; empty for anything else.
    pub open spec fn spec_get_necessary_prefixes(self, targets: Targets) -> VendorPrefix {
        match self {
            PseudoElement::Selection(p) => if p == VendorPrefix::spec_unprefixed() {
                PrefixFeature::PseudoElementSelection.spec_prefixes_for(targets)
            } else {
                VendorPrefix { none: false, webkit: false, moz: false, ms: false, o: false }
            },
            PseudoElement::Placeholder(p) => if p == VendorPrefix::spec_unprefixed() {
                PrefixFeature::PseudoElementPlaceholder.spec_prefixes_for(targets)
            } else {
                VendorPrefix { none: false, webkit: false, moz: false, ms: false, o: false }
            },
            PseudoElement::Backdrop(p) => if p == VendorPrefix::spec_unprefixed() {
                PrefixFeature::PseudoElementBackdrop.spec_prefixes_for(targets)
            } else {
                VendorPrefix { none: false, webkit: false, moz: false, ms: false, o: false }
            },
            PseudoElement::FileSelectorButton(p) => if p == VendorPrefix::spec_unprefixed() {
                PrefixFeature::PseudoElementFileSelectorButton.spec_prefixes_for(targets)
            } else {
                VendorPrefix { none: false, webkit: false, moz: false, ms: false, o: false }
            },
            _ => VendorPrefix { none: false, webkit: false, moz: false, ms: false, o: false },
        }
    }

    /// The prefixes the targets need for this pseudo-element.
    pub fn get_necessary_prefixes(&self, targets: &Targets) -> (r: VendorPrefix)
        ensures
            r == self.spec_get_necessary_prefixes(*targets),
    {
        let feature: PrefixFeature = match self {
            PseudoElement::Selection(p) => if *p == VendorPrefix::unprefixed() {
                PrefixFeature::PseudoElementSelection
            } else {
                return VendorPrefix::empty();
            },
            PseudoElement::Placeholder(p) => if *p == VendorPrefix::unprefixed() {
                PrefixFeature::PseudoElementPlaceholder
            } else {
                return VendorPrefix::empty();
            },
            PseudoElement::Backdrop(p) => if *p == VendorPrefix::unprefixed() {
                PrefixFeature::PseudoElementBackdrop
            } else {
                return VendorPrefix::empty();
            },
            PseudoElement::FileSelectorButton(p) => if *p == VendorPrefix::unprefixed() {
                PrefixFeature::PseudoElementFileSelectorButton
            } else {
                return VendorPrefix::empty();
            },
            _ => {
                return VendorPrefix::empty();
            },
        };
        feature.prefixes_for(targets)
    }
}

// ---------------------------------------------------------------------------
// The prefix a selector list consistently uses.
// ---------------------------------------------------------------------------

/// Whether a component forces downleveling to look inside it: the
/// list-bearing composites and the linguistic pseudo-classes.
pub open spec fn spec_is_list_bearing(c: Component) -> bool {
    match c {
        Component::Is(_) => true,
        Component::Where(_) => true,
        Component::Has(_) => true,
        Component::Negation(_) => true,
        Component::NonTSPseudoClass(pc) => match pc {
            PseudoClass::Lang { .. } => true,
            PseudoClass::Dir { .. } => true,
            _ => false,
        },
        _ => false,
    }
}

/// The prefix one component contributes: the unprefixed flag for the
/// list-bearing composites (so that downleveling still runs), the stored
/// prefix of `:-*-any()` and of the prefixable pseudos, nothing otherwise.
pub open spec fn spec_component_prefix(c: Component) -> VendorPrefix {
    if spec_is_list_bearing(c) {
        VendorPrefix::spec_unprefixed()
    } else {
        match c {
            Component::Any(p, _) => p,
            Component::NonTSPseudoClass(pc) => pc.spec_get_prefix(),
            Component::PseudoElement(pe) => pe.spec_get_prefix(),
            _ => VendorPrefix { none: false, webkit: false, moz: false, ms: false, o: false },
        }
    }
}

/// Fold one component's prefix into the accumulator: an empty contribution
/// keeps it, a first or matching contribution becomes it, and a mismatch
/// poisons the scan.
pub open spec fn spec_combine_prefix(acc: VendorPrefix, p: VendorPrefix) -> Option<VendorPrefix> {
    if p.spec_is_empty() {
        Some(acc)
    } else if acc.spec_is_empty() || acc == p {
        Some(p)
    } else {
        None
    }
}

/// Fold the prefixes of a component sequence.
pub open spec fn spec_scan_components(cs: Seq<Component>, acc: VendorPrefix) -> Option<
    VendorPrefix,
>
    decreases cs.len(),
{
    if cs.len() == 0 {
        Some(acc)
    } else {
        match spec_combine_prefix(acc, spec_component_prefix(cs[0])) {
            Some(a) => spec_scan_components(cs.drop_first(), a),
            None => None,
        }
    }
}

/// Fold the prefixes of a selector sequence.
pub open spec fn spec_scan_selectors(ss: Seq<Selector>, acc: VendorPrefix) -> Option<VendorPrefix>
    decreases ss.len(),
{
    if ss.len() == 0 {
        Some(acc)
    } else {
        match spec_scan_components(ss[0].components@, acc) {
            Some(a) => spec_scan_selectors(ss.drop_first(), a),
            None => None,
        }
    }
}

/// The single vendor prefix a selector list consistently uses; empty when
/// prefixes are mixed or none appears.
pub open spec fn spec_get_prefix(list: SelectorList) -> VendorPrefix {
    match spec_scan_selectors(
        list.selectors@,
        VendorPrefix { none: false, webkit: false, moz: false, ms: false, o: false },
    ) {
        Some(p) => p,
        None => VendorPrefix { none: false, webkit: false, moz: false, ms: false, o: false },
    }
}

/// The prefix one component contributes to [`get_prefix`].
pub fn component_prefix(c: &Component) -> (r: VendorPrefix)
    ensures
        r == spec_component_prefix(*c),
{
    match c {
        Component::Is(_) => VendorPrefix::unprefixed(),
        Component::Where(_) => VendorPrefix::unprefixed(),
        Component::Has(_) => VendorPrefix::unprefixed(),
        Component::Negation(_) => VendorPrefix::unprefixed(),
        Component::NonTSPseudoClass(pc) => match pc {
            PseudoClass::Lang { .. } => VendorPrefix::unprefixed(),
            PseudoClass::Dir { .. } => VendorPrefix::unprefixed(),
            _ => pc.get_prefix(),
        },
        Component::Any(p, _) => *p,
        Component::PseudoElement(pe) => pe.get_prefix(),
        _ => VendorPrefix::empty(),
    }
}

/// The vendor prefix consistently used in the given selector list. When two
/// different prefixes are seen, the result is empty.
pub fn get_prefix(selectors: &SelectorList) -> (r: VendorPrefix)
    ensures
        r == spec_get_prefix(*selectors),
{
    let ghost ss = selectors.selectors@;
    let ghost init = VendorPrefix { none: false, webkit: false, moz: false, ms: false, o: false };
    let mut acc = VendorPrefix::empty();
    let n = selectors.selectors.len();
    proof {
        assert(ss.skip(0) =~= ss);
    }
    let mut i: usize = 0;
    while i < n
        invariant
            i <= n,
            n == ss.len(),
            ss == selectors.selectors@,
            init == (VendorPrefix { none: false, webkit: false, moz: false, ms: false, o: false }),
            spec_scan_selectors(ss, init) == spec_scan_selectors(ss.skip(i as int), acc),
        decreases n - i,
    {
        proof {
            assert(ss.skip(i as int)[0] == ss[i as int]);
            assert(ss.skip(i as int).drop_first() =~= ss.skip(i + 1 as int));
        }
        let sel = &selectors.selectors[i];
        let m = sel.components.len();
        proof {
            assert(sel.components@.skip(0) =~= sel.components@);
        }
        let mut k: usize = 0;
        while k < m
            invariant
                k <= m,
                m == sel.components@.len(),
                i < n,
                n == ss.len(),
                ss == selectors.selectors@,
                *sel == ss[i as int],
                init == (VendorPrefix {
                    none: false,
                    webkit: false,
                    moz: false,
                    ms: false,
                    o: false,
                }),
                spec_scan_selectors(ss, init) == (match spec_scan_components(
                    sel.components@.skip(k as int),
                    acc,
                ) {
                    Some(a) => spec_scan_selectors(ss.skip(i + 1 as int), a),
                    None => None::<VendorPrefix>,
                }),
            decreases m - k,
        {
            proof {
                assert(sel.components@.skip(k as int)[0] == sel.components@[k as int]);
                assert(sel.components@.skip(k as int).drop_first() =~= sel.components@.skip(
                    k + 1 as int,
                ));
            }
            let p = component_prefix(&sel.components[k]);
            if !p.is_empty() {
                if acc.is_empty() || acc == p {
                    acc = p;
                } else {
                    proof {
                        assert(spec_scan_components(sel.components@.skip(k as int), acc)
                            is None);
                        assert(spec_scan_selectors(ss, init) is None);
                    }
                    return VendorPrefix::empty();
                }
            }
            k = k + 1;
        }
        proof {
            assert(sel.components@.skip(m as int) =~= Seq::<Component>::empty());
        }
        i = i + 1;
    }
    proof {
        assert(ss.skip(n as int) =~= Seq::<Selector>::empty());
    }
    acc
}

// ---------------------------------------------------------------------------
// Dead-code detection.
// ---------------------------------------------------------------------------

/// Whether a name occurs among the unused symbols.
pub open spec fn spec_symbol_unused(name: String, symbols: Seq<String>) -> bool {
    exists|i: int| 0 <= i < symbols.len() && (#[trigger] symbols[i])@ == name@
}

/// Whether one component marks its selector as unused: an unused class or
/// id, a list-bearing pseudo all of whose branches are unused, or the
/// nesting selector under an unused parent.
pub open spec fn spec_component_unused(
    c: Component,
    symbols: Seq<String>,
    parent_is_unused: bool,
) -> bool
    decreases component_size(c), 0int,
{
    match c {
        Component::Class(name) => spec_symbol_unused(name, symbols),
        Component::ID(name) => spec_symbol_unused(name, symbols),
        Component::Is(list) => spec_selectors_all_unused(list@, symbols, parent_is_unused),
        Component::Where(list) => spec_selectors_all_unused(list@, symbols, parent_is_unused),
        Component::Any(_, list) => spec_selectors_all_unused(list@, symbols, parent_is_unused),
        Component::Nesting => parent_is_unused,
        _ => false,
    }
}

/// Whether some component of the sequence marks the selector as unused.
pub open spec fn spec_components_any_unused(
    cs: Seq<Component>,
    symbols: Seq<String>,
    parent_is_unused: bool,
) -> bool
    decreases crate::selector::component_seq_size(cs), 1int,
        via spec_components_any_unused_decreases
{
    if cs.len() == 0 {
        false
    } else {
        spec_component_unused(cs[0], symbols, parent_is_unused) || spec_components_any_unused(
            cs.drop_first(),
            symbols,
            parent_is_unused,
        )
    }
}

#[via_fn]
proof fn spec_components_any_unused_decreases(
    cs: Seq<Component>,
    symbols: Seq<String>,
    parent_is_unused: bool,
) {
    if cs.len() > 0 {
        lemma_component_seq_size_ge(cs, 0);
    }
}

/// Whether every selector of the sequence is unused.
pub open spec fn spec_selectors_all_unused(
    ss: Seq<Selector>,
    symbols: Seq<String>,
    parent_is_unused: bool,
) -> bool
    decreases selector_seq_size(ss), 2int,
        via spec_selectors_all_unused_decreases
{
    if ss.len() == 0 {
        true
    } else {
        spec_components_any_unused(ss[0].components@, symbols, parent_is_unused)
            && spec_selectors_all_unused(ss.drop_first(), symbols, parent_is_unused)
    }
}

#[via_fn]
proof fn spec_selectors_all_unused_decreases(
    ss: Seq<Selector>,
    symbols: Seq<String>,
    parent_is_unused: bool,
) {
    if ss.len() > 0 {
        lemma_selector_seq_size_ge(ss, 0);
    }
}

/// Whether a selector list consists only of unused selectors: with a
/// non-empty symbol set, every branch holds an unused class or id (recursing
/// into `:is()`, `:where()` and `:-*-any()`, and counting `&` as the parent's
/// flag).
pub open spec fn spec_is_unused(
    ss: Seq<Selector>,
    symbols: Seq<String>,
    parent_is_unused: bool,
) -> bool {
    if symbols.len() == 0 {
        false
    } else {
        spec_selectors_all_unused(ss, symbols, parent_is_unused)
    }
}

/// Whether a name occurs among the unused symbols.
fn symbol_unused(name: &String, symbols: &Vec<String>) -> (r: bool)
    ensures
        r == spec_symbol_unused(*name, symbols@),
{
    let n = symbols.len();
    let mut i: usize = 0;
    while i < n
        invariant
            i <= n,
            n == symbols@.len(),
            forall|k: int| 0 <= k < i ==> (#[trigger] symbols@[k])@ != name@,
        decreases n - i,
    {
        if symbols[i].eq(name) {
            return true;
        }
        i = i + 1;
    }
    false
}

/// Whether one component marks its selector as unused.
fn component_unused(
    c: &Component,
    symbols: &Vec<String>,
    parent_is_unused: bool,
) -> (r: bool)
    ensures
        r == spec_component_unused(*c, symbols@, parent_is_unused),
    decreases component_size(*c), 0int,
{
    match c {
        Component::Class(name) => symbol_unused(name, symbols),
        Component::ID(name) => symbol_unused(name, symbols),
        Component::Is(list) => selectors_all_unused(list, symbols, parent_is_unused),
        Component::Where(list) => selectors_all_unused(list, symbols, parent_is_unused),
        Component::Any(_, list) => selectors_all_unused(list, symbols, parent_is_unused),
        Component::Nesting => parent_is_unused,
        _ => false,
    }
}

/// Whether every selector of the vector is unused.
fn selectors_all_unused(
    list: &Vec<Selector>,
    symbols: &Vec<String>,
    parent_is_unused: bool,
) -> (r: bool)
    ensures
        r == spec_selectors_all_unused(list@, symbols@, parent_is_unused),
    decreases selector_seq_size(list@), 2int,
{
    let n = list.len();
    proof {
        assert(list@.skip(0) =~= list@);
    }
    let mut i: usize = 0;
    while i < n
        invariant
            i <= n,
            n == list@.len(),
            spec_selectors_all_unused(list@, symbols@, parent_is_unused)
                == spec_selectors_all_unused(list@.skip(i as int), symbols@, parent_is_unused),
        decreases n - i,
    {
        proof {
            assert(list@.skip(i as int)[0] == list@[i as int]);
            assert(list@.skip(i as int).drop_first() =~= list@.skip(i + 1 as int));
        }
        let sel = &list[i];
        let m = sel.components.len();
        proof {
            assert(sel.components@.skip(0) =~= sel.components@);
        }
        let mut found = false;
        let mut k: usize = 0;
        while k < m && !found
            invariant
                k <= m,
                m == sel.components@.len(),
                i < n,
                n == list@.len(),
                *sel == list@[i as int],
                spec_selectors_all_unused(list@, symbols@, parent_is_unused)
                    == spec_selectors_all_unused(list@.skip(i as int), symbols@, parent_is_unused),
                found ==> spec_components_any_unused(
                    sel.components@,
                    symbols@,
                    parent_is_unused,
                ),
                !found ==> spec_components_any_unused(sel.components@, symbols@, parent_is_unused)
                    == spec_components_any_unused(
                    sel.components@.skip(k as int),
                    symbols@,
                    parent_is_unused,
                ),
            decreases m - k, (if found {
                0int
            } else {
                1int
            }),
        {
            proof {
                assert(sel.components@.skip(k as int)[0] == sel.components@[k as int]);
                assert(sel.components@.skip(k as int).drop_first() =~= sel.components@.skip(
                    k + 1 as int,
                ));
                lemma_component_seq_size_ge(sel.components@, k as int);
                lemma_selector_seq_size_ge(list@, i as int);
            }
            if component_unused(&sel.components[k], symbols, parent_is_unused) {
                found = true;
            } else {
                k = k + 1;
            }
        }
        if !found {
            proof {
                assert(k == m);
                assert(sel.components@.skip(m as int) =~= Seq::<Component>::empty());
                assert(!spec_components_any_unused(sel.components@, symbols@, parent_is_unused));
                assert(list@.skip(i as int)[0] == *sel);
            }
            return false;
        }
        proof {
            assert(list@.skip(i as int)[0] == *sel);
            assert(list@.skip(i as int).drop_first() =~= list@.skip(i + 1 as int));
        }
        i = i + 1;
    }
    proof {
        assert(list@.skip(n as int) =~= Seq::<Selector>::empty());
    }
    true
}

/// Whether a selector list consists only of unused selectors: every branch
/// holds a class or id from the unused-symbol set, looking through `:is()`,
/// `:where()` and `:-*-any()`, and treating `&` as the parent's flag. An
/// empty symbol set marks nothing unused.
pub fn is_unused(
    selectors: &Vec<Selector>,
    unused_symbols: &Vec<String>,
    parent_is_unused: bool,
) -> (r: bool)
    ensures
        r == spec_is_unused(selectors@, unused_symbols@, parent_is_unused),
{
    if unused_symbols.len() == 0 {
        return false;
    }
    selectors_all_unused(selectors, unused_symbols, parent_is_unused)
}

// ---------------------------------------------------------------------------
// The prefix scan is forced to the unprefixed flag by list-bearing parts.
// ---------------------------------------------------------------------------

/// A scan that starts at the unprefixed flag can only keep it or fail.
proof fn lemma_scan_components_unprefixed(cs: Seq<Component>)
    ensures
        spec_scan_components(cs, VendorPrefix::spec_unprefixed()) == Some(
            VendorPrefix::spec_unprefixed(),
        ) || spec_scan_components(cs, VendorPrefix::spec_unprefixed()) is None,
    decreases cs.len(),
{
    if cs.len() > 0 {
        lemma_scan_components_unprefixed(cs.drop_first());
    }
}

/// A selector scan that starts at the unprefixed flag can only keep it or
/// fail.
proof fn lemma_scan_selectors_unprefixed(ss: Seq<Selector>)
    ensures
        spec_scan_selectors(ss, VendorPrefix::spec_unprefixed()) == Some(
            VendorPrefix::spec_unprefixed(),
        ) || spec_scan_selectors(ss, VendorPrefix::spec_unprefixed()) is None,
    decreases ss.len(),
{
    if ss.len() > 0 {
        lemma_scan_components_unprefixed(ss[0].components@);
        lemma_scan_selectors_unprefixed(ss.drop_first());
    }
}

/// A component scan that passes a list-bearing component ends at the
/// unprefixed flag or fails.
proof fn lemma_scan_components_list_bearing(cs: Seq<Component>, k: int, acc: VendorPrefix)
    requires
        0 <= k < cs.len(),
        spec_is_list_bearing(cs[k]),
    ensures
        spec_scan_components(cs, acc) == Some(VendorPrefix::spec_unprefixed())
            || spec_scan_components(cs, acc) is None,
    decreases cs.len(),
{
    if k == 0 {
        match spec_combine_prefix(acc, spec_component_prefix(cs[0])) {
            Some(a) => {
                assert(a == VendorPrefix::spec_unprefixed());
                lemma_scan_components_unprefixed(cs.drop_first());
            },
            None => (),
        }
    } else {
        match spec_combine_prefix(acc, spec_component_prefix(cs[0])) {
            Some(a) => {
                lemma_scan_components_list_bearing(cs.drop_first(), k - 1, a);
            },
            None => (),
        }
    }
}

/// A selector scan over a list with a list-bearing component ends at the
/// unprefixed flag or fails.
proof fn lemma_scan_selectors_list_bearing(
    ss: Seq<Selector>,
    i: int,
    k: int,
    acc: VendorPrefix,
)
    requires
        0 <= i < ss.len(),
        0 <= k < ss[i].components@.len(),
        spec_is_list_bearing(ss[i].components@[k]),
    ensures
        spec_scan_selectors(ss, acc) == Some(VendorPrefix::spec_unprefixed())
            || spec_scan_selectors(ss, acc) is None,
    decreases ss.len(),
{
    if i == 0 {
        lemma_scan_components_list_bearing(ss[0].components@, k, acc);
        match spec_scan_components(ss[0].components@, acc) {
            Some(a) => {
                lemma_scan_selectors_unprefixed(ss.drop_first());
            },
            None => (),
        }
    } else {
        match spec_scan_components(ss[0].components@, acc) {
            Some(a) => {
                lemma_scan_selectors_list_bearing(ss.drop_first(), i - 1, k, a);
            },
            None => (),
        }
    }
}

/// When a selector list holds any list-bearing composite (`:is()`,
/// `:where()`, `:has()`, `:not()`) or a `:lang()` / `:dir()` pseudo-class,
/// [`get_prefix`] returns the unprefixed flag or the empty set, so that
/// downleveling is not skipped.
pub proof fn lemma_get_prefix_forced_by_list_bearing(list: SelectorList, i: int, k: int)
    requires
        0 <= i < list.selectors@.len(),
        0 <= k < list.selectors@[i].components@.len(),
        spec_is_list_bearing(list.selectors@[i].components@[k]),
    ensures
        spec_get_prefix(list) == VendorPrefix::spec_unprefixed() || spec_get_prefix(
            list,
        ).spec_is_empty(),
{
    lemma_scan_selectors_list_bearing(
        list.selectors@,
        i,
        k,
        VendorPrefix { none: false, webkit: false, moz: false, ms: false, o: false },
    );
}

} // verus!
