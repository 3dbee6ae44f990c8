//! Structural equality of selector trees, and equivalence modulo vendor
//! prefixes on prefixable pseudos. The stylesheet engine uses equivalence to
//! merge prefixed duplicates of a rule.
//!
//! Equality is textual: identifiers compare by their characters, nested lists
//! element by element.

use vstd::prelude::*;
use crate::selector::{
    component_size, pseudo_class_size, pseudo_element_size, selector_seq_size, selector_size,
    lemma_selector_seq_size_ge, AttrSelectorOperation, NamespaceConstraint, Component,
    PseudoClass, PseudoElement, Selector, SelectorList,
};

verus! {

/// The characters of each string of a sequence.
pub open spec fn string_seq_view(ss: Seq<String>) -> Seq<Seq<char>> {
    ss.map_values(|s: String| s@)
}

/// Equality of namespace constraints, by characters.
pub open spec fn ns_constraint_eq(
    a: Option<NamespaceConstraint>,
    b: Option<NamespaceConstraint>,
) -> bool {
    match (a, b) {
        (None, None) => true,
        (Some(NamespaceConstraint::Any), Some(NamespaceConstraint::Any)) => true,
        (
            Some(NamespaceConstraint::Specific(p1, u1)),
            Some(NamespaceConstraint::Specific(p2, u2)),
        ) => p1@ == p2@ && u1@ == u2@,
        _ => false,
    }
}

/// Equality of attribute operations, by characters.
pub open spec fn attr_operation_eq(a: AttrSelectorOperation, b: AttrSelectorOperation) -> bool {
    match (a, b) {
        (AttrSelectorOperation::Exists, AttrSelectorOperation::Exists) => true,
        (
            AttrSelectorOperation::WithValue { operator: o1, case_sensitivity: c1, value: v1 },
            AttrSelectorOperation::WithValue { operator: o2, case_sensitivity: c2, value: v2 },
        ) => o1 == o2 && c1 == c2 && v1@ == v2@,
        _ => false,
    }
}

/// Structural equality of pseudo-classes.
pub open spec fn pseudo_class_eq(a: PseudoClass, b: PseudoClass) -> bool
    decreases pseudo_class_size(a), 0int,
{
    match (a, b) {
        (PseudoClass::Lang { languages: x }, PseudoClass::Lang { languages: y }) => {
            string_seq_view(x@) == string_seq_view(y@)
        },
        (PseudoClass::Dir { direction: x }, PseudoClass::Dir { direction: y }) => x == y,
        (PseudoClass::Hover, PseudoClass::Hover) => true,
        (PseudoClass::Active, PseudoClass::Active) => true,
        (PseudoClass::Focus, PseudoClass::Focus) => true,
        (PseudoClass::FocusVisible, PseudoClass::FocusVisible) => true,
        (PseudoClass::FocusWithin, PseudoClass::FocusWithin) => true,
        (PseudoClass::Current, PseudoClass::Current) => true,
        (PseudoClass::Past, PseudoClass::Past) => true,
        (PseudoClass::Future, PseudoClass::Future) => true,
        (PseudoClass::Playing, PseudoClass::Playing) => true,
        (PseudoClass::Paused, PseudoClass::Paused) => true,
        (PseudoClass::Seeking, PseudoClass::Seeking) => true,
        (PseudoClass::Buffering, PseudoClass::Buffering) => true,
        (PseudoClass::Stalled, PseudoClass::Stalled) => true,
        (PseudoClass::Muted, PseudoClass::Muted) => true,
        (PseudoClass::VolumeLocked, PseudoClass::VolumeLocked) => true,
        (PseudoClass::Fullscreen(x), PseudoClass::Fullscreen(y)) => x == y,
        (PseudoClass::Defined, PseudoClass::Defined) => true,
        (PseudoClass::AnyLink(x), PseudoClass::AnyLink(y)) => x == y,
        (PseudoClass::Link, PseudoClass::Link) => true,
        (PseudoClass::LocalLink, PseudoClass::LocalLink) => true,
        (PseudoClass::Target, PseudoClass::Target) => true,
        (PseudoClass::TargetWithin, PseudoClass::TargetWithin) => true,
        (PseudoClass::Visited, PseudoClass::Visited) => true,
        (PseudoClass::Enabled, PseudoClass::Enabled) => true,
        (PseudoClass::Disabled, PseudoClass::Disabled) => true,
        (PseudoClass::ReadOnly(x), PseudoClass::ReadOnly(y)) => x == y,
        (PseudoClass::ReadWrite(x), PseudoClass::ReadWrite(y)) => x == y,
        (PseudoClass::PlaceholderShown(x), PseudoClass::PlaceholderShown(y)) => x == y,
        (PseudoClass::Default, PseudoClass::Default) => true,
        (PseudoClass::Checked, PseudoClass::Checked) => true,
        (PseudoClass::Indeterminate, PseudoClass::Indeterminate) => true,
        (PseudoClass::Blank, PseudoClass::Blank) => true,
        (PseudoClass::Valid, PseudoClass::Valid) => true,
        (PseudoClass::Invalid, PseudoClass::Invalid) => true,
        (PseudoClass::InRange, PseudoClass::InRange) => true,
        (PseudoClass::OutOfRange, PseudoClass::OutOfRange) => true,
        (PseudoClass::Required, PseudoClass::Required) => true,
        (PseudoClass::Optional, PseudoClass::Optional) => true,
        (PseudoClass::UserValid, PseudoClass::UserValid) => true,
        (PseudoClass::UserInvalid, PseudoClass::UserInvalid) => true,
        (PseudoClass::Autofill(x), PseudoClass::Autofill(y)) => x == y,
        (PseudoClass::Local { selector: x }, PseudoClass::Local { selector: y }) => {
            selector_eq(*x, *y)
        },
        (PseudoClass::Global { selector: x }, PseudoClass::Global { selector: y }) => {
            selector_eq(*x, *y)
        },
        (PseudoClass::WebKitScrollbar(x), PseudoClass::WebKitScrollbar(y)) => x == y,
        (PseudoClass::Custom { name: x }, PseudoClass::Custom { name: y }) => x@ == y@,
        (
            PseudoClass::CustomFunction { name: x, arguments: ax },
            PseudoClass::CustomFunction { name: y, arguments: ay },
        ) => x@ == y@ && ax@ == ay@,
        _ => false,
    }
}

/// Structural equality of pseudo-elements.
pub open spec fn pseudo_element_eq(a: PseudoElement, b: PseudoElement) -> bool
    decreases pseudo_element_size(a), 0int,
{
    match (a, b) {
        (PseudoElement::After, PseudoElement::After) => true,
        (PseudoElement::Before, PseudoElement::Before) => true,
        (PseudoElement::FirstLine, PseudoElement::FirstLine) => true,
        (PseudoElement::FirstLetter, PseudoElement::FirstLetter) => true,
        (PseudoElement::Selection(x), PseudoElement::Selection(y)) => x == y,
        (PseudoElement::Placeholder(x), PseudoElement::Placeholder(y)) => x == y,
        (PseudoElement::Marker, PseudoElement::Marker) => true,
        (PseudoElement::Backdrop(x), PseudoElement::Backdrop(y)) => x == y,
        (PseudoElement::FileSelectorButton(x), PseudoElement::FileSelectorButton(y)) => x == y,
        (PseudoElement::WebKitScrollbar(x), PseudoElement::WebKitScrollbar(y)) => x == y,
        (PseudoElement::Cue, PseudoElement::Cue) => true,
        (PseudoElement::CueRegion, PseudoElement::CueRegion) => true,
        (
            PseudoElement::CueFunction { selector: x },
            PseudoElement::CueFunction { selector: y },
        ) => selector_eq(*x, *y),
        (
            PseudoElement::CueRegionFunction { selector: x },
            PseudoElement::CueRegionFunction { selector: y },
        ) => selector_eq(*x, *y),
        (PseudoElement::Custom { name: x }, PseudoElement::Custom { name: y }) => x@ == y@,
        (
            PseudoElement::CustomFunction { name: x, arguments: ax },
            PseudoElement::CustomFunction { name: y, arguments: ay },
        ) => x@ == y@ && ax@ == ay@,
        _ => false,
    }
}

/// Structural equality of components.
pub open spec fn component_eq(a: Component, b: Component) -> bool
    decreases component_size(a), 0int,
{
    match (a, b) {
        (Component::Combinator(x), Component::Combinator(y)) => x == y,
        (Component::ExplicitAnyNamespace, Component::ExplicitAnyNamespace) => true,
        (Component::ExplicitNoNamespace, Component::ExplicitNoNamespace) => true,
        (Component::DefaultNamespace(x), Component::DefaultNamespace(y)) => x@ == y@,
        (Component::Namespace(p1, u1), Component::Namespace(p2, u2)) => p1@ == p2@ && u1@ == u2@,
        (Component::ExplicitUniversalType, Component::ExplicitUniversalType) => true,
        (Component::LocalName(x), Component::LocalName(y)) => x@ == y@,
        (Component::ID(x), Component::ID(y)) => x@ == y@,
        (Component::Class(x), Component::Class(y)) => x@ == y@,
        (
            Component::AttributeInNoNamespaceExists { local_name: x },
            Component::AttributeInNoNamespaceExists { local_name: y },
        ) => x@ == y@,
        (
            Component::AttributeInNoNamespace {
                local_name: n1,
                operator: o1,
                value: v1,
                case_sensitivity: c1,
            },
            Component::AttributeInNoNamespace {
                local_name: n2,
                operator: o2,
                value: v2,
                case_sensitivity: c2,
            },
        ) => n1@ == n2@ && o1 == o2 && v1@ == v2@ && c1 == c2,
        (
            Component::AttributeOther { namespace: ns1, local_name: n1, operation: op1 },
            Component::AttributeOther { namespace: ns2, local_name: n2, operation: op2 },
        ) => ns_constraint_eq(ns1, ns2) && n1@ == n2@ && attr_operation_eq(op1, op2),
        (Component::FirstChild, Component::FirstChild) => true,
        (Component::LastChild, Component::LastChild) => true,
        (Component::OnlyChild, Component::OnlyChild) => true,
        (Component::Root, Component::Root) => true,
        (Component::Empty, Component::Empty) => true,
        (Component::Scope, Component::Scope) => true,
        (Component::FirstOfType, Component::FirstOfType) => true,
        (Component::LastOfType, Component::LastOfType) => true,
        (Component::OnlyOfType, Component::OnlyOfType) => true,
        (Component::NthChild(a1, b1), Component::NthChild(a2, b2)) => a1 == a2 && b1 == b2,
        (Component::NthLastChild(a1, b1), Component::NthLastChild(a2, b2)) => a1 == a2 && b1
            == b2,
        (Component::NthOfType(a1, b1), Component::NthOfType(a2, b2)) => a1 == a2 && b1 == b2,
        (Component::NthLastOfType(a1, b1), Component::NthLastOfType(a2, b2)) => a1 == a2 && b1
            == b2,
        (Component::NthCol(a1, b1), Component::NthCol(a2, b2)) => a1 == a2 && b1 == b2,
        (Component::NthLastCol(a1, b1), Component::NthLastCol(a2, b2)) => a1 == a2 && b1 == b2,
        (Component::NonTSPseudoClass(x), Component::NonTSPseudoClass(y)) => pseudo_class_eq(x, y),
        (Component::PseudoElement(x), Component::PseudoElement(y)) => pseudo_element_eq(x, y),
        (Component::Negation(x), Component::Negation(y)) => selector_list_eq(x@, y@),
        (Component::Is(x), Component::Is(y)) => selector_list_eq(x@, y@),
        (Component::Where(x), Component::Where(y)) => selector_list_eq(x@, y@),
        (Component::Has(x), Component::Has(y)) => selector_list_eq(x@, y@),
        (Component::Any(p1, x), Component::Any(p2, y)) => p1 == p2 && selector_list_eq(x@, y@),
        (Component::Slotted(x), Component::Slotted(y)) => selector_eq(*x, *y),
        (Component::Part(x), Component::Part(y)) => string_seq_view(x@) == string_seq_view(y@),
        (Component::Host(x), Component::Host(y)) => match (x, y) {
            (None, None) => true,
            (Some(sx), Some(sy)) => selector_eq(*sx, *sy),
            _ => false,
        },
        (Component::Nesting, Component::Nesting) => true,
        _ => false,
    }
}

/// Structural equality of component sequences.
pub open spec fn component_list_eq(a: Seq<Component>, b: Seq<Component>) -> bool
    decreases crate::selector::component_seq_size(a), 1int,
        via component_list_eq_decreases
{
    if a.len() != b.len() {
        false
    } else if a.len() == 0 {
        true
    } else {
        component_eq(a[0], b[0]) && component_list_eq(a.drop_first(), b.drop_first())
    }
}

/// Structural equality of selectors.
pub open spec fn selector_eq(a: Selector, b: Selector) -> bool
    decreases selector_size(a), 2int,
{
    component_list_eq(a.components@, b.components@)
}

/// Structural equality of selector sequences.
pub open spec fn selector_list_eq(a: Seq<Selector>, b: Seq<Selector>) -> bool
    decreases selector_seq_size(a), 3int,
        via selector_list_eq_decreases
{
    if a.len() != b.len() {
        false
    } else if a.len() == 0 {
        true
    } else {
        selector_eq(a[0], b[0]) && selector_list_eq(a.drop_first(), b.drop_first())
    }
}

/// Equivalence of pseudo-classes: prefixable pairs match regardless of their
/// prefixes; anything else must be equal.
pub open spec fn pseudo_class_equivalent(a: PseudoClass, b: PseudoClass) -> bool {
    match (a, b) {
        (PseudoClass::Fullscreen(_), PseudoClass::Fullscreen(_)) => true,
        (PseudoClass::AnyLink(_), PseudoClass::AnyLink(_)) => true,
        (PseudoClass::ReadOnly(_), PseudoClass::ReadOnly(_)) => true,
        (PseudoClass::ReadWrite(_), PseudoClass::ReadWrite(_)) => true,
        (PseudoClass::PlaceholderShown(_), PseudoClass::PlaceholderShown(_)) => true,
        (PseudoClass::Autofill(_), PseudoClass::Autofill(_)) => true,
        _ => pseudo_class_eq(a, b),
    }
}

/// Equivalence of pseudo-elements: prefixable pairs match regardless of
/// their prefixes; anything else must be equal.
pub open spec fn pseudo_element_equivalent(a: PseudoElement, b: PseudoElement) -> bool {
    match (a, b) {
        (PseudoElement::Selection(_), PseudoElement::Selection(_)) => true,
        (PseudoElement::Placeholder(_), PseudoElement::Placeholder(_)) => true,
        (PseudoElement::Backdrop(_), PseudoElement::Backdrop(_)) => true,
        (PseudoElement::FileSelectorButton(_), PseudoElement::FileSelectorButton(_)) => true,
        _ => pseudo_element_eq(a, b),
    }
}

/// Equivalence of components: pseudo pairs compare prefix-insensitively,
/// everything else structurally.
pub open spec fn component_equivalent(a: Component, b: Component) -> bool {
    match (a, b) {
        (Component::NonTSPseudoClass(x), Component::NonTSPseudoClass(y)) => {
            pseudo_class_equivalent(x, y)
        },
        (Component::PseudoElement(x), Component::PseudoElement(y)) => {
            pseudo_element_equivalent(x, y)
        },
        _ => component_eq(a, b),
    }
}

/// Componentwise equivalence of two component sequences of equal length.
pub open spec fn components_equivalent(a: Seq<Component>, b: Seq<Component>) -> bool
    decreases a.len(),
{
    if a.len() != b.len() {
        false
    } else if a.len() == 0 {
        true
    } else {
        component_equivalent(a[0], b[0]) && components_equivalent(a.drop_first(), b.drop_first())
    }
}

/// Branchwise equivalence of two selector sequences of equal length.
pub open spec fn selectors_equivalent(a: Seq<Selector>, b: Seq<Selector>) -> bool
    decreases a.len(),
{
    if a.len() != b.len() {
        false
    } else if a.len() == 0 {
        true
    } else {
        components_equivalent(a[0].components@, b[0].components@) && selectors_equivalent(
            a.drop_first(),
            b.drop_first(),
        )
    }
}

/// Whether two selector lists are the same selector, apart from vendor
/// prefixes carried by prefixable pseudo-classes and pseudo-elements.
pub open spec fn spec_is_equivalent(a: SelectorList, b: SelectorList) -> bool {
    selectors_equivalent(a.selectors@, b.selectors@)
}

#[via_fn]
proof fn component_list_eq_decreases(a: Seq<Component>, b: Seq<Component>) {
    if a.len() > 0 {
        crate::selector::lemma_component_seq_size_ge(a, 0);
    }
}

#[via_fn]
proof fn selector_list_eq_decreases(a: Seq<Selector>, b: Seq<Selector>) {
    if a.len() > 0 {
        lemma_selector_seq_size_ge(a, 0);
    }
}


// ---------------------------------------------------------------------------
// Executable comparisons.
// ---------------------------------------------------------------------------

/// Whether two string vectors hold the same characters, elementwise.
pub fn string_vecs_eq(a: &Vec<String>, b: &Vec<String>) -> (r: bool)
    ensures
        r == (string_seq_view(a@) == string_seq_view(b@)),
{
    let n = a.len();
    if n != b.len() {
        proof {
            assert(string_seq_view(a@).len() == a@.len());
            assert(string_seq_view(b@).len() == b@.len());
        }
        return false;
    }
    let mut i: usize = 0;
    while i < n
        invariant
            i <= n,
            n == a@.len(),
            n == b@.len(),
            forall|k: int| 0 <= k < i ==> a@[k]@ == b@[k]@,
        decreases n - i,
    {
        if !(a[i].eq(&b[i])) {
            proof {
                assert(string_seq_view(a@)[i as int] == a@[i as int]@);
                assert(string_seq_view(b@)[i as int] == b@[i as int]@);
            }
            return false;
        }
        i = i + 1;
    }
    proof {
        assert(string_seq_view(a@) =~= string_seq_view(b@));
    }
    true
}

impl PseudoClass {
    /// Whether two pseudo-classes are equivalent: equal apart from the
    /// vendor prefix of a prefixable pair.
    #[verifier::rlimit(100)]
    pub fn is_equivalent(&self, other: &PseudoClass) -> (r: bool)
        ensures
            r == pseudo_class_equivalent(*self, *other),
        decreases pseudo_class_size(*self), 3int,
    {
        match (self, other) {
            (PseudoClass::Fullscreen(_), PseudoClass::Fullscreen(_)) => true,
            (PseudoClass::AnyLink(_), PseudoClass::AnyLink(_)) => true,
            (PseudoClass::ReadOnly(_), PseudoClass::ReadOnly(_)) => true,
            (PseudoClass::ReadWrite(_), PseudoClass::ReadWrite(_)) => true,
            (PseudoClass::PlaceholderShown(_), PseudoClass::PlaceholderShown(_)) => true,
            (PseudoClass::Autofill(_), PseudoClass::Autofill(_)) => true,
            (PseudoClass::Lang { languages: x }, PseudoClass::Lang { languages: y }) => {
                string_vecs_eq(x, y)
            },
            (PseudoClass::Dir { direction: x }, PseudoClass::Dir { direction: y }) => x == y,
            (PseudoClass::Hover, PseudoClass::Hover) => true,
            (PseudoClass::Active, PseudoClass::Active) => true,
            (PseudoClass::Focus, PseudoClass::Focus) => true,
            (PseudoClass::FocusVisible, PseudoClass::FocusVisible) => true,
            (PseudoClass::FocusWithin, PseudoClass::FocusWithin) => true,
            (PseudoClass::Current, PseudoClass::Current) => true,
            (PseudoClass::Past, PseudoClass::Past) => true,
            (PseudoClass::Future, PseudoClass::Future) => true,
            (PseudoClass::Playing, PseudoClass::Playing) => true,
            (PseudoClass::Paused, PseudoClass::Paused) => true,
            (PseudoClass::Seeking, PseudoClass::Seeking) => true,
            (PseudoClass::Buffering, PseudoClass::Buffering) => true,
            (PseudoClass::Stalled, PseudoClass::Stalled) => true,
            (PseudoClass::Muted, PseudoClass::Muted) => true,
            (PseudoClass::VolumeLocked, PseudoClass::VolumeLocked) => true,
            (PseudoClass::Defined, PseudoClass::Defined) => true,
            (PseudoClass::Link, PseudoClass::Link) => true,
            (PseudoClass::LocalLink, PseudoClass::LocalLink) => true,
            (PseudoClass::Target, PseudoClass::Target) => true,
            (PseudoClass::TargetWithin, PseudoClass::TargetWithin) => true,
            (PseudoClass::Visited, PseudoClass::Visited) => true,
            (PseudoClass::Enabled, PseudoClass::Enabled) => true,
            (PseudoClass::Disabled, PseudoClass::Disabled) => true,
            (PseudoClass::Default, PseudoClass::Default) => true,
            (PseudoClass::Checked, PseudoClass::Checked) => true,
            (PseudoClass::Indeterminate, PseudoClass::Indeterminate) => true,
            (PseudoClass::Blank, PseudoClass::Blank) => true,
            (PseudoClass::Valid, PseudoClass::Valid) => true,
            (PseudoClass::Invalid, PseudoClass::Invalid) => true,
            (PseudoClass::InRange, PseudoClass::InRange) => true,
            (PseudoClass::OutOfRange, PseudoClass::OutOfRange) => true,
            (PseudoClass::Required, PseudoClass::Required) => true,
            (PseudoClass::Optional, PseudoClass::Optional) => true,
            (PseudoClass::UserValid, PseudoClass::UserValid) => true,
            (PseudoClass::UserInvalid, PseudoClass::UserInvalid) => true,
            (PseudoClass::Local { selector: x }, PseudoClass::Local { selector: y }) => {
                x.structurally_equal(y)
            },
            (PseudoClass::Global { selector: x }, PseudoClass::Global { selector: y }) => {
                x.structurally_equal(y)
            },
            (PseudoClass::WebKitScrollbar(x), PseudoClass::WebKitScrollbar(y)) => x == y,
            (PseudoClass::Custom { name: x }, PseudoClass::Custom { name: y }) => *x == *y,
            (
                PseudoClass::CustomFunction { name: x, arguments: ax },
                PseudoClass::CustomFunction { name: y, arguments: ay },
            ) => *x == *y && *ax == *ay,
            _ => false,
        }
    }
}

impl PseudoElement {
    /// Whether two pseudo-elements are equivalent: equal apart from the
    /// vendor prefix of a prefixable pair.
    #[verifier::rlimit(100)]
    pub fn is_equivalent(&self, other: &PseudoElement) -> (r: bool)
        ensures
            r == pseudo_element_equivalent(*self, *other),
        decreases pseudo_element_size(*self), 3int,
    {
        match (self, other) {
            (PseudoElement::Selection(_), PseudoElement::Selection(_)) => true,
            (PseudoElement::Placeholder(_), PseudoElement::Placeholder(_)) => true,
            (PseudoElement::Backdrop(_), PseudoElement::Backdrop(_)) => true,
            (PseudoElement::FileSelectorButton(_), PseudoElement::FileSelectorButton(_)) => true,
            (PseudoElement::After, PseudoElement::After) => true,
            (PseudoElement::Before, PseudoElement::Before) => true,
            (PseudoElement::FirstLine, PseudoElement::FirstLine) => true,
            (PseudoElement::FirstLetter, PseudoElement::FirstLetter) => true,
            (PseudoElement::Marker, PseudoElement::Marker) => true,
            (PseudoElement::WebKitScrollbar(x), PseudoElement::WebKitScrollbar(y)) => x == y,
            (PseudoElement::Cue, PseudoElement::Cue) => true,
            (PseudoElement::CueRegion, PseudoElement::CueRegion) => true,
            (
                PseudoElement::CueFunction { selector: x },
                PseudoElement::CueFunction { selector: y },
            ) => x.structurally_equal(y),
            (
                PseudoElement::CueRegionFunction { selector: x },
                PseudoElement::CueRegionFunction { selector: y },
            ) => x.structurally_equal(y),
            (PseudoElement::Custom { name: x }, PseudoElement::Custom { name: y }) => *x == *y,
            (
                PseudoElement::CustomFunction { name: x, arguments: ax },
                PseudoElement::CustomFunction { name: y, arguments: ay },
            ) => *x == *y && *ax == *ay,
            _ => false,
        }
    }
}

impl Component {
    /// Whether two components are structurally equal.
    #[verifier::rlimit(100)]
    pub fn structurally_equal(&self, other: &Component) -> (r: bool)
        ensures
            r == component_eq(*self, *other),
        decreases component_size(*self), 0int,
    {
        match (self, other) {
            (Component::Combinator(x), Component::Combinator(y)) => x == y,
            (Component::ExplicitAnyNamespace, Component::ExplicitAnyNamespace) => true,
            (Component::ExplicitNoNamespace, Component::ExplicitNoNamespace) => true,
            (Component::DefaultNamespace(x), Component::DefaultNamespace(y)) => *x == *y,
            (Component::Namespace(p1, u1), Component::Namespace(p2, u2)) => *p1 == *p2 && *u1
                == *u2,
            (Component::ExplicitUniversalType, Component::ExplicitUniversalType) => true,
            (Component::LocalName(x), Component::LocalName(y)) => *x == *y,
            (Component::ID(x), Component::ID(y)) => *x == *y,
            (Component::Class(x), Component::Class(y)) => *x == *y,
            (
                Component::AttributeInNoNamespaceExists { local_name: x },
                Component::AttributeInNoNamespaceExists { local_name: y },
            ) => *x == *y,
            (
                Component::AttributeInNoNamespace {
                    local_name: n1,
                    operator: o1,
                    value: v1,
                    case_sensitivity: c1,
                },
                Component::AttributeInNoNamespace {
                    local_name: n2,
                    operator: o2,
                    value: v2,
                    case_sensitivity: c2,
                },
            ) => *n1 == *n2 && o1 == o2 && *v1 == *v2 && c1 == c2,
            (
                Component::AttributeOther { namespace: ns1, local_name: n1, operation: op1 },
                Component::AttributeOther { namespace: ns2, local_name: n2, operation: op2 },
            ) => {
                let ns_ok = match (ns1, ns2) {
                    (None, None) => true,
                    (Some(NamespaceConstraint::Any), Some(NamespaceConstraint::Any)) => true,
                    (
                        Some(NamespaceConstraint::Specific(p1, u1)),
                        Some(NamespaceConstraint::Specific(p2, u2)),
                    ) => *p1 == *p2 && *u1 == *u2,
                    _ => false,
                };
                let op_ok = match (op1, op2) {
                    (AttrSelectorOperation::Exists, AttrSelectorOperation::Exists) => true,
                    (
                        AttrSelectorOperation::WithValue {
                            operator: o1,
                            case_sensitivity: c1,
                            value: v1,
                        },
                        AttrSelectorOperation::WithValue {
                            operator: o2,
                            case_sensitivity: c2,
                            value: v2,
                        },
                    ) => o1 == o2 && c1 == c2 && *v1 == *v2,
                    _ => false,
                };
                ns_ok && *n1 == *n2 && op_ok
            },
            (Component::FirstChild, Component::FirstChild) => true,
            (Component::LastChild, Component::LastChild) => true,
            (Component::OnlyChild, Component::OnlyChild) => true,
            (Component::Root, Component::Root) => true,
            (Component::Empty, Component::Empty) => true,
            (Component::Scope, Component::Scope) => true,
            (Component::FirstOfType, Component::FirstOfType) => true,
            (Component::LastOfType, Component::LastOfType) => true,
            (Component::OnlyOfType, Component::OnlyOfType) => true,
            (Component::NthChild(a1, b1), Component::NthChild(a2, b2)) => a1 == a2 && b1 == b2,
            (Component::NthLastChild(a1, b1), Component::NthLastChild(a2, b2)) => a1 == a2 && b1
                == b2,
            (Component::NthOfType(a1, b1), Component::NthOfType(a2, b2)) => a1 == a2 && b1 == b2,
            (Component::NthLastOfType(a1, b1), Component::NthLastOfType(a2, b2)) => a1 == a2 && b1
                == b2,
            (Component::NthCol(a1, b1), Component::NthCol(a2, b2)) => a1 == a2 && b1 == b2,
            (Component::NthLastCol(a1, b1), Component::NthLastCol(a2, b2)) => a1 == a2 && b1
                == b2,
            (Component::NonTSPseudoClass(x), Component::NonTSPseudoClass(y)) => {
                x.structurally_equal(y)
            },
            (Component::PseudoElement(x), Component::PseudoElement(y)) => x.structurally_equal(y),
            (Component::Negation(x), Component::Negation(y)) => selector_vecs_eq(x, y),
            (Component::Is(x), Component::Is(y)) => selector_vecs_eq(x, y),
            (Component::Where(x), Component::Where(y)) => selector_vecs_eq(x, y),
            (Component::Has(x), Component::Has(y)) => selector_vecs_eq(x, y),
            (Component::Any(p1, x), Component::Any(p2, y)) => p1 == p2 && selector_vecs_eq(x, y),
            (Component::Slotted(x), Component::Slotted(y)) => x.structurally_equal(y),
            (Component::Part(x), Component::Part(y)) => string_vecs_eq(x, y),
            (Component::Host(x), Component::Host(y)) => match (x, y) {
                (None, None) => true,
                (Some(sx), Some(sy)) => sx.structurally_equal(sy),
                _ => false,
            },
            (Component::Nesting, Component::Nesting) => true,
            _ => false,
        }
    }
}

impl PseudoClass {
    /// Whether two pseudo-classes are structurally equal.
    #[verifier::rlimit(100)]
    pub fn structurally_equal(&self, other: &PseudoClass) -> (r: bool)
        ensures
            r == pseudo_class_eq(*self, *other),
        decreases pseudo_class_size(*self), 0int,
    {
        match (self, other) {
            (PseudoClass::Fullscreen(x), PseudoClass::Fullscreen(y)) => x == y,
            (PseudoClass::AnyLink(x), PseudoClass::AnyLink(y)) => x == y,
            (PseudoClass::ReadOnly(x), PseudoClass::ReadOnly(y)) => x == y,
            (PseudoClass::ReadWrite(x), PseudoClass::ReadWrite(y)) => x == y,
            (PseudoClass::PlaceholderShown(x), PseudoClass::PlaceholderShown(y)) => x == y,
            (PseudoClass::Autofill(x), PseudoClass::Autofill(y)) => x == y,
            (PseudoClass::Lang { languages: x }, PseudoClass::Lang { languages: y }) => {
                string_vecs_eq(x, y)
            },
            (PseudoClass::Dir { direction: x }, PseudoClass::Dir { direction: y }) => x == y,
            (PseudoClass::Hover, PseudoClass::Hover) => true,
            (PseudoClass::Active, PseudoClass::Active) => true,
            (PseudoClass::Focus, PseudoClass::Focus) => true,
            (PseudoClass::FocusVisible, PseudoClass::FocusVisible) => true,
            (PseudoClass::FocusWithin, PseudoClass::FocusWithin) => true,
            (PseudoClass::Current, PseudoClass::Current) => true,
            (PseudoClass::Past, PseudoClass::Past) => true,
            (PseudoClass::Future, PseudoClass::Future) => true,
            (PseudoClass::Playing, PseudoClass::Playing) => true,
            (PseudoClass::Paused, PseudoClass::Paused) => true,
            (PseudoClass::Seeking, PseudoClass::Seeking) => true,
            (PseudoClass::Buffering, PseudoClass::Buffering) => true,
            (PseudoClass::Stalled, PseudoClass::Stalled) => true,
            (PseudoClass::Muted, PseudoClass::Muted) => true,
            (PseudoClass::VolumeLocked, PseudoClass::VolumeLocked) => true,
            (PseudoClass::Defined, PseudoClass::Defined) => true,
            (PseudoClass::Link, PseudoClass::Link) => true,
            (PseudoClass::LocalLink, PseudoClass::LocalLink) => true,
            (PseudoClass::Target, PseudoClass::Target) => true,
            (PseudoClass::TargetWithin, PseudoClass::TargetWithin) => true,
            (PseudoClass::Visited, PseudoClass::Visited) => true,
            (PseudoClass::Enabled, PseudoClass::Enabled) => true,
            (PseudoClass::Disabled, PseudoClass::Disabled) => true,
            (PseudoClass::Default, PseudoClass::Default) => true,
            (PseudoClass::Checked, PseudoClass::Checked) => true,
            (PseudoClass::Indeterminate, PseudoClass::Indeterminate) => true,
            (PseudoClass::Blank, PseudoClass::Blank) => true,
            (PseudoClass::Valid, PseudoClass::Valid) => true,
            (PseudoClass::Invalid, PseudoClass::Invalid) => true,
            (PseudoClass::InRange, PseudoClass::InRange) => true,
            (PseudoClass::OutOfRange, PseudoClass::OutOfRange) => true,
            (PseudoClass::Required, PseudoClass::Required) => true,
            (PseudoClass::Optional, PseudoClass::Optional) => true,
            (PseudoClass::UserValid, PseudoClass::UserValid) => true,
            (PseudoClass::UserInvalid, PseudoClass::UserInvalid) => true,
            (PseudoClass::Local { selector: x }, PseudoClass::Local { selector: y }) => {
                x.structurally_equal(y)
            },
            (PseudoClass::Global { selector: x }, PseudoClass::Global { selector: y }) => {
                x.structurally_equal(y)
            },
            (PseudoClass::WebKitScrollbar(x), PseudoClass::WebKitScrollbar(y)) => x == y,
            (PseudoClass::Custom { name: x }, PseudoClass::Custom { name: y }) => *x == *y,
            (
                PseudoClass::CustomFunction { name: x, arguments: ax },
                PseudoClass::CustomFunction { name: y, arguments: ay },
            ) => *x == *y && *ax == *ay,
            _ => false,
        }
    }
}

impl PseudoElement {
    /// Whether two pseudo-elements are structurally equal.
    #[verifier::rlimit(100)]
    pub fn structurally_equal(&self, other: &PseudoElement) -> (r: bool)
        ensures
            r == pseudo_element_eq(*self, *other),
        decreases pseudo_element_size(*self), 0int,
    {
        match (self, other) {
            (PseudoElement::Selection(x), PseudoElement::Selection(y)) => x == y,
            (PseudoElement::Placeholder(x), PseudoElement::Placeholder(y)) => x == y,
            (PseudoElement::Backdrop(x), PseudoElement::Backdrop(y)) => x == y,
            (PseudoElement::FileSelectorButton(x), PseudoElement::FileSelectorButton(y)) => x == y,
            (PseudoElement::After, PseudoElement::After) => true,
            (PseudoElement::Before, PseudoElement::Before) => true,
            (PseudoElement::FirstLine, PseudoElement::FirstLine) => true,
            (PseudoElement::FirstLetter, PseudoElement::FirstLetter) => true,
            (PseudoElement::Marker, PseudoElement::Marker) => true,
            (PseudoElement::WebKitScrollbar(x), PseudoElement::WebKitScrollbar(y)) => x == y,
            (PseudoElement::Cue, PseudoElement::Cue) => true,
            (PseudoElement::CueRegion, PseudoElement::CueRegion) => true,
            (
                PseudoElement::CueFunction { selector: x },
                PseudoElement::CueFunction { selector: y },
            ) => x.structurally_equal(y),
            (
                PseudoElement::CueRegionFunction { selector: x },
                PseudoElement::CueRegionFunction { selector: y },
            ) => x.structurally_equal(y),
            (PseudoElement::Custom { name: x }, PseudoElement::Custom { name: y }) => *x == *y,
            (
                PseudoElement::CustomFunction { name: x, arguments: ax },
                PseudoElement::CustomFunction { name: y, arguments: ay },
            ) => *x == *y && *ax == *ay,
            _ => false,
        }
    }
}

impl Selector {
    /// Whether two selectors are structurally equal.
    pub fn structurally_equal(&self, other: &Selector) -> (r: bool)
        ensures
            r == selector_eq(*self, *other),
        decreases selector_size(*self), 2int,
    {
        let n = self.components.len();
        if n != other.components.len() {
            return false;
        }
        proof {
            assert(self.components@.skip(0) =~= self.components@);
            assert(other.components@.skip(0) =~= other.components@);
        }
        let mut i: usize = 0;
        while i < n
            invariant
                i <= n,
                n == self.components@.len(),
                n == other.components@.len(),
                component_list_eq(self.components@, other.components@) == component_list_eq(
                    self.components@.skip(i as int),
                    other.components@.skip(i as int),
                ),
            decreases n - i,
        {
            proof {
                assert(self.components@.skip(i as int)[0] == self.components@[i as int]);
                assert(other.components@.skip(i as int)[0] == other.components@[i as int]);
                assert(self.components@.skip(i as int).drop_first() =~= self.components@.skip(
                    i + 1 as int,
                ));
                assert(other.components@.skip(i as int).drop_first() =~= other.components@.skip(
                    i + 1 as int,
                ));
                lemma_component_seq_size_ge_local(self.components@, i as int);
            }
            if !self.components[i].structurally_equal(&other.components[i]) {
                return false;
            }
            i = i + 1;
        }
        proof {
            assert(self.components@.skip(n as int) =~= Seq::<Component>::empty());
            assert(other.components@.skip(n as int) =~= Seq::<Component>::empty());
        }
        true
    }
}

/// Every component of a sequence weighs no more than the whole.
proof fn lemma_component_seq_size_ge_local(cs: Seq<Component>, i: int)
    requires
        0 <= i < cs.len(),
    ensures
        crate::selector::component_seq_size(cs) >= component_size(cs[i]),
{
    crate::selector::lemma_component_seq_size_ge(cs, i);
}

/// Whether two selector vectors are structurally equal, elementwise.
pub fn selector_vecs_eq(a: &Vec<Selector>, b: &Vec<Selector>) -> (r: bool)
    ensures
        r == selector_list_eq(a@, b@),
    decreases selector_seq_size(a@), 3int,
{
    let n = a.len();
    if n != b.len() {
        return false;
    }
    proof {
        assert(a@.skip(0) =~= a@);
        assert(b@.skip(0) =~= b@);
    }
    let mut i: usize = 0;
    while i < n
        invariant
            i <= n,
            n == a@.len(),
            n == b@.len(),
            selector_list_eq(a@, b@) == selector_list_eq(a@.skip(i as int), b@.skip(i as int)),
        decreases n - i,
    {
        proof {
            assert(a@.skip(i as int)[0] == a@[i as int]);
            assert(b@.skip(i as int)[0] == b@[i as int]);
            assert(a@.skip(i as int).drop_first() =~= a@.skip(i + 1 as int));
            assert(b@.skip(i as int).drop_first() =~= b@.skip(i + 1 as int));
            lemma_selector_seq_size_ge(a@, i as int);
        }
        if !a[i].structurally_equal(&b[i]) {
            return false;
        }
        i = i + 1;
    }
    proof {
        assert(a@.skip(n as int) =~= Seq::<Selector>::empty());
        assert(b@.skip(n as int) =~= Seq::<Selector>::empty());
    }
    true
}

/// Whether two selector lists are equivalent: the same selector apart from
/// vendor prefixes on prefixable pseudos.
pub fn is_equivalent(selectors: &SelectorList, other: &SelectorList) -> (r: bool)
    ensures
        r == spec_is_equivalent(*selectors, *other),
{
    let n = selectors.selectors.len();
    if n != other.selectors.len() {
        return false;
    }
    proof {
        assert(selectors.selectors@.skip(0) =~= selectors.selectors@);
        assert(other.selectors@.skip(0) =~= other.selectors@);
    }
    let mut i: usize = 0;
    while i < n
        invariant
            i <= n,
            n == selectors.selectors@.len(),
            n == other.selectors@.len(),
            selectors_equivalent(selectors.selectors@, other.selectors@) == selectors_equivalent(
                selectors.selectors@.skip(i as int),
                other.selectors@.skip(i as int),
            ),
        decreases n - i,
    {
        proof {
            assert(selectors.selectors@.skip(i as int)[0] == selectors.selectors@[i as int]);
            assert(other.selectors@.skip(i as int)[0] == other.selectors@[i as int]);
            assert(selectors.selectors@.skip(i as int).drop_first() =~= selectors.selectors@.skip(
                i + 1 as int,
            ));
            assert(other.selectors@.skip(i as int).drop_first() =~= other.selectors@.skip(
                i + 1 as int,
            ));
        }
        let a = &selectors.selectors[i];
        let b = &other.selectors[i];
        let m = a.components.len();
        if m != b.components.len() {
            return false;
        }
        proof {
            assert(a.components@.skip(0) =~= a.components@);
            assert(b.components@.skip(0) =~= b.components@);
        }
        let mut k: usize = 0;
        while k < m
            invariant
                k <= m,
                m == a.components@.len(),
                m == b.components@.len(),
                i < n,
                n == selectors.selectors@.len(),
                n == other.selectors@.len(),
                *a == selectors.selectors@[i as int],
                *b == other.selectors@[i as int],
                selectors_equivalent(selectors.selectors@, other.selectors@)
                    == selectors_equivalent(
                    selectors.selectors@.skip(i as int),
                    other.selectors@.skip(i as int),
                ),
                components_equivalent(a.components@, b.components@) == components_equivalent(
                    a.components@.skip(k as int),
                    b.components@.skip(k as int),
                ),
            decreases m - k,
        {
            proof {
                assert(a.components@.skip(k as int)[0] == a.components@[k as int]);
                assert(b.components@.skip(k as int)[0] == b.components@[k as int]);
                assert(a.components@.skip(k as int).drop_first() =~= a.components@.skip(
                    k + 1 as int,
                ));
                assert(b.components@.skip(k as int).drop_first() =~= b.components@.skip(
                    k + 1 as int,
                ));
            }
            let ca = &a.components[k];
            let cb = &b.components[k];
            let ok = match (ca, cb) {
                (Component::NonTSPseudoClass(x), Component::NonTSPseudoClass(y)) => {
                    x.is_equivalent(y)
                },
                (Component::PseudoElement(x), Component::PseudoElement(y)) => x.is_equivalent(y),
                _ => ca.structurally_equal(cb),
            };
            if !ok {
                proof {
                    assert(!components_equivalent(
                        a.components@.skip(k as int),
                        b.components@.skip(k as int),
                    ));
                    assert(!components_equivalent(a.components@, b.components@));
                    assert(selectors.selectors@.skip(i as int)[0] == *a);
                    assert(other.selectors@.skip(i as int)[0] == *b);
                    assert(!selectors_equivalent(
                        selectors.selectors@.skip(i as int),
                        other.selectors@.skip(i as int),
                    ));
                }
                return false;
            }
            k = k + 1;
        }
        proof {
            assert(a.components@.skip(m as int) =~= Seq::<Component>::empty());
            assert(b.components@.skip(m as int) =~= Seq::<Component>::empty());
        }
        i = i + 1;
    }
    proof {
        assert(selectors.selectors@.skip(n as int) =~= Seq::<Selector>::empty());
        assert(other.selectors@.skip(n as int) =~= Seq::<Selector>::empty());
    }
    true
}

// ---------------------------------------------------------------------------
// Equivalence is reflexive.
// ---------------------------------------------------------------------------

/// Structural equality of pseudo-classes is reflexive.
pub proof fn lemma_pseudo_class_eq_reflexive(a: PseudoClass)
    ensures
        pseudo_class_eq(a, a),
    decreases pseudo_class_size(a), 1int,
{
    match a {
        PseudoClass::Local { selector } => lemma_selector_eq_reflexive(*selector),
        PseudoClass::Global { selector } => lemma_selector_eq_reflexive(*selector),
        _ => (),
    }
}

/// Structural equality of pseudo-elements is reflexive.
pub proof fn lemma_pseudo_element_eq_reflexive(a: PseudoElement)
    ensures
        pseudo_element_eq(a, a),
    decreases pseudo_element_size(a), 1int,
{
    match a {
        PseudoElement::CueFunction { selector } => lemma_selector_eq_reflexive(*selector),
        PseudoElement::CueRegionFunction { selector } => lemma_selector_eq_reflexive(*selector),
        _ => (),
    }
}

/// Structural equality of components is reflexive.
pub proof fn lemma_component_eq_reflexive(a: Component)
    ensures
        component_eq(a, a),
    decreases component_size(a), 1int,
{
    match a {
        Component::NonTSPseudoClass(pc) => lemma_pseudo_class_eq_reflexive(pc),
        Component::PseudoElement(pe) => lemma_pseudo_element_eq_reflexive(pe),
        Component::Negation(list) => lemma_selector_list_eq_reflexive(list@),
        Component::Is(list) => lemma_selector_list_eq_reflexive(list@),
        Component::Where(list) => lemma_selector_list_eq_reflexive(list@),
        Component::Has(list) => lemma_selector_list_eq_reflexive(list@),
        Component::Any(_, list) => lemma_selector_list_eq_reflexive(list@),
        Component::Slotted(s) => lemma_selector_eq_reflexive(*s),
        Component::Host(os) => match os {
            Some(s) => lemma_selector_eq_reflexive(*s),
            None => (),
        },
        _ => (),
    }
}

/// Structural equality of component sequences is reflexive.
pub proof fn lemma_component_list_eq_reflexive(a: Seq<Component>)
    ensures
        component_list_eq(a, a),
    decreases crate::selector::component_seq_size(a), 2int,
{
    if a.len() > 0 {
        crate::selector::lemma_component_seq_size_ge(a, 0);
        lemma_component_eq_reflexive(a[0]);
        lemma_component_list_eq_reflexive(a.drop_first());
    }
}

/// Structural equality of selectors is reflexive.
pub proof fn lemma_selector_eq_reflexive(a: Selector)
    ensures
        selector_eq(a, a),
    decreases selector_size(a), 3int,
{
    lemma_component_list_eq_reflexive(a.components@);
}

/// Structural equality of selector sequences is reflexive.
pub proof fn lemma_selector_list_eq_reflexive(a: Seq<Selector>)
    ensures
        selector_list_eq(a, a),
    decreases selector_seq_size(a), 4int,
{
    if a.len() > 0 {
        lemma_selector_seq_size_ge(a, 0);
        lemma_selector_eq_reflexive(a[0]);
        lemma_selector_list_eq_reflexive(a.drop_first());
    }
}

/// Componentwise equivalence is reflexive.
pub proof fn lemma_components_equivalent_reflexive(a: Seq<Component>)
    ensures
        components_equivalent(a, a),
    decreases a.len(),
{
    if a.len() > 0 {
        lemma_component_eq_reflexive(a[0]);
        match a[0] {
            Component::NonTSPseudoClass(pc) => {
                lemma_pseudo_class_eq_reflexive(pc);
            },
            Component::PseudoElement(pe) => {
                lemma_pseudo_element_eq_reflexive(pe);
            },
            _ => (),
        }
        lemma_components_equivalent_reflexive(a.drop_first());
    }
}

/// Every selector list is equivalent to itself.
pub proof fn lemma_is_equivalent_reflexive(l: SelectorList)
    ensures
        spec_is_equivalent(l, l),
{
    lemma_selectors_equivalent_reflexive(l.selectors@);
}

/// Branchwise equivalence is reflexive.
pub proof fn lemma_selectors_equivalent_reflexive(a: Seq<Selector>)
    ensures
        selectors_equivalent(a, a),
    decreases a.len(),
{
    if a.len() > 0 {
        lemma_components_equivalent_reflexive(a[0].components@);
        lemma_selectors_equivalent_reflexive(a.drop_first());
    }
}

} // verus!
