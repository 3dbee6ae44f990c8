//! Compatibility of a selector list with a browser target set: a selector is
//! compatible when no component of it requires a feature the targets lack.
//!
//! Identifiers, classes and type selectors are always compatible. A component
//! whose support no database entry describes, an unknown pseudo, and a
//! vendor-prefixed pseudo are conservatively incompatible. Absent targets
//! make every feature-requiring component incompatible.

use vstd::prelude::*;
use crate::selector::{
    AttrSelectorOperation, AttrSelectorOperator, Combinator, Component, ParsedCaseSensitivity,
    PseudoClass, PseudoElement, Selector, SelectorList,
};
use crate::targets::{Feature, Targets};
use crate::vendor_prefix::VendorPrefix;

verus! {

/// Whether a feature is supported: false when no targets are given.
pub open spec fn spec_feature_ok(f: Feature, targets: Option<Targets>) -> bool {
    match targets {
        Some(t) => f.spec_is_compatible(t),
        None => false,
    }
}

/// The compatibility of one pseudo-class.
pub open spec fn spec_pseudo_class_compatible(pc: PseudoClass, targets: Option<Targets>) -> bool {
    match pc {
        PseudoClass::Link => spec_feature_ok(Feature::CssSel2, targets),
        PseudoClass::Visited => spec_feature_ok(Feature::CssSel2, targets),
        PseudoClass::Active => spec_feature_ok(Feature::CssSel2, targets),
        PseudoClass::Hover => spec_feature_ok(Feature::CssSel2, targets),
        PseudoClass::Focus => spec_feature_ok(Feature::CssSel2, targets),
        PseudoClass::Lang { .. } => spec_feature_ok(Feature::CssSel2, targets),
        PseudoClass::Checked => spec_feature_ok(Feature::CssSel3, targets),
        PseudoClass::Disabled => spec_feature_ok(Feature::CssSel3, targets),
        PseudoClass::Enabled => spec_feature_ok(Feature::CssSel3, targets),
        PseudoClass::Target => spec_feature_ok(Feature::CssSel3, targets),
        PseudoClass::AnyLink(prefix) => prefix == VendorPrefix::spec_unprefixed()
            && spec_feature_ok(Feature::CssAnyLink, targets),
        PseudoClass::Indeterminate => spec_feature_ok(Feature::CssIndeterminatePseudo, targets),
        PseudoClass::Fullscreen(prefix) => prefix == VendorPrefix::spec_unprefixed()
            && spec_feature_ok(Feature::Fullscreen, targets),
        PseudoClass::FocusVisible => spec_feature_ok(Feature::CssFocusVisible, targets),
        PseudoClass::FocusWithin => spec_feature_ok(Feature::CssFocusWithin, targets),
        PseudoClass::Default => spec_feature_ok(Feature::CssDefaultPseudo, targets),
        PseudoClass::Dir { .. } => spec_feature_ok(Feature::CssDirPseudo, targets),
        PseudoClass::Optional => spec_feature_ok(Feature::CssOptionalPseudo, targets),
        PseudoClass::PlaceholderShown(prefix) => prefix == VendorPrefix::spec_unprefixed()
            && spec_feature_ok(Feature::CssPlaceholderShown, targets),
        PseudoClass::ReadOnly(prefix) => prefix == VendorPrefix::spec_unprefixed()
            && spec_feature_ok(Feature::CssReadOnlyWrite, targets),
        PseudoClass::ReadWrite(prefix) => prefix == VendorPrefix::spec_unprefixed()
            && spec_feature_ok(Feature::CssReadOnlyWrite, targets),
        PseudoClass::Valid => spec_feature_ok(Feature::FormValidation, targets),
        PseudoClass::Invalid => spec_feature_ok(Feature::FormValidation, targets),
        PseudoClass::Required => spec_feature_ok(Feature::FormValidation, targets),
        PseudoClass::InRange => spec_feature_ok(Feature::CssInOutOfRange, targets),
        PseudoClass::OutOfRange => spec_feature_ok(Feature::CssInOutOfRange, targets),
        PseudoClass::Autofill(prefix) => prefix == VendorPrefix::spec_unprefixed()
            && spec_feature_ok(Feature::CssAutofill, targets),
        _ => false,
    }
}

/// The compatibility of one pseudo-element.
pub open spec fn spec_pseudo_element_compatible(
    pe: PseudoElement,
    targets: Option<Targets>,
) -> bool {
    match pe {
        PseudoElement::After => spec_feature_ok(Feature::CssGencontent, targets),
        PseudoElement::Before => spec_feature_ok(Feature::CssGencontent, targets),
        PseudoElement::FirstLine => spec_feature_ok(Feature::CssFirstLine, targets),
        PseudoElement::FirstLetter => spec_feature_ok(Feature::CssFirstLetter, targets),
        PseudoElement::Selection(prefix) => prefix == VendorPrefix::spec_unprefixed()
            && spec_feature_ok(Feature::CssSelection, targets),
        PseudoElement::Placeholder(prefix) => prefix == VendorPrefix::spec_unprefixed()
            && spec_feature_ok(Feature::CssPlaceholder, targets),
        PseudoElement::Marker => spec_feature_ok(Feature::CssMarkerPseudo, targets),
        PseudoElement::Backdrop(prefix) => prefix == VendorPrefix::spec_unprefixed()
            && spec_feature_ok(Feature::Dialog, targets),
        PseudoElement::Cue => spec_feature_ok(Feature::Cue, targets),
        PseudoElement::CueFunction { .. } => spec_feature_ok(Feature::CueFunction, targets),
        _ => false,
    }
}

/// The compatibility of an attribute match: a case flag needs its feature;
/// otherwise the operator decides the selector level.
pub open spec fn spec_attr_match_compatible(
    operator: AttrSelectorOperator,
    case_sensitivity: ParsedCaseSensitivity,
    targets: Option<Targets>,
) -> bool {
    if case_sensitivity != ParsedCaseSensitivity::CaseSensitive {
        spec_feature_ok(Feature::CssCaseInsensitive, targets)
    } else {
        match operator {
            AttrSelectorOperator::Equal => spec_feature_ok(Feature::CssSel2, targets),
            AttrSelectorOperator::Includes => spec_feature_ok(Feature::CssSel2, targets),
            AttrSelectorOperator::DashMatch => spec_feature_ok(Feature::CssSel2, targets),
            AttrSelectorOperator::Prefix => spec_feature_ok(Feature::CssSel3, targets),
            AttrSelectorOperator::Substring => spec_feature_ok(Feature::CssSel3, targets),
            AttrSelectorOperator::Suffix => spec_feature_ok(Feature::CssSel3, targets),
        }
    }
}

/// The compatibility of one component. Nested selector lists are not
/// descended into: the list-bearing pseudo itself carries the feature.
pub open spec fn spec_component_compatible(c: Component, targets: Option<Targets>) -> bool {
    match c {
        Component::ID(_) => true,
        Component::Class(_) => true,
        Component::LocalName(_) => true,
        Component::ExplicitAnyNamespace => spec_feature_ok(Feature::CssNamespaces, targets),
        Component::ExplicitNoNamespace => spec_feature_ok(Feature::CssNamespaces, targets),
        Component::DefaultNamespace(_) => spec_feature_ok(Feature::CssNamespaces, targets),
        Component::Namespace(_, _) => spec_feature_ok(Feature::CssNamespaces, targets),
        Component::ExplicitUniversalType => spec_feature_ok(Feature::CssSel2, targets),
        Component::AttributeInNoNamespaceExists { .. } => spec_feature_ok(
            Feature::CssSel2,
            targets,
        ),
        Component::AttributeInNoNamespace { operator, case_sensitivity, .. } => {
            spec_attr_match_compatible(operator, case_sensitivity, targets)
        },
        Component::AttributeOther { operation, .. } => match operation {
            AttrSelectorOperation::Exists => spec_feature_ok(Feature::CssSel2, targets),
            AttrSelectorOperation::WithValue { operator, case_sensitivity, .. } => {
                spec_attr_match_compatible(operator, case_sensitivity, targets)
            },
        },
        Component::FirstChild => spec_feature_ok(Feature::CssSel2, targets),
        Component::Empty => spec_feature_ok(Feature::CssSel3, targets),
        Component::FirstOfType => spec_feature_ok(Feature::CssSel3, targets),
        Component::LastChild => spec_feature_ok(Feature::CssSel3, targets),
        Component::LastOfType => spec_feature_ok(Feature::CssSel3, targets),
        Component::Negation(_) => spec_feature_ok(Feature::CssSel3, targets),
        Component::NthChild(_, _) => spec_feature_ok(Feature::CssSel3, targets),
        Component::NthLastChild(_, _) => spec_feature_ok(Feature::CssSel3, targets),
        Component::NthCol(_, _) => spec_feature_ok(Feature::CssSel3, targets),
        Component::NthLastCol(_, _) => spec_feature_ok(Feature::CssSel3, targets),
        Component::NthLastOfType(_, _) => spec_feature_ok(Feature::CssSel3, targets),
        Component::NthOfType(_, _) => spec_feature_ok(Feature::CssSel3, targets),
        Component::OnlyChild => spec_feature_ok(Feature::CssSel3, targets),
        Component::OnlyOfType => spec_feature_ok(Feature::CssSel3, targets),
        Component::Root => spec_feature_ok(Feature::CssSel3, targets),
        Component::Is(_) => spec_feature_ok(Feature::CssMatchesPseudo, targets),
        Component::Nesting => spec_feature_ok(Feature::CssMatchesPseudo, targets),
        Component::Any(_, _) => spec_feature_ok(Feature::AnyPseudo, targets),
        Component::Has(_) => spec_feature_ok(Feature::CssHas, targets),
        Component::Scope => spec_feature_ok(Feature::Shadowdomv1, targets),
        Component::Host(_) => spec_feature_ok(Feature::Shadowdomv1, targets),
        Component::Slotted(_) => spec_feature_ok(Feature::Shadowdomv1, targets),
        Component::Part(_) => false,
        Component::Where(_) => false,
        Component::NonTSPseudoClass(pc) => spec_pseudo_class_compatible(pc, targets),
        Component::PseudoElement(pe) => spec_pseudo_element_compatible(pe, targets),
        Component::Combinator(k) => match k {
            Combinator::Child => spec_feature_ok(Feature::CssSel2, targets),
            Combinator::NextSibling => spec_feature_ok(Feature::CssSel2, targets),
            Combinator::LaterSibling => spec_feature_ok(Feature::CssSel3, targets),
            _ => true,
        },
    }
}

/// Every component of the sequence is compatible.
pub open spec fn spec_components_compatible(cs: Seq<Component>, targets: Option<Targets>) -> bool
    decreases cs.len(),
{
    if cs.len() == 0 {
        true
    } else {
        spec_component_compatible(cs[0], targets) && spec_components_compatible(
            cs.drop_first(),
            targets,
        )
    }
}

/// Every selector of the sequence is compatible.
pub open spec fn spec_selectors_compatible(ss: Seq<Selector>, targets: Option<Targets>) -> bool
    decreases ss.len(),
{
    if ss.len() == 0 {
        true
    } else {
        spec_components_compatible(ss[0].components@, targets) && spec_selectors_compatible(
            ss.drop_first(),
            targets,
        )
    }
}

/// The compatibility of a whole selector list.
pub open spec fn spec_is_compatible(list: SelectorList, targets: Option<Targets>) -> bool {
    spec_selectors_compatible(list.selectors@, targets)
}

/// Whether one component is compatible with the targets.
#[verifier::rlimit(100)]
pub fn component_compatible(c: &Component, targets: Option<Targets>) -> (r: bool)
    ensures
        r == spec_component_compatible(*c, targets),
{
    let feature: Feature = match c {
        Component::ID(_) => {
            return true;
        },
        Component::Class(_) => {
            return true;
        },
        Component::LocalName(_) => {
            return true;
        },
        Component::ExplicitAnyNamespace => Feature::CssNamespaces,
        Component::ExplicitNoNamespace => Feature::CssNamespaces,
        Component::DefaultNamespace(_) => Feature::CssNamespaces,
        Component::Namespace(_, _) => Feature::CssNamespaces,
        Component::ExplicitUniversalType => Feature::CssSel2,
        Component::AttributeInNoNamespaceExists { .. } => Feature::CssSel2,
        Component::AttributeInNoNamespace { operator, case_sensitivity, .. } => {
            if *case_sensitivity != ParsedCaseSensitivity::CaseSensitive {
                Feature::CssCaseInsensitive
            } else {
                match operator {
                    AttrSelectorOperator::Equal => Feature::CssSel2,
                    AttrSelectorOperator::Includes => Feature::CssSel2,
                    AttrSelectorOperator::DashMatch => Feature::CssSel2,
                    AttrSelectorOperator::Prefix => Feature::CssSel3,
                    AttrSelectorOperator::Substring => Feature::CssSel3,
                    AttrSelectorOperator::Suffix => Feature::CssSel3,
                }
            }
        },
        Component::AttributeOther { operation, .. } => match operation {
            AttrSelectorOperation::Exists => Feature::CssSel2,
            AttrSelectorOperation::WithValue { operator, case_sensitivity, .. } => {
                if *case_sensitivity != ParsedCaseSensitivity::CaseSensitive {
                    Feature::CssCaseInsensitive
                } else {
                    match operator {
                        AttrSelectorOperator::Equal => Feature::CssSel2,
                        AttrSelectorOperator::Includes => Feature::CssSel2,
                        AttrSelectorOperator::DashMatch => Feature::CssSel2,
                        AttrSelectorOperator::Prefix => Feature::CssSel3,
                        AttrSelectorOperator::Substring => Feature::CssSel3,
                        AttrSelectorOperator::Suffix => Feature::CssSel3,
                    }
                }
            },
        },
        Component::FirstChild => Feature::CssSel2,
        Component::Empty => Feature::CssSel3,
        Component::FirstOfType => Feature::CssSel3,
        Component::LastChild => Feature::CssSel3,
        Component::LastOfType => Feature::CssSel3,
        Component::Negation(_) => Feature::CssSel3,
        Component::NthChild(_, _) => Feature::CssSel3,
        Component::NthLastChild(_, _) => Feature::CssSel3,
        Component::NthCol(_, _) => Feature::CssSel3,
        Component::NthLastCol(_, _) => Feature::CssSel3,
        Component::NthLastOfType(_, _) => Feature::CssSel3,
        Component::NthOfType(_, _) => Feature::CssSel3,
        Component::OnlyChild => Feature::CssSel3,
        Component::OnlyOfType => Feature::CssSel3,
        Component::Root => Feature::CssSel3,
        Component::Is(_) => Feature::CssMatchesPseudo,
        Component::Nesting => Feature::CssMatchesPseudo,
        Component::Any(_, _) => Feature::AnyPseudo,
        Component::Has(_) => Feature::CssHas,
        Component::Scope => Feature::Shadowdomv1,
        Component::Host(_) => Feature::Shadowdomv1,
        Component::Slotted(_) => Feature::Shadowdomv1,
        Component::Part(_) => {
            return false;
        },
        Component::Where(_) => {
            return false;
        },
        Component::NonTSPseudoClass(pc) => {
            return pseudo_class_compatible(pc, targets);
        },
        Component::PseudoElement(pe) => {
            return pseudo_element_compatible(pe, targets);
        },
        Component::Combinator(k) => match k {
            Combinator::Child => Feature::CssSel2,
            Combinator::NextSibling => Feature::CssSel2,
            Combinator::LaterSibling => Feature::CssSel3,
            _ => {
                return true;
            },
        },
    };
    match targets {
        Some(t) => feature.is_compatible(&t),
        None => false,
    }
}

/// Whether one pseudo-class is compatible with the targets.
#[verifier::rlimit(100)]
pub fn pseudo_class_compatible(pc: &PseudoClass, targets: Option<Targets>) -> (r: bool)
    ensures
        r == spec_pseudo_class_compatible(*pc, targets),
{
    let feature: Feature = match pc {
                PseudoClass::Link => Feature::CssSel2,
                PseudoClass::Visited => Feature::CssSel2,
                PseudoClass::Active => Feature::CssSel2,
                PseudoClass::Hover => Feature::CssSel2,
                PseudoClass::Focus => Feature::CssSel2,
                PseudoClass::Lang { .. } => Feature::CssSel2,
                PseudoClass::Checked => Feature::CssSel3,
                PseudoClass::Disabled => Feature::CssSel3,
                PseudoClass::Enabled => Feature::CssSel3,
                PseudoClass::Target => Feature::CssSel3,
                PseudoClass::AnyLink(prefix) => {
                    if *prefix == VendorPrefix::unprefixed() {
                        Feature::CssAnyLink
                    } else {
                        return false;
                    }
                },
                PseudoClass::Indeterminate => Feature::CssIndeterminatePseudo,
                PseudoClass::Fullscreen(prefix) => {
                    if *prefix == VendorPrefix::unprefixed() {
                        Feature::Fullscreen
                    } else {
                        return false;
                    }
                },
                PseudoClass::FocusVisible => Feature::CssFocusVisible,
                PseudoClass::FocusWithin => Feature::CssFocusWithin,
                PseudoClass::Default => Feature::CssDefaultPseudo,
                PseudoClass::Dir { .. } => Feature::CssDirPseudo,
                PseudoClass::Optional => Feature::CssOptionalPseudo,
                PseudoClass::PlaceholderShown(prefix) => {
                    if *prefix == VendorPrefix::unprefixed() {
                        Feature::CssPlaceholderShown
                    } else {
                        return false;
                    }
                },
                PseudoClass::ReadOnly(prefix) => {
                    if *prefix == VendorPrefix::unprefixed() {
                        Feature::CssReadOnlyWrite
                    } else {
                        return false;
                    }
                },
                PseudoClass::ReadWrite(prefix) => {
                    if *prefix == VendorPrefix::unprefixed() {
                        Feature::CssReadOnlyWrite
                    } else {
                        return false;
                    }
                },
                PseudoClass::Valid => Feature::FormValidation,
                PseudoClass::Invalid => Feature::FormValidation,
                PseudoClass::Required => Feature::FormValidation,
                PseudoClass::InRange => Feature::CssInOutOfRange,
                PseudoClass::OutOfRange => Feature::CssInOutOfRange,
                PseudoClass::Autofill(prefix) => {
                    if *prefix == VendorPrefix::unprefixed() {
                        Feature::CssAutofill
                    } else {
                        return false;
                    }
                },
                _ => {
                    return false;
                },
    };
    match targets {
        Some(t) => feature.is_compatible(&t),
        None => false,
    }
}

/// Whether one pseudo-element is compatible with the targets.
#[verifier::rlimit(100)]
pub fn pseudo_element_compatible(pe: &PseudoElement, targets: Option<Targets>) -> (r: bool)
    ensures
        r == spec_pseudo_element_compatible(*pe, targets),
{
    let feature: Feature = match pe {
                PseudoElement::After => Feature::CssGencontent,
                PseudoElement::Before => Feature::CssGencontent,
                PseudoElement::FirstLine => Feature::CssFirstLine,
                PseudoElement::FirstLetter => Feature::CssFirstLetter,
                PseudoElement::Selection(prefix) => {
                    if *prefix == VendorPrefix::unprefixed() {
                        Feature::CssSelection
                    } else {
                        return false;
                    }
                },
                PseudoElement::Placeholder(prefix) => {
                    if *prefix == VendorPrefix::unprefixed() {
                        Feature::CssPlaceholder
                    } else {
                        return false;
                    }
                },
                PseudoElement::Marker => Feature::CssMarkerPseudo,
                PseudoElement::Backdrop(prefix) => {
                    if *prefix == VendorPrefix::unprefixed() {
                        Feature::Dialog
                    } else {
                        return false;
                    }
                },
                PseudoElement::Cue => Feature::Cue,
                PseudoElement::CueFunction { .. } => Feature::CueFunction,
                _ => {
                    return false;
                },
    };
    match targets {
        Some(t) => feature.is_compatible(&t),
        None => false,
    }
}

/// Whether a selector list is compatible with the targets: true exactly when
/// no component of any branch requires a missing feature.
pub fn is_compatible(selectors: &SelectorList, targets: Option<Targets>) -> (r: bool)
    ensures
        r == spec_is_compatible(*selectors, targets),
{
    let n = selectors.selectors.len();
    proof {
        assert(selectors.selectors@.skip(0) =~= selectors.selectors@);
    }
    let mut i: usize = 0;
    while i < n
        invariant
            i <= n,
            n == selectors.selectors@.len(),
            spec_selectors_compatible(selectors.selectors@, targets)
                == spec_selectors_compatible(selectors.selectors@.skip(i as int), targets),
        decreases n - i,
    {
        proof {
            assert(selectors.selectors@.skip(i as int)[0] == selectors.selectors@[i as int]);
            assert(selectors.selectors@.skip(i as int).drop_first() =~= selectors.selectors@.skip(
                i + 1 as int,
            ));
        }
        let sel = &selectors.selectors[i];
        let m = sel.components.len();
        proof {
            assert(sel.components@.skip(0) =~= sel.components@);
        }
        let mut k: usize = 0;
        while k < m
            invariant
                k <= m,
                m == sel.components@.len(),
                i < n,
                n == selectors.selectors@.len(),
                *sel == selectors.selectors@[i as int],
                spec_selectors_compatible(selectors.selectors@, targets)
                    == spec_selectors_compatible(selectors.selectors@.skip(i as int), targets),
                spec_components_compatible(sel.components@, targets)
                    == spec_components_compatible(sel.components@.skip(k as int), targets),
            decreases m - k,
        {
            proof {
                assert(sel.components@.skip(k as int)[0] == sel.components@[k as int]);
                assert(sel.components@.skip(k as int).drop_first() =~= sel.components@.skip(
                    k + 1 as int,
                ));
            }
            if !component_compatible(&sel.components[k], targets) {
                proof {
                    assert(!spec_components_compatible(
                        sel.components@.skip(k as int),
                        targets,
                    ));
                    assert(!spec_components_compatible(sel.components@, targets));
                    assert(selectors.selectors@.skip(i as int)[0] == *sel);
                    assert(!spec_selectors_compatible(
                        selectors.selectors@.skip(i as int),
                        targets,
                    ));
                }
                return false;
            }
            k = k + 1;
        }
        proof {
            assert(sel.components@.skip(m as int) =~= Seq::<Component>::empty());
        }
        i = i + 1;
    }
    proof {
        assert(selectors.selectors@.skip(n as int) =~= Seq::<Selector>::empty());
    }
    true
}

} // verus!
