//! The selector data model: combinators, simple selectors, pseudo-classes and
//! pseudo-elements, following CSS Selectors Level 4.
//!
//! A [`Selector`] stores its components in *match order*: the compound
//! selectors appear right-to-left, while the simple selectors inside one
//! compound appear left-to-right, with [`Component::Combinator`] entries
//! between compounds. Serialization walks the components in parse order.

use vstd::prelude::*;
use crate::vendor_prefix::VendorPrefix;

verus! {

/// The argument of the `:dir()` pseudo-class.
#[derive(Debug, Clone, Copy, PartialEq, Eq, Structural)]
pub enum Direction {
    /// Left to right.
    Ltr,
    /// Right to left.
    Rtl,
}

/// A WebKit scrollbar state pseudo-class.
#[derive(Debug, Clone, Copy, PartialEq, Eq, Structural)]
pub enum WebKitScrollbarPseudoClass {
    /// `:horizontal`
    Horizontal,
    /// `:vertical`
    Vertical,
    /// `:decrement`
    Decrement,
    /// `:increment`
    Increment,
    /// `:start`
    Start,
    /// `:end`
    End,
    /// `:double-button`
    DoubleButton,
    /// `:single-button`
    SingleButton,
    /// `:no-button`
    NoButton,
    /// `:corner-present`
    CornerPresent,
    /// `:window-inactive`
    WindowInactive,
}

/// A WebKit scrollbar pseudo-element.
#[derive(Debug, Clone, Copy, PartialEq, Eq, Structural)]
pub enum WebKitScrollbarPseudoElement {
    /// `::-webkit-scrollbar`
    Scrollbar,
    /// `::-webkit-scrollbar-button`
    Button,
    /// `::-webkit-scrollbar-track`
    Track,
    /// `::-webkit-scrollbar-track-piece`
    TrackPiece,
    /// `::-webkit-scrollbar-thumb`
    Thumb,
    /// `::-webkit-scrollbar-corner`
    Corner,
    /// `::-webkit-resizer`
    Resizer,
}

/// An attribute selector operator.
#[derive(Debug, Clone, Copy, PartialEq, Eq, Structural)]
pub enum AttrSelectorOperator {
    /// `=`
    Equal,
    /// `~=`
    Includes,
    /// `|=`
    DashMatch,
    /// `^=`
    Prefix,
    /// `*=`
    Substring,
    /// `$=`
    Suffix,
}

/// The case-sensitivity of an attribute selector's value match.
#[derive(Debug, Clone, Copy, PartialEq, Eq, Structural)]
pub enum ParsedCaseSensitivity {
    /// No flag was given.
    CaseSensitive,
    /// No flag was given, on an attribute that HTML matches
    /// case-insensitively.
    AsciiCaseInsensitiveIfInHtmlElementInHtmlDocument,
    /// The `i` flag.
    AsciiCaseInsensitive,
    /// The `s` flag.
    ExplicitCaseSensitive,
}

/// A combinator between two compound selectors, or a synthetic marker that
/// separates a compound from a trailing pseudo-element, slot or part payload.
#[derive(Debug, Clone, Copy, PartialEq, Eq, Structural)]
pub enum Combinator {
    /// Whitespace.
    Descendant,
    /// `>`
    Child,
    /// `+`
    NextSibling,
    /// `~`
    LaterSibling,
    /// The marker before a pseudo-element; emits no text.
    PseudoElement,
    /// The marker before a `::slotted()` payload; emits no text.
    SlotAssignment,
    /// The marker before a `::part()` payload; emits no text.
    Part,
}

/// A namespace constraint on an attribute selector.
#[derive(Debug, PartialEq, Eq)]
pub enum NamespaceConstraint {
    /// `*|attr`
    Any,
    /// `prefix|attr`: a prefix and the namespace URL it resolved to.
    Specific(String, String),
}

/// The operation of a namespaced attribute selector.
#[derive(Debug, PartialEq, Eq)]
pub enum AttrSelectorOperation {
    /// `[attr]`
    Exists,
    /// `[attr <op> value]`, with an optional case-sensitivity flag.
    WithValue {
        /// The operator.
        operator: AttrSelectorOperator,
        /// The case flag.
        case_sensitivity: ParsedCaseSensitivity,
        /// The expected value.
        value: String,
    },
}

/// A non-tree-structural pseudo-class.
#[derive(Debug, PartialEq, Eq)]
pub enum PseudoClass {
    /// `:lang()`, with one or more language codes.
    Lang {
        /// The language codes.
        languages: Vec<String>,
    },
    /// `:dir()`
    Dir {
        /// The direction.
        direction: Direction,
    },
    /// `:hover`
    Hover,
    /// `:active`
    Active,
    /// `:focus`
    Focus,
    /// `:focus-visible`
    FocusVisible,
    /// `:focus-within`
    FocusWithin,
    /// `:current`
    Current,
    /// `:past`
    Past,
    /// `:future`
    Future,
    /// `:playing`
    Playing,
    /// `:paused`
    Paused,
    /// `:seeking`
    Seeking,
    /// `:buffering`
    Buffering,
    /// `:stalled`
    Stalled,
    /// `:muted`
    Muted,
    /// `:volume-locked`
    VolumeLocked,
    /// `:fullscreen`, with its vendor prefix.
    Fullscreen(VendorPrefix),
    /// `:defined`
    Defined,
    /// `:any-link`, with its vendor prefix.
    AnyLink(VendorPrefix),
    /// `:link`
    Link,
    /// `:local-link`
    LocalLink,
    /// `:target`
    Target,
    /// `:target-within`
    TargetWithin,
    /// `:visited`
    Visited,
    /// `:enabled`
    Enabled,
    /// `:disabled`
    Disabled,
    /// `:read-only`, with its vendor prefix.
    ReadOnly(VendorPrefix),
    /// `:read-write`, with its vendor prefix.
    ReadWrite(VendorPrefix),
    /// `:placeholder-shown`, with its vendor prefix.
    PlaceholderShown(VendorPrefix),
    /// `:default`
    Default,
    /// `:checked`
    Checked,
    /// `:indeterminate`
    Indeterminate,
    /// `:blank`
    Blank,
    /// `:valid`
    Valid,
    /// `:invalid`
    Invalid,
    /// `:in-range`
    InRange,
    /// `:out-of-range`
    OutOfRange,
    /// `:required`
    Required,
    /// `:optional`
    Optional,
    /// `:user-valid`
    UserValid,
    /// `:user-invalid`
    UserInvalid,
    /// `:autofill`, with its vendor prefix.
    Autofill(VendorPrefix),
    /// The CSS modules `:local()` pseudo-class.
    Local {
        /// The inner selector.
        selector: Box<Selector>,
    },
    /// The CSS modules `:global()` pseudo-class.
    Global {
        /// The inner selector.
        selector: Box<Selector>,
    },
    /// A WebKit scrollbar state pseudo-class.
    WebKitScrollbar(WebKitScrollbarPseudoClass),
    /// An unknown pseudo-class.
    Custom {
        /// The name as written.
        name: String,
    },
    /// An unknown functional pseudo-class.
    CustomFunction {
        /// The name as written.
        name: String,
        /// The raw text of the arguments.
        arguments: String,
    },
}

/// A pseudo-element.
#[derive(Debug, PartialEq, Eq)]
pub enum PseudoElement {
    /// `::after`
    After,
    /// `::before`
    Before,
    /// `::first-line`
    FirstLine,
    /// `::first-letter`
    FirstLetter,
    /// `::selection`, with its vendor prefix.
    Selection(VendorPrefix),
    /// `::placeholder`, with its vendor prefix.
    Placeholder(VendorPrefix),
    /// `::marker`
    Marker,
    /// `::backdrop`, with its vendor prefix.
    Backdrop(VendorPrefix),
    /// `::file-selector-button`, with its vendor prefix.
    FileSelectorButton(VendorPrefix),
    /// A WebKit scrollbar pseudo-element.
    WebKitScrollbar(WebKitScrollbarPseudoElement),
    /// `::cue`
    Cue,
    /// `::cue-region`
    CueRegion,
    /// `::cue()`
    CueFunction {
        /// The selector argument.
        selector: Box<Selector>,
    },
    /// `::cue-region()`
    CueRegionFunction {
        /// The selector argument.
        selector: Box<Selector>,
    },
    /// An unknown pseudo-element.
    Custom {
        /// The name as written.
        name: String,
    },
    /// An unknown functional pseudo-element.
    CustomFunction {
        /// The name as written.
        name: String,
        /// The raw text of the arguments.
        arguments: String,
    },
}

/// One atom of a compound selector, or a combinator between compounds.
#[derive(Debug, PartialEq, Eq)]
pub enum Component {
    /// A combinator (only in match-order storage).
    Combinator(Combinator),
    /// `*|` before a name.
    ExplicitAnyNamespace,
    /// `|` before a name.
    ExplicitNoNamespace,
    /// The default namespace applies; holds its URL. Emits no text.
    DefaultNamespace(String),
    /// `prefix|` before a name: the prefix and the URL it resolved to.
    Namespace(String, String),
    /// `*`
    ExplicitUniversalType,
    /// A type selector.
    LocalName(String),
    /// `#id`
    ID(String),
    /// `.class`
    Class(String),
    /// `[attr]` in no namespace.
    AttributeInNoNamespaceExists {
        /// The attribute name.
        local_name: String,
    },
    /// `[attr <op> value]` in no namespace.
    AttributeInNoNamespace {
        /// The attribute name.
        local_name: String,
        /// The operator.
        operator: AttrSelectorOperator,
        /// The expected value.
        value: String,
        /// The case flag.
        case_sensitivity: ParsedCaseSensitivity,
    },
    /// An attribute selector with a namespace constraint.
    AttributeOther {
        /// The namespace constraint, if any.
        namespace: Option<NamespaceConstraint>,
        /// The attribute name.
        local_name: String,
        /// The operation.
        operation: AttrSelectorOperation,
    },
    /// `:first-child`
    FirstChild,
    /// `:last-child`
    LastChild,
    /// `:only-child`
    OnlyChild,
    /// `:root`
    Root,
    /// `:empty`
    Empty,
    /// `:scope`
    Scope,
    /// `:first-of-type`
    FirstOfType,
    /// `:last-of-type`
    LastOfType,
    /// `:only-of-type`
    OnlyOfType,
    /// `:nth-child(An+B)`
    NthChild(i32, i32),
    /// `:nth-last-child(An+B)`
    NthLastChild(i32, i32),
    /// `:nth-of-type(An+B)`
    NthOfType(i32, i32),
    /// `:nth-last-of-type(An+B)`
    NthLastOfType(i32, i32),
    /// `:nth-col(An+B)`
    NthCol(i32, i32),
    /// `:nth-last-col(An+B)`
    NthLastCol(i32, i32),
    /// A non-tree-structural pseudo-class.
    NonTSPseudoClass(PseudoClass),
    /// A pseudo-element.
    PseudoElement(PseudoElement),
    /// `:not()`
    Negation(Vec<Selector>),
    /// `:is()`
    Is(Vec<Selector>),
    /// `:where()`
    Where(Vec<Selector>),
    /// `:has()`
    Has(Vec<Selector>),
    /// `:-webkit-any()` / `:-moz-any()`, with the prefix it was written with.
    Any(VendorPrefix, Vec<Selector>),
    /// `::slotted()`
    Slotted(Box<Selector>),
    /// `::part()`
    Part(Vec<String>),
    /// `:host` or `:host()`
    Host(Option<Box<Selector>>),
    /// The nesting selector `&`.
    Nesting,
}

/// A single selector: one comma-separated branch of a selector list, stored
/// in match order.
#[derive(Debug, PartialEq, Eq)]
pub struct Selector {
    /// The components, in match order.
    pub components: Vec<Component>,
}

/// A list of selectors, one per comma-separated branch, in source order.
#[derive(Debug, PartialEq, Eq)]
pub struct SelectorList {
    /// The branches, in source order.
    pub selectors: Vec<Selector>,
}

/// A marker for this crate's selector dialect.
#[derive(Debug, Clone, Copy, PartialEq, Eq, Structural)]
pub struct Selectors;

// ---------------------------------------------------------------------------
// Sizes, used as termination measures for the recursive walks of a tree.
// ---------------------------------------------------------------------------

/// The size of a pseudo-class subtree.
pub open spec fn pseudo_class_size(pc: PseudoClass) -> nat
    decreases pc,
{
    match pc {
        PseudoClass::Local { selector } => 1 + selector_size(*selector),
        PseudoClass::Global { selector } => 1 + selector_size(*selector),
        _ => 1,
    }
}

/// The size of a pseudo-element subtree.
pub open spec fn pseudo_element_size(pe: PseudoElement) -> nat
    decreases pe,
{
    match pe {
        PseudoElement::CueFunction { selector } => 1 + selector_size(*selector),
        PseudoElement::CueRegionFunction { selector } => 1 + selector_size(*selector),
        _ => 1,
    }
}

/// The size of a component subtree.
pub open spec fn component_size(c: Component) -> nat
    decreases c,
{
    match c {
        Component::Negation(list) => 1 + selector_seq_size(list@),
        Component::Is(list) => 1 + selector_seq_size(list@),
        Component::Where(list) => 1 + selector_seq_size(list@),
        Component::Has(list) => 1 + selector_seq_size(list@),
        Component::Any(_, list) => 1 + selector_seq_size(list@),
        Component::Slotted(s) => 1 + selector_size(*s),
        Component::Host(os) => match os {
            Some(s) => 1 + selector_size(*s),
            None => 1,
        },
        Component::NonTSPseudoClass(pc) => 1 + pseudo_class_size(pc),
        Component::PseudoElement(pe) => 1 + pseudo_element_size(pe),
        _ => 1,
    }
}

/// The summed size of a sequence of components.
pub open spec fn component_seq_size(cs: Seq<Component>) -> nat
    decreases cs,
{
    if cs.len() == 0 {
        0
    } else {
        component_size(cs[0]) + component_seq_size(cs.drop_first())
    }
}

/// The size of a selector subtree.
pub open spec fn selector_size(s: Selector) -> nat
    decreases s,
{
    1 + component_seq_size(s.components@)
}

/// The summed size of a sequence of selectors.
pub open spec fn selector_seq_size(ss: Seq<Selector>) -> nat
    decreases ss,
{
    if ss.len() == 0 {
        0
    } else {
        selector_size(ss[0]) + selector_seq_size(ss.drop_first())
    }
}

/// Every component of a sequence weighs no more than the whole sequence.
pub proof fn lemma_component_seq_size_ge(cs: Seq<Component>, i: int)
    requires
        0 <= i < cs.len(),
    ensures
        component_seq_size(cs) >= component_size(cs[i]),
        component_size(cs[i]) >= 1,
    decreases cs.len(),
{
    if i == 0 {
    } else {
        lemma_component_seq_size_ge(cs.drop_first(), i - 1);
    }
}

/// Every selector of a sequence weighs no more than the whole sequence.
pub proof fn lemma_selector_seq_size_ge(ss: Seq<Selector>, i: int)
    requires
        0 <= i < ss.len(),
    ensures
        selector_seq_size(ss) >= selector_size(ss[i]),
        selector_size(ss[i]) >= 1,
    decreases ss.len(),
{
    if i == 0 {
    } else {
        lemma_selector_seq_size_ge(ss.drop_first(), i - 1);
    }
}

// ---------------------------------------------------------------------------
// Structural predicates.
// ---------------------------------------------------------------------------

/// Whether a component is a combinator entry.
pub open spec fn spec_is_combinator(c: Component) -> bool {
    c is Combinator
}

/// Whether a component is a tree combinator: descendant, child, next-sibling
/// or later-sibling, as opposed to a synthetic marker.
pub open spec fn spec_is_tree_combinator(c: Component) -> bool {
    match c {
        Component::Combinator(k) => k == Combinator::Descendant || k == Combinator::Child
            || k == Combinator::NextSibling || k == Combinator::LaterSibling,
        _ => false,
    }
}

/// Whether a component is a type selector: a local name or the explicit
/// universal selector.
pub open spec fn spec_is_type_selector(c: Component) -> bool {
    c is LocalName || c is ExplicitUniversalType
}

/// Whether a component is a namespace atom.
pub open spec fn spec_is_namespace(c: Component) -> bool {
    c is ExplicitAnyNamespace || c is ExplicitNoNamespace || c is Namespace
        || c is DefaultNamespace
}

/// The largest index of a combinator entry in a component sequence, or -1
/// when it has none.
pub open spec fn last_combinator_index(cs: Seq<Component>) -> int
    decreases cs.len(),
{
    if cs.len() == 0 {
        -1
    } else if spec_is_combinator(cs[cs.len() - 1]) {
        cs.len() - 1
    } else {
        last_combinator_index(cs.take(cs.len() - 1))
    }
}

/// What [`last_combinator_index`] returns: an index of a combinator with no
/// combinator after it, or -1 when the sequence has no combinator.
pub proof fn lemma_last_combinator_index(cs: Seq<Component>)
    ensures
        -1 <= last_combinator_index(cs) < cs.len(),
        last_combinator_index(cs) >= 0 ==> spec_is_combinator(cs[last_combinator_index(cs)]),
        forall|i: int|
            last_combinator_index(cs) < i < cs.len() ==> !spec_is_combinator(#[trigger] cs[i]),
    decreases cs.len(),
{
    if cs.len() == 0 {
    } else if spec_is_combinator(cs[cs.len() - 1]) {
    } else {
        lemma_last_combinator_index(cs.take(cs.len() - 1));
        assert forall|i: int|
            last_combinator_index(cs) < i < cs.len() implies !spec_is_combinator(
            #[trigger] cs[i],
        ) by {
            if i < cs.len() - 1 {
                assert(cs.take(cs.len() - 1)[i] == cs[i]);
            }
        }
    }
}

/// A combinator index with no combinator after it is the last one.
pub proof fn lemma_last_combinator_index_unique(cs: Seq<Component>, j: int)
    requires
        0 <= j < cs.len(),
        spec_is_combinator(cs[j]),
        forall|i: int| j < i < cs.len() ==> !spec_is_combinator(#[trigger] cs[i]),
    ensures
        last_combinator_index(cs) == j,
    decreases cs.len(),
{
    if j == cs.len() - 1 {
    } else {
        assert(cs.take(cs.len() - 1)[j] == cs[j]);
        assert forall|i: int|
            j < i < cs.len() - 1 implies !spec_is_combinator(
            #[trigger] cs.take(cs.len() - 1)[i],
        ) by {
            assert(cs.take(cs.len() - 1)[i] == cs[i]);
        }
        lemma_last_combinator_index_unique(cs.take(cs.len() - 1), j);
    }
}

/// A sequence with no combinator has no last combinator index.
pub proof fn lemma_last_combinator_index_none(cs: Seq<Component>)
    requires
        forall|i: int| 0 <= i < cs.len() ==> !spec_is_combinator(#[trigger] cs[i]),
    ensures
        last_combinator_index(cs) == -1,
    decreases cs.len(),
{
    if cs.len() > 0 {
        assert forall|i: int|
            0 <= i < cs.len() - 1 implies !spec_is_combinator(
            #[trigger] cs.take(cs.len() - 1)[i],
        ) by {
            assert(cs.take(cs.len() - 1)[i] == cs[i]);
        }
        lemma_last_combinator_index_none(cs.take(cs.len() - 1));
    }
}

impl Component {
    /// Whether this component is a combinator entry.
    pub fn is_combinator(&self) -> (r: bool)
        ensures
            r == spec_is_combinator(*self),
    {
        match self {
            Component::Combinator(_) => true,
            _ => false,
        }
    }

    /// Whether this component is a tree combinator.
    pub fn is_tree_combinator(&self) -> (r: bool)
        ensures
            r == spec_is_tree_combinator(*self),
    {
        match self {
            Component::Combinator(k) => match k {
                Combinator::Descendant => true,
                Combinator::Child => true,
                Combinator::NextSibling => true,
                Combinator::LaterSibling => true,
                _ => false,
            },
            _ => false,
        }
    }

    /// Whether this component is a type selector.
    pub fn is_type_selector(&self) -> (r: bool)
        ensures
            r == spec_is_type_selector(*self),
    {
        match self {
            Component::LocalName(_) => true,
            Component::ExplicitUniversalType => true,
            _ => false,
        }
    }

    /// Whether this component is a namespace atom.
    pub fn is_namespace(&self) -> (r: bool)
        ensures
            r == spec_is_namespace(*self),
    {
        match self {
            Component::ExplicitAnyNamespace => true,
            Component::ExplicitNoNamespace => true,
            Component::Namespace(_, _) => true,
            Component::DefaultNamespace(_) => true,
            _ => false,
        }
    }
}

/// Whether a selector's components hold a tree combinator.
pub open spec fn spec_has_tree_combinator(s: Selector) -> bool {
    exists|i: int|
        0 <= i < s.components@.len() && spec_is_tree_combinator(#[trigger] s.components@[i])
}

/// Whether a selector's components hold any combinator entry, synthetic
/// markers included.
pub open spec fn spec_has_any_combinator(s: Selector) -> bool {
    exists|i: int| 0 <= i < s.components@.len() && spec_is_combinator(#[trigger] s.components@[i])
}

/// Whether a selector is simple: a single compound, with no combinator entry.
pub open spec fn spec_is_simple(s: Selector) -> bool {
    !spec_has_any_combinator(s)
}

/// Whether a selector's first parse-order compound starts with a type
/// selector, after an optional namespace atom.
pub open spec fn spec_has_type_selector(s: Selector) -> bool {
    let cs = s.components@;
    let f = last_combinator_index(cs) + 1;
    if f < cs.len() && spec_is_namespace(cs[f]) {
        f + 1 < cs.len() && spec_is_type_selector(cs[f + 1])
    } else {
        f < cs.len() && spec_is_type_selector(cs[f])
    }
}

impl Selector {
    /// Whether this selector holds a tree combinator.
    pub fn has_combinator(&self) -> (r: bool)
        ensures
            r == spec_has_tree_combinator(*self),
    {
        let n = self.components.len();
        let mut i: usize = 0;
        while i < n
            invariant
                0 <= i <= n,
                n == self.components@.len(),
                forall|k: int| 0 <= k < i ==> !spec_is_tree_combinator(#[trigger] self.components@[k]),
            decreases n - i,
        {
            if self.components[i].is_tree_combinator() {
                return true;
            }
            i = i + 1;
        }
        false
    }

    /// Whether this selector is a single compound, with no combinator entry.
    pub fn is_simple(&self) -> (r: bool)
        ensures
            r == spec_is_simple(*self),
    {
        let n = self.components.len();
        let mut i: usize = 0;
        while i < n
            invariant
                0 <= i <= n,
                n == self.components@.len(),
                forall|k: int| 0 <= k < i ==> !spec_is_combinator(#[trigger] self.components@[k]),
            decreases n - i,
        {
            if self.components[i].is_combinator() {
                return false;
            }
            i = i + 1;
        }
        true
    }

    /// The largest index of a combinator entry among the first `hi`
    /// components, if any.
    pub fn find_last_combinator(&self, hi: usize) -> (r: Option<usize>)
        requires
            hi <= self.components@.len(),
        ensures
            match r {
                Some(j) => j == last_combinator_index(self.components@.take(hi as int)),
                None => last_combinator_index(self.components@.take(hi as int)) == -1,
            },
    {
        let ghost pre = self.components@.take(hi as int);
        let mut i: usize = hi;
        while i > 0
            invariant
                0 <= i <= hi,
                hi <= self.components@.len(),
                pre == self.components@.take(hi as int),
                forall|k: int| i <= k < hi ==> !spec_is_combinator(#[trigger] pre[k]),
            decreases i,
        {
            i = i - 1;
            if self.components[i].is_combinator() {
                proof {
                    assert(pre[i as int] == self.components@[i as int]);
                    lemma_last_combinator_index_unique(pre, i as int);
                }
                return Some(i);
            }
            proof {
                assert(pre[i as int] == self.components@[i as int]);
            }
        }
        proof {
            lemma_last_combinator_index_none(pre);
        }
        None
    }

    /// Whether the first parse-order compound starts with a type selector,
    /// after an optional namespace atom.
    pub fn has_type_selector(&self) -> (r: bool)
        ensures
            r == spec_has_type_selector(*self),
    {
        let n = self.components.len();
        proof {
            assert(self.components@.take(n as int) =~= self.components@);
        }
        let lc = self.find_last_combinator(n);
        proof {
            lemma_last_combinator_index(self.components@);
        }
        let f: usize = match lc {
            Some(j) => j + 1,
            None => 0,
        };
        if f < n && self.components[f].is_namespace() {
            f + 1 < n && self.components[f + 1].is_type_selector()
        } else {
            f < n && self.components[f].is_type_selector()
        }
    }
}

// ---------------------------------------------------------------------------
// Well-formedness.
// ---------------------------------------------------------------------------

/// Well-formedness of one component: its nested selector lists are non-empty
/// and well-formed.
pub open spec fn component_well_formed(c: Component) -> bool
    decreases c, 0int,
{
    match c {
        Component::Negation(list) => list@.len() > 0 && selector_seq_well_formed(list@),
        Component::Is(list) => list@.len() > 0 && selector_seq_well_formed(list@),
        Component::Where(list) => list@.len() > 0 && selector_seq_well_formed(list@),
        Component::Has(list) => list@.len() > 0 && selector_seq_well_formed(list@),
        Component::Any(_, list) => list@.len() > 0 && selector_seq_well_formed(list@),
        Component::Slotted(s) => selector_well_formed(*s),
        Component::Host(os) => match os {
            Some(s) => selector_well_formed(*s),
            None => true,
        },
        Component::NonTSPseudoClass(pc) => match pc {
            PseudoClass::Local { selector } => selector_well_formed(*selector),
            PseudoClass::Global { selector } => selector_well_formed(*selector),
            PseudoClass::Lang { languages } => languages@.len() > 0,
            _ => true,
        },
        Component::PseudoElement(pe) => match pe {
            PseudoElement::CueFunction { selector } => selector_well_formed(*selector),
            PseudoElement::CueRegionFunction { selector } => selector_well_formed(*selector),
            _ => true,
        },
        _ => true,
    }
}

/// Well-formedness of a component sequence in match order: non-empty,
/// combinators only between non-empty compound groups, and each component
/// well-formed.
pub open spec fn components_well_formed(cs: Seq<Component>) -> bool
    decreases cs, 1int,
{
    &&& cs.len() > 0
    &&& !spec_is_combinator(cs[0])
    &&& !spec_is_combinator(cs[cs.len() - 1])
    &&& forall|i: int|
        0 <= i < cs.len() - 1 ==> !(spec_is_combinator(#[trigger] cs[i]) && spec_is_combinator(
            cs[i + 1],
        ))
    &&& components_each_well_formed(cs)
}

/// Each component of a sequence is well-formed.
pub open spec fn components_each_well_formed(cs: Seq<Component>) -> bool
    decreases cs, 0int,
{
    if cs.len() == 0 {
        true
    } else {
        component_well_formed(cs[0]) && components_each_well_formed(cs.drop_first())
    }
}

/// Well-formedness of a selector.
pub open spec fn selector_well_formed(s: Selector) -> bool
    decreases s, 1int,
{
    components_well_formed(s.components@)
}

/// Well-formedness of a sequence of selectors.
pub open spec fn selector_seq_well_formed(ss: Seq<Selector>) -> bool
    decreases ss, 0int,
{
    if ss.len() == 0 {
        true
    } else {
        selector_well_formed(ss[0]) && selector_seq_well_formed(ss.drop_first())
    }
}

impl Selector {
    /// Well-formedness: non-empty, combinators only between non-empty
    /// compound groups, nested lists well-formed.
    pub open spec fn well_formed(self) -> bool {
        selector_well_formed(self)
    }
}

impl SelectorList {
    /// Well-formedness: at least one branch, each well-formed.
    pub open spec fn well_formed(self) -> bool {
        self.selectors@.len() > 0 && selector_seq_well_formed(self.selectors@)
    }
}


impl PseudoClass {
    /// Whether this is `:active` or `:hover`.
    pub open spec fn spec_is_active_or_hover(self) -> bool {
        self is Active || self is Hover
    }

    /// Whether this is `:active` or `:hover`.
    pub fn is_active_or_hover(&self) -> (r: bool)
        ensures
            r == self.spec_is_active_or_hover(),
    {
        match self {
            PseudoClass::Active => true,
            PseudoClass::Hover => true,
            _ => false,
        }
    }

    /// Whether this is a user-action state pseudo-class.
    pub open spec fn spec_is_user_action_state(self) -> bool {
        self is Active || self is Hover || self is Focus || self is FocusWithin
            || self is FocusVisible
    }

    /// Whether this is a user-action state pseudo-class.
    pub fn is_user_action_state(&self) -> (r: bool)
        ensures
            r == self.spec_is_user_action_state(),
    {
        match self {
            PseudoClass::Active => true,
            PseudoClass::Hover => true,
            PseudoClass::Focus => true,
            PseudoClass::FocusWithin => true,
            PseudoClass::FocusVisible => true,
            _ => false,
        }
    }

    /// Whether this pseudo-class may precede `::-webkit-scrollbar`.
    pub open spec fn spec_is_valid_before_webkit_scrollbar(self) -> bool {
        !(self is WebKitScrollbar)
    }

    /// Whether this pseudo-class may precede `::-webkit-scrollbar`.
    pub fn is_valid_before_webkit_scrollbar(&self) -> (r: bool)
        ensures
            r == self.spec_is_valid_before_webkit_scrollbar(),
    {
        match self {
            PseudoClass::WebKitScrollbar(_) => false,
            _ => true,
        }
    }

    /// Whether this pseudo-class may follow `::-webkit-scrollbar`.
    pub open spec fn spec_is_valid_after_webkit_scrollbar(self) -> bool {
        self is WebKitScrollbar || self is Enabled || self is Disabled || self is Hover
            || self is Active
    }

    /// Whether this pseudo-class may follow `::-webkit-scrollbar`.
    pub fn is_valid_after_webkit_scrollbar(&self) -> (r: bool)
        ensures
            r == self.spec_is_valid_after_webkit_scrollbar(),
    {
        match self {
            PseudoClass::WebKitScrollbar(_) => true,
            PseudoClass::Enabled => true,
            PseudoClass::Disabled => true,
            PseudoClass::Hover => true,
            PseudoClass::Active => true,
            _ => false,
        }
    }
}

impl PseudoElement {
    /// Whether state pseudo-classes may follow this pseudo-element. The
    /// parser is lenient and accepts them everywhere.
    pub fn accepts_state_pseudo_classes(&self) -> (r: bool)
        ensures
            r == true,
    {
        true
    }

    /// Whether this pseudo-element is tree-abiding and therefore valid
    /// inside `::slotted()`.
    pub open spec fn spec_valid_after_slotted(self) -> bool {
        self is Before || self is After || self is Marker || self is Placeholder
            || self is FileSelectorButton
    }

    /// Whether this pseudo-element is valid inside `::slotted()`.
    pub fn valid_after_slotted(&self) -> (r: bool)
        ensures
            r == self.spec_valid_after_slotted(),
    {
        match self {
            PseudoElement::Before => true,
            PseudoElement::After => true,
            PseudoElement::Marker => true,
            PseudoElement::Placeholder(_) => true,
            PseudoElement::FileSelectorButton(_) => true,
            _ => false,
        }
    }

    /// Whether this is a WebKit scrollbar pseudo-element.
    pub open spec fn spec_is_webkit_scrollbar(self) -> bool {
        self is WebKitScrollbar
    }

    /// Whether this is a WebKit scrollbar pseudo-element.
    pub fn is_webkit_scrollbar(&self) -> (r: bool)
        ensures
            r == self.spec_is_webkit_scrollbar(),
    {
        match self {
            PseudoElement::WebKitScrollbar(_) => true,
            _ => false,
        }
    }
}

/// The size of a prefix plus the size of the rest equals the whole.
pub proof fn lemma_component_seq_size_split(cs: Seq<Component>, i: int)
    requires
        0 <= i <= cs.len(),
    ensures
        component_seq_size(cs) == component_seq_size(cs.take(i)) + component_seq_size(
            cs.skip(i),
        ),
    decreases i,
{
    if i == 0 {
        assert(cs.take(0) =~= Seq::<Component>::empty());
        assert(cs.skip(0) =~= cs);
    } else {
        lemma_component_seq_size_split(cs.drop_first(), i - 1);
        assert(cs.take(i).drop_first() =~= cs.drop_first().take(i - 1));
        assert(cs.skip(i) =~= cs.drop_first().skip(i - 1));
        assert(cs.take(i)[0] == cs[0]);
        assert(cs.take(i).len() != 0);
    }
}

/// A contiguous part of a sequence weighs no more than the whole.
pub proof fn lemma_component_seq_size_subrange(cs: Seq<Component>, lo: int, hi: int)
    requires
        0 <= lo <= hi <= cs.len(),
    ensures
        component_seq_size(cs.subrange(lo, hi)) <= component_seq_size(cs),
{
    lemma_component_seq_size_split(cs, hi);
    lemma_component_seq_size_split(cs.take(hi), lo);
    assert(cs.take(hi).skip(lo) =~= cs.subrange(lo, hi));
}

} // verus!
