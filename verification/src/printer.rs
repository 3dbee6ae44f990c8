//! The output sink for serialization: a growing string, the printing options
//! that influence spelling choices, and the escaping primitives.
//!
//! Identifier and string escaping follow the CSS syntax rules and are
//! delegated to the `cssparser` crate; their results are named by the
//! uninterpreted functions [`escaped_ident`] and [`escaped_string`].

use vstd::prelude::*;
use vstd::string::StringExecFns;
use crate::targets::Targets;
use crate::vendor_prefix::VendorPrefix;

verus! {

/// An optional remapping of user-action pseudo-classes to plain class names,
/// for server-side rendering.
#[derive(Debug, PartialEq, Eq)]
pub struct PseudoClasses {
    /// The class emitted for `:hover`, if any.
    pub hover: Option<String>,
    /// The class emitted for `:active`, if any.
    pub active: Option<String>,
    /// The class emitted for `:focus`, if any.
    pub focus: Option<String>,
    /// The class emitted for `:focus-visible`, if any.
    pub focus_visible: Option<String>,
    /// The class emitted for `:focus-within`, if any.
    pub focus_within: Option<String>,
}

/// The options a printer carries; serialization reads them and, apart from a
/// scoped save and restore of `css_module`, never changes them.
#[derive(Debug, PartialEq, Eq)]
pub struct PrintState {
    /// Prefer the shortest spelling.
    pub minify: bool,
    /// The browser targets, if any; absent means every feature is assumed
    /// supported.
    pub targets: Option<Targets>,
    /// A vendor-prefix override used when a prefixed duplicate of a rule is
    /// being emitted; empty means each pseudo's own prefix is used.
    pub vendor_prefix: VendorPrefix,
    /// Whether CSS-modules local-name renaming is active. The renaming table
    /// itself is an external collaborator; serialization only tracks and
    /// scopes this flag.
    pub css_module: bool,
    /// The user-action pseudo-class remapping, if any.
    pub pseudo_classes: Option<PseudoClasses>,
}

impl PrintState {
    /// The state [`PrintState::plain`] returns.
    pub open spec fn spec_plain() -> Self {
        PrintState {
            minify: false,
            targets: None,
            vendor_prefix: VendorPrefix { none: false, webkit: false, moz: false, ms: false, o: false },
            css_module: false,
            pseudo_classes: None,
        }
    }

    /// The state with everything off: no minification, no targets, no
    /// override, no CSS modules, no remapping.
    pub fn plain() -> (r: Self)
        ensures
            r == Self::spec_plain(),
    {
        PrintState {
            minify: false,
            targets: None,
            vendor_prefix: VendorPrefix::empty(),
            css_module: false,
            pseudo_classes: None,
        }
    }
}

/// A text sink holding the output built so far and the printing options.
#[derive(Debug)]
pub struct Printer {
    /// The output text.
    pub out: String,
    /// The options.
    pub state: PrintState,
}

/// What `cssparser::serialize_identifier` returns for the given characters:
/// the text escaped as a CSS identifier.
pub uninterp spec fn escaped_ident(s: Seq<char>) -> Seq<char>;

/// What `cssparser::serialize_string` returns for the given characters: the
/// text escaped and wrapped in double quotes.
pub uninterp spec fn escaped_string(s: Seq<char>) -> Seq<char>;

/// Relies on `cssparser::serialize_identifier`: escapes text as a CSS
/// identifier. The result depends on the characters alone, and an empty
/// input yields an empty result.
#[verifier::external_body]
pub fn escape_ident(s: &str) -> (r: String)
    ensures
        r@ == escaped_ident(s@),
        s@.len() == 0 ==> r@.len() == 0,
{
    let mut out = String::new();
    let _ = cssparser::serialize_identifier(s, &mut out);
    out
}

/// Relies on `cssparser::serialize_string`: escapes text as a double-quoted
/// CSS string, quotes included. The result depends on the characters alone.
#[verifier::external_body]
pub fn escape_string(s: &str) -> (r: String)
    ensures
        r@ == escaped_string(s@),
{
    let mut out = String::new();
    let _ = cssparser::serialize_string(s, &mut out);
    out
}

/// The text of one whitespace step: a space, or nothing when minifying.
pub open spec fn whitespace_text(minify: bool) -> Seq<char> {
    if minify {
        Seq::<char>::empty()
    } else {
        " "@
    }
}

/// The text a delimiter emits: optional whitespace before, the delimiter,
/// then whitespace; whitespace disappears when minifying.
pub open spec fn delim_text(c: Seq<char>, ws_before: bool, minify: bool) -> Seq<char> {
    (if ws_before {
        whitespace_text(minify)
    } else {
        Seq::<char>::empty()
    }) + c + whitespace_text(minify)
}

impl Printer {
    /// A printer with no output yet.
    pub fn new(state: PrintState) -> (r: Self)
        ensures
            r.out@ == Seq::<char>::empty(),
            r.state == state,
    {
        Printer { out: String::new(), state }
    }

    /// Append literal text.
    pub fn write_str(&mut self, s: &str)
        ensures
            final(self).out@ == old(self).out@ + s@,
            final(self).state == old(self).state,
    {
        self.out.append(s);
    }

    /// Append a space unless minifying.
    pub fn whitespace(&mut self)
        ensures
            final(self).out@ == old(self).out@ + whitespace_text(old(self).state.minify),
            final(self).state == old(self).state,
    {
        if !self.state.minify {
            self.out.append(" ");
        } else {
            proof {
                assert(old(self).out@ + whitespace_text(old(self).state.minify) =~= old(
                    self,
                ).out@);
            }
        }
    }

    /// Append a delimiter, with whitespace after it and optionally before it.
    pub fn delim(&mut self, c: &str, ws_before: bool)
        ensures
            final(self).out@ == old(self).out@ + delim_text(c@, ws_before, old(self).state.minify),
            final(self).state == old(self).state,
    {
        if ws_before {
            self.whitespace();
        }
        self.write_str(c);
        self.whitespace();
        proof {
            assert(self.out@ =~= old(self).out@ + delim_text(
                c@,
                ws_before,
                old(self).state.minify,
            ));
        }
    }

    /// Append text escaped as a CSS identifier.
    pub fn write_ident(&mut self, s: &str)
        ensures
            final(self).out@ == old(self).out@ + escaped_ident(s@),
            final(self).state == old(self).state,
    {
        let escaped = escape_ident(s);
        self.out.append(escaped.as_str());
    }
}

} // verus!
