//! Vendor prefixes, represented as a set of flags.

use vstd::prelude::*;

verus! {

/// A set of vendor prefixes. The `none` flag stands for the unprefixed
/// spelling; an all-false value means "no prefix applicable".
#[derive(Clone, Copy, PartialEq, Eq, Structural, Debug)]
pub struct VendorPrefix {
    /// The unprefixed spelling.
    pub none: bool,
    /// `-webkit-`
    pub webkit: bool,
    /// `-moz-`
    pub moz: bool,
    /// `-ms-`
    pub ms: bool,
    /// `-o-`
    pub o: bool,
}

impl VendorPrefix {
    /// The singleton set holding the unprefixed spelling.
    pub open spec fn spec_unprefixed() -> Self {
        VendorPrefix { none: true, webkit: false, moz: false, ms: false, o: false }
    }

    /// The singleton `-webkit-` set.
    pub open spec fn spec_webkit() -> Self {
        VendorPrefix { none: false, webkit: true, moz: false, ms: false, o: false }
    }

    /// The singleton `-moz-` set.
    pub open spec fn spec_moz() -> Self {
        VendorPrefix { none: false, webkit: false, moz: true, ms: false, o: false }
    }

    /// The singleton `-ms-` set.
    pub open spec fn spec_ms() -> Self {
        VendorPrefix { none: false, webkit: false, moz: false, ms: true, o: false }
    }

    /// The singleton `-o-` set.
    pub open spec fn spec_o() -> Self {
        VendorPrefix { none: false, webkit: false, moz: false, ms: false, o: true }
    }

    /// True when no flag is set.
    pub open spec fn spec_is_empty(self) -> bool {
        !self.none && !self.webkit && !self.moz && !self.ms && !self.o
    }

    /// The union of two prefix sets.
    pub open spec fn spec_or(self, other: Self) -> Self {
        VendorPrefix {
            none: self.none || other.none,
            webkit: self.webkit || other.webkit,
            moz: self.moz || other.moz,
            ms: self.ms || other.ms,
            o: self.o || other.o,
        }
    }

    /// True when the two sets share at least one flag.
    pub open spec fn spec_intersects(self, other: Self) -> bool {
        (self.none && other.none) || (self.webkit && other.webkit) || (self.moz && other.moz)
            || (self.ms && other.ms) || (self.o && other.o)
    }

    /// The empty set.
    pub fn empty() -> (r: Self)
        ensures
            r == (VendorPrefix { none: false, webkit: false, moz: false, ms: false, o: false }),
    {
        VendorPrefix { none: false, webkit: false, moz: false, ms: false, o: false }
    }

    /// The singleton set holding the unprefixed spelling.
    pub fn unprefixed() -> (r: Self)
        ensures
            r == (VendorPrefix { none: true, webkit: false, moz: false, ms: false, o: false }),
    {
        VendorPrefix { none: true, webkit: false, moz: false, ms: false, o: false }
    }

    /// The singleton `-webkit-` set.
    pub fn webkit() -> (r: Self)
        ensures
            r == (VendorPrefix { none: false, webkit: true, moz: false, ms: false, o: false }),
    {
        VendorPrefix { none: false, webkit: true, moz: false, ms: false, o: false }
    }

    /// The singleton `-moz-` set.
    pub fn moz() -> (r: Self)
        ensures
            r == (VendorPrefix { none: false, webkit: false, moz: true, ms: false, o: false }),
    {
        VendorPrefix { none: false, webkit: false, moz: true, ms: false, o: false }
    }

    /// The singleton `-ms-` set.
    pub fn ms() -> (r: Self)
        ensures
            r == (VendorPrefix { none: false, webkit: false, moz: false, ms: true, o: false }),
    {
        VendorPrefix { none: false, webkit: false, moz: false, ms: true, o: false }
    }

    /// The singleton `-o-` set.
    pub fn o() -> (r: Self)
        ensures
            r == (VendorPrefix { none: false, webkit: false, moz: false, ms: false, o: true }),
    {
        VendorPrefix { none: false, webkit: false, moz: false, ms: false, o: true }
    }

    /// True when no flag is set.
    pub fn is_empty(&self) -> (r: bool)
        ensures
            r == self.spec_is_empty(),
    {
        !self.none && !self.webkit && !self.moz && !self.ms && !self.o
    }

    /// The union of two prefix sets.
    pub fn or(&self, other: &Self) -> (r: Self)
        ensures
            r == self.spec_or(*other),
    {
        VendorPrefix {
            none: self.none || other.none,
            webkit: self.webkit || other.webkit,
            moz: self.moz || other.moz,
            ms: self.ms || other.ms,
            o: self.o || other.o,
        }
    }

    /// True when the two sets share at least one flag.
    pub fn intersects(&self, other: &Self) -> (r: bool)
        ensures
            r == self.spec_intersects(*other),
    {
        (self.none && other.none) || (self.webkit && other.webkit) || (self.moz && other.moz)
            || (self.ms && other.ms) || (self.o && other.o)
    }

    /// The textual form of the highest-priority prefix flag in the set:
    /// `-webkit-`, `-moz-`, `-ms-` or `-o-`; the `none` flag and the empty
    /// set have no text.
    pub open spec fn spec_text(self) -> Seq<char> {
        if self.webkit {
            "-webkit-"@
        } else if self.moz {
            "-moz-"@
        } else if self.ms {
            "-ms-"@
        } else if self.o {
            "-o-"@
        } else {
            Seq::<char>::empty()
        }
    }

    /// The textual form of the set, as a string.
    pub fn text(&self) -> (r: &'static str)
        ensures
            r@ == self.spec_text(),
    {
        if self.webkit {
            "-webkit-"
        } else if self.moz {
            "-moz-"
        } else if self.ms {
            "-ms-"
        } else if self.o {
            "-o-"
        } else {
            proof {
                reveal_strlit("");
                assert(""@ =~= Seq::<char>::empty());
            }
            ""
        }
    }
}

} // verus!
