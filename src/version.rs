use vstd::prelude::*;
use crate::text::{decimal, push_decimal};

verus! {

/// A semantic version number.
#[derive(Debug, Clone, Copy, Default, PartialEq, Eq, Structural, PartialOrd, Ord, Hash)]
pub struct Version {
    pub major: u64,
    pub minor: u64,
    pub patch: u64,
}

/// `a` is strictly newer than `b` in lexicographic (major, minor, patch) order.
pub open spec fn newer(a: Version, b: Version) -> bool {
    ||| a.major > b.major
    ||| (a.major == b.major && a.minor > b.minor)
    ||| (a.major == b.major && a.minor == b.minor && a.patch > b.patch)
}

impl Version {
    /// Dotted text form, `major.minor.patch`.
    pub fn to_text(&self) -> (r: String)
        ensures
            r@ == decimal(self.major as nat) + "."@ + decimal(self.minor as nat) + "."@ + decimal(self.patch as nat),
    {
        let mut s = String::new();
        push_decimal(&mut s, self.major);
        s.append(".");
        push_decimal(&mut s, self.minor);
        s.append(".");
        push_decimal(&mut s, self.patch);
        proof {
            assert(s@ =~= Seq::<char>::empty() + decimal(self.major as nat) + "."@ + decimal(self.minor as nat) + "."@ + decimal(self.patch as nat));
        }
        s
    }

    pub fn new(major: u64, minor: u64, patch: u64) -> (r: Self)
        ensures
            r.major == major,
            r.minor == minor,
            r.patch == patch,
    {
        Version { major, minor, patch }
    }

    pub fn is_higher_version(&self, other: &Self) -> (r: bool)
        ensures
            r == newer(*self, *other),
    {
        if self.major > other.major {
            return true;
        }
        if self.major == other.major && self.minor > other.minor {
            return true;
        }
        if self.major == other.major && self.minor == other.minor && self.patch > other.patch {
            return true;
        }
        false
    }
}

} // verus!
