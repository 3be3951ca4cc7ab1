use vstd::prelude::*;

verus! {

/// How an open call behaves: create the semaphore if it is missing, open it
/// for reading, open it for writing. Any combination is accepted; the
/// operating system decides what a combination means.
#[derive(Debug, Clone, Copy, PartialEq, Eq, Structural, PartialOrd, Ord, Hash)]
pub struct OpenOptions {
    pub create: bool,
    pub read: bool,
    pub write: bool,
}

impl OpenOptions {
    /// The options of either set.
    pub open spec fn spec_union(self, other: OpenOptions) -> OpenOptions {
        OpenOptions {
            create: self.create || other.create,
            read: self.read || other.read,
            write: self.write || other.write,
        }
    }

    /// The set with no option.
    pub fn empty() -> (r: OpenOptions)
        ensures
            r == (OpenOptions { create: false, read: false, write: false }),
    {
        OpenOptions { create: false, read: false, write: false }
    }

    /// The set with every option.
    pub fn all() -> (r: OpenOptions)
        ensures
            r == (OpenOptions { create: true, read: true, write: true }),
    {
        OpenOptions { create: true, read: true, write: true }
    }

    /// Create the semaphore if it does not exist.
    pub fn create() -> (r: OpenOptions)
        ensures
            r == (OpenOptions { create: true, read: false, write: false }),
    {
        OpenOptions { create: true, read: false, write: false }
    }

    /// Open for reading.
    pub fn read() -> (r: OpenOptions)
        ensures
            r == (OpenOptions { create: false, read: true, write: false }),
    {
        OpenOptions { create: false, read: true, write: false }
    }

    /// Open for writing.
    pub fn write() -> (r: OpenOptions)
        ensures
            r == (OpenOptions { create: false, read: false, write: true }),
    {
        OpenOptions { create: false, read: false, write: true }
    }

    /// The options of either set.
    pub fn union(self, other: OpenOptions) -> (r: OpenOptions)
        ensures
            r == self.spec_union(other),
    {
        OpenOptions {
            create: self.create || other.create,
            read: self.read || other.read,
            write: self.write || other.write,
        }
    }

    /// Whether every option of `other` is in this set.
    pub fn contains(self, other: OpenOptions) -> (r: bool)
        ensures
            r == ((other.create ==> self.create) && (other.read ==> self.read) && (other.write
                ==> self.write)),
    {
        (!other.create || self.create) && (!other.read || self.read) && (!other.write
            || self.write)
    }

    /// Whether the set holds no option.
    pub fn is_empty(self) -> (r: bool)
        ensures
            r == (!self.create && !self.read && !self.write),
    {
        !self.create && !self.read && !self.write
    }
}

/// The permission bits given to a semaphore when an open call creates it:
/// read and write, each for the owner (`usr`), the group (`grp`) and others
/// (`oth`). Any combination is accepted.
#[derive(Debug, Clone, Copy, PartialEq, Eq, Structural, PartialOrd, Ord, Hash)]
pub struct OpenMode {
    pub r_usr: bool,
    pub w_usr: bool,
    pub r_grp: bool,
    pub w_grp: bool,
    pub r_oth: bool,
    pub w_oth: bool,
}

/// The mode whose bits are all `b`.
pub open spec fn uniform_mode(b: bool) -> OpenMode {
    OpenMode { r_usr: b, w_usr: b, r_grp: b, w_grp: b, r_oth: b, w_oth: b }
}

impl OpenMode {
    /// The bits of either mode.
    pub open spec fn spec_union(self, other: OpenMode) -> OpenMode {
        OpenMode {
            r_usr: self.r_usr || other.r_usr,
            w_usr: self.w_usr || other.w_usr,
            r_grp: self.r_grp || other.r_grp,
            w_grp: self.w_grp || other.w_grp,
            r_oth: self.r_oth || other.r_oth,
            w_oth: self.w_oth || other.w_oth,
        }
    }

    /// No permission.
    pub fn empty() -> (r: OpenMode)
        ensures
            r == uniform_mode(false),
    {
        OpenMode {
            r_usr: false,
            w_usr: false,
            r_grp: false,
            w_grp: false,
            r_oth: false,
            w_oth: false,
        }
    }

    /// Every permission.
    pub fn all() -> (r: OpenMode)
        ensures
            r == uniform_mode(true),
    {
        OpenMode { r_usr: true, w_usr: true, r_grp: true, w_grp: true, r_oth: true, w_oth: true }
    }

    /// Read by the owner.
    pub fn r_usr() -> (r: OpenMode)
        ensures
            r == (OpenMode { r_usr: true, ..uniform_mode(false) }),
    {
        OpenMode { r_usr: true, ..OpenMode::empty() }
    }

    /// Write by the owner.
    pub fn w_usr() -> (r: OpenMode)
        ensures
            r == (OpenMode { w_usr: true, ..uniform_mode(false) }),
    {
        OpenMode { w_usr: true, ..OpenMode::empty() }
    }

    /// Read by the group.
    pub fn r_grp() -> (r: OpenMode)
        ensures
            r == (OpenMode { r_grp: true, ..uniform_mode(false) }),
    {
        OpenMode { r_grp: true, ..OpenMode::empty() }
    }

    /// Write by the group.
    pub fn w_grp() -> (r: OpenMode)
        ensures
            r == (OpenMode { w_grp: true, ..uniform_mode(false) }),
    {
        OpenMode { w_grp: true, ..OpenMode::empty() }
    }

    /// Read by others.
    pub fn r_oth() -> (r: OpenMode)
        ensures
            r == (OpenMode { r_oth: true, ..uniform_mode(false) }),
    {
        OpenMode { r_oth: true, ..OpenMode::empty() }
    }

    /// Write by others.
    pub fn w_oth() -> (r: OpenMode)
        ensures
            r == (OpenMode { w_oth: true, ..uniform_mode(false) }),
    {
        OpenMode { w_oth: true, ..OpenMode::empty() }
    }

    /// The bits of either mode.
    pub fn union(self, other: OpenMode) -> (r: OpenMode)
        ensures
            r == self.spec_union(other),
    {
        OpenMode {
            r_usr: self.r_usr || other.r_usr,
            w_usr: self.w_usr || other.w_usr,
            r_grp: self.r_grp || other.r_grp,
            w_grp: self.w_grp || other.w_grp,
            r_oth: self.r_oth || other.r_oth,
            w_oth: self.w_oth || other.w_oth,
        }
    }

    /// Whether every bit of `other` is in this mode.
    pub fn contains(self, other: OpenMode) -> (r: bool)
        ensures
            r == ((other.r_usr ==> self.r_usr) && (other.w_usr ==> self.w_usr) && (other.r_grp
                ==> self.r_grp) && (other.w_grp ==> self.w_grp) && (other.r_oth ==> self.r_oth)
                && (other.w_oth ==> self.w_oth)),
    {
        (!other.r_usr || self.r_usr) && (!other.w_usr || self.w_usr) && (!other.r_grp
            || self.r_grp) && (!other.w_grp || self.w_grp) && (!other.r_oth || self.r_oth) && (
        !other.w_oth || self.w_oth)
    }

    /// Whether the mode holds no bit.
    pub fn is_empty(self) -> (r: bool)
        ensures
            r == (self == uniform_mode(false)),
    {
        !self.r_usr && !self.w_usr && !self.r_grp && !self.w_grp && !self.r_oth && !self.w_oth
    }
}

impl core::ops::BitOr for OpenOptions {
    type Output = OpenOptions;

    fn bitor(self, rhs: OpenOptions) -> (r: OpenOptions)
        ensures
            r == self.spec_union(rhs),
    {
        self.union(rhs)
    }
}

impl vstd::std_specs::ops::BitOrSpecImpl for OpenOptions {
    open spec fn obeys_bitor_spec() -> bool {
        true
    }

    open spec fn bitor_req(self, rhs: OpenOptions) -> bool {
        true
    }

    open spec fn bitor_spec(self, rhs: OpenOptions) -> OpenOptions {
        self.spec_union(rhs)
    }
}

impl core::ops::BitOr for OpenMode {
    type Output = OpenMode;

    fn bitor(self, rhs: OpenMode) -> (r: OpenMode)
        ensures
            r == self.spec_union(rhs),
    {
        self.union(rhs)
    }
}

impl vstd::std_specs::ops::BitOrSpecImpl for OpenMode {
    open spec fn obeys_bitor_spec() -> bool {
        true
    }

    open spec fn bitor_req(self, rhs: OpenMode) -> bool {
        true
    }

    open spec fn bitor_spec(self, rhs: OpenMode) -> OpenMode {
        self.spec_union(rhs)
    }
}

} // verus!
