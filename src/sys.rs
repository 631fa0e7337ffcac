//! The C integer types of the host's interface, and its sentinel values.
use vstd::prelude::*;

verus! {

#[allow(non_camel_case_types)]
pub type u1c = u8;

#[allow(non_camel_case_types)]
pub type s1c = i8;

#[allow(non_camel_case_types)]
pub type u2c = u16;

#[allow(non_camel_case_types)]
pub type s2c = i16;

#[allow(non_camel_case_types)]
pub type u4c = u32;

#[allow(non_camel_case_types)]
pub type s4c = i32;

#[allow(non_camel_case_types)]
pub type u8c = u64;

#[allow(non_camel_case_types)]
pub type s8c = i64;

/// The host's "no such id" answer.
pub const NONE: u16 = 0xFFFF;

/// The host's "no such character" answer.
pub const NOCH: u8 = 0xFF;

/// The host engine's version: its major version and its build.
#[derive(Clone, Copy, Debug, PartialEq, Eq, Structural, Hash, PartialOrd, Ord)]
pub struct ByondVersion {
    pub version: u32,
    pub build: u32,
}

/// `a` is not older than `b`: versions compare by major version, then build.
pub open spec fn version_at_least(a: ByondVersion, b: ByondVersion) -> bool {
    a.version > b.version || (a.version == b.version && a.build >= b.build)
}

impl ByondVersion {
    pub fn new(version: u32, build: u32) -> (r: ByondVersion)
        ensures
            r.version == version && r.build == build,
    {
        ByondVersion { version, build }
    }

    /// Whether this version is `other` or a later one.
    pub fn is_at_least(&self, other: &ByondVersion) -> (r: bool)
        ensures
            r == version_at_least(*self, *other),
    {
        self.version > other.version || (self.version == other.version && self.build
            >= other.build)
    }
}

} // verus!
