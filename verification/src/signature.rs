//! A cheap stand-in for a file's contents: when it was written, when it was
//! made, and how long it is. Two signatures that differ show that the file
//! may have changed; two equal ones prove nothing about its bytes.

use vstd::prelude::*;

verus! {

/// A point in time, as nanoseconds since the Unix epoch (negative before it).
#[derive(Clone, Copy, Debug, PartialEq, Eq, Structural)]
pub struct Timestamp {
    pub nanos: i128,
}

/// What is recorded of a file each time it is looked at. A time that the
/// file system does not keep is `None`.
#[derive(Clone, Copy, Debug, PartialEq, Eq, Structural)]
pub struct FileSignature {
    pub modified: Option<Timestamp>,
    pub created: Option<Timestamp>,
    pub len: u64,
}

impl FileSignature {
    /// The signature of a file with these times and this length in bytes.
    pub fn new(
        modified: Option<Timestamp>,
        created: Option<Timestamp>,
        len: u64,
    ) -> (sig: FileSignature)
        ensures
            sig == (FileSignature { modified, created, len }),
    {
        FileSignature { modified, created, len }
    }

    /// The two signatures differ in a field.
    pub open spec fn differs_from(self, other: FileSignature) -> bool {
        self.modified != other.modified || self.created != other.created || self.len != other.len
    }

    /// Whether the file looks changed since `self` was taken, given what was
    /// found now: any field that differs counts, a missing time being equal
    /// only to a missing time.
    pub fn changed(&self, now: &FileSignature) -> (c: bool)
        ensures
            c == self.differs_from(*now),
            c == (*self != *now),
    {
        *self != *now
    }
}

/// A signature never differs from itself.
pub proof fn lemma_signature_unchanged_from_itself(sig: FileSignature)
    ensures
        !sig.differs_from(sig),
        sig == sig,
{
}

/// A change of the length alone is noticed, whatever the times are.
pub proof fn lemma_length_change_noticed(before: FileSignature, after: FileSignature)
    requires
        before.modified == after.modified,
        before.created == after.created,
        before.len != after.len,
    ensures
        before.differs_from(after),
        before != after,
{
}

/// Two signatures are equal exactly when no field differs.
pub proof fn lemma_signature_equality(a: FileSignature, b: FileSignature)
    ensures
        (a == b) <==> !a.differs_from(b),
{
}

} // verus!
