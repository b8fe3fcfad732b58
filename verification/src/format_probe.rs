//! Keys by which the diagnostics of format queries are reported once each.
//!
//! The fields of a query do not fit beside each other in a key, so they are
//! hashed.

use crate::content_hash::hash_words;
use vstd::prelude::*;

verus! {

/// The key of one query.
pub struct FormatProbeKey(u64);

impl FormatProbeKey {
    /// The number.
    pub closed spec fn value(self) -> u64 {
        self.0
    }

    /// The key of the fields that are known before a query is validated.
    pub fn from_probe(usage: u32, rtype: u32, check_format: u32) -> (r: Self)
        ensures
            r.value() == crate::content_hash::hash_of(seq![usage, rtype, check_format]),
    {
        let fields: [u32; 3] = [usage, rtype, check_format];
        assert(fields@ =~= seq![usage, rtype, check_format]);
        FormatProbeKey(hash_words(&fields))
    }

    /// The key of a whole query.
    pub fn from_query(adapter_format: u32, usage: u32, rtype: u32, check_format: u32) -> (r: Self)
        ensures
            r.value() == crate::content_hash::hash_of(
                seq![adapter_format, usage, rtype, check_format],
            ),
    {
        let fields: [u32; 4] = [adapter_format, usage, rtype, check_format];
        assert(fields@ =~= seq![adapter_format, usage, rtype, check_format]);
        FormatProbeKey(hash_words(&fields))
    }

    /// The number.
    pub fn raw(self) -> (r: u64)
        ensures
            r == self.value(),
    {
        self.0
    }
}

/// Queries that differ in a field are hashed as different byte strings.
pub proof fn queries_are_told_apart(
    a: (u32, u32, u32, u32),
    b: (u32, u32, u32, u32),
)
    requires
        a != b,
    ensures
        crate::content_hash::bytes_of(seq![a.0, a.1, a.2, a.3]) != crate::content_hash::bytes_of(
            seq![b.0, b.1, b.2, b.3],
        ),
{
    let (s, t) = (seq![a.0, a.1, a.2, a.3], seq![b.0, b.1, b.2, b.3]);
    if crate::content_hash::bytes_of(s) == crate::content_hash::bytes_of(t) {
        crate::content_hash::bytes_determine_the_words(s, t);
        assert(s[0] == t[0] && s[1] == t[1] && s[2] == t[2] && s[3] == t[3]);
    }
}

/// Probes that differ in a field are hashed as different byte strings.
pub proof fn probes_are_told_apart(a: (u32, u32, u32), b: (u32, u32, u32))
    requires
        a != b,
    ensures
        crate::content_hash::bytes_of(seq![a.0, a.1, a.2]) != crate::content_hash::bytes_of(
            seq![b.0, b.1, b.2],
        ),
{
    let (s, t) = (seq![a.0, a.1, a.2], seq![b.0, b.1, b.2]);
    if crate::content_hash::bytes_of(s) == crate::content_hash::bytes_of(t) {
        crate::content_hash::bytes_determine_the_words(s, t);
        assert(s[0] == t[0] && s[1] == t[1] && s[2] == t[2]);
    }
}

} // verus!
