//! An explicit, immutable snapshot of the process environment, and the
//! layered lookup the resolver performs over it: a triple-specific variable
//! (`<BASE>_<triple>`) overrides the generic one (`<BASE>`), and a variable
//! that is set but empty counts as unset.

use crate::strutil;
use vstd::prelude::*;

verus! {

/// One environment variable and its value.
pub struct EnvEntry {
    pub key: String,
    pub value: String,
}

/// A snapshot of the environment variables the build reads.
pub struct EnvMap {
    pub entries: Vec<EnvEntry>,
}

/// First value bound to `k` in `entries`, if any.
pub open spec fn spec_lookup(entries: Seq<EnvEntry>, k: Seq<char>) -> Option<Seq<char>>
    decreases entries.len(),
{
    if entries.len() == 0 {
        None
    } else if entries[0].key@ == k {
        Some(entries[0].value@)
    } else {
        spec_lookup(entries.skip(1), k)
    }
}

/// The value of `k`, treating a set-but-empty variable as unset.
pub open spec fn spec_nonempty_value(entries: Seq<EnvEntry>, k: Seq<char>) -> Option<Seq<char>> {
    match spec_lookup(entries, k) {
        Some(v) => if v.len() > 0 {
            Some(v)
        } else {
            None
        },
        None => None,
    }
}

/// The triple-specific candidate key for `base`: `<base>_<triple_us>`.
pub open spec fn spec_triple_key(base: Seq<char>, triple_us: Seq<char>) -> Seq<char> {
    base + seq!['_'] + triple_us
}

/// Layered resolution: the first non-empty value among
/// `[<base>_<triple_us>, <base>]`, or `None` when neither is set non-empty.
pub open spec fn spec_resolve(
    entries: Seq<EnvEntry>,
    base: Seq<char>,
    triple_us: Seq<char>,
) -> Option<Seq<char>> {
    match spec_nonempty_value(entries, spec_triple_key(base, triple_us)) {
        Some(v) => Some(v),
        None => spec_nonempty_value(entries, base),
    }
}

/// When both the triple-specific and the generic variable are set with
/// non-empty values, resolution returns the triple-specific one.
pub proof fn lemma_triple_specific_wins(
    entries: Seq<EnvEntry>,
    base: Seq<char>,
    triple_us: Seq<char>,
    v: Seq<char>,
)
    requires
        spec_lookup(entries, spec_triple_key(base, triple_us)) == Some(v),
        v.len() > 0,
    ensures
        spec_resolve(entries, base, triple_us) == Some(v),
{
}

impl EnvMap {
    /// Raw lookup of `key`, first binding wins.
    pub fn get(&self, key: &str) -> (r: Option<String>)
        ensures
            r is Some <==> spec_lookup(self.entries@, key@) is Some,
            r matches Some(v) ==> spec_lookup(self.entries@, key@) == Some(v@),
    {
        let n = self.entries.len();
        let mut i: usize = 0;
        proof {
            assert(self.entries@.skip(0) =~= self.entries@);
        }
        while i < n
            invariant
                i <= n,
                n == self.entries@.len(),
                spec_lookup(self.entries@, key@) == spec_lookup(self.entries@.skip(i as int), key@),
            decreases n - i,
        {
            proof {
                assert(self.entries@.skip(i as int)[0] == self.entries@[i as int]);
            }
            let entry = &self.entries[i];
            if strutil::str_eq(entry.key.as_str(), key) {
                return Some(entry.value.clone());
            }
            proof {
                assert(self.entries@.skip(i as int).skip(1) =~= self.entries@.skip(i as int + 1));
            }
            i = i + 1;
        }
        None
    }

    /// Lookup of `key` that treats a set-but-empty value as unset.
    pub fn get_nonempty(&self, key: &str) -> (r: Option<String>)
        ensures
            r is Some <==> spec_nonempty_value(self.entries@, key@) is Some,
            r matches Some(v) ==> spec_nonempty_value(self.entries@, key@) == Some(v@),
    {
        match self.get(key) {
            Some(v) => {
                if v.as_str().unicode_len() > 0 {
                    Some(v)
                } else {
                    None
                }
            },
            None => None,
        }
    }

    /// Layered resolution of a logical variable: try `<base>_<triple_us>`,
    /// then `<base>`; a set-but-empty value falls through to the next
    /// candidate.
    pub fn resolve(&self, base: &str, triple_us: &str) -> (r: Option<String>)
        ensures
            r is Some <==> spec_resolve(self.entries@, base@, triple_us@) is Some,
            r matches Some(v) ==> spec_resolve(self.entries@, base@, triple_us@) == Some(v@),
    {
        let key = strutil::concat3(base, "_", triple_us);
        proof {
            reveal_strlit("_");
            assert(key@ =~= spec_triple_key(base@, triple_us@));
        }
        match self.get_nonempty(key.as_str()) {
            Some(v) => Some(v),
            None => self.get_nonempty(base),
        }
    }
}

} // verus!
