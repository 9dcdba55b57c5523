//! The match predicate: a prefix compared without regard to case, and the
//! optional demand that the matched segment be all lowercase or all uppercase.
use vstd::prelude::*;
use vstd::string::StrSliceExecFns;

use crate::text::{
    char_is_lowercase, char_is_uppercase, is_lower_char, is_upper_char, lower_of, to_lower,
};

verus! {

/// Every character of `s` is lowercase.
pub open spec fn all_lower(s: Seq<char>) -> bool {
    forall|i: int| 0 <= i < s.len() ==> is_lower_char(#[trigger] s[i])
}

/// Every character of `s` is uppercase.
pub open spec fn all_upper(s: Seq<char>) -> bool {
    forall|i: int| 0 <= i < s.len() ==> is_upper_char(#[trigger] s[i])
}

/// `p` is the first `p.len()` characters of `s`.
pub open spec fn starts_with(s: Seq<char>, p: Seq<char>) -> bool {
    p.len() <= s.len() && s.take(p.len() as int) == p
}

/// The configuration of a search, fixed for the whole run.
pub struct MatchPredicate {
    /// The wanted prefix, already folded to lowercase.
    pub prefix: String,
    /// The matched segment of the key must be all lowercase.
    pub require_lowercase: bool,
    /// The matched segment of the key must be all uppercase.
    pub require_uppercase: bool,
}

impl MatchPredicate {
    /// The decision on a key `key` whose lowercase form is `folded`: the folded
    /// key starts with the prefix, and the segment of the key in its own case
    /// that the prefix covers meets the case demands.
    pub open spec fn matches_folded_spec(&self, key: Seq<char>, folded: Seq<char>) -> bool {
        let n = self.prefix@.len();
        &&& starts_with(folded, self.prefix@)
        &&& n <= key.len()
        &&& (self.require_lowercase ==> all_lower(key.take(n as int)))
        &&& (self.require_uppercase ==> all_upper(key.take(n as int)))
    }

    /// Whether an encoded key is an accepted match.
    pub open spec fn accepts_spec(&self, key: Seq<char>) -> bool {
        self.matches_folded_spec(key, lower_of(key))
    }

    /// Builds the predicate; the prefix is folded to lowercase once, here.
    pub fn new(prefix: &str, require_lowercase: bool, require_uppercase: bool) -> (r: Self)
        ensures
            r.prefix@ == lower_of(prefix@),
            prefix@.len() == 0 ==> r.prefix@.len() == 0,
            r.require_lowercase == require_lowercase,
            r.require_uppercase == require_uppercase,
    {
        MatchPredicate { prefix: to_lower(prefix), require_lowercase, require_uppercase }
    }

    /// Decides a key given its lowercase form `folded`.
    pub fn matches_folded(&self, key: &str, folded: &str) -> (r: bool)
        ensures
            r == self.matches_folded_spec(key@, folded@),
    {
        let p: &str = self.prefix.as_str();
        let n: usize = p.unicode_len();
        let folded_len: usize = folded.unicode_len();
        if n > folded_len {
            return false;
        }
        let mut i: usize = 0;
        while i < n
            invariant
                n == p@.len(),
                p@ == self.prefix@,
                n <= folded_len == folded@.len(),
                0 <= i <= n,
                forall|j: int| 0 <= j < i ==> folded@[j] == p@[j],
            decreases n - i,
        {
            if folded.get_char(i) != p.get_char(i) {
                assert(folded@.take(n as int)[i as int] != p@[i as int]);
                return false;
            }
            i = i + 1;
        }
        assert(folded@.take(n as int) =~= p@);
        let key_len: usize = key.unicode_len();
        if n > key_len {
            return false;
        }
        let mut lower_ok: bool = true;
        let mut upper_ok: bool = true;
        let mut k: usize = 0;
        while k < n
            invariant
                n <= key_len == key@.len(),
                0 <= k <= n,
                lower_ok == all_lower(key@.take(k as int)),
                upper_ok == all_upper(key@.take(k as int)),
            decreases n - k,
        {
            let c = key.get_char(k);
            let lc = char_is_lowercase(c);
            let uc = char_is_uppercase(c);
            proof {
                let prev = key@.take(k as int);
                let next = key@.take(k + 1 as int);
                assert(next =~= prev.push(c));
                if all_lower(next) {
                    assert(is_lower_char(next[k as int]));
                    assert forall|j: int| 0 <= j < prev.len() implies is_lower_char(prev[j]) by {
                        assert(prev[j] == next[j]);
                    }
                }
                if all_upper(next) {
                    assert(is_upper_char(next[k as int]));
                    assert forall|j: int| 0 <= j < prev.len() implies is_upper_char(prev[j]) by {
                        assert(prev[j] == next[j]);
                    }
                }
            }
            lower_ok = lower_ok && lc;
            upper_ok = upper_ok && uc;
            k = k + 1;
        }
        (!self.require_lowercase || lower_ok) && (!self.require_uppercase || upper_ok)
    }

    /// Decides a key: it starts with the prefix when both are folded to
    /// lowercase, and the covered segment meets the case demands.
    pub fn accepts(&self, key: &str) -> (r: bool)
        ensures
            r == self.accepts_spec(key@),
    {
        let folded = to_lower(key);
        self.matches_folded(key, folded.as_str())
    }
}

/// An accepted key starts with the prefix once folded to lowercase, and the
/// segment of the key in its own case that the prefix covers is all lowercase
/// when that is demanded, and all uppercase when that is demanded.
pub proof fn lemma_accepted_key_meets_predicate(pred: &MatchPredicate, key: Seq<char>)
    requires
        pred.accepts_spec(key),
    ensures
        starts_with(lower_of(key), pred.prefix@),
        pred.prefix@.len() <= key.len(),
        pred.require_lowercase ==> forall|i: int|
            0 <= i < pred.prefix@.len() ==> is_lower_char(#[trigger] key[i]),
        pred.require_uppercase ==> forall|i: int|
            0 <= i < pred.prefix@.len() ==> is_upper_char(#[trigger] key[i]),
{
    let n = pred.prefix@.len() as int;
    assert forall|i: int| 0 <= i < n && pred.require_lowercase implies is_lower_char(key[i]) by {
        assert(key.take(n)[i] == key[i]);
    }
    assert forall|i: int| 0 <= i < n && pred.require_uppercase implies is_upper_char(key[i]) by {
        assert(key.take(n)[i] == key[i]);
    }
}

/// An empty prefix accepts every key, whatever the case demands: the covered
/// segment is empty.
pub proof fn lemma_empty_prefix_accepts_all(pred: &MatchPredicate, key: Seq<char>)
    requires
        pred.prefix@.len() == 0,
    ensures
        pred.accepts_spec(key),
{
    assert(lower_of(key).take(0) =~= pred.prefix@);
}

} // verus!
