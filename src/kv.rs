use vstd::prelude::*;
use vstd::string::*;

use crate::error::{ArgError, ArgErrorModel};

verus! {

/// One field of a POST body, given on the command line as `key=value`.
#[derive(Debug)]
pub struct KvPair {
    pub k: String,
    pub v: String,
}

impl KvPair {
    /// The pair as a key and a value.
    pub open spec fn model(&self) -> (Seq<char>, Seq<char>) {
        (self.k@, self.v@)
    }
}

impl Clone for KvPair {
    fn clone(&self) -> (r: Self)
        ensures
            r.model() == self.model(),
    {
        KvPair { k: self.k.clone(), v: self.v.clone() }
    }
}

/// `s` is `k`, then `=`, then `v`, where `k` is non-empty and holds no `=`:
/// the split at the first `=`, all that follows it being the value.
pub open spec fn splits_as(s: Seq<char>, k: Seq<char>, v: Seq<char>) -> bool {
    &&& k.len() > 0
    &&& !k.contains('=')
    &&& s == k + seq!['='] + v
}

/// A token splits in one way only: the key is all before the first `=`, the
/// value all after it.
pub proof fn lemma_split_unique(s: Seq<char>, k1: Seq<char>, v1: Seq<char>, k2: Seq<char>, v2: Seq<char>)
    requires
        splits_as(s, k1, v1),
        splits_as(s, k2, v2),
    ensures
        k1 == k2,
        v1 == v2,
{
    if k1.len() < k2.len() {
        assert(k2[k1.len() as int] == s[k1.len() as int]);
        assert(k2.contains('='));
    } else if k2.len() < k1.len() {
        assert(k1[k2.len() as int] == s[k2.len() as int]);
        assert(k1.contains('='));
    }
    assert(k1 =~= s.subrange(0, k1.len() as int));
    assert(k2 =~= s.subrange(0, k2.len() as int));
    assert(v1 =~= s.subrange(k1.len() as int + 1, s.len() as int));
    assert(v2 =~= s.subrange(k2.len() as int + 1, s.len() as int));
}

/// `s` can be read as a `key=value` pair: it holds an `=`, and not first.
pub open spec fn is_pair_token(s: Seq<char>) -> bool {
    &&& s.contains('=')
    &&& s[0] != '='
}

/// Splits `s` on its first `=`.
///
/// Fails with `InvalidKeyValuePair` when `s` has no `=` or the key before it
/// is empty; everything after the first `=` is the value.
pub fn parse_kv_pair(s: &str) -> (r: Result<KvPair, ArgError>)
    ensures
        r is Ok <==> is_pair_token(s@),
        r is Ok ==> splits_as(s@, r->Ok_0.k@, r->Ok_0.v@),
        r is Err ==> r->Err_0@ == ArgErrorModel::Pair(s@),
{
    let n = s.unicode_len();
    let mut i: usize = 0;
    while i < n
        invariant
            n == s@.len(),
            i <= n,
            forall|j: int| 0 <= j < i ==> s@[j] != '=',
        decreases n - i,
    {
        if s.get_char(i) == '=' {
            if i == 0 {
                return Err(ArgError::InvalidKeyValuePair(String::from_str(s)));
            }
            let k = s.substring_char(0, i);
            let v = s.substring_char(i + 1, n);
            let pair = KvPair { k: String::from_str(k), v: String::from_str(v) };
            proof {
                assert(pair.k@.len() > 0);
                assert forall|j: int| 0 <= j < pair.k@.len() implies pair.k@[j] != '=' by {}
                assert(s@ =~= pair.k@ + seq!['='] + pair.v@);
            }
            return Ok(pair);
        }
        i = i + 1;
    }
    Err(ArgError::InvalidKeyValuePair(String::from_str(s)))
}

impl std::str::FromStr for KvPair {
    type Err = ArgError;

    fn from_str(s: &str) -> (r: Result<Self, Self::Err>)
        ensures
            r is Ok <==> is_pair_token(s@),
            r is Ok ==> splits_as(s@, r->Ok_0.k@, r->Ok_0.v@),
            r is Err ==> r->Err_0@ == ArgErrorModel::Pair(s@),
    {
        parse_kv_pair(s)
    }
}

} // verus!
