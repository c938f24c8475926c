use crate::model::{AuthServiceError, ClaimGroups, Claims, XboxLiveAuthResponse};
use vstd::prelude::*;

verus! {

/// The value under the first entry whose name is `key`.
pub open spec fn lookup<V>(entries: Seq<(String, V)>, key: Seq<char>) -> Option<V>
    decreases entries.len(),
{
    if entries.len() == 0 {
        None
    } else if entries[0].0@ == key {
        Some(entries[0].1)
    } else {
        lookup(entries.drop_first(), key)
    }
}

/// No two entries share a name, as in a map.
pub open spec fn keys_unique<V>(entries: Seq<(String, V)>) -> bool {
    forall|i: int, j: int|
        0 <= i < j < entries.len() ==> (#[trigger] entries[i]).0@ != (#[trigger] entries[j]).0@
}

/// The group names are unique, and so are the claim names of each mapping.
pub open spec fn claims_wf(groups: ClaimGroups) -> bool {
    &&& keys_unique(groups@)
    &&& forall|g: int, k: int|
        0 <= g < groups@.len() && 0 <= k < groups@[g].1@.len() ==> keys_unique(
            (#[trigger] groups@[g].1@[k])@,
        )
}

impl XboxLiveAuthResponse {
    /// The display claims are keyed uniquely at each level.
    pub open spec fn wf(&self) -> bool {
        claims_wf(self.display_claims)
    }
}

/// With unique names, `lookup` reads the one entry of that name, as a map
/// read does.
pub proof fn lemma_lookup_unique<V>(entries: Seq<(String, V)>, i: int)
    requires
        keys_unique(entries),
        0 <= i < entries.len(),
    ensures
        lookup(entries, entries[i].0@) == Some(entries[i].1),
    decreases entries.len(),
{
    if i > 0 {
        assert(entries[0].0@ != entries[i].0@);
        let rest = entries.drop_first();
        assert forall|a: int, b: int| 0 <= a < b < rest.len() implies (#[trigger] rest[a]).0@
            != (#[trigger] rest[b]).0@ by {
            assert(rest[a] == entries[a + 1] && rest[b] == entries[b + 1]);
        }
        assert(rest[i - 1] == entries[i]);
        lemma_lookup_unique(rest, i - 1);
    }
}

/// The user hash that `display_claims["xui"][0]["uhs"]` designates, if the
/// claims have that shape.
pub open spec fn user_hash_of(groups: ClaimGroups) -> Option<Seq<char>> {
    match lookup(groups@, "xui"@) {
        Some(list) => if list@.len() > 0 {
            match lookup(list@[0]@, "uhs"@) {
                Some(hash) => Some(hash@),
                None => None,
            }
        } else {
            None
        },
        None => None,
    }
}

/// The index of the first entry named `key`.
pub fn find_key<V>(entries: &Vec<(String, V)>, key: &String) -> (r: Option<usize>)
    ensures
        match r {
            Some(i) => i < entries@.len() && entries@[i as int].0@ == key@ && lookup(
                entries@,
                key@,
            ) == Some(entries@[i as int].1),
            None => lookup(entries@, key@) is None,
        },
{
    let mut i: usize = 0;
    assert(entries@.subrange(0, entries@.len() as int) =~= entries@);
    while i < entries.len()
        invariant
            i <= entries@.len(),
            lookup(entries@, key@) == lookup(entries@.subrange(i as int, entries@.len() as int), key@),
        decreases entries@.len() - i,
    {
        let ghost rest = entries@.subrange(i as int, entries@.len() as int);
        assert(rest.drop_first() =~= entries@.subrange(i + 1, entries@.len() as int));
        if entries[i].0 == *key {
            return Some(i);
        }
        i = i + 1;
    }
    None
}

/// Reads the user hash at `display_claims["xui"][0]["uhs"]`.
pub fn user_hash(token: &XboxLiveAuthResponse) -> (r: Result<String, AuthServiceError>)
    ensures
        match user_hash_of(token.display_claims) {
            Some(hash) => r matches Ok(h) && h@ == hash,
            None => r == Err::<String, AuthServiceError>(AuthServiceError::MalformedClaims),
        },
{
    let group_key = String::from_str("xui");
    let claim_key = String::from_str("uhs");
    match find_key(&token.display_claims, &group_key) {
        Some(g) => {
            let list: &Vec<Claims> = &token.display_claims[g].1;
            if list.len() == 0 {
                return Err(AuthServiceError::MalformedClaims);
            }
            match find_key(&list[0], &claim_key) {
                Some(c) => Ok(list[0][c].1.clone()),
                None => Err(AuthServiceError::MalformedClaims),
            }
        },
        None => Err(AuthServiceError::MalformedClaims),
    }
}

} // verus!
