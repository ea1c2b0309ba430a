use vstd::prelude::*;

verus! {

/// Some entry of `s` has the key `id`.
pub open spec fn has_key<T>(s: Seq<(String, T)>, id: Seq<char>) -> bool {
    exists|i: int| 0 <= i < s.len() && #[trigger] s[i].0@ == id
}

/// No two entries of `s` share a key.
pub open spec fn unique_keys<T>(s: Seq<(String, T)>) -> bool {
    forall|i: int, j: int|
        0 <= i < s.len() && 0 <= j < s.len() && #[trigger] s[i].0@ == #[trigger] s[j].0@ ==> i == j
}

pub open spec fn value_of<T>(s: Seq<(String, T)>, id: Seq<char>) -> T {
    s[choose|i: int| 0 <= i < s.len() && #[trigger] s[i].0@ == id].1
}

/// The entries of `s` as a map from key to value.
pub open spec fn key_map<T>(s: Seq<(String, T)>) -> Map<Seq<char>, T> {
    Map::new(|k: Seq<char>| has_key(s, k), |k: Seq<char>| value_of(s, k))
}

proof fn lemma_value_at<T>(s: Seq<(String, T)>, i: int)
    requires
        unique_keys(s),
        0 <= i < s.len(),
    ensures
        has_key(s, s[i].0@),
        value_of(s, s[i].0@) == s[i].1,
{
    let id = s[i].0@;
    assert(0 <= i < s.len() && s[i].0@ == id);
    let j = choose|j: int| 0 <= j < s.len() && #[trigger] s[j].0@ == id;
    assert(s[j].0@ == s[i].0@);
}

/// The index of the entry with key `id`, if there is one.
pub fn find_key<T>(v: &Vec<(String, T)>, id: &String) -> (r: Option<usize>)
    requires
        unique_keys(v@),
    ensures
        match r {
            Some(i) => i < v.len() && v@[i as int].0@ == id@ && key_map(v@)[id@] == v@[i as int].1,
            None => !key_map(v@).contains_key(id@),
        },
{
    let mut i: usize = 0;
    while i < v.len()
        invariant
            i <= v.len(),
            unique_keys(v@),
            forall|j: int| 0 <= j < i ==> v@[j].0@ != id@,
        decreases v.len() - i,
    {
        if v[i].0 == *id {
            proof {
                lemma_value_at(v@, i as int);
            }
            return Some(i);
        }
        i = i + 1;
    }
    None
}

/// Sets the value of `id`, adding an entry where there is none.
pub fn upsert<T>(v: &mut Vec<(String, T)>, id: String, val: T)
    requires
        unique_keys(old(v)@),
    ensures
        unique_keys(final(v)@),
        key_map(final(v)@) == key_map(old(v)@).insert(id@, val),
{
    let ghost s0 = v@;
    let ghost k0 = id@;
    match find_key(v, &id) {
        Some(i) => {
            v.set(i, (id, val));
            proof {
                let s1 = v@;
                assert forall|a: int, b: int|
                    0 <= a < s1.len() && 0 <= b < s1.len() && #[trigger] s1[a].0@ == #[trigger] s1[b].0@
                    implies a == b by {
                    assert(s1[a].0@ == s0[a].0@);
                    assert(s1[b].0@ == s0[b].0@);
                }
                lemma_value_at(s1, i as int);
                assert forall|k: Seq<char>| k != k0 implies (has_key(s1, k) == has_key(s0, k)) && (has_key(s1, k) ==> value_of(s1, k) == value_of(s0, k)) by {
                    if has_key(s1, k) {
                        let j = choose|j: int| 0 <= j < s1.len() && #[trigger] s1[j].0@ == k;
                        assert(s0[j] == s1[j]);
                        lemma_value_at(s1, j);
                        lemma_value_at(s0, j);
                    }
                    if has_key(s0, k) {
                        let j = choose|j: int| 0 <= j < s0.len() && #[trigger] s0[j].0@ == k;
                        assert(s0[j] == s1[j]);
                    }
                }
                assert(key_map(s1) =~= key_map(s0).insert(k0, val));
            }
        },
        None => {
            v.push((id, val));
            proof {
                let s1 = v@;
                let n = s0.len() as int;
                assert forall|a: int, b: int|
                    0 <= a < s1.len() && 0 <= b < s1.len() && #[trigger] s1[a].0@ == #[trigger] s1[b].0@
                    implies a == b by {
                    if a < n && b == n {
                        assert(s0[a].0@ == k0);
                        assert(has_key(s0, k0));
                    } else if b < n && a == n {
                        assert(s0[b].0@ == k0);
                        assert(has_key(s0, k0));
                    } else if a < n && b < n {
                        assert(s1[a] == s0[a] && s1[b] == s0[b]);
                    }
                }
                lemma_value_at(s1, n);
                assert forall|k: Seq<char>| k != k0 implies (has_key(s1, k) == has_key(s0, k)) && (has_key(s1, k) ==> value_of(s1, k) == value_of(s0, k)) by {
                    if has_key(s1, k) {
                        let j = choose|j: int| 0 <= j < s1.len() && #[trigger] s1[j].0@ == k;
                        assert(j < n);
                        assert(s0[j] == s1[j]);
                        lemma_value_at(s1, j);
                        lemma_value_at(s0, j);
                    }
                    if has_key(s0, k) {
                        let j = choose|j: int| 0 <= j < s0.len() && #[trigger] s0[j].0@ == k;
                        assert(s0[j] == s1[j]);
                    }
                }
                assert(key_map(s1) =~= key_map(s0).insert(k0, val));
            }
        },
    }
}

/// Removes the entry of `id`, if there is one.
pub fn remove_key<T>(v: &mut Vec<(String, T)>, id: &String)
    requires
        unique_keys(old(v)@),
    ensures
        unique_keys(final(v)@),
        key_map(final(v)@) == key_map(old(v)@).remove(id@),
{
    let ghost s0 = v@;
    let ghost k0 = id@;
    match find_key(v, id) {
        Some(i) => {
            let _ = v.remove(i);
            proof {
                let s1 = v@;
                assert forall|a: int| 0 <= a < s1.len() implies #[trigger] s1[a] == s0[if a < i { a } else { a + 1 }] by {}
                assert forall|a: int, b: int|
                    0 <= a < s1.len() && 0 <= b < s1.len() && #[trigger] s1[a].0@ == #[trigger] s1[b].0@
                    implies a == b by {
                    let a0 = if a < i { a } else { a + 1 };
                    let b0 = if b < i { b } else { b + 1 };
                    assert(s1[a] == s0[a0] && s1[b] == s0[b0]);
                }
                assert forall|k: Seq<char>| k != k0 implies (has_key(s1, k) == has_key(s0, k)) && (has_key(s1, k) ==> value_of(s1, k) == value_of(s0, k)) by {
                    if has_key(s1, k) {
                        let j = choose|j: int| 0 <= j < s1.len() && #[trigger] s1[j].0@ == k;
                        let j0 = if j < i { j } else { j + 1 };
                        assert(s1[j] == s0[j0]);
                        lemma_value_at(s1, j);
                        lemma_value_at(s0, j0);
                    }
                    if has_key(s0, k) {
                        let j = choose|j: int| 0 <= j < s0.len() && #[trigger] s0[j].0@ == k;
                        assert(j != i);
                        let j1 = if j < i { j } else { j - 1 };
                        assert(s1[j1] == s0[j]);
                    }
                }
                assert forall|j: int| 0 <= j < s1.len() implies #[trigger] s1[j].0@ != k0 by {
                    let j0 = if j < i { j } else { j + 1 };
                    assert(s1[j] == s0[j0]);
                    assert(s0[i as int].0@ == k0);
                }
                assert(key_map(s1) =~= key_map(s0).remove(k0));
            }
        },
        None => {
            assert(key_map(s0) =~= key_map(s0).remove(k0));
        },
    }
}

} // verus!
