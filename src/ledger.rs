use vstd::prelude::*;

verus! {

/// The value that a keyed ledger holds for `k`: the last entry with that key.
pub open spec fn entry_of<T>(s: Seq<(String, T)>, k: Seq<char>) -> Option<T>
    decreases s.len(),
{
    if s.len() == 0 {
        None
    } else if s.last().0@ == k {
        Some(s.last().1)
    } else {
        entry_of(s.drop_last(), k)
    }
}

/// `i` is the last position of key `k` in `s`.
pub open spec fn last_index_of<T>(s: Seq<(String, T)>, k: Seq<char>, i: int) -> bool {
    0 <= i < s.len() && s[i].0@ == k && forall|j: int| i < j < s.len() ==> s[j].0@ != k
}

pub proof fn lemma_entry_absent<T>(s: Seq<(String, T)>, k: Seq<char>)
    requires
        forall|j: int| 0 <= j < s.len() ==> s[j].0@ != k,
    ensures
        entry_of(s, k) is None,
    decreases s.len(),
{
    if s.len() > 0 {
        lemma_entry_absent(s.drop_last(), k);
    }
}

pub proof fn lemma_entry_at<T>(s: Seq<(String, T)>, k: Seq<char>, i: int)
    requires
        last_index_of(s, k, i),
    ensures
        entry_of(s, k) == Some(s[i].1),
    decreases s.len(),
{
    if i < s.len() - 1 {
        lemma_entry_at(s.drop_last(), k, i);
    }
}

/// Replacing the value at the last position of `k` changes the entry of `k`
/// and of no other key.
pub proof fn lemma_entry_update<T>(s: Seq<(String, T)>, k: Seq<char>, i: int, v: T, k2: Seq<char>)
    requires
        last_index_of(s, k, i),
    ensures
        entry_of(s.update(i, (s[i].0, v)), k2) == if k2 == k {
            Some(v)
        } else {
            entry_of(s, k2)
        },
    decreases s.len(),
{
    let t = s.update(i, (s[i].0, v));
    if i == s.len() - 1 {
        assert(t.drop_last() =~= s.drop_last());
    } else {
        assert(t.drop_last() =~= s.drop_last().update(i, (s[i].0, v)));
        lemma_entry_update(s.drop_last(), k, i, v, k2);
    }
}

/// Appending an entry for `k` sets the entry of `k` and of no other key.
pub proof fn lemma_entry_push<T>(s: Seq<(String, T)>, k: String, v: T, k2: Seq<char>)
    ensures
        entry_of(s.push((k, v)), k2) == if k2 == k@ {
            Some(v)
        } else {
            entry_of(s, k2)
        },
{
    assert(s.push((k, v)).drop_last() =~= s);
}

/// The last position of `k` in the ledger, if any.
pub fn find_key<T>(s: &Vec<(String, T)>, k: &String) -> (r: Option<usize>)
    ensures
        match r {
            Some(i) => last_index_of(s@, k@, i as int) && entry_of(s@, k@) == Some(s@[i as int].1),
            None => (forall|j: int| 0 <= j < s@.len() ==> s@[j].0@ != k@) && entry_of(s@, k@) is None,
        },
{
    let mut i: usize = s.len();
    while i > 0
        invariant
            i <= s@.len(),
            forall|j: int| i <= j < s@.len() ==> s@[j].0@ != k@,
        decreases i,
    {
        i = i - 1;
        if s[i].0 == *k {
            proof {
                lemma_entry_at(s@, k@, i as int);
            }
            return Some(i);
        }
    }
    proof {
        lemma_entry_absent(s@, k@);
    }
    None
}


/// Sets the entry of `k` to `v`, leaving every other key's entry as it was.
pub fn ledger_set<T>(s: &mut Vec<(String, T)>, k: &String, v: T)
    ensures
        entry_of(final(s)@, k@) == Some(v),
        forall|k2: Seq<char>| k2 != k@ ==> entry_of(final(s)@, k2) == entry_of(old(s)@, k2),
        final(s)@.len() == old(s)@.len() || final(s)@.len() == old(s)@.len() + 1,
{
    let ghost before = s@;
    match find_key(s, k) {
        Some(i) => {
            let (key, _) = s.remove(i);
            let ghost g_key = key;
            s.insert(i, (key, v));
            proof {
                assert(s@ =~= before.update(i as int, (before[i as int].0, v)));
                assert forall|k2: Seq<char>| k2 != k@ implies entry_of(s@, k2) == entry_of(before, k2) by {
                    lemma_entry_update(before, k@, i as int, v, k2);
                }
                lemma_entry_update(before, k@, i as int, v, k@);
            }
        },
        None => {
            let key = k.clone();
            let ghost g_key = key;
            s.push((key, v));
            proof {
                assert forall|k2: Seq<char>| k2 != k@ implies entry_of(s@, k2) == entry_of(before, k2) by {
                    lemma_entry_push(before, g_key, v, k2);
                }
                lemma_entry_push(before, g_key, v, k@);
            }
        },
    }
}

/// The entry of `k`, read without changing the ledger.
pub fn ledger_get<T: Copy>(s: &Vec<(String, T)>, k: &String) -> (r: Option<T>)
    ensures
        r == entry_of(s@, k@),
{
    match find_key(s, k) {
        Some(i) => Some(s[i].1),
        None => None,
    }
}

} // verus!
