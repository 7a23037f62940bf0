//! Parsing of `key=value` command-line tokens into an argument map.
//!
//! Each token is split on its first `=`; tokens without an `=` are
//! malformed and are skipped, and when one key is bound several times the
//! last binding wins, as with repeated insertions into a map.

use vstd::prelude::*;

verus! {

/// Index of the first `=` in `t`, or `t.len()` when there is none.
pub open spec fn first_eq(t: Seq<char>) -> int
    decreases t.len(),
{
    if t.len() == 0 {
        0
    } else if t[0] == '=' {
        0
    } else {
        1 + first_eq(t.drop_first())
    }
}

/// Whether the token contains an `=`, i.e. is well formed.
pub open spec fn has_eq(t: Seq<char>) -> bool {
    exists|i: int| 0 <= i < t.len() && t[i] == '='
}

/// The key of a well-formed token: everything before the first `=`.
pub open spec fn key_of(t: Seq<char>) -> Seq<char> {
    t.subrange(0, first_eq(t))
}

/// The value of a well-formed token: everything after the first `=`.
pub open spec fn value_of(t: Seq<char>) -> Seq<char> {
    t.subrange(first_eq(t) + 1, t.len() as int)
}

/// `first_eq` is the position of the first `=`: nothing before it is an
/// `=`, it lies in the token exactly when the token is well formed, and
/// it points at an `=` when it does.
pub proof fn lemma_first_eq(t: Seq<char>)
    ensures
        0 <= first_eq(t) <= t.len(),
        first_eq(t) < t.len() ==> t[first_eq(t)] == '=',
        forall|j: int| 0 <= j < first_eq(t) ==> t[j] != '=',
        has_eq(t) <==> first_eq(t) < t.len(),
    decreases t.len(),
{
    if t.len() == 0 {
        assert(!has_eq(t));
    } else if t[0] == '=' {
        assert(has_eq(t));
    } else {
        let tr = t.drop_first();
        lemma_first_eq(tr);
        assert(forall|j: int| 1 <= j < first_eq(t) ==> t[j] == tr[j - 1] && tr[j - 1] != '=');
        if has_eq(t) {
            let i = choose|i: int| 0 <= i < t.len() && t[i] == '=';
            assert(tr[i - 1] == '=');
            assert(has_eq(tr));
        }
        if has_eq(tr) {
            let i = choose|i: int| 0 <= i < tr.len() && tr[i] == '=';
            assert(t[i + 1] == '=');
            assert(has_eq(t));
        }
    }
}

/// The map denoted by a list of key/value entries, each inserted in order.
pub open spec fn map_of_entries(entries: Seq<(Seq<char>, Seq<char>)>) -> Map<Seq<char>, Seq<char>>
    decreases entries.len(),
{
    if entries.len() == 0 {
        Map::empty()
    } else {
        map_of_entries(entries.drop_last()).insert(entries.last().0, entries.last().1)
    }
}

/// The map that a token list parses to: every well-formed token inserts
/// its key and value in order, so the last binding of a key wins, and
/// malformed tokens contribute nothing.
pub open spec fn parsed_map(tokens: Seq<Seq<char>>) -> Map<Seq<char>, Seq<char>>
    decreases tokens.len(),
{
    if tokens.len() == 0 {
        Map::empty()
    } else {
        let rest = parsed_map(tokens.drop_last());
        if has_eq(tokens.last()) {
            rest.insert(key_of(tokens.last()), value_of(tokens.last()))
        } else {
            rest
        }
    }
}

/// The malformed tokens of a token list, in order: those without an `=`.
pub open spec fn malformed(tokens: Seq<Seq<char>>) -> Seq<Seq<char>>
    decreases tokens.len(),
{
    if tokens.len() == 0 {
        Seq::empty()
    } else {
        let rest = malformed(tokens.drop_last());
        if has_eq(tokens.last()) {
            rest
        } else {
            rest.push(tokens.last())
        }
    }
}

/// Dropping a malformed token leaves the parsed map unchanged: malformed
/// tokens do not affect the parsing of the well-formed ones around them.
pub proof fn lemma_malformed_token_ignored(tokens: Seq<Seq<char>>, i: int)
    requires
        0 <= i < tokens.len(),
        !has_eq(tokens[i]),
    ensures
        parsed_map(tokens.remove(i)) == parsed_map(tokens),
    decreases tokens.len(),
{
    if i == tokens.len() - 1 {
        assert(tokens.remove(i) =~= tokens.drop_last());
    } else {
        lemma_malformed_token_ignored(tokens.drop_last(), i);
        assert(tokens.remove(i).drop_last() =~= tokens.drop_last().remove(i));
        assert(tokens.remove(i).last() == tokens.last());
    }
}

/// A mapping from argument names to values, built once from the
/// command-line tokens. Viewed as the map its entries denote, where a
/// later binding of a key shadows an earlier one.
pub struct ArgMap {
    entries: Vec<(String, String)>,
}

impl ArgMap {
    /// The map the entries denote.
    pub closed spec fn view(&self) -> Map<Seq<char>, Seq<char>> {
        map_of_entries(self.entries.deep_view())
    }

    /// An empty argument map.
    pub fn new() -> (r: ArgMap)
        ensures
            r@ == Map::<Seq<char>, Seq<char>>::empty(),
    {
        ArgMap { entries: Vec::new() }
    }

    /// Binds `key` to `value`, shadowing any earlier binding.
    pub fn insert(&mut self, key: String, value: String)
        ensures
            final(self)@ == old(self)@.insert(key@, value@),
    {
        let ghost before = self.entries.deep_view();
        self.entries.push((key, value));
        proof {
            assert(self.entries.deep_view().drop_last() =~= before);
        }
    }

    /// Looks `key` up: the value of its last binding, if there is one.
    pub fn get(&self, key: &str) -> (r: Option<&String>)
        ensures
            match r {
                Some(v) => self@.contains_key(key@) && v@ == self@[key@],
                None => !self@.contains_key(key@),
            },
    {
        let k = String::from_str(key);
        let mut i: usize = self.entries.len();
        while i > 0
            invariant
                i <= self.entries.len(),
                k@ == key@,
                forall|j: int| i <= j < self.entries.len() ==> self.entries.deep_view()[j].0
                    != key@,
            decreases i,
        {
            i = i - 1;
            let e = &self.entries[i];
            if e.0 == k {
                proof {
                    lemma_map_entry_at(self.entries.deep_view(), key@, i as int);
                }
                return Some(&e.1);
            }
        }
        proof {
            lemma_map_no_entry(self.entries.deep_view(), key@);
        }
        None
    }
}

/// When entry `i` binds `k` and no later entry does, the denoted map
/// takes `k` to entry `i`'s value.
proof fn lemma_map_entry_at(entries: Seq<(Seq<char>, Seq<char>)>, k: Seq<char>, i: int)
    requires
        0 <= i < entries.len(),
        entries[i].0 == k,
        forall|j: int| i < j < entries.len() ==> entries[j].0 != k,
    ensures
        map_of_entries(entries).contains_key(k),
        map_of_entries(entries)[k] == entries[i].1,
    decreases entries.len(),
{
    if i < entries.len() - 1 {
        lemma_map_entry_at(entries.drop_last(), k, i);
    }
}

/// When no entry binds `k`, the denoted map has no key `k`.
proof fn lemma_map_no_entry(entries: Seq<(Seq<char>, Seq<char>)>, k: Seq<char>)
    requires
        forall|j: int| 0 <= j < entries.len() ==> entries[j].0 != k,
    ensures
        !map_of_entries(entries).contains_key(k),
    decreases entries.len(),
{
    if entries.len() > 0 {
        lemma_map_no_entry(entries.drop_last(), k);
    }
}

/// Splits a token on its first `=` into a key and a value, or reports it
/// malformed when it has none.
pub fn split_token(t: &str) -> (r: Option<(String, String)>)
    ensures
        match r {
            Some(kv) => has_eq(t@) && kv.0@ == key_of(t@) && kv.1@ == value_of(t@),
            None => !has_eq(t@),
        },
{
    let n = t.unicode_len();
    let mut i: usize = 0;
    while i < n
        invariant
            n == t@.len(),
            i <= n,
            forall|j: int| 0 <= j < i ==> t@[j] != '=',
        decreases n - i,
    {
        if t.get_char(i) == '=' {
            proof {
                lemma_first_eq(t@);
                assert(first_eq(t@) >= i) by {
                    if first_eq(t@) < i {
                        assert(t@[first_eq(t@)] != '=');
                    }
                }
                assert(first_eq(t@) == i);
            }
            let k = t.substring_char(0, i);
            let v = t.substring_char(i + 1, n);
            return Some((k.to_owned(), v.to_owned()));
        }
        i = i + 1;
    }
    proof {
        lemma_first_eq(t@);
    }
    None
}

/// Parses command-line tokens (each `key=value`) into an argument map,
/// and returns alongside it the malformed tokens that were skipped, in
/// order, so the caller can report each of them. A key bound several
/// times keeps its last value.
pub fn parse_args(tokens: &Vec<String>) -> (r: (ArgMap, Vec<String>))
    ensures
        r.0@ == parsed_map(tokens.deep_view()),
        r.1.deep_view() == malformed(tokens.deep_view()),
{
    let mut map = ArgMap::new();
    let mut bad: Vec<String> = Vec::new();
    let mut idx: usize = 0;
    while idx < tokens.len()
        invariant
            idx <= tokens.len(),
            map@ == parsed_map(tokens.deep_view().take(idx as int)),
            bad.deep_view() == malformed(tokens.deep_view().take(idx as int)),
        decreases tokens.len() - idx,
    {
        let ghost prefix = tokens.deep_view().take(idx as int);
        let ghost next = tokens.deep_view().take(idx as int + 1);
        proof {
            assert(next.drop_last() =~= prefix);
            assert(next.last() == tokens.deep_view()[idx as int]);
        }
        let t = &tokens[idx];
        match split_token(t.as_str()) {
            Some(kv) => {
                map.insert(kv.0, kv.1);
            },
            None => {
                let ghost bad_before = bad.deep_view();
                bad.push(t.clone());
                proof {
                    assert(bad.deep_view() =~= bad_before.push(t@));
                }
            },
        }
        idx = idx + 1;
    }
    proof {
        assert(tokens.deep_view().take(tokens.len() as int) =~= tokens.deep_view());
    }
    (map, bad)
}

} // verus!
