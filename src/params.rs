use vstd::prelude::*;

verus! {

/// The map that a sequence of key/value pairs stands for; a later pair wins
/// over an earlier one with the same key.
pub open spec fn pairs_map(s: Seq<(Seq<char>, Seq<char>)>) -> Map<Seq<char>, Seq<char>>
    decreases s.len(),
{
    if s.len() == 0 {
        Map::empty()
    } else {
        pairs_map(s.drop_last()).insert(s.last().0, s.last().1)
    }
}

pub open spec fn has_key(s: Seq<(Seq<char>, Seq<char>)>, k: Seq<char>) -> bool {
    exists|i: int| 0 <= i < s.len() && #[trigger] s[i].0 == k
}

pub open spec fn keys_unique(s: Seq<(Seq<char>, Seq<char>)>) -> bool {
    forall|i: int, j: int| 0 <= i < j < s.len() ==> #[trigger] s[i].0 != #[trigger] s[j].0
}

proof fn lemma_pairs_map(s: Seq<(Seq<char>, Seq<char>)>)
    requires
        keys_unique(s),
    ensures
        forall|k: Seq<char>| #[trigger] pairs_map(s).contains_key(k) <==> has_key(s, k),
        forall|i: int| 0 <= i < s.len() ==> pairs_map(s)[#[trigger] s[i].0] == s[i].1,
    decreases s.len(),
{
    if s.len() > 0 {
        let t = s.drop_last();
        let n = s.len() - 1;
        assert(forall|i: int| 0 <= i < t.len() ==> #[trigger] t[i] == s[i]);
        assert(keys_unique(t)) by {
            assert forall|i: int, j: int| 0 <= i < j < t.len() implies #[trigger] t[i].0
                != #[trigger] t[j].0 by {
                assert(s[i].0 != s[j].0);
            }
        }
        lemma_pairs_map(t);
        assert forall|k: Seq<char>| #[trigger] pairs_map(s).contains_key(k) <==> has_key(s, k) by {
            if pairs_map(s).contains_key(k) {
                if k == s[n].0 {
                    assert(s[n].0 == k);
                } else {
                    assert(pairs_map(t).contains_key(k));
                    let i = choose|i: int| 0 <= i < t.len() && #[trigger] t[i].0 == k;
                    assert(s[i].0 == k);
                }
            }
            if has_key(s, k) {
                let i = choose|i: int| 0 <= i < s.len() && #[trigger] s[i].0 == k;
                if i < n {
                    assert(t[i].0 == k);
                    assert(pairs_map(t).contains_key(k));
                }
            }
        }
        assert forall|i: int| 0 <= i < s.len() implies pairs_map(s)[#[trigger] s[i].0]
            == s[i].1 by {
            if i < n {
                assert(t[i].0 == s[i].0);
                assert(s[i].0 != s[n].0);
                assert(pairs_map(t)[t[i].0] == t[i].1);
            }
        }
    }
}

/// Replacing the value of a key that is present, or adding a key that is
/// absent, sets that key in the map.
proof fn lemma_pairs_map_set(
    before: Seq<(Seq<char>, Seq<char>)>,
    after: Seq<(Seq<char>, Seq<char>)>,
    k: Seq<char>,
    v: Seq<char>,
)
    requires
        keys_unique(before),
        keys_unique(after),
        forall|q: Seq<char>| #[trigger] has_key(after, q) <==> (q == k || has_key(before, q)),
        forall|i: int| 0 <= i < after.len() && after[i].0 != k ==> exists|j: int|
            0 <= j < before.len() && #[trigger] before[j] == #[trigger] after[i],
        forall|i: int| 0 <= i < after.len() && after[i].0 == k ==> #[trigger] after[i].1 == v,
    ensures
        pairs_map(after) == pairs_map(before).insert(k, v),
{
    lemma_pairs_map(before);
    lemma_pairs_map(after);
    let m = pairs_map(before).insert(k, v);
    assert forall|q: Seq<char>| #[trigger] pairs_map(after).contains_key(q) <==> m.contains_key(q) by {
        assert(pairs_map(after).contains_key(q) == has_key(after, q));
        assert(pairs_map(before).contains_key(q) == has_key(before, q));
    }
    assert forall|q: Seq<char>| #[trigger] pairs_map(after).contains_key(q) implies pairs_map(
        after,
    )[q] == m[q] by {
        let i = choose|i: int| 0 <= i < after.len() && #[trigger] after[i].0 == q;
        assert(pairs_map(after)[after[i].0] == after[i].1);
        if q != k {
            let j = choose|j: int| 0 <= j < before.len() && #[trigger] before[j] == #[trigger] after[i];
            assert(pairs_map(before)[before[j].0] == before[j].1);
        }
    }
    assert(pairs_map(after) =~= m);
}

/// The query string that serde_qs writes for a map of strings.
pub uninterp spec fn qs_encoding(m: Map<Seq<char>, Seq<char>>) -> Seq<char>;

/// Relies on `serde_qs::to_string` over a `BTreeMap` of strings: every key
/// has a string value, so the map serializes, and since the `BTreeMap` visits
/// its keys in order the text depends on the map alone.
#[verifier::external_body]
fn qs_map_to_string(p: &Params) -> (r: Result<String, String>)
    requires
        p.wf(),
    ensures
        r is Ok,
        r is Ok ==> r->Ok_0@ == qs_encoding(p@),
{
    let map: std::collections::BTreeMap<&str, &str> = p.pairs.iter().map(
        |(k, v)| (k.as_str(), v.as_str()),
    ).collect();
    serde_qs::to_string(&map).map_err(|e| e.to_string())
}

/// Relies on `serde_qs::to_string` over a bare string: a top-level value has
/// no key to be written under, so serde_qs returns its error.
#[verifier::external_body]
pub(crate) fn qs_value_to_string(value: &String) -> (r: Result<String, String>)
    ensures
        r is Err,
{
    serde_qs::to_string(value).map_err(|e| e.to_string())
}

/// Query parameters: string keys, each present at most once, with string
/// values.
pub struct Params {
    pairs: Vec<(String, String)>,
}

impl Params {
    pub closed spec fn entries(&self) -> Seq<(Seq<char>, Seq<char>)> {
        self.pairs@.map_values(|p: (String, String)| (p.0@, p.1@))
    }

    /// Each key is held once.
    pub closed spec fn wf(&self) -> bool {
        keys_unique(self.entries())
    }

    /// No parameters.
    pub fn new() -> (r: Params)
        ensures
            r.wf(),
            r@ == Map::<Seq<char>, Seq<char>>::empty(),
    {
        let r = Params { pairs: Vec::new() };
        assert(r.entries() =~= Seq::<(Seq<char>, Seq<char>)>::empty());
        r
    }

    /// Sets `key` to `value`, replacing any value that `key` had.
    pub fn insert(&mut self, key: &str, value: &str)
        requires
            old(self).wf(),
        ensures
            final(self).wf(),
            final(self)@ == old(self)@.insert(key@, value@),
    {
        let k = String::from_str(key);
        let v = String::from_str(value);
        proof {
            lemma_pairs_map(self.entries());
        }
        let ghost before = self.entries();
        let mut i: usize = 0;
        while i < self.pairs.len()
            invariant
                i <= self.pairs.len(),
                self.entries() == before,
                old(self).entries() == before,
                keys_unique(before),
                k@ == key@,
                v@ == value@,
                forall|j: int| 0 <= j < i ==> #[trigger] before[j].0 != key@,
            decreases self.pairs.len() - i,
        {
            if self.pairs[i].0 == k {
                let ghost e = (k@, v@);
                self.pairs.set(i, (k, v));
                proof {
                    let after = self.entries();
                    assert(after =~= before.update(i as int, e));
                    assert(keys_unique(after)) by {
                        assert forall|a: int, b: int| 0 <= a < b < after.len() implies
                            #[trigger] after[a].0 != #[trigger] after[b].0 by {
                            assert(before[a].0 != before[b].0);
                        }
                    }
                    assert forall|q: Seq<char>|
                        #[trigger] has_key(after, q) <==> (q == key@ || has_key(before, q)) by {
                        if exists|j: int| 0 <= j < before.len() && #[trigger] before[j].0 == q {
                            let j = choose|j: int| 0 <= j < before.len() && #[trigger] before[j].0 == q;
                            assert(after[j].0 == q);
                        }
                        if q == key@ {
                            assert(after[i as int].0 == q);
                        }
                        if exists|j: int| 0 <= j < after.len() && #[trigger] after[j].0 == q {
                            let j = choose|j: int| 0 <= j < after.len() && #[trigger] after[j].0 == q;
                            if j != i {
                                assert(before[j].0 == q);
                            }
                        }
                    }
                    assert forall|j: int| 0 <= j < after.len() && after[j].0 != key@ implies exists|
                        l: int,
                    | 0 <= l < before.len() && #[trigger] before[l] == #[trigger] after[j] by {
                        assert(before[j] == after[j]);
                    }
                    assert forall|j: int| 0 <= j < after.len() && after[j].0 == key@ implies
                        #[trigger] after[j].1 == value@ by {
                        if j != i {
                            assert(before[j].0 != before[i as int].0);
                        }
                    }
                    lemma_pairs_map_set(before, after, key@, value@);
                }
                return;
            }
            i = i + 1;
        }
        let ghost e = (k@, v@);
        self.pairs.push((k, v));
        proof {
            let after = self.entries();
            assert(after =~= before.push(e));
            assert(keys_unique(after)) by {
                assert forall|a: int, b: int| 0 <= a < b < after.len() implies #[trigger] after[a].0
                    != #[trigger] after[b].0 by {
                    if b < before.len() {
                        assert(before[a].0 != before[b].0);
                    } else {
                        assert(before[a].0 != key@);
                    }
                }
            }
            assert forall|q: Seq<char>|
                #[trigger] has_key(after, q) <==> (q == key@ || has_key(before, q)) by {
                if exists|j: int| 0 <= j < before.len() && #[trigger] before[j].0 == q {
                    let j = choose|j: int| 0 <= j < before.len() && #[trigger] before[j].0 == q;
                    assert(after[j].0 == q);
                }
                if q == key@ {
                    assert(after[before.len() as int].0 == q);
                }
                if exists|j: int| 0 <= j < after.len() && #[trigger] after[j].0 == q {
                    let j = choose|j: int| 0 <= j < after.len() && #[trigger] after[j].0 == q;
                    if j < before.len() {
                        assert(before[j].0 == q);
                    }
                }
            }
            assert forall|j: int| 0 <= j < after.len() && after[j].0 != key@ implies exists|l: int|
                0 <= l < before.len() && #[trigger] before[l] == #[trigger] after[j] by {
                assert(before[j] == after[j]);
            }
            lemma_pairs_map_set(before, after, key@, value@);
        }
    }

    /// The query string for these parameters; each key appears once.
    pub fn encode(&self) -> (r: String)
        requires
            self.wf(),
        ensures
            r@ == qs_encoding(self@),
    {
        match qs_map_to_string(self) {
            Ok(s) => s,
            Err(_) => String::new(),
        }
    }

    /// The value of `key`, if it is present.
    pub fn get(&self, key: &str) -> (r: Option<&str>)
        requires
            self.wf(),
        ensures
            r.is_some() == self@.contains_key(key@),
            r.is_some() ==> r.unwrap()@ == self@[key@],
    {
        let k = String::from_str(key);
        let mut i: usize = 0;
        while i < self.pairs.len()
            invariant
                i <= self.pairs.len(),
                k@ == key@,
                self.wf(),
                forall|j: int| 0 <= j < i ==> #[trigger] self.entries()[j].0 != key@,
            decreases self.pairs.len() - i,
        {
            if self.pairs[i].0 == k {
                assert(self.entries()[i as int].0 == key@);
                assert(has_key(self.entries(), key@));
                proof {
                    lemma_pairs_map(self.entries());
                }
                assert(self@.contains_key(key@));
                assert(self@[self.entries()[i as int].0] == self.entries()[i as int].1);
                return Some(self.pairs[i].1.as_str());
            }
            i = i + 1;
        }
        proof {
            lemma_pairs_map(self.entries());
        }
        assert(!has_key(self.entries(), key@));
        assert(!self@.contains_key(key@));
        None
    }
}

impl View for Params {
    type V = Map<Seq<char>, Seq<char>>;

    closed spec fn view(&self) -> Map<Seq<char>, Seq<char>> {
        pairs_map(self.entries())
    }
}

} // verus!
