//! The open-ended mapping that carries arguments the client does not model.
//!
//! A request may hold named arguments that only the service understands. They
//! travel as pairs of strings, each key once, in the order in which they were
//! first added, and the client never looks inside a value.

use vstd::prelude::*;

verus! {

/// Named arguments as mathematics: pairs of a key and a value, in order.
pub type Pairs = Seq<(Seq<char>, Seq<char>)>;

/// The pairs that a list of string pairs stands for.
pub open spec fn pairs_of(entries: Seq<(String, String)>) -> Pairs {
    entries.map_values(|entry: (String, String)| (entry.0@, entry.1@))
}

/// No key occurs twice in `pairs`.
pub open spec fn keys_distinct(pairs: Pairs) -> bool {
    forall|i: int, j: int| 0 <= i < j < pairs.len() ==> pairs[i].0 != pairs[j].0
}

/// The value of the first pair of `pairs` with the key `key`, if there is one.
pub open spec fn value_of(pairs: Pairs, key: Seq<char>) -> Option<Seq<char>>
    decreases pairs.len(),
{
    if pairs.len() == 0 {
        None
    } else if pairs[0].0 == key {
        Some(pairs[0].1)
    } else {
        value_of(pairs.drop_first(), key)
    }
}

/// `pairs` after `key` is bound to `value`: a key that is there keeps its
/// place and gets the new value, a new key goes to the end.
pub open spec fn put(pairs: Pairs, key: Seq<char>, value: Seq<char>) -> Pairs
    decreases pairs.len(),
{
    if pairs.len() == 0 {
        seq![(key, value)]
    } else if pairs[0].0 == key {
        seq![(key, value)] + pairs.drop_first()
    } else {
        seq![pairs[0]] + put(pairs.drop_first(), key, value)
    }
}

/// Where no pair has the key, `put` appends and `value_of` finds nothing.
pub proof fn lemma_key_absent(pairs: Pairs, key: Seq<char>, value: Seq<char>)
    requires
        forall|j: int| 0 <= j < pairs.len() ==> pairs[j].0 != key,
    ensures
        put(pairs, key, value) == pairs.push((key, value)),
        value_of(pairs, key) is None,
    decreases pairs.len(),
{
    if pairs.len() > 0 {
        let rest = pairs.drop_first();
        assert forall|j: int| 0 <= j < rest.len() implies rest[j].0 != key by {
            assert(rest[j] == pairs[j + 1]);
        }
        lemma_key_absent(rest, key, value);
        assert(seq![pairs[0]] + rest.push((key, value)) =~= pairs.push((key, value)));
    } else {
        assert(seq![(key, value)] =~= pairs.push((key, value)));
    }
}

/// Where the pair at `at` is the first with the key, `put` replaces that pair
/// and `value_of` finds its value.
pub proof fn lemma_key_present(pairs: Pairs, key: Seq<char>, value: Seq<char>, at: int)
    requires
        0 <= at < pairs.len(),
        pairs[at].0 == key,
        forall|j: int| 0 <= j < at ==> pairs[j].0 != key,
    ensures
        put(pairs, key, value) == pairs.update(at, (key, value)),
        value_of(pairs, key) == Some(pairs[at].1),
    decreases pairs.len(),
{
    let rest = pairs.drop_first();
    if at == 0 {
        assert(seq![(key, value)] + rest =~= pairs.update(0, (key, value)));
    } else {
        assert(rest[at - 1] == pairs[at]);
        assert forall|j: int| 0 <= j < at - 1 implies rest[j].0 != key by {
            assert(rest[j] == pairs[j + 1]);
        }
        lemma_key_present(rest, key, value, at - 1);
        assert(seq![pairs[0]] + rest.update(at - 1, (key, value)) =~= pairs.update(
            at,
            (key, value),
        ));
    }
}

/// Binding a key keeps the keys distinct.
pub proof fn lemma_put_keeps_keys_distinct(pairs: Pairs, key: Seq<char>, value: Seq<char>)
    requires
        keys_distinct(pairs),
    ensures
        keys_distinct(put(pairs, key, value)),
{
    if exists|at: int| 0 <= at < pairs.len() && pairs[at].0 == key {
        let at = choose|at: int| 0 <= at < pairs.len() && pairs[at].0 == key;
        assert forall|j: int| 0 <= j < at implies pairs[j].0 != key by {
            assert(pairs[j].0 != pairs[at].0);
        }
        lemma_key_present(pairs, key, value, at);
        let after = pairs.update(at, (key, value));
        assert forall|i: int, j: int| 0 <= i < j < after.len() implies after[i].0 != after[j].0 by {
            assert(after[i].0 == pairs[i].0);
            assert(after[j].0 == pairs[j].0);
        }
    } else {
        lemma_key_absent(pairs, key, value);
    }
}

/// After a key is bound to a value, that value is found under the key, and
/// what is found under any other key is as before.
pub proof fn lemma_value_of_put(pairs: Pairs, key: Seq<char>, value: Seq<char>, other: Seq<char>)
    ensures
        value_of(put(pairs, key, value), key) == Some(value),
        other != key ==> value_of(put(pairs, key, value), other) == value_of(pairs, other),
    decreases pairs.len(),
{
    let after = put(pairs, key, value);
    if pairs.len() == 0 {
        assert(after.drop_first() =~= Seq::<(Seq<char>, Seq<char>)>::empty());
        assert(value_of(after.drop_first(), other) is None);
    } else if pairs[0].0 == key {
        assert(after[0] == (key, value));
        assert(after.drop_first() =~= pairs.drop_first());
    } else {
        lemma_value_of_put(pairs.drop_first(), key, value, other);
        assert(after[0] == pairs[0]);
        assert(after.drop_first() =~= put(pairs.drop_first(), key, value));
    }
}

/// The index of the first entry with the key `key`, or the length of
/// `entries` where there is none.
fn first_with_key(entries: &Vec<(String, String)>, key: &String) -> (at: usize)
    ensures
        at <= entries.len(),
        at < entries.len() ==> pairs_of(entries@)[at as int].0 == key@,
        forall|j: int| 0 <= j < at ==> pairs_of(entries@)[j].0 != key@,
{
    let mut i: usize = 0;
    while i < entries.len()
        invariant
            i <= entries.len(),
            forall|j: int| 0 <= j < i ==> pairs_of(entries@)[j].0 != key@,
        decreases entries.len() - i,
    {
        if entries[i].0 == *key {
            return i;
        }
        i += 1;
    }
    i
}

/// Named arguments for the service that the client passes on as they are.
///
/// It behaves as a map from keys to values that remembers the order in which
/// its keys arrived.
#[derive(Debug, PartialEq, Eq)]
pub struct ExtraArgs {
    entries: Vec<(String, String)>,
}

impl View for ExtraArgs {
    type V = Pairs;

    closed spec fn view(&self) -> Pairs {
        pairs_of(self.entries@)
    }
}

impl ExtraArgs {
    #[verifier::type_invariant]
    spec fn keys_occur_once(&self) -> bool {
        keys_distinct(pairs_of(self.entries@))
    }

    /// No arguments.
    pub fn new() -> (args: Self)
        ensures
            args@ == Seq::<(Seq<char>, Seq<char>)>::empty(),
    {
        let args = ExtraArgs { entries: Vec::new() };
        assert(args@ =~= Seq::<(Seq<char>, Seq<char>)>::empty());
        args
    }

    /// The number of arguments.
    pub fn len(&self) -> (n: usize)
        ensures
            n == self@.len(),
    {
        self.entries.len()
    }

    /// The value bound to `key`, if there is one.
    pub fn get(&self, key: &String) -> (found: Option<&String>)
        ensures
            match found {
                Some(value) => value_of(self@, key@) == Some(value@),
                None => value_of(self@, key@) is None,
            },
    {
        let at = first_with_key(&self.entries, key);
        if at < self.entries.len() {
            proof {
                lemma_key_present(self@, key@, key@, at as int);
            }
            Some(&self.entries[at].1)
        } else {
            proof {
                lemma_key_absent(self@, key@, key@);
            }
            None
        }
    }

    /// Binds `key` to `value` and returns the value that `key` was bound to
    /// before, if any.
    pub fn insert(&mut self, key: String, value: String) -> (previous: Option<String>)
        ensures
            final(self)@ == put(old(self)@, key@, value@),
            match previous {
                Some(before) => value_of(old(self)@, key@) == Some(before@),
                None => value_of(old(self)@, key@) is None,
            },
    {
        proof {
            use_type_invariant(&*self);
            lemma_put_keeps_keys_distinct(self@, key@, value@);
        }
        let mut entries: Vec<(String, String)> = Vec::new();
        std::mem::swap(&mut self.entries, &mut entries);
        let ghost before = entries@;
        let mut previous: Option<String> = None;
        let at = first_with_key(&entries, &key);
        if at < entries.len() {
            proof {
                lemma_key_present(pairs_of(before), key@, value@, at as int);
            }
            let mut entry = (key, value);
            std::mem::swap(&mut entries[at], &mut entry);
            assert(pairs_of(entries@) =~= pairs_of(before).update(at as int, (key@, value@)));
            previous = Some(entry.1);
        } else {
            proof {
                lemma_key_absent(pairs_of(before), key@, value@);
            }
            entries.push((key, value));
            assert(pairs_of(entries@) =~= pairs_of(before).push((key@, value@)));
        }
        std::mem::swap(&mut self.entries, &mut entries);
        previous
    }

    /// The arguments as pairs, in order: a copy.
    pub fn to_pairs(&self) -> (pairs: Vec<(String, String)>)
        ensures
            pairs_of(pairs@) == self@,
            keys_distinct(self@),
    {
        proof {
            use_type_invariant(self);
        }
        let mut pairs: Vec<(String, String)> = Vec::new();
        let mut i: usize = 0;
        while i < self.entries.len()
            invariant
                i <= self.entries.len(),
                pairs_of(pairs@) == pairs_of(self.entries@).take(i as int),
            decreases self.entries.len() - i,
        {
            let ghost before = pairs@;
            let entry = (self.entries[i].0.clone(), self.entries[i].1.clone());
            pairs.push(entry);
            proof {
                assert(pairs@ == before.push(entry));
                assert(pairs_of(before).len() == i);
                assert forall|k: int| 0 <= k < i + 1 implies pairs_of(pairs@)[k] == pairs_of(
                    self.entries@,
                ).take(i + 1)[k] by {
                    if k < i {
                        assert(pairs_of(pairs@)[k] == pairs_of(before)[k]);
                        assert(pairs_of(before)[k] == pairs_of(self.entries@).take(i as int)[k]);
                    }
                }
                assert(pairs_of(pairs@) =~= pairs_of(self.entries@).take(i + 1));
            }
            i += 1;
        }
        assert(pairs_of(self.entries@).take(self.entries.len() as int) =~= pairs_of(
            self.entries@,
        ));
        pairs
    }
}

impl Clone for ExtraArgs {
    fn clone(&self) -> (copy: Self)
        ensures
            copy@ == self@,
    {
        let pairs = self.to_pairs();
        ExtraArgs { entries: pairs }
    }
}

} // verus!
