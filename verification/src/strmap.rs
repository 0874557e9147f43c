//! A map keyed by strings that remembers the order in which its keys arrived.
//!
//! The model of a map is the sequence of its entries, each a key with a
//! value, in which no key occurs twice. The sequence is the order in which
//! the map is walked; read as a set of pairs it is a mathematical map.

use vstd::prelude::*;

verus! {

/// Whether some entry of `s` has the key `k`.
pub open spec fn has_key<T>(s: Seq<(Seq<char>, T)>, k: Seq<char>) -> bool {
    exists|i: int| 0 <= i < s.len() && (#[trigger] s[i]).0 == k
}

/// The place of an entry with the key `k`, where there is one.
pub open spec fn position<T>(s: Seq<(Seq<char>, T)>, k: Seq<char>) -> int {
    choose|i: int| 0 <= i < s.len() && (#[trigger] s[i]).0 == k
}

/// No key occurs in two entries.
pub open spec fn distinct_keys<T>(s: Seq<(Seq<char>, T)>) -> bool {
    forall|i: int, j: int|
        0 <= i < j < s.len() ==> (#[trigger] s[i]).0 != (#[trigger] s[j]).0
}

/// The entries read as a mathematical map.
pub open spec fn to_map<T>(s: Seq<(Seq<char>, T)>) -> Map<Seq<char>, T> {
    Map::new(|k: Seq<char>| has_key(s, k), |k: Seq<char>| s[position(s, k)].1)
}

/// The value stored under `k`, if any.
pub open spec fn lookup<T>(s: Seq<(Seq<char>, T)>, k: Seq<char>) -> Option<T> {
    if has_key(s, k) {
        Some(s[position(s, k)].1)
    } else {
        None
    }
}

/// The entries after `k` has been given the value `v`: an entry that is
/// there keeps its place, a new one goes to the end.
pub open spec fn put<T>(s: Seq<(Seq<char>, T)>, k: Seq<char>, v: T) -> Seq<(Seq<char>, T)> {
    if has_key(s, k) {
        s.update(position(s, k), (k, v))
    } else {
        s.push((k, v))
    }
}

/// The entries without the one under `k`.
pub open spec fn del<T>(s: Seq<(Seq<char>, T)>, k: Seq<char>) -> Seq<(Seq<char>, T)> {
    if has_key(s, k) {
        s.remove(position(s, k))
    } else {
        s
    }
}

/// With distinct keys, the entry at `i` is the one that `position` finds.
pub proof fn lemma_position<T>(s: Seq<(Seq<char>, T)>, i: int)
    requires
        distinct_keys(s),
        0 <= i < s.len(),
    ensures
        has_key(s, s[i].0),
        position(s, s[i].0) == i,
        lookup(s, s[i].0) == Some(s[i].1),
{
    let k = s[i].0;
    assert(has_key(s, k));
    let p = position(s, k);
    assert(0 <= p < s.len() && s[p].0 == k);
    if p < i {
        assert(s[p].0 != s[i].0);
    } else if i < p {
        assert(s[i].0 != s[p].0);
    }
}

/// Giving a key a value keeps the keys distinct and acts on the map as
/// `Map::insert` does.
pub proof fn lemma_put<T>(s: Seq<(Seq<char>, T)>, k: Seq<char>, v: T)
    requires
        distinct_keys(s),
    ensures
        distinct_keys(put(s, k, v)),
        to_map(put(s, k, v)) == to_map(s).insert(k, v),
        lookup(put(s, k, v), k) == Some(v),
        forall|o: Seq<char>| o != k ==> lookup(put(s, k, v), o) == lookup(s, o),
{
    let t = put(s, k, v);
    if has_key(s, k) {
        let p = position(s, k);
        assert(0 <= p < s.len() && s[p].0 == k);
        assert forall|i: int, j: int| 0 <= i < j < t.len() implies (#[trigger] t[i]).0 != (
        #[trigger] t[j]).0 by {
            assert(t[i].0 == s[i].0);
            assert(t[j].0 == s[j].0);
        }
        assert forall|o: Seq<char>| has_key(t, o) == has_key(s, o) by {
            if has_key(s, o) {
                let i = position(s, o);
                assert(t[i].0 == o);
            }
            if has_key(t, o) {
                let i = position(t, o);
                assert(s[i].0 == o);
            }
        }
        assert forall|o: Seq<char>| has_key(t, o) implies #[trigger] lookup(t, o) == (if o == k {
            Some(v)
        } else {
            lookup(s, o)
        }) by {
            let i = position(t, o);
            assert(0 <= i < t.len() && t[i].0 == o);
            assert(s[i].0 == o);
            lemma_position(s, i);
        }
    } else {
        assert forall|i: int, j: int| 0 <= i < j < t.len() implies (#[trigger] t[i]).0 != (
        #[trigger] t[j]).0 by {
            if j == s.len() {
                assert(t[i] == s[i]);
            } else {
                assert(t[i] == s[i]);
                assert(t[j] == s[j]);
            }
        }
        assert(t[s.len() as int].0 == k);
        lemma_position(t, s.len() as int);
        assert forall|o: Seq<char>| o != k implies has_key(t, o) == has_key(s, o) by {
            if has_key(s, o) {
                let i = position(s, o);
                assert(t[i] == s[i]);
            }
            if has_key(t, o) {
                let i = position(t, o);
                assert(0 <= i < t.len() && t[i].0 == o);
                assert(s[i].0 == o);
            }
        }
        assert forall|o: Seq<char>| o != k && has_key(t, o) implies #[trigger] lookup(t, o)
            == lookup(s, o) by {
            let i = position(t, o);
            assert(0 <= i < t.len() && t[i].0 == o);
            assert(s[i] == t[i]);
            lemma_position(s, i);
        }
    }
    assert(to_map(t) =~= to_map(s).insert(k, v)) by {
        assert forall|o: Seq<char>| to_map(t).dom().contains(o) <==> to_map(s).insert(
            k,
            v,
        ).dom().contains(o) by {}
        assert forall|o: Seq<char>| to_map(t).dom().contains(o) implies #[trigger] to_map(t)[o]
            == to_map(s).insert(k, v)[o] by {
            assert(lookup(t, o) == Some(to_map(t)[o]));
            if o != k {
                assert(lookup(s, o) == Some(to_map(s)[o]));
            }
        }
    }
}

/// Taking a key out keeps the keys distinct and acts on the map as
/// `Map::remove` does.
pub proof fn lemma_del<T>(s: Seq<(Seq<char>, T)>, k: Seq<char>)
    requires
        distinct_keys(s),
    ensures
        distinct_keys(del(s, k)),
        to_map(del(s, k)) == to_map(s).remove(k),
        !has_key(del(s, k), k),
        forall|o: Seq<char>| o != k ==> lookup(del(s, k), o) == lookup(s, o),
{
    let t = del(s, k);
    if has_key(s, k) {
        let p = position(s, k);
        assert(0 <= p < s.len() && s[p].0 == k);
        assert forall|i: int| 0 <= i < t.len() implies #[trigger] t[i] == s[if i < p {
            i
        } else {
            i + 1
        }] by {}
        assert forall|i: int, j: int| 0 <= i < j < t.len() implies (#[trigger] t[i]).0 != (
        #[trigger] t[j]).0 by {
            let a = if i < p { i } else { i + 1 };
            let b = if j < p { j } else { j + 1 };
            assert(t[i] == s[a]);
            assert(t[j] == s[b]);
            assert(s[a].0 != s[b].0);
        }
        if has_key(t, k) {
            let i = position(t, k);
            assert(0 <= i < t.len() && t[i].0 == k);
            let a = if i < p { i } else { i + 1 };
            assert(t[i] == s[a]);
            lemma_position(s, a);
            assert(false);
        }
        assert forall|o: Seq<char>| o != k implies lookup(t, o) == lookup(s, o) by {
            if has_key(s, o) {
                let i = position(s, o);
                assert(0 <= i < s.len() && s[i].0 == o);
                let a = if i < p { i } else { i - 1 };
                assert(t[a] == s[i]);
                lemma_position(t, a);
                lemma_position(s, i);
            }
            if has_key(t, o) {
                let i = position(t, o);
                assert(0 <= i < t.len() && t[i].0 == o);
                let a = if i < p { i } else { i + 1 };
                assert(t[i] == s[a]);
                lemma_position(s, a);
                lemma_position(t, i);
            }
        }
    }
    assert(to_map(t) =~= to_map(s).remove(k)) by {
        assert forall|o: Seq<char>| to_map(t).dom().contains(o) <==> to_map(s).remove(
            k,
        ).dom().contains(o) by {
            if o != k {
                assert(lookup(t, o) == lookup(s, o));
            }
        }
        assert forall|o: Seq<char>| to_map(t).dom().contains(o) implies #[trigger] to_map(t)[o]
            == to_map(s).remove(k)[o] by {
            assert(o != k);
            assert(lookup(t, o) == lookup(s, o));
        }
    }
}

/// The entries after the changes have been made in their order: a change
/// with a value gives its key that value, one without takes the key out.
pub open spec fn apply_changes<T>(
    s: Seq<(Seq<char>, T)>,
    changes: Seq<(Seq<char>, Option<T>)>,
) -> Seq<(Seq<char>, T)>
    decreases changes.len(),
{
    if changes.len() == 0 {
        s
    } else {
        let before = apply_changes(s, changes.drop_last());
        match changes.last().1 {
            Some(v) => put(before, changes.last().0, v),
            None => del(before, changes.last().0),
        }
    }
}

/// Changes keep the keys distinct. Where no key is changed twice, a key
/// that is changed ends with what its change says, and every other key
/// keeps what it had.
pub proof fn lemma_apply_changes<T>(s: Seq<(Seq<char>, T)>, changes: Seq<(Seq<char>, Option<T>)>)
    requires
        distinct_keys(s),
    ensures
        distinct_keys(apply_changes(s, changes)),
        forall|k: Seq<char>| !has_key(changes, k) ==> lookup(apply_changes(s, changes), k) == lookup(s, k),
        distinct_keys(changes) ==> forall|i: int|
            0 <= i < changes.len() ==> lookup(apply_changes(s, changes), (#[trigger] changes[i]).0)
                == changes[i].1,
    decreases changes.len(),
{
    if changes.len() > 0 {
        let rest = changes.drop_last();
        let last = changes.last();
        let before = apply_changes(s, rest);
        lemma_apply_changes(s, rest);
        match last.1 {
            Some(v) => lemma_put(before, last.0, v),
            None => lemma_del(before, last.0),
        }
        assert forall|k: Seq<char>| !has_key(changes, k) implies lookup(
            apply_changes(s, changes),
            k,
        ) == lookup(s, k) by {
            assert(changes[changes.len() - 1].0 != k);
            if has_key(rest, k) {
                let i = position(rest, k);
                assert(changes[i] == rest[i]);
            }
        }
        if distinct_keys(changes) {
            assert forall|i: int, j: int| 0 <= i < j < rest.len() implies (#[trigger] rest[i]).0 != (
            #[trigger] rest[j]).0 by {
                assert(changes[i] == rest[i]);
                assert(changes[j] == rest[j]);
            }
            assert forall|i: int| 0 <= i < changes.len() implies lookup(
                apply_changes(s, changes),
                (#[trigger] changes[i]).0,
            ) == changes[i].1 by {
                if i < rest.len() {
                    assert(changes[i] == rest[i]);
                    assert(changes[i].0 != changes[changes.len() - 1].0);
                    assert(lookup(before, rest[i].0) == rest[i].1);
                }
            }
        }
    }
}

/// A map from strings to values of `V` that is walked in the order in which
/// its keys were first inserted.
#[derive(Debug)]
pub struct StrMap<V: DeepView> {
    keys: Vec<String>,
    values: Vec<V>,
}

impl<V: DeepView> DeepView for StrMap<V> {
    type V = Seq<(Seq<char>, V::V)>;

    /// The full model: the entries in their order.
    open spec fn deep_view(&self) -> Seq<(Seq<char>, V::V)> {
        self.entries()
    }
}

impl<V: DeepView> View for StrMap<V> {
    type V = Map<Seq<char>, V::V>;

    /// The entries read as a mathematical map, their order forgotten.
    open spec fn view(&self) -> Map<Seq<char>, V::V> {
        to_map(self.entries())
    }
}

/// The entries that a list of keys and a list of values stand for.
pub open spec fn zip_entries<V: DeepView>(keys: Seq<String>, values: Seq<V>) -> Seq<
    (Seq<char>, V::V),
> {
    Seq::new(keys.len(), |i: int| (keys[i]@, values[i].deep_view()))
}

impl<V: DeepView> StrMap<V> {
    /// The entries in the order in which the map is walked.
    pub closed spec fn entries(&self) -> Seq<(Seq<char>, V::V)> {
        zip_entries(self.keys@, self.values@)
    }

    /// Every key has its value, and no key is stored twice.
    #[verifier::type_invariant]
    closed spec fn inv(&self) -> bool {
        self.keys@.len() == self.values@.len() && distinct_keys(self.entries())
    }

    /// An empty map.
    pub fn new() -> (r: Self)
        ensures
            r.entries() == Seq::<(Seq<char>, V::V)>::empty(),
    {
        let keys: Vec<String> = Vec::new();
        let values: Vec<V> = Vec::new();
        assert(zip_entries(keys@, values@) =~= Seq::<(Seq<char>, V::V)>::empty());
        StrMap { keys, values }
    }

    /// The number of entries. No two of them have the same key.
    pub fn len(&self) -> (r: usize)
        ensures
            r == self.entries().len(),
            distinct_keys(self.entries()),
    {
        proof {
            use_type_invariant(self);
        }
        self.keys.len()
    }

    /// The place of `key` among the entries, if it is there.
    pub fn find(&self, key: &String) -> (r: Option<usize>)
        ensures
            distinct_keys(self.entries()),
            match r {
                Some(i) => i < self.entries().len() && self.entries()[i as int].0 == key@
                    && has_key(self.entries(), key@) && position(self.entries(), key@) == i,
                None => !has_key(self.entries(), key@),
            },
    {
        proof {
            use_type_invariant(self);
        }
        let mut i: usize = 0;
        while i < self.keys.len()
            invariant
                distinct_keys(self.entries()),
                i <= self.keys@.len(),
                self.entries().len() == self.keys@.len(),
                forall|j: int| 0 <= j < i ==> (#[trigger] self.entries()[j]).0 != key@,
            decreases self.keys@.len() - i,
        {
            if self.keys[i] == *key {
                proof {
                    assert(self.entries()[i as int].0 == key@);
                    lemma_position(self.entries(), i as int);
                }
                return Some(i);
            }
            i += 1;
        }
        None
    }

    /// Whether `key` has a value.
    pub fn contains_key(&self, key: &String) -> (r: bool)
        ensures
            r == has_key(self.entries(), key@),
            r == self@.contains_key(key@),
    {
        self.find(key).is_some()
    }

    /// The value stored under `key`.
    pub fn get(&self, key: &String) -> (r: Option<&V>)
        ensures
            r.deep_view() == lookup(self.entries(), key@),
            r.is_some() == self@.contains_key(key@),
            r.is_some() ==> r.unwrap().deep_view() == self@[key@],
    {
        proof {
            use_type_invariant(self);
        }
        match self.find(key) {
            Some(i) => Some(&self.values[i]),
            None => None,
        }
    }

    /// The key of the entry at place `i`.
    pub fn key_at(&self, i: usize) -> (r: &String)
        requires
            i < self.entries().len(),
        ensures
            r@ == self.entries()[i as int].0,
    {
        &self.keys[i]
    }

    /// The value of the entry at place `i`.
    pub fn value_at(&self, i: usize) -> (r: &V)
        requires
            i < self.entries().len(),
        ensures
            r.deep_view() == self.entries()[i as int].1,
    {
        proof {
            use_type_invariant(self);
        }
        &self.values[i]
    }

    /// Stores `value` under `key`. A key that is there keeps its place and
    /// gets the new value; a new key goes to the end.
    pub fn insert(&mut self, key: String, value: V)
        ensures
            final(self).entries() == put(old(self).entries(), key@, value.deep_view()),
            final(self)@ == old(self)@.insert(key@, value.deep_view()),
            lookup(final(self).entries(), key@) == Some(value.deep_view()),
    {
        proof {
            use_type_invariant(&*self);
        }
        let ghost before = self.entries();
        let ghost k = key@;
        let ghost v = value.deep_view();
        let found = self.find(&key);
        let mut taken = StrMap::new();
        core::mem::swap(self, &mut taken);
        let StrMap { mut keys, mut values } = taken;
        proof {
            lemma_put(before, k, v);
        }
        match found {
            Some(i) => {
                values.set(i, value);
            },
            None => {
                keys.push(key);
                values.push(value);
            },
        }
        assert(zip_entries(keys@, values@) =~= put(before, k, v));
        *self = StrMap { keys, values };
    }

    /// Takes the entry under `key` out and returns its value.
    pub fn remove(&mut self, key: &String) -> (r: Option<V>)
        ensures
            final(self).entries() == del(old(self).entries(), key@),
            final(self)@ == old(self)@.remove(key@),
            r.deep_view() == lookup(old(self).entries(), key@),
            lookup(final(self).entries(), key@) is None,
    {
        proof {
            use_type_invariant(&*self);
        }
        let ghost before = self.entries();
        proof {
            lemma_del(before, key@);
        }
        match self.find(key) {
            Some(i) => {
                let mut taken = StrMap::new();
                core::mem::swap(self, &mut taken);
                let StrMap { mut keys, mut values } = taken;
                keys.remove(i);
                let value = values.remove(i);
                assert(zip_entries(keys@, values@) =~= del(before, key@));
                *self = StrMap { keys, values };
                Some(value)
            },
            None => None,
        }
    }

    /// A handle on the value stored under `key`, through which the value
    /// can be changed where it stands.
    pub fn get_mut(&mut self, key: &String) -> (r: Option<&mut V>)
        ensures
            match r {
                Some(v) => has_key(old(self).entries(), key@) && Some(v.deep_view()) == lookup(
                    old(self).entries(),
                    key@,
                ) && final(self).entries() =~= put(
                    old(self).entries(),
                    key@,
                    final(v).deep_view(),
                ),
                None => !has_key(old(self).entries(), key@) && final(self).entries() == old(
                    self,
                ).entries(),
            },
    {
        proof {
            use_type_invariant(&*self);
        }
        let ghost before = self.entries();
        match self.find(key) {
            Some(i) => {
                proof {
                    assert forall|a: int, b: int| 0 <= a < b < self.keys@.len() implies (
                    #[trigger] self.keys@[a])@ != (#[trigger] self.keys@[b])@ by {
                        assert(before[a].0 != before[b].0);
                    }
                }
                Some(&mut self.values[i])
            },
            None => None,
        }
    }

    /// A handle on the value of the entry at place `i`.
    pub fn value_at_mut(&mut self, i: usize) -> (r: &mut V)
        requires
            i < old(self).entries().len(),
        ensures
            r.deep_view() == old(self).entries()[i as int].1,
            final(self).entries() =~= old(self).entries().update(
                i as int,
                (old(self).entries()[i as int].0, final(r).deep_view()),
            ),
    {
        proof {
            use_type_invariant(&*self);
        }
        let ghost before = self.entries();
        proof {
            assert forall|a: int, b: int| 0 <= a < b < self.keys@.len() implies (
            #[trigger] self.keys@[a])@ != (#[trigger] self.keys@[b])@ by {
                assert(before[a].0 != before[b].0);
            }
        }
        &mut self.values[i]
    }

    /// Takes the entry at place `i` out and returns its value.
    pub fn remove_at(&mut self, i: usize) -> (r: V)
        requires
            i < old(self).entries().len(),
        ensures
            r.deep_view() == old(self).entries()[i as int].1,
            final(self).entries() == old(self).entries().remove(i as int),
            final(self).entries() == del(old(self).entries(), old(self).entries()[i as int].0),
    {
        proof {
            use_type_invariant(&*self);
        }
        let ghost before = self.entries();
        proof {
            lemma_position(before, i as int);
            lemma_del(before, before[i as int].0);
        }
        let mut taken = StrMap::new();
        core::mem::swap(self, &mut taken);
        let StrMap { mut keys, mut values } = taken;
        keys.remove(i);
        let value = values.remove(i);
        assert(zip_entries(keys@, values@) =~= before.remove(i as int));
        *self = StrMap { keys, values };
        value
    }

    /// Takes every entry out.
    pub fn clear(&mut self)
        ensures
            final(self).entries() == Seq::<(Seq<char>, V::V)>::empty(),
    {
        *self = StrMap::new();
    }
}

} // verus!
