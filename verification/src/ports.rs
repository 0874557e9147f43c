//! Port bindings of a container and the set that keeps them free of
//! conflicts.

use vstd::prelude::*;

verus! {

/// One published port: a port of the host that leads to a port of the
/// container, for one protocol.
#[derive(Debug)]
pub struct PortBinding {
    pub host_port: u16,
    pub container_port: u16,
    pub protocol: String,
}

/// The model of a `PortBinding`.
pub struct PortBindingView {
    pub host_port: u16,
    pub container_port: u16,
    pub protocol: Seq<char>,
}

impl DeepView for PortBinding {
    type V = PortBindingView;

    open spec fn deep_view(&self) -> PortBindingView {
        PortBindingView {
            host_port: self.host_port,
            container_port: self.container_port,
            protocol: self.protocol@,
        }
    }
}

impl View for PortBinding {
    type V = PortBindingView;

    open spec fn view(&self) -> PortBindingView {
        self.deep_view()
    }
}

impl Clone for PortBinding {
    fn clone(&self) -> (r: Self)
        ensures
            r@ == self@,
    {
        PortBinding {
            host_port: self.host_port,
            container_port: self.container_port,
            protocol: self.protocol.clone(),
        }
    }
}

/// Two bindings conflict when they have the same protocol and share the
/// host port or the container port, and are not the same binding.
pub open spec fn conflicts(a: PortBindingView, b: PortBindingView) -> bool {
    a.protocol == b.protocol && (a.host_port == b.host_port || a.container_port
        == b.container_port) && a != b
}

/// Two bindings can stand in one container: they are equal, or differ in
/// protocol, or agree on neither port.
pub open spec fn compatible(a: PortBindingView, b: PortBindingView) -> bool {
    a == b || a.protocol != b.protocol || (a.host_port != b.host_port && a.container_port
        != b.container_port)
}

/// Every two bindings of `s` are compatible.
pub open spec fn conflict_free(s: Seq<PortBindingView>) -> bool {
    forall|i: int, j: int|
        0 <= i < s.len() && 0 <= j < s.len() ==> compatible(#[trigger] s[i], #[trigger] s[j])
}

/// Some binding of `s` conflicts with `b`.
pub open spec fn has_conflict(s: Seq<PortBindingView>, b: PortBindingView) -> bool {
    exists|i: int| 0 <= i < s.len() && conflicts(#[trigger] s[i], b)
}

/// The place of the first binding of `s` that conflicts with `b`; the
/// length of `s` where none does.
pub open spec fn first_conflict(s: Seq<PortBindingView>, b: PortBindingView) -> int
    decreases s.len(),
{
    if s.len() == 0 {
        0
    } else if conflicts(s[0], b) {
        0
    } else {
        1 + first_conflict(s.drop_first(), b)
    }
}

/// `s` with `b` in it: unchanged where `b` is there already, else with `b`
/// at the end.
pub open spec fn with_binding(s: Seq<PortBindingView>, b: PortBindingView) -> Seq<
    PortBindingView,
> {
    if s.contains(b) {
        s
    } else {
        s.push(b)
    }
}

/// `s` without `b`.
pub open spec fn without_binding(s: Seq<PortBindingView>, b: PortBindingView) -> Seq<
    PortBindingView,
> {
    if s.contains(b) {
        s.remove(s.index_of(b))
    } else {
        s
    }
}

/// What `first_conflict` finds: a conflicting binding before which none
/// conflicts, if there is any conflict at all.
pub proof fn lemma_first_conflict(s: Seq<PortBindingView>, b: PortBindingView)
    ensures
        0 <= first_conflict(s, b) <= s.len(),
        forall|i: int| 0 <= i < first_conflict(s, b) ==> !conflicts(#[trigger] s[i], b),
        first_conflict(s, b) < s.len() ==> conflicts(s[first_conflict(s, b)], b),
        has_conflict(s, b) <==> first_conflict(s, b) < s.len(),
    decreases s.len(),
{
    if s.len() > 0 && !conflicts(s[0], b) {
        let t = s.drop_first();
        lemma_first_conflict(t, b);
        assert forall|i: int| 0 <= i < first_conflict(s, b) implies !conflicts(
            #[trigger] s[i],
            b,
        ) by {
            if i > 0 {
                assert(s[i] == t[i - 1]);
            }
        }
        if first_conflict(s, b) < s.len() {
            assert(s[first_conflict(s, b)] == t[first_conflict(t, b)]);
        }
        if has_conflict(s, b) {
            let i = choose|i: int| 0 <= i < s.len() && conflicts(#[trigger] s[i], b);
            assert(s[i] == t[i - 1]);
        }
    }
}

/// A set of bindings in which every two are compatible stays such a set
/// when a binding is added that conflicts with none of them, and when a
/// binding is taken out. So whatever bindings are added and removed, one
/// after the other, no two bindings of the set ever conflict.
pub proof fn lemma_conflict_free_is_kept(s: Seq<PortBindingView>, b: PortBindingView)
    requires
        conflict_free(s),
    ensures
        !has_conflict(s, b) ==> conflict_free(with_binding(s, b)),
        conflict_free(without_binding(s, b)),
        conflict_free(Seq::<PortBindingView>::empty()),
{
    if !has_conflict(s, b) {
        let t = with_binding(s, b);
        assert forall|i: int, j: int| 0 <= i < t.len() && 0 <= j < t.len() implies compatible(
            #[trigger] t[i],
            #[trigger] t[j],
        ) by {
            if i < s.len() {
                assert(t[i] == s[i]);
                assert(!conflicts(s[i], b));
            }
            if j < s.len() {
                assert(t[j] == s[j]);
                assert(!conflicts(s[j], b));
            }
        }
    }
    if s.contains(b) {
        let p = s.index_of(b);
        let t = s.remove(p);
        assert forall|i: int, j: int| 0 <= i < t.len() && 0 <= j < t.len() implies compatible(
            #[trigger] t[i],
            #[trigger] t[j],
        ) by {
            let a = if i < p { i } else { i + 1 };
            let c = if j < p { j } else { j + 1 };
            assert(t[i] == s[a]);
            assert(t[j] == s[c]);
            assert(compatible(s[a], s[c]));
        }
    }
}

impl PortBinding {
    /// Whether two bindings are the same in every field.
    pub fn same(&self, other: &PortBinding) -> (r: bool)
        ensures
            r == (self@ == other@),
    {
        self.host_port == other.host_port && self.container_port == other.container_port
            && self.protocol == other.protocol
    }

    /// Whether this binding conflicts with `other`.
    pub fn conflicts_with(&self, other: &PortBinding) -> (r: bool)
        ensures
            r == conflicts(self@, other@),
    {
        self.protocol == other.protocol && (self.host_port == other.host_port
            || self.container_port == other.container_port) && !self.same(other)
    }
}

/// The port bindings of one container. No binding is held twice, and no two
/// of them conflict.
#[derive(Debug)]
pub struct PortSet {
    items: Vec<PortBinding>,
}

impl DeepView for PortSet {
    type V = Seq<PortBindingView>;

    /// The full model: the bindings in their order.
    open spec fn deep_view(&self) -> Seq<PortBindingView> {
        self.bindings()
    }
}

impl View for PortSet {
    type V = Set<PortBindingView>;

    /// The bindings as a set, their order forgotten.
    open spec fn view(&self) -> Set<PortBindingView> {
        self.bindings().to_set()
    }
}

/// The models of a list of bindings.
pub open spec fn binding_views(items: Seq<PortBinding>) -> Seq<PortBindingView> {
    Seq::new(items.len(), |i: int| items[i]@)
}

impl PortSet {
    /// The bindings in the order in which they were added.
    pub closed spec fn bindings(&self) -> Seq<PortBindingView> {
        binding_views(self.items@)
    }

    #[verifier::type_invariant]
    closed spec fn inv(&self) -> bool {
        self.bindings().no_duplicates() && conflict_free(self.bindings())
    }

    /// The empty set.
    pub fn new() -> (r: Self)
        ensures
            r.bindings() == Seq::<PortBindingView>::empty(),
    {
        let items: Vec<PortBinding> = Vec::new();
        assert(binding_views(items@) =~= Seq::<PortBindingView>::empty());
        PortSet { items }
    }

    /// The number of bindings. No binding occurs twice among them, and
    /// every two of them are compatible.
    pub fn len(&self) -> (r: usize)
        ensures
            r == self.bindings().len(),
            self.bindings().no_duplicates(),
            conflict_free(self.bindings()),
    {
        proof {
            use_type_invariant(self);
        }
        self.items.len()
    }

    /// The binding at place `i`.
    pub fn get(&self, i: usize) -> (r: &PortBinding)
        requires
            i < self.bindings().len(),
        ensures
            r@ == self.bindings()[i as int],
    {
        &self.items[i]
    }

    /// The place of `binding`, if it is in the set.
    pub fn find(&self, binding: &PortBinding) -> (r: Option<usize>)
        ensures
            match r {
                Some(i) => i < self.bindings().len() && self.bindings()[i as int] == binding@
                    && self.bindings().index_of(binding@) == i,
                None => !self.bindings().contains(binding@),
            },
    {
        proof {
            use_type_invariant(self);
        }
        let mut i: usize = 0;
        while i < self.items.len()
            invariant
                self.bindings().no_duplicates(),
                self.bindings().len() == self.items@.len(),
                i <= self.items@.len(),
                forall|j: int| 0 <= j < i ==> self.bindings()[j] != binding@,
            decreases self.items@.len() - i,
        {
            if self.items[i].same(binding) {
                proof {
                    let s = self.bindings();
                    assert(s[i as int] == binding@);
                    assert(s.contains(binding@));
                    let k = s.index_of(binding@);
                    assert(0 <= k < s.len() && s[k] == binding@);
                }
                return Some(i);
            }
            i += 1;
        }
        None
    }

    /// Whether `binding` is in the set.
    pub fn contains(&self, binding: &PortBinding) -> (r: bool)
        ensures
            r == self.bindings().contains(binding@),
            r == self@.contains(binding@),
    {
        self.find(binding).is_some()
    }

    /// The first binding of the set that conflicts with `binding`.
    pub fn conflict_with(&self, binding: &PortBinding) -> (r: Option<usize>)
        ensures
            match r {
                Some(i) => has_conflict(self.bindings(), binding@) && i == first_conflict(
                    self.bindings(),
                    binding@,
                ) && i < self.bindings().len(),
                None => !has_conflict(self.bindings(), binding@),
            },
    {
        proof {
            lemma_first_conflict(self.bindings(), binding@);
        }
        let mut i: usize = 0;
        while i < self.items.len()
            invariant
                self.bindings().len() == self.items@.len(),
                i <= self.items@.len(),
                i <= first_conflict(self.bindings(), binding@),
                first_conflict(self.bindings(), binding@) <= self.bindings().len(),
                first_conflict(self.bindings(), binding@) < self.bindings().len() ==> conflicts(
                    self.bindings()[first_conflict(self.bindings(), binding@)],
                    binding@,
                ),
                forall|i: int|
                    0 <= i < first_conflict(self.bindings(), binding@) ==> !conflicts(
                        #[trigger] self.bindings()[i],
                        binding@,
                    ),
                has_conflict(self.bindings(), binding@) <==> first_conflict(
                    self.bindings(),
                    binding@,
                ) < self.bindings().len(),
            decreases self.items@.len() - i,
        {
            if self.items[i].conflicts_with(binding) {
                assert(conflicts(self.bindings()[i as int], binding@));
                return Some(i);
            }
            assert(!conflicts(self.bindings()[i as int], binding@));
            i += 1;
        }
        None
    }

    /// Puts a binding into the set that conflicts with none of its
    /// bindings. A binding that is there already is not added again.
    pub(crate) fn insert(&mut self, binding: PortBinding)
        requires
            !has_conflict(old(self).bindings(), binding@),
        ensures
            final(self).bindings() == with_binding(old(self).bindings(), binding@),
            final(self)@ == old(self)@.insert(binding@),
    {
        proof {
            use_type_invariant(&*self);
        }
        let ghost before = self.bindings();
        if !self.contains(&binding) {
            let mut taken = PortSet::new();
            core::mem::swap(self, &mut taken);
            let PortSet { mut items } = taken;
            items.push(binding);
            proof {
                let after = binding_views(items@);
                assert(after =~= before.push(binding@));
                lemma_conflict_free_is_kept(before, binding@);
                assert forall|i: int, j: int|
                    0 <= i < after.len() && 0 <= j < after.len() && i != j implies after[i]
                    != after[j] by {
                    if i < before.len() {
                        assert(after[i] == before[i]);
                    }
                    if j < before.len() {
                        assert(after[j] == before[j]);
                    }
                }
                assert(after.to_set() =~= before.to_set().insert(binding@)) by {
                    assert forall|x: PortBindingView|
                        after.to_set().contains(x) <==> before.to_set().insert(
                            binding@,
                        ).contains(x) by {
                        if after.contains(x) {
                            let i = choose|i: int| 0 <= i < after.len() && after[i] == x;
                            if i < before.len() {
                                assert(before[i] == x);
                            }
                        }
                        if before.contains(x) {
                            let i = choose|i: int| 0 <= i < before.len() && before[i] == x;
                            assert(after[i] == x);
                        }
                        if x == binding@ {
                            assert(after[before.len() as int] == x);
                        }
                    }
                }
            }
            *self = PortSet { items };
        } else {
            assert(before.to_set() =~= before.to_set().insert(binding@));
        }
    }

    /// Adds `binding`, unless a binding of the set conflicts with it: then
    /// the set stays as it is and the first such binding is returned.
    pub fn add(&mut self, binding: PortBinding) -> (r: Result<(), PortBinding>)
        ensures
            match r {
                Ok(_) => !has_conflict(old(self).bindings(), binding@) && final(self).bindings()
                    == with_binding(old(self).bindings(), binding@),
                Err(e) => has_conflict(old(self).bindings(), binding@) && e@ == old(
                    self,
                ).bindings()[first_conflict(old(self).bindings(), binding@)]
                    && final(self).bindings() == old(self).bindings(),
            },
            final(self)@ == (if has_conflict(old(self).bindings(), binding@) {
                old(self)@
            } else {
                old(self)@.insert(binding@)
            }),
    {
        match self.conflict_with(&binding) {
            Some(i) => Err(self.items[i].clone()),
            None => {
                self.insert(binding);
                Ok(())
            },
        }
    }

    /// Takes `binding` out of the set, if it is there.
    pub fn remove(&mut self, binding: &PortBinding) -> (r: bool)
        ensures
            r == old(self).bindings().contains(binding@),
            final(self).bindings() == without_binding(old(self).bindings(), binding@),
            final(self)@ == old(self)@.remove(binding@),
    {
        proof {
            use_type_invariant(&*self);
        }
        let ghost before = self.bindings();
        match self.find(binding) {
            Some(i) => {
                let mut taken = PortSet::new();
                core::mem::swap(self, &mut taken);
                let PortSet { mut items } = taken;
                items.remove(i);
                proof {
                    let after = binding_views(items@);
                    assert(after =~= before.remove(i as int));
                    assert forall|k: int| 0 <= k < after.len() implies #[trigger] after[k]
                        == before[if k < i { k } else { k + 1 }] by {}
                    lemma_conflict_free_is_kept(before, binding@);
                    assert forall|a: int, b: int|
                        0 <= a < after.len() && 0 <= b < after.len() && a != b implies after[a]
                        != after[b] by {
                        let a2 = if a < i { a } else { a + 1 };
                        let b2 = if b < i { b } else { b + 1 };
                        assert(before[a2] != before[b2]);
                    }
                    assert(after.to_set() =~= before.to_set().remove(binding@)) by {
                        assert forall|x: PortBindingView|
                            after.to_set().contains(x) <==> before.to_set().remove(
                                binding@,
                            ).contains(x) by {
                            if after.contains(x) {
                                let k = choose|k: int| 0 <= k < after.len() && after[k] == x;
                                let k2 = if k < i { k } else { k + 1 };
                                assert(before[k2] == x);
                                assert(before[k2] != before[i as int]);
                            }
                            if before.contains(x) && x != binding@ {
                                let k = choose|k: int| 0 <= k < before.len() && before[k] == x;
                                let k2 = if k < i { k } else { k - 1 };
                                assert(after[k2] == x);
                            }
                        }
                    }
                }
                *self = PortSet { items };
                true
            },
            None => {
                assert(before.to_set() =~= before.to_set().remove(binding@));
                false
            },
        }
    }

    /// Takes every binding out.
    pub fn clear(&mut self)
        ensures
            final(self).bindings() == Seq::<PortBindingView>::empty(),
    {
        *self = PortSet::new();
    }
}

} // verus!
