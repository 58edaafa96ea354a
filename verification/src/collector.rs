use std::collections::HashMap;
use std::collections::hash_map::{Iter, IterMut};
use vstd::prelude::*;
use vstd::std_specs::hash::*;
use vstd::std_specs::iter::IteratorSpec;
use crate::globals::TYPES_NUM;
use crate::util::gen_range_u8;
use crate::physics_types::{ParticleType, ParticleTypes, standard_type};

verus! {

broadcast use vstd::std_specs::hash::group_hash_axioms;

/// Declares the outside iterator type that hands out mutable entries of a map.
#[verifier::external_type_specification]
#[verifier::external_body]
#[verifier::reject_recursive_types(K)]
#[verifier::reject_recursive_types(V)]
pub struct ExIterMut<'a, K: 'a, V: 'a>(IterMut<'a, K, V>);

/// `HashMap::iter_mut` from std. It hands out mutable references to the
/// values only, so the set of keys of the map is the same once the iterator is
/// dropped; what is done to the values through it is left unsaid.
#[verifier::external_body]
fn map_iter_mut<P>(m: &mut HashMap<u64, P>) -> (it: IterMut<'_, u64, P>)
    ensures
        final(m)@.dom() == old(m)@.dom(),
{
    m.iter_mut()
}

/// Something that lives in a collector under a key of its own.
pub trait Object {
    /// The key that the object is stored under.
    fn key(&self) -> u64;
}

/// An object that can make a fresh instance of itself.
pub trait PhysicsObject: Object + Sized {
    fn new() -> Self;
}

/// The map `m` with each object of `added` inserted in turn under the key
/// paired with it.
pub open spec fn insert_all<P>(m: Map<u64, P>, added: Seq<(u64, P)>) -> Map<u64, P>
    decreases added.len(),
{
    if added.len() == 0 {
        m
    } else {
        let last = added.last();
        insert_all(m, added.drop_last()).insert(last.0, last.1)
    }
}

/// The objects of a simulation, each stored under its key, with the table of
/// particle types they are drawn from.
pub struct Collector<P: Object> {
    pub elements: HashMap<u64, P>,
    pub particle_types: ParticleTypes,
}

impl<P: Object> View for Collector<P> {
    type V = Map<u64, P>;

    open spec fn view(&self) -> Map<u64, P> {
        self.elements@
    }
}

impl<P: Object> Collector<P> {
    /// An empty collector.
    pub fn new() -> (c: Self)
        ensures
            c@ == Map::<u64, P>::empty(),
    {
        Collector { elements: HashMap::new(), particle_types: ParticleTypes::new() }
    }

    /// Stores `element` under its key, replacing what was stored there, and
    /// returns the key.
    pub fn add_element(&mut self, element: P) -> (key: u64)
        ensures
            call_ensures(P::key, (&element,), key),
            final(self)@ == old(self)@.insert(key, element),
            final(self).particle_types == old(self).particle_types,
    {
        let key = element.key();
        self.elements.insert(key, element);
        key
    }

    /// The particle type with id `p_type`; ids run over `0..TYPES_NUM`.
    pub fn get_type(&self, p_type: u8) -> (t: &ParticleType)
        requires
            p_type < TYPES_NUM,
        ensures
            *t == standard_type(p_type as int),
            t.type_id == p_type,
    {
        self.particle_types.get_type(p_type as u128)
    }

    /// The object stored under `id`, if any.
    pub fn get(&self, id: u64) -> (r: Option<&P>)
        ensures
            r == (if self@.contains_key(id) { Some(&self@[id]) } else { None }),
    {
        self.elements.get(&id)
    }

    /// Drops the object stored under `id`, if any.
    pub fn remove(&mut self, id: u64)
        ensures
            final(self)@ == old(self)@.remove(id),
            final(self).particle_types == old(self).particle_types,
    {
        self.elements.remove(&id);
    }

    /// Walks over every stored key and object once, in no promised order.
    pub fn get_iter(&self) -> (it: Iter<'_, u64, P>)
        ensures
            it == spec_hash_map_iter(&self.elements),
            it.remaining().no_duplicates(),
            it.remaining().len() == self@.len(),
            forall|k: u64| #[trigger] self@.contains_key(k) ==> it.remaining().contains((&k, &self@[k])),
            forall|i: int|
                0 <= i < it.remaining().len() ==> self@.contains_key(*#[trigger] it.remaining()[i].0)
                    && self@[*it.remaining()[i].0] == *it.remaining()[i].1,
    {
        self.elements.iter()
    }

    /// Walks over every stored key and object once with write access to the
    /// objects; the keys stay as they are.
    pub fn get_iter_mut(&mut self) -> (it: IterMut<'_, u64, P>)
        ensures
            final(self)@.dom() == old(self)@.dom(),
            final(self).particle_types == old(self).particle_types,
    {
        map_iter_mut(&mut self.elements)
    }

    /// The number of stored objects.
    pub fn count(&self) -> (n: usize)
        ensures
            n == self@.len(),
    {
        self.elements.len()
    }
}

impl<P: PhysicsObject> Collector<P> {
    /// Makes `elements_num` fresh objects and stores each under its key; each
    /// round first draws a kind in `0..5` from the random generator, which the
    /// objects do not use.
    pub fn add_many_elements(&mut self, elements_num: usize)
        ensures
            exists|added: Seq<(u64, P)>|
                #![trigger insert_all(old(self)@, added)]
                added.len() == elements_num && final(self)@ == insert_all(old(self)@, added)
                    && forall|i: int|
                    0 <= i < added.len() ==> call_ensures(P::key, (&#[trigger] added[i].1,), added[i].0)
                    && call_ensures(P::new, (), added[i].1),
            old(self)@.len() <= final(self)@.len() <= old(self)@.len() + elements_num,
            final(self).particle_types == old(self).particle_types,
    {
        let ghost start = self@;
        let ghost mut added: Seq<(u64, P)> = Seq::empty();
        let mut i: usize = 0;
        while i < elements_num
            invariant
                i <= elements_num,
                added.len() == i,
                self@ == insert_all(start, added),
                forall|j: int|
                    0 <= j < added.len() ==> call_ensures(P::key, (&#[trigger] added[j].1,), added[j].0)
                    && call_ensures(P::new, (), added[j].1),
                self.particle_types == old(self).particle_types,
                start == old(self)@,
            decreases elements_num - i,
        {
            let _kind: u8 = gen_range_u8(0, 5);
            let element = P::new();
            let ghost e = element;
            let key = self.add_element(element);
            proof {
                let ghost prev = added;
                added = added.push((key, e));
                assert(added.drop_last() =~= prev);
            }
            i = i + 1;
        }
        proof {
            law_add_many(start, added);
        }
    }
}

} // verus!

verus! {

/// Reading a key right after storing an object under it gives that object.
pub proof fn law_get_after_add<P>(m: Map<u64, P>, key: u64, element: P)
    ensures
        m.insert(key, element).contains_key(key),
        m.insert(key, element)[key] == element,
{
}

/// Storing an object leaves every other key as it was.
pub proof fn law_add_keeps_others<P>(m: Map<u64, P>, key: u64, element: P, id: u64)
    requires
        id != key,
    ensures
        m.insert(key, element).contains_key(id) == m.contains_key(id),
        m.contains_key(id) ==> m.insert(key, element)[id] == m[id],
{
}

/// After removing a key, nothing is stored under it, and other keys are
/// untouched.
pub proof fn law_get_after_remove<P>(m: Map<u64, P>, id: u64, other: u64)
    requires
        other != id,
    ensures
        !m.remove(id).contains_key(id),
        m.remove(id).contains_key(other) == m.contains_key(other),
        m.contains_key(other) ==> m.remove(id)[other] == m[other],
{
}

/// Storing an object under a fresh key and removing that key again gives
/// back the collection as it was.
pub proof fn law_remove_undoes_add<P>(m: Map<u64, P>, key: u64, element: P)
    requires
        !m.contains_key(key),
    ensures
        m.insert(key, element).remove(key) == m,
{
    assert(m.insert(key, element).remove(key) =~= m);
}

/// Storing an object adds one to the count when its key is new and leaves
/// the count as it was when the key was taken.
pub proof fn law_count_after_add<P>(m: Map<u64, P>, key: u64, element: P)
    requires
        m.dom().finite(),
    ensures
        m.contains_key(key) ==> m.insert(key, element).len() == m.len(),
        !m.contains_key(key) ==> m.insert(key, element).len() == m.len() + 1,
{
}

/// Adding objects in a batch keeps every key stored before, stores something
/// under the key of every object of the batch, stores the batch's last object
/// under its key, and grows the count by at most the size of the batch.
pub proof fn law_add_many<P>(m: Map<u64, P>, added: Seq<(u64, P)>)
    requires
        m.dom().finite(),
    ensures
        insert_all(m, added).dom().finite(),
        m.len() <= insert_all(m, added).len() <= m.len() + added.len(),
        m.dom().subset_of(insert_all(m, added).dom()),
        forall|i: int| 0 <= i < added.len() ==> #[trigger] insert_all(m, added).contains_key(added[i].0),
        added.len() > 0 ==> insert_all(m, added)[added.last().0] == added.last().1,
    decreases added.len(),
{
    if added.len() > 0 {
        let rest = added.drop_last();
        law_add_many(m, rest);
        let before = insert_all(m, rest);
        assert(forall|i: int| 0 <= i < rest.len() ==> #[trigger] rest[i] == added[i]);
        assert forall|i: int| 0 <= i < added.len() implies #[trigger] insert_all(m, added).contains_key(
            added[i].0,
        ) by {
            if i < rest.len() {
                assert(before.contains_key(rest[i].0));
            }
        }
    }
}

} // verus!

verus! {

/// A batch whose keys are new to the collection and pairwise different grows
/// the count by exactly the size of the batch, and keeps every object under
/// its own key.
pub proof fn law_add_many_fresh<P>(m: Map<u64, P>, added: Seq<(u64, P)>)
    requires
        m.dom().finite(),
        forall|i: int| 0 <= i < added.len() ==> !m.contains_key(#[trigger] added[i].0),
        forall|i: int, j: int| 0 <= i < j < added.len() ==> #[trigger] added[i].0 != #[trigger] added[j].0,
    ensures
        insert_all(m, added).dom().finite(),
        insert_all(m, added).len() == m.len() + added.len(),
        forall|i: int| 0 <= i < added.len() ==> #[trigger] insert_all(m, added)[added[i].0] == added[i].1,
        forall|k: u64| m.contains_key(k) ==> #[trigger] insert_all(m, added)[k] == m[k],
    decreases added.len(),
{
    if added.len() > 0 {
        let rest = added.drop_last();
        let last = added.last();
        assert(forall|i: int| 0 <= i < rest.len() ==> #[trigger] rest[i] == added[i]);
        law_add_many_fresh(m, rest);
        law_add_many(m, rest);
        let before = insert_all(m, rest);
        assert(!before.contains_key(last.0)) by {
            if before.contains_key(last.0) {
                assert(!m.contains_key(added[added.len() - 1].0));
                law_add_many_keys(m, rest, last.0);
                let i = choose|i: int| 0 <= i < rest.len() && rest[i].0 == last.0;
                assert(added[i].0 != added[added.len() - 1].0);
            }
        }
        assert forall|i: int| 0 <= i < added.len() implies #[trigger] insert_all(m, added)[added[i].0]
            == added[i].1 by {
            if i < rest.len() {
                assert(rest[i].0 != last.0);
                assert(before[rest[i].0] == rest[i].1);
            }
        }
        assert forall|k: u64| m.contains_key(k) implies #[trigger] insert_all(m, added)[k] == m[k] by {
            assert(k != last.0);
            assert(before[k] == m[k]);
        }
    }
}

/// Every key stored after a batch was stored before or is the key of an
/// object of the batch.
pub proof fn law_add_many_keys<P>(m: Map<u64, P>, added: Seq<(u64, P)>, k: u64)
    requires
        insert_all(m, added).contains_key(k),
    ensures
        m.contains_key(k) || exists|i: int| 0 <= i < added.len() && added[i].0 == k,
    decreases added.len(),
{
    if added.len() > 0 {
        let rest = added.drop_last();
        if k == added.last().0 {
            assert(added[added.len() - 1].0 == k);
        } else {
            law_add_many_keys(m, rest, k);
            if !m.contains_key(k) {
                let i = choose|i: int| 0 <= i < rest.len() && rest[i].0 == k;
                assert(added[i] == rest[i]);
            }
        }
    }
}

} // verus!
