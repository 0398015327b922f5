//! The substitution environment: a persistent map from the identity of a
//! variable to the reduced value that replaces it.

use crate::ir::{Atom, DefinitionId, Variable};
use crate::model::{atoms_model, AtomModel};
use crate::semantics::{bind, binds, prune};
use vstd::prelude::*;

verus! {

/// `im::HashMap`, the persistent hash map. It is declared so that it can stand
/// in a field and in signatures; nothing inside it is visible.
#[verifier::external_type_specification]
#[verifier::external_body]
#[verifier::reject_recursive_types(K)]
#[verifier::reject_recursive_types(V)]
#[verifier::reject_recursive_types(S)]
pub struct ExHashMap<K, V, S>(im::HashMap<K, V, S>);

/// The persistent hash map that an environment is kept in.
pub type BindingMap = im::HashMap<u64, Atom>;

/// What a persistent hash map holds: under each key, the value of the atom
/// that is stored there.
pub uninterp spec fn bindings(map: BindingMap) -> Map<u64, AtomModel>;

/// Calls `im::HashMap::new`. Taken on trust: the new map holds nothing.
#[verifier::external_body]
fn map_new() -> (res: BindingMap)
    ensures
        bindings(res).dom() == Set::<u64>::empty(),
{
    im::HashMap::new()
}

/// Calls `im::HashMap::get`. Taken on trust: it gives a reference to the atom
/// that is stored under `key`, and nothing where none is stored there.
#[verifier::external_body]
fn map_get(map: &BindingMap, key: u64) -> (res: Option<&Atom>)
    ensures
        res is Some <==> bindings(*map).contains_key(key),
        res matches Some(atom) ==> atom@ == bindings(*map)[key],
{
    map.get(&key)
}

/// Calls `im::HashMap::insert`. Taken on trust: afterwards `value` is stored
/// under `key`, in place of what was stored there before, and the other keys
/// keep their values.
#[verifier::external_body]
fn map_insert(map: &mut BindingMap, key: u64, value: Atom)
    ensures
        bindings(*final(map)) == bindings(*old(map)).insert(key, value@),
{
    map.insert(key, value);
}

/// Calls `im::HashMap::remove`. Taken on trust: afterwards nothing is stored
/// under `key`, and the other keys keep their values.
#[verifier::external_body]
fn map_remove(map: &mut BindingMap, key: u64)
    ensures
        bindings(*final(map)) == bindings(*old(map)).remove(key),
{
    map.remove(&key);
}

/// Calls `Clone::clone` of `im::HashMap`. Taken on trust: the copy holds what
/// the map holds.
#[verifier::external_body]
fn map_clone(map: &BindingMap) -> (res: BindingMap)
    ensures
        bindings(res) == bindings(*map),
{
    map.clone()
}

/// A substitution environment. An operation that changes it gives a new
/// environment and leaves the one it started from as it was.
pub struct Substitutions {
    map: BindingMap,
}

impl View for Substitutions {
    type V = Map<DefinitionId, AtomModel>;

    closed spec fn view(&self) -> Map<DefinitionId, AtomModel> {
        Map::new(
            |id: DefinitionId| bindings(self.map).contains_key(id.0),
            |id: DefinitionId| bindings(self.map)[id.0],
        )
    }
}

impl Substitutions {
    /// The environment that binds nothing.
    pub fn new() -> (res: Substitutions)
        ensures
            res@ == Map::<DefinitionId, AtomModel>::empty(),
    {
        let res = Substitutions { map: map_new() };
        assert(forall|id: DefinitionId| !bindings(res.map).dom().contains(id.0));
        assert(res@ =~= Map::<DefinitionId, AtomModel>::empty());
        res
    }

    /// The value bound to `id`, if any.
    pub fn lookup(&self, id: DefinitionId) -> (res: Option<&Atom>)
        ensures
            res is Some <==> self@.contains_key(id),
            res matches Some(atom) ==> atom@ == self@[id],
    {
        map_get(&self.map, id.0)
    }

    /// This environment with `id` bound to `value`.
    pub fn extend(&self, id: DefinitionId, value: Atom) -> (res: Substitutions)
        ensures
            res@ == self@.insert(id, value@),
    {
        let mut map = map_clone(&self.map);
        map_insert(&mut map, id.0, value);
        let res = Substitutions { map };
        assert(res@ =~= self@.insert(id, value@));
        res
    }

    /// This environment without a binding for `id`.
    pub fn remove(&self, id: DefinitionId) -> (res: Substitutions)
        ensures
            res@ == self@.remove(id),
    {
        let mut map = map_clone(&self.map);
        map_remove(&mut map, id.0);
        let res = Substitutions { map };
        assert(res@ =~= self@.remove(id));
        res
    }
}

impl Clone for Substitutions {
    /// A second handle on the same bindings.
    fn clone(&self) -> (res: Substitutions)
        ensures
            res@ == self@,
    {
        let res = Substitutions { map: map_clone(&self.map) };
        assert(res@ =~= self@);
        res
    }
}

impl Substitutions {
    /// This environment without a binding for any of `params`.
    pub fn without_params(&self, params: &Vec<Variable>) -> (res: Substitutions)
        ensures
            res@ == prune(self@, params@),
    {
        let mut res = self.clone();
        let mut i: usize = 0;
        assert(res@ =~= prune(self@, params@.take(0)));
        while i < params.len()
            invariant
                i <= params.len(),
                res@ == prune(self@, params@.take(i as int)),
            decreases params.len() - i,
        {
            let id = params[i].definition_id;
            proof {
                let before = params@.take(i as int);
                let after = params@.take(i + 1);
                assert(after[i as int].definition_id == id);
                assert forall|other: DefinitionId| binds(after, other) <==> (binds(before, other)
                    || other == id) by {
                    if binds(before, other) {
                        let j = choose|j: int|
                            0 <= j < before.len() && #[trigger] before[j].definition_id == other;
                        assert(after[j].definition_id == other);
                    }
                    if binds(after, other) && other != id {
                        let j = choose|j: int|
                            0 <= j < after.len() && #[trigger] after[j].definition_id == other;
                        assert(before[j].definition_id == other);
                    }
                }
                assert(prune(self@, after) =~= prune(self@, before).remove(id));
            }
            res = res.remove(id);
            i += 1;
        }
        assert(params@.take(i as int) =~= params@);
        res
    }

    /// This environment with each of `params` bound to the argument at its
    /// position.
    pub fn with_arguments(&self, params: &Vec<Variable>, args: Vec<Atom>) -> (res: Substitutions)
        requires
            params.len() == args.len(),
        ensures
            res@ == bind(self@, params@, atoms_model(&args)),
    {
        let mut res = self.clone();
        let ghost values = atoms_model(&args);
        let mut i: usize = 0;
        for arg in it: args.into_iter()
            invariant
                i == it.index(),
                it.seq() == args@,
                values == atoms_model(&args),
                params.len() == args.len(),
                res@ == bind(self@, params@.take(i as int), values.take(i as int)),
        {
            proof {
                assert(params@.take(i + 1).drop_last() =~= params@.take(i as int));
                assert(values.take(i + 1).drop_last() =~= values.take(i as int));
                assert(arg@ == values[i as int]);
            }
            res = res.extend(params[i].definition_id, arg);
            i += 1;
        }
        assert(params@.take(i as int) =~= params@);
        assert(values.take(i as int) =~= values);
        res
    }
}

} // verus!
