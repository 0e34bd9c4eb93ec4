//! The hash maps and sets of `fxhash`, as far as the toolkit uses them.
//!
//! `fxhash::FxHashMap` and `fxhash::FxHashSet` are the standard library's
//! `HashMap` and `HashSet` with the deterministic `FxHasher`. Verified code
//! reaches them through the functions of this module only. What each function
//! promises is taken from the documentation of the method of `HashMap` or
//! `HashSet` that it calls; none of it is proved here.

use crate::gui::event::MouseButton;
use fxhash::{FxHashMap, FxHashSet, FxHasher};
use std::hash::BuildHasherDefault;
use vstd::prelude::*;

verus! {

/// `fxhash::FxHasher`, the hasher of the maps and sets of this module. Nothing
/// is read from it.
#[verifier::external_type_specification]
#[verifier::external_body]
pub struct ExFxHasher(FxHasher);

/// `std::hash::BuildHasherDefault`, which makes the hashers of a map or set.
/// Nothing is read from it.
#[verifier::external_type_specification]
#[verifier::external_body]
#[verifier::reject_recursive_types(H)]
pub struct ExBuildHasherDefault<H>(BuildHasherDefault<H>);

/// `HashMap::default`: a map that holds no key.
#[verifier::external_body]
pub(crate) fn map_new<V>() -> (m: FxHashMap<usize, V>)
    ensures
        m@.dom() == Set::<usize>::empty(),
{
    FxHashMap::default()
}

/// `HashMap::insert`: afterwards the map holds `v` under `k` and is unchanged
/// at every other key.
#[verifier::external_body]
pub(crate) fn map_insert<V>(m: &mut FxHashMap<usize, V>, k: usize, v: V)
    ensures
        final(m)@ == old(m)@.insert(k, v),
{
    m.insert(k, v);
}

/// `HashMap::get`: the value held under `k`, if the map holds the key.
#[verifier::external_body]
pub(crate) fn map_get<'a, V>(m: &'a FxHashMap<usize, V>, k: usize) -> (r: Option<&'a V>)
    ensures
        r == (if m@.contains_key(k) { Some(&m@[k]) } else { None }),
{
    m.get(&k)
}

/// `HashMap::remove`: takes the value held under `k` out of the map and
/// returns it, if the map holds the key; every other key is unchanged.
#[verifier::external_body]
pub(crate) fn map_remove<V>(m: &mut FxHashMap<usize, V>, k: usize) -> (r: Option<V>)
    ensures
        final(m)@ == old(m)@.remove(k),
        r == (if old(m)@.contains_key(k) { Some(old(m)@[k]) } else { None }),
{
    m.remove(&k)
}

/// `HashSet::default`: a set without elements.
#[verifier::external_body]
pub(crate) fn button_set_new() -> (s: FxHashSet<MouseButton>)
    ensures
        s@ == Set::<MouseButton>::empty(),
{
    FxHashSet::default()
}

/// `HashSet::insert`: afterwards the set holds `b` besides what it held.
#[verifier::external_body]
pub(crate) fn button_set_insert(s: &mut FxHashSet<MouseButton>, b: MouseButton)
    ensures
        final(s)@ == old(s)@.insert(b),
{
    s.insert(b);
}

/// `HashSet::remove`: afterwards the set holds what it held, without `b`.
#[verifier::external_body]
pub(crate) fn button_set_remove(s: &mut FxHashSet<MouseButton>, b: MouseButton)
    ensures
        final(s)@ == old(s)@.remove(b),
{
    s.remove(&b);
}

/// `HashSet::clear`: afterwards the set is empty.
#[verifier::external_body]
pub(crate) fn button_set_clear(s: &mut FxHashSet<MouseButton>)
    ensures
        final(s)@ == Set::<MouseButton>::empty(),
{
    s.clear();
}

/// The strings that a set of strings holds, each as its sequence of
/// characters.
pub uninterp spec fn key_set_contents(s: FxHashSet<String>) -> Set<Seq<char>>;

/// `HashSet::default`: a set without elements.
#[verifier::external_body]
pub(crate) fn key_set_new() -> (s: FxHashSet<String>)
    ensures
        key_set_contents(s) == Set::<Seq<char>>::empty(),
{
    FxHashSet::default()
}

/// `HashSet::insert`: afterwards the set holds `k` besides what it held.
#[verifier::external_body]
pub(crate) fn key_set_insert(s: &mut FxHashSet<String>, k: String)
    ensures
        key_set_contents(*final(s)) == key_set_contents(*old(s)).insert(k@),
{
    s.insert(k);
}

/// `HashSet::remove`: afterwards the set holds what it held, without `k`.
#[verifier::external_body]
pub(crate) fn key_set_remove(s: &mut FxHashSet<String>, k: &str)
    ensures
        key_set_contents(*final(s)) == key_set_contents(*old(s)).remove(k@),
{
    s.remove(k);
}

/// `HashSet::clear`: afterwards the set is empty.
#[verifier::external_body]
pub(crate) fn key_set_clear(s: &mut FxHashSet<String>)
    ensures
        key_set_contents(*final(s)) == Set::<Seq<char>>::empty(),
{
    s.clear();
}

} // verus!
