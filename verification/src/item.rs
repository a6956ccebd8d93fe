//! Items: an owned key with a value slot, compared by key alone.

use std::cmp::Ordering;
use vstd::prelude::*;
use vstd::std_specs::cmp::{OrdSpec, PartialEqSpec, PartialOrdSpec};

use crate::slot::Slot;

verus! {

/// What an item holds: its key, and its value slot, which is vacant only
/// while a container has moved the value out and not yet put one back.
pub ghost struct ItemView<K, V> {
    pub key: K,
    pub value: Slot<V>,
}

impl<K, V> ItemView<K, V> {
    /// The item made of `key` and `value`.
    pub open spec fn new(key: K, value: V) -> Self {
        ItemView { key, value: Slot::Present(value) }
    }

    /// An item is complete when its value slot is filled. Reading, replacing
    /// and extracting the value ask for a complete item.
    pub open spec fn wf(self) -> bool {
        self.value is Present
    }

    /// The same key with `value` in the slot.
    pub open spec fn with_value(self, value: V) -> Self {
        ItemView { key: self.key, value: Slot::Present(value) }
    }

    /// The same key with `slot` as the value slot.
    pub open spec fn with_slot(self, slot: Slot<V>) -> Self {
        ItemView { key: self.key, value: slot }
    }

    /// The two slots that an item comes apart into: the key's, always filled,
    /// and the value's, as it stands.
    pub open spec fn into_inner(self) -> (Slot<K>, Slot<V>) {
        (Slot::Present(self.key), self.value)
    }
}

/// A key and a value, both owned by the item. The value may be read, changed
/// in place or replaced; the key is fixed. Items compare by key alone.
pub struct Item<K, V> {
    key: K,
    value: Slot<V>,
}

impl<K, V> View for Item<K, V> {
    type V = ItemView<K, V>;

    closed spec fn view(&self) -> ItemView<K, V> {
        ItemView { key: self.key, value: self.value }
    }
}

impl<K, V> Item<K, V> {
    /// Makes a complete item that owns `key` and `value`.
    pub fn new(key: K, value: V) -> (item: Item<K, V>)
        ensures
            item@ == ItemView::new(key, value),
    {
        Item { key, value: Slot::Present(value) }
    }

    /// The key.
    pub fn key(&self) -> (key: &K)
        ensures
            *key == self@.key,
    {
        &self.key
    }

    /// The value of a complete item.
    pub fn value(&self) -> (value: &V)
        requires
            self@.wf(),
        ensures
            *value == self@.value.content(),
    {
        self.value.get()
    }

    /// The value of a complete item, borrowed for change in place. The key
    /// stays, and the item holds whatever the borrower leaves behind.
    pub fn value_mut(&mut self) -> (value: &mut V)
        requires
            old(self)@.wf(),
        ensures
            *value == old(self)@.value.content(),
            final(self)@ == old(self)@.with_value(*final(value)),
    {
        self.value.get_mut()
    }

    /// Puts `value` in place of the value of a complete item and hands the
    /// previous value out.
    pub fn set_value(&mut self, value: V) -> (previous: V)
        requires
            old(self)@.wf(),
        ensures
            previous == old(self)@.value.content(),
            final(self)@ == old(self)@.with_value(value),
    {
        let previous = self.value.take();
        self.value.fill(value);
        previous
    }

    /// The value slot itself, filled or vacant. Through it a container moves
    /// the value out, which leaves the item incomplete, or fills a vacant
    /// slot, which completes it again. The key stays.
    pub fn maybe_uninit_value_mut(&mut self) -> (slot: &mut Slot<V>)
        ensures
            *slot == old(self)@.value,
            final(self)@ == old(self)@.with_slot(*final(slot)),
    {
        &mut self.value
    }

    /// Ends a complete item: releases the key and hands the value out.
    pub fn into_value(self) -> (value: V)
        requires
            self@.wf(),
        ensures
            value == self@.value.content(),
    {
        let (_key, value) = self.into_inner();
        value.into_value()
    }

    /// Ends an item whose value has been moved out already: releases the
    /// key, and has no value to release.
    pub fn forget_value(self)
        requires
            !self@.wf(),
    {
        let (_key, _vacant) = self.into_inner();
    }

    /// Takes the item apart into its two slots and releases neither: the
    /// key's slot, filled, and the value's slot as it stands.
    pub fn into_inner(self) -> (parts: (Slot<K>, Slot<V>))
        ensures
            parts == self@.into_inner(),
    {
        let Item { key, value } = self;
        (Slot::Present(key), value)
    }
}

impl<K: PartialEq, V> PartialEq for Item<K, V> {
    /// Two items are equal when their keys are.
    fn eq(&self, other: &Item<K, V>) -> (r: bool) {
        self.key().eq(other.key())
    }
}

impl<K: PartialEq, V> vstd::std_specs::cmp::PartialEqSpecImpl for Item<K, V> {
    open spec fn obeys_eq_spec() -> bool {
        K::obeys_eq_spec()
    }

    open spec fn eq_spec(&self, other: &Item<K, V>) -> bool {
        self@.key.eq_spec(&other@.key)
    }
}

impl<K: PartialEq, V> PartialEq<K> for Item<K, V> {
    /// An item equals a key when its own key does.
    fn eq(&self, key: &K) -> (r: bool) {
        self.key().eq(key)
    }
}

impl<K: PartialEq, V> vstd::std_specs::cmp::PartialEqSpecImpl<K> for Item<K, V> {
    open spec fn obeys_eq_spec() -> bool {
        K::obeys_eq_spec()
    }

    open spec fn eq_spec(&self, key: &K) -> bool {
        self@.key.eq_spec(key)
    }
}

impl<K: Ord + PartialEq, V> PartialOrd for Item<K, V> {
    /// Two items are ordered as their keys are.
    fn partial_cmp(&self, other: &Item<K, V>) -> (r: Option<Ordering>) {
        Some(self.key().cmp(other.key()))
    }
}

impl<K: Ord + PartialEq, V> vstd::std_specs::cmp::PartialOrdSpecImpl for Item<K, V> {
    open spec fn obeys_partial_cmp_spec() -> bool {
        K::obeys_cmp_spec()
    }

    open spec fn partial_cmp_spec(&self, other: &Item<K, V>) -> Option<Ordering> {
        Some(self@.key.cmp_spec(&other@.key))
    }
}

impl<K: Ord + PartialEq, V> PartialOrd<K> for Item<K, V> {
    /// An item is ordered against a key as its own key is.
    fn partial_cmp(&self, key: &K) -> (r: Option<Ordering>) {
        Some(self.key().cmp(key))
    }
}

impl<K: Ord + PartialEq, V> vstd::std_specs::cmp::PartialOrdSpecImpl<K> for Item<K, V> {
    open spec fn obeys_partial_cmp_spec() -> bool {
        K::obeys_cmp_spec()
    }

    open spec fn partial_cmp_spec(&self, key: &K) -> Option<Ordering> {
        Some(self@.key.cmp_spec(key))
    }
}

/// A new item holds the key and the value it was made of, and is complete.
pub proof fn lemma_new_holds_key_and_value<K, V>(key: K, value: V)
    ensures
        ItemView::new(key, value).wf(),
        ItemView::new(key, value).key == key,
        ItemView::new(key, value).value.content() == value,
{
}

/// Replacing the value of a new item hands out the value the item was made
/// with, and leaves the item that the same key and the new value make.
pub proof fn lemma_set_value_swaps<K, V>(key: K, first: V, second: V)
    ensures
        ItemView::new(key, first).value.content() == first,
        ItemView::new(key, first).with_value(second).wf(),
        ItemView::new(key, first).with_value(second).value.content() == second,
        ItemView::new(key, first).with_value(second) == ItemView::new(key, second),
{
}

/// Items compare as their keys do, whatever their values: two new items are
/// equal exactly when the keys they were made of are, and are ordered as
/// those keys are.
pub proof fn lemma_compared_by_key<K: Ord + PartialEq, V>(
    a: Item<K, V>,
    b: Item<K, V>,
    k1: K,
    v1: V,
    k2: K,
    v2: V,
)
    requires
        a@ == ItemView::new(k1, v1),
        b@ == ItemView::new(k2, v2),
    ensures
        a.eq_spec(&b) == k1.eq_spec(&k2),
        a.eq_spec(&k2) == k1.eq_spec(&k2),
        a.partial_cmp_spec(&b) == Some(k1.cmp_spec(&k2)),
        a.partial_cmp_spec(&k2) == Some(k1.cmp_spec(&k2)),
{
}

/// Taking a complete item apart and making an item of what the two slots
/// hold gives the same item back.
pub proof fn lemma_parts_make_the_item<K, V>(item: ItemView<K, V>)
    requires
        item.wf(),
    ensures
        item.into_inner().0 is Present,
        item.into_inner().1 is Present,
        ItemView::new(item.into_inner().0.content(), item.into_inner().1.content()) == item,
{
}

/// Moving the value out through the slot leaves an incomplete item with the
/// same key; filling the slot completes it again.
pub proof fn lemma_vacate_then_fill<K, V>(item: ItemView<K, V>, value: V)
    ensures
        !item.with_slot(Slot::Empty).wf(),
        item.with_slot(Slot::Empty).key == item.key,
        item.with_slot(Slot::Empty).with_slot(Slot::Present(value)) == item.with_value(value),
{
}

} // verus!
