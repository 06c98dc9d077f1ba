//! The branch store: the slots of one conversation, in the order in which
//! they were added, found by the identity of their message.

use vstd::prelude::*;
use indexmap::IndexMap;
use crate::message::{
    lemma_slot_cursor_in_range, ChatMessage, NavigationError, Role, Slot, SlotView,
};

verus! {

/// The `IndexMap` of the indexmap crate: a hash map that keeps its entries in
/// the order in which their keys were first inserted. Nothing inside it is
/// visible here; `slot_entries` names what a map of slots holds.
#[verifier::external_type_specification]
#[verifier::external_body]
#[verifier::reject_recursive_types(K)]
#[verifier::reject_recursive_types(V)]
#[verifier::reject_recursive_types(S)]
pub struct ExIndexMap<K, V, S>(IndexMap<K, V, S>);

/// The entries of a map of slots, in the map's order.
pub uninterp spec fn slot_entries(map: IndexMap<(bool, u64), Slot>) -> Seq<((bool, u64), Slot)>;

/// `IndexMap::new`: a map without entries.
#[verifier::external_body]
fn map_new() -> (map: IndexMap<(bool, u64), Slot>)
    ensures
        slot_entries(map) == Seq::<((bool, u64), Slot)>::empty(),
{
    IndexMap::new()
}

/// `IndexMap::len`: the number of entries.
#[verifier::external_body]
fn map_len(map: &IndexMap<(bool, u64), Slot>) -> (n: usize)
    ensures
        n == slot_entries(*map).len(),
{
    map.len()
}

/// `IndexMap::insert`: where an entry has `key`, that entry keeps its place and
/// takes `slot` as its value, and the value it had is returned; where none
/// has, the pair becomes the last entry and `None` is returned.
#[verifier::external_body]
fn map_insert(map: &mut IndexMap<(bool, u64), Slot>, key: (bool, u64), slot: Slot) -> (displaced:
    Option<Slot>)
    ensures
        (forall|j: int|
            0 <= j < slot_entries(*old(map)).len() ==> (#[trigger] slot_entries(*old(map))[j]).0
                != key) ==> displaced is None && slot_entries(*final(map)) == slot_entries(
            *old(map),
        ).push((key, slot)),
        forall|i: int|
            0 <= i < slot_entries(*old(map)).len() && (#[trigger] slot_entries(*old(map))[i]).0
                == key ==> displaced == Some(slot_entries(*old(map))[i].1) && slot_entries(
                *final(map),
            ) == slot_entries(*old(map)).update(i, (key, slot)),
{
    map.insert(key, slot)
}

/// `IndexMap::get_full`: the index, key and value of the entry that has `key`,
/// or `None` where no entry has it.
#[verifier::external_body]
fn map_get_full<'a>(map: &'a IndexMap<(bool, u64), Slot>, key: &(bool, u64)) -> (found: Option<
    (usize, &'a (bool, u64), &'a Slot),
>)
    ensures
        found matches Some((index, stored, slot)) ==> index < slot_entries(*map).len()
            && slot_entries(*map)[index as int] == (*key, *slot) && *stored == *key,
        found is None ==> forall|j: int|
            0 <= j < slot_entries(*map).len() ==> (#[trigger] slot_entries(*map)[j]).0 != *key,
{
    map.get_full(key)
}

/// `IndexMap::get_index`: the key and value of the entry at `index`, or `None`
/// where the map has no more than `index` entries.
#[verifier::external_body]
fn map_get_index(map: &IndexMap<(bool, u64), Slot>, index: usize) -> (found: Option<
    (&(bool, u64), &Slot),
>)
    ensures
        index < slot_entries(*map).len() ==> found == Some(
            (&slot_entries(*map)[index as int].0, &slot_entries(*map)[index as int].1),
        ),
        index >= slot_entries(*map).len() ==> found is None,
{
    map.get_index(index)
}

/// `IndexMap::get_index_mut`: the value of the entry at `index`, for change in
/// place, or `None` where the map has no more than `index` entries. The key
/// and every other entry stay as they are. The call looks into a slice and
/// does not panic.
#[verifier::external_body]
fn map_slot_mut(map: &mut IndexMap<(bool, u64), Slot>, index: usize) -> (found: Option<&mut Slot>)
    ensures
        index >= slot_entries(*old(map)).len() ==> found is None && slot_entries(*final(map))
            == slot_entries(*old(map)),
        index < slot_entries(*old(map)).len() ==> found is Some && *found.unwrap() == slot_entries(
            *old(map),
        )[index as int].1 && slot_entries(*final(map)) == slot_entries(*old(map)).update(
            index as int,
            (slot_entries(*old(map))[index as int].0, *final(found.unwrap())),
        ),
    no_unwind
{
    map.get_index_mut(index).map(|(_, slot)| slot)
}

/// `IndexMap::get_full_mut`: the index and key of the entry that has `key`,
/// with its value for change in place, or `None` where no entry has the
/// key. The key and every other entry stay as they are. The call hashes a
/// pair of a truth value and a number and looks into a slice, and does not
/// panic.
#[verifier::external_body]
fn map_get_full_mut<'a>(map: &'a mut IndexMap<(bool, u64), Slot>, key: &(bool, u64)) -> (found:
    Option<(usize, &'a (bool, u64), &'a mut Slot)>)
    ensures
        found is None ==> slot_entries(*final(map)) == slot_entries(*old(map)) && forall|j: int|
            0 <= j < slot_entries(*old(map)).len() ==> (#[trigger] slot_entries(*old(map))[j]).0
                != *key,
        found is Some ==> found.unwrap().0 < slot_entries(*old(map)).len() && slot_entries(
            *old(map),
        )[found.unwrap().0 as int] == (*key, *found.unwrap().2) && *found.unwrap().1 == *key
            && slot_entries(*final(map)) == slot_entries(*old(map)).update(
            found.unwrap().0 as int,
            (*key, *final(found.unwrap().2)),
        ),
    no_unwind
{
    map.get_full_mut(key)
}

/// `IndexMap::drain` over the first `count` entries: they leave the map and
/// are returned in their order; the entries behind them move up.
#[verifier::external_body]
fn map_drain_front(map: &mut IndexMap<(bool, u64), Slot>, count: usize) -> (drained: Vec<
    ((bool, u64), Slot),
>)
    requires
        count <= slot_entries(*old(map)).len(),
    ensures
        drained@ == slot_entries(*old(map)).take(count as int),
        slot_entries(*final(map)) == slot_entries(*old(map)).skip(count as int),
{
    map.drain(0..count).collect()
}

/// What a store holds: for each slot, in conversation order, its identity
/// (none for a slot that was added without one) and its contents.
pub type StoreView = Seq<(Option<u64>, SlotView)>;

/// The identity that a key stands for.
pub open spec fn identity(key: (bool, u64)) -> Option<u64> {
    if key.0 {
        Some(key.1)
    } else {
        None
    }
}

/// Whether a slot of `store` has the identity `id`.
pub open spec fn has_slot(store: StoreView, id: u64) -> bool {
    exists|i: int| 0 <= i < store.len() && (#[trigger] store[i]).0 == Some(id)
}

/// The index of a slot of `store` that has the identity `id`.
pub open spec fn position(store: StoreView, id: u64) -> int {
    choose|i: int| 0 <= i < store.len() && (#[trigger] store[i]).0 == Some(id)
}

/// No two slots of `store` share an identity.
pub open spec fn distinct_ids(store: StoreView) -> bool {
    forall|i: int, j: int|
        0 <= i < j < store.len() && (#[trigger] store[i]).0 is Some ==> store[i].0 != (
        #[trigger] store[j]).0
}

/// In every slot of `store` the cursor points at one of the variants.
pub open spec fn cursors_in_range(store: StoreView) -> bool {
    forall|i: int| 0 <= i < store.len() ==> (#[trigger] store[i]).1.wf()
}

/// What holds of every store: identities are distinct and cursors in range.
pub open spec fn well_formed(store: StoreView) -> bool {
    distinct_ids(store) && cursors_in_range(store)
}

/// The store after `variant` was appended under `id`: a slot that has the
/// identity gains the variant and selects it; otherwise a new slot with the
/// variant alone comes last.
pub open spec fn appended(store: StoreView, id: Option<u64>, variant: ChatMessage) -> StoreView {
    if id is Some && has_slot(store, id->0) {
        let i = position(store, id->0);
        store.update(i, (id, store[i].1.with_variant(variant)))
    } else {
        store.push((id, SlotView::single(variant)))
    }
}

/// The store after the cursor of the slot with identity `id` moved by `delta`.
pub open spec fn navigated(store: StoreView, id: u64, delta: int) -> StoreView {
    let i = position(store, id);
    store.update(i, (Some(id), store[i].1.moved(delta)))
}

/// `after` and `r` are what a move of the cursor of the slot with identity
/// `id` gives on `before`, forward where `forward` holds and back otherwise:
/// where no slot has the identity, or no variant stands on that side of the
/// cursor, the store stays as it is and the error says which; otherwise the
/// cursor moves by one and the variant it then selects is returned.
pub open spec fn is_navigation(
    before: StoreView,
    id: u64,
    forward: bool,
    after: StoreView,
    r: Result<ChatMessage, NavigationError>,
) -> bool {
    if !has_slot(before, id) {
        after == before && r == Err::<ChatMessage, NavigationError>(NavigationError::NotFound)
    } else {
        let i = position(before, id);
        let slot = before[i].1;
        if forward && slot.cursor + 1 >= slot.variants.len() {
            after == before && r == Err::<ChatMessage, NavigationError>(NavigationError::AtEnd)
        } else if !forward && slot.cursor <= 0 {
            after == before && r == Err::<ChatMessage, NavigationError>(NavigationError::AtStart)
        } else {
            after == navigated(
                before,
                id,
                if forward {
                    1int
                } else {
                    -1int
                },
            ) && r == Ok::<ChatMessage, NavigationError>(after[i].1.selected())
        }
    }
}

/// The selected variant of each slot, in order.
pub open spec fn selected_messages(store: StoreView) -> Seq<ChatMessage> {
    Seq::new(store.len(), |i: int| store[i].1.selected())
}

/// The index of the last slot whose selected variant has `role`.
pub open spec fn last_with_role(store: StoreView, role: Role) -> Option<int>
    decreases store.len(),
{
    if store.len() == 0 {
        None
    } else if store.last().1.selected().role == role {
        Some(store.len() - 1)
    } else {
        last_with_role(store.drop_last(), role)
    }
}

/// The identities of the slots that have one, in order.
pub open spec fn named_ids(store: StoreView) -> Seq<u64>
    decreases store.len(),
{
    if store.len() == 0 {
        Seq::empty()
    } else {
        match store.last().0 {
            Some(id) => named_ids(store.drop_last()).push(id),
            None => named_ids(store.drop_last()),
        }
    }
}

spec fn view_of(entries: Seq<((bool, u64), Slot)>) -> StoreView {
    Seq::new(entries.len(), |i: int| (identity(entries[i].0), entries[i].1@))
}

spec fn keys_distinct(entries: Seq<((bool, u64), Slot)>) -> bool {
    forall|i: int, j: int|
        0 <= i < j < entries.len() ==> (#[trigger] entries[i]).0 != (#[trigger] entries[j]).0
}


/// Distinct numbers below `bound` are no more than `bound`.
proof fn lemma_distinct_below(numbers: Seq<int>, bound: nat)
    requires
        forall|j: int| 0 <= j < numbers.len() ==> 0 <= #[trigger] numbers[j] < bound,
        forall|i: int, j: int|
            0 <= i < j < numbers.len() ==> #[trigger] numbers[i] != #[trigger] numbers[j],
    ensures
        numbers.len() <= bound,
{
    numbers.unique_seq_to_set();
    vstd::set_lib::lemma_int_range(0, bound as int);
    assert(numbers.to_set().subset_of(vstd::set_lib::set_int_range(0, bound as int))) by {
        assert forall|x: int| numbers.to_set().contains(x) implies vstd::set_lib::set_int_range(
            0,
            bound as int,
        ).contains(x) by {
            let j = choose|j: int| 0 <= j < numbers.len() && numbers[j] == x;
        }
    }
    vstd::set_lib::lemma_len_subset(
        numbers.to_set(),
        vstd::set_lib::set_int_range(0, bound as int),
    );
}

/// A key for a slot without identity that no entry of `slots` has.
fn free_unnamed_key(slots: &IndexMap<(bool, u64), Slot>) -> (key: (bool, u64))
    ensures
        !key.0,
        forall|j: int|
            0 <= j < slot_entries(*slots).len() ==> (#[trigger] slot_entries(*slots)[j]).0 != key,
{
    let n = map_len(slots);
    let mut number: u64 = 0;
    let ghost mut taken: Seq<int> = Seq::empty();
    loop
        invariant
            n == slot_entries(*slots).len(),
            taken.len() == number,
            number <= n,
            forall|j: int|
                0 <= j < taken.len() ==> 0 <= #[trigger] taken[j] < n && slot_entries(
                    *slots,
                )[taken[j]].0 == (false, j as u64),
        decreases n - number,
    {
        let key = (false, number);
        match map_get_full(slots, &key) {
            None => {
                return key;
            },
            Some((index, _, _)) => {
                proof {
                    taken = taken.push(index as int);
                    lemma_distinct_below(taken, n as nat);
                }
                number = number + 1;
            },
        }
    }
}

proof fn lemma_view_well_formed(entries: Seq<((bool, u64), Slot)>)
    requires
        keys_distinct(entries),
    ensures
        well_formed(view_of(entries)),
{
    let store = view_of(entries);
    assert forall|i: int| 0 <= i < store.len() implies (#[trigger] store[i]).1.wf() by {
        lemma_slot_cursor_in_range(entries[i].1);
    }
}

/// In a store with distinct identities, the slot with a given identity
/// stands at one index only.
pub proof fn lemma_position_unique(store: StoreView, id: u64, i: int)
    requires
        distinct_ids(store),
        0 <= i < store.len(),
        store[i].0 == Some(id),
    ensures
        has_slot(store, id),
        position(store, id) == i,
{
}

/// Whether the slot with identity `id` holds a reply that can be replaced:
/// `store` has a slot with the identity, and the variant that the slot
/// selects is one that the assistant wrote.
pub open spec fn holds_reply(store: StoreView, id: u64) -> bool {
    has_slot(store, id) && store[position(store, id)].1.selected().role == Role::Assistant
}

/// The message of the assistant with the text `reply`, written at `sent_at`.
pub open spec fn reply_message(reply: String, sent_at: i64) -> ChatMessage {
    ChatMessage { role: Role::Assistant, content: reply, sent_at, metadata: None }
}

/// The store after each of `replies` was appended under `id`, one after the other.
pub open spec fn regenerated(store: StoreView, id: u64, replies: Seq<ChatMessage>) -> StoreView
    decreases replies.len(),
{
    if replies.len() == 0 {
        store
    } else {
        appended(regenerated(store, id, replies.drop_last()), Some(id), replies.last())
    }
}

/// Appending keeps identities distinct and cursors in range.
pub proof fn lemma_appended_well_formed(store: StoreView, id: Option<u64>, variant: ChatMessage)
    requires
        well_formed(store),
    ensures
        well_formed(appended(store, id, variant)),
{
}

/// Moving a cursor to a variant next to it keeps identities distinct and
/// cursors in range.
pub proof fn lemma_navigated_well_formed(store: StoreView, id: u64, delta: int)
    requires
        well_formed(store),
        has_slot(store, id),
        store[position(store, id)].1.moved(delta).wf(),
    ensures
        well_formed(navigated(store, id, delta)),
{
    let after = navigated(store, id, delta);
}

/// Taking the oldest slots away keeps identities distinct and cursors in
/// range, among those that stay and among those that leave.
pub proof fn lemma_drained_well_formed(store: StoreView, count: int)
    requires
        well_formed(store),
        0 <= count <= store.len(),
    ensures
        well_formed(store.skip(count)),
        well_formed(store.take(count)),
{
}

/// A variant that was appended under an identity is found under it at once:
/// the store has a slot with that identity, and the slot selects the variant.
pub proof fn lemma_append_then_find(store: StoreView, id: u64, variant: ChatMessage)
    requires
        well_formed(store),
    ensures
        has_slot(appended(store, Some(id), variant), id),
        appended(store, Some(id), variant)[position(
            appended(store, Some(id), variant),
            id,
        )].1.selected() == variant,
        !has_slot(store, id) ==> position(appended(store, Some(id), variant), id) == store.len(),
        has_slot(store, id) ==> position(appended(store, Some(id), variant), id) == position(
            store,
            id,
        ),
{
    let after = appended(store, Some(id), variant);
    lemma_appended_well_formed(store, Some(id), variant);
    if has_slot(store, id) {
        let i = position(store, id);
        lemma_position_unique(after, id, i);
    } else {
        let i = store.len() as int;
        lemma_position_unique(after, id, i);
    }
}

/// After replies of the assistant were appended one after the other under
/// the identity of a slot that holds a reply, that slot stands where it
/// stood, still holds a reply, so that each of the appends was one that
/// `regenerate` makes, and holds as many variants more as there are replies;
/// where there is a reply, its cursor stands on the last variant, which is
/// the last reply. No slot was added and no other changed.
pub proof fn lemma_regenerated(store: StoreView, id: u64, replies: Seq<ChatMessage>)
    requires
        well_formed(store),
        holds_reply(store, id),
        forall|k: int| 0 <= k < replies.len() ==> (#[trigger] replies[k]).role == Role::Assistant,
    ensures
        well_formed(regenerated(store, id, replies)),
        holds_reply(regenerated(store, id, replies), id),
        regenerated(store, id, replies).len() == store.len(),
        has_slot(regenerated(store, id, replies), id),
        position(regenerated(store, id, replies), id) == position(store, id),
        regenerated(store, id, replies)[position(store, id)].1 == store[position(
            store,
            id,
        )].1.with_variants(replies),
        regenerated(store, id, replies)[position(store, id)].1.variants.len() == store[position(
            store,
            id,
        )].1.variants.len() + replies.len(),
        replies.len() > 0 ==> regenerated(store, id, replies)[position(store, id)].1.cursor
            == regenerated(store, id, replies)[position(store, id)].1.variants.len() - 1
            && regenerated(store, id, replies)[position(store, id)].1.selected() == replies.last(),
        forall|k: int|
            0 <= k < store.len() && k != position(store, id) ==> (#[trigger] regenerated(
                store,
                id,
                replies,
            )[k]) == store[k],
    decreases replies.len(),
{
    let i = position(store, id);
    crate::message::lemma_regenerated_slot(store[i].1, replies);
    if replies.len() > 0 {
        let shorter = regenerated(store, id, replies.drop_last());
        lemma_regenerated(store, id, replies.drop_last());
        lemma_appended_well_formed(shorter, Some(id), replies.last());
        lemma_append_then_find(shorter, id, replies.last());
    }
}

/// The slots of one conversation in the order in which they were added. A
/// slot is found by the identity of its message; a slot added without an
/// identity keeps its place in the order and is found by index only.
pub struct BranchStore {
    slots: IndexMap<(bool, u64), Slot>,
}

impl View for BranchStore {
    type V = StoreView;

    closed spec fn view(&self) -> StoreView {
        view_of(slot_entries(self.slots))
    }
}

impl BranchStore {
    #[verifier::type_invariant]
    spec fn inv(self) -> bool {
        keys_distinct(slot_entries(self.slots))
    }

    /// A store without slots.
    pub fn new() -> (store: Self)
        ensures
            store@ == Seq::<(Option<u64>, SlotView)>::empty(),
    {
        let store = BranchStore { slots: map_new() };
        store
    }

    /// The number of slots.
    pub fn len(&self) -> (n: usize)
        ensures
            n == self@.len(),
            well_formed(self@),
    {
        proof {
            use_type_invariant(self);
            lemma_view_well_formed(slot_entries(self.slots));
        }
        map_len(&self.slots)
    }

    /// Whether the store has no slot.
    pub fn is_empty(&self) -> (b: bool)
        ensures
            b == (self@.len() == 0),
    {
        map_len(&self.slots) == 0
    }

    /// The slot at `index` in conversation order.
    pub fn get(&self, index: usize) -> (found: Option<&Slot>)
        ensures
            index < self@.len() ==> found is Some && found.unwrap()@ == self@[index as int].1,
            index >= self@.len() ==> found is None,
    {
        match map_get_index(&self.slots, index) {
            Some((_, slot)) => Some(slot),
            None => None,
        }
    }

    /// The identity of the slot at `index`, if there is such a slot and it has one.
    pub fn id_at(&self, index: usize) -> (id: Option<u64>)
        ensures
            index < self@.len() ==> id == self@[index as int].0,
            index >= self@.len() ==> id is None,
    {
        match map_get_index(&self.slots, index) {
            Some((key, _)) => if key.0 {
                Some(key.1)
            } else {
                None
            },
            None => None,
        }
    }

    /// The index, identity and slot for the identity `id`.
    pub fn find_full(&self, id: u64) -> (found: Option<(usize, &u64, &Slot)>)
        ensures
            well_formed(self@),
            found is Some == has_slot(self@, id),
            found matches Some((index, stored, slot)) ==> index == position(self@, id) && *stored
                == id && slot@ == self@[index as int].1,
    {
        proof {
            use_type_invariant(self);
            lemma_view_well_formed(slot_entries(self.slots));
        }
        let key = (true, id);
        match map_get_full(&self.slots, &key) {
            Some((index, stored, slot)) => {
                proof {
                    lemma_position_unique(self@, id, index as int);
                }
                Some((index, &stored.1, slot))
            },
            None => {
                None
            },
        }
    }

    /// The slot with the identity `id`.
    pub fn find(&self, id: u64) -> (found: Option<&Slot>)
        ensures
            well_formed(self@),
            found is Some == has_slot(self@, id),
            found matches Some(slot) ==> slot@ == self@[position(self@, id)].1,
    {
        match self.find_full(id) {
            Some((_, _, slot)) => Some(slot),
            None => None,
        }
    }

    /// The slot at `index` in conversation order, for change in place.
    pub fn get_mut(&mut self, index: usize) -> (found: Option<&mut Slot>)
        ensures
            well_formed(old(self)@),
            well_formed(final(self)@),
            index >= old(self)@.len() ==> found is None && final(self)@ == old(self)@,
            index < old(self)@.len() ==> found is Some && found.unwrap()@
                == old(self)@[index as int].1 && final(self)@ == old(self)@.update(
                index as int,
                (old(self)@[index as int].0, final(found.unwrap())@),
            ),
    {
        proof {
            use_type_invariant(&*self);
            lemma_view_well_formed(slot_entries(self.slots));
        }
        let ghost before = slot_entries(self.slots);
        let found = map_slot_mut(&mut self.slots, index);
        proof {
            if index < before.len() {
                let after = before.update(
                    index as int,
                    (before[index as int].0, *final(found.unwrap())),
                );
                assert(view_of(after) =~= view_of(before).update(
                    index as int,
                    (view_of(before)[index as int].0, final(found.unwrap())@),
                ));
                lemma_view_well_formed(after);
            }
        }
        found
    }

    /// The index and identity of the slot with the identity `id`, and the
    /// slot for change in place.
    pub fn find_full_mut(&mut self, id: u64) -> (found: Option<(usize, &u64, &mut Slot)>)
        ensures
            well_formed(old(self)@),
            well_formed(final(self)@),
            found is Some == has_slot(old(self)@, id),
            found is None ==> final(self)@ == old(self)@,
            found is Some ==> found.unwrap().0 == position(old(self)@, id),
            found is Some ==> *found.unwrap().1 == id,
            found is Some ==> found.unwrap().2@ == old(self)@[position(old(self)@, id)].1,
            found is Some ==> final(self)@ == old(self)@.update(
                position(old(self)@, id),
                (Some(id), final(found.unwrap().2)@),
            ),
    {
        proof {
            use_type_invariant(&*self);
            lemma_view_well_formed(slot_entries(self.slots));
        }
        let ghost before = slot_entries(self.slots);
        let key = (true, id);
        match map_get_full_mut(&mut self.slots, &key) {
            Some((index, stored, slot)) => {
                proof {
                    let after = before.update(index as int, (key, *final(slot)));
                    lemma_position_unique(view_of(before), id, index as int);
                    assert(view_of(after) =~= view_of(before).update(
                        index as int,
                        (Some(id), final(slot)@),
                    ));
                    lemma_view_well_formed(after);
                }
                Some((index, &stored.1, slot))
            },
            None => {
                None
            },
        }
    }

    /// The slot with the identity `id`, for change in place.
    pub fn find_mut(&mut self, id: u64) -> (found: Option<&mut Slot>)
        ensures
            well_formed(old(self)@),
            well_formed(final(self)@),
            found is Some == has_slot(old(self)@, id),
            found is None ==> final(self)@ == old(self)@,
            found is Some ==> found.unwrap()@ == old(self)@[position(old(self)@, id)].1,
            found is Some ==> final(self)@ == old(self)@.update(
                position(old(self)@, id),
                (Some(id), final(found.unwrap())@),
            ),
    {
        match self.find_full_mut(id) {
            Some((_, _, slot)) => Some(slot),
            None => None,
        }
    }

    /// The slot that was added last.
    pub fn latest(&self) -> (found: Option<&Slot>)
        ensures
            self@.len() == 0 ==> found is None,
            self@.len() > 0 ==> found is Some && found.unwrap()@ == self@.last().1,
    {
        let n = map_len(&self.slots);
        if n == 0 {
            None
        } else {
            self.get(n - 1)
        }
    }

    /// The last slot whose selected variant has `role`.
    pub fn latest_with_role(&self, role: Role) -> (found: Option<&Slot>)
        ensures
            found is Some == last_with_role(self@, role) is Some,
            found matches Some(slot) ==> slot@ == self@[last_with_role(self@, role)->0].1,
    {
        let mut i = map_len(&self.slots);
        assert(self@.take(i as int) =~= self@);
        while i > 0
            invariant
                i <= self@.len(),
                last_with_role(self@, role) == last_with_role(self@.take(i as int), role),
            decreases i,
        {
            let ghost prefix = self@.take(i as int);
            assert(prefix.drop_last() =~= self@.take(i - 1));
            i -= 1;
            match self.get(i) {
                Some(slot) => {
                    if slot.selected().role == role {
                        return Some(slot);
                    }
                },
                None => {},
            }
        }
        None
    }

    /// The selected variant of each slot, in conversation order.
    pub fn selected(&self) -> (messages: Vec<ChatMessage>)
        ensures
            messages@ == selected_messages(self@),
            well_formed(self@),
    {
        let n = self.len();
        let mut messages: Vec<ChatMessage> = Vec::new();
        let mut i: usize = 0;
        while i < n
            invariant
                i <= n,
                n == self@.len(),
                messages@ == selected_messages(self@).take(i as int),
            decreases n - i,
        {
            match self.get(i) {
                Some(slot) => {
                    messages.push(slot.selected().clone());
                },
                None => {},
            }
            i += 1;
        }
        messages
    }

    /// Appends `variant` under `id`. A slot that has the identity gains the
    /// variant and selects it; otherwise a new slot is added last, with the
    /// variant alone. Returns the identity of the slot.
    pub fn append(&mut self, id: Option<u64>, variant: ChatMessage) -> (slot_id: Option<u64>)
        ensures
            final(self)@ == appended(old(self)@, id, variant),
            well_formed(final(self)@),
            slot_id == id,
    {
        let held = match id {
            Some(named) => self.find(named).is_some(),
            None => false,
        };
        if held {
            match self.find_mut(id.unwrap()) {
                Some(slot) => {
                    slot.push(variant);
                },
                None => {},
            }
        } else {
            proof {
                use_type_invariant(&*self);
            }
            let ghost before = slot_entries(self.slots);
            let mut slots = map_new();
            std::mem::swap(&mut slots, &mut self.slots);
            let key = match id {
                Some(named) => {
                    assert forall|j: int| 0 <= j < before.len() implies (#[trigger] before[j]).0
                        != (true, named) by {
                        assert(view_of(before)[j].0 != Some(named));
                    }
                    (true, named)
                },
                None => free_unnamed_key(&slots),
            };
            map_insert(&mut slots, key, Slot::new(variant));
            self.slots = slots;
            proof {
                lemma_view_well_formed(slot_entries(self.slots));
            }
        }
        id
    }

    /// Whether the slot with the identity `id` holds a reply that can be
    /// replaced: there is such a slot, and it selects a variant of the
    /// assistant.
    pub fn can_regenerate(&self, id: u64) -> (b: bool)
        ensures
            b == holds_reply(self@, id),
            well_formed(self@),
    {
        match self.find(id) {
            Some(slot) => slot.selected().role == Role::Assistant,
            None => false,
        }
    }

    /// Replaces the reply under the identity `id` by another version: a reply
    /// of the assistant with the text `reply`, written at `sent_at`, becomes
    /// a new variant of the slot and is selected. Only a reply of the
    /// assistant can be replaced: where no slot has the identity, or the
    /// variant that the slot selects is not the assistant's, there is no
    /// reply to replace; the call fails with `NotFound` and changes nothing.
    pub fn regenerate(&mut self, id: u64, reply: String, sent_at: i64) -> (r: Result<
        (),
        NavigationError,
    >)
        ensures
            well_formed(old(self)@),
            well_formed(final(self)@),
            holds_reply(old(self)@, id) ==> r is Ok && final(self)@ == appended(
                old(self)@,
                Some(id),
                reply_message(reply, sent_at),
            ) && holds_reply(final(self)@, id),
            !holds_reply(old(self)@, id) ==> r == Err::<(), NavigationError>(
                NavigationError::NotFound,
            ) && final(self)@ == old(self)@,
    {
        if self.can_regenerate(id) {
            let added = ChatMessage::new(Role::Assistant, reply, sent_at);
            proof {
                lemma_append_then_find(self@, id, added);
            }
            self.append(Some(id), added);
            Ok(())
        } else {
            Err(NavigationError::NotFound)
        }
    }

    /// Moves the cursor of the slot with identity `id` one variant back and
    /// returns the variant it then selects. Fails, and changes nothing, where
    /// no slot has that identity or its cursor stands on the first variant.
    pub fn select_prev(&mut self, id: u64) -> (r: Result<ChatMessage, NavigationError>)
        ensures
            well_formed(old(self)@),
            well_formed(final(self)@),
            is_navigation(old(self)@, id, false, final(self)@, r),
    {
        self.step(id, false)
    }

    /// Moves the cursor of the slot with identity `id` one variant forward and
    /// returns the variant it then selects. Fails, and changes nothing, where
    /// no slot has that identity or its cursor stands on the last variant.
    pub fn select_next(&mut self, id: u64) -> (r: Result<ChatMessage, NavigationError>)
        ensures
            well_formed(old(self)@),
            well_formed(final(self)@),
            is_navigation(old(self)@, id, true, final(self)@, r),
    {
        self.step(id, true)
    }

    fn step(&mut self, id: u64, forward: bool) -> (r: Result<ChatMessage, NavigationError>)
        ensures
            well_formed(old(self)@),
            well_formed(final(self)@),
            is_navigation(old(self)@, id, forward, final(self)@, r),
    {
        match self.find_mut(id) {
            Some(slot) => {
                let ghost before = slot@;
                let r = if forward {
                    slot.select_next()
                } else {
                    slot.select_prev()
                };
                proof {
                    if r is Err {
                        let i = position(old(self)@, id);
                        assert(old(self)@.update(i, (Some(id), before)) =~= old(self)@);
                    }
                }
                r
            },
            None => Err(NavigationError::NotFound),
        }
    }

    /// Removes the first `count` slots, or all of them where there are fewer,
    /// and returns the selected variant of each, in order.
    pub fn drain_oldest(&mut self, count: usize) -> (evicted: Vec<ChatMessage>)
        ensures
            well_formed(final(self)@),
            count <= old(self)@.len() ==> evicted@ == selected_messages(
                old(self)@.take(count as int),
            ) && final(self)@ == old(self)@.skip(count as int),
            count > old(self)@.len() ==> evicted@ == selected_messages(old(self)@),
            count > old(self)@.len() ==> final(self)@.len() == 0,
    {
        proof {
            use_type_invariant(&*self);
        }
        let mut slots = map_new();
        std::mem::swap(&mut slots, &mut self.slots);
        let n = map_len(&slots);
        let take = if count <= n {
            count
        } else {
            n
        };
        let mut drained = map_drain_front(&mut slots, take);
        self.slots = slots;
        proof {
            lemma_view_well_formed(slot_entries(self.slots));
        }
        let ghost removed = drained@;
        let mut evicted: Vec<ChatMessage> = Vec::new();
        for entry in it: drained
            invariant
                it.seq() == removed,
                evicted@.len() == it.index(),
                forall|k: int| 0 <= k < evicted@.len() ==> evicted@[k] == removed[k].1@.selected(),
        {
            evicted.push(entry.1.into_selected());
        }
        evicted
    }

    /// Removes every slot and returns the identities of those that had one,
    /// in conversation order.
    pub fn drain_identities(&mut self) -> (ids: Vec<u64>)
        ensures
            final(self)@.len() == 0,
            well_formed(final(self)@),
            ids@ == named_ids(old(self)@),
    {
        proof {
            use_type_invariant(&*self);
        }
        let n = map_len(&self.slots);
        let mut ids: Vec<u64> = Vec::new();
        let mut i: usize = 0;
        while i < n
            invariant
                i <= n,
                n == self@.len(),
                ids@ == named_ids(self@.take(i as int)),
            decreases n - i,
        {
            assert(self@.take(i + 1).drop_last() =~= self@.take(i as int));
            match self.id_at(i) {
                Some(id) => {
                    ids.push(id);
                },
                None => {},
            }
            i += 1;
        }
        assert(self@.take(n as int) =~= self@);
        let mut slots = map_new();
        std::mem::swap(&mut slots, &mut self.slots);
        proof {
            lemma_view_well_formed(slot_entries(self.slots));
        }
        ids
    }
}

} // verus!
