//! The key map: which logical status each key combination stands for.
//!
//! A key map is a finite map from combinations to statuses. It is kept in a
//! hash map, each binding under the number of its combination.

use std::collections::HashMap;
use vstd::prelude::*;
use vstd::set_lib::lemma_map_size;
use vstd::std_specs::iter::IteratorSpec;
use crate::keymap::{KeyCode, KeyModifiers, MediaKeyCode, ModifierKeyCode};
use crate::types::KeyStatus;

verus! {

/// A key with its modifiers.
pub type KeyCombo = (KeyCode, KeyModifiers);

/// One entry of a key map.
#[derive(Clone, Copy, Debug, PartialEq, Eq, Structural)]
pub struct Binding {
    pub code: KeyCode,
    pub modifiers: KeyModifiers,
    pub status: KeyStatus,
}

impl Binding {
    /// The combination that this entry binds.
    pub open spec fn combo(self) -> KeyCombo {
        (self.code, self.modifiers)
    }
}

/// The map that a list of entries stands for; of two entries for one
/// combination the later one counts.
pub open spec fn bindings_map(entries: Seq<Binding>) -> Map<KeyCombo, KeyStatus>
    decreases entries.len(),
{
    if entries.len() == 0 {
        Map::empty()
    } else {
        bindings_map(entries.drop_last()).insert(entries.last().combo(), entries.last().status)
    }
}

/// No combination occurs twice.
pub open spec fn distinct_combos(entries: Seq<Binding>) -> bool {
    forall|i: int, j: int|
        0 <= i < j < entries.len() ==> (#[trigger] entries[i]).combo() != (
        #[trigger] entries[j]).combo()
}

/// Whether some combination of the map stands for `status`.
pub open spec fn binds_status(map: Map<KeyCombo, KeyStatus>, status: KeyStatus) -> bool {
    exists|combo: KeyCombo| #[trigger] map.dom().contains(combo) && map[combo] == status
}

/// The key map after a batch of new bindings has been merged in. Every old
/// binding whose status the batch binds is dropped, whatever its key; then
/// the bindings of the batch are added, replacing what their keys stood for.
pub open spec fn merge_bindings(
    current: Map<KeyCombo, KeyStatus>,
    batch: Map<KeyCombo, KeyStatus>,
) -> Map<KeyCombo, KeyStatus> {
    Map::new(
        |combo: KeyCombo|
            batch.dom().contains(combo) || (current.dom().contains(combo) && !binds_status(
                batch,
                current[combo],
            )),
        |combo: KeyCombo|
            if batch.dom().contains(combo) {
                batch[combo]
            } else {
                current[combo]
            },
    )
}

/// Both maps together; where both bind a combination, `later` counts.
pub open spec fn later_wins(
    earlier: Map<KeyCombo, KeyStatus>,
    later: Map<KeyCombo, KeyStatus>,
) -> Map<KeyCombo, KeyStatus> {
    Map::new(
        |combo: KeyCombo| later.dom().contains(combo) || earlier.dom().contains(combo),
        |combo: KeyCombo|
            if later.dom().contains(combo) {
                later[combo]
            } else {
                earlier[combo]
            },
    )
}

/// The bindings of `current` whose status `batch` does not bind.
pub open spec fn without_statuses(
    current: Map<KeyCombo, KeyStatus>,
    batch: Map<KeyCombo, KeyStatus>,
) -> Map<KeyCombo, KeyStatus> {
    Map::new(
        |combo: KeyCombo| current.dom().contains(combo) && !binds_status(batch, current[combo]),
        |combo: KeyCombo| current[combo],
    )
}

/// What the map of a list holds: exactly the combinations of its entries,
/// each with the status of its last entry.
pub proof fn lemma_bindings_map(entries: Seq<Binding>)
    ensures
        forall|combo: KeyCombo|
            bindings_map(entries).dom().contains(combo) <==> exists|i: int|
                0 <= i < entries.len() && (#[trigger] entries[i]).combo() == combo,
        forall|i: int|
            0 <= i < entries.len() && (forall|j: int|
                i < j < entries.len() ==> (#[trigger] entries[j]).combo() != entries[i].combo())
                ==> bindings_map(entries)[(#[trigger] entries[i]).combo()] == entries[i].status,
        bindings_map(entries).dom().finite(),
    decreases entries.len(),
{
    if entries.len() > 0 {
        let head = entries.drop_last();
        let last = entries.last();
        lemma_bindings_map(head);
        assert forall|combo: KeyCombo|
            bindings_map(entries).dom().contains(combo) <==> exists|i: int|
                0 <= i < entries.len() && (#[trigger] entries[i]).combo() == combo by {
            if bindings_map(entries).dom().contains(combo) {
                if combo == last.combo() {
                    assert(entries[entries.len() - 1].combo() == combo);
                } else {
                    let i = choose|i: int|
                        0 <= i < head.len() && (#[trigger] head[i]).combo() == combo;
                    assert(entries[i].combo() == combo);
                }
            }
            if exists|i: int| 0 <= i < entries.len() && (#[trigger] entries[i]).combo() == combo {
                let i = choose|i: int|
                    0 <= i < entries.len() && (#[trigger] entries[i]).combo() == combo;
                if i < head.len() {
                    assert(head[i].combo() == combo);
                }
            }
        }
        assert forall|i: int|
            0 <= i < entries.len() && (forall|j: int|
                i < j < entries.len() ==> (#[trigger] entries[j]).combo()
                    != entries[i].combo()) implies bindings_map(entries)[(
        #[trigger] entries[i]).combo()] == entries[i].status by {
            if i < head.len() {
                assert(entries[entries.len() - 1].combo() != entries[i].combo());
                assert(head[i] == entries[i]);
                assert forall|j: int| i < j < head.len() implies (#[trigger] head[j]).combo()
                    != head[i].combo() by {
                    assert(entries[j] == head[j]);
                }
            }
        }
    }
}

/// The number of a media key.
pub open spec fn media_number(key: MediaKeyCode) -> int {
    match key {
        MediaKeyCode::Play => 0,
        MediaKeyCode::Pause => 1,
        MediaKeyCode::PlayPause => 2,
        MediaKeyCode::Reverse => 3,
        MediaKeyCode::Stop => 4,
        MediaKeyCode::FastForward => 5,
        MediaKeyCode::Rewind => 6,
        MediaKeyCode::TrackNext => 7,
        MediaKeyCode::TrackPrevious => 8,
        MediaKeyCode::Record => 9,
        MediaKeyCode::LowerVolume => 10,
        MediaKeyCode::RaiseVolume => 11,
        MediaKeyCode::MuteVolume => 12,
    }
}

/// The number of a modifier key.
pub open spec fn modifier_number(key: ModifierKeyCode) -> int {
    match key {
        ModifierKeyCode::LeftShift => 0,
        ModifierKeyCode::LeftControl => 1,
        ModifierKeyCode::LeftAlt => 2,
        ModifierKeyCode::LeftSuper => 3,
        ModifierKeyCode::LeftHyper => 4,
        ModifierKeyCode::LeftMeta => 5,
        ModifierKeyCode::RightShift => 6,
        ModifierKeyCode::RightControl => 7,
        ModifierKeyCode::RightAlt => 8,
        ModifierKeyCode::RightSuper => 9,
        ModifierKeyCode::RightHyper => 10,
        ModifierKeyCode::RightMeta => 11,
        ModifierKeyCode::IsoLevel3Shift => 12,
        ModifierKeyCode::IsoLevel5Shift => 13,
    }
}

/// The number of a key: the keys without a payload come first, then a
/// block of 2^32 numbers each for the function keys, the characters, the
/// media keys and the modifier keys.
pub open spec fn key_number(code: KeyCode) -> int {
    match code {
        KeyCode::Backspace => 0,
        KeyCode::Enter => 1,
        KeyCode::Left => 2,
        KeyCode::Right => 3,
        KeyCode::Up => 4,
        KeyCode::Down => 5,
        KeyCode::Home => 6,
        KeyCode::End => 7,
        KeyCode::PageUp => 8,
        KeyCode::PageDown => 9,
        KeyCode::Tab => 10,
        KeyCode::BackTab => 11,
        KeyCode::Delete => 12,
        KeyCode::Insert => 13,
        KeyCode::Null => 14,
        KeyCode::Esc => 15,
        KeyCode::CapsLock => 16,
        KeyCode::ScrollLock => 17,
        KeyCode::NumLock => 18,
        KeyCode::PrintScreen => 19,
        KeyCode::Pause => 20,
        KeyCode::Menu => 21,
        KeyCode::KeypadBegin => 22,
        KeyCode::F(n) => 0x1_0000_0000 + n,
        KeyCode::Char(c) => 0x2_0000_0000 + c as u32,
        KeyCode::Media(key) => 0x3_0000_0000 + media_number(key),
        KeyCode::Modifier(key) => 0x4_0000_0000 + modifier_number(key),
    }
}

/// The number under which a combination is kept: the number of its key
/// followed by the eight bits of its modifiers.
pub open spec fn combo_number(combo: KeyCombo) -> u64 {
    (key_number(combo.0) * 256 + combo.1.bits) as u64
}

/// Two combinations with one number are one combination.
pub proof fn lemma_number_tells_apart(a: KeyCombo, b: KeyCombo)
    ensures
        combo_number(a) == combo_number(b) ==> a == b,
{
    assert(0 <= key_number(a.0) < 0x5_0000_0000);
    assert(0 <= key_number(b.0) < 0x5_0000_0000);
    if combo_number(a) == combo_number(b) {
        assert(key_number(a.0) == key_number(b.0));
        assert(a.1.bits == b.1.bits);
        assert(a.0 == b.0);
    }
}

fn media_number_of(key: MediaKeyCode) -> (number: u64)
    ensures
        number == media_number(key),
{
    match key {
        MediaKeyCode::Play => 0,
        MediaKeyCode::Pause => 1,
        MediaKeyCode::PlayPause => 2,
        MediaKeyCode::Reverse => 3,
        MediaKeyCode::Stop => 4,
        MediaKeyCode::FastForward => 5,
        MediaKeyCode::Rewind => 6,
        MediaKeyCode::TrackNext => 7,
        MediaKeyCode::TrackPrevious => 8,
        MediaKeyCode::Record => 9,
        MediaKeyCode::LowerVolume => 10,
        MediaKeyCode::RaiseVolume => 11,
        MediaKeyCode::MuteVolume => 12,
    }
}

fn modifier_number_of(key: ModifierKeyCode) -> (number: u64)
    ensures
        number == modifier_number(key),
{
    match key {
        ModifierKeyCode::LeftShift => 0,
        ModifierKeyCode::LeftControl => 1,
        ModifierKeyCode::LeftAlt => 2,
        ModifierKeyCode::LeftSuper => 3,
        ModifierKeyCode::LeftHyper => 4,
        ModifierKeyCode::LeftMeta => 5,
        ModifierKeyCode::RightShift => 6,
        ModifierKeyCode::RightControl => 7,
        ModifierKeyCode::RightAlt => 8,
        ModifierKeyCode::RightSuper => 9,
        ModifierKeyCode::RightHyper => 10,
        ModifierKeyCode::RightMeta => 11,
        ModifierKeyCode::IsoLevel3Shift => 12,
        ModifierKeyCode::IsoLevel5Shift => 13,
    }
}

fn key_number_of(code: KeyCode) -> (number: u64)
    ensures
        number == key_number(code),
        number < 0x5_0000_0000,
{
    match code {
        KeyCode::Backspace => 0,
        KeyCode::Enter => 1,
        KeyCode::Left => 2,
        KeyCode::Right => 3,
        KeyCode::Up => 4,
        KeyCode::Down => 5,
        KeyCode::Home => 6,
        KeyCode::End => 7,
        KeyCode::PageUp => 8,
        KeyCode::PageDown => 9,
        KeyCode::Tab => 10,
        KeyCode::BackTab => 11,
        KeyCode::Delete => 12,
        KeyCode::Insert => 13,
        KeyCode::Null => 14,
        KeyCode::Esc => 15,
        KeyCode::CapsLock => 16,
        KeyCode::ScrollLock => 17,
        KeyCode::NumLock => 18,
        KeyCode::PrintScreen => 19,
        KeyCode::Pause => 20,
        KeyCode::Menu => 21,
        KeyCode::KeypadBegin => 22,
        KeyCode::F(n) => 0x1_0000_0000 + (n as u64),
        KeyCode::Char(c) => 0x2_0000_0000 + ((c as u32) as u64),
        KeyCode::Media(key) => 0x3_0000_0000 + media_number_of(key),
        KeyCode::Modifier(key) => 0x4_0000_0000 + modifier_number_of(key),
    }
}

/// The number under which a combination is kept.
fn combo_number_of(code: KeyCode, modifiers: KeyModifiers) -> (number: u64)
    ensures
        number == combo_number((code, modifiers)),
{
    key_number_of(code) * 256 + (modifiers.bits as u64)
}

/// The key map that a table of bindings stands for: a combination is bound
/// where the table holds an entry under its number.
pub open spec fn held(table: Map<u64, Binding>) -> Map<KeyCombo, KeyStatus> {
    Map::new(
        |combo: KeyCombo| table.contains_key(combo_number(combo)),
        |combo: KeyCombo| table[combo_number(combo)].status,
    )
}

/// Every entry of the table stands under the number of its combination.
pub open spec fn filed(table: Map<u64, Binding>) -> bool {
    forall|number: u64| #[trigger]
        table.contains_key(number) ==> combo_number(table[number].combo()) == number
}

/// Whether a list holds the bindings of a key map, each combination once.
pub open spec fn lists(entries: Seq<Binding>, map: Map<KeyCombo, KeyStatus>) -> bool {
    distinct_combos(entries) && bindings_map(entries) == map
}

/// A table in which every entry stands under its number binds as many
/// combinations as it has entries.
proof fn lemma_held_count(table: Map<u64, Binding>)
    requires
        filed(table),
        table.dom().finite(),
    ensures
        held(table).dom().finite(),
        held(table).dom().len() == table.dom().len(),
{
    let combo_at = |number: u64| table[number].combo();
    assert(table.dom().map(combo_at) =~= held(table).dom()) by {
        assert forall|combo: KeyCombo| held(table).dom().contains(combo) implies table.dom().map(
            combo_at,
        ).contains(combo) by {
            let number = combo_number(combo);
            assert(table.contains_key(number));
            lemma_number_tells_apart(combo, table[number].combo());
            assert(table.dom().contains(number) && combo_at(number) == combo);
        }
    }
    lemma_map_size(table.dom(), held(table).dom(), combo_at);
}

/// Filing an entry under its number binds its combination and leaves every
/// other combination as it was.
proof fn lemma_held_insert(table: Map<u64, Binding>, entry: Binding)
    requires
        filed(table),
    ensures
        filed(table.insert(combo_number(entry.combo()), entry)),
        held(table.insert(combo_number(entry.combo()), entry)) == held(table).insert(
            entry.combo(),
            entry.status,
        ),
{
    let number = combo_number(entry.combo());
    let after = table.insert(number, entry);
    assert forall|combo: KeyCombo| combo_number(combo) == number implies combo
        == entry.combo() by {
        lemma_number_tells_apart(combo, entry.combo());
    }
    assert(held(after) =~= held(table).insert(entry.combo(), entry.status));
}

/// A walk over the table that meets every entry once lists the key map.
proof fn lemma_walk_lists<'a>(
    table: Map<u64, Binding>,
    walk: Seq<(&'a u64, &'a Binding)>,
    entries: Seq<Binding>,
)
    requires
        filed(table),
        walk.no_duplicates(),
        forall|i: int|
            #![trigger walk[i]]
            0 <= i < walk.len() ==> table.contains_key(*walk[i].0) && table[*walk[i].0]
                == *walk[i].1,
        forall|number: u64| #[trigger]
            table.contains_key(number) ==> walk.contains((&number, &table[number])),
        entries.len() == walk.len(),
        forall|i: int| 0 <= i < entries.len() ==> #[trigger] entries[i] == *walk[i].1,
    ensures
        lists(entries, held(table)),
{
    assert forall|i: int, j: int| 0 <= i < j < entries.len() implies (#[trigger] entries[i]).combo()
        != (#[trigger] entries[j]).combo() by {
        assert(table[*walk[i].0] == entries[i]);
        assert(table[*walk[j].0] == entries[j]);
        assert(walk[i] != walk[j]);
    }
    lemma_bindings_map(entries);
    assert forall|combo: KeyCombo| held(table).dom().contains(combo) implies bindings_map(
        entries,
    ).dom().contains(combo) by {
        let number = combo_number(combo);
        let i = choose|i: int| 0 <= i < walk.len() && walk[i] == (&number, &table[number]);
        assert(entries[i] == table[number]);
        lemma_number_tells_apart(combo, entries[i].combo());
    }
    assert forall|combo: KeyCombo| bindings_map(entries).dom().contains(combo) implies held(
        table,
    ).dom().contains(combo) && held(table)[combo] == bindings_map(entries)[combo] by {
        let i = choose|i: int| 0 <= i < entries.len() && (#[trigger] entries[i]).combo() == combo;
        assert(table[*walk[i].0] == entries[i]);
        assert(bindings_map(entries)[entries[i].combo()] == entries[i].status);
    }
    assert(bindings_map(entries) =~= held(table));
}

/// A key map.
pub struct KeyBindings {
    map: HashMap<u64, Binding>,
}

impl View for KeyBindings {
    type V = Map<KeyCombo, KeyStatus>;

    closed spec fn view(&self) -> Map<KeyCombo, KeyStatus> {
        held(self.map@)
    }
}

impl KeyBindings {
    #[verifier::type_invariant]
    spec fn every_entry_filed(&self) -> bool {
        filed(self.map@)
    }

    /// The status that `combo` stands for in this map.
    pub open spec fn status_of(&self, combo: KeyCombo) -> Option<KeyStatus> {
        if self@.dom().contains(combo) {
            Some(self@[combo])
        } else {
            None
        }
    }

    /// A map without bindings.
    pub fn new() -> (bindings: KeyBindings)
        ensures
            bindings@ == Map::<KeyCombo, KeyStatus>::empty(),
    {
        let bindings = KeyBindings { map: HashMap::new() };
        assert(bindings@ =~= Map::<KeyCombo, KeyStatus>::empty());
        bindings
    }

    /// How many combinations are bound.
    pub fn len(&self) -> (count: usize)
        ensures
            self@.dom().finite(),
            count == self@.dom().len(),
    {
        proof {
            use_type_invariant(self);
            lemma_held_count(self.map@);
        }
        self.map.len()
    }

    /// Whether nothing is bound.
    pub fn is_empty(&self) -> (empty: bool)
        ensures
            empty == (self@ == Map::<KeyCombo, KeyStatus>::empty()),
    {
        let count = self.len();
        proof {
            if count == 0 {
                self@.dom().lemma_len0_is_empty();
                assert(self@ =~= Map::<KeyCombo, KeyStatus>::empty());
            }
        }
        count == 0
    }

    /// The status that a combination stands for, if it is bound.
    pub fn get(&self, code: KeyCode, modifiers: KeyModifiers) -> (status: Option<KeyStatus>)
        ensures
            status == self.status_of((code, modifiers)),
    {
        let number = combo_number_of(code, modifiers);
        match self.map.get(&number) {
            Some(entry) => Some(entry.status),
            None => None,
        }
    }

    /// Binds a combination, replacing what it stood for. Returns the status
    /// it stood for before.
    pub fn insert(&mut self, code: KeyCode, modifiers: KeyModifiers, status: KeyStatus) -> (before:
        Option<KeyStatus>)
        ensures
            final(self)@ == old(self)@.insert((code, modifiers), status),
            before == old(self).status_of((code, modifiers)),
    {
        let entry = Binding { code, modifiers, status };
        let number = combo_number_of(code, modifiers);
        let mut map = self.take_map();
        proof {
            lemma_held_insert(map@, entry);
        }
        let before = match map.insert(number, entry) {
            Some(previous) => Some(previous.status),
            None => None,
        };
        *self = KeyBindings { map };
        before
    }

    /// Whether some combination stands for `status`.
    pub fn has_status(&self, status: KeyStatus) -> (bound: bool)
        ensures
            bound == binds_status(self@, status),
    {
        proof {
            use_type_invariant(self);
        }
        let mut bound = false;
        for pair in it: self.map.iter()
            invariant
                it.seq() == self.map.iter().remaining(),
                bound == exists|j: int|
                    0 <= j < it.index() && (#[trigger] it.seq()[j]).1.status == status,
        {
            if pair.1.status == status {
                bound = true;
            }
        }
        proof {
            let walk = self.map.iter().remaining();
            let table = self.map@;
            if bound {
                let j = choose|j: int| 0 <= j < walk.len() && (#[trigger] walk[j]).1.status == status;
                let number = *walk[j].0;
                assert(table.contains_key(number) && table[number] == *walk[j].1);
                let combo = table[number].combo();
                assert(self@.dom().contains(combo) && self@[combo] == status);
            }
            if binds_status(self@, status) {
                let combo = choose|combo: KeyCombo|
                    #[trigger] self@.dom().contains(combo) && self@[combo] == status;
                let number = combo_number(combo);
                assert(table.contains_key(number));
                assert(walk.contains((&number, &table[number])));
                let j = choose|j: int| 0 <= j < walk.len() && walk[j] == (&number, &table[number]);
                assert(walk[j].1.status == status);
            }
        }
        bound
    }

    /// The bindings as a list, each combination once, in the order in which
    /// the hash map hands them out.
    pub fn to_vec(&self) -> (list: Vec<Binding>)
        ensures
            lists(list@, self@),
            self@.dom().finite(),
            list@.len() == self@.dom().len(),
    {
        proof {
            use_type_invariant(self);
            lemma_held_count(self.map@);
        }
        let mut list: Vec<Binding> = Vec::new();
        for pair in it: self.map.iter()
            invariant
                it.seq() == self.map.iter().remaining(),
                it.seq().no_duplicates(),
                list@.len() == it.index(),
                forall|i: int| 0 <= i < list@.len() ==> #[trigger] list@[i] == *it.seq()[i].1,
        {
            list.push(*pair.1);
        }
        proof {
            lemma_walk_lists(self.map@, self.map.iter().remaining(), list@);
        }
        list
    }

    /// A map with the same bindings.
    pub fn duplicate(&self) -> (copy: KeyBindings)
        ensures
            copy@ == self@,
    {
        let list = self.to_vec();
        let mut copy = KeyBindings::new();
        copy.add_all(&list);
        assert(copy@ =~= self@);
        copy
    }

    /// Binds every entry of the list in turn.
    fn add_all(&mut self, list: &Vec<Binding>)
        ensures
            final(self)@ == later_wins(old(self)@, bindings_map(list@)),
    {
        let mut i: usize = 0;
        assert(self@ =~= later_wins(old(self)@, bindings_map(list@.take(0))));
        while i < list.len()
            invariant
                i <= list@.len(),
                self@ == later_wins(old(self)@, bindings_map(list@.take(i as int))),
            decreases list@.len() - i,
        {
            let entry = list[i];
            proof {
                let head = list@.take(i as int);
                let next = list@.take(i + 1);
                assert(next.drop_last() == head);
                assert(next.last() == entry);
            }
            self.insert(entry.code, entry.modifiers, entry.status);
            i += 1;
            assert(self@ =~= later_wins(old(self)@, bindings_map(list@.take(i as int))));
        }
        assert(list@.take(list@.len() as int) == list@);
    }

    /// The bindings of the list whose status the batch does not bind.
    fn without_rebound(list: &Vec<Binding>, batch: &KeyBindings) -> (kept: KeyBindings)
        requires
            distinct_combos(list@),
        ensures
            kept@ == without_statuses(bindings_map(list@), batch@),
    {
        let mut kept = KeyBindings::new();
        let mut i: usize = 0;
        assert(kept@ =~= without_statuses(bindings_map(list@.take(0)), batch@));
        while i < list.len()
            invariant
                i <= list@.len(),
                distinct_combos(list@),
                kept@ == without_statuses(bindings_map(list@.take(i as int)), batch@),
            decreases list@.len() - i,
        {
            let entry = list[i];
            proof {
                lemma_take_step(list@, i as int);
            }
            if !batch.has_status(entry.status) {
                kept.insert(entry.code, entry.modifiers, entry.status);
            }
            i += 1;
            assert(kept@ =~= without_statuses(bindings_map(list@.take(i as int)), batch@));
        }
        assert(list@.take(list@.len() as int) == list@);
        kept
    }

    /// Merges a batch of new bindings in, exclusively by status: every
    /// binding of this map whose status the batch binds is dropped first,
    /// whatever its key; then the bindings of the batch are added.
    pub fn merge(&mut self, batch: &KeyBindings)
        ensures
            final(self)@ == merge_bindings(old(self)@, batch@),
    {
        let previous = self.to_vec();
        let added = batch.to_vec();
        let mut merged = KeyBindings::without_rebound(&previous, batch);
        merged.add_all(&added);
        assert(merged@ =~= merge_bindings(self@, batch@));
        *self = merged;
    }

    /// Moves the hash map out and leaves an empty key map behind.
    fn take_map(&mut self) -> (map: HashMap<u64, Binding>)
        ensures
            map@ == old(self).map@,
            filed(map@),
    {
        proof {
            use_type_invariant(&*self);
        }
        let mut taken = KeyBindings { map: HashMap::new() };
        core::mem::swap(self, &mut taken);
        taken.map
    }
}

/// The first `i + 1` entries of a list without repeated combinations bind
/// what the first `i` bind, and the combination of entry `i`, which is new.
proof fn lemma_take_step(entries: Seq<Binding>, i: int)
    requires
        distinct_combos(entries),
        0 <= i < entries.len(),
    ensures
        bindings_map(entries.take(i + 1)) == bindings_map(entries.take(i)).insert(
            entries[i].combo(),
            entries[i].status,
        ),
        !bindings_map(entries.take(i)).dom().contains(entries[i].combo()),
{
    let head = entries.take(i);
    let next = entries.take(i + 1);
    assert(next.drop_last() == head);
    assert(next.last() == entries[i]);
    lemma_bindings_map(head);
    if bindings_map(head).dom().contains(entries[i].combo()) {
        let j = choose|j: int| 0 <= j < head.len() && (#[trigger] head[j]).combo() == entries[i].combo();
        assert(head[j] == entries[j]);
        assert(entries[j].combo() != entries[i].combo());
    }
}

impl Clone for KeyBindings {
    fn clone(&self) -> (copy: KeyBindings)
        ensures
            copy@ == self@,
    {
        self.duplicate()
    }
}

/// After a merge, a status that the batch binds is reached through the
/// combinations that the batch gives it, and through no other: whatever
/// stood for it before is gone.
pub proof fn law_merge_rebinds_by_status(
    current: Map<KeyCombo, KeyStatus>,
    batch: Map<KeyCombo, KeyStatus>,
    status: KeyStatus,
)
    requires
        binds_status(batch, status),
    ensures
        forall|combo: KeyCombo|
            (#[trigger] merge_bindings(current, batch).dom().contains(combo) && merge_bindings(
                current,
                batch,
            )[combo] == status) <==> (batch.dom().contains(combo) && batch[combo] == status),
{
}

/// After a merge, a status that the batch binds to one combination only is
/// reached through exactly that combination.
pub proof fn law_merge_leaves_one_combo(
    current: Map<KeyCombo, KeyStatus>,
    batch: Map<KeyCombo, KeyStatus>,
    combo: KeyCombo,
    status: KeyStatus,
)
    requires
        batch.dom().contains(combo),
        batch[combo] == status,
        forall|other: KeyCombo|
            #[trigger] batch.dom().contains(other) && batch[other] == status ==> other == combo,
    ensures
        merge_bindings(current, batch).dom().contains(combo),
        merge_bindings(current, batch)[combo] == status,
        forall|other: KeyCombo|
            #[trigger] merge_bindings(current, batch).dom().contains(other) && merge_bindings(
                current,
                batch,
            )[other] == status ==> other == combo,
{
    law_merge_rebinds_by_status(current, batch, status);
}

} // verus!
