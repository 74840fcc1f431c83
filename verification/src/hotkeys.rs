//! Global shortcuts: the shortcuts the recorder offers and whether each is
//! registered with the system.

use vstd::prelude::*;
use std::collections::HashMap;
use vstd::std_specs::iter::IteratorSpec;
use crate::encoder::{push_text, texts};

verus! {

broadcast use vstd::std_specs::hash::group_hash_axioms;

/// One global shortcut.
#[derive(Debug, Clone)]
pub struct HotkeyDefinition {
    pub id: i32,
    pub name: String,
    pub action: String,
    pub key: String,
    pub modifiers: Vec<String>,
    pub registered: bool,
}

/// `h` is the shortcut with these fields.
pub open spec fn hotkey_is(
    h: HotkeyDefinition,
    id: i32,
    name: Seq<char>,
    action: Seq<char>,
    key: Seq<char>,
    modifiers: Seq<Seq<char>>,
    registered: bool,
) -> bool {
    &&& h.id == id
    &&& h.name@ == name
    &&& h.action@ == action
    &&& h.key@ == key
    &&& texts(h.modifiers@) == modifiers
    &&& h.registered == registered
}

/// `a` and `b` are the same shortcut, registered or not.
pub open spec fn same_shortcut(a: HotkeyDefinition, b: HotkeyDefinition) -> bool {
    &&& a.id == b.id
    &&& a.name@ == b.name@
    &&& a.action@ == b.action@
    &&& a.key@ == b.key@
    &&& texts(a.modifiers@) == texts(b.modifiers@)
}

/// `a` is a copy of `b`: the same shortcut, registered alike.
pub open spec fn same_copy(a: HotkeyDefinition, b: HotkeyDefinition) -> bool {
    same_shortcut(a, b) && a.registered == b.registered
}

/// Every shortcut of `m` is filed under its own id.
pub open spec fn keyed_by_id(m: Map<i32, HotkeyDefinition>) -> bool {
    forall|k: i32| m.dom().contains(k) ==> (#[trigger] m[k]).id == k
}

/// `after` holds the shortcuts of `before` under the same ids, all with the
/// given registration.
pub open spec fn all_marked(
    before: Map<i32, HotkeyDefinition>,
    after: Map<i32, HotkeyDefinition>,
    registered: bool,
) -> bool {
    &&& after.dom() == before.dom()
    &&& forall|k: i32| #[trigger] after.dom().contains(k) ==> same_shortcut(after[k], before[k])
        && after[k].registered == registered
}

/// `x` is a copy of some shortcut of `m`.
pub open spec fn copied_from(x: HotkeyDefinition, m: Map<i32, HotkeyDefinition>) -> bool {
    exists|k: i32| #[trigger] m.dom().contains(k) && same_copy(x, m[k])
}

/// Some element of `v` is a copy of `x`.
pub open spec fn copied_into(v: Seq<HotkeyDefinition>, x: HotkeyDefinition) -> bool {
    exists|i: int| 0 <= i < v.len() && same_copy(#[trigger] v[i], x)
}

/// `v` holds a copy of each shortcut of `m`, as many as `m` has, in some order.
pub open spec fn copies_of(v: Seq<HotkeyDefinition>, m: Map<i32, HotkeyDefinition>) -> bool {
    &&& v.len() == m.dom().len()
    &&& forall|i: int| 0 <= i < v.len() ==> #[trigger] copied_from(v[i], m)
    &&& forall|k: i32| #[trigger] m.dom().contains(k) ==> copied_into(v, m[k])
}

fn definition(id: i32, name: &str, action: &str, key: &str, modifiers: Vec<String>) -> (h: HotkeyDefinition)
    ensures
        hotkey_is(h, id, name@, action@, key@, texts(modifiers@), false),
{
    HotkeyDefinition {
        id,
        name: String::from_str(name),
        action: String::from_str(action),
        key: String::from_str(key),
        modifiers,
        registered: false,
    }
}

impl HotkeyDefinition {
    /// A field-by-field copy.
    pub fn duplicate(&self) -> (r: HotkeyDefinition)
        ensures
            same_shortcut(r, *self),
            r.registered == self.registered,
    {
        let mut modifiers: Vec<String> = Vec::new();
        let mut i: usize = 0;
        while i < self.modifiers.len()
            invariant
                i <= self.modifiers.len(),
                texts(modifiers@) == texts(self.modifiers@).take(i as int),
            decreases self.modifiers.len() - i,
        {
            let m: String = self.modifiers[i].clone();
            assert(m@ == texts(self.modifiers@)[i as int]);
            push_text(&mut modifiers, m);
            i = i + 1;
            assert(texts(modifiers@) =~= texts(self.modifiers@).take(i as int));
        }
        assert(texts(self.modifiers@).take(self.modifiers.len() as int) =~= texts(self.modifiers@));
        HotkeyDefinition {
            id: self.id,
            name: self.name.clone(),
            action: self.action.clone(),
            key: self.key.clone(),
            modifiers,
            registered: self.registered,
        }
    }
}

/// The global shortcuts of the recorder, filed by id.
pub struct HotkeyManager {
    hotkeys: HashMap<i32, HotkeyDefinition>,
}

impl View for HotkeyManager {
    type V = Map<i32, HotkeyDefinition>;

    closed spec fn view(&self) -> Map<i32, HotkeyDefinition> {
        self.hotkeys@
    }
}

impl HotkeyManager {
    /// The six shortcuts, none registered, each filed under its id: F9
    /// toggles recording, F11 streaming, F10 saves a replay, F12 takes a
    /// screenshot, Ctrl+Shift+M mutes the microphone and F8 pauses or
    /// resumes recording.
    pub fn new() -> (m: Self)
        ensures
            m@.dom() == set![1i32, 2i32, 3i32, 4i32, 5i32, 6i32],
            keyed_by_id(m@),
            hotkey_is(m@[1], 1, "Toggle Recording"@, "record_toggle"@, "F9"@, Seq::empty(), false),
            hotkey_is(m@[2], 2, "Toggle Streaming"@, "stream_toggle"@, "F11"@, Seq::empty(), false),
            hotkey_is(m@[3], 3, "Save Instant Replay"@, "replay_save"@, "F10"@, Seq::empty(), false),
            hotkey_is(m@[4], 4, "Take Screenshot"@, "screenshot"@, "F12"@, Seq::empty(), false),
            hotkey_is(m@[5], 5, "Mute Microphone"@, "mic_mute_toggle"@, "M"@, seq!["Ctrl"@, "Shift"@], false),
            hotkey_is(m@[6], 6, "Pause / Resume Recording"@, "pause_toggle"@, "F8"@, Seq::empty(), false),
    {
        let mut hotkeys: HashMap<i32, HotkeyDefinition> = HashMap::new();
        let none1: Vec<String> = Vec::new();
        assert(texts(none1@) =~= Seq::<Seq<char>>::empty());
        hotkeys.insert(1, definition(1, "Toggle Recording", "record_toggle", "F9", none1));
        let none2: Vec<String> = Vec::new();
        assert(texts(none2@) =~= Seq::<Seq<char>>::empty());
        hotkeys.insert(2, definition(2, "Toggle Streaming", "stream_toggle", "F11", none2));
        let none3: Vec<String> = Vec::new();
        assert(texts(none3@) =~= Seq::<Seq<char>>::empty());
        hotkeys.insert(3, definition(3, "Save Instant Replay", "replay_save", "F10", none3));
        let none4: Vec<String> = Vec::new();
        assert(texts(none4@) =~= Seq::<Seq<char>>::empty());
        hotkeys.insert(4, definition(4, "Take Screenshot", "screenshot", "F12", none4));
        let mut mute: Vec<String> = Vec::new();
        mute.push(String::from_str("Ctrl"));
        mute.push(String::from_str("Shift"));
        assert(texts(mute@) =~= seq!["Ctrl"@, "Shift"@]);
        hotkeys.insert(5, definition(5, "Mute Microphone", "mic_mute_toggle", "M", mute));
        let none6: Vec<String> = Vec::new();
        assert(texts(none6@) =~= Seq::<Seq<char>>::empty());
        hotkeys.insert(6, definition(6, "Pause / Resume Recording", "pause_toggle", "F8", none6));
        assert(hotkeys@.dom() =~= set![1i32, 2i32, 3i32, 4i32, 5i32, 6i32]);
        HotkeyManager { hotkeys }
    }

    /// Copies of all shortcuts, each once, in the map's order.
    pub fn get_hotkeys(&self) -> (v: Vec<HotkeyDefinition>)
        ensures
            copies_of(v@, self@),
    {
        let values = self.hotkeys.values();
        let ghost held: Seq<HotkeyDefinition> = IteratorSpec::remaining(&values).unref();
        assert(held.to_set() == self.hotkeys@.values());
        let mut v: Vec<HotkeyDefinition> = Vec::new();
        for h in it: values
            invariant
                it.seq().unref() == held,
                v@.len() == it.index(),
                forall|j: int| 0 <= j < it.index() ==> #[trigger] same_copy(v@[j], held[j]),
        {
            v.push(h.duplicate());
        }
        let ghost m = self.hotkeys@;
        assert(held.len() == m.dom().len());
        assert(v@.len() == held.len());
        assert forall|i: int| 0 <= i < v@.len() implies #[trigger] copied_from(v@[i], m) by {
            assert(same_copy(v@[i], held[i]));
            assert(held.to_set().contains(held[i]));
            assert(m.values().contains(held[i]));
            let k = choose|k: i32| m.dom().contains(k) && m[k] == held[i];
            assert(m.dom().contains(k) && same_copy(v@[i], m[k]));
        }
        assert forall|k: i32| #[trigger] m.dom().contains(k) implies copied_into(v@, m[k]) by {
            assert(m.values().contains(m[k]));
            assert(held.to_set().contains(m[k]));
            let i = choose|i: int| 0 <= i < held.len() && held[i] == m[k];
            assert(same_copy(v@[i], held[i]));
        }
        v
    }

    /// The ids under which shortcuts are filed.
    fn ids(&self) -> (ks: Vec<i32>)
        ensures
            ks@.to_set() == self@.dom(),
    {
        let keys = self.hotkeys.keys();
        let ghost held: Seq<i32> = IteratorSpec::remaining(&keys).unref();
        assert(held.to_set() == self.hotkeys@.dom());
        let mut ks: Vec<i32> = Vec::new();
        for k in it: keys
            invariant
                it.seq().unref() == held,
                ks@ == held.take(it.index()),
        {
            ks.push(*k);
        }
        assert(ks@ =~= held);
        ks
    }

    fn mark_all(&mut self, registered: bool)
        ensures
            all_marked(old(self)@, final(self)@, registered),
    {
        let ids = self.ids();
        let mut i: usize = 0;
        while i < ids.len()
            invariant
                i <= ids.len(),
                ids@.to_set() == old(self)@.dom(),
                self@.dom() == old(self)@.dom(),
                forall|k: i32| #[trigger] self@.dom().contains(k) ==> same_shortcut(self@[k], old(self)@[k]),
                forall|j: int| 0 <= j < i ==> (#[trigger] self@[ids@[j]]).registered == registered,
            decreases ids.len() - i,
        {
            let k = ids[i];
            assert(ids@.to_set().contains(k));
            let copy = match self.hotkeys.get(&k) {
                Some(h) => {
                    let mut d = h.duplicate();
                    d.registered = registered;
                    Some(d)
                },
                None => None,
            };
            match copy {
                Some(d) => {
                    self.hotkeys.insert(k, d);
                },
                None => {},
            }
            assert(self@.dom() =~= old(self)@.dom());
            i = i + 1;
        }
        assert forall|k: i32| #[trigger] self@.dom().contains(k) implies same_shortcut(self@[k], old(self)@[k])
            && self@[k].registered == registered by {
            assert(ids@.to_set().contains(k));
            let j = choose|j: int| 0 <= j < ids@.len() && ids@[j] == k;
            assert(self@[ids@[j]].registered == registered);
        }
    }

    /// Registers every shortcut.
    pub fn register_all(&mut self) -> (r: Result<(), String>)
        ensures
            r is Ok,
            all_marked(old(self)@, final(self)@, true),
    {
        self.mark_all(true);
        Ok(())
    }

    /// Unregisters every shortcut.
    pub fn unregister_all(&mut self)
        ensures
            all_marked(old(self)@, final(self)@, false),
    {
        self.mark_all(false);
    }
}

/// Law of the shortcuts: registering and then unregistering them all
/// leaves the same shortcuts under the same ids, none registered.
pub proof fn law_register_unregister(
    before: Map<i32, HotkeyDefinition>,
    registered: Map<i32, HotkeyDefinition>,
    after: Map<i32, HotkeyDefinition>,
)
    requires
        all_marked(before, registered, true),
        all_marked(registered, after, false),
    ensures
        all_marked(before, after, false),
{
    assert forall|k: i32| #[trigger] after.dom().contains(k) implies same_shortcut(after[k], before[k])
        && after[k].registered == false by {
        assert(registered.dom().contains(k));
    }
}

} // verus!
