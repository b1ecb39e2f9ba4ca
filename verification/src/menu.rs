//! The four items of the tray menu and what each of them shows.

use vstd::prelude::*;
use crate::text::same_text;

verus! {

/// Identity of a line of the tray menu.
#[derive(Clone, Copy, Debug, PartialEq, Eq, Structural)]
pub enum ItemId {
    Start,
    Stop,
    History,
    Quit,
}

impl ItemId {
    /// The key under which the platform knows the item.
    pub open spec fn key(self) -> Seq<char> {
        match self {
            ItemId::Start => "start"@,
            ItemId::Stop => "stop"@,
            ItemId::History => "history"@,
            ItemId::Quit => "quit"@,
        }
    }

    /// The item that a key names, if it names one.
    pub open spec fn recognize(key: Seq<char>) -> Option<ItemId> {
        if key == "start"@ {
            Some(ItemId::Start)
        } else if key == "stop"@ {
            Some(ItemId::Stop)
        } else if key == "history"@ {
            Some(ItemId::History)
        } else if key == "quit"@ {
            Some(ItemId::Quit)
        } else {
            None
        }
    }

    /// Position of the item in the menu, counted from the top.
    pub open spec fn position(self) -> int {
        match self {
            ItemId::Start => 0,
            ItemId::Stop => 1,
            ItemId::History => 2,
            ItemId::Quit => 3,
        }
    }

    /// The key of the item as text.
    pub fn as_str(self) -> (key: &'static str)
        ensures
            key@ == self.key(),
    {
        match self {
            ItemId::Start => "start",
            ItemId::Stop => "stop",
            ItemId::History => "history",
            ItemId::Quit => "quit",
        }
    }

    /// Reads the key that the platform delivers with an activation.
    pub fn from_key(key: &str) -> (id: Option<ItemId>)
        ensures
            id == ItemId::recognize(key@),
    {
        if same_text(key, "start") {
            Some(ItemId::Start)
        } else if same_text(key, "stop") {
            Some(ItemId::Stop)
        } else if same_text(key, "history") {
            Some(ItemId::History)
        } else if same_text(key, "quit") {
            Some(ItemId::Quit)
        } else {
            None
        }
    }

    /// The four keys are pairwise distinct: each item is found again by its key.
    pub proof fn lemma_key_round_trip(self)
        ensures
            ItemId::recognize(self.key()) == Some(self),
    {
        reveal_strlit("start");
        reveal_strlit("stop");
        reveal_strlit("history");
        reveal_strlit("quit");
        assert("start"@.len() == 5);
        assert("stop"@.len() == 4);
        assert("history"@.len() == 7);
        assert("quit"@.len() == 4);
        assert("stop"@[0] == 's');
        assert("quit"@[0] == 'q');
    }

    /// A key names an item exactly if it is the item's own key.
    pub proof fn keys_name_their_items(key: Seq<char>, id: ItemId)
        ensures
            ItemId::recognize(key) == Some(id) <==> key == id.key(),
    {
        id.lemma_key_round_trip();
    }
}

/// What one line of the menu shows.
#[derive(Clone, Copy, Debug, Eq)]
pub struct MenuEntry {
    pub id: ItemId,
    pub label: &'static str,
    pub enabled: bool,
}

/// A menu entry as a mathematical value.
pub struct EntryView {
    pub id: ItemId,
    pub label: Seq<char>,
    pub enabled: bool,
}

impl View for MenuEntry {
    type V = EntryView;

    open spec fn view(&self) -> EntryView {
        EntryView { id: self.id, label: self.label@, enabled: self.enabled }
    }
}

/// The text of an item while the recording flag has the given value.
pub open spec fn label_for(id: ItemId, recording: bool) -> Seq<char> {
    match id {
        ItemId::Start => if recording {
            "🔴 Recording"@
        } else {
            "Start"@
        },
        ItemId::Stop => "Stop"@,
        ItemId::History => "History"@,
        ItemId::Quit => "Quit"@,
    }
}

/// Whether an item can be chosen while the recording flag has the given value.
pub open spec fn enabled_for(id: ItemId, recording: bool) -> bool {
    match id {
        ItemId::Start => !recording,
        ItemId::Stop => recording,
        ItemId::History => true,
        ItemId::Quit => true,
    }
}

/// The entry of an item while the recording flag has the given value.
pub open spec fn entry_for(id: ItemId, recording: bool) -> EntryView {
    EntryView { id, label: label_for(id, recording), enabled: enabled_for(id, recording) }
}

/// The menu that belongs to a value of the recording flag: start, stop,
/// history and quit, from the top.
pub open spec fn menu_for(recording: bool) -> Seq<EntryView> {
    seq![
        entry_for(ItemId::Start, recording),
        entry_for(ItemId::Stop, recording),
        entry_for(ItemId::History, recording),
        entry_for(ItemId::Quit, recording),
    ]
}

impl MenuEntry {
    /// The entry of `id` while the recording flag is `recording`.
    pub fn describe(id: ItemId, recording: bool) -> (entry: MenuEntry)
        ensures
            entry@ == entry_for(id, recording),
    {
        match id {
            ItemId::Start => MenuEntry {
                id,
                label: if recording {
                    "🔴 Recording"
                } else {
                    "Start"
                },
                enabled: !recording,
            },
            ItemId::Stop => MenuEntry { id, label: "Stop", enabled: recording },
            ItemId::History => MenuEntry { id, label: "History", enabled: true },
            ItemId::Quit => MenuEntry { id, label: "Quit", enabled: true },
        }
    }
}

/// Entries are equal if they show the same: same item, same text, same
/// enablement.
impl PartialEq for MenuEntry {
    fn eq(&self, other: &Self) -> (same: bool) {
        self.id == other.id && self.enabled == other.enabled && same_text(self.label, other.label)
    }
}

impl vstd::std_specs::cmp::PartialEqSpecImpl for MenuEntry {
    open spec fn obeys_eq_spec() -> bool {
        true
    }

    open spec fn eq_spec(&self, other: &Self) -> bool {
        self@ == other@
    }
}

/// The whole tray menu: four entries in fixed order. A description is a
/// value; a change of state gives a new one.
#[derive(Clone, Copy, Debug, Eq)]
pub struct MenuDescription {
    items: [MenuEntry; 4],
}

impl View for MenuDescription {
    type V = Seq<EntryView>;

    closed spec fn view(&self) -> Seq<EntryView> {
        views_of(self.items)
    }
}

spec fn views_of(items: [MenuEntry; 4]) -> Seq<EntryView> {
    Seq::new(4, |i: int| items[i]@)
}

impl MenuDescription {
    /// Every description is the menu of one of the two values that the
    /// recording flag takes.
    #[verifier::type_invariant]
    spec fn of_some_state(&self) -> bool {
        self@ == menu_for(true) || self@ == menu_for(false)
    }

    /// Builds the menu for a value of the recording flag.
    pub fn build(recording: bool) -> (menu: MenuDescription)
        ensures
            menu@ == menu_for(recording),
    {
        let items = [
            MenuEntry::describe(ItemId::Start, recording),
            MenuEntry::describe(ItemId::Stop, recording),
            MenuEntry::describe(ItemId::History, recording),
            MenuEntry::describe(ItemId::Quit, recording),
        ];
        assert(views_of(items) =~= menu_for(recording));
        MenuDescription { items }
    }

    /// The entries from the top.
    pub fn items(&self) -> (items: &[MenuEntry; 4])
        ensures
            items@.map_values(|e: MenuEntry| e@) == self@,
            self@ == menu_for(true) || self@ == menu_for(false),
    {
        proof {
            use_type_invariant(self);
            assert(self.items@.map_values(|e: MenuEntry| e@) =~= self@);
        }
        &self.items
    }

    /// The entry of one item.
    pub fn entry(&self, id: ItemId) -> (entry: MenuEntry)
        ensures
            entry@ == self@[id.position()],
            entry.id == id,
    {
        proof {
            use_type_invariant(self);
        }
        match id {
            ItemId::Start => self.items[0],
            ItemId::Stop => self.items[1],
            ItemId::History => self.items[2],
            ItemId::Quit => self.items[3],
        }
    }
}

/// Descriptions are equal if they hold equal entries in the same order.
impl PartialEq for MenuDescription {
    fn eq(&self, other: &Self) -> (same: bool) {
        let same = self.items[0] == other.items[0] && self.items[1] == other.items[1]
            && self.items[2] == other.items[2] && self.items[3] == other.items[3];
        proof {
            if same {
                assert(self@ =~= other@);
            } else {
                assert(self@[0] == self.items[0]@);
                assert(self@[1] == self.items[1]@);
                assert(self@[2] == self.items[2]@);
                assert(self@[3] == self.items[3]@);
                assert(other@[0] == other.items[0]@);
                assert(other@[1] == other.items[1]@);
                assert(other@[2] == other.items[2]@);
                assert(other@[3] == other.items[3]@);
            }
        }
        same
    }
}

impl vstd::std_specs::cmp::PartialEqSpecImpl for MenuDescription {
    open spec fn obeys_eq_spec() -> bool {
        true
    }

    open spec fn eq_spec(&self, other: &Self) -> bool {
        self@ == other@
    }
}

} // verus!
