//! The two deployment slots and the durable record of which one is live.

use vstd::prelude::*;
use vstd::string::*;

verus! {

/// One of the two parallel deployment targets.
#[derive(Debug, Clone, Copy, PartialEq, Eq, Structural)]
pub enum Slot {
    Primary,
    Secondary,
}

impl Slot {
    /// The alternate slot, as a specification.
    pub open spec fn spec_other(self) -> Slot {
        match self {
            Slot::Primary => Slot::Secondary,
            Slot::Secondary => Slot::Primary,
        }
    }

    /// The name under which a slot appears in project identities and in the
    /// persisted record.
    pub open spec fn name(self) -> Seq<char> {
        match self {
            Slot::Primary => "primary"@,
            Slot::Secondary => "secondary"@,
        }
    }

    /// The alternate slot.
    pub fn other(self) -> (r: Slot)
        ensures
            r == self.spec_other(),
    {
        match self {
            Slot::Primary => Slot::Secondary,
            Slot::Secondary => Slot::Primary,
        }
    }

    /// The slot's name as text.
    pub fn as_str(self) -> (s: &'static str)
        ensures
            s@ == self.name(),
    {
        match self {
            Slot::Primary => "primary",
            Slot::Secondary => "secondary",
        }
    }
}

impl Default for Slot {
    fn default() -> (r: Slot)
        ensures
            r == Slot::Primary,
    {
        Slot::Primary
    }
}

/// What is kept on disk between runs: the slot that receives live traffic.
#[derive(Debug, Clone, Copy)]
pub struct PersistedState {
    pub active_slot: Slot,
}

impl Default for PersistedState {
    fn default() -> (r: PersistedState)
        ensures
            r.active_slot == Slot::Primary,
    {
        PersistedState { active_slot: Slot::Primary }
    }
}

/// Name of the record's file inside the application's working directory.
pub const STATE_FILE: &'static str = ".rollploy-state.json";

/// The text of the record that names `slot` as live.
pub open spec fn record_text(slot: Slot) -> Seq<char> {
    "{\n  \"active_slot\": \""@ + slot.name() + "\"\n}"@
}

/// The slot that a record's text names: only the exact text of a record
/// names one.
pub open spec fn decode(text: Seq<char>) -> Option<Slot> {
    if text == record_text(Slot::Primary) {
        Some(Slot::Primary)
    } else if text == record_text(Slot::Secondary) {
        Some(Slot::Secondary)
    } else {
        None
    }
}

/// The state that a store holds: what its record names, and the primary slot
/// where the record is absent (`None`) or names no slot.
pub open spec fn loaded(content: Option<Seq<char>>) -> Slot {
    match content {
        Some(text) => match decode(text) {
            Some(slot) => slot,
            None => Slot::Primary,
        },
        None => Slot::Primary,
    }
}

/// The record's text for `state`, to be written to the store in one piece.
pub fn save(state: &PersistedState) -> (text: String)
    ensures
        text@ == record_text(state.active_slot),
{
    let mut text = String::from_str("{\n  \"active_slot\": \"");
    text.append(state.active_slot.as_str());
    text.append("\"\n}");
    text
}

/// The state held by a store whose file reads `content`; `None` stands for a
/// file that is absent or cannot be read.
pub fn load(content: Option<&str>) -> (state: PersistedState)
    ensures
        state.active_slot == loaded(
            match content {
                Some(text) => Some(text@),
                None => None,
            },
        ),
{
    match content {
        None => PersistedState::default(),
        Some(text) => {
            let found = String::from_str(text);
            let secondary = save(&PersistedState { active_slot: Slot::Secondary });
            let primary = save(&PersistedState { active_slot: Slot::Primary });
            if found == primary {
                PersistedState { active_slot: Slot::Primary }
            } else if found == secondary {
                PersistedState { active_slot: Slot::Secondary }
            } else {
                PersistedState::default()
            }
        },
    }
}

/// Alternating twice comes back to the same slot, and never stays on it.
pub proof fn lemma_other_alternates(slot: Slot)
    ensures
        slot.spec_other() != slot,
        slot.spec_other().spec_other() == slot,
{
}

/// The two slots have different names.
pub proof fn lemma_names_differ()
    ensures
        Slot::Primary.name() != Slot::Secondary.name(),
        Slot::Primary.name().len() == 7,
        Slot::Secondary.name().len() == 9,
{
    reveal_strlit("primary");
    reveal_strlit("secondary");
    assert("primary"@.len() != "secondary"@.len());
}

/// A record read back names the slot that was saved.
pub proof fn lemma_record_round_trip(slot: Slot)
    ensures
        decode(record_text(slot)) == Some(slot),
        loaded(Some(record_text(slot))) == slot,
{
    lemma_names_differ();
    assert(record_text(Slot::Primary).len() != record_text(Slot::Secondary).len());
}

/// A record cut short at any point names no slot, so a store left with a torn
/// write reads as absent.
pub proof fn lemma_torn_record_is_absent(slot: Slot, kept: int)
    requires
        0 <= kept < record_text(slot).len(),
    ensures
        decode(record_text(slot).subrange(0, kept)) is None,
        loaded(Some(record_text(slot).subrange(0, kept))) == Slot::Primary,
{
    lemma_names_differ();
    reveal_strlit("primary");
    reveal_strlit("secondary");
    reveal_strlit("{\n  \"active_slot\": \"");
    reveal_strlit("\"\n}");
    let torn = record_text(slot).subrange(0, kept);
    assert(record_text(Slot::Primary).len() == 30);
    assert(record_text(Slot::Secondary).len() == 32);
    if torn == record_text(Slot::Primary) {
        assert(slot == Slot::Secondary);
        assert(torn[20] == record_text(Slot::Secondary)[20]);
        assert(record_text(Slot::Secondary)[20] == 's');
        assert(record_text(Slot::Primary)[20] == 'p');
    }
}

} // verus!
