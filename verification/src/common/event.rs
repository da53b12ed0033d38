//! Events.
use crate::common::{views, ContractAddress, EventData, EventKey};
use vstd::prelude::*;

verus! {

/// What an event says.
#[verifier::ext_equal]
pub struct EventView {
    pub data: Seq<nat>,
    pub from_address: nat,
    pub keys: Seq<nat>,
}

/// An event that a contract emitted.
#[derive(Clone, Debug, PartialEq, Eq)]
pub struct Event {
    pub data: Vec<EventData>,
    pub from_address: ContractAddress,
    pub keys: Vec<EventKey>,
}

impl View for Event {
    type V = EventView;

    open spec fn view(&self) -> EventView {
        EventView { data: views(self.data@), from_address: self.from_address@, keys: views(self.keys@) }
    }
}

/// What [`Event`] says is what each of its parts says.
pub proof fn lemma_parts_of_event(value: Event)
    ensures
        value@.data == views(value.data@),
        value@.from_address == value.from_address@,
        value@.keys == views(value.keys@),
{
}

} // verus!
