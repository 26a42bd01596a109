//! The proximity interaction detector.
//!
//! The physics side answers a radius query around the player; what it found
//! arrives here as plain records, one per overlapping entity, with the tags
//! that the entity carries. The detector decides whether the query runs at
//! all, which entities count, and which events the interact key raises.

use vstd::prelude::*;
use crate::state::{GameModel, GameState};

verus! {

/// An interaction with a target entity, by kind.
#[derive(Clone, Copy, Debug, PartialEq, Eq, Structural)]
pub enum InteractType {
    Dialog(u64),
    Door(u64),
    Item(u64),
}

/// One entity that the radius query found, with its tags.
#[derive(Clone, Copy, Debug, PartialEq, Eq, Structural)]
pub struct Overlap {
    pub entity: u64,
    pub interactable: bool,
    pub dialog: bool,
    pub door: bool,
    pub item: bool,
}

/// What one pass of the detector found.
#[derive(Debug)]
pub struct Detection {
    /// The interactable entities in reach, in the order of the query.
    pub nearby: Vec<u64>,
    /// The events raised by the interact key.
    pub events: Vec<InteractType>,
}

/// The detector works only for a grounded player, outside pause and dialog.
pub open spec fn detector_open(m: GameModel, grounded: bool) -> bool {
    grounded && !m.paused && m.dialog is None
}

/// An overlapping entity counts when it is tagged interactable and is not
/// the player.
pub open spec fn qualifies(o: Overlap, player: u64) -> bool {
    o.entity != player && o.interactable
}

/// The events that one entity raises: one per trigger tag it carries, in
/// the order dialog, door, item.
pub open spec fn triggered(o: Overlap) -> Seq<InteractType> {
    (if o.dialog {
        seq![InteractType::Dialog(o.entity)]
    } else {
        seq![]
    }) + (if o.door {
        seq![InteractType::Door(o.entity)]
    } else {
        seq![]
    }) + (if o.item {
        seq![InteractType::Item(o.entity)]
    } else {
        seq![]
    })
}

/// The qualifying entities among `overlaps`, in order.
pub open spec fn discovered(overlaps: Seq<Overlap>, player: u64) -> Seq<u64>
    decreases overlaps.len(),
{
    if overlaps.len() == 0 {
        seq![]
    } else {
        let rest = discovered(overlaps.drop_last(), player);
        if qualifies(overlaps.last(), player) {
            rest.push(overlaps.last().entity)
        } else {
            rest
        }
    }
}

/// The events of all qualifying entities among `overlaps`, in order.
pub open spec fn activated(overlaps: Seq<Overlap>, player: u64) -> Seq<InteractType>
    decreases overlaps.len(),
{
    if overlaps.len() == 0 {
        seq![]
    } else {
        let rest = activated(overlaps.drop_last(), player);
        if qualifies(overlaps.last(), player) {
            rest + triggered(overlaps.last())
        } else {
            rest
        }
    }
}

/// The entities that one pass reports as nearby: the qualifying ones while
/// the detector is open, none while it is closed.
pub open spec fn reported(m: GameModel, grounded: bool, overlaps: Seq<Overlap>, player: u64) -> Seq<
    u64,
> {
    if detector_open(m, grounded) {
        discovered(overlaps, player)
    } else {
        seq![]
    }
}

/// The events that one pass raises: those of the qualifying entities on the
/// rising edge of the interact key while the detector is open, none
/// otherwise.
pub open spec fn raised(
    m: GameModel,
    grounded: bool,
    overlaps: Seq<Overlap>,
    player: u64,
    interact_just_pressed: bool,
) -> Seq<InteractType> {
    if detector_open(m, grounded) && interact_just_pressed {
        activated(overlaps, player)
    } else {
        seq![]
    }
}

/// Whether the detector runs its query this tick.
pub fn interaction_enabled(state: &GameState, grounded: bool) -> (enabled: bool)
    ensures
        enabled == detector_open(state@, grounded),
{
    grounded && !state.paused() && !state.in_dialog()
}

/// Appends the events of one entity.
fn push_triggered(events: &mut Vec<InteractType>, o: &Overlap)
    ensures
        final(events)@ == old(events)@ + triggered(*o),
{
    if o.dialog {
        events.push(InteractType::Dialog(o.entity));
    }
    if o.door {
        events.push(InteractType::Door(o.entity));
    }
    if o.item {
        events.push(InteractType::Item(o.entity));
    }
}

/// One pass of the detector over what the radius query returned.
///
/// While the detector is closed nothing is found and nothing is raised.
/// While it is open every qualifying entity is reported as nearby, and the
/// rising edge of the interact key raises the events of each of them.
pub fn handle_interaction(
    state: &GameState,
    grounded: bool,
    player: u64,
    overlaps: &Vec<Overlap>,
    interact_just_pressed: bool,
) -> (found: Detection)
    ensures
        found.nearby@ == reported(state@, grounded, overlaps@, player),
        found.events@ == raised(state@, grounded, overlaps@, player, interact_just_pressed),
{
    let mut nearby: Vec<u64> = Vec::new();
    let mut events: Vec<InteractType> = Vec::new();
    if !interaction_enabled(state, grounded) {
        return Detection { nearby, events };
    }
    let mut i: usize = 0;
    while i < overlaps.len()
        invariant
            i <= overlaps@.len(),
            nearby@ == discovered(overlaps@.take(i as int), player),
            events@ == if interact_just_pressed {
                activated(overlaps@.take(i as int), player)
            } else {
                seq![]
            },
        decreases overlaps@.len() - i,
    {
        let o = &overlaps[i];
        proof {
            assert(overlaps@.take(i + 1).drop_last() == overlaps@.take(i as int));
            assert(overlaps@.take(i + 1).last() == *o);
        }
        if o.entity != player && o.interactable {
            nearby.push(o.entity);
            if interact_just_pressed {
                push_triggered(&mut events, o);
            }
        }
        i += 1;
    }
    assert(overlaps@.take(i as int) == overlaps@);
    Detection { nearby, events }
}

/// While the game is paused, a dialog is active or the player is in the air,
/// no event is raised and nothing is reported, whatever the query returned
/// and whether or not the interact key was pressed.
pub proof fn lemma_closed_detector_is_silent(
    m: GameModel,
    grounded: bool,
    overlaps: Seq<Overlap>,
    player: u64,
    interact_just_pressed: bool,
)
    requires
        m.paused || m.dialog is Some || !grounded,
    ensures
        raised(m, grounded, overlaps, player, interact_just_pressed) == Seq::<InteractType>::empty(),
        reported(m, grounded, overlaps, player) == Seq::<u64>::empty(),
{
}

/// Without a fresh press of the interact key entities are found but no
/// event is raised.
pub proof fn lemma_no_press_no_event(
    m: GameModel,
    grounded: bool,
    overlaps: Seq<Overlap>,
    player: u64,
)
    ensures
        raised(m, grounded, overlaps, player, false) == Seq::<InteractType>::empty(),
{
}

/// Every event targets an entity that was reported as nearby, and so never
/// the player and never an entity without the interactable tag.
pub proof fn lemma_events_target_nearby(overlaps: Seq<Overlap>, player: u64, k: int)
    requires
        0 <= k < activated(overlaps, player).len(),
    ensures
        discovered(overlaps, player).contains(target(activated(overlaps, player)[k])),
        target(activated(overlaps, player)[k]) != player,
    decreases overlaps.len(),
{
    let rest = activated(overlaps.drop_last(), player);
    let near = discovered(overlaps.drop_last(), player);
    if k < rest.len() {
        lemma_events_target_nearby(overlaps.drop_last(), player, k);
        let t = target(rest[k]);
        let j = choose|j: int| 0 <= j < near.len() && near[j] == t;
        assert(discovered(overlaps, player)[j] == t);
    } else {
        let last = overlaps.last();
        assert(qualifies(last, player));
        assert(target(triggered(last)[k - rest.len()]) == last.entity);
        assert(discovered(overlaps, player).last() == last.entity);
    }
}

/// The entity that an event is about.
pub open spec fn target(e: InteractType) -> u64 {
    match e {
        InteractType::Dialog(id) => id,
        InteractType::Door(id) => id,
        InteractType::Item(id) => id,
    }
}

impl InteractType {
    /// The entity that the event is about.
    pub fn entity(&self) -> (id: u64)
        ensures
            id == target(*self),
    {
        match self {
            InteractType::Dialog(id) => *id,
            InteractType::Door(id) => *id,
            InteractType::Item(id) => *id,
        }
    }
}

} // verus!
