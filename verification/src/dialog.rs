//! Dialog payloads, the events that carry them, and the step that turns a
//! dialog interaction into a payload once its text has been loaded.

use vstd::prelude::*;
use crate::interact::InteractType;

verus! {

/// The text of one dialog: its lines, in the order in which they are shown.
#[derive(Debug)]
pub struct DialogAsset {
    pub lines: Vec<String>,
}

impl View for DialogAsset {
    type V = Seq<Seq<char>>;

    /// The lines as sequences of characters.
    open spec fn view(&self) -> Seq<Seq<char>> {
        self.lines.deep_view()
    }
}

impl Clone for DialogAsset {
    /// An independent copy with the same lines.
    fn clone(&self) -> (copy: Self)
        ensures
            copy@ == self@,
    {
        let copy = DialogAsset { lines: self.lines.clone() };
        assert(copy.lines@ =~= self.lines@);
        copy
    }
}

/// A resolved dialog payload on its way to the session.
#[derive(Debug)]
pub enum DialogEvent {
    DialogData(DialogAsset),
}

impl DialogEvent {
    /// The lines that the event carries.
    pub open spec fn lines(self) -> Seq<Seq<char>> {
        match self {
            DialogEvent::DialogData(asset) => asset@,
        }
    }
}

/// The payloads of a queue of events, in order.
pub open spec fn payloads(events: Seq<DialogEvent>) -> Seq<Seq<Seq<char>>> {
    events.map_values(|e: DialogEvent| e.lines())
}

/// An entity that a dialog is bound to, with the text of that dialog once
/// it has been loaded.
#[derive(Debug)]
pub struct DialogSource {
    pub entity: u64,
    pub asset: Option<DialogAsset>,
}

/// The loaded text bound to `entity`: that of the first source that names
/// the entity, if there is one and its text is there.
pub open spec fn resolve(sources: Seq<DialogSource>, entity: u64) -> Option<Seq<Seq<char>>>
    decreases sources.len(),
{
    if sources.len() == 0 {
        None
    } else if sources.first().entity == entity {
        match sources.first().asset {
            Some(asset) => Some(asset@),
            None => None,
        }
    } else {
        resolve(sources.drop_first(), entity)
    }
}

/// The payloads that a queue of interactions resolves to, in order: one for
/// each dialog interaction whose target has loaded text, none for the others.
pub open spec fn fetched(events: Seq<InteractType>, sources: Seq<DialogSource>) -> Seq<
    Seq<Seq<char>>,
>
    decreases events.len(),
{
    if events.len() == 0 {
        seq![]
    } else {
        let rest = fetched(events.drop_last(), sources);
        match events.last() {
            InteractType::Dialog(entity) => match resolve(sources, entity) {
                Some(lines) => rest.push(lines),
                None => rest,
            },
            _ => rest,
        }
    }
}

/// Looks up the loaded text bound to `entity`.
pub fn resolve_dialog(sources: &Vec<DialogSource>, entity: u64) -> (found: Option<&DialogAsset>)
    ensures
        match found {
            Some(asset) => resolve(sources@, entity) == Some(asset@),
            None => resolve(sources@, entity) is None,
        },
{
    let mut i: usize = 0;
    assert(sources@.skip(0) == sources@);
    while i < sources.len()
        invariant
            i <= sources@.len(),
            resolve(sources@, entity) == resolve(sources@.skip(i as int), entity),
        decreases sources@.len() - i,
    {
        if sources[i].entity == entity {
            assert(sources@.skip(i as int).first() == sources@[i as int]);
            return sources[i].asset.as_ref();
        }
        assert(sources@.skip(i as int).drop_first() == sources@.skip(i + 1));
        i += 1;
    }
    None
}

/// Turns the dialog interactions of one tick into payload events. An
/// interaction whose text is not loaded yet raises nothing; it takes effect
/// when it is seen again after loading.
pub fn fetch_dialog_data(events: &Vec<InteractType>, sources: &Vec<DialogSource>) -> (out: Vec<
    DialogEvent,
>)
    ensures
        payloads(out@) == fetched(events@, sources@),
        out@.len() == fetched(events@, sources@).len(),
{
    let mut out: Vec<DialogEvent> = Vec::new();
    let mut i: usize = 0;
    while i < events.len()
        invariant
            i <= events@.len(),
            payloads(out@) == fetched(events@.take(i as int), sources@),
        decreases events@.len() - i,
    {
        proof {
            assert(events@.take(i + 1).drop_last() == events@.take(i as int));
            assert(events@.take(i + 1).last() == events@[i as int]);
        }
        if let InteractType::Dialog(entity) = events[i] {
            if let Some(asset) = resolve_dialog(sources, entity) {
                let ghost before = out@;
                out.push(DialogEvent::DialogData(asset.clone()));
                assert(payloads(out@) == payloads(before).push(asset@));
            }
        }
        i += 1;
    }
    assert(events@.take(i as int) == events@);
    out
}

/// Whether `source` has its text loaded and that text is `lines`.
pub open spec fn holds(source: DialogSource, lines: Seq<Seq<char>>) -> bool {
    source.asset matches Some(asset) && asset@ == lines
}

/// What an entity resolves to is the loaded text of a source bound to it.
pub proof fn lemma_resolved_is_loaded(sources: Seq<DialogSource>, entity: u64)
    requires
        resolve(sources, entity) is Some,
    ensures
        exists|j: int|
            0 <= j < sources.len() && sources[j].entity == entity && #[trigger] holds(
                sources[j],
                resolve(sources, entity)->Some_0,
            ),
    decreases sources.len(),
{
    let lines = resolve(sources, entity)->Some_0;
    if sources.first().entity == entity {
        assert(holds(sources[0], lines));
    } else {
        let tail = sources.drop_first();
        lemma_resolved_is_loaded(tail, entity);
        let j = choose|j: int|
            0 <= j < tail.len() && tail[j].entity == entity && #[trigger] holds(tail[j], lines);
        assert(holds(sources[j + 1], lines));
    }
}

/// Every fetched payload is the loaded text of one of the sources: nothing
/// is made up, and text that is still loading is never passed on.
pub proof fn lemma_fetched_payloads_are_loaded(
    events: Seq<InteractType>,
    sources: Seq<DialogSource>,
    k: int,
)
    requires
        0 <= k < fetched(events, sources).len(),
    ensures
        exists|j: int|
            0 <= j < sources.len() && #[trigger] holds(sources[j], fetched(events, sources)[k]),
    decreases events.len(),
{
    let rest = fetched(events.drop_last(), sources);
    if k < rest.len() {
        lemma_fetched_payloads_are_loaded(events.drop_last(), sources, k);
        let j = choose|j: int| 0 <= j < sources.len() && #[trigger] holds(sources[j], rest[k]);
        assert(holds(sources[j], fetched(events, sources)[k]));
    } else {
        let entity = events.last()->Dialog_0;
        let lines = resolve(sources, entity)->Some_0;
        assert(fetched(events, sources)[k] == lines);
        lemma_resolved_is_loaded(sources, entity);
        let j = choose|j: int|
            0 <= j < sources.len() && sources[j].entity == entity && #[trigger] holds(
                sources[j],
                lines,
            );
        assert(holds(sources[j], fetched(events, sources)[k]));
    }
}

/// Whether the player asks for the next line: the advance key or the
/// primary pointer button, freshly pressed.
pub fn advance_requested(key_just_pressed: bool, pointer_just_pressed: bool) -> (advance: bool)
    ensures
        advance == (key_just_pressed || pointer_just_pressed),
{
    key_just_pressed || pointer_just_pressed
}

} // verus!
