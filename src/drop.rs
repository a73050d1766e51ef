use vstd::prelude::*;

use crate::extension::{AssetKind, extension_of, extension_spec, route_extension, route_spec};

verus! {

/// A drag-and-drop event of a window, with the file's path as text.
#[derive(Clone, Debug)]
pub enum DropEvent {
    /// A file was dropped on the window.
    DroppedFile { path: String },
    /// A file is being dragged over the window.
    HoveredFile { path: String },
    /// A file dragged over the window left it without being dropped.
    HoveredFileCanceled,
}

/// An entity to spawn for a dropped file: the asset at `path`, shown as `kind`.
#[derive(Clone, Debug)]
pub struct Spawn {
    pub path: String,
    pub kind: AssetKind,
}

impl View for Spawn {
    type V = (Seq<char>, AssetKind);

    open spec fn view(&self) -> (Seq<char>, AssetKind) {
        (self.path@, self.kind)
    }
}

/// What one frame's drag-and-drop events call for.
#[derive(Clone, Debug)]
pub struct DropOutcome {
    /// The entities to spawn, in the order of their events.
    pub spawns: Vec<Spawn>,
    /// The extension of the first dropped file of a type the editor does not
    /// open; the events after it are left unhandled.
    pub unsupported: Option<String>,
}

/// Whether `e` drops a file of a type the editor does not open.
pub open spec fn is_unsupported_drop(e: DropEvent) -> bool {
    match e {
        DropEvent::DroppedFile { path } => route_spec(extension_spec(path@)) is None,
        _ => false,
    }
}

/// The spawn that `e` alone calls for, as a path and a kind.
pub open spec fn spawn_of(e: DropEvent) -> Seq<(Seq<char>, AssetKind)> {
    match e {
        DropEvent::DroppedFile { path } => match route_spec(extension_spec(path@)) {
            Some(kind) => seq![(path@, kind)],
            None => Seq::empty(),
        },
        _ => Seq::empty(),
    }
}

/// The spawns that the events of `s` call for, in order.
pub open spec fn spawns_of(s: Seq<DropEvent>) -> Seq<(Seq<char>, AssetKind)>
    decreases s.len(),
{
    if s.len() == 0 {
        Seq::empty()
    } else {
        spawns_of(s.drop_last()) + spawn_of(s.last())
    }
}

/// The view of each spawn of `v`.
pub open spec fn spawn_views(v: Seq<Spawn>) -> Seq<(Seq<char>, AssetKind)> {
    v.map_values(|x: Spawn| x@)
}

/// Handles one frame's drag-and-drop events in order: each dropped file of a
/// known type yields a spawn of its path; the first dropped file of another
/// type ends the frame, and its extension is reported. Hover events are ignored.
pub fn handle_drops(events: &Vec<DropEvent>) -> (out: DropOutcome)
    ensures
        out.unsupported is None ==> {
            &&& forall|i: int| 0 <= i < events@.len() ==> !is_unsupported_drop(#[trigger] events@[i])
            &&& spawn_views(out.spawns@) == spawns_of(events@)
        },
        out.unsupported is Some ==> exists|k: int|
            {
                &&& 0 <= k < events@.len()
                &&& is_unsupported_drop(#[trigger] events@[k])
                &&& forall|i: int| 0 <= i < k ==> !is_unsupported_drop(#[trigger] events@[i])
                &&& events@[k] matches DropEvent::DroppedFile { path }
                    && out.unsupported->0@ == extension_spec(path@)
                &&& spawn_views(out.spawns@) == spawns_of(events@.take(k))
            },
{
    let mut spawns: Vec<Spawn> = Vec::new();
    let mut i: usize = 0;
    while i < events.len()
        invariant
            i <= events@.len(),
            forall|j: int| 0 <= j < i ==> !is_unsupported_drop(#[trigger] events@[j]),
            spawn_views(spawns@) == spawns_of(events@.take(i as int)),
        decreases events@.len() - i,
    {
        proof {
            assert(events@.take(i as int + 1).drop_last() =~= events@.take(i as int));
        }
        match &events[i] {
            DropEvent::DroppedFile { path } => {
                let ext = extension_of(path.as_str());
                match route_extension(ext) {
                    Some(kind) => {
                        let ghost before = spawns@;
                        spawns.push(Spawn { path: path.clone(), kind });
                        proof {
                            assert(spawns@ =~= before.push(spawns@.last()));
                            assert(spawn_views(spawns@) =~= spawn_views(before) + seq![
                                (path@, kind),
                            ]);
                        }
                    },
                    None => {
                        let unsupported = String::from_str(ext);
                        return DropOutcome { spawns, unsupported: Some(unsupported) };
                    },
                }
            },
            _ => {
                proof {
                    assert(spawn_of(events@[i as int]) =~= Seq::empty());
                    assert(spawns_of(events@.take(i as int + 1)) =~= spawns_of(
                        events@.take(i as int),
                    ));
                }
            },
        }
        i = i + 1;
    }
    proof {
        assert(events@.take(i as int) =~= events@);
    }
    DropOutcome { spawns, unsupported: None }
}

} // verus!
