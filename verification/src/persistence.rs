//! Restoring the geometry at startup and capturing it on every change.
//!
//! `WindowGeometryPersistence` is the one service object behind both paths.
//! It decides and never acts. At startup the caller opens the store, looks up
//! the fixed key and hands in what it found; it gets back the commands to
//! apply to the window, position first. A geometry is applied only if it has
//! an area: a record with a width or a height of zero is left in the store
//! and the window keeps the geometry it has. After that, for each notification
//! from the window, it asks which half of the geometry the notification does
//! not carry, reads that half from the window, and gets back the steps to
//! take on the store. A failure of the window or of the store is never an
//! error: the caller drops it and goes on.

use vstd::prelude::*;
use crate::geometry::{Position, Size, WindowGeometry};
use crate::record::{decode, decoded, encoded};
use crate::store::{
    lemma_save_then_load, lemma_saving, save_window_state, saving, steps_model, Lookup,
    StoreModel, StoreStep, StoreStepModel,
};

verus! {

/// The label of the window whose geometry is persisted.
pub fn window_label() -> (label: &'static str)
    ensures
        label@ == "main"@,
{
    "main"
}

/// A change to make to the window.
#[derive(Clone, Copy, Debug, PartialEq, Eq, Structural)]
pub enum Command {
    SetPosition(Position),
    SetSize(Size),
}

/// A notification from the window.
#[derive(Clone, Copy, Debug, PartialEq, Eq, Structural)]
pub enum Notice {
    /// The window was moved; this is its new position.
    Moved(Position),
    /// The window was resized; this is its new size.
    Resized(Size),
    /// Anything else.
    Other,
}

/// The half of the geometry to read from the window.
#[derive(Clone, Copy, Debug, PartialEq, Eq, Structural)]
pub enum Probe {
    OuterSize,
    OuterPosition,
}

/// What the window answered to a probe.
#[derive(Clone, Copy, Debug, PartialEq, Eq, Structural)]
pub enum Reading {
    Size(Size),
    Position(Position),
    /// The window could not be read.
    Failed,
}

/// Where the persistence stands.
#[derive(Clone, Copy, Debug, PartialEq, Eq, Structural)]
pub enum Phase {
    /// Startup has not happened yet.
    NotRestored,
    /// Startup is over and the store is open: changes are captured.
    Watching,
    /// Startup is over and there is no store: nothing is captured.
    Dormant,
}

/// The commands that bring the window to a geometry: the position, then the
/// size. None where there is no geometry.
pub open spec fn restoring(geometry: Option<WindowGeometry>) -> Seq<Command> {
    match geometry {
        Some(geometry) => seq![
            Command::SetPosition(geometry.position_of()),
            Command::SetSize(geometry.size_of()),
        ],
        None => Seq::empty(),
    }
}

/// Every size that the commands set has a positive width and a positive
/// height.
pub open spec fn sizes_have_area(commands: Seq<Command>) -> bool {
    forall|i: int|
        0 <= i < commands.len() ==> (#[trigger] commands[i] matches Command::SetSize(size)
            ==> size.width > 0 && size.height > 0)
}

/// The persistence of the main window's geometry.
#[derive(Clone, Copy, Debug, PartialEq, Eq, Structural)]
pub struct WindowGeometryPersistence {
    pub phase: Phase,
}

impl WindowGeometryPersistence {
    /// The phase after startup. Startup happens once: a later one changes
    /// nothing.
    pub open spec fn started(phase: Phase, lookup: Lookup) -> Phase {
        match phase {
            Phase::NotRestored => match lookup {
                Lookup::Unavailable => Phase::Dormant,
                _ => Phase::Watching,
            },
            _ => phase,
        }
    }

    /// The geometry that startup applies: the one found, where one was found
    /// and it has an area.
    pub open spec fn applied(lookup: Lookup) -> Option<WindowGeometry> {
        match lookup.geometry() {
            Some(geometry) => if geometry.has_area_spec() {
                Some(geometry)
            } else {
                None
            },
            None => None,
        }
    }

    /// The commands of startup: those that restore the geometry to apply,
    /// the first time; none after that.
    pub open spec fn restored(phase: Phase, lookup: Lookup) -> Seq<Command> {
        match phase {
            Phase::NotRestored => restoring(Self::applied(lookup)),
            _ => Seq::empty(),
        }
    }

    /// The half to read for a notification: the size for a move, the
    /// position for a resize, while changes are captured.
    pub open spec fn probed(phase: Phase, notice: Notice) -> Option<Probe> {
        match (phase, notice) {
            (Phase::Watching, Notice::Moved(_)) => Some(Probe::OuterSize),
            (Phase::Watching, Notice::Resized(_)) => Some(Probe::OuterPosition),
            _ => None,
        }
    }

    /// The geometry to save for a notification and the reading that goes
    /// with it: the half that the notification carries joined with the half
    /// that was read. None where the two do not make a geometry, and while
    /// changes are not captured.
    pub open spec fn captured(phase: Phase, notice: Notice, reading: Reading) -> Option<
        WindowGeometry,
    > {
        match (phase, notice, reading) {
            (Phase::Watching, Notice::Moved(position), Reading::Size(size)) => Some(
                WindowGeometry::of(position, size),
            ),
            (Phase::Watching, Notice::Resized(size), Reading::Position(position)) => Some(
                WindowGeometry::of(position, size),
            ),
            _ => None,
        }
    }

    /// The steps on the store for a notification and its reading: those that
    /// save the geometry captured, and none where there is none.
    pub open spec fn stored(phase: Phase, notice: Notice, reading: Reading) -> Seq<
        StoreStepModel,
    > {
        match Self::captured(phase, notice, reading) {
            Some(geometry) => saving(geometry),
            None => Seq::empty(),
        }
    }

    /// A persistence before startup.
    pub fn new() -> (fresh: WindowGeometryPersistence)
        ensures
            fresh.phase == Phase::NotRestored,
    {
        WindowGeometryPersistence { phase: Phase::NotRestored }
    }

    /// Startup: takes what the store gave and returns the commands to apply
    /// to the window, in order. There are none where the store could not be
    /// opened, where it holds nothing under the key, where what it holds is
    /// no geometry, and where the geometry it holds has no area: the window
    /// then keeps the geometry it has. No size with a width or a height of
    /// zero is ever applied.
    pub fn start(&mut self, lookup: &Lookup) -> (commands: Vec<Command>)
        ensures
            final(self).phase == Self::started(old(self).phase, *lookup),
            commands@ == Self::restored(old(self).phase, *lookup),
            sizes_have_area(commands@),
    {
        let mut commands: Vec<Command> = Vec::new();
        match self.phase {
            Phase::NotRestored => {
                match lookup {
                    Lookup::Unavailable => {
                        self.phase = Phase::Dormant;
                    },
                    Lookup::Absent => {
                        self.phase = Phase::Watching;
                    },
                    Lookup::Found(json) => {
                        self.phase = Phase::Watching;
                        match decode(json) {
                            Some(geometry) => {
                                if geometry.has_area() {
                                    commands.push(Command::SetPosition(geometry.position()));
                                    commands.push(Command::SetSize(geometry.size()));
                                }
                            },
                            None => {},
                        }
                    },
                }
            },
            _ => {},
        }
        assert(commands@ =~= Self::restored(old(self).phase, *lookup));
        commands
    }

    /// Whether the window is to be observed: so once startup has found the
    /// store open.
    pub fn watching(&self) -> (yes: bool)
        ensures
            yes == (self.phase == Phase::Watching),
    {
        match self.phase {
            Phase::Watching => true,
            _ => false,
        }
    }

    /// The half of the geometry to read from the window before `capture`,
    /// if the notification is one to act on.
    pub fn probe(&self, notice: &Notice) -> (probe: Option<Probe>)
        ensures
            probe == Self::probed(self.phase, *notice),
    {
        match self.phase {
            Phase::Watching => match notice {
                Notice::Moved(_) => Some(Probe::OuterSize),
                Notice::Resized(_) => Some(Probe::OuterPosition),
                Notice::Other => None,
            },
            _ => None,
        }
    }

    /// The steps to take on the store for a notification and the reading
    /// that the window gave. None where the notification is no move or
    /// resize, where the window could not be read, where the reading is not
    /// the half that was asked for, and while changes are not captured.
    pub fn capture(&self, notice: &Notice, reading: &Reading) -> (steps: Vec<StoreStep>)
        ensures
            steps_model(steps@) == Self::stored(self.phase, *notice, *reading),
    {
        let steps: Vec<StoreStep> = match self.phase {
            Phase::Watching => match notice {
                Notice::Moved(position) => match reading {
                    Reading::Size(size) => save_window_state(
                        position.x,
                        position.y,
                        size.width,
                        size.height,
                    ),
                    _ => Vec::new(),
                },
                Notice::Resized(size) => match reading {
                    Reading::Position(position) => save_window_state(
                        position.x,
                        position.y,
                        size.width,
                        size.height,
                    ),
                    _ => Vec::new(),
                },
                Notice::Other => Vec::new(),
            },
            _ => Vec::new(),
        };
        assert(steps_model(steps@) =~= Self::stored(self.phase, *notice, *reading));
        steps
    }
}

/// Where the store holds under the key a geometry that has an area, startup
/// sets the window to exactly that position and that size, in this order,
/// and changes are captured from then on.
pub proof fn lemma_restores_stored(lookup: Lookup, geometry: WindowGeometry)
    requires
        lookup matches Lookup::Found(json) && decoded(json@) == Some(geometry),
        geometry.has_area_spec(),
    ensures
        WindowGeometryPersistence::restored(Phase::NotRestored, lookup) == seq![
            Command::SetPosition(Position { x: geometry.x, y: geometry.y }),
            Command::SetSize(Size { width: geometry.width, height: geometry.height }),
        ],
        WindowGeometryPersistence::started(Phase::NotRestored, lookup) == Phase::Watching,
{
}

/// Where the geometry that the store holds under the key has no area,
/// startup leaves the window as it is and goes on: changes are captured from
/// then on.
pub proof fn lemma_without_area_restores_nothing(lookup: Lookup, geometry: WindowGeometry)
    requires
        lookup matches Lookup::Found(json) && decoded(json@) == Some(geometry),
        !geometry.has_area_spec(),
    ensures
        WindowGeometryPersistence::restored(Phase::NotRestored, lookup) == Seq::<Command>::empty(),
        WindowGeometryPersistence::started(Phase::NotRestored, lookup) == Phase::Watching,
{
}

/// Whatever the store gave, and in whatever phase: every size that startup
/// applies has a positive width and a positive height.
pub proof fn lemma_restored_sizes_have_area(phase: Phase, lookup: Lookup)
    ensures
        sizes_have_area(WindowGeometryPersistence::restored(phase, lookup)),
{
}

/// Where the store holds nothing under the key, startup leaves the window
/// as it is, and changes are captured from then on.
pub proof fn lemma_absent_restores_nothing()
    ensures
        WindowGeometryPersistence::restored(Phase::NotRestored, Lookup::Absent)
            == Seq::<Command>::empty(),
        WindowGeometryPersistence::started(Phase::NotRestored, Lookup::Absent) == Phase::Watching,
{
}

/// Where what the store holds under the key is no geometry, startup leaves
/// the window as it is and goes on: changes are captured from then on.
pub proof fn lemma_unreadable_restores_nothing(lookup: Lookup)
    requires
        lookup matches Lookup::Found(json) && decoded(json@) is None,
    ensures
        WindowGeometryPersistence::restored(Phase::NotRestored, lookup) == Seq::<Command>::empty(),
        WindowGeometryPersistence::started(Phase::NotRestored, lookup) == Phase::Watching,
{
}

/// What was saved in one run is restored in the next: where startup finds
/// under the key what the steps that save a geometry left in the file, and
/// the geometry has an area, it sets the window to that geometry's position
/// and size.
pub proof fn lemma_saved_is_restored(store: StoreModel, geometry: WindowGeometry, lookup: Lookup)
    requires
        lookup matches Lookup::Found(json) && json@ == store.after_all(
            saving(geometry),
        ).filed["window_state"@],
        geometry.has_area_spec(),
    ensures
        WindowGeometryPersistence::restored(Phase::NotRestored, lookup) == seq![
            Command::SetPosition(Position { x: geometry.x, y: geometry.y }),
            Command::SetSize(Size { width: geometry.width, height: geometry.height }),
        ],
{
    lemma_save_then_load(store, geometry);
}

/// After a move to `position` of a window of size `size`, the store holds
/// under the key the record of that size at that position, in memory and in
/// its file, whatever it held before.
pub proof fn lemma_moved_is_stored(store: StoreModel, position: Position, size: Size)
    ensures
        ({
            let steps = WindowGeometryPersistence::stored(
                Phase::Watching,
                Notice::Moved(position),
                Reading::Size(size),
            );
            let record = encoded(
                WindowGeometry {
                    width: size.width,
                    height: size.height,
                    x: position.x,
                    y: position.y,
                },
            );
            &&& store.after_all(steps).held.contains_key("window_state"@)
            &&& store.after_all(steps).held["window_state"@] == record
            &&& store.after_all(steps).filed.contains_key("window_state"@)
            &&& store.after_all(steps).filed["window_state"@] == record
        }),
{
    lemma_saving(store, WindowGeometry::of(position, size));
}

/// After a resize to `size` of a window at `position`, the store holds
/// under the key the record of that size at that position, in memory and in
/// its file, whatever it held before.
pub proof fn lemma_resized_is_stored(store: StoreModel, position: Position, size: Size)
    ensures
        ({
            let steps = WindowGeometryPersistence::stored(
                Phase::Watching,
                Notice::Resized(size),
                Reading::Position(position),
            );
            let record = encoded(
                WindowGeometry {
                    width: size.width,
                    height: size.height,
                    x: position.x,
                    y: position.y,
                },
            );
            &&& store.after_all(steps).held.contains_key("window_state"@)
            &&& store.after_all(steps).held["window_state"@] == record
            &&& store.after_all(steps).filed.contains_key("window_state"@)
            &&& store.after_all(steps).filed["window_state"@] == record
        }),
{
    lemma_saving(store, WindowGeometry::of(position, size));
}

} // verus!
