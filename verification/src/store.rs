//! The key-value store, as far as the persistence deals with it.
//!
//! The store is a file of named JSON values. It is opened at a fixed
//! location, the geometry lives under one fixed key in it, and it is changed
//! in steps: a value is put under a key, which changes what the store holds
//! in memory, and the store is flushed, which writes what it holds to the
//! file. This module names the location and the key, describes the steps and
//! what they do to a store, and builds the steps that save a geometry.

use vstd::prelude::*;
use crate::geometry::WindowGeometry;
use crate::json::{Json, JsonModel};
use crate::record::{decoded, encode, encoded, lemma_decode_encode};

verus! {

/// The file that holds the store, relative to the application's data
/// directory.
pub fn store_file() -> (name: &'static str)
    ensures
        name@ == "window.dat"@,
{
    "window.dat"
}

/// The key under which the geometry is stored.
pub fn store_key() -> (key: &'static str)
    ensures
        key@ == "window_state"@,
{
    "window_state"
}

/// What the store gave at startup.
#[derive(Debug, PartialEq, Eq)]
pub enum Lookup {
    /// The store could not be opened.
    Unavailable,
    /// The store is open and holds nothing under the key.
    Absent,
    /// The store is open and holds this value under the key.
    Found(Json),
}

impl Lookup {
    /// The geometry found at startup: there is one where a value was found
    /// and the value holds a geometry.
    pub open spec fn geometry(self) -> Option<WindowGeometry> {
        match self {
            Lookup::Found(json) => decoded(json@),
            _ => None,
        }
    }
}

/// One step on the store.
#[derive(Debug, PartialEq, Eq)]
pub enum StoreStep {
    /// Put `value` under `key`, in place of what stands there.
    Put { key: String, value: Json },
    /// Write what the store holds to its file, now.
    Flush,
}

/// What a `StoreStep` stands for.
pub enum StoreStepModel {
    Put { key: Seq<char>, value: JsonModel },
    Flush,
}

impl View for StoreStep {
    type V = StoreStepModel;

    open spec fn view(&self) -> StoreStepModel {
        match self {
            StoreStep::Put { key, value } => StoreStepModel::Put { key: key@, value: value@ },
            StoreStep::Flush => StoreStepModel::Flush,
        }
    }
}

/// What a run of steps stands for.
pub open spec fn steps_model(steps: Seq<StoreStep>) -> Seq<StoreStepModel> {
    steps.map_values(|step: StoreStep| step@)
}

/// A store: the values it holds in memory and the values in its file.
pub struct StoreModel {
    pub held: Map<Seq<char>, JsonModel>,
    pub filed: Map<Seq<char>, JsonModel>,
}

impl StoreModel {
    /// The store after one step that succeeded.
    pub open spec fn after(self, step: StoreStepModel) -> StoreModel {
        match step {
            StoreStepModel::Put { key, value } => StoreModel {
                held: self.held.insert(key, value),
                filed: self.filed,
            },
            StoreStepModel::Flush => StoreModel { held: self.held, filed: self.held },
        }
    }

    /// The store after a run of steps that all succeeded.
    pub open spec fn after_all(self, steps: Seq<StoreStepModel>) -> StoreModel
        decreases steps.len(),
    {
        if steps.len() == 0 {
            self
        } else {
            self.after(steps.first()).after_all(steps.drop_first())
        }
    }
}

/// The geometry that the values of a store hold: that of the value under the
/// fixed key.
pub open spec fn stored_geometry(values: Map<Seq<char>, JsonModel>) -> Option<WindowGeometry> {
    if values.contains_key("window_state"@) {
        decoded(values["window_state"@])
    } else {
        None
    }
}

/// The steps that save a geometry: its record goes, whole, under the fixed
/// key, and the store is flushed at once.
pub open spec fn saving(geometry: WindowGeometry) -> Seq<StoreStepModel> {
    seq![
        StoreStepModel::Put { key: "window_state"@, value: encoded(geometry) },
        StoreStepModel::Flush,
    ]
}

/// The steps that save the geometry made of the four values.
pub fn save_window_state(x: i32, y: i32, width: u32, height: u32) -> (steps: Vec<StoreStep>)
    ensures
        steps_model(steps@) == saving(WindowGeometry { width, height, x, y }),
{
    let geometry: WindowGeometry = WindowGeometry { width, height, x, y };
    let mut steps: Vec<StoreStep> = Vec::new();
    steps.push(StoreStep::Put { key: store_key().to_owned(), value: encode(&geometry) });
    steps.push(StoreStep::Flush);
    assert(steps_model(steps@) =~= saving(geometry));
    steps
}

/// After the steps that save a geometry, its record stands under the fixed
/// key, in memory and in the file, whatever the store held before; what
/// stands under other keys in memory is as it was.
pub proof fn lemma_saving(store: StoreModel, geometry: WindowGeometry)
    ensures
        store.after_all(saving(geometry)).held == store.held.insert(
            "window_state"@,
            encoded(geometry),
        ),
        store.after_all(saving(geometry)).filed == store.held.insert(
            "window_state"@,
            encoded(geometry),
        ),
{
    let steps: Seq<StoreStepModel> = saving(geometry);
    let set: StoreModel = store.after(steps[0]);
    let rest: Seq<StoreStepModel> = steps.drop_first();
    assert(rest.len() == 1 && rest[0] == StoreStepModel::Flush);
    assert(rest.drop_first().len() == 0);
    assert(store.after_all(steps) == set.after_all(rest));
    assert(set.after_all(rest) == set.after(rest[0]).after_all(rest.drop_first()));
    assert(set.after(rest[0]).after_all(rest.drop_first()) == set.after(rest[0]));
}

/// A geometry that is saved and then loaded comes back equal in all four
/// fields: what the file holds after the steps that save it is that geometry.
pub proof fn lemma_save_then_load(store: StoreModel, geometry: WindowGeometry)
    ensures
        stored_geometry(store.after_all(saving(geometry)).filed) == Some(geometry),
        stored_geometry(store.after_all(saving(geometry)).held) == Some(geometry),
{
    lemma_saving(store, geometry);
    lemma_decode_encode(geometry);
}

} // verus!
