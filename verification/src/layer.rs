//! The counting layer: what it declares of itself, and what it answers when
//! the build asks how to treat the cache.

use crate::metadata::CountingMetadata;
use vstd::prelude::*;
use vstd::string::StringExecFns;

verus! {

/// The phases of a build that a layer takes part in.
#[derive(Clone, Copy, Debug, PartialEq, Eq, Structural)]
pub struct LayerTypes {
    /// The layer is there while later buildpacks build.
    pub build: bool,
    /// The layer is there when the built image runs.
    pub launch: bool,
    /// The layer is kept from one build to the next.
    pub cache: bool,
}

impl LayerTypes {
    /// A layer that takes part in every phase.
    pub open spec fn all() -> LayerTypes {
        LayerTypes { build: true, launch: true, cache: true }
    }
}

/// What is to be done with a layer that the cache holds.
#[derive(Clone, Copy, Debug, PartialEq, Eq, Structural)]
pub enum ExistingLayerStrategy {
    /// The layer stays as it is.
    Keep,
    /// The layer is deleted and created anew.
    Recreate,
    /// The layer is handed to `update`.
    Update,
}

/// What is to be done with a layer whose metadata cannot be read as
/// `CountingMetadata`.
#[derive(Clone, Copy, Debug, PartialEq, Eq, Structural)]
pub enum MetadataMigration {
    /// The layer is deleted and created anew.
    RecreateLayer,
    /// The layer stays, with this metadata in place of what was found.
    ReplaceMetadata(CountingMetadata),
}

/// Why the layer could not be brought up to date.
#[derive(Clone, Copy, Debug, PartialEq, Eq, Structural)]
pub enum LayerError {
    /// A counter stands at the largest value of its type, so one more build
    /// cannot be counted.
    CounterOverflow,
}

/// The first of the two lines said of metadata that cannot be read.
pub open spec fn invalid_metadata_notice() -> Seq<char> {
    "Previous layer data invalid!!!"@
}

/// The second of the two lines: the metadata itself, as it was found.
pub open spec fn invalid_metadata_echo(metadata: Seq<char>) -> Seq<char> {
    "metadata: "@ + metadata
}

/// The two lines said of metadata that cannot be read, in order.
pub open spec fn invalid_metadata_lines(metadata: Seq<char>) -> Seq<Seq<char>> {
    seq![invalid_metadata_notice(), invalid_metadata_echo(metadata)]
}

/// The layer that counts builds.
#[derive(Clone, Copy, Debug, PartialEq, Eq, Structural)]
pub struct CountingLayer;

impl CountingLayer {
    /// The phases the layer takes part in: all three, whatever the build.
    pub fn types(&self) -> (types: LayerTypes)
        ensures
            types == LayerTypes::all(),
    {
        LayerTypes { build: true, launch: true, cache: true }
    }

    /// How to treat a layer found in the cache: it is always updated, never
    /// kept untouched and never thrown away.
    pub fn existing_layer_strategy(
        &self,
        _existing: &CountingMetadata,
    ) -> (strategy: ExistingLayerStrategy)
        ensures
            strategy == ExistingLayerStrategy::Update,
    {
        ExistingLayerStrategy::Update
    }

    /// The metadata of a layer created from nothing in the directory
    /// `_layer_path`, which is left empty.
    pub fn create(&self, _layer_path: &str) -> (metadata: CountingMetadata)
        ensures
            metadata == CountingMetadata::fresh(),
    {
        CountingMetadata { counter_u64: 1, counter_i32: 1 }
    }

    /// The metadata of a layer found in the cache after one more build: each
    /// counter one higher. A counter that is already at the largest value of
    /// its type is not wrapped round: the build fails.
    pub fn update(
        &self,
        _layer_path: &str,
        existing: &CountingMetadata,
    ) -> (result: Result<CountingMetadata, LayerError>)
        ensures
            existing.can_advance() ==> result == Ok::<CountingMetadata, LayerError>(
                existing.advanced(),
            ),
            !existing.can_advance() ==> result == Err::<CountingMetadata, LayerError>(
                LayerError::CounterOverflow,
            ),
    {
        match (existing.counter_u64.checked_add(1), existing.counter_i32.checked_add(1)) {
            (Some(counter_u64), Some(counter_i32)) => Ok(
                CountingMetadata { counter_u64, counter_i32 },
            ),
            _ => Err(LayerError::CounterOverflow),
        }
    }

    /// What to do with a layer whose metadata, given here as the text it was
    /// found as, cannot be read: the layer is created anew. With the answer
    /// come the two lines to print before that happens.
    pub fn migrate_incompatible_metadata(
        &self,
        metadata: &str,
    ) -> (answer: (MetadataMigration, Vec<String>))
        ensures
            answer.0 == MetadataMigration::RecreateLayer,
            answer.1.deep_view() == invalid_metadata_lines(metadata@),
    {
        let mut lines: Vec<String> = Vec::new();
        lines.push(String::from_str("Previous layer data invalid!!!"));
        lines.push(String::from_str("metadata: ").concat(metadata));
        (MetadataMigration::RecreateLayer, lines)
    }
}

} // verus!
