//! The buildpack: detection, and what one build does to the counting layer.

use crate::layer::{
    invalid_metadata_lines, CountingLayer, ExistingLayerStrategy, LayerError, LayerTypes,
    MetadataMigration,
};
use crate::metadata::CountingMetadata;
use vstd::prelude::*;

verus! {

/// Whether the buildpack takes part in a build.
#[derive(Clone, Copy, Debug, PartialEq, Eq, Structural)]
pub enum DetectOutcome {
    Pass,
    Fail,
}

/// What a build finds in the cache under the layer's name.
#[derive(Debug, PartialEq, Eq)]
pub enum PriorLayer {
    /// Nothing.
    Absent,
    /// A layer whose metadata reads as `CountingMetadata`.
    Valid(CountingMetadata),
    /// A layer whose metadata does not; the text is that metadata as found.
    Invalid(String),
}

/// The step by which a build brings the layer to its new state.
#[derive(Clone, Copy, Debug, PartialEq, Eq, Structural)]
pub enum Transition {
    /// The layer was created from nothing.
    Create,
    /// The layer of the last build was updated.
    Update,
    /// The layer of the last build was left as it was.
    Keep,
}

/// What a build leaves behind for the layer.
#[derive(Debug, PartialEq, Eq)]
pub struct BuildOutcome {
    /// The step that was taken.
    pub transition: Transition,
    /// The metadata to store with the layer.
    pub metadata: CountingMetadata,
    /// The phases the layer takes part in.
    pub types: LayerTypes,
    /// The lines to print, in order.
    pub diagnostics: Vec<String>,
}

/// The step and the metadata that `strategy` leads to on a layer that holds
/// `existing`.
pub open spec fn strategy_step(
    strategy: ExistingLayerStrategy,
    existing: CountingMetadata,
) -> Result<(Transition, CountingMetadata), LayerError> {
    match strategy {
        ExistingLayerStrategy::Keep => Ok((Transition::Keep, existing)),
        ExistingLayerStrategy::Recreate => Ok((Transition::Create, CountingMetadata::fresh())),
        ExistingLayerStrategy::Update => if existing.can_advance() {
            Ok((Transition::Update, existing.advanced()))
        } else {
            Err(LayerError::CounterOverflow)
        },
    }
}

/// The step and the metadata that `migration` leads to. Replaced metadata is
/// then treated as any metadata found in the cache: the layer is updated.
pub open spec fn migration_step(
    migration: MetadataMigration,
) -> Result<(Transition, CountingMetadata), LayerError> {
    match migration {
        MetadataMigration::RecreateLayer => Ok((Transition::Create, CountingMetadata::fresh())),
        MetadataMigration::ReplaceMetadata(replacement) => strategy_step(
            ExistingLayerStrategy::Update,
            replacement,
        ),
    }
}

impl PriorLayer {
    /// The step that a build takes on this cache, and the metadata it stores:
    /// a layer with readable metadata is updated, anything else gives way to a
    /// fresh layer. The build fails where a counter cannot go higher.
    pub open spec fn step(self) -> Result<(Transition, CountingMetadata), LayerError> {
        match self {
            PriorLayer::Valid(existing) => if existing.can_advance() {
                Ok((Transition::Update, existing.advanced()))
            } else {
                Err(LayerError::CounterOverflow)
            },
            _ => Ok((Transition::Create, CountingMetadata::fresh())),
        }
    }

    /// The lines that a build on this cache has to say: two where the metadata
    /// cannot be read, none otherwise.
    pub open spec fn diagnostics(self) -> Seq<Seq<char>> {
        match self {
            PriorLayer::Invalid(metadata) => invalid_metadata_lines(metadata@),
            _ => Seq::empty(),
        }
    }
}

/// Carries out `strategy` on a layer that holds `existing`.
pub fn apply_strategy(
    layer: &CountingLayer,
    strategy: ExistingLayerStrategy,
    layer_path: &str,
    existing: &CountingMetadata,
) -> (result: Result<(Transition, CountingMetadata), LayerError>)
    ensures
        result == strategy_step(strategy, *existing),
{
    match strategy {
        ExistingLayerStrategy::Keep => Ok((Transition::Keep, *existing)),
        ExistingLayerStrategy::Recreate => Ok((Transition::Create, layer.create(layer_path))),
        ExistingLayerStrategy::Update => match layer.update(layer_path, existing) {
            Ok(metadata) => Ok((Transition::Update, metadata)),
            Err(error) => Err(error),
        },
    }
}

/// Carries out `migration` on a layer whose metadata could not be read.
pub fn apply_migration(
    layer: &CountingLayer,
    migration: MetadataMigration,
    layer_path: &str,
) -> (result: Result<(Transition, CountingMetadata), LayerError>)
    ensures
        result == migration_step(migration),
{
    match migration {
        MetadataMigration::RecreateLayer => Ok((Transition::Create, layer.create(layer_path))),
        MetadataMigration::ReplaceMetadata(replacement) => {
            let strategy = layer.existing_layer_strategy(&replacement);
            apply_strategy(layer, strategy, layer_path, &replacement)
        },
    }
}

/// The buildpack that holds the counting layer.
#[derive(Clone, Copy, Debug, PartialEq, Eq, Structural)]
pub struct SampleBuildpack;

impl SampleBuildpack {
    /// The buildpack takes part in every build.
    pub fn detect(&self) -> (outcome: DetectOutcome)
        ensures
            outcome == DetectOutcome::Pass,
    {
        DetectOutcome::Pass
    }

    /// One build: brings the counting layer, whose directory is `layer_path`,
    /// from what the cache held to its new state.
    pub fn build(
        &self,
        layer_path: &str,
        prior: &PriorLayer,
    ) -> (result: Result<BuildOutcome, LayerError>)
        ensures
            result is Err <==> (prior matches PriorLayer::Valid(existing)
                && !existing.can_advance()),
            result matches Ok(outcome) ==> prior.step() == Ok::<
                (Transition, CountingMetadata),
                LayerError,
            >((outcome.transition, outcome.metadata)),
            result matches Ok(outcome) ==> outcome.types == LayerTypes::all(),
            result matches Ok(outcome) ==> outcome.diagnostics.deep_view() == prior.diagnostics(),
            result matches Err(error) ==> prior.step() == Err::<
                (Transition, CountingMetadata),
                LayerError,
            >(error),
    {
        let layer = CountingLayer;
        let mut diagnostics: Vec<String> = Vec::new();
        let step = match prior {
            PriorLayer::Absent => Ok((Transition::Create, layer.create(layer_path))),
            PriorLayer::Valid(existing) => {
                let strategy = layer.existing_layer_strategy(existing);
                apply_strategy(&layer, strategy, layer_path, existing)
            },
            PriorLayer::Invalid(metadata) => {
                let (migration, lines) = layer.migrate_incompatible_metadata(metadata.as_str());
                diagnostics = lines;
                apply_migration(&layer, migration, layer_path)
            },
        };
        match step {
            Ok((transition, metadata)) => Ok(
                BuildOutcome { transition, metadata, types: layer.types(), diagnostics },
            ),
            Err(error) => Err(error),
        }
    }
}

} // verus!
