//! The layer over many builds in a row.

use crate::buildpack::{PriorLayer, Transition};
use crate::layer::LayerError;
use crate::metadata::CountingMetadata;
use vstd::prelude::*;

verus! {

/// What the next build finds in the cache after a build that found `prior`.
/// A build that succeeds stores its metadata; one that fails leaves the cache
/// as it was.
pub open spec fn cache_after_build(prior: PriorLayer) -> PriorLayer {
    match prior.step() {
        Ok((_, metadata)) => PriorLayer::Valid(metadata),
        Err(_) => prior,
    }
}

/// What the cache holds after `builds` builds in a row, the first of which
/// found it as `start`.
pub open spec fn cache_after_builds(start: PriorLayer, builds: nat) -> PriorLayer
    decreases builds,
{
    if builds == 0 {
        start
    } else {
        cache_after_build(cache_after_builds(start, (builds - 1) as nat))
    }
}

/// The largest number of builds in a row, from an empty cache, that the
/// counters can hold.
pub open spec fn most_builds() -> nat {
    i32::MAX as nat
}

/// A build that finds no layer and a build that finds one with unreadable
/// metadata end alike, whatever that metadata was: with a layer created from
/// nothing, both counters at one.
pub proof fn lemma_unreadable_metadata_starts_afresh(metadata: String)
    ensures
        PriorLayer::Invalid(metadata).step() == PriorLayer::Absent.step(),
        PriorLayer::Invalid(metadata).step() == Ok::<(Transition, CountingMetadata), LayerError>(
            (Transition::Create, CountingMetadata::fresh()),
        ),
        cache_after_build(PriorLayer::Invalid(metadata)) == PriorLayer::Valid(
            CountingMetadata::fresh(),
        ),
{
}

/// A layer whose counters both stand at `n`, with `n + 1` still within both
/// counters' types, is updated by the next build, which leaves both counters
/// at `n + 1`.
pub proof fn lemma_update_counts_one_more(existing: CountingMetadata, n: int)
    requires
        existing.counts(n),
        n < i32::MAX,
    ensures
        existing.can_advance(),
        existing.advanced().counts(n + 1),
        PriorLayer::Valid(existing).step() == Ok::<(Transition, CountingMetadata), LayerError>(
            (Transition::Update, existing.advanced()),
        ),
{
}

/// Every build that succeeds has either created the layer or updated it, and
/// none has left the layer of the last build untouched: it has updated a
/// layer whose metadata it could read, and created the layer otherwise.
pub proof fn lemma_build_creates_or_updates(prior: PriorLayer)
    ensures
        prior.step() matches Ok((transition, _)) ==> transition != Transition::Keep,
        prior is Valid ==> (prior.step() matches Ok((transition, _)) ==> transition
            == Transition::Update),
        !(prior is Valid) ==> (prior.step() matches Ok((transition, _)) && transition
            == Transition::Create),
{
}

/// From an empty cache, or from one whose metadata cannot be read, each of the
/// first `most_builds()` builds succeeds, and after the `builds`-th both
/// counters stand at `builds`.
pub proof fn lemma_counters_count_builds(start: PriorLayer, builds: nat)
    requires
        !(start is Valid),
        1 <= builds <= most_builds(),
    ensures
        cache_after_builds(start, (builds - 1) as nat).step() matches Ok((_, metadata))
            && metadata.counts(builds as int),
        cache_after_builds(start, builds) matches PriorLayer::Valid(metadata) && metadata.counts(
            builds as int,
        ),
    decreases builds,
{
    if builds > 1 {
        lemma_counters_count_builds(start, (builds - 1) as nat);
    }
}

/// Once the counters have held `most_builds()` builds, every further build
/// fails, and the cache stays as the last successful build left it.
pub proof fn lemma_counters_run_out(start: PriorLayer, builds: nat)
    requires
        !(start is Valid),
        builds > most_builds(),
    ensures
        cache_after_builds(start, (builds - 1) as nat).step() == Err::<
            (Transition, CountingMetadata),
            LayerError,
        >(LayerError::CounterOverflow),
        cache_after_builds(start, builds) matches PriorLayer::Valid(metadata) && metadata.counts(
            most_builds() as int,
        ),
    decreases builds,
{
    if builds == most_builds() + 1 {
        lemma_counters_count_builds(start, most_builds());
    } else {
        lemma_counters_run_out(start, (builds - 1) as nat);
    }
}

} // verus!
