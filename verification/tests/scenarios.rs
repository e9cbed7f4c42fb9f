//! Whole builds, one after another, as a cache would see them.

use counting_layer::buildpack::{
    BuildOutcome, DetectOutcome, PriorLayer, SampleBuildpack, Transition,
};
use counting_layer::layer::{LayerError, LayerTypes};
use counting_layer::metadata::CountingMetadata;

const LAYER_PATH: &str = "/layers/sample/counting";

const ALL_PHASES: LayerTypes = LayerTypes { build: true, launch: true, cache: true };

fn counted(n: u64) -> CountingMetadata {
    CountingMetadata { counter_u64: n, counter_i32: i32::try_from(n).unwrap() }
}

/// One build as its driver runs it: detection first, then the layer.
fn build_on(prior: &PriorLayer) -> BuildOutcome {
    let buildpack = SampleBuildpack;
    assert_eq!(buildpack.detect(), DetectOutcome::Pass);
    buildpack.build(LAYER_PATH, prior).unwrap()
}

/// Runs `builds` builds in a row and gives back what the last one stored.
fn build_repeatedly(start: PriorLayer, builds: u64) -> PriorLayer {
    let mut cache = start;
    let mut done: u64 = 0;
    while done < builds {
        cache = PriorLayer::Valid(build_on(&cache).metadata);
        done += 1;
    }
    cache
}

#[test]
fn first_build_creates_the_layer() {
    let outcome = build_on(&PriorLayer::Absent);
    assert_eq!(outcome.metadata, counted(1));
    assert_eq!(outcome.transition, Transition::Create);
    assert_eq!(outcome.types, ALL_PHASES);
    assert!(outcome.diagnostics.is_empty());
}

#[test]
fn second_build_updates_the_layer() {
    let first = build_on(&PriorLayer::Absent);
    let second = build_on(&PriorLayer::Valid(first.metadata));
    assert_eq!(second.metadata, counted(2));
    assert_eq!(second.transition, Transition::Update);
    assert_eq!(second.types, ALL_PHASES);
    assert!(second.diagnostics.is_empty());
}

#[test]
fn corrupted_cache_is_reported_and_reset() {
    let cache = build_repeatedly(PriorLayer::Absent, 2);
    assert_eq!(cache, PriorLayer::Valid(counted(2)));
    let found = String::from("Some({\"counter_u64\": String(\"oops\")})");
    let outcome = build_on(&PriorLayer::Invalid(found));
    assert_eq!(
        outcome.diagnostics,
        vec![
            String::from("Previous layer data invalid!!!"),
            String::from("metadata: Some({\"counter_u64\": String(\"oops\")})"),
        ]
    );
    assert_eq!(outcome.metadata, counted(1));
    assert_eq!(outcome.transition, Transition::Create);
    assert_eq!(outcome.types, ALL_PHASES);
}

#[test]
fn sixty_builds_count_to_sixty() {
    let after_two = build_repeatedly(PriorLayer::Absent, 2);
    assert_eq!(after_two, PriorLayer::Valid(counted(2)));
    let after_sixty = build_repeatedly(after_two, 58);
    assert_eq!(after_sixty, PriorLayer::Valid(counted(60)));
}

#[test]
fn counters_equal_the_number_of_builds() {
    let mut cache = PriorLayer::Absent;
    let mut builds: u64 = 0;
    while builds < 500 {
        let outcome = build_on(&cache);
        builds += 1;
        assert_eq!(outcome.metadata.counter_u64, builds);
        assert_eq!(i64::from(outcome.metadata.counter_i32), i64::try_from(builds).unwrap());
        let expected = if builds == 1 { Transition::Create } else { Transition::Update };
        assert_eq!(outcome.transition, expected);
        cache = PriorLayer::Valid(outcome.metadata);
    }
}

#[test]
fn counting_starts_again_after_unreadable_metadata() {
    let start = PriorLayer::Invalid(String::from("None"));
    assert_eq!(build_repeatedly(start, 1), PriorLayer::Valid(counted(1)));
    let start = PriorLayer::Invalid(String::from("None"));
    assert_eq!(build_repeatedly(start, 7), PriorLayer::Valid(counted(7)));
}

#[test]
fn unreadable_metadata_of_any_content_gives_a_fresh_layer() {
    let documents = [
        "",
        "None",
        "Some({})",
        "Some({\"counter_u64\": Integer(4)})",
        "Some({\"counter_i32\": Integer(4)})",
        "Some({\"counter_i32\": Integer(4), \"counter_u64\": String(\"oops\")})",
        "Some({\"counter_i32\": Integer(-1), \"counter_u64\": Integer(-1)})",
        "Some({\"counter_i32\": Boolean(true), \"counter_u64\": Array([Integer(1)])})",
        "Some({\"counter_i32\": Integer(2147483648), \"counter_u64\": Integer(2147483648)})",
        "counter_u64 = 99\ncounter_i32 = 99",
    ];
    let absent = build_on(&PriorLayer::Absent);
    for document in documents {
        let outcome = build_on(&PriorLayer::Invalid(String::from(document)));
        assert_eq!(outcome.metadata, counted(1));
        assert_eq!(outcome.metadata, absent.metadata);
        assert_eq!(outcome.transition, Transition::Create);
        assert_eq!(outcome.types, ALL_PHASES);
        assert_eq!(outcome.diagnostics.len(), 2);
        assert_eq!(outcome.diagnostics[0], "Previous layer data invalid!!!");
        assert_eq!(outcome.diagnostics[1], format!("metadata: {document}"));
    }
}

#[test]
fn build_fails_when_the_signed_counter_is_full() {
    let full = CountingMetadata { counter_u64: 2_147_483_647, counter_i32: i32::MAX };
    let result = SampleBuildpack.build(LAYER_PATH, &PriorLayer::Valid(full));
    assert_eq!(result, Err(LayerError::CounterOverflow));
}

#[test]
fn build_fails_when_the_unsigned_counter_is_full() {
    let full = CountingMetadata { counter_u64: u64::MAX, counter_i32: 3 };
    let result = SampleBuildpack.build(LAYER_PATH, &PriorLayer::Valid(full));
    assert_eq!(result, Err(LayerError::CounterOverflow));
}

#[test]
fn last_countable_build_succeeds() {
    let almost = CountingMetadata { counter_u64: 2_147_483_646, counter_i32: i32::MAX - 1 };
    let outcome = build_on(&PriorLayer::Valid(almost));
    assert_eq!(
        outcome.metadata,
        CountingMetadata { counter_u64: 2_147_483_647, counter_i32: i32::MAX }
    );
    assert_eq!(outcome.transition, Transition::Update);
    let next = SampleBuildpack.build(LAYER_PATH, &PriorLayer::Valid(outcome.metadata));
    assert_eq!(next, Err(LayerError::CounterOverflow));
}

#[test]
fn counters_out_of_step_each_go_up_by_one() {
    let existing = CountingMetadata { counter_u64: 40, counter_i32: -3 };
    let outcome = build_on(&PriorLayer::Valid(existing));
    assert_eq!(outcome.metadata, CountingMetadata { counter_u64: 41, counter_i32: -2 });
    assert_eq!(outcome.transition, Transition::Update);
}

#[test]
fn layer_path_does_not_change_the_outcome() {
    let prior = PriorLayer::Valid(counted(9));
    let here = SampleBuildpack.build("/layers/a/counting", &prior);
    let there = SampleBuildpack.build("", &prior);
    assert_eq!(here, there);
    assert_eq!(here.unwrap().metadata, counted(10));
}
