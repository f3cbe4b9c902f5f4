use sandbox_host::bridge::{ModuleResult, ResultSlot};
use sandbox_host::fault::Fault;
use sandbox_host::orchestrator::{
    advance, conclude, serve, Event, Phase, ResultKind, RunOutcome,
};
use sandbox_host::service_directory::ModuleRegistry;
use sandbox_host::wasm_module::{create_wasm_instance, select_module, ModuleSource};

#[test]
fn request_goes_from_idle_to_a_terminal_phase() {
    assert_eq!(advance(Phase::Idle, Event::ModuleResolved), Some(Phase::Resolved));
    assert_eq!(advance(Phase::Idle, Event::ResolutionFailed), Some(Phase::Faulted));
    assert_eq!(advance(Phase::Resolved, Event::RunIssued), Some(Phase::Running));
    assert_eq!(
        advance(Phase::Running, Event::RunEnded(RunOutcome::Returned)),
        Some(Phase::Completed)
    );
    assert_eq!(
        advance(Phase::Running, Event::RunEnded(RunOutcome::Trapped)),
        Some(Phase::Faulted)
    );
    assert_eq!(
        advance(Phase::Running, Event::RunEnded(RunOutcome::Yielded)),
        Some(Phase::Faulted)
    );
}

#[test]
fn events_out_of_turn_move_nothing() {
    let events = [
        Event::ModuleResolved,
        Event::ResolutionFailed,
        Event::RunIssued,
        Event::RunEnded(RunOutcome::Returned),
        Event::RunEnded(RunOutcome::Trapped),
        Event::RunEnded(RunOutcome::Yielded),
    ];
    for event in events {
        assert_eq!(advance(Phase::Completed, event), None);
        assert_eq!(advance(Phase::Faulted, event), None);
    }
    assert_eq!(advance(Phase::Idle, Event::RunIssued), None);
    assert_eq!(advance(Phase::Idle, Event::RunEnded(RunOutcome::Returned)), None);
    assert_eq!(advance(Phase::Resolved, Event::ModuleResolved), None);
    assert_eq!(advance(Phase::Resolved, Event::ResolutionFailed), None);
    assert_eq!(advance(Phase::Resolved, Event::RunEnded(RunOutcome::Returned)), None);
    assert_eq!(advance(Phase::Running, Event::RunIssued), None);
    assert_eq!(advance(Phase::Running, Event::ModuleResolved), None);
}

#[test]
fn returned_run_gives_the_reported_value() {
    let mut slot = ResultSlot::new();
    slot.store(ModuleResult::String("55".to_string()));
    assert_eq!(
        conclude(ResultKind::Text, RunOutcome::Returned, &mut slot),
        Ok(ModuleResult::String("55".to_string()))
    );
    assert!(slot.is_absent());
    slot.store(ModuleResult::ByteArray(vec![0xff, 0xd8]));
    assert_eq!(
        conclude(ResultKind::Bytes, RunOutcome::Returned, &mut slot),
        Ok(ModuleResult::ByteArray(vec![0xff, 0xd8]))
    );
    assert!(slot.is_absent());
}

#[test]
fn returned_run_without_a_report_is_a_fault() {
    let mut slot = ResultSlot::new();
    assert_eq!(
        conclude(ResultKind::Text, RunOutcome::Returned, &mut slot),
        Err(Fault::ResultAbsent)
    );
    assert_eq!(
        conclude(ResultKind::Bytes, RunOutcome::Returned, &mut slot),
        Err(Fault::ResultAbsent)
    );
    assert!(slot.is_absent());
}

#[test]
fn value_of_the_wrong_type_is_a_fault() {
    let mut slot = ResultSlot::new();
    slot.store(ModuleResult::ByteArray(vec![1, 2]));
    assert_eq!(
        conclude(ResultKind::Text, RunOutcome::Returned, &mut slot),
        Err(Fault::ResultTypeMismatch)
    );
    assert!(slot.is_absent());
    slot.store(ModuleResult::String("text".to_string()));
    assert_eq!(
        conclude(ResultKind::Bytes, RunOutcome::Returned, &mut slot),
        Err(Fault::ResultTypeMismatch)
    );
    assert!(slot.is_absent());
}

#[test]
fn run_that_did_not_return_is_a_fault_whatever_was_reported() {
    let mut slot = ResultSlot::new();
    slot.store(ModuleResult::String("partial".to_string()));
    assert_eq!(
        conclude(ResultKind::Text, RunOutcome::Trapped, &mut slot),
        Err(Fault::RunTrapped)
    );
    assert!(slot.is_absent());
    slot.store(ModuleResult::String("partial".to_string()));
    assert_eq!(
        conclude(ResultKind::Text, RunOutcome::Yielded, &mut slot),
        Err(Fault::RunYielded)
    );
    assert!(slot.is_absent());
    assert_eq!(
        conclude(ResultKind::Bytes, RunOutcome::Trapped, &mut slot),
        Err(Fault::RunTrapped)
    );
    assert_eq!(
        conclude(ResultKind::Bytes, RunOutcome::Yielded, &mut slot),
        Err(Fault::RunYielded)
    );
}

#[test]
fn consecutive_runs_do_not_see_each_other() {
    let mut slot = ResultSlot::new();
    slot.clear();
    slot.store(ModuleResult::String("first".to_string()));
    assert_eq!(
        conclude(ResultKind::Text, RunOutcome::Returned, &mut slot),
        Ok(ModuleResult::String("first".to_string()))
    );
    slot.clear();
    assert_eq!(
        conclude(ResultKind::Text, RunOutcome::Returned, &mut slot),
        Err(Fault::ResultAbsent)
    );
}

#[test]
fn plain_variant_is_taken_from_the_cache() {
    let mut registry: ModuleRegistry<u32> = ModuleRegistry::new();
    registry.insert("fib_c_nospectre".to_string(), 1);
    registry.insert("fib_c_lfence".to_string(), 2);
    assert!(matches!(
        select_module(&registry, "fib_c", "nospectre", false),
        Ok(ModuleSource::Cached(&1))
    ));
    assert!(matches!(
        select_module(&registry, "fib_c", "lfence", false),
        Ok(ModuleSource::Cached(&2))
    ));
}

#[test]
fn randomized_variant_is_loaded_anew_from_its_file() {
    let mut registry: ModuleRegistry<u32> = ModuleRegistry::new();
    registry.insert("fib_c_nospectre".to_string(), 1);
    registry.insert("fib_c_nospectre_aslr".to_string(), 2);
    match select_module(&registry, "fib_c", "nospectre_aslr", true) {
        Ok(ModuleSource::Fresh(file)) => assert_eq!(file, "fib_c_nospectre_aslr.so"),
        _ => panic!("the cache was asked"),
    }
    let empty: ModuleRegistry<u32> = ModuleRegistry::new();
    match select_module(&empty, "tflite", "_aslr", true) {
        Ok(ModuleSource::Fresh(file)) => assert_eq!(file, "tflite__aslr.so"),
        _ => panic!("the cache was asked"),
    }
}

#[test]
fn variant_that_is_not_cached_is_not_found() {
    let mut registry: ModuleRegistry<u32> = ModuleRegistry::new();
    registry.insert("fib_c_nospectre".to_string(), 1);
    assert!(matches!(
        select_module(&registry, "fib_c", "lfence", false),
        Err(Fault::ModuleNotFound)
    ));
    assert!(matches!(
        select_module(&registry, "fib_c", "nospectr", false),
        Err(Fault::ModuleNotFound)
    ));
    assert!(matches!(
        select_module(&registry, "fib", "c_nospectre_x", false),
        Err(Fault::ModuleNotFound)
    ));
}

#[test]
fn context_for_a_missing_module_is_not_built() {
    let registry = ModuleRegistry::new();
    let built = create_wasm_instance(
        &registry,
        "fib_c".to_string(),
        "nospectre".to_string(),
        vec![String::new(), "10".to_string()],
        false,
        "/no/such/directory",
        false,
    );
    assert!(matches!(built, Err(Fault::ModuleNotFound)));
}

#[test]
fn context_for_a_randomized_module_fails_on_the_load() {
    let registry = ModuleRegistry::new();
    let built = create_wasm_instance(
        &registry,
        "fib_c".to_string(),
        "nospectre_aslr".to_string(),
        vec![String::new(), "10".to_string()],
        true,
        "/no/such/directory",
        true,
    );
    assert!(matches!(built, Err(Fault::ArtifactLoadFailed)));
}

#[test]
fn request_for_a_missing_module_ends_faulted() {
    let registry = ModuleRegistry::new();
    let served = serve(
        &registry,
        "/no/such/directory",
        "fib_c",
        ResultKind::Text,
        "lfence",
        vec![String::new(), "10".to_string()],
        false,
    );
    assert_eq!(served.0, Phase::Faulted);
    assert_eq!(served.1, Err(Fault::ModuleNotFound));
    let served = serve(
        &registry,
        "/no/such/directory",
        "jpeg_resize_c",
        ResultKind::Bytes,
        "lfence_aslr",
        vec![String::new(), "80".to_string()],
        false,
    );
    assert_eq!(served.0, Phase::Faulted);
    assert_eq!(served.1, Err(Fault::ArtifactLoadFailed));
}
