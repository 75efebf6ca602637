use cdn_sync::pipeline::{SyncAction, SyncConfig, SyncPipeline, TickAction};
use cdn_sync::planner::{plan_sync, SyncPlan};

/// Drives a whole sync run against a simulated remote store that serves
/// every requested chunk instantly, applying records until completion or
/// until the apply function "fails" at `fail_at`.
fn run_sync(
    start: u32,
    end: Option<u32>,
    fail_at: Option<u32>,
) -> Result<(Vec<u32>, u32), (Vec<u32>, u32)> {
    let cdn_height = 1000u32;
    let plan = plan_sync(3, cdn_height, start, end, 50).unwrap();
    let range = match plan {
        SyncPlan::Empty { completed_height } => return Ok((Vec::new(), completed_height)),
        SyncPlan::Sync { range } => range,
    };
    let mut p: SyncPipeline<u64> = SyncPipeline::new(range, SyncConfig::default());
    let mut applied: Vec<u32> = Vec::new();
    let mut rounds: u32 = 0;
    loop {
        rounds += 1;
        assert!(rounds < 10_000, "pipeline made no progress");
        match p.controller_tick(0) {
            TickAction::Finished => {}
            TickAction::BackOff => {}
            TickAction::Launch { first_chunk_start, num_requests } => {
                for i in 0..num_requests {
                    let chunk_start = first_chunk_start + i * 50;
                    for h in chunk_start..chunk_start + 50 {
                        p.insert_record(h, h as u64);
                    }
                }
            }
        }
        loop {
            match p.next_action() {
                SyncAction::Complete { completed_height } => {
                    return Ok((applied, completed_height));
                }
                SyncAction::NoData => break,
                SyncAction::Gap { .. } => break,
                SyncAction::Skip { .. } => {}
                SyncAction::Apply { height, payload } => {
                    assert_eq!(payload, height as u64);
                    if fail_at == Some(height) {
                        return Err((applied, p.completed_height()));
                    }
                    applied.push(height);
                    p.record_applied();
                }
            }
        }
    }
}

fn check_load_blocks(start: u32, end: Option<u32>, expected: usize) {
    let (applied, completed_height) = run_sync(start, end, None).unwrap();
    assert_eq!(applied.len(), expected);
    if expected > 0 {
        assert_eq!(*applied.last().unwrap(), completed_height);
    }
    // Check they are sequential.
    for (i, h) in applied.iter().enumerate() {
        assert_eq!(*h, start + i as u32);
    }
}

#[test]
fn test_load_blocks_1_to_50() {
    let start_height = 1;
    let end_height = Some(50);
    check_load_blocks(start_height, end_height, 49);
}

#[test]
fn test_load_blocks_50_to_100() {
    let start_height = 50;
    let end_height = Some(100);
    check_load_blocks(start_height, end_height, 50);
}

#[test]
fn test_load_blocks_1_to_123() {
    let start_height = 1;
    let end_height = Some(123);
    check_load_blocks(start_height, end_height, 122);
}

#[test]
fn test_load_blocks_46_to_234() {
    let start_height = 46;
    let end_height = Some(234);
    check_load_blocks(start_height, end_height, 188);
}

#[test]
fn test_apply_error_mid_run() {
    // The apply function fails at height 75 within a [1, 200) run: the
    // sync reports completed height 74 and no record above 74 was ever
    // applied.
    let (applied, completed_height) = run_sync(1, Some(200), Some(75)).unwrap_err();
    assert_eq!(completed_height, 74);
    assert_eq!(applied.len(), 74);
    for (i, h) in applied.iter().enumerate() {
        assert_eq!(*h, 1 + i as u32);
        assert!(*h <= 74);
    }
}

#[test]
fn test_empty_range_is_immediate_success() {
    // An end at or below the start applies nothing and completes at the
    // clamped end.
    let (applied, completed_height) = run_sync(50, Some(50), None).unwrap();
    assert!(applied.is_empty());
    assert_eq!(completed_height, 50);

    let (applied, completed_height) = run_sync(120, Some(40), None).unwrap();
    assert!(applied.is_empty());
    assert_eq!(completed_height, 40);
}

#[test]
fn test_backpressure_ceiling_blocks_launches() {
    let config = SyncConfig {
        blocks_per_file: 5,
        concurrent_requests: 2,
        maximum_pending_blocks: 20,
    };
    let plan = plan_sync(3, 1000, 1, Some(500), 5).unwrap();
    let range = match plan {
        SyncPlan::Sync { range } => range,
        SyncPlan::Empty { .. } => panic!("expected a non-empty window"),
    };
    let mut p: SyncPipeline<u64> = SyncPipeline::new(range, config);
    // Fill the buffer up to the ceiling with records far ahead of the
    // applier.
    for i in 0..20u32 {
        assert!(p.insert_record(100 + i, 0));
    }
    // At the ceiling no launch decision may pass: the controller backs
    // off.
    assert_eq!(p.controller_tick(0), TickAction::BackOff);
    // Below the ceiling it launches again, starting at the aligned window
    // start, and never more than the concurrency target.
    let mut q: SyncPipeline<u64> = SyncPipeline::new(range, config);
    match q.controller_tick(0) {
        TickAction::Launch { first_chunk_start, num_requests } => {
            assert_eq!(first_chunk_start, 0);
            assert_eq!(num_requests, 2);
        }
        other => panic!("expected a launch, got {:?}", other),
    }
}

#[test]
fn test_controller_stops_when_range_covered() {
    let plan = plan_sync(3, 1000, 1, Some(100), 50).unwrap();
    let range = match plan {
        SyncPlan::Sync { range } => range,
        SyncPlan::Empty { .. } => panic!("expected a non-empty window"),
    };
    let mut p: SyncPipeline<u64> = SyncPipeline::new(range, SyncConfig::default());
    // Enough requests already in flight to cover the window: nothing new
    // is launched, and the stop is permanent.
    assert_eq!(p.controller_tick(16), TickAction::Finished);
    assert_eq!(p.controller_tick(0), TickAction::Finished);
}

#[test]
fn test_duplicate_download_does_not_disturb_order() {
    // The same chunk inserted twice: duplicates are dropped and the run
    // still applies exactly the window.
    let plan = plan_sync(3, 1000, 1, Some(50), 50).unwrap();
    let range = match plan {
        SyncPlan::Sync { range } => range,
        SyncPlan::Empty { .. } => panic!("expected a non-empty window"),
    };
    let mut p: SyncPipeline<u64> = SyncPipeline::new(range, SyncConfig::default());
    for h in 0..50u32 {
        assert!(p.insert_record(h, h as u64));
    }
    for h in 0..50u32 {
        assert!(!p.insert_record(h, 999));
    }
    let mut applied: Vec<u32> = Vec::new();
    loop {
        match p.next_action() {
            SyncAction::Complete { completed_height } => {
                assert_eq!(completed_height, 49);
                break;
            }
            SyncAction::Skip { height } => assert_eq!(height, 0),
            SyncAction::Apply { height, payload } => {
                assert_eq!(payload, height as u64);
                applied.push(height);
                p.record_applied();
            }
            other => panic!("unexpected action {:?}", other),
        }
    }
    let expected: Vec<u32> = (1..50).collect();
    assert_eq!(applied, expected);
}

#[test]
fn test_applier_waits_on_gap_and_missing_data() {
    let plan = plan_sync(3, 1000, 1, Some(100), 50).unwrap();
    let range = match plan {
        SyncPlan::Sync { range } => range,
        SyncPlan::Empty { .. } => panic!("expected a non-empty window"),
    };
    let mut p: SyncPipeline<u64> = SyncPipeline::new(range, SyncConfig::default());
    // Nothing downloaded yet: the applier must wait for data.
    assert!(matches!(p.next_action(), SyncAction::NoData));
    // A record past the next required height: the applier must wait for
    // the missing chunk, and the record stays buffered.
    p.insert_record(10, 10);
    assert!(matches!(p.next_action(), SyncAction::Gap { earliest_height: 10 }));
    assert!(matches!(p.next_action(), SyncAction::Gap { earliest_height: 10 }));
    // Once the gap is filled the run drains in strict height order.
    for h in 1..10u32 {
        p.insert_record(h, h as u64);
    }
    let mut expected: u32 = 1;
    for _ in 0..10 {
        match p.next_action() {
            SyncAction::Apply { height, .. } => {
                assert_eq!(height, expected);
                expected += 1;
                p.record_applied();
            }
            other => panic!("unexpected action {:?}", other),
        }
    }
    assert!(matches!(p.next_action(), SyncAction::NoData));
    assert_eq!(p.completed_height(), 10);
    assert!(!p.is_complete());
}
