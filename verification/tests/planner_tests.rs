use cdn_sync::error::CdnError;
use cdn_sync::planner::{
    cdn_height_from_bytes, compute_cdn_end, plan_sync, SyncPlan, SyncRange,
};

fn metadata_bytes(json: &str) -> Vec<u8> {
    bincode::serialize(&json.to_string()).unwrap()
}

#[test]
fn test_cdn_end_alignment() {
    // A reported exclusive height of 1000 with margin 10 and chunk size
    // 50 yields 990 - (990 % 50) + 50 = 1000.
    assert_eq!(compute_cdn_end(1000, 10, 50), Some(1000));
    // An unaligned lowered tip rounds up to the next multiple.
    assert_eq!(compute_cdn_end(995, 10, 50), Some(1000));
    // A tip below the margin saturates to zero and yields one chunk.
    assert_eq!(compute_cdn_end(5, 10, 50), Some(50));
    // Near the top of the height type no aligned end exists.
    assert_eq!(compute_cdn_end(u32::MAX, 0, 50), None);
}

#[test]
fn test_cdn_height_from_metadata_bytes() {
    let json = format!(
        "{{\"exclusive_height\":{},\"inclusive_height\":{},\"hash\":\"{}\"}}",
        1000, 999, "ab"
    );
    assert_eq!(cdn_height_from_bytes(&metadata_bytes(&json)), Ok(1000));

    let json = format!(
        "{{\"exclusive_height\":{},\"inclusive_height\":{},\"hash\":\"{}\"}}",
        123456, 123455, "cd"
    );
    // 123446 rounds up to the next multiple of 50.
    assert_eq!(cdn_height_from_bytes(&metadata_bytes(&json)), Ok(123450));
}

#[test]
fn test_cdn_height_decode_errors() {
    // Not a valid envelope at all.
    assert_eq!(cdn_height_from_bytes(&[1, 2, 3]), Err(CdnError::DecodeError));
    // An envelope whose string is not JSON.
    assert_eq!(
        cdn_height_from_bytes(&metadata_bytes("not json")),
        Err(CdnError::DecodeError)
    );
    // JSON without the expected field.
    assert_eq!(
        cdn_height_from_bytes(&metadata_bytes("{\"inclusive_height\":4}")),
        Err(CdnError::DecodeError)
    );
    // The field present but not an integer.
    assert_eq!(
        cdn_height_from_bytes(&metadata_bytes("{\"exclusive_height\":\"high\"}")),
        Err(CdnError::DecodeError)
    );
}

#[test]
fn test_plan_unsupported_network() {
    assert_eq!(
        plan_sync(5, 1000, 1, None, 50),
        Err(CdnError::UnsupportedNetwork { network_id: 5 })
    );
}

#[test]
fn test_plan_empty_windows() {
    // End equal to start.
    assert_eq!(
        plan_sync(3, 1000, 50, Some(50), 50),
        Ok(SyncPlan::Empty { completed_height: 50 })
    );
    // End below start.
    assert_eq!(
        plan_sync(3, 1000, 120, Some(40), 50),
        Ok(SyncPlan::Empty { completed_height: 40 })
    );
    // Remote range below the start: the clamped end is the remote height.
    assert_eq!(
        plan_sync(3, 40, 100, None, 50),
        Ok(SyncPlan::Empty { completed_height: 40 })
    );
}

#[test]
fn test_plan_window_clamps_and_aligns() {
    assert_eq!(
        plan_sync(3, 1000, 123, Some(500), 50),
        Ok(SyncPlan::Sync {
            range: SyncRange {
                start_height: 123,
                end_height: 500,
                cdn_start: 100,
                cdn_end: 500,
            }
        })
    );
    // An end past the remote height is clamped to it.
    assert_eq!(
        plan_sync(3, 300, 46, Some(5000), 50),
        Ok(SyncPlan::Sync {
            range: SyncRange {
                start_height: 46,
                end_height: 300,
                cdn_start: 0,
                cdn_end: 300,
            }
        })
    );
}
