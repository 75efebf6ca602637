use cdn_sync::progress::log_progress;

#[test]
fn test_log_progress() {
    // This test sanity checks that basic arithmetic is correct (i.e. no
    // divide by zero, etc.) across a whole range of ticks.
    let cdn_start = 0;
    let cdn_end = 100;
    let elapsed_millis = 0;
    log_progress(elapsed_millis, 0, cdn_start, cdn_end, 10);
    log_progress(elapsed_millis, 10, cdn_start, cdn_end, 10);
    log_progress(elapsed_millis, 20, cdn_start, cdn_end, 10);
    log_progress(elapsed_millis, 30, cdn_start, cdn_end, 10);
    log_progress(elapsed_millis, 40, cdn_start, cdn_end, 10);
    log_progress(elapsed_millis, 50, cdn_start, cdn_end, 10);
    log_progress(elapsed_millis, 60, cdn_start, cdn_end, 10);
    log_progress(elapsed_millis, 70, cdn_start, cdn_end, 10);
    log_progress(elapsed_millis, 80, cdn_start, cdn_end, 10);
    log_progress(elapsed_millis, 90, cdn_start, cdn_end, 10);
    log_progress(elapsed_millis, 100, cdn_start, cdn_end, 10);
}

#[test]
fn test_log_progress_values() {
    let p = log_progress(60000, 50, 0, 100, 10);
    assert_eq!(p.percentage, 50 * 100 / 99);
    assert_eq!(p.files_done, 6);
    assert_eq!(p.files_remaining, 1 + 49 / 10);
    assert_eq!(p.millis_per_file, 10000);
    assert_eq!(p.time_remaining_millis, 5 * 10000 + 100 * 5);
    assert_eq!(p.minutes_remaining, 50500 / 60000);

    let p = log_progress(0, 0, 0, 100, 10);
    assert_eq!(p.percentage, 0);
    assert_eq!(p.files_done, 1);
    assert_eq!(p.files_remaining, 10);
    assert_eq!(p.millis_per_file, 0);
    assert_eq!(p.time_remaining_millis, 1000);

    // Past the inclusive end the remainder saturates at zero files plus
    // the constant one.
    let p = log_progress(1000, 100, 0, 100, 10);
    assert_eq!(p.files_remaining, 1);
}
