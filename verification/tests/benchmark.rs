use brail::benchmark::BenchmarkRun;
use brail::stats::ResourceStats;

fn sample(ram_mb_x100: u64, cpu_x100: u64) -> ResourceStats {
    ResourceStats { process_ram_mb_x100: ram_mb_x100, process_cpu_percent_x100: cpu_x100, ..Default::default() }
}

#[test]
fn report_computes_means_and_drift() {
    let mut run = BenchmarkRun::start(4000, 60, 1000, 0);
    run.record(sample(8000, 1000), 6000, 400, 0, None);
    run.record(sample(9000, 2000), 6000, 600, 0, None);

    let report = run.finish(1000);
    assert_eq!(report.samples_taken, 2);
    assert_eq!(report.mean_ram_mb_x100, 8500);
    assert_eq!(report.ram_drift_mb_x100, 1000);
    assert_eq!(report.mean_cpu_percent_x100, 1500);
    assert_eq!(report.peak_ram_mb_x100, 9000);
}

#[test]
fn unavailable_gpu_stays_none_rather_than_zero() {
    let mut run = BenchmarkRun::start(4000, 60, 1000, 0);
    run.record(sample(8000, 1000), 6000, 400, 0, None);
    let report = run.finish(1000);
    assert!(report.mean_gpu_percent_x100.is_none());
    assert!(report.mean_upload_kbps_x100.is_none());
}

#[test]
fn dropped_frames_are_counted_as_a_delta() {
    let mut run = BenchmarkRun::start(4000, 60, 1000, 0);
    run.record(sample(8000, 1000), 6000, 400, 1000, None);
    run.record(sample(8000, 1000), 6000, 400, 1007, None);
    assert_eq!(run.finish(1000).dropped_frames, 7);
}

#[test]
fn summary_reads_as_one_line() {
    let mut run = BenchmarkRun::start(4000, 60, 1000, 0);
    run.record(sample(8000, 1000), 6000, 400, 0, None);
    run.record(sample(9000, 2000), 6000, 600, 0, None);
    assert_eq!(run.finish(500).summary, "85 MB RAM, 15% CPU, held 60 FPS");

    let mut slow = BenchmarkRun::start(4000, 60, 1000, 0);
    slow.record(sample(10_000, 5_000), 4_000, 400, 10, Some(500_000));
    slow.record(sample(14_000, 5_000), 5_000, 400, 13, Some(700_000));
    let report = slow.finish(2_000);
    assert_eq!(report.summary, "120 MB RAM, 50% CPU, captured 45 of 60 FPS, 3 frames dropped, memory grew 40 MB during the run");
    assert_eq!(report.mean_upload_kbps_x100, Some(600_000));
    assert_eq!(report.duration_ms, 2_000);
}

#[test]
fn runs_complete_after_their_duration() {
    let run = BenchmarkRun::start(0, 30, 60_000, 1_000);
    assert!(!run.is_complete(60_999));
    assert!(run.is_complete(61_000));
    assert!(!run.is_complete(0));
}

#[test]
fn an_empty_run_reports_zeroes() {
    let run = BenchmarkRun::start(4000, 0, 1000, 0);
    let report = run.finish(0);
    assert_eq!(report.samples_taken, 0);
    assert_eq!(report.mean_ram_mb_x100, 0);
    assert_eq!(report.summary, "0 MB RAM, 0% CPU");
}
