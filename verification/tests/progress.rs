use voicefetch::errors::PipelineError;
use voicefetch::progress::DownloadProgress;

#[test]
fn length_unknown_before_any_write() {
    let begun = DownloadProgress::begin(None);
    assert!(matches!(begun, Err(PipelineError::LengthUnknown)));
}

#[test]
fn ten_equal_chunks_reach_total_exactly() {
    let mut progress = DownloadProgress::begin(Some(1000)).unwrap();
    let chunk = [7u8; 100];
    let mut last: u64 = 0;
    for step in 0..10u64 {
        let pos = progress.advance(&chunk);
        assert!(pos > last);
        assert!(pos <= 1000);
        assert_eq!(pos, (step + 1) * 100);
        last = pos;
    }
    assert_eq!(last, 1000);
    assert!(progress.is_complete());
    assert_eq!(progress.position(), progress.total());
}

#[test]
fn progress_is_capped_at_total() {
    let mut progress = DownloadProgress::begin(Some(250)).unwrap();
    let chunk = [0u8; 100];
    assert_eq!(progress.advance(&chunk), 100);
    assert_eq!(progress.advance(&chunk), 200);
    assert_eq!(progress.advance(&chunk), 250);
    assert_eq!(progress.advance(&chunk), 250);
    assert!(progress.is_complete());
}

#[test]
fn empty_chunk_does_not_move_position() {
    let mut progress = DownloadProgress::begin(Some(10)).unwrap();
    assert_eq!(progress.advance(&[]), 0);
    assert_eq!(progress.advance(&[1, 2, 3]), 3);
    assert_eq!(progress.advance(&[]), 3);
}

#[test]
fn zero_length_download_is_complete_immediately() {
    let progress = DownloadProgress::begin(Some(0)).unwrap();
    assert!(progress.is_complete());
    assert_eq!(progress.position(), 0);
}

#[test]
fn fresh_run_keeps_nothing_of_an_earlier_longer_run() {
    let mut long_run = DownloadProgress::begin(Some(1000)).unwrap();
    let big = [1u8; 500];
    long_run.advance(&big);
    long_run.advance(&big);
    assert!(long_run.is_complete());

    let mut short_run = DownloadProgress::begin(Some(5)).unwrap();
    assert_eq!(short_run.position(), 0);
    assert_eq!(short_run.total(), 5);
    let pos = short_run.advance(&[9, 9, 9, 9, 9]);
    assert_eq!(pos, 5);
    assert!(short_run.is_complete());
}

#[test]
fn identical_streams_report_identical_positions() {
    let chunks: Vec<Vec<u8>> = vec![vec![1; 64], vec![2; 32], vec![3; 16]];
    let mut first = DownloadProgress::begin(Some(112)).unwrap();
    let mut second = DownloadProgress::begin(Some(112)).unwrap();
    for chunk in &chunks {
        let a = first.advance(chunk);
        let b = second.advance(chunk);
        assert_eq!(a, b);
    }
    assert!(first.is_complete() && second.is_complete());
}
