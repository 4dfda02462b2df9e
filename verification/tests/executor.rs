//! Tests of the resume executor's decision machine.

use tondar_dm::executor::{FileAction, Phase, RespAction, Session};
use tondar_dm::executor::{preallocation_target, range_header_value};

/// Idempotence on completion: a file already at the known total opens in
/// `Done` with nothing to truncate; no request phase is ever entered.
#[test]
fn complete_file_is_noop() {
    let (s, action) = Session::begin(1000, Some(1000), true, None, None);
    assert!(matches!(action, FileAction::Keep));
    assert!(matches!(s.phase, Phase::Done));
    assert!(!s.wrote_any);
}

/// Shrink guard: a file longer than the total is truncated to the total and
/// the run is an immediate complete-skip.
#[test]
fn overlong_file_is_truncated_to_total() {
    let (s, action) = Session::begin(1500, Some(1000), true, None, None);
    assert!(matches!(action, FileAction::Truncate(1000)));
    assert_eq!(s.start_offset, 1000);
    assert!(matches!(s.phase, Phase::Done));
}

/// Non-resumable server: any partial content is discarded before a request.
#[test]
fn non_resumable_server_truncates_to_zero() {
    let (s, action) = Session::begin(700, Some(1000), false, None, None);
    assert!(matches!(action, FileAction::Truncate(0)));
    assert_eq!(s.start_offset, 0);
    assert!(matches!(s.phase, Phase::Request));

    let (s2, action2) = Session::begin(700, None, false, None, None);
    assert!(matches!(action2, FileAction::Truncate(0)));
    assert_eq!(s2.start_offset, 0);
    assert!(matches!(s2.phase, Phase::Request));
}

/// Offset correctness: a partial file on a ranged server resumes at its
/// length, and the issued header is `bytes=<L>-`.
#[test]
fn resume_request_carries_local_length() {
    let (mut s, action) = Session::begin(500, Some(1000), true, None, None);
    assert!(matches!(action, FileAction::Keep));
    let plan = s.next_request();
    assert_eq!(plan.range_start, Some(500));
    assert_eq!(range_header_value(500), "bytes=500-");
}

/// The `If-Range` validator prefers the entity tag and falls back to the
/// last-modified stamp.
#[test]
fn if_range_prefers_etag() {
    let (mut s, _) = Session::begin(
        500,
        Some(1000),
        true,
        Some("\"abc\"".to_string()),
        Some("Tue, 01 Jan 2030 00:00:00 GMT".to_string()),
    );
    let plan = s.next_request();
    assert_eq!(plan.if_range.as_deref(), Some("\"abc\""));

    let (mut s2, _) = Session::begin(
        500,
        Some(1000),
        true,
        None,
        Some("Tue, 01 Jan 2030 00:00:00 GMT".to_string()),
    );
    let plan2 = s2.next_request();
    assert_eq!(plan2.if_range.as_deref(), Some("Tue, 01 Jan 2030 00:00:00 GMT"));
}

/// A plain GET (offset zero) carries neither range nor validator.
#[test]
fn fresh_start_is_plain_get() {
    let (mut s, _) = Session::begin(0, Some(1000), true, Some("\"abc\"".to_string()), None);
    let plan = s.next_request();
    assert_eq!(plan.range_start, None);
    assert_eq!(plan.if_range, None);
}

/// Resume-validity table at `start_offset = 500`, total 1000: 206 accepted;
/// 200 with `Content-Range` accepted; 200 with declared length 500 accepted;
/// 200 with unknown total rejected and restarted from zero.
#[test]
fn resume_validity_table() {
    let run = |size: Option<u64>, status: u16, has_cr: bool, cl: Option<u64>| -> RespAction {
        let (mut s, _) = Session::begin(500, size, true, None, None);
        let _ = s.next_request();
        s.on_response(status, has_cr, cl)
    };
    assert!(matches!(run(Some(1000), 206, false, None), RespAction::Stream));
    assert!(matches!(run(Some(1000), 200, true, None), RespAction::Stream));
    assert!(matches!(run(Some(1000), 200, false, Some(500)), RespAction::Stream));
    assert!(matches!(run(None, 200, false, None), RespAction::Restart));
    assert!(matches!(run(Some(1000), 200, false, Some(400)), RespAction::Restart));
}

/// After a restart the follow-up request is a plain GET and its response is
/// streamed from offset zero whatever it looks like.
#[test]
fn restart_streams_from_zero() {
    let (mut s, _) = Session::begin(500, None, true, Some("\"tag\"".to_string()), None);
    let _ = s.next_request();
    let action = s.on_response(200, false, None);
    assert!(matches!(action, RespAction::Restart));
    assert_eq!(s.start_offset, 0);
    let plan = s.next_request();
    assert_eq!(plan.range_start, None);
    assert_eq!(plan.if_range, None);
    assert!(matches!(s.on_response(200, false, None), RespAction::Stream));
    let dest = s.on_chunk(&[1, 2, 3]);
    assert_eq!(dest.data_from, 0);
    assert_eq!(dest.file_pos, 0);
}

/// A 416 below the total asks for the backoff retry; a 416 at an offset that
/// already covers the total ends the run successfully instead.
#[test]
fn range_not_satisfiable_when_complete() {
    let (mut s, _) = Session::begin(1000, Some(1200), true, None, None);
    let _ = s.next_request();
    assert!(matches!(s.on_response(416, false, None), RespAction::Retry));

    // The offset-at-total case guards against a total learned elsewhere than
    // the reconciliation; build that state directly.
    let (mut s2, _) = Session::begin(1000, Some(1200), true, None, None);
    let _ = s2.next_request();
    s2.size = Some(1000);
    assert!(matches!(s2.on_response(416, false, None), RespAction::Complete));
    assert!(matches!(s2.phase, Phase::Done));
}

/// The 416 scenario: offset 750 of 1000 draws a 416; the retry asks for 749
/// with no validator; the retried body's first byte is discarded and the
/// first written byte lands at offset 750.
#[test]
fn backoff_discards_exactly_one_byte() {
    let (mut s, _) = Session::begin(
        750,
        Some(1000),
        true,
        Some("\"tag\"".to_string()),
        None,
    );
    let plan = s.next_request();
    assert_eq!(plan.range_start, Some(750));
    let action = s.on_response(416, false, None);
    assert!(matches!(action, RespAction::Retry));
    let retry_plan = s.next_request();
    assert_eq!(retry_plan.range_start, Some(749));
    assert_eq!(retry_plan.if_range, None);
    assert!(matches!(s.on_response(206, false, None), RespAction::Stream));

    // The retried stream re-sends the byte at 749 first.
    let mut file: Vec<(u64, Vec<u8>)> = Vec::new();
    let chunks: [&[u8]; 3] = [&[9, 10, 11], &[], &[12, 13]];
    for chunk in chunks {
        let dest = s.on_chunk(chunk);
        let kept = &chunk[dest.data_from..];
        if !kept.is_empty() {
            file.push((dest.file_pos, kept.to_vec()));
        }
    }
    // Byte 9 (the re-sent byte at 749) was discarded; 10 lands at 750.
    assert_eq!(file, vec![(750u64, vec![10, 11]), (752u64, vec![12, 13])]);
    s.end_of_body();
    assert!(matches!(s.phase, Phase::Finalize));
    s.finalized();
    assert!(matches!(s.phase, Phase::Done));
    assert!(s.synced);
}

/// A skip budget larger than the first chunk carries over to the next one.
#[test]
fn skip_budget_spans_chunks() {
    let (mut s, _) = Session::begin(1, Some(10), true, None, None);
    let _ = s.next_request();
    assert!(matches!(s.on_response(416, false, None), RespAction::Retry));
    let _ = s.next_request();
    assert!(matches!(s.on_response(206, false, None), RespAction::Stream));
    let d0 = s.on_chunk(&[]);
    assert_eq!(d0.data_from, 0);
    let d1 = s.on_chunk(&[7, 8]);
    assert_eq!(d1.data_from, 1);
    assert_eq!(d1.file_pos, 1);
}

/// Durability bookkeeping: a run that streamed anything reaches `Done` only
/// through the sync; the complete-skip run reaches `Done` without one.
#[test]
fn sync_happens_when_bytes_were_written() {
    let (mut s, _) = Session::begin(0, Some(3), true, None, None);
    let _ = s.next_request();
    assert!(matches!(s.on_response(200, false, Some(3)), RespAction::Stream));
    let _ = s.on_chunk(&[1, 2, 3]);
    assert!(s.wrote_any);
    s.end_of_body();
    s.finalized();
    assert!(s.synced);

    let (skip, _) = Session::begin(3, Some(3), true, None, None);
    assert!(matches!(skip.phase, Phase::Done));
    assert!(!skip.wrote_any && !skip.synced);
}

/// Preallocation never shrinks and is a no-op without a larger known total.
#[test]
fn preallocation_is_monotone() {
    assert_eq!(preallocation_target(Some(100), 50, true), Some(100));
    assert_eq!(preallocation_target(Some(100), 150, true), None);
    assert_eq!(preallocation_target(Some(100), 100, true), None);
    assert_eq!(preallocation_target(Some(100), 50, false), None);
    assert_eq!(preallocation_target(None, 50, true), None);
}
