use pcap_converter::merge::{
    merge, Dataset, MergeOutcome, RejectReason, DUPLICATE_ID_THRESHOLD, EXISTING_ID_SAMPLE_LIMIT,
    NEW_ID_SAMPLE_LIMIT,
};
use pcap_converter::record::PacketRecord;

fn rec(session: &str, urb: &str) -> PacketRecord {
    PacketRecord {
        session_id: session.to_string(),
        frame_number: 0,
        timestamp_raw: String::new(),
        timestamp_absolute: "Unknown".to_string(),
        direction: "Unknown".to_string(),
        device_address: 0,
        bus_id: 0,
        endpoint_address: "Unknown".to_string(),
        endpoint_number: 0,
        transfer_type: "Unknown".to_string(),
        urb_type: "Unknown".to_string(),
        urb_status: "Unknown".to_string(),
        data_length: 0,
        urb_length: 0,
        payload_hex: String::new(),
        payload_bytes_hex: String::new(),
        setup_flag: "Unknown".to_string(),
        data_flag: "Unknown".to_string(),
        interval: 0,
        start_frame: 0,
        frame_length: 0,
        frame_protocols: "Unknown".to_string(),
        source_file: session.to_string(),
        bmrequest_type: None,
        brequest: None,
        brequest_name: None,
        wvalue: None,
        windex: None,
        wlength: None,
        descriptor_type: None,
        descriptor_index: None,
        language_id: None,
        transfer_flags: None,
        copy_of_transfer_flags: None,
        urb_id: urb.to_string(),
        usb_src: "Unknown".to_string(),
        usb_dst: "Unknown".to_string(),
        usb_addr: "Unknown".to_string(),
        urb_ts_sec: 0,
        urb_ts_usec: 0,
        added_datetime: String::new(),
    }
}

fn dataset(rows: Vec<PacketRecord>) -> Dataset {
    Dataset { rows }
}

fn urb_ids(rows: &[PacketRecord]) -> Vec<&str> {
    rows.iter().map(|r| r.urb_id.as_str()).collect()
}

#[test]
fn empty_batch_short_circuits() {
    let existing = dataset(vec![rec("S0", "a")]);
    let outcome = merge(vec![], Some(existing), "S1", true);
    assert!(matches!(outcome, MergeOutcome::EmptyBatch));
}

#[test]
fn empty_batch_without_existing() {
    let outcome = merge(vec![], None, "S1", false);
    assert!(matches!(outcome, MergeOutcome::EmptyBatch));
}

#[test]
fn no_append_replaces_even_over_existing() {
    let existing = dataset(vec![rec("S0", "a")]);
    let new = vec![rec("S1", "x"), rec("S1", "y")];
    match merge(new, Some(existing), "S1", false) {
        MergeOutcome::Replace(rows) => assert_eq!(urb_ids(&rows), ["x", "y"]),
        _ => panic!("expected Replace"),
    }
}

#[test]
fn append_without_existing_replaces() {
    let new = vec![rec("S1", "x")];
    match merge(new, None, "S1", true) {
        MergeOutcome::Replace(rows) => assert_eq!(urb_ids(&rows), ["x"]),
        _ => panic!("expected Replace"),
    }
}

#[test]
fn duplicate_session_rejected_idempotently() {
    let new = vec![rec("S1", "n1")];
    for _ in 0..2 {
        let existing = dataset(vec![rec("S0", "a"), rec("S1", "b"), rec("S2", "c")]);
        match merge(new.clone(), Some(existing), "S1", true) {
            MergeOutcome::Rejected(reason) => {
                assert_eq!(reason, RejectReason::DuplicateSession)
            },
            _ => panic!("expected Rejected"),
        }
    }
}

#[test]
fn combination_preserves_both_orders() {
    let existing = dataset(vec![rec("S0", "e1"), rec("S0", "e2")]);
    let new = vec![rec("S1", "n1"), rec("S1", "n2")];
    match merge(new, Some(existing), "S1", true) {
        MergeOutcome::Combined(rows) => {
            assert_eq!(urb_ids(&rows), ["e1", "e2", "n1", "n2"]);
            assert_eq!(rows[0].session_id, "S0");
            assert_eq!(rows[2].session_id, "S1");
        },
        _ => panic!("expected Combined"),
    }
}

#[test]
fn two_sampled_overlaps_reject_as_likely_duplicate() {
    // New ids [a, b, c, d, e]; the existing dataset holds a and b early on.
    let existing = dataset(vec![rec("S0", "a"), rec("S0", "q"), rec("S0", "b")]);
    let new = vec![
        rec("S1", "a"),
        rec("S1", "b"),
        rec("S1", "c"),
        rec("S1", "d"),
        rec("S1", "e"),
    ];
    assert_eq!(DUPLICATE_ID_THRESHOLD, 2);
    match merge(new, Some(existing), "S1", true) {
        MergeOutcome::Rejected(reason) => {
            assert_eq!(reason, RejectReason::LikelyDuplicateContent)
        },
        _ => panic!("expected Rejected"),
    }
}

#[test]
fn single_overlap_stays_below_threshold() {
    let existing = dataset(vec![rec("S0", "a"), rec("S0", "q")]);
    let new = vec![
        rec("S1", "a"),
        rec("S1", "b"),
        rec("S1", "c"),
        rec("S1", "d"),
        rec("S1", "e"),
    ];
    match merge(new, Some(existing), "S1", true) {
        MergeOutcome::Combined(rows) => assert_eq!(rows.len(), 7),
        _ => panic!("expected Combined"),
    }
}

#[test]
fn overlap_beyond_new_sample_is_not_counted() {
    // Duplicated ids sit after the first five new rows, so sampling misses
    // them by design.
    assert_eq!(NEW_ID_SAMPLE_LIMIT, 5);
    let existing = dataset(vec![rec("S0", "f"), rec("S0", "g")]);
    let new = vec![
        rec("S1", "a"),
        rec("S1", "b"),
        rec("S1", "c"),
        rec("S1", "d"),
        rec("S1", "e"),
        rec("S1", "f"),
        rec("S1", "g"),
    ];
    match merge(new, Some(existing), "S1", true) {
        MergeOutcome::Combined(rows) => assert_eq!(rows.len(), 9),
        _ => panic!("expected Combined"),
    }
}

#[test]
fn overlap_beyond_existing_sample_is_not_counted() {
    // The matching ids sit past the first hundred existing rows, so the
    // bounded sample misses them by design.
    assert_eq!(EXISTING_ID_SAMPLE_LIMIT, 100);
    let mut rows = Vec::new();
    for i in 0..100 {
        rows.push(rec("S0", &format!("early{i}")));
    }
    rows.push(rec("S0", "a"));
    rows.push(rec("S0", "b"));
    let existing = dataset(rows);
    let new = vec![rec("S1", "a"), rec("S1", "b")];
    match merge(new, Some(existing), "S1", true) {
        MergeOutcome::Combined(rows) => assert_eq!(rows.len(), 104),
        _ => panic!("expected Combined"),
    }
}

#[test]
fn overlap_within_existing_sample_rejects() {
    let mut rows = Vec::new();
    for i in 0..98 {
        rows.push(rec("S0", &format!("early{i}")));
    }
    rows.push(rec("S0", "a"));
    rows.push(rec("S0", "b"));
    let existing = dataset(rows);
    let new = vec![rec("S1", "a"), rec("S1", "b")];
    match merge(new, Some(existing), "S1", true) {
        MergeOutcome::Rejected(reason) => {
            assert_eq!(reason, RejectReason::LikelyDuplicateContent)
        },
        _ => panic!("expected Rejected"),
    }
}

#[test]
fn duplicate_ids_within_new_batch_each_count() {
    // Two new rows carry the same already-present id: both sampled entries
    // overlap, which meets the threshold.
    let existing = dataset(vec![rec("S0", "a")]);
    let new = vec![rec("S1", "a"), rec("S1", "a")];
    match merge(new, Some(existing), "S1", true) {
        MergeOutcome::Rejected(reason) => {
            assert_eq!(reason, RejectReason::LikelyDuplicateContent)
        },
        _ => panic!("expected Rejected"),
    }
}

#[test]
fn session_guard_runs_before_heuristic() {
    // Same session id and overlapping ids: the session guard names the
    // reject.
    let existing = dataset(vec![rec("S1", "a"), rec("S1", "b")]);
    let new = vec![rec("S1", "a"), rec("S1", "b")];
    match merge(new, Some(existing), "S1", true) {
        MergeOutcome::Rejected(reason) => assert_eq!(reason, RejectReason::DuplicateSession),
        _ => panic!("expected Rejected"),
    }
}

#[test]
fn empty_existing_dataset_combines() {
    let existing = dataset(vec![]);
    let new = vec![rec("S1", "x")];
    match merge(new, Some(existing), "S1", true) {
        MergeOutcome::Combined(rows) => assert_eq!(urb_ids(&rows), ["x"]),
        _ => panic!("expected Combined"),
    }
}
