use majorsilence_pdf::handle::{AcquireStep, Handle};
use majorsilence_pdf::row::{RowAction, RowStaging};
use majorsilence_pdf::NativeCall;
use majorsilence_pdf::siblings::{bytes_before, has_extension, select_siblings, sibling_extension};

fn stage_bytes(a: &RowAction) -> Vec<u8> {
    match a {
        RowAction::Stage(b) => b.clone(),
        _ => panic!("expected a stage request"),
    }
}

#[test]
fn row_is_staged_in_order_then_committed() {
    let cells = ["Item", "Qty", "Price"];
    let mut row = RowStaging::new(&cells);
    let mut a = row.start();
    assert_eq!(stage_bytes(&a), b"Item\0".to_vec());
    a = row.advance(0);
    assert_eq!(stage_bytes(&a), b"Qty\0".to_vec());
    a = row.advance(0);
    assert_eq!(stage_bytes(&a), b"Price\0".to_vec());
    a = row.advance(0);
    assert!(matches!(a, RowAction::Commit));
    a = row.advance(0);
    assert!(matches!(a, RowAction::Finish(Ok(()))));
}

#[test]
fn empty_row_is_committed_at_once() {
    let cells: [&str; 0] = [];
    let mut row = RowStaging::new(&cells);
    assert!(matches!(row.start(), RowAction::Commit));
    match row.advance(2) {
        RowAction::Fail(f) => assert_eq!(f.call(), NativeCall::TableCommitRow),
        _ => panic!("expected a failed commit"),
    }
}

#[test]
fn failed_stage_stops_the_row() {
    let cells = ["a", "b"];
    let mut row = RowStaging::new(&cells);
    row.start();
    match row.advance(1) {
        RowAction::Fail(f) => assert_eq!(
            f.report("table closed").message(),
            "pdf_table_stage_cell failed: table closed"
        ),
        _ => panic!("expected the row to stop"),
    }
}

#[test]
fn nul_cell_stops_the_row_before_commit() {
    let cells = ["ok", "b\0ad", "never"];
    let mut row = RowStaging::new(&cells);
    assert_eq!(stage_bytes(&row.start()), b"ok\0".to_vec());
    match row.advance(0) {
        RowAction::Finish(Err(e)) => assert_eq!(
            e.message(),
            "string contains interior NUL byte: nul byte found in provided data at position: 1"
        ),
        _ => panic!("expected the row to stop"),
    }
}

#[test]
fn extensions_follow_path_rules() {
    assert!(has_extension(b"libpdfnative.so", b"so"));
    assert!(has_extension(b"a..so", b"so"));
    assert!(!has_extension(b".so", b"so"));
    assert!(!has_extension(b"libfoo.so.1", b"so"));
    assert!(!has_extension(b"so", b"so"));
    assert!(!has_extension(b"libfoo.SO", b"so"));
    assert!(!has_extension(b"..", b""));
    assert!(has_extension(b"a.", b""));
    assert!(has_extension(b"libx.dylib", b"dylib"));
}

#[test]
fn byte_order() {
    assert!(bytes_before(b"abc", b"abd"));
    assert!(bytes_before(b"ab", b"abc"));
    assert!(!bytes_before(b"abc", b"abc"));
    assert!(!bytes_before(b"b", b"abc"));
    assert!(bytes_before(b"Z", b"a"));
}

#[test]
fn siblings_are_filtered_and_sorted() {
    let names: Vec<Vec<u8>> = vec![
        b"libz.so".to_vec(),
        b"readme.txt".to_vec(),
        b"libpdfnative.so".to_vec(),
        b".so".to_vec(),
        b"libSkiaSharp.so".to_vec(),
        b"libold.so.1".to_vec(),
        b"libHarfBuzzSharp.so".to_vec(),
    ];
    let picked = select_siblings(&names, b"so");
    assert_eq!(
        picked,
        vec![
            b"libHarfBuzzSharp.so".to_vec(),
            b"libSkiaSharp.so".to_vec(),
            b"libpdfnative.so".to_vec(),
            b"libz.so".to_vec(),
        ]
    );
    assert!(select_siblings(&names, b"dylib").is_empty());
}

#[test]
fn platform_extension() {
    assert_eq!(sibling_extension(true), "dylib");
    assert_eq!(sibling_extension(false), "so");
}

#[test]
fn accepted_string_reaches_the_engine_intact() {
    for s in ["", "Invoice #42", "Grüße", "日本語", "👨‍👩‍👧"] {
        let mut bytes = majorsilence_pdf::text::c_string(s).unwrap();
        assert_eq!(bytes.pop(), Some(0));
        assert_eq!(String::from_utf8(bytes).unwrap(), s);
    }
}

#[test]
fn handle_life_follows_the_engine_protocol() {
    let mut h = Handle::none();
    // Close before anything was created: nothing to release.
    assert_eq!(h.release(), None);
    // First use creates, second use reuses.
    assert!(h.next_acquire() == AcquireStep::Create);
    assert_eq!(h.install(NativeCall::DocCreate, 0x10).unwrap(), 0x10);
    assert!(h.next_acquire() == AcquireStep::Reuse(0x10));
    // Close releases the object once.
    assert_eq!(h.release(), Some(0x10));
    assert_eq!(h.release(), None);
    // A later use creates a new object.
    assert!(h.next_acquire() == AcquireStep::Create);
    assert_eq!(h.install(NativeCall::DocCreate, 0x20).unwrap(), 0x20);
    assert_eq!(h.release(), Some(0x20));
}

#[test]
fn preloaded_files_are_exactly_the_shared_libraries() {
    let names: Vec<Vec<u8>> = vec![b"b.dylib".to_vec(), b"a.so".to_vec(), b"a.dylib".to_vec(), b"c".to_vec()];
    let picked = select_siblings(&names, sibling_extension(true).as_bytes());
    assert_eq!(picked, vec![b"a.dylib".to_vec(), b"b.dylib".to_vec()]);
    let picked = select_siblings(&names, sibling_extension(false).as_bytes());
    assert_eq!(picked, vec![b"a.so".to_vec()]);
}

#[test]
fn document_is_created_on_first_use_only() {
    let mut h = Handle::none();
    assert!(h.next_acquire() == AcquireStep::Create);
    let f = h.install(NativeCall::DocCreate, 0).unwrap_err();
    assert_eq!(f.report("engine not initialized").message(), "pdf_doc_create failed: engine not initialized");
    assert_eq!(h.raw(), 0);
    assert!(h.next_acquire() == AcquireStep::Create);
    assert_eq!(h.install(NativeCall::DocCreate, 0x30).unwrap(), 0x30);
    // Live: the constructor is not asked for again.
    assert!(h.next_acquire() == AcquireStep::Reuse(0x30));
    assert!(h.next_acquire() == AcquireStep::Reuse(0x30));
    assert_eq!(h.release(), Some(0x30));
}
