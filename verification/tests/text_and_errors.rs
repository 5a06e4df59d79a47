use majorsilence_pdf::args::{
    buffer_length, c_count, c_dimension, c_flag, encryption_version, optional_c_string, paint,
    style_raw, ALIGN_CENTER, ALIGN_LEFT, ALIGN_RIGHT, DECOR_NONE, DECOR_OVERLINE,
    DECOR_STRIKETHROUGH, DECOR_UNDERLINE, PERM_ADD_ANNOTATIONS, PERM_ALL, PERM_ASSEMBLE,
    PERM_COPY_TEXT, PERM_EXTRACT_TEXT, PERM_FILL_FORMS, PERM_MODIFY_CONTENT, PERM_PRINT,
    PERM_PRINT_HIGH_QUALITY,
};
use majorsilence_pdf::handle::{AcquireStep, Handle};
use majorsilence_pdf::status::{check_created, check_status, textbox_offset, Failure};
use majorsilence_pdf::text::{c_string, decimal_string, last_error_text};
use majorsilence_pdf::{Error, NativeCall};

#[test]
fn call_names_are_the_exported_symbols() {
    assert_eq!(NativeCall::Init.name(), "pdf_init");
    assert_eq!(NativeCall::DocSetTitle.name(), "pdf_doc_set_title");
    assert_eq!(NativeCall::CanvasDrawTextbox.name(), "pdf_canvas_draw_textbox");
    assert_eq!(NativeCall::TableStageCell.name(), "pdf_table_stage_cell");
    assert_eq!(NativeCall::MergeSaveBuffer.name(), "pdf_merge_save_buffer");
}

#[test]
fn error_messages() {
    assert_eq!(Error::new(String::from("plain")).message(), "plain");
    assert_eq!(
        Error::call_failed(NativeCall::DocSaveFile, "disk full").message(),
        "pdf_doc_save_file failed: disk full"
    );
    assert_eq!(
        Error::interior_nul(12).message(),
        "string contains interior NUL byte: nul byte found in provided data at position: 12"
    );
    assert_eq!(
        Error::missing_symbol("b\"pdf_init\\0\"", "undefined symbol").message(),
        "missing symbol b\"pdf_init\\0\": undefined symbol"
    );
    assert_eq!(
        Error::unresolved_path("No such file or directory (os error 2)").message(),
        "cannot resolve library path: No such file or directory (os error 2)"
    );
}

#[test]
fn decimal_notation() {
    assert_eq!(decimal_string(0), "0");
    assert_eq!(decimal_string(7), "7");
    assert_eq!(decimal_string(10), "10");
    assert_eq!(decimal_string(1234567890), "1234567890");
    assert_eq!(decimal_string(usize::MAX), usize::MAX.to_string());
}

#[test]
fn c_string_appends_terminator() {
    assert_eq!(c_string("Hello, PDF!").unwrap(), b"Hello, PDF!\0".to_vec());
    assert_eq!(c_string("").unwrap(), vec![0u8]);
    assert_eq!(c_string("é").unwrap(), vec![0xC3u8, 0xA9, 0]);
}

#[test]
fn c_string_refuses_interior_nul() {
    let e = c_string("a\0b\0").unwrap_err();
    assert_eq!(
        e.message(),
        "string contains interior NUL byte: nul byte found in provided data at position: 1"
    );
    let e = c_string("éé\0").unwrap_err();
    assert_eq!(
        e.message(),
        "string contains interior NUL byte: nul byte found in provided data at position: 4"
    );
}

#[test]
fn last_error_text_cases() {
    assert_eq!(last_error_text(None), "unknown error");
    assert_eq!(last_error_text(Some(b"font not found")), "font not found");
    assert_eq!(last_error_text(Some(&[0x66, 0xFF, 0x67])), "f\u{FFFD}g");
    assert_eq!(last_error_text(Some(&[0xC3, 0xA9])), "é");
}

#[test]
fn status_zero_is_success() {
    assert!(check_status(NativeCall::StyleSetSize, 0).is_ok());
}

#[test]
fn status_nonzero_is_failure_of_that_call() {
    for ret in [-3, 1, i32::MAX, i32::MIN] {
        let f = check_status(NativeCall::StyleSetSize, ret).unwrap_err();
        assert_eq!(f.call(), NativeCall::StyleSetSize);
        assert_eq!(f.report("bad size").message(), "pdf_style_set_size failed: bad size");
    }
    let f = check_status(NativeCall::Init, 1).unwrap_err();
    assert_eq!(f.report("no runtime").message(), "pdf_init failed: no runtime");
}

#[test]
fn failure_reports() {
    let f = Failure::new(NativeCall::DocSetAuthor);
    assert_eq!(f.call(), NativeCall::DocSetAuthor);
    assert_eq!(f.report("").message(), "pdf_doc_set_author failed: ");
}

#[test]
fn created_handle_checks() {
    assert_eq!(check_created(NativeCall::MergeCreate, 0x1000).unwrap(), 0x1000);
    let f = check_created(NativeCall::MergeCreate, 0).unwrap_err();
    assert_eq!(f.report("oom").message(), "pdf_merge_create failed: oom");
}

#[test]
fn textbox_offsets() {
    assert_eq!(textbox_offset(0).unwrap(), 0);
    assert_eq!(textbox_offset(42).unwrap(), 42);
    let f = textbox_offset(-1).unwrap_err();
    assert_eq!(f.report("no canvas").message(), "pdf_canvas_draw_textbox failed: no canvas");
}

#[test]
fn handle_release_is_idempotent() {
    let mut h = Handle::created(NativeCall::StyleCreate, 0xBEEF).unwrap();
    assert_eq!(h.raw(), 0xBEEF);
    assert!(h.next_acquire() == AcquireStep::Reuse(0xBEEF));
    assert_eq!(h.release(), Some(0xBEEF));
    assert_eq!(h.raw(), 0);
    assert_eq!(h.release(), None);
    assert_eq!(h.raw(), 0);
}

#[test]
fn handle_creation_failure() {
    let f = Handle::created(NativeCall::DocAddPage, 0).err().unwrap();
    assert_eq!(f.report("no doc").message(), "pdf_doc_add_page failed: no doc");
}

#[test]
fn lazy_document_creation() {
    let mut h = Handle::none();
    assert!(h.next_acquire() == AcquireStep::Create);
    let f = h.install(NativeCall::DocCreate, 0).unwrap_err();
    assert_eq!(f.report("engine down").message(), "pdf_doc_create failed: engine down");
    assert_eq!(h.raw(), 0);
    assert!(h.next_acquire() == AcquireStep::Create);
    assert_eq!(h.install(NativeCall::DocCreate, 0x2000).unwrap(), 0x2000);
    assert!(h.next_acquire() == AcquireStep::Reuse(0x2000));
    assert_eq!(h.release(), Some(0x2000));
    assert!(h.next_acquire() == AcquireStep::Create);
}

#[test]
fn marshalling() {
    assert_eq!(paint(Some((1, 2, 3))), (1, 2, 3, 1));
    assert_eq!(paint(None), (0, 0, 0, 0));
    assert_eq!(encryption_version(true), 0);
    assert_eq!(encryption_version(false), 1);
    assert_eq!(c_flag(true), 1);
    assert_eq!(c_flag(false), 0);
    assert_eq!(c_count(3), 3);
    assert_eq!(c_count(3_000_000_000), -1_294_967_296);
    assert_eq!(c_dimension(640), 640);
    assert_eq!(c_dimension(u32::MAX), -1);
    assert_eq!(buffer_length(1024), 1024);
    let h = Handle::created(NativeCall::StyleCreate, 77).unwrap();
    assert_eq!(style_raw(Some(&h)), 77);
    assert_eq!(style_raw(None), 0);
}

#[test]
fn optional_strings() {
    assert!(optional_c_string(None).unwrap().is_none());
    assert_eq!(optional_c_string(Some("owner")).unwrap().unwrap(), b"owner\0".to_vec());
    assert!(optional_c_string(Some("ow\0ner")).is_err());
}

#[test]
fn style_and_permission_constants() {
    assert_eq!((ALIGN_LEFT, ALIGN_CENTER, ALIGN_RIGHT), (0, 1, 2));
    assert_eq!((DECOR_NONE, DECOR_UNDERLINE, DECOR_STRIKETHROUGH, DECOR_OVERLINE), (0, 1, 2, 3));
    assert_eq!(
        [
            PERM_PRINT,
            PERM_MODIFY_CONTENT,
            PERM_COPY_TEXT,
            PERM_ADD_ANNOTATIONS,
            PERM_FILL_FORMS,
            PERM_EXTRACT_TEXT,
            PERM_ASSEMBLE,
            PERM_PRINT_HIGH_QUALITY,
            PERM_ALL
        ],
        [4, 8, 16, 32, 256, 512, 1024, 2048, -1]
    );
}
