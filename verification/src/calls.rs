use vstd::prelude::*;

verus! {

/// The entry points of the native engine whose failures are reported to the caller.
#[derive(Clone, Copy, Debug, PartialEq, Eq, Structural)]
pub enum NativeCall {
    Init,
    DocCreate,
    DocSetTitle,
    DocSetAuthor,
    DocSetSubject,
    DocSetCreator,
    DocSetSecurity,
    DocAddPage,
    DocSaveFile,
    DocSaveBuffer,
    CanvasDrawText,
    CanvasDrawTextbox,
    CanvasDrawLine,
    CanvasDrawRect,
    CanvasDrawEllipse,
    CanvasDrawImage,
    CanvasDrawTable,
    CanvasAddLink,
    StyleCreate,
    StyleSetFontFamily,
    StyleSetFontFile,
    StyleSetSize,
    StyleSetColor,
    StyleSetBold,
    StyleSetItalic,
    StyleSetAlignment,
    StyleSetDecoration,
    TableCreate,
    TableSetHeaderBg,
    TableSetAlternateBg,
    TableSetBorder,
    TableSetCellPadding,
    TableStageCell,
    TableCommitRow,
    MergeCreate,
    MergeAddBytes,
    MergeSaveFile,
    MergeSaveBuffer,
}

impl NativeCall {
    /// The exported symbol name of the entry point.
    pub open spec fn symbol(self) -> Seq<char> {
        match self {
            NativeCall::Init => "pdf_init"@,
            NativeCall::DocCreate => "pdf_doc_create"@,
            NativeCall::DocSetTitle => "pdf_doc_set_title"@,
            NativeCall::DocSetAuthor => "pdf_doc_set_author"@,
            NativeCall::DocSetSubject => "pdf_doc_set_subject"@,
            NativeCall::DocSetCreator => "pdf_doc_set_creator"@,
            NativeCall::DocSetSecurity => "pdf_doc_set_security"@,
            NativeCall::DocAddPage => "pdf_doc_add_page"@,
            NativeCall::DocSaveFile => "pdf_doc_save_file"@,
            NativeCall::DocSaveBuffer => "pdf_doc_save_buffer"@,
            NativeCall::CanvasDrawText => "pdf_canvas_draw_text"@,
            NativeCall::CanvasDrawTextbox => "pdf_canvas_draw_textbox"@,
            NativeCall::CanvasDrawLine => "pdf_canvas_draw_line"@,
            NativeCall::CanvasDrawRect => "pdf_canvas_draw_rect"@,
            NativeCall::CanvasDrawEllipse => "pdf_canvas_draw_ellipse"@,
            NativeCall::CanvasDrawImage => "pdf_canvas_draw_image"@,
            NativeCall::CanvasDrawTable => "pdf_canvas_draw_table"@,
            NativeCall::CanvasAddLink => "pdf_canvas_add_link"@,
            NativeCall::StyleCreate => "pdf_style_create"@,
            NativeCall::StyleSetFontFamily => "pdf_style_set_font_family"@,
            NativeCall::StyleSetFontFile => "pdf_style_set_font_file"@,
            NativeCall::StyleSetSize => "pdf_style_set_size"@,
            NativeCall::StyleSetColor => "pdf_style_set_color"@,
            NativeCall::StyleSetBold => "pdf_style_set_bold"@,
            NativeCall::StyleSetItalic => "pdf_style_set_italic"@,
            NativeCall::StyleSetAlignment => "pdf_style_set_alignment"@,
            NativeCall::StyleSetDecoration => "pdf_style_set_decoration"@,
            NativeCall::TableCreate => "pdf_table_create"@,
            NativeCall::TableSetHeaderBg => "pdf_table_set_header_bg"@,
            NativeCall::TableSetAlternateBg => "pdf_table_set_alternate_bg"@,
            NativeCall::TableSetBorder => "pdf_table_set_border"@,
            NativeCall::TableSetCellPadding => "pdf_table_set_cell_padding"@,
            NativeCall::TableStageCell => "pdf_table_stage_cell"@,
            NativeCall::TableCommitRow => "pdf_table_commit_row"@,
            NativeCall::MergeCreate => "pdf_merge_create"@,
            NativeCall::MergeAddBytes => "pdf_merge_add_bytes"@,
            NativeCall::MergeSaveFile => "pdf_merge_save_file"@,
            NativeCall::MergeSaveBuffer => "pdf_merge_save_buffer"@,
        }
    }

    /// The exported symbol name of the entry point, as named in error messages.
    pub fn name(&self) -> (s: &'static str)
        ensures
            s@ == self.symbol(),
    {
        match self {
            NativeCall::Init => "pdf_init",
            NativeCall::DocCreate => "pdf_doc_create",
            NativeCall::DocSetTitle => "pdf_doc_set_title",
            NativeCall::DocSetAuthor => "pdf_doc_set_author",
            NativeCall::DocSetSubject => "pdf_doc_set_subject",
            NativeCall::DocSetCreator => "pdf_doc_set_creator",
            NativeCall::DocSetSecurity => "pdf_doc_set_security",
            NativeCall::DocAddPage => "pdf_doc_add_page",
            NativeCall::DocSaveFile => "pdf_doc_save_file",
            NativeCall::DocSaveBuffer => "pdf_doc_save_buffer",
            NativeCall::CanvasDrawText => "pdf_canvas_draw_text",
            NativeCall::CanvasDrawTextbox => "pdf_canvas_draw_textbox",
            NativeCall::CanvasDrawLine => "pdf_canvas_draw_line",
            NativeCall::CanvasDrawRect => "pdf_canvas_draw_rect",
            NativeCall::CanvasDrawEllipse => "pdf_canvas_draw_ellipse",
            NativeCall::CanvasDrawImage => "pdf_canvas_draw_image",
            NativeCall::CanvasDrawTable => "pdf_canvas_draw_table",
            NativeCall::CanvasAddLink => "pdf_canvas_add_link",
            NativeCall::StyleCreate => "pdf_style_create",
            NativeCall::StyleSetFontFamily => "pdf_style_set_font_family",
            NativeCall::StyleSetFontFile => "pdf_style_set_font_file",
            NativeCall::StyleSetSize => "pdf_style_set_size",
            NativeCall::StyleSetColor => "pdf_style_set_color",
            NativeCall::StyleSetBold => "pdf_style_set_bold",
            NativeCall::StyleSetItalic => "pdf_style_set_italic",
            NativeCall::StyleSetAlignment => "pdf_style_set_alignment",
            NativeCall::StyleSetDecoration => "pdf_style_set_decoration",
            NativeCall::TableCreate => "pdf_table_create",
            NativeCall::TableSetHeaderBg => "pdf_table_set_header_bg",
            NativeCall::TableSetAlternateBg => "pdf_table_set_alternate_bg",
            NativeCall::TableSetBorder => "pdf_table_set_border",
            NativeCall::TableSetCellPadding => "pdf_table_set_cell_padding",
            NativeCall::TableStageCell => "pdf_table_stage_cell",
            NativeCall::TableCommitRow => "pdf_table_commit_row",
            NativeCall::MergeCreate => "pdf_merge_create",
            NativeCall::MergeAddBytes => "pdf_merge_add_bytes",
            NativeCall::MergeSaveFile => "pdf_merge_save_file",
            NativeCall::MergeSaveBuffer => "pdf_merge_save_buffer",
        }
    }
}

} // verus!
