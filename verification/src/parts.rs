//! The parts of a multipart form, as plain values: a text field, or a named
//! file field carrying raw bytes.

use vstd::prelude::*;

verus! {

/// The mathematical view of one form part.
pub enum PartView {
    /// A text field: its field name and its UTF-8 text.
    Text { name: Seq<char>, value: Seq<char> },
    /// A file field: its field name, the filename it reports, and its raw
    /// bytes.
    File { name: Seq<char>, filename: Seq<char>, data: Seq<u8> },
}

/// One part of a multipart form, held as plain values.
#[derive(Debug, Clone, PartialEq, Eq)]
pub enum FormPart {
    /// A text field: its field name and its UTF-8 text.
    Text { name: String, value: String },
    /// A file field: its field name, the filename it reports, and its raw
    /// bytes.
    File { name: String, filename: String, data: Vec<u8> },
}

impl View for FormPart {
    type V = PartView;

    open spec fn view(&self) -> PartView {
        match self {
            FormPart::Text { name, value } => PartView::Text { name: name@, value: value@ },
            FormPart::File { name, filename, data } => PartView::File {
                name: name@,
                filename: filename@,
                data: data@,
            },
        }
    }
}

/// The views of a sequence of parts, in order.
pub open spec fn parts_view(s: Seq<FormPart>) -> Seq<PartView> {
    s.map_values(|p: FormPart| p@)
}

} // verus!
