//! Assembly of the multipart form that goes over the wire.
//!
//! The form itself is `reqwest::multipart::Form`, an opaque outside type; a
//! handful of trusted wrappers state, over the uninterpreted contents
//! [`form_view`], what each `reqwest` call does to the list of fields, and
//! [`to_multipart`] is verified against them to carry a list of
//! [`FormPart`]s into the form unchanged and in order.

use vstd::prelude::*;

use crate::parts::{FormPart, PartView, parts_view};

verus! {

#[verifier::external_type_specification]
#[verifier::external_body]
pub struct ExForm(reqwest::multipart::Form);

#[verifier::external_type_specification]
#[verifier::external_body]
pub struct ExPart(reqwest::multipart::Part);

/// The fields a form holds, in the order they were added.
pub uninterp spec fn form_view(f: reqwest::multipart::Form) -> Seq<PartView>;

/// The raw bytes a part carries.
pub uninterp spec fn part_data(p: reqwest::multipart::Part) -> Seq<u8>;

/// The filename a part reports, if one was set.
pub uninterp spec fn part_filename(p: reqwest::multipart::Part) -> Option<Seq<char>>;

/// Relies on reqwest's `multipart::Form::new`: the new form holds no fields.
#[verifier::external_body]
fn form_new() -> (f: reqwest::multipart::Form)
    ensures
        form_view(f) == Seq::<PartView>::empty(),
{
    reqwest::multipart::Form::new()
}

/// Relies on reqwest's `multipart::Form::text`: it appends one text field
/// with the given name and value after the existing fields.
#[verifier::external_body]
fn form_text(f: reqwest::multipart::Form, name: &String, value: &String) -> (r:
    reqwest::multipart::Form)
    ensures
        form_view(r) == form_view(f).push(PartView::Text { name: name@, value: value@ }),
{
    f.text(name.clone(), value.clone())
}

/// Relies on reqwest's `multipart::Part::bytes`: the part carries exactly
/// the given bytes and reports no filename yet.
#[verifier::external_body]
fn part_bytes(data: &Vec<u8>) -> (p: reqwest::multipart::Part)
    ensures
        part_data(p) == data@,
        part_filename(p) == None::<Seq<char>>,
{
    reqwest::multipart::Part::bytes(data.clone())
}

/// Relies on reqwest's `multipart::Part::file_name`: it sets the reported
/// filename and leaves the carried bytes unchanged.
#[verifier::external_body]
fn part_file_name(p: reqwest::multipart::Part, filename: &String) -> (r:
    reqwest::multipart::Part)
    ensures
        part_data(r) == part_data(p),
        part_filename(r) == Some(filename@),
{
    p.file_name(filename.clone())
}

/// Relies on reqwest's `multipart::Form::part`: it appends the given part
/// under the given field name after the existing fields.
#[verifier::external_body]
fn form_file_part(f: reqwest::multipart::Form, name: &String, p: reqwest::multipart::Part) -> (r:
    reqwest::multipart::Form)
    requires
        part_filename(p) is Some,
    ensures
        form_view(r) == form_view(f).push(PartView::File {
            name: name@,
            filename: part_filename(p)->0,
            data: part_data(p),
        }),
{
    f.part(name.clone(), p)
}

/// Turns a list of plain parts into the `reqwest` multipart form that goes
/// over the wire, keeping every part and their order.
pub fn to_multipart(parts: &Vec<FormPart>) -> (f: reqwest::multipart::Form)
    ensures
        form_view(f) == parts_view(parts@),
{
    let mut f = form_new();
    let mut i: usize = 0;
    while i < parts.len()
        invariant
            i <= parts@.len(),
            form_view(f) == parts_view(parts@.take(i as int)),
        decreases parts@.len() - i,
    {
        match &parts[i] {
            FormPart::Text { name, value } => {
                f = form_text(f, name, value);
            },
            FormPart::File { name, filename, data } => {
                let p = part_bytes(data);
                let p = part_file_name(p, filename);
                f = form_file_part(f, name, p);
            },
        }
        proof {
            assert(parts@.take(i + 1int) =~= parts@.take(i as int).push(parts@[i as int]));
            assert(parts_view(parts@.take(i + 1int)) =~= parts_view(parts@.take(i as int)).push(
                parts@[i as int]@,
            ));
        }
        i = i + 1;
    }
    proof {
        assert(parts@.take(i as int) =~= parts@);
    }
    f
}

} // verus!
