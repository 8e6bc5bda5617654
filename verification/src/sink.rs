//! The result sink: the records as one JSON document.

use crate::dicom::container::decoded_elements_until;
use crate::dicom::container::issuer_of_patient_id_tag;
use crate::dicom::container::patient_id_tag;
use crate::dicom::dicom_metadata::lookup_in;
use crate::dicom::dicom_metadata::DecodeError;
use crate::dicom::dicom_metadata::Lookup;
use crate::dicom::dicom_metadata::MetadataRecord;
use crate::error::FatalError;
use crate::harvest::extraction;
use crate::harvest::FileImageView;
use crate::harvest::ResultCollection;
use vstd::prelude::*;

verus! {

/// `serde_json::Error`: why a value could not be written as JSON.
#[verifier::external_type_specification]
#[verifier::external_body]
pub struct ExJsonError(serde_json::Error);

/// The text that `serde_json::to_string_pretty` writes for an array of
/// objects whose members are strings, each object given as its members'
/// names and values; `None` where it gives an error.
pub uninterp spec fn pretty_json(objects: Seq<Seq<(Seq<char>, Seq<char>)>>) -> Option<Seq<char>>;

/// `serde_json::to_string_pretty` on an array of objects. Each inner vector
/// becomes a `serde_json::Map` that holds one `Value::String` per pair, in
/// the order of the pairs, and the vector of maps is serialised with
/// indentation. The outcome depends on the names and values alone, so it is
/// named after them; nothing more is claimed of the text.
#[verifier::external_body]
fn pretty_array(objects: &Vec<Vec<(String, String)>>) -> (r: Result<String, serde_json::Error>)
    ensures
        match r {
            Ok(text) => pretty_json(objects.deep_view()) == Some(text@),
            Err(_) => pretty_json(objects.deep_view()) is None,
        },
{
    let document: Vec<serde_json::Map<String, serde_json::Value>> = objects.iter().map(
        |members|
            members.iter().map(
                |member| (member.0.clone(), serde_json::Value::String(member.1.clone())),
            ).collect(),
    ).collect();
    serde_json::to_string_pretty(&document)
}

/// The JSON object of a record: its three texts under their names. Each is
/// a string member, whatever it looks like.
pub open spec fn object_of(record: MetadataRecord) -> Seq<(Seq<char>, Seq<char>)> {
    seq![
        ("filepath"@, record.filepath),
        ("patient_name"@, record.patient_name),
        ("patient_id"@, record.patient_id),
    ]
}

/// The JSON array of a collection: one object per record, in their order.
pub open spec fn document_of(records: Seq<MetadataRecord>) -> Seq<Seq<(Seq<char>, Seq<char>)>> {
    records.map_values(|record: MetadataRecord| object_of(record))
}

/// The collection as the array of objects that is to be written: for each
/// record, in their order, its three texts under their names.
pub fn document(records: &ResultCollection) -> (objects: Vec<Vec<(String, String)>>)
    ensures
        objects.deep_view() == document_of(records@),
{
    let list = records.records();
    let mut objects: Vec<Vec<(String, String)>> = Vec::new();
    let mut i: usize = 0;
    while i < list.len()
        invariant
            i <= list.len(),
            list@.len() == records@.len(),
            forall|k: int| 0 <= k < list@.len() ==> (#[trigger] list@[k])@ == records@[k],
            objects@.len() == i,
            forall|k: int|
                0 <= k < i ==> (#[trigger] objects@[k]).deep_view() == object_of(records@[k]),
        decreases list.len() - i,
    {
        let record = &list[i];
        let mut members: Vec<(String, String)> = Vec::new();
        members.push(("filepath".to_owned(), record.filepath().to_owned()));
        members.push(("patient_name".to_owned(), record.patient_name().to_owned()));
        members.push(("patient_id".to_owned(), record.patient_id().to_owned()));
        objects.push(members);
        i += 1;
    }
    objects
}

/// Writes the collection as one indented JSON array of objects, each with
/// the members `filepath`, `patient_name` and `patient_id`.
///
/// Succeeds whenever the serialiser does; the text is then what the
/// serialiser makes of `document_of` the records.
pub fn render(records: &ResultCollection) -> (r: Result<String, FatalError>)
    ensures
        match r {
            Ok(text) => pretty_json(document_of(records@)) == Some(text@),
            Err(error) => error == FatalError::Serialization && pretty_json(
                document_of(records@),
            ) is None,
        },
{
    let objects = document(records);
    match pretty_array(&objects) {
        Ok(text) => Ok(text),
        Err(_) => Err(FatalError::Serialization),
    }
}

/// The identifier that a file's header holds is the identifier that the
/// document shows for it: the text found under the identifier's tag is the
/// value of the record's `patient_id` member, unchanged and as a string,
/// whether or not it looks like a number.
pub proof fn lemma_identifier_is_written_as_found(file: FileImageView, record: MetadataRecord)
    requires
        extraction(file) == Ok::<MetadataRecord, DecodeError>(record),
    ensures
        file.contents is Some,
        decoded_elements_until(file.contents->0, issuer_of_patient_id_tag()) is Some,
        lookup_in(
            decoded_elements_until(file.contents->0, issuer_of_patient_id_tag())->0,
            patient_id_tag(),
        ) == Lookup::Text(record.patient_id),
        object_of(record)[2] == ("patient_id"@, record.patient_id),
{
}

} // verus!
