//! The metadata record and the header decoder that produces it.

use crate::dicom::container::decode_all;
use crate::dicom::container::decode_until;
use crate::dicom::container::decoded_elements;
use crate::dicom::container::decoded_elements_until;
use crate::dicom::container::element;
use crate::dicom::container::issuer_of_patient_id;
use crate::dicom::container::issuer_of_patient_id_tag;
use crate::dicom::container::object_elements;
use crate::dicom::container::patient_id;
use crate::dicom::container::patient_id_tag;
use crate::dicom::container::patient_name;
use crate::dicom::container::patient_name_tag;
use crate::dicom::container::text;
use dicom_object::DefaultDicomObject;
use vstd::prelude::*;
use vstd::string::StringExecFns;

verus! {

/// The header fields that a record is made from.
#[derive(Clone, Copy, Debug, PartialEq, Eq, Structural)]
pub enum Field {
    PatientName,
    PatientId,
}

/// Why a file contributes no record.
#[derive(Clone, Copy, Debug, PartialEq, Eq, Structural)]
pub enum DecodeError {
    /// The file could not be opened or read.
    Unreadable,
    /// The bytes are not a DICOM container.
    NotAContainer,
    /// The container lacks a required field.
    MissingField(Field),
    /// The value of a required field has no text form.
    FieldNotText(Field),
    /// The path of the file has no text form.
    PathNotText,
}

/// What looking up one field in a decoded header gave.
#[derive(Clone, Debug, PartialEq, Eq)]
pub enum Lookup<T> {
    /// No element is stored under the field's tag.
    Missing,
    /// An element is stored there, but its value has no text form.
    NotText,
    /// The text of the element's value.
    Text(T),
}

impl<T: View> View for Lookup<T> {
    type V = Lookup<T::V>;

    open spec fn view(&self) -> Lookup<T::V> {
        match *self {
            Lookup::Missing => Lookup::Missing,
            Lookup::NotText => Lookup::NotText,
            Lookup::Text(t) => Lookup::Text(t@),
        }
    }
}

/// A metadata record as a mathematical value: the three texts it carries.
pub struct MetadataRecord {
    pub filepath: Seq<char>,
    pub patient_name: Seq<char>,
    pub patient_id: Seq<char>,
}

/// The unit of output: where a file lies and whose data it holds.
///
/// The patient identifier is text, not a number: the standard defines it as
/// a character string, so leading zeros and letters are part of it.
#[derive(Clone, Debug, PartialEq, Eq)]
pub struct DicomMetadata {
    filepath: String,
    patient_name: String,
    patient_id: String,
}

impl View for DicomMetadata {
    type V = MetadataRecord;

    closed spec fn view(&self) -> MetadataRecord {
        MetadataRecord {
            filepath: self.filepath@,
            patient_name: self.patient_name@,
            patient_id: self.patient_id@,
        }
    }
}

/// The name that diagnostics give a field.
pub open spec fn field_name(field: Field) -> Seq<char> {
    match field {
        Field::PatientName => "PatientName"@,
        Field::PatientId => "PatientID"@,
    }
}

/// The text that diagnostics give for a failure.
pub open spec fn reason_text(error: DecodeError) -> Seq<char> {
    match error {
        DecodeError::Unreadable => "the file cannot be read"@,
        DecodeError::NotAContainer => "not a DICOM container"@,
        DecodeError::MissingField(field) => "missing field "@ + field_name(field),
        DecodeError::FieldNotText(field) => "no text in field "@ + field_name(field),
        DecodeError::PathNotText => "the path is not text"@,
    }
}

/// The tag under which a field is stored.
pub open spec fn tag_of(field: Field) -> (u16, u16) {
    match field {
        Field::PatientName => patient_name_tag(),
        Field::PatientId => patient_id_tag(),
    }
}

/// What looking up `tag` in a root data set gives.
pub open spec fn lookup_in(elements: Map<(u16, u16), Option<Seq<char>>>, tag: (u16, u16)) -> Lookup<
    Seq<char>,
> {
    if !elements.contains_key(tag) {
        Lookup::Missing
    } else {
        match elements[tag] {
            None => Lookup::NotText,
            Some(text) => Lookup::Text(text),
        }
    }
}

/// The record that a path and the two looked-up fields make, or the first
/// reason why they make none. The name is examined before the identifier,
/// and the path last.
pub open spec fn record_from_fields(
    filepath: Option<Seq<char>>,
    patient_name: Lookup<Seq<char>>,
    patient_id: Lookup<Seq<char>>,
) -> Result<MetadataRecord, DecodeError> {
    match patient_name {
        Lookup::Missing => Err(DecodeError::MissingField(Field::PatientName)),
        Lookup::NotText => Err(DecodeError::FieldNotText(Field::PatientName)),
        Lookup::Text(name) => match patient_id {
            Lookup::Missing => Err(DecodeError::MissingField(Field::PatientId)),
            Lookup::NotText => Err(DecodeError::FieldNotText(Field::PatientId)),
            Lookup::Text(id) => match filepath {
                None => Err(DecodeError::PathNotText),
                Some(path) => Ok(
                    MetadataRecord { filepath: path, patient_name: name, patient_id: id },
                ),
            },
        },
    }
}

/// The record that a path and a decoded root data set make: none where the
/// decoder made no data set of the bytes, else what the two fields give.
pub open spec fn record_from_elements(
    filepath: Option<Seq<char>>,
    decoded: Option<Map<(u16, u16), Option<Seq<char>>>>,
) -> Result<MetadataRecord, DecodeError> {
    match decoded {
        None => Err(DecodeError::NotAContainer),
        Some(elements) => record_from_fields(
            filepath,
            lookup_in(elements, tag_of(Field::PatientName)),
            lookup_in(elements, tag_of(Field::PatientId)),
        ),
    }
}

/// The outcome of a decode as a mathematical value.
pub open spec fn decode_result(r: Result<DicomMetadata, DecodeError>) -> Result<
    MetadataRecord,
    DecodeError,
> {
    match r {
        Ok(record) => Ok(record@),
        Err(e) => Err(e),
    }
}

/// A path's text form as a mathematical value.
pub open spec fn path_text(filepath: Option<&str>) -> Option<Seq<char>> {
    match filepath {
        Some(path) => Some(path@),
        None => None,
    }
}

/// The two decoders are used alike: where the bounded decode and the full
/// decode of the same bytes both give a data set, and the two data sets hold
/// the same under the two fields' tags, `from_file_optimised` and `from_file`
/// give the same record, or fail for the same reason.
pub proof fn lemma_decoders_agree_on_equal_fields(filepath: Option<Seq<char>>, bytes: Seq<u8>)
    requires
        decoded_elements(bytes) is Some,
        decoded_elements_until(bytes, issuer_of_patient_id_tag()) is Some,
        lookup_in(decoded_elements(bytes)->0, tag_of(Field::PatientName)) == lookup_in(
            decoded_elements_until(bytes, issuer_of_patient_id_tag())->0,
            tag_of(Field::PatientName),
        ),
        lookup_in(decoded_elements(bytes)->0, tag_of(Field::PatientId)) == lookup_in(
            decoded_elements_until(bytes, issuer_of_patient_id_tag())->0,
            tag_of(Field::PatientId),
        ),
    ensures
        record_from_elements(filepath, decoded_elements(bytes)) == record_from_elements(
            filepath,
            decoded_elements_until(bytes, issuer_of_patient_id_tag()),
        ),
{
}

impl Field {
    /// The name of the field in diagnostics.
    pub fn name(self) -> (name: &'static str)
        ensures
            name@ == field_name(self),
    {
        match self {
            Field::PatientName => "PatientName",
            Field::PatientId => "PatientID",
        }
    }

    /// The tag under which the field is stored, taken from the standard
    /// dictionary.
    pub fn tag(self) -> (tag: (u16, u16))
        ensures
            tag == tag_of(self),
    {
        match self {
            Field::PatientName => patient_name(),
            Field::PatientId => patient_id(),
        }
    }
}

impl DecodeError {
    /// What went wrong, in words.
    pub fn reason(&self) -> (text: String)
        ensures
            text@ == reason_text(*self),
    {
        match self {
            DecodeError::Unreadable => String::from_str("the file cannot be read"),
            DecodeError::NotAContainer => String::from_str("not a DICOM container"),
            DecodeError::MissingField(field) => String::from_str("missing field ").concat(
                field.name(),
            ),
            DecodeError::FieldNotText(field) => String::from_str("no text in field ").concat(
                field.name(),
            ),
            DecodeError::PathNotText => String::from_str("the path is not text"),
        }
    }
}

/// Looks one field up in a decoded object and renders it as text.
fn lookup(object: &DefaultDicomObject, field: Field) -> (found: Lookup<String>)
    ensures
        found@ == lookup_in(object_elements(*object), tag_of(field)),
{
    match element(object, field.tag()) {
        Ok(stored) => match text(stored) {
            Ok(value) => Lookup::Text(value),
            Err(_) => Lookup::NotText,
        },
        Err(_) => Lookup::Missing,
    }
}

impl DicomMetadata {
    /// Decodes a whole file image and makes a record of it.
    ///
    /// `filepath` is the path of the file as text, or `None` where the path
    /// has no text form; `contents` is what was read from the file.
    pub fn from_file(filepath: Option<&str>, contents: &[u8]) -> (r: Result<Self, DecodeError>)
        ensures
            decode_result(r) == record_from_elements(
                path_text(filepath),
                decoded_elements(contents@),
            ),
    {
        match decode_all(contents) {
            Ok(object) => {
                let patient_name = lookup(&object, Field::PatientName);
                let patient_id = lookup(&object, Field::PatientId);
                Self::from_fields(filepath, patient_name, patient_id)
            },
            Err(_) => Err(DecodeError::NotAContainer),
        }
    }

    /// Decodes a file image only as far as the two fields need and makes a
    /// record of it: the decoder stops at the first element that the
    /// standard ordering puts after both, and never touches bulk data.
    ///
    /// `filepath` and `contents` are as for `from_file`.
    pub fn from_file_optimised(filepath: Option<&str>, contents: &[u8]) -> (r: Result<
        Self,
        DecodeError,
    >)
        ensures
            decode_result(r) == record_from_elements(
                path_text(filepath),
                decoded_elements_until(contents@, issuer_of_patient_id_tag()),
            ),
    {
        match decode_until(contents, issuer_of_patient_id()) {
            Ok(object) => {
                let patient_name = lookup(&object, Field::PatientName);
                let patient_id = lookup(&object, Field::PatientId);
                Self::from_fields(filepath, patient_name, patient_id)
            },
            Err(_) => Err(DecodeError::NotAContainer),
        }
    }

    /// Makes a record of a path and the two fields as a decoder found them.
    ///
    /// Succeeds exactly when both fields are text and the path has a text
    /// form; the texts are kept as they are.
    pub fn from_fields(
        filepath: Option<&str>,
        patient_name: Lookup<String>,
        patient_id: Lookup<String>,
    ) -> (r: Result<Self, DecodeError>)
        ensures
            decode_result(r) == record_from_fields(path_text(filepath), patient_name@, patient_id@),
            r is Ok <==> filepath is Some && patient_name is Text && patient_id is Text,
    {
        let name = match patient_name {
            Lookup::Missing => { return Err(DecodeError::MissingField(Field::PatientName)); },
            Lookup::NotText => { return Err(DecodeError::FieldNotText(Field::PatientName)); },
            Lookup::Text(name) => name,
        };
        let id = match patient_id {
            Lookup::Missing => { return Err(DecodeError::MissingField(Field::PatientId)); },
            Lookup::NotText => { return Err(DecodeError::FieldNotText(Field::PatientId)); },
            Lookup::Text(id) => id,
        };
        match filepath {
            None => Err(DecodeError::PathNotText),
            Some(path) => Ok(
                DicomMetadata { filepath: path.to_owned(), patient_name: name, patient_id: id },
            ),
        }
    }

    /// The path of the file that the record was made from.
    pub fn filepath(&self) -> (s: &str)
        ensures
            s@ == self@.filepath,
    {
        self.filepath.as_str()
    }

    /// The patient's name, as the header gives it.
    pub fn patient_name(&self) -> (s: &str)
        ensures
            s@ == self@.patient_name,
    {
        self.patient_name.as_str()
    }

    /// The patient's identifier, as the header gives it.
    pub fn patient_id(&self) -> (s: &str)
        ensures
            s@ == self@.patient_id,
    {
        self.patient_id.as_str()
    }
}

} // verus!
