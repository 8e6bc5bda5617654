//! The DICOM decoder, as far as this library relies on it.
//!
//! Nothing in this file is proved. Each item states what the library takes
//! for granted about `dicom_object`, `dicom_core` and `dicom_dictionary_std`;
//! the verified code of the other modules is proved from these statements.
//!
//! A decoded object is modelled by what its root data set holds: a map from
//! tag, written as the pair of group and element number, to the text of the
//! element stored under that tag, or to `None` where that element has no text
//! form.

use dicom_core::value::ConvertValueError;
use dicom_core::DataElement;
use dicom_core::Tag;
use dicom_dictionary_std::tags;
use dicom_dictionary_std::StandardDataDictionary;
use dicom_object::mem::InMemElement;
use dicom_object::AccessError;
use dicom_object::DefaultDicomObject;
use dicom_object::FileDicomObject;
use dicom_object::InMemDicomObject;
use dicom_object::OpenFileOptions;
use dicom_object::ReadError;
use vstd::prelude::*;

verus! {

/// `dicom_object::FileDicomObject`: a data set with its file meta group.
#[verifier::external_type_specification]
#[verifier::external_body]
#[verifier::reject_recursive_types(O)]
pub struct ExFileDicomObject<O>(FileDicomObject<O>);

/// `dicom_object::InMemDicomObject`: a data set held in memory.
#[verifier::external_type_specification]
#[verifier::external_body]
#[verifier::reject_recursive_types(D)]
pub struct ExInMemDicomObject<D>(InMemDicomObject<D>);

/// `dicom_dictionary_std::StandardDataDictionary`: the dictionary of
/// standard attributes, which the default object type is built on.
#[verifier::external_type_specification]
#[verifier::external_body]
pub struct ExStandardDataDictionary(StandardDataDictionary);

/// `dicom_core::DataElement`: one data element of a data set.
#[verifier::external_type_specification]
#[verifier::external_body]
#[verifier::reject_recursive_types(I)]
#[verifier::reject_recursive_types(P)]
pub struct ExDataElement<I, P>(DataElement<I, P>);

/// `dicom_object::ReadError`: why a byte stream could not be decoded.
#[verifier::external_type_specification]
#[verifier::external_body]
pub struct ExReadError(ReadError);

/// `dicom_object::AccessError`: why no data element was handed out.
#[verifier::external_type_specification]
#[verifier::external_body]
pub struct ExAccessError(AccessError);

/// `dicom_core::value::ConvertValueError`: why a value has no text form.
#[verifier::external_type_specification]
#[verifier::external_body]
pub struct ExConvertValueError(ConvertValueError);

/// What a data element holds, as `DataElement::to_str` renders it: the text
/// of its value, or `None` where the value is not primitive (a nested
/// sequence or encapsulated pixel data).
pub uninterp spec fn element_text(element: InMemElement) -> Option<Seq<char>>;

/// What the root data set of a decoded object holds: the text of each
/// element, by tag.
pub uninterp spec fn object_elements(object: DefaultDicomObject) -> Map<
    (u16, u16),
    Option<Seq<char>>,
>;

/// What `dicom_object::from_reader` makes of a file image: the root data set
/// of the whole file, or `None` where the decoder gives an error.
pub uninterp spec fn decoded_elements(bytes: Seq<u8>) -> Option<Map<(u16, u16), Option<Seq<char>>>>;

/// What `OpenFileOptions::from_reader` makes of a file image when told to
/// read until `stop`: the root data set as far as it was read, or `None`
/// where the decoder gives an error before it stops.
pub uninterp spec fn decoded_elements_until(bytes: Seq<u8>, stop: (u16, u16)) -> Option<
    Map<(u16, u16), Option<Seq<char>>>,
>;

/// The tag of the patient's name, (0010,0010).
pub open spec fn patient_name_tag() -> (u16, u16) {
    (0x0010u16, 0x0010u16)
}

/// The tag of the patient's identifier, (0010,0020).
pub open spec fn patient_id_tag() -> (u16, u16) {
    (0x0010u16, 0x0020u16)
}

/// The tag of the issuer of the patient's identifier, (0010,0021): the first
/// tag of the standard ordering that follows both of the above.
pub open spec fn issuer_of_patient_id_tag() -> (u16, u16) {
    (0x0010u16, 0x0021u16)
}

/// `dicom_dictionary_std::tags::PATIENT_NAME`, which the dictionary defines
/// as `Tag(0x0010, 0x0010)`.
#[verifier::external_body]
pub(crate) fn patient_name() -> (tag: (u16, u16))
    ensures
        tag == patient_name_tag(),
{
    (tags::PATIENT_NAME.0, tags::PATIENT_NAME.1)
}

/// `dicom_dictionary_std::tags::PATIENT_ID`, which the dictionary defines as
/// `Tag(0x0010, 0x0020)`.
#[verifier::external_body]
pub(crate) fn patient_id() -> (tag: (u16, u16))
    ensures
        tag == patient_id_tag(),
{
    (tags::PATIENT_ID.0, tags::PATIENT_ID.1)
}

/// `dicom_dictionary_std::tags::ISSUER_OF_PATIENT_ID`, which the dictionary
/// defines as `Tag(0x0010, 0x0021)`.
#[verifier::external_body]
pub(crate) fn issuer_of_patient_id() -> (tag: (u16, u16))
    ensures
        tag == issuer_of_patient_id_tag(),
{
    (tags::ISSUER_OF_PATIENT_ID.0, tags::ISSUER_OF_PATIENT_ID.1)
}

/// `dicom_object::from_reader` on a file image held in memory. The decoder
/// looks for the preamble and the magic code by itself, reads the file meta
/// group and then the whole data set. Its outcome depends on the bytes
/// alone, so both the failure and the decoded data set are named after them.
///
/// The decoder reserves the memory for a value as the value's header
/// declares it, before it reads the value. A header that declares more than
/// the machine can give ends the process, as any failed allocation does;
/// nothing is said here of that.
#[verifier::external_body]
pub(crate) fn decode_all(bytes: &[u8]) -> (r: Result<DefaultDicomObject, ReadError>)
    ensures
        match r {
            Ok(object) => decoded_elements(bytes@) == Some(object_elements(object)),
            Err(_) => decoded_elements(bytes@) is None,
        },
{
    dicom_object::from_reader(bytes)
}

/// `OpenFileOptions::new().read_until(stop).from_reader(..)` on a file image
/// held in memory: as `decode_all`, but the decoder stops at the first
/// element of the root data set whose tag is `stop` or comes after it, and
/// leaves that element and the rest of the stream undecoded. What is said of
/// memory there holds here of the elements before `stop`.
#[verifier::external_body]
pub(crate) fn decode_until(bytes: &[u8], stop: (u16, u16)) -> (r: Result<
    DefaultDicomObject,
    ReadError,
>)
    ensures
        match r {
            Ok(object) => decoded_elements_until(bytes@, stop) == Some(object_elements(object)),
            Err(_) => decoded_elements_until(bytes@, stop) is None,
        },
{
    OpenFileOptions::new().read_until(Tag(stop.0, stop.1)).from_reader(bytes)
}

/// `InMemDicomObject::element`, reached through the file object: the element
/// stored under `tag` in the root data set, or an error where there is none.
/// The contract ties the call to the model: it succeeds exactly for the tags
/// that the data set holds, and the text of the element handed out is what
/// the data set holds under the tag.
#[verifier::external_body]
pub(crate) fn element<'a>(object: &'a DefaultDicomObject, tag: (u16, u16)) -> (r: Result<
    &'a InMemElement,
    AccessError,
>)
    ensures
        match r {
            Ok(found) => object_elements(*object).contains_key(tag) && object_elements(
                *object,
            )[tag] == element_text(*found),
            Err(_) => !object_elements(*object).contains_key(tag),
        },
{
    object.element(Tag(tag.0, tag.1))
}

/// `DataElement::to_str`: the element's value as one string with trailing
/// whitespace removed, or an error where the value is not primitive. The
/// borrowed string is copied into an owned one. The contract names the
/// outcome after the element and says nothing of what the text is.
#[verifier::external_body]
pub(crate) fn text(element: &InMemElement) -> (r: Result<String, ConvertValueError>)
    ensures
        match r {
            Ok(s) => element_text(*element) == Some(s@),
            Err(_) => element_text(*element) is None,
        },
{
    match element.to_str() {
        Ok(s) => Ok(s.into_owned()),
        Err(e) => Err(e),
    }
}

} // verus!
