use dicom_harvest::dicom::dicom_metadata::DecodeError;
use dicom_harvest::dicom::dicom_metadata::DicomMetadata;
use dicom_harvest::dicom::dicom_metadata::Field;
use dicom_harvest::dicom::dicom_metadata::Lookup;

fn text(s: &str) -> Lookup<String> {
    Lookup::Text(String::from(s))
}

#[test]
fn from_fields_keeps_the_texts() {
    let record =
        DicomMetadata::from_fields(Some("scans/a.dcm"), text("Doe^John"), text("P001")).unwrap();
    assert_eq!(record.filepath(), "scans/a.dcm");
    assert_eq!(record.patient_name(), "Doe^John");
    assert_eq!(record.patient_id(), "P001");
}

#[test]
fn from_fields_keeps_an_identifier_that_looks_like_a_number() {
    let record = DicomMetadata::from_fields(Some("a"), text("X"), text("00A123")).unwrap();
    assert_eq!(record.patient_id(), "00A123");
    let record = DicomMetadata::from_fields(Some("a"), text("X"), text("000042")).unwrap();
    assert_eq!(record.patient_id(), "000042");
}

#[test]
fn from_fields_keeps_empty_texts() {
    let record = DicomMetadata::from_fields(Some(""), text(""), text("")).unwrap();
    assert_eq!(record.filepath(), "");
    assert_eq!(record.patient_name(), "");
    assert_eq!(record.patient_id(), "");
}

#[test]
fn from_fields_wants_the_name() {
    let r = DicomMetadata::from_fields(Some("a"), Lookup::Missing, text("P001"));
    assert_eq!(r, Err(DecodeError::MissingField(Field::PatientName)));
    let r = DicomMetadata::from_fields(Some("a"), Lookup::NotText, text("P001"));
    assert_eq!(r, Err(DecodeError::FieldNotText(Field::PatientName)));
}

#[test]
fn from_fields_wants_the_identifier() {
    let r = DicomMetadata::from_fields(Some("a"), text("Doe^John"), Lookup::Missing);
    assert_eq!(r, Err(DecodeError::MissingField(Field::PatientId)));
    let r = DicomMetadata::from_fields(Some("a"), text("Doe^John"), Lookup::NotText);
    assert_eq!(r, Err(DecodeError::FieldNotText(Field::PatientId)));
}

#[test]
fn from_fields_wants_a_path_that_is_text() {
    let r = DicomMetadata::from_fields(None, text("Doe^John"), text("P001"));
    assert_eq!(r, Err(DecodeError::PathNotText));
}

#[test]
fn from_fields_reports_the_first_failure() {
    let r = DicomMetadata::from_fields(None, Lookup::Missing, Lookup::NotText);
    assert_eq!(r, Err(DecodeError::MissingField(Field::PatientName)));
    let r = DicomMetadata::from_fields(None, Lookup::NotText, Lookup::Missing);
    assert_eq!(r, Err(DecodeError::FieldNotText(Field::PatientName)));
    let r = DicomMetadata::from_fields(None, text("Doe^John"), Lookup::Missing);
    assert_eq!(r, Err(DecodeError::MissingField(Field::PatientId)));
}

#[test]
fn fields_have_their_standard_tags() {
    assert_eq!(Field::PatientName.tag(), (0x0010, 0x0010));
    assert_eq!(Field::PatientId.tag(), (0x0010, 0x0020));
}

#[test]
fn every_failure_has_its_own_reason() {
    assert_eq!(DecodeError::Unreadable.reason(), "the file cannot be read");
    assert_eq!(DecodeError::NotAContainer.reason(), "not a DICOM container");
    assert_eq!(
        DecodeError::MissingField(Field::PatientName).reason(),
        "missing field PatientName"
    );
    assert_eq!(DecodeError::MissingField(Field::PatientId).reason(), "missing field PatientID");
    assert_eq!(
        DecodeError::FieldNotText(Field::PatientName).reason(),
        "no text in field PatientName"
    );
    assert_eq!(
        DecodeError::FieldNotText(Field::PatientId).reason(),
        "no text in field PatientID"
    );
    assert_eq!(DecodeError::PathNotText.reason(), "the path is not text");
}
