use dicom_core::DataElement;
use dicom_core::PrimitiveValue;
use dicom_core::VR;
use dicom_dictionary_std::tags;
use dicom_dictionary_std::uids;
use dicom_harvest::dicom::dicom_metadata::DecodeError;
use dicom_harvest::dicom::dicom_metadata::DicomMetadata;
use dicom_harvest::dicom::dicom_metadata::Field;
use dicom_harvest::dicom::dicom_metadata::Lookup;
use dicom_harvest::harvest::extract;
use dicom_harvest::harvest::sync_parser;
use dicom_harvest::harvest::Diagnostic;
use dicom_harvest::harvest::FileCandidate;
use dicom_harvest::harvest::FileImage;
use dicom_harvest::harvest::Harvest;
use dicom_harvest::harvest::ResultCollection;
use dicom_harvest::sink::render;
use dicom_object::FileMetaTableBuilder;
use dicom_object::InMemDicomObject;

fn container(name: Option<&str>, id: Option<&str>) -> Vec<u8> {
    let mut object = InMemDicomObject::new_empty();
    object.put(DataElement::new(
        tags::SOP_CLASS_UID,
        VR::UI,
        PrimitiveValue::from(uids::CT_IMAGE_STORAGE),
    ));
    object.put(DataElement::new(
        tags::SOP_INSTANCE_UID,
        VR::UI,
        PrimitiveValue::from("1.2.826.0.1.3680043.2.1125.1"),
    ));
    if let Some(name) = name {
        object.put(DataElement::new(tags::PATIENT_NAME, VR::PN, PrimitiveValue::from(name)));
    }
    if let Some(id) = id {
        object.put(DataElement::new(tags::PATIENT_ID, VR::LO, PrimitiveValue::from(id)));
    }
    object.put(DataElement::new(tags::ROWS, VR::US, PrimitiveValue::from(2u16)));
    object.put(DataElement::new(
        tags::PIXEL_DATA,
        VR::OB,
        PrimitiveValue::from(vec![1u8, 2, 3, 4]),
    ));
    let file = object
        .with_meta(FileMetaTableBuilder::new().transfer_syntax(uids::EXPLICIT_VR_LITTLE_ENDIAN))
        .unwrap();
    let mut bytes = Vec::new();
    file.write_all(&mut bytes).unwrap();
    bytes
}

fn image(path: &str, contents: Option<Vec<u8>>) -> FileImage {
    FileImage {
        candidate: FileCandidate { path: String::from(path), path_is_text: true },
        contents,
    }
}

fn valid(path: &str, name: &str, id: &str) -> FileImage {
    image(path, Some(container(Some(name), Some(id))))
}

fn record(path: &str, name: &str, id: &str) -> DicomMetadata {
    DicomMetadata::from_fields(
        Some(path),
        Lookup::Text(String::from(name)),
        Lookup::Text(String::from(id)),
    )
    .unwrap()
}

fn sorted(records: &[DicomMetadata]) -> Vec<(String, String, String)> {
    let mut all: Vec<(String, String, String)> = records
        .iter()
        .map(|r| {
            (
                String::from(r.filepath()),
                String::from(r.patient_name()),
                String::from(r.patient_id()),
            )
        })
        .collect();
    all.sort();
    all
}

fn mixed_tree() -> Vec<FileImage> {
    vec![
        valid("root/a.dcm", "Doe^John", "P001"),
        image("root/notes.txt", Some(b"nothing to see here".to_vec())),
        valid("root/sub/b.dcm", "Roe^Jane", "P002"),
        image("root/sub/picture.png", Some(vec![0x89, 0x50, 0x4e, 0x47, 0x0d, 0x0a, 0x1a, 0x0a])),
        valid("root/sub/deep/c.dcm", "Poe^Edgar", "P003"),
    ]
}

#[test]
fn extract_makes_a_record_of_a_container() {
    let made = extract(&valid("a.dcm", "Doe^John", "P001"));
    assert_eq!(made, Ok(record("a.dcm", "Doe^John", "P001")));
}

#[test]
fn extract_reports_a_file_that_was_not_read() {
    let made = extract(&image("gone.dcm", None));
    assert_eq!(
        made,
        Err(Diagnostic { path: String::from("gone.dcm"), error: DecodeError::Unreadable })
    );
}

#[test]
fn extract_reports_a_file_that_is_no_container() {
    let made = extract(&image("notes.txt", Some(b"hello".to_vec())));
    assert_eq!(
        made,
        Err(Diagnostic { path: String::from("notes.txt"), error: DecodeError::NotAContainer })
    );
}

#[test]
fn extract_reports_a_missing_field() {
    let made = extract(&image("a.dcm", Some(container(Some("Doe^John"), None))));
    assert_eq!(
        made,
        Err(Diagnostic {
            path: String::from("a.dcm"),
            error: DecodeError::MissingField(Field::PatientId),
        })
    );
}

#[test]
fn extract_reports_a_path_that_is_no_text() {
    let file = FileImage {
        candidate: FileCandidate { path: String::from("scans/\u{fffd}.dcm"), path_is_text: false },
        contents: Some(container(Some("Doe^John"), Some("P001"))),
    };
    assert_eq!(
        extract(&file),
        Err(Diagnostic {
            path: String::from("scans/\u{fffd}.dcm"),
            error: DecodeError::PathNotText,
        })
    );
}

#[test]
fn extract_does_not_decode_the_bulk_data() {
    let mut bytes = container(Some("Doe^John"), Some("P001"));
    bytes.truncate(bytes.len() - 3);
    assert_eq!(DicomMetadata::from_file(Some("a.dcm"), &bytes), Err(DecodeError::NotAContainer));
    assert_eq!(extract(&image("a.dcm", Some(bytes))), Ok(record("a.dcm", "Doe^John", "P001")));
}

#[test]
fn a_diagnostic_names_the_path_and_the_reason() {
    let diagnostic =
        Diagnostic { path: String::from("root/notes.txt"), error: DecodeError::NotAContainer };
    assert_eq!(diagnostic.line(), "failed to parse file: root/notes.txt: not a DICOM container");
    let diagnostic = Diagnostic {
        path: String::from("a.dcm"),
        error: DecodeError::FieldNotText(Field::PatientName),
    };
    assert_eq!(diagnostic.line(), "failed to parse file: a.dcm: no text in field PatientName");
}

#[test]
fn a_collection_only_grows() {
    let mut collection = ResultCollection::new();
    assert_eq!(collection.len(), 0);
    assert!(collection.records().is_empty());
    collection.insert(record("a", "A", "1"));
    collection.insert(record("b", "B", "2"));
    collection.insert(record("a", "A", "1"));
    assert_eq!(collection.len(), 3);
    assert_eq!(
        collection.records(),
        &vec![record("a", "A", "1"), record("b", "B", "2"), record("a", "A", "1")]
    );
}

#[test]
fn absorb_sorts_records_from_diagnostics() {
    let mut harvest = Harvest::new();
    assert_eq!(harvest.collection.len(), 0);
    assert!(harvest.diagnostics.is_empty());
    harvest.absorb(Ok(record("a", "A", "1")));
    harvest.absorb(Err(Diagnostic { path: String::from("b"), error: DecodeError::Unreadable }));
    harvest.absorb(Ok(record("c", "C", "3")));
    assert_eq!(harvest.collection.records(), &vec![record("a", "A", "1"), record("c", "C", "3")]);
    assert_eq!(
        harvest.diagnostics,
        vec![Diagnostic { path: String::from("b"), error: DecodeError::Unreadable }]
    );
}

#[test]
fn a_run_over_nothing_gives_nothing() {
    let harvest = sync_parser(&Vec::new());
    assert_eq!(harvest.collection.len(), 0);
    assert!(harvest.diagnostics.is_empty());
    assert_eq!(render(&harvest.collection), Ok(String::from("[]")));
}

#[test]
fn a_run_gives_one_record_for_each_container() {
    let harvest = sync_parser(&mixed_tree());
    assert_eq!(harvest.collection.len(), 3);
    assert_eq!(harvest.diagnostics.len(), 2);
    assert_eq!(
        harvest.collection.records(),
        &vec![
            record("root/a.dcm", "Doe^John", "P001"),
            record("root/sub/b.dcm", "Roe^Jane", "P002"),
            record("root/sub/deep/c.dcm", "Poe^Edgar", "P003"),
        ]
    );
    assert_eq!(
        harvest.diagnostics,
        vec![
            Diagnostic { path: String::from("root/notes.txt"), error: DecodeError::NotAContainer },
            Diagnostic {
                path: String::from("root/sub/picture.png"),
                error: DecodeError::NotAContainer,
            },
        ]
    );
}

#[test]
fn a_run_writes_one_object_for_each_container() {
    let harvest = sync_parser(&mixed_tree());
    let text = render(&harvest.collection).unwrap();
    let document: serde_json::Value = serde_json::from_str(&text).unwrap();
    let objects = document.as_array().unwrap();
    assert_eq!(objects.len(), 3);
    let expected = [
        ("root/a.dcm", "Doe^John", "P001"),
        ("root/sub/b.dcm", "Roe^Jane", "P002"),
        ("root/sub/deep/c.dcm", "Poe^Edgar", "P003"),
    ];
    for (object, (path, name, id)) in objects.iter().zip(expected) {
        let members = object.as_object().unwrap();
        assert_eq!(members.len(), 3);
        assert_eq!(members["filepath"], serde_json::Value::String(String::from(path)));
        assert_eq!(members["patient_name"], serde_json::Value::String(String::from(name)));
        assert_eq!(members["patient_id"], serde_json::Value::String(String::from(id)));
    }
}

#[test]
fn files_that_fail_change_nothing_for_the_others() {
    let with_failures = sync_parser(&mixed_tree());
    let only_valid: Vec<FileImage> =
        mixed_tree().into_iter().filter(|file| file.candidate.path.ends_with(".dcm")).collect();
    assert_eq!(only_valid.len(), 3);
    let without_failures = sync_parser(&only_valid);
    assert_eq!(with_failures.collection, without_failures.collection);
    assert!(without_failures.diagnostics.is_empty());
    for made in with_failures.collection.records() {
        assert!(made.filepath().ends_with(".dcm"));
    }
}

#[test]
fn a_run_with_only_failures_still_succeeds() {
    let files = vec![
        image("a.txt", Some(b"text".to_vec())),
        image("b.bin", None),
        image("c.dcm", Some(container(None, Some("P001")))),
    ];
    let harvest = sync_parser(&files);
    assert_eq!(harvest.collection.len(), 0);
    assert_eq!(harvest.diagnostics.len(), 3);
    assert_eq!(harvest.diagnostics[1].error, DecodeError::Unreadable);
    assert_eq!(harvest.diagnostics[2].error, DecodeError::MissingField(Field::PatientName));
    assert_eq!(render(&harvest.collection), Ok(String::from("[]")));
}

#[test]
fn the_order_of_the_files_does_not_change_the_records() {
    let forward = sync_parser(&mixed_tree());
    let mut files = mixed_tree();
    files.reverse();
    let backward = sync_parser(&files);
    files.swap(0, 3);
    files.swap(1, 4);
    let shuffled = sync_parser(&files);
    assert_eq!(sorted(forward.collection.records()), sorted(backward.collection.records()));
    assert_eq!(sorted(forward.collection.records()), sorted(shuffled.collection.records()));
    assert_eq!(backward.collection.len(), 3);
}

#[test]
fn two_runs_over_the_same_files_agree() {
    let first = sync_parser(&mixed_tree());
    let second = sync_parser(&mixed_tree());
    assert_eq!(first, second);
}

#[test]
fn the_same_file_twice_gives_two_records() {
    let files = vec![valid("a.dcm", "Doe^John", "P001"), valid("a.dcm", "Doe^John", "P001")];
    let harvest = sync_parser(&files);
    assert_eq!(harvest.collection.len(), 2);
}
