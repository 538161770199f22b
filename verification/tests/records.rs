use dicom::dictionary_std::tags;
use dicom::object::{FileMetaTableBuilder, InMemDicomObject, ReadError, Tag};
use patient_catalog::app_config::{get_config, OutputFormat, DEFAULT_NUM_WORKERS};
use patient_catalog::dicom_file_reader::{
    get_patient_id, get_patient_name, handle_file, DicomError, DicomFileData, File, PatientIDErr,
    PatientNameErr, PATIENT_GROUP, PATIENT_ID, PATIENT_NAME,
};
use patient_catalog::display_strategy::{
    append_row, CsvDisplay, DisplayError, DisplayFormat, DisplayStrategy, TextDisplay,
};
use std::path::PathBuf;

type Element = dicom::core::DataElement<InMemDicomObject>;

fn file_of(elements: Vec<Element>) -> File {
    InMemDicomObject::from_element_iter(elements)
        .with_meta(
            FileMetaTableBuilder::new()
                .transfer_syntax("1.2.840.10008.1.2.1")
                .media_storage_sop_class_uid("1.2.840.10008.5.1.4.1.1.7")
                .media_storage_sop_instance_uid("2.25.1"),
        )
        .unwrap()
}

fn name(value: &str) -> Element {
    Element::new(
        tags::PATIENT_NAME,
        dicom::core::VR::PN,
        dicom::core::PrimitiveValue::from(value),
    )
}

fn id(value: &str) -> Element {
    Element::new(
        tags::PATIENT_ID,
        dicom::core::VR::LO,
        dicom::core::PrimitiveValue::from(value),
    )
}

fn sequence(tag: Tag) -> Element {
    Element::new(
        tag,
        dicom::core::VR::SQ,
        dicom::core::value::DataSetSequence::from(vec![InMemDicomObject::new_empty()]),
    )
}

fn unreadable() -> ReadError {
    match dicom::object::from_reader(&b"this is no DICOM file"[..]) {
        Err(e) => e,
        Ok(_) => panic!("bytes that are no DICOM were read as DICOM"),
    }
}

fn data(id: &str, name: &str, path: &str) -> DicomFileData {
    DicomFileData {
        patient_id: id.to_string(),
        patient_name: name.to_string(),
        path: PathBuf::from(path),
    }
}

#[test]
fn config_without_choices_has_one_worker_and_text() {
    let config = get_config(PathBuf::from("/mnt/drive"), None, None, None);
    assert_eq!(config.path, PathBuf::from("/mnt/drive"));
    assert_eq!(config.num_workers, 1);
    assert_eq!(DEFAULT_NUM_WORKERS, 1);
    assert_eq!(config.output_format, OutputFormat::Text);
    assert_eq!(config.result_filepath, None);
}

#[test]
fn config_keeps_what_was_chosen() {
    let config = get_config(
        PathBuf::from("scans"),
        Some(8),
        Some(OutputFormat::Csv),
        Some(PathBuf::from("catalog.csv")),
    );
    assert_eq!(config.path, PathBuf::from("scans"));
    assert_eq!(config.num_workers, 8);
    assert_eq!(config.output_format, OutputFormat::Csv);
    assert_eq!(config.result_filepath, Some(PathBuf::from("catalog.csv")));
}

#[test]
fn config_keeps_zero_workers() {
    let config = get_config(PathBuf::from("scans"), Some(0), Some(OutputFormat::Text), None);
    assert_eq!(config.num_workers, 0);
    assert_eq!(config.output_format, OutputFormat::Text);
}

#[test]
fn tags_are_those_of_the_standard() {
    assert_eq!(Tag(PATIENT_GROUP, PATIENT_NAME), tags::PATIENT_NAME);
    assert_eq!(Tag(PATIENT_GROUP, PATIENT_ID), tags::PATIENT_ID);
}

#[test]
fn text_has_no_header() {
    let mut out: Vec<u8> = Vec::new();
    assert!(TextDisplay.display_headers(&mut out).is_ok());
    assert!(out.is_empty());
}

#[test]
fn text_renders_three_lines() {
    let mut out: Vec<u8> = Vec::new();
    let done = TextDisplay.display_element(&data("42", "Doe^John", "/data/a.dcm"), &mut out);
    assert!(done.is_ok());
    assert_eq!(
        String::from_utf8(out).unwrap(),
        "Identifier: 42\nName: Doe^John\nFile Path: /data/a.dcm\n"
    );
}

#[test]
fn text_renders_empty_fields() {
    let mut out: Vec<u8> = Vec::new();
    assert!(TextDisplay.display_element(&data("", "", ""), &mut out).is_ok());
    assert_eq!(
        String::from_utf8(out).unwrap(),
        "Identifier: \nName: \nFile Path: \n"
    );
}

#[test]
fn text_renders_what_is_not_ascii() {
    let mut out: Vec<u8> = Vec::new();
    assert!(TextDisplay
        .display_element(&data("É1", "Müller^Zoë", "/données/ü.dcm"), &mut out)
        .is_ok());
    assert_eq!(
        out,
        "Identifier: É1\nName: Müller^Zoë\nFile Path: /données/ü.dcm\n".as_bytes()
    );
}

#[test]
fn text_appends_to_what_the_sink_holds() {
    let mut out: Vec<u8> = b"before\n".to_vec();
    assert!(TextDisplay.display_element(&data("1", "A", "a"), &mut out).is_ok());
    assert!(TextDisplay.display_element(&data("2", "B", "b"), &mut out).is_ok());
    assert_eq!(
        String::from_utf8(out).unwrap(),
        "before\nIdentifier: 1\nName: A\nFile Path: a\nIdentifier: 2\nName: B\nFile Path: b\n"
    );
}

#[test]
fn csv_header_is_the_three_column_names() {
    let mut out: Vec<u8> = Vec::new();
    assert!(CsvDisplay.display_headers(&mut out).is_ok());
    assert_eq!(String::from_utf8(out).unwrap(), "Identifier,Name,File Path\n");
}

#[test]
fn csv_renders_one_row() {
    let mut out: Vec<u8> = Vec::new();
    assert!(CsvDisplay
        .display_element(&data("42", "Doe^John", "/data/a.dcm"), &mut out)
        .is_ok());
    assert_eq!(String::from_utf8(out).unwrap(), "42,Doe^John,/data/a.dcm\n");
}

#[test]
fn csv_quotes_where_needed() {
    let mut out: Vec<u8> = Vec::new();
    assert!(CsvDisplay
        .display_element(&data("4,2", "Doe \"JD\" John", "/data/two\nlines.dcm"), &mut out)
        .is_ok());
    assert_eq!(
        String::from_utf8(out).unwrap(),
        "\"4,2\",\"Doe \"\"JD\"\" John\",\"/data/two\nlines.dcm\"\n"
    );
}

#[test]
fn csv_renders_empty_fields() {
    let mut out: Vec<u8> = Vec::new();
    assert!(CsvDisplay.display_element(&data("", "", ""), &mut out).is_ok());
    assert_eq!(String::from_utf8(out).unwrap(), ",,\n");
}

#[test]
fn csv_appends_to_what_the_sink_holds() {
    let mut out: Vec<u8> = Vec::new();
    assert!(CsvDisplay.display_headers(&mut out).is_ok());
    assert!(CsvDisplay.display_element(&data("1", "A", "a"), &mut out).is_ok());
    assert!(CsvDisplay.display_element(&data("2", "B", "b"), &mut out).is_ok());
    assert_eq!(
        String::from_utf8(out).unwrap(),
        "Identifier,Name,File Path\n1,A,a\n2,B,b\n"
    );
}

#[test]
fn strategy_renders_in_its_format() {
    let record = data("7", "Roe^Jane", "dir/b.dcm");
    let mut as_text: Vec<u8> = Vec::new();
    let text = DisplayStrategy::new(OutputFormat::Text);
    assert!(text.display_headers(&mut as_text).is_ok());
    assert!(text.display_element(&record, &mut as_text).is_ok());
    assert_eq!(
        String::from_utf8(as_text).unwrap(),
        "Identifier: 7\nName: Roe^Jane\nFile Path: dir/b.dcm\n"
    );
    let mut as_csv: Vec<u8> = Vec::new();
    let csv = DisplayStrategy::new(OutputFormat::Csv);
    assert!(csv.display_headers(&mut as_csv).is_ok());
    assert!(csv.display_element(&record, &mut as_csv).is_ok());
    assert_eq!(
        String::from_utf8(as_csv).unwrap(),
        "Identifier,Name,File Path\n7,Roe^Jane,dir/b.dcm\n"
    );
}

#[test]
fn row_is_appended_as_it_is() {
    let mut out: Vec<u8> = b"a,b\n".to_vec();
    assert!(append_row(Ok(b"c,d\n".to_vec()), &mut out).is_ok());
    assert_eq!(out, b"a,b\nc,d\n".to_vec());
}

#[test]
fn refused_row_leaves_the_sink() {
    let mut out: Vec<u8> = b"a,b\n".to_vec();
    let refusal = csv::Error::from(std::io::Error::new(std::io::ErrorKind::Other, "full"));
    let done = append_row(Err(refusal), &mut out);
    assert!(matches!(done, Err(DisplayError::Csv(_))));
    assert_eq!(out, b"a,b\n".to_vec());
}

#[test]
fn name_and_identifier_are_read() {
    let file = file_of(vec![
        name("Doe^John"),
        id("ID-0042"),
    ]);
    assert_eq!(get_patient_name(&file).unwrap(), "Doe^John");
    assert_eq!(get_patient_id(&file).unwrap(), "ID-0042");
}

#[test]
fn padding_at_the_end_is_dropped() {
    let file = file_of(vec![
        name("Doe^John "),
        id("ID-0042\0"),
    ]);
    assert_eq!(get_patient_name(&file).unwrap(), "Doe^John");
    assert_eq!(get_patient_id(&file).unwrap(), "ID-0042");
}

#[test]
fn absent_element_is_an_access_error() {
    let file = file_of(vec![Element::new(
        tags::STUDY_DESCRIPTION,
        dicom::core::VR::LO,
        dicom::core::PrimitiveValue::from("chest"),
    )]);
    assert!(matches!(get_patient_name(&file), Err(PatientNameErr::Access(_))));
    assert!(matches!(get_patient_id(&file), Err(PatientIDErr::Access(_))));
}

#[test]
fn sequence_is_a_conversion_error() {
    let file = file_of(vec![sequence(tags::PATIENT_NAME), sequence(tags::PATIENT_ID)]);
    assert!(matches!(get_patient_name(&file), Err(PatientNameErr::ConvToStr(_))));
    assert!(matches!(get_patient_id(&file), Err(PatientIDErr::ConvToStr(_))));
}

#[test]
fn file_with_both_texts_gives_its_record() {
    let file = file_of(vec![
        name("Doe^John"),
        id("ID-0042"),
    ]);
    let record = handle_file(PathBuf::from("/data/a.dcm"), Ok(file)).unwrap();
    assert_eq!(record.patient_id, "ID-0042");
    assert_eq!(record.patient_name, "Doe^John");
    assert_eq!(record.path, PathBuf::from("/data/a.dcm"));
}

#[test]
fn unread_file_gives_the_read_error() {
    let done = handle_file(PathBuf::from("/data/a.txt"), Err(unreadable()));
    assert!(matches!(done, Err(DicomError::Read(_))));
}

#[test]
fn file_without_identifier_names_the_identifier_and_the_path() {
    let file = file_of(vec![name("Doe^John")]);
    match handle_file(PathBuf::from("/data/a.dcm"), Ok(file)) {
        Err(DicomError::PatientID(PatientIDErr::Access(_), path)) => {
            assert_eq!(path, PathBuf::from("/data/a.dcm"))
        }
        other => panic!("unexpected: {:?}", other),
    }
}

#[test]
fn file_without_name_names_the_name_and_the_path() {
    let file = file_of(vec![id("ID-0042")]);
    match handle_file(PathBuf::from("/data/b.dcm"), Ok(file)) {
        Err(DicomError::PatientName(PatientNameErr::Access(_), path)) => {
            assert_eq!(path, PathBuf::from("/data/b.dcm"))
        }
        other => panic!("unexpected: {:?}", other),
    }
}

#[test]
fn file_without_either_names_the_identifier() {
    let file = file_of(vec![]);
    let done = handle_file(PathBuf::from("/data/c.dcm"), Ok(file));
    assert!(matches!(
        done,
        Err(DicomError::PatientID(PatientIDErr::Access(_), _))
    ));
}

#[test]
fn file_with_a_sequence_for_a_name_gives_no_record() {
    let file = file_of(vec![
        sequence(tags::PATIENT_NAME),
        id("ID-0042"),
    ]);
    match handle_file(PathBuf::from("/data/d.dcm"), Ok(file)) {
        Err(DicomError::PatientName(PatientNameErr::ConvToStr(_), path)) => {
            assert_eq!(path, PathBuf::from("/data/d.dcm"))
        }
        other => panic!("unexpected: {:?}", other),
    }
}

#[test]
fn file_with_a_sequence_for_an_identifier_gives_no_record() {
    let file = file_of(vec![
        name("Doe^John"),
        sequence(tags::PATIENT_ID),
    ]);
    let done = handle_file(PathBuf::from("/data/e.dcm"), Ok(file));
    assert!(matches!(
        done,
        Err(DicomError::PatientID(PatientIDErr::ConvToStr(_), _))
    ));
}

#[test]
fn number_is_read_as_its_text() {
    let file = file_of(vec![
        name("Doe^John"),
        Element::new(
            tags::PATIENT_ID,
            dicom::core::VR::US,
            dicom::core::PrimitiveValue::from(42u16),
        ),
    ]);
    let record = handle_file(PathBuf::from("n.dcm"), Ok(file)).unwrap();
    assert_eq!(record.patient_id, "42");
}

#[test]
fn csv_row_depends_on_the_fields_alone() {
    let record = data("4,2", "Doe \"JD\" John", "/data/a.dcm");
    let mut first: Vec<u8> = Vec::new();
    let mut second: Vec<u8> = b"Identifier,Name,File Path\n".to_vec();
    assert!(CsvDisplay.display_element(&record, &mut first).is_ok());
    assert!(DisplayStrategy::new(OutputFormat::Csv)
        .display_element(&record, &mut second)
        .is_ok());
    assert_eq!(first, b"\"4,2\",\"Doe \"\"JD\"\" John\",/data/a.dcm\n".to_vec());
    assert_eq!(second[26..], first[..]);
}
