//! From an opened DICOM file to a patient record.

use dicom::object::{AccessError, FileDicomObject, InMemDicomObject, ReadError};
use std::path::PathBuf;
use vstd::prelude::*;

verus! {

/// A DICOM file as `dicom::object::open_file` gives it.
pub type File = FileDicomObject<InMemDicomObject>;

/// Group number of the patient attributes.
pub const PATIENT_GROUP: u16 = 0x0010;

/// Element number of the patient's name, within `PATIENT_GROUP`.
pub const PATIENT_NAME: u16 = 0x0010;

/// Element number of the patient's identifier, within `PATIENT_GROUP`.
pub const PATIENT_ID: u16 = 0x0020;

/// Why a file gave no record.
#[derive(Debug)]
pub enum DicomError {
    /// The file could not be read as DICOM.
    Read(ReadError),
    /// The patient's name could not be had from the file at the path.
    PatientName(PatientNameErr, PathBuf),
    /// The patient's identifier could not be had from the file at the path.
    PatientID(PatientIDErr, PathBuf),
}

/// Why the patient's name could not be had.
#[derive(Debug)]
pub enum PatientNameErr {
    /// The file holds no such element.
    Access(AccessError),
    /// The element's value is no text.
    ConvToStr(dicom::core::value::ConvertValueError),
}

/// Why the patient's identifier could not be had.
#[derive(Debug)]
pub enum PatientIDErr {
    /// The file holds no such element.
    Access(AccessError),
    /// The element's value is no text.
    ConvToStr(dicom::core::value::ConvertValueError),
}

/// Why an element gave no text.
pub enum ElementErr {
    /// The file holds no such element.
    Access(AccessError),
    /// The element's value is no text.
    ConvToStr(dicom::core::value::ConvertValueError),
}

/// The record of one file.
#[derive(Debug)]
pub struct DicomFileData {
    pub patient_id: String,
    pub patient_name: String,
    pub path: PathBuf,
}

/// What a record says, as mathematical text.
pub ghost struct Record {
    pub identifier: Seq<char>,
    pub display_name: Seq<char>,
    pub source_path: PathBuf,
}

impl View for DicomFileData {
    type V = Record;

    open spec fn view(&self) -> Record {
        Record {
            identifier: self.patient_id@,
            display_name: self.patient_name@,
            source_path: self.path,
        }
    }
}

/// The elements at the root of a DICOM file's data set, by group and element
/// number: the text of each element whose value is primitive, `None` for an
/// element whose value is a sequence.
pub uninterp spec fn dicom_texts(obj: File) -> Map<(u16, u16), Option<Seq<char>>>;

/// Whether the file holds, under the tag, an element with a text.
pub open spec fn has_text(obj: File, group: u16, element: u16) -> bool {
    dicom_texts(obj).contains_key((group, element)) && dicom_texts(obj)[(group, element)] is Some
}

/// The text that the file holds under the tag.
pub open spec fn text_of(obj: File, group: u16, element: u16) -> Seq<char>
    recommends
        has_text(obj, group, element),
{
    dicom_texts(obj)[(group, element)]->0
}

/// Calls `InMemDicomObject::element` with the tag, then `DataElement::to_str`
/// on what it found. `element` looks the tag up in the object's map of
/// elements and fails with an `AccessError` exactly where the map has no
/// such key; `to_str` fails with a `ConvertValueError` exactly where the
/// value is not primitive, and else gives the value as one string.
#[verifier::external_body]
fn element_text(obj: &File, group: u16, element: u16) -> (text: Result<String, ElementErr>)
    ensures
        match text {
            Ok(s) => has_text(*obj, group, element) && s@ == text_of(*obj, group, element),
            Err(ElementErr::Access(_)) => !dicom_texts(*obj).contains_key((group, element)),
            Err(ElementErr::ConvToStr(_)) => dicom_texts(*obj).contains_key((group, element))
                && dicom_texts(*obj)[(group, element)] is None,
        },
{
    match obj.element(dicom::core::Tag(group, element)) {
        Err(e) => Err(ElementErr::Access(e)),
        Ok(found) => match found.to_str() {
            Err(e) => Err(ElementErr::ConvToStr(e)),
            Ok(s) => Ok(s.into_owned()),
        },
    }
}

/// The patient's name that the file holds.
pub fn get_patient_name(obj: &File) -> (name: Result<String, PatientNameErr>)
    ensures
        match name {
            Ok(s) => has_text(*obj, PATIENT_GROUP, PATIENT_NAME) && s@ == text_of(
                *obj,
                PATIENT_GROUP,
                PATIENT_NAME,
            ),
            Err(PatientNameErr::Access(_)) => !dicom_texts(*obj).contains_key(
                (PATIENT_GROUP, PATIENT_NAME),
            ),
            Err(PatientNameErr::ConvToStr(_)) => dicom_texts(*obj).contains_key(
                (PATIENT_GROUP, PATIENT_NAME),
            ) && !has_text(*obj, PATIENT_GROUP, PATIENT_NAME),
        },
{
    match element_text(obj, PATIENT_GROUP, PATIENT_NAME) {
        Ok(s) => Ok(s),
        Err(ElementErr::Access(e)) => Err(PatientNameErr::Access(e)),
        Err(ElementErr::ConvToStr(e)) => Err(PatientNameErr::ConvToStr(e)),
    }
}

/// The patient's identifier that the file holds.
pub fn get_patient_id(obj: &File) -> (id: Result<String, PatientIDErr>)
    ensures
        match id {
            Ok(s) => has_text(*obj, PATIENT_GROUP, PATIENT_ID) && s@ == text_of(
                *obj,
                PATIENT_GROUP,
                PATIENT_ID,
            ),
            Err(PatientIDErr::Access(_)) => !dicom_texts(*obj).contains_key(
                (PATIENT_GROUP, PATIENT_ID),
            ),
            Err(PatientIDErr::ConvToStr(_)) => dicom_texts(*obj).contains_key(
                (PATIENT_GROUP, PATIENT_ID),
            ) && !has_text(*obj, PATIENT_GROUP, PATIENT_ID),
        },
{
    match element_text(obj, PATIENT_GROUP, PATIENT_ID) {
        Ok(s) => Ok(s),
        Err(ElementErr::Access(e)) => Err(PatientIDErr::Access(e)),
        Err(ElementErr::ConvToStr(e)) => Err(PatientIDErr::ConvToStr(e)),
    }
}

/// Whether reading the file at a path gave a record: the file opened and
/// holds a text for the patient's identifier and for the patient's name.
pub open spec fn is_record(opened: Result<File, ReadError>) -> bool {
    opened matches Ok(obj) && has_text(obj, PATIENT_GROUP, PATIENT_ID) && has_text(
        obj,
        PATIENT_GROUP,
        PATIENT_NAME,
    )
}

/// The record that the file at `path` gives.
pub open spec fn record_of(path: PathBuf, opened: Result<File, ReadError>) -> Record
    recommends
        is_record(opened),
{
    Record {
        identifier: text_of(opened->Ok_0, PATIENT_GROUP, PATIENT_ID),
        display_name: text_of(opened->Ok_0, PATIENT_GROUP, PATIENT_NAME),
        source_path: path,
    }
}

/// Whether `err` is the error that the file at `path` is owed: the read
/// error of a file that did not open; else the error of the identifier
/// where that is missing, and the error of the name otherwise, each with
/// the path, and each saying whether the element is absent or no text.
pub open spec fn explains(err: DicomError, path: PathBuf, opened: Result<File, ReadError>) -> bool {
    match opened {
        Err(e) => err == DicomError::Read(e),
        Ok(obj) => if !has_text(obj, PATIENT_GROUP, PATIENT_ID) {
            &&& err matches DicomError::PatientID(inner, p)
            &&& p == path
            &&& inner is Access <==> !dicom_texts(obj).contains_key((PATIENT_GROUP, PATIENT_ID))
        } else {
            &&& !has_text(obj, PATIENT_GROUP, PATIENT_NAME)
            &&& err matches DicomError::PatientName(inner, p)
            &&& p == path
            &&& inner is Access <==> !dicom_texts(obj).contains_key((PATIENT_GROUP, PATIENT_NAME))
        },
    }
}

/// Makes the record of the file at `path` from what opening it gave.
///
/// A file that did not open gives the read error. One that opened gives its
/// record if it holds both texts; else the error of the identifier if that
/// is missing, and the error of the name otherwise, each with the path.
pub fn handle_file(path: PathBuf, opened: Result<File, ReadError>) -> (data: Result<
    DicomFileData,
    DicomError,
>)
    ensures
        data is Ok <==> is_record(opened),
        data matches Ok(d) ==> d@ == record_of(path, opened),
        data matches Err(err) ==> explains(err, path, opened),
{
    match opened {
        Err(e) => Err(DicomError::Read(e)),
        Ok(obj) => match get_patient_id(&obj) {
            Err(e) => Err(DicomError::PatientID(e, path)),
            Ok(patient_id) => match get_patient_name(&obj) {
                Err(e) => Err(DicomError::PatientName(e, path)),
                Ok(patient_name) => Ok(DicomFileData { patient_id, patient_name, path }),
            },
        },
    }
}

} // verus!
