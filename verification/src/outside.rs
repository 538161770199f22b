//! Types of std and of outside crates that the library carries through
//! without looking inside them. Verus knows of each only that it is a type.

use vstd::prelude::*;

verus! {

/// `std::path::PathBuf`: a path of the file system.
#[verifier::external_type_specification]
#[verifier::external_body]
pub struct ExPathBuf(std::path::PathBuf);

/// `std::io::Error`: why the file system refused a request.
#[verifier::external_type_specification]
#[verifier::external_body]
pub struct ExIoError(std::io::Error);

/// `csv::Error`: why the CSV writer refused a row.
#[verifier::external_type_specification]
#[verifier::external_body]
pub struct ExCsvError(csv::Error);

/// `rayon::ThreadPoolBuildError`: why a worker pool could not be built.
#[verifier::external_type_specification]
#[verifier::external_body]
pub struct ExThreadPoolBuildError(rayon::ThreadPoolBuildError);

/// `dicom::object::FileDicomObject`: a DICOM object read from a file, with
/// the file's meta table beside it.
#[verifier::external_type_specification]
#[verifier::external_body]
#[verifier::reject_recursive_types(O)]
pub struct ExFileDicomObject<O>(dicom::object::FileDicomObject<O>);

/// `dicom::object::InMemDicomObject`: a DICOM data set held in memory.
#[verifier::external_type_specification]
#[verifier::external_body]
#[verifier::reject_recursive_types(D)]
pub struct ExInMemDicomObject<D>(dicom::object::InMemDicomObject<D>);

/// `dicom::object::StandardDataDictionary`: the dictionary of the standard's
/// attributes, which a data set in memory carries by default.
#[verifier::external_type_specification]
#[verifier::external_body]
pub struct ExStandardDataDictionary(dicom::object::StandardDataDictionary);

/// `dicom::object::ReadError`: why a file could not be read as DICOM.
#[verifier::external_type_specification]
#[verifier::external_body]
pub struct ExReadError(dicom::object::ReadError);

/// `dicom::object::AccessError`: that a data set holds no element under a
/// tag.
#[verifier::external_type_specification]
#[verifier::external_body]
pub struct ExAccessError(dicom::object::AccessError);

/// `dicom::core::value::ConvertValueError`: that an element's value cannot
/// be had in the form asked for.
#[verifier::external_type_specification]
#[verifier::external_body]
pub struct ExConvertValueError(dicom::core::value::ConvertValueError);

/// `PathBuf::clone` gives a path equal to the one it was called on.
pub assume_specification[ <std::path::PathBuf as Clone>::clone ](path: &std::path::PathBuf) -> (copy:
    std::path::PathBuf)
    ensures
        copy == *path,
;

} // verus!
