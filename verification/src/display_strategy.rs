//! Rendering of records, as text or as CSV, into a sink of bytes.

use crate::app_config::OutputFormat;
use crate::dicom_file_reader::{DicomFileData, Record};
use std::path::PathBuf;
use vstd::prelude::*;
use vstd::string::*;
use vstd::utf8::encode_utf8;

verus! {

/// Why a header or a record could not be rendered or written.
#[derive(Debug)]
pub enum DisplayError {
    /// The CSV writer refused the row.
    Csv(csv::Error),
    /// The sink refused the bytes.
    Write(std::io::Error),
}

/// The bytes of the row that the CSV writer, in its default configuration,
/// makes of one record of three fields.
pub uninterp spec fn csv_record(first: Seq<char>, second: Seq<char>, third: Seq<char>) -> Seq<u8>;

/// The text that a path holds, with what is no Unicode replaced.
pub uninterp spec fn path_text(path: PathBuf) -> Seq<char>;

/// Makes a `csv::Writer` with `Writer::from_writer` on an empty vector,
/// writes the three fields as one record with `Writer::write_record`, and
/// takes the vector back with `Writer::into_inner`, which flushes.
///
/// The writer is new, its configuration the default one, and its sink a
/// vector of its own, so the bytes of the row depend on the three fields
/// alone. And the call succeeds: `write_record` fails only where the sink
/// refuses bytes or where the record's length differs from that of an
/// earlier record, and `into_inner` only where the sink refuses bytes; a
/// vector takes whatever is appended to it, and a new writer has no earlier
/// record.
#[verifier::external_body]
fn write_csv_record(first: &str, second: &str, third: &str) -> (row: Result<Vec<u8>, csv::Error>)
    ensures
        row is Ok,
        row matches Ok(bytes) ==> bytes@ == csv_record(first@, second@, third@),
{
    let mut writer = csv::Writer::from_writer(Vec::new());
    writer.write_record([first, second, third])?;
    match writer.into_inner() {
        Ok(bytes) => Ok(bytes),
        Err(e) => Err(csv::Error::from(e.into_error())),
    }
}

/// Calls `Path::to_string_lossy`, which gives the path as text and puts the
/// replacement character where the path is no Unicode.
#[verifier::external_body]
fn path_to_string(path: &PathBuf) -> (text: String)
    ensures
        text@ == path_text(*path),
{
    path.to_string_lossy().into_owned()
}

/// The three lines that the text format makes of a record.
pub open spec fn text_record(record: Record) -> Seq<char> {
    "Identifier: "@ + record.identifier + "\nName: "@ + record.display_name + "\nFile Path: "@
        + path_text(record.source_path) + "\n"@
}

/// The row that the CSV format makes of a record: its identifier, its name
/// and the text of its path, in that order.
pub open spec fn csv_row(record: Record) -> Seq<u8> {
    csv_record(record.identifier, record.display_name, path_text(record.source_path))
}

/// The row of column names that the CSV format starts with.
pub open spec fn csv_headers() -> Seq<u8> {
    csv_record("Identifier"@, "Name"@, "File Path"@)
}

/// Appends an encoded row to the sink, or turns the writer's refusal into
/// the library's error and leaves the sink as it was.
pub fn append_row(row: Result<Vec<u8>, csv::Error>, output: &mut Vec<u8>) -> (done: Result<
    (),
    DisplayError,
>)
    ensures
        match row {
            Ok(bytes) => done is Ok && final(output)@ == old(output)@ + bytes@,
            Err(e) => done == Err::<(), DisplayError>(DisplayError::Csv(e)) && final(output)@
                == old(output)@,
        },
{
    match row {
        Ok(bytes) => {
            let mut bytes = bytes;
            output.append(&mut bytes);
            Ok(())
        },
        Err(e) => Err(DisplayError::Csv(e)),
    }
}

/// A format in which records are rendered, one at a time.
pub trait DisplayFormat {
    /// What the format writes before any record.
    spec fn headers(&self) -> Seq<u8>;

    /// What the format writes for one record.
    spec fn element(&self, record: Record) -> Seq<u8>;

    /// Appends the format's header to the sink. On an error the sink is as
    /// it was.
    fn display_headers(&self, output: &mut Vec<u8>) -> (done: Result<(), DisplayError>)
        ensures
            done is Ok ==> final(output)@ == old(output)@ + self.headers(),
            done is Err ==> final(output)@ == old(output)@,
    ;

    /// Appends the rendering of one record to the sink. On an error the
    /// sink is as it was.
    fn display_element(&self, data: &DicomFileData, output: &mut Vec<u8>) -> (done: Result<
        (),
        DisplayError,
    >)
        ensures
            done is Ok ==> final(output)@ == old(output)@ + self.element(data@),
            done is Err ==> final(output)@ == old(output)@,
    ;
}

/// Three lines of text for each record, and no header.
pub struct TextDisplay;

impl DisplayFormat for TextDisplay {
    open spec fn headers(&self) -> Seq<u8> {
        Seq::empty()
    }

    open spec fn element(&self, record: Record) -> Seq<u8> {
        encode_utf8(text_record(record))
    }

    fn display_headers(&self, output: &mut Vec<u8>) -> (done: Result<(), DisplayError>)
        ensures
            done is Ok,
    {
        Ok(())
    }

    fn display_element(&self, data: &DicomFileData, output: &mut Vec<u8>) -> (done: Result<
        (),
        DisplayError,
    >)
        ensures
            done is Ok,
    {
        let path = path_to_string(&data.path);
        let mut lines = String::from_str("Identifier: ");
        lines.append(data.patient_id.as_str());
        lines.append("\nName: ");
        lines.append(data.patient_name.as_str());
        lines.append("\nFile Path: ");
        lines.append(path.as_str());
        lines.append("\n");
        let mut bytes = lines.as_str().as_bytes_vec();
        output.append(&mut bytes);
        Ok(())
    }
}

/// One CSV row for each record, after a row of column names.
pub struct CsvDisplay;

impl DisplayFormat for CsvDisplay {
    open spec fn headers(&self) -> Seq<u8> {
        csv_headers()
    }

    open spec fn element(&self, record: Record) -> Seq<u8> {
        csv_row(record)
    }

    /// Appends the row of column names to the sink, and succeeds.
    fn display_headers(&self, output: &mut Vec<u8>) -> (done: Result<(), DisplayError>)
        ensures
            done is Ok,
    {
        let row = write_csv_record("Identifier", "Name", "File Path");
        append_row(row, output)
    }

    /// Appends the row of one record to the sink: its identifier, its name
    /// and the text of its path, in that order. It succeeds.
    fn display_element(&self, data: &DicomFileData, output: &mut Vec<u8>) -> (done: Result<
        (),
        DisplayError,
    >)
        ensures
            done is Ok,
    {
        let path = path_to_string(&data.path);
        let row = write_csv_record(
            data.patient_id.as_str(),
            data.patient_name.as_str(),
            path.as_str(),
        );
        append_row(row, output)
    }
}

/// The format that a run was asked for.
pub struct DisplayStrategy(OutputFormat);

impl DisplayStrategy {
    /// The format that the strategy renders in.
    pub closed spec fn format(&self) -> OutputFormat {
        self.0
    }

    pub fn new(format: OutputFormat) -> (strategy: DisplayStrategy)
        ensures
            strategy.format() == format,
    {
        DisplayStrategy(format)
    }
}

impl DisplayFormat for DisplayStrategy {
    open spec fn headers(&self) -> Seq<u8> {
        match self.format() {
            OutputFormat::Text => TextDisplay.headers(),
            OutputFormat::Csv => CsvDisplay.headers(),
        }
    }

    open spec fn element(&self, record: Record) -> Seq<u8> {
        match self.format() {
            OutputFormat::Text => TextDisplay.element(record),
            OutputFormat::Csv => CsvDisplay.element(record),
        }
    }

    fn display_headers(&self, output: &mut Vec<u8>) -> (done: Result<(), DisplayError>)
        ensures
            done is Ok,
    {
        match self.0 {
            OutputFormat::Text => TextDisplay.display_headers(output),
            OutputFormat::Csv => CsvDisplay.display_headers(output),
        }
    }

    fn display_element(&self, data: &DicomFileData, output: &mut Vec<u8>) -> (done: Result<
        (),
        DisplayError,
    >)
        ensures
            done is Ok,
    {
        match self.0 {
            OutputFormat::Text => TextDisplay.display_element(data, output),
            OutputFormat::Csv => CsvDisplay.display_element(data, output),
        }
    }
}

} // verus!
