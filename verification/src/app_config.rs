//! The settings of one run.

use std::path::PathBuf;
use vstd::prelude::*;

verus! {

/// How the records are rendered.
#[derive(Copy, Clone, PartialEq, Eq, PartialOrd, Ord, Debug, Structural)]
pub enum OutputFormat {
    Text,
    Csv,
}

/// The settings of one run.
pub struct Cli {
    /// The directory or file to read.
    pub path: PathBuf,
    /// Size of the worker pool.
    pub num_workers: usize,
    /// How the records are rendered.
    pub output_format: OutputFormat,
    /// Where the records go; standard output when absent.
    pub result_filepath: Option<PathBuf>,
}

/// The number of workers of a run that names none.
pub const DEFAULT_NUM_WORKERS: usize = 1;

/// Completes the settings of a run from what its caller gave: one worker
/// where no number was given, text where no format was given.
pub fn get_config(
    path: PathBuf,
    num_workers: Option<usize>,
    output_format: Option<OutputFormat>,
    result_filepath: Option<PathBuf>,
) -> (config: Cli)
    ensures
        config.path == path,
        config.num_workers == match num_workers {
            Some(n) => n,
            None => DEFAULT_NUM_WORKERS,
        },
        config.output_format == match output_format {
            Some(format) => format,
            None => OutputFormat::Text,
        },
        config.result_filepath == result_filepath,
{
    Cli {
        path,
        num_workers: match num_workers {
            Some(n) => n,
            None => DEFAULT_NUM_WORKERS,
        },
        output_format: match output_format {
            Some(format) => format,
            None => OutputFormat::Text,
        },
        result_filepath,
    }
}

} // verus!
