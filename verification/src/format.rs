//! The container-format gate.
//!
//! Before any record is processed, the input stream's declared container
//! format must belong to the sequence-data category, and within that family
//! exactly three sub-formats are accepted: the textual one, the binary one,
//! and the compressed reference-based one. The numeric codes are the ones
//! the underlying alignment library reports for its exact-format and
//! category probes.

use vstd::prelude::*;

verus! {

/// The three accepted alignment container sub-formats.
#[derive(Clone, Copy, Debug, PartialEq, Eq, Structural)]
pub enum FileFormat {
    /// Textual alignment format.
    Sam,
    /// Binary alignment format.
    Bam,
    /// Compressed, reference-based alignment format.
    Cram,
}

/// Why an input stream was rejected before any record was read.
#[derive(Clone, Copy, Debug, PartialEq, Eq, Structural)]
pub enum FormatError {
    /// The stream is not in the sequence-data category at all.
    NotSequenceData,
    /// The stream is sequence data, but not in one of the three accepted
    /// sub-formats.
    UnrecognizedFormat,
}

/// The format code the underlying library reports for the textual format.
pub const FORMAT_CODE_SAM: u32 = 3;

/// The format code the underlying library reports for the binary format.
pub const FORMAT_CODE_BAM: u32 = 4;

/// The format code the underlying library reports for the compressed
/// reference-based format.
pub const FORMAT_CODE_CRAM: u32 = 6;

/// The category code the underlying library reports for sequence data.
pub const CATEGORY_CODE_SEQUENCE_DATA: u32 = 1;

/// The sub-format each exact-format code maps to; codes outside the three
/// accepted ones are rejected.
pub open spec fn file_format_of_code(hts_format: u32) -> Result<FileFormat, FormatError> {
    if hts_format == FORMAT_CODE_SAM {
        Ok(FileFormat::Sam)
    } else if hts_format == FORMAT_CODE_BAM {
        Ok(FileFormat::Bam)
    } else if hts_format == FORMAT_CODE_CRAM {
        Ok(FileFormat::Cram)
    } else {
        Err(FormatError::UnrecognizedFormat)
    }
}

/// Maps the exact-format code of the input stream to one of the three
/// accepted sub-formats, or rejects it.
pub fn get_file_format(hts_format: u32) -> (r: Result<FileFormat, FormatError>)
    ensures
        r == file_format_of_code(hts_format),
{
    if hts_format == FORMAT_CODE_SAM {
        Ok(FileFormat::Sam)
    } else if hts_format == FORMAT_CODE_BAM {
        Ok(FileFormat::Bam)
    } else if hts_format == FORMAT_CODE_CRAM {
        Ok(FileFormat::Cram)
    } else {
        Err(FormatError::UnrecognizedFormat)
    }
}

/// Decides whether the input stream passes the whole format gate: it must
/// be in the sequence-data category and in one of the three accepted
/// sub-formats.
pub fn check_container(category: u32, hts_format: u32) -> (r: Result<FileFormat, FormatError>)
    ensures
        category != CATEGORY_CODE_SEQUENCE_DATA ==> r == Err::<FileFormat, FormatError>(
            FormatError::NotSequenceData,
        ),
        category == CATEGORY_CODE_SEQUENCE_DATA ==> r == file_format_of_code(hts_format),
{
    if category != CATEGORY_CODE_SEQUENCE_DATA {
        return Err(FormatError::NotSequenceData);
    }
    get_file_format(hts_format)
}

} // verus!
