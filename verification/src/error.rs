//! The failures a conversion can report.

use vstd::prelude::*;
use vstd::string::StringExecFns;

verus! {

/// The text that `std` gives a list of strings under its `Debug` format.
pub uninterp spec fn debug_list_text(list: Seq<Seq<char>>) -> Seq<char>;

/// Formats a list of strings with `std`'s `Debug` implementation for
/// `Vec<String>`. Trusted: the text depends on the strings alone.
#[verifier::external_body]
fn debug_list(list: &Vec<String>) -> (text: String)
    ensures
        text@ == debug_list_text(Seq::new(list@.len(), |i: int| list@[i]@)),
{
    format!("{:?}", list)
}

/// Everything that can stop a conversion. Causes reported by the file system
/// or by another library are carried as their rendered text.
#[derive(Debug, Clone)]
pub enum Error {
    /// An input archive could not be opened.
    ReadFile { err: String, file: String },
    /// The output file could not be created.
    WriteFile { err: String, target: String },
    /// An archive, or the directory record of one of its entries, could not be decoded.
    Zip { err: String, file: String },
    /// The content of one entry could not be read.
    ReadFileInZip { err: String, file_name: String, file: String },
    /// The sink refused a row group or could not finish the output.
    Parquet { err: String },
    /// A row group could not be laid out as columnar arrays.
    Arrow { err: String },
    /// The entry filter is not a valid pattern.
    InvalidWaxGlob { glob: String, err: String },
    /// An input selector is not a valid pattern.
    InvalidGlob { glob: String, err: String },
    /// The input selectors named no archive at all.
    NoInputsFound { globs: Vec<String> },
    /// A path could not be visited while expanding an input selector.
    Glob { err: String },
    /// Neither an output file nor the standard output stream was chosen.
    NeedsOutputOrStdout,
    /// Both an output file and the standard output stream were chosen.
    InvalidOutputAndStdout,
    /// Any other failure, with its description.
    Other(String),
}

impl Error {
    /// The message of the error, as it is shown to the user.
    pub open spec fn spec_message(&self) -> Seq<char> {
        match self {
            Error::ReadFile { err, file } => "error reading file "@ + file@ + ": "@ + err@,
            Error::WriteFile { err, target } => "error writing to destination "@ + target@ + ": "@
                + err@,
            Error::Zip { err, file } => "error reading zip file "@ + file@ + ": "@ + err@,
            Error::ReadFileInZip { err, file_name, file } => "error reading file "@ + file_name@
                + " from zip "@ + file@ + ": "@ + err@,
            Error::Parquet { err } => "error writing to parquet: "@ + err@,
            Error::Arrow { err } => "error forming arrow array: "@ + err@,
            Error::InvalidWaxGlob { glob, err } => "invalid glob '"@ + glob@ + "': "@ + err@,
            Error::InvalidGlob { glob, err } => "invalid glob '"@ + glob@ + "': "@ + err@,
            Error::NoInputsFound { globs } => "no files found for glob(s): "@ + debug_list_text(
                Seq::new(globs@.len(), |i: int| globs@[i]@),
            ),
            Error::Glob { err } => "glob error: "@ + err@,
            Error::NeedsOutputOrStdout => "must provide an output file or --stdout"@,
            Error::InvalidOutputAndStdout =>
                "must provide an output file or --stdout, but not both"@,
            Error::Other(err) => "other error: "@ + err@,
        }
    }

    /// Whether the error is one of the configuration: found before any
    /// archive is opened.
    pub open spec fn spec_is_configuration(&self) -> bool {
        self is InvalidWaxGlob || self is InvalidGlob || self is NoInputsFound
            || self is NeedsOutputOrStdout || self is InvalidOutputAndStdout
    }

    /// Whether the error is one of the configuration.
    pub fn is_configuration(&self) -> (configuration: bool)
        ensures
            configuration == self.spec_is_configuration(),
    {
        match self {
            Error::InvalidWaxGlob { .. } => true,
            Error::InvalidGlob { .. } => true,
            Error::NoInputsFound { .. } => true,
            Error::NeedsOutputOrStdout => true,
            Error::InvalidOutputAndStdout => true,
            _ => false,
        }
    }

    /// The message of the error, as it is shown to the user.
    pub fn message(&self) -> (text: String)
        ensures
            text@ == self.spec_message(),
    {
        match self {
            Error::ReadFile { err, file } => {
                let mut text = String::from_str("error reading file ");
                text.append(file.as_str());
                text.append(": ");
                text.append(err.as_str());
                text
            },
            Error::WriteFile { err, target } => {
                let mut text = String::from_str("error writing to destination ");
                text.append(target.as_str());
                text.append(": ");
                text.append(err.as_str());
                text
            },
            Error::Zip { err, file } => {
                let mut text = String::from_str("error reading zip file ");
                text.append(file.as_str());
                text.append(": ");
                text.append(err.as_str());
                text
            },
            Error::ReadFileInZip { err, file_name, file } => {
                let mut text = String::from_str("error reading file ");
                text.append(file_name.as_str());
                text.append(" from zip ");
                text.append(file.as_str());
                text.append(": ");
                text.append(err.as_str());
                text
            },
            Error::Parquet { err } => {
                let mut text = String::from_str("error writing to parquet: ");
                text.append(err.as_str());
                text
            },
            Error::Arrow { err } => {
                let mut text = String::from_str("error forming arrow array: ");
                text.append(err.as_str());
                text
            },
            Error::InvalidWaxGlob { glob, err } => {
                let mut text = String::from_str("invalid glob '");
                text.append(glob.as_str());
                text.append("': ");
                text.append(err.as_str());
                text
            },
            Error::InvalidGlob { glob, err } => {
                let mut text = String::from_str("invalid glob '");
                text.append(glob.as_str());
                text.append("': ");
                text.append(err.as_str());
                text
            },
            Error::NoInputsFound { globs } => {
                let mut text = String::from_str("no files found for glob(s): ");
                let list = debug_list(globs);
                text.append(list.as_str());
                text
            },
            Error::Glob { err } => {
                let mut text = String::from_str("glob error: ");
                text.append(err.as_str());
                text
            },
            Error::NeedsOutputOrStdout => String::from_str(
                "must provide an output file or --stdout",
            ),
            Error::InvalidOutputAndStdout => String::from_str(
                "must provide an output file or --stdout, but not both",
            ),
            Error::Other(err) => {
                let mut text = String::from_str("other error: ");
                text.append(err.as_str());
                text
            },
        }
    }
}

} // verus!
