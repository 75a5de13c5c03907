//! Loading a configuration record from text in one of several formats.
//!
//! The file reading, and the format-specific parsers themselves, live
//! outside the verified library; what is verified here is the error model
//! and the wrapping of any one parser's outcome.
use vstd::prelude::*;

verus! {

/// Why loading a configuration failed.  Every failure is reported to the
/// caller before a realm starts; none surfaces once it runs.
#[derive(Debug)]
pub enum DeserializationError {
    /// The named format has no parser yet.
    NotImplemented(String),
    /// The content could not be parsed as the named format.
    InvalidInput(String, &'static str),
    /// The file exists but holds nothing.
    EmptyFile(String),
    /// Reading the file's contents failed.
    IOError { path: String, source: std::io::Error },
}

/// The formats a configuration may be written in.
#[derive(Debug)]
pub enum Format {
    Json,
    Yaml,
    Xml,
    Toml,
}

/// The rule the file loader applies between reading and parsing: a file
/// that holds nothing is rejected as [`DeserializationError::EmptyFile`]
/// naming the file; any actual content passes.
pub fn require_content(file_path: &str, file_data: &str) -> (r: Result<(), DeserializationError>)
    ensures
        r is Ok <==> file_data@.len() > 0,
        r matches Err(e) ==> (e matches DeserializationError::EmptyFile(p) && p@ == file_path@),
{
    if file_data.is_empty() {
        Err(DeserializationError::EmptyFile(file_path.to_owned()))
    } else {
        Ok(())
    }
}

/// Runs one parser on `data` and folds its failure, whatever it was, into
/// [`DeserializationError::InvalidInput`] carrying the offending text and
/// the format's name; a successful parse passes through untouched.
pub fn deserialize_with_context<T, E, F: Fn(&str) -> Result<T, E>>(
    result: F,
    data: &str,
    format: &'static str,
) -> (r: Result<T, DeserializationError>)
    requires
        call_requires(result, (data,)),
    ensures
        r matches Err(de) ==> (de matches DeserializationError::InvalidInput(d, f) && d@ == data@
            && f@ == format@),
        r matches Ok(v) ==> exists|res: Result<T, E>|
            #[trigger] call_ensures(result, (data,), res) && res == Ok::<T, E>(v),
        r is Err ==> exists|res: Result<T, E>|
            #[trigger] call_ensures(result, (data,), res) && res is Err,
{
    match result(data) {
        Ok(v) => Ok(v),
        Err(_) => Err(DeserializationError::InvalidInput(data.to_owned(), format)),
    }
}

} // verus!
