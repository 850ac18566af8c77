use zip_to_parquet::error::Error;

#[test]
fn message_of_read_file() {
    let err = Error::ReadFile { err: "not found".to_string(), file: "a.zip".to_string() };
    assert_eq!(err.message(), "error reading file a.zip: not found");
}

#[test]
fn message_of_write_file() {
    let err = Error::WriteFile { err: "denied".to_string(), target: "out.parquet".to_string() };
    assert_eq!(err.message(), "error writing to destination out.parquet: denied");
}

#[test]
fn message_of_zip() {
    let err = Error::Zip { err: "bad header".to_string(), file: "a.zip".to_string() };
    assert_eq!(err.message(), "error reading zip file a.zip: bad header");
}

#[test]
fn message_of_read_file_in_zip() {
    let err = Error::ReadFileInZip {
        err: "truncated".to_string(),
        file_name: "x.txt".to_string(),
        file: "a.zip".to_string(),
    };
    assert_eq!(err.message(), "error reading file x.txt from zip a.zip: truncated");
}

#[test]
fn message_of_parquet_and_arrow() {
    assert_eq!(
        Error::Parquet { err: "disk full".to_string() }.message(),
        "error writing to parquet: disk full"
    );
    assert_eq!(
        Error::Arrow { err: "bad column".to_string() }.message(),
        "error forming arrow array: bad column"
    );
}

#[test]
fn message_of_invalid_globs() {
    assert_eq!(
        Error::InvalidWaxGlob { glob: "{".to_string(), err: "parse".to_string() }.message(),
        "invalid glob '{': parse"
    );
    assert_eq!(
        Error::InvalidGlob { glob: "[".to_string(), err: "parse".to_string() }.message(),
        "invalid glob '[': parse"
    );
}

#[test]
fn message_of_no_inputs_found_lists_the_selectors() {
    let err = Error::NoInputsFound { globs: vec!["a/*.zip".to_string(), "b \"c\"".to_string()] };
    assert_eq!(err.message(), "no files found for glob(s): [\"a/*.zip\", \"b \\\"c\\\"\"]");
}

#[test]
fn message_of_glob_and_other() {
    assert_eq!(Error::Glob { err: "io".to_string() }.message(), "glob error: io");
    assert_eq!(Error::Other("closed".to_string()).message(), "other error: closed");
}

#[test]
fn message_of_output_selection_errors() {
    assert_eq!(
        Error::NeedsOutputOrStdout.message(),
        "must provide an output file or --stdout"
    );
    assert_eq!(
        Error::InvalidOutputAndStdout.message(),
        "must provide an output file or --stdout, but not both"
    );
}

#[test]
fn only_configuration_errors_are_configuration() {
    assert!(Error::NeedsOutputOrStdout.is_configuration());
    assert!(Error::InvalidOutputAndStdout.is_configuration());
    assert!(Error::NoInputsFound { globs: Vec::new() }.is_configuration());
    assert!(Error::InvalidGlob { glob: String::new(), err: String::new() }.is_configuration());
    assert!(Error::InvalidWaxGlob { glob: String::new(), err: String::new() }.is_configuration());
    assert!(!Error::Zip { err: String::new(), file: String::new() }.is_configuration());
    assert!(!Error::Parquet { err: String::new() }.is_configuration());
    assert!(!Error::Other(String::new()).is_configuration());
}
