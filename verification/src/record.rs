//! The record that one archive entry gives.

use vstd::prelude::*;
use crate::config::Args;
use crate::digest::{content_hash, spec_content_hash};

verus! {

/// One output row as plain data. An absent column value is `None`, never an
/// empty text.
pub struct Row {
    pub name: Seq<char>,
    pub source: Option<Seq<char>>,
    pub body: Option<Seq<u8>>,
    pub hash: Option<Seq<char>>,
}

/// The facts extracted from one archive entry.
#[derive(Debug, Clone)]
pub struct UnzippedFile {
    /// Path of the entry inside its archive.
    pub name: String,
    /// Path of the archive, as it was supplied.
    pub source: Option<String>,
    /// The entry's content.
    pub body: Option<Vec<u8>>,
    /// The digest of the content in lower-case hexadecimal.
    pub hash: Option<String>,
}

/// An optional text as plain data.
pub open spec fn text_of(text: Option<String>) -> Option<Seq<char>> {
    match text {
        Some(t) => Some(t@),
        None => None,
    }
}

/// Optional bytes as plain data.
pub open spec fn bytes_of(bytes: Option<Vec<u8>>) -> Option<Seq<u8>> {
    match bytes {
        Some(b) => Some(b@),
        None => None,
    }
}

impl View for UnzippedFile {
    type V = Row;

    open spec fn view(&self) -> Row {
        Row {
            name: self.name@,
            source: text_of(self.source),
            body: bytes_of(self.body),
            hash: text_of(self.hash),
        }
    }
}

/// The source column's value under the given toggles.
pub open spec fn spec_source(args: Args, path: Seq<char>) -> Option<Seq<char>> {
    if args.no_source {
        None
    } else {
        Some(path)
    }
}

/// The row that an entry named `name`, with this content, in the archive at
/// `path` gives under the given toggles.
pub open spec fn spec_record(args: Args, path: Seq<char>, name: Seq<char>, content: Seq<u8>) -> Row {
    Row {
        name,
        source: spec_source(args, path),
        body: if args.no_body {
            None
        } else {
            Some(content)
        },
        hash: if args.no_hash {
            None
        } else {
            Some(spec_content_hash(content))
        },
    }
}

/// The source column's value: the archive's path unless it is switched off.
fn source_column(args: &Args, path: &str) -> (source: Option<String>)
    ensures
        text_of(source) == spec_source(*args, path@),
{
    if args.no_source {
        None
    } else {
        Some(path.to_owned())
    }
}

impl UnzippedFile {
    /// The record of an entry whose content was read. The hash is taken over
    /// the exact bytes read, before the body is dropped where it is not wanted.
    pub fn from_content(args: &Args, path: &str, name: String, content: Vec<u8>) -> (record:
        UnzippedFile)
        ensures
            record@ == spec_record(*args, path@, name@, content@),
    {
        let hash = if args.no_hash {
            None
        } else {
            Some(content_hash(content.as_slice()))
        };
        let body = if args.no_body {
            None
        } else {
            Some(content)
        };
        UnzippedFile { name, source: source_column(args, path), body, hash }
    }

    /// The record of an entry whose content was not read: it has neither body
    /// nor hash. Where both are switched off this is the record of the entry,
    /// whatever its content.
    pub fn without_content(args: &Args, path: &str, name: String) -> (record: UnzippedFile)
        ensures
            record@ == (Row {
                name: name@,
                source: spec_source(*args, path@),
                body: None,
                hash: None,
            }),
            !args.spec_needs_content() ==> forall|content: Seq<u8>|
                record@ == #[trigger] spec_record(*args, path@, name@, content),
    {
        UnzippedFile { name, source: source_column(args, path), body: None, hash: None }
    }
}

/// A record that holds both body and hash holds the hash of that body:
/// hashing the body column again gives the hash column.
pub proof fn lemma_hash_matches_body(args: Args, path: Seq<char>, name: Seq<char>, content: Seq<u8>)
    requires
        !args.no_hash,
        !args.no_body,
    ensures
        spec_record(args, path, name, content).hash == Some(
            spec_content_hash(spec_record(args, path, name, content).body->Some_0),
        ),
{
}

/// With the hash switched on, the hash column is the digest of the entry's
/// content whether or not the body is kept.
pub proof fn lemma_hash_is_digest_of_content(
    args: Args,
    path: Seq<char>,
    name: Seq<char>,
    content: Seq<u8>,
)
    requires
        !args.no_hash,
    ensures
        spec_record(args, path, name, content).hash == Some(spec_content_hash(content)),
{
}

/// Switching the body off changes nothing of a record but the body, which
/// becomes absent.
pub proof fn lemma_no_body_only_nulls_body(
    with_body: Args,
    without_body: Args,
    path: Seq<char>,
    name: Seq<char>,
    content: Seq<u8>,
)
    requires
        !with_body.no_body,
        without_body == (Args { no_body: true, ..with_body }),
    ensures
        spec_record(without_body, path, name, content) == (Row {
            body: None,
            ..spec_record(with_body, path, name, content)
        }),
{
}

} // verus!
