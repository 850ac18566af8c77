//! The options of one conversion and the checks made on them before any
//! archive is opened.

use vstd::prelude::*;
use crate::error::Error;
use crate::filter::{check_filter, filter_is_valid, spec_is_filter_error};
use crate::record::text_of;
use crate::selector::{all_selectors_valid, check_selectors, spec_is_selector_error};

verus! {

/// The options of one conversion.
#[derive(Debug, Clone)]
pub struct Args {
    /// Input selectors; each is expanded to archive paths by the caller.
    pub input: Vec<String>,
    /// Output file path.
    pub output: Option<String>,
    /// Write to the standard output stream.
    pub stdout: bool,
    /// Leave entry bodies out of the output.
    pub no_body: bool,
    /// Leave the originating archive path out of the output.
    pub no_source: bool,
    /// Leave the content hash out of the output.
    pub no_hash: bool,
    /// Plain log lines in place of a progress bar.
    pub simple: bool,
    /// Pattern that an entry's name must match; `None` matches every name.
    pub glob: Option<String>,
    /// Number of records in a full row group, and the capacity of the relay.
    pub row_group_size: usize,
}

/// Where the output goes.
#[derive(Debug, Clone)]
pub enum Destination {
    /// A file at this path; an aborted run deletes it.
    File(String),
    /// The standard output stream; an aborted run leaves nothing to delete.
    Stdout,
}

/// The destination as plain data: `Some(path)` for a file, `None` for the stream.
impl View for Destination {
    type V = Option<Seq<char>>;

    open spec fn view(&self) -> Option<Seq<char>> {
        match self {
            Destination::File(path) => Some(path@),
            Destination::Stdout => None,
        }
    }
}

impl Args {
    /// The capacity of the relay between the readers and the writer: one
    /// row group's worth of records.
    pub fn relay_capacity(&self) -> (capacity: usize)
        ensures
            capacity == self.row_group_size,
    {
        self.row_group_size
    }

    /// Whether an entry's content has to be read at all: only when the body
    /// or its hash goes into the output.
    pub open spec fn spec_needs_content(&self) -> bool {
        !(self.no_body && self.no_hash)
    }

    /// Whether an entry's content has to be read at all.
    #[verifier::when_used_as_spec(spec_needs_content)]
    pub fn needs_content(&self) -> (needed: bool)
        ensures
            needed == self.spec_needs_content(),
    {
        !(self.no_body && self.no_hash)
    }
}

/// Chooses the output destination. Exactly one of the output file and the
/// standard output stream must be selected.
pub fn select_destination(args: &Args) -> (chosen: Result<Destination, Error>)
    ensures
        args.output is Some && !args.stdout ==> chosen is Ok && chosen->Ok_0@ == Some(
            args.output->Some_0@,
        ),
        args.output is None && args.stdout ==> chosen is Ok && chosen->Ok_0@ == None::<Seq<char>>,
        args.output is Some && args.stdout ==> chosen is Err
            && chosen->Err_0 is InvalidOutputAndStdout,
        args.output is None && !args.stdout ==> chosen is Err
            && chosen->Err_0 is NeedsOutputOrStdout,
{
    match &args.output {
        Some(path) => {
            if args.stdout {
                Err(Error::InvalidOutputAndStdout)
            } else {
                Ok(Destination::File(path.clone()))
            }
        },
        None => {
            if args.stdout {
                Ok(Destination::Stdout)
            } else {
                Err(Error::NeedsOutputOrStdout)
            }
        },
    }
}

/// Whether exactly one of the output file and the standard output stream is
/// selected.
pub open spec fn spec_output_selected(args: Args) -> bool {
    (args.output is Some) != args.stdout
}

/// Checks the options before any archive is opened, and chooses the output
/// destination. The input selectors are checked first, then the output
/// selection, then the entry filter.
pub fn check_config(args: &Args) -> (checked: Result<Destination, Error>)
    ensures
        checked is Ok <==> all_selectors_valid(texts(args.input@)) && spec_output_selected(*args)
            && filter_is_valid(text_of(args.glob)),
        checked is Ok ==> checked->Ok_0@ == (if args.stdout {
            None
        } else {
            Some(args.output->Some_0@)
        }),
        !all_selectors_valid(texts(args.input@)) ==> checked is Err && spec_is_selector_error(
            texts(args.input@),
            checked->Err_0,
        ),
        all_selectors_valid(texts(args.input@)) && args.output is Some && args.stdout
            ==> checked is Err && checked->Err_0 is InvalidOutputAndStdout,
        all_selectors_valid(texts(args.input@)) && args.output is None && !args.stdout
            ==> checked is Err && checked->Err_0 is NeedsOutputOrStdout,
        all_selectors_valid(texts(args.input@)) && spec_output_selected(*args) && !filter_is_valid(
            text_of(args.glob),
        ) ==> checked is Err && spec_is_filter_error(*args, checked->Err_0),
        checked is Err ==> checked->Err_0.spec_is_configuration(),
{
    match check_selectors(&args.input) {
        Ok(_) => {},
        Err(err) => {
            return Err(err);
        },
    }
    let destination = match select_destination(args) {
        Ok(destination) => destination,
        Err(err) => {
            return Err(err);
        },
    };
    match check_filter(args) {
        Ok(_) => Ok(destination),
        Err(err) => Err(err),
    }
}

/// The file that an aborted run has to delete: the output path of a
/// file-backed destination, nothing for the stream.
pub fn abort_target(destination: &Destination) -> (target: Option<String>)
    ensures
        destination@ is Some ==> target is Some && target->Some_0@ == destination@->Some_0,
        destination@ is None ==> target is None,
{
    match destination {
        Destination::File(path) => Some(path.clone()),
        Destination::Stdout => None,
    }
}

/// A list of strings as plain data.
pub open spec fn texts(list: Seq<String>) -> Seq<Seq<char>> {
    Seq::new(list.len(), |i: int| list[i]@)
}

/// A copy of a list of strings.
pub fn copy_texts(list: &Vec<String>) -> (copy: Vec<String>)
    ensures
        texts(copy@) == texts(list@),
{
    let mut copy: Vec<String> = Vec::new();
    let mut i: usize = 0;
    while i < list.len()
        invariant
            i <= list.len(),
            copy@.len() == i,
            forall|k: int| 0 <= k < i ==> copy@[k]@ == list@[k]@,
        decreases list.len() - i,
    {
        copy.push(list[i].clone());
        i += 1;
    }
    assert(texts(copy@) =~= texts(list@));
    copy
}

/// Rejects a run whose input selectors expanded to no archive path.
pub fn check_inputs(args: &Args, expanded: &Vec<String>) -> (checked: Result<(), Error>)
    ensures
        expanded@.len() > 0 ==> checked is Ok,
        expanded@.len() == 0 ==> checked is Err && checked->Err_0 is NoInputsFound && texts(
            checked->Err_0->globs@,
        ) == texts(args.input@),
{
    if expanded.len() == 0 {
        Err(Error::NoInputsFound { globs: copy_texts(&args.input) })
    } else {
        Ok(())
    }
}

} // verus!
