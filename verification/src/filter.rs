//! The entry filter: which entries of an archive become records.

use vstd::prelude::*;
use crate::config::Args;
use crate::error::Error;
use crate::limits::{pattern_in_limits, spec_pattern_in_limits};
use crate::record::text_of;

verus! {

/// What `wax` answers when it is asked to build a glob from `pattern`:
/// nothing where the glob builds, else the build error's rendered text.
pub uninterp spec fn glob_build_failure(pattern: Seq<char>) -> Option<Seq<char>>;

/// Whether the glob built from `pattern` by `wax` matches `name`. The path
/// separators that `wax` recognises are fixed when the crate is built.
pub uninterp spec fn glob_matches(pattern: Seq<char>, name: Seq<char>) -> bool;

/// Whether `wax` accepts `pattern` as a glob expression.
pub open spec fn glob_is_valid(pattern: Seq<char>) -> bool {
    glob_build_failure(pattern) is None
}

/// Calls `wax::Glob::new`. Trusted: for a pattern within the limits the call
/// returns, and the result is nothing where the glob builds, else the build
/// error's rendered text, which depends on the pattern alone. Outside the
/// limits the call may panic: on a repetition bound that the
/// regular-expression parser cannot read, on groups nested deeper than it
/// allows, or while `wax` multiplies repetition counts.
#[verifier::external_body]
fn build_failure(pattern: &str) -> (failure: Option<String>)
    requires
        spec_pattern_in_limits(pattern@),
    ensures
        text_of(failure) == glob_build_failure(pattern@),
{
    match wax::Glob::new(pattern) {
        Ok(_) => None,
        Err(err) => Some(err.to_string()),
    }
}

/// Calls `wax::is_match`, which builds the glob with `wax::Glob::new` and
/// matches `name` against it. Trusted: for a pattern within the limits the
/// call returns; it fails exactly when the pattern does not build, with that
/// build error's rendered text; otherwise the result says whether the glob
/// matches `name`. Outside the limits the call may panic as `wax::Glob::new`
/// does.
#[verifier::external_body]
fn match_name(pattern: &str, name: &str) -> (matched: Result<bool, String>)
    requires
        spec_pattern_in_limits(pattern@),
    ensures
        matched is Ok <==> glob_build_failure(pattern@) is None,
        matched is Ok ==> matched->Ok_0 == glob_matches(pattern@, name@),
        matched is Err ==> Some(matched->Err_0@) == glob_build_failure(pattern@),
{
    wax::is_match(pattern, name).map_err(|err| err.to_string())
}

/// What is reported of a pattern that is not within the limits.
pub open spec fn spec_limits_text() -> Seq<char> {
    "the pattern is too long, has too many groups or repeats too often"@
}

/// What is reported of a pattern that cannot be used: that it is not within
/// the limits, or else the build error of `wax`; nothing of a pattern that
/// can be used.
pub open spec fn spec_pattern_failure(pattern: Seq<char>) -> Option<Seq<char>> {
    if !spec_pattern_in_limits(pattern) {
        Some(spec_limits_text())
    } else {
        glob_build_failure(pattern)
    }
}

/// Whether `err` is the report of the invalid entry filter of `args`: it
/// carries the pattern and what is reported of it.
pub open spec fn spec_is_filter_error(args: Args, err: Error) -> bool {
    &&& args.glob is Some
    &&& err is InvalidWaxGlob
    &&& err->InvalidWaxGlob_glob@ == args.glob->Some_0@
    &&& Some(err->InvalidWaxGlob_err@) == spec_pattern_failure(args.glob->Some_0@)
}

/// Whether the filter can be applied at all: an absent filter always can,
/// a pattern when it is within the limits and `wax` accepts it.
pub open spec fn filter_is_valid(filter: Option<Seq<char>>) -> bool {
    filter is Some ==> spec_pattern_failure(filter->Some_0) is None
}

/// Whether the filter lets `name` through: an absent filter lets every name
/// through.
pub open spec fn name_selected(filter: Option<Seq<char>>, name: Seq<char>) -> bool {
    filter is Some ==> glob_matches(filter->Some_0, name)
}

/// Whether an entry becomes a record: directories never do, other entries
/// when the filter lets their name through.
pub open spec fn entry_selected(filter: Option<Seq<char>>, name: Seq<char>, is_dir: bool) -> bool {
    !is_dir && name_selected(filter, name)
}

/// What a worker does with one entry of its archive.
#[derive(Debug, Clone, Copy, PartialEq, Eq, Structural)]
pub enum EntryPlan {
    /// The entry gives no record.
    Skip,
    /// The entry gives a record without its content being read.
    EmitUnread,
    /// The content is read first; the record is made from it.
    ReadContent,
}

/// The plan for an entry, given whether its name passed the filter.
pub open spec fn spec_plan(args: Args, is_dir: bool, name_passes: bool) -> EntryPlan {
    if is_dir || !name_passes {
        EntryPlan::Skip
    } else if args.spec_needs_content() {
        EntryPlan::ReadContent
    } else {
        EntryPlan::EmitUnread
    }
}

/// Decides what to do with an entry whose name has already been held against
/// the filter.
pub fn plan_for(args: &Args, is_dir: bool, name_passes: bool) -> (plan: EntryPlan)
    ensures
        plan == spec_plan(*args, is_dir, name_passes),
{
    if is_dir || !name_passes {
        EntryPlan::Skip
    } else if args.needs_content() {
        EntryPlan::ReadContent
    } else {
        EntryPlan::EmitUnread
    }
}

/// What is reported of a pattern that is not within the limits.
fn limits_text() -> (text: String)
    ensures
        text@ == spec_limits_text(),
{
    "the pattern is too long, has too many groups or repeats too often".to_string()
}

/// Says why a pattern cannot be used as a filter, or nothing where it can.
/// A pattern that is not within the limits is never handed to `wax`.
pub fn pattern_failure(pattern: &str) -> (failure: Option<String>)
    ensures
        text_of(failure) == spec_pattern_failure(pattern@),
{
    if pattern_in_limits(pattern) {
        build_failure(pattern)
    } else {
        Some(limits_text())
    }
}

/// Checks the entry filter before any work starts.
pub fn check_filter(args: &Args) -> (checked: Result<(), Error>)
    ensures
        checked is Ok <==> filter_is_valid(text_of(args.glob)),
        checked is Err ==> spec_is_filter_error(*args, checked->Err_0),
{
    match &args.glob {
        None => Ok(()),
        Some(pattern) => match pattern_failure(pattern.as_str()) {
            None => Ok(()),
            Some(err) => Err(Error::InvalidWaxGlob { glob: pattern.clone(), err }),
        },
    }
}

/// Holds an entry's name against the filter. A directory never passes, and
/// the pattern is not consulted for it.
pub fn select_entry(args: &Args, name: &str, is_dir: bool) -> (selected: Result<bool, Error>)
    ensures
        selected is Ok <==> is_dir || filter_is_valid(text_of(args.glob)),
        selected is Ok ==> selected->Ok_0 == entry_selected(text_of(args.glob), name@, is_dir),
        selected is Err ==> spec_is_filter_error(*args, selected->Err_0),
{
    if is_dir {
        return Ok(false);
    }
    match &args.glob {
        None => Ok(true),
        Some(pattern) => {
            if !pattern_in_limits(pattern.as_str()) {
                return Err(Error::InvalidWaxGlob { glob: pattern.clone(), err: limits_text() });
            }
            match match_name(pattern.as_str(), name) {
                Ok(matched) => Ok(matched),
                Err(err) => Err(Error::InvalidWaxGlob { glob: pattern.clone(), err }),
            }
        },
    }
}

/// The plan for one entry of an archive: skip it, emit it unread, or read it.
pub fn plan_entry(args: &Args, name: &str, is_dir: bool) -> (plan: Result<EntryPlan, Error>)
    ensures
        plan is Ok <==> is_dir || filter_is_valid(text_of(args.glob)),
        plan is Ok ==> plan->Ok_0 == spec_plan(
            *args,
            is_dir,
            name_selected(text_of(args.glob), name@),
        ),
        plan is Err ==> spec_is_filter_error(*args, plan->Err_0),
{
    match select_entry(args, name, is_dir) {
        Ok(selected) => Ok(plan_for(args, is_dir, selected)),
        Err(err) => Err(err),
    }
}

} // verus!
