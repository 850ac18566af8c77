//! The input selectors: the patterns that the caller expands to archive
//! paths.

use vstd::prelude::*;
use crate::error::Error;
use crate::record::text_of;

verus! {

/// What `glob` answers when it is asked to compile `pattern`: nothing where
/// the pattern compiles, else the pattern error's rendered text.
pub uninterp spec fn selector_failure_text(pattern: Seq<char>) -> Option<Seq<char>>;

/// Whether `glob` accepts `pattern` as a path pattern.
pub open spec fn selector_is_valid(pattern: Seq<char>) -> bool {
    selector_failure_text(pattern) is None
}

/// Calls `glob::Pattern::new`, the check that `glob::glob` makes before it
/// visits any path. Trusted: the result is nothing where the pattern
/// compiles, else the pattern error's rendered text, which depends on the
/// pattern alone.
#[verifier::external_body]
fn selector_failure(pattern: &str) -> (failure: Option<String>)
    ensures
        text_of(failure) == selector_failure_text(pattern@),
{
    match glob::Pattern::new(pattern) {
        Ok(_) => None,
        Err(err) => Some(err.to_string()),
    }
}

/// Whether every selector of the list is a valid pattern.
pub open spec fn all_selectors_valid(selectors: Seq<Seq<char>>) -> bool {
    forall|i: int| 0 <= i < selectors.len() ==> selector_is_valid(#[trigger] selectors[i])
}

/// Whether `err` is the report of the first selector of the list that is not
/// a valid pattern: it carries that selector and the pattern error's text.
pub open spec fn spec_is_selector_error(selectors: Seq<Seq<char>>, err: Error) -> bool {
    &&& err is InvalidGlob
    &&& exists|i: int|
        {
            &&& 0 <= i < selectors.len()
            &&& err->InvalidGlob_glob@ == #[trigger] selectors[i]
            &&& Some(err->InvalidGlob_err@) == selector_failure_text(selectors[i])
            &&& forall|k: int| 0 <= k < i ==> selector_is_valid(#[trigger] selectors[k])
        }
}

/// Checks the input selectors in order and reports the first that is not a
/// valid pattern.
pub fn check_selectors(selectors: &Vec<String>) -> (checked: Result<(), Error>)
    ensures
        checked is Ok <==> all_selectors_valid(Seq::new(selectors@.len(), |i: int| selectors@[i]@)),
        checked is Err ==> spec_is_selector_error(
            Seq::new(selectors@.len(), |i: int| selectors@[i]@),
            checked->Err_0,
        ),
{
    let ghost list = Seq::new(selectors@.len(), |i: int| selectors@[i]@);
    let mut i: usize = 0;
    while i < selectors.len()
        invariant
            i <= selectors.len(),
            list == Seq::new(selectors@.len(), |i: int| selectors@[i]@),
            forall|k: int| 0 <= k < i ==> selector_is_valid(#[trigger] list[k]),
        decreases selectors.len() - i,
    {
        match selector_failure(selectors[i].as_str()) {
            None => {
                assert(selector_is_valid(list[i as int]));
            },
            Some(err) => {
                let failed = Error::InvalidGlob { glob: selectors[i].clone(), err };
                assert(!selector_is_valid(list[i as int]));
                assert(failed->InvalidGlob_glob@ == list[i as int]);
                return Err(failed);
            },
        }
        i += 1;
    }
    Ok(())
}

} // verus!
