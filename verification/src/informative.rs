//! Informative options, such as `--help`, and how they pre-empt the rest of
//! a command line.

use vstd::prelude::*;
use crate::error::EntranceError;

verus! {

/// An option that resolved, and whether it is informative.
pub struct Resolved<O> {
    pub option: O,
    pub informative: bool,
}

/// The options at the front of a command line, once they are resolved.
pub enum Selection<O> {
    /// An informative option was among them: it stands alone.
    Informative(O),
    /// None was informative: all of them, in the order in which they were
    /// written.
    Options(Vec<O>),
}

/// Whether candidate `at` resolved to an informative option.
pub open spec fn is_informative_at<O>(
    candidates: Seq<Result<Resolved<O>, EntranceError>>,
    at: int,
) -> bool {
    candidates[at] is Ok && candidates[at]->Ok_0.informative
}

/// Whether candidate `at` is an informative option and none in front of it
/// is.
pub open spec fn first_informative<O>(
    candidates: Seq<Result<Resolved<O>, EntranceError>>,
    at: int,
) -> bool {
    &&& 0 <= at < candidates.len()
    &&& is_informative_at(candidates, at)
    &&& forall|i: int| 0 <= i < at ==> !#[trigger] is_informative_at(candidates, i)
}

/// Whether no candidate is an informative option.
pub open spec fn none_informative<O>(candidates: Seq<Result<Resolved<O>, EntranceError>>) -> bool {
    forall|i: int| 0 <= i < candidates.len() ==> !#[trigger] is_informative_at(candidates, i)
}

/// Whether candidate `at` failed to resolve and none in front of it did.
pub open spec fn first_unresolved<O>(
    candidates: Seq<Result<Resolved<O>, EntranceError>>,
    at: int,
) -> bool {
    &&& 0 <= at < candidates.len()
    &&& candidates[at] is Err
    &&& forall|i: int| 0 <= i < at ==> (#[trigger] candidates[i]) is Ok
}

/// Whether every candidate resolved.
pub open spec fn all_resolved<O>(candidates: Seq<Result<Resolved<O>, EntranceError>>) -> bool {
    forall|i: int| 0 <= i < candidates.len() ==> (#[trigger] candidates[i]) is Ok
}

/// Decides what the resolved options of one command line amount to.
///
/// `candidates` holds, in the order of the tokens, what each option token
/// resolved to. The first informative option among them pre-empts everything
/// else: it is returned alone, whatever failed to resolve in front of it or
/// behind it. With no informative option, the first failure is the result;
/// with neither, all the options are, in their order.
pub fn short_circuit<O>(candidates: Vec<Result<Resolved<O>, EntranceError>>) -> (selected: Result<
    Selection<O>,
    EntranceError,
>)
    ensures
        match selected {
            Ok(Selection::Informative(option)) => exists|at: int|
                #![trigger candidates@[at]]
                first_informative(candidates@, at) && candidates@[at]->Ok_0.option == option,
            Ok(Selection::Options(options)) => {
                &&& none_informative(candidates@)
                &&& all_resolved(candidates@)
                &&& options@.len() == candidates@.len()
                &&& forall|i: int|
                    #![trigger candidates@[i]]
                    #![trigger options@[i]]
                    0 <= i < candidates@.len() ==> candidates@[i]->Ok_0.option == options@[i]
            },
            Err(error) => {
                &&& none_informative(candidates@)
                &&& exists|at: int|
                    first_unresolved(candidates@, at) && #[trigger] candidates@[at] == Err::<
                        Resolved<O>,
                        EntranceError,
                    >(error)
            },
        },
        !none_informative(candidates@) ==> selected is Ok && selected->Ok_0 is Informative,
{
    let mut options: Vec<O> = Vec::new();
    let mut failure: Option<EntranceError> = None;
    let ghost mut failed_at: int = 0;
    for candidate in iter: candidates
        invariant
            iter.seq() == candidates@,
            forall|i: int| 0 <= i < iter.index() ==> !#[trigger] is_informative_at(candidates@, i),
            match failure {
                Some(error) => {
                    &&& first_unresolved(candidates@, failed_at)
                    &&& failed_at < iter.index()
                    &&& candidates@[failed_at] == Err::<Resolved<O>, EntranceError>(error)
                },
                None => {
                    &&& options@.len() == iter.index()
                    &&& forall|i: int|
                        #![trigger candidates@[i]]
                        #![trigger options@[i]]
                        0 <= i < iter.index() ==> candidates@[i] is Ok
                            && candidates@[i]->Ok_0.option == options@[i]
                },
            },
    {
        let ghost at = iter.index();
        match candidate {
            Ok(resolved) => {
                if resolved.informative {
                    return Ok(Selection::Informative(resolved.option));
                }
                if failure.is_none() {
                    options.push(resolved.option);
                }
            },
            Err(error) => {
                if failure.is_none() {
                    proof {
                        failed_at = at;
                    }
                    failure = Some(error);
                }
            },
        }
    }
    match failure {
        Some(error) => Err(error),
        None => Ok(Selection::Options(options)),
    }
}

} // verus!
