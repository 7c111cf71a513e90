use vstd::prelude::*;

use crate::errors::CoreError;
use crate::text::{i32_to_decimal, spec_signed_decimal, str_concat};

verus! {

/// The first error in a sequence of worker outcomes (`None` is a success,
/// `Some(e)` a failure), in arrival order.
pub open spec fn first_error(outcomes: Seq<Option<CoreError>>) -> Option<CoreError>
    decreases outcomes.len(),
{
    if outcomes.len() == 0 {
        None
    } else {
        match outcomes[0] {
            Some(e) => Some(e),
            None => first_error(outcomes.subrange(1, outcomes.len() as int)),
        }
    }
}

/// Appending one outcome changes the first error only when none arrived yet.
pub proof fn lemma_first_error_push(outcomes: Seq<Option<CoreError>>, next: Option<CoreError>)
    ensures
        first_error(outcomes) is Some ==> first_error(outcomes.push(next)) == first_error(
            outcomes,
        ),
        first_error(outcomes) is None ==> first_error(outcomes.push(next)) == next,
    decreases outcomes.len(),
{
    reveal_with_fuel(first_error, 3);
    if outcomes.len() == 0 {
        assert(outcomes.push(next)[0] == next);
        assert(outcomes.push(next).subrange(1, 1) =~= Seq::<Option<CoreError>>::empty());
        if next is Some {
            assert(first_error(outcomes.push(next)) == next);
        } else {
            assert(first_error(outcomes.push(next)) is None);
        }
    } else {
        assert(outcomes.push(next)[0] == outcomes[0]);
        assert(outcomes.push(next).subrange(1, outcomes.len() as int + 1) =~= outcomes.subrange(
            1,
            outcomes.len() as int,
        ).push(next));
        lemma_first_error_push(outcomes.subrange(1, outcomes.len() as int), next);
    }
}

/// The single-slot error channel that one transfer's background workers
/// share. Many workers report their outcome; the slot keeps the first
/// failure and silently discards every later one, so that exactly one
/// error can ever surface to the supervision handle.
pub struct Supervisor {
    slot: Option<CoreError>,
}

impl Supervisor {
    /// The error held by the slot, if any worker has failed yet.
    pub closed spec fn surfaced(&self) -> Option<CoreError> {
        self.slot
    }

    /// A fresh channel with an empty slot.
    pub fn new() -> (s: Self)
        ensures
            s.surfaced() is None,
    {
        Supervisor { slot: None }
    }

    /// Record one worker's outcome. A failure fills the slot only if it is
    /// still empty; a success never changes it.
    pub fn report(&mut self, outcome: Result<(), CoreError>)
        ensures
            final(self).surfaced() == match old(self).surfaced() {
                Some(e) => Some(e),
                None => match outcome {
                    Ok(_) => None::<CoreError>,
                    Err(e) => Some(e),
                },
            },
    {
        if self.slot.is_none() {
            if let Err(e) = outcome {
                self.slot = Some(e);
            }
        }
    }

    /// Resolve the supervision handle once every worker has reported:
    /// success if the slot is still empty, else the first error received.
    pub fn resolve(self) -> (r: Result<(), CoreError>)
        ensures
            match self.surfaced() {
                None => r is Ok,
                Some(e) => r == Err::<(), CoreError>(e),
            },
    {
        match self.slot {
            None => Ok(()),
            Some(e) => Err(e),
        }
    }
}

/// Run a whole supervision round at once: report every outcome in arrival
/// order, then resolve. The result is success exactly when no worker
/// failed, and otherwise the first error that arrived.
pub fn supervise_all(outcomes: Vec<Option<CoreError>>) -> (r: Result<(), CoreError>)
    ensures
        match first_error(outcomes@) {
            None => r is Ok,
            Some(e) => r == Err::<(), CoreError>(e),
        },
{
    let mut sup = Supervisor::new();
    let mut rest = outcomes;
    let ghost all = rest@;
    let ghost mut done: Seq<Option<CoreError>> = Seq::empty();
    while rest.len() > 0
        invariant
            all == done + rest@,
            sup.surfaced() == first_error(done),
        decreases rest.len(),
    {
        let next = rest.remove(0);
        proof {
            lemma_first_error_push(done, next);
            assert(done.push(next) + rest@ =~= all);
            done = done.push(next);
        }
        match next {
            None => sup.report(Ok(())),
            Some(e) => sup.report(Err(e)),
        }
    }
    proof {
        assert(done =~= all);
    }
    sup.resolve()
}

/// Law: if no worker fails, the supervision handle resolves successfully
/// (once all workers have completed and reported).
pub proof fn lemma_no_failure_resolves_ok(outcomes: Seq<Option<CoreError>>)
    requires
        forall|i: int| 0 <= i < outcomes.len() ==> outcomes[i] is None,
    ensures
        first_error(outcomes) is None,
    decreases outcomes.len(),
{
    if outcomes.len() > 0 {
        lemma_no_failure_resolves_ok(outcomes.subrange(1, outcomes.len() as int));
    }
}

/// Law: if exactly one of the workers fails, the supervision handle
/// resolves with that worker's error, whatever the number of workers and
/// whatever order they complete in (the outcome sequence is the arrival
/// order, and the law holds of every such sequence).
pub proof fn lemma_single_failure_surfaces(outcomes: Seq<Option<CoreError>>, i: int)
    requires
        0 <= i < outcomes.len(),
        outcomes[i] is Some,
        forall|j: int| 0 <= j < outcomes.len() && j != i ==> outcomes[j] is None,
    ensures
        first_error(outcomes) == outcomes[i],
    decreases outcomes.len(),
{
    if i == 0 {
    } else {
        lemma_single_failure_surfaces(outcomes.subrange(1, outcomes.len() as int), i - 1);
    }
}

/// Law: if one or more workers fail concurrently, the supervision handle
/// resolves with exactly one error, and it is one of the errors reported.
pub proof fn lemma_some_failure_surfaces_one(outcomes: Seq<Option<CoreError>>)
    requires
        exists|i: int| 0 <= i < outcomes.len() && outcomes[i] is Some,
    ensures
        first_error(outcomes) is Some,
        exists|i: int| 0 <= i < outcomes.len() && outcomes[i] == first_error(outcomes),
    decreases outcomes.len(),
{
    let w = choose|i: int| 0 <= i < outcomes.len() && outcomes[i] is Some;
    if outcomes[0] is Some {
        assert(outcomes[0] == first_error(outcomes));
    } else {
        let rest = outcomes.subrange(1, outcomes.len() as int);
        assert(0 <= w - 1 < rest.len() && rest[w - 1] is Some);
        lemma_some_failure_surfaces_one(rest);
        let k = choose|i: int| 0 <= i < rest.len() && rest[i] == first_error(rest);
        assert(outcomes[k + 1] == first_error(outcomes));
    }
}

/// The observed end of a supervised external process.
pub enum ProcessStatus {
    /// The process ran to its end with this exit code.
    Exited { code: i32 },
    /// The process could not be launched or waited on.
    LaunchFailed { message: String },
}

/// Turn the end of a supervised external process into the outcome that its
/// monitoring worker reports: a zero exit code is a success, anything else
/// a process failure named after the process and carrying the exit code.
pub fn process_outcome(name: &str, status: &ProcessStatus) -> (r: Result<(), CoreError>)
    ensures
        r is Ok <==> (status matches ProcessStatus::Exited { code } && code == 0),
        r is Err ==> r->Err_0 is ProcessFailure,
        match status {
            ProcessStatus::Exited { code } => *code != 0 ==> r->Err_0.message_view() == name@
                + " failed with exit code "@ + spec_signed_decimal(*code as int),
            ProcessStatus::LaunchFailed { message } => r->Err_0.message_view() == name@
                + " failed with error: "@ + message@,
        },
{
    match status {
        ProcessStatus::Exited { code } => {
            if *code == 0 {
                Ok(())
            } else {
                let mut m = str_concat(name, " failed with exit code ");
                let digits = i32_to_decimal(*code);
                m.append(digits.as_str());
                Err(CoreError::ProcessFailure { message: m })
            }
        },
        ProcessStatus::LaunchFailed { message } => {
            let mut m = str_concat(name, " failed with error: ");
            m.append(message.as_str());
            Err(CoreError::ProcessFailure { message: m })
        },
    }
}

} // verus!
