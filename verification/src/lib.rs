//! Demonstrations of the two failure-signalling styles: unrecoverable
//! failure (abrupt termination, here ruled out statically) and recoverable
//! failure (an explicit success-or-failure outcome value, optionally
//! propagated unchanged to the caller).

use vstd::prelude::*;

verus! {

/// The three-element sequence used by the out-of-bounds demonstration.
pub open spec fn demo_chars() -> Seq<char> {
    seq!['a', 'b', 'c']
}

/// Reading past the end of a sequence is the unrecoverable failure style:
/// it cannot produce a value, only abrupt termination. Verified code does
/// not terminate abruptly, so the precondition admits exactly the indices
/// that lie inside the sequence; a call with any other index is rejected
/// before it can run.
pub fn unrecoverable_errors_with_panic(index: usize) -> (c: char)
    requires
        index < demo_chars().len(),
    ensures
        c == demo_chars()[index as int],
{
    let v: Vec<char> = vec!['a', 'b', 'c'];
    assert(v@ =~= demo_chars());
    v[index]
}

/// Accessing index 50 of the three-element sequence can never yield a value:
/// the index lies outside the sequence's domain, so no verified caller of
/// `unrecoverable_errors_with_panic` can request it.
pub proof fn lemma_index_fifty_rejected()
    ensures
        !(50 < demo_chars().len()),
{
}

/// The recoverable failure style: a fallible operation hands back a
/// two-variant outcome instead of terminating. When failure is requested it
/// carries the message "oopsie"; otherwise it carries the value 123.
pub fn result_return(err: bool) -> (r: Result<isize, String>)
    ensures
        err ==> (r matches Err(msg) && msg@ == "oopsie"@),
        !err ==> (r matches Ok(val) && val == 123),
{
    if err {
        Err(String::from_str("oopsie"))
    } else {
        Ok(123)
    }
}

/// Short-circuit propagation: the moment a failure is observed it is
/// returned unchanged, deferring handling to the caller; on success the
/// rest of the body runs and yields "hello".
pub fn propagate_error<E>(outcome: Result<(), E>) -> (r: Result<String, E>)
    ensures
        outcome matches Ok(u) ==> (r matches Ok(s) && s@ == "hello"@),
        outcome matches Err(e) ==> r == Err::<String, E>(e),
{
    match outcome {
        Ok(_) => Ok(String::from_str("hello")),
        Err(e) => Err(e),
    }
}

/// Placeholder for the choice between the two signalling styles: it takes
/// nothing, returns nothing, touches nothing, and never fails, so calling
/// it any number of times changes no observable state.
pub fn to_panic_or_not_to_panic() {
}

} // verus!

