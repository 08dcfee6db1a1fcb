//! The error of this library: a message for the owner.
use vstd::prelude::*;

verus! {

/// Why a request was refused.
#[derive(Clone, Debug)]
pub struct Failure {
    pub message: String,
}

/// A refusal with the given message.
pub fn fail(message: &str) -> (r: Failure)
    ensures
        r.message@ == message@,
{
    Failure { message: message.to_owned() }
}

/// The message of a refusal, and nothing for a success.
pub open spec fn refusal<T>(r: Result<T, Failure>) -> Option<Seq<char>> {
    match r {
        Ok(_) => None,
        Err(e) => Some(e.message@),
    }
}

/// The first refusal of two, in order.
pub open spec fn first_of(a: Option<Seq<char>>, b: Option<Seq<char>>) -> Option<Seq<char>> {
    match a {
        Some(_) => a,
        None => b,
    }
}

/// A refusal with `message` unless `ok`.
pub open spec fn unless(ok: bool, message: Seq<char>) -> Option<Seq<char>> {
    if ok {
        None
    } else {
        Some(message)
    }
}

/// `Ok` where the condition holds, else a refusal with the message.
pub fn ensure(ok: bool, message: &str) -> (r: Result<(), Failure>)
    ensures
        refusal(r) == unless(ok, message@),
{
    if ok {
        Ok(())
    } else {
        Err(fail(message))
    }
}

} // verus!
