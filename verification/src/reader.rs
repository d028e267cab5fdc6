//! The pipeline stage that files a decoded body, and the lookup that reads it
//! back.

use crate::error::{reports, DecodeError};
use crate::store::{found, Slot};
use core::marker::PhantomData;
use vstd::prelude::*;

verus! {

/// A pipeline stage bound to the target type `T`. It has no state of its own:
/// all it does is decide what a decode outcome means for the request's slot.
pub struct BodyReader<T> {
    _marker: PhantomData<T>,
}

/// What a request's slot holds after a run of the stage on the decode outcome
/// `parsed`: the decoded value, or on a failure what it held before.
pub open spec fn slot_after<T>(stored: Option<T>, parsed: Result<T, serde_json::Error>) -> Option<
    T,
> {
    match parsed {
        Ok(value) => Some(value),
        Err(_) => stored,
    }
}

/// Turns the outcome of a `serde_json` decode into the library's own: a
/// decoded value is handed on as it is, a failure becomes the [`DecodeError`]
/// that stands for it.
pub fn deserialize<T>(parsed: Result<T, serde_json::Error>) -> (decoded: Result<T, DecodeError>)
    ensures
        match parsed {
            Ok(value) => decoded == Ok::<T, DecodeError>(value),
            Err(e) => decoded is Err && reports(decoded->Err_0@, e),
        },
{
    match parsed {
        Ok(value) => Ok(value),
        Err(e) => Err(DecodeError::from_json(&e)),
    }
}

impl<T> BodyReader<T> {
    /// The one value there is of a stage for `T`.
    pub closed spec fn stage() -> BodyReader<T> {
        BodyReader { _marker: PhantomData }
    }

    /// A stage for the target type `T`.
    pub fn new() -> (reader: BodyReader<T>)
        ensures
            reader == Self::stage(),
    {
        BodyReader { _marker: PhantomData }
    }

    /// A stage holds nothing that could tell it from another for the same
    /// type, so one may be shared or rebuilt at will.
    pub proof fn stages_are_interchangeable(self, other: BodyReader<T>)
        ensures
            self == other,
            self == Self::stage(),
    {
    }

    /// Runs the stage before the handler, on the outcome of decoding the
    /// request's body. A decoded value is stored in the request's slot and
    /// the pipeline goes on; a failure aborts with its [`DecodeError`] and
    /// leaves the slot as it was.
    pub fn before(&self, parsed: Result<T, serde_json::Error>, slot: &mut Slot<T>) -> (outcome:
        Result<(), DecodeError>)
        ensures
            final(slot)@ == slot_after(old(slot)@, parsed),
            parsed is Err ==> *final(slot) == *old(slot),
            outcome is Ok <==> parsed is Ok,
            parsed is Err ==> reports(outcome->Err_0@, parsed->Err_0),
    {
        let value = deserialize(parsed)?;
        slot.insert(value);
        Ok(())
    }
}

/// The value that a [`BodyReader`] for `T` stored in this request's slot, or
/// `None` if none did.
pub fn json_params<T>(slot: &Slot<T>) -> (params: Option<&T>)
    ensures
        params == found(&slot@),
{
    slot.find()
}

/// A failed decode stores nothing: whatever the failure, the slot holds after
/// the run what it held before.
pub proof fn failed_run_stores_nothing<T>(stored: Option<T>, e: serde_json::Error)
    ensures
        slot_after(stored, Err::<T, serde_json::Error>(e)) == stored,
{
}

/// After a run on a decoded value, a lookup finds exactly that value,
/// whatever the slot held before.
pub proof fn lookup_finds_decoded_value<T>(stored: Option<T>, value: T)
    ensures
        found(&slot_after(stored, Ok::<T, serde_json::Error>(value))) == Some(&value),
{
}

/// A lookup reads the slot and leaves it alone, so any two lookups on one
/// slot give equal results.
pub proof fn lookup_is_repeatable<T>(slot: Slot<T>, first: Option<&T>, second: Option<&T>)
    requires
        first == found(&slot@),
        second == found(&slot@),
    ensures
        first == second,
{
}

/// Each request has a slot of its own and a run takes only the slot of the
/// request it runs on. So where the bodies of two requests decode to
/// different values, neither value shows up in the other request's slot.
pub proof fn runs_are_isolated<T>(
    stored_1: Option<T>,
    value_1: T,
    stored_2: Option<T>,
    value_2: T,
)
    requires
        value_1 != value_2,
    ensures
        found(&slot_after(stored_1, Ok::<T, serde_json::Error>(value_1))) == Some(&value_1),
        found(&slot_after(stored_2, Ok::<T, serde_json::Error>(value_2))) == Some(&value_2),
        found(&slot_after(stored_1, Ok::<T, serde_json::Error>(value_1))) != Some(&value_2),
        found(&slot_after(stored_2, Ok::<T, serde_json::Error>(value_2))) != Some(&value_1),
{
}

} // verus!
