//! The bridge call adapter.
//!
//! A plugin call crosses the bridge in up to three steps: encode the typed
//! input (if the operation takes one), invoke the named foreign operation,
//! and interpret what came back.  The invocation itself is a suspension point
//! the library cannot contain, so the caller performs it and hands the
//! outcome to one of the completion functions here.  The four call shapes
//! compose from these parts:
//!
//! * no input, no output: invoke, then [`run_unit_unit`];
//! * no input, typed output: invoke, then [`run_unit_value`];
//! * typed input, no output: [`encode_request`], invoke, then
//!   [`run_unit_unit`];
//! * typed input, typed output: [`encode_request`], invoke, then
//!   [`run_unit_value`].
//!
//! A rejected invocation becomes [`Error::JsException`] with the thrown
//! message preserved; a resolved value that does not decode becomes
//! [`Error::DeserializeError`] naming the expected type.

use vstd::prelude::*;
use crate::codec::{BridgeDto, req_at};
use crate::error::{Error, ErrorView};
use crate::value::{Value, ValueView, field_views, lemma_field_views};

verus! {

broadcast use vstd::std_specs::vec::group_vec_axioms, vstd::seq::group_seq_axioms;

/// An error object carried inside some host-runtime results.
#[derive(Clone, Default, Debug, PartialEq)]
pub struct InnerError {
    pub message: String,
}

/// An exception thrown by a foreign function.
#[derive(Clone, Default, Debug, PartialEq)]
pub struct JsException {
    pub message: String,
}

impl BridgeDto for JsException {
    open spec fn spec_encode(self) -> ValueView {
        ValueView::Obj(seq![("message"@, ValueView::Str(self.message@))])
    }

    open spec fn spec_accepts(m: ValueView) -> bool {
        &&& m matches ValueView::Obj(fs)
        &&& fs.len() == 1
        &&& fs[0].0 == "message"@
        &&& fs[0].1 is Str
    }

    open spec fn spec_typename() -> Seq<char> {
        "JsException"@
    }

    proof fn lemma_encode_accepted(&self) {
    }

    fn typename() -> (r: &'static str) {
        "JsException"
    }

    fn to_bridge(&self) -> (r: Value) {
        let mut fields: Vec<(String, Value)> = Vec::new();
        fields.push(("message".to_owned(), Value::Str(self.message.clone())));
        proof {
            lemma_field_views(fields@);
            assert(field_views(fields@) =~= seq![("message"@, ValueView::Str(self.message@))]);
        }
        Value::Obj(fields)
    }

    fn from_bridge(v: &Value) -> (r: Option<Self>) {
        match v {
            Value::Obj(fields) => {
                proof {
                    lemma_field_views(fields@);
                }
                if fields.len() != 1 {
                    return None;
                }
                match req_at(fields, 0, "message") {
                    Some(mv) => match mv {
                        Value::Str(s) => {
                            let x = JsException { message: s.clone() };
                            proof {
                                assert(field_views(fields@)
                                    =~= seq![("message"@, ValueView::Str(s@))]);
                            }
                            Some(x)
                        },
                        _ => None,
                    },
                    None => None,
                }
            },
            _ => None,
        }
    }
}

impl BridgeDto for InnerError {
    open spec fn spec_encode(self) -> ValueView {
        ValueView::Obj(seq![("message"@, ValueView::Str(self.message@))])
    }

    open spec fn spec_accepts(m: ValueView) -> bool {
        &&& m matches ValueView::Obj(fs)
        &&& fs.len() == 1
        &&& fs[0].0 == "message"@
        &&& fs[0].1 is Str
    }

    open spec fn spec_typename() -> Seq<char> {
        "InnerError"@
    }

    proof fn lemma_encode_accepted(&self) {
    }

    fn typename() -> (r: &'static str) {
        "InnerError"
    }

    fn to_bridge(&self) -> (r: Value) {
        let mut fields: Vec<(String, Value)> = Vec::new();
        fields.push(("message".to_owned(), Value::Str(self.message.clone())));
        proof {
            lemma_field_views(fields@);
            assert(field_views(fields@) =~= seq![("message"@, ValueView::Str(self.message@))]);
        }
        Value::Obj(fields)
    }

    fn from_bridge(v: &Value) -> (r: Option<Self>) {
        match v {
            Value::Obj(fields) => {
                proof {
                    lemma_field_views(fields@);
                }
                if fields.len() != 1 {
                    return None;
                }
                match req_at(fields, 0, "message") {
                    Some(mv) => match mv {
                        Value::Str(s) => {
                            let x = InnerError { message: s.clone() };
                            proof {
                                assert(field_views(fields@)
                                    =~= seq![("message"@, ValueView::Str(s@))]);
                            }
                            Some(x)
                        },
                        _ => None,
                    },
                    None => None,
                }
            },
            _ => None,
        }
    }
}

/// The error a rejected invocation turns into: the thrown exception's
/// message when the rejection value is an exception object, otherwise a
/// fixed diagnostic.
pub open spec fn spec_rejection_error(m: ValueView) -> ErrorView {
    match m {
        ValueView::Obj(fs) => {
            if fs.len() == 1 && fs[0].0 == "message"@ && fs[0].1 is Str {
                ErrorView::JsException { message: fs[0].1->Str_0 }
            } else {
                ErrorView::JsException { message: "Unexpected rejection value"@ }
            }
        },
        _ => ErrorView::JsException { message: "Unexpected rejection value"@ },
    }
}

/// Turns the value a foreign invocation rejected with into the error
/// reported to the caller.
pub fn error_from_rejection(v: &Value) -> (r: Error)
    ensures
        r@ == spec_rejection_error(v@),
{
    match JsException::from_bridge(v) {
        Some(e) => Error::JsException { message: e.message },
        None => Error::JsException { message: "Unexpected rejection value".to_owned() },
    }
}

/// Completes a call with no output: a resolved invocation is success, a
/// rejected one surfaces the foreign exception.
pub fn run_unit_unit(outcome: Result<(), Value>) -> (r: Result<(), Error>)
    ensures
        outcome is Ok ==> r is Ok,
        outcome matches Err(e) ==> (r matches Err(err) && err@ == spec_rejection_error(e@)),
{
    match outcome {
        Ok(()) => Ok(()),
        Err(e) => Err(error_from_rejection(&e)),
    }
}

/// Completes a call with a typed output: a resolved invocation is decoded
/// (failure to decode names the expected type), a rejected one surfaces the
/// foreign exception.
pub fn run_unit_value<O: BridgeDto>(outcome: Result<Value, Value>) -> (r: Result<O, Error>)
    ensures
        outcome matches Err(e) ==> (r matches Err(err) && err@ == spec_rejection_error(e@)),
        outcome matches Ok(v) ==> {
            if O::spec_accepts(v@) {
                r matches Ok(o) && o.spec_encode() == v@
            } else {
                r matches Err(err) && err@ == (ErrorView::DeserializeError {
                    typename: O::spec_typename(),
                    detail: "the encoded value does not have the expected shape"@,
                })
            }
        },
{
    match outcome {
        Ok(v) => match O::from_bridge(&v) {
            Some(o) => Ok(o),
            None => Err(
                Error::deserializing(
                    O::typename(),
                    "the encoded value does not have the expected shape",
                ),
            ),
        },
        Err(e) => Err(error_from_rejection(&e)),
    }
}

/// Encodes the typed input of a call; the caller invokes the named foreign
/// operation with the result.
pub fn encode_request<I: BridgeDto>(input: &I) -> (r: Value)
    ensures
        r@ == input.spec_encode(),
{
    input.to_bridge()
}

/// The decode step of a listener trampoline: turns one raw event into the
/// typed payload the registered callback expects.  A malformed event (for
/// example one missing a required field) is reported as a decode failure
/// naming the expected type; it is never delivered half-decoded, and it
/// never stops the process.
pub fn deliver_event<T: BridgeDto>(raw: &Value) -> (r: Result<T, Error>)
    ensures
        T::spec_accepts(raw@) <==> r is Ok,
        r matches Ok(t) ==> t.spec_encode() == raw@,
        !T::spec_accepts(raw@) ==> (r matches Err(err) && err@ == (ErrorView::DeserializeError {
            typename: T::spec_typename(),
            detail: "the encoded value does not have the expected shape"@,
        })),
{
    match T::from_bridge(raw) {
        Some(t) => Ok(t),
        None => Err(
            Error::deserializing(
                T::typename(),
                "the encoded value does not have the expected shape",
            ),
        ),
    }
}

impl From<InnerError> for Error {
    fn from(value: InnerError) -> (r: Self) {
        Error::JsException { message: value.message }
    }
}

impl vstd::std_specs::convert::FromSpecImpl<InnerError> for Error {
    open spec fn obeys_from_spec() -> bool {
        true
    }

    open spec fn from_spec(value: InnerError) -> Self {
        Error::JsException { message: value.message }
    }
}

} // verus!
