//! The capability that a derivation provides for a type: every value answers
//! with a status and, where it has one, a reason.

use crate::dispatch::{DispatchTable, DispatchTableView};
use crate::eval::{Value, ValueView};
use crate::registry::{canonical_reason, canonical_reason_text, text_of};
use vstd::prelude::*;

verus! {

/// A value that answers with an HTTP status.
pub trait EnumResponse {
    /// The status code of the value.
    fn status(&self) -> (code: u16)
        ensures
            code == self.status_code(),
    ;

    /// The reason phrase of the value. Where an implementation does not say
    /// otherwise it is the canonical reason phrase of the value's status, and
    /// none where that status has no canonical reason phrase.
    fn reason(&self) -> (phrase: Option<&str>)
        default_ensures
            text_of(phrase) == canonical_reason_text(self.status_code()),
    {
        canonical_reason(self.status())
    }

    /// The status code that the value answers with: `status` is a function of
    /// the value. An implementation says which; where it does not, nothing is
    /// known of the code.
    open spec fn status_code(&self) -> u16 {
        arbitrary()
    }
}

/// A value together with the dispatch table that admits it.
#[derive(Clone, Copy, Debug)]
pub struct Response<'a> {
    table: &'a DispatchTable,
    value: &'a Value,
}

/// What a [`Response`] holds, as a mathematical value.
pub struct ResponseView {
    pub table: DispatchTableView,
    pub value: ValueView,
}

impl<'a> View for Response<'a> {
    type V = ResponseView;

    closed spec fn view(&self) -> ResponseView {
        ResponseView { table: self.table@, value: self.value@ }
    }
}

impl<'a> Response<'a> {
    #[verifier::type_invariant]
    spec fn admitted(&self) -> bool {
        self.table@.admits(self.value@)
    }

    /// Pairs `value` with `table`, if the table admits the value.
    pub fn new(table: &'a DispatchTable, value: &'a Value) -> (made: Option<Response<'a>>)
        ensures
            made is Some <==> table@.admits(value@),
            made matches Some(response) ==> response@ == (ResponseView {
                table: table@,
                value: value@,
            }),
    {
        if table.admits(value) {
            Some(Response { table, value })
        } else {
            None
        }
    }
}

impl<'a> EnumResponse for Response<'a> {
    /// The status that the table has for the value.
    open spec fn status_code(&self) -> u16 {
        self@.table.status_of(self@.value)->0
    }

    /// The status that the table has for the value.
    fn status(&self) -> (code: u16)
        ensures
            self@.table.status_of(self@.value) == Some(code),
    {
        proof {
            use_type_invariant(self);
        }
        match self.table.status_of(self.value) {
            Some(code) => code,
            None => 0,
        }
    }

    /// The reason that the table has for the value.
    fn reason(&self) -> (phrase: Option<&str>)
        ensures
            self@.table.reason_of(self@.value) == Some(text_of(phrase)),
    {
        proof {
            use_type_invariant(self);
        }
        match self.table.reason_of(self.value) {
            Some(phrase) => phrase,
            None => None,
        }
    }
}

} // verus!
