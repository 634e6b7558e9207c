//! Validation errors, and a validator that gathers every field error of one request.
use vstd::prelude::*;

use crate::name::{parsed_name, Name, NameSubject};

verus! {

/// What a validation error says, as plain sequences of characters.
pub struct ValidationErrorModel {
    pub attribute: Seq<char>,
    pub code: Seq<char>,
    pub message: Seq<char>,
}

/// Error to report an invalid attribute value.
///
/// `attribute` names the invalid field. `code` is a machine-readable code that follows the
/// convention `<object>.<attribute>.<error-type>`, e.g. `project.name.too-short`. `message` is a
/// human-readable text shown when no localised variant of the code exists.
#[derive(Debug)]
pub struct ValidationError {
    attribute: String,
    code: String,
    message: String,
}

impl View for ValidationError {
    type V = ValidationErrorModel;

    closed spec fn view(&self) -> ValidationErrorModel {
        ValidationErrorModel {
            attribute: self.attribute@,
            code: self.code@,
            message: self.message@,
        }
    }
}

impl Clone for ValidationError {
    fn clone(&self) -> (r: Self)
        ensures
            r == *self,
    {
        ValidationError {
            attribute: self.attribute.clone(),
            code: self.code.clone(),
            message: self.message.clone(),
        }
    }
}

impl ValidationError {
    pub fn new(attribute: &str, error_code: &str, message: &str) -> (r: Self)
        ensures
            r@ == (ValidationErrorModel { attribute: attribute@, code: error_code@, message: message@ }),
    {
        ValidationError {
            attribute: attribute.to_owned(),
            code: error_code.to_owned(),
            message: message.to_owned(),
        }
    }

    pub fn attribute(&self) -> (r: &str)
        ensures
            r@ == self@.attribute,
    {
        self.attribute.as_str()
    }

    pub fn code(&self) -> (r: &str)
        ensures
            r@ == self@.code,
    {
        self.code.as_str()
    }

    pub fn message(&self) -> (r: &str)
        ensures
            r@ == self@.message,
    {
        self.message.as_str()
    }
}

/// Gathers the validation errors of several fields, so that a request reports all of them at once.
///
/// Parse every field through the validator, then ask `has_errors`. When it answers `false`, every
/// parse returned `Ok`.
#[derive(Debug)]
pub struct CollectingValidator {
    errors: Vec<ValidationError>,
}

impl View for CollectingValidator {
    type V = Seq<ValidationError>;

    /// The errors recorded so far, oldest first.
    closed spec fn view(&self) -> Seq<ValidationError> {
        self.errors@
    }
}

impl Default for CollectingValidator {
    fn default() -> (r: Self)
        ensures
            r@ == Seq::<ValidationError>::empty(),
    {
        CollectingValidator::new()
    }
}

impl CollectingValidator {
    pub fn new() -> (r: Self)
        ensures
            r@ == Seq::<ValidationError>::empty(),
    {
        CollectingValidator { errors: Vec::new() }
    }

    /// Records the outcome of parsing one field: an error is kept, a value is handed back.
    pub fn record<V>(&mut self, outcome: Result<V, ValidationError>) -> (r: Result<V, ValidationError>)
        ensures
            r == outcome,
            match outcome {
                Ok(_) => final(self)@ == old(self)@,
                Err(e) => final(self)@ == old(self)@.push(e),
            },
    {
        match outcome {
            Ok(value) => Ok(value),
            Err(invalid_payload) => {
                self.errors.push(invalid_payload.clone());
                Err(invalid_payload)
            },
        }
    }

    /// Parses a payload into a value object through its `TryFrom` conversion, and keeps the error
    /// if the conversion fails.
    pub fn parse<V, P>(&mut self, payload: P) -> (r: Result<V, ValidationError>) where
        V: TryFrom<P, Error = ValidationError>,

        ensures
            call_ensures(V::try_from, (payload,), r),
            match r {
                Ok(_) => final(self)@ == old(self)@,
                Err(e) => final(self)@ == old(self)@.push(e),
            },
    {
        let outcome = V::try_from(payload);
        self.record(outcome)
    }

    /// Shortcut of `parse` for string payloads.
    pub fn parse_string<V>(&mut self, payload: &str) -> (r: Result<V, ValidationError>) where
        V: TryFrom<String, Error = ValidationError>,

        ensures
            exists|p: String| p@ == payload@ && call_ensures(V::try_from, (p,), r),
            match r {
                Ok(_) => final(self)@ == old(self)@,
                Err(e) => final(self)@ == old(self)@.push(e),
            },
    {
        let owned = payload.to_owned();
        self.parse(owned)
    }

    /// Parses the name of a `subject`, and keeps the error if the name is invalid.
    pub fn parse_name(&mut self, subject: NameSubject, payload: &str) -> (r: Result<
        Name,
        ValidationError,
    >)
        ensures
            r is Ok <==> parsed_name(subject, payload@) is Ok,
            r matches Ok(n) ==> parsed_name(subject, payload@) == Ok::<
                Seq<char>,
                ValidationErrorModel,
            >(n@),
            match r {
                Ok(_) => final(self)@ == old(self)@,
                Err(e) => final(self)@ == old(self)@.push(e) && parsed_name(subject, payload@)
                    == Err::<Seq<char>, ValidationErrorModel>(e@),
            },
    {
        let outcome = Name::parse_for(subject, payload);
        self.record(outcome)
    }

    pub fn has_errors(&self) -> (r: bool)
        ensures
            r == (self@.len() > 0),
    {
        !self.errors.is_empty()
    }

    pub fn into_errors(self) -> (r: Vec<ValidationError>)
        ensures
            r@ == self@,
    {
        self.errors
    }
}

} // verus!
