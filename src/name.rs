//! Validated names of parts and projects.
use vstd::prelude::*;

use crate::text::{byte_len, is_white_space, trim, trim_end, trim_start, trimmed, utf8_len};
use crate::validation::{ValidationError, ValidationErrorModel};

verus! {

/// The largest length of a name, in bytes.
pub const MAX_NAME_BYTES: usize = 200;

/// The kind of object that a name belongs to. It is the first segment of an error code.
#[derive(Clone, Copy, Debug, PartialEq, Eq, Structural)]
pub enum NameSubject {
    Part,
    Project,
}

/// Whether an already trimmed text can be a name: non-empty and at most `MAX_NAME_BYTES` bytes.
pub open spec fn name_fits(t: Seq<char>) -> bool {
    t.len() > 0 && byte_len(t) <= MAX_NAME_BYTES
}

pub open spec fn too_short_error(subject: NameSubject) -> ValidationErrorModel {
    match subject {
        NameSubject::Part => ValidationErrorModel {
            attribute: "name"@,
            code: "part.name.too-short"@,
            message: "part name is too short"@,
        },
        NameSubject::Project => ValidationErrorModel {
            attribute: "name"@,
            code: "project.name.too-short"@,
            message: "project name is too short"@,
        },
    }
}

pub open spec fn too_long_error(subject: NameSubject) -> ValidationErrorModel {
    match subject {
        NameSubject::Part => ValidationErrorModel {
            attribute: "name"@,
            code: "part.name.too-long"@,
            message: "part name is too long"@,
        },
        NameSubject::Project => ValidationErrorModel {
            attribute: "name"@,
            code: "project.name.too-long"@,
            message: "project name is too long"@,
        },
    }
}

/// The error reported for a trimmed text `t` that does not fit.
pub open spec fn name_error(subject: NameSubject, t: Seq<char>) -> ValidationErrorModel {
    if t.len() == 0 {
        too_short_error(subject)
    } else {
        too_long_error(subject)
    }
}

/// What parsing `raw` as a name of `subject` gives: the trimmed text, or the error.
pub open spec fn parsed_name(subject: NameSubject, raw: Seq<char>) -> Result<
    Seq<char>,
    ValidationErrorModel,
> {
    let t = trimmed(raw);
    if name_fits(t) {
        Ok(t)
    } else {
        Err(name_error(subject, t))
    }
}

impl NameSubject {
    fn too_short(&self) -> (r: ValidationError)
        ensures
            r@ == too_short_error(*self),
    {
        match self {
            NameSubject::Part => ValidationError::new(
                "name",
                "part.name.too-short",
                "part name is too short",
            ),
            NameSubject::Project => ValidationError::new(
                "name",
                "project.name.too-short",
                "project name is too short",
            ),
        }
    }

    fn too_long(&self) -> (r: ValidationError)
        ensures
            r@ == too_long_error(*self),
    {
        match self {
            NameSubject::Part => ValidationError::new(
                "name",
                "part.name.too-long",
                "part name is too long",
            ),
            NameSubject::Project => ValidationError::new(
                "name",
                "project.name.too-long",
                "project name is too long",
            ),
        }
    }
}

proof fn lemma_trim_start_shape(s: Seq<char>)
    ensures
        trim_start(s).len() <= s.len(),
        trim_start(s) == s.subrange(s.len() - trim_start(s).len(), s.len() as int),
        trim_start(s).len() == 0 || !is_white_space(trim_start(s)[0]),
    decreases s.len(),
{
    if s.len() > 0 && is_white_space(s[0]) {
        lemma_trim_start_shape(s.drop_first());
        assert(s.drop_first().subrange(
            s.drop_first().len() - trim_start(s).len(),
            s.drop_first().len() as int,
        ) =~= s.subrange(s.len() - trim_start(s).len(), s.len() as int));
    } else {
        assert(s.subrange(0, s.len() as int) =~= s);
    }
}

proof fn lemma_trim_end_shape(s: Seq<char>)
    ensures
        trim_end(s).len() <= s.len(),
        trim_end(s) == s.subrange(0, trim_end(s).len() as int),
        trim_end(s).len() == 0 || !is_white_space(trim_end(s).last()),
    decreases s.len(),
{
    if s.len() > 0 && is_white_space(s.last()) {
        lemma_trim_end_shape(s.drop_last());
        assert(s.drop_last().subrange(0, trim_end(s).len() as int) =~= s.subrange(
            0,
            trim_end(s).len() as int,
        ));
    } else {
        assert(s.subrange(0, s.len() as int) =~= s);
    }
}

/// Trimming twice removes nothing more than trimming once.
pub proof fn lemma_trimmed_idempotent(s: Seq<char>)
    ensures
        trimmed(trimmed(s)) == trimmed(s),
{
    let u = trim_start(s);
    let t = trim_end(u);
    lemma_trim_start_shape(s);
    lemma_trim_end_shape(u);
    if t.len() > 0 {
        assert(t[0] == u[0]);
        assert(trim_start(t) == t);
    } else {
        assert(trim_start(t) == t);
    }
}

/// Name of a part or a project: trimmed, non-empty and at most `MAX_NAME_BYTES` bytes long.
///
/// The only way to obtain a name is to parse it, so every name holds these properties.
#[derive(Debug)]
pub struct Name {
    value: String,
}

impl View for Name {
    type V = Seq<char>;

    closed spec fn view(&self) -> Seq<char> {
        self.value@
    }
}

impl Name {
    #[verifier::type_invariant]
    spec fn well_formed(&self) -> bool {
        &&& name_fits(self.value@)
        &&& trimmed(self.value@) == self.value@
    }

    /// Parses a project name; the error codes start with `project.name`.
    pub fn parse(s: &str) -> (r: Result<Name, ValidationError>)
        ensures
            r is Ok <==> parsed_name(NameSubject::Project, s@) is Ok,
            r matches Ok(n) ==> parsed_name(NameSubject::Project, s@) == Ok::<
                Seq<char>,
                ValidationErrorModel,
            >(n@),
            r matches Err(e) ==> parsed_name(NameSubject::Project, s@) == Err::<
                Seq<char>,
                ValidationErrorModel,
            >(e@),
    {
        Name::parse_for(NameSubject::Project, s)
    }

    /// Parses the name of a `subject`: the text is trimmed, then it must be non-empty and at most
    /// `MAX_NAME_BYTES` bytes long.
    pub fn parse_for(subject: NameSubject, s: &str) -> (r: Result<Name, ValidationError>)
        ensures
            r is Ok <==> parsed_name(subject, s@) is Ok,
            r matches Ok(n) ==> parsed_name(subject, s@) == Ok::<Seq<char>, ValidationErrorModel>(
                n@,
            ),
            r matches Err(e) ==> parsed_name(subject, s@) == Err::<
                Seq<char>,
                ValidationErrorModel,
            >(e@),
    {
        let value = trim(s);
        if value.as_str().is_empty() {
            return Err(subject.too_short());
        }
        if utf8_len(value.as_str()) > MAX_NAME_BYTES {
            return Err(subject.too_long());
        }
        proof {
            lemma_trimmed_idempotent(s@);
        }
        Ok(Name { value })
    }

    pub fn as_str(&self) -> (r: &str)
        ensures
            r@ == self@,
    {
        self.value.as_str()
    }

    /// The name as an owned string.
    pub fn to_string(&self) -> (r: String)
        ensures
            r@ == self@,
    {
        self.value.clone()
    }
}

impl Clone for Name {
    fn clone(&self) -> (r: Self)
        ensures
            r == *self,
    {
        proof {
            use_type_invariant(self);
        }
        Name { value: self.value.clone() }
    }
}

impl AsRef<str> for Name {
    fn as_ref(&self) -> &str {
        self.value.as_str()
    }
}

impl vstd::std_specs::convert::TryFromSpecImpl<String> for Name {
    /// The contract of `try_from` below states the outcome instead.
    open spec fn obeys_try_from_spec() -> bool {
        false
    }

    open spec fn try_from_spec(v: String) -> Result<Name, ValidationError> {
        arbitrary()
    }
}

impl TryFrom<String> for Name {
    type Error = ValidationError;

    fn try_from(value: String) -> (r: Result<Name, ValidationError>)
        ensures
            r is Ok <==> parsed_name(NameSubject::Project, value@) is Ok,
            r matches Ok(n) ==> parsed_name(NameSubject::Project, value@) == Ok::<
                Seq<char>,
                ValidationErrorModel,
            >(n@),
            r matches Err(e) ==> parsed_name(NameSubject::Project, value@) == Err::<
                Seq<char>,
                ValidationErrorModel,
            >(e@),
    {
        Name::parse(value.as_str())
    }
}

impl<'a> vstd::std_specs::convert::TryFromSpecImpl<&'a str> for Name {
    /// The contract of `try_from` below states the outcome instead.
    open spec fn obeys_try_from_spec() -> bool {
        false
    }

    open spec fn try_from_spec(v: &'a str) -> Result<Name, ValidationError> {
        arbitrary()
    }
}

impl<'a> TryFrom<&'a str> for Name {
    type Error = ValidationError;

    fn try_from(value: &'a str) -> (r: Result<Name, ValidationError>)
        ensures
            r is Ok <==> parsed_name(NameSubject::Project, value@) is Ok,
            r matches Ok(n) ==> parsed_name(NameSubject::Project, value@) == Ok::<
                Seq<char>,
                ValidationErrorModel,
            >(n@),
            r matches Err(e) ==> parsed_name(NameSubject::Project, value@) == Err::<
                Seq<char>,
                ValidationErrorModel,
            >(e@),
    {
        Name::parse(value)
    }
}

} // verus!
