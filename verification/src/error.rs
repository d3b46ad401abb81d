//! The validation error: the single failure outcome of resolution.

use vstd::prelude::*;
use vstd::string::StringExecFns;

verus! {

/// Error type for validation failures: the input could not be classified
/// as a month. The carried string is the rendered message, which embeds
/// the original, untrimmed input.
#[derive(Debug)]
pub enum ValidationError {
    InvalidEnumValue(String),
}

/// The characters of the message a validation error carries.
pub open spec fn error_view(e: ValidationError) -> Seq<char> {
    match e {
        ValidationError::InvalidEnumValue(s) => s@,
    }
}

/// The message rendered for a rejected input: the original raw input
/// framed by a fixed prefix and suffix.
pub open spec fn error_message_of(raw: Seq<char>) -> Seq<char> {
    "Invalid month: "@ + raw + ". Enter a month from January to December"@
}

impl ValidationError {
    /// The rendered message.
    pub fn message(&self) -> (r: &str)
        ensures
            r@ == error_view(*self),
    {
        match self {
            ValidationError::InvalidEnumValue(s) => s.as_str(),
        }
    }
}

impl PartialEq for ValidationError {
    fn eq(&self, other: &Self) -> bool {
        match (self, other) {
            (
                ValidationError::InvalidEnumValue(a),
                ValidationError::InvalidEnumValue(b),
            ) => a.eq(b),
        }
    }
}

impl vstd::std_specs::cmp::PartialEqSpecImpl for ValidationError {
    open spec fn obeys_eq_spec() -> bool {
        true
    }

    open spec fn eq_spec(&self, other: &Self) -> bool {
        error_view(*self) == error_view(*other)
    }
}

/// Build the validation error for a rejected raw input.
pub(crate) fn build_error(raw: &str) -> (r: ValidationError)
    ensures
        error_view(r) == error_message_of(raw@),
{
    let mut msg = String::from_str("Invalid month: ");
    msg.append(raw);
    msg.append(". Enter a month from January to December");
    ValidationError::InvalidEnumValue(msg)
}

/// The rendered message always embeds the raw input verbatim: it is the
/// slice of the message between the fixed prefix and suffix.
pub proof fn lemma_error_message_embeds(raw: Seq<char>)
    ensures
        error_message_of(raw).len() == raw.len() + 55,
        error_message_of(raw).subrange(15, 15 + raw.len() as int) == raw,
{
    reveal_strlit("Invalid month: ");
    reveal_strlit(". Enter a month from January to December");
    assert(error_message_of(raw).subrange(15, 15 + raw.len() as int) =~= raw);
}

} // verus!
