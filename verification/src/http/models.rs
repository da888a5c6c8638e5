//! The request and response records, and the rule a request body must meet
//! before a handler sees it.

use vstd::prelude::*;
use vstd::string::StringExecFns;

verus! {

/// The body of a validation request as it was parsed: the field may be
/// absent, and nothing has been checked yet.
#[derive(Clone, Debug, PartialEq, Eq)]
pub struct ValidationRequest {
    pub message: Option<String>,
}

/// The answer of the validation route.
#[derive(Clone, Debug, PartialEq, Eq)]
pub struct ValidationResponse {
    pub message: String,
}

/// The answer of the liveness routes.
#[derive(Debug, PartialEq, Eq)]
pub struct HealthCheckResponse {
    pub message: String,
}

/// Why a request body was turned away: the reasons, in words, listed under
/// the one field a body has.
#[derive(Clone, Debug, PartialEq, Eq)]
pub struct ValidationErrors {
    pub message: Vec<String>,
}

/// Whether a body with this `message` field passes: the field is present and
/// holds at least one character. Nothing is trimmed first, so a message of
/// blanks passes.
pub open spec fn accepted(message: Option<Seq<char>>) -> bool {
    message matches Some(text) && text.len() >= 1
}

/// The reasons given for turning a body away.
pub open spec fn rejection(message: Option<Seq<char>>) -> Seq<Seq<char>> {
    match message {
        None => seq!["message is required"@],
        Some(_) => seq!["message must not be empty"@],
    }
}

impl View for ValidationRequest {
    type V = Option<Seq<char>>;

    open spec fn view(&self) -> Option<Seq<char>> {
        match self.message {
            Some(text) => Some(text@),
            None => None,
        }
    }
}

impl View for ValidationErrors {
    type V = Seq<Seq<char>>;

    open spec fn view(&self) -> Seq<Seq<char>> {
        self.message.deep_view()
    }
}

/// `validator::ValidateRequired::validate_required` on an optional text. It
/// answers whether the option holds a value.
#[verifier::external_body]
fn is_present(value: &Option<String>) -> (present: bool)
    ensures
        present == value.is_some(),
{
    validator::ValidateRequired::validate_required(value)
}

/// `validator::ValidateLength::validate_length` on a text, with a lower bound
/// and neither an upper bound nor an exact length. It counts the characters
/// of the text and answers whether there are at least `min` of them.
#[verifier::external_body]
fn has_min_length(text: &String, min: u64) -> (long_enough: bool)
    ensures
        long_enough == (text@.len() >= min),
{
    validator::ValidateLength::validate_length(text, Some(min), None, None)
}

impl ValidationRequest {
    /// Whether the body passes the rule of [`accepted`].
    pub open spec fn is_valid(&self) -> bool {
        accepted(self@)
    }

    /// Checks the body. A body that passes is left as it is; one that does
    /// not is answered with the reasons of [`rejection`].
    pub fn validate(&self) -> (checked: Result<(), ValidationErrors>)
        ensures
            checked is Ok <==> self.is_valid(),
            checked matches Err(errors) ==> errors@ == rejection(self@),
    {
        let mut reasons: Vec<String> = Vec::new();
        if !is_present(&self.message) {
            reasons.push(String::from_str("message is required"));
        }
        if let Some(text) = &self.message {
            if !has_min_length(text, 1) {
                reasons.push(String::from_str("message must not be empty"));
            }
        }
        if reasons.len() == 0 {
            Ok(())
        } else {
            let errors = ValidationErrors { message: reasons };
            assert(errors@ =~= rejection(self@));
            Err(errors)
        }
    }
}

impl Default for ValidationRequest {
    fn default() -> (request: Self)
        ensures
            request@ is None,
    {
        ValidationRequest { message: None }
    }
}

impl Default for ValidationResponse {
    fn default() -> (response: Self)
        ensures
            response.message@ == "Ok"@,
    {
        ValidationResponse { message: String::from_str("Ok") }
    }
}

impl Default for HealthCheckResponse {
    fn default() -> (response: Self)
        ensures
            response.message@ == "Ok"@,
    {
        HealthCheckResponse { message: String::from_str("Ok") }
    }
}

} // verus!
