//! The one error of this crate: a required field that was left unset.

use derive_builder::UninitializedFieldError;
use vstd::prelude::*;
use vstd::std_specs::convert::FromSpecImpl;
use vstd::string::*;

verus! {

/// `derive_builder::UninitializedFieldError`, the error that a build step raises
/// for a required field without a value. Nothing inside it is visible here;
/// `uninitialized_field` names the one thing that it holds.
#[verifier::external_type_specification]
#[verifier::external_body]
pub struct ExUninitializedFieldError(derive_builder::UninitializedFieldError);

/// The field name that an `UninitializedFieldError` carries: the one that it
/// was made with, which its `field_name` method gives back.
pub uninterp spec fn uninitialized_field(error: UninitializedFieldError) -> Seq<char>;

/// `UninitializedFieldError::new` stores the given field name in the error.
pub assume_specification[ UninitializedFieldError::new ](
    field_name: &'static str,
) -> (error: UninitializedFieldError)
    ensures
        uninitialized_field(error) == field_name@,
;

/// The `Display` text of an `UninitializedFieldError`, through `to_string`:
/// the words `Field not initialized: ` followed by the field name it carries.
#[verifier::external_body]
fn describe(error: &UninitializedFieldError) -> (text: String)
    ensures
        text@ == missing_field_message(uninitialized_field(*error)),
{
    error.to_string()
}

/// What a build error says of a required field that was left unset.
pub open spec fn missing_field_message(field: Seq<char>) -> Seq<char> {
    "Field not initialized: "@ + field
}

/// The error of a build step: a description of what was missing.
#[derive(Debug)]
pub struct ChatTypeBuildError(String);

impl View for ChatTypeBuildError {
    type V = Seq<char>;

    /// The description that the error carries.
    closed spec fn view(&self) -> Seq<char> {
        self.0@
    }
}

impl ChatTypeBuildError {
    /// An error with the given description.
    pub fn new(message: &str) -> (error: Self)
        ensures
            error@ == message@,
    {
        ChatTypeBuildError(String::from_str(message))
    }

    /// The description, without the words that `to_string` puts before it.
    pub fn message(&self) -> (message: &str)
        ensures
            message@ == self@,
    {
        self.0.as_str()
    }

    /// The error as it is shown: `Error in build process ` and the description.
    pub fn to_string(&self) -> (text: String)
        ensures
            text@ == "Error in build process "@ + self@,
    {
        let mut text = String::from_str("Error in build process ");
        text.append(self.0.as_str());
        text
    }
}

impl From<UninitializedFieldError> for ChatTypeBuildError {
    /// The error for a required field without a value takes over the text of
    /// the `UninitializedFieldError`.
    fn from(error: UninitializedFieldError) -> (built: Self)
        ensures
            built@ == missing_field_message(uninitialized_field(error)),
    {
        ChatTypeBuildError(describe(&error))
    }
}

/// No specification function can give the error that `from` returns, as none
/// can make the `String` inside it: what `from` returns is stated by its own
/// `ensures`, over the view.
impl FromSpecImpl<UninitializedFieldError> for ChatTypeBuildError {
    open spec fn obeys_from_spec() -> bool {
        false
    }

    open spec fn from_spec(error: UninitializedFieldError) -> Self {
        arbitrary()
    }
}

/// The error for the required field `field_name`, raised when a build step
/// finds it unset.
pub(crate) fn uninitialized(field_name: &'static str) -> (error: ChatTypeBuildError)
    ensures
        error@ == missing_field_message(field_name@),
{
    ChatTypeBuildError::from(UninitializedFieldError::new(field_name))
}

} // verus!
