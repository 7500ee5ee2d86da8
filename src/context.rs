use vstd::prelude::*;

verus! {

/// Contextual information handed to a model when it is initialized
///
/// See [`ContextExt`] for helper methods built on top of it.
pub trait Context {
    /// Get an argument that was passed to this model
    fn get_argument(&self, name: &str) -> Option<&str>;
}

impl<C: Context + ?Sized> Context for &C {
    fn get_argument(&self, name: &str) -> Option<&str> {
        (**self).get_argument(name)
    }
}

impl<C: Context + ?Sized> Context for Box<C> {
    fn get_argument(&self, name: &str) -> Option<&str> {
        (**self).get_argument(name)
    }
}

impl<C: Context + ?Sized> Context for std::rc::Rc<C> {
    fn get_argument(&self, name: &str) -> Option<&str> {
        (**self).get_argument(name)
    }
}

impl<C: Context + ?Sized> Context for std::sync::Arc<C> {
    fn get_argument(&self, name: &str) -> Option<&str> {
        (**self).get_argument(name)
    }
}

impl Context for std::collections::HashMap<String, String> {
    fn get_argument(&self, name: &str) -> Option<&str> {
        match self.get(name) {
            Some(s) => Some(s.as_str()),
            None => None,
        }
    }
}

/// The error returned when a required argument was not provided
#[derive(Debug, Clone, PartialEq, Eq)]
pub struct MissingArgument {
    /// The argument's name
    pub name: String,
}

/// The error returned when an argument's value could not be parsed
#[derive(Debug, Clone, PartialEq, Eq)]
pub struct ParseFailed {
    /// The argument's name
    pub name: String,
    /// The actual value
    pub value: String,
    /// What the parser reported
    pub error: String,
}

/// An error that a method of [`ContextExt`] may return
#[derive(Debug, Clone, PartialEq, Eq)]
pub enum ContextError {
    /// An argument was missing
    MissingArgument(MissingArgument),
    /// An argument was present, but its value could not be parsed
    ParseFailed(ParseFailed),
}

impl From<MissingArgument> for ContextError {
    fn from(m: MissingArgument) -> (r: ContextError) {
        ContextError::MissingArgument(m)
    }
}

impl vstd::std_specs::convert::FromSpecImpl<MissingArgument> for ContextError {
    open spec fn obeys_from_spec() -> bool {
        true
    }

    open spec fn from_spec(m: MissingArgument) -> ContextError {
        ContextError::MissingArgument(m)
    }
}

impl From<ParseFailed> for ContextError {
    fn from(p: ParseFailed) -> (r: ContextError) {
        ContextError::ParseFailed(p)
    }
}

impl vstd::std_specs::convert::FromSpecImpl<ParseFailed> for ContextError {
    open spec fn obeys_from_spec() -> bool {
        true
    }

    open spec fn from_spec(p: ParseFailed) -> ContextError {
        ContextError::ParseFailed(p)
    }
}

impl MissingArgument {
    /// A description of the error
    pub fn message(&self) -> (r: String)
        ensures
            r@ == "The \""@ + self.name@ + "\" argument was missing"@,
    {
        let mut r = "The \"".to_owned();
        r.append(self.name.as_str());
        r.append("\" argument was missing");
        r
    }
}

impl ContextError {
    /// A description of the error
    pub fn message(&self) -> (r: String)
        ensures
            self is MissingArgument ==> r@ == "An argument was missing"@,
            self is ParseFailed ==> r@ == "Unable to parse an argument"@,
    {
        match self {
            ContextError::MissingArgument(_) => "An argument was missing".to_owned(),
            ContextError::ParseFailed(_) => "Unable to parse an argument".to_owned(),
        }
    }
}

/// What looking up a required argument gives, from what the context
/// returned for it
pub fn required_argument<'a>(name: &str, value: Option<&'a str>) -> (r: Result<
    &'a str,
    MissingArgument,
>)
    ensures
        match value {
            Some(v) => r == Ok::<&'a str, MissingArgument>(v),
            None => r is Err && r->Err_0.name@ == name@,
        },
{
    match value {
        Some(v) => Ok(v),
        None => Err(MissingArgument { name: name.to_owned() }),
    }
}

/// What parsing an argument gives, from the outcome of the parser on its
/// value, whose error is given as its text
pub fn parse_outcome<T>(name: &str, value: &str, parsed: Result<T, String>) -> (r:
    Result<T, ParseFailed>)
    ensures
        match parsed {
            Ok(v) => r == Ok::<T, ParseFailed>(v),
            Err(e) => r is Err && r->Err_0.name@ == name@ && r->Err_0.value@ == value@
                && r->Err_0.error@ == e@,
        },
{
    match parsed {
        Ok(v) => Ok(v),
        Err(e) => Err(ParseFailed { name: name.to_owned(), value: value.to_owned(), error: e }),
    }
}

/// Helper methods on top of [`Context`], kept apart so that [`Context`] stays
/// object safe
pub trait ContextExt {
    /// Get an argument, or a [`MissingArgument`] error if it is not there
    fn get_required_argument(&self, name: &str) -> (r: Result<&str, MissingArgument>)
        ensures
            r is Err ==> r->Err_0.name@ == name@,
    ;
}

impl<C: Context + ?Sized> ContextExt for C {
    fn get_required_argument(&self, name: &str) -> (r: Result<&str, MissingArgument>) {
        required_argument(name, self.get_argument(name))
    }
}

} // verus!
