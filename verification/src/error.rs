use vstd::prelude::*;

verus! {

/// The one way this layer fails: the input text is not well-formed JSON.
/// Once a payload parses, classification is total and cannot fail.
#[derive(Debug, PartialEq, Eq, Clone, Copy)]
pub enum ParseError {
    Syntax,
}

} // verus!
