//! What the type graph holds of the expression tree: the expressions
//! themselves belong to the parser, and nothing here evaluates one.

use vstd::prelude::*;

verus! {

/// An expression, kept as the source text it was written as.
#[derive(Debug)]
pub struct Node {
    pub text: String,
}

impl Clone for Node {
    fn clone(&self) -> (r: Self)
        ensures
            r == *self,
    {
        Node { text: self.text.clone() }
    }
}

} // verus!
