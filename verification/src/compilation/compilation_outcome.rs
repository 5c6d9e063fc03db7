//! The content produced by a compilation.

use vstd::prelude::*;

verus! {

/// The compiled content.
#[derive(Debug)]
pub struct CompilationOutcome {
    content: String,
}

impl CompilationOutcome {
    pub closed spec fn spec_content(&self) -> Seq<char> {
        self.content@
    }

    /// An outcome with no content.
    pub fn empty() -> (r: Self)
        ensures
            r.spec_content() == Seq::<char>::empty(),
    {
        Self { content: String::new() }
    }

    pub fn content(&self) -> (r: &String)
        ensures
            r@ == self.spec_content(),
    {
        &self.content
    }

    /// The content, to be changed in place.
    pub fn content_mut(&mut self) -> (r: &mut String)
        ensures
            r@ == old(self).spec_content(),
            final(r)@ == final(self).spec_content(),
    {
        &mut self.content
    }
}

impl From<String> for CompilationOutcome {
    fn from(content: String) -> (r: Self)
        ensures
            r.spec_content() == content@,
    {
        Self { content }
    }
}

impl vstd::std_specs::convert::FromSpecImpl<String> for CompilationOutcome {
    open spec fn obeys_from_spec() -> bool {
        true
    }

    closed spec fn from_spec(content: String) -> Self {
        CompilationOutcome { content }
    }
}

} // verus!
