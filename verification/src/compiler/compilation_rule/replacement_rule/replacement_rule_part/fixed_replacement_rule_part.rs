//! A replacer part that always produces the same fixed text.

use vstd::prelude::*;
use crate::compilable_text::CompilableText;
use crate::compilable_text::compilable_text_part::{CompilableTextPart, PartTypeView, PartView};

verus! {

/// Produces one fixed part holding `content`, whatever was matched.
#[derive(Debug)]
pub struct FixedReplacementRuleReplacerPart {
    content: String,
}

impl FixedReplacementRuleReplacerPart {
    pub closed spec fn spec_content(&self) -> Seq<char> {
        self.content@
    }

    pub fn new(content: String) -> (r: Self)
        ensures
            r.spec_content() == content@,
    {
        Self { content }
    }

    pub fn content(&self) -> (r: &String)
        ensures
            r@ == self.spec_content(),
    {
        &self.content
    }

    pub fn set_content(&mut self, content: String)
        ensures
            final(self).spec_content() == content@,
    {
        self.content = content;
    }

    /// The single fixed part that replaces a match.
    pub fn compile(&self) -> (r: CompilableText)
        ensures
            r@.parts == seq![PartView { content: self.spec_content(), part_type: PartTypeView::Fixed }],
            r@.nuid is None,
    {
        let mut parts: Vec<CompilableTextPart> = Vec::new();
        parts.push(CompilableTextPart::new_fixed(self.content.clone()));
        let r = CompilableText::new(parts);
        assert(r@.parts =~= seq![PartView { content: self.spec_content(), part_type: PartTypeView::Fixed }]);
        r
    }
}

} // verus!
