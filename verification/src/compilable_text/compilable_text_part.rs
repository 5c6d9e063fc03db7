//! A piece of text that is either fixed (already compiled) or still compilable.

use vstd::prelude::*;
use crate::codex::modifier::ModifiersBucket;
use crate::resource::bucket::BucketView;

verus! {

/// Kind of a part: fixed parts are never touched again by rules, compilable
/// parts are, except by the modifiers they are incompatible with.
#[derive(Debug)]
pub enum CompilableTextPartType {
    Fixed,
    Compilable { incompatible_modifiers: ModifiersBucket },
}

/// Mathematical kind of a part.
pub enum PartTypeView {
    Fixed,
    Compilable(BucketView),
}

/// Mathematical value of a part: its characters and its kind.
pub struct PartView {
    pub content: Seq<char>,
    pub part_type: PartTypeView,
}

impl View for CompilableTextPartType {
    type V = PartTypeView;

    open spec fn view(&self) -> PartTypeView {
        match self {
            CompilableTextPartType::Fixed => PartTypeView::Fixed,
            CompilableTextPartType::Compilable { incompatible_modifiers } => PartTypeView::Compilable(
                incompatible_modifiers@,
            ),
        }
    }
}

impl Clone for CompilableTextPartType {
    fn clone(&self) -> (r: Self)
        ensures
            r@ == self@,
    {
        match self {
            CompilableTextPartType::Fixed => CompilableTextPartType::Fixed,
            CompilableTextPartType::Compilable { incompatible_modifiers } => {
                CompilableTextPartType::Compilable {
                    incompatible_modifiers: incompatible_modifiers.clone(),
                }
            },
        }
    }
}

impl CompilableTextPartType {
    /// The part is compilable.
    pub fn is_compilable(&self) -> (r: bool)
        ensures
            r == (self@ is Compilable),
    {
        match self {
            CompilableTextPartType::Fixed => false,
            CompilableTextPartType::Compilable { .. } => true,
        }
    }
}

/// A content together with its kind.
#[derive(Debug)]
pub struct CompilableTextPart {
    content: String,
    part_type: CompilableTextPartType,
}

impl View for CompilableTextPart {
    type V = PartView;

    open spec fn view(&self) -> PartView {
        PartView { content: self.spec_content()@, part_type: self.spec_part_type()@ }
    }
}

impl Clone for CompilableTextPart {
    fn clone(&self) -> (r: Self)
        ensures
            r@ == self@,
    {
        CompilableTextPart { content: self.content.clone(), part_type: self.part_type.clone() }
    }
}

impl CompilableTextPart {
    pub closed spec fn spec_content(&self) -> String {
        self.content
    }

    pub closed spec fn spec_part_type(&self) -> CompilableTextPartType {
        self.part_type
    }

    pub fn new(content: String, part_type: CompilableTextPartType) -> (r: Self)
        ensures
            r@ == (PartView { content: content@, part_type: part_type@ }),
    {
        Self { content, part_type }
    }

    pub fn new_fixed(content: String) -> (r: Self)
        ensures
            r@ == (PartView { content: content@, part_type: PartTypeView::Fixed }),
    {
        Self::new(content, CompilableTextPartType::Fixed)
    }

    pub fn new_compilable(content: String, incompatible_modifiers: ModifiersBucket) -> (r: Self)
        ensures
            r@ == (PartView {
                content: content@,
                part_type: PartTypeView::Compilable(incompatible_modifiers@),
            }),
    {
        Self::new(content, CompilableTextPartType::Compilable { incompatible_modifiers })
    }

    pub fn content(&self) -> (r: &String)
        ensures
            r@ == self@.content,
    {
        &self.content
    }

    pub fn part_type(&self) -> (r: &CompilableTextPartType)
        ensures
            r@ == self@.part_type,
    {
        &self.part_type
    }

    pub fn set_content(&mut self, content: String)
        ensures
            final(self)@ == (PartView { content: content@, part_type: old(self)@.part_type }),
    {
        self.content = content;
    }

    pub fn set_part_type(&mut self, part_type: CompilableTextPartType)
        ensures
            final(self)@ == (PartView { content: old(self)@.content, part_type: part_type@ }),
    {
        self.part_type = part_type;
    }
}

} // verus!
