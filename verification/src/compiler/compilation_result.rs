//! The result of a compilation: a list of fixed and compilable parts.

use vstd::prelude::*;
use crate::codex::modifier::ModifiersBucket;
use crate::resource::bucket::BucketView;

verus! {

/// Kind of a part of a compilation result.
#[derive(Debug)]
pub enum CompilationResultPartType {
    Fixed,
    Compilable { incompatible_modifiers: ModifiersBucket },
}

/// Mathematical kind of a part of a result.
pub enum ResultPartTypeView {
    Fixed,
    Compilable(BucketView),
}

impl View for CompilationResultPartType {
    type V = ResultPartTypeView;

    open spec fn view(&self) -> ResultPartTypeView {
        match self {
            CompilationResultPartType::Fixed => ResultPartTypeView::Fixed,
            CompilationResultPartType::Compilable { incompatible_modifiers } => {
                ResultPartTypeView::Compilable(incompatible_modifiers@)
            },
        }
    }
}

/// Mathematical value of a part of a result.
pub struct ResultPartView {
    pub content: Seq<char>,
    pub part_type: ResultPartTypeView,
}

/// A content and its kind.
#[derive(Debug)]
pub struct CompilationResultPart {
    content: String,
    part_type: CompilationResultPartType,
}

impl View for CompilationResultPart {
    type V = ResultPartView;

    closed spec fn view(&self) -> ResultPartView {
        ResultPartView { content: self.content@, part_type: self.part_type@ }
    }
}

impl CompilationResultPart {
    pub fn new(content: String, part_type: CompilationResultPartType) -> (r: Self)
        ensures
            r@ == (ResultPartView { content: content@, part_type: part_type@ }),
    {
        Self { content, part_type }
    }

    pub fn content(&self) -> (r: &String)
        ensures
            r@ == self@.content,
    {
        &self.content
    }

    pub fn part_type(&self) -> (r: &CompilationResultPartType)
        ensures
            r@ == self@.part_type,
    {
        &self.part_type
    }
}

/// The parts of a result.
pub type CompilationResultParts = Vec<CompilationResultPart>;

pub open spec fn result_parts_view(parts: Seq<CompilationResultPart>) -> Seq<ResultPartView> {
    parts.map_values(|p: CompilationResultPart| p@)
}

/// Concatenation of the contents of result parts.
pub open spec fn result_content(parts: Seq<ResultPartView>) -> Seq<char>
    decreases parts.len(),
{
    if parts.len() == 0 {
        Seq::empty()
    } else {
        result_content(parts.drop_last()) + parts.last().content
    }
}

/// The content of two results put one after the other is the content of
/// the first followed by the content of the second.
pub proof fn lemma_result_content_concat(a: Seq<ResultPartView>, b: Seq<ResultPartView>)
    ensures
        result_content(a + b) == result_content(a) + result_content(b),
    decreases b.len(),
{
    if b.len() == 0 {
        assert(a + b =~= a);
        assert(result_content(a) + Seq::<char>::empty() =~= result_content(a));
    } else {
        lemma_result_content_concat(a, b.drop_last());
        assert((a + b).drop_last() =~= a + b.drop_last());
        assert((a + b).last() == b.last());
        assert(result_content(a + b) =~= result_content(a) + result_content(b));
    }
}

/// A compiled content.
#[derive(Debug)]
pub struct CompilationResult {
    parts: CompilationResultParts,
}

impl View for CompilationResult {
    type V = Seq<ResultPartView>;

    closed spec fn view(&self) -> Seq<ResultPartView> {
        result_parts_view(self.parts@)
    }
}

impl CompilationResult {
    pub fn new(parts: Vec<CompilationResultPart>) -> (r: Self)
        ensures
            r@ == result_parts_view(parts@),
    {
        Self { parts }
    }

    pub fn new_empty() -> (r: Self)
        ensures
            r@ == Seq::<ResultPartView>::empty(),
    {
        let r = Self { parts: Vec::new() };
        assert(r@ =~= Seq::<ResultPartView>::empty());
        r
    }

    pub fn new_fixed(content: String) -> (r: Self)
        ensures
            r@ == seq![ResultPartView { content: content@, part_type: ResultPartTypeView::Fixed }],
    {
        let mut parts = Vec::new();
        parts.push(CompilationResultPart::new(content, CompilationResultPartType::Fixed));
        let r = Self::new(parts);
        assert(r@ =~= seq![
            ResultPartView { content: content@, part_type: ResultPartTypeView::Fixed },
        ]);
        r
    }

    pub fn new_compilable(content: String, incompatible_modifiers: ModifiersBucket) -> (r: Self)
        ensures
            r@ == seq![
                ResultPartView {
                    content: content@,
                    part_type: ResultPartTypeView::Compilable(incompatible_modifiers@),
                },
            ],
    {
        let ghost bucket = incompatible_modifiers@;
        let mut parts = Vec::new();
        parts.push(
            CompilationResultPart::new(
                content,
                CompilationResultPartType::Compilable { incompatible_modifiers },
            ),
        );
        let r = Self::new(parts);
        assert(r@ =~= seq![
            ResultPartView {
                content: content@,
                part_type: ResultPartTypeView::Compilable(bucket),
            },
        ]);
        r
    }

    pub fn parts(&self) -> (r: &CompilationResultParts)
        ensures
            result_parts_view(r@) == self@,
    {
        &self.parts
    }

    pub fn set_parts(&mut self, parts: CompilationResultParts)
        ensures
            final(self)@ == result_parts_view(parts@),
    {
        self.parts = parts;
    }

    /// The concatenation of the contents of all parts.
    pub fn content(&self) -> (r: String)
        ensures
            r@ == result_content(self@),
    {
        let mut c = String::new();
        let mut i: usize = 0;
        while i < self.parts.len()
            invariant
                i <= self.parts.len(),
                c@ == result_content(self@.take(i as int)),
            decreases self.parts.len() - i,
        {
            assert(self@.take(i + 1).drop_last() =~= self@.take(i as int));
            c.append(self.parts[i].content().as_str());
            i = i + 1;
        }
        assert(self@.take(self.parts.len() as int) =~= self@);
        c
    }

    /// Appends a fixed part.
    pub fn add_fixed_part(&mut self, content: String)
        ensures
            final(self)@ == old(self)@.push(
                ResultPartView { content: content@, part_type: ResultPartTypeView::Fixed },
            ),
    {
        let mut other = Self::new_fixed(content);
        self.append_compilation_result(&mut other);
    }

    /// Appends a compilable part.
    pub fn add_compilable_part(&mut self, content: String, incompatible_modifiers: ModifiersBucket)
        ensures
            final(self)@ == old(self)@.push(
                ResultPartView {
                    content: content@,
                    part_type: ResultPartTypeView::Compilable(incompatible_modifiers@),
                },
            ),
    {
        let mut other = Self::new_compilable(content, incompatible_modifiers);
        self.append_compilation_result(&mut other);
    }

    /// Moves all parts of `ext_res` at the end of this result.
    pub fn append_compilation_result(&mut self, ext_res: &mut Self)
        ensures
            final(self)@ == old(self)@ + old(ext_res)@,
            final(ext_res)@ == Seq::<ResultPartView>::empty(),
    {
        let ghost a = self.parts@;
        let ghost b = ext_res.parts@;
        self.parts.append(&mut ext_res.parts);
        assert(result_parts_view(self.parts@) =~= result_parts_view(a) + result_parts_view(b));
        assert(result_parts_view(ext_res.parts@) =~= Seq::<ResultPartView>::empty());
    }
}

} // verus!
