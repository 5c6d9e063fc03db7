//! A replacer part that takes the parts under one capture group.

use vstd::prelude::*;
use crate::codex::modifier::ModifiersBucket;
use crate::compilable_text::{
    CompilableText, PartsSliceElaborationPolicy, compilable_chars, parts_slice_spec, parts_view,
};
use crate::compilable_text::compilable_text_part::{
    CompilableTextPart, CompilableTextPartType, PartTypeView, PartView,
};
use crate::compiler::compilation_error::CompilationError;
use crate::regex_engine::CompiledRegex;
use crate::resource::bucket::BucketView;
use crate::text_bytes::byte_len;
use crate::utility::text_utility::{replace, replace_chain, replacements_view};
use super::captures_fit;

verus! {

/// Takes the parts that cover a capture group of the match; the compilable
/// ones get the replacements `post_replacing` and become incompatible with
/// `incompatible_modifiers` too.
#[derive(Debug)]
pub struct SingleCaptureGroupReplacementRuleReplacerPart {
    capture_group: usize,
    post_replacing: Vec<(CompiledRegex, String)>,
    incompatible_modifiers: ModifiersBucket,
}

/// The byte range of capture group `g`, if it took part in the match.
pub open spec fn group_span(captures: Seq<Option<(usize, usize)>>, g: usize) -> Option<(usize, usize)> {
    if g < captures.len() {
        captures[g as int]
    } else {
        None
    }
}

/// A part of the slice after post-processing: compilable parts get the
/// replacements and the extra incompatible modifiers, fixed parts stay.
pub open spec fn post_processed(
    p: PartView,
    post: Seq<(Seq<char>, Seq<char>)>,
    bucket: BucketView,
) -> PartView {
    match p.part_type {
        PartTypeView::Compilable(b) => PartView {
            content: replace_chain(p.content, post),
            part_type: PartTypeView::Compilable(b.extend(bucket)),
        },
        PartTypeView::Fixed => p,
    }
}

/// The parts produced for capture group `g`, or `None` when the group did
/// not take part in the match or lies beyond the compilable content.
pub open spec fn single_capture_output(
    g: usize,
    post: Seq<(Seq<char>, Seq<char>)>,
    bucket: BucketView,
    captures: Seq<Option<(usize, usize)>>,
    parts: Seq<PartView>,
) -> Option<Seq<PartView>> {
    match group_span(captures, g) {
        None => None,
        Some(span) => if span.1 > byte_len(compilable_chars(parts)) {
            None
        } else {
            Some(
                parts_slice_spec(
                    parts,
                    span.0 as int,
                    span.1 as int,
                    PartsSliceElaborationPolicy::TakeLeftAndRightFixedParts,
                ).map_values(|p: PartView| post_processed(p, post, bucket)),
            )
        },
    }
}

impl SingleCaptureGroupReplacementRuleReplacerPart {
    pub closed spec fn spec_capture_group(&self) -> usize {
        self.capture_group
    }

    pub closed spec fn spec_post_replacing(&self) -> Seq<(Seq<char>, Seq<char>)> {
        replacements_view(self.post_replacing@)
    }

    pub closed spec fn spec_incompatible_modifiers(&self) -> BucketView {
        self.incompatible_modifiers@
    }

    pub fn new(
        capture_group: usize,
        post_replacing: Vec<(CompiledRegex, String)>,
        incompatible_modifiers: ModifiersBucket,
    ) -> (r: Self)
        ensures
            r.spec_capture_group() == capture_group,
            r.spec_post_replacing() == replacements_view(post_replacing@),
            r.spec_incompatible_modifiers() == incompatible_modifiers@,
    {
        Self { capture_group, post_replacing, incompatible_modifiers }
    }

    /// The same part with other incompatible modifiers.
    pub fn with_incompatible_modifiers(self, incompatible_modifiers: ModifiersBucket) -> (r: Self)
        ensures
            r.spec_capture_group() == self.spec_capture_group(),
            r.spec_post_replacing() == self.spec_post_replacing(),
            r.spec_incompatible_modifiers() == incompatible_modifiers@,
    {
        let mut s = self;
        s.incompatible_modifiers = incompatible_modifiers;
        s
    }

    pub fn capture_group(&self) -> (r: usize)
        ensures
            r == self.spec_capture_group(),
    {
        self.capture_group
    }

    pub fn incompatible_modifiers(&self) -> (r: &ModifiersBucket)
        ensures
            r@ == self.spec_incompatible_modifiers(),
    {
        &self.incompatible_modifiers
    }

    /// The parts under the capture group, post-processed.
    pub fn compile(&self, captures: &Vec<Option<(usize, usize)>>, compilable: &CompilableText) -> (r:
        Result<CompilableText, CompilationError>)
        requires
            captures_fit(captures@, compilable@.parts),
        ensures
            r is Ok == single_capture_output(
                self.spec_capture_group(),
                self.spec_post_replacing(),
                self.spec_incompatible_modifiers(),
                captures@,
                compilable@.parts,
            ) is Some,
            r matches Ok(t) ==> single_capture_output(
                self.spec_capture_group(),
                self.spec_post_replacing(),
                self.spec_incompatible_modifiers(),
                captures@,
                compilable@.parts,
            ) == Some(t@.parts),
            r matches Err(e) ==> (e is ElaborationError <==> group_span(
                captures@,
                self.spec_capture_group(),
            ) is None),
    {
        let g = self.capture_group;
        if g >= captures.len() {
            return Err(CompilationError::ElaborationError);
        }
        let span: (usize, usize) = match &captures[g] {
            Some(s) => *s,
            None => {
                return Err(CompilationError::ElaborationError);
            },
        };
        assert(captures@[g as int] is Some);
        let slice = match compilable.parts_slice(span.0, span.1) {
            Ok(v) => v,
            Err(e) => {
                return Err(CompilationError::from_compilable_error(e));
            },
        };
        let ghost post = self.spec_post_replacing();
        let ghost bucket = self.spec_incompatible_modifiers();
        let ghost sv = parts_view(slice@);
        let mut out: Vec<CompilableTextPart> = Vec::new();
        let mut i: usize = 0;
        while i < slice.len()
            invariant
                i <= slice.len(),
                out@.len() == i,
                sv == parts_view(slice@),
                post == self.spec_post_replacing(),
                bucket == self.spec_incompatible_modifiers(),
                parts_view(out@) == sv.take(i as int).map_values(
                    |p: PartView| post_processed(p, post, bucket),
                ),
            decreases slice.len() - i,
        {
            let part = &slice[i];
            let ghost before = out@;
            match part.part_type() {
                CompilableTextPartType::Fixed => {
                    out.push(part.clone());
                },
                CompilableTextPartType::Compilable { incompatible_modifiers } => {
                    let b = incompatible_modifiers.clone().extend(&self.incompatible_modifiers);
                    let content = replace(part.content().as_str(), &self.post_replacing);
                    out.push(
                        CompilableTextPart::new(
                            content,
                            CompilableTextPartType::Compilable { incompatible_modifiers: b },
                        ),
                    );
                },
            }
            assert(out@[i as int]@ == post_processed(sv[i as int], post, bucket));
            assert(parts_view(out@) =~= sv.take(i + 1).map_values(
                |p: PartView| post_processed(p, post, bucket),
            )) by {
                assert(out@ =~= before.push(out@[i as int]));
                assert(parts_view(out@) =~= parts_view(before).push(out@[i as int]@));
                assert(sv.take(i + 1) =~= sv.take(i as int).push(sv[i as int]));
            }
            i = i + 1;
        }
        assert(sv.take(slice.len() as int) =~= sv);
        Ok(CompilableText::new(out))
    }
}

} // verus!
