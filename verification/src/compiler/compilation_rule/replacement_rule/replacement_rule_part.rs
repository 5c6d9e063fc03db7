//! The pieces a replacement rule assembles for every match.

pub mod fixed_replacement_rule_part;
pub mod single_capture_group_replacement_rule_part;

use vstd::prelude::*;
use crate::compilable_text::{CompilableText, compilable_chars, valid_slice_range};
use crate::compilable_text::compilable_text_part::{PartTypeView, PartView};
use crate::compiler::compilation_error::CompilationError;
use crate::resource::bucket::BucketView;
use fixed_replacement_rule_part::FixedReplacementRuleReplacerPart;
use single_capture_group_replacement_rule_part::{
    SingleCaptureGroupReplacementRuleReplacerPart, single_capture_output,
};

verus! {

/// One piece of the replacement of a match.
#[derive(Debug)]
pub enum ReplacementRuleReplacerPart {
    Fixed(FixedReplacementRuleReplacerPart),
    SingleCaptureGroup(SingleCaptureGroupReplacementRuleReplacerPart),
}

/// Mathematical value of a replacer part.
pub enum ReplacerPartView {
    /// The fixed text produced.
    Fixed(Seq<char>),
    /// The capture group taken, the replacements applied to its compilable
    /// parts, and the modifiers those parts become incompatible with.
    SingleCaptureGroup(usize, Seq<(Seq<char>, Seq<char>)>, BucketView),
}

impl View for ReplacementRuleReplacerPart {
    type V = ReplacerPartView;

    open spec fn view(&self) -> ReplacerPartView {
        match self {
            ReplacementRuleReplacerPart::Fixed(f) => ReplacerPartView::Fixed(f.spec_content()),
            ReplacementRuleReplacerPart::SingleCaptureGroup(s) => ReplacerPartView::SingleCaptureGroup(
                s.spec_capture_group(),
                s.spec_post_replacing(),
                s.spec_incompatible_modifiers(),
            ),
        }
    }
}

/// Every capture group that took part in the match is a range of the
/// compilable content of `parts` that can be cut.
pub open spec fn captures_fit(captures: Seq<Option<(usize, usize)>>, parts: Seq<PartView>) -> bool {
    forall|g: int|
        0 <= g < captures.len() && (#[trigger] captures[g]) is Some ==> valid_slice_range(
            parts,
            (captures[g]->0).0 as int,
            (captures[g]->0).1 as int,
        )
}

/// The parts a replacer part produces for one match (with the given capture
/// groups) of the compilable content of `parts`; `None` when it fails.
pub open spec fn replacer_output(
    rp: ReplacerPartView,
    captures: Seq<Option<(usize, usize)>>,
    parts: Seq<PartView>,
) -> Option<Seq<PartView>> {
    match rp {
        ReplacerPartView::Fixed(c) => Some(seq![PartView { content: c, part_type: PartTypeView::Fixed }]),
        ReplacerPartView::SingleCaptureGroup(g, post, bucket) => single_capture_output(
            g,
            post,
            bucket,
            captures,
            parts,
        ),
    }
}

impl ReplacementRuleReplacerPart {
    /// The parts that replace one match, whose capture groups are `captures`.
    pub fn compile(&self, captures: &Vec<Option<(usize, usize)>>, compilable: &CompilableText) -> (r:
        Result<CompilableText, CompilationError>)
        requires
            captures_fit(captures@, compilable@.parts),
        ensures
            r is Ok == replacer_output(self@, captures@, compilable@.parts) is Some,
            r matches Ok(t) ==> replacer_output(self@, captures@, compilable@.parts) == Some(
                t@.parts,
            ),
            r matches Err(e) ==> (self@ matches ReplacerPartView::SingleCaptureGroup(g, _, _) && (
            e is ElaborationError <==> (g >= captures@.len() || captures@[g as int] is None))),
    {
        match self {
            ReplacementRuleReplacerPart::Fixed(f) => Ok(f.compile()),
            ReplacementRuleReplacerPart::SingleCaptureGroup(s) => s.compile(captures, compilable),
        }
    }
}

} // verus!
