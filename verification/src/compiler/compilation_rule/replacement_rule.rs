//! A rule that replaces every match of its search pattern with the pieces
//! produced by its replacer parts, in order.

pub mod replacement_rule_part;

use vstd::prelude::*;
use crate::compilable_text::{CompilableText, CompilableTextView, compilable_chars, parts_view};
use crate::compilable_text::compilable_text_part::{CompilableTextPart, PartView};
use crate::compiler::compilation_configuration::CompilationConfiguration;
use crate::compiler::compilation_configuration::compilation_configuration_overlay::CompilationConfigurationOverLay;
use crate::compiler::compilation_error::CompilationError;
use crate::output_format::OutputFormat;
use crate::regex_engine::{
    CompiledRegex, captures_spans, compile_regex, find_spans, is_match, is_valid_span,
    regex_captures_all, regex_is_valid,
};
use super::{CompilationRule, or_elaboration_error};
use replacement_rule_part::{
    ReplacementRuleReplacerPart, ReplacerPartView, captures_fit, replacer_output,
};
use replacement_rule_part::single_capture_group_replacement_rule_part::{
    group_span, single_capture_output,
};

verus! {

/// Rule to replace a NMD text based on a specific pattern matching rule.
#[derive(Debug)]
pub struct ReplacementRule {
    search_pattern_regex: CompiledRegex,
    replacer_parts: Vec<ReplacementRuleReplacerPart>,
}

/// The pieces produced, for one match, by the first `n` replacer parts.
pub open spec fn replacers_upto(
    rps: Seq<ReplacerPartView>,
    n: int,
    captures: Seq<Option<(usize, usize)>>,
    parts: Seq<PartView>,
) -> Option<Seq<PartView>>
    decreases n,
{
    if n <= 0 {
        Some(Seq::empty())
    } else {
        match replacers_upto(rps, n - 1, captures, parts) {
            None => None,
            Some(a) => match replacer_output(rps[n - 1], captures, parts) {
                None => None,
                Some(b) => Some(a + b),
            },
        }
    }
}

/// The pieces produced for the first `n` matches.
pub open spec fn matches_upto(
    rps: Seq<ReplacerPartView>,
    all: Seq<Seq<Option<(usize, usize)>>>,
    n: int,
    parts: Seq<PartView>,
) -> Option<Seq<PartView>>
    decreases n,
{
    if n <= 0 {
        Some(Seq::empty())
    } else {
        match matches_upto(rps, all, n - 1, parts) {
            None => None,
            Some(a) => match replacers_upto(rps, rps.len() as int, all[n - 1], parts) {
                None => None,
                Some(b) => Some(a + b),
            },
        }
    }
}

/// What a replacement rule makes of a text: for every match of `pattern`
/// in the compilable content, the pieces of all replacer parts.
pub open spec fn replacement_output(
    pattern: Seq<char>,
    rps: Seq<ReplacerPartView>,
    parts: Seq<PartView>,
) -> Option<Seq<PartView>> {
    let all = regex_captures_all(pattern, compilable_chars(parts));
    matches_upto(rps, all, all.len() as int, parts)
}

proof fn lemma_replacers_fail(
    rps: Seq<ReplacerPartView>,
    k: int,
    n: int,
    captures: Seq<Option<(usize, usize)>>,
    parts: Seq<PartView>,
)
    requires
        k <= n,
        replacers_upto(rps, k, captures, parts) is None,
    ensures
        replacers_upto(rps, n, captures, parts) is None,
    decreases n - k,
{
    if k < n {
        lemma_replacers_fail(rps, k, n - 1, captures, parts);
    }
}

proof fn lemma_matches_fail(
    rps: Seq<ReplacerPartView>,
    all: Seq<Seq<Option<(usize, usize)>>>,
    k: int,
    n: int,
    parts: Seq<PartView>,
)
    requires
        k <= n,
        matches_upto(rps, all, k, parts) is None,
    ensures
        matches_upto(rps, all, n, parts) is None,
    decreases n - k,
{
    if k < n {
        lemma_matches_fail(rps, all, k, n - 1, parts);
    }
}

impl ReplacementRule {
    pub closed spec fn spec_pattern(&self) -> Seq<char> {
        self.search_pattern_regex.spec_pattern()
    }

    pub closed spec fn spec_replacers(&self) -> Seq<ReplacerPartView> {
        self.replacer_parts@.map_values(|p: ReplacementRuleReplacerPart| p@)
    }

    /// A rule with a search pattern and the parts that replace each match.
    pub fn new(searching_pattern: String, replacers: Vec<ReplacementRuleReplacerPart>) -> (r: Self)
        requires
            regex_is_valid(searching_pattern@),
        ensures
            r.spec_pattern() == searching_pattern@,
            r.spec_replacers() == replacers@.map_values(|p: ReplacementRuleReplacerPart| p@),
    {
        let regex = compile_regex(searching_pattern.as_str()).unwrap();
        Self { search_pattern_regex: regex, replacer_parts: replacers }
    }

    /// `new`, or `None` when the regex engine refuses the search pattern.
    pub fn try_new(searching_pattern: String, replacers: Vec<ReplacementRuleReplacerPart>) -> (r:
        Option<Self>)
        ensures
            r is Some == regex_is_valid(searching_pattern@),
            r matches Some(rule) ==> rule.spec_pattern() == searching_pattern@
                && rule.spec_replacers() == replacers@.map_values(
                |p: ReplacementRuleReplacerPart| p@,
            ),
    {
        if compile_regex(searching_pattern.as_str()).is_some() {
            Some(Self::new(searching_pattern, replacers))
        } else {
            None
        }
    }

    pub fn replacer_parts(&self) -> (r: &Vec<ReplacementRuleReplacerPart>)
        ensures
            r@.map_values(|p: ReplacementRuleReplacerPart| p@) == self.spec_replacers(),
    {
        &self.replacer_parts
    }

    pub fn set_replacer_parts(&mut self, replacer_parts: Vec<ReplacementRuleReplacerPart>)
        ensures
            final(self).spec_replacers() == replacer_parts@.map_values(
                |p: ReplacementRuleReplacerPart| p@,
            ),
            final(self).spec_pattern() == old(self).spec_pattern(),
    {
        self.replacer_parts = replacer_parts;
    }

    /// Compiles the content using the search pattern and the replacer parts.
    fn replace_matches(&self, compilable: &CompilableText) -> (r: Result<CompilableText, CompilationError>)
        ensures
            r is Ok == replacement_output(self.spec_pattern(), self.spec_replacers(), compilable@.parts) is Some,
            r matches Ok(t) ==> replacement_output(
                self.spec_pattern(),
                self.spec_replacers(),
                compilable@.parts,
            ) == Some(t@.parts),
            r matches Err(e) ==> e is ElaborationError,
    {
        let ghost parts = compilable@.parts;
        let ghost rps = self.spec_replacers();
        let content = compilable.compilable_content();
        let all = captures_spans(&self.search_pattern_regex, content.as_str());
        let ghost allv = regex_captures_all(self.spec_pattern(), compilable_chars(parts));
        let mut out: Vec<CompilableTextPart> = Vec::new();
        let mut i: usize = 0;
        while i < all.len()
            invariant
                i <= all.len(),
                parts == compilable@.parts,
                rps == self.spec_replacers(),
                content@ == compilable_chars(parts),
                allv == regex_captures_all(self.spec_pattern(), compilable_chars(parts)),
                all@.len() == allv.len(),
                forall|k: int| 0 <= k < all@.len() ==> (#[trigger] all@[k])@ == allv[k],
                forall|k: int, g: int|
                    0 <= k < all@.len() && 0 <= g < all@[k]@.len() && (#[trigger] all@[k]@[g]) is Some
                        ==> is_valid_span(all@[k]@[g]->0, content@),
                matches_upto(rps, allv, i as int, parts) == Some(parts_view(out@)),
            decreases all.len() - i,
        {
            let captures = &all[i];
            assert(captures@ == allv[i as int]);
            assert forall|g: int|
                0 <= g < captures@.len() && (#[trigger] captures@[g]) is Some implies is_valid_span(
                captures@[g]->0,
                content@,
            ) by {
                assert(all@[i as int]@[g] is Some);
            }
            assert(captures_fit(captures@, parts)) by {
                assert forall|g: int|
                    0 <= g < captures@.len() && (#[trigger] captures@[g]) is Some implies crate::compilable_text::valid_slice_range(
                    parts,
                    (captures@[g]->0).0 as int,
                    (captures@[g]->0).1 as int,
                ) by {
                    assert(all@[i as int]@[g] is Some);
                }
            }
            let ghost before = parts_view(out@);
            let mut j: usize = 0;
            while j < self.replacer_parts.len()
                invariant
                    j <= self.replacer_parts.len(),
                    i < all@.len(),
                    all@.len() == allv.len(),
                    captures@ == allv[i as int],
                    allv == regex_captures_all(self.spec_pattern(), compilable_chars(parts)),
                    rps == self.spec_replacers(),
                    parts == compilable@.parts,
                    captures_fit(captures@, parts),
                    content@ == compilable_chars(parts),
                    forall|g: int|
                        0 <= g < captures@.len() && (#[trigger] captures@[g]) is Some
                            ==> is_valid_span(captures@[g]->0, content@),
                    matches_upto(rps, allv, i as int, parts) == Some(before),
                    replacers_upto(rps, j as int, captures@, parts) matches Some(b) && parts_view(
                        out@,
                    ) == before + b,
                decreases self.replacer_parts.len() - j,
            {
                assert(rps[j as int] == self.replacer_parts@[j as int]@);
                let piece = match self.replacer_parts[j].compile(captures, compilable) {
                    Ok(t) => t,
                    Err(e) => {
                        proof {
                            match rps[j as int] {
                                ReplacerPartView::SingleCaptureGroup(g, post, bucket) => {
                                    if group_span(captures@, g) is Some {
                                        assert(captures@[g as int] is Some);
                                        assert(is_valid_span(captures@[g as int]->0, content@));
                                        assert(single_capture_output(g, post, bucket, captures@, parts) is Some);
                                    }
                                },
                                _ => {},
                            }
                            assert(replacers_upto(rps, j + 1, captures@, parts) is None);
                            lemma_replacers_fail(rps, j + 1, rps.len() as int, captures@, parts);
                            assert(matches_upto(rps, allv, i + 1, parts) is None);
                            lemma_matches_fail(rps, allv, i + 1, allv.len() as int, parts);
                        }
                        return Err(e);
                    },
                };
                let ghost prev = parts_view(out@);
                let mut piece_parts = piece.into_parts();
                let ghost pp = parts_view(piece_parts@);
                let ghost o0 = out@;
                out.append(&mut piece_parts);
                assert(parts_view(out@) =~= prev + pp);
                proof {
                    let b = replacers_upto(rps, j as int, captures@, parts)->0;
                    assert(before + b + pp =~= before + (b + pp));
                }
                j = j + 1;
            }
            assert(captures@ == allv[i as int]);
            i = i + 1;
        }
        Ok(CompilableText::new(out))
    }
}

impl CompilationRule for ReplacementRule {
    open spec fn wf(&self) -> bool {
        true
    }

    open spec fn spec_search_pattern(&self) -> Seq<char> {
        self.spec_pattern()
    }

    open spec fn spec_standard_compile(
        &self,
        text: CompilableTextView,
        format: OutputFormat,
        configuration: CompilationConfiguration,
        overlay: CompilationConfigurationOverLay,
    ) -> Result<Seq<PartView>, CompilationError> {
        or_elaboration_error(replacement_output(self.spec_pattern(), self.spec_replacers(), text.parts))
    }

    open spec fn spec_fast_compile(
        &self,
        text: CompilableTextView,
        format: OutputFormat,
        configuration: CompilationConfiguration,
        overlay: CompilationConfigurationOverLay,
    ) -> Result<Seq<PartView>, CompilationError> {
        or_elaboration_error(replacement_output(self.spec_pattern(), self.spec_replacers(), text.parts))
    }

    fn search_pattern(&self) -> (r: &String) {
        self.search_pattern_regex.pattern()
    }

    fn search_pattern_regex(&self) -> (r: &CompiledRegex) {
        &self.search_pattern_regex
    }

    fn is_match(&self, content: &str) -> (r: bool) {
        is_match(&self.search_pattern_regex, content)
    }

    fn find_iter(&self, content: &str) -> (r: Vec<(usize, usize)>) {
        find_spans(&self.search_pattern_regex, content)
    }

    fn standard_compile(
        &self,
        compilable: &CompilableText,
        format: &OutputFormat,
        compilation_configuration: &CompilationConfiguration,
        compilation_configuration_overlay: &CompilationConfigurationOverLay,
    ) -> (r: Result<CompilableText, CompilationError>) {
        self.replace_matches(compilable)
    }

    fn fast_compile(
        &self,
        compilable: &CompilableText,
        format: &OutputFormat,
        compilation_configuration: &CompilationConfiguration,
        compilation_configuration_overlay: &CompilationConfigurationOverLay,
    ) -> (r: Result<CompilableText, CompilationError>) {
        self.standard_compile(
            compilable,
            format,
            compilation_configuration,
            compilation_configuration_overlay,
        )
    }
}

} // verus!
