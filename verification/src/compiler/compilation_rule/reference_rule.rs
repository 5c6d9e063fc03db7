//! The rule that replaces `&name&` with the text of the reference `name`.

use vstd::prelude::*;
use vstd::utf8::*;
use crate::codex::modifier::standard_text_modifier::StandardTextModifier;
use crate::compilable_text::{CompilableText, CompilableTextView, compilable_chars, parts_view};
use crate::compilable_text::compilable_text_part::{CompilableTextPart, PartTypeView, PartView};
use crate::compiler::compilation_configuration::CompilationConfiguration;
use crate::compiler::compilation_configuration::compilation_configuration_overlay::CompilationConfigurationOverLay;
use crate::compiler::compilation_error::CompilationError;
use crate::compiler::compilation_rule::replacement_rule::replacement_rule_part::single_capture_group_replacement_rule_part::group_span;
use crate::output_format::OutputFormat;
use crate::regex_engine::{
    CompiledRegex, captures_spans, compile_regex, find_spans, is_match, is_valid_span,
    regex_captures_all, regex_is_valid,
};
use crate::text_bytes::str_byte_slice;
use super::{CompilationRule, or_elaboration_error};

verus! {

broadcast use vstd::utf8::encode_utf8_decode_utf8;

/// Replaces each reference with its text, taken from the configuration.
#[derive(Debug)]
pub struct ReferenceRule {
    search_pattern_regex: CompiledRegex,
}

/// The name of a reference whose first capture group spans `span`.
pub open spec fn reference_key(content: Seq<char>, span: (usize, usize)) -> Seq<char> {
    decode_utf8(encode_utf8(content).subrange(span.0 as int, span.1 as int))
}

/// The fixed parts produced for the first `n` matches: the text of each
/// known reference; unknown references produce nothing.
pub open spec fn references_upto(
    all: Seq<Seq<Option<(usize, usize)>>>,
    n: int,
    content: Seq<char>,
    references: Map<Seq<char>, Seq<char>>,
) -> Option<Seq<PartView>>
    decreases n,
{
    if n <= 0 {
        Some(Seq::empty())
    } else {
        match references_upto(all, n - 1, content, references) {
            None => None,
            Some(a) => match group_span(all[n - 1], 1) {
                None => None,
                Some(span) => {
                    let key = reference_key(content, span);
                    if references.contains_key(key) {
                        Some(a.push(PartView { content: references[key], part_type: PartTypeView::Fixed }))
                    } else {
                        Some(a)
                    }
                },
            },
        }
    }
}

/// What the reference rule makes of a text.
pub open spec fn references_output(
    pattern: Seq<char>,
    parts: Seq<PartView>,
    references: Map<Seq<char>, Seq<char>>,
) -> Option<Seq<PartView>> {
    let content = compilable_chars(parts);
    let all = regex_captures_all(pattern, content);
    references_upto(all, all.len() as int, content, references)
}

proof fn lemma_references_fail(
    all: Seq<Seq<Option<(usize, usize)>>>,
    k: int,
    n: int,
    content: Seq<char>,
    references: Map<Seq<char>, Seq<char>>,
)
    requires
        k <= n,
        references_upto(all, k, content, references) is None,
    ensures
        references_upto(all, n, content, references) is None,
    decreases n - k,
{
    if k < n {
        lemma_references_fail(all, k, n - 1, content, references);
    }
}

impl ReferenceRule {
    pub closed spec fn spec_pattern(&self) -> Seq<char> {
        self.search_pattern_regex.spec_pattern()
    }

    /// The rule, searching the pattern of the reference modifier.
    pub fn new() -> (r: Self)
        requires
            regex_is_valid(StandardTextModifier::Reference.spec_modifier_pattern()),
        ensures
            r.spec_pattern() == StandardTextModifier::Reference.spec_modifier_pattern(),
    {
        let pattern = StandardTextModifier::Reference.modifier_pattern();
        Self { search_pattern_regex: compile_regex(pattern.as_str()).unwrap() }
    }

    /// `new`, or `None` when the regex engine refuses the pattern.
    pub fn try_new() -> (r: Option<Self>)
        ensures
            r is Some == regex_is_valid(StandardTextModifier::Reference.spec_modifier_pattern()),
            r matches Some(rule) ==> rule.spec_pattern()
                == StandardTextModifier::Reference.spec_modifier_pattern(),
    {
        let pattern = StandardTextModifier::Reference.modifier_pattern();
        if compile_regex(pattern.as_str()).is_some() {
            Some(Self::new())
        } else {
            None
        }
    }

    fn replace_references(
        &self,
        compilable: &CompilableText,
        compilation_configuration: &CompilationConfiguration,
    ) -> (r: Result<CompilableText, CompilationError>)
        ensures
            r is Ok == references_output(
                self.spec_pattern(),
                compilable@.parts,
                compilation_configuration.spec_references(),
            ) is Some,
            r matches Ok(t) ==> references_output(
                self.spec_pattern(),
                compilable@.parts,
                compilation_configuration.spec_references(),
            ) == Some(t@.parts),
            r matches Err(e) ==> e is ElaborationError,
    {
        let ghost refs = compilation_configuration.spec_references();
        let content = compilable.compilable_content();
        let all = captures_spans(&self.search_pattern_regex, content.as_str());
        let ghost allv = regex_captures_all(self.spec_pattern(), content@);
        let mut compiled_parts: Vec<CompilableTextPart> = Vec::new();
        let mut i: usize = 0;
        while i < all.len()
            invariant
                i <= all.len(),
                content@ == compilable_chars(compilable@.parts),
                refs == compilation_configuration.spec_references(),
                allv == regex_captures_all(self.spec_pattern(), content@),
                all@.len() == allv.len(),
                forall|k: int| 0 <= k < all@.len() ==> (#[trigger] all@[k])@ == allv[k],
                forall|k: int, g: int|
                    0 <= k < all@.len() && 0 <= g < all@[k]@.len() && (#[trigger] all@[k]@[g]) is Some
                        ==> is_valid_span(all@[k]@[g]->0, content@),
                references_upto(allv, i as int, content@, refs) == Some(parts_view(compiled_parts@)),
            decreases all.len() - i,
        {
            let captures = &all[i];
            assert(captures@ == allv[i as int]);
            if captures.len() <= 1 {
                proof {
                    lemma_references_fail(allv, i + 1, allv.len() as int, content@, refs);
                }
                return Err(CompilationError::ElaborationError);
            }
            let span: (usize, usize) = match &captures[1] {
                Some(s) => *s,
                None => {
                    proof {
                        lemma_references_fail(allv, i + 1, allv.len() as int, content@, refs);
                    }
                    return Err(CompilationError::ElaborationError);
                },
            };
            assert(all@[i as int]@[1] is Some);
            let reference_key = str_byte_slice(content.as_str(), span.0, span.1);
            assert(reference_key@ == crate::compiler::compilation_rule::reference_rule::reference_key(content@, span));
            let ghost before = compiled_parts@;
            match compilation_configuration.references().get(reference_key) {
                Some(reference) => {
                    compiled_parts.push(CompilableTextPart::new_fixed(reference.clone()));
                    assert(parts_view(compiled_parts@) =~= parts_view(before).push(
                        PartView { content: reference@, part_type: PartTypeView::Fixed },
                    ));
                },
                None => {},
            }
            i = i + 1;
        }
        Ok(CompilableText::new(compiled_parts))
    }
}

impl CompilationRule for ReferenceRule {
    open spec fn wf(&self) -> bool {
        true
    }

    open spec fn spec_search_pattern(&self) -> Seq<char> {
        self.spec_pattern()
    }

    open spec fn spec_standard_compile(
        &self,
        text: CompilableTextView,
        format: OutputFormat,
        configuration: CompilationConfiguration,
        overlay: CompilationConfigurationOverLay,
    ) -> Result<Seq<PartView>, CompilationError> {
        or_elaboration_error(
            references_output(self.spec_pattern(), text.parts, configuration.spec_references()),
        )
    }

    open spec fn spec_fast_compile(
        &self,
        text: CompilableTextView,
        format: OutputFormat,
        configuration: CompilationConfiguration,
        overlay: CompilationConfigurationOverLay,
    ) -> Result<Seq<PartView>, CompilationError> {
        or_elaboration_error(
            references_output(self.spec_pattern(), text.parts, configuration.spec_references()),
        )
    }

    fn search_pattern(&self) -> (r: &String) {
        self.search_pattern_regex.pattern()
    }

    fn search_pattern_regex(&self) -> (r: &CompiledRegex) {
        &self.search_pattern_regex
    }

    fn is_match(&self, content: &str) -> (r: bool) {
        is_match(&self.search_pattern_regex, content)
    }

    fn find_iter(&self, content: &str) -> (r: Vec<(usize, usize)>) {
        find_spans(&self.search_pattern_regex, content)
    }

    fn standard_compile(
        &self,
        compilable: &CompilableText,
        format: &OutputFormat,
        compilation_configuration: &CompilationConfiguration,
        compilation_configuration_overlay: &CompilationConfigurationOverLay,
    ) -> (r: Result<CompilableText, CompilationError>) {
        self.replace_references(compilable, compilation_configuration)
    }

    fn fast_compile(
        &self,
        compilable: &CompilableText,
        format: &OutputFormat,
        compilation_configuration: &CompilationConfiguration,
        compilation_configuration_overlay: &CompilationConfigurationOverLay,
    ) -> (r: Result<CompilableText, CompilationError>) {
        self.replace_references(compilable, compilation_configuration)
    }
}

} // verus!
