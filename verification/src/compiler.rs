//! `Compiler` transforms texts according to output format and codex.

pub mod compilable;
pub mod compilation_error;
pub mod compilation_metadata;
pub mod compiled_text_accessor;
pub mod compilation_configuration;
pub mod compilation_result;
pub mod compilation_rule;

use vstd::prelude::*;
use crate::codex::{Codex, CodexIdentifier, TextRule};
use crate::compilable_text::CompilableText;
use crate::compilable_text::compilable_text_part::{CompilableTextPart, PartTypeView, PartView};
use crate::compilable_text::rule_application::{apply_rule_spec, lemma_incompatible_parts_kept};
use crate::output_format::OutputFormat;
use crate::resource::bucket::{Bucket, BucketView};
use compilation_configuration::CompilationConfiguration;
use compilation_configuration::compilation_configuration_overlay::CompilationConfigurationOverLay;
use compilation_error::CompilationError;
use compilation_rule::CompilationRule;

verus! {

/// The parts of a text after the first `n` rules of `entries` that are not
/// excluded (a modifier without a rule is skipped), or the error of the
/// first of them that fails.
pub open spec fn codex_run(
    entries: Seq<(Seq<char>, Option<TextRule>)>,
    n: int,
    excluded: BucketView,
    format: OutputFormat,
    configuration: CompilationConfiguration,
    overlay: CompilationConfigurationOverLay,
    parts: Seq<PartView>,
) -> Result<Seq<PartView>, CompilationError>
    decreases n,
{
    if n <= 0 {
        Ok(parts)
    } else {
        match codex_run(entries, n - 1, excluded, format, configuration, overlay, parts) {
            Err(e) => Err(e),
            Ok(p) => {
                let entry = entries[n - 1];
                match entry.1 {
                    Some(rule) => if excluded.contains(entry.0) {
                        Ok(p)
                    } else {
                        apply_rule_spec(rule, entry.0, format, configuration, overlay, p)
                    },
                    None => Ok(p),
                }
            },
        }
    }
}

/// The parts of a text compiled with every rule of the codex that the
/// configuration does not exclude, in the codex order; the error of the first
/// rule that fails.
pub open spec fn compile_parts_spec(
    codex: Codex,
    format: OutputFormat,
    configuration: CompilationConfiguration,
    overlay: CompilationConfigurationOverLay,
    parts: Seq<PartView>,
) -> Result<Seq<PartView>, CompilationError> {
    codex_run(
        codex.spec_entries(),
        codex.spec_entries().len() as int,
        configuration.spec_excluded_modifiers(),
        format,
        configuration,
        overlay,
        parts,
    )
}

proof fn lemma_codex_run_fail(
    entries: Seq<(Seq<char>, Option<TextRule>)>,
    k: int,
    n: int,
    excluded: BucketView,
    format: OutputFormat,
    configuration: CompilationConfiguration,
    overlay: CompilationConfigurationOverLay,
    parts: Seq<PartView>,
)
    requires
        k <= n,
        codex_run(entries, k, excluded, format, configuration, overlay, parts) is Err,
    ensures
        codex_run(entries, n, excluded, format, configuration, overlay, parts) == codex_run(
            entries,
            k,
            excluded,
            format,
            configuration,
            overlay,
            parts,
        ),
    decreases n - k,
{
    if k < n {
        lemma_codex_run_fail(entries, k, n - 1, excluded, format, configuration, overlay, parts);
    }
}

/// When every modifier is excluded, no rule touches the text.
pub proof fn lemma_all_excluded_unchanged(
    entries: Seq<(Seq<char>, Option<TextRule>)>,
    n: int,
    format: OutputFormat,
    configuration: CompilationConfiguration,
    overlay: CompilationConfigurationOverLay,
    parts: Seq<PartView>,
)
    ensures
        codex_run(entries, n, BucketView::All, format, configuration, overlay, parts) == Ok::<Seq<PartView>, CompilationError>(parts),
    decreases n,
{
    if n > 0 {
        lemma_all_excluded_unchanged(entries, n - 1, format, configuration, overlay, parts);
    }
}

/// A compilable part incompatible with every modifier goes through the
/// compilation of a codex unchanged.
pub proof fn lemma_fully_incompatible_part_kept(
    entries: Seq<(Seq<char>, Option<TextRule>)>,
    n: int,
    excluded: BucketView,
    format: OutputFormat,
    configuration: CompilationConfiguration,
    overlay: CompilationConfigurationOverLay,
    parts: Seq<PartView>,
    p: PartView,
)
    requires
        parts.contains(p),
        p.part_type == PartTypeView::Compilable(BucketView::All),
        codex_run(entries, n, excluded, format, configuration, overlay, parts) is Ok,
    ensures
        codex_run(entries, n, excluded, format, configuration, overlay, parts)->Ok_0.contains(p),
    decreases n,
{
    if n > 0 {
        lemma_fully_incompatible_part_kept(
            entries,
            n - 1,
            excluded,
            format,
            configuration,
            overlay,
            parts,
            p,
        );
        let before = codex_run(entries, n - 1, excluded, format, configuration, overlay, parts)->Ok_0;
        let entry = entries[n - 1];
        if entry.1 is Some && !excluded.contains(entry.0) {
            let j = choose|j: int| 0 <= j < before.len() && before[j] == p;
            lemma_incompatible_parts_kept(
                entry.1->0,
                entry.0,
                format,
                configuration,
                overlay,
                before,
                j,
            );
        }
    }
}

/// Transforms texts according to the output format and the codex.
#[derive(Debug)]
pub struct Compiler;

impl Compiler {
    /// Applies one rule, identified in the codex by `rule_identifier`, to the text.
    pub fn compile_compilation_text_with_compilation_rule<R: CompilationRule>(
        compilable_text: &mut CompilableText,
        rule_identifier: &CodexIdentifier,
        rule: &R,
        format: &OutputFormat,
        compilation_configuration: &CompilationConfiguration,
        compilation_configuration_overlay: &CompilationConfigurationOverLay,
    ) -> (r: Result<(), CompilationError>)
        requires
            rule.wf(),
        ensures
            r is Ok == apply_rule_spec(
                *rule,
                rule_identifier@,
                *format,
                *compilation_configuration,
                *compilation_configuration_overlay,
                old(compilable_text)@.parts,
            ) is Ok,
            r is Ok ==> apply_rule_spec(
                *rule,
                rule_identifier@,
                *format,
                *compilation_configuration,
                *compilation_configuration_overlay,
                old(compilable_text)@.parts,
            ) == Ok::<Seq<PartView>, CompilationError>(final(compilable_text)@.parts),
            r matches Err(e) ==> apply_rule_spec(
                *rule,
                rule_identifier@,
                *format,
                *compilation_configuration,
                *compilation_configuration_overlay,
                old(compilable_text)@.parts,
            ) == Err::<Seq<PartView>, CompilationError>(e),
            r is Err ==> final(compilable_text)@ == old(compilable_text)@,
            final(compilable_text)@.nuid == old(compilable_text)@.nuid,
    {
        compilable_text.compile_with_compilation_rule(
            rule_identifier,
            rule,
            format,
            compilation_configuration,
            compilation_configuration_overlay,
        )
    }

    /// Compiles a text with the rules of the codex, in order, skipping the
    /// modifiers that the configuration excludes.
    pub fn compile_compilable_text(
        compilable_text: &mut CompilableText,
        format: &OutputFormat,
        codex: &Codex,
        compilation_configuration: &CompilationConfiguration,
        compilation_configuration_overlay: &CompilationConfigurationOverLay,
    ) -> (r: Result<(), CompilationError>)
        ensures
            r is Ok == compile_parts_spec(
                *codex,
                *format,
                *compilation_configuration,
                *compilation_configuration_overlay,
                old(compilable_text)@.parts,
            ) is Ok,
            r is Ok ==> compile_parts_spec(
                *codex,
                *format,
                *compilation_configuration,
                *compilation_configuration_overlay,
                old(compilable_text)@.parts,
            ) == Ok::<Seq<PartView>, CompilationError>(final(compilable_text)@.parts),
            r matches Err(e) ==> compile_parts_spec(
                *codex,
                *format,
                *compilation_configuration,
                *compilation_configuration_overlay,
                old(compilable_text)@.parts,
            ) == Err::<Seq<PartView>, CompilationError>(e),
            r is Err ==> exists|k: int|
                0 <= k < codex.spec_entries().len() && codex_run(
                    codex.spec_entries(),
                    k,
                    compilation_configuration.spec_excluded_modifiers(),
                    *format,
                    *compilation_configuration,
                    *compilation_configuration_overlay,
                    old(compilable_text)@.parts,
                ) == Ok::<Seq<PartView>, CompilationError>(final(compilable_text)@.parts) && #[trigger] codex_run(
                    codex.spec_entries(),
                    k + 1,
                    compilation_configuration.spec_excluded_modifiers(),
                    *format,
                    *compilation_configuration,
                    *compilation_configuration_overlay,
                    old(compilable_text)@.parts,
                ) is Err,
            final(compilable_text)@.nuid == old(compilable_text)@.nuid,
    {
        let ghost parts0 = compilable_text@.parts;
        let ghost entries = codex.spec_entries();
        let excluded_modifiers = compilation_configuration.excluded_modifiers();
        if excluded_modifiers.is_all() {
            proof {
                lemma_all_excluded_unchanged(
                    entries,
                    entries.len() as int,
                    *format,
                    *compilation_configuration,
                    *compilation_configuration_overlay,
                    parts0,
                );
            }
            return Ok(());
        }
        let text_modifiers = codex.text_modifiers();
        let mut i: usize = 0;
        while i < text_modifiers.len()
            invariant
                i <= text_modifiers.len(),
                parts0 == old(compilable_text)@.parts,
                entries == codex.spec_entries(),
                entries.len() == text_modifiers@.len(),
                forall|k: int|
                    0 <= k < text_modifiers@.len() ==> #[trigger] entries[k] == (
                    text_modifiers@[k].0@,
                    text_modifiers@[k].1.1,
                ),
                excluded_modifiers@ == compilation_configuration.spec_excluded_modifiers(),
                codex_run(
                    entries,
                    i as int,
                    excluded_modifiers@,
                    *format,
                    *compilation_configuration,
                    *compilation_configuration_overlay,
                    parts0,
                ) == Ok::<Seq<PartView>, CompilationError>(compilable_text@.parts),
                compilable_text@.nuid == old(compilable_text)@.nuid,
            decreases text_modifiers.len() - i,
        {
            let entry = &text_modifiers[i];
            assert(entries[i as int] == (entry.0@, entry.1.1));
            if let Some(rule) = &entry.1.1 {
                if excluded_modifiers.contains(&entry.0) {
                    i = i + 1;
                    continue;
                }
                match Self::compile_compilation_text_with_compilation_rule(
                    compilable_text,
                    &entry.0,
                    rule,
                    format,
                    compilation_configuration,
                    compilation_configuration_overlay,
                ) {
                    Ok(()) => {},
                    Err(e) => {
                        proof {
                            assert(codex_run(
                                entries,
                                i + 1,
                                excluded_modifiers@,
                                *format,
                                *compilation_configuration,
                                *compilation_configuration_overlay,
                                parts0,
                            ) == Err::<Seq<PartView>, CompilationError>(e));
                            assert(codex_run(
                                entries,
                                i as int,
                                excluded_modifiers@,
                                *format,
                                *compilation_configuration,
                                *compilation_configuration_overlay,
                                parts0,
                            ) == Ok::<Seq<PartView>, CompilationError>(compilable_text@.parts));
                            lemma_codex_run_fail(
                                entries,
                                i + 1,
                                entries.len() as int,
                                excluded_modifiers@,
                                *format,
                                *compilation_configuration,
                                *compilation_configuration_overlay,
                                parts0,
                            );
                        }
                        return Err(e);
                    },
                }
            }
            i = i + 1;
        }
        Ok(())
    }

    /// Compiles a string: a text of one compilable part, compiled with the codex.
    pub fn compile_str(
        content: &str,
        format: &OutputFormat,
        codex: &Codex,
        compilation_configuration: &CompilationConfiguration,
        compilation_configuration_overlay: &CompilationConfigurationOverLay,
    ) -> (r: Result<CompilableText, CompilationError>)
        ensures
            r is Ok == compile_parts_spec(
                *codex,
                *format,
                *compilation_configuration,
                *compilation_configuration_overlay,
                seq![PartView { content: content@, part_type: PartTypeView::Compilable(BucketView::Nothing) }],
            ) is Ok,
            r matches Ok(t) ==> compile_parts_spec(
                *codex,
                *format,
                *compilation_configuration,
                *compilation_configuration_overlay,
                seq![PartView { content: content@, part_type: PartTypeView::Compilable(BucketView::Nothing) }],
            ) == Ok::<Seq<PartView>, CompilationError>(t@.parts) && t@.nuid is None,
            r matches Err(e) ==> compile_parts_spec(
                *codex,
                *format,
                *compilation_configuration,
                *compilation_configuration_overlay,
                seq![PartView { content: content@, part_type: PartTypeView::Compilable(BucketView::Nothing) }],
            ) == Err::<Seq<PartView>, CompilationError>(e),
    {
        let mut parts: Vec<CompilableTextPart> = Vec::new();
        parts.push(CompilableTextPart::new_compilable(String::from_str(content), Bucket::Nothing));
        let mut compilable_text = CompilableText::new(parts);
        assert(compilable_text@.parts =~= seq![PartView { content: content@, part_type: PartTypeView::Compilable(BucketView::Nothing) }]);
        match Self::compile_compilable_text(
            &mut compilable_text,
            format,
            codex,
            compilation_configuration,
            compilation_configuration_overlay,
        ) {
            Ok(()) => Ok(compilable_text),
            Err(e) => Err(e),
        }
    }

    /// The lowest of the heading levels, if there is any.
    pub fn min_headers_lv(levels: &Vec<u32>) -> (r: Option<u32>)
        ensures
            r is None <==> levels@.len() == 0,
            r matches Some(m) ==> levels@.contains(m) && forall|i: int|
                0 <= i < levels@.len() ==> m <= #[trigger] levels@[i],
    {
        let mut m: Option<u32> = None;
        let mut i: usize = 0;
        while i < levels.len()
            invariant
                i <= levels.len(),
                m is None <==> i == 0,
                m matches Some(v) ==> levels@.take(i as int).contains(v) && forall|j: int|
                    0 <= j < i ==> v <= #[trigger] levels@[j],
            decreases levels.len() - i,
        {
            let level = levels[i];
            let next = match m {
                None => level,
                Some(v) => if level < v {
                    level
                } else {
                    v
                },
            };
            proof {
                assert(levels@.take(i + 1)[i as int] == level);
                if let Some(v) = m {
                    let w = choose|w: int| 0 <= w < i && levels@.take(i as int)[w] == v;
                    assert(levels@.take(i + 1)[w] == v);
                }
            }
            m = Some(next);
            i = i + 1;
        }
        proof {
            if let Some(v) = m {
                assert(levels@.take(i as int) =~= levels@);
            }
        }
        m
    }
}

impl CompilableText {
    /// Compiles the text with the rules of the codex (see
    /// `Compiler::compile_compilable_text`).
    pub fn standard_compile(
        &mut self,
        format: &OutputFormat,
        codex: &Codex,
        compilation_configuration: &CompilationConfiguration,
        compilation_configuration_overlay: &CompilationConfigurationOverLay,
    ) -> (r: Result<(), CompilationError>)
        ensures
            r is Ok == compile_parts_spec(
                *codex,
                *format,
                *compilation_configuration,
                *compilation_configuration_overlay,
                old(self)@.parts,
            ) is Ok,
            r is Ok ==> compile_parts_spec(
                *codex,
                *format,
                *compilation_configuration,
                *compilation_configuration_overlay,
                old(self)@.parts,
            ) == Ok::<Seq<PartView>, CompilationError>(final(self)@.parts),
            r matches Err(e) ==> compile_parts_spec(
                *codex,
                *format,
                *compilation_configuration,
                *compilation_configuration_overlay,
                old(self)@.parts,
            ) == Err::<Seq<PartView>, CompilationError>(e),
            final(self)@.nuid == old(self)@.nuid,
    {
        Compiler::compile_compilable_text(
            self,
            format,
            codex,
            compilation_configuration,
            compilation_configuration_overlay,
        )
    }

    /// The compilation that avoids time consuming operations; for a text it
    /// is the standard one.
    pub fn fast_compile(
        &mut self,
        format: &OutputFormat,
        codex: &Codex,
        compilation_configuration: &CompilationConfiguration,
        compilation_configuration_overlay: &CompilationConfigurationOverLay,
    ) -> (r: Result<(), CompilationError>)
        ensures
            r is Ok == compile_parts_spec(
                *codex,
                *format,
                *compilation_configuration,
                *compilation_configuration_overlay,
                old(self)@.parts,
            ) is Ok,
            r is Ok ==> compile_parts_spec(
                *codex,
                *format,
                *compilation_configuration,
                *compilation_configuration_overlay,
                old(self)@.parts,
            ) == Ok::<Seq<PartView>, CompilationError>(final(self)@.parts),
            r matches Err(e) ==> compile_parts_spec(
                *codex,
                *format,
                *compilation_configuration,
                *compilation_configuration_overlay,
                old(self)@.parts,
            ) == Err::<Seq<PartView>, CompilationError>(e),
            final(self)@.nuid == old(self)@.nuid,
    {
        self.standard_compile(format, codex, compilation_configuration, compilation_configuration_overlay)
    }

    /// Standard or fast compilation, as `fast_draft` of the configuration says.
    pub fn compile(
        &mut self,
        format: &OutputFormat,
        codex: &Codex,
        compilation_configuration: &CompilationConfiguration,
        compilation_configuration_overlay: &CompilationConfigurationOverLay,
    ) -> (r: Result<(), CompilationError>)
        ensures
            r is Ok == compile_parts_spec(
                *codex,
                *format,
                *compilation_configuration,
                *compilation_configuration_overlay,
                old(self)@.parts,
            ) is Ok,
            r is Ok ==> compile_parts_spec(
                *codex,
                *format,
                *compilation_configuration,
                *compilation_configuration_overlay,
                old(self)@.parts,
            ) == Ok::<Seq<PartView>, CompilationError>(final(self)@.parts),
            r matches Err(e) ==> compile_parts_spec(
                *codex,
                *format,
                *compilation_configuration,
                *compilation_configuration_overlay,
                old(self)@.parts,
            ) == Err::<Seq<PartView>, CompilationError>(e),
            final(self)@.nuid == old(self)@.nuid,
    {
        if compilation_configuration.fast_draft() {
            self.fast_compile(format, codex, compilation_configuration, compilation_configuration_overlay)
        } else {
            self.standard_compile(format, codex, compilation_configuration, compilation_configuration_overlay)
        }
    }
}

} // verus!
