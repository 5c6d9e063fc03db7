//! A compilation rule rewrites the text matched by its search pattern.

pub mod constants;
pub mod html_cite_rule;
pub mod html_extended_block_quote_rule;
pub mod html_image_rule;
pub mod html_list_rule;
pub mod reference_rule;
pub mod replacement_rule;

use vstd::prelude::*;
use crate::compilable_text::{CompilableText, CompilableTextView};
use crate::compilable_text::compilable_text_part::PartView;
use crate::compiler::compilation_configuration::CompilationConfiguration;
use crate::compiler::compilation_configuration::compilation_configuration_overlay::CompilationConfigurationOverLay;
use crate::compiler::compilation_error::CompilationError;
use crate::output_format::OutputFormat;
use crate::regex_engine::{CompiledRegex, are_successive_spans, regex_find_all};

verus! {

/// A rule: a search pattern and what the matched text becomes.
pub trait CompilationRule: Sized {
    /// The rule is well formed (its search pattern compiles).
    spec fn wf(&self) -> bool;

    spec fn spec_search_pattern(&self) -> Seq<char>;

    /// The parts that the standard compilation makes of `text`, or the error it fails with.
    spec fn spec_standard_compile(
        &self,
        text: CompilableTextView,
        format: OutputFormat,
        configuration: CompilationConfiguration,
        overlay: CompilationConfigurationOverLay,
    ) -> Result<Seq<PartView>, CompilationError>;

    /// The parts that the fast compilation makes of `text`, or the error it fails with.
    spec fn spec_fast_compile(
        &self,
        text: CompilableTextView,
        format: OutputFormat,
        configuration: CompilationConfiguration,
        overlay: CompilationConfigurationOverLay,
    ) -> Result<Seq<PartView>, CompilationError>;

    fn search_pattern(&self) -> (r: &String)
        ensures
            r@ == self.spec_search_pattern(),
    ;

    /// The compiled search pattern.
    fn search_pattern_regex(&self) -> (r: &CompiledRegex)
        ensures
            r.spec_pattern() == self.spec_search_pattern(),
    ;

    /// The content holds a match of the search pattern.
    fn is_match(&self, content: &str) -> (r: bool)
        requires
            self.wf(),
        ensures
            r == (regex_find_all(self.spec_search_pattern(), content@).len() > 0),
    ;

    /// The successive matches of the search pattern, as byte ranges.
    fn find_iter(&self, content: &str) -> (r: Vec<(usize, usize)>)
        requires
            self.wf(),
        ensures
            r@ == regex_find_all(self.spec_search_pattern(), content@),
            are_successive_spans(r@, content@),
    ;

    /// Compiles the text.
    fn standard_compile(
        &self,
        compilable: &CompilableText,
        format: &OutputFormat,
        compilation_configuration: &CompilationConfiguration,
        compilation_configuration_overlay: &CompilationConfigurationOverLay,
    ) -> (r: Result<CompilableText, CompilationError>)
        requires
            self.wf(),
        ensures
            r is Ok == self.spec_standard_compile(
                compilable@,
                *format,
                *compilation_configuration,
                *compilation_configuration_overlay,
            ) is Ok,
            r matches Ok(t) ==> self.spec_standard_compile(
                compilable@,
                *format,
                *compilation_configuration,
                *compilation_configuration_overlay,
            ) == Ok::<Seq<PartView>, CompilationError>(t@.parts),
            r matches Err(e) ==> self.spec_standard_compile(
                compilable@,
                *format,
                *compilation_configuration,
                *compilation_configuration_overlay,
            ) == Err::<Seq<PartView>, CompilationError>(e),
    ;

    /// Compiles the text avoiding time consuming operations.
    fn fast_compile(
        &self,
        compilable: &CompilableText,
        format: &OutputFormat,
        compilation_configuration: &CompilationConfiguration,
        compilation_configuration_overlay: &CompilationConfigurationOverLay,
    ) -> (r: Result<CompilableText, CompilationError>)
        requires
            self.wf(),
        ensures
            r is Ok == self.spec_fast_compile(
                compilable@,
                *format,
                *compilation_configuration,
                *compilation_configuration_overlay,
            ) is Ok,
            r matches Ok(t) ==> self.spec_fast_compile(
                compilable@,
                *format,
                *compilation_configuration,
                *compilation_configuration_overlay,
            ) == Ok::<Seq<PartView>, CompilationError>(t@.parts),
            r matches Err(e) ==> self.spec_fast_compile(
                compilable@,
                *format,
                *compilation_configuration,
                *compilation_configuration_overlay,
            ) == Err::<Seq<PartView>, CompilationError>(e),
    ;

    /// Standard or fast compilation, as `fast_draft` of the configuration says.
    fn compile(
        &self,
        compilable: &CompilableText,
        format: &OutputFormat,
        compilation_configuration: &CompilationConfiguration,
        compilation_configuration_overlay: &CompilationConfigurationOverLay,
    ) -> (r: Result<CompilableText, CompilationError>)
        requires
            self.wf(),
        ensures
            r is Ok == (if compilation_configuration.spec_fast_draft() {
                self.spec_fast_compile(
                    compilable@,
                    *format,
                    *compilation_configuration,
                    *compilation_configuration_overlay,
                )
            } else {
                self.spec_standard_compile(
                    compilable@,
                    *format,
                    *compilation_configuration,
                    *compilation_configuration_overlay,
                )
            }) is Ok,
            r matches Ok(t) ==> (if compilation_configuration.spec_fast_draft() {
                self.spec_fast_compile(
                    compilable@,
                    *format,
                    *compilation_configuration,
                    *compilation_configuration_overlay,
                )
            } else {
                self.spec_standard_compile(
                    compilable@,
                    *format,
                    *compilation_configuration,
                    *compilation_configuration_overlay,
                )
            }) == Ok::<Seq<PartView>, CompilationError>(t@.parts),
            r matches Err(e) ==> (if compilation_configuration.spec_fast_draft() {
                self.spec_fast_compile(
                    compilable@,
                    *format,
                    *compilation_configuration,
                    *compilation_configuration_overlay,
                )
            } else {
                self.spec_standard_compile(
                    compilable@,
                    *format,
                    *compilation_configuration,
                    *compilation_configuration_overlay,
                )
            }) == Err::<Seq<PartView>, CompilationError>(e),
    {
        if compilation_configuration.fast_draft() {
            self.fast_compile(
                compilable,
                format,
                compilation_configuration,
                compilation_configuration_overlay,
            )
        } else {
            self.standard_compile(
                compilable,
                format,
                compilation_configuration,
                compilation_configuration_overlay,
            )
        }
    }
}

/// The parts, or `ElaborationError` where there are none.
pub open spec fn or_elaboration_error(o: Option<Seq<PartView>>) -> Result<
    Seq<PartView>,
    CompilationError,
> {
    match o {
        Some(p) => Ok(p),
        None => Err(CompilationError::ElaborationError),
    }
}

/// What `compile` makes of a text: the fast compilation under `fast_draft`,
/// the standard one otherwise.
pub open spec fn rule_compile_spec<R: CompilationRule>(
    rule: R,
    text: CompilableTextView,
    format: OutputFormat,
    configuration: CompilationConfiguration,
    overlay: CompilationConfigurationOverLay,
) -> Result<Seq<PartView>, CompilationError> {
    if configuration.spec_fast_draft() {
        rule.spec_fast_compile(text, format, configuration, overlay)
    } else {
        rule.spec_standard_compile(text, format, configuration, overlay)
    }
}

} // verus!
