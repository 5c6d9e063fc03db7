use nmd_core::bibliography::bibliography_record::BibliographyRecord;
use nmd_core::bibliography::Bibliography;
use nmd_core::codex::modifier::ModifiersBucket;
use nmd_core::compilable_text::compilable_text_part::CompilableTextPart;
use nmd_core::compilable_text::{CompilableError, CompilableText, PartsSliceElaborationPolicy};
use nmd_core::compilation::compilation_outcome::CompilationOutcome;
use nmd_core::compiler::compilation_error::CompilationError;
use nmd_core::compiler::compilation_result::CompilationResult;
use nmd_core::compiler::compilation_configuration::compilation_configuration_overlay::CompilationConfigurationOverLay;
use nmd_core::compiler::compilation_configuration::CompilationConfiguration;
use nmd_core::compiler::compilation_rule::replacement_rule::replacement_rule_part::fixed_replacement_rule_part::FixedReplacementRuleReplacerPart;
use nmd_core::compiler::compilation_rule::replacement_rule::replacement_rule_part::single_capture_group_replacement_rule_part::SingleCaptureGroupReplacementRuleReplacerPart;
use nmd_core::compiler::compilation_rule::replacement_rule::replacement_rule_part::ReplacementRuleReplacerPart;
use nmd_core::compiler::compilation_rule::replacement_rule::ReplacementRule;
use nmd_core::compiler::compilation_rule::CompilationRule;
use nmd_core::output_format::OutputFormat;
use nmd_core::regex_engine::CompiledRegex;
use nmd_core::resource::bucket::Bucket;
use nmd_core::utility::text_utility::replace;

#[test]
fn slice_cuts_multibyte_content_on_byte_offsets() {
    let text = CompilableText::new(vec![
        CompilableTextPart::new_compilable(String::from("héllo"), ModifiersBucket::Nothing),
        CompilableTextPart::new_fixed(String::from("<f>")),
        CompilableTextPart::new_compilable(String::from("wörld"), ModifiersBucket::Nothing),
    ]);
    assert_eq!(text.compilable_content(), "héllowörld");
    assert_eq!(text.content(), "héllo<f>wörld");
    let slice = text.parts_slice(1, 3).unwrap();
    assert_eq!(slice.len(), 1);
    assert_eq!(slice[0].content(), "é");
    // the compilable content of a slice is the cut range, whatever the policy
    let slice = text
        .parts_slice_with_explicit_policy(4, 9, PartsSliceElaborationPolicy::DontTakeBorderFixedParts)
        .unwrap();
    let cut = CompilableText::new(slice);
    assert_eq!(cut.compilable_content(), "lowö");
    assert_eq!(cut.content(), "lo<f>wö");
}

#[test]
fn slice_beyond_content_is_an_overflow() {
    let text = CompilableText::new(vec![CompilableTextPart::new_compilable(
        String::from("abc"),
        ModifiersBucket::Nothing,
    )]);
    match text.parts_slice(1, 10) {
        Err(CompilableError::ContentOverflow(content, start, end)) => {
            assert_eq!(content, "abc");
            assert_eq!(start, 1);
            assert_eq!(end, 10);
        }
        _ => panic!("an overflow was expected"),
    }
    let error = CompilationError::from_compilable_error(CompilableError::ContentOverflow(String::from("abc"), 1, 10));
    assert!(matches!(error, CompilationError::CompilableError(CompilableError::ContentOverflow(_, 1, 10))));
}

#[test]
fn ends_positions_of_compilable_parts() {
    let text = CompilableText::new(vec![
        CompilableTextPart::new_compilable(String::from("ab"), ModifiersBucket::Nothing),
        CompilableTextPart::new_fixed(String::from("x")),
        CompilableTextPart::new_compilable(String::from("é"), ModifiersBucket::Nothing),
    ]);
    let (content, ends) = text.compilable_content_with_ends_positions();
    assert_eq!(content, "abé");
    assert_eq!(ends, vec![2, 4]);
}

#[test]
fn rules_search_with_the_regex_engine() {
    assert!(CompiledRegex::new("(").is_none());
    assert!(ReplacementRule::try_new(String::from("("), vec![]).is_none());
    assert_eq!(CompiledRegex::new(r"b(\d)?").unwrap().pattern(), r"b(\d)?");
    let rule = ReplacementRule::new(
        String::from(r"b(\d)?"),
        vec![
            ReplacementRuleReplacerPart::Fixed(FixedReplacementRuleReplacerPart::new(String::from("["))),
            ReplacementRuleReplacerPart::SingleCaptureGroup(SingleCaptureGroupReplacementRuleReplacerPart::new(
                1,
                Vec::new(),
                ModifiersBucket::Nothing,
            )),
            ReplacementRuleReplacerPart::Fixed(FixedReplacementRuleReplacerPart::new(String::from("]"))),
        ],
    );
    assert_eq!(rule.search_pattern(), r"b(\d)?");
    assert_eq!(rule.find_iter("ab1cb"), vec![(1, 3), (4, 5)]);
    assert!(rule.is_match("xb"));
    assert!(!rule.is_match("xyz"));
    let text = CompilableText::new(vec![CompilableTextPart::new_compilable(String::from("ab12"), ModifiersBucket::Nothing)]);
    let outcome = rule
        .compile(&text, &OutputFormat::Html, &CompilationConfiguration::default(), &CompilationConfigurationOverLay::default())
        .unwrap();
    assert_eq!(outcome.content(), "[1]");
    // the second match has no group 1: taking it is an elaboration error
    let text = CompilableText::new(vec![CompilableTextPart::new_compilable(String::from("b1b"), ModifiersBucket::Nothing)]);
    assert!(matches!(
        rule.compile(&text, &OutputFormat::Html, &CompilationConfiguration::default(), &CompilationConfigurationOverLay::default()),
        Err(CompilationError::ElaborationError)
    ));
}

#[test]
fn replacements_apply_in_order() {
    let replacements = vec![
        (CompiledRegex::new("a").unwrap(), String::from("b")),
        (CompiledRegex::new("b").unwrap(), String::from("c")),
    ];
    assert_eq!(replace("ab", &replacements), "cc");
    assert_eq!(replace("xyz", &Vec::new()), "xyz");
    let expansion = vec![(CompiledRegex::new(r"(\w)=(\w)").unwrap(), String::from("$2=$1"))];
    assert_eq!(replace("a=b, c=d", &expansion), "b=a, d=c");
}

#[test]
fn bucket_extension_selects_either() {
    let a = Bucket::Only(vec![String::from("x")]);
    let b = Bucket::Only(vec![String::from("y")]);
    let c = a.extend(&b);
    assert!(c.contains(&String::from("x")));
    assert!(c.contains(&String::from("y")));
    assert!(!c.contains(&String::from("z")));
    assert!(Bucket::Nothing.extend(&Bucket::All).is_all());
    assert!(!Bucket::Nothing.extend(&Bucket::Nothing).contains(&String::from("x")));
}

#[test]
fn compilation_result_content_concatenates_parts() {
    let mut result = CompilationResult::new_fixed(String::from("<p>"));
    result.add_compilable_part(String::from("text"), Bucket::Nothing);
    let mut other = CompilationResult::new_fixed(String::from("</p>"));
    result.append_compilation_result(&mut other);
    assert_eq!(result.content(), "<p>text</p>");
    assert_eq!(other.content(), "");
    assert_eq!(CompilationResult::new_empty().content(), "");
}

#[test]
fn bibliography_positions_by_key() {
    let record = |t: &str| BibliographyRecord::new(String::from(t), None, Some(2000), None, None);
    let bibliography = Bibliography::new(
        String::from("Bibliography"),
        vec![(String::from("alpha"), record("A")), (String::from("beta"), record("B"))],
    );
    assert_eq!(bibliography.get_n_from_key("alpha"), Some(1));
    assert_eq!(bibliography.get_n_from_key("beta"), Some(2));
    assert_eq!(bibliography.get_n_from_key("gamma"), None);
}

#[test]
fn compilation_outcome_content() {
    assert_eq!(CompilationOutcome::empty().content(), "");
    let mut outcome = CompilationOutcome::from(String::from("abc"));
    outcome.content_mut().push('d');
    assert_eq!(outcome.content(), "abcd");
}

#[test]
fn left_border_fixed_parts_keep_their_order() {
    let text = CompilableText::new(vec![
        CompilableTextPart::new_fixed(String::from("A")),
        CompilableTextPart::new_fixed(String::from("B")),
        CompilableTextPart::new_compilable(String::from("xy"), ModifiersBucket::Nothing),
    ]);
    let slice = text.parts_slice_with_explicit_policy(0, 2, PartsSliceElaborationPolicy::TakeLeftFixedParts).unwrap();
    let contents: Vec<&str> = slice.iter().map(|p| p.content().as_str()).collect();
    assert_eq!(contents, vec!["A", "B", "xy"]);
}

#[test]
fn overflow_whatever_the_start() {
    let text = CompilableText::new(vec![CompilableTextPart::new_compilable(String::from("abc"), ModifiersBucket::Nothing)]);
    assert!(matches!(text.parts_slice(9, 5), Err(CompilableError::ContentOverflow(_, 9, 5))));
}

#[test]
fn reversed_ranges_that_cut_nothing() {
    let text = CompilableText::new(vec![CompilableTextPart::new_compilable(String::from("abc"), ModifiersBucket::Nothing)]);
    assert_eq!(text.parts_slice(3, 1).unwrap().len(), 0);

    let text = CompilableText::new(vec![
        CompilableTextPart::new_compilable(String::from("ab"), ModifiersBucket::Nothing),
        CompilableTextPart::new_fixed(String::from("x")),
        CompilableTextPart::new_compilable(String::from("cd"), ModifiersBucket::Nothing),
    ]);
    let slice = text.parts_slice(3, 2).unwrap();
    assert_eq!(slice.len(), 1);
    assert_eq!(slice[0].content(), &String::from("x"));
    let slice = text
        .parts_slice_with_explicit_policy(3, 2, PartsSliceElaborationPolicy::DontTakeBorderFixedParts)
        .unwrap();
    assert_eq!(slice.len(), 0);
}

#[test]
fn bibliography_sorts_and_keeps_the_last_record_of_a_key() {
    let record = |t: &str| BibliographyRecord::new(String::from(t), None, None, None, None);
    let bibliography = Bibliography::new(
        String::from("Bibliography"),
        vec![
            (String::from("gamma"), record("G")),
            (String::from("alpha"), record("A1")),
            (String::from("beta"), record("B")),
            (String::from("alpha"), record("A2")),
        ],
    );
    let keys: Vec<&String> = bibliography.content().iter().map(|e| &e.0).collect();
    assert_eq!(keys, vec!["alpha", "beta", "gamma"]);
    assert_eq!(bibliography.content()[0].1.title, "A2");
    assert_eq!(bibliography.get_n_from_key("gamma"), Some(3));
    assert_eq!(bibliography.get_reference_from_key("beta"), Some(String::from("#bibliography-beta")));
    assert_eq!(bibliography.get_reference_from_key("delta"), None);
}
