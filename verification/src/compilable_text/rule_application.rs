//! Applying a compilation rule to a text: the compilable parts that are
//! compatible with the rule are searched as one content, and every match,
//! with the fixed parts it spans, is replaced by what the rule makes of it.

use vstd::prelude::*;
use vstd::utf8::*;
use crate::compilable_text::{
    CompilableText, CompilableTextView, fragment, parts_view, compilable_text_part::{
        CompilableTextPart, CompilableTextPartType, PartTypeView, PartView,
    },
};
use crate::compiler::compilation_configuration::CompilationConfiguration;
use crate::compiler::compilation_configuration::compilation_configuration_overlay::CompilationConfigurationOverLay;
use crate::compiler::compilation_error::CompilationError;
use crate::compiler::compilation_rule::{CompilationRule, rule_compile_spec};
use crate::output_format::OutputFormat;
use crate::regex_engine::{are_successive_spans, is_valid_span, regex_find_all};
use crate::text_bytes::{byte_len, lemma_encode_concat, lemma_prefix_boundary, str_byte_len, str_byte_slice};

verus! {

broadcast use vstd::utf8::encode_utf8_valid_utf8, vstd::utf8::encode_utf8_decode_utf8;

/// The part is compilable and not incompatible with the rule `id`.
pub open spec fn is_compatible(p: PartView, id: Seq<char>) -> bool {
    match p.part_type {
        PartTypeView::Compilable(b) => !b.contains(id),
        PartTypeView::Fixed => false,
    }
}

/// Concatenation of the contents of the parts compatible with `id`.
pub open spec fn compatible_chars(parts: Seq<PartView>, id: Seq<char>) -> Seq<char>
    decreases parts.len(),
{
    if parts.len() == 0 {
        Seq::empty()
    } else {
        compatible_chars(parts.drop_last(), id) + (if is_compatible(parts.last(), id) {
            parts.last().content
        } else {
            Seq::empty()
        })
    }
}

/// Byte offset, in the compatible content, after the first `n` parts.
pub open spec fn compatible_cursor(parts: Seq<PartView>, id: Seq<char>, n: int) -> int {
    byte_len(compatible_chars(parts.take(n), id))
}

pub proof fn lemma_compatible_split(parts: Seq<PartView>, id: Seq<char>, n: int)
    requires
        0 <= n <= parts.len(),
    ensures
        compatible_chars(parts, id) == compatible_chars(parts.take(n), id) + compatible_chars(
            parts.skip(n),
            id,
        ),
    decreases parts.len(),
{
    if n == parts.len() {
        assert(parts.take(n) =~= parts);
        assert(parts.skip(n) =~= Seq::<PartView>::empty());
        assert(compatible_chars(parts, id) + Seq::<char>::empty() =~= compatible_chars(parts, id));
    } else {
        let init = parts.drop_last();
        lemma_compatible_split(init, id, n);
        assert(init.take(n) =~= parts.take(n));
        assert(parts.skip(n).drop_last() =~= init.skip(n));
        assert(parts.skip(n).last() == parts.last());
        assert(compatible_chars(parts, id) =~= compatible_chars(parts.take(n), id)
            + compatible_chars(parts.skip(n), id));
    }
}

pub proof fn lemma_compatible_step(parts: Seq<PartView>, id: Seq<char>, i: int)
    requires
        0 <= i < parts.len(),
    ensures
        compatible_chars(parts.take(i + 1), id) == compatible_chars(parts.take(i), id) + (
        if is_compatible(parts[i], id) {
            parts[i].content
        } else {
            Seq::empty()
        }),
        compatible_cursor(parts, id, i + 1) == compatible_cursor(parts, id, i) + (
        if is_compatible(parts[i], id) {
            byte_len(parts[i].content)
        } else {
            0
        }),
{
    assert(parts.take(i + 1).drop_last() =~= parts.take(i));
    assert(parts.take(i + 1).last() == parts[i]);
    if is_compatible(parts[i], id) {
        lemma_encode_concat(compatible_chars(parts.take(i), id), parts[i].content);
    } else {
        assert(compatible_chars(parts.take(i), id) + Seq::<char>::empty() =~= compatible_chars(
            parts.take(i),
            id,
        ));
    }
}

pub proof fn lemma_compatible_boundary(parts: Seq<PartView>, id: Seq<char>, n: int)
    requires
        0 <= n <= parts.len(),
    ensures
        is_char_boundary(encode_utf8(compatible_chars(parts, id)), compatible_cursor(parts, id, n)),
        0 <= compatible_cursor(parts, id, n) <= byte_len(compatible_chars(parts, id)),
{
    lemma_compatible_split(parts, id, n);
    lemma_prefix_boundary(compatible_chars(parts.take(n), id), compatible_chars(parts.skip(n), id));
    lemma_encode_concat(compatible_chars(parts.take(n), id), compatible_chars(parts.skip(n), id));
}

/// The cursor never decreases.
pub proof fn lemma_compatible_cursor_monotone(parts: Seq<PartView>, id: Seq<char>, i: int, j: int)
    requires
        0 <= i <= j <= parts.len(),
    ensures
        compatible_cursor(parts, id, i) <= compatible_cursor(parts, id, j),
    decreases j - i,
{
    if i < j {
        lemma_compatible_cursor_monotone(parts, id, i, j - 1);
        lemma_compatible_step(parts, id, j - 1);
    }
}

/// What a rule application is about.
pub struct RuleContext<R> {
    pub rule: R,
    pub format: OutputFormat,
    pub configuration: CompilationConfiguration,
    pub overlay: CompilationConfigurationOverLay,
    pub parts: Seq<PartView>,
    pub id: Seq<char>,
    pub matches: Seq<(usize, usize)>,
}

/// State of a rule application: the next part, where the unprocessed
/// compatible content begins, the current match (the one before `next_match`)
/// and whether its start has been met, the parts gathered for it, and the
/// parts produced so far.
pub struct RuleScan {
    pub pidx: int,
    pub spos: int,
    pub next_match: int,
    pub current: Option<(usize, usize)>,
    pub found: bool,
    pub matched: Seq<PartView>,
    pub compiled: Seq<PartView>,
}

/// The parts produced by the rule application from the state `st` on, or
/// the error of the first match on which the rule fails.
pub open spec fn rule_run<R: CompilationRule>(ctx: RuleContext<R>, st: RuleScan) -> Result<
    Seq<PartView>,
    CompilationError,
>
    decreases ctx.matches.len() - st.next_match, (if st.current is Some {
        1int
    } else {
        0int
    }), ctx.parts.len() - st.pidx,
{
    if st.pidx < 0 || st.pidx >= ctx.parts.len() || st.next_match < 0 || st.next_match
        > ctx.matches.len() {
        Ok(st.compiled)
    } else {
        let p = ctx.parts[st.pidx];
        let next = RuleScan { pidx: st.pidx + 1, ..st };
        match p.part_type {
            PartTypeView::Fixed => {
                if st.current is Some && st.found {
                    rule_run(ctx, RuleScan { matched: st.matched.push(p), ..next })
                } else {
                    rule_run(ctx, RuleScan { compiled: st.compiled.push(p), ..next })
                }
            },
            PartTypeView::Compilable(b) => {
                if b.contains(ctx.id) {
                    rule_run(ctx, RuleScan { compiled: st.compiled.push(p), ..next })
                } else {
                    let bytes = encode_utf8(compatible_chars(ctx.parts, ctx.id));
                    let epos = compatible_cursor(ctx.parts, ctx.id, st.pidx + 1);
                    match st.current {
                        Some(m) => {
                            let ms = m.0 as int;
                            let me = m.1 as int;
                            if !st.found && epos <= ms {
                                rule_run(
                                    ctx,
                                    RuleScan {
                                        spos: epos,
                                        compiled: st.compiled.push(
                                            fragment(bytes, st.spos, epos, p.part_type),
                                        ),
                                        ..next
                                    },
                                )
                            } else {
                                let starts_here = !st.found && st.spos <= ms && ms < epos;
                                let compiled1 = if starts_here && st.spos < ms {
                                    st.compiled.push(fragment(bytes, st.spos, ms, p.part_type))
                                } else {
                                    st.compiled
                                };
                                let matched1 = if starts_here {
                                    st.matched.push(
                                        fragment(
                                            bytes,
                                            ms,
                                            if epos <= me {
                                                epos
                                            } else {
                                                me
                                            },
                                            p.part_type,
                                        ),
                                    )
                                } else {
                                    st.matched
                                };
                                let spos1 = if starts_here {
                                    ms
                                } else {
                                    st.spos
                                };
                                if me <= epos {
                                    let matched2 = if st.found {
                                        matched1.push(fragment(bytes, spos1, me, p.part_type))
                                    } else {
                                        matched1
                                    };
                                    match rule_compile_spec(
                                        ctx.rule,
                                        CompilableTextView { parts: matched2, nuid: None },
                                        ctx.format,
                                        ctx.configuration,
                                        ctx.overlay,
                                    ) {
                                        Err(e) => Err(e),
                                        Ok(out) => {
                                            let more = st.next_match < ctx.matches.len();
                                            rule_run(
                                                ctx,
                                                RuleScan {
                                                    pidx: st.pidx,
                                                    spos: me,
                                                    next_match: if more {
                                                        st.next_match + 1
                                                    } else {
                                                        st.next_match
                                                    },
                                                    current: if more {
                                                        Some(ctx.matches[st.next_match])
                                                    } else {
                                                        None
                                                    },
                                                    found: false,
                                                    matched: Seq::empty(),
                                                    compiled: compiled1 + out,
                                                },
                                            )
                                        },
                                    }
                                } else {
                                    let matched2 = if st.found {
                                        matched1.push(fragment(bytes, spos1, epos, p.part_type))
                                    } else {
                                        matched1
                                    };
                                    rule_run(
                                        ctx,
                                        RuleScan {
                                            spos: epos,
                                            found: true,
                                            matched: matched2,
                                            compiled: compiled1,
                                            ..next
                                        },
                                    )
                                }
                            }
                        },
                        None => {
                            let compiled1 = if st.spos < epos {
                                st.compiled.push(fragment(bytes, st.spos, epos, p.part_type))
                            } else {
                                st.compiled
                            };
                            rule_run(ctx, RuleScan { spos: epos, compiled: compiled1, ..next })
                        },
                    }
                }
            },
        }
    }
}

/// The parts of a text after applying `rule` (identified by `id`), or the
/// error of the first match on which the rule fails.  Without matches the
/// text is unchanged.
pub open spec fn apply_rule_spec<R: CompilationRule>(
    rule: R,
    id: Seq<char>,
    format: OutputFormat,
    configuration: CompilationConfiguration,
    overlay: CompilationConfigurationOverLay,
    parts: Seq<PartView>,
) -> Result<Seq<PartView>, CompilationError> {
    let matches = regex_find_all(rule.spec_search_pattern(), compatible_chars(parts, id));
    if matches.len() == 0 {
        Ok(parts)
    } else {
        rule_run(
            RuleContext { rule, format, configuration, overlay, parts, id, matches },
            RuleScan {
                pidx: 0,
                spos: 0,
                next_match: 1,
                current: Some(matches[0]),
                found: false,
                matched: Seq::empty(),
                compiled: Seq::empty(),
            },
        )
    }
}

/// The parts produced so far stay at the front of the result: a rule run only
/// ever appends.  A part incompatible with the rule that the run has still to
/// visit is appended unchanged.
proof fn lemma_rule_run_appends<R: CompilationRule>(ctx: RuleContext<R>, st: RuleScan, i: int)
    requires
        rule_run(ctx, st) is Ok,
    ensures
        st.compiled.len() <= rule_run(ctx, st)->Ok_0.len(),
        rule_run(ctx, st)->Ok_0.take(st.compiled.len() as int) == st.compiled,
        0 <= st.pidx <= i < ctx.parts.len() && 0 <= st.next_match <= ctx.matches.len() && (
        ctx.parts[i].part_type matches PartTypeView::Compilable(b) && b.contains(ctx.id))
            ==> rule_run(ctx, st)->Ok_0.contains(ctx.parts[i]),
    decreases ctx.matches.len() - st.next_match, (if st.current is Some {
        1int
    } else {
        0int
    }), ctx.parts.len() - st.pidx,
{
    let r = rule_run(ctx, st)->Ok_0;
    if st.pidx < 0 || st.pidx >= ctx.parts.len() || st.next_match < 0 || st.next_match
        > ctx.matches.len() {
        assert(r.take(st.compiled.len() as int) =~= st.compiled);
    } else {
        let p = ctx.parts[st.pidx];
        let next = RuleScan { pidx: st.pidx + 1, ..st };
        let nst: RuleScan;
        match p.part_type {
            PartTypeView::Fixed => {
                if st.current is Some && st.found {
                    nst = RuleScan { matched: st.matched.push(p), ..next };
                } else {
                    nst = RuleScan { compiled: st.compiled.push(p), ..next };
                }
                lemma_rule_run_appends(ctx, nst, i);
            },
            PartTypeView::Compilable(b) => {
                if b.contains(ctx.id) {
                    nst = RuleScan { compiled: st.compiled.push(p), ..next };
                    lemma_rule_run_appends(ctx, nst, i);
                    if i == st.pidx {
                        assert(r[st.compiled.len() as int] == p) by {
                            assert(r.take(nst.compiled.len() as int)[st.compiled.len() as int]
                                == nst.compiled[st.compiled.len() as int]);
                        }
                    }
                } else {
                    let bytes = encode_utf8(compatible_chars(ctx.parts, ctx.id));
                    let epos = compatible_cursor(ctx.parts, ctx.id, st.pidx + 1);
                    match st.current {
                        Some(m) => {
                            let ms = m.0 as int;
                            let me = m.1 as int;
                            if !st.found && epos <= ms {
                                nst = RuleScan {
                                    spos: epos,
                                    compiled: st.compiled.push(
                                        fragment(bytes, st.spos, epos, p.part_type),
                                    ),
                                    ..next
                                };
                                lemma_rule_run_appends(ctx, nst, i);
                            } else {
                                let starts_here = !st.found && st.spos <= ms && ms < epos;
                                let compiled1 = if starts_here && st.spos < ms {
                                    st.compiled.push(fragment(bytes, st.spos, ms, p.part_type))
                                } else {
                                    st.compiled
                                };
                                let matched1 = if starts_here {
                                    st.matched.push(
                                        fragment(
                                            bytes,
                                            ms,
                                            if epos <= me {
                                                epos
                                            } else {
                                                me
                                            },
                                            p.part_type,
                                        ),
                                    )
                                } else {
                                    st.matched
                                };
                                let spos1 = if starts_here {
                                    ms
                                } else {
                                    st.spos
                                };
                                if me <= epos {
                                    let matched2 = if st.found {
                                        matched1.push(fragment(bytes, spos1, me, p.part_type))
                                    } else {
                                        matched1
                                    };
                                    let out = rule_compile_spec(
                                        ctx.rule,
                                        CompilableTextView { parts: matched2, nuid: None },
                                        ctx.format,
                                        ctx.configuration,
                                        ctx.overlay,
                                    )->Ok_0;
                                    let more = st.next_match < ctx.matches.len();
                                    nst = RuleScan {
                                        pidx: st.pidx,
                                        spos: me,
                                        next_match: if more {
                                            st.next_match + 1
                                        } else {
                                            st.next_match
                                        },
                                        current: if more {
                                            Some(ctx.matches[st.next_match])
                                        } else {
                                            None
                                        },
                                        found: false,
                                        matched: Seq::empty(),
                                        compiled: compiled1 + out,
                                    };
                                    lemma_rule_run_appends(ctx, nst, i);
                                    assert(nst.compiled.take(st.compiled.len() as int) =~= st.compiled);
                                } else {
                                    let matched2 = if st.found {
                                        matched1.push(fragment(bytes, spos1, epos, p.part_type))
                                    } else {
                                        matched1
                                    };
                                    nst = RuleScan {
                                        spos: epos,
                                        found: true,
                                        matched: matched2,
                                        compiled: compiled1,
                                        ..next
                                    };
                                    lemma_rule_run_appends(ctx, nst, i);
                                }
                            }
                        },
                        None => {
                            let compiled1 = if st.spos < epos {
                                st.compiled.push(fragment(bytes, st.spos, epos, p.part_type))
                            } else {
                                st.compiled
                            };
                            nst = RuleScan { spos: epos, compiled: compiled1, ..next };
                            lemma_rule_run_appends(ctx, nst, i);
                        },
                    }
                }
            },
        }
        assert(r == rule_run(ctx, nst)->Ok_0);
        assert(r.take(st.compiled.len() as int) =~= r.take(nst.compiled.len() as int).take(
            st.compiled.len() as int,
        ));
        assert(nst.compiled.take(st.compiled.len() as int) =~= st.compiled);
    }
}

/// A rule leaves in the text, unchanged, every compilable part that is
/// incompatible with it.
pub proof fn lemma_incompatible_parts_kept<R: CompilationRule>(
    rule: R,
    id: Seq<char>,
    format: OutputFormat,
    configuration: CompilationConfiguration,
    overlay: CompilationConfigurationOverLay,
    parts: Seq<PartView>,
    i: int,
)
    requires
        0 <= i < parts.len(),
        parts[i].part_type matches PartTypeView::Compilable(b) && b.contains(id),
        apply_rule_spec(rule, id, format, configuration, overlay, parts) is Ok,
    ensures
        apply_rule_spec(rule, id, format, configuration, overlay, parts)->Ok_0.contains(parts[i]),
{
    let matches = regex_find_all(rule.spec_search_pattern(), compatible_chars(parts, id));
    if matches.len() != 0 {
        let ctx = RuleContext { rule, format, configuration, overlay, parts, id, matches };
        let st = RuleScan {
            pidx: 0,
            spos: 0,
            next_match: 1,
            current: Some(matches[0]),
            found: false,
            matched: Seq::empty(),
            compiled: Seq::empty(),
        };
        lemma_rule_run_appends(ctx, st, i);
    } else {
        assert(parts[i] == parts[i]);
    }
}

/// A rule whose search pattern matches nothing in the compatible content
/// leaves the text as it is.
pub proof fn lemma_rule_without_match_keeps_text<R: CompilationRule>(
    rule: R,
    id: Seq<char>,
    format: OutputFormat,
    configuration: CompilationConfiguration,
    overlay: CompilationConfigurationOverLay,
    parts: Seq<PartView>,
)
    requires
        regex_find_all(rule.spec_search_pattern(), compatible_chars(parts, id)).len() == 0,
    ensures
        apply_rule_spec(rule, id, format, configuration, overlay, parts) == Ok::<Seq<PartView>, CompilationError>(parts),
{
}

/// What a rule makes of the content `bytes` of one compilable part of kind
/// `t`, from byte `from` on, given the matches still to handle: the text
/// between two matches stays as a part of kind `t`, and each match is
/// replaced by what the rule makes of it; the error of the first match on
/// which the rule fails.
pub open spec fn single_part_output<R: CompilationRule>(
    rule: R,
    format: OutputFormat,
    configuration: CompilationConfiguration,
    overlay: CompilationConfigurationOverLay,
    bytes: Seq<u8>,
    t: PartTypeView,
    matches: Seq<(usize, usize)>,
    from: int,
) -> Result<Seq<PartView>, CompilationError>
    decreases matches.len(),
{
    if matches.len() == 0 {
        Ok(
            if from < bytes.len() {
                seq![fragment(bytes, from, bytes.len() as int, t)]
            } else {
                Seq::empty()
            },
        )
    } else {
        let m = matches[0];
        let gap = if from < m.0 {
            seq![fragment(bytes, from, m.0 as int, t)]
        } else {
            Seq::empty()
        };
        match rule_compile_spec(
            rule,
            CompilableTextView { parts: seq![fragment(bytes, m.0 as int, m.1 as int, t)], nuid: None },
            format,
            configuration,
            overlay,
        ) {
            Err(e) => Err(e),
            Ok(out) => match single_part_output(
                rule,
                format,
                configuration,
                overlay,
                bytes,
                t,
                matches.drop_first(),
                m.1 as int,
            ) {
                Err(e) => Err(e),
                Ok(rest) => Ok(gap + out + rest),
            },
        }
    }
}

/// The matches lie in order inside the content, each starting before its end.
pub open spec fn matches_inside(matches: Seq<(usize, usize)>, content: Seq<char>) -> bool {
    &&& are_successive_spans(matches, content)
    &&& forall|i: int| 0 <= i < matches.len() ==> (#[trigger] matches[i]).0 < byte_len(content)
}

proof fn lemma_single_part_run<R: CompilationRule>(ctx: RuleContext<R>, st: RuleScan)
    requires
        ctx.parts.len() == 1,
        is_compatible(ctx.parts[0], ctx.id),
        matches_inside(ctx.matches, ctx.parts[0].content),
        st.pidx == 0,
        !st.found,
        st.matched == Seq::<PartView>::empty(),
        1 <= st.next_match <= ctx.matches.len(),
        st.current == Some(ctx.matches[st.next_match - 1]),
        0 <= st.spos <= ctx.matches[st.next_match - 1].0,
    ensures
        rule_run(ctx, st) == match single_part_output(
            ctx.rule,
            ctx.format,
            ctx.configuration,
            ctx.overlay,
            encode_utf8(ctx.parts[0].content),
            ctx.parts[0].part_type,
            ctx.matches.skip(st.next_match - 1),
            st.spos,
        ) {
            Ok(r) => Ok::<Seq<PartView>, CompilationError>(st.compiled + r),
            Err(e) => Err(e),
        },
    decreases ctx.matches.len() - st.next_match,
{
    let p = ctx.parts[0];
    let bytes = encode_utf8(p.content);
    let t = p.part_type;
    let j = st.next_match;
    let m = ctx.matches[j - 1];
    assert(ctx.parts.drop_last() =~= Seq::<PartView>::empty());
    assert(compatible_chars(Seq::<PartView>::empty(), ctx.id) == Seq::<char>::empty());
    assert(Seq::<char>::empty() + p.content =~= p.content);
    assert(compatible_chars(ctx.parts, ctx.id) == p.content);
    assert(ctx.parts.take(1) =~= ctx.parts);
    assert(compatible_cursor(ctx.parts, ctx.id, 1) == bytes.len());
    assert(is_valid_span(ctx.matches[j - 1], p.content));
    let rest = ctx.matches.skip(j - 1);
    assert(rest[0] == m);
    assert(rest.drop_first() =~= ctx.matches.skip(j));
    let gap = if st.spos < m.0 {
        seq![fragment(bytes, st.spos, m.0 as int, t)]
    } else {
        Seq::empty()
    };
    let compiled1 = if st.spos < m.0 {
        st.compiled.push(fragment(bytes, st.spos, m.0 as int, t))
    } else {
        st.compiled
    };
    assert(compiled1 =~= st.compiled + gap);
    let text = CompilableTextView { parts: seq![fragment(bytes, m.0 as int, m.1 as int, t)], nuid: None };
    assert(seq![fragment(bytes, m.0 as int, m.1 as int, t)] =~= Seq::<PartView>::empty().push(
        fragment(bytes, m.0 as int, m.1 as int, t),
    ));
    match rule_compile_spec(ctx.rule, text, ctx.format, ctx.configuration, ctx.overlay) {
        Err(e) => {},
        Ok(out) => {
            let more = j < ctx.matches.len();
            let nst = RuleScan {
                pidx: 0,
                spos: m.1 as int,
                next_match: if more {
                    j + 1
                } else {
                    j
                },
                current: if more {
                    Some(ctx.matches[j])
                } else {
                    None
                },
                found: false,
                matched: Seq::empty(),
                compiled: compiled1 + out,
            };
            assert(rule_run(ctx, st) == rule_run(ctx, nst));
            if more {
                assert(m.1 <= ctx.matches[j].0);
                lemma_single_part_run(ctx, nst);
                match single_part_output(
                    ctx.rule,
                    ctx.format,
                    ctx.configuration,
                    ctx.overlay,
                    bytes,
                    t,
                    ctx.matches.skip(j),
                    m.1 as int,
                ) {
                    Ok(r) => {
                        assert(compiled1 + out + r =~= st.compiled + (gap + out + r));
                    },
                    Err(e) => {},
                }
            } else {
                assert(ctx.matches.skip(j) =~= Seq::<(usize, usize)>::empty());
                let tail = if m.1 < bytes.len() {
                    seq![fragment(bytes, m.1 as int, bytes.len() as int, t)]
                } else {
                    Seq::<PartView>::empty()
                };
                let fst = RuleScan { pidx: 1, spos: bytes.len() as int, ..nst };
                let last = if m.1 < bytes.len() {
                    (compiled1 + out).push(fragment(bytes, m.1 as int, bytes.len() as int, t))
                } else {
                    compiled1 + out
                };
                assert(rule_run(ctx, nst) == rule_run(ctx, RuleScan { compiled: last, ..fst }));
                assert(last =~= st.compiled + (gap + out + tail));
            }
        },
    }
}

/// A rule applied to a text of one compatible compilable part, whose search
/// pattern matches in it: the text between the matches stays, each match is
/// replaced by what the rule makes of it, and the error, if any, is that of
/// the first match on which the rule fails.
pub proof fn lemma_single_part_rule<R: CompilationRule>(
    rule: R,
    id: Seq<char>,
    format: OutputFormat,
    configuration: CompilationConfiguration,
    overlay: CompilationConfigurationOverLay,
    p: PartView,
)
    requires
        is_compatible(p, id),
        regex_find_all(rule.spec_search_pattern(), p.content).len() > 0,
        matches_inside(regex_find_all(rule.spec_search_pattern(), p.content), p.content),
    ensures
        apply_rule_spec(rule, id, format, configuration, overlay, seq![p]) == single_part_output(
            rule,
            format,
            configuration,
            overlay,
            encode_utf8(p.content),
            p.part_type,
            regex_find_all(rule.spec_search_pattern(), p.content),
            0,
        ),
{
    let parts = seq![p];
    assert(parts.drop_last() =~= Seq::<PartView>::empty());
    assert(compatible_chars(Seq::<PartView>::empty(), id) == Seq::<char>::empty());
    assert(Seq::<char>::empty() + p.content =~= p.content);
    assert(compatible_chars(parts, id) == p.content);
    let matches = regex_find_all(rule.spec_search_pattern(), p.content);
    let ctx = RuleContext { rule, format, configuration, overlay, parts, id, matches };
    let st = RuleScan {
        pidx: 0,
        spos: 0,
        next_match: 1,
        current: Some(matches[0]),
        found: false,
        matched: Seq::empty(),
        compiled: Seq::empty(),
    };
    lemma_single_part_run(ctx, st);
    assert(matches.skip(0) =~= matches);
    match single_part_output(
        rule,
        format,
        configuration,
        overlay,
        encode_utf8(p.content),
        p.part_type,
        matches,
        0,
    ) {
        Ok(r) => {
            assert(Seq::<PartView>::empty() + r =~= r);
        },
        Err(e) => {},
    }
}

/// The part of kind `t` holding the bytes `[a, b)` of `content`.
fn cut(content: &String, a: usize, b: usize, t: &CompilableTextPartType) -> (r: CompilableTextPart)
    requires
        a <= b <= encode_utf8(content@).len(),
        is_char_boundary(encode_utf8(content@), a as int),
        is_char_boundary(encode_utf8(content@), b as int),
    ensures
        r@ == fragment(encode_utf8(content@), a as int, b as int, t@),
{
    let piece = str_byte_slice(content.as_str(), a, b);
    CompilableTextPart::new(String::from_str(piece), t.clone())
}

/// The concatenation of the parts compatible with `id`.
fn compatible_content(parts: &Vec<CompilableTextPart>, id: &String) -> (r: String)
    ensures
        r@ == compatible_chars(parts_view(parts@), id@),
{
    let ghost pv = parts_view(parts@);
    let mut content = String::new();
    let mut i: usize = 0;
    while i < parts.len()
        invariant
            i <= parts.len(),
            pv == parts_view(parts@),
            content@ == compatible_chars(pv.take(i as int), id@),
        decreases parts.len() - i,
    {
        proof {
            lemma_compatible_step(pv, id@, i as int);
        }
        match parts[i].part_type() {
            CompilableTextPartType::Fixed => {
                assert(content@ + Seq::<char>::empty() =~= content@);
            },
            CompilableTextPartType::Compilable { incompatible_modifiers } => {
                if incompatible_modifiers.contains(id) {
                    assert(content@ + Seq::<char>::empty() =~= content@);
                } else {
                    content.append(parts[i].content().as_str());
                }
            },
        }
        i = i + 1;
    }
    assert(pv.take(parts.len() as int) =~= pv);
    content
}

impl CompilableText {
    /// Applies `rule` (identified in the codex by `rule_identifier`): every
    /// match of its search pattern in the content of the compatible compilable
    /// parts is replaced, together with the fixed parts it spans, by the parts
    /// that the rule makes of it.  On failure the text is left unchanged.
    pub fn compile_with_compilation_rule<R: CompilationRule>(
        &mut self,
        rule_identifier: &String,
        rule: &R,
        format: &OutputFormat,
        compilation_configuration: &CompilationConfiguration,
        compilation_configuration_overlay: &CompilationConfigurationOverLay,
    ) -> (r: Result<(), CompilationError>)
        requires
            rule.wf(),
        ensures
            r is Ok == apply_rule_spec(
                *rule,
                rule_identifier@,
                *format,
                *compilation_configuration,
                *compilation_configuration_overlay,
                old(self)@.parts,
            ) is Ok,
            r is Ok ==> apply_rule_spec(
                *rule,
                rule_identifier@,
                *format,
                *compilation_configuration,
                *compilation_configuration_overlay,
                old(self)@.parts,
            ) == Ok::<Seq<PartView>, CompilationError>(final(self)@.parts),
            r matches Err(e) ==> apply_rule_spec(
                *rule,
                rule_identifier@,
                *format,
                *compilation_configuration,
                *compilation_configuration_overlay,
                old(self)@.parts,
            ) == Err::<Seq<PartView>, CompilationError>(e),
            r is Err ==> final(self)@ == old(self)@,
            final(self)@.nuid == old(self)@.nuid,
    {
        let ghost parts = self@.parts;
        let ghost id = rule_identifier@;
        let compilable_content = compatible_content(self.parts(), rule_identifier);
        let content_len = str_byte_len(compilable_content.as_str());
        let matches = rule.find_iter(compilable_content.as_str());
        if matches.len() == 0 {
            return Ok(());
        }
        let ghost bytes = encode_utf8(compatible_chars(parts, id));
        let ghost ctx = RuleContext {
            rule: *rule,
            format: *format,
            configuration: *compilation_configuration,
            overlay: *compilation_configuration_overlay,
            parts,
            id,
            matches: matches@,
        };
        let ghost total = apply_rule_spec(
            *rule,
            id,
            *format,
            *compilation_configuration,
            *compilation_configuration_overlay,
            parts,
        );
        let n = self.parts().len();
        let mut pidx: usize = 0;
        let mut spos: usize = 0;
        let mut next_match: usize = 1;
        let mut current: Option<(usize, usize)> = Some(matches[0]);
        let mut found = false;
        let mut matched: Vec<CompilableTextPart> = Vec::new();
        let mut compiled: Vec<CompilableTextPart> = Vec::new();
        let mut part_start: usize = 0;
        proof {
            assert(parts_view(matched@) =~= Seq::<PartView>::empty());
            assert(parts_view(compiled@) =~= Seq::<PartView>::empty());
            assert(parts.take(0) =~= Seq::<PartView>::empty());
            lemma_compatible_boundary(parts, id, 0);
            if n > 0 {
                lemma_compatible_boundary(parts, id, 1int);
                lemma_compatible_cursor_monotone(parts, id, 0, 1);
            }
        }
        while pidx < n
            invariant
                n == parts.len(),
                pidx <= n,
                self@ == old(self)@,
                parts == self@.parts,
                id == rule_identifier@,
                rule.wf(),
                total == apply_rule_spec(
                    *rule,
                    id,
                    *format,
                    *compilation_configuration,
                    *compilation_configuration_overlay,
                    parts,
                ),
                bytes == encode_utf8(compatible_chars(parts, id)),
                compilable_content@ == compatible_chars(parts, id),
                content_len == byte_len(compatible_chars(parts, id)),
                ctx == (RuleContext {
                    rule: *rule,
                    format: *format,
                    configuration: *compilation_configuration,
                    overlay: *compilation_configuration_overlay,
                    parts,
                    id,
                    matches: matches@,
                }),
                matches@ == regex_find_all(rule.spec_search_pattern(), compilable_content@),
                are_successive_spans(matches@, compilable_content@),
                1 <= next_match <= matches.len(),
                current matches Some(c) ==> c == matches@[next_match - 1],
                current is None ==> next_match == matches.len(),
                part_start == compatible_cursor(parts, id, pidx as int),
                spos <= content_len,
                is_char_boundary(bytes, spos as int),
                pidx < n ==> spos <= compatible_cursor(parts, id, pidx + 1),
                current matches Some(c) ==> (!found ==> spos <= c.0),
                found ==> current is Some && spos == part_start,
                current matches Some(c) ==> (found ==> spos < c.1),
                rule_run(
                    ctx,
                    RuleScan {
                        pidx: pidx as int,
                        spos: spos as int,
                        next_match: next_match as int,
                        current,
                        found,
                        matched: parts_view(matched@),
                        compiled: parts_view(compiled@),
                    },
                ) == total,
            decreases matches.len() - next_match, (if current is Some {
                1int
            } else {
                0int
            }), n - pidx,
        {
            proof {
                lemma_compatible_step(parts, id, pidx as int);
                lemma_compatible_boundary(parts, id, pidx as int);
                lemma_compatible_boundary(parts, id, pidx + 1);
                if pidx + 2 <= n {
                    lemma_compatible_cursor_monotone(parts, id, pidx + 1, pidx + 2);
                }
            }
            let ghost st0 = RuleScan {
                pidx: pidx as int,
                spos: spos as int,
                next_match: next_match as int,
                current,
                found,
                matched: parts_view(matched@),
                compiled: parts_view(compiled@),
            };
            let ghost mv0 = parts_view(matched@);
            let ghost cv0 = parts_view(compiled@);
            let part = &self.parts()[pidx];
            assert(part@ == parts[pidx as int]);
            match part.part_type() {
                CompilableTextPartType::Fixed => {
                    if current.is_some() && found {
                        matched.push(part.clone());
                        assert(parts_view(matched@) =~= mv0.push(part@));
                    } else {
                        compiled.push(part.clone());
                        assert(parts_view(compiled@) =~= cv0.push(part@));
                    }
                    pidx = pidx + 1;
                },
                CompilableTextPartType::Compilable { incompatible_modifiers } => {
                    if incompatible_modifiers.contains(rule_identifier) {
                        compiled.push(part.clone());
                        assert(parts_view(compiled@) =~= cv0.push(part@));
                        pidx = pidx + 1;
                    } else {
                        let epos = part_start + str_byte_len(part.content().as_str());
                        match current {
                            Some((ms, me)) => {
                                if !found && epos <= ms {
                                    let piece = cut(&compilable_content, spos, epos, part.part_type());
                                    let ghost pv = piece@;
                                    compiled.push(piece);
                                    assert(parts_view(compiled@) =~= cv0.push(pv));
                                    spos = epos;
                                    part_start = epos;
                                    pidx = pidx + 1;
                                } else {
                                    let starts_here = !found && spos <= ms && ms < epos;
                                    if starts_here {
                                        if spos < ms {
                                            let piece = cut(&compilable_content, spos, ms, part.part_type());
                                            let ghost pv = piece@;
                                            compiled.push(piece);
                                            assert(parts_view(compiled@) =~= cv0.push(pv));
                                        }
                                        let b = if epos <= me {
                                            epos
                                        } else {
                                            me
                                        };
                                        let piece = cut(&compilable_content, ms, b, part.part_type());
                                        let ghost pv = piece@;
                                        matched.push(piece);
                                        assert(parts_view(matched@) =~= mv0.push(pv));
                                        spos = ms;
                                    }
                                    let ghost mv1 = parts_view(matched@);
                                    let ghost cv1 = parts_view(compiled@);
                                    if me <= epos {
                                        if found {
                                            let piece = cut(&compilable_content, spos, me, part.part_type());
                                            let ghost pv = piece@;
                                            matched.push(piece);
                                            assert(parts_view(matched@) =~= mv1.push(pv));
                                        }
                                        let text = CompilableText::new(matched);
                                        let outcome = rule.compile(
                                            &text,
                                            format,
                                            compilation_configuration,
                                            compilation_configuration_overlay,
                                        );
                                        match outcome {
                                            Err(e) => {
                                                return Err(e);
                                            },
                                            Ok(t) => {
                                                let mut out = t.into_parts();
                                                let ghost ov = parts_view(out@);
                                                compiled.append(&mut out);
                                                assert(parts_view(compiled@) =~= cv1 + ov);
                                            },
                                        }
                                        matched = Vec::new();
                                        assert(parts_view(matched@) =~= Seq::<PartView>::empty());
                                        spos = me;
                                        if next_match < matches.len() {
                                            current = Some(matches[next_match]);
                                            next_match = next_match + 1;
                                        } else {
                                            current = None;
                                        }
                                        found = false;
                                    } else {
                                        if found {
                                            let piece = cut(&compilable_content, spos, epos, part.part_type());
                                            let ghost pv = piece@;
                                            matched.push(piece);
                                            assert(parts_view(matched@) =~= mv1.push(pv));
                                        }
                                        found = true;
                                        spos = epos;
                                        part_start = epos;
                                        pidx = pidx + 1;
                                    }
                                }
                            },
                            None => {
                                if spos < epos {
                                    let piece = cut(&compilable_content, spos, epos, part.part_type());
                                    let ghost pv = piece@;
                                    compiled.push(piece);
                                    assert(parts_view(compiled@) =~= cv0.push(pv));
                                }
                                spos = epos;
                                part_start = epos;
                                pidx = pidx + 1;
                            },
                        }
                    }
                },
            }
        }
        self.set_parts(compiled);
        Ok(())
    }
}

} // verus!
