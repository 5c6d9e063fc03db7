# nmd_core

The core of a compiler for NMD, a Markdown dialect, written in Verus.

A text is a sequence of parts: fixed parts, already compiled, and compilable
parts, which the rules of a codex rewrite. Each rule searches its pattern in
the content of the compilable parts it is compatible with, and replaces every
match, together with the fixed parts the match spans, by the parts it makes of
it.

- `src/compilable_text.rs`: texts, their contents and slices by byte range;
  `compilable_text/rule_application.rs` applies one rule to a text.
- `src/compiler/`: the compiler, its configuration, errors, results and rules
  (replacement rules with their replacer parts, the reference rule, the HTML
  list, extended block quote, cite and image rules).
- `src/codex/`: the codex (the ordered rules of an output format) and the
  standard modifiers (text, paragraph, heading) with their patterns.
- `src/assembler/`: the assembler configuration and the resources an HTML
  page loads by theme, applied to a `build_html` page.
- `src/regex_engine.rs`: the calls into the `regex` crate, with their
  contracts; `src/text_bytes.rs`: the UTF-8 byte model of strings;
  `src/utility/`: lines, white space and replacement chains.
- `app/`: serializable copies of the library's values and error types with
  their messages.
- `tests/`: tests run against the compiled library.
