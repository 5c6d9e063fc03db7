//! A text made of fixed and compilable parts.

pub mod compilable_text_part;
pub mod rule_application;

use vstd::prelude::*;
use vstd::utf8::*;
use crate::resource::bucket::{Bucket, BucketView};
use crate::text_bytes::{
    byte_len, lemma_encode_concat, lemma_fragment_bytes, lemma_prefix_boundary, str_byte_len,
    str_byte_slice,
};
use compilable_text_part::{CompilableTextPart, CompilableTextPartType, PartTypeView, PartView};

verus! {

broadcast use vstd::utf8::encode_utf8_valid_utf8, vstd::utf8::encode_utf8_decode_utf8;

/// Views of a list of parts.
pub open spec fn parts_view(parts: Seq<CompilableTextPart>) -> Seq<PartView> {
    parts.map_values(|p: CompilableTextPart| p@)
}

/// Concatenation of the contents of the compilable parts.
pub open spec fn compilable_chars(parts: Seq<PartView>) -> Seq<char>
    decreases parts.len(),
{
    if parts.len() == 0 {
        Seq::empty()
    } else {
        let last = parts.last();
        compilable_chars(parts.drop_last()) + (if last.part_type is Compilable {
            last.content
        } else {
            Seq::empty()
        })
    }
}

/// Concatenation of the contents of all parts.
pub open spec fn content_chars(parts: Seq<PartView>) -> Seq<char>
    decreases parts.len(),
{
    if parts.len() == 0 {
        Seq::empty()
    } else {
        content_chars(parts.drop_last()) + parts.last().content
    }
}

/// Byte offset, in the compilable content, where the compilable parts that
/// follow the first `n` parts begin.
pub open spec fn cursor(parts: Seq<PartView>, n: int) -> int {
    byte_len(compilable_chars(parts.take(n)))
}

/// Byte offsets where each compilable part ends in the compilable content.
pub open spec fn compilable_ends(parts: Seq<PartView>) -> Seq<int>
    decreases parts.len(),
{
    if parts.len() == 0 {
        Seq::empty()
    } else if parts.last().part_type is Compilable {
        compilable_ends(parts.drop_last()).push(byte_len(compilable_chars(parts)))
    } else {
        compilable_ends(parts.drop_last())
    }
}

/// The compilable content fits in memory offsets.
pub open spec fn fits_offsets(parts: Seq<PartView>) -> bool {
    byte_len(compilable_chars(parts)) <= usize::MAX
}

/// The compilable content splits at any part index.
pub proof fn lemma_compilable_split(parts: Seq<PartView>, n: int)
    requires
        0 <= n <= parts.len(),
    ensures
        compilable_chars(parts) == compilable_chars(parts.take(n)) + compilable_chars(
            parts.skip(n),
        ),
    decreases parts.len(),
{
    if n == parts.len() {
        assert(parts.take(n) =~= parts);
        assert(parts.skip(n) =~= Seq::<PartView>::empty());
        assert(compilable_chars(parts) + Seq::<char>::empty() =~= compilable_chars(parts));
    } else {
        let init = parts.drop_last();
        lemma_compilable_split(init, n);
        assert(init.take(n) =~= parts.take(n));
        assert(parts.skip(n).drop_last() =~= init.skip(n));
        assert(parts.skip(n).last() == parts.last());
        let tail = if parts.last().part_type is Compilable {
            parts.last().content
        } else {
            Seq::empty()
        };
        assert(compilable_chars(parts.skip(n)) == compilable_chars(init.skip(n)) + tail);
        assert(compilable_chars(parts) =~= compilable_chars(parts.take(n)) + compilable_chars(
            parts.skip(n),
        ));
    }
}

/// One more part extends the compilable prefix by its content when compilable.
pub proof fn lemma_compilable_step(parts: Seq<PartView>, i: int)
    requires
        0 <= i < parts.len(),
    ensures
        compilable_chars(parts.take(i + 1)) == compilable_chars(parts.take(i)) + (
        if parts[i].part_type is Compilable {
            parts[i].content
        } else {
            Seq::empty()
        }),
{
    assert(parts.take(i + 1).drop_last() =~= parts.take(i));
    assert(parts.take(i + 1).last() == parts[i]);
}

/// Every part boundary is a character boundary of the compilable content,
/// and lies inside it.
pub proof fn lemma_cursor_boundary(parts: Seq<PartView>, n: int)
    requires
        0 <= n <= parts.len(),
    ensures
        is_char_boundary(encode_utf8(compilable_chars(parts)), cursor(parts, n)),
        0 <= cursor(parts, n) <= byte_len(compilable_chars(parts)),
{
    lemma_compilable_split(parts, n);
    lemma_prefix_boundary(compilable_chars(parts.take(n)), compilable_chars(parts.skip(n)));
    lemma_encode_concat(compilable_chars(parts.take(n)), compilable_chars(parts.skip(n)));
}

/// The cursor grows by the byte length of each compilable part.
pub proof fn lemma_cursor_step(parts: Seq<PartView>, i: int)
    requires
        0 <= i < parts.len(),
    ensures
        cursor(parts, i + 1) == cursor(parts, i) + (if parts[i].part_type is Compilable {
            byte_len(parts[i].content)
        } else {
            0
        }),
{
    lemma_compilable_step(parts, i);
    if parts[i].part_type is Compilable {
        lemma_encode_concat(compilable_chars(parts.take(i)), parts[i].content);
    } else {
        assert(compilable_chars(parts.take(i)) + Seq::<char>::empty() =~= compilable_chars(
            parts.take(i),
        ));
    }
}

/// How the fixed parts at the borders of a slice are treated.
#[derive(Debug, Clone, Copy, PartialEq, Eq)]
pub enum PartsSliceElaborationPolicy {
    DontTakeBorderFixedParts,
    TakeLeftFixedParts,
    TakeRightFixedParts,
    TakeLeftAndRightFixedParts,
}

/// Where a slice scan stands with respect to the requested range.
#[derive(Debug, Clone, Copy, PartialEq, Eq)]
pub enum ElaborationPosition {
    BeforeRange,
    InRange,
    AfterRange,
}

/// Errors of the slicing operations.
#[derive(Debug)]
pub enum CompilableError {
    /// The compilable content, the requested start and end.
    ContentOverflow(String, usize, usize),
}

/// A sequence of parts, with an optional unique identifier.
#[derive(Debug)]
pub struct CompilableText {
    parts: Vec<CompilableTextPart>,
    nuid: Option<String>,
}

/// Mathematical value of a text.
pub struct CompilableTextView {
    pub parts: Seq<PartView>,
    pub nuid: Option<Seq<char>>,
}

pub open spec fn option_string_view(o: Option<String>) -> Option<Seq<char>> {
    match o {
        Some(s) => Some(s@),
        None => None,
    }
}

impl View for CompilableText {
    type V = CompilableTextView;

    open spec fn view(&self) -> CompilableTextView {
        CompilableTextView {
            parts: parts_view(self.spec_parts()@),
            nuid: option_string_view(self.spec_nuid()),
        }
    }
}

pub fn clone_option_string(o: &Option<String>) -> (r: Option<String>)
    ensures
        option_string_view(r) == option_string_view(*o),
{
    match o {
        Some(s) => Some(s.clone()),
        None => None,
    }
}

/// A copy of a list of parts.
pub fn clone_parts(parts: &Vec<CompilableTextPart>) -> (r: Vec<CompilableTextPart>)
    ensures
        parts_view(r@) == parts_view(parts@),
{
    let mut r: Vec<CompilableTextPart> = Vec::new();
    let mut i: usize = 0;
    while i < parts.len()
        invariant
            i <= parts.len(),
            r.len() == i,
            forall|j: int| 0 <= j < i ==> (#[trigger] r@[j])@ == parts@[j]@,
        decreases parts.len() - i,
    {
        r.push(parts[i].clone());
        i = i + 1;
    }
    assert(parts_view(r@) =~= parts_view(parts@));
    r
}

impl From<Vec<CompilableTextPart>> for CompilableText {
    fn from(value: Vec<CompilableTextPart>) -> (r: Self)
        ensures
            r@.parts == parts_view(value@),
            r@.nuid is None,
    {
        CompilableText { parts: value, nuid: None }
    }
}

impl vstd::std_specs::convert::FromSpecImpl<Vec<CompilableTextPart>> for CompilableText {
    open spec fn obeys_from_spec() -> bool {
        true
    }

    closed spec fn from_spec(value: Vec<CompilableTextPart>) -> Self {
        CompilableText { parts: value, nuid: None }
    }
}

impl From<CompilableTextPart> for CompilableText {
    fn from(value: CompilableTextPart) -> (r: Self)
        ensures
            r@.parts == seq![value@],
            r@.nuid is None,
    {
        let mut parts: Vec<CompilableTextPart> = Vec::new();
        parts.push(value);
        let r = Self::new(parts);
        assert(r@.parts =~= seq![value@]);
        r
    }
}

impl vstd::std_specs::convert::FromSpecImpl<CompilableTextPart> for CompilableText {
    open spec fn obeys_from_spec() -> bool {
        false
    }

    closed spec fn from_spec(value: CompilableTextPart) -> Self {
        arbitrary()
    }
}

impl From<String> for CompilableText {
    /// A text of one compilable part, compatible with every modifier.
    fn from(value: String) -> (r: Self)
        ensures
            r@.parts == seq![
                PartView {
                    content: value@,
                    part_type: PartTypeView::Compilable(BucketView::Nothing),
                },
            ],
            r@.nuid is None,
    {
        Self::from(CompilableTextPart::new_compilable(value, Bucket::Nothing))
    }
}

impl vstd::std_specs::convert::FromSpecImpl<String> for CompilableText {
    open spec fn obeys_from_spec() -> bool {
        false
    }

    closed spec fn from_spec(value: String) -> Self {
        arbitrary()
    }
}

impl From<&str> for CompilableText {
    /// A text of one compilable part, compatible with every modifier.
    fn from(value: &str) -> (r: Self)
        ensures
            r@.parts == seq![
                PartView {
                    content: value@,
                    part_type: PartTypeView::Compilable(BucketView::Nothing),
                },
            ],
            r@.nuid is None,
    {
        Self::from(String::from_str(value))
    }
}

impl vstd::std_specs::convert::FromSpecImpl<&str> for CompilableText {
    open spec fn obeys_from_spec() -> bool {
        false
    }

    closed spec fn from_spec(value: &str) -> Self {
        arbitrary()
    }
}

impl Clone for CompilableText {
    fn clone(&self) -> (r: Self)
        ensures
            r@ == self@,
    {
        CompilableText { parts: clone_parts(&self.parts), nuid: clone_option_string(&self.nuid) }
    }
}

impl CompilableText {
    pub closed spec fn spec_parts(&self) -> Vec<CompilableTextPart> {
        self.parts
    }

    pub closed spec fn spec_nuid(&self) -> Option<String> {
        self.nuid
    }

    pub fn new_empty() -> (r: Self)
        ensures
            r@.parts == Seq::<PartView>::empty(),
            r@.nuid is None,
    {
        let r = Self { parts: Vec::new(), nuid: None };
        assert(r@.parts =~= Seq::<PartView>::empty());
        r
    }

    pub fn new(parts: Vec<CompilableTextPart>) -> (r: Self)
        ensures
            r@.parts == parts_view(parts@),
            r@.nuid is None,
    {
        Self { parts, nuid: None }
    }

    pub fn new_with_nuid(parts: Vec<CompilableTextPart>, nuid: Option<String>) -> (r: Self)
        ensures
            r@.parts == parts_view(parts@),
            r@.nuid == option_string_view(nuid),
    {
        Self { parts, nuid }
    }

    pub fn parts(&self) -> (r: &Vec<CompilableTextPart>)
        ensures
            parts_view(r@) == self@.parts,
    {
        &self.parts
    }

    /// The parts of the text, giving the text up.
    pub fn into_parts(self) -> (r: Vec<CompilableTextPart>)
        ensures
            parts_view(r@) == self@.parts,
    {
        self.parts
    }

    pub fn set_parts(&mut self, parts: Vec<CompilableTextPart>)
        ensures
            final(self)@.parts == parts_view(parts@),
            final(self)@.nuid == old(self)@.nuid,
    {
        self.parts = parts;
    }

    /// Appends a part at the end.
    pub fn push_part(&mut self, part: CompilableTextPart)
        ensures
            final(self)@.parts == old(self)@.parts.push(part@),
            final(self)@.nuid == old(self)@.nuid,
    {
        self.parts.push(part);
        assert(parts_view(self.parts@) =~= old(self)@.parts.push(part@));
    }

    /// Moves all parts of `other` at the end of this text, leaving `other` without parts.
    pub fn append_parts(&mut self, other: &mut Vec<CompilableTextPart>)
        ensures
            final(self)@.parts == old(self)@.parts + parts_view(old(other)@),
            final(self)@.nuid == old(self)@.nuid,
            final(other)@.len() == 0,
    {
        self.parts.append(other);
        assert(parts_view(self.parts@) =~= old(self)@.parts + parts_view(old(other)@));
    }

    pub fn nuid(&self) -> (r: &Option<String>)
        ensures
            option_string_view(*r) == self@.nuid,
    {
        &self.nuid
    }

    pub fn set_nuid(&mut self, nuid: Option<String>)
        ensures
            final(self)@.nuid == option_string_view(nuid),
            final(self)@.parts == old(self)@.parts,
    {
        self.nuid = nuid;
    }

    /// Content usable in regular expressions: the concatenation of the compilable parts.
    pub fn compilable_content(&self) -> (r: String)
        ensures
            r@ == compilable_chars(self@.parts),
    {
        let mut content = String::new();
        let mut i: usize = 0;
        while i < self.parts.len()
            invariant
                i <= self.parts.len(),
                content@ == compilable_chars(self@.parts.take(i as int)),
            decreases self.parts.len() - i,
        {
            proof {
                lemma_compilable_step(self@.parts, i as int);
            }
            let part = &self.parts[i];
            if part.part_type().is_compilable() {
                content.append(part.content().as_str());
            } else {
                assert(content@ + Seq::<char>::empty() =~= content@);
            }
            i = i + 1;
        }
        assert(self@.parts.take(self.parts.len() as int) =~= self@.parts);
        content
    }

    /// The compilable content and the byte offset where each compilable part ends in it.
    pub fn compilable_content_with_ends_positions(&self) -> (r: (String, Vec<usize>))
        ensures
            r.0@ == compilable_chars(self@.parts),
            r.1@.len() == compilable_ends(self@.parts).len(),
            forall|k: int| 0 <= k < r.1@.len() ==> r.1@[k] == compilable_ends(self@.parts)[k],
    {
        let whole = self.compilable_content();
        let _ = str_byte_len(whole.as_str());
        let ghost parts = self@.parts;
        let mut content = String::new();
        let mut ends: Vec<usize> = Vec::new();
        let mut i: usize = 0;
        while i < self.parts.len()
            invariant
                i <= self.parts.len(),
                parts == self@.parts,
                fits_offsets(parts),
                content@ == compilable_chars(parts.take(i as int)),
                ends@.len() == compilable_ends(parts.take(i as int)).len(),
                forall|k: int|
                    0 <= k < ends@.len() ==> ends@[k] == compilable_ends(parts.take(i as int))[k],
            decreases self.parts.len() - i,
        {
            proof {
                lemma_compilable_step(parts, i as int);
                lemma_cursor_boundary(parts, i as int + 1);
                assert(parts.take(i + 1).drop_last() =~= parts.take(i as int));
                assert(parts.take(i + 1).last() == parts[i as int]);
            }
            let part = &self.parts[i];
            if part.part_type().is_compilable() {
                content.append(part.content().as_str());
                let end = content.as_str().len();
                ends.push(end);
            } else {
                assert(content@ + Seq::<char>::empty() =~= content@);
            }
            i = i + 1;
        }
        assert(parts.take(self.parts.len() as int) =~= parts);
        (content, ends)
    }

    /// The string obtained concatenating the contents of all parts.
    pub fn content(&self) -> (r: String)
        ensures
            r@ == content_chars(self@.parts),
    {
        let mut content = String::new();
        let mut i: usize = 0;
        while i < self.parts.len()
            invariant
                i <= self.parts.len(),
                content@ == content_chars(self@.parts.take(i as int)),
            decreases self.parts.len() - i,
        {
            assert(self@.parts.take(i + 1).drop_last() =~= self@.parts.take(i as int));
            content.append(self.parts[i].content().as_str());
            i = i + 1;
        }
        assert(self@.parts.take(self.parts.len() as int) =~= self@.parts);
        content
    }
}

/// State of a scan over the parts of a text that cuts the byte range
/// `[start, end)` of its compilable content.
pub struct SliceScan {
    pub position: ElaborationPosition,
    /// Where the next compilable part begins in the compilable content.
    pub start_pos: int,
    /// Fixed parts met since the last compilable part, before the range.
    pub left: Seq<PartView>,
    /// The parts inside the range.
    pub slice: Seq<PartView>,
    /// Fixed parts met right after the range.
    pub right: Seq<PartView>,
    pub stopped: bool,
}

/// The part of kind `t` whose bytes are `bytes[a..b)`.
pub open spec fn fragment(bytes: Seq<u8>, a: int, b: int, t: PartTypeView) -> PartView {
    PartView { content: decode_utf8(bytes.subrange(a, b)), part_type: t }
}

pub open spec fn min_int(a: int, b: int) -> int {
    if a <= b {
        a
    } else {
        b
    }
}

/// The scan after one more part `p`; `epos` is where `p` ends in the
/// compilable content (whose bytes are `bytes`), when it is compilable.
pub open spec fn slice_step(
    st: SliceScan,
    p: PartView,
    epos: int,
    bytes: Seq<u8>,
    start: int,
    end: int,
) -> SliceScan {
    if st.stopped {
        st
    } else {
        match p.part_type {
            PartTypeView::Fixed => match st.position {
                ElaborationPosition::BeforeRange => SliceScan { left: st.left.push(p), ..st },
                ElaborationPosition::InRange => SliceScan { slice: st.slice.push(p), ..st },
                ElaborationPosition::AfterRange => SliceScan { right: st.right.push(p), ..st },
            },
            PartTypeView::Compilable(_) => {
                let position = if st.start_pos == end {
                    ElaborationPosition::AfterRange
                } else {
                    st.position
                };
                match position {
                    ElaborationPosition::BeforeRange => {
                        if st.start_pos <= start && start < epos {
                            let left = if st.start_pos < start {
                                Seq::empty()
                            } else {
                                st.left
                            };
                            let slice = st.slice.push(
                                fragment(bytes, start, min_int(epos, end), p.part_type),
                            );
                            if end < epos {
                                SliceScan { position, left, slice, stopped: true, ..st }
                            } else {
                                SliceScan {
                                    position: if epos == end {
                                        ElaborationPosition::AfterRange
                                    } else {
                                        ElaborationPosition::InRange
                                    },
                                    start_pos: epos,
                                    left,
                                    slice,
                                    ..st
                                }
                            }
                        } else {
                            SliceScan { position, start_pos: epos, left: Seq::empty(), ..st }
                        }
                    },
                    ElaborationPosition::InRange => {
                        if end <= epos {
                            let slice = if st.start_pos < end {
                                st.slice.push(fragment(bytes, st.start_pos, end, p.part_type))
                            } else {
                                st.slice
                            };
                            if end < epos {
                                SliceScan { position, slice, stopped: true, ..st }
                            } else {
                                SliceScan {
                                    position: ElaborationPosition::AfterRange,
                                    start_pos: epos,
                                    slice,
                                    ..st
                                }
                            }
                        } else {
                            SliceScan {
                                position,
                                start_pos: epos,
                                slice: st.slice.push(
                                    fragment(bytes, st.start_pos, epos, p.part_type),
                                ),
                                ..st
                            }
                        }
                    },
                    ElaborationPosition::AfterRange => SliceScan {
                        position,
                        stopped: true,
                        ..st
                    },
                }
            },
        }
    }
}

pub open spec fn initial_slice_scan() -> SliceScan {
    SliceScan {
        position: ElaborationPosition::BeforeRange,
        start_pos: 0,
        left: Seq::empty(),
        slice: Seq::empty(),
        right: Seq::empty(),
        stopped: false,
    }
}

/// The scan after the first `n` parts.
pub open spec fn slice_scan(parts: Seq<PartView>, n: int, start: int, end: int) -> SliceScan
    decreases n,
{
    if n <= 0 {
        initial_slice_scan()
    } else {
        slice_step(
            slice_scan(parts, n - 1, start, end),
            parts[n - 1],
            cursor(parts, n),
            encode_utf8(compilable_chars(parts)),
            start,
            end,
        )
    }
}

/// The slice of a finished scan with its border fixed parts, as the policy asks.
pub open spec fn assemble_slice(st: SliceScan, policy: PartsSliceElaborationPolicy) -> Seq<
    PartView,
> {
    match policy {
        PartsSliceElaborationPolicy::DontTakeBorderFixedParts => st.slice,
        PartsSliceElaborationPolicy::TakeLeftFixedParts => st.left + st.slice,
        PartsSliceElaborationPolicy::TakeRightFixedParts => st.slice + st.right,
        PartsSliceElaborationPolicy::TakeLeftAndRightFixedParts => st.left + st.slice
            + st.right,
    }
}

/// The parts that cover the bytes `[start, end)` of the compilable content.
pub open spec fn parts_slice_spec(
    parts: Seq<PartView>,
    start: int,
    end: int,
    policy: PartsSliceElaborationPolicy,
) -> Seq<PartView> {
    assemble_slice(slice_scan(parts, parts.len() as int, start, end), policy)
}

/// Some compilable part begins at byte `pos` of the compilable content.
pub open spec fn compilable_part_starts_at(parts: Seq<PartView>, pos: int) -> bool {
    exists|k: int|
        0 <= k < parts.len() && (#[trigger] parts[k]).part_type is Compilable && cursor(parts, k)
            == pos
}

/// The range can be sliced without cutting a part in a wrong place.  When
/// `end` lies inside the compilable content: an ordered range between
/// character boundaries, or a reversed range whose `start` no compilable part
/// holds before the slice stops, which it does at a compilable part that
/// begins at `end` (an `end` beyond the content is an overflow error).
pub open spec fn valid_slice_range(parts: Seq<PartView>, start: int, end: int) -> bool {
    let c = compilable_chars(parts);
    end <= byte_len(c) ==> {
        ||| 0 <= start <= end && is_char_boundary(encode_utf8(c), start) && is_char_boundary(
            encode_utf8(c),
            end,
        )
        ||| 0 <= end < start && (start >= byte_len(c) || compilable_part_starts_at(parts, end))
    }
}

/// The cursor never decreases.
pub proof fn lemma_cursor_monotone(parts: Seq<PartView>, i: int, j: int)
    requires
        0 <= i <= j <= parts.len(),
    ensures
        cursor(parts, i) <= cursor(parts, j),
    decreases j - i,
{
    if i < j {
        lemma_cursor_monotone(parts, i, j - 1);
        lemma_cursor_step(parts, j - 1);
    }
}

/// Once stopped, a scan does not change.
pub proof fn lemma_slice_scan_stopped(parts: Seq<PartView>, i: int, n: int, start: int, end: int)
    requires
        0 <= i <= n,
        slice_scan(parts, i, start, end).stopped,
    ensures
        slice_scan(parts, n, start, end) == slice_scan(parts, i, start, end),
    decreases n - i,
{
    if n > i {
        lemma_slice_scan_stopped(parts, i, n - 1, start, end);
    }
}

/// Every part is fixed.
pub open spec fn all_fixed(parts: Seq<PartView>) -> bool {
    forall|i: int| 0 <= i < parts.len() ==> (#[trigger] parts[i]).part_type is Fixed
}

/// Fixed parts have no compilable content.
proof fn lemma_all_fixed_no_content(parts: Seq<PartView>)
    requires
        all_fixed(parts),
    ensures
        compilable_chars(parts) == Seq::<char>::empty(),
    decreases parts.len(),
{
    if parts.len() > 0 {
        assert(parts.last() == parts[parts.len() - 1]);
        lemma_all_fixed_no_content(parts.drop_last());
    }
}

/// The compilable content of two sequences of parts, one after the other.
proof fn lemma_compilable_concat(a: Seq<PartView>, b: Seq<PartView>)
    ensures
        compilable_chars(a + b) == compilable_chars(a) + compilable_chars(b),
{
    lemma_compilable_split(a + b, a.len() as int);
    assert((a + b).take(a.len() as int) =~= a);
    assert((a + b).skip(a.len() as int) =~= b);
}

/// One more part extends the compilable content by its content when compilable.
proof fn lemma_compilable_push(a: Seq<PartView>, p: PartView)
    ensures
        compilable_chars(a.push(p)) == compilable_chars(a) + (if p.part_type is Compilable {
            p.content
        } else {
            Seq::empty()
        }),
{
    assert(a.push(p).drop_last() =~= a);
    assert(a.push(p).last() == p);
}

/// What a slice scan holds after `n` parts: the border parts are fixed, and
/// the compilable content of the slice is the part of the range seen so far.
pub open spec fn slice_scan_inv(parts: Seq<PartView>, n: int, start: int, end: int) -> bool {
    let st = slice_scan(parts, n, start, end);
    let bytes = encode_utf8(compilable_chars(parts));
    &&& all_fixed(st.left)
    &&& all_fixed(st.right)
    &&& (st.stopped || st.position is AfterRange) ==> encode_utf8(compilable_chars(st.slice))
        == bytes.subrange(start, end)
    &&& (!st.stopped && st.position is InRange) ==> st.start_pos == cursor(parts, n) && start
        <= st.start_pos < end && encode_utf8(compilable_chars(st.slice)) == bytes.subrange(
        start,
        st.start_pos,
    )
    &&& (!st.stopped && st.position is BeforeRange) ==> st.start_pos == cursor(parts, n)
        && st.start_pos <= start && compilable_chars(st.slice) == Seq::<char>::empty()
}

/// `run` is a run of consecutive parts of `parts`.
pub open spec fn is_run_of(run: Seq<PartView>, parts: Seq<PartView>) -> bool {
    exists|a: int, b: int| 0 <= a <= b <= parts.len() && #[trigger] parts.subrange(a, b) == run
}

/// The border parts of a scan are fixed runs of the text: the left ones end
/// at the last part seen while the range has not begun, the right ones at
/// the last part seen once it has ended.
proof fn lemma_slice_scan_borders(parts: Seq<PartView>, n: int, start: int, end: int)
    requires
        0 <= n <= parts.len(),
    ensures
        all_fixed(slice_scan(parts, n, start, end).left),
        all_fixed(slice_scan(parts, n, start, end).right),
        is_run_of(slice_scan(parts, n, start, end).left, parts),
        is_run_of(slice_scan(parts, n, start, end).right, parts),
        ({
            let st = slice_scan(parts, n, start, end);
            !st.stopped && st.position is BeforeRange ==> st.left.len() <= n && st.left
                == parts.subrange(n - st.left.len(), n)
        }),
        ({
            let st = slice_scan(parts, n, start, end);
            !st.stopped && st.position is AfterRange ==> st.right.len() <= n && st.right
                == parts.subrange(n - st.right.len(), n)
        }),
        !(slice_scan(parts, n, start, end).position is AfterRange) ==> slice_scan(
            parts,
            n,
            start,
            end,
        ).right.len() == 0,
    decreases n,
{
    let st = slice_scan(parts, n, start, end);
    if n == 0 {
        assert(parts.subrange(0, 0) =~= Seq::<PartView>::empty());
        assert(is_run_of(st.left, parts));
    } else {
        lemma_slice_scan_borders(parts, n - 1, start, end);
        let prev = slice_scan(parts, n - 1, start, end);
        let p = parts[n - 1];
        assert(st == slice_step(
            prev,
            p,
            cursor(parts, n),
            encode_utf8(compilable_chars(parts)),
            start,
            end,
        ));
        let e = Seq::<PartView>::empty();
        assert(parts.subrange(n, n) =~= e);
        assert(all_fixed(e));
        assert(is_run_of(e, parts)) by {
            assert(parts.subrange(0, 0) =~= e);
        }
        if !prev.stopped && p.part_type is Fixed {
            if prev.position is BeforeRange {
                assert(st.left =~= parts.subrange(n - st.left.len(), n));
                assert(is_run_of(st.left, parts));
                assert forall|i: int| 0 <= i < st.left.len() implies (#[trigger] st.left[i]).part_type is Fixed by {
                    if i < prev.left.len() {
                        assert(st.left[i] == prev.left[i]);
                    }
                }
            }
            if prev.position is AfterRange {
                assert(st.right =~= parts.subrange(n - st.right.len(), n));
                assert(is_run_of(st.right, parts));
                assert forall|i: int| 0 <= i < st.right.len() implies (#[trigger] st.right[i]).part_type is Fixed by {
                    if i < prev.right.len() {
                        assert(st.right[i] == prev.right[i]);
                    }
                }
            }
        }
        if !prev.stopped && !st.stopped && st.position is AfterRange && !(prev.position is AfterRange) {
            assert(st.right =~= parts.subrange(n, n));
        }
    }
}

/// The policies differ only by the border fixed parts they add: there are
/// runs `l` and `r` of fixed parts of the text, such that with `d` the slice
/// without border parts, the left policy gives `l + d`, the right one
/// `d + r` and both `l + d + r`.
pub proof fn lemma_slice_policies(parts: Seq<PartView>, start: int, end: int)
    ensures
        exists|l: Seq<PartView>, r: Seq<PartView>|
            #![trigger is_run_of(l, parts), is_run_of(r, parts)]
            {
                let d = parts_slice_spec(
                    parts,
                    start,
                    end,
                    PartsSliceElaborationPolicy::DontTakeBorderFixedParts,
                );
                &&& all_fixed(l) && all_fixed(r)
                &&& is_run_of(l, parts) && is_run_of(r, parts)
                &&& parts_slice_spec(parts, start, end, PartsSliceElaborationPolicy::TakeLeftFixedParts)
                    == l + d
                &&& parts_slice_spec(parts, start, end, PartsSliceElaborationPolicy::TakeRightFixedParts)
                    == d + r
                &&& parts_slice_spec(
                    parts,
                    start,
                    end,
                    PartsSliceElaborationPolicy::TakeLeftAndRightFixedParts,
                ) == l + d + r
            },
{
    let st = slice_scan(parts, parts.len() as int, start, end);
    lemma_slice_scan_borders(parts, parts.len() as int, start, end);
    let d = parts_slice_spec(parts, start, end, PartsSliceElaborationPolicy::DontTakeBorderFixedParts);
    assert(d == st.slice);
    assert(parts_slice_spec(parts, start, end, PartsSliceElaborationPolicy::TakeLeftAndRightFixedParts)
        == st.left + d + st.right);
}

/// The byte range `[start, end)` can be cut from the compilable content.
pub open spec fn cuttable_range(parts: Seq<PartView>, start: int, end: int) -> bool {
    let bytes = encode_utf8(compilable_chars(parts));
    &&& 0 <= start <= end <= bytes.len()
    &&& is_char_boundary(bytes, start)
    &&& is_char_boundary(bytes, end)
}

proof fn lemma_slice_scan_inv(parts: Seq<PartView>, n: int, start: int, end: int)
    requires
        0 <= n <= parts.len(),
        cuttable_range(parts, start, end),
    ensures
        slice_scan_inv(parts, n, start, end),
    decreases n,
{
    let bytes = encode_utf8(compilable_chars(parts));
    if n == 0 {
        assert(parts.take(0) =~= Seq::<PartView>::empty());
        assert(compilable_chars(Seq::<PartView>::empty()) == Seq::<char>::empty());
        assert(encode_utf8(Seq::<char>::empty()) =~= Seq::<u8>::empty());
    } else {
        lemma_slice_scan_inv(parts, n - 1, start, end);
        let st = slice_scan(parts, n - 1, start, end);
        let p = parts[n - 1];
        let epos = cursor(parts, n);
        let next = slice_scan(parts, n, start, end);
        assert(next == slice_step(st, p, epos, bytes, start, end));
        lemma_cursor_step(parts, n - 1);
        lemma_cursor_boundary(parts, n - 1);
        lemma_cursor_boundary(parts, n);
        if !st.stopped {
            match p.part_type {
                PartTypeView::Fixed => {
                    lemma_compilable_push(st.slice, p);
                    assert(st.slice.push(p).drop_last() =~= st.slice);
                    assert forall|i: int| 0 <= i < next.left.len() implies (
                    #[trigger] next.left[i]).part_type is Fixed by {
                        if i < st.left.len() {
                            assert(next.left[i] == st.left[i] || next.left[i] == p);
                        }
                    }
                    assert forall|i: int| 0 <= i < next.right.len() implies (
                    #[trigger] next.right[i]).part_type is Fixed by {
                        if i < st.right.len() {
                            assert(next.right[i] == st.right[i] || next.right[i] == p);
                        }
                    }
                    assert(compilable_chars(st.slice) + Seq::<char>::empty() =~= compilable_chars(
                        st.slice,
                    ));
                },
                PartTypeView::Compilable(_) => {
                    let position = if st.start_pos == end {
                        ElaborationPosition::AfterRange
                    } else {
                        st.position
                    };
                    match position {
                        ElaborationPosition::BeforeRange => {
                            if st.start_pos <= start && start < epos {
                                let b = min_int(epos, end);
                                let frag = fragment(bytes, start, b, p.part_type);
                                lemma_fragment_bytes(bytes, start, b);
                                lemma_compilable_push(st.slice, frag);
                                lemma_encode_concat(compilable_chars(st.slice), frag.content);
                                assert(encode_utf8(Seq::<char>::empty()) =~= Seq::<u8>::empty());
                                assert(Seq::<u8>::empty() + bytes.subrange(start, b) =~= bytes.subrange(
                                    start,
                                    b,
                                ));
                                assert(all_fixed(Seq::<PartView>::empty()));
                            } else {
                                assert(all_fixed(Seq::<PartView>::empty()));
                            }
                        },
                        ElaborationPosition::InRange => {
                            if end <= epos {
                                if st.start_pos < end {
                                    let frag = fragment(bytes, st.start_pos, end, p.part_type);
                                    lemma_fragment_bytes(bytes, st.start_pos, end);
                                    lemma_compilable_push(st.slice, frag);
                                    lemma_encode_concat(compilable_chars(st.slice), frag.content);
                                    assert(bytes.subrange(start, st.start_pos) + bytes.subrange(
                                        st.start_pos,
                                        end,
                                    ) =~= bytes.subrange(start, end));
                                }
                            } else {
                                let frag = fragment(bytes, st.start_pos, epos, p.part_type);
                                lemma_fragment_bytes(bytes, st.start_pos, epos);
                                lemma_compilable_push(st.slice, frag);
                                lemma_encode_concat(compilable_chars(st.slice), frag.content);
                                assert(bytes.subrange(start, st.start_pos) + bytes.subrange(
                                    st.start_pos,
                                    epos,
                                ) =~= bytes.subrange(start, epos));
                            }
                        },
                        ElaborationPosition::AfterRange => {
                            if st.position is BeforeRange {
                                assert(encode_utf8(Seq::<char>::empty()) =~= Seq::<u8>::empty());
                                assert(bytes.subrange(start, end) =~= Seq::<u8>::empty());
                            }
                        },
                    }
                },
            }
        }
    }
}

/// The compilable content of a slice is the cut range of the compilable
/// content, whatever fixed parts the policy adds at the borders.
pub proof fn lemma_parts_slice_content(
    parts: Seq<PartView>,
    start: int,
    end: int,
    policy: PartsSliceElaborationPolicy,
)
    requires
        cuttable_range(parts, start, end),
    ensures
        encode_utf8(compilable_chars(parts_slice_spec(parts, start, end, policy)))
            == encode_utf8(compilable_chars(parts)).subrange(start, end),
        compilable_chars(parts_slice_spec(parts, start, end, policy)) == decode_utf8(
            encode_utf8(compilable_chars(parts)).subrange(start, end),
        ),
{
    let n = parts.len() as int;
    let bytes = encode_utf8(compilable_chars(parts));
    lemma_slice_scan_inv(parts, n, start, end);
    let st = slice_scan(parts, n, start, end);
    lemma_cursor_boundary(parts, n);
    assert(parts.take(n) =~= parts);
    if !st.stopped && st.position is BeforeRange {
        assert(bytes.subrange(start, end) =~= Seq::<u8>::empty());
        assert(encode_utf8(Seq::<char>::empty()) =~= Seq::<u8>::empty());
    }
    let left = st.left;
    lemma_all_fixed_no_content(left);
    lemma_all_fixed_no_content(st.right);
    lemma_compilable_concat(left, st.slice);
    lemma_compilable_concat(left + st.slice, st.right);
    lemma_compilable_concat(st.slice, st.right);
    assert(Seq::<char>::empty() + compilable_chars(st.slice) =~= compilable_chars(st.slice));
    assert(compilable_chars(st.slice) + Seq::<char>::empty() =~= compilable_chars(st.slice));
    assert(compilable_chars(parts_slice_spec(parts, start, end, policy)) == compilable_chars(st.slice));
}

/// The exec state of a slice scan is the mathematical one.
pub open spec fn scan_state_is(
    st: SliceScan,
    position: ElaborationPosition,
    spos: usize,
    left: Seq<CompilableTextPart>,
    slice: Seq<CompilableTextPart>,
    right: Seq<CompilableTextPart>,
    stopped: bool,
) -> bool {
    &&& st.position == position
    &&& st.start_pos == spos as int
    &&& st.left == parts_view(left)
    &&& st.slice == parts_view(slice)
    &&& st.right == parts_view(right)
    &&& st.stopped == stopped
}

/// Copies of `parts`, in their order, put in front of `base`.
fn prepend_copies(base: &mut Vec<CompilableTextPart>, parts: &Vec<CompilableTextPart>)
    ensures
        parts_view(final(base)@) == parts_view(parts@) + parts_view(old(base)@),
{
    let mut rest: Vec<CompilableTextPart> = Vec::new();
    std::mem::swap(base, &mut rest);
    let ghost b0 = rest@;
    let mut front = clone_parts(parts);
    front.append(&mut rest);
    assert(parts_view(front@) =~= parts_view(parts@) + parts_view(b0));
    *base = front;
}

/// Appends copies of `parts` at the end of `base`.
fn append_copies(base: &mut Vec<CompilableTextPart>, parts: &Vec<CompilableTextPart>)
    ensures
        parts_view(final(base)@) == parts_view(old(base)@) + parts_view(parts@),
{
    let mut copies = clone_parts(parts);
    let ghost b0 = base@;
    base.append(&mut copies);
    assert(parts_view(base@) =~= parts_view(b0) + parts_view(parts@));
}

impl CompilableText {
    /// Calls `parts_slice_with_explicit_policy` with policy `TakeLeftAndRightFixedParts`.
    pub fn parts_slice(&self, start: usize, end: usize) -> (r: Result<
        Vec<CompilableTextPart>,
        CompilableError,
    >)
        requires
            valid_slice_range(self@.parts, start as int, end as int),
        ensures
            match r {
                Ok(v) => end <= byte_len(compilable_chars(self@.parts)) && parts_view(v@)
                    == parts_slice_spec(
                    self@.parts,
                    start as int,
                    end as int,
                    PartsSliceElaborationPolicy::TakeLeftAndRightFixedParts,
                ),
                Err(CompilableError::ContentOverflow(c, s, e)) => end > byte_len(
                    compilable_chars(self@.parts),
                ) && c@ == compilable_chars(self@.parts) && s == start && e == end,
            },
    {
        self.parts_slice_with_explicit_policy(
            start,
            end,
            PartsSliceElaborationPolicy::TakeLeftAndRightFixedParts,
        )
    }

    /// The parts between two byte positions of the compilable content; a
    /// compilable part that holds `start` or `end` is cut there.  `start` is
    /// included and `end` excluded.  The fixed parts that border the range
    /// are added as the policy asks.
    pub fn parts_slice_with_explicit_policy(
        &self,
        start: usize,
        end: usize,
        elaboration_policy: PartsSliceElaborationPolicy,
    ) -> (r: Result<Vec<CompilableTextPart>, CompilableError>)
        requires
            valid_slice_range(self@.parts, start as int, end as int),
        ensures
            match r {
                Ok(v) => end <= byte_len(compilable_chars(self@.parts)) && parts_view(v@)
                    == parts_slice_spec(self@.parts, start as int, end as int, elaboration_policy),
                Err(CompilableError::ContentOverflow(c, s, e)) => end > byte_len(
                    compilable_chars(self@.parts),
                ) && c@ == compilable_chars(self@.parts) && s == start && e == end,
            },
    {
        let compilable_content = self.compilable_content();
        let content_len = str_byte_len(compilable_content.as_str());
        if end > content_len {
            return Err(CompilableError::ContentOverflow(compilable_content, start, end));
        }
        let ghost parts = self@.parts;
        let ghost bytes = encode_utf8(compilable_chars(parts));
        let n = self.parts.len();
        let mut position = ElaborationPosition::BeforeRange;
        let mut spos: usize = 0;
        let mut left: Vec<CompilableTextPart> = Vec::new();
        let mut slice: Vec<CompilableTextPart> = Vec::new();
        let mut right: Vec<CompilableTextPart> = Vec::new();
        let mut stopped = false;
        let mut i: usize = 0;
        proof {
            assert(parts_view(left@) =~= Seq::<PartView>::empty());
            assert(parts_view(slice@) =~= Seq::<PartView>::empty());
            assert(parts_view(right@) =~= Seq::<PartView>::empty());
            assert(parts.take(0) =~= Seq::<PartView>::empty());
        }
        while i < n && !stopped
            invariant
                n == self.parts.len(),
                i <= n,
                parts == self@.parts,
                bytes == encode_utf8(compilable_chars(parts)),
                compilable_content@ == compilable_chars(parts),
                content_len == byte_len(compilable_chars(parts)),
                fits_offsets(parts),
                valid_slice_range(parts, start as int, end as int),
                end <= content_len,
                scan_state_is(
                    slice_scan(parts, i as int, start as int, end as int),
                    position,
                    spos,
                    left@,
                    slice@,
                    right@,
                    stopped,
                ),
                !stopped ==> spos == cursor(parts, i as int),
                end < start ==> stopped || position is BeforeRange,
                end < start && !stopped ==> forall|k: int|
                    0 <= k < i && (#[trigger] parts[k]).part_type is Compilable ==> cursor(parts, k)
                        != end,
            decreases n - i,
        {
            proof {
                lemma_cursor_step(parts, i as int);
                lemma_cursor_boundary(parts, i as int);
                lemma_cursor_boundary(parts, i as int + 1);
            }
            let part = &self.parts[i];
            if !part.part_type().is_compilable() {
                match position {
                    ElaborationPosition::BeforeRange => left.push(part.clone()),
                    ElaborationPosition::InRange => slice.push(part.clone()),
                    ElaborationPosition::AfterRange => right.push(part.clone()),
                }
            } else {
                let epos = spos + part.content().as_str().len();
                if spos == end {
                    position = ElaborationPosition::AfterRange;
                }
                match position {
                    ElaborationPosition::BeforeRange => {
                        if spos <= start && start < epos {
                            proof {
                                if end < start {
                                    lemma_cursor_boundary(parts, n as int);
                                    assert(parts.take(n as int) =~= parts);
                                    lemma_cursor_monotone(parts, i + 1, n as int);
                                    assert(compilable_part_starts_at(parts, end as int));
                                    let k = choose|k: int|
                                        0 <= k < parts.len() && (#[trigger] parts[k]).part_type is Compilable
                                            && cursor(parts, k) == end;
                                    if k > i {
                                        lemma_cursor_monotone(parts, i + 1, k);
                                    }
                                    assert(false);
                                }
                            }
                            if spos < start {
                                left.clear();
                            }
                            let b = if epos < end {
                                epos
                            } else {
                                end
                            };
                            let cut = str_byte_slice(compilable_content.as_str(), start, b);
                            let frag = CompilableTextPart::new(
                                String::from_str(cut),
                                part.part_type().clone(),
                            );
                            slice.push(frag);
                            if end < epos {
                                stopped = true;
                            } else {
                                if epos == end {
                                    position = ElaborationPosition::AfterRange;
                                } else {
                                    position = ElaborationPosition::InRange;
                                }
                                spos = epos;
                            }
                        } else {
                            left.clear();
                            spos = epos;
                        }
                    },
                    ElaborationPosition::InRange => {
                        if end <= epos {
                            if spos < end {
                                let cut = str_byte_slice(compilable_content.as_str(), spos, end);
                                let frag = CompilableTextPart::new(
                                    String::from_str(cut),
                                    part.part_type().clone(),
                                );
                                slice.push(frag);
                            }
                            if end < epos {
                                stopped = true;
                            } else {
                                position = ElaborationPosition::AfterRange;
                                spos = epos;
                            }
                        } else {
                            let cut = str_byte_slice(compilable_content.as_str(), spos, epos);
                            let frag = CompilableTextPart::new(
                                String::from_str(cut),
                                part.part_type().clone(),
                            );
                            slice.push(frag);
                            spos = epos;
                        }
                    },
                    ElaborationPosition::AfterRange => {
                        stopped = true;
                    },
                }
            }
            proof {
                assert(parts_view(left@) =~= slice_scan(
                    parts,
                    i + 1,
                    start as int,
                    end as int,
                ).left);
                assert(parts_view(slice@) =~= slice_scan(
                    parts,
                    i + 1,
                    start as int,
                    end as int,
                ).slice);
                assert(parts_view(right@) =~= slice_scan(
                    parts,
                    i + 1,
                    start as int,
                    end as int,
                ).right);
            }
            i = i + 1;
        }
        proof {
            if stopped {
                lemma_slice_scan_stopped(parts, i as int, n as int, start as int, end as int);
            }
        }
        match elaboration_policy {
            PartsSliceElaborationPolicy::DontTakeBorderFixedParts => {},
            PartsSliceElaborationPolicy::TakeLeftFixedParts => {
                prepend_copies(&mut slice, &left);
            },
            PartsSliceElaborationPolicy::TakeRightFixedParts => {
                append_copies(&mut slice, &right);
            },
            PartsSliceElaborationPolicy::TakeLeftAndRightFixedParts => {
                prepend_copies(&mut slice, &left);
                append_copies(&mut slice, &right);
            },
        }
        Ok(slice)
    }
}

} // verus!
