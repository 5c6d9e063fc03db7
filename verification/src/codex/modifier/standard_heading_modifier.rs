//! The heading modifiers: `#` marks of a given level, and the relative
//! markers for a heading one level below, above, or at the same level.

use vstd::prelude::*;
use crate::regex_engine::{compile_regex, is_match, regex_find_all, regex_is_valid};
use crate::resource::bucket::{Bucket, BucketView};
use super::{ModifierIdentifier, ModifierPattern, ModifiersBucket};
use super::constants::{CHAPTER_STYLE_PATTERN, CHAPTER_TAGS_PATTERN, MAX_HEADING_LEVEL};

verus! {

/// The standard heading modifiers.
#[derive(Debug, Clone, Copy, PartialEq, Eq, Structural)]
pub enum StandardHeading {
    HeadingGeneralCompactVersion(u32),
    HeadingGeneralExtendedVersion(u32),
    MinorHeading,
    MajorHeading,
    SameHeading,
}

/// The decimal digits of a heading level.
pub open spec fn level_digits(level: u32) -> Seq<char> {
    if level == 1 {
        "1"@
    } else if level == 2 {
        "2"@
    } else if level == 3 {
        "3"@
    } else if level == 4 {
        "4"@
    } else if level == 5 {
        "5"@
    } else {
        "6"@
    }
}

fn level_string(level: u32) -> (r: String)
    requires
        1 <= level <= MAX_HEADING_LEVEL,
    ensures
        r@ == level_digits(level),
{
    if level == 1 {
        String::from_str("1")
    } else if level == 2 {
        String::from_str("2")
    } else if level == 3 {
        String::from_str("3")
    } else if level == 4 {
        String::from_str("4")
    } else if level == 5 {
        String::from_str("5")
    } else {
        String::from_str("6")
    }
}

/// The pattern of `m` matches somewhere in `content`.
pub open spec fn heading_matches(m: StandardHeading, content: Seq<char>) -> bool {
    regex_find_all(m.spec_modifier_pattern(), content).len() > 0
}

/// The first of `mods` whose pattern matches `content`.
pub open spec fn first_heading_match(mods: Seq<StandardHeading>, content: Seq<char>) -> Option<
    StandardHeading,
>
    decreases mods.len(),
{
    if mods.len() == 0 {
        None
    } else if heading_matches(mods[0], content) {
        Some(mods[0])
    } else {
        first_heading_match(mods.drop_first(), content)
    }
}

/// The first match is one of the modifiers searched.
proof fn lemma_first_match_listed(mods: Seq<StandardHeading>, content: Seq<char>)
    ensures
        first_heading_match(mods, content) matches Some(m) ==> mods.contains(m),
    decreases mods.len(),
{
    if mods.len() > 0 && !heading_matches(mods[0], content) {
        lemma_first_match_listed(mods.drop_first(), content);
        if let Some(m) = first_heading_match(mods.drop_first(), content) {
            let k = choose|k: int| 0 <= k < mods.drop_first().len() && mods.drop_first()[k] == m;
            assert(mods[k + 1] == m);
        }
    } else if mods.len() > 0 {
        assert(mods[0] == mods[0]);
    }
}

/// A heading level found in a text is a level that headings can have.
pub proof fn lemma_heading_level_range(content: Seq<char>)
    ensures
        heading_level_of(content) matches Some(level) ==> 1 <= level <= MAX_HEADING_LEVEL,
{
    let all = StandardHeading::spec_ordered();
    lemma_first_match_listed(all, content);
    if let Some(m) = first_heading_match(all, content) {
        let k = choose|k: int| 0 <= k < all.len() && all[k] == m;
        assert(m.has_valid_level());
    }
}

/// Every heading pattern is accepted by the regex engine.
pub open spec fn heading_patterns_valid() -> bool {
    forall|i: int|
        0 <= i < StandardHeading::spec_ordered().len() ==> regex_is_valid(
            (#[trigger] StandardHeading::spec_ordered()[i]).spec_modifier_pattern(),
        )
}

/// The level that the first matching heading modifier gives `content`.
pub open spec fn heading_level_of(content: Seq<char>) -> Option<u32> {
    match first_heading_match(StandardHeading::spec_ordered(), content) {
        Some(StandardHeading::HeadingGeneralExtendedVersion(level)) => Some(level),
        Some(StandardHeading::HeadingGeneralCompactVersion(level)) => Some(level),
        _ => None,
    }
}

/// The relative heading markers do not occur in `content`.
pub open spec fn no_relative_heading(content: Seq<char>) -> bool {
    &&& !heading_matches(StandardHeading::MinorHeading, content)
    &&& !heading_matches(StandardHeading::MajorHeading, content)
    &&& !heading_matches(StandardHeading::SameHeading, content)
}

impl StandardHeading {
    /// The level is one that headings can have.
    pub open spec fn has_valid_level(self) -> bool {
        match self {
            StandardHeading::HeadingGeneralCompactVersion(level) => 1 <= level <= MAX_HEADING_LEVEL,
            StandardHeading::HeadingGeneralExtendedVersion(level) => 1 <= level <= MAX_HEADING_LEVEL,
            _ => true,
        }
    }

    pub open spec fn spec_ordered() -> Seq<StandardHeading> {
        seq![
            StandardHeading::MinorHeading,
            StandardHeading::MajorHeading,
            StandardHeading::SameHeading,
            StandardHeading::HeadingGeneralExtendedVersion(6),
            StandardHeading::HeadingGeneralCompactVersion(6),
            StandardHeading::HeadingGeneralExtendedVersion(5),
            StandardHeading::HeadingGeneralCompactVersion(5),
            StandardHeading::HeadingGeneralExtendedVersion(4),
            StandardHeading::HeadingGeneralCompactVersion(4),
            StandardHeading::HeadingGeneralExtendedVersion(3),
            StandardHeading::HeadingGeneralCompactVersion(3),
            StandardHeading::HeadingGeneralExtendedVersion(2),
            StandardHeading::HeadingGeneralCompactVersion(2),
            StandardHeading::HeadingGeneralExtendedVersion(1),
            StandardHeading::HeadingGeneralCompactVersion(1),
        ]
    }

    pub open spec fn spec_identifier(self) -> Seq<char> {
        match self {
            StandardHeading::HeadingGeneralExtendedVersion(level) => "heading-"@ + level_digits(level)
                + "-extended-version"@,
            StandardHeading::HeadingGeneralCompactVersion(level) => "heading-"@ + level_digits(level)
                + "-compact-version"@,
            StandardHeading::MinorHeading => "minor-heading"@,
            StandardHeading::MajorHeading => "major-heading"@,
            StandardHeading::SameHeading => "same-heading"@,
        }
    }

    /// The part of the pattern that tells the modifiers apart.
    pub open spec fn spec_specific_pattern(self) -> Seq<char> {
        match self {
            StandardHeading::HeadingGeneralExtendedVersion(level) => r"(?m:^#{"@ + level_digits(level)
                + r"}\s+(.*))"@,
            StandardHeading::HeadingGeneralCompactVersion(level) => r"(?m:^#("@ + level_digits(level)
                + r")\s+(.*))"@,
            StandardHeading::MinorHeading => r"(?m:^#-\s+(.*))"@,
            StandardHeading::MajorHeading => r"(?m:^#\+\s+(.*))"@,
            StandardHeading::SameHeading => r"(?m:^#=\s+(.*))"@,
        }
    }

    pub open spec fn spec_modifier_pattern(self) -> Seq<char> {
        self.spec_specific_pattern() + CHAPTER_TAGS_PATTERN@ + CHAPTER_STYLE_PATTERN@
    }

    /// The heading modifiers in the order in which they are tried: the
    /// relative markers, then every level from the deepest, the extended
    /// form before the compact one.
    pub fn ordered() -> (r: Vec<Self>)
        ensures
            r@ == Self::spec_ordered(),
    {
        let mut heading_modifiers: Vec<Self> = vec![
            Self::MinorHeading,
            Self::MajorHeading,
            Self::SameHeading,
        ];
        let mut i: u32 = MAX_HEADING_LEVEL;
        while i >= 1
            invariant
                i <= MAX_HEADING_LEVEL,
                heading_modifiers@ == Self::spec_ordered().take(3 + 2 * (MAX_HEADING_LEVEL - i)),
            decreases i,
        {
            heading_modifiers.push(Self::HeadingGeneralExtendedVersion(i));
            heading_modifiers.push(Self::HeadingGeneralCompactVersion(i));
            assert(heading_modifiers@ =~= Self::spec_ordered().take(
                3 + 2 * (MAX_HEADING_LEVEL - (i - 1)),
            ));
            i = i - 1;
        }
        assert(heading_modifiers@ =~= Self::spec_ordered());
        heading_modifiers
    }

    /// The level of the first heading modifier (from the deepest) whose
    /// pattern matches `content`, if any.
    pub fn heading_level(content: &str) -> (r: Option<u32>)
        requires
            heading_patterns_valid(),
            no_relative_heading(content@),
        ensures
            r == heading_level_of(content@),
    {
        let heading_modifiers = Self::ordered();
        let ghost all = Self::spec_ordered();
        assert(all.skip(0) =~= all);
        let mut i: usize = 0;
        while i < heading_modifiers.len()
            invariant
                i <= heading_modifiers.len(),
                heading_modifiers@ == all,
                all == Self::spec_ordered(),
                heading_patterns_valid(),
                no_relative_heading(content@),
                first_heading_match(all, content@) == first_heading_match(
                    all.skip(i as int),
                    content@,
                ),
            decreases heading_modifiers.len() - i,
        {
            let heading_modifier = heading_modifiers[i];
            assert(regex_is_valid(all[i as int].spec_modifier_pattern()));
            let pattern = heading_modifier.modifier_pattern();
            let regex = compile_regex(pattern.as_str()).unwrap();
            let ghost rest = all.skip(i as int);
            assert(rest[0] == all[i as int]);
            assert(rest.drop_first() =~= all.skip(i + 1));
            if is_match(&regex, content) {
                match heading_modifier {
                    Self::HeadingGeneralExtendedVersion(level) => {
                        return Some(level);
                    },
                    Self::HeadingGeneralCompactVersion(level) => {
                        return Some(level);
                    },
                    _ => {
                        assert(i < 3);
                        assert(false);
                        return None;
                    },
                }
            }
            i = i + 1;
        }
        assert(all.skip(all.len() as int) =~= Seq::<StandardHeading>::empty());
        None
    }

    /// `content` is a heading of some level.
    pub fn str_is_heading(content: &str) -> (r: bool)
        requires
            heading_patterns_valid(),
            no_relative_heading(content@),
        ensures
            r == heading_level_of(content@) is Some,
    {
        Self::heading_level(content).is_some()
    }

    /// `heading_level`, or `None` where it would not be defined: a pattern
    /// that the regex engine refuses, or a relative heading marker in `content`.
    pub fn checked_heading_level(content: &str) -> (r: Option<Option<u32>>)
        ensures
            r is Some == (heading_patterns_valid() && no_relative_heading(content@)),
            r matches Some(level) ==> level == heading_level_of(content@),
    {
        if Self::heading_level_defined(content) {
            Some(Self::heading_level(content))
        } else {
            None
        }
    }

    /// `str_is_heading`, or `None` where `heading_level` is not defined.
    pub fn checked_str_is_heading(content: &str) -> (r: Option<bool>)
        ensures
            r is Some == (heading_patterns_valid() && no_relative_heading(content@)),
            r matches Some(b) ==> b == heading_level_of(content@) is Some,
    {
        if Self::heading_level_defined(content) {
            Some(Self::str_is_heading(content))
        } else {
            None
        }
    }

    fn heading_level_defined(content: &str) -> (r: bool)
        ensures
            r == (heading_patterns_valid() && no_relative_heading(content@)),
    {
        let heading_modifiers = Self::ordered();
        let ghost all = Self::spec_ordered();
        let mut i: usize = 0;
        while i < heading_modifiers.len()
            invariant
                i <= heading_modifiers.len(),
                heading_modifiers@ == all,
                all == Self::spec_ordered(),
                forall|j: int| 0 <= j < i ==> regex_is_valid(#[trigger] all[j].spec_modifier_pattern()),
                forall|j: int|
                    0 <= j < i && j < 3 ==> !heading_matches(#[trigger] all[j], content@),
            decreases heading_modifiers.len() - i,
        {
            let heading_modifier = heading_modifiers[i];
            let pattern = heading_modifier.modifier_pattern();
            match compile_regex(pattern.as_str()) {
                None => {
                    return false;
                },
                Some(regex) => {
                    if i < 3 && is_match(&regex, content) {
                        return false;
                    }
                },
            }
            i = i + 1;
        }
        assert(all[0] == StandardHeading::MinorHeading);
        assert(all[1] == StandardHeading::MajorHeading);
        assert(all[2] == StandardHeading::SameHeading);
        true
    }

    /// The identifier of the modifier.
    pub fn identifier(&self) -> (r: ModifierIdentifier)
        requires
            self.has_valid_level(),
        ensures
            r@ == self.spec_identifier(),
    {
        match *self {
            Self::HeadingGeneralExtendedVersion(level) => {
                let mut r = String::from_str("heading-");
                let digits = level_string(level);
                r.append(digits.as_str());
                r.append("-extended-version");
                r
            },
            Self::HeadingGeneralCompactVersion(level) => {
                let mut r = String::from_str("heading-");
                let digits = level_string(level);
                r.append(digits.as_str());
                r.append("-compact-version");
                r
            },
            Self::MinorHeading => String::from_str("minor-heading"),
            Self::MajorHeading => String::from_str("major-heading"),
            Self::SameHeading => String::from_str("same-heading"),
        }
    }

    /// The pattern of the modifier, followed by the optional chapter tags
    /// and chapter style.
    pub fn modifier_pattern(&self) -> (r: ModifierPattern)
        requires
            self.has_valid_level(),
        ensures
            r@ == self.spec_modifier_pattern(),
    {
        let mut pattern = match *self {
            Self::HeadingGeneralExtendedVersion(level) => {
                let mut p = String::from_str(r"(?m:^#{");
                let digits = level_string(level);
                p.append(digits.as_str());
                p.append(r"}\s+(.*))");
                p
            },
            Self::HeadingGeneralCompactVersion(level) => {
                let mut p = String::from_str(r"(?m:^#(");
                let digits = level_string(level);
                p.append(digits.as_str());
                p.append(r")\s+(.*))");
                p
            },
            Self::MinorHeading => String::from_str(r"(?m:^#-\s+(.*))"),
            Self::MajorHeading => String::from_str(r"(?m:^#\+\s+(.*))"),
            Self::SameHeading => String::from_str(r"(?m:^#=\s+(.*))"),
        };
        pattern.append(CHAPTER_TAGS_PATTERN);
        pattern.append(CHAPTER_STYLE_PATTERN);
        pattern
    }

    pub fn incompatible_modifiers(&self) -> (r: ModifiersBucket)
        ensures
            r@ == BucketView::Nothing,
    {
        Bucket::Nothing
    }
}

} // verus!
