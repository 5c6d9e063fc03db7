//! A modifier given by its pattern, compiled expression and incompatibilities.

use vstd::prelude::*;
use crate::regex_engine::CompiledRegex;
use crate::resource::bucket::BucketView;
use super::{ModifierPattern, ModifiersBucket};

verus! {

/// A modifier: the pattern that identifies it and the modifiers that cannot
/// be applied inside the text it matches.
#[derive(Debug)]
pub struct BaseModifier {
    modifier_pattern: ModifierPattern,
    incompatible_modifiers: ModifiersBucket,
    modifier_pattern_regex: CompiledRegex,
}

impl BaseModifier {
    pub closed spec fn spec_modifier_pattern(&self) -> Seq<char> {
        self.modifier_pattern@
    }

    pub closed spec fn spec_regex_pattern(&self) -> Seq<char> {
        self.modifier_pattern_regex.spec_pattern()
    }

    pub closed spec fn spec_incompatible_modifiers(&self) -> BucketView {
        self.incompatible_modifiers@
    }

    pub fn new(
        modifier_pattern: ModifierPattern,
        regex: CompiledRegex,
        incompatible_modifiers: ModifiersBucket,
    ) -> (r: Self)
        ensures
            r.spec_modifier_pattern() == modifier_pattern@,
            r.spec_regex_pattern() == regex.spec_pattern(),
            r.spec_incompatible_modifiers() == incompatible_modifiers@,
    {
        Self { modifier_pattern_regex: regex, modifier_pattern, incompatible_modifiers }
    }

    pub fn modifier_pattern(&self) -> (r: &ModifierPattern)
        ensures
            r@ == self.spec_modifier_pattern(),
    {
        &self.modifier_pattern
    }

    pub fn incompatible_modifiers(&self) -> (r: &ModifiersBucket)
        ensures
            r@ == self.spec_incompatible_modifiers(),
    {
        &self.incompatible_modifiers
    }

    pub fn modifier_pattern_regex(&self) -> (r: &CompiledRegex)
        ensures
            r.spec_pattern() == self.spec_regex_pattern(),
    {
        &self.modifier_pattern_regex
    }
}

} // verus!
