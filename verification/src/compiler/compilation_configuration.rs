//! Options of a compilation.

pub mod compilation_configuration_overlay;
pub mod list_bullet_configuration_record;

use vstd::prelude::*;
use std::path::PathBuf;
use crate::bibliography::Bibliography;
use crate::codex::modifier::ModifiersBucket;
use crate::resource::bucket::{Bucket, BucketView};
use crate::resource::text_reference::TextReferenceMap;
use crate::theme::Theme;
use list_bullet_configuration_record::ListBulletConfigurationRecord;

verus! {

/// `std::path::PathBuf`, carried through as an opaque value.
#[verifier::external_type_specification]
#[verifier::external_body]
pub struct ExPathBuf(PathBuf);

/// `PathBuf::from` a string; nothing is claimed of the path.
#[verifier::external_body]
fn path_buf_from(s: &str) -> PathBuf {
    PathBuf::from(s)
}

/// What kind of resource is compiled.
#[derive(Debug, Clone, Copy, PartialEq, Eq)]
pub enum CompilableResourceType {
    Dossier,
    File,
    Unknown,
}

impl Default for CompilableResourceType {
    fn default() -> (r: Self)
        ensures
            r == CompilableResourceType::Unknown,
    {
        CompilableResourceType::Unknown
    }
}

/// All the options of a compilation.
#[derive(Debug)]
pub struct CompilationConfiguration {
    input_location: PathBuf,
    output_location: PathBuf,
    embed_local_image: bool,
    embed_remote_image: bool,
    compress_embed_image: bool,
    strict_image_src_check: bool,
    excluded_modifiers: ModifiersBucket,
    parallelization: bool,
    list_bullets_configuration: Vec<ListBulletConfigurationRecord>,
    strict_list_check: bool,
    strict_focus_block_check: bool,
    references: TextReferenceMap,
    fast_draft: bool,
    bibliography: Option<Bibliography>,
    theme: Theme,
    resource_type: CompilableResourceType,
}

impl CompilationConfiguration {
    /// Where the sources to compile are.
    pub closed spec fn spec_input_location(&self) -> PathBuf {
        self.input_location
    }

    /// Where the compiled output goes.
    pub closed spec fn spec_output_location(&self) -> PathBuf {
        self.output_location
    }

    pub closed spec fn spec_embed_local_image(&self) -> bool {
        self.embed_local_image
    }

    pub closed spec fn spec_embed_remote_image(&self) -> bool {
        self.embed_remote_image
    }

    pub closed spec fn spec_compress_embed_image(&self) -> bool {
        self.compress_embed_image
    }

    pub closed spec fn spec_strict_image_src_check(&self) -> bool {
        self.strict_image_src_check
    }

    pub closed spec fn spec_excluded_modifiers(&self) -> BucketView {
        self.excluded_modifiers@
    }

    pub closed spec fn spec_parallelization(&self) -> bool {
        self.parallelization
    }

    pub closed spec fn spec_strict_list_check(&self) -> bool {
        self.strict_list_check
    }

    pub closed spec fn spec_strict_focus_block_check(&self) -> bool {
        self.strict_focus_block_check
    }

    pub closed spec fn spec_references(&self) -> Map<Seq<char>, Seq<char>> {
        self.references@
    }

    pub closed spec fn spec_fast_draft(&self) -> bool {
        self.fast_draft
    }

    pub closed spec fn spec_theme(&self) -> Theme {
        self.theme
    }

    pub closed spec fn spec_resource_type(&self) -> CompilableResourceType {
        self.resource_type
    }

    /// The bullet renderings, in the order in which they are tried.
    pub closed spec fn spec_list_bullets(&self) -> Seq<ListBulletConfigurationRecord> {
        self.list_bullets_configuration@
    }

    pub closed spec fn spec_has_bibliography(&self) -> bool {
        self.bibliography is Some
    }

    /// The keys of the bibliography, in order, if there is one.
    pub closed spec fn spec_bibliography_keys(&self) -> Option<Seq<Seq<char>>> {
        match self.bibliography {
            Some(b) => Some(b.spec_keys()),
            None => None,
        }
    }

    pub fn new(
        input_location: PathBuf,
        output_location: PathBuf,
        embed_local_image: bool,
        embed_remote_image: bool,
        compress_embed_image: bool,
        strict_image_src_check: bool,
        excluded_modifiers: ModifiersBucket,
        parallelization: bool,
        list_bullets_configuration: Vec<ListBulletConfigurationRecord>,
        strict_list_check: bool,
        strict_focus_block_check: bool,
        references: TextReferenceMap,
        fast_draft: bool,
        bibliography: Option<Bibliography>,
        theme: Theme,
        resource_type: CompilableResourceType,
    ) -> (r: Self)
        ensures
            r.spec_input_location() == input_location,
            r.spec_output_location() == output_location,
            r.spec_embed_local_image() == embed_local_image,
            r.spec_embed_remote_image() == embed_remote_image,
            r.spec_compress_embed_image() == compress_embed_image,
            r.spec_strict_image_src_check() == strict_image_src_check,
            r.spec_excluded_modifiers() == excluded_modifiers@,
            r.spec_parallelization() == parallelization,
            r.spec_list_bullets() == list_bullets_configuration@,
            r.spec_strict_list_check() == strict_list_check,
            r.spec_strict_focus_block_check() == strict_focus_block_check,
            r.spec_references() == references@,
            r.spec_fast_draft() == fast_draft,
            r.spec_has_bibliography() == bibliography is Some,
            r.spec_bibliography_keys() == match bibliography {
                Some(b) => Some(b.spec_keys()),
                None => None,
            },
            r.spec_theme() == theme,
            r.spec_resource_type() == resource_type,
    {
        Self {
            input_location,
            output_location,
            embed_local_image,
            embed_remote_image,
            compress_embed_image,
            strict_image_src_check,
            excluded_modifiers,
            parallelization,
            list_bullets_configuration,
            strict_list_check,
            strict_focus_block_check,
            references,
            fast_draft,
            bibliography,
            theme,
            resource_type,
        }
    }

    pub fn input_location(&self) -> (r: &PathBuf)
        ensures
            *r == self.spec_input_location(),
    {
        &self.input_location
    }

    pub fn output_location(&self) -> (r: &PathBuf)
        ensures
            *r == self.spec_output_location(),
    {
        &self.output_location
    }

    pub fn embed_local_image(&self) -> (r: bool)
        ensures
            r == self.spec_embed_local_image(),
    {
        self.embed_local_image
    }

    pub fn embed_remote_image(&self) -> (r: bool)
        ensures
            r == self.spec_embed_remote_image(),
    {
        self.embed_remote_image
    }

    pub fn compress_embed_image(&self) -> (r: bool)
        ensures
            r == self.spec_compress_embed_image(),
    {
        self.compress_embed_image
    }

    pub fn strict_image_src_check(&self) -> (r: bool)
        ensures
            r == self.spec_strict_image_src_check(),
    {
        self.strict_image_src_check
    }

    pub fn excluded_modifiers(&self) -> (r: &ModifiersBucket)
        ensures
            r@ == self.spec_excluded_modifiers(),
    {
        &self.excluded_modifiers
    }

    pub fn set_excluded_modifiers(&mut self, excluded_modifiers: ModifiersBucket)
        ensures
            final(self).spec_excluded_modifiers() == excluded_modifiers@,
            final(self).spec_fast_draft() == old(self).spec_fast_draft(),
            final(self).spec_references() == old(self).spec_references(),
    {
        self.excluded_modifiers = excluded_modifiers;
    }

    pub fn parallelization(&self) -> (r: bool)
        ensures
            r == self.spec_parallelization(),
    {
        self.parallelization
    }

    pub fn list_bullets_configuration(&self) -> (r: &Vec<ListBulletConfigurationRecord>)
        ensures
            r@ == self.spec_list_bullets(),
    {
        &self.list_bullets_configuration
    }

    pub fn set_list_bullets_configuration(
        &mut self,
        list_bullets_configuration: Vec<ListBulletConfigurationRecord>,
    )
        ensures
            final(self).spec_list_bullets() == list_bullets_configuration@,
            final(self).spec_strict_list_check() == old(self).spec_strict_list_check(),
    {
        self.list_bullets_configuration = list_bullets_configuration;
    }

    pub fn strict_list_check(&self) -> (r: bool)
        ensures
            r == self.spec_strict_list_check(),
    {
        self.strict_list_check
    }

    pub fn set_strict_list_check(&mut self, strict_list_check: bool)
        ensures
            final(self).spec_strict_list_check() == strict_list_check,
            final(self).spec_list_bullets() == old(self).spec_list_bullets(),
    {
        self.strict_list_check = strict_list_check;
    }

    pub fn strict_focus_block_check(&self) -> (r: bool)
        ensures
            r == self.spec_strict_focus_block_check(),
    {
        self.strict_focus_block_check
    }

    pub fn set_strict_focus_block_check(&mut self, strict_focus_block_check: bool)
        ensures
            final(self).spec_strict_focus_block_check() == strict_focus_block_check,
    {
        self.strict_focus_block_check = strict_focus_block_check;
    }

    pub fn references(&self) -> (r: &TextReferenceMap)
        ensures
            r@ == self.spec_references(),
    {
        &self.references
    }

    pub fn set_references(&mut self, references: TextReferenceMap)
        ensures
            final(self).spec_references() == references@,
            final(self).spec_fast_draft() == old(self).spec_fast_draft(),
            final(self).spec_excluded_modifiers() == old(self).spec_excluded_modifiers(),
    {
        self.references = references;
    }

    pub fn fast_draft(&self) -> (r: bool)
        ensures
            r == self.spec_fast_draft(),
    {
        self.fast_draft
    }

    pub fn set_fast_draft(&mut self, fast_draft: bool)
        ensures
            final(self).spec_fast_draft() == fast_draft,
            final(self).spec_references() == old(self).spec_references(),
            final(self).spec_excluded_modifiers() == old(self).spec_excluded_modifiers(),
    {
        self.fast_draft = fast_draft;
    }

    pub fn set_bibliography(&mut self, bibliography: Option<Bibliography>)
        ensures
            final(self).spec_has_bibliography() == bibliography is Some,
            final(self).spec_bibliography_keys() == match bibliography {
                Some(b) => Some(b.spec_keys()),
                None => None,
            },
            final(self).spec_fast_draft() == old(self).spec_fast_draft(),
    {
        self.bibliography = bibliography;
    }

    pub fn bibliography(&self) -> (r: &Option<Bibliography>)
        ensures
            r is Some == self.spec_has_bibliography(),
            self.spec_bibliography_keys() == match *r {
                Some(b) => Some(b.spec_keys()),
                None => None,
            },
    {
        &self.bibliography
    }

    pub fn theme(&self) -> (r: Theme)
        ensures
            r == self.spec_theme(),
    {
        self.theme
    }

    pub fn resource_type(&self) -> (r: CompilableResourceType)
        ensures
            r == self.spec_resource_type(),
    {
        self.resource_type
    }
}

impl Default for CompilationConfiguration {
    fn default() -> (r: Self)
        ensures
            r.spec_embed_local_image(),
            !r.spec_embed_remote_image(),
            !r.spec_compress_embed_image(),
            !r.spec_strict_image_src_check(),
            r.spec_excluded_modifiers() == BucketView::Nothing,
            !r.spec_parallelization(),
            r.spec_list_bullets().len() == 0,
            !r.spec_strict_list_check(),
            !r.spec_strict_focus_block_check(),
            r.spec_references() == Map::<Seq<char>, Seq<char>>::empty(),
            !r.spec_fast_draft(),
            !r.spec_has_bibliography(),
            r.spec_bibliography_keys() is None,
            r.spec_theme() == Theme::Light,
            r.spec_resource_type() == CompilableResourceType::Unknown,
    {
        Self {
            input_location: path_buf_from("."),
            output_location: path_buf_from("."),
            embed_local_image: true,
            embed_remote_image: false,
            compress_embed_image: false,
            strict_image_src_check: false,
            excluded_modifiers: Bucket::Nothing,
            parallelization: false,
            list_bullets_configuration: list_bullet_configuration_record::default_bullets_configuration(),
            strict_list_check: false,
            strict_focus_block_check: false,
            references: TextReferenceMap::new(),
            fast_draft: false,
            bibliography: None,
            theme: Theme::Light,
            resource_type: CompilableResourceType::Unknown,
        }
    }
}

} // verus!
