//! Options of the assembly.

use vstd::prelude::*;
use std::path::PathBuf;
use crate::resource::bucket::strings_view;
use crate::theme::Theme;

verus! {

/// How to assemble: theme, remote add-ons, parallelism and external styles
/// and scripts.
#[derive(Debug)]
pub struct AssemblerConfiguration {
    theme: Theme,
    use_remote_addons: bool,
    parallelization: bool,
    external_styles_paths: Vec<PathBuf>,
    external_styles: Vec<String>,
    external_scripts_paths: Vec<PathBuf>,
    external_scripts: Vec<String>,
}

impl AssemblerConfiguration {
    pub closed spec fn spec_theme(&self) -> Theme {
        self.theme
    }

    pub closed spec fn spec_use_remote_addons(&self) -> bool {
        self.use_remote_addons
    }

    pub closed spec fn spec_parallelization(&self) -> bool {
        self.parallelization
    }

    pub closed spec fn spec_external_styles(&self) -> Seq<Seq<char>> {
        strings_view(self.external_styles@)
    }

    pub closed spec fn spec_external_scripts(&self) -> Seq<Seq<char>> {
        strings_view(self.external_scripts@)
    }

    pub closed spec fn spec_external_styles_paths_count(&self) -> nat {
        self.external_styles_paths@.len()
    }

    pub closed spec fn spec_external_scripts_paths_count(&self) -> nat {
        self.external_scripts_paths@.len()
    }

    /// A configuration with the given theme and switches, and no external
    /// styles or scripts.
    pub fn new(theme: Theme, use_remote_addons: bool, parallelization: bool) -> (r: Self)
        ensures
            r.spec_theme() == theme,
            r.spec_use_remote_addons() == use_remote_addons,
            r.spec_parallelization() == parallelization,
            r.spec_external_styles().len() == 0,
            r.spec_external_scripts().len() == 0,
            r.spec_external_styles_paths_count() == 0,
            r.spec_external_scripts_paths_count() == 0,
    {
        Self {
            theme,
            use_remote_addons,
            parallelization,
            external_styles_paths: Vec::new(),
            external_styles: Vec::new(),
            external_scripts_paths: Vec::new(),
            external_scripts: Vec::new(),
        }
    }

    pub fn theme(&self) -> (r: Theme)
        ensures
            r == self.spec_theme(),
    {
        self.theme
    }

    pub fn set_theme(&mut self, theme: Theme)
        ensures
            final(self).spec_theme() == theme,
            final(self).spec_use_remote_addons() == old(self).spec_use_remote_addons(),
            final(self).spec_parallelization() == old(self).spec_parallelization(),
    {
        self.theme = theme;
    }

    pub fn use_remote_addons(&self) -> (r: bool)
        ensures
            r == self.spec_use_remote_addons(),
    {
        self.use_remote_addons
    }

    pub fn set_use_remote_addons(&mut self, value: bool)
        ensures
            final(self).spec_use_remote_addons() == value,
            final(self).spec_theme() == old(self).spec_theme(),
            final(self).spec_parallelization() == old(self).spec_parallelization(),
    {
        self.use_remote_addons = value;
    }

    pub fn parallelization(&self) -> (r: bool)
        ensures
            r == self.spec_parallelization(),
    {
        self.parallelization
    }

    pub fn set_parallelization(&mut self, value: bool)
        ensures
            final(self).spec_parallelization() == value,
            final(self).spec_theme() == old(self).spec_theme(),
            final(self).spec_use_remote_addons() == old(self).spec_use_remote_addons(),
    {
        self.parallelization = value;
    }

    pub fn external_styles(&self) -> (r: &Vec<String>)
        ensures
            strings_view(r@) == self.spec_external_styles(),
    {
        &self.external_styles
    }

    pub fn set_external_styles(&mut self, styles: Vec<String>)
        ensures
            final(self).spec_external_styles() == strings_view(styles@),
            final(self).spec_theme() == old(self).spec_theme(),
    {
        self.external_styles = styles;
    }

    pub fn external_scripts(&self) -> (r: &Vec<String>)
        ensures
            strings_view(r@) == self.spec_external_scripts(),
    {
        &self.external_scripts
    }

    pub fn set_external_scripts(&mut self, scripts: Vec<String>)
        ensures
            final(self).spec_external_scripts() == strings_view(scripts@),
            final(self).spec_theme() == old(self).spec_theme(),
    {
        self.external_scripts = scripts;
    }

    pub fn external_styles_paths(&self) -> (r: &Vec<PathBuf>)
        ensures
            r@.len() == self.spec_external_styles_paths_count(),
    {
        &self.external_styles_paths
    }

    pub fn set_external_styles_paths(&mut self, paths: Vec<PathBuf>)
        ensures
            final(self).spec_external_styles_paths_count() == paths@.len(),
            final(self).spec_theme() == old(self).spec_theme(),
    {
        self.external_styles_paths = paths;
    }

    pub fn external_scripts_paths(&self) -> (r: &Vec<PathBuf>)
        ensures
            r@.len() == self.spec_external_scripts_paths_count(),
    {
        &self.external_scripts_paths
    }

    pub fn set_external_scripts_paths(&mut self, paths: Vec<PathBuf>)
        ensures
            final(self).spec_external_scripts_paths_count() == paths@.len(),
            final(self).spec_theme() == old(self).spec_theme(),
    {
        self.external_scripts_paths = paths;
    }
}

impl Default for AssemblerConfiguration {
    fn default() -> (r: Self)
        ensures
            r.spec_theme() == Theme::Light,
            !r.spec_use_remote_addons(),
            !r.spec_parallelization(),
            r.spec_external_styles().len() == 0,
            r.spec_external_scripts().len() == 0,
            r.spec_external_styles_paths_count() == 0,
            r.spec_external_scripts_paths_count() == 0,
    {
        Self::new(Theme::Light, false, false)
    }
}

} // verus!
