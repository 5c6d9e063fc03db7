//! Where a compiled text belongs.

use vstd::prelude::*;
use crate::compilable_text::option_string_view;

verus! {

/// The names of the dossier and of the document being compiled.
#[derive(Debug, Clone)]
pub struct CompilationMetadata {
    dossier_name: Option<String>,
    document_name: Option<String>,
}

impl CompilationMetadata {
    pub closed spec fn spec_dossier_name(&self) -> Option<Seq<char>> {
        option_string_view(self.dossier_name)
    }

    pub closed spec fn spec_document_name(&self) -> Option<Seq<char>> {
        option_string_view(self.document_name)
    }

    /// Metadata with neither name.
    pub fn new() -> (r: Self)
        ensures
            r.spec_dossier_name() is None,
            r.spec_document_name() is None,
    {
        Self { document_name: None, dossier_name: None }
    }

    pub fn dossier_name(&self) -> (r: &Option<String>)
        ensures
            option_string_view(*r) == self.spec_dossier_name(),
    {
        &self.dossier_name
    }

    pub fn set_dossier_name(&mut self, name: Option<String>)
        ensures
            final(self).spec_dossier_name() == option_string_view(name),
            final(self).spec_document_name() == old(self).spec_document_name(),
    {
        self.dossier_name = name;
    }

    pub fn document_name(&self) -> (r: &Option<String>)
        ensures
            option_string_view(*r) == self.spec_document_name(),
    {
        &self.document_name
    }

    pub fn set_document_name(&mut self, name: Option<String>)
        ensures
            final(self).spec_document_name() == option_string_view(name),
            final(self).spec_dossier_name() == old(self).spec_dossier_name(),
    {
        self.document_name = name;
    }
}

impl Default for CompilationMetadata {
    fn default() -> (r: Self)
        ensures
            r.spec_dossier_name() is None,
            r.spec_document_name() is None,
    {
        Self::new()
    }
}

} // verus!
