//! Options that change while a dossier is compiled.

use vstd::prelude::*;
use std::collections::HashSet;
use crate::compilable_text::option_string_view;

verus! {

/// Per-compilation options: which documents to compile and where the
/// compiled text belongs.
#[derive(Debug)]
pub struct CompilationConfigurationOverLay {
    compile_only_documents: Option<HashSet<String>>,
    additional_style: Option<String>,
    dossier_name: Option<String>,
    document_name: Option<String>,
}

impl CompilationConfigurationOverLay {
    pub closed spec fn spec_additional_style(&self) -> Option<Seq<char>> {
        option_string_view(self.additional_style)
    }

    pub closed spec fn spec_dossier_name(&self) -> Option<Seq<char>> {
        option_string_view(self.dossier_name)
    }

    pub closed spec fn spec_document_name(&self) -> Option<Seq<char>> {
        option_string_view(self.document_name)
    }

    pub closed spec fn spec_restricts_documents(&self) -> bool {
        self.compile_only_documents is Some
    }

    pub fn compile_only_documents(&self) -> (r: &Option<HashSet<String>>)
        ensures
            r is Some == self.spec_restricts_documents(),
    {
        &self.compile_only_documents
    }

    pub fn set_compile_only_documents(&mut self, documents: Option<HashSet<String>>)
        ensures
            final(self).spec_restricts_documents() == documents is Some,
            final(self).spec_additional_style() == old(self).spec_additional_style(),
            final(self).spec_dossier_name() == old(self).spec_dossier_name(),
            final(self).spec_document_name() == old(self).spec_document_name(),
    {
        self.compile_only_documents = documents;
    }

    pub fn additional_style(&self) -> (r: &Option<String>)
        ensures
            option_string_view(*r) == self.spec_additional_style(),
    {
        &self.additional_style
    }

    pub fn set_additional_style(&mut self, style: Option<String>)
        ensures
            final(self).spec_additional_style() == option_string_view(style),
            final(self).spec_restricts_documents() == old(self).spec_restricts_documents(),
            final(self).spec_dossier_name() == old(self).spec_dossier_name(),
            final(self).spec_document_name() == old(self).spec_document_name(),
    {
        self.additional_style = style;
    }

    pub fn dossier_name(&self) -> (r: &Option<String>)
        ensures
            option_string_view(*r) == self.spec_dossier_name(),
    {
        &self.dossier_name
    }

    pub fn set_dossier_name(&mut self, name: Option<String>)
        ensures
            final(self).spec_dossier_name() == option_string_view(name),
            final(self).spec_restricts_documents() == old(self).spec_restricts_documents(),
            final(self).spec_additional_style() == old(self).spec_additional_style(),
            final(self).spec_document_name() == old(self).spec_document_name(),
    {
        self.dossier_name = name;
    }

    pub fn document_name(&self) -> (r: &Option<String>)
        ensures
            option_string_view(*r) == self.spec_document_name(),
    {
        &self.document_name
    }

    pub fn set_document_name(&mut self, name: Option<String>)
        ensures
            final(self).spec_document_name() == option_string_view(name),
            final(self).spec_restricts_documents() == old(self).spec_restricts_documents(),
            final(self).spec_additional_style() == old(self).spec_additional_style(),
            final(self).spec_dossier_name() == old(self).spec_dossier_name(),
    {
        self.document_name = name;
    }
}

impl Default for CompilationConfigurationOverLay {
    fn default() -> (r: Self)
        ensures
            !r.spec_restricts_documents(),
            r.spec_additional_style() is None,
            r.spec_dossier_name() is None,
            r.spec_document_name() is None,
    {
        Self {
            compile_only_documents: None,
            additional_style: None,
            dossier_name: None,
            document_name: None,
        }
    }
}

} // verus!
