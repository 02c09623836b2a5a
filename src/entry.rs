//! The choice of strategy for one compilation.

use crate::imitator_importer::ImitatorImporter;
use crate::paths::is_absolute_path;
use crate::proxy_importer::{ImporterCallbacks, ProxyImporter, ResolverChain};
use vstd::prelude::*;

verus! {

/// The import resolution of one compilation: the local conventions, or the
/// host's resolver chain.
pub enum Importer {
    Local(ImitatorImporter),
    Proxy(ProxyImporter),
}

impl Importer {
    /// The bridge over the modern importers when the options list some (even
    /// an empty list), else the local strategy.
    pub fn for_sass_options(
        importers: Option<Vec<ImporterCallbacks>>,
        file: Option<String>,
        pwd: String,
    ) -> (r: Self)
        requires
            is_absolute_path(pwd@),
        ensures
            match r {
                Importer::Proxy(p) => {
                    &&& importers is Some
                    &&& p.wf()
                    &&& p.spec_chain() == ResolverChain::Modern(importers->0)
                    &&& p.spec_file() == file.deep_view()
                    &&& p.spec_pwd() == pwd@
                },
                Importer::Local(l) => {
                    &&& importers is None
                    &&& l.wf()
                    &&& l.spec_file() == file.deep_view()
                    &&& l.spec_pwd() == pwd@
                },
            },
    {
        match importers {
            Some(i) => Importer::Proxy(ProxyImporter::with_chain(ResolverChain::Modern(i), file, pwd)),
            None => Importer::Local(ImitatorImporter::new(file, pwd)),
        }
    }

    /// The bridge over the legacy importers when the options list some (even
    /// an empty list), else the local strategy.
    pub fn for_legacy_sass_options(importers: Option<usize>, file: Option<String>, pwd: String) -> (r:
        Self)
        requires
            is_absolute_path(pwd@),
        ensures
            match r {
                Importer::Proxy(p) => {
                    &&& importers is Some
                    &&& p.wf()
                    &&& p.spec_chain() == ResolverChain::Legacy(importers->0)
                    &&& p.spec_file() == file.deep_view()
                    &&& p.spec_pwd() == pwd@
                },
                Importer::Local(l) => {
                    &&& importers is None
                    &&& l.wf()
                    &&& l.spec_file() == file.deep_view()
                    &&& l.spec_pwd() == pwd@
                },
            },
    {
        match importers {
            Some(n) => Importer::Proxy(ProxyImporter::with_chain(ResolverChain::Legacy(n), file, pwd)),
            None => Importer::Local(ImitatorImporter::new(file, pwd)),
        }
    }
}

} // verus!
