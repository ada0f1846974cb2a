//! Parameters of the strategies by which code or a prebuilt artifact is
//! obtained: a git repository, a local path or an archive behind a URL.
use crate::text::{
    has_prefix, is_absolute, is_absolute_path, lemma_opt_trim_idempotent,
    lemma_trim_seq_idempotent, opt_trim, opt_view, reports, starts_with, trim_option, trim_seq,
    trim_string,
};
use vstd::prelude::*;

verus! {

/// The parameters of an acquisition strategy as plain text.
pub enum SourceView {
    Git { url: Seq<char>, branch: Option<Seq<char>>, revision: Option<Seq<char>> },
    Local { path: Seq<char> },
    Archive { url: Seq<char> },
}

/// The same parameters, trimmed where the strategy trims them: every text of
/// a git source, the URL of an archive; a local path is kept as it is.
pub open spec fn trim_source(v: SourceView) -> SourceView {
    match v {
        SourceView::Git { url, branch, revision } => SourceView::Git {
            url: trim_seq(url),
            branch: opt_trim(branch),
            revision: opt_trim(revision),
        },
        SourceView::Local { path } => SourceView::Local { path },
        SourceView::Archive { url } => SourceView::Archive { url: trim_seq(url) },
    }
}

/// The first structural defect of the parameters, if any.
pub open spec fn source_error(v: SourceView) -> Option<Seq<char>> {
    match v {
        SourceView::Git { url, branch, revision } => {
            if url.len() == 0 {
                Some("GitSource: url is empty"@)
            } else if branch is Some && revision is Some {
                Some("GitSource: branch and revision are both specified"@)
            } else if branch matches Some(b) && b.len() == 0 {
                Some("GitSource: branch is empty"@)
            } else if revision matches Some(r) && r.len() == 0 {
                Some("GitSource: revision is empty"@)
            } else {
                None
            }
        },
        SourceView::Local { path } => {
            if !is_absolute_path(path) {
                Some("LocalSource: path should be an absolute path"@)
            } else {
                None
            }
        },
        SourceView::Archive { url } => {
            if url.len() == 0 {
                Some("ArchiveSource: url is empty"@)
            } else if !has_prefix(url, "http://"@) && !has_prefix(url, "https://"@) {
                Some("ArchiveSource: url should use http or https"@)
            } else {
                None
            }
        },
    }
}

/// Trimming parameters twice gives what trimming them once gives.
pub proof fn lemma_trim_source_idempotent(v: SourceView)
    ensures
        trim_source(trim_source(v)) == trim_source(v),
{
    match v {
        SourceView::Git { url, branch, revision } => {
            lemma_trim_seq_idempotent(url);
            lemma_opt_trim_idempotent(branch);
            lemma_opt_trim_idempotent(revision);
        },
        SourceView::Local { path } => {},
        SourceView::Archive { url } => {
            lemma_trim_seq_idempotent(url);
        },
    }
}

/// A git repository, at a branch or at a revision.
#[derive(Debug, Clone, PartialEq, Eq)]
pub struct GitSource {
    pub url: String,
    pub branch: Option<String>,
    pub revision: Option<String>,
}

impl View for GitSource {
    type V = SourceView;

    open spec fn view(&self) -> SourceView {
        SourceView::Git {
            url: self.url@,
            branch: opt_view(self.branch),
            revision: opt_view(self.revision),
        }
    }
}

impl GitSource {
    pub fn new(url: String, branch: Option<String>, revision: Option<String>) -> (r: Self)
        ensures
            r@ == (SourceView::Git {
                url: url@,
                branch: opt_view(branch),
                revision: opt_view(revision),
            }),
    {
        GitSource { url, branch, revision }
    }

    pub fn validate(&self) -> (r: Result<(), String>)
        ensures
            reports(r, source_error(self@)),
    {
        if self.url.as_str().unicode_len() == 0 {
            return Err(String::from_str("GitSource: url is empty"));
        }
        if self.branch.is_some() && self.revision.is_some() {
            return Err(String::from_str("GitSource: branch and revision are both specified"));
        }
        if let Some(b) = &self.branch {
            if b.as_str().unicode_len() == 0 {
                return Err(String::from_str("GitSource: branch is empty"));
            }
        }
        if let Some(rev) = &self.revision {
            if rev.as_str().unicode_len() == 0 {
                return Err(String::from_str("GitSource: revision is empty"));
            }
        }
        Ok(())
    }

    pub fn trim(&mut self)
        ensures
            final(self)@ == trim_source(old(self)@),
    {
        self.url = trim_string(&self.url);
        self.branch = trim_option(&self.branch);
        self.revision = trim_option(&self.revision);
    }
}

/// A path on the local file system.
#[derive(Debug, Clone, PartialEq, Eq)]
pub struct LocalSource {
    pub path: String,
}

impl View for LocalSource {
    type V = SourceView;

    open spec fn view(&self) -> SourceView {
        SourceView::Local { path: self.path@ }
    }
}

impl LocalSource {
    pub fn new(path: String) -> (r: Self)
        ensures
            r@ == (SourceView::Local { path: path@ }),
    {
        LocalSource { path }
    }

    pub fn path(&self) -> (r: &String)
        ensures
            r@ == self.path@,
    {
        &self.path
    }

    pub fn validate(&self) -> (r: Result<(), String>)
        ensures
            reports(r, source_error(self@)),
    {
        if !is_absolute(self.path.as_str()) {
            return Err(String::from_str("LocalSource: path should be an absolute path"));
        }
        Ok(())
    }

    pub fn trim(&mut self)
        ensures
            final(self)@ == trim_source(old(self)@),
    {
    }
}

/// An archive to download from an http or https URL.
#[derive(Debug, Clone, PartialEq, Eq)]
pub struct ArchiveSource {
    pub url: String,
}

impl View for ArchiveSource {
    type V = SourceView;

    open spec fn view(&self) -> SourceView {
        SourceView::Archive { url: self.url@ }
    }
}

impl ArchiveSource {
    pub fn new(url: String) -> (r: Self)
        ensures
            r@ == (SourceView::Archive { url: url@ }),
    {
        ArchiveSource { url }
    }

    pub fn validate(&self) -> (r: Result<(), String>)
        ensures
            reports(r, source_error(self@)),
    {
        if self.url.as_str().unicode_len() == 0 {
            return Err(String::from_str("ArchiveSource: url is empty"));
        }
        if !starts_with(self.url.as_str(), "http://") && !starts_with(
            self.url.as_str(),
            "https://",
        ) {
            return Err(String::from_str("ArchiveSource: url should use http or https"));
        }
        Ok(())
    }

    pub fn trim(&mut self)
        ensures
            final(self)@ == trim_source(old(self)@),
    {
        self.url = trim_string(&self.url);
    }
}

} // verus!
