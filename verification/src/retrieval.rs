//! Serving a produced artifact by its name.
//!
//! Artifacts are not registered anywhere: an artifact exists if a file of
//! its name lies in the output directory. The caller looks at the path
//! that [`download_path`] gives and hands what it saw to [`download`].

use vstd::prelude::*;
use crate::outcome::{Failure, Status};
use crate::storage::{artifact_path, artifact_path_for};

verus! {

/// The answer to a download request.
#[derive(Debug)]
pub enum Retrieval {
    /// Send the file at `path`.
    Serve { path: String },
    /// There is no such artifact.
    Missing { message: String },
}

/// The mathematical content of a [`Retrieval`].
pub enum RetrievalView {
    Serve { path: Seq<char> },
    Missing { message: Seq<char> },
}

impl View for Retrieval {
    type V = RetrievalView;

    open spec fn view(&self) -> RetrievalView {
        match self {
            Retrieval::Serve { path } => RetrievalView::Serve { path: path@ },
            Retrieval::Missing { message } => RetrievalView::Missing { message: message@ },
        }
    }
}

impl RetrievalView {
    /// The status the answer is sent under: 200 with the file, 404 without.
    pub open spec fn status(self) -> Status {
        match self {
            RetrievalView::Serve { .. } => Status::Success,
            RetrievalView::Missing { .. } => Failure::ArtifactNotFound.spec_status(),
        }
    }
}

impl Retrieval {
    /// The status the answer is sent under.
    pub fn status(&self) -> (status: Status)
        ensures
            status == self@.status(),
    {
        match self {
            Retrieval::Serve { .. } => Status::Success,
            Retrieval::Missing { .. } => Failure::ArtifactNotFound.status(),
        }
    }
}

/// The answer to a request for the artifact `filename`, given whether a
/// file is present at its path.
pub open spec fn retrieval(filename: Seq<char>, present: bool) -> RetrievalView {
    if present {
        RetrievalView::Serve { path: artifact_path(filename) }
    } else {
        RetrievalView::Missing { message: "File not found"@ }
    }
}

/// The path at which the artifact `filename` is looked for.
pub fn download_path(filename: &str) -> (path: String)
    ensures
        path@ == artifact_path(filename@),
{
    artifact_path_for(filename)
}

/// Answers a request for the artifact `filename`. `present` says whether
/// a file exists at [`download_path`] of that name: if so the file is
/// served from there, if not the request is answered with 404.
pub fn download(filename: &str, present: bool) -> (r: Retrieval)
    ensures
        r@ == retrieval(filename@, present),
{
    if present {
        Retrieval::Serve { path: artifact_path_for(filename) }
    } else {
        Retrieval::Missing { message: String::from_str("File not found") }
    }
}

} // verus!
