//! Where files are.

use vstd::prelude::*;

verus! {

/// Where a file is.
#[derive(Debug, PartialEq, Eq)]
pub enum FilePath {
    /// At this path.
    At(String),
    /// In the directory `dir`, under the name `name`. What path the two make is up
    /// to the system that the file is on.
    In { dir: String, name: String },
}

/// Where a file is, as text.
pub enum FilePathView {
    At(Seq<char>),
    In { dir: Seq<char>, name: Seq<char> },
}

impl View for FilePath {
    type V = FilePathView;

    open spec fn view(&self) -> FilePathView {
        match self {
            FilePath::At(path) => FilePathView::At(path@),
            FilePath::In { dir, name } => FilePathView::In { dir: dir@, name: name@ },
        }
    }
}

} // verus!
