//! The file operations that the library asks for, and the answers it takes.
//!
//! The library never touches a file. It hands its caller a `Request`, the
//! caller carries it out and hands back a `Reply`.

use vstd::prelude::*;

verus! {

/// A file operation for the caller to carry out.
#[derive(Debug)]
pub enum Request {
    /// Find out whether anything exists at `path`. Answered by
    /// `Reply::Present` or `Reply::Absent`.
    Probe { path: String },
    /// Create every missing directory above `path`. Answered by
    /// `Reply::Completed` or `Reply::Failed`.
    CreateParentDirs { path: String },
    /// Write `contents` to the file at `path`, replacing what is there.
    /// Answered by `Reply::Completed` or `Reply::Failed`.
    Write { path: String, contents: String },
    /// Read the file at `path` as text. Answered by `Reply::Contents` or
    /// `Reply::Failed`.
    Read { path: String },
}

/// A request as contracts see it.
pub enum RequestView {
    Probe { path: Seq<char> },
    CreateParentDirs { path: Seq<char> },
    Write { path: Seq<char>, contents: Seq<char> },
    Read { path: Seq<char> },
}

impl View for Request {
    type V = RequestView;

    open spec fn view(&self) -> RequestView {
        match *self {
            Request::Probe { path } => RequestView::Probe { path: path@ },
            Request::CreateParentDirs { path } => RequestView::CreateParentDirs { path: path@ },
            Request::Write { path, contents } => RequestView::Write {
                path: path@,
                contents: contents@,
            },
            Request::Read { path } => RequestView::Read { path: path@ },
        }
    }
}

impl RequestView {
    /// Whether carrying the request out can change a file or a directory.
    pub open spec fn mutates(self) -> bool {
        self is CreateParentDirs || self is Write
    }
}

/// The outcome of a request.
#[derive(Debug)]
pub enum Reply {
    /// Something exists at the probed path.
    Present,
    /// Nothing exists at the probed path.
    Absent,
    /// The directories were created, or the file was written.
    Completed,
    /// The file was read, and this is its text.
    Contents(String),
    /// The request could not be carried out.
    Failed,
}

/// A reply as contracts see it.
pub enum ReplyView {
    Present,
    Absent,
    Completed,
    Contents(Seq<char>),
    Failed,
}

impl View for Reply {
    type V = ReplyView;

    open spec fn view(&self) -> ReplyView {
        match *self {
            Reply::Present => ReplyView::Present,
            Reply::Absent => ReplyView::Absent,
            Reply::Completed => ReplyView::Completed,
            Reply::Contents(text) => ReplyView::Contents(text@),
            Reply::Failed => ReplyView::Failed,
        }
    }
}

} // verus!
