//! Error taxonomy.
//!
//! Every failure the library can report falls under one of five kinds: a
//! configuration the tool rejects, no reachable container engine, a reference
//! that does not parse, an engine call that failed, or a failure while
//! extracting the archive. A [`Fault`] carries the kind together with what
//! the engine reported; [`Fault::to_error`] renders it as a [`DCPError`],
//! wrapping the message with the operation that produced it.

use vstd::prelude::*;

verus! {

/// A plain error: a message describing what failed.
pub struct DCPError {
    details: String,
}

impl View for DCPError {
    type V = Seq<char>;

    closed spec fn view(&self) -> Seq<char> {
        self.details@
    }
}

impl DCPError {
    /// Builds an error carrying `msg` as its message.
    pub fn new(msg: &str) -> (e: DCPError)
        ensures
            e@ == msg@,
    {
        DCPError { details: String::from_str(msg) }
    }

    /// The message this error carries.
    pub fn message(&self) -> (m: &str)
        ensures
            m@ == self@,
    {
        self.details.as_str()
    }
}

/// The engine operation during which an engine call failed.
#[derive(Clone, Copy, PartialEq, Eq, Structural, Debug)]
pub enum Op {
    Pull,
    Create,
    Copy,
    Remove,
}

/// Why an extraction failed after the engine calls themselves succeeded, or
/// why the copied content could not be used.
#[derive(Debug)]
pub enum ExtractionCause {
    /// The engine reported that the requested content path does not exist in
    /// the container filesystem.
    MissingPath { message: String },
    /// The engine returned no bytes at all for the copy call.
    EmptyArchive,
    /// The returned byte stream did not decode as a tar archive.
    Decode,
    /// An archive entry's path would escape the destination directory.
    UnsafePath,
    /// Writing the decoded entries to disk failed.
    WriteFailed { message: String },
}

/// Everything that can go wrong, by kind.
#[derive(Debug)]
pub enum Fault {
    /// The request asked for a mode the tool rejects (writing to stdout).
    Configuration,
    /// Neither container engine answered a handshake.
    RuntimeDetection,
    /// The image reference has an empty repository segment.
    ReferenceParse,
    /// An engine call failed; `message` is what the engine reported.
    Engine { op: Op, message: String },
    /// The extraction itself failed.
    Extraction { cause: ExtractionCause },
}

impl Fault {
    /// Renders the fault as a [`DCPError`], wrapping any engine message with
    /// the operation that produced it.
    pub fn to_error(&self) -> (e: DCPError)
        ensures
            self is Configuration ==> e@ == "writing to stdout is not currently implemented"@,
            self is RuntimeDetection ==> e@ == "no valid container runtime"@,
            self is ReferenceParse ==> e@
                == "could not split provided image into repository and tag"@,
            self matches Fault::Engine { op: Op::Pull, message } ==> e@ == "error pulling the image: "@
                + message@,
            self matches Fault::Engine { op: Op::Create, message } ==> e@
                == "failed to start the image: "@ + message@,
            self matches Fault::Engine { op: Op::Copy, message } ==> e@
                == "error copying the image's files: "@ + message@,
            self matches Fault::Engine { op: Op::Remove, message } ==> e@
                == "failed to stop the image: "@ + message@,
            self matches Fault::Extraction { cause: ExtractionCause::MissingPath { message } } ==> e@
                == "failed to retrieve the files from the container: "@ + message@,
            self matches Fault::Extraction { cause: ExtractionCause::EmptyArchive } ==> e@
                == "failed to retrieve the files from the container"@,
            self matches Fault::Extraction { cause: ExtractionCause::Decode } ==> e@
                == "failed to decode the archive"@,
            self matches Fault::Extraction { cause: ExtractionCause::UnsafePath } ==> e@
                == "an archive entry path escapes the destination directory"@,
            self matches Fault::Extraction { cause: ExtractionCause::WriteFailed { message } } ==> e@
                == "failed to unpack the archive: "@ + message@,
    {
        match self {
            Fault::Configuration => DCPError::new("writing to stdout is not currently implemented"),
            Fault::RuntimeDetection => DCPError::new("no valid container runtime"),
            Fault::ReferenceParse => DCPError::new(
                "could not split provided image into repository and tag",
            ),
            Fault::Engine { op, message } => {
                let prefix = match op {
                    Op::Pull => "error pulling the image: ",
                    Op::Create => "failed to start the image: ",
                    Op::Copy => "error copying the image's files: ",
                    Op::Remove => "failed to stop the image: ",
                };
                let rendered = String::from_str(prefix).concat(message.as_str());
                DCPError::new(rendered.as_str())
            },
            Fault::Extraction { cause } => match cause {
                ExtractionCause::MissingPath { message } => {
                    let rendered = String::from_str(
                        "failed to retrieve the files from the container: ",
                    ).concat(message.as_str());
                    DCPError::new(rendered.as_str())
                },
                ExtractionCause::EmptyArchive => DCPError::new(
                    "failed to retrieve the files from the container",
                ),
                ExtractionCause::Decode => DCPError::new("failed to decode the archive"),
                ExtractionCause::UnsafePath => DCPError::new(
                    "an archive entry path escapes the destination directory",
                ),
                ExtractionCause::WriteFailed { message } => {
                    let rendered = String::from_str("failed to unpack the archive: ").concat(
                        message.as_str(),
                    );
                    DCPError::new(rendered.as_str())
                },
            },
        }
    }
}

} // verus!
