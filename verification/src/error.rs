//! The one error that a batch ends with.
use vstd::prelude::*;
use vstd::string::*;
use crate::options::{BuildOptions, BuildOptionsView};
use crate::text::{quote, quoted};

verus! {

/// What went wrong, by the step that failed.
#[derive(Copy, Clone, PartialEq, Eq, Debug, Structural)]
pub enum ErrorKind {
    /// A file could not be opened, read or made.
    Io,
    /// A module's text or bitcode is malformed.
    Parse,
    /// A module was parsed, and is inconsistent in itself.
    Verification,
    /// The triple names no target that the backend has registered.
    UnknownTarget,
    /// The target is known, but no machine can be made of it with these options.
    TargetMachine,
    /// The backend failed while it generated the object code.
    Codegen,
    /// The backend failed to write the archive.
    ArchiveWrite,
    /// A path or a string holds what the backend cannot take.
    Encoding,
    /// The backend gave no context to work in.
    Context,
}

/// Why a batch failed: the kind of the failure and one message that describes it.
#[derive(Debug)]
pub struct BuildError {
    pub kind: ErrorKind,
    pub message: String,
}

/// What a [`BuildError`] holds, as mathematical values.
pub ghost struct BuildErrorView {
    pub kind: ErrorKind,
    pub message: Seq<char>,
}

impl View for BuildError {
    type V = BuildErrorView;

    open spec fn view(&self) -> BuildErrorView {
        BuildErrorView { kind: self.kind, message: self.message@ }
    }
}

impl Clone for BuildError {
    fn clone(&self) -> (copy: BuildError)
        ensures
            copy@ == self@,
    {
        BuildError { kind: self.kind, message: self.message.clone() }
    }
}

impl BuildError {
    /// An error of the given kind with the given message.
    pub fn new(kind: ErrorKind, message: String) -> (error: BuildError)
        ensures
            error@ == (BuildErrorView { kind, message: message@ }),
    {
        BuildError { kind, message }
    }

    /// The backend gave no context.
    pub open spec fn spec_no_context() -> BuildErrorView {
        BuildErrorView { kind: ErrorKind::Context, message: "could not create the context"@ }
    }

    /// The backend gave no context.
    pub fn no_context() -> (error: BuildError)
        ensures
            error@ == Self::spec_no_context(),
    {
        BuildError {
            kind: ErrorKind::Context,
            message: String::from_str("could not create the context"),
        }
    }

    /// The path of an input module is no UTF-8 text.
    pub open spec fn spec_input_not_utf8() -> BuildErrorView {
        BuildErrorView { kind: ErrorKind::Encoding, message: "input filename is not utf-8"@ }
    }

    /// The path of an input module is no UTF-8 text.
    pub fn input_not_utf8() -> (error: BuildError)
        ensures
            error@ == Self::spec_input_not_utf8(),
    {
        BuildError {
            kind: ErrorKind::Encoding,
            message: String::from_str("input filename is not utf-8"),
        }
    }

    /// The path of an input module holds a NUL.
    pub open spec fn spec_nul_in_input_path() -> BuildErrorView {
        BuildErrorView { kind: ErrorKind::Encoding, message: "input filename contains nulls"@ }
    }

    /// The path of an input module holds a NUL.
    pub fn nul_in_input_path() -> (error: BuildError)
        ensures
            error@ == Self::spec_nul_in_input_path(),
    {
        BuildError {
            kind: ErrorKind::Encoding,
            message: String::from_str("input filename contains nulls"),
        }
    }

    /// The target triple holds a NUL.
    pub open spec fn spec_nul_in_triple() -> BuildErrorView {
        BuildErrorView { kind: ErrorKind::Encoding, message: "triple contains null bytes"@ }
    }

    /// The target triple holds a NUL.
    pub fn nul_in_triple() -> (error: BuildError)
        ensures
            error@ == Self::spec_nul_in_triple(),
    {
        BuildError {
            kind: ErrorKind::Encoding,
            message: String::from_str("triple contains null bytes"),
        }
    }

    /// The CPU name holds a NUL.
    pub open spec fn spec_nul_in_cpu() -> BuildErrorView {
        BuildErrorView { kind: ErrorKind::Encoding, message: "cpu contains null bytes"@ }
    }

    /// The CPU name holds a NUL.
    pub fn nul_in_cpu() -> (error: BuildError)
        ensures
            error@ == Self::spec_nul_in_cpu(),
    {
        BuildError {
            kind: ErrorKind::Encoding,
            message: String::from_str("cpu contains null bytes"),
        }
    }

    /// The feature string holds a NUL.
    pub open spec fn spec_nul_in_attr() -> BuildErrorView {
        BuildErrorView { kind: ErrorKind::Encoding, message: "attr contains null bytes"@ }
    }

    /// The feature string holds a NUL.
    pub fn nul_in_attr() -> (error: BuildError)
        ensures
            error@ == Self::spec_nul_in_attr(),
    {
        BuildError {
            kind: ErrorKind::Encoding,
            message: String::from_str("attr contains null bytes"),
        }
    }

    /// The path of a temporary object file holds a NUL.
    pub open spec fn spec_nul_in_object_path() -> BuildErrorView {
        BuildErrorView { kind: ErrorKind::Encoding, message: "object filename contains nulls"@ }
    }

    /// The path of a temporary object file holds a NUL.
    pub fn nul_in_object_path() -> (error: BuildError)
        ensures
            error@ == Self::spec_nul_in_object_path(),
    {
        BuildError {
            kind: ErrorKind::Encoding,
            message: String::from_str("object filename contains nulls"),
        }
    }

    /// The name of an archive member holds a NUL.
    pub open spec fn spec_nul_in_member_name() -> BuildErrorView {
        BuildErrorView { kind: ErrorKind::Encoding, message: "archive member name contains nulls"@ }
    }

    /// The name of an archive member holds a NUL.
    pub fn nul_in_member_name() -> (error: BuildError)
        ensures
            error@ == Self::spec_nul_in_member_name(),
    {
        BuildError {
            kind: ErrorKind::Encoding,
            message: String::from_str("archive member name contains nulls"),
        }
    }

    /// The path of the archive is no UTF-8 text.
    pub open spec fn spec_archive_not_utf8() -> BuildErrorView {
        BuildErrorView { kind: ErrorKind::Encoding, message: "archive filename is not utf-8"@ }
    }

    /// The path of the archive is no UTF-8 text.
    pub fn archive_not_utf8() -> (error: BuildError)
        ensures
            error@ == Self::spec_archive_not_utf8(),
    {
        BuildError {
            kind: ErrorKind::Encoding,
            message: String::from_str("archive filename is not utf-8"),
        }
    }

    /// The path of the archive holds a NUL.
    pub open spec fn spec_nul_in_archive_path() -> BuildErrorView {
        BuildErrorView { kind: ErrorKind::Encoding, message: "output file has interior nulls"@ }
    }

    /// The path of the archive holds a NUL.
    pub fn nul_in_archive_path() -> (error: BuildError)
        ensures
            error@ == Self::spec_nul_in_archive_path(),
    {
        BuildError {
            kind: ErrorKind::Encoding,
            message: String::from_str("output file has interior nulls"),
        }
    }

    /// An input module could not be read: the message names the path and ends with
    /// the backend's words, both quoted.
    pub open spec fn spec_unreadable_input(
        path: Seq<char>,
        diagnostic: Seq<char>,
    ) -> BuildErrorView {
        BuildErrorView {
            kind: ErrorKind::Io,
            message: "could not open input file "@ + quoted(path) + ": "@ + quoted(diagnostic),
        }
    }

    /// An input module could not be read.
    pub fn unreadable_input(path: &str, diagnostic: &str) -> (error: BuildError)
        ensures
            error@ == Self::spec_unreadable_input(path@, diagnostic@),
    {
        let mut message = String::from_str("could not open input file ");
        message.append(quote(path).as_str());
        message.append(": ");
        message.append(quote(diagnostic).as_str());
        BuildError { kind: ErrorKind::Io, message }
    }

    /// An input module is malformed: the message ends with the backend's words, quoted.
    pub open spec fn spec_unparsable_module(diagnostic: Seq<char>) -> BuildErrorView {
        BuildErrorView {
            kind: ErrorKind::Parse,
            message: "module could not be parsed successfully: "@ + quoted(diagnostic),
        }
    }

    /// An input module is malformed.
    pub fn unparsable_module(diagnostic: &str) -> (error: BuildError)
        ensures
            error@ == Self::spec_unparsable_module(diagnostic@),
    {
        let mut message = String::from_str("module could not be parsed successfully: ");
        message.append(quote(diagnostic).as_str());
        BuildError { kind: ErrorKind::Parse, message }
    }

    /// A parsed module is inconsistent: the message ends with the backend's words,
    /// quoted.
    pub open spec fn spec_invalid_module(diagnostic: Seq<char>) -> BuildErrorView {
        BuildErrorView {
            kind: ErrorKind::Verification,
            message: "Module is not valid: "@ + quoted(diagnostic),
        }
    }

    /// A parsed module is inconsistent.
    pub fn invalid_module(diagnostic: &str) -> (error: BuildError)
        ensures
            error@ == Self::spec_invalid_module(diagnostic@),
    {
        let mut message = String::from_str("Module is not valid: ");
        message.append(quote(diagnostic).as_str());
        BuildError { kind: ErrorKind::Verification, message }
    }

    /// The triple names no registered target: the message holds the triple as it was
    /// given and ends with the backend's words, quoted.
    pub open spec fn spec_unknown_target(
        triple: Seq<char>,
        diagnostic: Seq<char>,
    ) -> BuildErrorView {
        BuildErrorView {
            kind: ErrorKind::UnknownTarget,
            message: "could not generate target from triple "@ + triple + ": "@ + quoted(
                diagnostic,
            ),
        }
    }

    /// The triple names no registered target.
    pub fn unknown_target(triple: &str, diagnostic: &str) -> (error: BuildError)
        ensures
            error@ == Self::spec_unknown_target(triple@, diagnostic@),
    {
        let mut message = String::from_str("could not generate target from triple ");
        message.append(triple);
        message.append(": ");
        message.append(quote(diagnostic).as_str());
        BuildError { kind: ErrorKind::UnknownTarget, message }
    }

    /// No target machine could be made: the message holds the options in full.
    pub open spec fn spec_no_target_machine(options: BuildOptionsView) -> BuildErrorView {
        BuildErrorView {
            kind: ErrorKind::TargetMachine,
            message: "could not create the target machine (likely invalid BuildOptions "@
                + BuildOptions::spec_describe(options) + ")"@,
        }
    }

    /// No target machine could be made.
    pub fn no_target_machine(options: &BuildOptions) -> (error: BuildError)
        ensures
            error@ == Self::spec_no_target_machine(options@),
    {
        let mut message = String::from_str(
            "could not create the target machine (likely invalid BuildOptions ",
        );
        message.append(options.describe().as_str());
        message.append(")");
        BuildError { kind: ErrorKind::TargetMachine, message }
    }

    /// No temporary file could be made: the message ends with the system's words, as
    /// they are.
    pub open spec fn spec_no_temp_file(diagnostic: Seq<char>) -> BuildErrorView {
        BuildErrorView {
            kind: ErrorKind::Io,
            message: "could not create temp file: "@ + diagnostic,
        }
    }

    /// No temporary file could be made.
    pub fn no_temp_file(diagnostic: &str) -> (error: BuildError)
        ensures
            error@ == Self::spec_no_temp_file(diagnostic@),
    {
        let mut message = String::from_str("could not create temp file: ");
        message.append(diagnostic);
        BuildError { kind: ErrorKind::Io, message }
    }

    /// No object code was generated: the message ends with the backend's words, quoted.
    pub open spec fn spec_no_object(diagnostic: Seq<char>) -> BuildErrorView {
        BuildErrorView {
            kind: ErrorKind::Codegen,
            message: "could not generate object file: "@ + quoted(diagnostic),
        }
    }

    /// No object code was generated.
    pub fn no_object(diagnostic: &str) -> (error: BuildError)
        ensures
            error@ == Self::spec_no_object(diagnostic@),
    {
        let mut message = String::from_str("could not generate object file: ");
        message.append(quote(diagnostic).as_str());
        BuildError { kind: ErrorKind::Codegen, message }
    }

    /// The archive was not written: the message is the backend's last error, quoted,
    /// or, where it has none, the quoted words `failed to write archive`.
    pub open spec fn spec_archive_not_written(diagnostic: Option<Seq<char>>) -> BuildErrorView {
        BuildErrorView {
            kind: ErrorKind::ArchiveWrite,
            message: match diagnostic {
                Some(text) => quoted(text),
                None => quoted("failed to write archive"@),
            },
        }
    }

    /// The archive was not written.
    pub fn archive_not_written(diagnostic: Option<&str>) -> (error: BuildError)
        ensures
            error@ == Self::spec_archive_not_written(
                match diagnostic {
                    Some(text) => Some(text@),
                    None => None,
                },
            ),
    {
        let message = match diagnostic {
            Some(text) => quote(text),
            None => quote("failed to write archive"),
        };
        BuildError { kind: ErrorKind::ArchiveWrite, message }
    }
}

} // verus!
