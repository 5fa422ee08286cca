//! The words that the pipeline and the backend's driver exchange: what the pipeline
//! asks for, and what it is told.
use vstd::prelude::*;
use crate::error::{BuildError, BuildErrorView};
use crate::text::spec_has_nul;
use crate::options::{
    ArchiveKind, BuildOptions, BuildOptionsView, CodegenModel, Optimisation, Relocations,
};

verus! {

/// One module to build: where its IR lies and how it is to be built.
#[derive(Debug)]
pub struct ModuleDescriptor {
    pub path: String,
    pub options: BuildOptions,
}

/// What a [`ModuleDescriptor`] holds, as mathematical values.
pub ghost struct ModuleDescriptorView {
    pub path: Seq<char>,
    pub options: BuildOptionsView,
}

impl View for ModuleDescriptor {
    type V = ModuleDescriptorView;

    open spec fn view(&self) -> ModuleDescriptorView {
        ModuleDescriptorView { path: self.path@, options: self.options@ }
    }
}

/// One compiled module on its way into the archive: the member's name and the
/// temporary file that holds its object code.
#[derive(Debug)]
pub struct CompiledMember {
    pub name: String,
    pub object_path: String,
}

/// What a [`CompiledMember`] holds, as mathematical values.
pub ghost struct CompiledMemberView {
    pub name: Seq<char>,
    pub object_path: Seq<char>,
}

impl View for CompiledMember {
    type V = CompiledMemberView;

    open spec fn view(&self) -> CompiledMemberView {
        CompiledMemberView { name: self.name@, object_path: self.object_path@ }
    }
}

impl Clone for CompiledMember {
    fn clone(&self) -> (copy: CompiledMember)
        ensures
            copy@ == self@,
    {
        CompiledMember { name: self.name.clone(), object_path: self.object_path.clone() }
    }
}

/// The descriptors of a batch, as mathematical values, in their order.
pub open spec fn descriptors_view(inputs: Seq<ModuleDescriptor>) -> Seq<ModuleDescriptorView> {
    Seq::new(inputs.len(), |i: int| inputs[i]@)
}

/// The members of an archive, as mathematical values, in their order.
pub open spec fn members_view(members: Seq<CompiledMember>) -> Seq<CompiledMemberView> {
    Seq::new(members.len(), |i: int| members[i]@)
}

/// A kind of native resource that a batch holds and has to hand back.
#[derive(Copy, Clone, PartialEq, Eq, Debug, Structural)]
pub enum Resource {
    /// The target machine of the module in work.
    Machine,
    /// The module in work.
    Module,
    /// The member descriptors made so far, all of them.
    Members,
    /// The context in which the batch's modules are parsed.
    Context,
    /// The temporary object files made so far, all of them.
    TempFiles,
}

/// What the pipeline asks its driver to do next.
#[derive(Debug)]
pub enum Action {
    /// Register every supported target family with the backend, unless this process
    /// has done so before.
    Initialize,
    /// Create the context of the batch.
    CreateContext,
    /// Read the file at `path` into a buffer of the backend.
    ReadFile { path: String },
    /// Parse the buffer as a module, textual or binary, in the batch's context.
    ParseModule,
    /// Check the parsed module for consistency.
    VerifyModule,
    /// Make `triple` the module's target triple.
    SetTarget { triple: String },
    /// Look up the target that `triple` names.
    ResolveTarget { triple: String },
    /// Make a target machine of the resolved target.
    CreateTargetMachine {
        triple: String,
        cpu: String,
        attr: String,
        opt: Optimisation,
        reloc: Relocations,
        model: CodegenModel,
    },
    /// Make a new, uniquely named file in the directory that holds `beside`.
    CreateTempFile { beside: String },
    /// Generate the module's object code into the file at `path`.
    EmitObject { path: String },
    /// Make the descriptor of an archive member of the file at `object_path`.
    NewMember { object_path: String, name: String },
    /// Write the archive at `path`, of the members made so far, in their order.
    WriteArchive {
        path: String,
        members: Vec<CompiledMember>,
        symbol_table: bool,
        kind: ArchiveKind,
    },
    /// Hand back what is held of this kind.
    Release(Resource),
    /// Nothing is left to do: the batch has ended, with this result.
    Finish(Result<(), BuildError>),
}

/// What an [`Action`] holds, as mathematical values.
pub ghost enum ActionView {
    Initialize,
    CreateContext,
    ReadFile { path: Seq<char> },
    ParseModule,
    VerifyModule,
    SetTarget { triple: Seq<char> },
    ResolveTarget { triple: Seq<char> },
    CreateTargetMachine {
        triple: Seq<char>,
        cpu: Seq<char>,
        attr: Seq<char>,
        opt: Optimisation,
        reloc: Relocations,
        model: CodegenModel,
    },
    CreateTempFile { beside: Seq<char> },
    EmitObject { path: Seq<char> },
    NewMember { object_path: Seq<char>, name: Seq<char> },
    WriteArchive {
        path: Seq<char>,
        members: Seq<CompiledMemberView>,
        symbol_table: bool,
        kind: ArchiveKind,
    },
    Release(Resource),
    Finish(Result<(), BuildErrorView>),
}

/// The result of a batch, as mathematical values.
pub open spec fn result_view(result: Result<(), BuildError>) -> Result<(), BuildErrorView> {
    match result {
        Ok(_) => Ok(()),
        Err(error) => Err(error@),
    }
}

impl View for Action {
    type V = ActionView;

    open spec fn view(&self) -> ActionView {
        match *self {
            Action::Initialize => ActionView::Initialize,
            Action::CreateContext => ActionView::CreateContext,
            Action::ReadFile { path } => ActionView::ReadFile { path: path@ },
            Action::ParseModule => ActionView::ParseModule,
            Action::VerifyModule => ActionView::VerifyModule,
            Action::SetTarget { triple } => ActionView::SetTarget { triple: triple@ },
            Action::ResolveTarget { triple } => ActionView::ResolveTarget { triple: triple@ },
            Action::CreateTargetMachine { triple, cpu, attr, opt, reloc, model } => {
                ActionView::CreateTargetMachine {
                    triple: triple@,
                    cpu: cpu@,
                    attr: attr@,
                    opt,
                    reloc,
                    model,
                }
            },
            Action::CreateTempFile { beside } => ActionView::CreateTempFile { beside: beside@ },
            Action::EmitObject { path } => ActionView::EmitObject { path: path@ },
            Action::NewMember { object_path, name } => ActionView::NewMember {
                object_path: object_path@,
                name: name@,
            },
            Action::WriteArchive { path, members, symbol_table, kind } => ActionView::WriteArchive {
                path: path@,
                members: members_view(members@),
                symbol_table,
                kind,
            },
            Action::Release(resource) => ActionView::Release(resource),
            Action::Finish(result) => ActionView::Finish(result_view(result)),
        }
    }
}

impl ActionView {
    /// Whether no string that the action hands to the backend holds a NUL.
    pub open spec fn is_clean(self) -> bool {
        match self {
            ActionView::ReadFile { path } => !spec_has_nul(path),
            ActionView::SetTarget { triple } => !spec_has_nul(triple),
            ActionView::ResolveTarget { triple } => !spec_has_nul(triple),
            ActionView::CreateTargetMachine { triple, cpu, attr, opt, reloc, model } => {
                !spec_has_nul(triple) && !spec_has_nul(cpu) && !spec_has_nul(attr)
            },
            ActionView::CreateTempFile { beside } => !spec_has_nul(beside),
            ActionView::EmitObject { path } => !spec_has_nul(path),
            ActionView::NewMember { object_path, name } => !spec_has_nul(object_path)
                && !spec_has_nul(name),
            ActionView::WriteArchive { path, members, symbol_table, kind } => {
                &&& !spec_has_nul(path)
                &&& forall|i: int|
                    0 <= i < members.len() ==> !spec_has_nul((#[trigger] members[i]).name)
                        && !spec_has_nul(members[i].object_path)
            },
            _ => true,
        }
    }
}

/// What the driver tells the pipeline of the action that it was asked for.
#[derive(Debug)]
pub enum Reply {
    /// It was done, and there is nothing to hand over.
    Done,
    /// It was done, and made the file at this path.
    File(String),
    /// It failed. With it come the backend's own words, where it had any.
    Failed(Option<String>),
}

/// What a [`Reply`] holds, as mathematical values.
pub ghost enum ReplyView {
    Done,
    File(Seq<char>),
    Failed(Option<Seq<char>>),
}

impl View for Reply {
    type V = ReplyView;

    open spec fn view(&self) -> ReplyView {
        match *self {
            Reply::Done => ReplyView::Done,
            Reply::File(path) => ReplyView::File(path@),
            Reply::Failed(Some(text)) => ReplyView::Failed(Some(text@)),
            Reply::Failed(None) => ReplyView::Failed(None),
        }
    }
}

impl ReplyView {
    /// The words that came with a failure; none where the reply holds none.
    pub open spec fn diagnostic(self) -> Seq<char> {
        match self {
            ReplyView::Failed(Some(text)) => text,
            _ => Seq::empty(),
        }
    }
}

impl Reply {
    /// The words that came with a failure; none where the reply holds none.
    pub fn diagnostic(&self) -> (words: String)
        ensures
            words@ == self@.diagnostic(),
    {
        match self {
            Reply::Failed(Some(text)) => text.clone(),
            _ => String::new(),
        }
    }

    /// Whether the reply reports a failure.
    pub fn is_failure(&self) -> (failed: bool)
        ensures
            failed == (self@ is Failed),
    {
        match self {
            Reply::Failed(_) => true,
            _ => false,
        }
    }
}

} // verus!
