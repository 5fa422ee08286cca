//! The pipeline as a state machine over mathematical values: which action each
//! state asks for, and which state each reply leads to.
use vstd::prelude::*;
use crate::error::{BuildError, BuildErrorView, ErrorKind};
use crate::options::ArchiveKind;
use crate::protocol::{ActionView, CompiledMemberView, ModuleDescriptorView, ReplyView, Resource};
use crate::text::spec_has_nul;

verus! {

/// Where a batch stands: the action that it waits for.
#[derive(Copy, Clone, PartialEq, Eq, Debug, Structural)]
pub enum Stage {
    /// The target families are to be registered.
    Initialize,
    /// The context is to be created.
    CreateContext,
    /// The file of the module in work is to be read.
    ReadFile,
    /// The buffer is to be parsed.
    ParseModule,
    /// The module is to be checked.
    VerifyModule,
    /// The module is to get the triple of its options.
    SetTarget,
    /// The triple's target is to be looked up.
    ResolveTarget,
    /// The target machine is to be made.
    CreateTargetMachine,
    /// The temporary object file is to be made.
    CreateTempFile,
    /// The object code is to be generated.
    EmitObject,
    /// The member's descriptor is to be made.
    NewMember,
    /// The target machine of the module in work is to be handed back.
    DisposeMachine,
    /// The module in work is to be handed back.
    DisposeModule,
    /// The archive is to be written.
    WriteArchive,
    /// The result is known, and what the batch still holds is to be handed back.
    Closing,
    /// The batch has ended and holds nothing.
    Finished,
}

impl Stage {
    /// Whether a module is in work at this stage.
    pub open spec fn in_module(self) -> bool {
        self.reads_module() || self.emits_module()
    }

    /// The stages of the loader: from reading the file to checking the module.
    pub open spec fn reads_module(self) -> bool {
        self == Stage::ReadFile || self == Stage::ParseModule || self == Stage::VerifyModule
    }

    /// The stages of the emitter: from setting the triple to handing the module back.
    pub open spec fn emits_module(self) -> bool {
        self == Stage::SetTarget || self == Stage::ResolveTarget || self
            == Stage::CreateTargetMachine || self == Stage::CreateTempFile || self
            == Stage::EmitObject || self == Stage::NewMember || self == Stage::DisposeMachine
            || self == Stage::DisposeModule
    }

    /// The number of replies that the module in work still takes at most, this
    /// stage's own included; 0 where no module is in work.
    pub open spec fn module_steps_left(self) -> nat {
        match self {
            Stage::ReadFile => 11,
            Stage::ParseModule => 10,
            Stage::VerifyModule => 9,
            Stage::SetTarget => 8,
            Stage::ResolveTarget => 7,
            Stage::CreateTargetMachine => 6,
            Stage::CreateTempFile => 5,
            Stage::EmitObject => 4,
            Stage::NewMember => 3,
            Stage::DisposeMachine => 2,
            Stage::DisposeModule => 1,
            _ => 0,
        }
    }

    /// The kind of the error that a failure reported at this stage becomes; `None`
    /// at a stage whose action has no way to fail.
    pub open spec fn failure_kind(self) -> Option<ErrorKind> {
        match self {
            Stage::CreateContext => Some(ErrorKind::Context),
            Stage::ReadFile => Some(ErrorKind::Io),
            Stage::ParseModule => Some(ErrorKind::Parse),
            Stage::VerifyModule => Some(ErrorKind::Verification),
            Stage::ResolveTarget => Some(ErrorKind::UnknownTarget),
            Stage::CreateTargetMachine => Some(ErrorKind::TargetMachine),
            Stage::CreateTempFile => Some(ErrorKind::Io),
            Stage::EmitObject => Some(ErrorKind::Codegen),
            Stage::WriteArchive => Some(ErrorKind::ArchiveWrite),
            _ => None,
        }
    }

    /// Whether the result of the batch is known at this stage.
    pub open spec fn is_closed(self) -> bool {
        self == Stage::Closing || self == Stage::Finished
    }
}

/// The state of one batch.
pub ghost struct PipelineView {
    /// Where the archive is to be written.
    pub archive: Seq<char>,
    /// The format of the archive.
    pub kind: ArchiveKind,
    /// The modules to build, in the caller's order.
    pub inputs: Seq<ModuleDescriptorView>,
    /// The action that the batch waits for.
    pub stage: Stage,
    /// The index of the module in work; the number of modules, once all are built.
    pub cursor: nat,
    /// The temporary object file of the module in work, once it is made.
    pub object_path: Seq<char>,
    /// The members made so far, in the order of their modules.
    pub members: Seq<CompiledMemberView>,
    /// Whether the batch holds its context.
    pub holds_context: bool,
    /// Whether the batch holds the module in work.
    pub holds_module: bool,
    /// Whether the batch holds the target machine of the module in work.
    pub holds_machine: bool,
    /// Whether the batch holds member descriptors.
    pub holds_members: bool,
    /// Whether the batch holds temporary files.
    pub holds_temp_files: bool,
    /// The result of the batch, once it is known.
    pub outcome: Option<Result<(), BuildErrorView>>,
}

impl PipelineView {
    /// A batch on which no work has been done.
    pub open spec fn start(
        archive: Seq<char>,
        kind: ArchiveKind,
        inputs: Seq<ModuleDescriptorView>,
    ) -> PipelineView {
        PipelineView {
            archive,
            kind,
            inputs,
            stage: Stage::Initialize,
            cursor: 0,
            object_path: Seq::empty(),
            members: Seq::empty(),
            holds_context: false,
            holds_module: false,
            holds_machine: false,
            holds_members: false,
            holds_temp_files: false,
            outcome: None,
        }
    }

    /// Whether the batch has ended its work in success.
    pub open spec fn has_succeeded(self) -> bool {
        self.outcome is Some && self.outcome->0 is Ok
    }

    /// Whether the batch has ended its work in failure.
    pub open spec fn has_failed(self) -> bool {
        self.outcome is Some && self.outcome->0 is Err
    }

    /// The module in work.
    pub open spec fn module(self) -> ModuleDescriptorView {
        self.inputs[self.cursor as int]
    }

    /// Whether the batch holds a resource of this kind.
    pub open spec fn holds(self, resource: Resource) -> bool {
        match resource {
            Resource::Machine => self.holds_machine,
            Resource::Module => self.holds_module,
            Resource::Members => self.holds_members,
            Resource::Context => self.holds_context,
            Resource::TempFiles => self.holds_temp_files,
        }
    }

    /// Whether the batch holds any resource.
    pub open spec fn holds_any(self) -> bool {
        self.holds_machine || self.holds_module || self.holds_members || self.holds_context
            || self.holds_temp_files
    }

    /// The resource that a closing batch hands back next. What was acquired last
    /// goes first: the machine, the module, the members, the context, and the
    /// temporary files when nothing refers to them any more.
    pub open spec fn next_release(self) -> Resource {
        if self.holds_machine {
            Resource::Machine
        } else if self.holds_module {
            Resource::Module
        } else if self.holds_members {
            Resource::Members
        } else if self.holds_context {
            Resource::Context
        } else {
            Resource::TempFiles
        }
    }

    /// The batch without the resource.
    pub open spec fn without(self, resource: Resource) -> PipelineView {
        match resource {
            Resource::Machine => PipelineView { holds_machine: false, ..self },
            Resource::Module => PipelineView { holds_module: false, ..self },
            Resource::Members => PipelineView { holds_members: false, ..self },
            Resource::Context => PipelineView { holds_context: false, ..self },
            Resource::TempFiles => PipelineView { holds_temp_files: false, ..self },
        }
    }

    /// The batch at rest: closing while it holds anything, finished when it does not.
    pub open spec fn settled(self) -> PipelineView {
        PipelineView {
            stage: if self.holds_any() {
                Stage::Closing
            } else {
                Stage::Finished
            },
            ..self
        }
    }

    /// The batch with its result known. No work follows but to hand back what is held.
    pub open spec fn closed(self, outcome: Result<(), BuildErrorView>) -> PipelineView {
        PipelineView { outcome: Some(outcome), ..self }.settled()
    }

    /// The batch turning to the archive, all modules built.
    pub open spec fn at_archive(self) -> PipelineView {
        let next = PipelineView { cursor: self.inputs.len(), ..self };
        if spec_has_nul(self.archive) {
            next.closed(Err(BuildError::spec_nul_in_archive_path()))
        } else {
            PipelineView { stage: Stage::WriteArchive, ..next }
        }
    }

    /// The batch turning to the module of index `index`, or to the archive where
    /// there is no such module.
    pub open spec fn at_module(self, index: nat) -> PipelineView {
        if index >= self.inputs.len() {
            self.at_archive()
        } else {
            let next = PipelineView { cursor: index, ..self };
            if spec_has_nul(self.inputs[index as int].path) {
                next.closed(Err(BuildError::spec_nul_in_input_path()))
            } else {
                PipelineView { stage: Stage::ReadFile, ..next }
            }
        }
    }

    /// The batch turning from the loader to the emitter: the strings of the options
    /// are checked, and the triple is set only where the options name one.
    pub open spec fn at_emitter(self) -> PipelineView {
        let options = self.module().options;
        if spec_has_nul(options.triple) {
            self.closed(Err(BuildError::spec_nul_in_triple()))
        } else if spec_has_nul(options.cpu) {
            self.closed(Err(BuildError::spec_nul_in_cpu()))
        } else if spec_has_nul(options.attr) {
            self.closed(Err(BuildError::spec_nul_in_attr()))
        } else if options.triple.len() > 0 {
            PipelineView { stage: Stage::SetTarget, ..self }
        } else {
            PipelineView { stage: Stage::ResolveTarget, ..self }
        }
    }

    /// The action that the batch waits for.
    pub open spec fn action(self) -> ActionView {
        let module = self.module();
        match self.stage {
            Stage::Initialize => ActionView::Initialize,
            Stage::CreateContext => ActionView::CreateContext,
            Stage::ReadFile => ActionView::ReadFile { path: module.path },
            Stage::ParseModule => ActionView::ParseModule,
            Stage::VerifyModule => ActionView::VerifyModule,
            Stage::SetTarget => ActionView::SetTarget { triple: module.options.triple },
            Stage::ResolveTarget => ActionView::ResolveTarget { triple: module.options.triple },
            Stage::CreateTargetMachine => ActionView::CreateTargetMachine {
                triple: module.options.triple,
                cpu: module.options.cpu,
                attr: module.options.attr,
                opt: module.options.opt,
                reloc: module.options.reloc,
                model: module.options.model,
            },
            Stage::CreateTempFile => ActionView::CreateTempFile { beside: module.path },
            Stage::EmitObject => ActionView::EmitObject { path: self.object_path },
            Stage::NewMember => ActionView::NewMember {
                object_path: self.object_path,
                name: module.options.ar_section_name,
            },
            Stage::DisposeMachine => ActionView::Release(Resource::Machine),
            Stage::DisposeModule => ActionView::Release(Resource::Module),
            Stage::WriteArchive => ActionView::WriteArchive {
                path: self.archive,
                members: self.members,
                symbol_table: true,
                kind: self.kind,
            },
            Stage::Closing => ActionView::Release(self.next_release()),
            Stage::Finished => ActionView::Finish(
                match self.outcome {
                    Some(outcome) => outcome,
                    None => Ok(()),
                },
            ),
        }
    }

    /// The state that follows when the driver answers `reply` to the action that the
    /// batch waits for.
    ///
    /// An action that has no way to fail counts as done whatever the reply; so does
    /// handing a resource back. Where a file was to be made, `Done` names none, and
    /// is a failure without words.
    pub open spec fn advance(self, reply: ReplyView) -> PipelineView {
        let failed = reply is Failed;
        let words = reply.diagnostic();
        let module = self.module();
        match self.stage {
            Stage::Initialize => PipelineView { stage: Stage::CreateContext, ..self },
            Stage::CreateContext => if failed {
                self.closed(Err(BuildError::spec_no_context()))
            } else {
                PipelineView { holds_context: true, ..self }.at_module(0)
            },
            Stage::ReadFile => if failed {
                self.closed(Err(BuildError::spec_unreadable_input(module.path, words)))
            } else {
                PipelineView { stage: Stage::ParseModule, ..self }
            },
            Stage::ParseModule => if failed {
                self.closed(Err(BuildError::spec_unparsable_module(words)))
            } else {
                PipelineView { stage: Stage::VerifyModule, holds_module: true, ..self }
            },
            Stage::VerifyModule => if failed {
                self.closed(Err(BuildError::spec_invalid_module(words)))
            } else {
                self.at_emitter()
            },
            Stage::SetTarget => PipelineView { stage: Stage::ResolveTarget, ..self },
            Stage::ResolveTarget => if failed {
                self.closed(Err(BuildError::spec_unknown_target(module.options.triple, words)))
            } else {
                PipelineView { stage: Stage::CreateTargetMachine, ..self }
            },
            Stage::CreateTargetMachine => if failed {
                self.closed(Err(BuildError::spec_no_target_machine(module.options)))
            } else {
                PipelineView { stage: Stage::CreateTempFile, holds_machine: true, ..self }
            },
            Stage::CreateTempFile => match reply {
                ReplyView::File(path) => {
                    let made = PipelineView { holds_temp_files: true, ..self };
                    if spec_has_nul(path) {
                        made.closed(Err(BuildError::spec_nul_in_object_path()))
                    } else {
                        PipelineView { stage: Stage::EmitObject, object_path: path, ..made }
                    }
                },
                _ => self.closed(Err(BuildError::spec_no_temp_file(words))),
            },
            Stage::EmitObject => if failed {
                self.closed(Err(BuildError::spec_no_object(words)))
            } else if spec_has_nul(module.options.ar_section_name) {
                self.closed(Err(BuildError::spec_nul_in_member_name()))
            } else {
                PipelineView { stage: Stage::NewMember, ..self }
            },
            Stage::NewMember => PipelineView {
                stage: Stage::DisposeMachine,
                holds_members: true,
                members: self.members.push(
                    CompiledMemberView {
                        name: module.options.ar_section_name,
                        object_path: self.object_path,
                    },
                ),
                ..self
            },
            Stage::DisposeMachine => PipelineView {
                stage: Stage::DisposeModule,
                holds_machine: false,
                ..self
            },
            Stage::DisposeModule => PipelineView { holds_module: false, ..self }.at_module(
                self.cursor + 1,
            ),
            Stage::WriteArchive => match reply {
                ReplyView::Failed(words) => self.closed(
                    Err(BuildError::spec_archive_not_written(words)),
                ),
                _ => self.closed(Ok(())),
            },
            Stage::Closing => self.without(self.next_release()).settled(),
            Stage::Finished => self,
        }
    }

    /// The members made so far come from the first modules of the batch, one for
    /// one and in their order, each under the name that its module's options give.
    pub open spec fn members_follow_inputs(self) -> bool {
        &&& self.members.len() <= self.inputs.len()
        &&& forall|i: int|
            0 <= i < self.members.len() ==> (#[trigger] self.members[i]).name
                == self.inputs[i].options.ar_section_name
    }

    /// No member made so far holds a NUL, in its name or in its path.
    pub open spec fn members_are_clean(self) -> bool {
        forall|i: int|
            0 <= i < self.members.len() ==> !spec_has_nul((#[trigger] self.members[i]).name)
                && !spec_has_nul(self.members[i].object_path)
    }

    /// What the batch has to hold while it runs, stage by stage, and nothing else.
    pub open spec fn holds_what_is_due(self) -> bool {
        let stage = self.stage;
        &&& self.holds_context == (stage.in_module() || stage == Stage::WriteArchive)
        &&& self.holds_module == (stage == Stage::VerifyModule || stage.emits_module())
        &&& self.holds_machine == (stage == Stage::CreateTempFile || stage == Stage::EmitObject
            || stage == Stage::NewMember || stage == Stage::DisposeMachine)
        &&& self.holds_members == (self.members.len() > 0)
        &&& self.holds_temp_files == (self.members.len() > 0 || stage == Stage::EmitObject
            || stage == Stage::NewMember)
    }

    /// No string that the waiting action, or a later one of the module in work,
    /// hands to the backend holds a NUL.
    pub open spec fn strings_are_clean(self) -> bool {
        let stage = self.stage;
        let module = self.module();
        &&& stage.in_module() ==> !spec_has_nul(module.path)
        &&& stage.emits_module() ==> !spec_has_nul(module.options.triple) && !spec_has_nul(
            module.options.cpu,
        ) && !spec_has_nul(module.options.attr)
        &&& stage == Stage::SetTarget ==> module.options.triple.len() > 0
        &&& stage == Stage::EmitObject || stage == Stage::NewMember ==> !spec_has_nul(
            self.object_path,
        )
        &&& stage == Stage::NewMember ==> !spec_has_nul(module.options.ar_section_name)
        &&& stage == Stage::WriteArchive ==> !spec_has_nul(self.archive)
    }

    /// What holds of every state that a batch can reach.
    pub open spec fn wf(self) -> bool {
        let stage = self.stage;
        &&& self.cursor <= self.inputs.len()
        &&& stage.in_module() ==> self.cursor < self.inputs.len()
        &&& stage == Stage::Initialize || stage == Stage::CreateContext ==> self.cursor == 0
        &&& stage == Stage::WriteArchive ==> self.cursor == self.inputs.len()
        &&& self.members.len() == self.cursor + (if stage == Stage::DisposeMachine || stage
            == Stage::DisposeModule {
            1nat
        } else {
            0nat
        })
        &&& self.members_follow_inputs()
        &&& self.members_are_clean()
        &&& self.strings_are_clean()
        &&& !stage.is_closed() ==> self.holds_what_is_due()
        &&& stage == Stage::Closing ==> self.holds_any()
        &&& stage == Stage::Finished ==> !self.holds_any()
        &&& stage.is_closed() == (self.outcome is Some)
        &&& self.has_succeeded() ==> self.members.len() == self.inputs.len()
    }

    /// The number of kinds of resource that the batch holds.
    pub open spec fn held_count(self) -> nat {
        let one = |held: bool| if held { 1nat } else { 0nat };
        one(self.holds_machine) + one(self.holds_module) + one(self.holds_members) + one(
            self.holds_context,
        ) + one(self.holds_temp_files)
    }

    /// A number of replies after which the batch has ended at the latest.
    pub open spec fn steps_left(self) -> nat {
        match self.stage {
            Stage::Finished => 0,
            Stage::Closing => self.held_count(),
            Stage::WriteArchive => 6,
            Stage::CreateContext => 7 + 11 * self.inputs.len(),
            Stage::Initialize => 8 + 11 * self.inputs.len(),
            _ => (6 + 11 * (self.inputs.len() - self.cursor - 1)
                + self.stage.module_steps_left()) as nat,
        }
    }

    /// The state after the driver has answered with `replies`, one after the other.
    pub open spec fn run(self, replies: Seq<ReplyView>) -> PipelineView
        decreases replies.len(),
    {
        if replies.len() == 0 {
            self
        } else {
            self.advance(replies[0]).run(replies.drop_first())
        }
    }

    /// Whether `reply` lets the work go on from this state: it reports no failure,
    /// and where a file was to be made it names one, by a path without a NUL.
    pub open spec fn goes_on_with(self, reply: ReplyView) -> bool {
        &&& !(reply is Failed)
        &&& self.stage == Stage::CreateTempFile ==> match reply {
            ReplyView::File(path) => !spec_has_nul(path),
            _ => false,
        }
    }

    /// Whether every one of `replies`, given one after the other, lets the work go on.
    pub open spec fn goes_on_through(self, replies: Seq<ReplyView>) -> bool
        decreases replies.len(),
    {
        replies.len() > 0 ==> self.goes_on_with(replies[0]) && self.advance(
            replies[0],
        ).goes_on_through(replies.drop_first())
    }

    /// Whether no string of the batch holds a NUL: not the archive's path, nor a
    /// module's path, triple, CPU, features or member name.
    pub open spec fn takes_clean_strings(self) -> bool {
        &&& !spec_has_nul(self.archive)
        &&& forall|i: int|
            0 <= i < self.inputs.len() ==> {
                let module = #[trigger] self.inputs[i];
                &&& !spec_has_nul(module.path)
                &&& !spec_has_nul(module.options.triple)
                &&& !spec_has_nul(module.options.cpu)
                &&& !spec_has_nul(module.options.attr)
                &&& !spec_has_nul(module.options.ar_section_name)
            }
    }
}

} // verus!
