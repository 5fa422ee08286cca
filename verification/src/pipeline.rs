//! The compile-and-archive pipeline of one batch.
//!
//! A [`Pipeline`] does no work on the backend itself. It says which action comes
//! next, takes the driver's reply to it, and so decides the order of the work, the
//! error that a failure becomes, and what is handed back before the batch ends.
use vstd::prelude::*;
use crate::error::BuildError;
use crate::laws::{law_advance_keeps_well_formed, law_start_is_well_formed};
use crate::model::{PipelineView, Stage};
use crate::options::ArchiveKind;
use crate::protocol::{
    descriptors_view, members_view, result_view, Action, CompiledMember, ModuleDescriptor, Reply,
    Resource,
};
use crate::text::has_nul;

verus! {

/// What a pipeline keeps of its batch.
struct Batch {
    archive: String,
    kind: ArchiveKind,
    inputs: Vec<ModuleDescriptor>,
    stage: Stage,
    cursor: usize,
    object_path: String,
    members: Vec<CompiledMember>,
    holds_context: bool,
    holds_module: bool,
    holds_machine: bool,
    holds_members: bool,
    holds_temp_files: bool,
    outcome: Option<Result<(), BuildError>>,
}

impl View for Batch {
    type V = PipelineView;

    closed spec fn view(&self) -> PipelineView {
        PipelineView {
            archive: self.archive@,
            kind: self.kind,
            inputs: descriptors_view(self.inputs@),
            stage: self.stage,
            cursor: self.cursor as nat,
            object_path: self.object_path@,
            members: members_view(self.members@),
            holds_context: self.holds_context,
            holds_module: self.holds_module,
            holds_machine: self.holds_machine,
            holds_members: self.holds_members,
            holds_temp_files: self.holds_temp_files,
            outcome: match self.outcome {
                Some(result) => Some(result_view(result)),
                None => None,
            },
        }
    }
}

/// A copy of the members, in their order.
fn copy_members(members: &Vec<CompiledMember>) -> (copy: Vec<CompiledMember>)
    ensures
        members_view(copy@) == members_view(members@),
{
    let mut copy: Vec<CompiledMember> = Vec::new();
    let mut i: usize = 0;
    while i < members.len()
        invariant
            i <= members.len(),
            copy.len() == i,
            forall|j: int| 0 <= j < i ==> copy[j]@ == members[j]@,
        decreases members.len() - i,
    {
        copy.push(members[i].clone());
        i += 1;
    }
    assert(members_view(copy@) =~= members_view(members@));
    copy
}

impl Batch {
    /// A batch that is to build `inputs`, in their order, into the archive at
    /// `archive`, in the format `kind`. No work has been done on it.
    fn new(archive: String, kind: ArchiveKind, inputs: Vec<ModuleDescriptor>) -> (batch: Batch)
        ensures
            batch@ == PipelineView::start(archive@, kind, descriptors_view(inputs@)),
            batch@.wf(),
    {
        let batch = Batch {
            archive,
            kind,
            inputs,
            stage: Stage::Initialize,
            cursor: 0,
            object_path: String::new(),
            members: Vec::new(),
            holds_context: false,
            holds_module: false,
            holds_machine: false,
            holds_members: false,
            holds_temp_files: false,
            outcome: None,
        };
        assert(batch@.members =~= Seq::empty());
        proof {
            law_start_is_well_formed(archive@, kind, descriptors_view(inputs@));
        }
        batch
    }

    /// The action that the batch waits for.
    fn action(&self) -> (action: Action)
        requires
            self@.wf(),
        ensures
            action@ == self@.action(),
    {
        match self.stage {
            Stage::Initialize => Action::Initialize,
            Stage::CreateContext => Action::CreateContext,
            Stage::ReadFile => Action::ReadFile { path: self.inputs[self.cursor].path.clone() },
            Stage::ParseModule => Action::ParseModule,
            Stage::VerifyModule => Action::VerifyModule,
            Stage::SetTarget => Action::SetTarget {
                triple: self.inputs[self.cursor].options.triple.clone(),
            },
            Stage::ResolveTarget => Action::ResolveTarget {
                triple: self.inputs[self.cursor].options.triple.clone(),
            },
            Stage::CreateTargetMachine => {
                let options = &self.inputs[self.cursor].options;
                Action::CreateTargetMachine {
                    triple: options.triple.clone(),
                    cpu: options.cpu.clone(),
                    attr: options.attr.clone(),
                    opt: options.opt,
                    reloc: options.reloc,
                    model: options.model,
                }
            },
            Stage::CreateTempFile => Action::CreateTempFile {
                beside: self.inputs[self.cursor].path.clone(),
            },
            Stage::EmitObject => Action::EmitObject { path: self.object_path.clone() },
            Stage::NewMember => Action::NewMember {
                object_path: self.object_path.clone(),
                name: self.inputs[self.cursor].options.ar_section_name.clone(),
            },
            Stage::DisposeMachine => Action::Release(Resource::Machine),
            Stage::DisposeModule => Action::Release(Resource::Module),
            Stage::WriteArchive => Action::WriteArchive {
                path: self.archive.clone(),
                members: copy_members(&self.members),
                symbol_table: true,
                kind: self.kind,
            },
            Stage::Closing => Action::Release(self.next_release()),
            Stage::Finished => Action::Finish(
                match &self.outcome {
                    Some(Err(error)) => Err(error.clone()),
                    _ => Ok(()),
                },
            ),
        }
    }

    /// Moves on by the driver's reply to the action that the batch waits for.
    fn advance(&mut self, reply: Reply)
        requires
            old(self)@.wf(),
        ensures
            final(self)@ == old(self)@.advance(reply@),
            final(self)@.wf(),
    {
        let failed = reply.is_failure();
        let words = reply.diagnostic();
        match self.stage {
            Stage::Initialize => {
                self.stage = Stage::CreateContext;
            },
            Stage::CreateContext => {
                if failed {
                    self.close(Err(BuildError::no_context()));
                } else {
                    self.holds_context = true;
                    self.enter_module(0);
                }
            },
            Stage::ReadFile => {
                if failed {
                    let error = BuildError::unreadable_input(
                        self.inputs[self.cursor].path.as_str(),
                        words.as_str(),
                    );
                    self.close(Err(error));
                } else {
                    self.stage = Stage::ParseModule;
                }
            },
            Stage::ParseModule => {
                if failed {
                    self.close(Err(BuildError::unparsable_module(words.as_str())));
                } else {
                    self.stage = Stage::VerifyModule;
                    self.holds_module = true;
                }
            },
            Stage::VerifyModule => {
                if failed {
                    self.close(Err(BuildError::invalid_module(words.as_str())));
                } else {
                    self.enter_emitter();
                }
            },
            Stage::SetTarget => {
                self.stage = Stage::ResolveTarget;
            },
            Stage::ResolveTarget => {
                if failed {
                    let error = BuildError::unknown_target(
                        self.inputs[self.cursor].options.triple.as_str(),
                        words.as_str(),
                    );
                    self.close(Err(error));
                } else {
                    self.stage = Stage::CreateTargetMachine;
                }
            },
            Stage::CreateTargetMachine => {
                if failed {
                    let error = BuildError::no_target_machine(&self.inputs[self.cursor].options);
                    self.close(Err(error));
                } else {
                    self.stage = Stage::CreateTempFile;
                    self.holds_machine = true;
                }
            },
            Stage::CreateTempFile => {
                match reply {
                    Reply::File(path) => {
                        self.holds_temp_files = true;
                        if has_nul(path.as_str()) {
                            self.close(Err(BuildError::nul_in_object_path()));
                        } else {
                            self.stage = Stage::EmitObject;
                            self.object_path = path;
                        }
                    },
                    _ => {
                        self.close(Err(BuildError::no_temp_file(words.as_str())));
                    },
                }
            },
            Stage::EmitObject => {
                if failed {
                    self.close(Err(BuildError::no_object(words.as_str())));
                } else if has_nul(self.inputs[self.cursor].options.ar_section_name.as_str()) {
                    self.close(Err(BuildError::nul_in_member_name()));
                } else {
                    self.stage = Stage::NewMember;
                }
            },
            Stage::NewMember => {
                let member = CompiledMember {
                    name: self.inputs[self.cursor].options.ar_section_name.clone(),
                    object_path: self.object_path.clone(),
                };
                self.members.push(member);
                self.stage = Stage::DisposeMachine;
                self.holds_members = true;
                assert(members_view(self.members@) =~= members_view(old(self).members@).push(
                    member@,
                ));
            },
            Stage::DisposeMachine => {
                self.stage = Stage::DisposeModule;
                self.holds_machine = false;
            },
            Stage::DisposeModule => {
                let count = self.inputs.len();
                assert(self@.cursor < self@.inputs.len() == count);
                let next = self.cursor + 1;
                self.holds_module = false;
                self.enter_module(next);
            },
            Stage::WriteArchive => {
                match &reply {
                    Reply::Failed(Some(text)) => {
                        self.close(Err(BuildError::archive_not_written(Some(text.as_str()))));
                    },
                    Reply::Failed(None) => {
                        self.close(Err(BuildError::archive_not_written(None)));
                    },
                    _ => {
                        self.close(Ok(()));
                    },
                }
            },
            Stage::Closing => {
                let resource = self.next_release();
                self.forget(resource);
                self.settle();
            },
            Stage::Finished => {},
        }
        proof {
            law_advance_keeps_well_formed(old(self)@, reply@);
        }
    }

    /// The resource that the batch would hand back next, were it closing.
    fn next_release(&self) -> (resource: Resource)
        ensures
            resource == self@.next_release(),
    {
        if self.holds_machine {
            Resource::Machine
        } else if self.holds_module {
            Resource::Module
        } else if self.holds_members {
            Resource::Members
        } else if self.holds_context {
            Resource::Context
        } else {
            Resource::TempFiles
        }
    }

    /// Marks the resource as handed back.
    fn forget(&mut self, resource: Resource)
        ensures
            final(self)@ == old(self)@.without(resource),
    {
        match resource {
            Resource::Machine => {
                self.holds_machine = false;
            },
            Resource::Module => {
                self.holds_module = false;
            },
            Resource::Members => {
                self.holds_members = false;
            },
            Resource::Context => {
                self.holds_context = false;
            },
            Resource::TempFiles => {
                self.holds_temp_files = false;
            },
        }
    }

    /// Puts the batch at rest: closing while it holds anything, finished otherwise.
    fn settle(&mut self)
        ensures
            final(self)@ == old(self)@.settled(),
    {
        let holds_any = self.holds_machine || self.holds_module || self.holds_members
            || self.holds_context || self.holds_temp_files;
        self.stage = if holds_any {
            Stage::Closing
        } else {
            Stage::Finished
        };
    }

    /// Ends the work of the batch with the given result.
    fn close(&mut self, outcome: Result<(), BuildError>)
        ensures
            final(self)@ == old(self)@.closed(result_view(outcome)),
    {
        self.outcome = Some(outcome);
        self.settle();
    }

    /// Turns to the archive, all modules built.
    fn enter_archive(&mut self)
        ensures
            final(self)@ == old(self)@.at_archive(),
    {
        self.cursor = self.inputs.len();
        if has_nul(self.archive.as_str()) {
            self.close(Err(BuildError::nul_in_archive_path()));
        } else {
            self.stage = Stage::WriteArchive;
        }
    }

    /// Turns to the module of index `index`, or to the archive where there is none.
    fn enter_module(&mut self, index: usize)
        ensures
            final(self)@ == old(self)@.at_module(index as nat),
    {
        if index >= self.inputs.len() {
            self.enter_archive();
        } else {
            self.cursor = index;
            if has_nul(self.inputs[index].path.as_str()) {
                self.close(Err(BuildError::nul_in_input_path()));
            } else {
                self.stage = Stage::ReadFile;
            }
        }
    }

    /// Turns from the loader to the emitter.
    fn enter_emitter(&mut self)
        requires
            old(self).cursor < old(self).inputs.len(),
        ensures
            final(self)@ == old(self)@.at_emitter(),
    {
        let options = &self.inputs[self.cursor].options;
        if has_nul(options.triple.as_str()) {
            self.close(Err(BuildError::nul_in_triple()));
        } else if has_nul(options.cpu.as_str()) {
            self.close(Err(BuildError::nul_in_cpu()));
        } else if has_nul(options.attr.as_str()) {
            self.close(Err(BuildError::nul_in_attr()));
        } else if !options.triple.as_str().is_empty() {
            self.stage = Stage::SetTarget;
        } else {
            self.stage = Stage::ResolveTarget;
        }
    }
}

/// One batch: the modules to build, the archive to write, and how far the work is.
///
/// Its view is the state of the batch. Every pipeline is in a state that a batch
/// can reach; each of its functions says so again, for the laws to be applied.
pub struct Pipeline {
    batch: Batch,
}

impl View for Pipeline {
    type V = PipelineView;

    closed spec fn view(&self) -> PipelineView {
        self.batch@
    }
}

impl Pipeline {
    #[verifier::type_invariant]
    spec fn well_formed(self) -> bool {
        self.batch@.wf()
    }

    /// A batch that is to build `inputs`, in their order, into the archive at
    /// `archive`, in the format `kind`. No work has been done on it.
    pub fn new(archive: String, kind: ArchiveKind, inputs: Vec<ModuleDescriptor>) -> (pipeline:
        Pipeline)
        ensures
            pipeline@ == PipelineView::start(archive@, kind, descriptors_view(inputs@)),
            pipeline@.wf(),
    {
        Pipeline { batch: Batch::new(archive, kind, inputs) }
    }

    /// Where the batch stands.
    pub fn stage(&self) -> (stage: Stage)
        ensures
            stage == self@.stage,
            self@.wf(),
    {
        proof {
            use_type_invariant(self);
        }
        self.batch.stage
    }

    /// Whether the batch has ended: its result is known and it holds nothing.
    pub fn is_finished(&self) -> (finished: bool)
        ensures
            finished == (self@.stage == Stage::Finished),
            self@.wf(),
    {
        proof {
            use_type_invariant(self);
        }
        match self.batch.stage {
            Stage::Finished => true,
            _ => false,
        }
    }

    /// Whether the batch holds a resource of this kind.
    pub fn holds(&self, resource: Resource) -> (held: bool)
        ensures
            held == self@.holds(resource),
            self@.wf(),
    {
        proof {
            use_type_invariant(self);
        }
        match resource {
            Resource::Machine => self.batch.holds_machine,
            Resource::Module => self.batch.holds_module,
            Resource::Members => self.batch.holds_members,
            Resource::Context => self.batch.holds_context,
            Resource::TempFiles => self.batch.holds_temp_files,
        }
    }

    /// The action that the batch waits for. Once the batch has ended, this is
    /// `Finish` with its result, and stays so.
    pub fn action(&self) -> (action: Action)
        ensures
            action@ == self@.action(),
            self@.wf(),
    {
        proof {
            use_type_invariant(self);
        }
        self.batch.action()
    }

    /// Takes the driver's reply to the action that the batch waits for, and moves
    /// on: to the next step of the work, or, at the first failure, to handing back
    /// what the batch holds. A batch that has ended stays as it is.
    pub fn advance(&mut self, reply: Reply)
        ensures
            final(self)@ == old(self)@.advance(reply@),
            old(self)@.wf(),
            final(self)@.wf(),
    {
        proof {
            use_type_invariant(&*self);
        }
        let mut batch = Batch::new(String::new(), ArchiveKind::Gnu, Vec::new());
        std::mem::swap(&mut batch, &mut self.batch);
        batch.advance(reply);
        self.batch = batch;
    }
}

} // verus!
