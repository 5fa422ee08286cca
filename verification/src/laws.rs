//! What holds of every batch, whatever the backend answers.
use vstd::prelude::*;
use crate::error::{BuildError, BuildErrorView, ErrorKind};
use crate::model::{PipelineView, Stage};
use crate::options::ArchiveKind;
use crate::protocol::{ActionView, CompiledMemberView, ModuleDescriptorView, ReplyView, Resource};
use crate::targets::{
    component_place, family_place, full_plan, spec_initialize, Component, Registration,
    TargetFamily,
};

verus! {

/// A batch starts in a well-formed state.
pub proof fn law_start_is_well_formed(
    archive: Seq<char>,
    kind: ArchiveKind,
    inputs: Seq<ModuleDescriptorView>,
)
    ensures
        PipelineView::start(archive, kind, inputs).wf(),
{
}

/// Whatever the driver answers, a well-formed batch stays well formed.
pub proof fn law_advance_keeps_well_formed(state: PipelineView, reply: ReplyView)
    requires
        state.wf(),
    ensures
        state.advance(reply).wf(),
{
}

/// Every reply to a batch that has not ended brings its end nearer.
#[verifier::rlimit(60)]
pub proof fn law_advance_makes_progress(state: PipelineView, reply: ReplyView)
    requires
        state.wf(),
        state.stage != Stage::Finished,
    ensures
        state.advance(reply).steps_left() < state.steps_left(),
{
    let n = state.inputs.len() as int;
    let c = state.cursor as int;
    if state.stage.in_module() {
        assert(11 * (n - c - 1) >= 0) by (nonlinear_arith)
            requires
                c < n,
        ;
        if state.stage == Stage::DisposeModule && c + 1 < n {
            assert(11 * (n - (c + 1) - 1) + 11 == 11 * (n - c - 1)) by (nonlinear_arith);
        }
    } else if state.stage == Stage::CreateContext && n > 0 {
        assert(11 * (n - 0 - 1) + 11 == 11 * n) by (nonlinear_arith);
    }
}

/// A run of replies keeps a well-formed batch well formed.
pub proof fn law_run_keeps_well_formed(state: PipelineView, replies: Seq<ReplyView>)
    requires
        state.wf(),
    ensures
        state.run(replies).wf(),
    decreases replies.len(),
{
    if replies.len() > 0 {
        law_advance_keeps_well_formed(state, replies[0]);
        law_run_keeps_well_formed(state.advance(replies[0]), replies.drop_first());
    }
}

/// Every batch ends: after as many replies as `steps_left` counts, whatever they
/// say, the batch has ended. A batch of `n` modules takes `8 + 11 * n` at most.
pub proof fn law_batch_ends(state: PipelineView, replies: Seq<ReplyView>)
    requires
        state.wf(),
        replies.len() >= state.steps_left(),
    ensures
        state.run(replies).stage == Stage::Finished,
    decreases replies.len(),
{
    if replies.len() > 0 {
        law_advance_keeps_well_formed(state, replies[0]);
        if state.stage != Stage::Finished {
            law_advance_makes_progress(state, replies[0]);
        }
        law_batch_ends(state.advance(replies[0]), replies.drop_first());
    }
}

/// A batch that has ended holds nothing: not its context, no module, no target
/// machine, no member descriptor, no temporary file. It asks for nothing but to
/// be given its result.
pub proof fn law_finished_holds_nothing(state: PipelineView, resource: Resource)
    requires
        state.wf(),
        state.stage == Stage::Finished,
    ensures
        !state.holds(resource),
        state.outcome is Some,
        state.action() == ActionView::Finish(state.outcome->0),
{
}

/// The result is given only by a batch that holds nothing.
pub proof fn law_result_comes_last(state: PipelineView)
    requires
        state.wf(),
        state.action() is Finish,
    ensures
        !state.holds_any(),
{
}

/// Nothing is let go of unasked: a resource that the batch held before a reply
/// and does not hold after it is the one that the batch asked to hand back.
pub proof fn law_nothing_is_dropped(state: PipelineView, reply: ReplyView, resource: Resource)
    requires
        state.wf(),
        state.holds(resource),
        !state.advance(reply).holds(resource),
    ensures
        state.action() == ActionView::Release(resource),
{
}

/// Handing back is asked only of what is held, and takes that away and nothing
/// else.
pub proof fn law_release_takes_what_is_held(
    state: PipelineView,
    reply: ReplyView,
    resource: Resource,
)
    requires
        state.wf(),
        state.action() == ActionView::Release(resource),
    ensures
        state.holds(resource),
        !state.advance(reply).holds(resource),
        forall|other: Resource|
            other != resource ==> state.advance(reply).holds(other) == state.holds(other),
{
}

/// Once the result is known it stays: no reply changes it, asks for more work on
/// a module, or has the archive written.
pub proof fn law_result_is_final(state: PipelineView, reply: ReplyView)
    requires
        state.wf(),
        state.outcome is Some,
    ensures
        state.advance(reply).outcome == state.outcome,
        state.advance(reply).members == state.members,
        state.action() is Release || state.action() is Finish,
{
}

/// The archive is written whole or not at all: where the batch asks for it, a
/// member has been made of every module, the members stand in the order of their
/// modules, each under the name that its module's options give, a symbol table
/// is asked for, and path and format are those of the batch.
pub proof fn law_archive_holds_every_module(state: PipelineView)
    requires
        state.wf(),
        state.action() is WriteArchive,
    ensures
        state.action() == (ActionView::WriteArchive {
            path: state.archive,
            members: state.members,
            symbol_table: true,
            kind: state.kind,
        }),
        state.members.len() == state.inputs.len(),
        forall|i: int|
            0 <= i < state.inputs.len() ==> (#[trigger] state.members[i]).name
                == state.inputs[i].options.ar_section_name,
{
}

/// A batch succeeds only by the archive's being written: the reply that makes the
/// result a success is one to the request to write the archive, and reports no
/// failure. The archive then holds as many members as the batch has modules.
pub proof fn law_success_means_archive_written(state: PipelineView, reply: ReplyView)
    requires
        state.wf(),
        state.outcome is None,
        state.advance(reply).has_succeeded(),
    ensures
        state.action() is WriteArchive,
        !(reply is Failed),
        state.advance(reply).members.len() == state.inputs.len(),
{
}

/// A failure ends the work at once: when a step that can fail reports a failure,
/// the result is an error of the kind of that step, and no module is read, no
/// code generated and no archive written after it.
pub proof fn law_failure_ends_the_work(state: PipelineView, reply: ReplyView, kind: ErrorKind)
    requires
        state.wf(),
        reply is Failed,
        state.stage.failure_kind() == Some(kind),
    ensures
        state.advance(reply).has_failed(),
        state.advance(reply).outcome->0->Err_0.kind == kind,
        state.advance(reply).stage.is_closed(),
{
}

/// A triple that names no target is told to the caller: the message of the error
/// holds the triple, as it was given.
pub proof fn law_unknown_target_names_triple(state: PipelineView, reply: ReplyView)
    requires
        state.wf(),
        reply is Failed,
        state.stage == Stage::ResolveTarget,
    ensures
        state.advance(reply).outcome == Some(
            Err::<(), BuildErrorView>(
                BuildError::spec_unknown_target(state.module().options.triple, reply.diagnostic()),
            ),
        ),
        exists|before: Seq<char>, after: Seq<char>|
            state.advance(reply).outcome->0->Err_0.message == before
                + state.module().options.triple + after,
{
    let message = state.advance(reply).outcome->0->Err_0.message;
    let before = "could not generate target from triple "@;
    let after = ": "@ + crate::text::quoted(reply.diagnostic());
    assert(message =~= before + state.module().options.triple + after);
}

/// No string with a NUL reaches the backend: whatever the batch asks for, the
/// strings that come with it hold none.
pub proof fn law_actions_are_clean(state: PipelineView)
    requires
        state.wf(),
    ensures
        state.action().is_clean(),
{
}

/// The modules are worked on in the caller's order, none twice and none left
/// out: a reply leaves the batch at its module or moves it to the next one.
pub proof fn law_modules_in_order(state: PipelineView, reply: ReplyView)
    requires
        state.wf(),
    ensures
        state.advance(reply).cursor == state.cursor || state.advance(reply).cursor
            == state.cursor + 1,
        state.advance(reply).inputs == state.inputs,
        state.advance(reply).archive == state.archive,
        state.advance(reply).kind == state.kind,
        state.advance(reply).members == state.members || (state.action() is NewMember
            && state.advance(reply).members == state.members.push(
            CompiledMemberView {
                name: state.module().options.ar_section_name,
                object_path: state.object_path,
            },
        )),
{
}

/// The result outlasts every run of replies, and nothing is asked of the backend
/// after it but to take back what the batch holds: after a failure no archive is
/// written.
pub proof fn law_run_keeps_result(state: PipelineView, replies: Seq<ReplyView>)
    requires
        state.wf(),
        state.outcome is Some,
    ensures
        state.run(replies).outcome == state.outcome,
        state.run(replies).members == state.members,
        state.run(replies).action() is Release || state.run(replies).action() is Finish,
    decreases replies.len(),
{
    if replies.len() > 0 {
        law_advance_keeps_well_formed(state, replies[0]);
        law_result_is_final(state, replies[0]);
        law_run_keeps_result(state.advance(replies[0]), replies.drop_first());
    }
}

/// A failure is the end of the batch, and its only result: when a step that can
/// fail reports a failure, then, whatever the driver answers from there on, the
/// result stays the error of that step, and nothing is asked of the backend
/// but to take back what the batch holds. No archive is written.
pub proof fn law_failed_batch_writes_no_archive(
    state: PipelineView,
    reply: ReplyView,
    kind: ErrorKind,
    replies: Seq<ReplyView>,
)
    requires
        state.wf(),
        reply is Failed,
        state.stage.failure_kind() == Some(kind),
    ensures
        state.advance(reply).run(replies).has_failed(),
        state.advance(reply).run(replies).outcome->0->Err_0.kind == kind,
        state.advance(reply).run(replies).action() is Release || state.advance(reply).run(
            replies,
        ).action() is Finish,
{
    law_advance_keeps_well_formed(state, reply);
    law_failure_ends_the_work(state, reply, kind);
    law_run_keeps_result(state.advance(reply), replies);
}

/// All successful batches are whole: the members of the archive are as many as
/// the modules of the batch, none dropped and none twice, and stand in their order.
pub proof fn law_success_counts_every_module(state: PipelineView)
    requires
        state.wf(),
        state.has_succeeded(),
    ensures
        state.members.len() == state.inputs.len(),
        forall|i: int|
            0 <= i < state.inputs.len() ==> (#[trigger] state.members[i]).name
                == state.inputs[i].options.ar_section_name,
{
}

/// Where no string holds a NUL and the reply reports no failure, the work goes on
/// or ends in success.
pub proof fn law_no_failure_no_error(state: PipelineView, reply: ReplyView)
    requires
        state.wf(),
        state.takes_clean_strings(),
        state.goes_on_with(reply),
        !state.has_failed(),
    ensures
        !state.advance(reply).has_failed(),
        state.advance(reply).takes_clean_strings(),
{
}

/// Where nothing fails, the batch succeeds: with strings that hold no NUL and
/// replies that report no failure, a batch that has met no error ends in
/// success, with one member for each module, in the order of the modules.
#[verifier::rlimit(60)]
pub proof fn law_smooth_run_succeeds(state: PipelineView, replies: Seq<ReplyView>)
    requires
        state.wf(),
        state.takes_clean_strings(),
        state.goes_on_through(replies),
        replies.len() >= state.steps_left(),
        !state.has_failed(),
    ensures
        state.run(replies).stage == Stage::Finished,
        state.run(replies).has_succeeded(),
        state.run(replies).members.len() == state.inputs.len(),
        forall|i: int|
            0 <= i < state.inputs.len() ==> (#[trigger] state.run(replies).members[i]).name
                == state.inputs[i].options.ar_section_name,
    decreases replies.len(),
{
    if replies.len() > 0 {
        let next = state.advance(replies[0]);
        law_advance_keeps_well_formed(state, replies[0]);
        law_no_failure_no_error(state, replies[0]);
        law_modules_in_order(state, replies[0]);
        if state.stage != Stage::Finished {
            law_advance_makes_progress(state, replies[0]);
        }
        law_smooth_run_succeeds(next, replies.drop_first());
    }
}

/// A new batch of modules whose strings hold no NUL, driven by a backend that
/// reports no failure, succeeds within `8 + 11 * n` replies, `n` the number of
/// its modules, and its archive holds exactly one member for each module, in the
/// order in which the modules were given.
pub proof fn law_well_formed_batch_succeeds(
    archive: Seq<char>,
    kind: ArchiveKind,
    inputs: Seq<ModuleDescriptorView>,
    replies: Seq<ReplyView>,
)
    requires
        PipelineView::start(archive, kind, inputs).takes_clean_strings(),
        PipelineView::start(archive, kind, inputs).goes_on_through(replies),
        replies.len() >= 8 + 11 * inputs.len(),
    ensures
        PipelineView::start(archive, kind, inputs).run(replies).stage == Stage::Finished,
        PipelineView::start(archive, kind, inputs).run(replies).has_succeeded(),
        PipelineView::start(archive, kind, inputs).run(replies).members.len() == inputs.len(),
        forall|i: int|
            0 <= i < inputs.len() ==> (#[trigger] PipelineView::start(archive, kind, inputs).run(
                replies,
            ).members[i]).name == inputs[i].options.ar_section_name,
{
    law_smooth_run_succeeds(PipelineView::start(archive, kind, inputs), replies);
}

/// Bringing the backend up is idempotent: whatever the guard's state, after one
/// call the backend counts as up, and every further call asks for no
/// registration and leaves the guard as it is.
pub proof fn law_initialize_is_idempotent(initialized: bool)
    ensures
        spec_initialize(initialized).0,
        spec_initialize(spec_initialize(initialized).0) == (true, Seq::<Registration>::empty()),
{
}

/// The first call registers all there is, and nothing twice: every part of every
/// family stands in the full plan, in one place only.
pub proof fn law_plan_registers_each_once(family: TargetFamily, component: Component)
    ensures
        full_plan().len() == 25,
        full_plan()[5 * family_place(family) + component_place(component)] == (Registration {
            family,
            component,
        }),
        forall|i: int|
            0 <= i < 25 && #[trigger] full_plan()[i] == (Registration { family, component }) ==> i
                == 5 * family_place(family) + component_place(component),
{
}

} // verus!
