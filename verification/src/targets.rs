//! Bringing the backend up: which target families are registered, with which of
//! their parts, in which order, and that it is done once.
use vstd::prelude::*;

verus! {

/// A family of targets that the backend generates code for.
#[derive(Copy, Clone, PartialEq, Eq, Debug, Structural)]
pub enum TargetFamily {
    X86,
    Arm,
    AArch64,
    Mips,
    PowerPc,
}

/// A part of a target family that has to be registered before the family is used.
#[derive(Copy, Clone, PartialEq, Eq, Debug, Structural)]
pub enum Component {
    /// What the backend knows of the family by name.
    TargetInfo,
    /// The code generator.
    Target,
    /// The machine-code layer.
    TargetMc,
    /// The printer of assembly.
    AsmPrinter,
    /// The parser of assembly.
    AsmParser,
}

/// One call that registers one part of one family.
#[derive(Copy, Clone, PartialEq, Eq, Debug, Structural)]
pub struct Registration {
    pub family: TargetFamily,
    pub component: Component,
}

/// The number of families.
pub const FAMILIES: usize = 5;

/// The number of parts that each family has.
pub const COMPONENTS: usize = 5;

/// The family that is registered in place `i`.
pub open spec fn spec_family_at(i: int) -> TargetFamily {
    if i == 0 {
        TargetFamily::X86
    } else if i == 1 {
        TargetFamily::Arm
    } else if i == 2 {
        TargetFamily::AArch64
    } else if i == 3 {
        TargetFamily::Mips
    } else {
        TargetFamily::PowerPc
    }
}

/// The part of a family that is registered in place `i`.
pub open spec fn spec_component_at(i: int) -> Component {
    if i == 0 {
        Component::TargetInfo
    } else if i == 1 {
        Component::Target
    } else if i == 2 {
        Component::TargetMc
    } else if i == 3 {
        Component::AsmPrinter
    } else {
        Component::AsmParser
    }
}

/// The place in which a family is registered.
pub open spec fn family_place(family: TargetFamily) -> int {
    match family {
        TargetFamily::X86 => 0,
        TargetFamily::Arm => 1,
        TargetFamily::AArch64 => 2,
        TargetFamily::Mips => 3,
        TargetFamily::PowerPc => 4,
    }
}

/// The place in which a part of a family is registered.
pub open spec fn component_place(component: Component) -> int {
    match component {
        Component::TargetInfo => 0,
        Component::Target => 1,
        Component::TargetMc => 2,
        Component::AsmPrinter => 3,
        Component::AsmParser => 4,
    }
}

/// Every registration that brings the backend up: family by family, and within a
/// family part by part.
pub open spec fn full_plan() -> Seq<Registration> {
    Seq::new(
        (FAMILIES * COMPONENTS) as nat,
        |i: int|
            Registration {
                family: spec_family_at(i / COMPONENTS as int),
                component: spec_component_at(i % COMPONENTS as int),
            },
    )
}

/// What one call of the initializer does: whether the backend is up after it, and
/// the registrations that the call asks for.
pub open spec fn spec_initialize(initialized: bool) -> (bool, Seq<Registration>) {
    if initialized {
        (true, Seq::empty())
    } else {
        (true, full_plan())
    }
}

/// The family that is registered in place `i`.
pub fn family_at(i: usize) -> (family: TargetFamily)
    ensures
        family == spec_family_at(i as int),
{
    match i {
        0 => TargetFamily::X86,
        1 => TargetFamily::Arm,
        2 => TargetFamily::AArch64,
        3 => TargetFamily::Mips,
        _ => TargetFamily::PowerPc,
    }
}

/// The part of a family that is registered in place `i`.
pub fn component_at(i: usize) -> (component: Component)
    ensures
        component == spec_component_at(i as int),
{
    match i {
        0 => Component::TargetInfo,
        1 => Component::Target,
        2 => Component::TargetMc,
        3 => Component::AsmPrinter,
        _ => Component::AsmParser,
    }
}

/// The guard through which a process brings the backend up. A process keeps one,
/// and every batch passes through it.
#[derive(Debug)]
pub struct Initializer {
    initialized: bool,
}

impl View for Initializer {
    type V = bool;

    closed spec fn view(&self) -> bool {
        self.initialized
    }
}

impl Initializer {
    /// The guard of a process that has not brought the backend up.
    pub fn new() -> (guard: Initializer)
        ensures
            !guard@,
    {
        Initializer { initialized: false }
    }

    /// Whether the backend is up.
    pub fn is_initialized(&self) -> (up: bool)
        ensures
            up == self@,
    {
        self.initialized
    }

    /// Passes the guard. The first call returns every registration, in order, for the
    /// caller to make; each later call returns none. The backend counts as up from
    /// the first call on.
    pub fn initialize(&mut self) -> (plan: Vec<Registration>)
        ensures
            (final(self)@, plan@) == spec_initialize(old(self)@),
    {
        let mut plan: Vec<Registration> = Vec::new();
        if !self.initialized {
            let mut f: usize = 0;
            while f < FAMILIES
                invariant
                    f <= FAMILIES,
                    plan@ == full_plan().take((f * COMPONENTS) as int),
                decreases FAMILIES - f,
            {
                let mut c: usize = 0;
                while c < COMPONENTS
                    invariant
                        f < FAMILIES,
                        c <= COMPONENTS,
                        plan@ == full_plan().take((f * COMPONENTS + c) as int),
                    decreases COMPONENTS - c,
                {
                    plan.push(Registration { family: family_at(f), component: component_at(c) });
                    proof {
                        let at = (f * COMPONENTS + c) as int;
                        assert(at / COMPONENTS as int == f && at % COMPONENTS as int == c);
                        assert(full_plan().take(at + 1) =~= full_plan().take(at).push(
                            full_plan()[at],
                        ));
                    }
                    c += 1;
                }
                f += 1;
            }
            assert(plan@ =~= full_plan());
            self.initialized = true;
        }
        plan
    }
}

} // verus!
