//! Per-module build configuration.
use vstd::prelude::*;
use vstd::string::*;
use crate::text::{parse_decimal, quote, quoted, spec_parse_decimal};

verus! {

/// Relocation mode
///
/// This option decides how relocations are handled.
#[derive(Copy, Clone, PartialEq, Eq, Debug, Structural)]
pub enum Relocations {
    /// Target default relocation model
    Default,
    /// Non-relocatable code
    Static,
    /// Fully relocatable, position independent code
    PIC,
    /// Relocatable external references, non-relocatable code
    DynamicNoPic,
}

impl Relocations {
    /// The number by which the backend knows this relocation model.
    pub open spec fn spec_code(self) -> u32 {
        match self {
            Relocations::Default => 0,
            Relocations::Static => 1,
            Relocations::PIC => 2,
            Relocations::DynamicNoPic => 3,
        }
    }

    /// The number by which the backend knows this relocation model.
    pub fn code(self) -> (c: u32)
        ensures
            c == self.spec_code(),
    {
        match self {
            Relocations::Default => 0,
            Relocations::Static => 1,
            Relocations::PIC => 2,
            Relocations::DynamicNoPic => 3,
        }
    }

    /// The name of this variant, as it is written in a diagnostic.
    pub open spec fn spec_name(self) -> Seq<char> {
        match self {
            Relocations::Default => "Default"@,
            Relocations::Static => "Static"@,
            Relocations::PIC => "PIC"@,
            Relocations::DynamicNoPic => "DynamicNoPic"@,
        }
    }

    /// The name of this variant, as it is written in a diagnostic.
    pub fn name(self) -> (n: &'static str)
        ensures
            n@ == self.spec_name(),
    {
        match self {
            Relocations::Default => "Default",
            Relocations::Static => "Static",
            Relocations::PIC => "PIC",
            Relocations::DynamicNoPic => "DynamicNoPic",
        }
    }
}

/// Codegen model
#[derive(Copy, Clone, PartialEq, Eq, Debug, Structural)]
pub enum CodegenModel {
    /// Target default code model
    Default,
    /// Small code model
    Small,
    /// Kernel code model
    Kernel,
    /// Medium code model
    Medium,
    /// Large code model
    Large,
}

impl CodegenModel {
    /// The number by which the backend knows this code model. The backend keeps 1
    /// for its just-in-time default, which a build script has no use for.
    pub open spec fn spec_code(self) -> u32 {
        match self {
            CodegenModel::Default => 0,
            CodegenModel::Small => 2,
            CodegenModel::Kernel => 3,
            CodegenModel::Medium => 4,
            CodegenModel::Large => 5,
        }
    }

    /// The number by which the backend knows this code model.
    pub fn code(self) -> (c: u32)
        ensures
            c == self.spec_code(),
    {
        match self {
            CodegenModel::Default => 0,
            CodegenModel::Small => 2,
            CodegenModel::Kernel => 3,
            CodegenModel::Medium => 4,
            CodegenModel::Large => 5,
        }
    }

    /// The name of this variant, as it is written in a diagnostic.
    pub open spec fn spec_name(self) -> Seq<char> {
        match self {
            CodegenModel::Default => "Default"@,
            CodegenModel::Small => "Small"@,
            CodegenModel::Kernel => "Kernel"@,
            CodegenModel::Medium => "Medium"@,
            CodegenModel::Large => "Large"@,
        }
    }

    /// The name of this variant, as it is written in a diagnostic.
    pub fn name(self) -> (n: &'static str)
        ensures
            n@ == self.spec_name(),
    {
        match self {
            CodegenModel::Default => "Default",
            CodegenModel::Small => "Small",
            CodegenModel::Kernel => "Kernel",
            CodegenModel::Medium => "Medium",
            CodegenModel::Large => "Large",
        }
    }
}

/// Codegen optimisation level
#[derive(Copy, Clone, PartialEq, Eq, Debug, Structural)]
pub enum Optimisation {
    /// No codegen optimisation
    ///
    /// Corresponds to the -O0 option of `llc`
    O0,
    /// Some codegen optimisations
    ///
    /// Corresponds to the -O1 option of `llc`
    O1,
    /// Considerable codegen optimisations
    ///
    /// Corresponds to the -O2 option of `llc`
    O2,
    /// Heavy codegen optimisations
    ///
    /// Corresponds to the -O3 option of `llc`
    O3,
}

impl Optimisation {
    /// The number by which the backend knows this level.
    pub open spec fn spec_code(self) -> u32 {
        match self {
            Optimisation::O0 => 0,
            Optimisation::O1 => 1,
            Optimisation::O2 => 2,
            Optimisation::O3 => 3,
        }
    }

    /// The level that a requested number stands for: 0, 1 and 2 are themselves,
    /// every larger number asks for the heaviest level there is.
    pub open spec fn spec_from_level(level: u64) -> Optimisation {
        if level == 0 {
            Optimisation::O0
        } else if level == 1 {
            Optimisation::O1
        } else if level == 2 {
            Optimisation::O2
        } else {
            Optimisation::O3
        }
    }

    /// The number by which the backend knows this level.
    pub fn code(self) -> (c: u32)
        ensures
            c == self.spec_code(),
    {
        match self {
            Optimisation::O0 => 0,
            Optimisation::O1 => 1,
            Optimisation::O2 => 2,
            Optimisation::O3 => 3,
        }
    }

    /// The level that a requested number stands for.
    pub fn from_level(level: u64) -> (o: Optimisation)
        ensures
            o == Self::spec_from_level(level),
    {
        match level {
            0 => Optimisation::O0,
            1 => Optimisation::O1,
            2 => Optimisation::O2,
            _ => Optimisation::O3,
        }
    }

    /// The name of this variant, as it is written in a diagnostic.
    pub open spec fn spec_name(self) -> Seq<char> {
        match self {
            Optimisation::O0 => "O0"@,
            Optimisation::O1 => "O1"@,
            Optimisation::O2 => "O2"@,
            Optimisation::O3 => "O3"@,
        }
    }

    /// The name of this variant, as it is written in a diagnostic.
    pub fn name(self) -> (n: &'static str)
        ensures
            n@ == self.spec_name(),
    {
        match self {
            Optimisation::O0 => "O0",
            Optimisation::O1 => "O1",
            Optimisation::O2 => "O2",
            Optimisation::O3 => "O3",
        }
    }
}

/// The format of generated archive file
#[derive(Copy, Clone, PartialEq, Eq, Debug, Structural)]
pub enum ArchiveKind {
    /// The GNU `ar` format
    Gnu,
    /// The GNU format with 64-bit symbol offsets, as MIPS64 tools write it
    Mips64,
    /// The BSD `ar` format
    Bsd,
    /// The COFF library format
    Coff,
}

impl ArchiveKind {
    /// The number by which the backend's archive writer knows this format.
    pub open spec fn spec_code(self) -> u32 {
        match self {
            ArchiveKind::Gnu => 0,
            ArchiveKind::Mips64 => 1,
            ArchiveKind::Bsd => 2,
            ArchiveKind::Coff => 3,
        }
    }

    /// The number by which the backend's archive writer knows this format.
    pub fn code(self) -> (c: u32)
        ensures
            c == self.spec_code(),
    {
        match self {
            ArchiveKind::Gnu => 0,
            ArchiveKind::Mips64 => 1,
            ArchiveKind::Bsd => 2,
            ArchiveKind::Coff => 3,
        }
    }
}

/// How one module is built.
#[derive(Debug)]
pub struct BuildOptions {
    /// Target triple to generate machine code for
    ///
    /// The target triple has the general format `<arch><sub>-<vendor>-<sys>-<abi>`, where:
    ///
    /// * `<arch>`   x86, arm, thumb, mips, etc.
    /// * `<sub>`    for example on ARM: v5, v6m, v7a, v7m, etc.
    /// * `<vendor>` pc, apple, nvidia, ibm, etc.
    /// * `<sys>`    none, linux, win32, darwin, cuda, etc.
    /// * `<abi>`    eabi, gnu, android, macho, elf, etc.
    ///
    /// Left empty, the module keeps the triple that it names itself.
    ///
    /// Corresponds to the `-mtriple` option of `llc`.
    pub triple: String,
    /// Target CPU to generate machine code for
    ///
    /// Left empty, it is chosen depending on the target `triple`.
    ///
    /// Corresponds to the `-mcpu` option of `llc`.
    pub cpu: String,
    /// Capabilities of the target code is generated for
    ///
    /// Format of this field is the same as the format for `-mattr` option: +feature enables a
    /// feature, -feature disables it. Each feature is delimited by a comma.
    ///
    /// Sample string: `+sse,+sse2,+sse3,-avx`.
    ///
    /// Left empty, they are chosen depending on the target `triple`.
    ///
    /// Corresponds to the `-mattr` option of `llc`.
    pub attr: String,
    /// Code generation
    ///
    /// Corresponds to the `-code-model` option of `llc`.
    pub model: CodegenModel,
    /// Relocation model
    ///
    /// Corresponds to the `-relocation-model` option of `llc`.
    pub reloc: Relocations,
    /// Code optimisation level
    ///
    /// Corresponds to the `-O` option of `llc`.
    pub opt: Optimisation,
    /// Name of the archive section to insert generated object into
    pub ar_section_name: String,
}

/// What a [`BuildOptions`] holds, as mathematical values.
pub ghost struct BuildOptionsView {
    pub triple: Seq<char>,
    pub cpu: Seq<char>,
    pub attr: Seq<char>,
    pub model: CodegenModel,
    pub reloc: Relocations,
    pub opt: Optimisation,
    pub ar_section_name: Seq<char>,
}

impl View for BuildOptions {
    type V = BuildOptionsView;

    open spec fn view(&self) -> BuildOptionsView {
        BuildOptionsView {
            triple: self.triple@,
            cpu: self.cpu@,
            attr: self.attr@,
            model: self.model,
            reloc: self.reloc,
            opt: self.opt,
            ar_section_name: self.ar_section_name@,
        }
    }
}

impl Clone for BuildOptions {
    fn clone(&self) -> (copy: BuildOptions)
        ensures
            copy@ == self@,
    {
        BuildOptions {
            triple: self.triple.clone(),
            cpu: self.cpu.clone(),
            attr: self.attr.clone(),
            model: self.model,
            reloc: self.reloc,
            opt: self.opt,
            ar_section_name: self.ar_section_name.clone(),
        }
    }
}

/// The level that the text of an `OPT_LEVEL` variable asks for: the number that it
/// writes, and level 0 where it is not set or writes none.
pub open spec fn requested_level(opt_level: Option<Seq<char>>) -> u64 {
    match opt_level {
        Some(text) => match spec_parse_decimal(text) {
            Some(level) => level,
            None => 0,
        },
        None => 0,
    }
}

impl BuildOptions {
    /// The options that a build starts from, given what its environment says.
    pub open spec fn spec_from_environment(
        target: Option<Seq<char>>,
        opt_level: Option<Seq<char>>,
    ) -> BuildOptionsView {
        BuildOptionsView {
            triple: match target {
                Some(triple) => triple,
                None => Seq::empty(),
            },
            cpu: Seq::empty(),
            attr: Seq::empty(),
            model: CodegenModel::Default,
            reloc: Relocations::Default,
            opt: Optimisation::spec_from_level(requested_level(opt_level)),
            ar_section_name: Seq::empty(),
        }
    }

    /// The options that a build starts from. `target` is the value of the `TARGET`
    /// variable and `opt_level` that of `OPT_LEVEL`, as cargo sets them for a build
    /// script; each is `None` where the variable is not set.
    ///
    /// The triple is `target`, or empty. The optimisation level is the one that
    /// `opt_level` writes, `O0` where it writes no number. The CPU, the features
    /// and the member name are empty, the two models the target's defaults.
    pub fn from_environment(target: Option<String>, opt_level: Option<String>) -> (options:
        BuildOptions)
        ensures
            options@ == Self::spec_from_environment(
                match target {
                    Some(t) => Some(t@),
                    None => None,
                },
                match opt_level {
                    Some(l) => Some(l@),
                    None => None,
                },
            ),
    {
        let level: u64 = match &opt_level {
            Some(text) => match parse_decimal(text.as_str()) {
                Some(level) => level,
                None => 0,
            },
            None => 0,
        };
        BuildOptions {
            triple: match target {
                Some(triple) => triple,
                None => String::new(),
            },
            cpu: String::new(),
            attr: String::new(),
            model: CodegenModel::Default,
            reloc: Relocations::Default,
            opt: Optimisation::from_level(level),
            ar_section_name: String::new(),
        }
    }

    /// The options written out in full: the type's name, then each field with its
    /// value between braces, strings as [`quoted`] writes them.
    pub open spec fn spec_describe(options: BuildOptionsView) -> Seq<char> {
        "BuildOptions { triple: "@ + quoted(options.triple) + ", cpu: "@ + quoted(options.cpu)
            + ", attr: "@ + quoted(options.attr) + ", model: "@ + options.model.spec_name()
            + ", reloc: "@ + options.reloc.spec_name() + ", opt: "@ + options.opt.spec_name()
            + ", ar_section_name: "@ + quoted(options.ar_section_name) + " }"@
    }

    /// The options written out in full, for a diagnostic that has to let its reader
    /// build the same module again.
    pub fn describe(&self) -> (text: String)
        ensures
            text@ == Self::spec_describe(self@),
    {
        let mut text = String::from_str("BuildOptions { triple: ");
        text.append(quote(self.triple.as_str()).as_str());
        text.append(", cpu: ");
        text.append(quote(self.cpu.as_str()).as_str());
        text.append(", attr: ");
        text.append(quote(self.attr.as_str()).as_str());
        text.append(", model: ");
        text.append(self.model.name());
        text.append(", reloc: ");
        text.append(self.reloc.name());
        text.append(", opt: ");
        text.append(self.opt.name());
        text.append(", ar_section_name: ");
        text.append(quote(self.ar_section_name.as_str()).as_str());
        text.append(" }");
        text
    }
}

} // verus!
