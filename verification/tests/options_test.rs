use llvm_build_utils::error::{BuildError, ErrorKind};
use llvm_build_utils::options::{
    ArchiveKind, BuildOptions, CodegenModel, Optimisation, Relocations,
};
use llvm_build_utils::text::{has_nul, parse_decimal};

fn text(s: &str) -> Option<String> {
    Some(String::from(s))
}

#[test]
fn backend_codes_of_the_enums() {
    assert_eq!(Relocations::Default.code(), 0);
    assert_eq!(Relocations::Static.code(), 1);
    assert_eq!(Relocations::PIC.code(), 2);
    assert_eq!(Relocations::DynamicNoPic.code(), 3);
    assert_eq!(CodegenModel::Default.code(), 0);
    assert_eq!(CodegenModel::Small.code(), 2);
    assert_eq!(CodegenModel::Kernel.code(), 3);
    assert_eq!(CodegenModel::Medium.code(), 4);
    assert_eq!(CodegenModel::Large.code(), 5);
    assert_eq!(Optimisation::O0.code(), 0);
    assert_eq!(Optimisation::O1.code(), 1);
    assert_eq!(Optimisation::O2.code(), 2);
    assert_eq!(Optimisation::O3.code(), 3);
    assert_eq!(ArchiveKind::Gnu.code(), 0);
    assert_eq!(ArchiveKind::Mips64.code(), 1);
    assert_eq!(ArchiveKind::Bsd.code(), 2);
    assert_eq!(ArchiveKind::Coff.code(), 3);
}

#[test]
fn names_of_the_variants_are_those_of_debug() {
    for reloc in
        [Relocations::Default, Relocations::Static, Relocations::PIC, Relocations::DynamicNoPic]
    {
        assert_eq!(reloc.name(), format!("{:?}", reloc));
    }
    for model in [
        CodegenModel::Default,
        CodegenModel::Small,
        CodegenModel::Kernel,
        CodegenModel::Medium,
        CodegenModel::Large,
    ] {
        assert_eq!(model.name(), format!("{:?}", model));
    }
    for opt in [Optimisation::O0, Optimisation::O1, Optimisation::O2, Optimisation::O3] {
        assert_eq!(opt.name(), format!("{:?}", opt));
    }
}

#[test]
fn level_numbers() {
    assert_eq!(Optimisation::from_level(0), Optimisation::O0);
    assert_eq!(Optimisation::from_level(1), Optimisation::O1);
    assert_eq!(Optimisation::from_level(2), Optimisation::O2);
    assert_eq!(Optimisation::from_level(3), Optimisation::O3);
    assert_eq!(Optimisation::from_level(4), Optimisation::O3);
    assert_eq!(Optimisation::from_level(u64::MAX), Optimisation::O3);
}

#[test]
fn options_without_an_environment() {
    let options = BuildOptions::from_environment(None, None);
    assert_eq!(options.triple, "");
    assert_eq!(options.cpu, "");
    assert_eq!(options.attr, "");
    assert_eq!(options.model, CodegenModel::Default);
    assert_eq!(options.reloc, Relocations::Default);
    assert_eq!(options.opt, Optimisation::O0);
    assert_eq!(options.ar_section_name, "");
}

#[test]
fn options_from_the_environment() {
    let options = BuildOptions::from_environment(text("x86_64-unknown-linux-gnu"), text("2"));
    assert_eq!(options.triple, "x86_64-unknown-linux-gnu");
    assert_eq!(options.opt, Optimisation::O2);
    assert_eq!(options.cpu, "");
    assert_eq!(options.model, CodegenModel::Default);
    assert_eq!(options.reloc, Relocations::Default);

    let level = |s: &str| BuildOptions::from_environment(None, text(s)).opt;
    assert_eq!(level("0"), Optimisation::O0);
    assert_eq!(level("1"), Optimisation::O1);
    assert_eq!(level("3"), Optimisation::O3);
    assert_eq!(level("+1"), Optimisation::O1);
    assert_eq!(level("7"), Optimisation::O3);
    assert_eq!(level("18446744073709551615"), Optimisation::O3);
    // Text that writes no 64-bit number counts as level 0.
    assert_eq!(level("18446744073709551616"), Optimisation::O0);
    assert_eq!(level("s"), Optimisation::O0);
    assert_eq!(level("z"), Optimisation::O0);
    assert_eq!(level(""), Optimisation::O0);
    assert_eq!(level("-1"), Optimisation::O0);
    assert_eq!(level(" 2"), Optimisation::O0);
}

#[test]
fn decimal_numbers_are_read_as_the_standard_library_reads_them() {
    let cases = [
        "", "+", "-", "0", "00", "007", "1", "+1", "-1", "++1", "+-1", "1+", "12a", "a12", " 1",
        "1 ", "9", ":", "/", "٣", "1٣", "18446744073709551615", "18446744073709551616",
        "+18446744073709551615", "99999999999999999999999999", "18446744073709551609",
        "1844674407370955161", "18446744073709551620", "000000000000000000000000000001", "1_0",
        "0x10", "1e3", "+0",
    ];
    for case in cases {
        assert_eq!(parse_decimal(case), case.parse::<u64>().ok(), "{:?}", case);
    }
    assert_eq!(parse_decimal("42"), Some(42));
    assert_eq!(parse_decimal("+18446744073709551615"), Some(u64::MAX));
    assert_eq!(parse_decimal("18446744073709551616"), None);
}

#[test]
fn nul_is_found_wherever_it_stands() {
    assert!(!has_nul(""));
    assert!(!has_nul("tests/test.ll"));
    assert!(!has_nul("0"));
    assert!(has_nul("\0"));
    assert!(has_nul("\0abc"));
    assert!(has_nul("ab\0c"));
    assert!(has_nul("abc\0"));
    assert!(has_nul("ü\0ü"));
    assert!(!has_nul("üü"));
}

#[test]
fn options_are_described_as_debug_prints_them() {
    let plain = BuildOptions::from_environment(None, None);
    assert_eq!(
        plain.describe(),
        "BuildOptions { triple: \"\", cpu: \"\", attr: \"\", model: Default, reloc: Default, \
         opt: O0, ar_section_name: \"\" }"
    );
    let full = BuildOptions {
        triple: String::from("x86_64-unknown-linux-gnu"),
        cpu: String::from("x86-64"),
        attr: String::from("+rdrnd,\"q\""),
        model: CodegenModel::Kernel,
        reloc: Relocations::PIC,
        opt: Optimisation::O3,
        ar_section_name: String::from("a\\b\n.o"),
    };
    assert_eq!(full.describe(), format!("{:?}", full));
    assert!(full.describe().contains("attr: \"+rdrnd,\\\"q\\\"\""));
    assert!(full.describe().contains("ar_section_name: \"a\\\\b\\n.o\""));
}

#[test]
fn copies_of_options_hold_the_same() {
    let full = BuildOptions {
        triple: String::from("i386-unknown-linux-gnu"),
        cpu: String::from("pentium4"),
        attr: String::from("+sse2"),
        model: CodegenModel::Small,
        reloc: Relocations::Static,
        opt: Optimisation::O1,
        ar_section_name: String::from("x.o"),
    };
    assert_eq!(format!("{:?}", full.clone()), format!("{:?}", full));
}

#[test]
fn messages_of_the_errors() {
    let check = |error: BuildError, kind: ErrorKind, message: &str| {
        assert_eq!(error.kind, kind);
        assert_eq!(error.message, message);
        let copy = error.clone();
        assert_eq!(copy.kind, kind);
        assert_eq!(copy.message, message);
    };
    check(BuildError::no_context(), ErrorKind::Context, "could not create the context");
    check(BuildError::input_not_utf8(), ErrorKind::Encoding, "input filename is not utf-8");
    check(BuildError::nul_in_input_path(), ErrorKind::Encoding, "input filename contains nulls");
    check(BuildError::nul_in_triple(), ErrorKind::Encoding, "triple contains null bytes");
    check(BuildError::nul_in_cpu(), ErrorKind::Encoding, "cpu contains null bytes");
    check(BuildError::nul_in_attr(), ErrorKind::Encoding, "attr contains null bytes");
    check(
        BuildError::nul_in_object_path(),
        ErrorKind::Encoding,
        "object filename contains nulls",
    );
    check(
        BuildError::nul_in_member_name(),
        ErrorKind::Encoding,
        "archive member name contains nulls",
    );
    check(BuildError::archive_not_utf8(), ErrorKind::Encoding, "archive filename is not utf-8");
    check(
        BuildError::nul_in_archive_path(),
        ErrorKind::Encoding,
        "output file has interior nulls",
    );
    check(
        BuildError::unreadable_input("a b.ll", "No such file"),
        ErrorKind::Io,
        "could not open input file \"a b.ll\": \"No such file\"",
    );
    check(
        BuildError::unparsable_module("expected 'x'"),
        ErrorKind::Parse,
        "module could not be parsed successfully: \"expected 'x'\"",
    );
    check(
        BuildError::invalid_module("bad\n"),
        ErrorKind::Verification,
        "Module is not valid: \"bad\\n\"",
    );
    check(
        BuildError::unknown_target("some weird triple this is", "none"),
        ErrorKind::UnknownTarget,
        "could not generate target from triple some weird triple this is: \"none\"",
    );
    check(
        BuildError::no_temp_file("Read-only file system (os error 30)"),
        ErrorKind::Io,
        "could not create temp file: Read-only file system (os error 30)",
    );
    check(
        BuildError::no_object("TargetMachine can't emit a file of this type"),
        ErrorKind::Codegen,
        "could not generate object file: \"TargetMachine can't emit a file of this type\"",
    );
    check(
        BuildError::archive_not_written(Some("No such file or directory")),
        ErrorKind::ArchiveWrite,
        "\"No such file or directory\"",
    );
    check(
        BuildError::archive_not_written(None),
        ErrorKind::ArchiveWrite,
        "\"failed to write archive\"",
    );
    check(BuildError::new(ErrorKind::Io, String::from("x")), ErrorKind::Io, "x");
}
