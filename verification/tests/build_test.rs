use llvm_build_utils::error::{BuildError, ErrorKind};
use llvm_build_utils::model::Stage;
use llvm_build_utils::options::{ArchiveKind, BuildOptions, Optimisation};
use llvm_build_utils::pipeline::Pipeline;
use llvm_build_utils::protocol::{Action, ModuleDescriptor, Reply, Resource};

/// A backend that exists on paper only: it knows which files there are, which
/// triples it has targets for and where an archive can be written, and answers
/// each action as the real one would.
struct PaperBackend {
    files: Vec<&'static str>,
    temp_files: usize,
    asked: Vec<String>,
}

impl PaperBackend {
    fn new() -> PaperBackend {
        PaperBackend {
            files: vec!["tests/test.ll", "tests/test.bc", "tests/rdrand.ll", "tests/rdseed.ll"],
            temp_files: 0,
            asked: Vec::new(),
        }
    }

    fn answer(&mut self, action: &Action) -> Reply {
        self.asked.push(format!("{:?}", action));
        match action {
            Action::ReadFile { path } => {
                if self.files.contains(&path.as_str()) {
                    Reply::Done
                } else {
                    Reply::Failed(Some(String::from("No such file or directory")))
                }
            }
            Action::ResolveTarget { triple } => {
                if triple.is_empty() || triple.starts_with("x86_64-") || triple.starts_with("i386-")
                {
                    Reply::Done
                } else {
                    Reply::Failed(Some(String::from(
                        "No available targets are compatible with this triple.",
                    )))
                }
            }
            Action::CreateTempFile { beside } => {
                self.temp_files += 1;
                let dir = match beside.rfind('/') {
                    Some(at) => &beside[..at],
                    None => "",
                };
                Reply::File(format!("{}/tmp{}", dir, self.temp_files))
            }
            Action::WriteArchive { path, .. } => {
                if path == "/" || path.ends_with('/') {
                    Reply::Failed(Some(String::from("Is a directory")))
                } else {
                    Reply::Done
                }
            }
            _ => Reply::Done,
        }
    }
}

fn build_archive_kind(
    kind: ArchiveKind,
    archive: &str,
    inputs: &[(&str, BuildOptions)],
) -> Result<(), String> {
    let (result, _) = build_on_paper(kind, archive, inputs);
    result.map_err(|e| e.message)
}

fn build_on_paper(
    kind: ArchiveKind,
    archive: &str,
    inputs: &[(&str, BuildOptions)],
) -> (Result<(), BuildError>, Vec<String>) {
    let descriptors: Vec<ModuleDescriptor> = inputs
        .iter()
        .map(|(path, options)| ModuleDescriptor {
            path: String::from(*path),
            options: options.clone(),
        })
        .collect();
    let mut backend = PaperBackend::new();
    let mut pipeline = Pipeline::new(String::from(archive), kind, descriptors);
    let mut steps = 0;
    loop {
        let action = pipeline.action();
        if let Action::Finish(result) = action {
            assert!(pipeline.is_finished());
            assert!(steps <= 8 + 11 * inputs.len());
            return (result, backend.asked);
        }
        let reply = backend.answer(&action);
        pipeline.advance(reply);
        steps += 1;
    }
}

fn default_options() -> BuildOptions {
    BuildOptions::from_environment(None, None)
}

fn with_triple(triple: &str) -> BuildOptions {
    BuildOptions { triple: String::from(triple), ..default_options() }
}

#[test]
fn test_build() {
    build_archive_kind(
        ArchiveKind::Gnu,
        "libtest.a",
        &[
            ("tests/test.ll", with_triple("x86_64-unknown-linux-gnu")),
            ("tests/test.ll", with_triple("i386-unknown-linux-gnu")),
        ],
    )
    .unwrap();
}

#[test]
fn test_bytecode_build() {
    build_archive_kind(
        ArchiveKind::Gnu,
        "libtestbc.a",
        &[("tests/test.bc", with_triple("x86_64-unknown-linux-gnu"))],
    )
    .unwrap();
}

#[test]
fn test_cpu_attr() {
    build_archive_kind(
        ArchiveKind::Gnu,
        "librand.a",
        &[
            (
                "tests/rdrand.ll",
                BuildOptions {
                    triple: String::from("x86_64-unknown-linux-gnu"),
                    cpu: String::from("x86-64"),
                    attr: String::from("+rdrnd"),
                    ..default_options()
                },
            ),
            (
                "tests/rdseed.ll",
                BuildOptions {
                    triple: String::from("x86_64-unknown-linux-gnu"),
                    cpu: String::from("x86-64"),
                    attr: String::from("+rdseed"),
                    ..default_options()
                },
            ),
        ],
    )
    .unwrap();
}

#[test]
fn allow_dynamic_dispatch() {
    let archive = String::from("libtest.a");
    let first = String::from("tests/test.ll");
    build_archive_kind(
        ArchiveKind::Gnu,
        archive.as_str(),
        &[
            (first.as_str(), with_triple("x86_64-unknown-linux-gnu")),
            ("tests/test.ll", with_triple("i386-unknown-linux-gnu")),
        ],
    )
    .unwrap();
}

#[test]
fn test_optimisation() {
    build_archive_kind(
        ArchiveKind::Gnu,
        "librandopt.a",
        &[(
            "tests/rdrand.ll",
            BuildOptions {
                triple: String::from("x86_64-unknown-linux-gnu"),
                cpu: String::from("x86-64"),
                attr: String::from("+rdrnd"),
                opt: Optimisation::O3,
                ..default_options()
            },
        )],
    )
    .unwrap();
}

#[test]
fn test_wrong_things_fail_1() {
    build_archive_kind(
        ArchiveKind::Gnu,
        "fail.a",
        &[("tests/does_not_exist_for_sure.ll", default_options())],
    )
    .err()
    .unwrap();
}

#[test]
fn test_wrong_things_fail_2() {
    build_archive_kind(ArchiveKind::Gnu, "/", &[("tests/test.ll", default_options())])
        .err()
        .unwrap();
}

#[test]
fn test_wrong_things_fail_3() {
    build_archive_kind(ArchiveKind::Gnu, "banana.a/", &[("tests/test.ll", default_options())])
        .err()
        .unwrap();
}

#[test]
fn test_wrong_things_fail_4() {
    build_archive_kind(
        ArchiveKind::Gnu,
        "test.a",
        &[("tests/test.ll", with_triple("some weird triple this is"))],
    )
    .err()
    .unwrap();
}

#[test]
fn two_modules_give_two_members_in_order() {
    let mut first = with_triple("x86_64-unknown-linux-gnu");
    first.ar_section_name = String::from("first.o");
    let mut second = with_triple("i386-unknown-linux-gnu");
    second.ar_section_name = String::from("second.o");
    let descriptors = vec![
        ModuleDescriptor { path: String::from("tests/test.ll"), options: first },
        ModuleDescriptor { path: String::from("tests/test.ll"), options: second },
    ];
    let mut backend = PaperBackend::new();
    let mut pipeline = Pipeline::new(String::from("libtest.a"), ArchiveKind::Bsd, descriptors);
    let mut written = None;
    let result = loop {
        let action = pipeline.action();
        match action {
            Action::Finish(result) => break result,
            Action::WriteArchive { path, members, symbol_table, kind } => {
                assert_eq!(path, "libtest.a");
                assert!(symbol_table);
                assert_eq!(kind, ArchiveKind::Bsd);
                written = Some(
                    members
                        .iter()
                        .map(|m| (m.name.clone(), m.object_path.clone()))
                        .collect::<Vec<_>>(),
                );
                pipeline.advance(Reply::Done);
            }
            other => {
                let reply = backend.answer(&other);
                pipeline.advance(reply);
            }
        }
    };
    assert!(result.is_ok());
    assert_eq!(
        written,
        Some(vec![
            (String::from("first.o"), String::from("tests/tmp1")),
            (String::from("second.o"), String::from("tests/tmp2")),
        ])
    );
}

#[test]
fn one_module_asks_for_each_step_in_order() {
    let options = BuildOptions {
        triple: String::from("x86_64-unknown-linux-gnu"),
        cpu: String::from("x86-64"),
        attr: String::from("+rdrnd"),
        opt: Optimisation::O3,
        ar_section_name: String::from("rand.o"),
        ..default_options()
    };
    let (result, asked) =
        build_on_paper(ArchiveKind::Gnu, "librand.a", &[("tests/rdrand.ll", options)]);
    assert!(result.is_ok());
    let expected = vec![
        "Initialize",
        "CreateContext",
        "ReadFile { path: \"tests/rdrand.ll\" }",
        "ParseModule",
        "VerifyModule",
        "SetTarget { triple: \"x86_64-unknown-linux-gnu\" }",
        "ResolveTarget { triple: \"x86_64-unknown-linux-gnu\" }",
        "CreateTargetMachine { triple: \"x86_64-unknown-linux-gnu\", cpu: \"x86-64\", \
         attr: \"+rdrnd\", opt: O3, reloc: Default, model: Default }",
        "CreateTempFile { beside: \"tests/rdrand.ll\" }",
        "EmitObject { path: \"tests/tmp1\" }",
        "NewMember { object_path: \"tests/tmp1\", name: \"rand.o\" }",
        "Release(Machine)",
        "Release(Module)",
        "WriteArchive { path: \"librand.a\", members: [CompiledMember { name: \"rand.o\", \
         object_path: \"tests/tmp1\" }], symbol_table: true, kind: Gnu }",
        "Release(Members)",
        "Release(Context)",
        "Release(TempFiles)",
    ];
    assert_eq!(asked, expected);
}

#[test]
fn empty_triple_is_not_set_on_the_module() {
    let (result, asked) =
        build_on_paper(ArchiveKind::Gnu, "libtest.a", &[("tests/test.ll", default_options())]);
    assert!(result.is_ok());
    assert!(!asked.iter().any(|a| a.starts_with("SetTarget")));
    assert!(asked.contains(&String::from("ResolveTarget { triple: \"\" }")));
}

#[test]
fn empty_batch_writes_an_empty_archive() {
    let (result, asked) = build_on_paper(ArchiveKind::Coff, "empty.a", &[]);
    assert!(result.is_ok());
    assert_eq!(
        asked,
        vec![
            "Initialize",
            "CreateContext",
            "WriteArchive { path: \"empty.a\", members: [], symbol_table: true, kind: Coff }",
            "Release(Context)",
        ]
    );
}

#[test]
fn missing_input_is_an_io_error_and_nothing_is_written() {
    let (result, asked) = build_on_paper(
        ArchiveKind::Gnu,
        "fail.a",
        &[("tests/does_not_exist_for_sure.ll", default_options())],
    );
    let error = result.err().unwrap();
    assert_eq!(error.kind, ErrorKind::Io);
    assert_eq!(
        error.message,
        "could not open input file \"tests/does_not_exist_for_sure.ll\": \
         \"No such file or directory\""
    );
    assert!(!asked.iter().any(|a| a.starts_with("WriteArchive")));
    assert_eq!(asked.last().unwrap(), "Release(Context)");
}

#[test]
fn unknown_triple_is_named_in_the_error() {
    let (result, asked) = build_on_paper(
        ArchiveKind::Gnu,
        "test.a",
        &[("tests/test.ll", with_triple("some weird triple this is"))],
    );
    let error = result.err().unwrap();
    assert_eq!(error.kind, ErrorKind::UnknownTarget);
    assert_eq!(
        error.message,
        "could not generate target from triple some weird triple this is: \
         \"No available targets are compatible with this triple.\""
    );
    assert!(!asked.iter().any(|a| a.starts_with("WriteArchive")));
    let tail: Vec<&str> = asked.iter().rev().take(2).map(|a| a.as_str()).collect();
    assert_eq!(tail, vec!["Release(Context)", "Release(Module)"]);
}

#[test]
fn archive_path_that_is_a_directory_is_an_archive_write_error() {
    let (result, asked) =
        build_on_paper(ArchiveKind::Gnu, "banana.a/", &[("tests/test.ll", default_options())]);
    let error = result.err().unwrap();
    assert_eq!(error.kind, ErrorKind::ArchiveWrite);
    assert_eq!(error.message, "\"Is a directory\"");
    let tail: Vec<&str> = asked.iter().rev().take(3).map(|a| a.as_str()).collect();
    assert_eq!(tail, vec!["Release(TempFiles)", "Release(Context)", "Release(Members)"]);
}

#[test]
fn second_module_failing_drops_the_first() {
    let (result, asked) = build_on_paper(
        ArchiveKind::Gnu,
        "libtest.a",
        &[
            ("tests/test.ll", with_triple("x86_64-unknown-linux-gnu")),
            ("tests/test.ll", with_triple("sparc-unknown-none")),
        ],
    );
    assert_eq!(result.err().unwrap().kind, ErrorKind::UnknownTarget);
    assert!(!asked.iter().any(|a| a.starts_with("WriteArchive")));
    let tail: Vec<&str> = asked.iter().rev().take(4).map(|a| a.as_str()).collect();
    assert_eq!(
        tail,
        vec!["Release(TempFiles)", "Release(Context)", "Release(Members)", "Release(Module)"]
    );
}

/// Drives one module with replies that succeed until the action whose debug text
/// starts with `failing`, which gets `reply`.
fn fail_at(failing: &str, reply: Reply, options: BuildOptions) -> (BuildError, Vec<String>) {
    let descriptors = vec![ModuleDescriptor { path: String::from("dir/in.ll"), options }];
    let mut pipeline = Pipeline::new(String::from("out.a"), ArchiveKind::Gnu, descriptors);
    let mut asked = Vec::new();
    let mut reply = Some(reply);
    loop {
        let action = pipeline.action();
        let text = format!("{:?}", action);
        if let Action::Finish(result) = action {
            for resource in [
                Resource::Machine,
                Resource::Module,
                Resource::Members,
                Resource::Context,
                Resource::TempFiles,
            ] {
                assert!(!pipeline.holds(resource));
            }
            return (result.err().unwrap(), asked);
        }
        let answer = if text.starts_with(failing) {
            reply.take().unwrap()
        } else if text.starts_with("CreateTempFile") {
            Reply::File(String::from("dir/tmp"))
        } else {
            Reply::Done
        };
        asked.push(text);
        pipeline.advance(answer);
    }
}

fn failed(words: &str) -> Reply {
    Reply::Failed(Some(String::from(words)))
}

#[test]
fn context_failure() {
    let (error, asked) = fail_at("CreateContext", Reply::Failed(None), default_options());
    assert_eq!(error.kind, ErrorKind::Context);
    assert_eq!(error.message, "could not create the context");
    assert_eq!(asked, vec!["Initialize", "CreateContext"]);
}

#[test]
fn parse_failure() {
    let (error, asked) =
        fail_at("ParseModule", failed("expected top-level entity"), default_options());
    assert_eq!(error.kind, ErrorKind::Parse);
    assert_eq!(
        error.message,
        "module could not be parsed successfully: \"expected top-level entity\""
    );
    assert_eq!(asked.last().unwrap(), "Release(Context)");
    assert_eq!(asked.len(), 5);
}

#[test]
fn verification_failure() {
    let (error, asked) =
        fail_at("VerifyModule", failed("Broken module: \"x\""), default_options());
    assert_eq!(error.kind, ErrorKind::Verification);
    assert_eq!(error.message, "Module is not valid: \"Broken module: \\\"x\\\"\"");
    let tail: Vec<&str> = asked.iter().rev().take(2).map(|a| a.as_str()).collect();
    assert_eq!(tail, vec!["Release(Context)", "Release(Module)"]);
}

#[test]
fn target_machine_failure_shows_the_options() {
    let options = BuildOptions {
        triple: String::from("x86_64-unknown-linux-gnu"),
        cpu: String::from("z80"),
        ..default_options()
    };
    let shown = format!("{:?}", options);
    let (error, _) = fail_at("CreateTargetMachine", Reply::Failed(None), options);
    assert_eq!(error.kind, ErrorKind::TargetMachine);
    assert_eq!(
        error.message,
        format!("could not create the target machine (likely invalid BuildOptions {})", shown)
    );
    assert_eq!(
        error.message,
        "could not create the target machine (likely invalid BuildOptions BuildOptions { \
         triple: \"x86_64-unknown-linux-gnu\", cpu: \"z80\", attr: \"\", model: Default, \
         reloc: Default, opt: O0, ar_section_name: \"\" })"
    );
}

#[test]
fn temp_file_failure() {
    let (error, asked) = fail_at("CreateTempFile", failed("Permission denied"), default_options());
    assert_eq!(error.kind, ErrorKind::Io);
    assert_eq!(error.message, "could not create temp file: Permission denied");
    let tail: Vec<&str> = asked.iter().rev().take(3).map(|a| a.as_str()).collect();
    assert_eq!(tail, vec!["Release(Context)", "Release(Module)", "Release(Machine)"]);
}

#[test]
fn temp_file_without_a_path_is_a_failure() {
    let (error, _) = fail_at("CreateTempFile", Reply::Done, default_options());
    assert_eq!(error.kind, ErrorKind::Io);
    assert_eq!(error.message, "could not create temp file: ");
}

#[test]
fn codegen_failure_removes_the_temp_file() {
    let (error, asked) = fail_at("EmitObject", failed("cannot emit"), default_options());
    assert_eq!(error.kind, ErrorKind::Codegen);
    assert_eq!(error.message, "could not generate object file: \"cannot emit\"");
    let tail: Vec<&str> = asked.iter().rev().take(4).map(|a| a.as_str()).collect();
    assert_eq!(
        tail,
        vec!["Release(TempFiles)", "Release(Context)", "Release(Module)", "Release(Machine)"]
    );
}

#[test]
fn archive_failure_without_words() {
    let (error, _) = fail_at("WriteArchive", Reply::Failed(None), default_options());
    assert_eq!(error.kind, ErrorKind::ArchiveWrite);
    assert_eq!(error.message, "\"failed to write archive\"");
}

#[test]
fn nul_in_a_string_is_an_encoding_error() {
    let cases: Vec<(BuildOptions, &str)> = vec![
        (with_triple("x86\0"), "triple contains null bytes"),
        (
            BuildOptions { cpu: String::from("\0"), ..default_options() },
            "cpu contains null bytes",
        ),
        (
            BuildOptions { attr: String::from("+a\0b"), ..default_options() },
            "attr contains null bytes",
        ),
        (
            BuildOptions { ar_section_name: String::from("a\0"), ..default_options() },
            "archive member name contains nulls",
        ),
    ];
    for (options, message) in cases {
        let (error, asked) = fail_at("Nothing", Reply::Done, options);
        assert_eq!(error.kind, ErrorKind::Encoding);
        assert_eq!(error.message, message);
        assert!(asked.iter().all(|a| !a.contains("\\0")));
    }
}

#[test]
fn nul_in_a_path_is_an_encoding_error() {
    let (result, asked) =
        build_on_paper(ArchiveKind::Gnu, "out.a", &[("tests/te\0st.ll", default_options())]);
    let error = result.err().unwrap();
    assert_eq!(error.kind, ErrorKind::Encoding);
    assert_eq!(error.message, "input filename contains nulls");
    assert_eq!(asked, vec!["Initialize", "CreateContext", "Release(Context)"]);

    let (result, asked) =
        build_on_paper(ArchiveKind::Gnu, "out\0.a", &[("tests/test.ll", default_options())]);
    let error = result.err().unwrap();
    assert_eq!(error.kind, ErrorKind::Encoding);
    assert_eq!(error.message, "output file has interior nulls");
    assert!(!asked.iter().any(|a| a.starts_with("WriteArchive")));

    let (error, _) =
        fail_at("CreateTempFile", Reply::File(String::from("d/\0")), default_options());
    assert_eq!(error.kind, ErrorKind::Encoding);
    assert_eq!(error.message, "object filename contains nulls");
}

#[test]
fn finished_batch_stays_finished() {
    let mut pipeline = Pipeline::new(String::from("out.a"), ArchiveKind::Gnu, Vec::new());
    for _ in 0..4 {
        pipeline.advance(Reply::Done);
    }
    assert!(pipeline.is_finished());
    pipeline.advance(failed("late"));
    pipeline.advance(Reply::File(String::from("late")));
    assert!(pipeline.is_finished());
    match pipeline.action() {
        Action::Finish(Ok(())) => {}
        other => panic!("{:?}", other),
    }
}

#[test]
fn same_inputs_and_replies_give_the_same_actions() {
    let inputs = [
        ("tests/test.ll", with_triple("x86_64-unknown-linux-gnu")),
        ("tests/rdrand.ll", with_triple("i386-unknown-linux-gnu")),
    ];
    let (first, asked_first) = build_on_paper(ArchiveKind::Gnu, "one.a", &inputs);
    let (second, asked_second) = build_on_paper(ArchiveKind::Gnu, "one.a", &inputs);
    assert!(first.is_ok() && second.is_ok());
    assert_eq!(asked_first, asked_second);
    assert_eq!(asked_first.len(), 2 + 2 * 11 + 1 + 3);
}

#[test]
fn replies_tell_failure_and_words() {
    assert!(!Reply::Done.is_failure());
    assert!(!Reply::File(String::from("a")).is_failure());
    assert!(Reply::Failed(None).is_failure());
    assert!(failed("x").is_failure());
    assert_eq!(Reply::Done.diagnostic(), "");
    assert_eq!(Reply::File(String::from("a")).diagnostic(), "");
    assert_eq!(Reply::Failed(None).diagnostic(), "");
    assert_eq!(failed("no target").diagnostic(), "no target");
}

#[test]
fn stages_of_a_failing_batch() {
    let descriptors = vec![ModuleDescriptor {
        path: String::from("dir/in.ll"),
        options: with_triple("x86_64-unknown-linux-gnu"),
    }];
    let mut pipeline = Pipeline::new(String::from("out.a"), ArchiveKind::Gnu, descriptors);
    let mut stages = vec![pipeline.stage()];
    for reply in [Reply::Done, Reply::Done, Reply::Done, Reply::Done, failed("broken")] {
        pipeline.advance(reply);
        stages.push(pipeline.stage());
    }
    assert_eq!(
        stages,
        vec![
            Stage::Initialize,
            Stage::CreateContext,
            Stage::ReadFile,
            Stage::ParseModule,
            Stage::VerifyModule,
            Stage::Closing,
        ]
    );
    assert!(pipeline.holds(Resource::Module));
    assert!(pipeline.holds(Resource::Context));
    assert!(!pipeline.holds(Resource::Machine));
    assert!(!pipeline.holds(Resource::Members));
    assert!(!pipeline.holds(Resource::TempFiles));
    pipeline.advance(Reply::Done);
    assert!(!pipeline.holds(Resource::Module));
    assert!(pipeline.holds(Resource::Context));
    assert!(!pipeline.is_finished());
    pipeline.advance(Reply::Done);
    assert!(pipeline.is_finished());
    assert_eq!(pipeline.stage(), Stage::Finished);
}
