use include_blob::make_includable;
use include_blob::plan_archive;
use include_blob::process_file;
use include_blob::symbol_name;
use include_blob::BuildStep;
use include_blob::ConfigurationError;
use include_blob::EmbedError;
use include_blob::Entry;
use include_blob::LinkDirective;
use include_blob::ResourceFile;
use include_blob::TargetDescriptor;
use include_blob::TargetInfo;
use object::read::archive::ArchiveFile;
use object::Object;
use object::ObjectSection;
use object::ObjectSymbol;
use std::collections::HashSet;
use std::path::PathBuf;
use std::time::Duration;
use std::time::SystemTime;
use std::time::UNIX_EPOCH;

fn at(seconds: u64) -> SystemTime {
    UNIX_EPOCH + Duration::from_secs(seconds)
}

fn linux() -> TargetDescriptor {
    TargetDescriptor::new("linux", "x86_64", "little", "unknown")
}

fn file(path: &str, seconds: u64, content: &[u8]) -> Entry {
    Entry::File(ResourceFile {
        path: PathBuf::from(path),
        modified: at(seconds),
        content: content.to_vec(),
    })
}

fn directory(path: &str, entries: Vec<Entry>) -> Entry {
    Entry::Directory(PathBuf::from(path), entries)
}

fn rerun(path: &str) -> BuildStep {
    BuildStep::Emit(LinkDirective::RerunIfChanged(path.to_string()))
}

fn archives(steps: &[BuildStep]) -> Vec<(String, Vec<u8>)> {
    let mut found = Vec::new();
    for step in steps {
        if let BuildStep::WriteArchive(path, bytes) = step {
            found.push((path.clone(), bytes.clone()));
        }
    }
    found
}

fn linked(steps: &[BuildStep]) -> Vec<String> {
    let mut found = Vec::new();
    for step in steps {
        if let BuildStep::Emit(LinkDirective::LinkStatic(name)) = step {
            found.push(name.clone());
        }
    }
    found
}

#[test]
fn hello_on_linux_end_to_end() {
    let path = "/project/path/to/file";
    let steps = make_includable(&file(path, 1_700_000_000, b"Hello"), &linux(), "/out").unwrap();
    let symbol = symbol_name(&PathBuf::from(path), &at(1_700_000_000));
    assert_eq!(steps.len(), 4);
    assert_eq!(steps[0], rerun(path));
    let (archive_path, archive) = match &steps[1] {
        BuildStep::WriteArchive(path, bytes) => (path.clone(), bytes.clone()),
        other => panic!("{:?}", other),
    };
    assert_eq!(archive_path, format!("/out/lib{}.a", symbol));
    assert_eq!(steps[2], BuildStep::Emit(LinkDirective::LinkStatic(symbol.clone())));
    assert_eq!(steps[3], BuildStep::Emit(LinkDirective::SearchNative("/out".to_string())));

    let parsed = ArchiveFile::parse(&*archive).unwrap();
    let members: Vec<_> = parsed.members().map(|m| m.unwrap()).collect();
    assert_eq!(members.len(), 1);
    assert_eq!(members[0].name(), format!("{}.o", symbol).as_bytes());
    let object = object::File::parse(members[0].data(&*archive).unwrap()).unwrap();
    assert_eq!(object.format(), object::BinaryFormat::Elf);
    assert_eq!(object.architecture(), object::Architecture::X86_64);
    assert!(object.is_little_endian());
    let defined = object.symbols().find(|s| s.name() == Ok(&symbol)).unwrap();
    assert_eq!(defined.size(), 5);
    assert_eq!(defined.kind(), object::SymbolKind::Data);
    let section = object.section_by_index(defined.section_index().unwrap()).unwrap();
    assert_eq!(section.kind(), object::SectionKind::ReadOnlyData);
    assert_eq!(section.data().unwrap(), [72, 101, 108, 108, 111]);
}

#[test]
fn process_file_gives_the_steps_without_the_rerun() {
    let resource = ResourceFile {
        path: PathBuf::from("/project/a.bin"),
        modified: at(5),
        content: vec![1, 2, 3],
    };
    let steps = process_file(&resource, &linux(), "/out/dir").unwrap();
    let symbol = symbol_name(&PathBuf::from("/project/a.bin"), &at(5));
    assert_eq!(steps.len(), 3);
    let expected = format!("/out/dir/lib{}.a", symbol);
    assert!(matches!(&steps[0], BuildStep::WriteArchive(path, _) if *path == expected));
    assert_eq!(steps[1], BuildStep::Emit(LinkDirective::LinkStatic(symbol)));
    assert_eq!(steps[2], BuildStep::Emit(LinkDirective::SearchNative("/out/dir".to_string())));
}

#[test]
fn plan_of_an_archive_on_linux() {
    let info = TargetInfo::from_build_script_vars(&linux()).unwrap();
    let steps = plan_archive(&info, "include_blob_00000000000000ff", "/out", vec![9, 8, 7]);
    assert_eq!(
        steps,
        vec![
            BuildStep::WriteArchive(
                "/out/libinclude_blob_00000000000000ff.a".to_string(),
                vec![9, 8, 7]
            ),
            BuildStep::Emit(LinkDirective::LinkStatic("include_blob_00000000000000ff".to_string())),
            BuildStep::Emit(LinkDirective::SearchNative("/out".to_string())),
        ]
    );
}

#[test]
fn plan_of_an_archive_on_windows() {
    let target = TargetDescriptor::new("windows", "x86_64", "little", "pc");
    let info = TargetInfo::from_build_script_vars(&target).unwrap();
    let steps = plan_archive(&info, "include_blob_00000000000000ff", "C:/out", vec![]);
    assert_eq!(
        steps,
        vec![
            BuildStep::WriteArchive("C:/out/include_blob_00000000000000ff.lib".to_string(), vec![]),
            BuildStep::Emit(LinkDirective::LinkStatic("include_blob_00000000000000ff".to_string())),
            BuildStep::Emit(LinkDirective::SearchNative("C:/out".to_string())),
        ]
    );
}

#[test]
fn plan_of_an_archive_for_apple_asks_for_the_index() {
    let target = TargetDescriptor::new("macos", "aarch64", "little", "apple");
    let info = TargetInfo::from_build_script_vars(&target).unwrap();
    let steps = plan_archive(&info, "include_blob_00000000000000ff", "/out", vec![1]);
    assert_eq!(
        steps,
        vec![
            BuildStep::WriteArchive("/out/libinclude_blob_00000000000000ff.a".to_string(), vec![1]),
            BuildStep::IndexArchive("/out/libinclude_blob_00000000000000ff.a".to_string()),
            BuildStep::Emit(LinkDirective::LinkStatic("include_blob_00000000000000ff".to_string())),
            BuildStep::Emit(LinkDirective::SearchNative("/out".to_string())),
        ]
    );
}

#[test]
fn windows_target_gets_a_coff_archive_under_a_lib_name() {
    let target = TargetDescriptor::new("windows", "x86_64", "little", "pc");
    let steps = make_includable(&file("C:/p/a", 1, b"Hello"), &target, "C:/out").unwrap();
    let symbol = symbol_name(&PathBuf::from("C:/p/a"), &at(1));
    assert_eq!(steps.len(), 4);
    let (path, archive) = archives(&steps).pop().unwrap();
    assert_eq!(path, format!("C:/out/{}.lib", symbol));
    let parsed = ArchiveFile::parse(&*archive).unwrap();
    assert_eq!(parsed.kind(), object::read::archive::ArchiveKind::Coff);
    let member = parsed.members().next().unwrap().unwrap();
    let object = object::File::parse(member.data(&*archive).unwrap()).unwrap();
    assert_eq!(object.format(), object::BinaryFormat::Coff);
    assert!(object.symbols().any(|s| s.name() == Ok(&symbol)));
}

#[test]
fn apple_target_has_every_archive_indexed() {
    let target = TargetDescriptor::new("ios", "aarch64", "little", "apple");
    let steps = make_includable(&file("/p/a", 1, b"a"), &target, "/out").unwrap();
    assert_eq!(steps.len(), 5);
    let written = match &steps[1] {
        BuildStep::WriteArchive(path, _) => path.clone(),
        other => panic!("{:?}", other),
    };
    assert_eq!(steps[2], BuildStep::IndexArchive(written));
}

#[test]
fn directory_is_expanded_to_any_depth() {
    let tree = directory(
        "/p",
        vec![
            file("/p/a", 1, b"a"),
            directory(
                "/p/sub",
                vec![
                    file("/p/sub/b", 2, b"bb"),
                    directory("/p/sub/deep", vec![file("/p/sub/deep/c", 3, b"ccc")]),
                    directory("/p/sub/empty", vec![]),
                ],
            ),
            file("/p/d", 4, b"dddd"),
        ],
    );
    let steps = make_includable(&tree, &linux(), "/out").unwrap();
    let written = archives(&steps);
    assert_eq!(written.len(), 4);
    let symbols = linked(&steps);
    assert_eq!(
        symbols,
        vec![
            symbol_name(&PathBuf::from("/p/a"), &at(1)),
            symbol_name(&PathBuf::from("/p/sub/b"), &at(2)),
            symbol_name(&PathBuf::from("/p/sub/deep/c"), &at(3)),
            symbol_name(&PathBuf::from("/p/d"), &at(4)),
        ]
    );
    assert_eq!(symbols.iter().collect::<HashSet<_>>().len(), 4);
    assert_eq!(written.iter().map(|(path, _)| path).collect::<HashSet<_>>().len(), 4);
    for ((path, _), symbol) in written.iter().zip(&symbols) {
        assert_eq!(*path, format!("/out/lib{}.a", symbol));
    }
}

#[test]
fn every_entry_asks_for_a_rerun_in_the_order_of_the_walk() {
    let tree = directory(
        "/p",
        vec![file("/p/a", 1, b"a"), directory("/p/sub", vec![file("/p/sub/b", 2, b"b")])],
    );
    let steps = make_includable(&tree, &linux(), "/out").unwrap();
    let mut reruns = Vec::new();
    for step in &steps {
        if let BuildStep::Emit(LinkDirective::RerunIfChanged(path)) = step {
            reruns.push(path.as_str());
        }
    }
    assert_eq!(reruns, vec!["/p", "/p/a", "/p/sub", "/p/sub/b"]);
    assert_eq!(steps[0], rerun("/p"));
    assert_eq!(steps[1], rerun("/p/a"));
    assert_eq!(steps.len(), 2 + 2 * 4);
}

#[test]
fn empty_directory_only_asks_for_a_rerun() {
    let steps = make_includable(&directory("/p/empty", vec![]), &linux(), "/out").unwrap();
    assert_eq!(steps, vec![rerun("/p/empty")]);
}

#[test]
fn empty_directory_does_not_look_at_the_target() {
    let target = TargetDescriptor::new("plan9", "vax", "middle", "dec");
    let steps = make_includable(&directory("/p/empty", vec![]), &target, "/out").unwrap();
    assert_eq!(steps, vec![rerun("/p/empty")]);
}

#[test]
fn paths_are_shown_as_they_are() {
    let tree = directory("/p/données", vec![Entry::Other(PathBuf::from("/p/données/ä b"))]);
    let outcome = make_includable(&tree, &linux(), "/out");
    assert_eq!(outcome, Err(EmbedError::UnsupportedEntryType("/p/données/ä b".to_string())));
    let steps = make_includable(&directory("/p/données", vec![]), &linux(), "/out").unwrap();
    assert_eq!(steps, vec![rerun("/p/données")]);
}

#[test]
fn entry_that_is_neither_file_nor_directory_is_an_error() {
    let outcome = make_includable(&Entry::Other(PathBuf::from("/dev/null")), &linux(), "/out");
    assert_eq!(outcome, Err(EmbedError::UnsupportedEntryType("/dev/null".to_string())));
}

#[test]
fn error_deep_in_a_directory_fails_the_whole_pass() {
    let tree = directory(
        "/p",
        vec![
            file("/p/a", 1, b"a"),
            directory(
                "/p/sub",
                vec![Entry::Other(PathBuf::from("/p/sub/pipe")), file("/p/sub/b", 2, b"b")],
            ),
        ],
    );
    let outcome = make_includable(&tree, &linux(), "/out");
    assert_eq!(outcome, Err(EmbedError::UnsupportedEntryType("/p/sub/pipe".to_string())));
}

#[test]
fn the_first_error_of_the_walk_is_reported() {
    let tree = directory(
        "/p",
        vec![Entry::Other(PathBuf::from("/p/first")), Entry::Other(PathBuf::from("/p/second"))],
    );
    let outcome = make_includable(&tree, &linux(), "/out");
    assert_eq!(outcome, Err(EmbedError::UnsupportedEntryType("/p/first".to_string())));
}

#[test]
fn unsupported_target_fails_a_file() {
    let cases = [
        ("plan9", "x86_64", "little", ConfigurationError::UnsupportedOs),
        ("linux", "vax", "little", ConfigurationError::UnsupportedArchitecture),
        ("linux", "x86_64", "pdp", ConfigurationError::UnsupportedEndianness),
        ("windows", "mips", "little", ConfigurationError::UnsupportedCombination),
        ("macos", "riscv64", "little", ConfigurationError::UnsupportedCombination),
    ];
    for (os, arch, endian, error) in cases {
        let target = TargetDescriptor::new(os, arch, endian, "unknown");
        let outcome = make_includable(&file("/p/a", 1, b"a"), &target, "/out");
        assert_eq!(outcome, Err(EmbedError::Configuration(error)));
    }
}

#[test]
fn every_declared_target_embeds_or_says_why_not() {
    let systems = ["macos", "ios", "windows", "linux", "android"];
    let architectures = [
        "x86", "x86_64", "arm", "aarch64", "riscv32", "riscv64", "mips", "mips64", "powerpc",
        "powerpc64",
    ];
    for os in systems {
        for arch in architectures {
            for endian in ["little", "big"] {
                for vendor in ["apple", "unknown"] {
                    let target = TargetDescriptor::new(os, arch, endian, vendor);
                    let x86_or_arm = matches!(arch, "x86" | "x86_64" | "arm" | "aarch64");
                    let powerpc = matches!(arch, "powerpc" | "powerpc64");
                    let written = match os {
                        "windows" => x86_or_arm,
                        "macos" | "ios" => x86_or_arm || powerpc,
                        _ => true,
                    };
                    let outcome = make_includable(&file("/p/a", 1, b"Hello"), &target, "/out");
                    match outcome {
                        Ok(steps) => {
                            assert!(written, "{} {} {}", os, arch, endian);
                            assert_eq!(archives(&steps).len(), 1);
                        }
                        Err(error) => {
                            assert!(!written, "{} {} {}", os, arch, endian);
                            assert_eq!(
                                error,
                                EmbedError::Configuration(
                                    ConfigurationError::UnsupportedCombination
                                )
                            );
                        }
                    }
                }
            }
        }
    }
}

#[test]
fn unsupported_target_comes_before_a_later_bad_entry() {
    let target = TargetDescriptor::new("plan9", "x86_64", "little", "x");
    let tree = directory("/p", vec![file("/p/a", 1, b"a"), Entry::Other(PathBuf::from("/p/pipe"))]);
    let outcome = make_includable(&tree, &target, "/out");
    assert_eq!(outcome, Err(EmbedError::Configuration(ConfigurationError::UnsupportedOs)));
}

#[test]
fn two_passes_over_an_unchanged_file_give_the_same_archive() {
    let first = make_includable(&file("/p/a", 1, b"Hello"), &linux(), "/out").unwrap();
    let second = make_includable(&file("/p/a", 1, b"Hello"), &linux(), "/out").unwrap();
    assert_eq!(first, second);
    assert_eq!(archives(&first), archives(&second));
    assert_eq!(archives(&first).len(), 1);
}

#[test]
fn a_touched_file_gets_a_new_symbol() {
    let first = make_includable(&file("/p/a", 1, b"Hello"), &linux(), "/out").unwrap();
    let second = make_includable(&file("/p/a", 2, b"Hello"), &linux(), "/out").unwrap();
    assert_ne!(linked(&first), linked(&second));
}

#[test]
fn directives_read_as_the_build_tool_expects() {
    assert_eq!(
        LinkDirective::RerunIfChanged("/p/a b".to_string()).to_line(),
        "cargo:rerun-if-changed=/p/a b"
    );
    assert_eq!(
        LinkDirective::LinkStatic("include_blob_00000000000000ff".to_string()).to_line(),
        "cargo:rustc-link-lib=static=include_blob_00000000000000ff"
    );
    assert_eq!(
        LinkDirective::SearchNative("/out".to_string()).to_line(),
        "cargo:rustc-link-search=native=/out"
    );
}

#[test]
fn errors_say_what_went_wrong() {
    assert_eq!(
        EmbedError::Configuration(ConfigurationError::UnsupportedOs).message(),
        "unsupported operating system"
    );
    assert_eq!(
        EmbedError::Configuration(ConfigurationError::UnsupportedArchitecture).message(),
        "unsupported architecture"
    );
    assert_eq!(
        EmbedError::Configuration(ConfigurationError::UnsupportedEndianness).message(),
        "unsupported endianness"
    );
    assert_eq!(
        EmbedError::Configuration(ConfigurationError::UnsupportedCombination).message(),
        "the object format cannot be written for the architecture"
    );
    assert_eq!(
        EmbedError::Io.message(),
        "the resource is too large for an object file and archive of the target"
    );
    assert_eq!(
        EmbedError::UnsupportedEntryType("/dev/null".to_string()).message(),
        "cannot handle the file type of /dev/null"
    );
    assert_eq!(
        EmbedError::ExternalTool("no such file".to_string()).message(),
        "the archive could not be indexed: no such file"
    );
}
