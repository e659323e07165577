//! The pass that makes resources includable, before compilation.
//!
//! The pass takes what was found at a path (a file, or a directory with all
//! that lies below it) and answers with the steps of the build, in order:
//! archives to write, archives to have indexed, and directives to hand to
//! the linker. It touches no file itself: reading the entries and carrying
//! out the steps is left to the caller. A pass that fails hands out no step
//! at all.
use crate::archive::object_archive;
use crate::archive::write_archive;
use crate::error::ConfigurationError;
use crate::error::EmbedError;
use crate::error::EmbedErrorView;
use crate::naming::lemma_distinct_hashes_distinct_symbols;
use crate::naming::lemma_symbol_is_linkable;
use crate::naming::lemma_symbol_shape;
use crate::naming::path_display;
use crate::naming::path_text;
use crate::naming::symbol_hash;
use crate::naming::symbol_name;
use crate::naming::symbol_token;
use crate::object_file::blob_object_file;
use crate::object_file::lemma_symbol_bytes_are_name;
use crate::object_file::synthesize_object;
use crate::object_file::writes_architecture;
use crate::target::library_prefix;
use crate::target::library_suffix;
use crate::target::TargetDescriptor;
use crate::target::TargetInfo;
use std::path::PathBuf;
use std::time::SystemTime;
use vstd::prelude::*;

verus! {

/// A plain file to embed, as it was read.
#[derive(Debug)]
pub struct ResourceFile {
    /// The canonical path of the file.
    pub path: PathBuf,
    /// When the file was last modified.
    pub modified: SystemTime,
    /// The bytes of the file.
    pub content: Vec<u8>,
}

/// What was found at a path.
#[derive(Debug)]
pub enum Entry {
    /// A plain file.
    File(ResourceFile),
    /// A directory: its canonical path, and what was found at each of its
    /// entries.
    Directory(PathBuf, Vec<Entry>),
    /// Something at this canonical path that is neither of the two.
    Other(PathBuf),
}

/// An instruction to the build tool that runs the pass.
#[derive(Clone, Debug, PartialEq, Eq)]
pub enum LinkDirective {
    /// Run the pass again when the file or directory at this path changes.
    RerunIfChanged(String),
    /// Link statically against the library of this name.
    LinkStatic(String),
    /// Look for native libraries in this directory.
    SearchNative(String),
}

/// A [`LinkDirective`] with its text as a sequence of characters.
pub enum LinkDirectiveView {
    RerunIfChanged(Seq<char>),
    LinkStatic(Seq<char>),
    SearchNative(Seq<char>),
}

/// One step of the build.
#[derive(Clone, Debug, PartialEq, Eq)]
pub enum BuildStep {
    /// Hand this directive to the build tool.
    Emit(LinkDirective),
    /// Write these bytes, an archive, to the file at this path.
    WriteArchive(String, Vec<u8>),
    /// Have the platform's tool index the archive at this path, and wait
    /// for it.
    IndexArchive(String),
}

/// A [`BuildStep`] with its texts and bytes as sequences.
pub enum BuildStepView {
    Emit(LinkDirectiveView),
    WriteArchive(Seq<char>, Seq<u8>),
    IndexArchive(Seq<char>),
}

impl View for LinkDirective {
    type V = LinkDirectiveView;

    open spec fn view(&self) -> LinkDirectiveView {
        match self {
            LinkDirective::RerunIfChanged(path) => LinkDirectiveView::RerunIfChanged(path@),
            LinkDirective::LinkStatic(name) => LinkDirectiveView::LinkStatic(name@),
            LinkDirective::SearchNative(dir) => LinkDirectiveView::SearchNative(dir@),
        }
    }
}

impl View for BuildStep {
    type V = BuildStepView;

    open spec fn view(&self) -> BuildStepView {
        match self {
            BuildStep::Emit(directive) => BuildStepView::Emit(directive@),
            BuildStep::WriteArchive(path, bytes) => BuildStepView::WriteArchive(path@, bytes@),
            BuildStep::IndexArchive(path) => BuildStepView::IndexArchive(path@),
        }
    }
}

/// The line by which a directive is handed to the build tool.
pub open spec fn directive_line(directive: LinkDirectiveView) -> Seq<char> {
    match directive {
        LinkDirectiveView::RerunIfChanged(path) => "cargo:rerun-if-changed="@ + path,
        LinkDirectiveView::LinkStatic(name) => "cargo:rustc-link-lib=static="@ + name,
        LinkDirectiveView::SearchNative(dir) => "cargo:rustc-link-search=native="@ + dir,
    }
}

impl LinkDirective {
    /// The line by which this directive is handed to the build tool.
    pub fn to_line(&self) -> (line: String)
        ensures
            line@ == directive_line(self@),
    {
        match self {
            LinkDirective::RerunIfChanged(path) => String::from_str(
                "cargo:rerun-if-changed=",
            ).concat(path.as_str()),
            LinkDirective::LinkStatic(name) => String::from_str(
                "cargo:rustc-link-lib=static=",
            ).concat(name.as_str()),
            LinkDirective::SearchNative(dir) => String::from_str(
                "cargo:rustc-link-search=native=",
            ).concat(dir.as_str()),
        }
    }
}

/// The steps of a sequence, each by its view.
pub open spec fn steps_view(steps: Seq<BuildStep>) -> Seq<BuildStepView> {
    Seq::new(steps.len(), |i: int| steps[i]@)
}

/// The outcome of a pass by its views: the steps, or the error.
pub open spec fn outcome_view(outcome: Result<Vec<BuildStep>, EmbedError>) -> Result<
    Seq<BuildStepView>,
    EmbedErrorView,
> {
    match outcome {
        Ok(steps) => Ok(steps_view(steps@)),
        Err(error) => Err(error@),
    }
}

/// Where the archive of a symbol is written: in the output directory, under
/// the name of the library of that symbol.
pub open spec fn archive_path(info: TargetInfo, symbol: Seq<char>, out_dir: Seq<char>) -> Seq<
    char,
> {
    out_dir + "/"@ + library_prefix(info.naming) + symbol + library_suffix(info.naming)
}

/// The steps that embed one file, once its archive is made: write the
/// archive; have it indexed, where the platform asks for that; link against
/// it; and search the output directory for it.
pub open spec fn archive_steps(
    info: TargetInfo,
    symbol: Seq<char>,
    out_dir: Seq<char>,
    archive: Seq<u8>,
) -> Seq<BuildStepView> {
    let path = archive_path(info, symbol, out_dir);
    let write = seq![BuildStepView::WriteArchive(path, archive)];
    let index = if info.external_index {
        seq![BuildStepView::IndexArchive(path)]
    } else {
        Seq::empty()
    };
    let link = seq![
        BuildStepView::Emit(LinkDirectiveView::LinkStatic(symbol)),
        BuildStepView::Emit(LinkDirectiveView::SearchNative(out_dir)),
    ];
    write + index + link
}

/// What embedding one file comes to. The platform is resolved first, then
/// the object is made, then the archive: the first that fails is the error.
/// An archive that its layout does not take cannot be written.
pub open spec fn file_steps(
    file: ResourceFile,
    target: TargetDescriptor,
    out_dir: Seq<char>,
) -> Result<Seq<BuildStepView>, EmbedErrorView> {
    let symbol = symbol_token(file.path, file.modified);
    match target.platform() {
        Err(error) => Err(EmbedErrorView::Configuration(error)),
        Ok(info) => match blob_object_file(info, symbol, file.content@) {
            Err(error) => Err(error),
            Ok(object) => match object_archive(info.archive_kind, symbol, object) {
                None => Err(EmbedErrorView::Io),
                Some(archive) => Ok(archive_steps(info, symbol, out_dir, archive)),
            },
        },
    }
}

/// The steps of `first`, then those of `rest` if there are any: an error in
/// `rest` is the error of the whole.
pub open spec fn steps_then(
    first: Seq<BuildStepView>,
    rest: Result<Seq<BuildStepView>, EmbedErrorView>,
) -> Result<Seq<BuildStepView>, EmbedErrorView> {
    match rest {
        Ok(steps) => Ok(first + steps),
        Err(error) => Err(error),
    }
}

/// The step that asks for another run when the entry shown as `path`
/// changes.
pub open spec fn rerun_step(path: Seq<char>) -> BuildStepView {
    BuildStepView::Emit(LinkDirectiveView::RerunIfChanged(path))
}

/// What the pass over an entry comes to. Every entry asks for another run
/// when it changes. A file is then embedded; a directory is expanded, entry
/// by entry in the order given, to any depth; anything else is an error. The
/// first error met on the way is the error of the pass.
pub open spec fn entry_steps(entry: Entry, target: TargetDescriptor, out_dir: Seq<char>) -> Result<
    Seq<BuildStepView>,
    EmbedErrorView,
>
    decreases entry,
{
    match entry {
        Entry::File(file) => steps_then(
            seq![rerun_step(path_display(file.path))],
            file_steps(file, target, out_dir),
        ),
        Entry::Directory(path, entries) => steps_then(
            seq![rerun_step(path_display(path))],
            entries_steps(entries@, 0, target, out_dir),
        ),
        Entry::Other(path) => Err(EmbedErrorView::UnsupportedEntryType(path_display(path))),
    }
}

/// What the pass over the entries from position `from` on comes to.
pub open spec fn entries_steps(
    entries: Seq<Entry>,
    from: int,
    target: TargetDescriptor,
    out_dir: Seq<char>,
) -> Result<Seq<BuildStepView>, EmbedErrorView>
    decreases entries, entries.len() - from,
{
    if 0 <= from < entries.len() {
        match entry_steps(entries[from], target, out_dir) {
            Ok(steps) => steps_then(steps, entries_steps(entries, from + 1, target, out_dir)),
            Err(error) => Err(error),
        }
    } else {
        Ok(Seq::empty())
    }
}

/// The steps that embed one file whose archive is `archive`.
pub fn plan_archive(info: &TargetInfo, symbol: &str, out_dir: &str, archive: Vec<u8>) -> (steps:
    Vec<BuildStep>)
    ensures
        steps_view(steps@) == archive_steps(*info, symbol@, out_dir@, archive@),
{
    let (prefix, suffix) = info.lib_prefix_and_suffix();
    let path = String::from_str(out_dir).concat("/").concat(prefix).concat(symbol).concat(suffix);
    let mut steps: Vec<BuildStep> = Vec::new();
    if info.external_index {
        let indexed = path.clone();
        steps.push(BuildStep::WriteArchive(path, archive));
        steps.push(BuildStep::IndexArchive(indexed));
    } else {
        steps.push(BuildStep::WriteArchive(path, archive));
    }
    steps.push(BuildStep::Emit(LinkDirective::LinkStatic(String::from_str(symbol))));
    steps.push(BuildStep::Emit(LinkDirective::SearchNative(String::from_str(out_dir))));
    assert(steps_view(steps@) =~= archive_steps(*info, symbol@, out_dir@, archive@));
    steps
}

/// Embeds one file: names it, resolves the platform, makes the object and
/// the archive around it, and says where the archive goes and what the
/// linker is to be told.
///
/// On a platform that resolves, the configuration is at fault exactly where
/// the object format cannot be written for the architecture.
pub fn process_file(file: &ResourceFile, target: &TargetDescriptor, out_dir: &str) -> (outcome:
    Result<Vec<BuildStep>, EmbedError>)
    ensures
        outcome_view(outcome) == file_steps(*file, *target, out_dir@),
        target.platform() matches Ok(info) ==> (is_combination_error(outcome_view(outcome))
            <==> !writes_architecture(info.binfmt, info.arch)),
        is_combination_error(outcome_view(outcome)) ==> target.platform() is Ok,
{
    let symbol = symbol_name(&file.path, &file.modified);
    let info = match TargetInfo::from_build_script_vars(target) {
        Ok(info) => info,
        Err(error) => {
            return Err(EmbedError::Configuration(error));
        },
    };
    proof {
        lemma_symbol_is_linkable(symbol_hash(file.path, file.modified));
        lemma_symbol_bytes_are_name(symbol@);
    }
    let object = match synthesize_object(&info, symbol.as_str(), file.content.as_slice()) {
        Ok(object) => object,
        Err(error) => {
            return Err(error);
        },
    };
    let archive = match write_archive(info.archive_kind, &object) {
        Ok(archive) => archive,
        Err(error) => {
            return Err(error);
        },
    };
    Ok(plan_archive(&info, symbol.as_str(), out_dir, archive))
}

proof fn lemma_steps_view_add(first: Seq<BuildStep>, second: Seq<BuildStep>)
    ensures
        steps_view(first + second) == steps_view(first) + steps_view(second),
{
    assert(steps_view(first + second) =~= steps_view(first) + steps_view(second));
}

/// Whether a pass failed because the object format cannot be written for
/// the architecture.
pub open spec fn is_combination_error(
    outcome: Result<Seq<BuildStepView>, EmbedErrorView>,
) -> bool {
    outcome == Err::<Seq<BuildStepView>, EmbedErrorView>(
        EmbedErrorView::Configuration(ConfigurationError::UnsupportedCombination),
    )
}

/// Makes the entry at a path includable: a file is embedded, a directory is
/// gone through to any depth and every file in it embedded.
///
/// The answer holds the steps of the build in order, or the first error met;
/// after an error no step is to be carried out. The pass blames the
/// combination of format and architecture only where the format cannot be
/// written for the architecture.
pub fn make_includable(entry: &Entry, target: &TargetDescriptor, out_dir: &str) -> (outcome: Result<
    Vec<BuildStep>,
    EmbedError,
>)
    ensures
        outcome_view(outcome) == entry_steps(*entry, *target, out_dir@),
        is_combination_error(outcome_view(outcome)) ==> target.platform() is Ok
            && !writes_architecture(
            target.platform()->Ok_0.binfmt,
            target.platform()->Ok_0.arch,
        ),
    decreases entry,
{
    match entry {
        Entry::File(file) => {
            let mut steps: Vec<BuildStep> = Vec::new();
            steps.push(BuildStep::Emit(LinkDirective::RerunIfChanged(path_text(&file.path))));
            match process_file(file, target, out_dir) {
                Ok(mut more) => {
                    proof {
                        lemma_steps_view_add(steps@, more@);
                        assert(steps_view(steps@) =~= seq![rerun_step(path_display(file.path))]);
                    }
                    steps.append(&mut more);
                    Ok(steps)
                },
                Err(error) => Err(error),
            }
        },
        Entry::Directory(path, entries) => {
            let mut steps: Vec<BuildStep> = Vec::new();
            steps.push(BuildStep::Emit(LinkDirective::RerunIfChanged(path_text(path))));
            assert(steps_view(steps@) =~= seq![rerun_step(path_display(*path))]);
            let ghost whole = entries_steps(entries@, 0, *target, out_dir@);
            let ghost mut done: Seq<BuildStepView> = Seq::empty();
            let mut i: usize = 0;
            while i < entries.len()
                invariant
                    i <= entries.len(),
                    *entry == Entry::Directory(*path, *entries),
                    whole == entries_steps(entries@, 0, *target, out_dir@),
                    steps_view(steps@) == seq![rerun_step(path_display(*path))] + done,
                    steps_then(done, entries_steps(entries@, i as int, *target, out_dir@)) == whole,
                decreases entries.len() - i,
            {
                match make_includable(&entries[i], target, out_dir) {
                    Ok(mut more) => {
                        proof {
                            lemma_steps_view_add(steps@, more@);
                            let next = entries_steps(entries@, i + 1, *target, out_dir@);
                            match next {
                                Ok(rest) => {
                                    assert(done + (steps_view(more@) + rest) =~= (done
                                        + steps_view(more@)) + rest);
                                },
                                Err(_) => {},
                            }
                            let first = seq![rerun_step(path_display(*path))];
                            assert((first + done) + steps_view(more@) =~= first + (done
                                + steps_view(more@)));
                            done = done + steps_view(more@);
                        }
                        steps.append(&mut more);
                    },
                    Err(error) => {
                        return Err(error);
                    },
                }
                i += 1;
            }
            proof {
                assert(done + Seq::<BuildStepView>::empty() =~= done);
            }
            Ok(steps)
        },
        Entry::Other(path) => Err(EmbedError::UnsupportedEntryType(path_text(path))),
    }
}

/// The plain files of an entry, in the order in which the pass meets them.
pub open spec fn files_of(entry: Entry) -> Seq<ResourceFile>
    decreases entry,
{
    match entry {
        Entry::File(file) => seq![file],
        Entry::Directory(_, entries) => files_in(entries@, 0),
        Entry::Other(_) => Seq::empty(),
    }
}

/// The plain files of the entries from position `from` on.
pub open spec fn files_in(entries: Seq<Entry>, from: int) -> Seq<ResourceFile>
    decreases entries, entries.len() - from,
{
    if 0 <= from < entries.len() {
        files_of(entries[from]) + files_in(entries, from + 1)
    } else {
        Seq::empty()
    }
}

/// The symbol of each file of a sequence.
pub open spec fn symbols_of(files: Seq<ResourceFile>) -> Seq<Seq<char>> {
    Seq::new(files.len(), |i: int| symbol_token(files[i].path, files[i].modified))
}

/// The paths of the archives that the steps write, in order.
pub open spec fn archives_written(steps: Seq<BuildStepView>) -> Seq<Seq<char>>
    decreases steps.len(),
{
    if steps.len() == 0 {
        Seq::empty()
    } else {
        match steps.last() {
            BuildStepView::WriteArchive(path, _) => archives_written(steps.drop_last()).push(path),
            _ => archives_written(steps.drop_last()),
        }
    }
}

/// The names of the libraries that the steps link against, in order.
pub open spec fn libraries_linked(steps: Seq<BuildStepView>) -> Seq<Seq<char>>
    decreases steps.len(),
{
    if steps.len() == 0 {
        Seq::empty()
    } else {
        match steps.last() {
            BuildStepView::Emit(LinkDirectiveView::LinkStatic(name)) => libraries_linked(
                steps.drop_last(),
            ).push(name),
            _ => libraries_linked(steps.drop_last()),
        }
    }
}

proof fn lemma_archives_written_add(first: Seq<BuildStepView>, second: Seq<BuildStepView>)
    ensures
        archives_written(first + second) == archives_written(first) + archives_written(second),
    decreases second.len(),
{
    if second.len() == 0 {
        assert(first + second =~= first);
        assert(archives_written(first) + archives_written(second) =~= archives_written(first));
    } else {
        assert((first + second).drop_last() =~= first + second.drop_last());
        assert((first + second).last() == second.last());
        lemma_archives_written_add(first, second.drop_last());
        assert(archives_written(first + second) =~= archives_written(first) + archives_written(
            second,
        ));
    }
}

proof fn lemma_libraries_linked_add(first: Seq<BuildStepView>, second: Seq<BuildStepView>)
    ensures
        libraries_linked(first + second) == libraries_linked(first) + libraries_linked(second),
    decreases second.len(),
{
    if second.len() == 0 {
        assert(first + second =~= first);
        assert(libraries_linked(first) + libraries_linked(second) =~= libraries_linked(first));
    } else {
        assert((first + second).drop_last() =~= first + second.drop_last());
        assert((first + second).last() == second.last());
        lemma_libraries_linked_add(first, second.drop_last());
        assert(libraries_linked(first + second) =~= libraries_linked(first) + libraries_linked(
            second,
        ));
    }
}

proof fn lemma_rerun_step_writes_nothing(path: Seq<char>)
    ensures
        archives_written(seq![rerun_step(path)]) == Seq::<Seq<char>>::empty(),
        libraries_linked(seq![rerun_step(path)]) == Seq::<Seq<char>>::empty(),
{
    let step = seq![rerun_step(path)];
    let none = Seq::<BuildStepView>::empty();
    assert(step.drop_last() =~= none);
    assert(archives_written(none) =~= Seq::<Seq<char>>::empty());
    assert(libraries_linked(none) =~= Seq::<Seq<char>>::empty());
    assert(archives_written(step) =~= Seq::<Seq<char>>::empty());
    assert(libraries_linked(step) =~= Seq::<Seq<char>>::empty());
}

proof fn lemma_archive_steps_write_one(
    info: TargetInfo,
    symbol: Seq<char>,
    out_dir: Seq<char>,
    archive: Seq<u8>,
)
    ensures
        archives_written(archive_steps(info, symbol, out_dir, archive)) == seq![
            archive_path(info, symbol, out_dir),
        ],
        libraries_linked(archive_steps(info, symbol, out_dir, archive)) == seq![symbol],
{
    let path = archive_path(info, symbol, out_dir);
    let write = seq![BuildStepView::WriteArchive(path, archive)];
    let index = if info.external_index {
        seq![BuildStepView::IndexArchive(path)]
    } else {
        Seq::empty()
    };
    let link_static = seq![BuildStepView::Emit(LinkDirectiveView::LinkStatic(symbol))];
    let search = seq![BuildStepView::Emit(LinkDirectiveView::SearchNative(out_dir))];
    let none = Seq::<BuildStepView>::empty();
    assert(archives_written(none) =~= Seq::<Seq<char>>::empty());
    assert(libraries_linked(none) =~= Seq::<Seq<char>>::empty());
    assert(write.drop_last() =~= none);
    assert(link_static.drop_last() =~= none);
    assert(search.drop_last() =~= none);
    if info.external_index {
        assert(index.drop_last() =~= none);
    }
    assert(archive_steps(info, symbol, out_dir, archive) =~= ((write + index) + link_static)
        + search);
    lemma_archives_written_add((write + index) + link_static, search);
    lemma_archives_written_add(write + index, link_static);
    lemma_archives_written_add(write, index);
    lemma_libraries_linked_add((write + index) + link_static, search);
    lemma_libraries_linked_add(write + index, link_static);
    lemma_libraries_linked_add(write, index);
    assert(archives_written(archive_steps(info, symbol, out_dir, archive)) =~= seq![path]);
    assert(libraries_linked(archive_steps(info, symbol, out_dir, archive)) =~= seq![symbol]);
}

/// The archive paths of a sequence of files on a platform.
pub open spec fn archive_paths(
    info: TargetInfo,
    files: Seq<ResourceFile>,
    out_dir: Seq<char>,
) -> Seq<Seq<char>> {
    Seq::new(
        files.len(),
        |i: int| archive_path(info, symbol_token(files[i].path, files[i].modified), out_dir),
    )
}

/// A pass that succeeds writes exactly one archive for each plain file
/// below the entry, however deep it lies, and links against exactly one
/// library for each: the archive and the library of the file's symbol, in
/// the order of the files.
pub proof fn lemma_one_archive_per_file(entry: Entry, target: TargetDescriptor, out_dir: Seq<char>)
    requires
        entry_steps(entry, target, out_dir) is Ok,
    ensures
        libraries_linked(entry_steps(entry, target, out_dir)->Ok_0) == symbols_of(files_of(entry)),
        archives_written(entry_steps(entry, target, out_dir)->Ok_0).len() == files_of(entry).len(),
        files_of(entry).len() > 0 ==> target.platform() is Ok && archives_written(
            entry_steps(entry, target, out_dir)->Ok_0,
        ) == archive_paths(target.platform()->Ok_0, files_of(entry), out_dir),
    decreases entry, 0int,
{
    match entry {
        Entry::File(file) => {
            let symbol = symbol_token(file.path, file.modified);
            let info = target.platform()->Ok_0;
            let steps = file_steps(file, target, out_dir)->Ok_0;
            let archive = object_archive(
                info.archive_kind,
                symbol,
                blob_object_file(info, symbol, file.content@)->Ok_0,
            )->Some_0;
            lemma_archive_steps_write_one(info, symbol, out_dir, archive);
            lemma_rerun_step_writes_nothing(path_display(file.path));
            lemma_archives_written_add(seq![rerun_step(path_display(file.path))], steps);
            lemma_libraries_linked_add(seq![rerun_step(path_display(file.path))], steps);
            assert(libraries_linked(entry_steps(entry, target, out_dir)->Ok_0) =~= symbols_of(
                files_of(entry),
            ));
            assert(archives_written(entry_steps(entry, target, out_dir)->Ok_0) =~= archive_paths(
                info,
                files_of(entry),
                out_dir,
            ));
        },
        Entry::Directory(path, entries) => {
            let steps = entries_steps(entries@, 0, target, out_dir)->Ok_0;
            lemma_one_archive_per_entry(entries@, 0, target, out_dir);
            lemma_rerun_step_writes_nothing(path_display(path));
            lemma_archives_written_add(seq![rerun_step(path_display(path))], steps);
            lemma_libraries_linked_add(seq![rerun_step(path_display(path))], steps);
            assert(libraries_linked(entry_steps(entry, target, out_dir)->Ok_0) =~= symbols_of(
                files_of(entry),
            ));
            if files_of(entry).len() > 0 {
                assert(archives_written(entry_steps(entry, target, out_dir)->Ok_0)
                    =~= archive_paths(target.platform()->Ok_0, files_of(entry), out_dir));
            }
        },
        Entry::Other(_) => {},
    }
}

proof fn lemma_one_archive_per_entry(
    entries: Seq<Entry>,
    from: int,
    target: TargetDescriptor,
    out_dir: Seq<char>,
)
    requires
        0 <= from,
        entries_steps(entries, from, target, out_dir) is Ok,
    ensures
        libraries_linked(entries_steps(entries, from, target, out_dir)->Ok_0) == symbols_of(
            files_in(entries, from),
        ),
        archives_written(entries_steps(entries, from, target, out_dir)->Ok_0).len() == files_in(
            entries,
            from,
        ).len(),
        files_in(entries, from).len() > 0 ==> target.platform() is Ok && archives_written(
            entries_steps(entries, from, target, out_dir)->Ok_0,
        ) == archive_paths(target.platform()->Ok_0, files_in(entries, from), out_dir),
    decreases entries, entries.len() - from,
{
    if from < entries.len() {
        let first = entry_steps(entries[from], target, out_dir)->Ok_0;
        let rest = entries_steps(entries, from + 1, target, out_dir)->Ok_0;
        lemma_one_archive_per_file(entries[from], target, out_dir);
        lemma_one_archive_per_entry(entries, from + 1, target, out_dir);
        lemma_archives_written_add(first, rest);
        lemma_libraries_linked_add(first, rest);
        let files_first = files_of(entries[from]);
        let files_rest = files_in(entries, from + 1);
        assert(symbols_of(files_first + files_rest) =~= symbols_of(files_first) + symbols_of(
            files_rest,
        ));
        if files_in(entries, from).len() > 0 {
            let info = target.platform()->Ok_0;
            assert(archive_paths(info, files_first + files_rest, out_dir) =~= archive_paths(
                info,
                files_first,
                out_dir,
            ) + archive_paths(info, files_rest, out_dir));
            if files_first.len() == 0 {
                assert(archives_written(first) =~= Seq::<Seq<char>>::empty());
            }
            if files_rest.len() == 0 {
                assert(archives_written(rest) =~= Seq::<Seq<char>>::empty());
            }
        }
    } else {
        assert(libraries_linked(Seq::<BuildStepView>::empty()) =~= symbols_of(
            Seq::<ResourceFile>::empty(),
        ));
    }
}

/// Two files of one pass whose hashes differ are linked under different
/// symbols and written to different archives. So the files of a pass get as
/// many symbols and archives as there are files, unless two of them fall on
/// one hash.
pub proof fn lemma_distinct_hashes_distinct_archives(
    entry: Entry,
    target: TargetDescriptor,
    out_dir: Seq<char>,
    i: int,
    j: int,
)
    requires
        entry_steps(entry, target, out_dir) is Ok,
        0 <= i < files_of(entry).len(),
        0 <= j < files_of(entry).len(),
        symbol_hash(files_of(entry)[i].path, files_of(entry)[i].modified) != symbol_hash(
            files_of(entry)[j].path,
            files_of(entry)[j].modified,
        ),
    ensures
        libraries_linked(entry_steps(entry, target, out_dir)->Ok_0)[i] != libraries_linked(
            entry_steps(entry, target, out_dir)->Ok_0,
        )[j],
        archives_written(entry_steps(entry, target, out_dir)->Ok_0)[i] != archives_written(
            entry_steps(entry, target, out_dir)->Ok_0,
        )[j],
{
    let files = files_of(entry);
    let hash_i = symbol_hash(files[i].path, files[i].modified);
    let hash_j = symbol_hash(files[j].path, files[j].modified);
    let info = target.platform()->Ok_0;
    lemma_one_archive_per_file(entry, target, out_dir);
    lemma_distinct_hashes_distinct_symbols(hash_i, hash_j);
    lemma_symbol_shape(hash_i);
    lemma_symbol_shape(hash_j);
    let symbol_i = symbol_token(files[i].path, files[i].modified);
    let symbol_j = symbol_token(files[j].path, files[j].modified);
    let path_i = archive_path(info, symbol_i, out_dir);
    let path_j = archive_path(info, symbol_j, out_dir);
    let before = (out_dir + "/"@ + library_prefix(info.naming)).len() as int;
    assert(path_i.subrange(before, before + symbol_i.len()) =~= symbol_i);
    assert(path_j.subrange(before, before + symbol_j.len()) =~= symbol_j);
}

/// Two passes over a file that has not changed come to the same steps, and
/// so to the same archive, byte for byte: what a pass makes of a file
/// depends on nothing but the file's path, modification time and bytes, the
/// target and the output directory.
pub proof fn lemma_unchanged_file_same_archive(
    first: ResourceFile,
    second: ResourceFile,
    first_target: TargetDescriptor,
    second_target: TargetDescriptor,
    out_dir: Seq<char>,
)
    requires
        first.path == second.path,
        first.modified == second.modified,
        first.content@ == second.content@,
        first_target.os@ == second_target.os@,
        first_target.arch@ == second_target.arch@,
        first_target.endian@ == second_target.endian@,
        first_target.vendor@ == second_target.vendor@,
    ensures
        file_steps(first, first_target, out_dir) == file_steps(second, second_target, out_dir),
{
}

} // verus!
