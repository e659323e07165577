//! A relocatable object file that holds one blob under one symbol.
//!
//! The object is built by the `object` crate, one call at a time. What the
//! object under construction holds is followed by a model of plain values:
//! its sections and its symbols. The bytes that the crate writes in the end
//! are a function of that model, and are named and not spelled out here;
//! for which architectures each format can be written is stated.
use crate::error::ConfigurationError;
use crate::error::EmbedError;
use crate::error::EmbedErrorView;
use crate::naming::is_linkable_name;
use crate::target::has_wide_offsets;
use crate::target::ByteOrder;
use crate::target::CpuArchitecture;
use crate::target::ObjectFormat;
use crate::target::TargetInfo;
use object::write::Object;
use object::write::SectionId;
use object::write::StandardSection;
use object::write::Symbol;
use object::write::SymbolId;
use object::write::SymbolSection;
use object::SymbolFlags;
use vstd::prelude::*;

verus! {

/// An object file under construction, of the `object` crate.
#[verifier::external_type_specification]
#[verifier::external_body]
pub struct ExObject<'a>(Object<'a>);

/// The handle of a section of an object under construction.
#[verifier::external_type_specification]
#[verifier::external_body]
pub struct ExSectionId(SectionId);

/// The handle of a symbol of an object under construction.
#[verifier::external_type_specification]
#[verifier::external_body]
pub struct ExSymbolId(SymbolId);

/// Why the `object` crate could not write an object.
#[verifier::external_type_specification]
#[verifier::external_body]
pub struct ExObjectError(object::write::Error);

/// A binary format, as the `object` crate names it.
#[verifier::external_type_specification]
#[verifier::external_body]
pub struct ExBinaryFormat(object::BinaryFormat);

/// An architecture, as the `object` crate names it.
#[verifier::external_type_specification]
#[verifier::external_body]
pub struct ExArchitecture(object::Architecture);

/// A byte order, as the `object` crate names it.
#[verifier::external_type_specification]
#[verifier::external_body]
pub struct ExEndianness(object::Endianness);

/// The standard section that a subsection belongs to.
#[derive(Clone, Copy, Debug, PartialEq, Eq, Structural)]
pub enum SectionKind {
    /// Executable code.
    Text,
    /// Data that the program may write.
    Data,
    /// Data that the program only reads.
    ReadOnlyData,
}

/// What a symbol names.
#[derive(Clone, Copy, Debug, PartialEq, Eq, Structural)]
pub enum SymbolKind {
    /// A function.
    Text,
    /// A data object.
    Data,
}

/// How far a symbol is visible.
#[derive(Clone, Copy, Debug, PartialEq, Eq, Structural)]
pub enum SymbolScope {
    /// Within its own object file only.
    Compilation,
    /// To every object that is linked into the same image, and not beyond.
    Linkage,
    /// To other images too.
    Dynamic,
}

/// A symbol as it is declared to the object writer.
#[derive(Clone, Debug)]
pub struct SymbolDecl {
    /// The name, without any prefix that the format adds.
    pub name: Vec<u8>,
    /// The offset within its section.
    pub value: u64,
    /// The number of bytes that it names.
    pub size: u64,
    /// What it names.
    pub kind: SymbolKind,
    /// How far it is visible.
    pub scope: SymbolScope,
    /// Whether another definition may take its place.
    pub weak: bool,
}

/// A section of an object: the standard section it belongs to, the name of
/// its subsection (what follows the standard section's own name and the
/// format's separator; empty where the section is the standard section
/// itself), its bytes, its alignment and the number of its relocations.
pub struct SectionModel {
    pub kind: SectionKind,
    pub name: Seq<u8>,
    pub data: Seq<u8>,
    pub align: nat,
    pub relocations: nat,
}

/// A symbol of an object: its declaration, and the position of the section
/// that it is defined in.
pub struct SymbolModel {
    pub name: Seq<u8>,
    pub value: nat,
    pub size: nat,
    pub kind: SymbolKind,
    pub scope: SymbolScope,
    pub weak: bool,
    pub section: nat,
}

/// What an object holds: what it was made for, its sections and its
/// symbols, in the order in which they were added. A section is of code or
/// data, never of debug information.
pub struct ObjectModel {
    pub format: ObjectFormat,
    pub arch: CpuArchitecture,
    pub endian: ByteOrder,
    pub sections: Seq<SectionModel>,
    pub symbols: Seq<SymbolModel>,
}

impl SymbolDecl {
    /// This declaration as a symbol of the section at position `section`.
    pub open spec fn model(&self, section: nat) -> SymbolModel {
        SymbolModel {
            name: self.name@,
            value: self.value as nat,
            size: self.size as nat,
            kind: self.kind,
            scope: self.scope,
            weak: self.weak,
            section,
        }
    }
}

/// What an object holds that was made by [`new_object`] and filled by the
/// functions of this module: its format, architecture and byte order; its
/// sections in order, each with what its name holds after the name of the
/// standard section and the separator; and its symbols in order, each under
/// its name without the prefix that the format puts before it.
pub uninterp spec fn object_contents(object: Object<'static>) -> ObjectModel;

/// The position of the section that a handle stands for, among the sections
/// of its object.
pub uninterp spec fn section_position(id: SectionId) -> nat;

/// The position of the symbol that a handle stands for, among the symbols of
/// its object.
pub uninterp spec fn symbol_position(id: SymbolId) -> nat;

/// The bytes of the object file that `Object::write` of the `object` crate
/// makes of these contents, or `None` where it reports an error, as it does
/// for an architecture that it cannot write the format for.
pub uninterp spec fn object_encoding(contents: ObjectModel) -> Option<Seq<u8>>;

/// The name that a subsection keeps of the name it is asked under. ELF and
/// COFF keep all of it, after the name of the standard section. Mach-O has
/// no subsections: the section is the standard section, and nothing of the
/// name is kept.
pub open spec fn kept_subsection_name(format: ObjectFormat, name: Seq<u8>) -> Seq<u8> {
    match format {
        ObjectFormat::MachO => Seq::empty(),
        ObjectFormat::Elf | ObjectFormat::Coff => name,
    }
}

/// Whether the object writer writes this format for this architecture: ELF
/// for every architecture, COFF for the x86 and ARM families, Mach-O for
/// these and the PowerPC family.
pub open spec fn writes_architecture(format: ObjectFormat, arch: CpuArchitecture) -> bool {
    match format {
        ObjectFormat::Elf => true,
        ObjectFormat::Coff => arch == CpuArchitecture::X86 || arch == CpuArchitecture::X86_64
            || arch == CpuArchitecture::Arm || arch == CpuArchitecture::Aarch64,
        ObjectFormat::MachO => arch == CpuArchitecture::X86 || arch == CpuArchitecture::X86_64
            || arch == CpuArchitecture::Arm || arch == CpuArchitecture::Aarch64 || arch
            == CpuArchitecture::PowerPc || arch == CpuArchitecture::PowerPc64,
    }
}

/// Names of sections and symbols end at their first zero byte in every
/// format, so a name holds none.
pub open spec fn is_name(name: Seq<u8>) -> bool {
    forall|i: int| 0 <= i < name.len() ==> name[i] != 0
}

/// Contents that the object writer takes: every name is one, every section
/// is aligned to one byte and has no relocations, and every symbol lies in a
/// section that is there.
pub open spec fn is_writable(contents: ObjectModel) -> bool {
    &&& forall|i: int|
        0 <= i < contents.sections.len() ==> (#[trigger] contents.sections[i]).align == 1
            && contents.sections[i].relocations == 0
    &&& forall|i: int|
        0 <= i < contents.sections.len() ==> is_name(#[trigger] contents.sections[i].name)
    &&& forall|i: int|
        0 <= i < contents.symbols.len() ==> is_name(#[trigger] contents.symbols[i].name)
    &&& forall|i: int|
        0 <= i < contents.symbols.len() ==> (#[trigger] contents.symbols[i]).section
            < contents.sections.len()
}

/// The format under the name that the `object` crate gives it.
#[verifier::external_body]
fn outside_format(format: ObjectFormat) -> object::BinaryFormat {
    match format {
        ObjectFormat::Elf => object::BinaryFormat::Elf,
        ObjectFormat::MachO => object::BinaryFormat::MachO,
        ObjectFormat::Coff => object::BinaryFormat::Coff,
    }
}

/// The architecture under the name that the `object` crate gives it.
#[verifier::external_body]
fn outside_architecture(arch: CpuArchitecture) -> object::Architecture {
    match arch {
        CpuArchitecture::X86 => object::Architecture::I386,
        CpuArchitecture::X86_64 => object::Architecture::X86_64,
        CpuArchitecture::Arm => object::Architecture::Arm,
        CpuArchitecture::Aarch64 => object::Architecture::Aarch64,
        CpuArchitecture::Riscv32 => object::Architecture::Riscv32,
        CpuArchitecture::Riscv64 => object::Architecture::Riscv64,
        CpuArchitecture::Mips => object::Architecture::Mips,
        CpuArchitecture::Mips64 => object::Architecture::Mips64,
        CpuArchitecture::PowerPc => object::Architecture::PowerPc,
        CpuArchitecture::PowerPc64 => object::Architecture::PowerPc64,
    }
}

/// The byte order under the name that the `object` crate gives it.
#[verifier::external_body]
fn outside_endianness(endian: ByteOrder) -> object::Endianness {
    match endian {
        ByteOrder::Little => object::Endianness::Little,
        ByteOrder::Big => object::Endianness::Big,
    }
}

/// An empty object, by `Object::new`.
///
/// Trusted: the object is for the format, architecture and byte order given,
/// and has no section and no symbol.
#[verifier::external_body]
fn new_object(format: ObjectFormat, arch: CpuArchitecture, endian: ByteOrder) -> (object: Object<
    'static,
>)
    ensures
        object_contents(object) == (ObjectModel {
            format,
            arch,
            endian,
            sections: Seq::empty(),
            symbols: Seq::empty(),
        }),
{
    Object::new(outside_format(format), outside_architecture(arch), outside_endianness(endian))
}

/// Adds the first section to an object, by `Object::add_subsection`.
///
/// Trusted: an object without sections gets exactly one, empty, aligned to
/// one byte and without relocations, and the handle stands for it. ELF and
/// COFF name the section after the standard section and `name`; Mach-O
/// takes the standard section and drops `name`.
#[verifier::external_body]
fn add_subsection(object: &mut Object<'static>, kind: SectionKind, name: &[u8]) -> (id: SectionId)
    requires
        object_contents(*old(object)).sections.len() == 0,
    ensures
        object_contents(*final(object)) == with_first_section(
            object_contents(*old(object)),
            kind,
            name@,
        ),
        section_position(id) == 0,
{
    let standard = match kind {
        SectionKind::Text => StandardSection::Text,
        SectionKind::Data => StandardSection::Data,
        SectionKind::ReadOnlyData => StandardSection::ReadOnlyData,
    };
    object.add_subsection(standard, name)
}

/// The contents after the first section was added under `name`.
pub open spec fn with_first_section(
    contents: ObjectModel,
    kind: SectionKind,
    name: Seq<u8>,
) -> ObjectModel {
    ObjectModel {
        sections: seq![
            SectionModel {
                kind,
                name: kept_subsection_name(contents.format, name),
                data: Seq::empty(),
                align: 1,
                relocations: 0,
            },
        ],
        ..contents
    }
}

/// Declares a symbol of a section, by `Object::add_symbol`.
///
/// Trusted: the object gets this one symbol after those it has, with the
/// fields of the declaration, and the handle stands for it.
#[verifier::external_body]
fn add_symbol(object: &mut Object<'static>, decl: &SymbolDecl, section: SectionId) -> (id: SymbolId)
    ensures
        object_contents(*final(object)) == (ObjectModel {
            symbols: object_contents(*old(object)).symbols.push(
                decl.model(section_position(section)),
            ),
            ..object_contents(*old(object))
        }),
        symbol_position(id) == object_contents(*old(object)).symbols.len(),
{
    let kind = match decl.kind {
        SymbolKind::Text => object::SymbolKind::Text,
        SymbolKind::Data => object::SymbolKind::Data,
    };
    let scope = match decl.scope {
        SymbolScope::Compilation => object::SymbolScope::Compilation,
        SymbolScope::Linkage => object::SymbolScope::Linkage,
        SymbolScope::Dynamic => object::SymbolScope::Dynamic,
    };
    let (name, value, size, weak) = (decl.name.clone(), decl.value, decl.size, decl.weak);
    let section = SymbolSection::Section(section);
    let flags = SymbolFlags::None;
    object.add_symbol(Symbol { name, value, size, kind, scope, weak, section, flags })
}

/// Appends bytes to a section and lets a symbol name them, by
/// `Object::add_symbol_data`.
///
/// Trusted, for bytes that need no alignment: the section gets the bytes
/// after those it has; the symbol then lies in that section, at the offset
/// where the bytes begin, with their number as its size; that offset is
/// returned; nothing else changes.
#[verifier::external_body]
fn add_symbol_data(
    object: &mut Object<'static>,
    symbol: SymbolId,
    section: SectionId,
    data: &[u8],
    align: u64,
) -> (offset: u64)
    requires
        symbol_position(symbol) < object_contents(*old(object)).symbols.len(),
        section_position(section) < object_contents(*old(object)).sections.len(),
        align == 1,
    ensures
        offset == data_end(object_contents(*old(object)), section_position(section)),
        object_contents(*final(object)) == with_symbol_data(
            object_contents(*old(object)),
            symbol_position(symbol),
            section_position(section),
            data@,
        ),
{
    object.add_symbol_data(symbol, section, data, align)
}

/// Where the bytes of the section at position `section` end.
pub open spec fn data_end(contents: ObjectModel, section: nat) -> nat {
    contents.sections[section as int].data.len()
}

/// The contents after `data` was appended to the section at position
/// `section` and the symbol at position `symbol` was made to name it.
pub open spec fn with_symbol_data(
    contents: ObjectModel,
    symbol: nat,
    section: nat,
    data: Seq<u8>,
) -> ObjectModel {
    let before = contents.sections[section as int];
    let named = contents.symbols[symbol as int];
    ObjectModel {
        sections: contents.sections.update(
            section as int,
            SectionModel { data: before.data + data, ..before },
        ),
        symbols: contents.symbols.update(
            symbol as int,
            SymbolModel { value: data_end(contents, section), size: data.len(), section, ..named },
        ),
        ..contents
    }
}

/// Writes an object out, by `Object::write`.
///
/// Trusted: the bytes, or that there are none, depend on the contents alone;
/// and there are bytes exactly where the format can be written for the
/// architecture.
#[verifier::external_body]
fn write_object(object: &Object<'static>) -> (written: Result<Vec<u8>, object::write::Error>)
    requires
        is_writable(object_contents(*object)),
    ensures
        match written {
            Ok(bytes) => object_encoding(object_contents(*object)) == Some(bytes@),
            Err(_) => object_encoding(object_contents(*object)) is None,
        },
        written is Ok <==> writes_architecture(
            object_contents(*object).format,
            object_contents(*object).arch,
        ),
{
    object.write()
}

/// The contents of the object that holds `blob` under `symbol`: one
/// subsection of read-only data, named after the symbol where the format
/// has subsections, with the blob as its bytes, no alignment and no
/// relocations; and one data symbol, visible to the linker, at offset 0 of
/// that section, whose size is the length of the blob.
pub open spec fn blob_object(info: TargetInfo, symbol: Seq<u8>, blob: Seq<u8>) -> ObjectModel {
    ObjectModel {
        format: info.binfmt,
        arch: info.arch,
        endian: info.endian,
        sections: seq![
            SectionModel {
                kind: SectionKind::ReadOnlyData,
                name: kept_subsection_name(info.binfmt, symbol),
                data: blob,
                align: 1,
                relocations: 0,
            },
        ],
        symbols: seq![
            SymbolModel {
                name: symbol,
                value: 0,
                size: blob.len(),
                kind: SymbolKind::Data,
                scope: SymbolScope::Linkage,
                weak: false,
                section: 0,
            },
        ],
    }
}

/// Whether an object holds one blob and nothing else: one section of
/// read-only data without alignment and without relocations, which bears
/// what the format keeps of the symbol's name; and one data symbol that is
/// visible to the linker and names all the bytes of the section from
/// offset 0.
pub open spec fn is_blob_object(contents: ObjectModel) -> bool {
    &&& contents.sections.len() == 1
    &&& contents.symbols.len() == 1
    &&& contents.sections[0].kind == SectionKind::ReadOnlyData
    &&& contents.sections[0].align == 1
    &&& contents.sections[0].relocations == 0
    &&& contents.sections[0].name == kept_subsection_name(
        contents.format,
        contents.symbols[0].name,
    )
    &&& contents.symbols[0] == SymbolModel {
        name: contents.symbols[0].name,
        value: 0,
        size: contents.sections[0].data.len(),
        kind: SymbolKind::Data,
        scope: SymbolScope::Linkage,
        weak: false,
        section: 0,
    }
}

/// The bytes that a symbol of an object names: those of its section from
/// its offset on, as many as its size says.
pub open spec fn symbol_data(contents: ObjectModel, symbol: int) -> Seq<u8> {
    let named = contents.symbols[symbol];
    contents.sections[named.section as int].data.subrange(
        named.value as int,
        (named.value + named.size) as int,
    )
}

/// The bytes of a symbol.
pub open spec fn symbol_bytes(symbol: Seq<char>) -> Seq<u8> {
    vstd::utf8::encode_utf8(symbol)
}

/// The bytes that the object writer makes of the object for a blob, or
/// `None` where it cannot write the format of the platform for its
/// architecture.
pub open spec fn blob_object_encoding(info: TargetInfo, symbol: Seq<char>, blob: Seq<u8>) -> Option<
    Seq<u8>,
> {
    object_encoding(blob_object(info, symbol_bytes(symbol), blob))
}

/// The longest object file with offsets of 32 bits that is embedded: one
/// MiB short of 4 GiB, which leaves room for the headers of an archive.
pub const NARROW_OBJECT_LIMIT: u64 = 0xffef_ffff;

/// Whether an object file of this length can be relied on: a file with
/// offsets of 32 bits must stay under the limit, or its offsets wrap.
pub open spec fn object_length_fits(info: TargetInfo, length: nat) -> bool {
    has_wide_offsets(info.binfmt, info.arch) || length <= NARROW_OBJECT_LIMIT
}

/// The object file for a blob. The platform must have an object format that
/// can be written for its architecture, else the configuration is at fault;
/// and the file must not outgrow its offsets, else it cannot be written.
pub open spec fn blob_object_file(info: TargetInfo, symbol: Seq<char>, blob: Seq<u8>) -> Result<
    Seq<u8>,
    EmbedErrorView,
> {
    match blob_object_encoding(info, symbol, blob) {
        None => Err(EmbedErrorView::Configuration(ConfigurationError::UnsupportedCombination)),
        Some(bytes) => if object_length_fits(info, bytes.len()) {
            Ok(bytes)
        } else {
            Err(EmbedErrorView::Io)
        },
    }
}

/// The object file of one blob, in memory.
pub struct ObjectArtifact {
    info: TargetInfo,
    symbol: String,
    bytes: Vec<u8>,
    contents: Ghost<ObjectModel>,
}

impl ObjectArtifact {
    #[verifier::type_invariant]
    spec fn is_encoding(self) -> bool {
        &&& is_blob_object(self.contents@)
        &&& self.contents@.format == self.info.binfmt
        &&& self.contents@.arch == self.info.arch
        &&& self.contents@.endian == self.info.endian
        &&& self.contents@.symbols[0].name == symbol_bytes(self.symbol@)
        &&& object_encoding(self.contents@) == Some(self.bytes@)
        &&& object_length_fits(self.info, self.bytes@.len())
    }

    /// The bytes of the object file.
    pub closed spec fn view(&self) -> Seq<u8> {
        self.bytes@
    }

    /// What the object holds.
    pub closed spec fn contents(&self) -> ObjectModel {
        self.contents@
    }

    /// The platform that the object was made for.
    pub closed spec fn platform(&self) -> TargetInfo {
        self.info
    }

    /// The symbol under which the blob lies.
    pub closed spec fn symbol_view(&self) -> Seq<char> {
        self.symbol@
    }

    /// Whether the parts of an artifact belong together: the contents are
    /// one blob under the symbol, for the platform, and the bytes are what
    /// the object writer makes of them, within the length that the format
    /// can hold.
    pub open spec fn is_sound(&self) -> bool {
        &&& is_blob_object(self.contents())
        &&& self.contents().format == self.platform().binfmt
        &&& self.contents().arch == self.platform().arch
        &&& self.contents().endian == self.platform().endian
        &&& self.contents().symbols[0].name == symbol_bytes(self.symbol_view())
        &&& object_encoding(self.contents()) == Some(self@)
        &&& object_length_fits(self.platform(), self@.len())
    }

    /// The bytes of the object file. The parts of the artifact belong
    /// together, as [`ObjectArtifact::is_sound`] says.
    pub fn as_bytes(&self) -> (bytes: &[u8])
        ensures
            bytes@ == self@,
            self.is_sound(),
    {
        proof {
            use_type_invariant(self);
        }
        self.bytes.as_slice()
    }

    /// The symbol under which the blob lies.
    pub fn symbol(&self) -> (symbol: &str)
        ensures
            symbol@ == self.symbol_view(),
    {
        self.symbol.as_str()
    }

    /// The platform that the object was made for.
    pub fn info(&self) -> (info: TargetInfo)
        ensures
            info == self.platform(),
    {
        self.info
    }
}

/// The bytes of a symbol that can be linked are a name.
pub proof fn lemma_symbol_bytes_are_name(symbol: Seq<char>)
    requires
        is_linkable_name(symbol),
    ensures
        is_name(symbol_bytes(symbol)),
{
    vstd::utf8::is_ascii_chars_encode_utf8(symbol);
    assert forall|i: int| 0 <= i < symbol_bytes(symbol).len() implies symbol_bytes(symbol)[i]
        != 0 by {
        assert(symbol[i] != '\0');
    }
}

/// Builds the object file that holds `blob` under `symbol`. The symbol must
/// do as a name: no byte of it is zero.
///
/// Fails where the object format of the platform cannot be written for its
/// architecture, and where the file would outgrow offsets of 32 bits; and
/// only there.
pub fn synthesize_object(info: &TargetInfo, symbol: &str, blob: &[u8]) -> (made: Result<
    ObjectArtifact,
    EmbedError,
>)
    requires
        is_name(symbol_bytes(symbol@)),
    ensures
        blob_object_encoding(*info, symbol@, blob@) is Some <==> writes_architecture(
            info.binfmt,
            info.arch,
        ),
        match made {
            Ok(artifact) => {
                &&& blob_object_file(*info, symbol@, blob@) == Ok::<Seq<u8>, EmbedErrorView>(
                    artifact@,
                )
                &&& artifact.contents() == blob_object(*info, symbol_bytes(symbol@), blob@)
                &&& artifact.platform() == *info
                &&& artifact.symbol_view() == symbol@
            },
            Err(error) => blob_object_file(*info, symbol@, blob@) == Err::<
                Seq<u8>,
                EmbedErrorView,
            >(error@),
        },
{
    let name = symbol.as_bytes();
    let mut object = new_object(info.binfmt, info.arch, info.endian);
    let section = add_subsection(&mut object, SectionKind::ReadOnlyData, name);
    let decl = SymbolDecl {
        name: symbol.as_bytes_vec(),
        value: 0,
        size: blob.len() as u64,
        kind: SymbolKind::Data,
        scope: SymbolScope::Linkage,
        weak: false,
    };
    let id = add_symbol(&mut object, &decl, section);
    add_symbol_data(&mut object, id, section, blob, 1);
    proof {
        let contents = object_contents(object);
        let wanted = blob_object(*info, symbol_bytes(symbol@), blob@);
        assert(contents.sections =~= wanted.sections);
        assert(contents.symbols =~= wanted.symbols);
        assert(contents == wanted);
        assert forall|i: int| 0 <= i < contents.sections.len() implies is_name(
            #[trigger] contents.sections[i].name,
        ) by {
            assert(contents.sections[i].name == kept_subsection_name(
                info.binfmt,
                symbol_bytes(symbol@),
            ));
        }
    }
    match write_object(&object) {
        Ok(bytes) => {
            if info.offsets_are_wide() || bytes.len() as u64 <= NARROW_OBJECT_LIMIT {
                Ok(
                    ObjectArtifact {
                        info: *info,
                        symbol: String::from_str(symbol),
                        bytes,
                        contents: Ghost(object_contents(object)),
                    },
                )
            } else {
                Err(EmbedError::Io)
            }
        },
        Err(_) => Err(EmbedError::Configuration(ConfigurationError::UnsupportedCombination)),
    }
}

} // verus!
