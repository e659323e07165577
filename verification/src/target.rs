//! From the description of a target to the conventions of its platform.
//!
//! A target is described by four strings, as a build tool hands them out:
//! operating system, architecture, endianness and vendor. The platform of a
//! target is what the rest of the library needs to know of it: the format of
//! its object files, the kind of its archives, how its libraries are named,
//! and whether an archive needs an index made by an outside tool.
use crate::error::ConfigurationError;
use vstd::prelude::*;

verus! {

/// The binary format of a relocatable object file.
#[derive(Clone, Copy, Debug, PartialEq, Eq, Structural)]
pub enum ObjectFormat {
    Elf,
    MachO,
    Coff,
}

/// A processor architecture that objects can be made for.
#[derive(Clone, Copy, Debug, PartialEq, Eq, Structural)]
pub enum CpuArchitecture {
    X86,
    X86_64,
    Arm,
    Aarch64,
    Riscv32,
    Riscv64,
    Mips,
    Mips64,
    PowerPc,
    PowerPc64,
}

/// The byte order of a target.
#[derive(Clone, Copy, Debug, PartialEq, Eq, Structural)]
pub enum ByteOrder {
    Little,
    Big,
}

/// The layout of a static archive.
#[derive(Clone, Copy, Debug, PartialEq, Eq, Structural)]
pub enum ArchiveKind {
    /// The GNU layout, which the linkers of Linux and Android read.
    Gnu,
    /// The layout of Apple's linkers, with 64-bit offsets.
    Darwin64,
    /// The layout of Windows libraries, import libraries among them, with
    /// its second index that maps every symbol to its member.
    Coff,
}

/// How the file of a static library is named.
#[derive(Clone, Copy, Debug, PartialEq, Eq, Structural)]
pub enum LibraryNaming {
    /// `lib<name>.a`
    Unix,
    /// `<name>.lib`
    Windows,
}

/// A target as the build describes it.
#[derive(Clone, Debug, PartialEq, Eq)]
pub struct TargetDescriptor {
    /// The operating system, such as `linux`.
    pub os: String,
    /// The architecture, such as `x86_64`.
    pub arch: String,
    /// The endianness: `little` or `big`.
    pub endian: String,
    /// The vendor, such as `apple` or `unknown`.
    pub vendor: String,
}

/// The conventions of a target's platform.
#[derive(Clone, Copy, Debug, PartialEq, Eq, Structural)]
pub struct TargetInfo {
    /// The format of object files.
    pub binfmt: ObjectFormat,
    /// The architecture that objects are made for.
    pub arch: CpuArchitecture,
    /// The byte order of objects.
    pub endian: ByteOrder,
    /// The layout of archives.
    pub archive_kind: ArchiveKind,
    /// How library files are named.
    pub naming: LibraryNaming,
    /// Whether an archive must be indexed by an outside tool after it is
    /// written.
    pub external_index: bool,
}

/// What an operating system decides: object format, archive layout and
/// library naming. `None` for one that is not supported.
pub open spec fn os_conventions(os: Seq<char>) -> Option<
    (ObjectFormat, ArchiveKind, LibraryNaming),
> {
    if os == "macos"@ || os == "ios"@ {
        Some((ObjectFormat::MachO, ArchiveKind::Darwin64, LibraryNaming::Unix))
    } else if os == "windows"@ {
        Some((ObjectFormat::Coff, ArchiveKind::Coff, LibraryNaming::Windows))
    } else if os == "linux"@ || os == "android"@ {
        Some((ObjectFormat::Elf, ArchiveKind::Gnu, LibraryNaming::Unix))
    } else {
        None
    }
}

/// The architecture that a name stands for. `None` for one that is not
/// supported.
pub open spec fn architecture_named(arch: Seq<char>) -> Option<CpuArchitecture> {
    if arch == "x86"@ {
        Some(CpuArchitecture::X86)
    } else if arch == "x86_64"@ {
        Some(CpuArchitecture::X86_64)
    } else if arch == "arm"@ {
        Some(CpuArchitecture::Arm)
    } else if arch == "aarch64"@ {
        Some(CpuArchitecture::Aarch64)
    } else if arch == "riscv32"@ {
        Some(CpuArchitecture::Riscv32)
    } else if arch == "riscv64"@ {
        Some(CpuArchitecture::Riscv64)
    } else if arch == "mips"@ {
        Some(CpuArchitecture::Mips)
    } else if arch == "mips64"@ {
        Some(CpuArchitecture::Mips64)
    } else if arch == "powerpc"@ {
        Some(CpuArchitecture::PowerPc)
    } else if arch == "powerpc64"@ {
        Some(CpuArchitecture::PowerPc64)
    } else {
        None
    }
}

/// The byte order that a name stands for. `None` for any name but `little`
/// and `big`.
pub open spec fn endianness_named(endian: Seq<char>) -> Option<ByteOrder> {
    if endian == "little"@ {
        Some(ByteOrder::Little)
    } else if endian == "big"@ {
        Some(ByteOrder::Big)
    } else {
        None
    }
}

/// Whether archives of this layout, for this vendor, need an index that only
/// the vendor's own tool writes: those of Apple's layout for Apple's targets.
pub open spec fn needs_external_index(archive_kind: ArchiveKind, vendor: Seq<char>) -> bool {
    archive_kind == ArchiveKind::Darwin64 && vendor == "apple"@
}

/// The platform of a target. The operating system is looked at first, then
/// the architecture, then the endianness: the first of them that is not
/// supported is the error. The vendor is never an error.
pub open spec fn platform_of(
    os: Seq<char>,
    arch: Seq<char>,
    endian: Seq<char>,
    vendor: Seq<char>,
) -> Result<TargetInfo, ConfigurationError> {
    match os_conventions(os) {
        None => Err(ConfigurationError::UnsupportedOs),
        Some((binfmt, archive_kind, naming)) => match architecture_named(arch) {
            None => Err(ConfigurationError::UnsupportedArchitecture),
            Some(architecture) => match endianness_named(endian) {
                None => Err(ConfigurationError::UnsupportedEndianness),
                Some(endianness) => Ok(
                    TargetInfo {
                        binfmt,
                        arch: architecture,
                        endian: endianness,
                        archive_kind,
                        naming,
                        external_index: needs_external_index(archive_kind, vendor),
                    },
                ),
            },
        },
    }
}

/// Whether object files of this format for this architecture hold offsets
/// of 64 bits: those of ELF for the architectures with 64-bit addresses. All
/// others hold offsets of 32 bits, and cannot be as long as 4 GiB.
pub open spec fn has_wide_offsets(format: ObjectFormat, arch: CpuArchitecture) -> bool {
    &&& format == ObjectFormat::Elf
    &&& (arch == CpuArchitecture::X86_64 || arch == CpuArchitecture::Aarch64 || arch
        == CpuArchitecture::Riscv64 || arch == CpuArchitecture::Mips64 || arch
        == CpuArchitecture::PowerPc64)
}

/// The prefix of a library's file name under a naming.
pub open spec fn library_prefix(naming: LibraryNaming) -> Seq<char> {
    match naming {
        LibraryNaming::Unix => "lib"@,
        LibraryNaming::Windows => ""@,
    }
}

/// The suffix of a library's file name under a naming.
pub open spec fn library_suffix(naming: LibraryNaming) -> Seq<char> {
    match naming {
        LibraryNaming::Unix => ".a"@,
        LibraryNaming::Windows => ".lib"@,
    }
}

/// Whether a string reads exactly as a literal does.
fn reads(text: &String, literal: &str) -> (same: bool)
    ensures
        same == (text@ == literal@),
{
    let expected = String::from_str(literal);
    *text == expected
}

fn resolve_os(os: &String) -> (found: Option<(ObjectFormat, ArchiveKind, LibraryNaming)>)
    ensures
        found == os_conventions(os@),
{
    if reads(os, "macos") || reads(os, "ios") {
        Some((ObjectFormat::MachO, ArchiveKind::Darwin64, LibraryNaming::Unix))
    } else if reads(os, "windows") {
        Some((ObjectFormat::Coff, ArchiveKind::Coff, LibraryNaming::Windows))
    } else if reads(os, "linux") || reads(os, "android") {
        Some((ObjectFormat::Elf, ArchiveKind::Gnu, LibraryNaming::Unix))
    } else {
        None
    }
}

fn resolve_architecture(arch: &String) -> (found: Option<CpuArchitecture>)
    ensures
        found == architecture_named(arch@),
{
    if reads(arch, "x86") {
        Some(CpuArchitecture::X86)
    } else if reads(arch, "x86_64") {
        Some(CpuArchitecture::X86_64)
    } else if reads(arch, "arm") {
        Some(CpuArchitecture::Arm)
    } else if reads(arch, "aarch64") {
        Some(CpuArchitecture::Aarch64)
    } else if reads(arch, "riscv32") {
        Some(CpuArchitecture::Riscv32)
    } else if reads(arch, "riscv64") {
        Some(CpuArchitecture::Riscv64)
    } else if reads(arch, "mips") {
        Some(CpuArchitecture::Mips)
    } else if reads(arch, "mips64") {
        Some(CpuArchitecture::Mips64)
    } else if reads(arch, "powerpc") {
        Some(CpuArchitecture::PowerPc)
    } else if reads(arch, "powerpc64") {
        Some(CpuArchitecture::PowerPc64)
    } else {
        None
    }
}

fn resolve_endianness(endian: &String) -> (found: Option<ByteOrder>)
    ensures
        found == endianness_named(endian@),
{
    if reads(endian, "little") {
        Some(ByteOrder::Little)
    } else if reads(endian, "big") {
        Some(ByteOrder::Big)
    } else {
        None
    }
}

impl TargetDescriptor {
    /// A target described by these four strings.
    pub fn new(os: &str, arch: &str, endian: &str, vendor: &str) -> (target: TargetDescriptor)
        ensures
            target.os@ == os@,
            target.arch@ == arch@,
            target.endian@ == endian@,
            target.vendor@ == vendor@,
    {
        TargetDescriptor {
            os: String::from_str(os),
            arch: String::from_str(arch),
            endian: String::from_str(endian),
            vendor: String::from_str(vendor),
        }
    }

    /// The platform of this target, see [`platform_of`].
    pub open spec fn platform(&self) -> Result<TargetInfo, ConfigurationError> {
        platform_of(self.os@, self.arch@, self.endian@, self.vendor@)
    }
}

impl TargetInfo {
    /// Resolves the variables that a build script is run with into the
    /// platform they describe.
    ///
    /// Every supported operating system, architecture and endianness resolves;
    /// anything else is an error, never a default.
    pub fn from_build_script_vars(target: &TargetDescriptor) -> (resolved: Result<
        TargetInfo,
        ConfigurationError,
    >)
        ensures
            resolved == target.platform(),
    {
        let (binfmt, archive_kind, naming) = match resolve_os(&target.os) {
            Some(conventions) => conventions,
            None => {
                return Err(ConfigurationError::UnsupportedOs);
            },
        };
        let arch = match resolve_architecture(&target.arch) {
            Some(arch) => arch,
            None => {
                return Err(ConfigurationError::UnsupportedArchitecture);
            },
        };
        let endian = match resolve_endianness(&target.endian) {
            Some(endian) => endian,
            None => {
                return Err(ConfigurationError::UnsupportedEndianness);
            },
        };
        let external_index = match archive_kind {
            ArchiveKind::Darwin64 => reads(&target.vendor, "apple"),
            ArchiveKind::Gnu | ArchiveKind::Coff => false,
        };
        Ok(TargetInfo { binfmt, arch, endian, archive_kind, naming, external_index })
    }

    /// Whether the object files of this platform hold offsets of 64 bits.
    pub fn offsets_are_wide(&self) -> (wide: bool)
        ensures
            wide == has_wide_offsets(self.binfmt, self.arch),
    {
        match self.binfmt {
            ObjectFormat::Elf => match self.arch {
                CpuArchitecture::X86_64
                | CpuArchitecture::Aarch64
                | CpuArchitecture::Riscv64
                | CpuArchitecture::Mips64
                | CpuArchitecture::PowerPc64 => true,
                _ => false,
            },
            _ => false,
        }
    }

    /// What a library's file name starts and ends with on this platform.
    pub fn lib_prefix_and_suffix(&self) -> (affixes: (&'static str, &'static str))
        ensures
            affixes.0@ == library_prefix(self.naming),
            affixes.1@ == library_suffix(self.naming),
    {
        match self.naming {
            LibraryNaming::Unix => ("lib", ".a"),
            LibraryNaming::Windows => ("", ".lib"),
        }
    }
}

/// Every declared operating system, architecture and endianness resolves
/// together, whatever the vendor, and nothing else does: a target has a
/// platform exactly if each of the three is among those supported.
pub proof fn lemma_platform_coverage(
    os: Seq<char>,
    arch: Seq<char>,
    endian: Seq<char>,
    vendor: Seq<char>,
)
    ensures
        platform_of(os, arch, endian, vendor) is Ok <==> os_conventions(os) is Some
            && architecture_named(arch) is Some && endianness_named(endian) is Some,
        platform_of(os, arch, endian, vendor) matches Ok(info) ==> os_conventions(os) == Some(
            (info.binfmt, info.archive_kind, info.naming),
        ) && architecture_named(arch) == Some(info.arch) && endianness_named(endian) == Some(
            info.endian,
        ),
{
}

} // verus!
