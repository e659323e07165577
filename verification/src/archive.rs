//! A static archive around one object file.
//!
//! The archive is written by the `ar_archive_writer` crate. Its bytes are a
//! function of the layout and of the member, and are named and not spelled
//! out here. What the library decides is the member: its name, and the
//! fixed metadata that make the same object give the same archive; and
//! whether the member is one that the layout can hold.
use crate::error::EmbedError;
use crate::error::EmbedErrorView;
use crate::object_file::is_blob_object;
use crate::object_file::object_encoding;
use crate::object_file::object_length_fits;
use crate::object_file::symbol_bytes;
use crate::object_file::ObjectArtifact;
use crate::object_file::ObjectModel;
use crate::object_file::NARROW_OBJECT_LIMIT;
use crate::target::ArchiveKind;
use crate::target::TargetInfo;
use ar_archive_writer::write_archive_to_stream;
use ar_archive_writer::NewArchiveMember;
use ar_archive_writer::DEFAULT_OBJECT_READER;
use std::io::Cursor;
use vstd::prelude::*;

verus! {

/// Why a stream could not be written to.
#[verifier::external_type_specification]
#[verifier::external_body]
pub struct ExIoError(std::io::Error);

/// What the header of an archive member says of it.
#[derive(Clone, Debug)]
pub struct MemberHeader {
    /// The name of the member.
    pub name: String,
    /// When it was last modified, in seconds since 1970.
    pub mtime: u64,
    /// The user that owns it.
    pub uid: u32,
    /// The group that owns it.
    pub gid: u32,
    /// Its permission bits.
    pub perms: u32,
}

/// A member of an archive: its header and its bytes.
pub struct MemberModel {
    pub name: Seq<char>,
    pub mtime: nat,
    pub uid: nat,
    pub gid: nat,
    pub perms: nat,
    pub data: Seq<u8>,
}

impl MemberHeader {
    /// The member with this header and these bytes.
    pub open spec fn member(&self, data: Seq<u8>) -> MemberModel {
        MemberModel {
            name: self.name@,
            mtime: self.mtime as nat,
            uid: self.uid as nat,
            gid: self.gid as nat,
            perms: self.perms as nat,
            data,
        }
    }
}

/// The bytes of the archive that `write_archive_to_stream` of the
/// `ar_archive_writer` crate makes of one member, in the given layout, thin
/// or not, with or without the symbol map of Arm64EC. The symbols of the
/// member are in its index. `None` where the writer reports an error.
pub uninterp spec fn archive_encoding(
    kind: ArchiveKind,
    thin: bool,
    arm64ec: bool,
    member: MemberModel,
) -> Option<Seq<u8>>;

/// The largest member that the archive writer takes: its size is written
/// in ten decimal digits.
pub const MAX_MEMBER_SIZE: u64 = 9_999_999_999;

/// The longest name of a symbol, in bytes, that is put into an archive of
/// the COFF layout.
pub const COFF_NAME_LIMIT: u64 = 0xffff;

/// The size that a member of `length` bytes takes in an archive: Apple's
/// layout fills it up to a multiple of eight.
pub open spec fn member_size(kind: ArchiveKind, length: nat) -> nat {
    if kind == ArchiveKind::Darwin64 && length % 8 != 0 {
        (length + 8 - length % 8) as nat
    } else {
        length
    }
}

/// Whether the index of the COFF layout, which keeps offsets of 32 bits and
/// comes before the member, has room for an object of this length under a
/// symbol of this many bytes: the object stays under the limit for such
/// offsets, and the symbol is short, so that the index stays small.
pub open spec fn coff_index_fits(symbol_length: nat, object_length: nat) -> bool {
    object_length <= NARROW_OBJECT_LIMIT && symbol_length <= COFF_NAME_LIMIT
}

/// Whether an archive of this layout takes an object of this length under
/// this symbol. No member may be larger than the writer takes. In the COFF
/// layout the index must have room for the object and its symbol, and the
/// name of the member must be short as well.
pub open spec fn archive_takes(kind: ArchiveKind, symbol: Seq<char>, object_length: nat) -> bool {
    &&& member_size(kind, object_length) <= MAX_MEMBER_SIZE
    &&& kind == ArchiveKind::Coff ==> {
        &&& coff_index_fits(symbol_bytes(symbol).len(), object_length)
        &&& symbol_bytes(symbol + ".o"@).len() <= COFF_NAME_LIMIT + 2
    }
}

/// Whether bytes are the object file of one blob, as the object writer
/// makes it, of a length that its offsets can hold; and, for the COFF
/// layout, as short as that layout asks, and so its one symbol.
pub open spec fn is_blob_object_file(kind: ArchiveKind, bytes: Seq<u8>) -> bool {
    exists|contents: ObjectModel, info: TargetInfo|
        {
            &&& is_blob_object(contents)
            &&& #[trigger] object_encoding(contents) == Some(bytes)
            &&& contents.format == info.binfmt
            &&& contents.arch == info.arch
            &&& #[trigger] object_length_fits(info, bytes.len())
            &&& kind == ArchiveKind::Coff ==> coff_index_fits(
                contents.symbols[0].name.len(),
                bytes.len(),
            )
        }
}

/// Writes an archive with one member into memory, by
/// `write_archive_to_stream`.
///
/// Trusted, for a regular archive (not thin, no symbol map of Arm64EC)
/// around the object file of one blob, which in the COFF layout is short
/// enough for the index and has a short name: the bytes, or that there are
/// none, depend on the layout and the member alone; and there are bytes
/// exactly where the member is not larger than the writer takes.
#[verifier::external_body]
fn write_member(
    kind: ArchiveKind,
    thin: bool,
    arm64ec: bool,
    header: &MemberHeader,
    data: &[u8],
) -> (written: Result<Vec<u8>, std::io::Error>)
    requires
        !thin,
        !arm64ec,
        is_blob_object_file(kind, data@),
        kind == ArchiveKind::Coff ==> symbol_bytes(header.name@).len() <= COFF_NAME_LIMIT + 2,
    ensures
        match written {
            Ok(bytes) => archive_encoding(kind, thin, arm64ec, header.member(data@)) == Some(
                bytes@,
            ),
            Err(_) => archive_encoding(kind, thin, arm64ec, header.member(data@)) is None,
        },
        written is Ok <==> member_size(kind, data@.len()) <= MAX_MEMBER_SIZE,
{
    let kind = match kind {
        ArchiveKind::Gnu => ar_archive_writer::ArchiveKind::Gnu,
        ArchiveKind::Darwin64 => ar_archive_writer::ArchiveKind::Darwin64,
        ArchiveKind::Coff => ar_archive_writer::ArchiveKind::Coff,
    };
    let (buf, object_reader) = (Box::new(data), &DEFAULT_OBJECT_READER);
    let member_name = header.name.clone();
    let (mtime, uid, gid, perms) = (header.mtime, header.uid, header.gid, header.perms);
    let member = NewArchiveMember { buf, object_reader, member_name, mtime, uid, gid, perms };
    let mut stream = Cursor::new(Vec::new());
    let written = write_archive_to_stream(&mut stream, &[member], kind, thin, arm64ec);
    written.map(|()| stream.into_inner())
}

/// The permission bits of every member: its owner may read and write it,
/// everyone else may read it.
pub const MEMBER_PERMS: u32 = 0o644;

/// The member that holds the object of `symbol`: it is named `<symbol>.o`,
/// and its time stamp and owners are zero, so that nothing but the object
/// decides what the archive looks like.
pub open spec fn object_member(symbol: Seq<char>, object: Seq<u8>) -> MemberModel {
    MemberModel {
        name: symbol + ".o"@,
        mtime: 0,
        uid: 0,
        gid: 0,
        perms: MEMBER_PERMS as nat,
        data: object,
    }
}

/// The bytes of the archive around the object of `symbol`: a regular
/// archive, not a thin one, without the symbol map of Arm64EC. `None` where
/// the layout does not take the object, or the archive writer reports an
/// error.
pub open spec fn object_archive(kind: ArchiveKind, symbol: Seq<char>, object: Seq<u8>) -> Option<
    Seq<u8>,
> {
    if archive_takes(kind, symbol, object.len()) {
        archive_encoding(kind, false, false, object_member(symbol, object))
    } else {
        None
    }
}

/// Whether an archive of this layout takes an object of `object_length`
/// bytes under `symbol`, as a member of the name `member_name`.
fn fits_archive(kind: ArchiveKind, symbol: &str, member_name: &str, object_length: usize) -> (fits:
    bool)
    requires
        member_name@ == symbol@ + ".o"@,
    ensures
        fits == archive_takes(kind, symbol@, object_length as nat),
{
    let length = object_length as u64;
    if length > MAX_MEMBER_SIZE {
        return false;
    }
    match kind {
        ArchiveKind::Gnu => true,
        ArchiveKind::Darwin64 => {
            let rest = length % 8;
            rest == 0 || length + 8 - rest <= MAX_MEMBER_SIZE
        },
        ArchiveKind::Coff => {
            let symbol_length = symbol.as_bytes().len() as u64;
            let name_length = member_name.as_bytes().len() as u64;
            length <= NARROW_OBJECT_LIMIT && symbol_length <= COFF_NAME_LIMIT && name_length
                <= COFF_NAME_LIMIT + 2
        },
    }
}

/// Wraps an object file into a static archive of the given layout, as its
/// only member, named after the symbol of the object.
///
/// Succeeds exactly where the layout takes the object.
pub fn write_archive(kind: ArchiveKind, object: &ObjectArtifact) -> (written: Result<
    Vec<u8>,
    EmbedError,
>)
    ensures
        written is Ok <==> archive_takes(kind, object.symbol_view(), object@.len()),
        match written {
            Ok(bytes) => object_archive(kind, object.symbol_view(), object@) == Some(bytes@),
            Err(error) => error@ == EmbedErrorView::Io,
        },
{
    let symbol = object.symbol();
    let data = object.as_bytes();
    let header = MemberHeader {
        name: String::from_str(symbol).concat(".o"),
        mtime: 0,
        uid: 0,
        gid: 0,
        perms: MEMBER_PERMS,
    };
    if !fits_archive(kind, symbol, header.name.as_str(), data.len()) {
        return Err(EmbedError::Io);
    }
    proof {
        assert(object_length_fits(object.platform(), data@.len()));
        assert(object_encoding(object.contents()) == Some(data@));
        assert(is_blob_object_file(kind, data@));
    }
    match write_member(kind, false, false, &header, data) {
        Ok(bytes) => Ok(bytes),
        Err(_) => Err(EmbedError::Io),
    }
}

/// What to make of the run of the indexing tool: it has indexed the archive
/// if it succeeded, and else what it wrote to its error stream says why not.
pub fn indexing_outcome(succeeded: bool, stderr: String) -> (outcome: Result<(), EmbedError>)
    ensures
        match outcome {
            Ok(()) => succeeded,
            Err(error) => !succeeded && error@ == EmbedErrorView::ExternalTool(stderr@),
        },
{
    if succeeded {
        Ok(())
    } else {
        Err(EmbedError::ExternalTool(stderr))
    }
}

} // verus!
