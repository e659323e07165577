//! The reference to an embedded resource, at the place where it is used.
//!
//! The reference is computed from the file alone: its symbol from the path
//! and the modification time, as the pass before compilation computes it,
//! and its size from the length of the file. The two stages never talk to
//! each other; the linker brings them together.
use crate::error::EmbedError;
use crate::error::EmbedErrorView;
use crate::naming::path_display;
use crate::naming::path_text;
use crate::naming::symbol_name;
use crate::object_file::blob_object;
use crate::object_file::is_blob_object;
use crate::object_file::symbol_bytes;
use crate::object_file::symbol_data;
use crate::preprocess::ResourceFile;
use crate::target::TargetInfo;
use crate::naming::symbol_token;
use std::path::PathBuf;
use std::time::SystemTime;
use vstd::prelude::*;

verus! {

/// What kind of thing lies at a path.
#[derive(Clone, Copy, Debug, PartialEq, Eq, Structural)]
pub enum EntryKind {
    /// A plain file.
    File,
    /// A directory.
    Directory,
    /// Neither of the two.
    Other,
}

/// A reference to the bytes of an embedded file: an array of `size` bytes
/// that is defined elsewhere under `symbol`, read-only and alive for as long
/// as the program runs.
#[derive(Clone, Debug, PartialEq, Eq)]
pub struct EmbedReference {
    /// The symbol under which the bytes are linked.
    pub symbol: String,
    /// The number of bytes.
    pub size: u64,
}

/// The ten digits of base ten, in order.
pub open spec fn decimal_alphabet() -> Seq<char> {
    "0123456789"@
}

/// The digits of `value` in base ten, the most significant first, without
/// zeros in front.
pub open spec fn decimal_digits(value: nat) -> Seq<char>
    decreases value,
{
    if value < 10 {
        seq![decimal_alphabet()[value as int]]
    } else {
        decimal_digits(value / 10).push(decimal_alphabet()[(value % 10) as int])
    }
}

/// The expression that stands for a reference: a block that declares the
/// array as an item of another object, under the symbol as its link name,
/// and borrows it.
pub open spec fn reference_expression(symbol: Seq<char>, size: u64) -> Seq<char> {
    "{ extern \"C\" { #[link_name = \""@ + symbol + "\"] static STATIC: [u8; "@ + decimal_digits(
        size as nat,
    ) + "]; } unsafe { &STATIC } }"@
}

/// Appends to `out` the digits of `value` in base ten.
fn push_decimal(out: &mut String, value: u64)
    ensures
        final(out)@ == old(out)@ + decimal_digits(value as nat),
    decreases value,
{
    if value >= 10 {
        push_decimal(out, value / 10);
    }
    let digit: usize = (value % 10) as usize;
    proof {
        reveal_strlit("0123456789");
    }
    let text = "0123456789".substring_ascii(digit, digit + 1);
    out.append(text);
    assert(text@ =~= seq![decimal_alphabet()[digit as int]]);
    assert(out@ =~= old(out)@ + decimal_digits(value as nat));
}

/// The reference to the file at the canonical path `path`, which is of kind
/// `kind`, was last modified at `modified` and is `len` bytes long.
///
/// Only a plain file can be referred to.
pub fn embed_reference(
    path: &PathBuf,
    kind: EntryKind,
    modified: &SystemTime,
    len: u64,
) -> (found: Result<EmbedReference, EmbedError>)
    ensures
        match found {
            Ok(reference) => {
                &&& kind == EntryKind::File
                &&& reference.symbol@ == symbol_token(*path, *modified)
                &&& reference.size == len
            },
            Err(error) => {
                &&& kind != EntryKind::File
                &&& error@ == EmbedErrorView::UnsupportedEntryType(path_display(*path))
            },
        },
{
    match kind {
        EntryKind::File => Ok(EmbedReference { symbol: symbol_name(path, modified), size: len }),
        _ => Err(EmbedError::UnsupportedEntryType(path_text(path))),
    }
}

impl EmbedReference {
    /// The expression that stands for this reference in the source text.
    pub fn expression(&self) -> (text: String)
        ensures
            text@ == reference_expression(self.symbol@, self.size),
    {
        let mut text = String::from_str("{ extern \"C\" { #[link_name = \"");
        text.append(self.symbol.as_str());
        text.append("\"] static STATIC: [u8; ");
        push_decimal(&mut text, self.size);
        text.append("]; } unsafe { &STATIC } }");
        text
    }
}

/// A reference finds what the pass before compilation has embedded. Let a
/// file be embedded for some platform, and let a reference be made of the
/// same file, unchanged: of its path, its modification time and its length.
/// Then the object of the file defines one symbol, under the name of the
/// reference; the symbol names as many bytes as the reference expects; and
/// these bytes are the bytes of the file.
pub proof fn lemma_reference_meets_object(
    file: ResourceFile,
    info: TargetInfo,
    reference: EmbedReference,
)
    requires
        reference.symbol@ == symbol_token(file.path, file.modified),
        reference.size == file.content@.len(),
    ensures
        ({
            let object = blob_object(info, symbol_bytes(reference.symbol@), file.content@);
            &&& object == blob_object(
                info,
                symbol_bytes(symbol_token(file.path, file.modified)),
                file.content@,
            )
            &&& is_blob_object(object)
            &&& object.symbols.len() == 1
            &&& object.symbols[0].name == symbol_bytes(reference.symbol@)
            &&& object.symbols[0].size == reference.size
            &&& symbol_data(object, 0).len() == reference.size
            &&& symbol_data(object, 0) == file.content@
        }),
{
    let object = blob_object(info, symbol_bytes(reference.symbol@), file.content@);
    assert(symbol_data(object, 0) =~= file.content@);
}

} // verus!
