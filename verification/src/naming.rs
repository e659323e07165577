//! The name under which a resource is linked.
//!
//! Both stages compute the symbol of a resource from what identifies the file:
//! its canonical path and the time it was last modified. Nothing else goes in,
//! so that the two stages arrive at one name without talking to each other,
//! and a file that changes gets a new one.
use std::collections::hash_map::DefaultHasher;
use std::hash::Hash;
use std::hash::Hasher;
use std::path::PathBuf;
use std::time::SystemTime;
use vstd::prelude::*;
use vstd::std_specs::hash::DefaultHasherAdditionalSpecFns;

verus! {

/// A point in time of the system clock, such as the time a file was last
/// modified. The library hands such a value on to the hasher and never looks
/// inside.
#[verifier::external_type_specification]
#[verifier::external_body]
pub struct ExSystemTime(SystemTime);

/// A path of the file system. It need not be Unicode. The library hands
/// such a value on to the hasher, shows it in messages, and never looks
/// inside.
#[verifier::external_type_specification]
#[verifier::external_body]
pub struct ExPathBuf(PathBuf);

/// What hashing a path writes into a hasher: the result of `Hash::hash` of
/// `std::path::PathBuf`, which depends on the path alone.
pub uninterp spec fn path_hash_input(path: PathBuf) -> Seq<Seq<u8>>;

/// The text that shows a path: the result of `Path::display`, which depends
/// on the path alone. A path that is Unicode is shown as it is.
pub uninterp spec fn path_display(path: PathBuf) -> Seq<char>;

/// What hashing a point in time writes into a hasher: the result of
/// `Hash::hash` of `std::time::SystemTime`, which depends on the time alone.
pub uninterp spec fn time_hash_input(time: SystemTime) -> Seq<Seq<u8>>;

/// Feeds a path to the hasher, by `Hash::hash` of `std::path::PathBuf`.
///
/// Trusted: the hasher receives, after what it already holds, the writes
/// that belong to this path, and they are the same for the same path.
#[verifier::external_body]
fn hash_path(state: &mut DefaultHasher, path: &PathBuf)
    ensures
        final(state)@ == old(state)@ + path_hash_input(*path),
{
    path.hash(state)
}

/// The text that shows a path, by `Path::display`.
///
/// Trusted: the text is the same for the same path.
#[verifier::external_body]
pub(crate) fn path_text(path: &PathBuf) -> (text: String)
    ensures
        text@ == path_display(*path),
{
    path.display().to_string()
}

/// Feeds a point in time to the hasher, by `Hash::hash` of
/// `std::time::SystemTime`.
///
/// Trusted: the hasher receives, after what it already holds, the writes
/// that belong to this time, and they are the same for the same time.
#[verifier::external_body]
fn hash_time(state: &mut DefaultHasher, time: &SystemTime)
    ensures
        final(state)@ == old(state)@ + time_hash_input(*time),
{
    time.hash(state)
}

/// The sixteen digits of base sixteen, in order.
pub open spec fn hex_alphabet() -> Seq<char> {
    "0123456789abcdef"@
}

/// The last `width` digits of `value` in base sixteen, the most significant
/// first, with zeros in front where the value has fewer.
pub open spec fn hex_digits(value: nat, width: nat) -> Seq<char>
    decreases width,
{
    if width == 0 {
        Seq::empty()
    } else {
        hex_digits(value / 16, (width - 1) as nat).push(hex_alphabet()[(value % 16) as int])
    }
}

/// What every symbol of an embedded resource starts with.
pub open spec fn symbol_prefix() -> Seq<char> {
    "include_blob_"@
}

/// The symbol that stands for a hash: the prefix, then the hash as sixteen
/// digits of base sixteen.
pub open spec fn token_of_hash(hash: u64) -> Seq<char> {
    symbol_prefix() + hex_digits(hash as nat, 16)
}

/// The hash of a file's identity: the default hasher's digest of the path
/// followed by the modification time.
pub open spec fn symbol_hash(path: PathBuf, modified: SystemTime) -> u64 {
    DefaultHasher::spec_finish(path_hash_input(path) + time_hash_input(modified))
}

/// The symbol of the file at `path` that was last modified at `modified`.
pub open spec fn symbol_token(path: PathBuf, modified: SystemTime) -> Seq<char> {
    token_of_hash(symbol_hash(path, modified))
}

/// A symbol that can be linked: its characters are ASCII, and none is the
/// zero character, at which names end in an object file.
pub open spec fn is_linkable_name(symbol: Seq<char>) -> bool {
    &&& vstd::utf8::is_ascii_chars(symbol)
    &&& forall|i: int| 0 <= i < symbol.len() ==> symbol[i] != '\0'
}

/// Sixteen to the power of `exponent`.
pub open spec fn pow16(exponent: nat) -> nat
    decreases exponent,
{
    if exponent == 0 {
        1
    } else {
        16 * pow16((exponent - 1) as nat)
    }
}

proof fn lemma_hex_alphabet()
    ensures
        hex_alphabet().len() == 16,
        hex_alphabet() == seq![
            '0',
            '1',
            '2',
            '3',
            '4',
            '5',
            '6',
            '7',
            '8',
            '9',
            'a',
            'b',
            'c',
            'd',
            'e',
            'f',
        ],
        vstd::utf8::is_ascii_chars(hex_alphabet()),
{
    reveal_strlit("0123456789abcdef");
    assert(hex_alphabet() =~= seq![
        '0',
        '1',
        '2',
        '3',
        '4',
        '5',
        '6',
        '7',
        '8',
        '9',
        'a',
        'b',
        'c',
        'd',
        'e',
        'f',
    ]);
}

/// Appends to `out` the last `width` digits of `value` in base sixteen.
fn push_hex(out: &mut String, value: u64, width: u32)
    ensures
        final(out)@ == old(out)@ + hex_digits(value as nat, width as nat),
    decreases width,
{
    if width > 0 {
        push_hex(out, value / 16, width - 1);
        let digit: usize = (value % 16) as usize;
        proof {
            lemma_hex_alphabet();
        }
        let text = "0123456789abcdef".substring_ascii(digit, digit + 1);
        out.append(text);
        assert(text@ =~= seq![hex_alphabet()[digit as int]]);
        assert(out@ =~= old(out)@ + hex_digits(value as nat, width as nat));
    } else {
        assert(out@ =~= old(out)@ + hex_digits(value as nat, width as nat));
    }
}

/// The symbol that stands for a hash.
pub fn format_symbol(hash: u64) -> (symbol: String)
    ensures
        symbol@ == token_of_hash(hash),
{
    let mut symbol = String::from_str("include_blob_");
    push_hex(&mut symbol, hash, 16);
    symbol
}

/// The symbol of the file at the canonical path `path` that was last
/// modified at `modified`.
///
/// The same path and time give the same symbol, in this process and in any
/// other.
pub fn symbol_name(path: &PathBuf, modified: &SystemTime) -> (symbol: String)
    ensures
        symbol@ == symbol_token(*path, *modified),
{
    let mut hasher = DefaultHasher::new();
    hash_path(&mut hasher, path);
    hash_time(&mut hasher, modified);
    assert(hasher@ =~= path_hash_input(*path) + time_hash_input(*modified));
    format_symbol(hasher.finish())
}

proof fn lemma_hex_digits_len(value: nat, width: nat)
    ensures
        hex_digits(value, width).len() == width,
    decreases width,
{
    if width > 0 {
        lemma_hex_digits_len(value / 16, (width - 1) as nat);
    }
}

proof fn lemma_hex_digits_are_plain(value: nat, width: nat)
    ensures
        forall|i: int|
            0 <= i < width ==> '0' <= #[trigger] hex_digits(value, width)[i] && hex_digits(
                value,
                width,
            )[i] <= 'f',
    decreases width,
{
    lemma_hex_digits_len(value, width);
    if width > 0 {
        lemma_hex_digits_len(value / 16, (width - 1) as nat);
        lemma_hex_digits_are_plain(value / 16, (width - 1) as nat);
        lemma_hex_alphabet();
        assert forall|i: int| 0 <= i < width implies '0' <= #[trigger] hex_digits(value, width)[i]
            && hex_digits(value, width)[i] <= 'f' by {
            if i < width - 1 {
                assert(hex_digits(value, width)[i] == hex_digits(
                    value / 16,
                    (width - 1) as nat,
                )[i]);
            }
        }
    }
}

proof fn lemma_hex_digits_injective(a: nat, b: nat, width: nat)
    requires
        a < pow16(width),
        b < pow16(width),
        hex_digits(a, width) == hex_digits(b, width),
    ensures
        a == b,
    decreases width,
{
    if width > 0 {
        let rest = (width - 1) as nat;
        let digits_a = hex_digits(a / 16, rest);
        let digits_b = hex_digits(b / 16, rest);
        let last_a = hex_alphabet()[(a % 16) as int];
        let last_b = hex_alphabet()[(b % 16) as int];
        lemma_hex_digits_len(a / 16, rest);
        lemma_hex_digits_len(b / 16, rest);
        assert(digits_a.push(last_a) == digits_b.push(last_b));
        assert(digits_a.push(last_a).drop_last() =~= digits_a);
        assert(digits_b.push(last_b).drop_last() =~= digits_b);
        assert(digits_a.push(last_a).last() == last_a);
        assert(digits_b.push(last_b).last() == last_b);
        lemma_hex_alphabet();
        assert(a % 16 == b % 16);
        lemma_hex_digits_injective(a / 16, b / 16, rest);
    }
}

/// The symbol depends on nothing but the path and the modification time:
/// the same two give the same symbol, whoever computes it and when.
pub proof fn lemma_symbol_is_deterministic(
    path_a: PathBuf,
    modified_a: SystemTime,
    path_b: PathBuf,
    modified_b: SystemTime,
)
    requires
        path_a == path_b,
        modified_a == modified_b,
    ensures
        symbol_token(path_a, modified_a) == symbol_token(path_b, modified_b),
{
}

/// Every symbol is the prefix followed by exactly sixteen digits.
pub proof fn lemma_symbol_shape(hash: u64)
    ensures
        token_of_hash(hash).len() == symbol_prefix().len() + 16,
        token_of_hash(hash).subrange(0, symbol_prefix().len() as int) == symbol_prefix(),
        token_of_hash(hash).subrange(
            symbol_prefix().len() as int,
            token_of_hash(hash).len() as int,
        ) == hex_digits(hash as nat, 16),
{
    lemma_hex_digits_len(hash as nat, 16);
    assert(token_of_hash(hash).subrange(0, symbol_prefix().len() as int) =~= symbol_prefix());
    assert(token_of_hash(hash).subrange(
        symbol_prefix().len() as int,
        token_of_hash(hash).len() as int,
    ) =~= hex_digits(hash as nat, 16));
}

/// Every symbol can be linked.
pub proof fn lemma_symbol_is_linkable(hash: u64)
    ensures
        is_linkable_name(token_of_hash(hash)),
{
    reveal_strlit("include_blob_");
    lemma_hex_digits_len(hash as nat, 16);
    lemma_hex_digits_are_plain(hash as nat, 16);
    let token = token_of_hash(hash);
    assert forall|i: int| 0 <= i < token.len() implies '\0' < #[trigger] token[i] && token[i]
        <= '\u{7f}' by {
        if i >= 13 {
            assert(token[i] == hex_digits(hash as nat, 16)[i - 13]);
        }
    }
}

/// Formatting loses nothing of the hash: two files have the same symbol
/// only if their hashes are the same.
pub proof fn lemma_distinct_hashes_distinct_symbols(hash_a: u64, hash_b: u64)
    requires
        hash_a != hash_b,
    ensures
        token_of_hash(hash_a) != token_of_hash(hash_b),
{
    if token_of_hash(hash_a) == token_of_hash(hash_b) {
        lemma_symbol_shape(hash_a);
        lemma_symbol_shape(hash_b);
        assert(pow16(16) == 0x1_0000_0000_0000_0000) by {
            reveal_with_fuel(pow16, 17);
        }
        lemma_hex_digits_injective(hash_a as nat, hash_b as nat, 16);
    }
}

} // verus!
