use include_blob::format_symbol;
use include_blob::symbol_name;
use std::collections::hash_map::DefaultHasher;
use std::collections::HashSet;
use std::hash::Hash;
use std::hash::Hasher;
use std::path::Path;
use std::path::PathBuf;
use std::time::Duration;
use std::time::SystemTime;
use std::time::UNIX_EPOCH;

fn at(seconds: u64) -> SystemTime {
    UNIX_EPOCH + Duration::from_secs(seconds)
}

fn symbol_of(path: &str, modified: &SystemTime) -> String {
    symbol_name(&PathBuf::from(path), modified)
}

/// The symbol as the default hasher of this toolchain gives it.
fn expected_symbol(path: &str, modified: SystemTime) -> String {
    let mut hasher = DefaultHasher::new();
    Path::new(path).hash(&mut hasher);
    modified.hash(&mut hasher);
    format!("include_blob_{:016x}", hasher.finish())
}

#[test]
fn symbol_of_zero_is_all_zeros() {
    assert_eq!(format_symbol(0), "include_blob_0000000000000000");
}

#[test]
fn symbol_of_small_hash_is_padded() {
    assert_eq!(format_symbol(0x1f), "include_blob_000000000000001f");
}

#[test]
fn symbol_of_largest_hash() {
    assert_eq!(format_symbol(u64::MAX), "include_blob_ffffffffffffffff");
}

#[test]
fn symbol_keeps_every_digit_in_order() {
    assert_eq!(format_symbol(0x0123_4567_89ab_cdef), "include_blob_0123456789abcdef");
    assert_eq!(format_symbol(0xfedc_ba98_7654_3210), "include_blob_fedcba9876543210");
}

#[test]
fn symbol_is_lower_case() {
    assert_eq!(format_symbol(0xABCD_EF00_0000_0000), "include_blob_abcdef0000000000");
}

#[test]
fn symbol_has_fixed_length() {
    for hash in [0u64, 1, 0xff, 0x1_0000, u64::MAX / 3, u64::MAX] {
        assert_eq!(format_symbol(hash).len(), 29);
    }
}

#[test]
fn different_hashes_give_different_symbols() {
    let mut seen = HashSet::new();
    for hash in 0u64..4096 {
        assert!(seen.insert(format_symbol(hash.wrapping_mul(0x9e37_79b9_7f4a_7c15))));
    }
}

#[test]
fn symbol_name_is_deterministic() {
    let first = symbol_of("/project/blobs/file.txt", &at(1_700_000_000));
    let second = symbol_of("/project/blobs/file.txt", &at(1_700_000_000));
    assert_eq!(first, second);
}

#[test]
fn symbol_name_hashes_path_then_time() {
    let modified = at(1_700_000_000) + Duration::from_nanos(123_456_789);
    assert_eq!(
        symbol_of("/project/blobs/file.txt", &modified),
        expected_symbol("/project/blobs/file.txt", modified)
    );
    assert_eq!(symbol_of("/", &UNIX_EPOCH), expected_symbol("/", UNIX_EPOCH));
}

#[test]
fn symbol_name_of_time_before_the_epoch() {
    let modified = UNIX_EPOCH - Duration::from_secs(86_400);
    assert_eq!(symbol_of("/old", &modified), expected_symbol("/old", modified));
}

#[test]
fn symbol_name_takes_the_path_by_its_components() {
    let modified = at(1_700_000_000);
    assert_eq!(symbol_of("/project//a.bin", &modified), symbol_of("/project/a.bin", &modified));
    assert_eq!(
        symbol_of("/project/données/ä.bin", &modified),
        expected_symbol("/project/données/ä.bin", modified)
    );
}

#[test]
fn symbol_name_changes_with_the_path() {
    let modified = at(1_700_000_000);
    assert_ne!(symbol_of("/project/a.bin", &modified), symbol_of("/project/b.bin", &modified));
}

#[test]
fn symbol_name_changes_with_the_time() {
    assert_ne!(
        symbol_of("/project/a.bin", &at(1_700_000_000)),
        symbol_of("/project/a.bin", &at(1_700_000_001))
    );
}

#[test]
fn symbol_names_of_a_sample_are_pairwise_distinct() {
    let mut seen = HashSet::new();
    for file in 0..64 {
        for second in 0..16 {
            let path = format!("/project/blobs/dir{}/file{}.bin", file % 4, file);
            assert!(seen.insert(symbol_of(&path, &at(1_700_000_000 + second))));
        }
    }
    assert_eq!(seen.len(), 64 * 16);
}

#[test]
fn symbol_name_starts_with_the_prefix() {
    let symbol = symbol_of("/project/blobs/file.txt", &at(7));
    assert!(symbol.starts_with("include_blob_"));
    assert_eq!(symbol.len(), 29);
    assert!(symbol["include_blob_".len()..].chars().all(|c| matches!(c, '0'..='9' | 'a'..='f')));
}
