//! Tests for the byte helpers, the consent reply test, the store's path
//! derivation, the alias mapping, and the recipient output form.

use gpg_alias::machine::is_affirmative;
use gpg_alias::output::format_recipients;
use gpg_alias::policy::{AliasEntry, AliasTable};
use gpg_alias::store::{anchor_dir_name, anchor_file_name};
use gpg_alias::text::{bytes_eq, matches_trimmed, trimmed_len};

#[test]
fn trimmed_len_drops_trailing_whitespace() {
    assert_eq!(trimmed_len(&b"1111AAAA\n".to_vec()), 8);
    assert_eq!(trimmed_len(&b"1111AAAA\r\n".to_vec()), 8);
    assert_eq!(trimmed_len(&b"1111AAAA \t ".to_vec()), 8);
    assert_eq!(trimmed_len(&b"1111AAAA".to_vec()), 8);
    assert_eq!(trimmed_len(&b"".to_vec()), 0);
    assert_eq!(trimmed_len(&b" \n\t\r".to_vec()), 0);
    // Only trailing whitespace goes; inner and leading bytes stay.
    assert_eq!(trimmed_len(&b" a b \n".to_vec()), 4);
}

#[test]
fn bytes_eq_is_exact() {
    assert!(bytes_eq(&b"abc".to_vec(), &b"abc".to_vec()));
    assert!(!bytes_eq(&b"abc".to_vec(), &b"abd".to_vec()));
    assert!(!bytes_eq(&b"abc".to_vec(), &b"abcd".to_vec()));
    assert!(bytes_eq(&b"".to_vec(), &b"".to_vec()));
}

#[test]
fn matches_trimmed_ignores_only_trailing_whitespace() {
    assert!(matches_trimmed(&b"1111AAAA\n".to_vec(), &b"1111AAAA".to_vec()));
    assert!(matches_trimmed(&b"1111AAAA".to_vec(), &b"1111AAAA".to_vec()));
    assert!(!matches_trimmed(&b" 1111AAAA".to_vec(), &b"1111AAAA".to_vec()));
    assert!(!matches_trimmed(&b"1111AAAA\n".to_vec(), &b"1111AAA".to_vec()));
    assert!(!matches_trimmed(&b"1111aaaa\n".to_vec(), &b"1111AAAA".to_vec()));
}

#[test]
fn affirmative_replies() {
    assert!(is_affirmative(&b"y".to_vec()));
    assert!(is_affirmative(&b"Y".to_vec()));
    assert!(is_affirmative(&b"y\n".to_vec()));
    assert!(is_affirmative(&b"Y\r\n".to_vec()));
    assert!(!is_affirmative(&b"".to_vec()));
    assert!(!is_affirmative(&b"\n".to_vec()));
    assert!(!is_affirmative(&b"n\n".to_vec()));
    assert!(!is_affirmative(&b"yes\n".to_vec()));
    assert!(!is_affirmative(&b" y\n".to_vec()));
}

#[test]
fn anchor_paths_derive_from_alias() {
    assert_eq!(anchor_dir_name(), b"gpg-alias".to_vec());
    assert_eq!(anchor_file_name(&b"work".to_vec()), b"work.asc".to_vec());
    assert_eq!(anchor_file_name(&b"".to_vec()), b".asc".to_vec());
}

#[test]
fn alias_lookup_finds_first_match() {
    let table = AliasTable {
        entries: vec![
            AliasEntry {
                alias: b"work".to_vec(),
                key_id: b"1111AAAA".to_vec(),
            },
            AliasEntry {
                alias: b"home".to_vec(),
                key_id: b"2222BBBB".to_vec(),
            },
            AliasEntry {
                alias: b"work".to_vec(),
                key_id: b"3333CCCC".to_vec(),
            },
        ],
    };
    assert_eq!(table.lookup(&b"work".to_vec()), Some(b"1111AAAA".to_vec()));
    assert_eq!(table.lookup(&b"home".to_vec()), Some(b"2222BBBB".to_vec()));
    assert_eq!(table.lookup(&b"play".to_vec()), None);

    let empty = AliasTable { entries: vec![] };
    assert_eq!(empty.lookup(&b"work".to_vec()), None);
}

#[test]
fn recipient_arguments_form() {
    assert_eq!(format_recipients(&vec![]), b"".to_vec());
    assert_eq!(
        format_recipients(&vec![b"1111AAAA".to_vec()]),
        b"-r 1111AAAA".to_vec()
    );
    assert_eq!(
        format_recipients(&vec![b"1111AAAA".to_vec(), b"2222BBBB".to_vec()]),
        b"-r 1111AAAA -r 2222BBBB".to_vec()
    );
}
