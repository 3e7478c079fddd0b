use quote_fs::attr::FileKind;
use quote_fs::content::FetchOutcome;
use quote_fs::content::normalize_quote;
use quote_fs::fs::FsError;
use quote_fs::fs::QuoteFs;

fn refreshed(raw: &[u8]) -> QuoteFs {
    let mut fs = QuoteFs::new();
    fs.update_file(FetchOutcome::Success(raw.to_vec()))
        .expect("successful fetch must be accepted");
    fs
}

#[test]
fn scenario_hello_world() {
    let mut fs = QuoteFs::new();
    let attr = fs
        .lookup_resolve(FetchOutcome::Success(b"  hello world  \n".to_vec()))
        .expect("successful fetch must resolve");
    assert_eq!(attr.size, 12);
    assert_eq!(attr.ino, 2);
    assert_eq!(attr.kind, FileKind::RegularFile);

    let data = fs.read(2, 0).unwrap();
    assert_eq!(data, b"hello world\n".to_vec());

    let tail = fs.read(2, 6).unwrap();
    assert_eq!(tail, b"world\n".to_vec());

    let empty = fs.read(2, 12).unwrap();
    assert_eq!(empty, Vec::<u8>::new());

    let entries = fs.readdir(1, 1).unwrap();
    assert_eq!(entries.len(), 2);
    assert_eq!(entries[0].name, "..");
    assert_eq!(entries[0].kind, FileKind::Directory);
    assert_eq!(entries[1].name, "random_quote.txt");
    assert_eq!(entries[1].kind, FileKind::RegularFile);
}

#[test]
fn read_returns_suffix_at_every_valid_offset() {
    let fs = refreshed(b"abcdef");
    let content = b"abcdef\n";
    for offset in 0..=content.len() {
        let data = fs.read(2, offset as u64).unwrap();
        assert_eq!(data, content[offset..].to_vec());
    }
    assert_eq!(fs.read(2, content.len() as u64).unwrap(), Vec::<u8>::new());
}

#[test]
fn reads_without_resolution_share_one_snapshot() {
    let fs = refreshed(b"one coherent quote");
    let first = fs.read(2, 0).unwrap();
    let second = fs.read(2, 0).unwrap();
    assert_eq!(first, second);
    let tail = fs.read(2, 4).unwrap();
    assert_eq!(tail, first[4..].to_vec());
}

#[test]
fn resolving_twice_may_change_content() {
    let mut fs = QuoteFs::new();
    fs.lookup_resolve(FetchOutcome::Success(b"first quote".to_vec()))
        .unwrap();
    let first = fs.read(2, 0).unwrap();
    fs.lookup_resolve(FetchOutcome::Success(b"second quote".to_vec()))
        .unwrap();
    let second = fs.read(2, 0).unwrap();
    assert_eq!(first, b"first quote\n".to_vec());
    assert_eq!(second, b"second quote\n".to_vec());
    assert_ne!(first, second);
}

#[test]
fn listing_is_three_fixed_entries_every_time() {
    let fs = QuoteFs::new();
    for _ in 0..3 {
        let entries = fs.readdir(1, 0).unwrap();
        assert_eq!(entries.len(), 3);
        assert_eq!(entries[0].name, ".");
        assert_eq!(entries[0].kind, FileKind::Directory);
        assert_eq!(entries[0].ino, 1);
        assert_eq!(entries[0].cursor, 1);
        assert_eq!(entries[1].name, "..");
        assert_eq!(entries[1].kind, FileKind::Directory);
        assert_eq!(entries[1].ino, 1);
        assert_eq!(entries[1].cursor, 2);
        assert_eq!(entries[2].name, "random_quote.txt");
        assert_eq!(entries[2].kind, FileKind::RegularFile);
        assert_eq!(entries[2].ino, 2);
        assert_eq!(entries[2].cursor, 3);
    }
}

#[test]
fn listing_at_or_past_the_end_is_empty() {
    let fs = QuoteFs::new();
    assert_eq!(fs.readdir(1, 3).unwrap().len(), 0);
    assert_eq!(fs.readdir(1, 4).unwrap().len(), 0);
    assert_eq!(fs.readdir(1, u64::MAX).unwrap().len(), 0);
}

#[test]
fn unknown_identities_fail_with_not_found() {
    let fs = QuoteFs::new();
    for ino in [0u64, 3, 4, 99, u64::MAX] {
        assert_eq!(fs.getattr(ino).unwrap_err(), FsError::NotFound);
        assert_eq!(fs.read(ino, 0).unwrap_err(), FsError::NotFound);
    }
    assert_eq!(fs.read(1, 0).unwrap_err(), FsError::NotFound);
    assert_eq!(fs.readdir(2, 0).unwrap_err(), FsError::NotFound);
    assert_eq!(fs.readdir(0, 0).unwrap_err(), FsError::NotFound);
}

#[test]
fn unknown_names_do_not_resolve() {
    assert!(QuoteFs::lookup_matches(1, &"random_quote.txt".to_string()));
    assert!(!QuoteFs::lookup_matches(2, &"random_quote.txt".to_string()));
    assert!(!QuoteFs::lookup_matches(0, &"random_quote.txt".to_string()));
    assert!(!QuoteFs::lookup_matches(1, &"random_quote".to_string()));
    assert!(!QuoteFs::lookup_matches(1, &"".to_string()));
    assert!(!QuoteFs::lookup_matches(1, &"RANDOM_QUOTE.TXT".to_string()));
}

#[test]
fn failed_generation_reports_error_and_keeps_content() {
    let mut fs = refreshed(b"kept quote");
    let before = fs.read(2, 0).unwrap();
    let before_attr = fs.getattr(2).unwrap();

    let err = fs.update_file(FetchOutcome::Failure).unwrap_err();
    assert_eq!(err, FsError::GenerationFailure);
    assert_eq!(fs.read(2, 0).unwrap(), before);
    assert_eq!(fs.getattr(2).unwrap(), before_attr);

    let err = fs.lookup_resolve(FetchOutcome::Failure).unwrap_err();
    assert_eq!(err, FsError::GenerationFailure);
    assert_eq!(fs.read(2, 0).unwrap(), before);
    assert_eq!(fs.getattr(2).unwrap(), before_attr);
}

#[test]
fn new_core_serves_the_default_content() {
    let fs = QuoteFs::new();
    assert_eq!(fs.read(2, 0).unwrap(), b"This is a default content\n".to_vec());
    let attr = fs.getattr(2).unwrap();
    assert_eq!(attr.size, 26);
}

#[test]
fn content_always_ends_with_exactly_one_newline() {
    let mut fs = QuoteFs::new();
    let inputs: Vec<&[u8]> = vec![b"plain", b"  spaced  ", b"tail newlines\n\n\n", b"", b" \t\n"];
    for raw in inputs {
        fs.update_file(FetchOutcome::Success(raw.to_vec())).unwrap();
        let content = fs.read(2, 0).unwrap();
        assert_eq!(content.last(), Some(&b'\n'));
        if content.len() >= 2 {
            assert_ne!(content[content.len() - 2], b'\n');
        }
    }
}

#[test]
fn errors_carry_diagnostic_messages() {
    let mut fs = QuoteFs::new();
    let err = fs.update_file(FetchOutcome::Failure).unwrap_err();
    assert_eq!(err.message(), "Failed to execute command");
    let err = fs.getattr(9).unwrap_err();
    assert_eq!(err.message(), "entry does not exist");
}

#[test]
fn normalization_trims_and_appends_one_newline() {
    assert_eq!(normalize_quote(&b"  hello world  \n".to_vec()), b"hello world\n".to_vec());
    assert_eq!(normalize_quote(&b"no surrounding space".to_vec()), b"no surrounding space\n".to_vec());
    assert_eq!(normalize_quote(&b"\t\n inner  kept \t\n".to_vec()), b"inner  kept\n".to_vec());
    assert_eq!(normalize_quote(&b"".to_vec()), b"\n".to_vec());
    assert_eq!(normalize_quote(&b"   \n\t ".to_vec()), b"\n".to_vec());
}

#[test]
fn normalization_decodes_invalid_bytes_lossily() {
    // One invalid byte becomes the replacement character, not a panic.
    assert_eq!(normalize_quote(&vec![0xff]), vec![0xef, 0xbf, 0xbd, 0x0a]);
    // Valid multi-byte text passes through unchanged.
    assert_eq!(
        normalize_quote(&" caf\u{e9}? ".as_bytes().to_vec()),
        "caf\u{e9}?\n".as_bytes().to_vec()
    );
}

#[test]
fn attributes_reflect_last_resolved_content_not_live_content() {
    // Attribute lookups use the cached size: no refresh happens on getattr,
    // so the size only moves when a resolution succeeds.
    let mut fs = refreshed(b"stale");
    assert_eq!(fs.getattr(2).unwrap().size, 6);
    assert_eq!(fs.getattr(2).unwrap().size, 6);
    fs.lookup_resolve(FetchOutcome::Success(b"a longer quote".to_vec()))
        .unwrap();
    assert_eq!(fs.getattr(2).unwrap().size, 15);
}

#[test]
fn directory_attributes_are_constant() {
    let mut fs = QuoteFs::new();
    let before = fs.getattr(1).unwrap();
    assert_eq!(before.ino, 1);
    assert_eq!(before.kind, FileKind::Directory);
    assert_eq!(before.size, 0);
    assert_eq!(before.perm, 0o755);
    assert_eq!(before.nlink, 2);
    assert_eq!(before.uid, 301);
    assert_eq!(before.gid, 0);
    assert_eq!(before.blksize, 512);
    fs.update_file(FetchOutcome::Success(b"anything".to_vec())).unwrap();
    assert_eq!(fs.getattr(1).unwrap(), before);
}
