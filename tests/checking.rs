use shasum_check::{decimal_text, FileProbe, FileStatus, SHASumEntry, SHASumFile, Sha256Stream};

const EMPTY_DIGEST: &str = "e3b0c44298fc1c149afbf4c8996fb92427ae41e4649b934ca495991b7852b855";
const ABC_DIGEST: &str = "ba7816bf8f01cfea414140de5dae2223b00361a396177a9cb410ff61f20015ad";

fn digest_of(chunks: &[&[u8]]) -> Vec<u8> {
    let mut s = Sha256Stream::new();
    for c in chunks {
        s.update(c);
    }
    s.finish()
}

fn entry(line: &str) -> SHASumEntry {
    SHASumEntry::parse(line).expect("well-formed line")
}

#[test]
fn empty_file_is_ok() {
    let mut tally = SHASumFile::new();
    let e = entry(&format!("{}  empty.txt\n", EMPTY_DIGEST));
    let e = tally.next(e, FileProbe::Digest(digest_of(&[])));
    assert_eq!(e.status(), FileStatus::OK);
    assert_eq!(e.to_line(), "empty.txt: OK");
    assert_eq!(tally.num_ok(), 1);
    assert_eq!(tally.exit_status(), 0);
    assert!(tally.warnings().is_empty());
}

#[test]
fn missing_file_is_removed() {
    let mut tally = SHASumFile::new();
    let e = entry(&format!("{}  missing.txt", EMPTY_DIGEST));
    let e = tally.next(e, FileProbe::Missing);
    assert_eq!(e.status(), FileStatus::REMOVED);
    assert_eq!(e.to_line(), "missing.txt: REMOVED");
    assert_eq!(tally.exit_status(), 1);
    assert_eq!(tally.warnings(), vec!["WARNING: 1 file has been removed".to_string()]);
}

#[test]
fn removed_whatever_the_expected_digest() {
    for expected in ["0", "zz", EMPTY_DIGEST, ABC_DIGEST] {
        let mut e = SHASumEntry::new(expected.to_string(), "gone.bin".to_string());
        assert_eq!(e.check(FileProbe::Missing), FileStatus::REMOVED);
    }
}

#[test]
fn altered_digest_is_mismatch() {
    let altered = "e3b0c44298fc1c149afbf4c8996fb92427ae41e4649b934ca495991b7852b856";
    let mut tally = SHASumFile::new();
    let e = entry(&format!("{}  empty.txt", altered));
    let e = tally.next(e, FileProbe::Digest(digest_of(&[])));
    assert_eq!(e.status(), FileStatus::MISMATCH);
    assert_eq!(tally.exit_status(), 1);
    assert_eq!(tally.warnings(), vec!["WARNING: 1 checksum did NOT match".to_string()]);
}

#[test]
fn uppercase_digest_is_mismatch() {
    let mut e = SHASumEntry::new(ABC_DIGEST.to_uppercase(), "abc.txt".to_string());
    assert_eq!(e.check(FileProbe::Digest(digest_of(&[b"abc"]))), FileStatus::MISMATCH);
}

#[test]
fn digest_is_lowercase_hex_of_content() {
    let mut e = SHASumEntry::new(ABC_DIGEST.to_string(), "abc.txt".to_string());
    assert_eq!(e.check(FileProbe::Digest(digest_of(&[b"abc"]))), FileStatus::OK);
    let mut other = SHASumEntry::new(ABC_DIGEST.to_string(), "abc.txt".to_string());
    assert_eq!(other.check(FileProbe::Digest(digest_of(&[b"abd"]))), FileStatus::MISMATCH);
}

#[test]
fn unreadable_file_is_failed() {
    let mut tally = SHASumFile::new();
    let e = tally.next(entry(&format!("{}  locked", EMPTY_DIGEST)), FileProbe::Unreadable);
    assert_eq!(e.status(), FileStatus::FAILED);
    assert_eq!(e.to_line(), "locked: FAILED open or read");
    assert_eq!(tally.exit_status(), 1);
    assert_eq!(tally.warnings(), vec!["WARNING: 1 file could not be read".to_string()]);
}

#[test]
fn chunking_does_not_change_the_digest() {
    let data: Vec<u8> = (0..10000u32).map(|i| (i * 7 % 251) as u8).collect();
    let whole = digest_of(&[&data]);
    let parts: Vec<&[u8]> = data.chunks(1).collect();
    assert_eq!(digest_of(&parts), whole);
    let parts: Vec<&[u8]> = data.chunks(4096).collect();
    assert_eq!(digest_of(&parts), whole);
    assert_eq!(digest_of(&[b"a", b"", b"bc"]), digest_of(&[b"abc"]));
    assert_eq!(whole.len(), 32);
}

#[test]
fn empty_manifest_yields_nothing() {
    assert!(SHASumEntry::parse("").is_none());
    let tally = SHASumFile::new();
    assert_eq!(tally.seen(), 0);
    assert!(tally.warnings().is_empty());
    assert_eq!(tally.exit_status(), 0);
}

#[test]
fn single_field_line_ends_the_sequence() {
    let lines = [
        format!("{}  missing.txt", EMPTY_DIGEST),
        EMPTY_DIGEST.to_string(),
        format!("{}  later.txt", EMPTY_DIGEST),
    ];
    let mut tally = SHASumFile::new();
    let mut shown = Vec::new();
    for line in &lines {
        let Some(e) = tally.next_line(Some(line)) else { break };
        shown.push(tally.next(e, FileProbe::Missing).to_line());
    }
    assert!(tally.ended());
    assert_eq!(shown, vec!["missing.txt: REMOVED".to_string()]);
    assert_eq!(tally.seen(), 1);
    assert_eq!(tally.exit_status(), 1);
}

#[test]
fn exit_status_zero_only_when_all_ok() {
    let mut tally = SHASumFile::new();
    for _ in 0..3 {
        tally.next(SHASumEntry::new(EMPTY_DIGEST.to_string(), "e".to_string()), FileProbe::Digest(digest_of(&[])));
    }
    assert_eq!(tally.exit_status(), 0);
    assert_eq!(tally.num_ok(), 3);
    tally.next(SHASumEntry::new(EMPTY_DIGEST.to_string(), "u".to_string()), FileProbe::Unreadable);
    assert_eq!(tally.exit_status(), 1);
    assert_eq!(tally.num_failed(), 1);
    assert_eq!(tally.num_ok(), 3);
}

#[test]
fn rerun_gives_same_outcome() {
    let run = || {
        let mut tally = SHASumFile::new();
        let mut out = Vec::new();
        let probes = [
            FileProbe::Digest(digest_of(&[])),
            FileProbe::Missing,
            FileProbe::Digest(digest_of(&[b"abc"])),
            FileProbe::Unreadable,
        ];
        for p in probes {
            let e = SHASumEntry::new(EMPTY_DIGEST.to_string(), "f".to_string());
            out.push(tally.next(e, p).status());
        }
        (out, tally.exit_status(), tally.warnings())
    };
    assert_eq!(run(), run());
    assert_eq!(
        run().0,
        vec![FileStatus::OK, FileStatus::REMOVED, FileStatus::MISMATCH, FileStatus::FAILED]
    );
}

#[test]
fn plural_warnings() {
    let mut tally = SHASumFile::new();
    for p in [FileProbe::Missing, FileProbe::Missing, FileProbe::Unreadable, FileProbe::Unreadable] {
        tally.next(SHASumEntry::new(EMPTY_DIGEST.to_string(), "f".to_string()), p);
    }
    for _ in 0..12 {
        tally.next(SHASumEntry::new("00".to_string(), "f".to_string()), FileProbe::Digest(digest_of(&[])));
    }
    assert_eq!(
        tally.warnings(),
        vec![
            "WARNING: 2 files have been removed".to_string(),
            "WARNING: 12 checksums did NOT match".to_string(),
            "WARNING: 2 files could not be read".to_string(),
        ]
    );
    assert_eq!(tally.num_removed(), 2);
    assert_eq!(tally.num_mismatch(), 12);
    assert_eq!(tally.seen(), 16);
}

#[test]
fn parse_splits_at_first_double_space() {
    let e = entry("abc  dir/a  b.txt\r\n");
    assert_eq!(e.checksum(), "abc");
    assert_eq!(e.filepath(), "dir/a  b.txt");
    assert_eq!(e.status(), FileStatus::UNKNOWN);
    assert_eq!(e.to_line(), "dir/a  b.txt: UNKNOWN");
    let e = entry(" abc   x \n");
    assert_eq!(e.checksum(), " abc");
    assert_eq!(e.filepath(), " x ");
}

#[test]
fn parse_rejects_malformed_lines() {
    assert!(SHASumEntry::parse("\n").is_none());
    assert!(SHASumEntry::parse("abc def").is_none());
    assert!(SHASumEntry::parse("abc  \n").is_none());
    assert!(SHASumEntry::parse("  path").is_none());
    assert!(SHASumEntry::parse("abc ").is_none());
}

#[test]
fn decimal_text_of_numbers() {
    assert_eq!(decimal_text(0), "0");
    assert_eq!(decimal_text(7), "7");
    assert_eq!(decimal_text(10), "10");
    assert_eq!(decimal_text(1234), "1234");
    assert_eq!(decimal_text(usize::MAX), usize::MAX.to_string());
}

#[test]
fn status_labels() {
    assert_eq!(FileStatus::OK.label(), "OK");
    assert_eq!(FileStatus::MISMATCH.label(), "MISMATCH");
    assert_eq!(FileStatus::REMOVED.label(), "REMOVED");
    assert_eq!(FileStatus::FAILED.label(), "FAILED open or read");
    assert_eq!(FileStatus::UNKNOWN.label(), "UNKNOWN");
}

#[test]
fn ended_stream_yields_nothing_more() {
    let mut tally = SHASumFile::new();
    assert!(!tally.ended());
    let good = format!("{}  a.txt\n", EMPTY_DIGEST);
    let e = tally.next_line(Some(&good)).expect("first line parses");
    assert_eq!(e.filepath(), "a.txt");
    assert!(!tally.ended());
    assert!(tally.next_line(Some("no separator here")).is_none());
    assert!(tally.ended());
    assert!(tally.next_line(Some(&good)).is_none());
    assert!(tally.ended());
}

#[test]
fn read_failure_ends_stream() {
    let mut tally = SHASumFile::new();
    assert!(tally.next_line(None).is_none());
    assert!(tally.ended());
    let good = format!("{}  a.txt", EMPTY_DIGEST);
    assert!(tally.next_line(Some(&good)).is_none());
    assert_eq!(tally.seen(), 0);
    assert_eq!(tally.exit_status(), 0);
}
