use crate::digest::{encode_hex_lower, hex_lower, sha256_of};
use crate::status::{label_of, FileStatus};
use vstd::prelude::*;

verus! {

/// What was observed of a listed file: it is absent, it could not be read
/// to the end, or it was read and its bytes gave this SHA-256 digest.
pub enum FileProbe {
    Missing,
    Unreadable,
    Digest(Vec<u8>),
}

/// The mathematical content of a `FileProbe`.
pub ghost enum ProbeView {
    Missing,
    Unreadable,
    Digest(Seq<u8>),
}

impl View for FileProbe {
    type V = ProbeView;

    open spec fn view(&self) -> ProbeView {
        match self {
            FileProbe::Missing => ProbeView::Missing,
            FileProbe::Unreadable => ProbeView::Unreadable,
            FileProbe::Digest(d) => ProbeView::Digest(d@),
        }
    }
}

/// A probe that carries a digest carries a SHA-256 digest: 32 bytes.
pub open spec fn digest_sized(p: ProbeView) -> bool {
    p matches ProbeView::Digest(d) ==> d.len() == 32
}

/// The state of a file on disk, as far as the check can tell.
pub ghost enum FileState {
    Absent,
    Unreadable,
    Content(Seq<u8>),
}

/// A probe reports the file faithfully: absent as missing, unreadable as
/// unreadable, readable content by its SHA-256 digest.
pub open spec fn describes(p: ProbeView, f: FileState) -> bool {
    match f {
        FileState::Absent => p == ProbeView::Missing,
        FileState::Unreadable => p == ProbeView::Unreadable,
        FileState::Content(c) => p == ProbeView::Digest(sha256_of(c)),
    }
}

/// The status that a check gives an entry with this expected digest text.
pub open spec fn status_for(expected: Seq<char>, p: ProbeView) -> FileStatus {
    match p {
        ProbeView::Missing => FileStatus::REMOVED,
        ProbeView::Unreadable => FileStatus::FAILED,
        ProbeView::Digest(d) => if hex_lower(d) == expected {
            FileStatus::OK
        } else {
            FileStatus::MISMATCH
        },
    }
}

/// The status of a file in a given state, listed with this expected digest.
pub open spec fn status_of_file(expected: Seq<char>, f: FileState) -> FileStatus {
    match f {
        FileState::Absent => FileStatus::REMOVED,
        FileState::Unreadable => FileStatus::FAILED,
        FileState::Content(c) => if hex_lower(sha256_of(c)) == expected {
            FileStatus::OK
        } else {
            FileStatus::MISMATCH
        },
    }
}

/// A file's digest matches the expected text exactly: it is OK.
pub proof fn lemma_matching_content_is_ok(expected: Seq<char>, content: Seq<u8>, p: ProbeView)
    requires
        describes(p, FileState::Content(content)),
        hex_lower(sha256_of(content)) == expected,
    ensures
        status_for(expected, p) == FileStatus::OK,
        status_of_file(expected, FileState::Content(content)) == FileStatus::OK,
{
}

/// An absent file is REMOVED, whatever digest was expected.
pub proof fn lemma_absent_is_removed(expected: Seq<char>, p: ProbeView)
    requires
        describes(p, FileState::Absent),
    ensures
        status_for(expected, p) == FileStatus::REMOVED,
{
}

/// A readable file whose digest differs from the expected text is MISMATCH.
pub proof fn lemma_differing_content_is_mismatch(
    expected: Seq<char>,
    content: Seq<u8>,
    p: ProbeView,
)
    requires
        describes(p, FileState::Content(content)),
        hex_lower(sha256_of(content)) != expected,
    ensures
        status_for(expected, p) == FileStatus::MISMATCH,
{
}

/// A file that exists but cannot be read to the end is FAILED.
pub proof fn lemma_unreadable_is_failed(expected: Seq<char>, p: ProbeView)
    requires
        describes(p, FileState::Unreadable),
    ensures
        status_for(expected, p) == FileStatus::FAILED,
{
}

/// A faithful probe gives the file's own status.
pub proof fn lemma_probe_gives_file_status(expected: Seq<char>, p: ProbeView, f: FileState)
    requires
        describes(p, f),
    ensures
        status_for(expected, p) == status_of_file(expected, f),
{
}

/// A character that ends a line.
pub open spec fn is_line_end(c: char) -> bool {
    c == '\n' || c == '\r'
}

/// The line without its trailing line-end characters.
pub open spec fn strip_line_end(s: Seq<char>) -> Seq<char>
    decreases s.len(),
{
    if s.len() > 0 && is_line_end(s.last()) {
        strip_line_end(s.drop_last())
    } else {
        s
    }
}

/// Two spaces start at position `i`.
pub open spec fn is_separator_at(s: Seq<char>, i: int) -> bool {
    0 <= i && i + 1 < s.len() && s[i] == ' ' && s[i + 1] == ' '
}

/// The first position at or after `i` where two spaces start, or -1.
pub open spec fn separator_from(s: Seq<char>, i: int) -> int
    decreases s.len() - i,
{
    if i < 0 || i + 1 >= s.len() {
        -1
    } else if is_separator_at(s, i) {
        i
    } else {
        separator_from(s, i + 1)
    }
}

/// The two fields of a manifest line: the text before the first two spaces
/// and the text after them, once line ends are stripped. None when there is
/// no such separator or either field is empty.
pub open spec fn parse_fields(line: Seq<char>) -> Option<(Seq<char>, Seq<char>)> {
    let s = strip_line_end(line);
    let k = separator_from(s, 0);
    if k < 0 {
        None
    } else {
        let digest = s.subrange(0, k);
        let path = s.subrange(k + 2, s.len() as int);
        if digest.len() == 0 || path.len() == 0 {
            None
        } else {
            Some((digest, path))
        }
    }
}

/// One manifest line: the expected digest text, the file's path as written,
/// and the status of the last check.
pub struct SHASumEntry {
    checksum: String,
    filepath: String,
    status: FileStatus,
}

impl SHASumEntry {
    pub closed spec fn spec_checksum(&self) -> Seq<char> {
        self.checksum@
    }

    pub closed spec fn spec_filepath(&self) -> Seq<char> {
        self.filepath@
    }

    pub closed spec fn spec_status(&self) -> FileStatus {
        self.status
    }

    /// An entry that has not been checked yet.
    pub fn new(checksum: String, filepath: String) -> (e: SHASumEntry)
        ensures
            e.spec_checksum() == checksum@,
            e.spec_filepath() == filepath@,
            e.spec_status() == FileStatus::UNKNOWN,
    {
        SHASumEntry { checksum, filepath, status: FileStatus::UNKNOWN }
    }

    /// Reads one manifest line into an unchecked entry. Line ends are
    /// stripped, then the line is split at its first two consecutive spaces;
    /// None when there is no such separator or either field is empty.
    pub fn parse(line: &str) -> (r: Option<SHASumEntry>)
        ensures
            match parse_fields(line@) {
                None => r is None,
                Some(fields) => r matches Some(e) && e.spec_checksum() == fields.0
                    && e.spec_filepath() == fields.1 && e.spec_status() == FileStatus::UNKNOWN,
            },
    {
        let n = line.unicode_len();
        let mut end: usize = n;
        assert(line@.subrange(0, n as int) =~= line@);
        loop
            invariant
                end <= n,
                n == line@.len(),
                strip_line_end(line@) == strip_line_end(line@.subrange(0, end as int)),
            ensures
                end <= n,
                strip_line_end(line@) == strip_line_end(line@.subrange(0, end as int)),
                end == 0 || !is_line_end(line@[end - 1]),
            decreases end,
        {
            if end == 0 {
                break;
            }
            let c = line.get_char(end - 1);
            if c != '\n' && c != '\r' {
                break;
            }
            proof {
                assert(line@.subrange(0, end as int).drop_last() =~= line@.subrange(
                    0,
                    end - 1,
                ));
            }
            end = end - 1;
        }
        let ghost s = line@.subrange(0, end as int);
        assert(strip_line_end(line@) == s);
        let mut i: usize = 0;
        let mut found = false;
        loop
            invariant_except_break
                !found,
                separator_from(s, 0) == separator_from(s, i as int),
            invariant
                i <= end,
                end <= n,
                n == line@.len(),
                s == line@.subrange(0, end as int),
            ensures
                end <= n,
                n == line@.len(),
                s == line@.subrange(0, end as int),
                found ==> separator_from(s, 0) == i && i + 2 <= end,
                !found ==> separator_from(s, 0) == -1,
            decreases end - i,
        {
            if end - i < 2 {
                assert(separator_from(s, i as int) == -1);
                break;
            }
            if line.get_char(i) == ' ' && line.get_char(i + 1) == ' ' {
                assert(is_separator_at(s, i as int));
                assert(separator_from(s, i as int) == i);
                found = true;
                break;
            }
            i = i + 1;
        }
        if !found {
            return None;
        }
        if i == 0 || i + 2 == end {
            return None;
        }
        let digest = line.substring_char(0, i);
        let path = line.substring_char(i + 2, end);
        assert(digest@ =~= s.subrange(0, i as int));
        assert(path@ =~= s.subrange(i + 2, s.len() as int));
        Some(SHASumEntry::new(String::from_str(digest), String::from_str(path)))
    }

    pub fn checksum(&self) -> (r: &str)
        ensures
            r@ == self.spec_checksum(),
    {
        self.checksum.as_str()
    }

    pub fn filepath(&self) -> (r: &str)
        ensures
            r@ == self.spec_filepath(),
    {
        self.filepath.as_str()
    }

    pub fn status(&self) -> (r: FileStatus)
        ensures
            r == self.spec_status(),
    {
        self.status
    }

    /// Classifies the file from what was observed of it and stores the result:
    /// REMOVED if it is missing, FAILED if it could not be read, else OK when
    /// the lower-case hex text of its digest equals the expected text exactly,
    /// MISMATCH otherwise.
    pub fn check(&mut self, probe: FileProbe) -> (r: FileStatus)
        requires
            digest_sized(probe@),
        ensures
            r == status_for(old(self).spec_checksum(), probe@),
            final(self).spec_status() == r,
            final(self).spec_checksum() == old(self).spec_checksum(),
            final(self).spec_filepath() == old(self).spec_filepath(),
            r.is_resolved(),
    {
        let status = match probe {
            FileProbe::Missing => FileStatus::REMOVED,
            FileProbe::Unreadable => FileStatus::FAILED,
            FileProbe::Digest(d) => {
                let actual = encode_hex_lower(d.as_slice());
                if actual == self.checksum {
                    FileStatus::OK
                } else {
                    FileStatus::MISMATCH
                }
            },
        };
        self.status = status;
        status
    }

    /// The display line: `<path>: <label>`.
    pub fn to_line(&self) -> (r: String)
        ensures
            r@ == self.spec_filepath() + ": "@ + label_of(self.spec_status()),
    {
        let mut s = self.filepath.clone();
        s.append(": ");
        s.append(self.status.label());
        s
    }
}

} // verus!
