use crate::entry::{describes, digest_sized, parse_fields, status_for, FileProbe, FileState, ProbeView, SHASumEntry};
use crate::status::FileStatus;
use vstd::prelude::*;

verus! {

/// One checked manifest entry, as the stream recorded it.
pub ghost struct Checked {
    pub checksum: Seq<char>,
    pub path: Seq<char>,
    pub probe: ProbeView,
}

/// The status of each checked entry, in manifest order.
pub open spec fn statuses(h: Seq<Checked>) -> Seq<FileStatus> {
    h.map_values(|c: Checked| status_for(c.checksum, c.probe))
}

/// How many times `st` occurs in `s`.
pub open spec fn count_of(s: Seq<FileStatus>, st: FileStatus) -> nat
    decreases s.len(),
{
    if s.len() == 0 {
        0
    } else {
        count_of(s.drop_last(), st) + if s.last() == st {
            1nat
        } else {
            0nat
        }
    }
}

/// Every checked entry came out OK.
pub open spec fn all_ok(h: Seq<Checked>) -> bool {
    forall|i: int| 0 <= i < h.len() ==> #[trigger] statuses(h)[i] == FileStatus::OK
}

/// The exit status of a run: 0 when every entry is OK, 1 otherwise.
pub open spec fn exit_code_of(h: Seq<Checked>) -> i32 {
    if all_ok(h) {
        0
    } else {
        1
    }
}

proof fn lemma_count_push(s: Seq<FileStatus>, x: FileStatus, st: FileStatus)
    ensures
        count_of(s.push(x), st) == count_of(s, st) + if x == st {
            1nat
        } else {
            0nat
        },
{
    assert(s.push(x).drop_last() =~= s);
}

proof fn lemma_count_le_len(s: Seq<FileStatus>, st: FileStatus)
    ensures
        count_of(s, st) <= s.len(),
    decreases s.len(),
{
    if s.len() > 0 {
        lemma_count_le_len(s.drop_last(), st);
    }
}

proof fn lemma_statuses_push(h: Seq<Checked>, c: Checked)
    ensures
        statuses(h.push(c)) == statuses(h).push(status_for(c.checksum, c.probe)),
{
    assert(statuses(h.push(c)) =~= statuses(h).push(status_for(c.checksum, c.probe)));
}

/// With no UNKNOWN among them, the statuses are all OK exactly when none is
/// REMOVED, MISMATCH or FAILED.
proof fn lemma_no_failures_iff_all_ok(s: Seq<FileStatus>)
    requires
        forall|i: int| 0 <= i < s.len() ==> (#[trigger] s[i]).is_resolved(),
    ensures
        (count_of(s, FileStatus::REMOVED) + count_of(s, FileStatus::MISMATCH) + count_of(
            s,
            FileStatus::FAILED,
        ) == 0) <==> (forall|i: int| 0 <= i < s.len() ==> #[trigger] s[i] == FileStatus::OK),
    decreases s.len(),
{
    if s.len() > 0 {
        let t = s.drop_last();
        assert forall|i: int| 0 <= i < t.len() implies (#[trigger] t[i]).is_resolved() by {
            assert(t[i] == s[i]);
        }
        lemma_no_failures_iff_all_ok(t);
        if forall|i: int| 0 <= i < s.len() ==> #[trigger] s[i] == FileStatus::OK {
            assert forall|i: int| 0 <= i < t.len() implies #[trigger] t[i] == FileStatus::OK by {
                assert(t[i] == s[i]);
            }
            assert(s[s.len() - 1] == FileStatus::OK);
        }
        if count_of(s, FileStatus::REMOVED) + count_of(s, FileStatus::MISMATCH) + count_of(
            s,
            FileStatus::FAILED,
        ) == 0 {
            assert(s.last().is_resolved());
            assert forall|i: int| 0 <= i < s.len() implies #[trigger] s[i] == FileStatus::OK by {
                if i < t.len() {
                    assert(t[i] == s[i]);
                }
            }
        }
    }
}

/// A decimal digit of a value below 10.
pub open spec fn dec_digit(d: nat) -> char {
    seq!['0', '1', '2', '3', '4', '5', '6', '7', '8', '9'][d as int]
}

/// The decimal text of a number, without leading zeros.
pub open spec fn decimal(n: nat) -> Seq<char>
    decreases n,
{
    if n < 10 {
        seq![dec_digit(n)]
    } else {
        decimal(n / 10).push(dec_digit(n % 10))
    }
}

/// A summary warning for a non-zero count, in singular or plural wording.
pub open spec fn count_warning(n: nat, one: Seq<char>, many: Seq<char>) -> Seq<char> {
    "WARNING: "@ + decimal(n) + if n == 1 {
        one
    } else {
        many
    }
}

/// One warning line for each non-zero count of REMOVED, MISMATCH and FAILED
/// entries, in that order.
pub open spec fn warnings_for(removed: nat, mismatch: nat, failed: nat) -> Seq<Seq<char>> {
    (if removed > 0 {
        seq![count_warning(removed, " file has been removed"@, " files have been removed"@)]
    } else {
        Seq::empty()
    }) + (if mismatch > 0 {
        seq![count_warning(mismatch, " checksum did NOT match"@, " checksums did NOT match"@)]
    } else {
        Seq::empty()
    }) + (if failed > 0 {
        seq![count_warning(failed, " file could not be read"@, " files could not be read"@)]
    } else {
        Seq::empty()
    })
}

fn digit_text(d: usize) -> (r: &'static str)
    requires
        d < 10,
    ensures
        r@ == seq![dec_digit(d as nat)],
{
    let digits = "0123456789";
    proof {
        reveal_strlit("0123456789");
    }
    assert(digits@ =~= seq!['0', '1', '2', '3', '4', '5', '6', '7', '8', '9']);
    let r = digits.substring_char(d, d + 1);
    assert(r@ =~= seq![dec_digit(d as nat)]);
    r
}

/// The decimal text of `n`.
pub fn decimal_text(n: usize) -> (r: String)
    ensures
        r@ == decimal(n as nat),
    decreases n,
{
    if n < 10 {
        String::from_str(digit_text(n))
    } else {
        let mut r = decimal_text(n / 10);
        r.append(digit_text(n % 10));
        r
    }
}

fn count_warning_text(n: usize, one: &str, many: &str) -> (r: String)
    ensures
        r@ == count_warning(n as nat, one@, many@),
{
    let mut r = String::from_str("WARNING: ");
    let digits = decimal_text(n);
    r.append(digits.as_str());
    if n == 1 {
        r.append(one);
    } else {
        r.append(many);
    }
    r
}

/// The running tally of a manifest check: one counter per resolved status,
/// and the record of every entry checked so far.
pub struct SHASumFile {
    num_ok: usize,
    num_removed: usize,
    num_mismatch: usize,
    num_failed: usize,
    num_seen: usize,
    history: Ghost<Seq<Checked>>,
    ended: bool,
}

impl View for SHASumFile {
    type V = Seq<Checked>;

    closed spec fn view(&self) -> Seq<Checked> {
        self.history@
    }
}

impl SHASumFile {
    #[verifier::type_invariant]
    spec fn counters_match(&self) -> bool {
        let s = statuses(self.history@);
        &&& self.num_seen == self.history@.len()
        &&& self.num_ok == count_of(s, FileStatus::OK)
        &&& self.num_removed == count_of(s, FileStatus::REMOVED)
        &&& self.num_mismatch == count_of(s, FileStatus::MISMATCH)
        &&& self.num_failed == count_of(s, FileStatus::FAILED)
    }

    /// A tally with nothing checked yet.
    pub fn new() -> (r: SHASumFile)
        ensures
            r@ == Seq::<Checked>::empty(),
            !r.is_ended(),
    {
        SHASumFile {
            num_ok: 0,
            num_removed: 0,
            num_mismatch: 0,
            num_failed: 0,
            num_seen: 0,
            history: Ghost(Seq::empty()),
            ended: false,
        }
    }

    /// Whether the sequence of manifest entries has ended.
    pub closed spec fn is_ended(&self) -> bool {
        self.ended
    }

    pub fn ended(&self) -> (r: bool)
        ensures
            r == self.is_ended(),
    {
        self.ended
    }

    /// Takes the next manifest line (None when it could not be read) and
    /// yields its unchecked entry. A missing or malformed line ends the
    /// sequence: it yields nothing, and so does every later call.
    pub fn next_line(&mut self, line: Option<&str>) -> (r: Option<SHASumEntry>)
        ensures
            final(self)@ == old(self)@,
            final(self).is_ended() == (old(self).is_ended() || r is None),
            old(self).is_ended() ==> r is None,
            !old(self).is_ended() ==> match line {
                None => r is None,
                Some(l) => match parse_fields(l@) {
                    None => r is None,
                    Some(fields) => r matches Some(e) && e.spec_checksum() == fields.0
                        && e.spec_filepath() == fields.1 && e.spec_status()
                        == FileStatus::UNKNOWN,
                },
            },
    {
        proof {
            use_type_invariant(&*self);
        }
        if self.ended {
            return None;
        }
        let r = match line {
            None => None,
            Some(l) => SHASumEntry::parse(l),
        };
        if r.is_none() {
            self.ended = true;
        }
        r
    }

    /// How many entries have been checked.
    pub fn seen(&self) -> (r: usize)
        ensures
            r == self@.len(),
    {
        proof {
            use_type_invariant(self);
        }
        self.num_seen
    }

    pub fn num_ok(&self) -> (r: usize)
        ensures
            r == count_of(statuses(self@), FileStatus::OK),
    {
        proof {
            use_type_invariant(self);
        }
        self.num_ok
    }

    pub fn num_removed(&self) -> (r: usize)
        ensures
            r == count_of(statuses(self@), FileStatus::REMOVED),
    {
        proof {
            use_type_invariant(self);
        }
        self.num_removed
    }

    pub fn num_mismatch(&self) -> (r: usize)
        ensures
            r == count_of(statuses(self@), FileStatus::MISMATCH),
    {
        proof {
            use_type_invariant(self);
        }
        self.num_mismatch
    }

    pub fn num_failed(&self) -> (r: usize)
        ensures
            r == count_of(statuses(self@), FileStatus::FAILED),
    {
        proof {
            use_type_invariant(self);
        }
        self.num_failed
    }

    /// Checks the next manifest entry against what was observed of its file,
    /// counts the outcome, and hands the checked entry back.
    pub fn next(&mut self, entry: SHASumEntry, probe: FileProbe) -> (r: SHASumEntry)
        requires
            old(self)@.len() < usize::MAX,
            digest_sized(probe@),
        ensures
            final(self)@ == old(self)@.push(
                Checked {
                    checksum: entry.spec_checksum(),
                    path: entry.spec_filepath(),
                    probe: probe@,
                },
            ),
            r.spec_checksum() == entry.spec_checksum(),
            r.spec_filepath() == entry.spec_filepath(),
            r.spec_status() == status_for(entry.spec_checksum(), probe@),
            final(self).is_ended() == old(self).is_ended(),
    {
        proof {
            use_type_invariant(&*self);
        }
        let ghost c = Checked {
            checksum: entry.spec_checksum(),
            path: entry.spec_filepath(),
            probe: probe@,
        };
        let ghost before = statuses(self.history@);
        proof {
            lemma_statuses_push(self.history@, c);
            lemma_count_le_len(before, FileStatus::OK);
            lemma_count_le_len(before, FileStatus::REMOVED);
            lemma_count_le_len(before, FileStatus::MISMATCH);
            lemma_count_le_len(before, FileStatus::FAILED);
            let st = status_for(c.checksum, c.probe);
            lemma_count_push(before, st, FileStatus::OK);
            lemma_count_push(before, st, FileStatus::REMOVED);
            lemma_count_push(before, st, FileStatus::MISMATCH);
            lemma_count_push(before, st, FileStatus::FAILED);
        }
        let mut entry = entry;
        let status = entry.check(probe);
        let mut num_ok = self.num_ok;
        let mut num_removed = self.num_removed;
        let mut num_mismatch = self.num_mismatch;
        let mut num_failed = self.num_failed;
        match status {
            FileStatus::OK => num_ok = num_ok + 1,
            FileStatus::REMOVED => num_removed = num_removed + 1,
            FileStatus::MISMATCH => num_mismatch = num_mismatch + 1,
            FileStatus::FAILED => num_failed = num_failed + 1,
            FileStatus::UNKNOWN => {},
        }
        *self = SHASumFile {
            num_ok,
            num_removed,
            num_mismatch,
            num_failed,
            num_seen: self.num_seen + 1,
            history: Ghost(self.history@.push(c)),
            ended: self.ended,
        };
        entry
    }

    /// The summary warnings: one line per non-zero count of REMOVED,
    /// MISMATCH and FAILED entries, singular when the count is 1.
    pub fn warnings(&self) -> (r: Vec<String>)
        ensures
            r@.map_values(|w: String| w@) == warnings_for(
                count_of(statuses(self@), FileStatus::REMOVED),
                count_of(statuses(self@), FileStatus::MISMATCH),
                count_of(statuses(self@), FileStatus::FAILED),
            ),
    {
        proof {
            use_type_invariant(self);
        }
        let mut r: Vec<String> = Vec::new();
        if self.num_removed > 0 {
            r.push(
                count_warning_text(
                    self.num_removed,
                    " file has been removed",
                    " files have been removed",
                ),
            );
        }
        let ghost first = r@.map_values(|w: String| w@);
        if self.num_mismatch > 0 {
            r.push(
                count_warning_text(
                    self.num_mismatch,
                    " checksum did NOT match",
                    " checksums did NOT match",
                ),
            );
        }
        let ghost second = r@.map_values(|w: String| w@);
        if self.num_failed > 0 {
            r.push(
                count_warning_text(
                    self.num_failed,
                    " file could not be read",
                    " files could not be read",
                ),
            );
        }
        proof {
            let n1 = self.num_removed as nat;
            let n2 = self.num_mismatch as nat;
            let n3 = self.num_failed as nat;
            let p1: Seq<Seq<char>> = if n1 > 0 {
                seq![count_warning(n1, " file has been removed"@, " files have been removed"@)]
            } else {
                Seq::empty()
            };
            let p2: Seq<Seq<char>> = if n2 > 0 {
                seq![count_warning(n2, " checksum did NOT match"@, " checksums did NOT match"@)]
            } else {
                Seq::empty()
            };
            let p3: Seq<Seq<char>> = if n3 > 0 {
                seq![count_warning(n3, " file could not be read"@, " files could not be read"@)]
            } else {
                Seq::empty()
            };
            assert(first =~= p1);
            assert(second =~= p1 + p2);
            assert(r@.map_values(|w: String| w@) =~= p1 + p2 + p3);
        }
        r
    }

    /// 0 when every entry checked so far is OK, 1 when any is REMOVED,
    /// MISMATCH or FAILED.
    pub fn exit_status(&self) -> (r: i32)
        ensures
            r == exit_code_of(self@),
            r == 0 <==> all_ok(self@),
    {
        proof {
            use_type_invariant(self);
            let s = statuses(self.history@);
            assert forall|i: int| 0 <= i < s.len() implies (#[trigger] s[i]).is_resolved() by {}
            lemma_no_failures_iff_all_ok(s);
        }
        if self.num_removed == 0 && self.num_mismatch == 0 && self.num_failed == 0 {
            0
        } else {
            1
        }
    }
}

/// Checking the same manifest twice against the same files gives the same
/// status for every entry and the same exit status.
pub proof fn lemma_rerun_same_outcome(
    a: Seq<Checked>,
    b: Seq<Checked>,
    files: spec_fn(Seq<char>) -> FileState,
)
    requires
        a.len() == b.len(),
        forall|i: int|
            0 <= i < a.len() ==> #[trigger] a[i].checksum == b[i].checksum && a[i].path
                == b[i].path,
        forall|i: int| 0 <= i < a.len() ==> describes(#[trigger] a[i].probe, files(a[i].path)),
        forall|i: int| 0 <= i < b.len() ==> describes(#[trigger] b[i].probe, files(b[i].path)),
    ensures
        statuses(a) == statuses(b),
        exit_code_of(a) == exit_code_of(b),
{
    assert forall|i: int| 0 <= i < a.len() implies statuses(a)[i] == statuses(b)[i] by {
        assert(a[i].checksum == b[i].checksum);
        assert(describes(a[i].probe, files(a[i].path)));
        assert(describes(b[i].probe, files(b[i].path)));
    }
    assert(statuses(a) =~= statuses(b));
}

} // verus!
