//! Login-accounting records: fixed-width byte fields keyed by terminal
//! line, the encoding that truncates and pads them, and the ledger
//! operations that create a session record and retire it on teardown.
//!
//! This is the only part of the library that reasons about byte layout;
//! whatever store the records land in copies these fields verbatim.

use vstd::prelude::*;
use vstd::utf8::encode_utf8;

use crate::text::{strip_prefix_repeated, trim_start_matches_str};

verus! {

/// The width of the terminal-line field.
pub const LINE_WIDTH: usize = 32;

/// The width of the record-id field.
pub const ID_WIDTH: usize = 4;

/// The width of the user-name field.
pub const NAME_WIDTH: usize = 32;

/// What a record stands for: a terminal waiting for a login, or a running
/// user session.
#[derive(Clone, Copy, PartialEq, Eq, Structural, Debug)]
pub enum RecordKind {
    LoginPending,
    UserSession,
}

/// The numeric tag the platform's accounting store uses for each kind.
pub open spec fn kind_code_spec(k: RecordKind) -> int {
    match k {
        RecordKind::LoginPending => 6,
        RecordKind::UserSession => 7,
    }
}

/// The store's numeric tag for `k`.
pub fn kind_code(k: RecordKind) -> (r: i16)
    ensures
        r == kind_code_spec(k),
{
    match k {
        RecordKind::LoginPending => 6,
        RecordKind::UserSession => 7,
    }
}

/// `bs` forced to exactly `w` bytes: truncated when longer, padded with
/// zero bytes when shorter.
pub open spec fn fixed_bytes(bs: Seq<u8>, w: nat) -> Seq<u8> {
    Seq::new(
        w,
        |i: int|
            if i < bs.len() {
                bs[i]
            } else {
                0u8
            },
    )
}

/// Encodes `s` into exactly `width` bytes, truncating or zero-padding.
pub fn encode_fixed(s: &str, width: usize) -> (r: Vec<u8>)
    ensures
        r@ == fixed_bytes(encode_utf8(s@), width as nat),
{
    let bs = s.as_bytes_vec();
    let mut out: Vec<u8> = Vec::new();
    let mut i: usize = 0;
    while i < width
        invariant
            i <= width,
            bs@ == encode_utf8(s@),
            out.len() == i,
            forall|j: int|
                0 <= j < i ==> out@[j] == (if j < bs@.len() {
                    bs@[j]
                } else {
                    0u8
                }),
        decreases width - i,
    {
        if i < bs.len() {
            out.push(bs[i]);
        } else {
            out.push(0u8);
        }
        i += 1;
    }
    proof {
        assert(out@ =~= fixed_bytes(encode_utf8(s@), width as nat));
    }
    out
}

/// One accounting record. The byte fields are always exactly their fixed
/// widths; the identity key is `line`.
pub struct AccountingRecord {
    pub line: Vec<u8>,
    pub id: Vec<u8>,
    pub user: Vec<u8>,
    pub pid: i32,
    pub kind: RecordKind,
    pub time_sec: i64,
    pub time_usec: i64,
}

/// The mathematical value of an `AccountingRecord`.
pub ghost struct RecordView {
    pub line: Seq<u8>,
    pub id: Seq<u8>,
    pub user: Seq<u8>,
    pub pid: int,
    pub kind: RecordKind,
    pub time_sec: int,
    pub time_usec: int,
}

impl View for AccountingRecord {
    type V = RecordView;

    open spec fn view(&self) -> RecordView {
        RecordView {
            line: self.line@,
            id: self.id@,
            user: self.user@,
            pid: self.pid as int,
            kind: self.kind,
            time_sec: self.time_sec as int,
            time_usec: self.time_usec as int,
        }
    }
}

impl DeepView for AccountingRecord {
    type V = RecordView;

    open spec fn deep_view(&self) -> RecordView {
        self.view()
    }
}

/// A record's byte fields have their fixed widths.
pub open spec fn record_wf(r: RecordView) -> bool {
    r.line.len() == LINE_WIDTH && r.id.len() == ID_WIDTH && r.user.len() == NAME_WIDTH
}

/// The terminal-line key a device path yields: the path without every
/// leading `/dev/`, encoded into the fixed line width.
pub open spec fn line_key(tty: Seq<char>) -> Seq<u8> {
    fixed_bytes(encode_utf8(strip_prefix_repeated(tty, "/dev/"@)), LINE_WIDTH as nat)
}

/// The record a fresh user session writes: line and id from the terminal,
/// the user name truncated to its field, tagged `UserSession` and stamped
/// with the child pid and the given time.
pub open spec fn user_session_record(
    username: Seq<char>,
    tty: Seq<char>,
    pid: int,
    time_sec: int,
    time_usec: int,
) -> RecordView {
    let t = encode_utf8(strip_prefix_repeated(tty, "/dev/"@));
    RecordView {
        line: fixed_bytes(t, LINE_WIDTH as nat),
        id: fixed_bytes(t, ID_WIDTH as nat),
        user: fixed_bytes(encode_utf8(username), NAME_WIDTH as nat),
        pid: pid,
        kind: RecordKind::UserSession,
        time_sec: time_sec,
        time_usec: time_usec,
    }
}

/// `r` re-tagged as a pending login: kind `LoginPending`, the user field
/// holding the sentinel `LOGIN`, everything else unchanged.
pub open spec fn retired_record(r: RecordView) -> RecordView {
    RecordView {
        user: fixed_bytes(encode_utf8("LOGIN"@), NAME_WIDTH as nat),
        kind: RecordKind::LoginPending,
        ..r
    }
}

impl AccountingRecord {
    /// Builds the record for a confirmed session spawn.
    pub fn user_session(
        username: &str,
        tty: &str,
        pid: i32,
        time_sec: i64,
        time_usec: i64,
    ) -> (r: AccountingRecord)
        ensures
            r@ == user_session_record(username@, tty@, pid as int, time_sec as int, time_usec as int),
            record_wf(r@),
    {
        let short = trim_start_matches_str(tty, "/dev/");
        AccountingRecord {
            line: encode_fixed(short, LINE_WIDTH),
            id: encode_fixed(short, ID_WIDTH),
            user: encode_fixed(username, NAME_WIDTH),
            pid,
            kind: RecordKind::UserSession,
            time_sec,
            time_usec,
        }
    }
}

/// Byte-for-byte equality of two byte vectors.
fn bytes_eq(a: &Vec<u8>, b: &Vec<u8>) -> (r: bool)
    ensures
        r == (a@ == b@),
{
    if a.len() != b.len() {
        assert(a@ != b@);
        return false;
    }
    let mut i: usize = 0;
    while i < a.len()
        invariant
            i <= a.len(),
            a.len() == b.len(),
            forall|j: int| 0 <= j < i ==> a@[j] == b@[j],
        decreases a.len() - i,
    {
        if a[i] != b[i] {
            assert(a@ != b@);
            return false;
        }
        i += 1;
    }
    proof {
        assert(a@ =~= b@);
    }
    true
}

/// The position of the first record keyed by `line`, or `-1`.
pub open spec fn first_line_match(records: Seq<RecordView>, line: Seq<u8>, i: int) -> int
    decreases records.len() - i,
{
    if i < 0 || i >= records.len() {
        -1
    } else if records[i].line == line {
        i
    } else {
        first_line_match(records, line, i + 1)
    }
}

/// The store after a fresh user session is recorded: the new record
/// replaces the one keyed by the same terminal line, or is appended.
pub open spec fn recorded(
    records: Seq<RecordView>,
    username: Seq<char>,
    tty: Seq<char>,
    pid: int,
    time_sec: int,
    time_usec: int,
) -> Seq<RecordView> {
    let rec = user_session_record(username, tty, pid, time_sec, time_usec);
    let idx = first_line_match(records, rec.line, 0);
    if idx >= 0 {
        records.update(idx, rec)
    } else {
        records.push(rec)
    }
}

/// The store after this terminal's record is retired; unchanged when the
/// terminal has none.
pub open spec fn retired(records: Seq<RecordView>, tty: Seq<char>) -> Seq<RecordView> {
    let idx = first_line_match(records, line_key(tty), 0);
    if idx >= 0 {
        records.update(idx, retired_record(records[idx]))
    } else {
        records
    }
}

/// The set of records the platform's accounting store holds, one per
/// terminal line in ordinary operation. The ledger only models the store;
/// whoever owns the real store applies the same update to it.
pub struct Ledger {
    pub records: Vec<AccountingRecord>,
}

impl View for Ledger {
    type V = Seq<RecordView>;

    open spec fn view(&self) -> Seq<RecordView> {
        self.records.deep_view()
    }
}

impl Ledger {
    /// Every record has well-formed field widths.
    pub open spec fn wf(&self) -> bool {
        forall|i: int| 0 <= i < self@.len() ==> record_wf(#[trigger] self@[i])
    }

    /// An empty ledger.
    pub fn new() -> (r: Ledger)
        ensures
            r@ == Seq::<RecordView>::empty(),
            r.wf(),
    {
        let r = Ledger { records: Vec::new() };
        proof {
            assert(r@ =~= Seq::<RecordView>::empty());
        }
        r
    }

    /// Finds the position of the record keyed by `line`.
    fn find_line(&self, line: &Vec<u8>) -> (r: Option<usize>)
        ensures
            r matches Some(i) ==> first_line_match(self@, line@, 0) == i && i < self@.len(),
            r is None ==> first_line_match(self@, line@, 0) == -1,
    {
        let mut i: usize = 0;
        while i < self.records.len()
            invariant
                i <= self.records.len(),
                first_line_match(self@, line@, 0) == first_line_match(self@, line@, i as int),
            decreases self.records.len() - i,
        {
            if bytes_eq(&self.records[i].line, line) {
                return Some(i);
            }
            i += 1;
        }
        None
    }

    /// Writes the record of a fresh user session: the record replaces the
    /// one keyed by the same terminal line, or is appended when the line
    /// has none yet.
    pub fn record_login(
        &mut self,
        username: &str,
        tty: &str,
        pid: i32,
        time_sec: i64,
        time_usec: i64,
    )
        ensures
            final(self)@ == recorded(
                old(self)@,
                username@,
                tty@,
                pid as int,
                time_sec as int,
                time_usec as int,
            ),
            old(self).wf() ==> final(self).wf(),
    {
        let rec = AccountingRecord::user_session(username, tty, pid, time_sec, time_usec);
        let ghost pre = self@;
        match self.find_line(&rec.line) {
            Some(i) => {
                self.records.set(i, rec);
                proof {
                    assert(self@ =~= pre.update(i as int, user_session_record(
                        username@,
                        tty@,
                        pid as int,
                        time_sec as int,
                        time_usec as int,
                    )));
                }
            },
            None => {
                self.records.push(rec);
                proof {
                    assert(self@ =~= pre.push(user_session_record(
                        username@,
                        tty@,
                        pid as int,
                        time_sec as int,
                        time_usec as int,
                    )));
                }
            },
        }
    }

    /// Retires the record of this terminal line: re-tags it `LoginPending`
    /// under the sentinel `LOGIN` user, leaving pid and timestamp in place.
    /// A terminal without a record is left alone.
    pub fn retire_login(&mut self, tty: &str)
        ensures
            final(self)@ == retired(old(self)@, tty@),
            old(self).wf() ==> final(self).wf(),
    {
        let short = trim_start_matches_str(tty, "/dev/");
        let key = encode_fixed(short, LINE_WIDTH);
        let ghost pre = self@;
        match self.find_line(&key) {
            Some(i) => {
                proof {
                    lemma_first_line_match_in_range(pre, key@, 0);
                }
                let old_rec = &self.records[i];
                let updated = AccountingRecord {
                    line: encode_fixed(short, LINE_WIDTH),
                    id: copy_bytes(&old_rec.id),
                    user: encode_fixed("LOGIN", NAME_WIDTH),
                    pid: old_rec.pid,
                    kind: RecordKind::LoginPending,
                    time_sec: old_rec.time_sec,
                    time_usec: old_rec.time_usec,
                };
                proof {
                    reveal_strlit("LOGIN");
                    assert(pre[i as int].line == key@);
                    assert(updated@ == retired_record(pre[i as int]));
                }
                self.records.set(i, updated);
                proof {
                    assert(self@ =~= pre.update(i as int, retired_record(pre[i as int])));
                }
            },
            None => {
                proof {
                    assert(self@ =~= pre);
                }
            },
        }
    }
}

/// A found line match lies inside the ledger and matches the key.
proof fn lemma_first_line_match_in_range(records: Seq<RecordView>, line: Seq<u8>, i: int)
    requires
        first_line_match(records, line, i) != -1,
    ensures
        i <= first_line_match(records, line, i) < records.len(),
        records[first_line_match(records, line, i)].line == line,
    decreases records.len() - i,
{
    if 0 <= i < records.len() && records[i].line != line {
        lemma_first_line_match_in_range(records, line, i + 1);
    }
}

/// Copies a byte vector.
fn copy_bytes(a: &Vec<u8>) -> (r: Vec<u8>)
    ensures
        r@ == a@,
{
    let mut out: Vec<u8> = Vec::new();
    let mut i: usize = 0;
    while i < a.len()
        invariant
            i <= a.len(),
            out@ =~= a@.take(i as int),
        decreases a.len() - i,
    {
        out.push(a[i]);
        proof {
            assert(out@ =~= a@.take(i + 1));
        }
        i += 1;
    }
    proof {
        assert(a@.take(a@.len() as int) =~= a@);
    }
    out
}

} // verus!
