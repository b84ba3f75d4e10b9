//! The greeting text shown above the selection list: placeholder
//! substitution in the issue file, the formatters that produce the
//! substituted values, and the parsers that read them from os-release text.

use vstd::prelude::*;

use crate::text::{
    dec_str, first_index_of, int_str, last_index_of, lines_spec, replace_marker,
    replace_marker_spec, split_lines, starts_with, starts_with_str, u64_to_string, i32_to_string,
    find_char, rfind_char,
};

verus! {

/// The values substituted into the issue text, one per placeholder:
/// `%u` logged-in users, `%U` uptime, `%s` operating system, `%n` host,
/// `%m` architecture, `%l` terminal, `%d` date, `%t` time.
pub struct IssueSubstitutions {
    pub users: String,
    pub uptime: String,
    pub os_name: String,
    pub host_name: String,
    pub architecture: String,
    pub tty_name: String,
    pub date: String,
    pub time: String,
}

/// The mathematical value of `IssueSubstitutions`.
pub ghost struct IssueSubstitutionsView {
    pub users: Seq<char>,
    pub uptime: Seq<char>,
    pub os_name: Seq<char>,
    pub host_name: Seq<char>,
    pub architecture: Seq<char>,
    pub tty_name: Seq<char>,
    pub date: Seq<char>,
    pub time: Seq<char>,
}

impl View for IssueSubstitutions {
    type V = IssueSubstitutionsView;

    open spec fn view(&self) -> IssueSubstitutionsView {
        IssueSubstitutionsView {
            users: self.users@,
            uptime: self.uptime@,
            os_name: self.os_name@,
            host_name: self.host_name@,
            architecture: self.architecture@,
            tty_name: self.tty_name@,
            date: self.date@,
            time: self.time@,
        }
    }
}

/// The issue text after all eight placeholder substitutions, applied in
/// order: `%u`, `%U`, `%s`, `%n`, `%m`, `%l`, `%d`, `%t`.
pub open spec fn substituted_issue(content: Seq<char>, subs: IssueSubstitutionsView) -> Seq<char> {
    let r1 = replace_marker_spec(content, 'u', subs.users);
    let r2 = replace_marker_spec(r1, 'U', subs.uptime);
    let r3 = replace_marker_spec(r2, 's', subs.os_name);
    let r4 = replace_marker_spec(r3, 'n', subs.host_name);
    let r5 = replace_marker_spec(r4, 'm', subs.architecture);
    let r6 = replace_marker_spec(r5, 'l', subs.tty_name);
    let r7 = replace_marker_spec(r6, 'd', subs.date);
    replace_marker_spec(r7, 't', subs.time)
}

/// The lines of the substituted issue text.
pub open spec fn issue_lines_spec(content: Seq<char>, subs: IssueSubstitutionsView) -> Seq<
    Seq<char>,
> {
    lines_spec(substituted_issue(content, subs))
}

/// Substitutes the placeholders into the issue text, in a fixed order, and
/// splits the result into lines for the screen.
pub fn process_issue_content(issue_content: String, subs: &IssueSubstitutions) -> (r: Vec<String>)
    ensures
        r.deep_view() == issue_lines_spec(issue_content@, subs@),
{
    let r1 = replace_marker(issue_content.as_str(), 'u', subs.users.as_str());
    let r2 = replace_marker(r1.as_str(), 'U', subs.uptime.as_str());
    let r3 = replace_marker(r2.as_str(), 's', subs.os_name.as_str());
    let r4 = replace_marker(r3.as_str(), 'n', subs.host_name.as_str());
    let r5 = replace_marker(r4.as_str(), 'm', subs.architecture.as_str());
    let r6 = replace_marker(r5.as_str(), 'l', subs.tty_name.as_str());
    let r7 = replace_marker(r6.as_str(), 'd', subs.date.as_str());
    let r8 = replace_marker(r7.as_str(), 't', subs.time.as_str());
    split_lines(r8.as_str())
}

/// A number padded to two digits with a leading zero.
pub open spec fn pad2_spec(n: nat) -> Seq<char> {
    if n < 10 {
        seq!['0'] + dec_str(n)
    } else {
        dec_str(n)
    }
}

/// Formats `n` with at least two digits.
fn pad2(n: u64) -> (r: String)
    ensures
        r@ == pad2_spec(n as nat),
{
    if n < 10 {
        let r = String::from_str("0").concat(u64_to_string(n).as_str());
        proof {
            reveal_strlit("0");
            assert(r@ =~= pad2_spec(n as nat));
        }
        r
    } else {
        u64_to_string(n)
    }
}

/// A clock reading as `HH:MM:SS`, each part zero-padded to two digits.
pub open spec fn hms_spec(h: nat, m: nat, s: nat) -> Seq<char> {
    pad2_spec(h) + seq![':'] + pad2_spec(m) + seq![':'] + pad2_spec(s)
}

/// Formats a clock reading as `HH:MM:SS`.
pub fn format_hms(hour: u32, minute: u32, second: u32) -> (r: String)
    ensures
        r@ == hms_spec(hour as nat, minute as nat, second as nat),
{
    let r = pad2(hour as u64).concat(":").concat(pad2(minute as u64).as_str()).concat(":").concat(
        pad2(second as u64).as_str(),
    );
    proof {
        reveal_strlit(":");
        assert(":"@ =~= seq![':']);
        assert(r@ =~= hms_spec(hour as nat, minute as nat, second as nat));
    }
    r
}

/// A calendar date as `weekday, year-month-day`, the numbers unpadded.
pub open spec fn date_spec(weekday: Seq<char>, year: int, month: nat, day: nat) -> Seq<char> {
    weekday + ", "@ + int_str(year) + "-"@ + dec_str(month) + "-"@ + dec_str(day)
}

/// Formats a calendar date as `weekday, year-month-day`.
pub fn format_date(weekday: &str, year: i32, month: u32, day: u32) -> (r: String)
    ensures
        r@ == date_spec(weekday@, year as int, month as nat, day as nat),
{
    let r = String::from_str(weekday).concat(", ").concat(i32_to_string(year).as_str()).concat(
        "-",
    ).concat(u64_to_string(month as u64).as_str()).concat("-").concat(
        u64_to_string(day as u64).as_str(),
    );
    proof {
        assert(r@ =~= date_spec(weekday@, year as int, month as nat, day as nat));
    }
    r
}

/// An uptime reading as `D days, H hours, M minutes`, computed from whole
/// seconds.
pub open spec fn uptime_spec(seconds: nat) -> Seq<char> {
    dec_str(seconds / 86400) + " days, "@ + dec_str((seconds % 86400) / 3600) + " hours, "@
        + dec_str((seconds % 3600) / 60) + " minutes"@
}

/// Formats an uptime, given in seconds, as days, hours and minutes.
pub fn format_uptime(uptime_seconds: u64) -> (r: String)
    ensures
        r@ == uptime_spec(uptime_seconds as nat),
{
    let days = uptime_seconds / (60 * 60 * 24);
    let hours = (uptime_seconds % (60 * 60 * 24)) / (60 * 60);
    let minutes = (uptime_seconds % (60 * 60)) / 60;
    let r = u64_to_string(days).concat(" days, ").concat(u64_to_string(hours).as_str()).concat(
        " hours, ",
    ).concat(u64_to_string(minutes).as_str()).concat(" minutes");
    proof {
        assert(r@ =~= uptime_spec(uptime_seconds as nat));
    }
    r
}

/// A host identity line: node name, kernel name, kernel release and machine
/// architecture separated by single spaces.
pub open spec fn host_identity_spec(
    nodename: Seq<char>,
    sysname: Seq<char>,
    release: Seq<char>,
    machine: Seq<char>,
) -> Seq<char> {
    nodename + " "@ + sysname + " "@ + release + " "@ + machine
}

/// Formats the four uname fields into one host identity line.
pub fn format_host_identity(nodename: &str, sysname: &str, release: &str, machine: &str) -> (r:
    String)
    ensures
        r@ == host_identity_spec(nodename@, sysname@, release@, machine@),
{
    let r = String::from_str(nodename).concat(" ").concat(sysname).concat(" ").concat(
        release,
    ).concat(" ").concat(machine);
    proof {
        assert(r@ =~= host_identity_spec(nodename@, sysname@, release@, machine@));
    }
    r
}

/// The text between the first and last double quote of `s`, when two
/// distinct quotes exist.
pub open spec fn quoted_part(s: Seq<char>) -> Option<Seq<char>> {
    let a = first_index_of(s, '"', 0);
    let b = last_index_of(s, '"', s.len() - 1);
    if 0 <= a && a < b {
        Some(s.subrange(a + 1, b))
    } else {
        None
    }
}

/// The quoted operating-system name an os-release line offers, when the
/// line carries a `PRETTY_NAME=` or `NAME=` key and a quoted value.
pub open spec fn os_name_of_line(line: Seq<char>) -> Option<Seq<char>> {
    if starts_with(line, "PRETTY_NAME="@) || starts_with(line, "NAME="@) {
        quoted_part(line)
    } else {
        None
    }
}

/// The first os-release line that yields an operating-system name.
pub open spec fn first_os_name(lines: Seq<Seq<char>>) -> Option<Seq<char>>
    decreases lines.len(),
{
    if lines.len() == 0 {
        None
    } else if os_name_of_line(lines[0]) is Some {
        os_name_of_line(lines[0])
    } else {
        first_os_name(lines.drop_first())
    }
}

/// Extracts the text between the first and last quote of `line`, when two
/// distinct quotes exist.
fn quoted_value(line: &str) -> (r: Option<String>)
    ensures
        r matches Some(v) ==> quoted_part(line@) == Some(v@),
        r is None ==> quoted_part(line@) is None,
{
    let a = match find_char(line, '"') {
        Some(a) => a,
        None => {
            return None;
        },
    };
    let b = match rfind_char(line, '"') {
        Some(b) => b,
        None => {
            return None;
        },
    };
    proof {
        lemma_first_index_in_range(line@, '"', 0);
        lemma_last_index_in_range(line@, '"', line@.len() - 1);
    }
    if a < b {
        Some(String::from_str(line.substring_char(a + 1, b)))
    } else {
        None
    }
}

/// A found first index lies inside the string.
proof fn lemma_first_index_in_range(s: Seq<char>, c: char, i: int)
    requires
        first_index_of(s, c, i) != -1,
    ensures
        i <= first_index_of(s, c, i) < s.len(),
        s[first_index_of(s, c, i)] == c,
    decreases s.len() - i,
{
    if 0 <= i < s.len() && s[i] != c {
        lemma_first_index_in_range(s, c, i + 1);
    }
}

/// A found last index lies inside the string.
proof fn lemma_last_index_in_range(s: Seq<char>, c: char, j: int)
    requires
        last_index_of(s, c, j) != -1,
    ensures
        0 <= last_index_of(s, c, j) <= j,
        s[last_index_of(s, c, j)] == c,
    decreases j + 1,
{
    if 0 <= j < s.len() && s[j] != c {
        lemma_last_index_in_range(s, c, j - 1);
    }
}

/// Reads the operating-system name from os-release lines: the quoted value
/// of the first `PRETTY_NAME=` or `NAME=` line that has one, and `Linux`
/// when none does. Lines whose value is not properly quoted are skipped.
pub fn os_name_from_lines(lines: &Vec<String>) -> (r: String)
    ensures
        first_os_name(lines.deep_view()) matches Some(v) ==> r@ == v,
        first_os_name(lines.deep_view()) is None ==> r@ == "Linux"@,
{
    let ghost all = lines.deep_view();
    proof {
        assert(all.skip(0) =~= all);
    }
    let mut i: usize = 0;
    while i < lines.len()
        invariant
            i <= lines.len(),
            all == lines.deep_view(),
            first_os_name(all) == first_os_name(all.skip(i as int)),
        decreases lines.len() - i,
    {
        proof {
            assert(all.skip(i as int)[0] == all[i as int]);
            assert(all.skip(i as int).drop_first() =~= all.skip(i + 1));
        }
        let line = lines[i].as_str();
        if starts_with_str(line, "PRETTY_NAME=") || starts_with_str(line, "NAME=") {
            match quoted_value(line) {
                Some(v) => {
                    return v;
                },
                None => {},
            }
        }
        proof {
            assert(os_name_of_line(all[i as int]) is None);
        }
        i += 1;
    }
    proof {
        assert(all.skip(lines.len() as int) =~= Seq::<Seq<char>>::empty());
    }
    String::from_str("Linux")
}

/// The quoted version an os-release line offers, when the line carries a
/// `VERSION=` key and a quoted value.
pub open spec fn os_version_of_line(line: Seq<char>) -> Option<Seq<char>> {
    if starts_with(line, "VERSION="@) {
        quoted_part(line)
    } else {
        None
    }
}

/// The first os-release line that yields a version.
pub open spec fn first_os_version(lines: Seq<Seq<char>>) -> Option<Seq<char>>
    decreases lines.len(),
{
    if lines.len() == 0 {
        None
    } else if os_version_of_line(lines[0]) is Some {
        os_version_of_line(lines[0])
    } else {
        first_os_version(lines.drop_first())
    }
}

/// Reads the operating-system version from os-release lines: the quoted
/// value of the first `VERSION=` line that has one, and `unknown` when none
/// does.
pub fn os_version_from_lines(lines: &Vec<String>) -> (r: String)
    ensures
        first_os_version(lines.deep_view()) matches Some(v) ==> r@ == v,
        first_os_version(lines.deep_view()) is None ==> r@ == "unknown"@,
{
    let ghost all = lines.deep_view();
    proof {
        assert(all.skip(0) =~= all);
    }
    let mut i: usize = 0;
    while i < lines.len()
        invariant
            i <= lines.len(),
            all == lines.deep_view(),
            first_os_version(all) == first_os_version(all.skip(i as int)),
        decreases lines.len() - i,
    {
        proof {
            assert(all.skip(i as int)[0] == all[i as int]);
            assert(all.skip(i as int).drop_first() =~= all.skip(i + 1));
        }
        let line = lines[i].as_str();
        if starts_with_str(line, "VERSION=") {
            match quoted_value(line) {
                Some(v) => {
                    return v;
                },
                None => {},
            }
        }
        proof {
            assert(os_version_of_line(all[i as int]) is None);
        }
        i += 1;
    }
    proof {
        assert(all.skip(lines.len() as int) =~= Seq::<Seq<char>>::empty());
    }
    String::from_str("unknown")
}

} // verus!
