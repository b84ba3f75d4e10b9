//! Eligible login accounts, parsed from passwd-style records and a list of
//! permitted shells.

use vstd::prelude::*;

use crate::text::{
    all_digits, digits_val, has_string, split_char_spec, split_on_char, parse_usize_or_zero,
    trim_spec, trim_str, strvec_contains,
};

verus! {

/// An account that may open a session: identity, group, home and shell.
pub struct User {
    pub name: String,
    pub uid: usize,
    pub gid: usize,
    pub gecos: String,
    pub homedir: String,
    pub shell: String,
}

/// The mathematical value of a `User`.
pub ghost struct UserView {
    pub name: Seq<char>,
    pub uid: int,
    pub gid: int,
    pub gecos: Seq<char>,
    pub homedir: Seq<char>,
    pub shell: Seq<char>,
}

impl View for User {
    type V = UserView;

    open spec fn view(&self) -> UserView {
        UserView {
            name: self.name@,
            uid: self.uid as int,
            gid: self.gid as int,
            gecos: self.gecos@,
            homedir: self.homedir@,
            shell: self.shell@,
        }
    }
}

impl DeepView for User {
    type V = UserView;

    open spec fn deep_view(&self) -> UserView {
        self.view()
    }
}

/// The value of a numeric passwd field: the digits' value when the field is a
/// plain digit string that fits a `usize`, and `0` otherwise.
pub open spec fn field_num(s: Seq<char>) -> int {
    if s.len() > 0 && all_digits(s) && digits_val(s) <= usize::MAX {
        digits_val(s)
    } else {
        0
    }
}

/// The account a passwd line describes, when the line is neither empty, a
/// comment, nor malformed (a passwd record has exactly seven fields).
pub open spec fn parsed_user(line: Seq<char>) -> Option<UserView> {
    if line.len() == 0 || line[0] == '#' {
        None
    } else {
        let f = split_char_spec(line, ':');
        if f.len() != 7 {
            None
        } else {
            Some(
                UserView {
                    name: f[0],
                    uid: field_num(f[2]),
                    gid: field_num(f[3]),
                    gecos: f[4],
                    homedir: f[5],
                    shell: f[6],
                },
            )
        }
    }
}

/// Whether an account with this uid may be offered for login.
pub open spec fn eligible_uid(uid: int, min_uid: int, include_root: bool) -> bool {
    if include_root {
        uid == 0 || uid >= min_uid
    } else {
        uid >= min_uid
    }
}

/// Whether the passwd line contributes an account to the selection list.
pub open spec fn line_kept(
    line: Seq<char>,
    shells: Seq<Seq<char>>,
    min_uid: int,
    include_root: bool,
) -> bool {
    match parsed_user(line) {
        Some(u) => eligible_uid(u.uid, min_uid, include_root) && has_string(shells, u.shell),
        None => false,
    }
}

/// The accounts kept from `lines`, in order.
pub open spec fn valid_users_spec(
    lines: Seq<Seq<char>>,
    shells: Seq<Seq<char>>,
    min_uid: int,
    include_root: bool,
) -> Seq<UserView>
    decreases lines.len(),
{
    if lines.len() == 0 {
        seq![]
    } else {
        let rest = valid_users_spec(lines.drop_last(), shells, min_uid, include_root);
        if line_kept(lines.last(), shells, min_uid, include_root) {
            rest + seq![parsed_user(lines.last())->Some_0]
        } else {
            rest
        }
    }
}

/// Parses passwd-style lines and keeps every account whose uid passes the
/// `min_uid`/`include_root` rule and whose shell occurs in `shells`.
/// Empty lines, comment lines and lines without exactly seven `:`-separated
/// fields are skipped; a uid or gid field that is not a plain digit string
/// counts as `0`.
pub fn parse_valid_users(
    passwd_lines: &Vec<String>,
    shells: &Vec<String>,
    min_uid: usize,
    include_root: bool,
) -> (r: Vec<User>)
    ensures
        r.deep_view() == valid_users_spec(
            passwd_lines.deep_view(),
            shells.deep_view(),
            min_uid as int,
            include_root,
        ),
{
    let ghost all = passwd_lines.deep_view();
    let mut out: Vec<User> = Vec::new();
    let mut i: usize = 0;
    while i < passwd_lines.len()
        invariant
            i <= passwd_lines.len(),
            all == passwd_lines.deep_view(),
            out.deep_view() == valid_users_spec(
                all.take(i as int),
                shells.deep_view(),
                min_uid as int,
                include_root,
            ),
        decreases passwd_lines.len() - i,
    {
        let line = passwd_lines[i].as_str();
        proof {
            assert(all.take(i + 1).drop_last() =~= all.take(i as int));
            assert(all.take(i + 1).last() == line@);
        }
        let len = line.unicode_len();
        if len > 0 && line.get_char(0) != '#' {
            let fields = split_on_char(line, ':');
            if fields.len() == 7 {
                let uid = parse_usize_or_zero(fields[2].as_str());
                let gid = parse_usize_or_zero(fields[3].as_str());
                let keep_uid = if include_root {
                    uid == 0 || uid >= min_uid
                } else {
                    uid >= min_uid
                };
                if keep_uid && strvec_contains(shells, fields[6].as_str()) {
                    let ghost pre = out.deep_view();
                    let user = User {
                        name: fields[0].clone(),
                        uid,
                        gid,
                        gecos: fields[4].clone(),
                        homedir: fields[5].clone(),
                        shell: fields[6].clone(),
                    };
                    proof {
                        assert(user.deep_view() == parsed_user(line@)->Some_0);
                    }
                    out.push(user);
                    proof {
                        assert(out.deep_view() =~= pre.push(parsed_user(line@)->Some_0));
                        assert(out.deep_view() =~= valid_users_spec(
                            all.take(i + 1),
                            shells.deep_view(),
                            min_uid as int,
                            include_root,
                        ));
                    }
                } else {
                    proof {
                        assert(!line_kept(
                            line@,
                            shells.deep_view(),
                            min_uid as int,
                            include_root,
                        ));
                    }
                }
            }
        }
        i += 1;
        proof {
            assert(out.deep_view() =~= valid_users_spec(
                all.take(i as int),
                shells.deep_view(),
                min_uid as int,
                include_root,
            ));
        }
    }
    proof {
        assert(all.take(passwd_lines.len() as int) =~= all);
    }
    out
}

/// Whether a shells-file line survives trimming: non-empty and no comment.
pub open spec fn shell_line_kept(line: Seq<char>) -> bool {
    trim_spec(line).len() > 0 && trim_spec(line)[0] != '#'
}

/// The trimmed shells taken from `lines`, in order.
pub open spec fn shells_base_spec(lines: Seq<Seq<char>>) -> Seq<Seq<char>>
    decreases lines.len(),
{
    if lines.len() == 0 {
        seq![]
    } else {
        let rest = shells_base_spec(lines.drop_last());
        if shell_line_kept(lines.last()) {
            rest + seq![trim_spec(lines.last())]
        } else {
            rest
        }
    }
}

/// `shells` with `d` appended when absent.
pub open spec fn with_default_shell(shells: Seq<Seq<char>>, d: Seq<char>) -> Seq<Seq<char>> {
    if has_string(shells, d) {
        shells
    } else {
        shells + seq![d]
    }
}

/// The shell list `lines` yields: each non-empty, non-comment line trimmed,
/// then `/bin/bash` and `/bin/sh` appended when absent.
pub open spec fn valid_shells_spec(lines: Seq<Seq<char>>) -> Seq<Seq<char>> {
    with_default_shell(with_default_shell(shells_base_spec(lines), "/bin/bash"@), "/bin/sh"@)
}

/// Reads the permitted shells from shells-file lines, trimming whitespace,
/// dropping blank and comment lines, and ensuring the two stock shells are
/// always present.
pub fn load_valid_shells(lines: &Vec<String>) -> (r: Vec<String>)
    ensures
        r.deep_view() == valid_shells_spec(lines.deep_view()),
{
    let ghost all = lines.deep_view();
    let mut shells: Vec<String> = Vec::new();
    let mut i: usize = 0;
    while i < lines.len()
        invariant
            i <= lines.len(),
            all == lines.deep_view(),
            shells.deep_view() == shells_base_spec(all.take(i as int)),
        decreases lines.len() - i,
    {
        proof {
            assert(all.take(i + 1).drop_last() =~= all.take(i as int));
            assert(all.take(i + 1).last() == lines.deep_view()[i as int]);
        }
        let trimmed = trim_str(lines[i].as_str());
        let tlen = trimmed.unicode_len();
        if tlen > 0 && trimmed.get_char(0) != '#' {
            let ghost pre = shells.deep_view();
            shells.push(String::from_str(trimmed));
            proof {
                assert(shells.deep_view() =~= pre.push(trim_spec(all[i as int])));
                assert(shells.deep_view() =~= shells_base_spec(all.take(i + 1)));
            }
        }
        i += 1;
        proof {
            assert(shells.deep_view() =~= shells_base_spec(all.take(i as int)));
        }
    }
    proof {
        assert(all.take(lines.len() as int) =~= all);
    }
    if !strvec_contains(&shells, "/bin/bash") {
        let ghost pre = shells.deep_view();
        shells.push(String::from_str("/bin/bash"));
        proof {
            assert(shells.deep_view() =~= pre + seq!["/bin/bash"@]);
        }
    }
    if !strvec_contains(&shells, "/bin/sh") {
        let ghost pre = shells.deep_view();
        shells.push(String::from_str("/bin/sh"));
        proof {
            assert(shells.deep_view() =~= pre + seq!["/bin/sh"@]);
        }
    }
    shells
}

} // verus!
