//! The session process environment, built deterministically from the
//! authenticated account and the chosen session, and the small parsers that
//! read terminal and seat facts out of system-supplied text.

use vstd::prelude::*;

use crate::session::{Session, SessionView, type_label};
use crate::text::{
    all_digits, dec_str, digits_val, int_str, is_digit, parse_i32_digits, split_ws_spec,
    split_whitespace_vec, str_eq_str, strip_prefix_repeated, trim_spec, trim_str,
    trim_start_matches_str, i32_to_string, u64_to_string,
};
use crate::user::{User, UserView};

verus! {

/// The runtime directory of a user: `/run/user/` followed by the uid.
pub open spec fn runtime_dir_spec(uid: nat) -> Seq<char> {
    "/run/user/"@ + dec_str(uid)
}

/// The XDG data directory under a home directory.
pub open spec fn data_home_spec(home: Seq<char>) -> Seq<char> {
    home + "/.local/share"@
}

/// The XDG configuration directory under a home directory.
pub open spec fn config_home_spec(home: Seq<char>) -> Seq<char> {
    home + "/.config"@
}

/// The XDG cache directory under a home directory.
pub open spec fn cache_home_spec(home: Seq<char>) -> Seq<char> {
    home + "/.cache"@
}

/// The value of an optional number with `0` for absence.
pub open spec fn opt_or_zero(v: Option<i32>) -> int {
    match v {
        Some(n) => n as int,
        None => 0,
    }
}

/// The complete session environment: identity variables first, then the
/// session-presentation variables, in a fixed order.
pub open spec fn session_env_spec(
    u: UserView,
    s: SessionView,
    vtnr: int,
    seat: Seq<char>,
    session_id: int,
) -> Seq<(Seq<char>, Seq<char>)> {
    seq![
        ("SHELL"@, u.shell),
        ("LOGNAME"@, u.name),
        ("USER"@, u.name),
        ("PWD"@, u.homedir),
        ("HOME"@, u.homedir),
        ("XDG_SESSION_TYPE"@, type_label(s.session_type)),
        ("XDG_CURRENT_DESKTOP"@, s.name),
        ("XDG_DATA_HOME"@, data_home_spec(u.homedir)),
        ("XDG_CONFIG_HOME"@, config_home_spec(u.homedir)),
        ("XDG_CACHE_HOME"@, cache_home_spec(u.homedir)),
        ("XDG_SESSION_CLASS"@, "user"@),
        ("XDG_RUNTIME_DIR"@, runtime_dir_spec(u.uid as nat)),
        ("XDG_VTNR"@, int_str(vtnr)),
        ("XDG_SEAT"@, seat),
        ("XDG_SESSION_ID"@, int_str(session_id)),
    ]
}

/// The environment is a pure function of its inputs: any two environments
/// derived from the same account, session, terminal number, seat and
/// session id are identical, including every derived directory path.
pub proof fn lemma_env_deterministic(
    u: UserView,
    s: SessionView,
    vtnr: int,
    seat: Seq<char>,
    session_id: int,
    r1: Seq<(Seq<char>, Seq<char>)>,
    r2: Seq<(Seq<char>, Seq<char>)>,
)
    requires
        r1 == session_env_spec(u, s, vtnr, seat, session_id),
        r2 == session_env_spec(u, s, vtnr, seat, session_id),
    ensures
        r1 == r2,
        r1[11].1 == runtime_dir_spec(u.uid as nat),
        r1[7].1 == data_home_spec(u.homedir),
        r1[8].1 == config_home_spec(u.homedir),
        r1[9].1 == cache_home_spec(u.homedir),
{
}

/// Builds the environment the session process starts with, exactly as
/// `session_env_spec` lays it out: shell, login identity and home from the
/// account; session type and desktop name from the session; XDG paths
/// derived from the home directory and uid; terminal number, seat name and
/// session id as supplied, the numbers falling back to `0` when absent.
pub fn prepare_environment(
    user: &User,
    session: &Session,
    vtnr: Option<i32>,
    seat: &str,
    session_id: Option<i32>,
) -> (r: Vec<(String, String)>)
    ensures
        r.deep_view() == session_env_spec(
            user@,
            session@,
            opt_or_zero(vtnr),
            seat@,
            opt_or_zero(session_id),
        ),
{
    let mut env: Vec<(String, String)> = Vec::new();
    env.push((String::from_str("SHELL"), user.shell.clone()));
    env.push((String::from_str("LOGNAME"), user.name.clone()));
    env.push((String::from_str("USER"), user.name.clone()));
    env.push((String::from_str("PWD"), user.homedir.clone()));
    env.push((String::from_str("HOME"), user.homedir.clone()));
    env.push((String::from_str("XDG_SESSION_TYPE"), String::from_str(session.session_type.label())));
    env.push((String::from_str("XDG_CURRENT_DESKTOP"), session.name.clone()));
    env.push((String::from_str("XDG_DATA_HOME"), user.homedir.clone().concat("/.local/share")));
    env.push((String::from_str("XDG_CONFIG_HOME"), user.homedir.clone().concat("/.config")));
    env.push((String::from_str("XDG_CACHE_HOME"), user.homedir.clone().concat("/.cache")));
    env.push((String::from_str("XDG_SESSION_CLASS"), String::from_str("user")));
    env.push((String::from_str("XDG_RUNTIME_DIR"), String::from_str("/run/user/").concat(
        u64_to_string(user.uid as u64).as_str(),
    )));
    let vt = match vtnr {
        Some(n) => n,
        None => 0,
    };
    env.push((String::from_str("XDG_VTNR"), i32_to_string(vt)));
    env.push((String::from_str("XDG_SEAT"), String::from_str(seat)));
    let sid = match session_id {
        Some(n) => n,
        None => 0,
    };
    env.push((String::from_str("XDG_SESSION_ID"), i32_to_string(sid)));
    proof {
        assert(env.deep_view() =~= session_env_spec(
            user@,
            session@,
            opt_or_zero(vtnr),
            seat@,
            opt_or_zero(session_id),
        ));
    }
    env
}

/// The terminal's short name: the device path without every leading `/dev/`.
pub fn get_tty_name(tty_path: &str) -> (r: String)
    ensures
        r@ == strip_prefix_repeated(tty_path@, "/dev/"@),
{
    String::from_str(trim_start_matches_str(tty_path, "/dev/"))
}

/// The length of the digit run that ends `s`.
pub open spec fn digit_suffix_len(s: Seq<char>) -> int
    decreases s.len(),
{
    if s.len() == 0 || !is_digit(s.last()) {
        0
    } else {
        1 + digit_suffix_len(s.drop_last())
    }
}

/// The digit run that ends `s`.
pub open spec fn digit_suffix(s: Seq<char>) -> Seq<char> {
    s.subrange(s.len() - digit_suffix_len(s), s.len() as int)
}

/// The terminal number: the value of the digit run that ends the device
/// path, when there is one and it fits an `i32`.
pub fn get_tty_nr(tty: &str) -> (r: Option<i32>)
    ensures
        r matches Some(v) ==> digit_suffix_len(tty@) > 0 && v == digits_val(digit_suffix(tty@)),
        r is None ==> digit_suffix_len(tty@) == 0 || digits_val(digit_suffix(tty@)) > i32::MAX,
{
    let len = tty.unicode_len();
    let mut j: usize = len;
    proof {
        assert(tty@.take(len as int) =~= tty@);
    }
    while j > 0 && is_digit_char(tty.get_char(j - 1))
        invariant
            j <= len,
            len == tty@.len(),
            forall|k: int| j <= k < len ==> is_digit(#[trigger] tty@[k]),
            digit_suffix_len(tty@) == digit_suffix_len(tty@.take(j as int)) + (len - j),
        decreases j,
    {
        proof {
            assert(tty@.take(j as int).last() == tty@[j - 1]);
            assert(tty@.take(j as int).drop_last() =~= tty@.take(j - 1));
        }
        j -= 1;
    }
    proof {
        if j > 0 {
            assert(tty@.take(j as int).last() == tty@[j - 1]);
        }
        assert(digit_suffix_len(tty@.take(j as int)) == 0);
        assert(digit_suffix(tty@) =~= tty@.subrange(j as int, len as int));
    }
    if j == len {
        return None;
    }
    let suffix = tty.substring_char(j, len);
    parse_i32_digits(suffix)
}

/// Whether `c` is a decimal digit.
fn is_digit_char(c: char) -> (r: bool)
    ensures
        r == is_digit(c),
{
    '0' <= c && c <= '9'
}

/// Whether a session-registry row names this terminal and account: at least
/// five columns, the fifth the terminal, the third the account.
pub open spec fn session_row_matches(line: Seq<char>, tty: Seq<char>, user: Seq<char>) -> bool {
    let c = split_ws_spec(line);
    c.len() > 4 && c[4] == tty && c[2] == user
}

/// The first column of the first matching session-registry row.
pub open spec fn first_session_row(
    lines: Seq<Seq<char>>,
    tty: Seq<char>,
    user: Seq<char>,
) -> Option<Seq<char>>
    decreases lines.len(),
{
    if lines.len() == 0 {
        None
    } else if session_row_matches(lines[0], tty, user) {
        Some(split_ws_spec(lines[0])[0])
    } else {
        first_session_row(lines.drop_first(), tty, user)
    }
}

/// The parse of a digit string into an `i32`, when it is one and fits.
pub open spec fn parse_i32_spec(s: Seq<char>) -> Option<int> {
    if s.len() > 0 && all_digits(s) && digits_val(s) <= i32::MAX {
        Some(digits_val(s))
    } else {
        None
    }
}

/// Looks the session id up in session-registry rows (columns `SESSION UID
/// USER SEAT TTY ...`): the first row whose terminal and account match
/// decides, and its first column must be a number.
pub fn get_session_id(lines: &Vec<String>, tty_name: &str, user_name: &str) -> (r: Option<i32>)
    ensures
        ({
            let row = first_session_row(lines.deep_view(), tty_name@, user_name@);
            match row {
                None => r is None,
                Some(c0) => (r matches Some(v) && parse_i32_spec(c0) == Some(v as int)) || (r
                    is None && parse_i32_spec(c0) is None),
            }
        }),
{
    let ghost all = lines.deep_view();
    proof {
        assert(all.skip(0) =~= all);
    }
    let mut i: usize = 0;
    while i < lines.len()
        invariant
            i <= lines.len(),
            all == lines.deep_view(),
            first_session_row(all, tty_name@, user_name@) == first_session_row(
                all.skip(i as int),
                tty_name@,
                user_name@,
            ),
        decreases lines.len() - i,
    {
        proof {
            assert(all.skip(i as int)[0] == all[i as int]);
            assert(all.skip(i as int).drop_first() =~= all.skip(i + 1));
        }
        let columns = split_whitespace_vec(lines[i].as_str());
        if columns.len() > 4 && str_eq_str(columns[4].as_str(), tty_name) && str_eq_str(
            columns[2].as_str(),
            user_name,
        ) {
            let r = parse_i32_digits(columns[0].as_str());
            proof {
                assert(session_row_matches(all[i as int], tty_name@, user_name@));
                assert(first_session_row(all, tty_name@, user_name@) == Some(
                    split_ws_spec(all[i as int])[0],
                ));
            }
            return r;
        }
        proof {
            assert(!session_row_matches(all[i as int], tty_name@, user_name@));
        }
        i += 1;
    }
    proof {
        assert(all.skip(lines.len() as int) =~= Seq::<Seq<char>>::empty());
    }
    None
}

/// The seat name from a seat-status query: the trimmed first output line
/// when the query succeeded and printed anything, and `seat0` otherwise.
pub fn seat_name_from_status(success: bool, stdout_lines: &Vec<String>) -> (r: String)
    ensures
        success && stdout_lines.deep_view().len() > 0 ==> r@ == trim_spec(
            stdout_lines.deep_view()[0],
        ),
        !(success && stdout_lines.deep_view().len() > 0) ==> r@ == "seat0"@,
{
    if success && stdout_lines.len() > 0 {
        String::from_str(trim_str(stdout_lines[0].as_str()))
    } else {
        String::from_str("seat0")
    }
}

} // verus!
