//! The remembered default selection: which account and which session the
//! selection list should highlight first.

use vstd::prelude::*;

use crate::session::Session;
use crate::user::User;
use crate::text::str_eq_str;

verus! {

/// Why a stored selection could not be used.
#[derive(Clone, Copy, PartialEq, Eq, Structural, Debug)]
pub enum SelectionError {
    /// The stored selection has fewer than the two expected lines.
    Malformed,
}

/// Reads the last-used account and session names from the stored selection's
/// lines: the first line names the account, the second the session.
pub fn read_last_usage(lines: &Vec<String>) -> (r: Result<(String, String), SelectionError>)
    ensures
        r matches Ok(p) ==> lines.deep_view().len() >= 2 && p.0@ == lines.deep_view()[0] && p.1@
            == lines.deep_view()[1],
        r is Err ==> lines.deep_view().len() < 2,
{
    if lines.len() < 2 {
        return Err(SelectionError::Malformed);
    }
    Ok((lines[0].clone(), lines[1].clone()))
}

/// The index of the first account named `name`, if any.
fn index_of_user_name(users: &Vec<User>, name: &str) -> (r: Option<usize>)
    ensures
        r matches Some(i) ==> i < users.len() && users.deep_view()[i as int].name == name@ && (
        forall|j: int| 0 <= j < i ==> users.deep_view()[j].name != name@),
        r is None ==> forall|j: int| 0 <= j < users.len() ==> users.deep_view()[j].name != name@,
{
    let mut i: usize = 0;
    while i < users.len()
        invariant
            i <= users.len(),
            forall|j: int| 0 <= j < i ==> users.deep_view()[j].name != name@,
        decreases users.len() - i,
    {
        if str_eq_str(users[i].name.as_str(), name) {
            return Some(i);
        }
        i += 1;
    }
    None
}

/// The index of the first session named `name`, if any.
fn index_of_session_name(sessions: &Vec<Session>, name: &str) -> (r: Option<usize>)
    ensures
        r matches Some(i) ==> i < sessions.len() && sessions.deep_view()[i as int].name == name@
            && (forall|j: int| 0 <= j < i ==> sessions.deep_view()[j].name != name@),
        r is None ==> forall|j: int|
            0 <= j < sessions.len() ==> sessions.deep_view()[j].name != name@,
{
    let mut i: usize = 0;
    while i < sessions.len()
        invariant
            i <= sessions.len(),
            forall|j: int| 0 <= j < i ==> sessions.deep_view()[j].name != name@,
        decreases sessions.len() - i,
    {
        if str_eq_str(sessions[i].name.as_str(), name) {
            return Some(i);
        }
        i += 1;
    }
    None
}

/// Resolves the stored selection to list positions: the first account and
/// session whose names match the stored lines, each falling back to `0`
/// when absent. Fails only when the stored selection is malformed.
pub fn get_default_indices(lines: &Vec<String>, users: &Vec<User>, sessions: &Vec<Session>) -> (r:
    Result<(usize, usize), SelectionError>)
    ensures
        r matches Ok(p) ==> {
            &&& lines.deep_view().len() >= 2
            &&& ({
                ||| (p.0 < users.len() && users.deep_view()[p.0 as int].name
                    == lines.deep_view()[0] && (forall|j: int|
                    0 <= j < p.0 ==> users.deep_view()[j].name != lines.deep_view()[0]))
                ||| (p.0 == 0 && forall|j: int|
                    0 <= j < users.len() ==> users.deep_view()[j].name != lines.deep_view()[0])
            })
            &&& ({
                ||| (p.1 < sessions.len() && sessions.deep_view()[p.1 as int].name
                    == lines.deep_view()[1] && (forall|j: int|
                    0 <= j < p.1 ==> sessions.deep_view()[j].name != lines.deep_view()[1]))
                ||| (p.1 == 0 && forall|j: int|
                    0 <= j < sessions.len() ==> sessions.deep_view()[j].name
                        != lines.deep_view()[1])
            })
        },
        r is Err ==> lines.deep_view().len() < 2,
{
    let (default_username, default_session) = match read_last_usage(lines) {
        Ok(p) => p,
        Err(e) => {
            return Err(e);
        },
    };
    let user_index = match index_of_user_name(users, default_username.as_str()) {
        Some(i) => i,
        None => 0,
    };
    let session_index = match index_of_session_name(sessions, default_session.as_str()) {
        Some(i) => i,
        None => 0,
    };
    Ok((user_index, session_index))
}

/// Renders a selection for storage: the account name on the first line, the
/// session name on the second.
pub fn format_selection(user_name: &str, session_name: &str) -> (r: String)
    ensures
        r@ == user_name@ + seq!['\n'] + session_name@ + seq!['\n'],
{
    let r = String::from_str(user_name).concat("\n").concat(session_name).concat("\n");
    proof {
        reveal_strlit("\n");
        assert("\n"@ =~= seq!['\n']);
        assert(r@ =~= user_name@ + seq!['\n'] + session_name@ + seq!['\n']);
    }
    r
}

} // verus!
