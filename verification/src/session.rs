//! Session descriptors and the parsers that discover them: login shells from
//! a shells file and desktop entries from X11 and Wayland session folders.

use vstd::prelude::*;

use crate::text::{ends_with, split_char_spec, split_on_char, starts_with, starts_with_str, ends_with_str};

verus! {

/// How a session presents itself once launched.
#[derive(Clone, Copy, PartialEq, Eq, Structural, Debug)]
pub enum SessionType {
    X11,
    Wayland,
    Shell,
}

impl SessionType {
    /// The session-type tag handed to the session environment:
    /// `x11`, `wayland`, or `tty`.
    pub fn label(&self) -> (r: &'static str)
        ensures
            r@ == type_label(*self),
    {
        proof {
            reveal_strlit("x11");
            reveal_strlit("wayland");
            reveal_strlit("tty");
        }
        match self {
            SessionType::X11 => "x11",
            SessionType::Wayland => "wayland",
            SessionType::Shell => "tty",
        }
    }
}

/// The environment tag of each session type.
pub open spec fn type_label(t: SessionType) -> Seq<char> {
    match t {
        SessionType::X11 => "x11"@,
        SessionType::Wayland => "wayland"@,
        SessionType::Shell => "tty"@,
    }
}

/// A launchable session: display name, command, and presentation type.
pub struct Session {
    pub name: String,
    pub cmd: String,
    pub session_type: SessionType,
}

/// The mathematical value of a `Session`.
pub ghost struct SessionView {
    pub name: Seq<char>,
    pub cmd: Seq<char>,
    pub session_type: SessionType,
}

impl View for Session {
    type V = SessionView;

    open spec fn view(&self) -> SessionView {
        SessionView { name: self.name@, cmd: self.cmd@, session_type: self.session_type }
    }
}

impl DeepView for Session {
    type V = SessionView;

    open spec fn deep_view(&self) -> SessionView {
        self.view()
    }
}

/// The session a shells-file line yields: any line naming an absolute path
/// becomes a shell session whose display name is the path's final component.
pub open spec fn shell_session_of(line: Seq<char>) -> SessionView {
    SessionView {
        name: split_char_spec(line, '/').last(),
        cmd: line,
        session_type: SessionType::Shell,
    }
}

/// The shell sessions taken from `lines`, in order.
pub open spec fn shell_sessions_spec(lines: Seq<Seq<char>>) -> Seq<SessionView>
    decreases lines.len(),
{
    if lines.len() == 0 {
        seq![]
    } else {
        let rest = shell_sessions_spec(lines.drop_last());
        if lines.last().len() > 0 && lines.last()[0] == '/' {
            rest + seq![shell_session_of(lines.last())]
        } else {
            rest
        }
    }
}

/// Turns shells-file lines into shell sessions: every line that starts with
/// `/` is kept, named after its last path component.
pub fn parse_shell_sessions(lines: &Vec<String>) -> (r: Vec<Session>)
    ensures
        r.deep_view() == shell_sessions_spec(lines.deep_view()),
{
    let ghost all = lines.deep_view();
    let mut out: Vec<Session> = Vec::new();
    let mut i: usize = 0;
    while i < lines.len()
        invariant
            i <= lines.len(),
            all == lines.deep_view(),
            out.deep_view() == shell_sessions_spec(all.take(i as int)),
        decreases lines.len() - i,
    {
        proof {
            assert(all.take(i + 1).drop_last() =~= all.take(i as int));
            assert(all.take(i + 1).last() == all[i as int]);
        }
        let line = lines[i].as_str();
        if line.unicode_len() > 0 && line.get_char(0) == '/' {
            let pieces = split_on_char(line, '/');
            let ghost pre = out.deep_view();
            let name = pieces[pieces.len() - 1].clone();
            proof {
                assert(name@ == split_char_spec(line@, '/').last());
            }
            out.push(
                Session { name, cmd: String::from_str(line), session_type: SessionType::Shell },
            );
            proof {
                assert(out.deep_view() =~= pre.push(shell_session_of(all[i as int])));
                assert(out.deep_view() =~= shell_sessions_spec(all.take(i + 1)));
            }
        }
        i += 1;
        proof {
            assert(out.deep_view() =~= shell_sessions_spec(all.take(i as int)));
        }
    }
    proof {
        assert(all.take(lines.len() as int) =~= all);
    }
    out
}

/// The command of the first `Exec=` line, with the key stripped.
pub open spec fn first_exec_command(lines: Seq<Seq<char>>) -> Option<Seq<char>>
    decreases lines.len(),
{
    if lines.len() == 0 {
        None
    } else if starts_with(lines[0], "Exec="@) {
        Some(lines[0].subrange(5, lines[0].len() as int))
    } else {
        first_exec_command(lines.drop_first())
    }
}

/// Finds the command a desktop entry runs: the remainder of its first
/// `Exec=` line, or `None` when no such line exists.
pub fn desktop_exec_command(lines: &Vec<String>) -> (r: Option<String>)
    ensures
        r matches Some(cmd) ==> first_exec_command(lines.deep_view()) == Some(cmd@),
        r is None ==> first_exec_command(lines.deep_view()) is None,
{
    let ghost all = lines.deep_view();
    proof {
        assert(all.skip(0) =~= all);
    }
    let mut i: usize = 0;
    while i < lines.len()
        invariant
            i <= lines.len(),
            all == lines.deep_view(),
            first_exec_command(all) == first_exec_command(all.skip(i as int)),
        decreases lines.len() - i,
    {
        proof {
            reveal_strlit("Exec=");
            assert(all.skip(i as int)[0] == all[i as int]);
            assert(all.skip(i as int).drop_first() =~= all.skip(i + 1));
        }
        let line = lines[i].as_str();
        if starts_with_str(line, "Exec=") {
            let cmd = line.substring_char(5, line.unicode_len());
            proof {
                assert("Exec="@.len() == 5);
            }
            return Some(String::from_str(cmd));
        }
        i += 1;
    }
    proof {
        assert(all.skip(lines.len() as int) =~= Seq::<Seq<char>>::empty());
    }
    None
}

/// A session folder entry: the file's name and its lines.
pub struct DesktopFile {
    pub file_name: String,
    pub lines: Vec<String>,
}

/// The mathematical value of a `DesktopFile`.
pub ghost struct DesktopFileView {
    pub file_name: Seq<char>,
    pub lines: Seq<Seq<char>>,
}

impl View for DesktopFile {
    type V = DesktopFileView;

    open spec fn view(&self) -> DesktopFileView {
        DesktopFileView { file_name: self.file_name@, lines: self.lines.deep_view() }
    }
}

impl DeepView for DesktopFile {
    type V = DesktopFileView;

    open spec fn deep_view(&self) -> DesktopFileView {
        self.view()
    }
}

/// Whether a file name marks a desktop entry: a non-empty stem followed by
/// the `.desktop` suffix.
pub open spec fn is_desktop_file_name(name: Seq<char>) -> bool {
    name.len() > ".desktop"@.len() && ends_with(name, ".desktop"@)
}

/// The session a desktop entry yields when its command is found.
pub open spec fn desktop_session_of(f: DesktopFileView, st: SessionType) -> SessionView {
    SessionView {
        name: f.file_name.subrange(0, f.file_name.len() - ".desktop"@.len()),
        cmd: first_exec_command(f.lines)->Some_0,
        session_type: st,
    }
}

/// The sessions of a folder of desktop entries: every `.desktop` file in
/// order, or `None` as soon as one of them has no `Exec=` line.
pub open spec fn desktop_sessions_spec(entries: Seq<DesktopFileView>, st: SessionType) -> Option<
    Seq<SessionView>,
>
    decreases entries.len(),
{
    if entries.len() == 0 {
        Some(seq![])
    } else {
        match desktop_sessions_spec(entries.drop_last(), st) {
            None => None,
            Some(rest) => {
                let f = entries.last();
                if is_desktop_file_name(f.file_name) {
                    match first_exec_command(f.lines) {
                        None => None,
                        Some(_) => Some(rest + seq![desktop_session_of(f, st)]),
                    }
                } else {
                    Some(rest)
                }
            },
        }
    }
}

/// Reads a session folder's entries: each `.desktop` file becomes a session
/// named after its stem, running the entry's `Exec=` command; an entry
/// without one fails the whole folder.
pub fn parse_sessions_from_directory(entries: &Vec<DesktopFile>, session_type: SessionType) -> (r:
    Option<Vec<Session>>)
    ensures
        r matches Some(v) ==> desktop_sessions_spec(entries.deep_view(), session_type) == Some(
            v.deep_view(),
        ),
        r is None ==> desktop_sessions_spec(entries.deep_view(), session_type) is None,
{
    let ghost all = entries.deep_view();
    let mut out: Vec<Session> = Vec::new();
    let mut i: usize = 0;
    while i < entries.len()
        invariant
            i <= entries.len(),
            all == entries.deep_view(),
            desktop_sessions_spec(all.take(i as int), session_type) == Some(out.deep_view()),
        decreases entries.len() - i,
    {
        proof {
            assert(all.take(i + 1).drop_last() =~= all.take(i as int));
            assert(all.take(i + 1).last() == all[i as int]);
        }
        let entry = &entries[i];
        let name_len = entry.file_name.as_str().unicode_len();
        proof {
            reveal_strlit(".desktop");
        }
        if name_len > 8 && ends_with_str(entry.file_name.as_str(), ".desktop") {
            match desktop_exec_command(&entry.lines) {
                None => {
                    proof {
                        assert(desktop_sessions_spec(all.take(i + 1), session_type) is None);
                        lemma_desktop_none_persists(all, session_type, i + 1);
                    }
                    return None;
                },
                Some(cmd) => {
                    let ghost pre = out.deep_view();
                    let stem = entry.file_name.as_str().substring_char(0, name_len - 8);
                    out.push(
                        Session {
                            name: String::from_str(stem),
                            cmd,
                            session_type,
                        },
                    );
                    proof {
                        assert(out.deep_view() =~= pre.push(
                            desktop_session_of(all[i as int], session_type),
                        ));
                        assert(desktop_sessions_spec(all.take(i + 1), session_type) == Some(
                            out.deep_view(),
                        ));
                    }
                },
            }
        }
        i += 1;
        proof {
            assert(desktop_sessions_spec(all.take(i as int), session_type) == Some(
                out.deep_view(),
            ));
        }
    }
    proof {
        assert(all.take(entries.len() as int) =~= all);
    }
    Some(out)
}

/// Once a folder prefix has failed, the whole folder fails.
proof fn lemma_desktop_none_persists(entries: Seq<DesktopFileView>, st: SessionType, i: int)
    requires
        0 <= i <= entries.len(),
        desktop_sessions_spec(entries.take(i), st) is None,
    ensures
        desktop_sessions_spec(entries, st) is None,
    decreases entries.len() - i,
{
    if i < entries.len() {
        assert(entries.take(i + 1).drop_last() =~= entries.take(i));
        lemma_desktop_none_persists(entries, st, i + 1);
    } else {
        assert(entries.take(i) =~= entries);
    }
}

/// The combined session list: shells first, then the X11 folder, then the
/// Wayland folder; `None` when either folder has a broken entry.
pub open spec fn all_sessions_spec(
    shell_lines: Seq<Seq<char>>,
    x11_entries: Seq<DesktopFileView>,
    wayland_entries: Seq<DesktopFileView>,
) -> Option<Seq<SessionView>> {
    match (
        desktop_sessions_spec(x11_entries, SessionType::X11),
        desktop_sessions_spec(wayland_entries, SessionType::Wayland),
    ) {
        (Some(x), Some(w)) => Some(shell_sessions_spec(shell_lines) + x + w),
        _ => None,
    }
}

/// Gathers every available session: login shells from the shells file, then
/// X11 desktop entries, then Wayland desktop entries.
pub fn parse_all_sessions(
    shell_lines: &Vec<String>,
    x11_entries: &Vec<DesktopFile>,
    wayland_entries: &Vec<DesktopFile>,
) -> (r: Option<Vec<Session>>)
    ensures
        r matches Some(v) ==> all_sessions_spec(
            shell_lines.deep_view(),
            x11_entries.deep_view(),
            wayland_entries.deep_view(),
        ) == Some(v.deep_view()),
        r is None ==> all_sessions_spec(
            shell_lines.deep_view(),
            x11_entries.deep_view(),
            wayland_entries.deep_view(),
        ) is None,
{
    let mut out = parse_shell_sessions(shell_lines);
    let mut x11 = match parse_sessions_from_directory(x11_entries, SessionType::X11) {
        Some(v) => v,
        None => {
            return None;
        },
    };
    let mut wayland = match parse_sessions_from_directory(wayland_entries, SessionType::Wayland) {
        Some(v) => v,
        None => {
            return None;
        },
    };
    let ghost parts = (out.deep_view(), x11.deep_view(), wayland.deep_view());
    out.append(&mut x11);
    out.append(&mut wayland);
    proof {
        assert(out.deep_view() =~= parts.0 + parts.1 + parts.2);
    }
    Some(out)
}

} // verus!
