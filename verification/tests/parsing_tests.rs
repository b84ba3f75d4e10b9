//! The parsers: accounts, shells, sessions, and the stored selection.

use nclogin::selection::{SelectionError, format_selection, get_default_indices, read_last_usage};
use nclogin::session::{
    DesktopFile, Session, SessionType, desktop_exec_command, parse_all_sessions,
    parse_sessions_from_directory, parse_shell_sessions,
};
use nclogin::user::{User, load_valid_shells, parse_valid_users};

fn strings(items: &[&str]) -> Vec<String> {
    items.iter().map(|s| s.to_string()).collect()
}

#[test]
fn parse_valid_users_keeps_matching_accounts() {
    let passwd = strings(&[
        "root:x:0:0:root:/root:/bin/bash",
        "daemon:x:1:1:daemon:/usr/sbin:/usr/sbin/nologin",
        "alice:x:1000:1000:Alice:/home/alice:/bin/bash",
        "bob:x:1001:1001:Bob:/home/bob:/bin/zsh",
    ]);
    let shells = strings(&["/bin/bash", "/bin/zsh"]);
    let users = parse_valid_users(&passwd, &shells, 1000, true);
    let names: Vec<&str> = users.iter().map(|u| u.name.as_str()).collect();
    assert_eq!(names, vec!["root", "alice", "bob"]);
    assert_eq!(users[1].uid, 1000);
    assert_eq!(users[1].homedir, "/home/alice");
    assert_eq!(users[1].shell, "/bin/bash");
    assert_eq!(users[1].gecos, "Alice");
}

#[test]
fn parse_valid_users_can_exclude_root() {
    let passwd = strings(&[
        "root:x:0:0:root:/root:/bin/bash",
        "alice:x:1000:1000:Alice:/home/alice:/bin/bash",
    ]);
    let shells = strings(&["/bin/bash"]);
    let users = parse_valid_users(&passwd, &shells, 1000, false);
    assert_eq!(users.len(), 1);
    assert_eq!(users[0].name, "alice");
}

#[test]
fn parse_valid_users_skips_malformed_and_comment_lines() {
    let passwd = strings(&[
        "",
        "# a comment",
        "broken:line",
        "alice:x:1000:1000:Alice:/home/alice:/bin/bash",
    ]);
    let shells = strings(&["/bin/bash"]);
    let users = parse_valid_users(&passwd, &shells, 1000, true);
    assert_eq!(users.len(), 1);
    assert_eq!(users[0].name, "alice");
}

#[test]
fn parse_valid_users_rejects_unlisted_shells() {
    let passwd = strings(&["alice:x:1000:1000:Alice:/home/alice:/bin/fish"]);
    let shells = strings(&["/bin/bash"]);
    assert_eq!(parse_valid_users(&passwd, &shells, 1000, true).len(), 0);
}

#[test]
fn unparsable_uid_counts_as_zero() {
    // A broken uid field reads as 0; with root included, uid 0 is kept.
    let passwd = strings(&["odd:x:not-a-number:5:Odd:/home/odd:/bin/bash"]);
    let shells = strings(&["/bin/bash"]);
    let included = parse_valid_users(&passwd, &shells, 1000, true);
    assert_eq!(included.len(), 1);
    assert_eq!(included[0].uid, 0);
    let excluded = parse_valid_users(&passwd, &shells, 1000, false);
    assert_eq!(excluded.len(), 0);
}

#[test]
fn load_valid_shells_trims_and_appends_the_stock_shells() {
    let lines = strings(&["  /bin/zsh  ", "# comment", "", "/bin/fish"]);
    let shells = load_valid_shells(&lines);
    assert_eq!(shells, strings(&["/bin/zsh", "/bin/fish", "/bin/bash", "/bin/sh"]));
}

#[test]
fn load_valid_shells_does_not_duplicate_the_stock_shells() {
    let lines = strings(&["/bin/bash", "/bin/sh"]);
    let shells = load_valid_shells(&lines);
    assert_eq!(shells, strings(&["/bin/bash", "/bin/sh"]));
}

#[test]
fn parse_shell_sessions_names_sessions_after_the_last_component() {
    let lines = strings(&["# /etc/shells", "/bin/bash", "/usr/bin/zsh", "not-a-path"]);
    let sessions = parse_shell_sessions(&lines);
    assert_eq!(sessions.len(), 2);
    assert_eq!(sessions[0].name, "bash");
    assert_eq!(sessions[0].cmd, "/bin/bash");
    assert_eq!(sessions[0].session_type, SessionType::Shell);
    assert_eq!(sessions[1].name, "zsh");
    assert_eq!(sessions[1].cmd, "/usr/bin/zsh");
}

#[test]
fn desktop_exec_command_takes_the_first_exec_line() {
    let lines = strings(&["[Desktop Entry]", "Name=Sway", "Exec=sway --unsupported-gpu", "Exec=other"]);
    assert_eq!(desktop_exec_command(&lines), Some("sway --unsupported-gpu".to_string()));
    let no_exec = strings(&["[Desktop Entry]", "Name=Sway"]);
    assert_eq!(desktop_exec_command(&no_exec), None);
}

#[test]
fn parse_sessions_from_directory_reads_desktop_entries() {
    let entries = vec![
        DesktopFile {
            file_name: "sway.desktop".to_string(),
            lines: strings(&["[Desktop Entry]", "Exec=sway"]),
        },
        DesktopFile {
            file_name: "notes.txt".to_string(),
            lines: strings(&["Exec=ignored"]),
        },
        DesktopFile {
            file_name: "gnome.desktop".to_string(),
            lines: strings(&["Exec=gnome-session"]),
        },
    ];
    let sessions = parse_sessions_from_directory(&entries, SessionType::Wayland).unwrap();
    assert_eq!(sessions.len(), 2);
    assert_eq!(sessions[0].name, "sway");
    assert_eq!(sessions[0].cmd, "sway");
    assert_eq!(sessions[0].session_type, SessionType::Wayland);
    assert_eq!(sessions[1].name, "gnome");
}

#[test]
fn a_desktop_entry_without_exec_fails_the_folder() {
    let entries = vec![DesktopFile {
        file_name: "broken.desktop".to_string(),
        lines: strings(&["[Desktop Entry]", "Name=Broken"]),
    }];
    assert!(parse_sessions_from_directory(&entries, SessionType::X11).is_none());
}

#[test]
fn parse_all_sessions_concatenates_shells_x11_and_wayland() {
    let shell_lines = strings(&["/bin/bash"]);
    let x11 = vec![DesktopFile {
        file_name: "i3.desktop".to_string(),
        lines: strings(&["Exec=i3"]),
    }];
    let wayland = vec![DesktopFile {
        file_name: "sway.desktop".to_string(),
        lines: strings(&["Exec=sway"]),
    }];
    let sessions = parse_all_sessions(&shell_lines, &x11, &wayland).unwrap();
    let names: Vec<&str> = sessions.iter().map(|s| s.name.as_str()).collect();
    assert_eq!(names, vec!["bash", "i3", "sway"]);
    assert_eq!(sessions[1].session_type, SessionType::X11);
    assert_eq!(sessions[2].session_type, SessionType::Wayland);
}

#[test]
fn read_last_usage_needs_two_lines() {
    assert_eq!(read_last_usage(&strings(&["alice"])), Err(SelectionError::Malformed));
    assert_eq!(
        read_last_usage(&strings(&["alice", "shell"])),
        Ok(("alice".to_string(), "shell".to_string()))
    );
}

#[test]
fn get_default_indices_finds_the_stored_names() {
    let users = vec![
        User {
            name: "alice".to_string(),
            uid: 1000,
            gid: 1000,
            gecos: String::new(),
            homedir: "/home/alice".to_string(),
            shell: "/bin/bash".to_string(),
        },
        User {
            name: "bob".to_string(),
            uid: 1001,
            gid: 1001,
            gecos: String::new(),
            homedir: "/home/bob".to_string(),
            shell: "/bin/bash".to_string(),
        },
    ];
    let sessions = vec![
        Session {
            name: "bash".to_string(),
            cmd: "/bin/bash".to_string(),
            session_type: SessionType::Shell,
        },
        Session {
            name: "sway".to_string(),
            cmd: "sway".to_string(),
            session_type: SessionType::Wayland,
        },
    ];
    let lines = strings(&["bob", "sway"]);
    assert_eq!(get_default_indices(&lines, &users, &sessions), Ok((1, 1)));
    // Unknown names fall back to the first entry.
    let unknown = strings(&["carol", "plasma"]);
    assert_eq!(get_default_indices(&unknown, &users, &sessions), Ok((0, 0)));
    // A malformed store is an error.
    let short = strings(&["alice"]);
    assert_eq!(get_default_indices(&short, &users, &sessions), Err(SelectionError::Malformed));
}

#[test]
fn format_selection_round_trips_through_lines() {
    let stored = format_selection("alice", "sway");
    assert_eq!(stored, "alice\nsway\n");
    let lines = nclogin::text::split_lines(&stored);
    assert_eq!(read_last_usage(&lines), Ok(("alice".to_string(), "sway".to_string())));
}

#[test]
fn session_type_labels() {
    assert_eq!(SessionType::X11.label(), "x11");
    assert_eq!(SessionType::Wayland.label(), "wayland");
    assert_eq!(SessionType::Shell.label(), "tty");
}
