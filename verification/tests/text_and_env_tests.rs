//! Text utilities, the session environment, the greeting substitutions and
//! the configuration defaults.

use nclogin::auth::{AuthError, PromptStyle, auth_error_message, respond_to_prompts};
use nclogin::environment::{
    get_session_id, get_tty_name, get_tty_nr, prepare_environment, seat_name_from_status,
};
use nclogin::issue::{
    IssueSubstitutions, format_date, format_hms, format_host_identity, format_uptime,
    os_name_from_lines, os_version_from_lines, process_issue_content,
};
use nclogin::num_lock::setleds_argument;
use nclogin::session::{Session, SessionType};
use nclogin::settings::{ColorName, Settings, to_color};
use nclogin::text::{
    i32_to_string, parse_i32_digits, parse_u64_digits, parse_usize_or_zero, replace_marker,
    split_lines, split_on_char, split_whitespace_vec, trim_str, u64_to_string,
};
use nclogin::user::User;

fn strings(items: &[&str]) -> Vec<String> {
    items.iter().map(|s| s.to_string()).collect()
}

#[test]
fn decimal_formatting() {
    assert_eq!(u64_to_string(0), "0");
    assert_eq!(u64_to_string(7), "7");
    assert_eq!(u64_to_string(1000), "1000");
    assert_eq!(u64_to_string(u64::MAX), "18446744073709551615");
    assert_eq!(i32_to_string(-42), "-42");
    assert_eq!(i32_to_string(i32::MIN), "-2147483648");
}

#[test]
fn digit_parsing_and_overflow() {
    assert_eq!(parse_u64_digits("0"), Some(0));
    assert_eq!(parse_u64_digits("18446744073709551615"), Some(u64::MAX));
    assert_eq!(parse_u64_digits("18446744073709551616"), None);
    assert_eq!(parse_u64_digits(""), None);
    assert_eq!(parse_u64_digits("12a"), None);
    assert_eq!(parse_i32_digits("2147483647"), Some(i32::MAX));
    assert_eq!(parse_i32_digits("2147483648"), None);
    assert_eq!(parse_usize_or_zero("1000"), 1000);
    assert_eq!(parse_usize_or_zero("x"), 0);
    assert_eq!(parse_usize_or_zero(""), 0);
}

#[test]
fn tty_helpers() {
    assert_eq!(get_tty_name("/dev/tty1"), "tty1");
    assert_eq!(get_tty_name("tty1"), "tty1");
    assert_eq!(get_tty_name("/dev//dev/tty1"), "tty1");
    assert_eq!(get_tty_nr("/dev/tty7"), Some(7));
    assert_eq!(get_tty_nr("/dev/tty12"), Some(12));
    assert_eq!(get_tty_nr("/dev/tty"), None);
    assert_eq!(get_tty_nr("/dev/tty99999999999"), None);
    assert_eq!(get_tty_nr("tty0"), Some(0));
}

#[test]
fn splitting_and_trimming() {
    assert_eq!(split_on_char("a:b::c", ':'), strings(&["a", "b", "", "c"]));
    assert_eq!(split_on_char("", ':'), strings(&[""]));
    assert_eq!(split_lines("one\ntwo\r\nthree\n"), strings(&["one", "two", "three"]));
    assert_eq!(split_lines(""), Vec::<String>::new());
    assert_eq!(split_lines("a\n\nb"), strings(&["a", "", "b"]));
    assert_eq!(split_whitespace_vec("  5   1000 alice  seat0\ttty2 "), strings(&[
        "5", "1000", "alice", "seat0", "tty2"
    ]));
    assert_eq!(trim_str("  padded \t"), "padded");
    assert_eq!(trim_str("   "), "");
}

#[test]
fn marker_replacement() {
    assert_eq!(replace_marker("load: %u users", 'u', "3"), "load: 3 users");
    assert_eq!(replace_marker("%u%u", 'u', "x"), "xx");
    assert_eq!(replace_marker("no markers", 'u', "x"), "no markers");
    assert_eq!(replace_marker("trailing %", 'u', "x"), "trailing %");
}

#[test]
fn session_environment_is_exact_and_reproducible() {
    let user = User {
        name: "alice".to_string(),
        uid: 1000,
        gid: 1000,
        gecos: String::new(),
        homedir: "/home/alice".to_string(),
        shell: "/bin/bash".to_string(),
    };
    let session = Session {
        name: "sway".to_string(),
        cmd: "sway".to_string(),
        session_type: SessionType::Wayland,
    };
    let env = prepare_environment(&user, &session, Some(2), "seat0", Some(5));
    let again = prepare_environment(&user, &session, Some(2), "seat0", Some(5));
    assert_eq!(env, again);
    let expected: Vec<(String, String)> = vec![
        ("SHELL".to_string(), "/bin/bash".to_string()),
        ("LOGNAME".to_string(), "alice".to_string()),
        ("USER".to_string(), "alice".to_string()),
        ("PWD".to_string(), "/home/alice".to_string()),
        ("HOME".to_string(), "/home/alice".to_string()),
        ("XDG_SESSION_TYPE".to_string(), "wayland".to_string()),
        ("XDG_CURRENT_DESKTOP".to_string(), "sway".to_string()),
        ("XDG_DATA_HOME".to_string(), "/home/alice/.local/share".to_string()),
        ("XDG_CONFIG_HOME".to_string(), "/home/alice/.config".to_string()),
        ("XDG_CACHE_HOME".to_string(), "/home/alice/.cache".to_string()),
        ("XDG_SESSION_CLASS".to_string(), "user".to_string()),
        ("XDG_RUNTIME_DIR".to_string(), "/run/user/1000".to_string()),
        ("XDG_VTNR".to_string(), "2".to_string()),
        ("XDG_SEAT".to_string(), "seat0".to_string()),
        ("XDG_SESSION_ID".to_string(), "5".to_string()),
    ];
    assert_eq!(env, expected);
}

#[test]
fn absent_terminal_number_and_session_id_fall_back_to_zero() {
    let user = User {
        name: "alice".to_string(),
        uid: 1000,
        gid: 1000,
        gecos: String::new(),
        homedir: "/home/alice".to_string(),
        shell: "/bin/bash".to_string(),
    };
    let session = Session {
        name: "shell".to_string(),
        cmd: "/bin/bash".to_string(),
        session_type: SessionType::Shell,
    };
    let env = prepare_environment(&user, &session, None, "seat0", None);
    assert_eq!(env[5], ("XDG_SESSION_TYPE".to_string(), "tty".to_string()));
    assert_eq!(env[12], ("XDG_VTNR".to_string(), "0".to_string()));
    assert_eq!(env[14], ("XDG_SESSION_ID".to_string(), "0".to_string()));
}

#[test]
fn session_id_lookup_reads_the_matching_row() {
    let lines = strings(&[
        "SESSION  UID USER  SEAT  TTY",
        "5 1000 alice seat0 tty2",
        "7 1001 bob seat0 tty3",
    ]);
    assert_eq!(get_session_id(&lines, "tty2", "alice"), Some(5));
    assert_eq!(get_session_id(&lines, "tty3", "bob"), Some(7));
    assert_eq!(get_session_id(&lines, "tty4", "alice"), None);
    // The first matching row decides, even when its id is no number.
    let odd = strings(&["x 1000 alice seat0 tty2", "5 1000 alice seat0 tty2"]);
    assert_eq!(get_session_id(&odd, "tty2", "alice"), None);
}

#[test]
fn seat_name_falls_back_to_seat0() {
    assert_eq!(seat_name_from_status(true, &strings(&["  seat1  ", "rest"])), "seat1");
    assert_eq!(seat_name_from_status(true, &strings(&[])), "seat0");
    assert_eq!(seat_name_from_status(false, &strings(&["seat1"])), "seat0");
}

#[test]
fn formatters_produce_the_expected_text() {
    assert_eq!(format_hms(9, 5, 0), "09:05:00");
    assert_eq!(format_hms(23, 59, 59), "23:59:59");
    assert_eq!(format_date("Mon", 2024, 3, 9), "Mon, 2024-3-9");
    assert_eq!(format_uptime(0), "0 days, 0 hours, 0 minutes");
    assert_eq!(format_uptime(90_061), "1 days, 1 hours, 1 minutes");
    assert_eq!(
        format_host_identity("host", "Linux", "6.1.0", "x86_64"),
        "host Linux 6.1.0 x86_64"
    );
}

#[test]
fn os_release_parsing() {
    let lines = strings(&[
        "NAME=\"Debian GNU/Linux\"",
        "PRETTY_NAME=\"Debian GNU/Linux 12 (bookworm)\"",
        "VERSION=\"12 (bookworm)\"",
    ]);
    // The first matching line wins, whichever key it carries.
    assert_eq!(os_name_from_lines(&lines), "Debian GNU/Linux");
    assert_eq!(os_version_from_lines(&lines), "12 (bookworm)");
    assert_eq!(os_name_from_lines(&strings(&[])), "Linux");
    assert_eq!(os_version_from_lines(&strings(&["VERSION=unquoted"])), "unknown");
}

#[test]
fn issue_content_is_substituted_and_split() {
    let subs = IssueSubstitutions {
        users: "3".to_string(),
        uptime: "1 days, 2 hours, 3 minutes".to_string(),
        os_name: "Debian".to_string(),
        host_name: "box Linux 6.1 x86_64".to_string(),
        architecture: "x86_64".to_string(),
        tty_name: "tty2".to_string(),
        date: "Mon, 2024-3-9".to_string(),
        time: "09:05:00".to_string(),
    };
    let content = "Welcome to %s on %l\nusers: %u, up %U\n".to_string();
    let lines = process_issue_content(content, &subs);
    assert_eq!(lines, strings(&[
        "Welcome to Debian on tty2",
        "users: 3, up 1 days, 2 hours, 3 minutes",
    ]));
}

#[test]
fn conversation_answers_one_masked_prompt_with_the_secret() {
    let ok = respond_to_prompts(&vec![PromptStyle::EchoOff], "hunter2");
    assert_eq!(ok, Ok(vec!["hunter2".to_string()]));
    assert_eq!(
        respond_to_prompts(&vec![PromptStyle::EchoOn], "hunter2"),
        Err(AuthError::ProtocolError)
    );
    assert_eq!(respond_to_prompts(&vec![], "hunter2"), Err(AuthError::ProtocolError));
    assert_eq!(
        respond_to_prompts(&vec![PromptStyle::EchoOff, PromptStyle::TextInfo], "hunter2"),
        Err(AuthError::ProtocolError)
    );
}

#[test]
fn denial_reasons() {
    assert_eq!(auth_error_message(AuthError::ContextInitFailed), "authentication unavailable");
    assert_eq!(auth_error_message(AuthError::ProtocolError), "conversation protocol violation");
    assert_eq!(auth_error_message(AuthError::Rejected), "authentication failed");
    assert_eq!(auth_error_message(AuthError::SessionOpenFailed), "session open failed");
}

#[test]
fn color_names_are_matched_without_regard_to_case() {
    assert_eq!(to_color("black"), ColorName::Black);
    assert_eq!(to_color("RED"), ColorName::Red);
    assert_eq!(to_color("Green"), ColorName::Green);
    assert_eq!(to_color("yellow"), ColorName::Yellow);
    assert_eq!(to_color("blue"), ColorName::Blue);
    assert_eq!(to_color("MAGENTA"), ColorName::Magenta);
    assert_eq!(to_color("cyan"), ColorName::Cyan);
    assert_eq!(to_color("white"), ColorName::White);
    assert_eq!(to_color("chartreuse"), ColorName::White);
}

#[test]
fn stock_settings() {
    let s = Settings::default();
    assert_eq!(s.login_behaviour.min_uid, 1000);
    assert_eq!(s.login_behaviour.user_file, "/etc/passwd");
    assert_eq!(s.login_behaviour.shells_file, "/etc/shells");
    assert_eq!(s.login_behaviour.session_file, "/etc/nclogin/sessions.toml");
    assert_eq!(s.login_behaviour.default_selection_file, "/etc/nclogin/default");
    assert!(s.login_behaviour.write_last_to_default_selection);
    assert!(s.login_behaviour.include_root_user);
    assert!(s.login_behaviour.activate_num_lock);
    assert_eq!(s.issue_file_settings.issue_file, "/etc/nclogin/issue");
    assert_eq!(s.issue_file_settings.issue_row_gap, 2);
    assert_eq!(s.issue_file_settings.issue_col_gap, 10);
    assert_eq!(s.user_prompt.user_option_prompt, "select user:");
    assert_eq!(s.start_prompt.start_option_prompt, "select environment:");
    assert_eq!(s.password_prompt.password_prompt, "type password:");
    assert!(s.password_prompt.password_stars);
    assert_eq!(s.colors.highlight_bg_color, "green");
    assert_eq!(s.colors.normal_fg_color, "white");
    assert_eq!(s.top_bar.top_bar_color, "black");
    assert_eq!(s.bottom_bar.bottom_text_bar_color, "white");
}

#[test]
fn num_lock_argument() {
    assert_eq!(setleds_argument(true), "+num");
    assert_eq!(setleds_argument(false), "-num");
}
