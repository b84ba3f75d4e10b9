//! The configuration the login manager runs with: selection-list behaviour,
//! greeting placement, prompts, colors and bars, with the stock value of
//! every field. Reading and writing the configuration file happens outside
//! the library; the defaults and the color-name mapping are verified here.

use vstd::prelude::*;

use crate::text::{eq_ignore_ascii_case_str, eq_nocase};

verus! {

/// Which account may log in and where the selection data lives.
pub struct LoginBehaviour {
    pub min_uid: usize,
    pub user_file: String,
    pub shells_file: String,
    pub x11_session_folder: String,
    pub wayland_session_folder: String,
    pub session_file: String,
    pub default_selection_file: String,
    pub write_last_to_default_selection: bool,
    pub include_root_user: bool,
    pub activate_num_lock: bool,
}

/// The stock minimum uid offered for login.
pub fn default_min_uid() -> (r: usize)
    ensures
        r == 1000,
{
    1000
}

/// The stock account database path.
pub fn default_user_file() -> (r: String)
    ensures
        r@ == "/etc/passwd"@,
{
    String::from_str("/etc/passwd")
}

/// The stock shells file path.
pub fn default_shells_file() -> (r: String)
    ensures
        r@ == "/etc/shells"@,
{
    String::from_str("/etc/shells")
}

/// The stock X11 session folder.
pub fn default_x11_session_folder() -> (r: String)
    ensures
        r@ == "/usr/share/xsessions"@,
{
    String::from_str("/usr/share/xsessions")
}

/// The stock Wayland session folder.
pub fn default_wayland_session_folder() -> (r: String)
    ensures
        r@ == "/usr/share/wayland-sessions"@,
{
    String::from_str("/usr/share/wayland-sessions")
}

/// The stock session list path.
pub fn default_session_file() -> (r: String)
    ensures
        r@ == "/etc/nclogin/sessions.toml"@,
{
    String::from_str("/etc/nclogin/sessions.toml")
}

/// The stock stored-selection path.
pub fn default_default_selection_file() -> (r: String)
    ensures
        r@ == "/etc/nclogin/default"@,
{
    String::from_str("/etc/nclogin/default")
}

/// Whether the last selection is stored, by default.
pub fn default_last_to_default_selection() -> (r: bool)
    ensures
        r == true,
{
    true
}

/// Whether root is offered for login, by default.
pub fn default_include_root_user() -> (r: bool)
    ensures
        r == true,
{
    true
}

/// Whether num lock is switched on at startup, by default.
pub fn default_activate_num_lock() -> (r: bool)
    ensures
        r == true,
{
    true
}

/// The stock login behaviour, field for field.
pub open spec fn is_default_login_behaviour(l: LoginBehaviour) -> bool {
    &&& l.min_uid == 1000
    &&& l.user_file@ == "/etc/passwd"@
    &&& l.shells_file@ == "/etc/shells"@
    &&& l.x11_session_folder@ == "/usr/share/xsessions"@
    &&& l.wayland_session_folder@ == "/usr/share/wayland-sessions"@
    &&& l.session_file@ == "/etc/nclogin/sessions.toml"@
    &&& l.default_selection_file@ == "/etc/nclogin/default"@
    &&& l.write_last_to_default_selection == true
    &&& l.include_root_user == true
    &&& l.activate_num_lock == true
}

impl Default for LoginBehaviour {
    fn default() -> (r: LoginBehaviour)
        ensures
            is_default_login_behaviour(r),
    {
        LoginBehaviour {
            min_uid: default_min_uid(),
            user_file: default_user_file(),
            shells_file: default_shells_file(),
            x11_session_folder: default_x11_session_folder(),
            wayland_session_folder: default_wayland_session_folder(),
            session_file: default_session_file(),
            default_selection_file: default_default_selection_file(),
            write_last_to_default_selection: default_last_to_default_selection(),
            include_root_user: default_include_root_user(),
            activate_num_lock: default_activate_num_lock(),
        }
    }
}

/// Where the greeting file lives and where its text is drawn.
pub struct IssueFileSettings {
    pub issue_file: String,
    pub issue_row_gap: usize,
    pub issue_col_gap: usize,
}

/// The stock greeting file path.
pub fn default_issue_file() -> (r: String)
    ensures
        r@ == "/etc/nclogin/issue"@,
{
    String::from_str("/etc/nclogin/issue")
}

/// The stock greeting row offset.
pub fn default_issue_row_gap() -> (r: usize)
    ensures
        r == 2,
{
    2
}

/// The stock greeting column offset.
pub fn default_issue_col_gap() -> (r: usize)
    ensures
        r == 10,
{
    10
}

/// The stock greeting placement, field for field.
pub open spec fn is_default_issue_file_settings(s: IssueFileSettings) -> bool {
    &&& s.issue_file@ == "/etc/nclogin/issue"@
    &&& s.issue_row_gap == 2
    &&& s.issue_col_gap == 10
}

impl Default for IssueFileSettings {
    fn default() -> (r: IssueFileSettings)
        ensures
            is_default_issue_file_settings(r),
    {
        IssueFileSettings {
            issue_file: default_issue_file(),
            issue_row_gap: default_issue_row_gap(),
            issue_col_gap: default_issue_col_gap(),
        }
    }
}

/// The account-selection prompt and where it is drawn.
pub struct UserPrompt {
    pub user_option_prompt: String,
    pub user_option_row_gap: usize,
    pub user_option_col_gap: usize,
}

/// The stock account-selection prompt.
pub fn default_user_option_prompt() -> (r: String)
    ensures
        r@ == "select user:"@,
{
    String::from_str("select user:")
}

/// The stock account-selection row offset.
pub fn default_user_option_row_gap() -> (r: usize)
    ensures
        r == 12,
{
    12
}

/// The stock account-selection column offset.
pub fn default_user_option_col_gap() -> (r: usize)
    ensures
        r == 10,
{
    10
}

/// The stock account-selection prompt, field for field.
pub open spec fn is_default_user_prompt(s: UserPrompt) -> bool {
    &&& s.user_option_prompt@ == "select user:"@
    &&& s.user_option_row_gap == 12
    &&& s.user_option_col_gap == 10
}

impl Default for UserPrompt {
    fn default() -> (r: UserPrompt)
        ensures
            is_default_user_prompt(r),
    {
        UserPrompt {
            user_option_prompt: default_user_option_prompt(),
            user_option_row_gap: default_user_option_row_gap(),
            user_option_col_gap: default_user_option_col_gap(),
        }
    }
}

/// The session-selection prompt and where it is drawn.
pub struct StartPrompt {
    pub start_option_prompt: String,
    pub start_option_row_gap: usize,
    pub start_option_col_gap: usize,
}

/// The stock session-selection prompt.
pub fn default_start_option_prompt() -> (r: String)
    ensures
        r@ == "select environment:"@,
{
    String::from_str("select environment:")
}

/// The stock session-selection row offset.
pub fn default_start_option_row_gap() -> (r: usize)
    ensures
        r == 2,
{
    2
}

/// The stock session-selection column offset.
pub fn default_start_option_col_gap() -> (r: usize)
    ensures
        r == 10,
{
    10
}

/// The stock session-selection prompt, field for field.
pub open spec fn is_default_start_prompt(s: StartPrompt) -> bool {
    &&& s.start_option_prompt@ == "select environment:"@
    &&& s.start_option_row_gap == 2
    &&& s.start_option_col_gap == 10
}

impl Default for StartPrompt {
    fn default() -> (r: StartPrompt)
        ensures
            is_default_start_prompt(r),
    {
        StartPrompt {
            start_option_prompt: default_start_option_prompt(),
            start_option_row_gap: default_start_option_row_gap(),
            start_option_col_gap: default_start_option_col_gap(),
        }
    }
}

/// The password prompt, where it is drawn, and whether typing is starred.
pub struct PasswordPrompt {
    pub password_prompt: String,
    pub password_row_gap: usize,
    pub password_col_gap: usize,
    pub password_stars: bool,
}

/// The stock password prompt.
pub fn default_password_prompt() -> (r: String)
    ensures
        r@ == "type password:"@,
{
    String::from_str("type password:")
}

/// The stock password-prompt row offset.
pub fn default_password_row_gap() -> (r: usize)
    ensures
        r == 2,
{
    2
}

/// The stock password-prompt column offset.
pub fn default_password_col_gap() -> (r: usize)
    ensures
        r == 10,
{
    10
}

/// Whether typed characters are shown as stars, by default.
pub fn default_password_stars() -> (r: bool)
    ensures
        r == true,
{
    true
}

/// The stock password prompt, field for field.
pub open spec fn is_default_password_prompt(s: PasswordPrompt) -> bool {
    &&& s.password_prompt@ == "type password:"@
    &&& s.password_row_gap == 2
    &&& s.password_col_gap == 10
    &&& s.password_stars == true
}

impl Default for PasswordPrompt {
    fn default() -> (r: PasswordPrompt)
        ensures
            is_default_password_prompt(r),
    {
        PasswordPrompt {
            password_prompt: default_password_prompt(),
            password_row_gap: default_password_row_gap(),
            password_col_gap: default_password_col_gap(),
            password_stars: default_password_stars(),
        }
    }
}

/// The selection list's colors, as color names.
pub struct ColorsStruct {
    pub highlight_fg_color: String,
    pub highlight_bg_color: String,
    pub normal_fg_color: String,
    pub normal_bg_color: String,
}

/// The stock highlighted-entry foreground color.
pub fn default_highlight_fg_color() -> (r: String)
    ensures
        r@ == "black"@,
{
    String::from_str("black")
}

/// The stock highlighted-entry background color.
pub fn default_highlight_bg_color() -> (r: String)
    ensures
        r@ == "green"@,
{
    String::from_str("green")
}

/// The stock foreground color.
pub fn default_normal_fg_color() -> (r: String)
    ensures
        r@ == "white"@,
{
    String::from_str("white")
}

/// The stock background color.
pub fn default_normal_bg_color() -> (r: String)
    ensures
        r@ == "black"@,
{
    String::from_str("black")
}

/// The stock colors, field for field.
pub open spec fn is_default_colors(s: ColorsStruct) -> bool {
    &&& s.highlight_fg_color@ == "black"@
    &&& s.highlight_bg_color@ == "green"@
    &&& s.normal_fg_color@ == "white"@
    &&& s.normal_bg_color@ == "black"@
}

impl Default for ColorsStruct {
    fn default() -> (r: ColorsStruct)
        ensures
            is_default_colors(r),
    {
        ColorsStruct {
            highlight_fg_color: default_highlight_fg_color(),
            highlight_bg_color: default_highlight_bg_color(),
            normal_fg_color: default_normal_fg_color(),
            normal_bg_color: default_normal_bg_color(),
        }
    }
}

/// The terminal palette's eight named colors.
#[derive(Clone, Copy, PartialEq, Eq, Structural, Debug)]
pub enum ColorName {
    Black,
    Red,
    Green,
    Yellow,
    Blue,
    Magenta,
    Cyan,
    White,
}

/// The color a configuration string names, compared without regard to
/// ASCII case; anything unrecognized falls back to white.
pub open spec fn color_of(s: Seq<char>) -> ColorName {
    if eq_nocase(s, "black"@) {
        ColorName::Black
    } else if eq_nocase(s, "red"@) {
        ColorName::Red
    } else if eq_nocase(s, "green"@) {
        ColorName::Green
    } else if eq_nocase(s, "yellow"@) {
        ColorName::Yellow
    } else if eq_nocase(s, "blue"@) {
        ColorName::Blue
    } else if eq_nocase(s, "magenta"@) {
        ColorName::Magenta
    } else if eq_nocase(s, "cyan"@) {
        ColorName::Cyan
    } else {
        ColorName::White
    }
}

/// Resolves a configured color name, ignoring ASCII case, with white for
/// anything unrecognized.
pub fn to_color(color_name: &str) -> (r: ColorName)
    ensures
        r == color_of(color_name@),
{
    if eq_ignore_ascii_case_str(color_name, "black") {
        ColorName::Black
    } else if eq_ignore_ascii_case_str(color_name, "red") {
        ColorName::Red
    } else if eq_ignore_ascii_case_str(color_name, "green") {
        ColorName::Green
    } else if eq_ignore_ascii_case_str(color_name, "yellow") {
        ColorName::Yellow
    } else if eq_ignore_ascii_case_str(color_name, "blue") {
        ColorName::Blue
    } else if eq_ignore_ascii_case_str(color_name, "magenta") {
        ColorName::Magenta
    } else if eq_ignore_ascii_case_str(color_name, "cyan") {
        ColorName::Cyan
    } else {
        ColorName::White
    }
}

/// The bar above the selection list.
pub struct TopBar {
    pub top_command: String,
    pub top_separator: String,
    pub top_bar_color: String,
    pub top_text_bar_color: String,
}

/// The stock top-bar command: none.
pub fn default_top_command() -> (r: String)
    ensures
        r@ == ""@,
{
    String::from_str("")
}

/// The stock top-bar separator: none.
pub fn default_top_separator() -> (r: String)
    ensures
        r@ == ""@,
{
    String::from_str("")
}

/// The stock top-bar color.
pub fn default_top_bar_color() -> (r: String)
    ensures
        r@ == "black"@,
{
    String::from_str("black")
}

/// The stock top-bar text color.
pub fn default_top_text_bar_color() -> (r: String)
    ensures
        r@ == "white"@,
{
    String::from_str("white")
}

/// The stock top bar, field for field.
pub open spec fn is_default_top_bar(s: TopBar) -> bool {
    &&& s.top_command@ == ""@
    &&& s.top_separator@ == ""@
    &&& s.top_bar_color@ == "black"@
    &&& s.top_text_bar_color@ == "white"@
}

impl Default for TopBar {
    fn default() -> (r: TopBar)
        ensures
            is_default_top_bar(r),
    {
        TopBar {
            top_command: default_top_command(),
            top_separator: default_top_separator(),
            top_bar_color: default_top_bar_color(),
            top_text_bar_color: default_top_text_bar_color(),
        }
    }
}

/// The bar below the selection list.
pub struct BottomBar {
    pub bottom_command: String,
    pub bottom_separator: String,
    pub bottom_bar_color: String,
    pub bottom_text_bar_color: String,
}

/// The stock bottom-bar command: none.
pub fn default_bottom_command() -> (r: String)
    ensures
        r@ == ""@,
{
    String::from_str("")
}

/// The stock bottom-bar separator: none.
pub fn default_bottom_separator() -> (r: String)
    ensures
        r@ == ""@,
{
    String::from_str("")
}

/// The stock bottom-bar color.
pub fn default_bottom_bar_color() -> (r: String)
    ensures
        r@ == "black"@,
{
    String::from_str("black")
}

/// The stock bottom-bar text color.
pub fn default_bottom_text_bar_color() -> (r: String)
    ensures
        r@ == "white"@,
{
    String::from_str("white")
}

/// The stock bottom bar, field for field.
pub open spec fn is_default_bottom_bar(s: BottomBar) -> bool {
    &&& s.bottom_command@ == ""@
    &&& s.bottom_separator@ == ""@
    &&& s.bottom_bar_color@ == "black"@
    &&& s.bottom_text_bar_color@ == "white"@
}

impl Default for BottomBar {
    fn default() -> (r: BottomBar)
        ensures
            is_default_bottom_bar(r),
    {
        BottomBar {
            bottom_command: default_bottom_command(),
            bottom_separator: default_bottom_separator(),
            bottom_bar_color: default_bottom_bar_color(),
            bottom_text_bar_color: default_bottom_text_bar_color(),
        }
    }
}

/// Everything the login manager is configured with.
pub struct Settings {
    pub login_behaviour: LoginBehaviour,
    pub issue_file_settings: IssueFileSettings,
    pub user_prompt: UserPrompt,
    pub start_prompt: StartPrompt,
    pub password_prompt: PasswordPrompt,
    pub colors: ColorsStruct,
    pub top_bar: TopBar,
    pub bottom_bar: BottomBar,
}

/// The stock configuration: every section at its stock values.
pub open spec fn is_default_settings(s: Settings) -> bool {
    &&& is_default_login_behaviour(s.login_behaviour)
    &&& is_default_issue_file_settings(s.issue_file_settings)
    &&& is_default_user_prompt(s.user_prompt)
    &&& is_default_start_prompt(s.start_prompt)
    &&& is_default_password_prompt(s.password_prompt)
    &&& is_default_colors(s.colors)
    &&& is_default_top_bar(s.top_bar)
    &&& is_default_bottom_bar(s.bottom_bar)
}

impl Default for Settings {
    fn default() -> (r: Settings)
        ensures
            is_default_settings(r),
    {
        Settings {
            login_behaviour: LoginBehaviour::default(),
            issue_file_settings: IssueFileSettings::default(),
            user_prompt: UserPrompt::default(),
            start_prompt: StartPrompt::default(),
            password_prompt: PasswordPrompt::default(),
            colors: ColorsStruct::default(),
            top_bar: TopBar::default(),
            bottom_bar: BottomBar::default(),
        }
    }
}

} // verus!
