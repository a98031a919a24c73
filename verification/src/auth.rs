//! Checking login and registration data before it is sent.
use vstd::prelude::*;
use crate::client::{App, AppView};
use crate::room_creator::trimmed_text;
use crate::text::{chars_eq, chars_of, join_spec, string_views, trim};
use crate::types::{AuthData, ClientServerAuthMsg, RegisterData};
use crate::ui::{ActiveEntryScreen, Notification, NotificationView};

verus! {

/// A user name starts with a letter and goes on with letters, digits and
/// `_`, 7 to 29 characters in all.
pub const USERNAME_RE_PATTERN: &'static str = "^[A-Za-z][A-Za-z0-9_]{6,28}$";

/// A password is 8 to 32 letters, digits and `!@#$%^&*()_+`.
pub const PASSWORD_RE_PATTERN: &'static str = "^[A-Za-z\\d!@#$%^&*()_+]{8,32}$";

/// Shown when a user name is refused.
pub const USERNAME_ERROR_MSG: &'static str =
    "Username must start with a letter, not contain special characters ouside of \"_\" and have length between 7 to 29";

/// Shown when a password is refused.
pub const PASSWORD_ERROR_MSG: &'static str =
    "Password must contain at least one lowercase and uppercase letter, digit and have length between 8 to 32";

/// Shown when the two passwords of a registration differ.
pub const REPEAT_PASSWORD_ERROR_MSG: &'static str = "Password and Repeat password fields must match";

/// What compiling `pattern` with the `regex` crate and matching it against
/// `text` gives: whether it matches, or `None` when the pattern does not
/// compile.
pub uninterp spec fn regex_match(pattern: Seq<char>, text: Seq<char>) -> Option<bool>;

/// Compiles `pattern` with `regex::Regex::new` and, when it compiles, tells
/// whether `regex::Regex::is_match` finds it in `text`. Claimed: the result is
/// `regex_match(pattern, text)`, a function of the two strings alone, and the
/// two patterns of this module compile (`Regex::new` fails only on invalid
/// syntax or patterns over its size limit).
#[verifier::external_body]
fn regex_is_match(pattern: &str, text: &str) -> (r: Option<bool>)
    ensures
        r == regex_match(pattern@, text@),
        pattern@ == USERNAME_RE_PATTERN@ || pattern@ == PASSWORD_RE_PATTERN@ ==> r is Some,
{
    match regex::Regex::new(pattern) {
        Ok(re) => Some(re.is_match(text)),
        Err(_) => None,
    }
}

/// Whether `char::is_lowercase` holds of `c`: the Unicode `Lowercase`
/// property.
pub uninterp spec fn char_lowercase(c: char) -> bool;

/// Whether `char::is_uppercase` holds of `c`: the Unicode `Uppercase`
/// property.
pub uninterp spec fn char_uppercase(c: char) -> bool;

/// Calls `char::is_lowercase`. Claimed: the result is `char_lowercase(c)`.
#[verifier::external_body]
fn is_lowercase(c: char) -> (b: bool)
    ensures
        b == char_lowercase(c),
{
    c.is_lowercase()
}

/// Calls `char::is_uppercase`. Claimed: the result is `char_uppercase(c)`.
#[verifier::external_body]
fn is_uppercase(c: char) -> (b: bool)
    ensures
        b == char_uppercase(c),
{
    c.is_uppercase()
}

/// Whether `s` holds a lowercase letter, an uppercase letter and an ASCII digit.
pub open spec fn has_letter_mix(s: Seq<char>) -> bool {
    &&& exists|i: int| 0 <= i < s.len() && char_lowercase(#[trigger] s[i])
    &&& exists|i: int| 0 <= i < s.len() && char_uppercase(#[trigger] s[i])
    &&& exists|i: int| 0 <= i < s.len() && '0' <= #[trigger] s[i] && s[i] <= '9'
}

/// Whether `s` holds a lowercase letter, an uppercase letter and an ASCII digit.
fn letter_mix(s: &str) -> (b: bool)
    ensures
        b == has_letter_mix(s@),
{
    let v = chars_of(s);
    let mut lower = false;
    let mut upper = false;
    let mut digit = false;
    let mut i: usize = 0;
    while i < v.len()
        invariant
            i <= v.len(),
            v@ == s@,
            lower == exists|k: int| 0 <= k < i && char_lowercase(#[trigger] v@[k]),
            upper == exists|k: int| 0 <= k < i && char_uppercase(#[trigger] v@[k]),
            digit == exists|k: int| 0 <= k < i && '0' <= #[trigger] v@[k] && v@[k] <= '9',
        decreases v.len() - i,
    {
        let c = v[i];
        if is_lowercase(c) {
            lower = true;
        }
        if is_uppercase(c) {
            upper = true;
        }
        if '0' <= c && c <= '9' {
            digit = true;
        }
        i = i + 1;
    }
    lower && upper && digit
}

/// What the login check gives for a user name and password.
pub open spec fn login_check(username: Seq<char>, password: Seq<char>) -> Result<(), Seq<char>> {
    if regex_match(USERNAME_RE_PATTERN@, username) != Some(true) {
        Err(USERNAME_ERROR_MSG@)
    } else if regex_match(PASSWORD_RE_PATTERN@, password) != Some(true) || !has_letter_mix(
        password,
    ) {
        Err(PASSWORD_ERROR_MSG@)
    } else {
        Ok(())
    }
}

/// What the registration check gives: the login check, then the repeated
/// password must equal the password.
pub open spec fn register_check(username: Seq<char>, password: Seq<char>, repeat: Seq<char>) -> Result<
    (),
    Seq<char>,
> {
    match login_check(username, password) {
        Err(e) => Err(e),
        Ok(()) => if repeat != password {
            Err(REPEAT_PASSWORD_ERROR_MSG@)
        } else {
            Ok(())
        },
    }
}

/// The view of a check's result.
pub open spec fn check_view(r: Result<(), String>) -> Result<(), Seq<char>> {
    match r {
        Ok(()) => Ok(()),
        Err(e) => Err(e@),
    }
}

/// Checks a user name and a password against the login rules.
pub fn validate_login(username: &str, password: &str) -> (r: Result<(), String>)
    ensures
        check_view(r) == login_check(username@, password@),
{
    if regex_is_match(USERNAME_RE_PATTERN, username) != Some(true) {
        return Err(USERNAME_ERROR_MSG.to_owned());
    }
    if regex_is_match(PASSWORD_RE_PATTERN, password) != Some(true) || !letter_mix(password) {
        return Err(PASSWORD_ERROR_MSG.to_owned());
    }
    Ok(())
}

/// Checks a registration: the login rules, then that the repeated password
/// equals the password.
pub fn validate_register(username: &str, password: &str, repeat_password: &str) -> (r: Result<
    (),
    String,
>)
    ensures
        check_view(r) == register_check(username@, password@, repeat_password@),
{
    match validate_login(username, password) {
        Err(e) => Err(e),
        Ok(()) => {
            let a = chars_of(password);
            let b = chars_of(repeat_password);
            if !chars_eq(a.as_slice(), b.as_slice()) {
                Err(REPEAT_PASSWORD_ERROR_MSG.to_owned())
            } else {
                Ok(())
            }
        },
    }
}

/// A message sent before logging in, as a value: the name and password.
pub enum AuthMsgView {
    Login(Seq<char>, Seq<char>),
    Register(Seq<char>, Seq<char>),
}

/// The view of an optional message sent before logging in.
pub open spec fn auth_msg_view(m: Option<ClientServerAuthMsg>) -> Option<AuthMsgView> {
    match m {
        None => None,
        Some(ClientServerAuthMsg::Login(d)) => Some(AuthMsgView::Login(d.username@, d.pwd@)),
        Some(ClientServerAuthMsg::Register(d)) => Some(AuthMsgView::Register(d.username@, d.pwd@)),
    }
}

/// Submitting the login form: its trimmed name and password are sent when
/// they pass the login check; otherwise the refusal is shown.
pub open spec fn login_submitted(v: AppView) -> (AppView, Option<AuthMsgView>) {
    let u = trim(join_spec(v.username_login, Seq::empty()));
    let p = trim(join_spec(v.password_login, Seq::empty()));
    match login_check(u, p) {
        Err(e) => (AppView { notification: Some(NotificationView::Failure(e)), ..v }, None),
        Ok(()) => (v, Some(AuthMsgView::Login(u, p))),
    }
}

/// Submitting the registration form: its fields, joined by newlines and
/// trimmed, are sent when they pass the registration check; otherwise the
/// refusal is shown.
pub open spec fn register_submitted(v: AppView) -> (AppView, Option<AuthMsgView>) {
    let nl = seq!['\n'];
    let u = trim(join_spec(v.username_register, nl));
    let p = trim(join_spec(v.password_register, nl));
    let r = trim(join_spec(v.repeat_password, nl));
    match register_check(u, p, r) {
        Err(e) => (AppView { notification: Some(NotificationView::Failure(e)), ..v }, None),
        Ok(()) => (v, Some(AuthMsgView::Register(u, p))),
    }
}

/// Submitting the form shown.
pub open spec fn entry_submitted(v: AppView) -> (AppView, Option<AuthMsgView>) {
    match v.active_entry_screen {
        ActiveEntryScreen::ASLogin => login_submitted(v),
        ActiveEntryScreen::ASRegister => register_submitted(v),
    }
}

impl App {
    /// Submits the login form; see `login_submitted`.
    pub fn handle_auth(&mut self) -> (msg: Option<ClientServerAuthMsg>)
        ensures
            final(self)@ == login_submitted(old(self)@).0,
            auth_msg_view(msg) == login_submitted(old(self)@).1,
    {
        proof {
            reveal_strlit("");
        }
        let username = trimmed_text(self.username_login.as_slice(), "");
        let pwd = trimmed_text(self.password_login.as_slice(), "");
        assert(""@ == Seq::<char>::empty());
        match validate_login(username.as_str(), pwd.as_str()) {
            Err(e) => {
                self.login_screen_notification = Some(Notification::Failure(e));
                None
            },
            Ok(()) => Some(ClientServerAuthMsg::Login(AuthData { username, pwd })),
        }
    }

    /// Submits the registration form; see `register_submitted`.
    pub fn handle_register(&mut self) -> (msg: Option<ClientServerAuthMsg>)
        ensures
            final(self)@ == register_submitted(old(self)@).0,
            auth_msg_view(msg) == register_submitted(old(self)@).1,
    {
        proof {
            reveal_strlit("\n");
        }
        assert("\n"@ =~= seq!['\n']);
        let username = trimmed_text(self.username_register.as_slice(), "\n");
        let password = trimmed_text(self.password_register.as_slice(), "\n");
        let repeat = trimmed_text(self.repeat_password.as_slice(), "\n");
        match validate_register(username.as_str(), password.as_str(), repeat.as_str()) {
            Err(e) => {
                self.login_screen_notification = Some(Notification::Failure(e));
                None
            },
            Ok(()) => Some(ClientServerAuthMsg::Register(RegisterData { username, pwd: password })),
        }
    }

    /// Submits the form shown: the login or the registration form.
    pub fn handle_entry_enter(&mut self) -> (msg: Option<ClientServerAuthMsg>)
        ensures
            final(self)@ == entry_submitted(old(self)@).0,
            auth_msg_view(msg) == entry_submitted(old(self)@).1,
    {
        match self.active_entry_screen {
            ActiveEntryScreen::ASLogin => self.handle_auth(),
            ActiveEntryScreen::ASRegister => self.handle_register(),
        }
    }
}

} // verus!
