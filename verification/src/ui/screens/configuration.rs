//! The configuration form: host name, user, password, time zone, keymap and
//! locale, with a Continue button that checks the form before leading on.

use vstd::prelude::*;
use vstd::string::*;
use crate::config::{BootLoader, InstallConfig, config_problem, is_default_config};
use crate::data::keymaps::{get_keymap_list, keymap_entries};
use crate::data::locales::{get_locale_list, locale_entries};
use crate::data::timezones::{get_timezone_list, lemma_default_zone_position, timezone_names};
use crate::system::bootmode::BootMode;
use crate::text::{is_alnum_ascii, is_digit_ascii, is_lower_ascii, is_upper_ascii, opt_view, string_pair_views, string_views, strings_of, utf8_len};
use crate::ui::components::{Button, Focusable, FilterableSelectList, InputEvent, InputField, Interactive};
use crate::ui::components::button::ButtonView;
use crate::ui::components::filterable_select::{FilterableView, clamped_position, filter_indices, moved_down, moved_up, requeried, rows_for_height, well_formed};
use crate::ui::components::input::{InputView, typed};
use crate::ui::utils::Key;
use crate::ui::utils::input::{input_event_of, keycode_to_input_event};
use super::{Screen, ScreenAction, back_action, standard_action};

verus! {

/// Whether `char::is_uppercase` holds of a character.
pub uninterp spec fn is_upper_case(c: char) -> bool;

/// Calls `char::is_uppercase`. The contract names the result and states the
/// documented fact that `A`-`Z` are uppercase and `a`-`z` and `0`-`9` are
/// not.
#[verifier::external_body]
fn upper_case(c: char) -> (r: bool)
    ensures
        r == is_upper_case(c),
        is_upper_ascii(c) ==> r,
        (is_lower_ascii(c) || is_digit_ascii(c)) ==> !r,
{
    c.is_uppercase()
}

/// Whether `char::is_lowercase` holds of a character.
pub uninterp spec fn is_lower_case(c: char) -> bool;

/// Calls `char::is_lowercase`. The contract names the result and states the
/// documented fact that `a`-`z` are lowercase and `A`-`Z` and `0`-`9` are
/// not.
#[verifier::external_body]
fn lower_case(c: char) -> (r: bool)
    ensures
        r == is_lower_case(c),
        is_lower_ascii(c) ==> r,
        (is_upper_ascii(c) || is_digit_ascii(c)) ==> !r,
{
    c.is_lowercase()
}

/// Whether `char::is_alphanumeric` holds of a character.
pub uninterp spec fn is_alphanumeric(c: char) -> bool;

/// Calls `char::is_alphanumeric`. The contract names the result and states
/// the documented fact that ASCII letters and digits are alphanumeric.
#[verifier::external_body]
fn alphanumeric(c: char) -> (r: bool)
    ensures
        r == is_alphanumeric(c),
        is_alnum_ascii(c) ==> r,
{
    c.is_alphanumeric()
}

/// How strong a password looks.
#[derive(Debug, Clone, Copy, PartialEq, Eq, Structural)]
pub enum PasswordStrength {
    /// Short or of one kind of character
    Weak,
    /// At least 8 bytes and two kinds of characters
    Medium,
    /// At least 12 bytes and three kinds of characters
    Strong,
}

/// The number of kinds of characters in `p`, out of: uppercase, lowercase,
/// ASCII digits, and characters that are neither letters nor digits.
pub open spec fn kinds_of_characters(p: Seq<char>) -> nat {
    (if exists|i: int| 0 <= i < p.len() && is_upper_case(#[trigger] p[i]) { 1nat } else { 0nat })
        + (if exists|i: int| 0 <= i < p.len() && is_lower_case(#[trigger] p[i]) { 1nat } else { 0nat })
        + (if exists|i: int| 0 <= i < p.len() && is_digit_ascii(#[trigger] p[i]) { 1nat } else { 0nat })
        + (if exists|i: int| 0 <= i < p.len() && !is_alphanumeric(#[trigger] p[i]) { 1nat } else { 0nat })
}

/// The strength of a password: strong from 12 bytes with three kinds of
/// characters, medium from 8 bytes with two, weak otherwise.
pub open spec fn strength_of(p: Seq<char>) -> PasswordStrength {
    if utf8_len(p) >= 12 && kinds_of_characters(p) >= 3 {
        PasswordStrength::Strong
    } else if utf8_len(p) >= 8 && kinds_of_characters(p) >= 2 {
        PasswordStrength::Medium
    } else {
        PasswordStrength::Weak
    }
}

/// The label shown for a strength.
pub open spec fn strength_label(s: PasswordStrength) -> Seq<char> {
    match s {
        PasswordStrength::Strong => "Strong ███████████"@,
        PasswordStrength::Medium => "Medium ███████░░░░"@,
        PasswordStrength::Weak => "Weak   ███░░░░░░░░"@,
    }
}

impl PasswordStrength {
    /// The label shown for the strength, with its bar.
    pub fn label(&self) -> (r: &'static str)
        ensures
            r@ == strength_label(*self),
    {
        match self {
            PasswordStrength::Strong => "Strong ███████████",
            PasswordStrength::Medium => "Medium ███████░░░░",
            PasswordStrength::Weak => "Weak   ███░░░░░░░░",
        }
    }
}

/// How strong `password` looks.
pub fn password_strength(password: &str) -> (r: PasswordStrength)
    ensures
        r == strength_of(password@),
{
    let cs = crate::text::chars_of(password);
    let n = crate::text::utf8_len_capped(&cs, 12);
    let mut has_upper = false;
    let mut has_lower = false;
    let mut has_digit = false;
    let mut has_special = false;
    let mut i: usize = 0;
    while i < cs.len()
        invariant
            cs@ == password@,
            i <= cs@.len(),
            has_upper == exists|k: int| 0 <= k < i && is_upper_case(#[trigger] cs@[k]),
            has_lower == exists|k: int| 0 <= k < i && is_lower_case(#[trigger] cs@[k]),
            has_digit == exists|k: int| 0 <= k < i && is_digit_ascii(#[trigger] cs@[k]),
            has_special == exists|k: int| 0 <= k < i && !is_alphanumeric(#[trigger] cs@[k]),
        decreases cs@.len() - i,
    {
        let c = cs[i];
        if upper_case(c) {
            has_upper = true;
        }
        if lower_case(c) {
            has_lower = true;
        }
        if '0' <= c && c <= '9' {
            has_digit = true;
        }
        if !alphanumeric(c) {
            has_special = true;
        }
        i = i + 1;
    }
    let variety: u64 = (if has_upper { 1u64 } else { 0 }) + (if has_lower { 1u64 } else { 0 })
        + (if has_digit { 1u64 } else { 0 }) + (if has_special { 1u64 } else { 0 });
    assert(variety == kinds_of_characters(password@));
    if n >= 12 && variety >= 3 {
        PasswordStrength::Strong
    } else if n >= 8 && variety >= 2 {
        PasswordStrength::Medium
    } else {
        PasswordStrength::Weak
    }
}

/// `p` holds an uppercase character.
pub open spec fn has_upper_case(p: Seq<char>) -> bool {
    exists|i: int| 0 <= i < p.len() && is_upper_case(#[trigger] p[i])
}

/// `p` holds a lowercase character.
pub open spec fn has_lower_case(p: Seq<char>) -> bool {
    exists|i: int| 0 <= i < p.len() && is_lower_case(#[trigger] p[i])
}

/// `p` holds an ASCII digit.
pub open spec fn has_ascii_digit(p: Seq<char>) -> bool {
    exists|i: int| 0 <= i < p.len() && is_digit_ascii(#[trigger] p[i])
}

/// `p` holds a character that is neither a letter nor a digit.
pub open spec fn has_special(p: Seq<char>) -> bool {
    exists|i: int| 0 <= i < p.len() && !is_alphanumeric(#[trigger] p[i])
}

/// The strength rules: under 8 bytes a password is weak; from 8 bytes any
/// two of uppercase, lowercase, digit and special character (one that is
/// neither letter nor digit) make it at least medium; from 12 bytes any
/// three make it strong; a strong one has at least 12 bytes; and one that
/// holds a single kind of character is weak.
pub proof fn lemma_strength_rules(p: Seq<char>)
    ensures
        utf8_len(p) < 8 ==> strength_of(p) == PasswordStrength::Weak,
        strength_of(p) == PasswordStrength::Strong ==> utf8_len(p) >= 12,
        utf8_len(p) >= 8 && has_lower_case(p) && has_special(p) ==> strength_of(p) != PasswordStrength::Weak,
        utf8_len(p) >= 8 && has_upper_case(p) && has_special(p) ==> strength_of(p) != PasswordStrength::Weak,
        utf8_len(p) >= 8 && has_ascii_digit(p) && has_special(p) ==> strength_of(p) != PasswordStrength::Weak,
        utf8_len(p) >= 8 && has_upper_case(p) && has_lower_case(p) ==> strength_of(p) != PasswordStrength::Weak,
        utf8_len(p) >= 8 && has_upper_case(p) && has_ascii_digit(p) ==> strength_of(p) != PasswordStrength::Weak,
        utf8_len(p) >= 8 && has_lower_case(p) && has_ascii_digit(p) ==> strength_of(p) != PasswordStrength::Weak,
        utf8_len(p) >= 12 && has_upper_case(p) && has_lower_case(p) && has_special(p)
            ==> strength_of(p) == PasswordStrength::Strong,
        utf8_len(p) >= 12 && has_upper_case(p) && has_ascii_digit(p) && has_special(p)
            ==> strength_of(p) == PasswordStrength::Strong,
        utf8_len(p) >= 12 && has_lower_case(p) && has_ascii_digit(p) && has_special(p)
            ==> strength_of(p) == PasswordStrength::Strong,
        utf8_len(p) >= 12 && has_upper_case(p) && has_lower_case(p) && has_ascii_digit(p)
            ==> strength_of(p) == PasswordStrength::Strong,
        !has_upper_case(p) && !has_ascii_digit(p) && !has_special(p) ==> strength_of(p) == PasswordStrength::Weak,
        !has_lower_case(p) && !has_ascii_digit(p) && !has_special(p) ==> strength_of(p) == PasswordStrength::Weak,
        !has_upper_case(p) && !has_lower_case(p) && !has_special(p) ==> strength_of(p) == PasswordStrength::Weak,
        !has_upper_case(p) && !has_lower_case(p) && !has_ascii_digit(p) ==> strength_of(p) == PasswordStrength::Weak,
{
}

/// The part of the form that has the keyboard focus.
#[derive(Debug, Clone, Copy, PartialEq, Eq, Structural)]
pub enum FocusedField {
    /// Host name
    Hostname,
    /// User name
    Username,
    /// Password
    Password,
    /// Password again
    PasswordConfirm,
    /// Time zone list
    Timezone,
    /// Keymap list
    Keymap,
    /// Locale list
    Locale,
    /// The Continue button
    ContinueButton,
}

/// The part after `f`, from the button back to the first field.
pub open spec fn field_after(f: FocusedField) -> FocusedField {
    match f {
        FocusedField::Hostname => FocusedField::Username,
        FocusedField::Username => FocusedField::Password,
        FocusedField::Password => FocusedField::PasswordConfirm,
        FocusedField::PasswordConfirm => FocusedField::Timezone,
        FocusedField::Timezone => FocusedField::Keymap,
        FocusedField::Keymap => FocusedField::Locale,
        FocusedField::Locale => FocusedField::ContinueButton,
        FocusedField::ContinueButton => FocusedField::Hostname,
    }
}

/// The part before `f`, from the first field back to the button.
pub open spec fn field_before(f: FocusedField) -> FocusedField {
    match f {
        FocusedField::Hostname => FocusedField::ContinueButton,
        FocusedField::Username => FocusedField::Hostname,
        FocusedField::Password => FocusedField::Username,
        FocusedField::PasswordConfirm => FocusedField::Password,
        FocusedField::Timezone => FocusedField::PasswordConfirm,
        FocusedField::Keymap => FocusedField::Timezone,
        FocusedField::Locale => FocusedField::Keymap,
        FocusedField::ContinueButton => FocusedField::Locale,
    }
}

/// Whether `f` is one of the three lists.
pub open spec fn is_selector(f: FocusedField) -> bool {
    f == FocusedField::Timezone || f == FocusedField::Keymap || f == FocusedField::Locale
}

/// The configuration screen.
pub struct ConfigurationScreen {
    config: InstallConfig,
    hostname_input: InputField,
    username_input: InputField,
    password_input: InputField,
    password_confirm_input: InputField,
    timezone_selector: FilterableSelectList<String>,
    keymap_selector: FilterableSelectList<String>,
    locale_selector: FilterableSelectList<String>,
    continue_button: Button,
    focused_field: FocusedField,
    error_message: Option<String>,
}

/// The configuration screen, seen from outside.
#[verifier::ext_equal]
pub struct ConfigView {
    pub config: InstallConfig,
    pub hostname: InputView,
    pub username: InputView,
    pub password: InputView,
    pub confirm: InputView,
    pub timezone: FilterableView<String>,
    pub keymap: FilterableView<String>,
    pub locale: FilterableView<String>,
    pub button: ButtonView,
    pub focused_field: FocusedField,
    pub error: Option<Seq<char>>,
}

impl View for ConfigurationScreen {
    type V = ConfigView;

    closed spec fn view(&self) -> ConfigView {
        ConfigView {
            config: self.config,
            hostname: self.hostname_input@,
            username: self.username_input@,
            password: self.password_input@,
            confirm: self.password_confirm_input@,
            timezone: self.timezone_selector@,
            keymap: self.keymap_selector@,
            locale: self.locale_selector@,
            button: self.continue_button@,
            focused_field: self.focused_field,
            error: opt_view(self.error_message),
        }
    }
}

/// A text field of the form: its cursor within its value, no check and no
/// message.
pub open spec fn plain_field_ok(v: InputView) -> bool {
    v.cursor <= v.value.len() && !v.has_validator && v.error is None
}

/// The rules the form keeps: its fields and lists are sound, and exactly
/// the focused part holds the focus.
pub open spec fn form_ok(v: ConfigView) -> bool {
    &&& plain_field_ok(v.hostname)
    &&& plain_field_ok(v.username)
    &&& plain_field_ok(v.password)
    &&& plain_field_ok(v.confirm)
    &&& well_formed(v.timezone)
    &&& well_formed(v.keymap)
    &&& well_formed(v.locale)
    &&& v.hostname.focused == (v.focused_field == FocusedField::Hostname)
    &&& v.username.focused == (v.focused_field == FocusedField::Username)
    &&& v.password.focused == (v.focused_field == FocusedField::Password)
    &&& v.confirm.focused == (v.focused_field == FocusedField::PasswordConfirm)
    &&& v.timezone.focused == (v.focused_field == FocusedField::Timezone)
    &&& v.keymap.focused == (v.focused_field == FocusedField::Keymap)
    &&& v.locale.focused == (v.focused_field == FocusedField::Locale)
    &&& v.button.focused == (v.focused_field == FocusedField::ContinueButton)
}

/// The form with the focus moved to `f`.
pub open spec fn with_focus(v: ConfigView, f: FocusedField) -> ConfigView {
    ConfigView {
        hostname: InputView { focused: f == FocusedField::Hostname, ..v.hostname },
        username: InputView { focused: f == FocusedField::Username, ..v.username },
        password: InputView { focused: f == FocusedField::Password, ..v.password },
        confirm: InputView { focused: f == FocusedField::PasswordConfirm, ..v.confirm },
        timezone: FilterableView { focused: f == FocusedField::Timezone, ..v.timezone },
        keymap: FilterableView { focused: f == FocusedField::Keymap, ..v.keymap },
        locale: FilterableView { focused: f == FocusedField::Locale, ..v.locale },
        button: ButtonView { focused: f == FocusedField::ContinueButton, ..v.button },
        focused_field: f,
        ..v
    }
}

/// The form with no part focused.
pub open spec fn unfocused(v: ConfigView) -> ConfigView {
    ConfigView {
        hostname: InputView { focused: false, ..v.hostname },
        username: InputView { focused: false, ..v.username },
        password: InputView { focused: false, ..v.password },
        confirm: InputView { focused: false, ..v.confirm },
        timezone: FilterableView { focused: false, ..v.timezone },
        keymap: FilterableView { focused: false, ..v.keymap },
        locale: FilterableView { focused: false, ..v.locale },
        button: ButtonView { focused: false, ..v.button },
        ..v
    }
}

/// Taking the focus from every part, then giving it to `f`, is moving it
/// to `f`.
proof fn lemma_refocus(v: ConfigView, f: FocusedField)
    ensures
        with_focus(ConfigView { focused_field: f, ..unfocused(v) }, f) == with_focus(v, f),
{
    let a = with_focus(ConfigView { focused_field: f, ..unfocused(v) }, f);
    let b = with_focus(v, f);
    assert(a.hostname =~= b.hostname);
    assert(a.username =~= b.username);
    assert(a.password =~= b.password);
    assert(a.confirm =~= b.confirm);
    assert(a.timezone =~= b.timezone);
    assert(a.keymap =~= b.keymap);
    assert(a.locale =~= b.locale);
    assert(a.button =~= b.button);
    assert(a =~= b);
}

/// Moving the focus keeps the form sound.
proof fn lemma_focus_keeps_form(v: ConfigView, f: FocusedField)
    requires
        form_ok(v),
    ensures
        form_ok(with_focus(v, f)),
{
    let w = with_focus(v, f);
    assert(well_formed(w.timezone) == well_formed(v.timezone));
    assert(well_formed(w.keymap) == well_formed(v.keymap));
    assert(well_formed(w.locale) == well_formed(v.locale));
}

/// The value selected in a list, if one is visible.
pub open spec fn selection_of(v: FilterableView<String>) -> Option<String> {
    if v.filtered.len() == 0 {
        None
    } else {
        Some(v.values[v.filtered[clamped_position(v)] as int])
    }
}

/// The label selected in a list, if one is visible.
pub open spec fn selected_label_of(v: FilterableView<String>) -> Option<Seq<char>> {
    if v.filtered.len() == 0 {
        None
    } else {
        Some(v.labels[v.filtered[clamped_position(v)] as int])
    }
}

/// `new` is `old` with the form's choices taken in: host name, user name
/// and password from the fields; the time zone from its list, and the
/// keymap and locale codes (the labels of their lists) where they select
/// something; everything else as it was.
pub open spec fn config_from_form(new: InstallConfig, old: InstallConfig, v: ConfigView) -> bool {
    &&& new.hostname@ == v.hostname.value
    &&& new.user.username@ == v.username.value
    &&& new.user.password@ == v.password.value
    &&& new.user.full_name == old.user.full_name
    &&& new.user.is_admin == old.user.is_admin
    &&& new.timezone == (match selection_of(v.timezone) { Some(t) => t, None => old.timezone })
    &&& new.keymap@ == (match selected_label_of(v.keymap) { Some(k) => k, None => old.keymap@ })
    &&& new.locale@ == (match selected_label_of(v.locale) { Some(l) => l, None => old.locale@ })
    &&& new.bootloader == old.bootloader
    &&& new.network_manager == old.network_manager
    &&& new.disk_path == old.disk_path
    &&& new.disk_size == old.disk_size
    &&& new.swap_size_gb == old.swap_size_gb
    &&& new.root_filesystem == old.root_filesystem
    &&& new.luks_encryption == old.luks_encryption
    &&& new.luks_passphrase == old.luks_passphrase
}

/// What is wrong with the form, if anything: the passwords differ, or the
/// configuration breaks a rule.
pub open spec fn form_problem(v: ConfigView) -> Option<Seq<char>> {
    if v.password.value != v.confirm.value {
        Some("Passwords do not match"@)
    } else {
        config_problem(v.hostname.value, v.username.value, v.password.value)
    }
}

/// A list after a key's event reaches it: a character narrows the query,
/// Backspace widens it. (Keys send lists no other event they take.)
pub open spec fn selector_typed(v: FilterableView<String>, e: InputEvent) -> FilterableView<String> {
    if !v.enabled {
        v
    } else {
        match e {
            InputEvent::Char(c) => requeried(v, v.query.push(c)),
            InputEvent::Backspace => requeried(v, if v.query.len() > 0 { v.query.drop_last() } else { v.query }),
            InputEvent::Escape => requeried(v, Seq::empty()),
            InputEvent::Up => moved_up(v),
            InputEvent::Down => moved_down(v),
            _ => v,
        }
    }
}

/// The form after the focused part takes `e`.
pub open spec fn routed(v: ConfigView, e: InputEvent) -> ConfigView {
    match v.focused_field {
        FocusedField::Hostname => ConfigView { hostname: typed(v.hostname, e), ..v },
        FocusedField::Username => ConfigView { username: typed(v.username, e), ..v },
        FocusedField::Password => ConfigView { password: typed(v.password, e), ..v },
        FocusedField::PasswordConfirm => ConfigView { confirm: typed(v.confirm, e), ..v },
        FocusedField::Timezone => ConfigView { timezone: selector_typed(v.timezone, e), ..v },
        FocusedField::Keymap => ConfigView { keymap: selector_typed(v.keymap, e), ..v },
        FocusedField::Locale => ConfigView { locale: selector_typed(v.locale, e), ..v },
        FocusedField::ContinueButton => v,
    }
}

/// The lines of the configuration screen's help.
pub open spec fn configuration_help() -> Seq<Seq<char>> {
    seq![
        "# System Configuration Screen"@,
        ""@,
        "Configure basic system settings for your NixOS installation."@,
        ""@,
        "## Required Fields"@,
        ""@,
        "- Hostname: Name for your computer on the network"@,
        "  - Must contain only letters, numbers, and hyphens"@,
        "  - Default: nixos"@,
        ""@,
        "- Username: Your user account name"@,
        "  - Must start with a lowercase letter, then lowercase letters, numbers, or underscores"@,
        "  - Maximum 32 characters"@,
        "  - This user will have sudo privileges"@,
        ""@,
        "- Password: Your account password"@,
        "  - Minimum 8 characters"@,
        "  - Must match confirmation"@,
        ""@,
        "## Additional Settings"@,
        ""@,
        "- Timezone: Select your timezone from ~250 options"@,
        "  - Type to filter timezones (e.g., 'york', 'tokyo', 'london')"@,
        "  - Use ↑↓ to navigate filtered results"@,
        "  - Press Esc to clear filter"@,
        "  - Default: America/New_York"@,
        ""@,
        "- Keyboard Layout: Select your console keymap"@,
        "  - Type to filter (e.g., 'german', 'french', 'dvorak')"@,
        "  - Default: us"@,
        ""@,
        "- Locale: Select your system locale"@,
        "  - Type to filter (e.g., 'german', 'french', 'japanese')"@,
        "  - Default: en_US.UTF-8"@,
        ""@,
        "## Keyboard Shortcuts"@,
        ""@,
        "- ↑↓: Navigate between fields (or within selector lists)"@,
        "- ←→: Navigate to previous/next field (works everywhere)"@,
        "- Tab / Shift+Tab: Also navigate fields"@,
        "- Enter: Move to next field (or submit from Continue button)"@,
        "- ← / Backspace: Go back (when not in a text field)"@,
        "- ?: Toggle this help panel"@,
        "- q / Esc: Quit the installer"@,
        ""@,
        "## Navigation Flow"@,
        ""@,
        "- Fill out all fields using Tab or Enter to move between them"@,
        "- When you reach the Continue button, press Enter to submit"@,
        "- The form will validate and proceed to the confirmation screen"@,
    ]
}

/// The boot loader for a boot mode: GRUB on a BIOS machine, systemd-boot
/// otherwise.
pub open spec fn loader_for(mode: BootMode) -> BootLoader {
    match mode {
        BootMode::Bios => BootLoader::Grub,
        _ => BootLoader::SystemdBoot,
    }
}

impl ConfigurationScreen {
    /// The rules of `form_ok` hold of this screen.
    pub open spec fn wf(&self) -> bool {
        form_ok(self@)
    }

    /// Takes the focus from every part.
    fn clear_focus(&mut self)
        requires
            plain_field_ok(old(self)@.hostname),
            plain_field_ok(old(self)@.username),
            plain_field_ok(old(self)@.password),
            plain_field_ok(old(self)@.confirm),
        ensures
            final(self)@ == unfocused(old(self)@),
    {
        self.clear_field_focus();
        self.clear_list_focus();
        self.continue_button.set_focused(false);
        assert(self@ =~= unfocused(old(self)@));
    }

    /// Takes the focus from the text fields.
    fn clear_field_focus(&mut self)
        requires
            plain_field_ok(old(self)@.hostname),
            plain_field_ok(old(self)@.username),
            plain_field_ok(old(self)@.password),
            plain_field_ok(old(self)@.confirm),
        ensures
            final(self)@ == (ConfigView {
                hostname: InputView { focused: false, ..old(self)@.hostname },
                username: InputView { focused: false, ..old(self)@.username },
                password: InputView { focused: false, ..old(self)@.password },
                confirm: InputView { focused: false, ..old(self)@.confirm },
                ..old(self)@
            }),
    {
        self.hostname_input.set_focused(false);
        assert(self.hostname_input@ =~= InputView { focused: false, ..old(self)@.hostname });
        self.username_input.set_focused(false);
        assert(self.username_input@ =~= InputView { focused: false, ..old(self)@.username });
        self.password_input.set_focused(false);
        assert(self.password_input@ =~= InputView { focused: false, ..old(self)@.password });
        self.password_confirm_input.set_focused(false);
        assert(self.password_confirm_input@ =~= InputView { focused: false, ..old(self)@.confirm });
    }

    /// Takes the focus from the lists.
    fn clear_list_focus(&mut self)
        ensures
            final(self)@ == (ConfigView {
                timezone: FilterableView { focused: false, ..old(self)@.timezone },
                keymap: FilterableView { focused: false, ..old(self)@.keymap },
                locale: FilterableView { focused: false, ..old(self)@.locale },
                ..old(self)@
            }),
    {
        self.timezone_selector.set_focused(false);
        assert(self.timezone_selector@ =~= FilterableView { focused: false, ..old(self)@.timezone });
        self.keymap_selector.set_focused(false);
        assert(self.keymap_selector@ =~= FilterableView { focused: false, ..old(self)@.keymap });
        self.locale_selector.set_focused(false);
        assert(self.locale_selector@ =~= FilterableView { focused: false, ..old(self)@.locale });
    }

    /// Gives the focus to the part named by `focused_field`.
    #[verifier::spinoff_prover]
    #[verifier::rlimit(30)]
    fn set_focus(&mut self)
        requires
            !old(self)@.hostname.focused,
            !old(self)@.username.focused,
            !old(self)@.password.focused,
            !old(self)@.confirm.focused,
            !old(self)@.timezone.focused,
            !old(self)@.keymap.focused,
            !old(self)@.locale.focused,
            !old(self)@.button.focused,
            plain_field_ok(old(self)@.hostname),
            plain_field_ok(old(self)@.username),
            plain_field_ok(old(self)@.password),
            plain_field_ok(old(self)@.confirm),
        ensures
            final(self)@ == with_focus(old(self)@, old(self)@.focused_field),
    {
        match self.focused_field {
            FocusedField::Hostname => {
                self.hostname_input.set_focused(true);
                assert(self.hostname_input@ =~= InputView { focused: true, ..old(self)@.hostname });
            },
            FocusedField::Username => {
                self.username_input.set_focused(true);
                assert(self.username_input@ =~= InputView { focused: true, ..old(self)@.username });
            },
            FocusedField::Password => {
                self.password_input.set_focused(true);
                assert(self.password_input@ =~= InputView { focused: true, ..old(self)@.password });
            },
            FocusedField::PasswordConfirm => {
                self.password_confirm_input.set_focused(true);
                assert(self.password_confirm_input@ =~= InputView { focused: true, ..old(self)@.confirm });
            },
            FocusedField::Timezone => {
                self.timezone_selector.set_focused(true);
                assert(self.timezone_selector@ =~= FilterableView { focused: true, ..old(self)@.timezone });
            },
            FocusedField::Keymap => {
                self.keymap_selector.set_focused(true);
                assert(self.keymap_selector@ =~= FilterableView { focused: true, ..old(self)@.keymap });
            },
            FocusedField::Locale => {
                self.locale_selector.set_focused(true);
                assert(self.locale_selector@ =~= FilterableView { focused: true, ..old(self)@.locale });
            },
            FocusedField::ContinueButton => self.continue_button.set_focused(true),
        }
        assert(self@ =~= with_focus(old(self)@, old(self)@.focused_field));
    }

    /// Moves the focus to `f`.
    fn move_focus(&mut self, f: FocusedField)
        requires
            old(self).wf(),
        ensures
            final(self).wf(),
            final(self)@ == with_focus(old(self)@, f),
    {
        self.clear_focus();
        self.focused_field = f;
        self.set_focus();
        proof {
            lemma_refocus(old(self)@, f);
            lemma_focus_keeps_form(old(self)@, f);
        }
    }

    /// Moves the focus to the next part, from the button back to the first
    /// field.
    pub fn focus_next(&mut self)
        requires
            old(self).wf(),
        ensures
            final(self).wf(),
            final(self)@ == with_focus(old(self)@, field_after(old(self)@.focused_field)),
    {
        let next = match self.focused_field {
            FocusedField::Hostname => FocusedField::Username,
            FocusedField::Username => FocusedField::Password,
            FocusedField::Password => FocusedField::PasswordConfirm,
            FocusedField::PasswordConfirm => FocusedField::Timezone,
            FocusedField::Timezone => FocusedField::Keymap,
            FocusedField::Keymap => FocusedField::Locale,
            FocusedField::Locale => FocusedField::ContinueButton,
            FocusedField::ContinueButton => FocusedField::Hostname,
        };
        self.move_focus(next);
    }

    /// Moves the focus to the previous part, from the first field back to
    /// the button.
    pub fn focus_previous(&mut self)
        requires
            old(self).wf(),
        ensures
            final(self).wf(),
            final(self)@ == with_focus(old(self)@, field_before(old(self)@.focused_field)),
    {
        let prev = match self.focused_field {
            FocusedField::Hostname => FocusedField::ContinueButton,
            FocusedField::Username => FocusedField::Hostname,
            FocusedField::Password => FocusedField::Username,
            FocusedField::PasswordConfirm => FocusedField::Password,
            FocusedField::Timezone => FocusedField::PasswordConfirm,
            FocusedField::Keymap => FocusedField::Timezone,
            FocusedField::Locale => FocusedField::Keymap,
            FocusedField::ContinueButton => FocusedField::Locale,
        };
        self.move_focus(prev);
    }

    /// The part that has the focus.
    pub fn focused_field(&self) -> (r: FocusedField)
        ensures
            r == self@.focused_field,
    {
        self.focused_field
    }

    /// The message of the last failed check, if any.
    pub fn error_message(&self) -> (r: Option<&str>)
        ensures
            match r {
                Some(m) => self@.error == Some(m@),
                None => self@.error is None,
            },
    {
        match &self.error_message {
            Some(m) => Some(m.as_str()),
            None => None,
        }
    }

    /// The configuration as the form last took it in.
    pub fn get_config(&self) -> (r: &InstallConfig)
        ensures
            *r == self@.config,
    {
        &self.config
    }

    /// The host name field.
    pub fn hostname_input(&self) -> (r: &InputField)
        ensures
            r@ == self@.hostname,
    {
        &self.hostname_input
    }

    /// The user name field.
    pub fn username_input(&self) -> (r: &InputField)
        ensures
            r@ == self@.username,
    {
        &self.username_input
    }

    /// The password field.
    pub fn password_input(&self) -> (r: &InputField)
        ensures
            r@ == self@.password,
    {
        &self.password_input
    }

    /// The field that repeats the password.
    pub fn password_confirm_input(&self) -> (r: &InputField)
        ensures
            r@ == self@.confirm,
    {
        &self.password_confirm_input
    }

    /// The list of time zones.
    pub fn timezone_selector(&self) -> (r: &FilterableSelectList<String>)
        ensures
            r@ == self@.timezone,
    {
        &self.timezone_selector
    }

    /// The list of keymaps.
    pub fn keymap_selector(&self) -> (r: &FilterableSelectList<String>)
        ensures
            r@ == self@.keymap,
    {
        &self.keymap_selector
    }

    /// The list of locales.
    pub fn locale_selector(&self) -> (r: &FilterableSelectList<String>)
        ensures
            r@ == self@.locale,
    {
        &self.locale_selector
    }

    /// The button that submits the form.
    pub fn continue_button(&self) -> (r: &Button)
        ensures
            r@ == self@.button,
    {
        &self.continue_button
    }

    /// Sets how many rows each list shows, for lists drawn the given
    /// numbers of rows tall; nothing else changes.
    pub fn fit_lists(&mut self, timezone_height: u16, keymap_height: u16, locale_height: u16)
        requires
            old(self).wf(),
        ensures
            final(self).wf(),
            final(self)@ == (ConfigView {
                timezone: FilterableView { max_visible: rows_for_height(timezone_height), ..old(self)@.timezone },
                keymap: FilterableView { max_visible: rows_for_height(keymap_height), ..old(self)@.keymap },
                locale: FilterableView { max_visible: rows_for_height(locale_height), ..old(self)@.locale },
                ..old(self)@
            }),
    {
        self.timezone_selector.fit_to_height(timezone_height);
        self.keymap_selector.fit_to_height(keymap_height);
        self.locale_selector.fit_to_height(locale_height);
        assert(self@.timezone =~= FilterableView { max_visible: rows_for_height(timezone_height), ..old(self)@.timezone });
        assert(self@.keymap =~= FilterableView { max_visible: rows_for_height(keymap_height), ..old(self)@.keymap });
        assert(self@.locale =~= FilterableView { max_visible: rows_for_height(locale_height), ..old(self)@.locale });
    }

    /// Picks the boot loader for the machine's boot mode: GRUB on a BIOS
    /// machine, systemd-boot otherwise.
    pub fn set_boot_mode(&mut self, boot_mode: BootMode)
        requires
            old(self).wf(),
        ensures
            final(self).wf(),
            final(self)@ == (ConfigView {
                config: InstallConfig { bootloader: loader_for(boot_mode), ..old(self)@.config },
                ..old(self)@
            }),
    {
        self.config.bootloader = match boot_mode {
            BootMode::Bios => BootLoader::Grub,
            _ => BootLoader::SystemdBoot,
        };
        assert(self@ =~= ConfigView {
            config: InstallConfig { bootloader: loader_for(boot_mode), ..old(self)@.config },
            ..old(self)@
        });
    }

    /// Takes in the disk and partitioning choices.
    pub fn set_disk_config(
        &mut self,
        disk_path: String,
        disk_size: u64,
        swap_size_gb: u64,
        root_filesystem: String,
        luks_encryption: bool,
        luks_passphrase: String,
    )
        requires
            old(self).wf(),
        ensures
            final(self).wf(),
            final(self)@ == (ConfigView {
                config: InstallConfig {
                    disk_path,
                    disk_size,
                    swap_size_gb,
                    root_filesystem,
                    luks_encryption,
                    luks_passphrase,
                    ..old(self)@.config
                },
                ..old(self)@
            }),
    {
        self.config.disk_path = disk_path;
        self.config.disk_size = disk_size;
        self.config.swap_size_gb = swap_size_gb;
        self.config.root_filesystem = root_filesystem;
        self.config.luks_encryption = luks_encryption;
        self.config.luks_passphrase = luks_passphrase;
        assert(self@ =~= ConfigView { config: self.config, ..old(self)@ });
    }

    /// Takes the form's choices into the configuration.
    fn update_config(&mut self)
        requires
            old(self).wf(),
        ensures
            final(self).wf(),
            config_from_form(final(self)@.config, old(self)@.config, old(self)@),
            final(self)@ == (ConfigView { config: final(self)@.config, ..old(self)@ }),
    {
        self.config.hostname = self.hostname_input.value();
        self.config.user.username = self.username_input.value();
        self.config.user.password = self.password_input.value();
        if let Some(timezone) = self.timezone_selector.selected_value() {
            self.config.timezone = timezone.clone();
        }
        if let Some(keymap) = self.keymap_selector.selected_label() {
            self.config.keymap = String::from_str(keymap);
        }
        if let Some(locale) = self.locale_selector.selected_label() {
            self.config.locale = String::from_str(locale);
        }
        assert(self@ =~= ConfigView { config: self.config, ..old(self)@ });
    }

    /// Takes the form's choices in and checks them: the passwords must
    /// match and the configuration must meet its rules. Keeps the message
    /// of the first problem, or none.
    fn validate(&mut self) -> (ok: bool)
        requires
            old(self).wf(),
        ensures
            final(self).wf(),
            config_from_form(final(self)@.config, old(self)@.config, old(self)@),
            final(self)@ == (ConfigView { config: final(self)@.config, error: form_problem(old(self)@), ..old(self)@ }),
            ok == form_problem(old(self)@) is None,
    {
        self.error_message = None;
        self.update_config();
        let password = self.password_input.value();
        let confirm = self.password_confirm_input.value();
        if password != confirm {
            self.error_message = Some(String::from_str("Passwords do not match"));
            assert(self@ =~= ConfigView { config: self@.config, error: form_problem(old(self)@), ..old(self)@ });
            return false;
        }
        match self.config.validate() {
            Err(e) => {
                self.error_message = Some(e);
                assert(self@ =~= ConfigView { config: self@.config, error: form_problem(old(self)@), ..old(self)@ });
                false
            },
            Ok(()) => {
                assert(self@ =~= ConfigView { config: self@.config, error: form_problem(old(self)@), ..old(self)@ });
                true
            },
        }
    }
}

/// There is a first label equal to `label` when there is one.
proof fn lemma_first_label(labels: Seq<Seq<char>>, label: Seq<char>, i: int)
    requires
        0 <= i < labels.len(),
        labels[i] == label,
    ensures
        exists|k: int| 0 <= k < labels.len() && labels[k] == label && forall|j: int| 0 <= j < k ==> labels[j] != label,
    decreases i,
{
    if exists|j: int| 0 <= j < i && labels[j] == label {
        let j = choose|j: int| 0 <= j < i && labels[j] == label;
        lemma_first_label(labels, label, j);
    } else {
        assert(forall|j: int| 0 <= j < i ==> labels[j] != label);
    }
}

/// Selects, in a list with an empty query, the first item labelled `label`.
fn select_label(list: &mut FilterableSelectList<String>, label: &str)
    requires
        well_formed(old(list)@),
        old(list)@.query.len() == 0,
    ensures
        well_formed(final(list)@),
        final(list)@ == (FilterableView {
            selected: final(list)@.selected,
            scroll_offset: final(list)@.scroll_offset,
            ..old(list)@
        }),
        (exists|i: int| 0 <= i < old(list)@.labels.len() && old(list)@.labels[i] == label@)
            ==> selected_label_of(final(list)@) == Some(label@),
        (exists|i: int| 0 <= i < old(list)@.labels.len() && old(list)@.labels[i] == label@) ==> {
            &&& final(list)@.selected < final(list)@.labels.len()
            &&& final(list)@.labels[final(list)@.selected as int] == label@
            &&& forall|j: int| 0 <= j < final(list)@.selected ==> final(list)@.labels[j] != label@
        },
{
    let ghost v = list@;
    list.set_selected_by_label(label);
    proof {
        let w = list@;
        assert(w =~= FilterableView { selected: w.selected, scroll_offset: w.scroll_offset, ..v });
        if exists|i: int| 0 <= i < v.labels.len() && v.labels[i] == label@ {
            let i = choose|i: int| 0 <= i < v.labels.len() && v.labels[i] == label@;
            lemma_first_label(v.labels, label@, i);
            let first = choose|k: int| 0 <= k < v.labels.len() && v.labels[k] == label@
                && forall|j: int| 0 <= j < k ==> v.labels[j] != label@;
            assert(v.filtered == Seq::new(v.labels.len(), |k: int| k as usize));
            assert(v.filtered[first] == first as usize);
            assert(v.filtered.contains(first as usize));
            assert(w.filtered[w.selected as int] == first as usize);
            assert(clamped_position(w) == w.selected);
            assert(w.selected == first);
        }
    }
}

/// `pairs` with each name paired with itself.
fn self_paired(names: Vec<String>) -> (r: Vec<(String, String)>)
    ensures
        r@.map_values(|p: (String, String)| p.0@) == string_views(names@),
        r@.map_values(|p: (String, String)| p.1) == names@,
{
    let mut r: Vec<(String, String)> = Vec::new();
    let mut i: usize = 0;
    while i < names.len()
        invariant
            i <= names@.len(),
            r@.len() == i,
            forall|k: int| 0 <= k < i ==> (#[trigger] r@[k]).0@ == names@[k]@ && r@[k].1 == names@[k],
        decreases names@.len() - i,
    {
        let n = names[i].clone();
        r.push((names[i].clone(), n));
        i = i + 1;
    }
    assert(r@.map_values(|p: (String, String)| p.0@) =~= string_views(names@));
    assert(r@.map_values(|p: (String, String)| p.1) =~= names@);
    r
}

/// The time zone preselected: the detected one, or `America/New_York`.
pub open spec fn default_zone(detected: Option<&str>) -> Seq<char> {
    match detected {
        Some(t) => t@,
        None => "America/New_York"@,
    }
}

impl ConfigurationScreen {
    /// The form as it first appears: the default configuration; the host
    /// name field holding `nixos` and having the focus; empty user name and
    /// password fields, the password ones masked; the time zones, keymaps
    /// and locales offered, with the detected time zone (or
    /// `America/New_York`), `us` and `en_US.UTF-8` selected.
    pub fn new(detected_timezone: Option<&str>) -> (s: Self)
        ensures
            s.wf(),
            is_default_config(s@.config),
            s@.focused_field == FocusedField::Hostname,
            s@.error is None,
            s@.hostname.value == "nixos"@,
            s@.hostname.label == "Hostname"@,
            s@.username.value.len() == 0,
            s@.username.label == "Username"@,
            s@.password.value.len() == 0,
            s@.password.label == "Password"@,
            s@.password.password,
            s@.confirm.value.len() == 0,
            s@.confirm.label == "Confirm Password"@,
            s@.confirm.password,
            !s@.hostname.password && !s@.username.password,
            s@.timezone.title == "Timezone"@,
            s@.timezone.labels == timezone_names(),
            string_views(s@.timezone.values) == timezone_names(),
            s@.timezone.query.len() == 0,
            s@.keymap.title == "Keyboard Layout"@,
            s@.keymap.labels == keymap_entries().map_values(|p: (Seq<char>, Seq<char>)| p.0),
            string_views(s@.keymap.values) == keymap_entries().map_values(|p: (Seq<char>, Seq<char>)| p.1),
            s@.keymap.query.len() == 0,
            s@.locale.title == "Locale"@,
            s@.locale.labels == locale_entries().map_values(|p: (Seq<char>, Seq<char>)| p.0),
            string_views(s@.locale.values) == locale_entries().map_values(|p: (Seq<char>, Seq<char>)| p.1),
            s@.locale.query.len() == 0,
            (exists|i: int| 0 <= i < timezone_names().len() && timezone_names()[i] == default_zone(detected_timezone))
                ==> selected_label_of(s@.timezone) == Some(default_zone(detected_timezone)),
            (exists|i: int| 0 <= i < s@.keymap.labels.len() && s@.keymap.labels[i] == "us"@)
                ==> selected_label_of(s@.keymap) == Some("us"@),
            (exists|i: int| 0 <= i < s@.locale.labels.len() && s@.locale.labels[i] == "en_US.UTF-8"@)
                ==> selected_label_of(s@.locale) == Some("en_US.UTF-8"@),
            s@.button.label == "Continue"@,
            s@.hostname.enabled && s@.username.enabled && s@.password.enabled && s@.confirm.enabled,
            s@.hostname.max_length is None && s@.username.max_length is None,
            s@.password.max_length is None && s@.confirm.max_length is None,
            s@.timezone.enabled && s@.keymap.enabled && s@.locale.enabled,
            s@.button.enabled,
            detected_timezone is None ==> s@.timezone.selected == 30,
    {
        let mut hostname_input = InputField::new("Hostname");
        hostname_input.set_value("nixos");
        hostname_input.set_focused(true);
        let username_input = InputField::new("Username");
        let password_input = InputField::new("Password").password();
        let password_confirm_input = InputField::new("Confirm Password").password();

        proof {
            lemma_default_zone_position();
        }
        let timezone_items = self_paired(get_timezone_list());
        let mut timezone_selector = FilterableSelectList::new("Timezone").with_items(timezone_items);
        match detected_timezone {
            Some(t) => select_label(&mut timezone_selector, t),
            None => select_label(&mut timezone_selector, "America/New_York"),
        }

        let keymap_items = get_keymap_list();
        let ghost km = keymap_items@;
        let mut keymap_selector = FilterableSelectList::new("Keyboard Layout").with_items(keymap_items);
        select_label(&mut keymap_selector, "us");

        let locale_items = get_locale_list();
        let ghost lc = locale_items@;
        let mut locale_selector = FilterableSelectList::new("Locale").with_items(locale_items);
        select_label(&mut locale_selector, "en_US.UTF-8");

        let s = ConfigurationScreen {
            config: InstallConfig::default(),
            hostname_input,
            username_input,
            password_input,
            password_confirm_input,
            timezone_selector,
            keymap_selector,
            locale_selector,
            continue_button: Button::new("Continue"),
            focused_field: FocusedField::Hostname,
            error_message: None,
        };
        proof {
            assert(s@.keymap.labels =~= keymap_entries().map_values(|p: (Seq<char>, Seq<char>)| p.0)) by {
                assert(string_pair_views(km) == keymap_entries());
                assert(forall|i: int| 0 <= i < km.len() ==> #[trigger] string_pair_views(km)[i] == (km[i].0@, km[i].1@));
            }
            assert(string_views(s@.keymap.values) =~= keymap_entries().map_values(|p: (Seq<char>, Seq<char>)| p.1)) by {
                assert(forall|i: int| 0 <= i < km.len() ==> #[trigger] string_pair_views(km)[i] == (km[i].0@, km[i].1@));
            }
            assert(s@.locale.labels =~= locale_entries().map_values(|p: (Seq<char>, Seq<char>)| p.0)) by {
                assert(forall|i: int| 0 <= i < lc.len() ==> #[trigger] string_pair_views(lc)[i] == (lc[i].0@, lc[i].1@));
            }
            assert(string_views(s@.locale.values) =~= locale_entries().map_values(|p: (Seq<char>, Seq<char>)| p.1)) by {
                assert(forall|i: int| 0 <= i < lc.len() ==> #[trigger] string_pair_views(lc)[i] == (lc[i].0@, lc[i].1@));
            }
        }
        s
    }
}

/// What the configuration screen does on `key`, as the action given and
/// the form after it. On the Continue button, the keys every screen knows
/// and the keys that go back act first. Tab and Right move the focus on,
/// Shift+Tab and Left move it back, and so do Down and Up outside the lists;
/// in a focused list, Down and Up move its selection and Escape clears its
/// filter. Enter moves the focus on, or, on the Continue button, checks the
/// form and leads on when nothing is wrong with it. Any other key goes to
/// the focused field or list as its event, if it has one; a list that takes
/// a key updates the configuration's choices.
pub open spec fn configuration_step(v: ConfigView, key: Key, new: ConfigView, action: ScreenAction) -> bool {
    let f = v.focused_field;
    if f == FocusedField::ContinueButton && standard_action(key) is Some {
        action == standard_action(key)->0 && new == v
    } else if f == FocusedField::ContinueButton && back_action(key) is Some {
        action == ScreenAction::Back && new == v
    } else {
        match key {
            Key::Tab | Key::Right => action == ScreenAction::Stay && new == with_focus(v, field_after(f)),
            Key::BackTab | Key::Left => action == ScreenAction::Stay && new == with_focus(v, field_before(f)),
            Key::Down => action == ScreenAction::Stay && if is_selector(f) {
                list_step(v, InputEvent::Down, new)
            } else {
                new == with_focus(v, field_after(f))
            },
            Key::Up => action == ScreenAction::Stay && if is_selector(f) {
                list_step(v, InputEvent::Up, new)
            } else {
                new == with_focus(v, field_before(f))
            },
            Key::Esc => action == ScreenAction::Stay && if is_selector(f) {
                list_step(v, InputEvent::Escape, new)
            } else {
                new == v
            },
            Key::Enter => if f == FocusedField::ContinueButton {
                &&& config_from_form(new.config, v.config, v)
                &&& new == (ConfigView { config: new.config, error: form_problem(v), ..v })
                &&& action == if form_problem(v) is None { ScreenAction::Next } else { ScreenAction::Stay }
            } else {
                action == ScreenAction::Stay && new == with_focus(v, field_after(f))
            },
            _ => action == ScreenAction::Stay && match input_event_of(key) {
                None => new == v,
                Some(e) => if is_selector(f) {
                    list_step(v, e, new)
                } else {
                    new == routed(v, e)
                },
            },
        }
    }
}

/// `new` is the form `v` after its focused list took `e`: the list changed
/// as it does for the event, and the configuration took in the choices.
pub open spec fn list_step(v: ConfigView, e: InputEvent, new: ConfigView) -> bool {
    config_from_form(new.config, v.config, routed(v, e))
        && new == (ConfigView { config: new.config, ..routed(v, e) })
}

/// The form may go on when the host name, user name and both passwords
/// are filled in.
pub open spec fn form_filled(v: ConfigView) -> bool {
    v.hostname.value.len() > 0 && v.username.value.len() > 0 && v.password.value.len() > 0
        && v.confirm.value.len() > 0
}

impl ConfigurationScreen {
    /// Hands `e` to the focused field or list; a list that got it updates
    /// the configuration's choices.
    fn route_event(&mut self, e: InputEvent)
        requires
            old(self).wf(),
            !(e is Enter),
        ensures
            final(self).wf(),
            if is_selector(old(self)@.focused_field) {
                list_step(old(self)@, e, final(self)@)
            } else {
                final(self)@ == routed(old(self)@, e)
            },
    {
        match self.focused_field {
            FocusedField::Hostname => {
                self.hostname_input.handle_input(e);
            },
            FocusedField::Username => {
                self.username_input.handle_input(e);
            },
            FocusedField::Password => {
                self.password_input.handle_input(e);
            },
            FocusedField::PasswordConfirm => {
                self.password_confirm_input.handle_input(e);
            },
            FocusedField::Timezone => {
                self.timezone_selector.handle_input(e);
                assert(self.timezone_selector@ =~= selector_typed(old(self)@.timezone, e));
                assert(self@ =~= routed(old(self)@, e));
                self.update_config();
            },
            FocusedField::Keymap => {
                self.keymap_selector.handle_input(e);
                assert(self.keymap_selector@ =~= selector_typed(old(self)@.keymap, e));
                assert(self@ =~= routed(old(self)@, e));
                self.update_config();
            },
            FocusedField::Locale => {
                self.locale_selector.handle_input(e);
                assert(self.locale_selector@ =~= selector_typed(old(self)@.locale, e));
                assert(self@ =~= routed(old(self)@, e));
                self.update_config();
            },
            FocusedField::ContinueButton => {},
        }
        assert(is_selector(old(self)@.focused_field) || self@ =~= routed(old(self)@, e));
    }
}

impl Default for ConfigurationScreen {
    fn default() -> (s: Self)
        ensures
            s.wf(),
            is_default_config(s@.config),
            s@.focused_field == FocusedField::Hostname,
    {
        ConfigurationScreen::new(None)
    }
}

impl Screen for ConfigurationScreen {
    open spec fn screen_wf(&self) -> bool {
        self.wf()
    }

    fn handle_input(&mut self, key: Key) -> (action: ScreenAction)
        ensures
            configuration_step(old(self)@, key, final(self)@, action),
    {
        if !self.hostname_input.is_focused() && !self.username_input.is_focused() && !self.password_input.is_focused()
            && !self.password_confirm_input.is_focused() && !self.timezone_selector.is_focused()
            && !self.keymap_selector.is_focused() && !self.locale_selector.is_focused()
        {
            if let Some(action) = self.handle_standard_input(key) {
                return action;
            }
            if let Some(action) = self.handle_back_input(key) {
                return action;
            }
        }
        let in_list = self.timezone_selector.is_focused() || self.keymap_selector.is_focused()
            || self.locale_selector.is_focused();
        match key {
            Key::Tab | Key::Right => {
                self.focus_next();
                ScreenAction::Stay
            },
            Key::BackTab | Key::Left => {
                self.focus_previous();
                ScreenAction::Stay
            },
            Key::Down => {
                if in_list {
                    self.route_event(InputEvent::Down);
                } else {
                    self.focus_next();
                }
                ScreenAction::Stay
            },
            Key::Up => {
                if in_list {
                    self.route_event(InputEvent::Up);
                } else {
                    self.focus_previous();
                }
                ScreenAction::Stay
            },
            Key::Esc => {
                if in_list {
                    self.route_event(InputEvent::Escape);
                }
                ScreenAction::Stay
            },
            Key::Enter => {
                match self.focused_field {
                    FocusedField::ContinueButton => {
                        if self.validate() {
                            ScreenAction::Next
                        } else {
                            ScreenAction::Stay
                        }
                    },
                    _ => {
                        self.focus_next();
                        ScreenAction::Stay
                    },
                }
            },
            _ => {
                if let Some(event) = keycode_to_input_event(key) {
                    self.route_event(event);
                }
                ScreenAction::Stay
            },
        }
    }

    /// Nothing happens when the screen is entered.
    fn on_enter(&mut self)
        ensures
            final(self)@ == old(self)@,
    {
    }

    /// Nothing happens when the screen is left.
    fn on_exit(&mut self)
        ensures
            final(self)@ == old(self)@,
    {
    }

    fn title(&self) -> (r: &str)
        ensures
            r@ == "System Configuration"@,
    {
        "System Configuration"
    }

    fn help_content(&self) -> (r: Vec<String>)
        ensures
            string_views(r@) == configuration_help(),
    {
    strings_of(&[
        "# System Configuration Screen",
        "",
        "Configure basic system settings for your NixOS installation.",
        "",
        "## Required Fields",
        "",
        "- Hostname: Name for your computer on the network",
        "  - Must contain only letters, numbers, and hyphens",
        "  - Default: nixos",
        "",
        "- Username: Your user account name",
        "  - Must start with a lowercase letter, then lowercase letters, numbers, or underscores",
        "  - Maximum 32 characters",
        "  - This user will have sudo privileges",
        "",
        "- Password: Your account password",
        "  - Minimum 8 characters",
        "  - Must match confirmation",
        "",
        "## Additional Settings",
        "",
        "- Timezone: Select your timezone from ~250 options",
        "  - Type to filter timezones (e.g., 'york', 'tokyo', 'london')",
        "  - Use ↑↓ to navigate filtered results",
        "  - Press Esc to clear filter",
        "  - Default: America/New_York",
        "",
        "- Keyboard Layout: Select your console keymap",
        "  - Type to filter (e.g., 'german', 'french', 'dvorak')",
        "  - Default: us",
        "",
        "- Locale: Select your system locale",
        "  - Type to filter (e.g., 'german', 'french', 'japanese')",
        "  - Default: en_US.UTF-8",
        "",
        "## Keyboard Shortcuts",
        "",
        "- ↑↓: Navigate between fields (or within selector lists)",
        "- ←→: Navigate to previous/next field (works everywhere)",
        "- Tab / Shift+Tab: Also navigate fields",
        "- Enter: Move to next field (or submit from Continue button)",
        "- ← / Backspace: Go back (when not in a text field)",
        "- ?: Toggle this help panel",
        "- q / Esc: Quit the installer",
        "",
        "## Navigation Flow",
        "",
        "- Fill out all fields using Tab or Enter to move between them",
        "- When you reach the Continue button, press Enter to submit",
        "- The form will validate and proceed to the confirmation screen",
    ])
    }

    fn can_proceed(&self) -> (r: bool)
        ensures
            r == form_filled(self@),
    {
        let hostname = self.hostname_input.value();
        let username = self.username_input.value();
        let password = self.password_input.value();
        let confirm = self.password_confirm_input.value();
        !hostname.as_str().is_empty() && !username.as_str().is_empty() && !password.as_str().is_empty()
            && !confirm.as_str().is_empty()
    }
}

} // verus!
