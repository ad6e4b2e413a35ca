//! The installation's configuration: what the user chose, and the rules it
//! must meet before anything is written to disk.

use vstd::prelude::*;
use vstd::string::*;
use crate::text::{alnum_ascii, chars_of, digit_ascii, is_alnum_ascii, is_digit_ascii, is_lower_ascii, lower_ascii, utf8_len, utf8_len_capped};

verus! {

/// Boot loader to install.
#[derive(Debug, Clone, Copy, PartialEq, Eq, Structural)]
pub enum BootLoader {
    /// systemd-boot (UEFI only)
    SystemdBoot,
    /// GRUB (UEFI and BIOS)
    Grub,
}

/// Display name of a boot loader.
pub open spec fn boot_loader_name(b: BootLoader) -> Seq<char> {
    match b {
        BootLoader::SystemdBoot => "systemd-boot"@,
        BootLoader::Grub => "GRUB"@,
    }
}

/// Description of a boot loader.
pub open spec fn boot_loader_description(b: BootLoader) -> Seq<char> {
    match b {
        BootLoader::SystemdBoot => "Modern, simple boot loader for UEFI systems"@,
        BootLoader::Grub => "Traditional boot loader, supports UEFI and BIOS"@,
    }
}

impl BootLoader {
    /// Display name.
    pub fn as_str(&self) -> (r: &'static str)
        ensures
            r@ == boot_loader_name(*self),
    {
        match self {
            BootLoader::SystemdBoot => "systemd-boot",
            BootLoader::Grub => "GRUB",
        }
    }

    /// Description.
    pub fn description(&self) -> (r: &'static str)
        ensures
            r@ == boot_loader_description(*self),
    {
        match self {
            BootLoader::SystemdBoot => "Modern, simple boot loader for UEFI systems",
            BootLoader::Grub => "Traditional boot loader, supports UEFI and BIOS",
        }
    }
}

/// The user account to create.
#[derive(Debug)]
pub struct UserConfig {
    /// Login name (lowercase letters, digits and underscores)
    pub username: String,
    /// Full name, if given
    pub full_name: Option<String>,
    /// Whether the account gets administrator rights
    pub is_admin: bool,
    /// Initial password
    pub password: String,
}

/// Everything the installer needs to know about the system to install.
#[derive(Debug)]
pub struct InstallConfig {
    /// Host name
    pub hostname: String,
    /// The user account
    pub user: UserConfig,
    /// IANA time zone, such as `America/New_York`
    pub timezone: String,
    /// System locale, such as `en_US.UTF-8`
    pub locale: String,
    /// Console keymap, such as `us`
    pub keymap: String,
    /// Boot loader
    pub bootloader: BootLoader,
    /// Whether NetworkManager is enabled
    pub network_manager: bool,
    /// Target disk, such as `/dev/sda`
    pub disk_path: String,
    /// Target disk size in bytes
    pub disk_size: u64,
    /// Swap size in GB
    pub swap_size_gb: u64,
    /// Root file system, such as `ext4`
    pub root_filesystem: String,
    /// Whether the root partition is encrypted with LUKS
    pub luks_encryption: bool,
    /// LUKS passphrase (empty when encryption is off)
    pub luks_passphrase: String,
}

impl Clone for UserConfig {
    fn clone(&self) -> (r: Self)
        ensures
            r == *self,
    {
        UserConfig {
            username: self.username.clone(),
            full_name: match &self.full_name {
                Some(n) => Some(n.clone()),
                None => None,
            },
            is_admin: self.is_admin,
            password: self.password.clone(),
        }
    }
}

impl Clone for InstallConfig {
    fn clone(&self) -> (r: Self)
        ensures
            r == *self,
    {
        InstallConfig {
            hostname: self.hostname.clone(),
            user: self.user.clone(),
            timezone: self.timezone.clone(),
            locale: self.locale.clone(),
            keymap: self.keymap.clone(),
            bootloader: self.bootloader,
            network_manager: self.network_manager,
            disk_path: self.disk_path.clone(),
            disk_size: self.disk_size,
            swap_size_gb: self.swap_size_gb,
            root_filesystem: self.root_filesystem.clone(),
            luks_encryption: self.luks_encryption,
            luks_passphrase: self.luks_passphrase.clone(),
        }
    }
}

/// The configuration a fresh wizard starts from.
pub open spec fn is_default_config(c: InstallConfig) -> bool {
    &&& c.hostname@ == "nixos"@
    &&& c.user.username@ == Seq::<char>::empty()
    &&& c.user.full_name.is_none()
    &&& c.user.is_admin
    &&& c.user.password@ == Seq::<char>::empty()
    &&& c.timezone@ == "America/New_York"@
    &&& c.locale@ == "en_US.UTF-8"@
    &&& c.keymap@ == "us"@
    &&& c.bootloader == BootLoader::SystemdBoot
    &&& c.network_manager
    &&& c.disk_path@ == Seq::<char>::empty()
    &&& c.disk_size == 0
    &&& c.swap_size_gb == 8
    &&& c.root_filesystem@ == "ext4"@
    &&& !c.luks_encryption
    &&& c.luks_passphrase@ == Seq::<char>::empty()
}

impl Default for InstallConfig {
    fn default() -> (c: Self)
        ensures
            is_default_config(c),
    {
        InstallConfig {
            hostname: String::from_str("nixos"),
            user: UserConfig {
                username: String::new(),
                full_name: None,
                is_admin: true,
                password: String::new(),
            },
            timezone: String::from_str("America/New_York"),
            locale: String::from_str("en_US.UTF-8"),
            keymap: String::from_str("us"),
            bootloader: BootLoader::SystemdBoot,
            network_manager: true,
            disk_path: String::new(),
            disk_size: 0,
            swap_size_gb: 8,
            root_filesystem: String::from_str("ext4"),
            luks_encryption: false,
            luks_passphrase: String::new(),
        }
    }
}

/// Every character of a host name is an ASCII letter, digit or hyphen.
pub open spec fn hostname_chars_ok(h: Seq<char>) -> bool {
    forall|i: int| 0 <= i < h.len() ==> is_alnum_ascii(#[trigger] h[i]) || h[i] == '-'
}

/// Every character of a user name is a lowercase ASCII letter, digit or underscore.
pub open spec fn username_chars_ok(u: Seq<char>) -> bool {
    forall|i: int| 0 <= i < u.len() ==> is_lower_ascii(#[trigger] u[i]) || is_digit_ascii(u[i]) || u[i] == '_'
}

/// The first rule, in order, that a configuration breaks, with its message;
/// `None` when it meets them all. Lengths of user name and password are
/// counted in UTF-8 bytes.
pub open spec fn config_problem(hostname: Seq<char>, username: Seq<char>, password: Seq<char>) -> Option<Seq<char>> {
    if hostname.len() == 0 {
        Some("Hostname cannot be empty"@)
    } else if !hostname_chars_ok(hostname) {
        Some("Hostname must contain only letters, numbers, and hyphens"@)
    } else if username.len() == 0 {
        Some("Username cannot be empty"@)
    } else if !username_chars_ok(username) {
        Some("Username must contain only lowercase letters, numbers, and underscores"@)
    } else if !is_lower_ascii(username[0]) {
        Some("Username must start with a lowercase letter"@)
    } else if utf8_len(username) > 32 {
        Some("Username must be 32 characters or less"@)
    } else if password.len() == 0 {
        Some("Password cannot be empty"@)
    } else if utf8_len(password) < 8 {
        Some("Password must be at least 8 characters"@)
    } else {
        None
    }
}

/// Whether every character is an ASCII letter, digit or hyphen.
fn check_hostname_chars(s: &str) -> (r: bool)
    ensures
        r == hostname_chars_ok(s@),
{
    let v = chars_of(s);
    let mut i: usize = 0;
    while i < v.len()
        invariant
            v@ == s@,
            i <= v@.len(),
            forall|k: int| 0 <= k < i ==> is_alnum_ascii(#[trigger] v@[k]) || v@[k] == '-',
        decreases v@.len() - i,
    {
        let c = v[i];
        if !(alnum_ascii(c) || c == '-') {
            return false;
        }
        i = i + 1;
    }
    true
}

/// Whether every character is a lowercase ASCII letter, digit or underscore.
fn check_username_chars(s: &str) -> (r: bool)
    ensures
        r == username_chars_ok(s@),
{
    let v = chars_of(s);
    let mut i: usize = 0;
    while i < v.len()
        invariant
            v@ == s@,
            i <= v@.len(),
            forall|k: int| 0 <= k < i ==> is_lower_ascii(#[trigger] v@[k]) || is_digit_ascii(v@[k]) || v@[k] == '_',
        decreases v@.len() - i,
    {
        let c = v[i];
        if !(lower_ascii(c) || digit_ascii(c) || c == '_') {
            return false;
        }
        i = i + 1;
    }
    true
}

impl InstallConfig {
    /// Checks the host name, the user name and the password, in that order,
    /// and gives the message of the first rule broken.
    pub fn validate(&self) -> (r: Result<(), String>)
        ensures
            r matches Ok(_) <==> config_problem(self.hostname@, self.user.username@, self.user.password@) is None,
            r matches Err(e) ==> config_problem(self.hostname@, self.user.username@, self.user.password@) == Some(e@),
    {
        let hostname = self.hostname.as_str();
        let username = self.user.username.as_str();
        let password = self.user.password.as_str();
        if hostname.is_empty() {
            return Err(String::from_str("Hostname cannot be empty"));
        }
        if !check_hostname_chars(hostname) {
            return Err(String::from_str("Hostname must contain only letters, numbers, and hyphens"));
        }
        if username.is_empty() {
            return Err(String::from_str("Username cannot be empty"));
        }
        if !check_username_chars(username) {
            return Err(String::from_str("Username must contain only lowercase letters, numbers, and underscores"));
        }
        let uchars = chars_of(username);
        if !lower_ascii(uchars[0]) {
            return Err(String::from_str("Username must start with a lowercase letter"));
        }
        if utf8_len_capped(&uchars, 32) > 32 {
            return Err(String::from_str("Username must be 32 characters or less"));
        }
        if password.is_empty() {
            return Err(String::from_str("Password cannot be empty"));
        }
        let pchars = chars_of(password);
        if utf8_len_capped(&pchars, 32) < 8 {
            return Err(String::from_str("Password must be at least 8 characters"));
        }
        Ok(())
    }
}

/// A host name character is allowed exactly when it is an ASCII letter, an
/// ASCII digit or a hyphen.
pub open spec fn hostname_char(c: char) -> bool {
    ('a' <= c && c <= 'z') || ('A' <= c && c <= 'Z') || ('0' <= c && c <= '9') || c == '-'
}

/// A host name passes the character rule exactly when every character is an
/// ASCII letter, an ASCII digit or a hyphen; digits are allowed anywhere.
pub proof fn lemma_hostname_chars(h: Seq<char>)
    ensures
        hostname_chars_ok(h) <==> forall|i: int| 0 <= i < h.len() ==> #[trigger] hostname_char(h[i]),
{
    if hostname_chars_ok(h) {
        assert forall|i: int| 0 <= i < h.len() implies #[trigger] hostname_char(h[i]) by {
            assert(is_alnum_ascii(h[i]) || h[i] == '-');
        }
    }
    if forall|i: int| 0 <= i < h.len() ==> #[trigger] hostname_char(h[i]) {
        assert forall|i: int| 0 <= i < h.len() implies is_alnum_ascii(#[trigger] h[i]) || h[i] == '-' by {
            assert(hostname_char(h[i]));
        }
    }
}

/// Two non-empty host names made of ASCII letters, digits and hyphens give
/// the same verdict on a configuration: such a host name is never what
/// validation refuses.
pub proof fn lemma_allowed_hostnames_alike(h1: Seq<char>, h2: Seq<char>, username: Seq<char>, password: Seq<char>)
    requires
        h1.len() > 0,
        h2.len() > 0,
        forall|i: int| 0 <= i < h1.len() ==> #[trigger] hostname_char(h1[i]),
        forall|i: int| 0 <= i < h2.len() ==> #[trigger] hostname_char(h2[i]),
    ensures
        config_problem(h1, username, password) == config_problem(h2, username, password),
{
    lemma_hostname_chars(h1);
    lemma_hostname_chars(h2);
}

} // verus!
