//! The last screen: the installation is done; the user chooses between
//! rebooting and leaving to the shell.

use vstd::prelude::*;
use crate::text::{string_views, strings_of};
use crate::ui::utils::Key;
use super::{Screen, ScreenAction, standard_action};

verus! {

/// The screen shown once the installation succeeded.
pub struct SuccessScreen {
    selected: usize,
}

/// The lines of the success screen's help.
pub open spec fn success_help() -> Seq<Seq<char>> {
    seq![
        "# Installation Complete"@,
        ""@,
        "Congratulations! NixOS has been successfully installed."@,
        ""@,
        "## What Was Installed"@,
        ""@,
        "- NixOS base system with your chosen configuration"@,
        "- Bootloader (systemd-boot or GRUB)"@,
        "- Your user account with sudo privileges"@,
        "- Network Manager for connectivity"@,
        "- Essential system packages"@,
        ""@,
        "## Configuration Files"@,
        ""@,
        "Your system configuration is located at:"@,
        "- /etc/nixos/configuration.nix (your main config)"@,
        "- /etc/nixos/hardware-configuration.nix (hardware-specific settings)"@,
        ""@,
        "You can edit these files to customize your system."@,
        ""@,
        "## Next Steps"@,
        ""@,
        "1. Remove Installation Media"@,
        "   - Remove the USB drive or installation disk"@,
        "   - This ensures your system boots from the hard drive"@,
        ""@,
        "2. Reboot"@,
        "   - Press Enter to reboot now"@,
        "   - Or press 'q' to exit and reboot manually later"@,
        ""@,
        "3. First Boot"@,
        "   - You'll see the bootloader menu"@,
        "   - Select NixOS to boot"@,
        "   - Log in with your username and password"@,
        ""@,
        "4. Customize Your System"@,
        "   - Edit /etc/nixos/configuration.nix"@,
        "   - Add packages, enable services, change settings"@,
        "   - Run 'sudo nixos-rebuild switch' to apply changes"@,
        ""@,
        "## Learning Resources"@,
        ""@,
        "- NixOS Manual: https://nixos.org/manual/nixos/stable/"@,
        "- Package Search: https://search.nixos.org/packages"@,
        "- Options Search: https://search.nixos.org/options"@,
        "- Wiki: https://nixos.wiki/"@,
        "- Community: https://discourse.nixos.org/"@,
        ""@,
        "## Troubleshooting"@,
        ""@,
        "If you encounter issues:"@,
        "- Check /tmp/ekaos-install.log for installation details"@,
        "- Boot from the installation media to fix problems"@,
        "- Ask for help on the NixOS Discourse forum"@,
        ""@,
        "## Welcome to NixOS!"@,
        ""@,
        "You're now part of the NixOS community. Enjoy your reproducible,"@,
        "declarative system configuration!"@,
    ]
}

impl SuccessScreen {
    /// The screen, with the second option (reboot) selected.
    pub fn new() -> (s: Self)
        ensures
            s.selected_option() == 1,
    {
        SuccessScreen { selected: 1 }
    }

    /// The selected option: 0 to view the summary, 1 to reboot.
    pub closed spec fn selected_option(&self) -> nat {
        self.selected as nat
    }

    /// The selected option: 0 to view the summary, 1 to reboot.
    pub fn selected(&self) -> (r: usize)
        ensures
            r == self.selected_option(),
    {
        self.selected
    }

    /// Selects the other option, going down.
    pub fn select_next(&mut self)
        requires
            old(self).selected_option() < 2,
        ensures
            final(self).selected_option() == (old(self).selected_option() + 1) % 2,
    {
        self.selected = (self.selected + 1) % 2;
    }

    /// Selects the other option, going up.
    pub fn select_previous(&mut self)
        requires
            old(self).selected_option() < 2,
        ensures
            final(self).selected_option() == if old(self).selected_option() == 0 { 1nat } else { 0nat },
    {
        self.selected = if self.selected == 0 { 1 } else { 0 };
    }
}

impl Default for SuccessScreen {
    fn default() -> (s: Self)
        ensures
            s.selected_option() == 1,
    {
        SuccessScreen::new()
    }
}

/// What the success screen does on `key`: the keys every screen knows,
/// then Up and Down switch the option, Enter leaves the installer.
pub open spec fn success_action(key: Key) -> ScreenAction {
    match standard_action(key) {
        Some(a) => a,
        None => match key {
            Key::Enter => ScreenAction::Exit,
            _ => ScreenAction::Stay,
        },
    }
}

impl Screen for SuccessScreen {
    open spec fn screen_wf(&self) -> bool {
        self.selected_option() < 2
    }

    fn handle_input(&mut self, key: Key) -> (action: ScreenAction)
        ensures
            action == success_action(key),
            final(self).selected_option() == match (standard_action(key), key) {
                (None, Key::Up) | (None, Key::Down) => if old(self).selected_option() == 0 { 1nat } else { 0nat },
                _ => old(self).selected_option(),
            },
    {
        if let Some(action) = self.handle_standard_input(key) {
            return action;
        }
        match key {
            Key::Up => {
                self.select_previous();
                ScreenAction::Stay
            },
            Key::Down => {
                self.select_next();
                ScreenAction::Stay
            },
            Key::Enter => ScreenAction::Exit,
            _ => ScreenAction::Stay,
        }
    }

    /// Nothing happens when the screen is entered.
    fn on_enter(&mut self)
        ensures
            *final(self) == *old(self),
    {
    }

    /// Nothing happens when the screen is left.
    fn on_exit(&mut self)
        ensures
            *final(self) == *old(self),
    {
    }

    fn title(&self) -> (r: &str)
        ensures
            r@ == "Installation Complete"@,
    {
        "Installation Complete"
    }

    fn help_content(&self) -> (r: Vec<String>)
        ensures
            string_views(r@) == success_help(),
    {
    strings_of(&[
        "# Installation Complete",
        "",
        "Congratulations! NixOS has been successfully installed.",
        "",
        "## What Was Installed",
        "",
        "- NixOS base system with your chosen configuration",
        "- Bootloader (systemd-boot or GRUB)",
        "- Your user account with sudo privileges",
        "- Network Manager for connectivity",
        "- Essential system packages",
        "",
        "## Configuration Files",
        "",
        "Your system configuration is located at:",
        "- /etc/nixos/configuration.nix (your main config)",
        "- /etc/nixos/hardware-configuration.nix (hardware-specific settings)",
        "",
        "You can edit these files to customize your system.",
        "",
        "## Next Steps",
        "",
        "1. Remove Installation Media",
        "   - Remove the USB drive or installation disk",
        "   - This ensures your system boots from the hard drive",
        "",
        "2. Reboot",
        "   - Press Enter to reboot now",
        "   - Or press 'q' to exit and reboot manually later",
        "",
        "3. First Boot",
        "   - You'll see the bootloader menu",
        "   - Select NixOS to boot",
        "   - Log in with your username and password",
        "",
        "4. Customize Your System",
        "   - Edit /etc/nixos/configuration.nix",
        "   - Add packages, enable services, change settings",
        "   - Run 'sudo nixos-rebuild switch' to apply changes",
        "",
        "## Learning Resources",
        "",
        "- NixOS Manual: https://nixos.org/manual/nixos/stable/",
        "- Package Search: https://search.nixos.org/packages",
        "- Options Search: https://search.nixos.org/options",
        "- Wiki: https://nixos.wiki/",
        "- Community: https://discourse.nixos.org/",
        "",
        "## Troubleshooting",
        "",
        "If you encounter issues:",
        "- Check /tmp/ekaos-install.log for installation details",
        "- Boot from the installation media to fix problems",
        "- Ask for help on the NixOS Discourse forum",
        "",
        "## Welcome to NixOS!",
        "",
        "You're now part of the NixOS community. Enjoy your reproducible,",
        "declarative system configuration!",
    ])
    }

    fn can_proceed(&self) -> (r: bool)
        ensures
            r,
    {
        true
    }

    fn can_go_back(&self) -> (r: bool)
        ensures
            !r,
    {
        false
    }
}

} // verus!
