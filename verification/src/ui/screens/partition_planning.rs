//! The screen that shows the partition layout the installer will create on
//! the chosen disk.

use vstd::prelude::*;
use vstd::string::*;
use crate::system::bootmode::BootMode;
use crate::text::{string_views, strings_of};
use crate::ui::utils::Key;
use super::{Screen, ScreenAction};

verus! {

/// A partition to create.
#[derive(Debug, Clone)]
pub struct Partition {
    /// Name shown for it
    pub label: String,
    /// Size in bytes
    pub size: u64,
    /// File system
    pub fstype: String,
    /// Where it is mounted
    pub mountpoint: String,
    /// What it is for
    pub description: String,
}

/// Size of the EFI system partition: 512 MB.
pub const ESP_BYTES: u64 = 512_000_000;

/// Size of the swap partition: 8 GB.
pub const SWAP_BYTES: u64 = 8_000_000_000;

/// `p` is the partition with these fields.
pub open spec fn partition_is(p: Partition, label: Seq<char>, size: int, fstype: Seq<char>, mountpoint: Seq<char>, description: Seq<char>) -> bool {
    &&& p.label@ == label
    &&& p.size == size
    &&& p.fstype@ == fstype
    &&& p.mountpoint@ == mountpoint
    &&& p.description@ == description
}

/// `a - b`, or 0 when `b` is larger.
pub open spec fn minus_or_zero(a: int, b: int) -> int {
    if a > b { a - b } else { 0 }
}

/// The EFI system partition.
pub open spec fn is_esp(p: Partition) -> bool {
    partition_is(p, "EFI System Partition"@, ESP_BYTES as int, "FAT32"@, "/boot"@, "Required for UEFI boot"@)
}

/// The root partition of `size` bytes.
pub open spec fn is_root_partition(p: Partition, size: int) -> bool {
    partition_is(p, "Root Partition"@, size, "ext4"@, "/"@, "Main system partition"@)
}

/// The swap partition.
pub open spec fn is_swap(p: Partition) -> bool {
    partition_is(p, "Swap Partition"@, SWAP_BYTES as int, "swap"@, "[swap]"@, "Virtual memory / hibernation"@)
}

/// The UEFI layout of a disk of `disk_size` bytes: the EFI system partition,
/// root on what the other two leave, swap.
pub open spec fn uefi_layout(parts: Seq<Partition>, disk_size: int) -> bool {
    &&& parts.len() == 3
    &&& is_esp(parts[0])
    &&& is_root_partition(parts[1], minus_or_zero(disk_size, ESP_BYTES + SWAP_BYTES))
    &&& is_swap(parts[2])
}

/// The BIOS layout of a disk of `disk_size` bytes: root on what swap
/// leaves, swap.
pub open spec fn bios_layout(parts: Seq<Partition>, disk_size: int) -> bool {
    &&& parts.len() == 2
    &&& is_root_partition(parts[0], minus_or_zero(disk_size, SWAP_BYTES as int))
    &&& is_swap(parts[1])
}

/// The layout for a boot mode: BIOS for a BIOS machine, UEFI otherwise.
pub open spec fn layout_for(mode: BootMode, parts: Seq<Partition>, disk_size: int) -> bool {
    match mode {
        BootMode::Bios => bios_layout(parts, disk_size),
        _ => uefi_layout(parts, disk_size),
    }
}

/// The sum of the partitions' sizes.
pub open spec fn sizes_sum(parts: Seq<Partition>) -> int
    decreases parts.len(),
{
    if parts.len() == 0 { 0 } else { sizes_sum(parts.drop_last()) + parts.last().size }
}

/// A prefix of the partitions is no larger than all of them.
pub proof fn lemma_prefix_sum_le(parts: Seq<Partition>, i: int)
    requires
        0 <= i <= parts.len(),
    ensures
        sizes_sum(parts.subrange(0, i)) <= sizes_sum(parts),
    decreases parts.len(),
{
    if i < parts.len() {
        assert(parts.drop_last().subrange(0, i) =~= parts.subrange(0, i));
        lemma_prefix_sum_le(parts.drop_last(), i);
    } else {
        assert(parts.subrange(0, i) =~= parts);
    }
}

/// A layout's partitions add up to the disk's size, or to the fixed
/// partitions' size on a smaller disk.
pub proof fn lemma_layout_sum_fits(mode: BootMode, parts: Seq<Partition>, disk_size: int)
    requires
        0 <= disk_size <= u64::MAX,
        parts.len() == 0 || layout_for(mode, parts, disk_size),
    ensures
        sizes_sum(parts) <= u64::MAX,
        parts.len() > 0 ==> sizes_sum(parts) == if mode == BootMode::Bios {
            if disk_size > SWAP_BYTES { disk_size } else { SWAP_BYTES as int }
        } else {
            if disk_size > ESP_BYTES + SWAP_BYTES { disk_size } else { (ESP_BYTES + SWAP_BYTES) as int }
        },
{
    reveal_with_fuel(sizes_sum, 4);
    if parts.len() == 3 {
        assert(parts.drop_last().drop_last().drop_last() =~= Seq::<Partition>::empty());
    } else if parts.len() == 2 {
        assert(parts.drop_last().drop_last() =~= Seq::<Partition>::empty());
    }
}

/// The partition planning screen.
pub struct PartitionPlanningScreen {
    boot_mode: BootMode,
    disk_path: String,
    disk_size: u64,
    partitions: Vec<Partition>,
}

/// The partition planning screen, seen from outside.
pub struct PlanView {
    pub boot_mode: BootMode,
    pub disk_path: Seq<char>,
    pub disk_size: u64,
    pub partitions: Seq<Partition>,
}

impl View for PartitionPlanningScreen {
    type V = PlanView;

    closed spec fn view(&self) -> PlanView {
        PlanView {
            boot_mode: self.boot_mode,
            disk_path: self.disk_path@,
            disk_size: self.disk_size,
            partitions: self.partitions@,
        }
    }
}

/// The lines of the partition planning screen's help.
pub open spec fn partition_planning_help() -> Seq<Seq<char>> {
    seq![
        "# Partition Planning Screen"@,
        ""@,
        "This screen shows the automatic partition layout that will be created."@,
        ""@,
        "## UEFI Layout"@,
        ""@,
        "- EFI System Partition (512 MB, FAT32): Required for UEFI boot"@,
        "- Root Partition (remaining space, ext4): Main system files"@,
        "- Swap Partition (8 GB): Virtual memory and hibernation"@,
        ""@,
        "## BIOS Layout"@,
        ""@,
        "- Root Partition (remaining space, ext4): Main system files"@,
        "- Swap Partition (8 GB): Virtual memory and hibernation"@,
        ""@,
        "## Important Notes"@,
        ""@,
        "- All data on the selected disk will be PERMANENTLY ERASED"@,
        "- Partition sizes are optimized for typical installations"@,
        "- Swap size is fixed at 8 GB (suitable for most systems)"@,
        "- Root partition uses ext4 filesystem (reliable and well-tested)"@,
        ""@,
        "## Keyboard Shortcuts"@,
        ""@,
        "- Enter: Accept layout and continue"@,
        "- ← / Backspace: Go back to disk selection"@,
        "- ?: Toggle this help panel"@,
        "- q / Esc: Quit the installer"@,
    ]
}

/// What the partition planning screen does on `key`: Enter leads on, Left
/// and Backspace go back, `q` and Escape quit, `?` shows the help.
pub open spec fn partition_planning_action(key: Key) -> ScreenAction {
    match key {
        Key::Enter => ScreenAction::Next,
        Key::Left | Key::Backspace => ScreenAction::Back,
        Key::Char('q') | Key::Esc => ScreenAction::Exit,
        Key::Char('?') => ScreenAction::ToggleHelp,
        _ => ScreenAction::Stay,
    }
}

/// A partition with these fields.
fn partition(label: &str, size: u64, fstype: &str, mountpoint: &str, description: &str) -> (p: Partition)
    ensures
        partition_is(p, label@, size as int, fstype@, mountpoint@, description@),
{
    Partition {
        label: String::from_str(label),
        size,
        fstype: String::from_str(fstype),
        mountpoint: String::from_str(mountpoint),
        description: String::from_str(description),
    }
}

impl PartitionPlanningScreen {
    /// The rules the screen keeps: no layout yet, or the layout of its boot
    /// mode for its disk.
    pub open spec fn wf(&self) -> bool {
        self@.partitions.len() == 0 || layout_for(self@.boot_mode, self@.partitions, self@.disk_size as int)
    }

    /// The screen before a disk is chosen.
    pub fn new() -> (s: Self)
        ensures
            s.wf(),
            s@.boot_mode == BootMode::Unknown,
            s@.disk_path.len() == 0,
            s@.disk_size == 0,
            s@.partitions.len() == 0,
    {
        PartitionPlanningScreen { boot_mode: BootMode::Unknown, disk_path: String::new(), disk_size: 0, partitions: Vec::new() }
    }

    /// Chooses the disk and lays out its partitions for the boot mode.
    pub fn set_disk(&mut self, boot_mode: BootMode, disk_path: String, disk_size: u64)
        ensures
            final(self).wf(),
            final(self)@.boot_mode == boot_mode,
            final(self)@.disk_path == disk_path@,
            final(self)@.disk_size == disk_size,
            layout_for(boot_mode, final(self)@.partitions, disk_size as int),
    {
        self.boot_mode = boot_mode;
        self.disk_path = disk_path;
        self.disk_size = disk_size;
        self.generate_partition_layout();
    }

    /// Lays out the partitions for the boot mode: BIOS for a BIOS machine,
    /// UEFI otherwise (an unknown mode gets the UEFI layout).
    fn generate_partition_layout(&mut self)
        ensures
            final(self)@ == (PlanView { partitions: final(self)@.partitions, ..old(self)@ }),
            layout_for(old(self)@.boot_mode, final(self)@.partitions, old(self)@.disk_size as int),
    {
        match self.boot_mode {
            BootMode::Bios => self.generate_bios_layout(),
            _ => self.generate_uefi_layout(),
        }
    }

    /// The UEFI layout.
    fn generate_uefi_layout(&mut self)
        ensures
            final(self)@ == (PlanView { partitions: final(self)@.partitions, ..old(self)@ }),
            uefi_layout(final(self)@.partitions, old(self)@.disk_size as int),
    {
        let root_size = self.disk_size.saturating_sub(ESP_BYTES + SWAP_BYTES);
        let mut parts: Vec<Partition> = Vec::new();
        parts.push(partition("EFI System Partition", ESP_BYTES, "FAT32", "/boot", "Required for UEFI boot"));
        parts.push(partition("Root Partition", root_size, "ext4", "/", "Main system partition"));
        parts.push(partition("Swap Partition", SWAP_BYTES, "swap", "[swap]", "Virtual memory / hibernation"));
        self.partitions = parts;
    }

    /// The BIOS layout.
    fn generate_bios_layout(&mut self)
        ensures
            final(self)@ == (PlanView { partitions: final(self)@.partitions, ..old(self)@ }),
            bios_layout(final(self)@.partitions, old(self)@.disk_size as int),
    {
        let root_size = self.disk_size.saturating_sub(SWAP_BYTES);
        let mut parts: Vec<Partition> = Vec::new();
        parts.push(partition("Root Partition", root_size, "ext4", "/", "Main system partition"));
        parts.push(partition("Swap Partition", SWAP_BYTES, "swap", "[swap]", "Virtual memory / hibernation"));
        self.partitions = parts;
    }

    /// The boot mode the plan was made for.
    pub fn boot_mode(&self) -> (r: BootMode)
        ensures
            r == self@.boot_mode,
    {
        self.boot_mode
    }

    /// The partitions to create.
    pub fn partitions(&self) -> (r: &Vec<Partition>)
        ensures
            r@ == self@.partitions,
    {
        &self.partitions
    }

    /// The total size of the partitions.
    pub fn total_size(&self) -> (r: u64)
        requires
            self.wf(),
        ensures
            r == sizes_sum(self@.partitions),
    {
        proof {
            lemma_layout_sum_fits(self@.boot_mode, self@.partitions, self@.disk_size as int);
            assert(self@.partitions.subrange(0, 0) =~= Seq::<Partition>::empty());
        }
        let mut total: u64 = 0;
        let mut i: usize = 0;
        while i < self.partitions.len()
            invariant
                i <= self@.partitions.len(),
                sizes_sum(self@.partitions) <= u64::MAX,
                total == sizes_sum(self@.partitions.subrange(0, i as int)),
            decreases self@.partitions.len() - i,
        {
            proof {
                assert(self@.partitions.subrange(0, i as int + 1).drop_last() =~= self@.partitions.subrange(0, i as int));
                lemma_prefix_sum_le(self@.partitions, i as int + 1);
            }
            total = total + self.partitions[i].size;
            i = i + 1;
        }
        proof {
            assert(self@.partitions.subrange(0, i as int) =~= self@.partitions);
        }
        total
    }

    /// The chosen disk's path.
    pub fn disk_path(&self) -> (r: &str)
        ensures
            r@ == self@.disk_path,
    {
        self.disk_path.as_str()
    }

    /// The chosen disk's size in bytes.
    pub fn disk_size(&self) -> (r: u64)
        ensures
            r == self@.disk_size,
    {
        self.disk_size
    }

    /// The swap size in GB that every layout uses.
    pub fn swap_size_gb(&self) -> (r: u64)
        ensures
            r == SWAP_BYTES / 1_000_000_000,
    {
        SWAP_BYTES / 1_000_000_000
    }

    /// The root partition's file system in every layout.
    pub fn root_filesystem(&self) -> (r: &'static str)
        ensures
            r@ == "ext4"@,
    {
        "ext4"
    }

    /// Whether the layout encrypts the root partition: none of the layouts
    /// does.
    pub fn luks_enabled(&self) -> (r: bool)
        ensures
            !r,
    {
        false
    }

    /// The encryption passphrase: empty, as no layout encrypts.
    pub fn luks_passphrase(&self) -> (r: &'static str)
        ensures
            r@.len() == 0,
    {
        proof {
            reveal_strlit("");
        }
        ""
    }
}

impl Default for PartitionPlanningScreen {
    fn default() -> (s: Self)
        ensures
            s.wf(),
            s@.boot_mode == BootMode::Unknown,
            s@.disk_path.len() == 0,
            s@.disk_size == 0,
            s@.partitions.len() == 0,
    {
        PartitionPlanningScreen::new()
    }
}

impl Screen for PartitionPlanningScreen {
    open spec fn screen_wf(&self) -> bool {
        self.wf()
    }

    fn handle_input(&mut self, key: Key) -> (action: ScreenAction)
        ensures
            action == partition_planning_action(key),
            final(self)@ == old(self)@,
    {
        match key {
            Key::Enter => ScreenAction::Next,
            Key::Left | Key::Backspace => ScreenAction::Back,
            Key::Char('q') | Key::Esc => ScreenAction::Exit,
            Key::Char('?') => ScreenAction::ToggleHelp,
            _ => ScreenAction::Stay,
        }
    }

    /// Nothing happens when the screen is entered.
    fn on_enter(&mut self)
        ensures
            final(self)@ == old(self)@,
    {
    }

    /// Nothing happens when the screen is left.
    fn on_exit(&mut self)
        ensures
            final(self)@ == old(self)@,
    {
    }

    fn title(&self) -> (r: &str)
        ensures
            r@ == "Partition Planning"@,
    {
        "Partition Planning"
    }

    fn help_content(&self) -> (r: Vec<String>)
        ensures
            string_views(r@) == partition_planning_help(),
    {
    strings_of(&[
        "# Partition Planning Screen",
        "",
        "This screen shows the automatic partition layout that will be created.",
        "",
        "## UEFI Layout",
        "",
        "- EFI System Partition (512 MB, FAT32): Required for UEFI boot",
        "- Root Partition (remaining space, ext4): Main system files",
        "- Swap Partition (8 GB): Virtual memory and hibernation",
        "",
        "## BIOS Layout",
        "",
        "- Root Partition (remaining space, ext4): Main system files",
        "- Swap Partition (8 GB): Virtual memory and hibernation",
        "",
        "## Important Notes",
        "",
        "- All data on the selected disk will be PERMANENTLY ERASED",
        "- Partition sizes are optimized for typical installations",
        "- Swap size is fixed at 8 GB (suitable for most systems)",
        "- Root partition uses ext4 filesystem (reliable and well-tested)",
        "",
        "## Keyboard Shortcuts",
        "",
        "- Enter: Accept layout and continue",
        "- ← / Backspace: Go back to disk selection",
        "- ?: Toggle this help panel",
        "- q / Esc: Quit the installer",
    ])
    }

    fn can_proceed(&self) -> (r: bool)
        ensures
            r,
    {
        true
    }

    fn can_go_back(&self) -> (r: bool)
        ensures
            r,
    {
        true
    }
}

} // verus!
