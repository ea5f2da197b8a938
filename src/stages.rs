use vstd::prelude::*;

use crate::command::{call, plan_view, push_op, CommandView, OpView, SystemOp, ToolCommand};
use crate::disks::{
    Firmware, firmware_error, mbr_error, mbr_is_primary_partition, right_combine, table_fits, Arch,
    PartitionTable, Platform, ProbedPartition,
};
use crate::error::InstallError;
use crate::guest::{
    add_new_user, command_views, create_swapfile, disable_hibernate, execute_dracut,
    execute_grub_install, gen_ssh_key, grub_calls, hwclock_call, set_hostname, set_hwclock_tc,
    set_locale, set_zoneinfo, swapfile_plan, user_calls, write_swap_entry_to_fstab,
};
use crate::pipeline::{
    request_check, request_error, stage_percent, Directive, InstallRequest, Pipeline, Stage,
    SwapConfig,
};
use crate::swap::{hibernation_verdict, is_enable_hibernation, swap_fits, swap_gib, GIB, MAX_MEMORY_BYTES};
use crate::text::opt_view;

verus! {

/// The first error of the checks made before anything destructive, in
/// order: the partition table against the firmware, the MBR primary rule
/// for the selected partition, then the request itself.
pub open spec fn preinstall_error(
    req: InstallRequest,
    table: PartitionTable,
    platform: Platform,
    children: Seq<ProbedPartition>,
) -> Option<InstallError> {
    if !table_fits(table, platform) {
        Some(firmware_error(table, platform))
    } else if mbr_error(table, req.partition.path, children) is Some {
        mbr_error(table, req.partition.path, children)
    } else {
        request_error(req)
    }
}

/// Runs every check due before formatting, given the partition table
/// `table` of the target's disk, the machine `platform` and the disk's
/// entries `children`, and returns the first error.
pub fn check_before_install(
    request: &InstallRequest,
    table: &PartitionTable,
    platform: Platform,
    children: &Vec<ProbedPartition>,
) -> (r: Result<(), InstallError>)
    ensures
        match preinstall_error(*request, *table, platform, children@) {
            None => r is Ok,
            Some(e) => r == Err::<(), InstallError>(e),
        },
{
    if let Err(e) = right_combine(table, platform) {
        return Err(e);
    }
    if let Err(e) = mbr_is_primary_partition(table, &request.partition.path, children) {
        return Err(e);
    }
    match request_check(request) {
        Some(e) => Err(e),
        None => Ok(()),
    }
}

/// Starts an installation of `request` once every check due before
/// formatting has passed: the partition table `table` of the target's disk
/// against the machine `platform`, the MBR primary rule among the disk's
/// entries `children`, then the request itself. The EFI system partition
/// is part of the run exactly on EFI machines.
pub fn start_installation(
    request: &InstallRequest,
    table: &PartitionTable,
    platform: Platform,
    children: &Vec<ProbedPartition>,
) -> (r: Result<(Pipeline, Directive), InstallError>)
    ensures
        match preinstall_error(*request, *table, platform, children@) {
            Some(e) => r == Err::<(Pipeline, Directive), InstallError>(e),
            None => r is Ok && r->Ok_0.0.stage_of() == Stage::Formatting && r->Ok_0.0.efi_of() == (
            platform.firmware == Firmware::Efi) && r->Ok_0.1 == (Directive::Perform {
                stage: Stage::Formatting,
                percent: stage_percent(Stage::Formatting),
            }),
        },
{
    if let Err(e) = check_before_install(request, table, platform, children) {
        return Err(e);
    }
    let efi = match platform.firmware {
        Firmware::Efi => true,
        Firmware::Bios => false,
    };
    Pipeline::new(request, efi)
}

/// What settling the swap choice gives: for a chosen size `s` that is
/// enabled, room for it beside the system and the reserve, and a size not
/// below the hibernation floor; hibernation is then decided by the size.
pub open spec fn settled_swap(
    swap: SwapConfig,
    total_memory: u64,
    install_size: u64,
    partition_size: u64,
    reserve: u64,
) -> Result<SwapConfig, InstallError> {
    if !swap.enabled {
        Ok(SwapConfig { size: 0, enabled: false, hibernation: false })
    } else if install_size + swap.size + reserve > partition_size {
        Err(InstallError::NoRoomForSwap)
    } else if hibernation_verdict(swap.size as int, total_memory as int) is None {
        Err(
            InstallError::TooSmall {
                recommended_gib: swap_gib(total_memory as int / GIB as int) as u64,
            },
        )
    } else {
        Ok(
            SwapConfig {
                size: swap.size,
                enabled: true,
                hibernation: hibernation_verdict(swap.size as int, total_memory as int)->0,
            },
        )
    }
}

/// Settles the swap choice of a request on a machine with `total_memory`
/// bytes of memory and a partition of `partition_size` bytes, of which the
/// system takes `install_size` and `reserve` is kept free: fails with
/// `NoRoomForSwap` when the swapfile does not fit, with `TooSmall` when it
/// is below the hibernation floor, and otherwise says whether it allows
/// hibernation.
pub fn settle_swap(
    swap: SwapConfig,
    total_memory: u64,
    install_size: u64,
    partition_size: u64,
    reserve: u64,
) -> (r: Result<SwapConfig, InstallError>)
    requires
        total_memory <= MAX_MEMORY_BYTES,
    ensures
        r == settled_swap(swap, total_memory, install_size, partition_size, reserve),
{
    if !swap.enabled {
        return Ok(SwapConfig { size: 0, enabled: false, hibernation: false });
    }
    if !swap_fits(install_size, swap.size, partition_size, reserve) {
        return Err(InstallError::NoRoomForSwap);
    }
    match is_enable_hibernation(swap.size, total_memory) {
        Ok(hibernation) => Ok(SwapConfig { size: swap.size, enabled: true, hibernation }),
        Err(e) => Err(e),
    }
}

/// The operation that runs the command `c`, if there is one.
pub open spec fn run_opt(c: Option<CommandView>) -> Seq<OpView> {
    if c is Some {
        seq![OpView::Run(c->0)]
    } else {
        Seq::empty()
    }
}

/// The operations that run the commands `cs`, in order.
pub open spec fn run_each(cs: Seq<CommandView>) -> Seq<OpView> {
    cs.map_values(|c: CommandView| OpView::Run(c))
}

/// The configuration of the guest, done from inside it: hostname, locale,
/// timezone, hardware clock given the guest's clock settings `adjtime`, the
/// new user, then the initial RAM disk or, on retro systems, the SSH host
/// keys.
pub open spec fn guest_plan(req: InstallRequest, adjtime: Option<Seq<char>>, retro: bool) -> Seq<
    OpView,
> {
    seq![
        OpView::WriteFile("/etc/hostname"@, req.hostname@),
        OpView::WriteFile("/etc/locale.conf"@, "LANG="@ + req.locale@),
        OpView::Symlink("/usr/share/zoneinfo/"@ + req.timezone@, "/etc/localtime"@),
    ] + run_opt(hwclock_call(req.rtc_utc, adjtime)) + run_each(user_calls(req.user@, req.password@))
        + if retro {
        seq![OpView::Run(call("ssh-keygen"@, seq!["-A"@]))]
    } else {
        seq![OpView::Run(call("/usr/bin/update-initramfs"@, Seq::empty()))]
    }
}

fn push_opt_run(plan: &mut Vec<SystemOp>, c: Option<ToolCommand>)
    ensures
        plan_view(final(plan)@) == plan_view(old(plan)@) + run_opt(
            if c is Some {
                Some(c->0@)
            } else {
                None
            },
        ),
{
    match c {
        Some(command) => push_op(plan, SystemOp::Run { command }),
        None => {
            assert(plan_view(plan@) =~= plan_view(old(plan)@) + Seq::<OpView>::empty());
        },
    }
}

/// Configures the guest of `request` from inside it, given the contents of
/// its clock settings file, if any; `retro` selects a retro system.
pub fn configure_guest_plan(request: &InstallRequest, adjtime: &Option<String>, retro: bool) -> (r:
    Vec<SystemOp>)
    ensures
        plan_view(r@) == guest_plan(*request, opt_view(*adjtime), retro),
{
    let mut plan: Vec<SystemOp> = Vec::new();
    push_op(&mut plan, set_hostname(request.hostname.as_str()));
    push_op(&mut plan, set_locale(request.locale.as_str()));
    push_op(&mut plan, set_zoneinfo(request.timezone.as_str()));
    push_opt_run(&mut plan, set_hwclock_tc(request.rtc_utc, adjtime));
    let mut users = add_new_user(request.user.as_str(), request.password.as_str());
    let ghost all = users@;
    assert(all.len() == command_views(all).len());
    let ghost before = plan_view(plan@);
    let mut k: usize = 0;
    while users.len() > 0
        invariant
            k <= all.len(),
            all.len() == 3,
            users@ == all.subrange(k as int, all.len() as int),
            plan_view(plan@) == before + run_each(command_views(all.subrange(0, k as int))),
        decreases users@.len(),
    {
        let c = users.remove(0);
        assert(c == all[k as int]);
        push_op(&mut plan, SystemOp::Run { command: c });
        assert(run_each(command_views(all.subrange(0, k as int + 1))) =~= run_each(
            command_views(all.subrange(0, k as int)),
        ).push(OpView::Run(all[k as int]@)));
        k = k + 1;
        assert(users@ =~= all.subrange(k as int, all.len() as int));
    }
    assert(all.subrange(0, k as int) =~= all);
    push_opt_run(&mut plan, execute_dracut(retro));
    push_opt_run(&mut plan, gen_ssh_key(retro));
    assert(plan_view(plan@) =~= guest_plan(*request, opt_view(*adjtime), retro));
    plan
}

/// Setting up swap from inside the guest: the swapfile at its root, its
/// fstab line when swap is used, and hibernation masked when the swapfile
/// cannot hold it.
pub open spec fn swap_stage(swap: SwapConfig) -> Seq<OpView> {
    swapfile_plan(swap.size, swap.enabled, "/"@) + (if swap.enabled {
        seq![OpView::AppendFile("/etc/fstab"@, "/swapfile none swap defaults,nofail 0 0\n"@)]
    } else {
        Seq::empty()
    }) + if swap.hibernation {
        Seq::empty()
    } else {
        seq![OpView::Symlink("/dev/null"@, "/etc/systemd/system/hibernate.target"@)]
    }
}

/// Sets up swap in the guest as `swap` says.
pub fn swap_stage_plan(swap: SwapConfig) -> (r: Vec<SystemOp>)
    ensures
        plan_view(r@) == swap_stage(swap),
{
    let mut plan = create_swapfile(swap.size, swap.enabled, "/");
    if swap.enabled {
        push_op(&mut plan, write_swap_entry_to_fstab());
    }
    if !swap.hibernation {
        push_op(&mut plan, disable_hibernate());
    }
    assert(plan_view(plan@) =~= swap_stage(swap));
    plan
}

/// Installs the bootloader of `request`: for the EFI or firmware target of
/// `arch` on EFI machines (`efi`), else on the BIOS disk holding the
/// target partition.
pub fn bootloader_plan(request: &InstallRequest, efi: bool, arch: Arch) -> (r: Vec<ToolCommand>)
    ensures
        command_views(r@) == grub_calls(
            if efi {
                None
            } else {
                opt_view(request.partition.parent_path)
            },
            arch,
        ),
{
    if efi {
        execute_grub_install(&None, arch)
    } else {
        execute_grub_install(&request.partition.parent_path, arch)
    }
}

} // verus!
