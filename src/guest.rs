use vstd::prelude::*;
use vstd::utf8::encode_utf8;

use crate::command::{
    call, extend_plan, one_arg, plan_view, push_op, tool, two_args, views, CommandView, OpView,
    SystemOp, ToolCommand,
};
use crate::disks::Arch;
use crate::error::InstallError;
use crate::install::{umount_root_path, unmount_plan};
use crate::text::{has_prefix, is_prefix, join_path, opt_view, owned, path_join};

verus! {

/// The lines of `s`: the pieces between line breaks, an empty last piece
/// when `s` ends with one.
pub open spec fn lines(s: Seq<char>) -> Seq<Seq<char>>
    decreases s.len(),
{
    if s.len() == 0 {
        seq![Seq::empty()]
    } else if s.last() == '\n' {
        lines(s.drop_last()).push(Seq::empty())
    } else {
        let ls = lines(s.drop_last());
        ls.update(ls.len() - 1, ls.last().push(s.last()))
    }
}

/// Whether the clock settings file `adjtime` says the hardware clock keeps
/// local time: its third line is `LOCAL`. No file means UTC.
pub open spec fn clock_is_local(adjtime: Option<Seq<char>>) -> bool {
    adjtime is Some && lines(adjtime->0).len() >= 3 && lines(adjtime->0)[2] == "LOCAL"@
}

/// Whether the clock settings text `s` says the hardware clock keeps local
/// time.
pub fn adjtime_is_local(s: &str) -> (r: bool)
    ensures
        r == (lines(s@).len() >= 3 && lines(s@)[2] == "LOCAL"@),
{
    let n = s.unicode_len();
    let mut count: usize = 0;
    let mut third: Vec<char> = Vec::new();
    let mut i: usize = 0;
    while i < n
        invariant
            n == s@.len(),
            i <= n,
            count <= i,
            count + 1 == lines(s@.subrange(0, i as int)).len(),
            count >= 2 ==> third@ == lines(s@.subrange(0, i as int))[2],
            count < 2 ==> third@.len() == 0,
        decreases n - i,
    {
        let c = s.get_char(i);
        let ghost pre = s@.subrange(0, i as int);
        assert(s@.subrange(0, i as int + 1).drop_last() =~= pre);
        assert(s@.subrange(0, i as int + 1).last() == c);
        if c == '\n' {
            count = count + 1;
        } else if count == 2 {
            third.push(c);
        }
        i = i + 1;
        assert(count >= 2 ==> third@ =~= lines(s@.subrange(0, i as int))[2]);
    }
    assert(s@.subrange(0, n as int) =~= s@);
    proof {
        reveal_strlit("LOCAL");
    }
    if count >= 2 && third.len() == 5 && third[0] == 'L' && third[1] == 'O' && third[2] == 'C'
        && third[3] == 'A' && third[4] == 'L' {
        assert(third@ =~= "LOCAL"@);
        true
    } else {
        false
    }
}

/// The clock command needed so that the hardware clock keeps UTC (`utc`) or
/// local time, given the current settings `adjtime`: none when it already
/// does.
pub open spec fn hwclock_call(utc: bool, adjtime: Option<Seq<char>>) -> Option<CommandView> {
    if utc != clock_is_local(adjtime) {
        None
    } else if utc {
        Some(call("hwclock"@, seq!["-wu"@]))
    } else {
        Some(call("hwclock"@, seq!["-wl"@]))
    }
}

/// Makes the hardware clock keep UTC (`utc`) or local time, given the
/// contents of the guest's clock settings file, if it has one.
pub fn set_hwclock_tc(utc: bool, adjtime: &Option<String>) -> (r: Option<ToolCommand>)
    ensures
        r is None <==> hwclock_call(utc, opt_view(*adjtime)) is None,
        r is Some ==> r->0@ == hwclock_call(utc, opt_view(*adjtime))->0,
{
    let local = match adjtime {
        Some(s) => adjtime_is_local(s.as_str()),
        None => false,
    };
    if utc != local {
        None
    } else if utc {
        Some(tool("hwclock", one_arg("-wu")))
    } else {
        Some(tool("hwclock", one_arg("-wl")))
    }
}

/// The commands that add the user `name` with password `password`: create
/// the account with a home and bash, add it to the desktop groups, and set
/// the password through `chpasswd`'s standard input.
pub open spec fn user_calls(name: Seq<char>, password: Seq<char>) -> Seq<CommandView> {
    seq![
        call("useradd"@, seq!["-m"@, "-s"@, "/bin/bash"@, name]),
        call("usermod"@, seq!["-aG"@, "audio,cdrom,video,wheel,plugdev"@, name]),
        CommandView {
            program: "chpasswd"@,
            args: Seq::empty(),
            input: Some(name + ":"@ + password + "\n"@),
        },
    ]
}

/// The characters of each command in `v`.
pub open spec fn command_views(v: Seq<ToolCommand>) -> Seq<CommandView> {
    v.map_values(|c: ToolCommand| c@)
}

/// Adds a normal user `name` with password `password` to the guest.
pub fn add_new_user(name: &str, password: &str) -> (r: Vec<ToolCommand>)
    ensures
        command_views(r@) == user_calls(name@, password@),
{
    let mut add_args: Vec<String> = Vec::new();
    add_args.push(owned("-m"));
    add_args.push(owned("-s"));
    add_args.push(owned("/bin/bash"));
    add_args.push(owned(name));
    assert(views(add_args@) =~= seq!["-m"@, "-s"@, "/bin/bash"@, name@]);
    let mut mod_args: Vec<String> = Vec::new();
    mod_args.push(owned("-aG"));
    mod_args.push(owned("audio,cdrom,video,wheel,plugdev"));
    mod_args.push(owned(name));
    assert(views(mod_args@) =~= seq!["-aG"@, "audio,cdrom,video,wheel,plugdev"@, name@]);
    let mut line = owned(name);
    line.append(":");
    line.append(password);
    line.append("\n");
    let no_args: Vec<String> = Vec::new();
    assert(views(no_args@) =~= Seq::<Seq<char>>::empty());
    let mut cmds: Vec<ToolCommand> = Vec::new();
    cmds.push(tool("useradd", add_args));
    cmds.push(tool("usermod", mod_args));
    cmds.push(ToolCommand { program: owned("chpasswd"), args: no_args, input: Some(line) });
    assert(command_views(cmds@) =~= user_calls(name@, password@));
    cmds
}

/// The `grub-install` target and whether it is an EFI target, for `arch`;
/// `None` where GRUB is not used.
pub open spec fn grub_target(arch: Arch) -> Option<(Seq<char>, bool)> {
    match arch {
        Arch::Amd64 => Some(("--target=x86_64-efi"@, true)),
        Arch::Arm64 => Some(("--target=arm64-efi"@, true)),
        Arch::Ppc64el | Arch::Ppc64 | Arch::PowerPc => Some(("--target=powerpc-ieee1275"@, false)),
        Arch::Riscv64 => Some(("--target=riscv64-efi"@, true)),
        Arch::Other => None,
    }
}

/// The bootloader commands: `grub-install` for the BIOS disk `mbr_dev` or,
/// without one, for the firmware target of `arch`, then `grub-mkconfig`.
/// Nothing on architectures without GRUB.
pub open spec fn grub_calls(mbr_dev: Option<Seq<char>>, arch: Arch) -> Seq<CommandView> {
    let mkconfig = call("grub-mkconfig"@, seq!["-o"@, "/boot/grub/grub.cfg"@]);
    if mbr_dev is Some {
        seq![call("grub-install"@, seq!["--target=i386-pc"@, mbr_dev->0]), mkconfig]
    } else if grub_target(arch) is None {
        Seq::empty()
    } else {
        let (target, efi) = grub_target(arch)->0;
        seq![
            call(
                "grub-install"@,
                seq!["--bootloader-id=AOSC OS"@, target] + if efi {
                    seq!["--efi-directory=/efi"@]
                } else {
                    Seq::empty()
                },
            ),
            mkconfig,
        ]
    }
}

/// Installs and configures GRUB: on the BIOS disk `mbr_dev` when given,
/// else for the EFI or firmware target of `arch`.
pub fn execute_grub_install(mbr_dev: &Option<String>, arch: Arch) -> (r: Vec<ToolCommand>)
    ensures
        command_views(r@) == grub_calls(opt_view(*mbr_dev), arch),
{
    let mut cmds: Vec<ToolCommand> = Vec::new();
    let install_args: Vec<String> = match mbr_dev {
        Some(dev) => two_args("--target=i386-pc", dev.as_str()),
        None => {
            let (target, efi): (&str, bool) = match arch {
                Arch::Amd64 => ("--target=x86_64-efi", true),
                Arch::Arm64 => ("--target=arm64-efi", true),
                Arch::Ppc64el | Arch::Ppc64 | Arch::PowerPc => ("--target=powerpc-ieee1275", false),
                Arch::Riscv64 => ("--target=riscv64-efi", true),
                Arch::Other => {
                    assert(command_views(cmds@) =~= grub_calls(opt_view(*mbr_dev), arch));
                    return cmds;
                },
            };
            let mut a = two_args("--bootloader-id=AOSC OS", target);
            if efi {
                a.push(owned("--efi-directory=/efi"));
            }
            assert(views(a@) =~= seq!["--bootloader-id=AOSC OS"@, target@] + if efi {
                seq!["--efi-directory=/efi"@]
            } else {
                Seq::empty()
            });
            a
        },
    };
    cmds.push(tool("grub-install", install_args));
    cmds.push(tool("grub-mkconfig", two_args("-o", "/boot/grub/grub.cfg")));
    assert(command_views(cmds@) =~= grub_calls(opt_view(*mbr_dev), arch));
    cmds
}

/// Regenerates the initial RAM disk; retro systems (`retro`) have none to
/// regenerate.
pub fn execute_dracut(retro: bool) -> (r: Option<ToolCommand>)
    ensures
        retro <==> r is None,
        r is Some ==> r->0@ == call("/usr/bin/update-initramfs"@, Seq::empty()),
{
    if retro {
        None
    } else {
        let no_args: Vec<String> = Vec::new();
        assert(views(no_args@) =~= Seq::<Seq<char>>::empty());
        Some(tool("/usr/bin/update-initramfs", no_args))
    }
}

/// Generates the SSH host keys, which only retro systems (`retro`) need done
/// at installation.
pub fn gen_ssh_key(retro: bool) -> (r: Option<ToolCommand>)
    ensures
        !retro <==> r is None,
        r is Some ==> r->0@ == call("ssh-keygen"@, seq!["-A"@]),
{
    if retro {
        Some(tool("ssh-keygen", one_arg("-A")))
    } else {
        None
    }
}

/// Sets the guest's hostname to `name`.
pub fn set_hostname(name: &str) -> (r: SystemOp)
    ensures
        r@ == OpView::WriteFile("/etc/hostname"@, name@),
{
    SystemOp::WriteFile { path: owned("/etc/hostname"), content: owned(name) }
}

/// Sets the guest's locale to `locale`.
pub fn set_locale(locale: &str) -> (r: SystemOp)
    ensures
        r@ == OpView::WriteFile("/etc/locale.conf"@, "LANG="@ + locale@),
{
    let mut content = owned("LANG=");
    content.append(locale);
    SystemOp::WriteFile { path: owned("/etc/locale.conf"), content }
}

/// Sets the guest's timezone to `zone`.
pub fn set_zoneinfo(zone: &str) -> (r: SystemOp)
    ensures
        r@ == OpView::Symlink("/usr/share/zoneinfo/"@ + zone@, "/etc/localtime"@),
{
    let mut target = owned("/usr/share/zoneinfo/");
    target.append(zone);
    SystemOp::Symlink { target, link: owned("/etc/localtime") }
}

/// Adds the swapfile to the guest's fstab.
pub fn write_swap_entry_to_fstab() -> (r: SystemOp)
    ensures
        r@ == OpView::AppendFile("/etc/fstab"@, "/swapfile none swap defaults,nofail 0 0\n"@),
{
    SystemOp::AppendFile {
        path: owned("/etc/fstab"),
        content: owned("/swapfile none swap defaults,nofail 0 0\n"),
    }
}

/// Turns hibernation off in the guest by masking its systemd target.
pub fn disable_hibernate() -> (r: SystemOp)
    ensures
        r@ == OpView::Symlink("/dev/null"@, "/etc/systemd/system/hibernate.target"@),
{
    SystemOp::Symlink {
        target: owned("/dev/null"),
        link: owned("/etc/systemd/system/hibernate.target"),
    }
}

/// Creating, formatting and enabling a swapfile of `size` bytes under the
/// mounted root `root`; enabling is best effort.
pub open spec fn swapfile_plan(size: u64, use_swap: bool, root: Seq<char>) -> Seq<OpView> {
    let path = path_join(root, "swapfile"@);
    if !use_swap {
        Seq::empty()
    } else {
        seq![
            OpView::Allocate(path, size),
            OpView::Run(call("mkswap"@, seq![path])),
            OpView::TryRun(call("swapon"@, seq![path])),
        ]
    }
}

/// Creates a swapfile of `size` bytes under the mounted root `tempdir`, when
/// swap is used at all.
pub fn create_swapfile(size: u64, use_swap: bool, tempdir: &str) -> (r: Vec<SystemOp>)
    ensures
        plan_view(r@) == swapfile_plan(size, use_swap, tempdir@),
{
    let mut plan: Vec<SystemOp> = Vec::new();
    if !use_swap {
        assert(plan_view(plan@) =~= swapfile_plan(size, use_swap, tempdir@));
        return plan;
    }
    let path = join_path(tempdir, "swapfile");
    push_op(&mut plan, SystemOp::Allocate { path: path.clone(), size });
    push_op(&mut plan, SystemOp::Run { command: tool("mkswap", one_arg(path.as_str())) });
    push_op(&mut plan, SystemOp::TryRun { command: tool("swapon", one_arg(path.as_str())) });
    assert(plan_view(plan@) =~= swapfile_plan(size, use_swap, tempdir@));
    plan
}

/// Unmounting what earlier runs left mounted: every mount point among `ms`
/// under the installer's temporary mount prefix, in order.
pub open spec fn stale_unmounts(ms: Seq<Seq<char>>) -> Seq<OpView>
    decreases ms.len(),
{
    if ms.len() == 0 {
        Seq::empty()
    } else {
        stale_unmounts(ms.drop_last()) + if is_prefix("/tmp/.dkmount"@, ms.last()) {
            unmount_plan(ms.last())
        } else {
            Seq::empty()
        }
    }
}

/// Unmounts what earlier installer runs left mounted, given the current
/// mount points `mounts`.
pub fn prepare_try_umount(mounts: &Vec<String>) -> (r: Vec<SystemOp>)
    ensures
        plan_view(r@) == stale_unmounts(views(mounts@)),
{
    let mut plan: Vec<SystemOp> = Vec::new();
    let mut i: usize = 0;
    while i < mounts.len()
        invariant
            i <= mounts@.len(),
            plan_view(plan@) == stale_unmounts(views(mounts@.subrange(0, i as int))),
        decreases mounts@.len() - i,
    {
        let m = &mounts[i];
        assert(views(mounts@.subrange(0, i as int + 1)).drop_last() =~= views(
            mounts@.subrange(0, i as int),
        ));
        assert(views(mounts@.subrange(0, i as int + 1)).last() == m@);
        if has_prefix(m.as_str(), "/tmp/.dkmount") {
            extend_plan(&mut plan, umount_root_path(m.as_str()));
        }
        i = i + 1;
    }
    assert(mounts@.subrange(0, mounts@.len() as int) =~= mounts@);
    plan
}

/// Whether the bytes `a` come no later than `b` in lexicographic order.
pub open spec fn bytes_le(a: Seq<u8>, b: Seq<u8>) -> bool
    decreases a.len(),
{
    if a.len() == 0 {
        true
    } else if b.len() == 0 {
        false
    } else if a[0] != b[0] {
        a[0] < b[0]
    } else {
        bytes_le(a.drop_first(), b.drop_first())
    }
}

/// Whether the names `v` are in ascending order of their UTF-8 bytes, the
/// order of `String`.
pub open spec fn names_sorted(v: Seq<Seq<char>>) -> bool {
    forall|i: int, j: int|
        0 <= i < j < v.len() ==> bytes_le(encode_utf8(#[trigger] v[i]), encode_utf8(#[trigger] v[j]))
}

/// Relies on `slice::sort` and `Ord for String`: sorting rearranges the
/// strings into ascending order, and strings are ordered lexicographically
/// by their bytes.
#[verifier::external_body]
fn sort_strings(v: &mut Vec<String>)
    ensures
        views(final(v)@).to_multiset() == views(old(v)@).to_multiset(),
        final(v)@.len() == old(v)@.len(),
        names_sorted(views(final(v)@)),
{
    v.sort();
}

/// The list of timezones to offer, given the zone names `zones` read from
/// the timezone database: `UTC` first, then the zones in ascending order.
/// Fails with `EmptyZoneList` when the database lists none.
pub fn get_zoneinfo_list(zones: Vec<String>) -> (r: Result<Vec<String>, InstallError>)
    ensures
        zones@.len() == 0 <==> r is Err,
        r is Err ==> r matches Err(InstallError::EmptyZoneList),
        r is Ok ==> {
            let v = views(r->Ok_0@);
            &&& v.len() == zones@.len() + 1
            &&& v[0] == "UTC"@
            &&& v.drop_first().to_multiset() == views(zones@).to_multiset()
            &&& names_sorted(v.drop_first())
        },
{
    if zones.len() == 0 {
        return Err(InstallError::EmptyZoneList);
    }
    let mut list = zones;
    sort_strings(&mut list);
    let ghost sorted = list@;
    list.insert(0, owned("UTC"));
    assert(views(list@).drop_first() =~= views(sorted));
    Ok(list)
}

} // verus!
