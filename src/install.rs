use vstd::prelude::*;

use crate::command::{call, extend_plan, one_arg, plan_view, push_op, tool, OpView, SystemOp};
use crate::disks::Partition;
use crate::error::InstallError;
use crate::text::{has_prefix, is_prefix, join_path, owned, path_join, text_eq};

verus! {

/// Whether `c` may appear in a hostname: an ASCII letter, digit or dash.
pub open spec fn is_host_char(c: char) -> bool {
    ('a' <= c && c <= 'z') || ('A' <= c && c <= 'Z') || ('0' <= c && c <= '9') || c == '-'
}

/// Whether `s` is a valid hostname: not empty, not starting with a dash,
/// and made of ASCII letters, digits and dashes only.
pub open spec fn valid_hostname(s: Seq<char>) -> bool {
    &&& s.len() > 0
    &&& s[0] != '-'
    &&& forall|i: int| 0 <= i < s.len() ==> #[trigger] is_host_char(s[i])
}

/// Whether `c` is an ASCII lowercase letter.
pub open spec fn is_lower(c: char) -> bool {
    'a' <= c && c <= 'z'
}

/// Whether `c` is an ASCII digit.
pub open spec fn is_digit(c: char) -> bool {
    '0' <= c && c <= '9'
}

/// Whether `s` is an acceptable name for the new user: not empty, not
/// `root`, a lowercase ASCII letter first and lowercase ASCII letters or
/// digits after it.
pub open spec fn valid_username(s: Seq<char>) -> bool {
    &&& s.len() > 0
    &&& s != "root"@
    &&& is_lower(s[0])
    &&& forall|i: int| 1 <= i < s.len() ==> is_lower(#[trigger] s[i]) || is_digit(s[i])
}

/// Whether `hostname` is a valid hostname.
pub fn is_valid_hostname(hostname: &str) -> (r: bool)
    ensures
        r == valid_hostname(hostname@),
{
    let n = hostname.unicode_len();
    if n == 0 || hostname.get_char(0) == '-' {
        return false;
    }
    let mut i: usize = 0;
    while i < n
        invariant
            n == hostname@.len(),
            i <= n,
            forall|j: int| 0 <= j < i ==> #[trigger] is_host_char(hostname@[j]),
        decreases n - i,
    {
        let c = hostname.get_char(i);
        if !(('a' <= c && c <= 'z') || ('A' <= c && c <= 'Z') || ('0' <= c && c <= '9') || c
            == '-') {
            assert(!is_host_char(hostname@[i as int]));
            return false;
        }
        i = i + 1;
    }
    true
}

/// Whether `username` is acceptable as the name of the new user.
pub fn is_acceptable_username(username: &str) -> (r: bool)
    ensures
        r == valid_username(username@),
{
    let n = username.unicode_len();
    if n == 0 || text_eq(username, "root") {
        return false;
    }
    let mut i: usize = 0;
    while i < n
        invariant
            n == username@.len(),
            n > 0,
            username@ != "root"@,
            i <= n,
            i > 0 ==> is_lower(username@[0]),
            forall|j: int| 1 <= j < i ==> is_lower(#[trigger] username@[j]) || is_digit(
                username@[j],
            ),
        decreases n - i,
    {
        let c = username.get_char(i);
        if i == 0 {
            if !('a' <= c && c <= 'z') {
                return false;
            }
        } else if !(('a' <= c && c <= 'z') || ('0' <= c && c <= '9')) {
            assert(!(is_lower(username@[i as int]) || is_digit(username@[i as int])));
            return false;
        }
        i = i + 1;
    }
    true
}

/// The mount type for filesystem kind `t`: any FAT flavour mounts as vfat.
pub open spec fn mount_fs(t: Seq<char>) -> Seq<char> {
    if is_prefix("fat"@, t) {
        "vfat"@
    } else {
        t
    }
}

/// Mounts `partition` at `target`, as its filesystem kind (FAT flavours as
/// vfat) with default flags; fails with `IncompleteTarget` when the
/// partition lacks a device path or a filesystem kind.
pub fn mount_root_path(partition: &Partition, target: &str) -> (r: Result<SystemOp, InstallError>)
    ensures
        partition.fs_type is None || partition.path is None <==> r is Err,
        r is Err ==> r matches Err(InstallError::IncompleteTarget),
        r is Ok ==> r->Ok_0@ == OpView::Mount(
            partition.path->0@,
            target@,
            mount_fs(partition.fs_type->0@),
        ),
{
    let (path, fs) = match (&partition.path, &partition.fs_type) {
        (Some(p), Some(f)) => (p, f),
        _ => {
            return Err(InstallError::IncompleteTarget);
        },
    };
    let fs_type = if has_prefix(fs.as_str(), "fat") {
        owned("vfat")
    } else {
        fs.clone()
    };
    Ok(SystemOp::Mount { source: path.clone(), target: owned(target), fs_type })
}

/// Mounts `partition` at the temporary directory `tmp_path`; the mounted
/// root is `tmp_path` itself.
pub fn auto_mount_root_path(tmp_path: &str, partition: &Partition) -> (r: Result<
    SystemOp,
    InstallError,
>)
    ensures
        partition.fs_type is None || partition.path is None <==> r is Err,
        r is Err ==> r matches Err(InstallError::IncompleteTarget),
        r is Ok ==> r->Ok_0@ == OpView::Mount(
            partition.path->0@,
            tmp_path@,
            mount_fs(partition.fs_type->0@),
        ),
{
    mount_root_path(partition, tmp_path)
}

/// Detaching the mount at `root`, then flushing buffers.
pub open spec fn unmount_plan(root: Seq<char>) -> Seq<OpView> {
    seq![OpView::Unmount(root), OpView::Sync]
}

/// Unmounts the filesystem at `root` and then syncs.
pub fn umount_root_path(root: &str) -> (r: Vec<SystemOp>)
    ensures
        plan_view(r@) == unmount_plan(root@),
{
    let mut plan: Vec<SystemOp> = Vec::new();
    push_op(&mut plan, SystemOp::Unmount { target: owned(root) });
    push_op(&mut plan, SystemOp::Sync);
    assert(plan_view(plan@) =~= unmount_plan(root@));
    plan
}

/// Leaving a change-rooted context through the anchor `fd`.
pub open spec fn escape_plan(fd: i32) -> Seq<OpView> {
    seq![OpView::EnterAnchor(fd), OpView::ChangeRoot("."@), OpView::ChangeDir("/"@)]
}

/// Escapes the change-rooted context through the anchor `root_fd`, a handle
/// to the host root taken before entering: the anchor becomes the working
/// directory, then the root, then the working directory is reset to `/`.
pub fn escape_chroot(root_fd: i32) -> (r: Vec<SystemOp>)
    ensures
        plan_view(r@) == escape_plan(root_fd),
{
    let mut plan: Vec<SystemOp> = Vec::new();
    push_op(&mut plan, SystemOp::EnterAnchor { fd: root_fd });
    push_op(&mut plan, SystemOp::ChangeRoot { path: owned(".") });
    push_op(&mut plan, SystemOp::ChangeDir { path: owned("/") });
    assert(plan_view(plan@) =~= escape_plan(root_fd));
    plan
}

/// Creating `rel` under `root` and binding the host path `source` there.
pub open spec fn bind_step(root: Seq<char>, source: Seq<char>, rel: Seq<char>) -> Seq<OpView> {
    seq![OpView::MakeDir(path_join(root, rel)), OpView::Bind(source, path_join(root, rel))]
}

/// The bind mounts of a guest root: device nodes, process and kernel
/// information and udev state, and on EFI machines the variable store.
pub open spec fn setup_plan(root: Seq<char>, efi: bool) -> Seq<OpView> {
    bind_step(root, "/dev"@, "dev"@) + bind_step(root, "/proc"@, "proc"@) + bind_step(
        root,
        "/sys"@,
        "sys"@,
    ) + bind_step(root, "/run/udev"@, "run/udev"@) + if efi {
        bind_step(root, "/sys/firmware/efi/efivars"@, "sys/firmware/efi/efivars"@)
    } else {
        Seq::empty()
    }
}

/// Undoing the bind mounts of `setup_plan`, the EFI variable store first.
pub open spec fn remove_plan(root: Seq<char>, efi: bool) -> Seq<OpView> {
    (if efi {
        seq![OpView::Unmount(path_join(root, "sys/firmware/efi/efivars"@))]
    } else {
        Seq::empty()
    }) + seq![
        OpView::Unmount(path_join(root, "dev"@)),
        OpView::Unmount(path_join(root, "proc"@)),
        OpView::Unmount(path_join(root, "sys"@)),
        OpView::Unmount(path_join(root, "run/udev"@)),
    ]
}

fn push_bind(plan: &mut Vec<SystemOp>, root: &str, source: &str, rel: &str)
    ensures
        plan_view(final(plan)@) == plan_view(old(plan)@) + bind_step(root@, source@, rel@),
{
    let target = join_path(root, rel);
    push_op(plan, SystemOp::MakeDir { path: target.clone() });
    push_op(plan, SystemOp::Bind { source: owned(source), target });
    assert(plan_view(plan@) =~= plan_view(old(plan)@) + bind_step(root@, source@, rel@));
}

/// Bind-mounts the host's pseudo-filesystems into the guest root `root`,
/// creating each mount point first; on EFI machines (`efi`) also the EFI
/// variable store.
pub fn setup_bind_mounts(root: &str, efi: bool) -> (r: Vec<SystemOp>)
    ensures
        plan_view(r@) == setup_plan(root@, efi),
{
    let mut plan: Vec<SystemOp> = Vec::new();
    push_bind(&mut plan, root, "/dev", "dev");
    push_bind(&mut plan, root, "/proc", "proc");
    push_bind(&mut plan, root, "/sys", "sys");
    push_bind(&mut plan, root, "/run/udev", "run/udev");
    if efi {
        push_bind(&mut plan, root, "/sys/firmware/efi/efivars", "sys/firmware/efi/efivars");
    }
    assert(plan_view(plan@) =~= setup_plan(root@, efi));
    plan
}

/// Detaches every bind mount that `setup_bind_mounts` makes under `root`.
/// To be run from outside the change-rooted context.
pub fn remove_bind_mounts(root: &str, efi: bool) -> (r: Vec<SystemOp>)
    ensures
        plan_view(r@) == remove_plan(root@, efi),
{
    let mut plan: Vec<SystemOp> = Vec::new();
    if efi {
        push_op(
            &mut plan,
            SystemOp::Unmount { target: join_path(root, "sys/firmware/efi/efivars") },
        );
    }
    push_op(&mut plan, SystemOp::Unmount { target: join_path(root, "dev") });
    push_op(&mut plan, SystemOp::Unmount { target: join_path(root, "proc") });
    push_op(&mut plan, SystemOp::Unmount { target: join_path(root, "sys") });
    push_op(&mut plan, SystemOp::Unmount { target: join_path(root, "run/udev") });
    assert(plan_view(plan@) =~= remove_plan(root@, efi));
    plan
}

/// Entering the guest at `root`: bind mounts, change of root, working
/// directory reset to the new root.
pub open spec fn dive_plan(root: Seq<char>, efi: bool) -> Seq<OpView> {
    setup_plan(root, efi) + seq![OpView::ChangeRoot(root), OpView::ChangeDir("/"@)]
}

/// Sets up the bind mounts and changes root into the guest at `root`.
/// Afterwards the process is confined to the guest until it escapes through
/// an anchor taken before this plan ran.
pub fn dive_into_guest(root: &str, efi: bool) -> (r: Vec<SystemOp>)
    ensures
        plan_view(r@) == dive_plan(root@, efi),
{
    let mut plan = setup_bind_mounts(root, efi);
    push_op(&mut plan, SystemOp::ChangeRoot { path: owned(root) });
    push_op(&mut plan, SystemOp::ChangeDir { path: owned("/") });
    assert(plan_view(plan@) =~= dive_plan(root@, efi));
    plan
}

/// Turning off the swapfile of the installation mounted at `root`.
pub open spec fn swapoff_call(root: Seq<char>) -> OpView {
    OpView::TryRun(call("swapoff"@, seq![path_join(root, "swapfile"@)]))
}

/// Turns off the swapfile of the installation mounted at `tempdir`, if it
/// is on.
pub fn swapoff(tempdir: &str) -> (r: SystemOp)
    ensures
        r@ == swapoff_call(tempdir@),
{
    let path = join_path(tempdir, "swapfile");
    SystemOp::TryRun { command: tool("swapoff", one_arg(path.as_str())) }
}

/// Releasing what an installation mounted at `mount_path` holds: the EFI
/// system partition on EFI machines, the swapfile, then the root.
pub open spec fn release_plan(mount_path: Seq<char>, efi: bool) -> Seq<OpView> {
    (if efi {
        unmount_plan(path_join(mount_path, "efi"@))
    } else {
        Seq::empty()
    }) + seq![swapoff_call(mount_path)] + unmount_plan(mount_path)
}

/// The whole cleanup of an installation mounted at `mount_path`: leaving
/// the guest through the anchor `fd`, then releasing the mounts.
pub open spec fn cleanup_plan(mount_path: Seq<char>, fd: i32, efi: bool) -> Seq<OpView> {
    escape_plan(fd) + release_plan(mount_path, efi)
}

/// Unmounts the EFI system partition on EFI machines (`efi`), turns off the
/// swapfile and unmounts the root of the installation at `mount_path`; each
/// step best effort. To be run outside the guest.
pub fn release_mounts(mount_path: &str, efi: bool) -> (r: Vec<SystemOp>)
    ensures
        plan_view(r@) == release_plan(mount_path@, efi),
{
    let mut plan: Vec<SystemOp> = Vec::new();
    if efi {
        let efi_path = join_path(mount_path, "efi");
        extend_plan(&mut plan, umount_root_path(efi_path.as_str()));
    }
    push_op(&mut plan, swapoff(mount_path));
    extend_plan(&mut plan, umount_root_path(mount_path));
    assert(plan_view(plan@) =~= release_plan(mount_path@, efi));
    plan
}

/// Cleans up after an installation mounted at `mount_path`, whatever state
/// it was left in: escapes the change-rooted context through the anchor
/// `root_fd`, unmounts the EFI system partition on EFI machines, turns off
/// the swapfile and unmounts the root. Only turning off the swapfile is
/// marked as allowed to fail; whoever runs the plan decides whether a
/// failing step stops the ones after it.
pub fn umount_all(mount_path: &str, root_fd: i32, efi: bool) -> (r: Vec<SystemOp>)
    ensures
        plan_view(r@) == cleanup_plan(mount_path@, root_fd, efi),
{
    let mut plan = escape_chroot(root_fd);
    extend_plan(&mut plan, release_mounts(mount_path, efi));
    plan
}

/// Every bind mount that `setup_bind_mounts` makes is detached by
/// `remove_bind_mounts`.
pub proof fn lemma_bind_mounts_matched(root: Seq<char>, efi: bool)
    ensures
        forall|i: int|
            0 <= i < setup_plan(root, efi).len() && (#[trigger] setup_plan(root, efi)[i]) is Bind
                ==> remove_plan(root, efi).contains(
                OpView::Unmount(setup_plan(root, efi)[i]->Bind_1),
            ),
{
    let s = setup_plan(root, efi);
    let r = remove_plan(root, efi);
    let k: int = if efi {
        1
    } else {
        0
    };
    assert(r[k] == OpView::Unmount(path_join(root, "dev"@)));
    assert(r[k + 1] == OpView::Unmount(path_join(root, "proc"@)));
    assert(r[k + 2] == OpView::Unmount(path_join(root, "sys"@)));
    assert(r[k + 3] == OpView::Unmount(path_join(root, "run/udev"@)));
    if efi {
        assert(r[0] == OpView::Unmount(path_join(root, "sys/firmware/efi/efivars"@)));
    }
    assert forall|i: int| 0 <= i < s.len() && (#[trigger] s[i]) is Bind implies r.contains(
        OpView::Unmount(s[i]->Bind_1),
    ) by {
        if i == 1 {
            assert(r[k] == OpView::Unmount(s[i]->Bind_1));
        } else if i == 3 {
            assert(r[k + 1] == OpView::Unmount(s[i]->Bind_1));
        } else if i == 5 {
            assert(r[k + 2] == OpView::Unmount(s[i]->Bind_1));
        } else if i == 7 {
            assert(r[k + 3] == OpView::Unmount(s[i]->Bind_1));
        } else if i == 9 {
            assert(r[0] == OpView::Unmount(s[i]->Bind_1));
        }
    }
}

/// The cleanup leaves the change-rooted context before it unmounts
/// anything, and unmounts the root last.
pub proof fn lemma_cleanup_escapes_first(mount_path: Seq<char>, fd: i32, efi: bool)
    ensures
        cleanup_plan(mount_path, fd, efi)[0] == OpView::EnterAnchor(fd),
        forall|i: int|
            0 <= i < cleanup_plan(mount_path, fd, efi).len() && (#[trigger] cleanup_plan(
                mount_path,
                fd,
                efi,
            )[i]) is Unmount ==> i >= 3,
        cleanup_plan(mount_path, fd, efi)[cleanup_plan(mount_path, fd, efi).len() - 2]
            == OpView::Unmount(mount_path),
{
}

/// The process root of an installation: the guest root it may enter, the
/// escape anchor taken before it ever does, and whether it is inside now.
/// Entering and leaving the guest go through this value only.
pub struct RootContext {
    root: String,
    anchor: i32,
    efi: bool,
    in_guest: bool,
}

impl RootContext {
    /// The guest root.
    pub closed spec fn root_of(&self) -> Seq<char> {
        self.root@
    }

    /// The escape anchor.
    pub closed spec fn anchor_of(&self) -> i32 {
        self.anchor
    }

    /// Whether the EFI variable store is bound into the guest.
    pub closed spec fn efi_of(&self) -> bool {
        self.efi
    }

    /// Whether the process is inside the guest.
    pub closed spec fn in_guest_of(&self) -> bool {
        self.in_guest
    }

    /// A context for the guest at `root`, with `anchor`, a handle to the host
    /// root taken now, before any change of root.
    pub fn capture(root: &str, anchor: i32, efi: bool) -> (r: RootContext)
        ensures
            r.root_of() == root@,
            r.anchor_of() == anchor,
            r.efi_of() == efi,
            !r.in_guest_of(),
    {
        RootContext { root: owned(root), anchor, efi, in_guest: false }
    }

    /// Whether the process is inside the guest.
    pub fn in_guest(&self) -> (r: bool)
        ensures
            r == self.in_guest_of(),
    {
        self.in_guest
    }

    /// Enters the guest; nothing to do when already inside.
    pub fn dive(&mut self) -> (r: Vec<SystemOp>)
        ensures
            old(self).in_guest_of() ==> r@.len() == 0,
            !old(self).in_guest_of() ==> plan_view(r@) == dive_plan(
                old(self).root_of(),
                old(self).efi_of(),
            ),
            final(self).in_guest_of(),
            final(self).root_of() == old(self).root_of(),
            final(self).anchor_of() == old(self).anchor_of(),
            final(self).efi_of() == old(self).efi_of(),
    {
        if self.in_guest {
            return Vec::new();
        }
        self.in_guest = true;
        dive_into_guest(self.root.as_str(), self.efi)
    }

    /// Leaves the guest through the anchor.
    pub fn escape(&mut self) -> (r: Vec<SystemOp>)
        ensures
            plan_view(r@) == escape_plan(old(self).anchor_of()),
            !final(self).in_guest_of(),
            final(self).root_of() == old(self).root_of(),
            final(self).anchor_of() == old(self).anchor_of(),
            final(self).efi_of() == old(self).efi_of(),
    {
        self.in_guest = false;
        escape_chroot(self.anchor)
    }

    /// Releases the mounts of the guest root; to be run after `escape`.
    pub fn release(&self) -> (r: Vec<SystemOp>)
        ensures
            plan_view(r@) == release_plan(self.root_of(), self.efi_of()),
    {
        release_mounts(self.root.as_str(), self.efi)
    }

    /// Cleans everything up, from wherever the process is: the whole
    /// `umount_all` plan for the guest root and anchor.
    pub fn cleanup(&mut self) -> (r: Vec<SystemOp>)
        ensures
            plan_view(r@) == cleanup_plan(old(self).root_of(), old(self).anchor_of(), old(self).efi_of()),
            !final(self).in_guest_of(),
            final(self).root_of() == old(self).root_of(),
            final(self).anchor_of() == old(self).anchor_of(),
            final(self).efi_of() == old(self).efi_of(),
    {
        self.in_guest = false;
        umount_all(self.root.as_str(), self.anchor, self.efi)
    }
}

} // verus!
