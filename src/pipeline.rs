use vstd::prelude::*;

use crate::disks::{is_supported_fs, is_supported_fs_type, Partition};
use crate::error::InstallError;

verus! {

/// The stages of an installation, in the order they run. `Done` and
/// `Aborted` end it.
#[derive(Debug, Clone, Copy, PartialEq, Eq, Structural)]
pub enum Stage {
    Formatting,
    Mounting,
    /// Mounting the EFI system partition; only on EFI machines.
    BootPartitionMount,
    Fetching,
    Extracting,
    /// Configuring the guest from inside its root.
    ConfiguringGuest,
    SwapSetup,
    BootloaderInstall,
    Unmounting,
    Done,
    Aborted,
}

/// What the worker reports about the stage it was told to perform, or the
/// operator's request to stop.
#[derive(Debug, Clone, Copy, PartialEq, Eq, Structural)]
pub enum Event {
    Succeeded,
    Failed,
    Cancelled,
}

/// What the caller must do next.
#[derive(Debug, Clone, Copy, PartialEq, Eq, Structural)]
pub enum Directive {
    /// Report progress `percent` and perform `stage`.
    Perform { stage: Stage, percent: u8 },
    /// Report that the installation finished.
    Finish,
    /// Clean up everything with `umount_all`, then stop.
    Cleanup,
    /// Nothing is left to do.
    Halt,
}

/// The release to install, as the release manifest describes it.
#[derive(Debug, Clone, PartialEq, Eq)]
pub struct Variant {
    pub name: String,
    pub url: String,
    /// Download size in bytes.
    pub size: u64,
    /// Space the installed system needs, in bytes.
    pub install_size: u64,
}

/// The mirror to download from.
#[derive(Debug, Clone, PartialEq, Eq)]
pub struct Mirror {
    pub name: String,
    pub url: String,
}

/// The swapfile to create.
#[derive(Debug, Clone, Copy, PartialEq, Eq, Structural)]
pub struct SwapConfig {
    /// Size in bytes.
    pub size: u64,
    pub enabled: bool,
    /// Whether the swapfile is large enough to hibernate into.
    pub hibernation: bool,
}

/// Everything an installation needs, gathered before it starts and left
/// unchanged while it runs.
#[derive(Debug, Clone, PartialEq, Eq)]
pub struct InstallRequest {
    pub partition: Partition,
    pub variant: Variant,
    pub mirror: Mirror,
    pub user: String,
    pub password: String,
    pub hostname: String,
    pub locale: String,
    pub timezone: String,
    /// Whether the hardware clock keeps UTC rather than local time.
    pub rtc_utc: bool,
    pub swap: SwapConfig,
}

/// Whether stage `s` ends an installation.
pub open spec fn is_terminal(s: Stage) -> bool {
    s == Stage::Done || s == Stage::Aborted
}

/// The stage after `s` when `s` succeeds; the EFI system partition is
/// mounted only on EFI machines.
pub open spec fn next_stage(s: Stage, efi: bool) -> Stage {
    match s {
        Stage::Formatting => Stage::Mounting,
        Stage::Mounting => if efi {
            Stage::BootPartitionMount
        } else {
            Stage::Fetching
        },
        Stage::BootPartitionMount => Stage::Fetching,
        Stage::Fetching => Stage::Extracting,
        Stage::Extracting => Stage::ConfiguringGuest,
        Stage::ConfiguringGuest => Stage::SwapSetup,
        Stage::SwapSetup => Stage::BootloaderInstall,
        Stage::BootloaderInstall => Stage::Unmounting,
        Stage::Unmounting => Stage::Done,
        Stage::Done => Stage::Done,
        Stage::Aborted => Stage::Aborted,
    }
}

/// The progress reported when stage `s` begins.
pub open spec fn stage_percent(s: Stage) -> u8 {
    match s {
        Stage::Formatting => 0,
        Stage::Mounting => 5,
        Stage::BootPartitionMount => 8,
        Stage::Fetching => 10,
        Stage::Extracting => 40,
        Stage::ConfiguringGuest => 70,
        Stage::SwapSetup => 80,
        Stage::BootloaderInstall => 85,
        Stage::Unmounting => 95,
        _ => 100,
    }
}

/// One transition: from stage `s` on event `e`, the next stage and what
/// the caller must do. A failure or a cancellation in a running stage
/// aborts with one cleanup; an ended installation ignores every event.
pub open spec fn step(s: Stage, efi: bool, e: Event) -> (Stage, Directive) {
    if is_terminal(s) {
        (s, Directive::Halt)
    } else if e != Event::Succeeded {
        (Stage::Aborted, Directive::Cleanup)
    } else if next_stage(s, efi) == Stage::Done {
        (Stage::Done, Directive::Finish)
    } else {
        (
            next_stage(s, efi),
            Directive::Perform {
                stage: next_stage(s, efi),
                percent: stage_percent(next_stage(s, efi)),
            },
        )
    }
}

/// The directives issued for the events `es`, starting at stage `s`.
pub open spec fn directives(s: Stage, efi: bool, es: Seq<Event>) -> Seq<Directive>
    decreases es.len(),
{
    if es.len() == 0 {
        Seq::empty()
    } else {
        seq![step(s, efi, es[0]).1] + directives(step(s, efi, es[0]).0, efi, es.drop_first())
    }
}

/// Whether the request can be installed: a device path to format on a
/// known parent disk, a size above zero, a supported filesystem to format
/// it as, and room for the release.
pub open spec fn request_error(req: InstallRequest) -> Option<InstallError> {
    if req.partition.path is None || req.partition.parent_path is None || req.partition.size == 0
        || req.partition.fs_type is None {
        Some(InstallError::IncompleteTarget)
    } else if !is_supported_fs(req.partition.fs_type->0@) {
        Some(InstallError::UnsupportedFilesystem)
    } else if req.partition.size < req.variant.install_size {
        Some(
            InstallError::InsufficientSpace {
                available: req.partition.size,
                required: req.variant.install_size,
            },
        )
    } else {
        None
    }
}

/// The first reason `request` cannot be installed, if any.
pub fn request_check(request: &InstallRequest) -> (r: Option<InstallError>)
    ensures
        r == request_error(*request),
{
    if request.partition.path.is_none() || request.partition.parent_path.is_none()
        || request.partition.size == 0 {
        return Some(InstallError::IncompleteTarget);
    }
    match &request.partition.fs_type {
        None => {
            return Some(InstallError::IncompleteTarget);
        },
        Some(fs) => {
            if !is_supported_fs_type(fs.as_str()) {
                return Some(InstallError::UnsupportedFilesystem);
            }
        },
    }
    if request.partition.size < request.variant.install_size {
        return Some(
            InstallError::InsufficientSpace {
                available: request.partition.size,
                required: request.variant.install_size,
            },
        );
    }
    None
}

/// The state of one installation run.
pub struct Pipeline {
    stage: Stage,
    efi: bool,
}

impl Pipeline {
    /// The current stage.
    pub closed spec fn stage_of(&self) -> Stage {
        self.stage
    }

    /// Whether the EFI system partition is part of this run.
    pub closed spec fn efi_of(&self) -> bool {
        self.efi
    }

    /// Starts an installation of `request` on a machine booted by EFI
    /// (`efi`) or not. The request is checked before anything destructive:
    /// without a device path, a parent disk, a size above zero or a
    /// filesystem kind it fails with `IncompleteTarget`, with a kind the installer does not install onto
    /// with `UnsupportedFilesystem`, and when the partition is smaller than
    /// the release needs, with `InsufficientSpace`. Otherwise the run begins
    /// with formatting.
    pub fn new(request: &InstallRequest, efi: bool) -> (r: Result<(Pipeline, Directive), InstallError>)
        ensures
            match request_error(*request) {
                Some(e) => r == Err::<(Pipeline, Directive), InstallError>(e),
                None => r is Ok && r->Ok_0.0.stage_of() == Stage::Formatting && r->Ok_0.0.efi_of()
                    == efi && r->Ok_0.1 == (Directive::Perform {
                    stage: Stage::Formatting,
                    percent: stage_percent(Stage::Formatting),
                }),
            },
    {
        if let Some(e) = request_check(request) {
            return Err(e);
        }
        Ok((Pipeline { stage: Stage::Formatting, efi }, Directive::Perform { stage: Stage::Formatting, percent: 0 }))
    }

    /// The current stage.
    pub fn stage(&self) -> (r: Stage)
        ensures
            r == self.stage_of(),
    {
        self.stage
    }

    /// Takes in what happened to the current stage, moves on, and says what
    /// to do next.
    pub fn advance(&mut self, event: Event) -> (r: Directive)
        ensures
            (final(self).stage_of(), r) == step(old(self).stage_of(), old(self).efi_of(), event),
            final(self).efi_of() == old(self).efi_of(),
    {
        match self.stage {
            Stage::Done | Stage::Aborted => {
                return Directive::Halt;
            },
            _ => {},
        }
        match event {
            Event::Succeeded => {},
            _ => {
                self.stage = Stage::Aborted;
                return Directive::Cleanup;
            },
        }
        let next = match self.stage {
            Stage::Formatting => Stage::Mounting,
            Stage::Mounting => if self.efi {
                Stage::BootPartitionMount
            } else {
                Stage::Fetching
            },
            Stage::BootPartitionMount => Stage::Fetching,
            Stage::Fetching => Stage::Extracting,
            Stage::Extracting => Stage::ConfiguringGuest,
            Stage::ConfiguringGuest => Stage::SwapSetup,
            Stage::SwapSetup => Stage::BootloaderInstall,
            Stage::BootloaderInstall => Stage::Unmounting,
            _ => Stage::Done,
        };
        self.stage = next;
        if let Stage::Done = next {
            return Directive::Finish;
        }
        let percent: u8 = match next {
            Stage::Mounting => 5,
            Stage::BootPartitionMount => 8,
            Stage::Fetching => 10,
            Stage::Extracting => 40,
            Stage::ConfiguringGuest => 70,
            Stage::SwapSetup => 80,
            Stage::BootloaderInstall => 85,
            Stage::Unmounting => 95,
            _ => 100,
        };
        Directive::Perform { stage: next, percent }
    }
}

/// One directive is issued per event.
pub proof fn lemma_directives_len(s: Stage, efi: bool, es: Seq<Event>)
    ensures
        directives(s, efi, es).len() == es.len(),
    decreases es.len(),
{
    if es.len() > 0 {
        lemma_directives_len(step(s, efi, es[0]).0, efi, es.drop_first());
    }
}

/// Once an installation has ended, nothing more happens: every later event
/// gives `Halt`.
pub proof fn lemma_ended_stays_quiet(s: Stage, efi: bool, es: Seq<Event>)
    requires
        is_terminal(s),
    ensures
        forall|i: int| 0 <= i < es.len() ==> directives(s, efi, es)[i] == Directive::Halt,
    decreases es.len(),
{
    lemma_directives_len(s, efi, es);
    if es.len() > 0 {
        lemma_ended_stays_quiet(s, efi, es.drop_first());
        lemma_directives_len(s, efi, es.drop_first());
        assert forall|i: int| 0 <= i < es.len() implies directives(s, efi, es)[i]
            == Directive::Halt by {
            if i > 0 {
                assert(directives(s, efi, es)[i] == directives(s, efi, es.drop_first())[i - 1]);
            }
        }
    }
}

/// A cancellation while a stage runs leads to exactly one cleanup, as the
/// first directive, and to nothing afterwards: in particular no later stage,
/// such as configuring the guest, is performed.
pub proof fn lemma_cancel_cleans_once(s: Stage, efi: bool, es: Seq<Event>)
    requires
        !is_terminal(s),
    ensures
        directives(s, efi, seq![Event::Cancelled] + es)[0] == Directive::Cleanup,
        forall|i: int|
            1 <= i < es.len() + 1 ==> directives(s, efi, seq![Event::Cancelled] + es)[i]
                == Directive::Halt,
        forall|i: int|
            0 <= i < es.len() + 1 ==> !(directives(s, efi, seq![Event::Cancelled] + es)[i] is Perform),
{
    let all = seq![Event::Cancelled] + es;
    assert(all.drop_first() =~= es);
    lemma_ended_stays_quiet(Stage::Aborted, efi, es);
    lemma_directives_len(s, efi, all);
    lemma_directives_len(Stage::Aborted, efi, es);
    assert forall|i: int| 1 <= i < es.len() + 1 implies directives(s, efi, all)[i]
        == Directive::Halt by {
        assert(directives(s, efi, all)[i] == directives(Stage::Aborted, efi, es)[i - 1]);
    }
}

/// A cancellation while the release is being fetched cleans up once and
/// never reaches the guest configuration.
pub proof fn lemma_cancel_while_fetching(efi: bool, es: Seq<Event>)
    ensures
        directives(Stage::Fetching, efi, seq![Event::Cancelled] + es)[0] == Directive::Cleanup,
        forall|i: int|
            0 <= i < es.len() + 1 ==> directives(Stage::Fetching, efi, seq![Event::Cancelled] + es)[i]
                != (Directive::Perform {
                stage: Stage::ConfiguringGuest,
                percent: stage_percent(Stage::ConfiguringGuest),
            }),
        forall|i: int|
            1 <= i < es.len() + 1 ==> directives(Stage::Fetching, efi, seq![Event::Cancelled] + es)[i]
                == Directive::Halt,
{
    lemma_cancel_cleans_once(Stage::Fetching, efi, es);
}

/// The stages of a run in order, from formatting to unmounting; the EFI
/// system partition is mounted only on EFI machines.
pub open spec fn stage_chain(efi: bool) -> Seq<Stage> {
    if efi {
        seq![
            Stage::Formatting,
            Stage::Mounting,
            Stage::BootPartitionMount,
            Stage::Fetching,
            Stage::Extracting,
            Stage::ConfiguringGuest,
            Stage::SwapSetup,
            Stage::BootloaderInstall,
            Stage::Unmounting,
        ]
    } else {
        seq![
            Stage::Formatting,
            Stage::Mounting,
            Stage::Fetching,
            Stage::Extracting,
            Stage::ConfiguringGuest,
            Stage::SwapSetup,
            Stage::BootloaderInstall,
            Stage::Unmounting,
        ]
    }
}

/// Whether every event in `es` is a success.
pub open spec fn all_succeed(es: Seq<Event>) -> bool {
    forall|i: int| 0 <= i < es.len() ==> es[i] == Event::Succeeded
}

proof fn lemma_chain_next(efi: bool, k: int)
    requires
        0 <= k < stage_chain(efi).len(),
    ensures
        !is_terminal(stage_chain(efi)[k]),
        k + 1 < stage_chain(efi).len() ==> next_stage(stage_chain(efi)[k], efi) == stage_chain(
            efi,
        )[k + 1],
        k + 1 == stage_chain(efi).len() ==> next_stage(stage_chain(efi)[k], efi) == Stage::Done,
{
    if efi {
        assert(0 <= k < 9);
    } else {
        assert(0 <= k < 8);
    }
}

proof fn lemma_success_from(efi: bool, k: int, es: Seq<Event>)
    requires
        0 <= k < stage_chain(efi).len(),
        all_succeed(es),
        es.len() == stage_chain(efi).len() - k,
    ensures
        forall|i: int|
            0 <= i < es.len() - 1 ==> #[trigger] directives(stage_chain(efi)[k], efi, es)[i]
                == (Directive::Perform {
                stage: stage_chain(efi)[k + 1 + i],
                percent: stage_percent(stage_chain(efi)[k + 1 + i]),
            }),
        directives(stage_chain(efi)[k], efi, es)[es.len() - 1] == Directive::Finish,
    decreases es.len(),
{
    let c = stage_chain(efi);
    lemma_chain_next(efi, k);
    lemma_directives_len(c[k], efi, es);
    assert(es[0] == Event::Succeeded);
    if k + 1 < c.len() {
        let rest = es.drop_first();
        lemma_success_from(efi, k + 1, rest);
        assert(step(c[k], efi, es[0]).0 == c[k + 1]);
        assert forall|i: int| 0 <= i < es.len() - 1 implies #[trigger] directives(c[k], efi, es)[i]
            == (Directive::Perform {
            stage: c[k + 1 + i],
            percent: stage_percent(c[k + 1 + i]),
        }) by {
            if i > 0 {
                assert(directives(c[k], efi, es)[i] == directives(c[k + 1], efi, rest)[i - 1]);
                assert(k + 1 + 1 + (i - 1) == k + 1 + i);
            }
        }
        assert(directives(c[k], efi, es)[es.len() - 1] == directives(c[k + 1], efi, rest)[rest.len()
            - 1]);
    }
}

/// When every stage succeeds, the run performs the stages strictly in
/// order, each announced once with its progress, and then finishes exactly
/// once.
pub proof fn lemma_success_runs_in_order(efi: bool, es: Seq<Event>)
    requires
        all_succeed(es),
        es.len() == stage_chain(efi).len(),
    ensures
        forall|i: int|
            0 <= i < es.len() - 1 ==> #[trigger] directives(Stage::Formatting, efi, es)[i]
                == (Directive::Perform {
                stage: stage_chain(efi)[i + 1],
                percent: stage_percent(stage_chain(efi)[i + 1]),
            }),
        directives(Stage::Formatting, efi, es)[es.len() - 1] == Directive::Finish,
{
    lemma_success_from(efi, 0, es);
    assert forall|i: int| 0 <= i < es.len() - 1 implies #[trigger] directives(
        Stage::Formatting,
        efi,
        es,
    )[i] == (Directive::Perform {
        stage: stage_chain(efi)[i + 1],
        percent: stage_percent(stage_chain(efi)[i + 1]),
    }) by {
        assert(directives(stage_chain(efi)[0], efi, es)[i] == (Directive::Perform {
            stage: stage_chain(efi)[0 + 1 + i],
            percent: stage_percent(stage_chain(efi)[0 + 1 + i]),
        }));
    }
}

/// A request whose partition is smaller than the release needs is turned
/// down before any stage runs, formatting included; for an otherwise
/// complete request the reason given is the missing space.
pub proof fn lemma_undersized_rejected(req: InstallRequest)
    requires
        req.partition.size < req.variant.install_size,
    ensures
        request_error(req) is Some,
        req.partition.path is Some && req.partition.parent_path is Some && req.partition.size > 0
            && req.partition.fs_type is Some && is_supported_fs(req.partition.fs_type->0@)
            ==> request_error(req) == Some(
            InstallError::InsufficientSpace {
                available: req.partition.size,
                required: req.variant.install_size,
            },
        ),
{
}

} // verus!
