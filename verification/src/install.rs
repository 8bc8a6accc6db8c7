//! Making the agent binary available before a session becomes ready.
//!
//! The installer decides and unpacks; the embedding program probes, fetches
//! and writes, and reports back what came of each step.

use vstd::prelude::*;
use crate::text::same_text;
use crate::wire::{entry_at, entry_of};

verus! {

/// The platforms for which the agent is released.
#[derive(Clone, Copy, Debug, PartialEq, Eq, Structural)]
pub enum Platform {
    Darwin,
    Linux,
    Windows,
}

/// The architectures for which the agent is released.
#[derive(Clone, Copy, Debug, PartialEq, Eq, Structural)]
pub enum Arch {
    Amd64,
    Arm64,
}

impl Platform {
    /// The platform's name in a release archive's file name.
    pub open spec fn label(self) -> Seq<char> {
        match self {
            Platform::Darwin => "darwin"@,
            Platform::Linux => "linux"@,
            Platform::Windows => "windows"@,
        }
    }

    /// The platform that an operating system name stands for.
    pub open spec fn of_os(os: Seq<char>) -> Option<Platform> {
        if os == "macos"@ {
            Some(Platform::Darwin)
        } else if os == "linux"@ {
            Some(Platform::Linux)
        } else if os == "windows"@ {
            Some(Platform::Windows)
        } else {
            None
        }
    }

    /// Reads an operating system name as the standard library reports it.
    pub fn from_os(os: &str) -> (platform: Option<Platform>)
        ensures
            platform == Platform::of_os(os@),
    {
        if same_text(os, "macos") {
            Some(Platform::Darwin)
        } else if same_text(os, "linux") {
            Some(Platform::Linux)
        } else if same_text(os, "windows") {
            Some(Platform::Windows)
        } else {
            None
        }
    }

    /// The platform's name in a release archive's file name.
    pub fn name(self) -> (name: &'static str)
        ensures
            name@ == self.label(),
    {
        match self {
            Platform::Darwin => "darwin",
            Platform::Linux => "linux",
            Platform::Windows => "windows",
        }
    }
}

impl Arch {
    /// The architecture's name in a release archive's file name.
    pub open spec fn label(self) -> Seq<char> {
        match self {
            Arch::Amd64 => "amd64"@,
            Arch::Arm64 => "arm64"@,
        }
    }

    /// The architecture that a machine name stands for.
    pub open spec fn of_machine(machine: Seq<char>) -> Option<Arch> {
        if machine == "x86_64"@ {
            Some(Arch::Amd64)
        } else if machine == "aarch64"@ {
            Some(Arch::Arm64)
        } else {
            None
        }
    }

    /// Reads a machine name as the standard library reports it.
    pub fn from_machine(machine: &str) -> (arch: Option<Arch>)
        ensures
            arch == Arch::of_machine(machine@),
    {
        if same_text(machine, "x86_64") {
            Some(Arch::Amd64)
        } else if same_text(machine, "aarch64") {
            Some(Arch::Arm64)
        } else {
            None
        }
    }

    /// The architecture's name in a release archive's file name.
    pub fn name(self) -> (name: &'static str)
        ensures
            name@ == self.label(),
    {
        match self {
            Arch::Amd64 => "amd64",
            Arch::Arm64 => "arm64",
        }
    }
}

/// Where the release archives are kept.
pub open spec fn release_base() -> Seq<char> {
    "https://github.com/wakatime/wakatime-cli/releases/latest/download/"@
}

/// File name of the release archive for a platform and an architecture.
pub open spec fn archive_name(platform: Platform, arch: Arch) -> Seq<char> {
    "wakatime-cli-"@ + platform.label() + "-"@ + arch.label() + ".zip"@
}

/// Address of the release archive for a platform and an architecture.
pub open spec fn download_url_of(platform: Platform, arch: Arch) -> Seq<char> {
    release_base() + archive_name(platform, arch)
}

/// Computes the address of the release archive.
pub fn download_url(platform: Platform, arch: Arch) -> (url: String)
    ensures
        url@ == download_url_of(platform, arch),
{
    let mut url = String::from_str(
        "https://github.com/wakatime/wakatime-cli/releases/latest/download/",
    );
    url.append("wakatime-cli-");
    url.append(platform.name());
    url.append("-");
    url.append(arch.name());
    url.append(".zip");
    assert(url@ =~= download_url_of(platform, arch));
    url
}

/// Why the agent could not be made available.
#[derive(Clone, Debug, PartialEq, Eq)]
pub enum InstallError {
    /// The agent is not released for this machine.
    Unsupported,
    /// The archive could not be fetched at all.
    Network { url: String },
    /// The release host answered with a status that is no success.
    Status { url: String, status: u16 },
    /// What was fetched is no archive.
    Archive,
    /// The archive holds no entry.
    MissingEntry,
    /// The binary could not be written.
    Filesystem,
    /// A step was reported that the installer had not asked for.
    OutOfOrder,
}

/// Mathematical model of an [`InstallError`].
pub enum InstallErrorModel {
    Unsupported,
    Network { url: Seq<char> },
    Status { url: Seq<char>, status: u16 },
    Archive,
    MissingEntry,
    Filesystem,
    OutOfOrder,
}

impl View for InstallError {
    type V = InstallErrorModel;

    open spec fn view(&self) -> InstallErrorModel {
        match self {
            InstallError::Unsupported => InstallErrorModel::Unsupported,
            InstallError::Network { url } => InstallErrorModel::Network { url: url@ },
            InstallError::Status { url, status } => InstallErrorModel::Status {
                url: url@,
                status: *status,
            },
            InstallError::Archive => InstallErrorModel::Archive,
            InstallError::MissingEntry => InstallErrorModel::MissingEntry,
            InstallError::Filesystem => InstallErrorModel::Filesystem,
            InstallError::OutOfOrder => InstallErrorModel::OutOfOrder,
        }
    }
}

/// What the embedding program reports back to the installer.
#[derive(Clone, Debug, PartialEq, Eq)]
pub enum InstallEvent {
    /// Whether the agent binary is resolvable on the search path.
    Probed(bool),
    /// The request for the archive got no answer.
    FetchFailed,
    /// The release host answered.
    Fetched { status: u16, body: Vec<u8> },
    /// Whether the binary was written.
    Written(bool),
}

/// Mathematical model of an [`InstallEvent`].
pub enum InstallEventModel {
    Probed(bool),
    FetchFailed,
    Fetched { status: u16, body: Seq<u8> },
    Written(bool),
}

impl View for InstallEvent {
    type V = InstallEventModel;

    open spec fn view(&self) -> InstallEventModel {
        match self {
            InstallEvent::Probed(found) => InstallEventModel::Probed(*found),
            InstallEvent::FetchFailed => InstallEventModel::FetchFailed,
            InstallEvent::Fetched { status, body } => InstallEventModel::Fetched {
                status: *status,
                body: body@,
            },
            InstallEvent::Written(written) => InstallEventModel::Written(*written),
        }
    }
}

/// What came of taking an entry out of an archive.
#[derive(Clone, Debug, PartialEq, Eq)]
pub enum Extraction {
    /// The bytes could not be read as an archive.
    NotAnArchive,
    /// The archive holds no entry at the index asked for.
    NoEntry,
    /// The contents of the entry.
    Entry(Vec<u8>),
}

/// Mathematical model of an [`Extraction`].
pub enum ExtractionModel {
    NotAnArchive,
    NoEntry,
    Entry(Seq<u8>),
}

impl View for Extraction {
    type V = ExtractionModel;

    open spec fn view(&self) -> ExtractionModel {
        match self {
            Extraction::NotAnArchive => ExtractionModel::NotAnArchive,
            Extraction::NoEntry => ExtractionModel::NoEntry,
            Extraction::Entry(bytes) => ExtractionModel::Entry(bytes@),
        }
    }
}

/// What the installer asks of the embedding program next.
#[derive(Clone, Debug, PartialEq, Eq)]
pub enum InstallStep {
    /// Look for the binary of this name on the search path.
    Probe { binary: String },
    /// Fetch the archive at this address.
    Fetch { url: String },
    /// Write these bytes to a file of this name beside the running
    /// executable.
    Write { file_name: String, bytes: Vec<u8> },
    /// The bootstrap is over: the agent is available.
    Installed,
    /// The bootstrap is over: the agent is not available.
    Failed(InstallError),
}

/// Mathematical model of an [`InstallStep`].
pub enum InstallStepModel {
    Probe { binary: Seq<char> },
    Fetch { url: Seq<char> },
    Write { file_name: Seq<char>, bytes: Seq<u8> },
    Installed,
    Failed(InstallErrorModel),
}

impl InstallStepModel {
    /// Whether the step ends the bootstrap.
    pub open spec fn is_end(self) -> bool {
        self is Installed || self is Failed
    }
}

impl View for InstallStep {
    type V = InstallStepModel;

    open spec fn view(&self) -> InstallStepModel {
        match self {
            InstallStep::Probe { binary } => InstallStepModel::Probe { binary: binary@ },
            InstallStep::Fetch { url } => InstallStepModel::Fetch { url: url@ },
            InstallStep::Write { file_name, bytes } => InstallStepModel::Write {
                file_name: file_name@,
                bytes: bytes@,
            },
            InstallStep::Installed => InstallStepModel::Installed,
            InstallStep::Failed(e) => InstallStepModel::Failed(e@),
        }
    }
}

/// Which report the installer waits for.
#[derive(Clone, Copy, Debug, PartialEq, Eq, Structural)]
pub enum Stage {
    /// No bootstrap was begun.
    Idle,
    Probing,
    Fetching,
    Writing,
    /// The bootstrap is over.
    Finished,
}

/// Mathematical model of an [`Installer`].
pub struct InstallerModel {
    pub stage: Stage,
    pub platform: Platform,
    pub arch: Arch,
}

/// Whether a status of the release host is a success.
pub open spec fn is_success(status: u16) -> bool {
    200 <= status < 300
}

/// The first entry of an archive: the one at index 0.
pub open spec fn first_entry_of(archive: Seq<u8>) -> ExtractionModel {
    entry_of(archive, 0)
}

/// What is done with an archive once its first entry was looked for: the
/// entry is written under the name of the agent binary; an archive without
/// an entry, and bytes that are no archive, fail the bootstrap.
pub open spec fn entry_step(extraction: ExtractionModel) -> InstallStepModel {
    match extraction {
        ExtractionModel::Entry(bytes) => InstallStepModel::Write {
            file_name: crate::invoker::agent_binary_name(),
            bytes,
        },
        ExtractionModel::NoEntry => InstallStepModel::Failed(InstallErrorModel::MissingEntry),
        ExtractionModel::NotAnArchive => InstallStepModel::Failed(InstallErrorModel::Archive),
    }
}

/// The installer's answer to a report: the steps in their order, each
/// failure ending the bootstrap, and a report that was not asked for ending
/// it as out of order.
pub open spec fn step_after(installer: InstallerModel, event: InstallEventModel) -> InstallStepModel {
    let url = download_url_of(installer.platform, installer.arch);
    match (installer.stage, event) {
        (Stage::Probing, InstallEventModel::Probed(true)) => InstallStepModel::Installed,
        (Stage::Probing, InstallEventModel::Probed(false)) => InstallStepModel::Fetch { url },
        (Stage::Fetching, InstallEventModel::FetchFailed) => InstallStepModel::Failed(
            InstallErrorModel::Network { url },
        ),
        (Stage::Fetching, InstallEventModel::Fetched { status, body }) => if is_success(status) {
            entry_step(first_entry_of(body))
        } else {
            InstallStepModel::Failed(InstallErrorModel::Status { url, status })
        },
        (Stage::Writing, InstallEventModel::Written(true)) => InstallStepModel::Installed,
        (Stage::Writing, InstallEventModel::Written(false)) => InstallStepModel::Failed(
            InstallErrorModel::Filesystem,
        ),
        _ => InstallStepModel::Failed(InstallErrorModel::OutOfOrder),
    }
}

/// The report that a step is answered with is awaited at this stage.
pub open spec fn stage_of(step: InstallStepModel) -> Stage {
    match step {
        InstallStepModel::Probe { .. } => Stage::Probing,
        InstallStepModel::Fetch { .. } => Stage::Fetching,
        InstallStepModel::Write { .. } => Stage::Writing,
        InstallStepModel::Installed => Stage::Finished,
        InstallStepModel::Failed(_) => Stage::Finished,
    }
}

/// The installer once it has answered a report.
pub open spec fn installer_after(
    installer: InstallerModel,
    event: InstallEventModel,
) -> InstallerModel {
    InstallerModel { stage: stage_of(step_after(installer, event)), ..installer }
}

/// Decides what is done with an archive once its first entry was looked
/// for.
pub fn step_for_entry(extraction: Extraction) -> (step: InstallStep)
    ensures
        step@ == entry_step(extraction@),
{
    match extraction {
        Extraction::Entry(bytes) => InstallStep::Write {
            file_name: String::from_str(crate::invoker::agent_binary()),
            bytes,
        },
        Extraction::NoEntry => InstallStep::Failed(InstallError::MissingEntry),
        Extraction::NotAnArchive => InstallStep::Failed(InstallError::Archive),
    }
}

/// Decides the steps of a bootstrap for one platform and architecture.
pub struct Installer {
    stage: Stage,
    platform: Platform,
    arch: Arch,
}

impl View for Installer {
    type V = InstallerModel;

    closed spec fn view(&self) -> InstallerModel {
        InstallerModel { stage: self.stage, platform: self.platform, arch: self.arch }
    }
}

impl Installer {
    /// An installer that has not begun.
    pub fn new(platform: Platform, arch: Arch) -> (installer: Installer)
        ensures
            installer@ == (InstallerModel { stage: Stage::Idle, platform, arch }),
    {
        Installer { stage: Stage::Idle, platform, arch }
    }

    /// An installer for the machine that the standard library describes by
    /// these names. A machine for which the agent is not released has
    /// none.
    pub fn for_machine(os: &str, machine: &str) -> (installer: Result<Installer, InstallError>)
        ensures
            match (Platform::of_os(os@), Arch::of_machine(machine@)) {
                (Some(platform), Some(arch)) => installer is Ok && installer->Ok_0@
                    == (InstallerModel { stage: Stage::Idle, platform, arch }),
                _ => installer is Err && installer->Err_0@ == InstallErrorModel::Unsupported,
            },
    {
        match (Platform::from_os(os), Arch::from_machine(machine)) {
            (Some(platform), Some(arch)) => Ok(Installer::new(platform, arch)),
            _ => Err(InstallError::Unsupported),
        }
    }

    /// Which report the installer waits for.
    pub fn stage(&self) -> (stage: Stage)
        ensures
            stage == self@.stage,
    {
        self.stage
    }

    /// Begins a bootstrap, whatever came before: the first step is always
    /// to look for the binary.
    pub fn begin(&mut self) -> (step: InstallStep)
        ensures
            step@ == (InstallStepModel::Probe { binary: crate::invoker::agent_binary_name() }),
            final(self)@ == (InstallerModel { stage: Stage::Probing, ..old(self)@ }),
    {
        self.stage = Stage::Probing;
        InstallStep::Probe { binary: String::from_str(crate::invoker::agent_binary()) }
    }

    /// Takes the report on the step last asked for and decides the next.
    pub fn advance(&mut self, event: InstallEvent) -> (step: InstallStep)
        ensures
            step@ == step_after(old(self)@, event@),
            final(self)@ == installer_after(old(self)@, event@),
    {
        let step = match (self.stage, event) {
            (Stage::Probing, InstallEvent::Probed(found)) => {
                if found {
                    InstallStep::Installed
                } else {
                    InstallStep::Fetch { url: download_url(self.platform, self.arch) }
                }
            },
            (Stage::Fetching, InstallEvent::FetchFailed) => InstallStep::Failed(
                InstallError::Network { url: download_url(self.platform, self.arch) },
            ),
            (Stage::Fetching, InstallEvent::Fetched { status, body }) => {
                if 200 <= status && status < 300 {
                    step_for_entry(entry_at(&body, 0))
                } else {
                    InstallStep::Failed(
                        InstallError::Status {
                            url: download_url(self.platform, self.arch),
                            status,
                        },
                    )
                }
            },
            (Stage::Writing, InstallEvent::Written(written)) => {
                if written {
                    InstallStep::Installed
                } else {
                    InstallStep::Failed(InstallError::Filesystem)
                }
            },
            _ => InstallStep::Failed(InstallError::OutOfOrder),
        };
        self.stage = match &step {
            InstallStep::Probe { .. } => Stage::Probing,
            InstallStep::Fetch { .. } => Stage::Fetching,
            InstallStep::Write { .. } => Stage::Writing,
            InstallStep::Installed => Stage::Finished,
            InstallStep::Failed(_) => Stage::Finished,
        };
        step
    }
}

/// The steps that an installer answers a row of reports with, one step for
/// each report.
pub open spec fn steps_of(installer: InstallerModel, events: Seq<InstallEventModel>) -> Seq<
    InstallStepModel,
>
    decreases events.len(),
{
    if events.len() == 0 {
        Seq::empty()
    } else {
        seq![step_after(installer, events[0])] + steps_of(
            installer_after(installer, events[0]),
            events.drop_first(),
        )
    }
}

/// There are as many steps as reports.
pub proof fn one_step_for_each_report(installer: InstallerModel, events: Seq<InstallEventModel>)
    ensures
        steps_of(installer, events).len() == events.len(),
    decreases events.len(),
{
    if events.len() > 0 {
        one_step_for_each_report(installer_after(installer, events[0]), events.drop_first());
    }
}

/// The binary is written only with the contents of the first entry of an
/// archive that was fetched with success: whatever is reported, and from
/// whatever stage, a step that writes answers such a fetch and writes that
/// entry's bytes. An archive without an entry is therefore never followed
/// by a write.
pub proof fn write_only_of_an_entry(
    installer: InstallerModel,
    events: Seq<InstallEventModel>,
    i: int,
)
    requires
        0 <= i < events.len(),
        steps_of(installer, events)[i] is Write,
    ensures
        events[i] is Fetched,
        is_success(events[i]->Fetched_status),
        first_entry_of(events[i]->Fetched_body) == ExtractionModel::Entry(
            steps_of(installer, events)[i]->Write_bytes,
        ),
    decreases events.len(),
{
    one_step_for_each_report(installer_after(installer, events[0]), events.drop_first());
    if i > 0 {
        write_only_of_an_entry(
            installer_after(installer, events[0]),
            events.drop_first(),
            i - 1,
        );
    }
}

/// An archive without an entry fails the bootstrap with an error, and so
/// ends it.
pub proof fn empty_archive_fails(installer: InstallerModel, status: u16, body: Seq<u8>)
    requires
        installer.stage == Stage::Fetching,
        is_success(status),
        first_entry_of(body) == ExtractionModel::NoEntry,
    ensures
        step_after(installer, InstallEventModel::Fetched { status, body })
            == InstallStepModel::Failed(InstallErrorModel::MissingEntry),
        installer_after(installer, InstallEventModel::Fetched { status, body }).stage
            == Stage::Finished,
{
}

/// Once a bootstrap is over, no report brings a step other than the end.
pub proof fn finished_stays_finished(
    installer: InstallerModel,
    events: Seq<InstallEventModel>,
    i: int,
)
    requires
        installer.stage == Stage::Finished,
        0 <= i < events.len(),
    ensures
        steps_of(installer, events)[i].is_end(),
    decreases events.len(),
{
    one_step_for_each_report(installer_after(installer, events[0]), events.drop_first());
    if i > 0 {
        finished_stays_finished(installer_after(installer, events[0]), events.drop_first(), i - 1);
    }
}

/// With the binary resolvable a bootstrap succeeds at once and nothing is
/// ever fetched, however often it is begun: after the probe found the
/// binary, the first step is the successful end, and no later step is a
/// fetch or a write.
pub proof fn resolvable_needs_no_network(
    installer: InstallerModel,
    events: Seq<InstallEventModel>,
    i: int,
)
    requires
        installer.stage == Stage::Probing,
        0 <= i < events.len(),
        events[0] == InstallEventModel::Probed(true),
    ensures
        steps_of(installer, events)[0] == InstallStepModel::Installed,
        steps_of(installer, events)[i].is_end(),
{
    one_step_for_each_report(installer_after(installer, events[0]), events.drop_first());
    if i > 0 {
        finished_stays_finished(installer_after(installer, events[0]), events.drop_first(), i - 1);
    }
}

/// The archive's address ends in the archive's file name, which names the
/// platform and the architecture.
pub proof fn url_ends_in_archive_name(platform: Platform, arch: Arch)
    ensures
        download_url_of(platform, arch).len() >= archive_name(platform, arch).len(),
        download_url_of(platform, arch).subrange(
            download_url_of(platform, arch).len() - archive_name(platform, arch).len(),
            download_url_of(platform, arch).len() as int,
        ) == archive_name(platform, arch),
{
    let url = download_url_of(platform, arch);
    let name = archive_name(platform, arch);
    assert(url.subrange(url.len() - name.len(), url.len() as int) =~= name);
}

} // verus!
