//! The read-only probes of the control plane: what the text that a system
//! tool printed is taken to mean.  Running the tools is the caller's part.
//!
//! A probe looks for the patterns that it knows.  Where it finds none the
//! state of the feature is unknown: no probe ever answers that a feature is
//! switched off.

use crate::coordinator::Host;
use crate::engine::{StepOutcome, StepView};
use crate::outside::{lowercase, lowercase_text};
use crate::text::{contains, contains_text, first_visible, is_blank, join, join_texts, lines, owned_texts};
use crate::text::{lines_of, optional_view, starts_with_after_spaces, text_is_blank, trim, trim_text};
use vstd::prelude::*;

verus! {

/// What one captured run of a tool amounts to: whether it succeeded, and its
/// output with its errors behind it, on a line of their own, where there are
/// any.  A tool that did not start gives the reason as its text.
pub open spec fn captured(outcome: StepView) -> (bool, Seq<char>) {
    match outcome {
        StepView::Completed { stdout, stderr, success } => (
            success,
            if is_blank(stderr) {
                stdout
            } else {
                stdout + "\n"@ + stderr
            },
        ),
        StepView::SpawnFailed { reason } => (false, reason),
    }
}

/// Folds the outcome of a tool into its status and one text.
pub fn run_command_capture(outcome: &StepOutcome) -> (r: (bool, String))
    ensures
        (r.0, r.1@) == captured(outcome@),
{
    match outcome {
        StepOutcome::Completed { stdout, stderr, success } => {
            let mut combined = stdout.clone();
            if !text_is_blank(stderr.as_str()) {
                combined.append("\n");
                combined.append(stderr.as_str());
            }
            (*success, combined)
        },
        StepOutcome::SpawnFailed { reason } => (false, reason.clone()),
    }
}

/// How much of a resource there is, how much of it is free and how much is
/// in use, in bytes.
#[derive(Debug, Clone, Copy, PartialEq, Eq, Structural)]
pub struct Usage {
    pub total: u64,
    pub available: u64,
    pub used: u64,
}

/// What is in use: the total less what is free, and nothing where more is
/// free than there is.
pub open spec fn used_of(total: u64, available: u64) -> u64 {
    if available > total {
        0
    } else {
        (total - available) as u64
    }
}

/// The memory in bytes from counts in units of 1024 bytes; `None` where a
/// count in bytes does not fit 64 bits.
pub fn memory_usage(total: u64, available: u64) -> (r: Option<Usage>)
    ensures
        r is Some <==> total * 1024 <= u64::MAX && available * 1024 <= u64::MAX,
        r matches Some(usage) ==> usage.total == total * 1024 && usage.available == available
            * 1024 && usage.used == used_of(usage.total, usage.available),
{
    match (total.checked_mul(1024), available.checked_mul(1024)) {
        (Some(total), Some(available)) => Some(
            Usage { total, available, used: total.saturating_sub(available) },
        ),
        _ => None,
    }
}

/// One disk: its size and its free space in bytes.
#[derive(Debug, Clone, Copy, PartialEq, Eq, Structural)]
pub struct Disk {
    pub total_space: u64,
    pub available_space: u64,
}

/// The sizes of `disks` added up.
pub open spec fn total_space(disks: Seq<Disk>) -> nat
    decreases disks.len(),
{
    if disks.len() == 0 {
        0
    } else {
        total_space(disks.drop_last()) + disks.last().total_space as nat
    }
}

/// The free space of `disks` added up.
pub open spec fn available_space(disks: Seq<Disk>) -> nat
    decreases disks.len(),
{
    if disks.len() == 0 {
        0
    } else {
        available_space(disks.drop_last()) + disks.last().available_space as nat
    }
}

/// A count held to 64 bits: what does not fit becomes the largest number.
pub open spec fn saturated(n: nat) -> u64 {
    if n > u64::MAX {
        u64::MAX
    } else {
        n as u64
    }
}

/// The storage over all disks.  Sums that do not fit 64 bits stay at the
/// largest number.
pub fn storage_usage(disks: &Vec<Disk>) -> (usage: Usage)
    ensures
        usage.total == saturated(total_space(disks@)),
        usage.available == saturated(available_space(disks@)),
        usage.used == used_of(usage.total, usage.available),
{
    let mut total: u64 = 0;
    let mut available: u64 = 0;
    let mut i: usize = 0;
    assert(disks@.take(0) =~= Seq::<Disk>::empty());
    while i < disks.len()
        invariant
            i <= disks.len(),
            total == saturated(total_space(disks@.take(i as int))),
            available == saturated(available_space(disks@.take(i as int))),
        decreases disks.len() - i,
    {
        assert(disks@.take(i + 1).drop_last() =~= disks@.take(i as int));
        assert(disks@.take(i + 1).last() == disks@[i as int]);
        total = total.saturating_add(disks[i].total_space);
        available = available.saturating_add(disks[i].available_space);
        i = i + 1;
    }
    assert(disks@.take(disks.len() as int) =~= disks@);
    Usage { total, available, used: total.saturating_sub(available) }
}

/// What the health scan answers.
#[derive(Debug, Clone, PartialEq, Eq)]
pub struct SystemInfoResponse {
    pub platform: String,
    pub version: String,
    pub arch: String,
    pub memory: Usage,
    pub storage: Usage,
    pub uptime: u64,
    pub user_agent: String,
}

/// Puts the answer of the health scan together.  Memory is counted in units
/// of 1024 bytes; a kernel version that is not known is given as empty.
/// `None` where the memory in bytes does not fit 64 bits.
pub fn health_scan(
    platform: &str,
    kernel_version: Option<String>,
    arch: &str,
    total_memory: u64,
    available_memory: u64,
    disks: &Vec<Disk>,
    uptime: u64,
) -> (r: Option<SystemInfoResponse>)
    ensures
        r is Some <==> total_memory * 1024 <= u64::MAX && available_memory * 1024 <= u64::MAX,
        r matches Some(info) ==> {
            &&& info.platform@ == platform@
            &&& info.version@ == match kernel_version {
                Some(version) => version@,
                None => Seq::empty(),
            }
            &&& info.arch@ == arch@
            &&& info.memory.total == total_memory * 1024
            &&& info.memory.available == available_memory * 1024
            &&& info.memory.used == used_of(info.memory.total, info.memory.available)
            &&& info.storage.total == saturated(total_space(disks@))
            &&& info.storage.available == saturated(available_space(disks@))
            &&& info.storage.used == used_of(info.storage.total, info.storage.available)
            &&& info.uptime == uptime
            &&& info.user_agent@ == "ohfixit-desktop-helper"@
        },
{
    let memory = match memory_usage(total_memory, available_memory) {
        Some(memory) => memory,
        None => {
            return None;
        },
    };
    Some(
        SystemInfoResponse {
            platform: String::from_str(platform),
            version: match kernel_version {
                Some(version) => version,
                None => String::new(),
            },
            arch: String::from_str(arch),
            memory,
            storage: storage_usage(disks),
            uptime,
            user_agent: String::from_str("ohfixit-desktop-helper"),
        },
    )
}

/// The answer of the probe for pending updates.
#[derive(Debug, Clone, PartialEq, Eq)]
pub struct UpdatesResponse {
    pub supported: bool,
    pub pending: u32,
    pub raw: String,
}

/// Whether a line of the update tool names an update: its first visible
/// character is a star, or it holds a label.
pub open spec fn names_update(line: Seq<char>) -> bool {
    first_visible(line) == Some('*') || contains_text(line, "Label:"@)
}

/// How many of `lines` name an update.
pub open spec fn count_updates(lines: Seq<Seq<char>>) -> nat
    decreases lines.len(),
{
    if lines.len() == 0 {
        0
    } else {
        count_updates(lines.drop_last()) + if names_update(lines.last()) {
            1nat
        } else {
            0nat
        }
    }
}

/// The number of pending updates that the output of the update tool shows:
/// none where it says so, else the lines that name one, counted in 32 bits.
pub open spec fn pending_updates(out: Seq<char>) -> u32 {
    if contains_text(out, "No new software available."@) {
        0
    } else {
        (count_updates(lines_of(out)) % 0x1_0000_0000) as u32
    }
}

fn count_update_lines(found: &Vec<String>) -> (count: u64)
    ensures
        count == count_updates(found.deep_view()),
{
    let mut count: u64 = 0;
    let mut i: usize = 0;
    assert(found.deep_view().take(0) =~= Seq::<Seq<char>>::empty());
    while i < found.len()
        invariant
            i <= found.len(),
            count == count_updates(found.deep_view().take(i as int)),
            count <= i,
        decreases found.len() - i,
    {
        assert(found.deep_view().take(i + 1).drop_last() =~= found.deep_view().take(i as int));
        assert(found.deep_view().take(i + 1).last() == found[i as int]@);
        let line = found[i].as_str();
        if starts_with_after_spaces(line, '*') || contains(line, "Label:") {
            count = count + 1;
        }
        i = i + 1;
    }
    assert(found.deep_view().take(found.len() as int) =~= found.deep_view());
    count
}

/// Reads the output of the update tool; `None` stands for a platform that
/// has no such tool.
pub fn updates_probe(out: Option<String>) -> (r: UpdatesResponse)
    ensures
        r.supported == out is Some,
        r.pending == match out {
            Some(out) => pending_updates(out@),
            None => 0,
        },
        r.raw@ == match out {
            Some(out) => out@,
            None => Seq::empty(),
        },
{
    match out {
        Some(out) => {
            let pending: u32 = if contains(out.as_str(), "No new software available.") {
                0
            } else {
                let count = count_update_lines(&lines(out.as_str()));
                (count % 0x1_0000_0000) as u32
            };
            UpdatesResponse { supported: true, pending, raw: out }
        },
        None => UpdatesResponse { supported: false, pending: 0, raw: String::new() },
    }
}

/// What a probe found of a feature.  A probe knows the patterns that show a
/// feature on and none that shows it off, so it finds the feature on or finds
/// nothing: there is no finding that says off.
#[derive(Debug, Clone, Copy, PartialEq, Eq, Structural)]
pub enum Finding {
    /// A pattern that shows the feature on stands in the output.
    On,
    /// No known pattern stands in the output, or there is no output.
    Unknown,
}

/// The finding that a search for the patterns of "on" amounts to.
pub open spec fn finding(found: bool) -> Finding {
    if found {
        Finding::On
    } else {
        Finding::Unknown
    }
}

impl Finding {
    /// Tells whether the feature was found on.
    pub fn is_on(&self) -> (r: bool)
        ensures
            r == (*self == Finding::On),
    {
        match self {
            Finding::On => true,
            Finding::Unknown => false,
        }
    }

    /// The finding in a word: `on` or `unknown`.
    pub fn label(&self) -> (word: String)
        ensures
            word@ == match *self {
                Finding::On => "on"@,
                Finding::Unknown => "unknown"@,
            },
    {
        match self {
            Finding::On => String::from_str("on"),
            Finding::Unknown => String::from_str("unknown"),
        }
    }
}

fn finding_of(found: bool) -> (r: Finding)
    ensures
        r == finding(found),
{
    if found {
        Finding::On
    } else {
        Finding::Unknown
    }
}

/// The answer of a probe for a feature that is on or not.
#[derive(Debug, Clone, PartialEq, Eq)]
pub struct SwitchResponse {
    pub supported: bool,
    pub state: Finding,
    pub raw: String,
}

/// Whether the output of the firewall tool shows the firewall on.
pub open spec fn firewall_on(out: Seq<char>) -> bool {
    contains_text(out, "enabled"@) || contains_text(out, "State = 1"@)
}

/// Whether the output of the disk-encryption tool shows encryption on.
pub open spec fn filevault_on(out: Seq<char>) -> bool {
    contains_text(lowercase_text(out), "filevault is on"@)
}

/// Whether the output of the platform-integrity tool shows protection on.
pub open spec fn sip_on(out: Seq<char>) -> bool {
    contains_text(lowercase_text(out), "enabled"@)
}

/// Which of the three switches a probe is for.
#[derive(Debug, Clone, Copy, PartialEq, Eq, Structural)]
pub enum Switch {
    Firewall,
    FileVault,
    Sip,
}

/// Whether the output of the tool for `switch` shows the feature on.
pub open spec fn switch_on(switch: Switch, out: Seq<char>) -> bool {
    match switch {
        Switch::Firewall => firewall_on(out),
        Switch::FileVault => filevault_on(out),
        Switch::Sip => sip_on(out),
    }
}

/// Reads the output of the tool for `switch`; `None` stands for a platform
/// that has no such tool.  The feature is found on where a pattern of "on"
/// stands in the output; in every other case its state is unknown.
pub fn switch_probe(switch: Switch, out: Option<String>) -> (r: SwitchResponse)
    ensures
        r.supported == out is Some,
        r.state == match out {
            Some(out) => finding(switch_on(switch, out@)),
            None => Finding::Unknown,
        },
        r.raw@ == match out {
            Some(out) => out@,
            None => Seq::empty(),
        },
{
    match out {
        Some(out) => {
            let enabled = match switch {
                Switch::Firewall => contains(out.as_str(), "enabled") || contains(
                    out.as_str(),
                    "State = 1",
                ),
                Switch::FileVault => contains(
                    lowercase(out.as_str()).as_str(),
                    "filevault is on",
                ),
                Switch::Sip => contains(lowercase(out.as_str()).as_str(), "enabled"),
            };
            SwitchResponse { supported: true, state: finding_of(enabled), raw: out }
        },
        None => SwitchResponse { supported: false, state: Finding::Unknown, raw: String::new() },
    }
}

/// Reads the output of the firewall tool.
pub fn firewall_probe(out: Option<String>) -> (r: SwitchResponse)
    ensures
        r.supported == out is Some,
        r.state == finding(out matches Some(text) && firewall_on(text@)),
        r.raw@ == match out {
            Some(out) => out@,
            None => Seq::empty(),
        },
{
    switch_probe(Switch::Firewall, out)
}

/// Reads the output of the disk-encryption tool.
pub fn filevault_probe(out: Option<String>) -> (r: SwitchResponse)
    ensures
        r.supported == out is Some,
        r.state == finding(out matches Some(text) && filevault_on(text@)),
        r.raw@ == match out {
            Some(out) => out@,
            None => Seq::empty(),
        },
{
    switch_probe(Switch::FileVault, out)
}

/// Reads the output of the platform-integrity tool.
pub fn sip_probe(out: Option<String>) -> (r: SwitchResponse)
    ensures
        r.supported == out is Some,
        r.state == finding(out matches Some(text) && sip_on(text@)),
        r.raw@ == match out {
            Some(out) => out@,
            None => Seq::empty(),
        },
{
    switch_probe(Switch::Sip, out)
}

/// The answer of the backup probe.  Whether a backup is running is a
/// finding.  Whether backups are configured is read both ways from what the
/// tool names as the latest backup.
#[derive(Debug, Clone, PartialEq, Eq)]
pub struct TimeMachineResponse {
    pub supported: bool,
    pub configured: bool,
    pub running: Finding,
    pub latest_backup: Option<String>,
    pub raw: String,
}

/// Whether the tool named a latest backup: it printed something, and not a
/// null.
pub open spec fn backup_configured(latest: Seq<char>) -> bool {
    !is_blank(latest) && !contains_text(latest, "(null)"@)
}

/// What the backup probe keeps of the two outputs.
pub open spec fn backup_raw(status: Seq<char>, latest: Seq<char>) -> Seq<char> {
    "status: "@ + trim(status) + "\nlatest: "@ + trim(latest)
}

/// Reads the outputs of the backup tool: its status and its latest backup;
/// `None` stands for a platform that has no such tool.
pub fn timemachine_probe(outs: Option<(String, String)>) -> (r: TimeMachineResponse)
    ensures
        r.supported == outs is Some,
        outs is None ==> !r.configured && r.running == Finding::Unknown && r.latest_backup
            is None && r.raw@ == Seq::<char>::empty(),
        outs matches Some(texts) ==> {
            &&& r.running == finding(contains_text(texts.0@, "Running = 1"@))
            &&& r.configured == backup_configured(texts.1@)
            &&& optional_view(r.latest_backup) == if backup_configured(texts.1@) {
                Some(trim(texts.1@))
            } else {
                None
            }
            &&& r.raw@ == backup_raw(texts.0@, texts.1@)
        },
{
    match outs {
        Some((status, latest)) => {
            let running = finding_of(contains(status.as_str(), "Running = 1"));
            let configured = !text_is_blank(latest.as_str()) && !contains(
                latest.as_str(),
                "(null)",
            );
            let latest_backup = if configured {
                Some(trim_text(latest.as_str()))
            } else {
                None
            };
            let mut raw = String::from_str("status: ");
            raw.append(trim_text(status.as_str()).as_str());
            raw.append("\nlatest: ");
            raw.append(trim_text(latest.as_str()).as_str());
            assert(raw@ =~= backup_raw(status@, latest@));
            TimeMachineResponse { supported: true, configured, running, latest_backup, raw }
        },
        None => TimeMachineResponse {
            supported: false,
            configured: false,
            running: Finding::Unknown,
            latest_backup: None,
            raw: String::new(),
        },
    }
}

/// The answer of the antivirus probe.  Whether assessments are on is a
/// finding.  `third_party_detected` says that a known product was seen among
/// the processes; where it is `false` none was seen, which does not say that
/// none is installed.
#[derive(Debug, Clone, PartialEq, Eq)]
pub struct AvResponse {
    pub supported: bool,
    pub gatekeeper: Finding,
    pub third_party_detected: bool,
    pub products: Vec<String>,
    pub xprotect_version: Option<String>,
    pub raw: String,
}

/// The names that the antivirus probe looks for among the processes.
pub open spec fn known_products() -> Seq<Seq<char>> {
    seq![
        "Sophos"@,
        "Malwarebytes"@,
        "McAfee"@,
        "Symantec"@,
        "Norton"@,
        "CrowdStrike"@,
        "SentinelOne"@,
        "Defender"@,
        "ESET"@,
        "Avast"@,
        "AVG"@,
    ]
}

/// Those of `names` that stand somewhere in `processes`, in their order.
pub open spec fn names_found(names: Seq<Seq<char>>, processes: Seq<char>) -> Seq<Seq<char>>
    decreases names.len(),
{
    if names.len() == 0 {
        Seq::empty()
    } else if contains_text(processes, names.last()) {
        names_found(names.drop_last(), processes).push(names.last())
    } else {
        names_found(names.drop_last(), processes)
    }
}

/// Whether the output of the assessment tool shows assessments on.
pub open spec fn gatekeeper_on(out: Seq<char>) -> bool {
    contains_text(lowercase_text(out), "assessments enabled"@)
}

/// What the antivirus probe keeps of its findings.
pub open spec fn av_raw(assessment: Seq<char>, products: Seq<Seq<char>>) -> Seq<char> {
    "spctl: "@ + trim(assessment) + "\nprocesses: "@ + join_texts(products, ", "@)
}

/// The version that the output of the version tool shows: what is left of
/// it after trimming, or none where nothing is left.
pub fn xprotect_version(out: &str) -> (r: Option<String>)
    ensures
        r is Some <==> !is_blank(out@),
        r matches Some(version) ==> version@ == trim(out@),
{
    proof {
        crate::text::lemma_trim_of_blank(out@);
    }
    let version = trim_text(out);
    if version.as_str().unicode_len() == 0 {
        None
    } else {
        Some(version)
    }
}

fn product_names() -> (names: Vec<&'static str>)
    ensures
        names.deep_view() == known_products(),
{
    let names = vec![
        "Sophos",
        "Malwarebytes",
        "McAfee",
        "Symantec",
        "Norton",
        "CrowdStrike",
        "SentinelOne",
        "Defender",
        "ESET",
        "Avast",
        "AVG",
    ];
    assert(names.deep_view() =~= known_products());
    names
}

/// Looks for the known antivirus products among the names of the processes.
pub fn detect_products(processes: &str) -> (found: Vec<String>)
    ensures
        found.deep_view() == names_found(known_products(), processes@),
{
    let names = product_names();
    let mut found: Vec<String> = Vec::new();
    let mut i: usize = 0;
    assert(names.deep_view().take(0) =~= Seq::<Seq<char>>::empty());
    assert(found.deep_view() =~= Seq::<Seq<char>>::empty());
    while i < names.len()
        invariant
            i <= names.len(),
            found.deep_view() == names_found(names.deep_view().take(i as int), processes@),
        decreases names.len() - i,
    {
        let ghost done = found.deep_view();
        assert(names.deep_view().take(i + 1).drop_last() =~= names.deep_view().take(i as int));
        assert(names.deep_view().take(i + 1).last() == names[i as int]@);
        if contains(processes, names[i]) {
            found.push(String::from_str(names[i]));
            assert(found.deep_view() =~= done.push(names[i as int]@));
        }
        i = i + 1;
    }
    assert(names.deep_view().take(names.len() as int) =~= names.deep_view());
    found
}

/// Reads what the antivirus probe gathered: the output of the assessment
/// tool, the names of the processes and the version of the built-in
/// protection, if one was found; `None` stands for a platform that has no
/// such tools.
pub fn av_probe(gathered: Option<(String, String, Option<String>)>) -> (r: AvResponse)
    ensures
        r.supported == gathered is Some,
        gathered is None ==> r.gatekeeper == Finding::Unknown && !r.third_party_detected
            && r.products.deep_view() == Seq::<Seq<char>>::empty() && r.xprotect_version is None
            && r.raw@ == Seq::<char>::empty(),
        gathered matches Some(texts) ==> {
            &&& r.gatekeeper == finding(gatekeeper_on(texts.0@))
            &&& r.products.deep_view() == names_found(known_products(), texts.1@)
            &&& r.third_party_detected == (r.products.deep_view().len() > 0)
            &&& optional_view(r.xprotect_version) == optional_view(texts.2)
            &&& r.raw@ == av_raw(texts.0@, r.products.deep_view())
        },
{
    match gathered {
        Some((assessment, processes, version)) => {
            let gatekeeper = finding_of(
                contains(lowercase(assessment.as_str()).as_str(), "assessments enabled"),
            );
            let products = detect_products(processes.as_str());
            let third_party_detected = products.len() > 0;
            let mut raw = String::from_str("spctl: ");
            raw.append(trim_text(assessment.as_str()).as_str());
            raw.append("\nprocesses: ");
            raw.append(join(&products, ", ").as_str());
            assert(raw@ =~= av_raw(assessment@, products.deep_view()));
            AvResponse {
                supported: true,
                gatekeeper,
                third_party_detected,
                products,
                xprotect_version: version,
                raw,
            }
        },
        None => {
            let products: Vec<String> = Vec::new();
            assert(products.deep_view() =~= Seq::<Seq<char>>::empty());
            AvResponse {
                supported: false,
                gatekeeper: Finding::Unknown,
                third_party_detected: false,
                products,
                xprotect_version: None,
                raw: String::new(),
            }
        },
    }
}

/// The system tools that the probes ask.
#[derive(Debug, Clone, Copy, PartialEq, Eq, Structural)]
pub enum Tool {
    Updates,
    Firewall,
    Assessment,
    Processes,
    FileVault,
    BackupStatus,
    LatestBackup,
    Sip,
}

/// The program of a tool.
pub open spec fn tool_program(tool: Tool) -> Seq<char> {
    match tool {
        Tool::Updates => "/usr/sbin/softwareupdate"@,
        Tool::Firewall => "/usr/libexec/ApplicationFirewall/socketfilterfw"@,
        Tool::Assessment => "/usr/sbin/spctl"@,
        Tool::Processes => "/bin/ps"@,
        Tool::FileVault => "/usr/bin/fdesetup"@,
        Tool::BackupStatus => "/usr/bin/tmutil"@,
        Tool::LatestBackup => "/usr/bin/tmutil"@,
        Tool::Sip => "/usr/bin/csrutil"@,
    }
}

/// The arguments of a tool.
pub open spec fn tool_args(tool: Tool) -> Seq<Seq<char>> {
    match tool {
        Tool::Updates => seq!["-l"@, "--no-scan"@],
        Tool::Firewall => seq!["--getglobalstate"@],
        Tool::Assessment => seq!["--status"@],
        Tool::Processes => seq!["-A"@, "-o"@, "comm"@],
        Tool::FileVault => seq!["status"@],
        Tool::BackupStatus => seq!["status"@],
        Tool::LatestBackup => seq!["latestbackup"@],
        Tool::Sip => seq!["status"@],
    }
}

/// The program and the arguments with which a tool is started.
pub fn tool_command(tool: Tool) -> (r: (String, Vec<String>))
    ensures
        r.0@ == tool_program(tool),
        r.1.deep_view() == tool_args(tool),
{
    let (program, args) = match tool {
        Tool::Updates => ("/usr/sbin/softwareupdate", vec!["-l", "--no-scan"]),
        Tool::Firewall => (
            "/usr/libexec/ApplicationFirewall/socketfilterfw",
            vec!["--getglobalstate"],
        ),
        Tool::Assessment => ("/usr/sbin/spctl", vec!["--status"]),
        Tool::Processes => ("/bin/ps", vec!["-A", "-o", "comm"]),
        Tool::FileVault => ("/usr/bin/fdesetup", vec!["status"]),
        Tool::BackupStatus => ("/usr/bin/tmutil", vec!["status"]),
        Tool::LatestBackup => ("/usr/bin/tmutil", vec!["latestbackup"]),
        Tool::Sip => ("/usr/bin/csrutil", vec!["status"]),
    };
    assert(args.deep_view() =~= tool_args(tool));
    (String::from_str(program), owned_texts(&args))
}

/// Where the version of the built-in protection may be read: a property list
/// that must exist, and the command that reads the version from it.
#[derive(Debug, Clone, PartialEq, Eq)]
pub struct VersionSource {
    pub plist: String,
    pub program: String,
    pub args: Vec<String>,
}

/// The property lists of the two places.
pub open spec fn version_plists() -> Seq<Seq<char>> {
    seq![
        "/System/Library/CoreServices/XProtect.bundle/Contents/Info.plist"@,
        "/Library/Apple/System/Library/CoreServices/XProtect.app/Contents/Info.plist"@,
    ]
}

/// The arguments that read the version at each of the two places.
pub open spec fn version_args() -> Seq<Seq<Seq<char>>> {
    seq![
        seq![
            "read"@,
            "/System/Library/CoreServices/XProtect.bundle/Contents/Info"@,
            "CFBundleShortVersionString"@,
        ],
        seq![
            "read"@,
            "/Library/Apple/System/Library/CoreServices/XProtect.app/Contents/Info"@,
            "CFBundleShortVersionString"@,
        ],
    ]
}

/// The places to try, in order, for the version of the built-in protection.
/// The first that exists and answers with a version is taken.
pub fn version_sources() -> (sources: Vec<VersionSource>)
    ensures
        sources.len() == 2,
        forall|i: int|
            0 <= i < 2 ==> (#[trigger] sources[i]).plist@ == version_plists()[i] && sources[i].program@
                == "/usr/bin/defaults"@ && sources[i].args.deep_view() == version_args()[i],
{
    let first = vec![
        "read",
        "/System/Library/CoreServices/XProtect.bundle/Contents/Info",
        "CFBundleShortVersionString",
    ];
    let second = vec![
        "read",
        "/Library/Apple/System/Library/CoreServices/XProtect.app/Contents/Info",
        "CFBundleShortVersionString",
    ];
    assert(first.deep_view() =~= version_args()[0]);
    assert(second.deep_view() =~= version_args()[1]);
    let mut sources: Vec<VersionSource> = Vec::new();
    sources.push(
        VersionSource {
            plist: String::from_str(
                "/System/Library/CoreServices/XProtect.bundle/Contents/Info.plist",
            ),
            program: String::from_str("/usr/bin/defaults"),
            args: owned_texts(&first),
        },
    );
    sources.push(
        VersionSource {
            plist: String::from_str(
                "/Library/Apple/System/Library/CoreServices/XProtect.app/Contents/Info.plist",
            ),
            program: String::from_str("/usr/bin/defaults"),
            args: owned_texts(&second),
        },
    );
    sources
}

/// The command with which a tool is started on `host`; `None` on a host that
/// has no such tool.  The tools are those of macOS.
pub fn tool_for(host: Host, tool: Tool) -> (r: Option<(String, Vec<String>)>)
    ensures
        r is Some <==> host == Host::Macos,
        r matches Some(command) ==> command.0@ == tool_program(tool) && command.1.deep_view()
            == tool_args(tool),
{
    match host {
        Host::Macos => Some(tool_command(tool)),
        Host::Other => None,
    }
}

/// What came of one place where the version may be read.
#[derive(Debug, Clone, PartialEq, Eq)]
pub enum SourceAnswer {
    /// The property list is not there, and nothing was started.
    Missing,
    /// The property list is there, and this is what the command printed.
    Output(String),
}

/// The version that an answer holds: what is left of the output after
/// trimming, where anything is left.
pub open spec fn version_in(answer: SourceAnswer) -> Option<Seq<char>> {
    match answer {
        SourceAnswer::Output(out) => if is_blank(out@) {
            None
        } else {
            Some(trim(out@))
        },
        SourceAnswer::Missing => None,
    }
}

/// The search for the version of the built-in protection.  The places are
/// tried in order, and the first that answers with a version ends the
/// search: no place behind it is looked at.
#[derive(Debug, Clone, PartialEq, Eq)]
pub struct VersionSearch {
    pub tried: usize,
    pub found: Option<String>,
}

impl VersionSearch {
    /// Whether a place is still to be tried among `places` of them.
    pub open spec fn searching(&self, places: nat) -> bool {
        self.found is None && self.tried < places
    }

    /// A search that has tried nothing yet.
    pub fn new() -> (search: VersionSearch)
        ensures
            search.tried == 0,
            search.found is None,
    {
        VersionSearch { tried: 0, found: None }
    }

    /// The place to try now: the first that was not tried, as long as no
    /// version was found; `None` once the search is over.
    pub fn pending(&self, sources: &Vec<VersionSource>) -> (r: Option<usize>)
        ensures
            r == if self.searching(sources.len() as nat) {
                Some(self.tried)
            } else {
                None
            },
    {
        if self.found.is_none() && self.tried < sources.len() {
            Some(self.tried)
        } else {
            None
        }
    }

    /// Takes the answer of the pending place: a version in it ends the
    /// search, anything else moves it on to the next place.  Once the search
    /// is over the answer is dropped and the result is `false`.
    pub fn record(&mut self, sources: &Vec<VersionSource>, answer: &SourceAnswer) -> (taken: bool)
        ensures
            taken == old(self).searching(sources.len() as nat),
            taken ==> final(self).tried == old(self).tried + 1 && optional_view(final(self).found)
                == version_in(*answer),
            !taken ==> *final(self) == *old(self),
    {
        if self.found.is_some() || self.tried >= sources.len() {
            return false;
        }
        self.tried = self.tried + 1;
        self.found = match answer {
            SourceAnswer::Output(out) => xprotect_version(out.as_str()),
            SourceAnswer::Missing => None,
        };
        true
    }

    /// Ends the search and gives the version that was found, if one was.
    pub fn finish(self) -> (version: Option<String>)
        ensures
            version == self.found,
    {
        self.found
    }
}

} // verus!
