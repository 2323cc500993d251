//! Memory-cleaning logic: byte formatting, usage statistics, the cleaning
//! plans for each strength and the process-trimming rules.

use vstd::prelude::*;
use vstd::string::StringExecFns;
use vstd::string::StrSliceExecFns;
use crate::text::{decimal, push_decimal};
use crate::util::{ascii_lowercase, trim, trimmed_ascii_lowercase, utf16_decode_lossy, text_len, wide_to_string};

verus! {

/// `a / d` rounded to the nearest integer, ties to the even neighbour.
pub open spec fn div_round_half_even(a: nat, d: nat) -> nat
    recommends
        d > 0,
{
    let q = a / d;
    let r = a % d;
    if 2 * r > d || (2 * r == d && q % 2 == 1) {
        q + 1
    } else {
        q
    }
}

/// Spacing of the doubles around `n`: 1 below 2^53, doubling per binade above.
pub open spec fn f64_ulp(n: nat) -> nat
    decreases n,
{
    if n < 0x20_0000_0000_0000 {
        1
    } else {
        2 * f64_ulp(n / 2)
    }
}

/// The exact value of `n as f64` (IEEE 754 round to nearest, ties to even).
pub open spec fn f64_value(n: nat) -> nat {
    div_round_half_even(n, f64_ulp(n)) * f64_ulp(n)
}

/// Index of the unit `format_bytes` uses: 0 = B, 1 = KB, 2 = MB, 3 = GB, 4 = TB.
pub open spec fn unit_index(n: nat) -> nat {
    if n >= 0x100_0000_0000 {
        4
    } else if n >= 0x4000_0000 {
        3
    } else if n >= 0x10_0000 {
        2
    } else if n >= 0x400 {
        1
    } else {
        0
    }
}

/// 1024 to the power `i`.
pub open spec fn unit_scale(i: nat) -> nat {
    if i == 0 {
        1
    } else if i == 1 {
        0x400
    } else if i == 2 {
        0x10_0000
    } else if i == 3 {
        0x4000_0000
    } else {
        0x100_0000_0000
    }
}

/// Name of unit `i`.
pub open spec fn unit_name(i: nat) -> Seq<char> {
    if i == 0 {
        "B"@
    } else if i == 1 {
        "KB"@
    } else if i == 2 {
        "MB"@
    } else if i == 3 {
        "GB"@
    } else {
        "TB"@
    }
}

/// The text `format_bytes` produces: below 1 KB the exact count and " B";
/// otherwise the double value of `bytes` divided by the largest unit (up to TB)
/// it reaches, with one decimal rounded half to even, then the unit.
pub open spec fn spec_format_bytes(bytes: u64) -> Seq<char> {
    let i = unit_index(bytes as nat);
    if i == 0 {
        decimal(bytes as nat) + " B"@
    } else {
        let tenths = div_round_half_even(10 * f64_value(bytes as nat), unit_scale(i));
        decimal(tenths / 10) + "."@ + decimal(tenths % 10) + " "@ + unit_name(i)
    }
}

fn unit_str(i: usize) -> (s: &'static str)
    requires
        1 <= i <= 4,
    ensures
        s@ == unit_name(i as nat),
{
    if i == 1 {
        "KB"
    } else if i == 2 {
        "MB"
    } else if i == 3 {
        "GB"
    } else {
        "TB"
    }
}

fn div_round_half_even_exec(a: u128, d: u128) -> (q: u128)
    requires
        d > 0,
        a / d < u128::MAX,
    ensures
        q == div_round_half_even(a as nat, d as nat),
{
    let q = a / d;
    let r = a % d;
    if r > d - r || (r == d - r && q % 2 == 1) {
        q + 1
    } else {
        q
    }
}

/// `n as f64`, as an exact integer.
fn f64_value_exec(n: u64) -> (v: u128)
    ensures
        v == f64_value(n as nat),
        v <= 2 * (n as nat) + 1,
{
    let mut m: u64 = n;
    let mut p: u128 = 1;
    while m >= 0x20_0000_0000_0000
        invariant
            f64_ulp(n as nat) == p * f64_ulp(m as nat),
            m as nat == n as nat / p as nat,
            1 <= p,
            p == 1 || p * 0x10_0000_0000_0000 <= n,
        decreases m,
    {
        proof {
            vstd::arithmetic::div_mod::lemma_div_denominator(n as int, p as int, 2);
            let u = f64_ulp(m as nat / 2);
            assert(f64_ulp(m as nat) == 2 * u);
            assert(p * (2 * u) == (p * 2) * u) by (nonlinear_arith);
            vstd::arithmetic::div_mod::lemma_fundamental_div_mod(n as int, p as int);
            assert(p * 0x20_0000_0000_0000 <= n) by (nonlinear_arith)
                requires
                    m == n as nat / p as nat,
                    m >= 0x20_0000_0000_0000,
                    n == p * (n as nat / p as nat) + (n as nat % p as nat),
                    n as nat % p as nat >= 0,
                    p >= 1;
        }
        m = m / 2;
        p = p * 2;
    }
    assert(f64_ulp(m as nat) == 1);
    assert(f64_ulp(n as nat) == p) by {
        let um = f64_ulp(m as nat);
        assert(um == 1);
        assert(p * um == p) by (nonlinear_arith) requires um == 1;
    }
    let q = div_round_half_even_exec(n as u128, p);
    proof {
        vstd::arithmetic::div_mod::lemma_fundamental_div_mod(n as int, p as int);
        assert((q as nat) <= (n as nat) / (p as nat) + 1);
        vstd::arithmetic::mul::lemma_mul_inequality(q as int, (n as nat / p as nat + 1) as int, p as int);
        assert(q * p <= (n as nat / p as nat) * p + p) by (nonlinear_arith)
            requires q <= (n as nat / p as nat) + 1, p >= 1;
        assert(q * p == f64_value(n as nat));
    }
    q * p
}

fn unit_scale_exec(i: usize) -> (d: u128)
    requires
        1 <= i <= 4,
    ensures
        d == unit_scale(i as nat),
{
    if i == 1 {
        0x400
    } else if i == 2 {
        0x10_0000
    } else if i == 3 {
        0x4000_0000
    } else {
        0x100_0000_0000
    }
}

/// Formats a byte count for display, e.g. "512 B", "1.5 KB", "7.9 GB".
pub fn format_bytes(bytes: u64) -> (s: String)
    ensures
        s@ == spec_format_bytes(bytes),
{
    let i: usize = if bytes >= 0x100_0000_0000 {
        4
    } else if bytes >= 0x4000_0000 {
        3
    } else if bytes >= 0x10_0000 {
        2
    } else if bytes >= 0x400 {
        1
    } else {
        0
    };
    let mut s = String::new();
    if i == 0 {
        push_decimal(&mut s, bytes as u128);
        s.append(" B");
        return s;
    }
    let v = f64_value_exec(bytes);
    let d = unit_scale_exec(i);
    let tenths = div_round_half_even_exec(10 * v, d);
    push_decimal(&mut s, tenths / 10);
    s.append(".");
    push_decimal(&mut s, tenths % 10);
    s.append(" ");
    s.append(unit_str(i));
    s
}

/// The figures of one system memory status reading, in bytes.
#[derive(Clone, Copy, Debug, PartialEq, Eq)]
pub struct MemStatus {
    /// Installed physical memory.
    pub total_phys: u64,
    /// Physical memory available now.
    pub avail_phys: u64,
    /// Commit limit (physical memory plus page files).
    pub total_page_file: u64,
    /// Commit still available.
    pub avail_page_file: u64,
}

/// A memory usage snapshot for display.
#[derive(Clone, Copy, Debug, PartialEq, Eq, Default)]
pub struct MemSnapshot {
    pub phys_total: u64,
    pub phys_used: u64,
    pub phys_percent: u32,
    pub page_total: u64,
    pub page_used: u64,
    pub page_percent: u32,
    pub cache_used: u64,
    pub cache_total: u64,
    pub cache_percent: u32,
}

/// `a - b`, or zero when `b` is larger.
pub open spec fn sat_sub(a: u64, b: u64) -> u64 {
    if a >= b {
        (a - b) as u64
    } else {
        0
    }
}

/// `used` as a whole percentage of `total`, capped at 100; 0 when `total` is
/// 0. The product `used * 100` saturates at `u64::MAX` before the division.
pub open spec fn usage_percent(used: u64, total: u64) -> u32 {
    if total == 0 {
        0
    } else {
        let scaled: int = if used * 100 > u64::MAX { u64::MAX as int } else { used * 100 };
        let p = scaled / total as int;
        if p > 100 {
            100
        } else {
            p as u32
        }
    }
}

fn percent_of(used: u64, total: u64) -> (p: u32)
    ensures
        p == usage_percent(used, total),
        p <= 100,
{
    if total == 0 {
        return 0;
    }
    let scaled: u64 = if used > u64::MAX / 100 { u64::MAX } else { used * 100 };
    let q = scaled / total;
    if q > 100 {
        100
    } else {
        q as u32
    }
}

/// The snapshot made of a memory status reading and the system file cache's
/// current and peak size: used amounts, and each as a percentage of its total.
pub open spec fn spec_memory_snapshot(m: MemStatus, cache_used: u64, cache_total: u64) -> MemSnapshot {
    MemSnapshot {
        phys_total: m.total_phys,
        phys_used: sat_sub(m.total_phys, m.avail_phys),
        phys_percent: usage_percent(sat_sub(m.total_phys, m.avail_phys), m.total_phys),
        page_total: m.total_page_file,
        page_used: sat_sub(m.total_page_file, m.avail_page_file),
        page_percent: usage_percent(sat_sub(m.total_page_file, m.avail_page_file), m.total_page_file),
        cache_used,
        cache_total,
        cache_percent: usage_percent(cache_used, cache_total),
    }
}

/// Physical, virtual (commit) and system cache usage from one reading.
pub fn memory_snapshot(mem: &MemStatus, cache_used: u64, cache_total: u64) -> (s: MemSnapshot)
    ensures
        s == spec_memory_snapshot(*mem, cache_used, cache_total),
{
    let phys_used = mem.total_phys.saturating_sub(mem.avail_phys);
    let page_used = mem.total_page_file.saturating_sub(mem.avail_page_file);
    MemSnapshot {
        phys_total: mem.total_phys,
        phys_used,
        phys_percent: percent_of(phys_used, mem.total_phys),
        page_total: mem.total_page_file,
        page_used,
        page_percent: percent_of(page_used, mem.total_page_file),
        cache_used,
        cache_total,
        cache_percent: percent_of(cache_used, cache_total),
    }
}

/// Current physical memory use as a percentage (0..=100) of one reading.
pub fn physical_usage_percent(mem: &MemStatus) -> (p: u32)
    ensures
        p == usage_percent(sat_sub(mem.total_phys, mem.avail_phys), mem.total_phys),
{
    percent_of(mem.total_phys.saturating_sub(mem.avail_phys), mem.total_phys)
}

/// Every percentage of a snapshot lies in 0..=100, and used physical and
/// commit memory never exceed their totals.
pub proof fn law_snapshot_bounds(m: MemStatus, cache_used: u64, cache_total: u64)
    ensures
        ({
            let s = spec_memory_snapshot(m, cache_used, cache_total);
            &&& s.phys_percent <= 100
            &&& s.page_percent <= 100
            &&& s.cache_percent <= 100
            &&& s.phys_used <= s.phys_total
            &&& s.page_used <= s.page_total
            &&& m.avail_phys <= m.total_phys ==> s.phys_used + m.avail_phys == m.total_phys
        }),
{
}

/// A percentage is exact (rounded down) when nothing saturates, and full use
/// is 100.
pub proof fn law_usage_percent(used: u64, total: u64)
    requires
        total > 0,
        used <= total,
        used * 100 <= u64::MAX,
    ensures
        usage_percent(used, total) == used * 100 / total as int,
        used == total ==> usage_percent(used, total) == 100,
{
    if used == total {
        assert(used * 100 / total as int == 100) by (nonlinear_arith)
            requires used == total, total > 0;
    }
    assert(used * 100 / total as int <= 100) by (nonlinear_arith)
        requires used <= total, total > 0;
}

/// Process privileges the cleaner needs.
#[derive(Clone, Copy, Debug, PartialEq, Eq)]
pub enum Privilege {
    /// Adjust memory quotas and working sets of other processes.
    IncreaseQuota,
    /// Operate on the system memory lists.
    ProfileSingleProcess,
    /// Open processes of other users.
    Debug,
}

/// The Windows name of a privilege.
pub open spec fn privilege_name(p: Privilege) -> Seq<char> {
    match p {
        Privilege::IncreaseQuota => "SeIncreaseQuotaPrivilege"@,
        Privilege::ProfileSingleProcess => "SeProfileSingleProcessPrivilege"@,
        Privilege::Debug => "SeDebugPrivilege"@,
    }
}

impl Privilege {
    /// The Windows name of the privilege.
    pub fn name(&self) -> (s: &'static str)
        ensures
            s@ == privilege_name(*self),
    {
        match self {
            Privilege::IncreaseQuota => "SeIncreaseQuotaPrivilege",
            Privilege::ProfileSingleProcess => "SeProfileSingleProcessPrivilege",
            Privilege::Debug => "SeDebugPrivilege",
        }
    }
}

/// The privileges raised at start-up, in order; failures are not fatal.
pub fn raise_privileges() -> (v: Vec<Privilege>)
    ensures
        v@ == seq![Privilege::IncreaseQuota, Privilege::ProfileSingleProcess, Privilege::Debug],
{
    let mut v = Vec::new();
    v.push(Privilege::IncreaseQuota);
    v.push(Privilege::ProfileSingleProcess);
    v.push(Privilege::Debug);
    v
}

/// System information class of the memory-list commands.
pub const SYSTEM_MEMORY_LIST_INFORMATION_CLASS: i32 = 80;

/// System information class that merges identical physical pages.
pub const SYSTEM_COMBINE_PHYSICAL_MEMORY_INFORMATION_CLASS: i32 = 130;

/// System information class of the file cache statistics.
pub const SYSTEM_FILE_CACHE_INFORMATION_CLASS: i32 = 81;

/// Commands to the system memory lists.
#[derive(Clone, Copy, Debug, PartialEq, Eq)]
pub enum MemoryListCommand {
    /// Empty the working sets of all processes.
    EmptyWorkingSets,
    /// Write modified pages out and release them.
    FlushModifiedList,
    /// Release the whole standby list.
    PurgeStandbyList,
    /// Release only the low-priority part of the standby list.
    PurgeLowPriorityStandbyList,
}

/// The numeric code of a memory-list command.
pub open spec fn command_code(c: MemoryListCommand) -> u32 {
    match c {
        MemoryListCommand::EmptyWorkingSets => 2,
        MemoryListCommand::FlushModifiedList => 3,
        MemoryListCommand::PurgeStandbyList => 4,
        MemoryListCommand::PurgeLowPriorityStandbyList => 5,
    }
}

impl MemoryListCommand {
    /// The numeric code the system expects.
    pub fn code(&self) -> (c: u32)
        ensures
            c == command_code(*self),
    {
        match self {
            MemoryListCommand::EmptyWorkingSets => 2,
            MemoryListCommand::FlushModifiedList => 3,
            MemoryListCommand::PurgeStandbyList => 4,
            MemoryListCommand::PurgeLowPriorityStandbyList => 5,
        }
    }
}

/// One operation of a cleaning.
#[derive(Clone, Copy, Debug, PartialEq, Eq)]
pub enum CleanStep {
    /// Enable a privilege of this process.
    EnablePrivilege(Privilege),
    /// Merge identical physical memory pages.
    CombinePhysicalMemory,
    /// Trim the working set of each large, unprotected process.
    TrimProcesses,
    /// Empty the system file cache.
    FlushFileCache,
    /// Send a command to the system memory lists.
    MemoryList(MemoryListCommand),
}

/// How a step's effect is measured.
#[derive(Clone, Copy, Debug, PartialEq, Eq)]
pub enum Measure {
    /// Not measured: only whether it succeeded is kept.
    Unmeasured,
    /// Available memory is read before and after; the step counts as done.
    Always,
    /// Available memory is read before and, when the step succeeded, after.
    IfDone,
}

/// A step of a plan with the way it is measured.
#[derive(Clone, Copy, Debug, PartialEq, Eq)]
pub struct PlannedStep {
    pub step: CleanStep,
    pub measure: Measure,
}

/// What came of one executed step.
#[derive(Clone, Copy, Debug, PartialEq, Eq, Default)]
pub struct StepReport {
    /// The step succeeded (or counts as done).
    pub done: bool,
    /// Bytes released: available memory gained for measured steps, the sum
    /// over trimmed processes for `TrimProcesses`, else 0.
    pub freed_bytes: u64,
    /// Processes trimmed (`TrimProcesses` only).
    pub trimmed: u64,
}

/// What a cleaning at a strength does, and the message shown afterwards.
pub struct CleanPlan {
    pub steps: Vec<PlannedStep>,
    pub message: String,
}

/// A plan step.
pub open spec fn planned(step: CleanStep, measure: Measure) -> PlannedStep {
    PlannedStep { step, measure }
}

/// Standard cleaning: merge physical pages (with the quota privilege), trim
/// the processes' working sets, empty the file cache, release the
/// low-priority standby memory. Deep cleaning (strength 2 and above) adds
/// emptying all working sets at once, releasing the whole standby list and
/// flushing the modified pages.
pub open spec fn clean_steps(level: u32) -> Seq<PlannedStep> {
    let standard = seq![
        planned(CleanStep::EnablePrivilege(Privilege::IncreaseQuota), Measure::Unmeasured),
        planned(CleanStep::CombinePhysicalMemory, Measure::Unmeasured),
        planned(CleanStep::TrimProcesses, Measure::Unmeasured),
        planned(CleanStep::FlushFileCache, Measure::Always),
        planned(CleanStep::MemoryList(MemoryListCommand::PurgeLowPriorityStandbyList), Measure::Unmeasured),
    ];
    if level >= 2 {
        standard + seq![
            planned(CleanStep::MemoryList(MemoryListCommand::EmptyWorkingSets), Measure::Unmeasured),
            planned(CleanStep::MemoryList(MemoryListCommand::PurgeStandbyList), Measure::Unmeasured),
            planned(CleanStep::MemoryList(MemoryListCommand::FlushModifiedList), Measure::Unmeasured),
        ]
    } else {
        standard
    }
}

/// The message after a cleaning at `level`.
pub open spec fn clean_message(level: u32) -> Seq<char> {
    if level >= 2 {
        "深度清理完成"@
    } else {
        "标准清理完成"@
    }
}

fn plan_step(step: CleanStep, measure: Measure) -> (p: PlannedStep)
    ensures
        p == planned(step, measure),
{
    PlannedStep { step, measure }
}

/// The cleaning for a strength (1 = standard, 2 and above = deep).
pub fn clean_by_level(level: u32) -> (plan: CleanPlan)
    ensures
        plan.steps@ == clean_steps(level),
        plan.message@ == clean_message(level),
{
    let mut steps = Vec::new();
    steps.push(plan_step(CleanStep::EnablePrivilege(Privilege::IncreaseQuota), Measure::Unmeasured));
    steps.push(plan_step(CleanStep::CombinePhysicalMemory, Measure::Unmeasured));
    steps.push(plan_step(CleanStep::TrimProcesses, Measure::Unmeasured));
    steps.push(plan_step(CleanStep::FlushFileCache, Measure::Always));
    steps.push(
        plan_step(CleanStep::MemoryList(MemoryListCommand::PurgeLowPriorityStandbyList), Measure::Unmeasured),
    );
    if level >= 2 {
        steps.push(plan_step(CleanStep::MemoryList(MemoryListCommand::EmptyWorkingSets), Measure::Unmeasured));
        steps.push(plan_step(CleanStep::MemoryList(MemoryListCommand::PurgeStandbyList), Measure::Unmeasured));
        steps.push(plan_step(CleanStep::MemoryList(MemoryListCommand::FlushModifiedList), Measure::Unmeasured));
        CleanPlan { steps, message: String::from_str("深度清理完成") }
    } else {
        CleanPlan { steps, message: String::from_str("标准清理完成") }
    }
}

/// Deep cleaning does everything standard cleaning does, in the same order,
/// and more; both start by merging physical pages and never stop early.
pub proof fn law_deep_extends_standard()
    ensures
        clean_steps(1).len() == 5,
        clean_steps(2).len() == 8,
        clean_steps(2).take(5) == clean_steps(1),
        forall|l: u32| l >= 2 ==> #[trigger] clean_steps(l) == clean_steps(2),
        forall|l: u32| l < 2 ==> #[trigger] clean_steps(l) == clean_steps(1),
{
    assert(clean_steps(2).take(5) =~= clean_steps(1));
}

/// The texts of a list of string slices.
pub open spec fn str_views(v: Seq<&str>) -> Seq<Seq<char>> {
    v.map_values(|s: &str| s@)
}

/// The texts of a list of strings.
pub open spec fn string_views(v: Seq<String>) -> Seq<Seq<char>> {
    v.map_values(|s: String| s@)
}

/// System processes that are never trimmed.
pub open spec fn critical_names() -> Seq<Seq<char>> {
    seq![
        "system"@,
        "registry"@,
        "memory compression"@,
        "idle"@,
        "smss.exe"@,
        "csrss.exe"@,
        "wininit.exe"@,
        "winlogon.exe"@,
        "services.exe"@,
        "lsass.exe"@,
        "dwm.exe"@,
        "fontdrvhost.exe"@,
    ]
}

/// Processes of the desktop the user works with, trimmed only when trimming
/// is aggressive (trimming them makes the desktop stutter).
pub open spec fn comfort_names() -> Seq<Seq<char>> {
    seq![
        "explorer.exe"@,
        "sihost.exe"@,
        "shellexperiencehost.exe"@,
        "startmenuexperiencehost.exe"@,
        "textinputhost.exe"@,
        "searchhost.exe"@,
        "taskmgr.exe"@,
        "cmd.exe"@,
        "powershell.exe"@,
        "pwsh.exe"@,
        "conhost.exe"@,
    ]
}

fn critical_name(i: usize) -> (s: &'static str)
    requires
        i < 12,
    ensures
        s@ == critical_names()[i as int],
{
    match i {
        0 => "system",
        1 => "registry",
        2 => "memory compression",
        3 => "idle",
        4 => "smss.exe",
        5 => "csrss.exe",
        6 => "wininit.exe",
        7 => "winlogon.exe",
        8 => "services.exe",
        9 => "lsass.exe",
        10 => "dwm.exe",
        _ => "fontdrvhost.exe",
    }
}

fn comfort_name(i: usize) -> (s: &'static str)
    requires
        i < 11,
    ensures
        s@ == comfort_names()[i as int],
{
    match i {
        0 => "explorer.exe",
        1 => "sihost.exe",
        2 => "shellexperiencehost.exe",
        3 => "startmenuexperiencehost.exe",
        4 => "textinputhost.exe",
        5 => "searchhost.exe",
        6 => "taskmgr.exe",
        7 => "cmd.exe",
        8 => "powershell.exe",
        9 => "pwsh.exe",
        _ => "conhost.exe",
    }
}

/// The names of the system processes that are never trimmed.
pub fn critical_protected_names() -> (v: Vec<&'static str>)
    ensures
        str_views(v@) == critical_names(),
{
    let mut v: Vec<&'static str> = Vec::new();
    let mut i: usize = 0;
    while i < 12
        invariant
            i <= 12,
            v@.len() == i,
            str_views(v@) == critical_names().take(i as int),
        decreases 12 - i,
    {
        let name = critical_name(i);
        let ghost prev = v@;
        v.push(name);
        proof {
            assert(v@ == prev.push(name));
            assert forall|j: int| 0 <= j < i + 1 implies #[trigger] str_views(v@)[j] == critical_names().take(i + 1)[j] by {
                assert(str_views(v@)[j] == v@[j]@);
                if j < i {
                    assert(v@[j] == prev[j]);
                    assert(str_views(prev)[j] == prev[j]@);
                    assert(str_views(prev)[j] == critical_names().take(i as int)[j]);
                }
            }
            assert(str_views(v@).len() == i + 1);
            assert(str_views(v@) =~= critical_names().take(i + 1));
        }
        i += 1;
    }
    assert(critical_names().take(12) =~= critical_names());
    v
}

/// The names of the desktop processes spared by gentle trimming.
pub fn comfort_protected_names() -> (v: Vec<&'static str>)
    ensures
        str_views(v@) == comfort_names(),
{
    let mut v: Vec<&'static str> = Vec::new();
    let mut i: usize = 0;
    while i < 11
        invariant
            i <= 11,
            v@.len() == i,
            str_views(v@) == comfort_names().take(i as int),
        decreases 11 - i,
    {
        let name = comfort_name(i);
        let ghost prev = v@;
        v.push(name);
        proof {
            assert(v@ == prev.push(name));
            assert forall|j: int| 0 <= j < i + 1 implies #[trigger] str_views(v@)[j] == comfort_names().take(i + 1)[j] by {
                assert(str_views(v@)[j] == v@[j]@);
                if j < i {
                    assert(v@[j] == prev[j]);
                    assert(str_views(prev)[j] == prev[j]@);
                    assert(str_views(prev)[j] == comfort_names().take(i as int)[j]);
                }
            }
            assert(str_views(v@).len() == i + 1);
            assert(str_views(v@) =~= comfort_names().take(i + 1));
        }
        i += 1;
    }
    assert(comfort_names().take(11) =~= comfort_names());
    v
}

/// Whether a process with this name key is protected from trimming.
pub open spec fn is_protected_name(key: Seq<char>, aggressive: bool) -> bool {
    critical_names().contains(key) || (!aggressive && comfort_names().contains(key))
}

fn str_list_contains(names: &Vec<&'static str>, key: &String) -> (b: bool)
    ensures
        b == str_views(names@).contains(key@),
{
    let ghost views = str_views(names@);
    let mut i: usize = 0;
    while i < names.len()
        invariant
            i <= names.len(),
            views == str_views(names@),
            forall|j: int| 0 <= j < i ==> views[j] != key@,
        decreases names.len() - i,
    {
        let candidate = String::from_str(names[i]);
        if candidate == *key {
            assert(views[i as int] == key@);
            return true;
        }
        i += 1;
    }
    false
}

/// Whether the name key belongs to a protected process.
pub fn is_protected(key: &String, aggressive: bool) -> (b: bool)
    ensures
        b == is_protected_name(key@, aggressive),
{
    if str_list_contains(&critical_protected_names(), key) {
        return true;
    }
    !aggressive && str_list_contains(&comfort_protected_names(), key)
}

/// Options of a trimming pass over all processes.
#[derive(Debug)]
pub struct TrimOptions {
    /// Trim the desktop processes too (only system processes are spared).
    pub aggressive: bool,
    /// Further process names to spare: lower case, without `.exe` (a name
    /// given with `.exe` matches as well).
    pub exclude: Vec<String>,
}

impl TrimOptions {
    /// The name keys spared besides the protected processes.
    pub open spec fn excluded(&self) -> Seq<Seq<char>> {
        string_views(self.exclude@)
    }
}

impl Default for TrimOptions {
    /// Gentle trimming without further exclusions.
    fn default() -> (o: TrimOptions)
        ensures
            !o.aggressive,
            o.exclude@.len() == 0,
    {
        TrimOptions { aggressive: false, exclude: Vec::new() }
    }
}

/// The key a process image name is compared by: the name up to its NUL,
/// without surrounding white space, ASCII letters in lower case.
pub open spec fn process_key_of(exe_file: Seq<u16>) -> Seq<char> {
    ascii_lowercase(trim(utf16_decode_lossy(exe_file.take(text_len(exe_file) as int))))
}

/// The comparison key of a process image name buffer.
pub fn process_key(exe_file: &[u16]) -> (k: String)
    ensures
        k@ == process_key_of(exe_file@),
{
    let name = wide_to_string(exe_file);
    trimmed_ascii_lowercase(name.as_str())
}

/// A name key without its `.exe` extension (unchanged when it has none).
pub open spec fn exe_stem(k: Seq<char>) -> Seq<char> {
    if k.len() >= 4 && k.subrange(k.len() - 4, k.len() as int) == ".exe"@ {
        k.subrange(0, k.len() - 4)
    } else {
        k
    }
}

/// Whether an exclusion list spares a process by its name key: the list
/// holds the name without `.exe`, or the name as it is.
pub open spec fn excluded_name(excluded: Seq<Seq<char>>, key: Seq<char>) -> bool {
    excluded.contains(exe_stem(key)) || excluded.contains(key)
}

/// A name listed without `.exe` spares the process whose image is that name
/// with `.exe`, and a name listed as it is spares that process too.
pub proof fn law_exclusion_by_stem(excluded: Seq<Seq<char>>, name: Seq<char>)
    requires
        excluded.contains(name),
    ensures
        excluded_name(excluded, name + ".exe"@),
        excluded_name(excluded, name),
{
    reveal_strlit(".exe");
    let k = name + ".exe"@;
    assert(k.subrange(k.len() - 4, k.len() as int) =~= ".exe"@);
    assert(k.subrange(0, k.len() - 4) =~= name);
}

/// Whether a process is considered for trimming at all: not the idle process
/// (pid 0), not this process, not protected, not excluded by name.
pub open spec fn spec_trim_candidate(
    pid: u32,
    current_pid: u32,
    exe_file: Seq<u16>,
    aggressive: bool,
    excluded: Seq<Seq<char>>,
) -> bool {
    &&& pid != 0
    &&& pid != current_pid
    &&& !is_protected_name(process_key_of(exe_file), aggressive)
    &&& !excluded_name(excluded, process_key_of(exe_file))
}

/// The name key without its `.exe` extension.
fn exe_stem_of(key: &str) -> (s: String)
    ensures
        s@ == exe_stem(key@),
{
    proof {
        reveal_strlit(".exe");
    }
    let n = key.unicode_len();
    if n >= 4 && key.get_char(n - 4) == '.' && key.get_char(n - 3) == 'e' && key.get_char(n - 2) == 'x'
        && key.get_char(n - 1) == 'e' {
        assert(key@.subrange(n - 4, n as int) =~= ".exe"@);
        String::from_str(key.substring_char(0, n - 4))
    } else {
        proof {
            if n >= 4 && key@.subrange(n - 4, n as int) == ".exe"@ {
                assert(key@.subrange(n - 4, n as int)[0] == key@[n - 4]);
                assert(key@.subrange(n - 4, n as int)[1] == key@[n - 3]);
                assert(key@.subrange(n - 4, n as int)[2] == key@[n - 2]);
                assert(key@.subrange(n - 4, n as int)[3] == key@[n - 1]);
            }
        }
        String::from_str(key)
    }
}

fn string_list_contains(list: &Vec<String>, key: &String) -> (b: bool)
    ensures
        b == string_views(list@).contains(key@),
{
    let ghost views = string_views(list@);
    let mut i: usize = 0;
    while i < list.len()
        invariant
            i <= list.len(),
            views == string_views(list@),
            forall|j: int| 0 <= j < i ==> views[j] != key@,
        decreases list.len() - i,
    {
        if list[i] == *key {
            assert(views[i as int] == key@);
            return true;
        }
        i += 1;
    }
    false
}

/// Whether a process enumerated by the system is considered for trimming.
pub fn trim_candidate(pid: u32, current_pid: u32, exe_file: &[u16], opts: &TrimOptions) -> (b: bool)
    ensures
        b == spec_trim_candidate(pid, current_pid, exe_file@, opts.aggressive, opts.excluded()),
{
    if pid == 0 || pid == current_pid {
        return false;
    }
    let key = process_key(exe_file);
    if is_protected(&key, opts.aggressive) {
        return false;
    }
    let stem = exe_stem_of(key.as_str());
    !string_list_contains(&opts.exclude, &stem) && !string_list_contains(&opts.exclude, &key)
}

/// Processes with a smaller working set are not worth a trim call (8 MiB).
pub const MIN_TRIM_WORKING_SET: u64 = 8 * 1024 * 1024;

/// Whether a candidate is trimmed: when its working set size could not be
/// read, or it is at least 8 MiB.
pub fn worth_trimming(working_set: Option<u64>) -> (b: bool)
    ensures
        b == (match working_set {
            Some(ws) => ws >= MIN_TRIM_WORKING_SET,
            None => true,
        }),
{
    match working_set {
        Some(ws) => ws >= MIN_TRIM_WORKING_SET,
        None => true,
    }
}

/// Bytes a trim released: the working set before minus the one after (the
/// same as before when it could not be read again), never negative.
pub fn working_set_freed(before: u64, after: Option<u64>) -> (freed: u64)
    ensures
        freed == sat_sub(before, match after {
            Some(a) => a,
            None => before,
        }),
{
    let a = match after {
        Some(a) => a,
        None => before,
    };
    before.saturating_sub(a)
}

/// Summary of a trimming pass over all processes.
#[derive(Clone, Copy, Debug, PartialEq, Eq, Default)]
pub struct TrimReport {
    /// Processes whose working set was trimmed.
    pub trimmed: u64,
    /// Bytes released by those trims together.
    pub process_freed_bytes: u64,
}

impl TrimReport {
    /// Counts one trimmed process that released `freed` bytes.
    pub fn record(&mut self, freed: u64)
        requires
            old(self).trimmed < u64::MAX,
            old(self).process_freed_bytes + freed <= u64::MAX,
        ensures
            final(self).trimmed == old(self).trimmed + 1,
            final(self).process_freed_bytes == old(self).process_freed_bytes + freed,
    {
        self.trimmed = self.trimmed + 1;
        self.process_freed_bytes = self.process_freed_bytes + freed;
    }

    /// Takes the outcome of one trim attempt into the report: a trim that
    /// worked (`Some` with the bytes it released) is counted, a failed one
    /// (`None`) changes nothing.
    pub fn account(&mut self, outcome: Option<u64>)
        requires
            outcome matches Some(f) ==> old(self).trimmed < u64::MAX && old(self).process_freed_bytes + f
                <= u64::MAX,
        ensures
            *final(self) == spec_account(*old(self), outcome),
    {
        if let Some(f) = outcome {
            self.record(f);
        }
    }
}

/// A report after one trim attempt with the given outcome.
pub open spec fn spec_account(r: TrimReport, outcome: Option<u64>) -> TrimReport {
    match outcome {
        Some(f) => TrimReport {
            trimmed: (r.trimmed + 1) as u64,
            process_freed_bytes: (r.process_freed_bytes + f) as u64,
        },
        None => r,
    }
}

/// A report after the trim attempts of a pass, in order.
pub open spec fn account_all(r: TrimReport, outcomes: Seq<Option<u64>>) -> TrimReport
    decreases outcomes.len(),
{
    if outcomes.len() == 0 {
        r
    } else {
        spec_account(account_all(r, outcomes.drop_last()), outcomes.last())
    }
}

/// Number of trims that worked among the outcomes.
pub open spec fn trims_done(outcomes: Seq<Option<u64>>) -> nat
    decreases outcomes.len(),
{
    if outcomes.len() == 0 {
        0
    } else {
        trims_done(outcomes.drop_last()) + if outcomes.last() is Some { 1nat } else { 0nat }
    }
}

/// Bytes released by the trims that worked.
pub open spec fn bytes_freed(outcomes: Seq<Option<u64>>) -> nat
    decreases outcomes.len(),
{
    if outcomes.len() == 0 {
        0
    } else {
        bytes_freed(outcomes.drop_last()) + match outcomes.last() {
            Some(f) => f as nat,
            None => 0nat,
        }
    }
}

/// A trimming pass counts exactly the processes whose trim worked and adds
/// up exactly the bytes they released (while the totals fit in 64 bits);
/// failed attempts leave no trace.
pub proof fn law_trim_pass_totals(r: TrimReport, outcomes: Seq<Option<u64>>)
    requires
        r.trimmed + trims_done(outcomes) <= u64::MAX,
        r.process_freed_bytes + bytes_freed(outcomes) <= u64::MAX,
    ensures
        account_all(r, outcomes) == (TrimReport {
            trimmed: (r.trimmed + trims_done(outcomes)) as u64,
            process_freed_bytes: (r.process_freed_bytes + bytes_freed(outcomes)) as u64,
        }),
    decreases outcomes.len(),
{
    if outcomes.len() > 0 {
        law_trim_pass_totals(r, outcomes.drop_last());
    }
}

/// What an action released, measured on available physical memory: when the
/// action succeeded, the gain between the readings before and after (never
/// negative); otherwise nothing.
pub fn measure_avail_delta(ok: bool, before: u64, after: u64) -> (r: (bool, u64))
    ensures
        r == (if ok {
            (true, sat_sub(after, before))
        } else {
            (false, 0u64)
        }),
{
    if ok {
        (true, after.saturating_sub(before))
    } else {
        (false, 0)
    }
}

/// Result of trimming the working sets.
#[derive(Clone, Copy, Debug, PartialEq, Eq, Default)]
pub struct TrimResult {
    /// Processes trimmed one by one (0 for the system-wide variant).
    pub trimmed: u64,
    /// Bytes released.
    pub freed_bytes: u64,
}

/// Result of emptying the system file cache.
#[derive(Clone, Copy, Debug, PartialEq, Eq, Default)]
pub struct CacheResult {
    /// Bytes released.
    pub freed_bytes: u64,
}

/// Result of running every known cleaning.
#[derive(Clone, Copy, Debug, PartialEq, Eq, Default)]
pub struct AllCleanResult {
    pub standby_cleared: bool,
    pub standby_freed_bytes: u64,
    pub syscache_cleared: bool,
    pub syscache_freed_bytes: u64,
    pub modified_cleared: bool,
    pub modified_freed_bytes: u64,
    /// The brute run's own system-wide emptying of the working sets
    /// succeeded (always false for a gentle run).
    pub system_ws_cleared: bool,
    pub global_freed_bytes: u64,
}

/// Trimming the working sets. Gentle: each large unprotected process on its
/// own. Brute: one system-wide emptying of all working sets, measured on
/// available memory.
pub open spec fn trim_steps(brute: bool) -> Seq<PlannedStep> {
    if brute {
        seq![planned(CleanStep::MemoryList(MemoryListCommand::EmptyWorkingSets), Measure::Always)]
    } else {
        seq![planned(CleanStep::TrimProcesses, Measure::Unmeasured)]
    }
}

/// The steps of trimming the working sets.
pub fn do_trim(brute: bool) -> (v: Vec<PlannedStep>)
    ensures
        v@ == trim_steps(brute),
{
    let mut v = Vec::new();
    if brute {
        v.push(plan_step(CleanStep::MemoryList(MemoryListCommand::EmptyWorkingSets), Measure::Always));
    } else {
        v.push(plan_step(CleanStep::TrimProcesses, Measure::Unmeasured));
    }
    v
}

impl TrimResult {
    /// The result of the trimming step from its report: system-wide, what the
    /// emptying released (no process counted); one by one, the count and
    /// bytes of the pass.
    pub fn from_reports(brute: bool, reports: &[StepReport]) -> (r: TrimResult)
        requires
            reports@.len() == trim_steps(brute).len(),
        ensures
            r == (if brute {
                TrimResult { trimmed: 0, freed_bytes: reports@[0].freed_bytes }
            } else {
                TrimResult { trimmed: reports@[0].trimmed, freed_bytes: reports@[0].freed_bytes }
            }),
    {
        if brute {
            TrimResult { trimmed: 0, freed_bytes: reports[0].freed_bytes }
        } else {
            TrimResult { trimmed: reports[0].trimmed, freed_bytes: reports[0].freed_bytes }
        }
    }
}

/// Emptying the system file cache and the system working sets; what they
/// release together is measured on available memory around both.
pub open spec fn flush_cache_steps() -> Seq<PlannedStep> {
    seq![
        planned(CleanStep::FlushFileCache, Measure::Unmeasured),
        planned(CleanStep::MemoryList(MemoryListCommand::EmptyWorkingSets), Measure::Unmeasured),
    ]
}

/// The steps of emptying the system file cache (and the system working sets).
pub fn do_flush_cache() -> (v: Vec<PlannedStep>)
    ensures
        v@ == flush_cache_steps(),
{
    let mut v = Vec::new();
    v.push(plan_step(CleanStep::FlushFileCache, Measure::Unmeasured));
    v.push(plan_step(CleanStep::MemoryList(MemoryListCommand::EmptyWorkingSets), Measure::Unmeasured));
    v
}

impl CacheResult {
    /// The result of emptying the caches from the available memory read
    /// before the first and after the last step, whatever the steps returned.
    pub fn from_readings(avail_before: u64, avail_after: u64) -> (r: CacheResult)
        ensures
            r == (CacheResult { freed_bytes: sat_sub(avail_after, avail_before) }),
    {
        CacheResult { freed_bytes: avail_after.saturating_sub(avail_before) }
    }
}

/// Every known cleaning: merge physical pages (with the quota privilege),
/// empty the file cache (measured), empty the working sets (all at once when
/// brute, else process by process), release the standby list and flush the
/// modified pages (each measured when it succeeded), and finally empty the
/// system working sets.
pub open spec fn clean_all_steps(brute: bool) -> Seq<PlannedStep> {
    seq![
        planned(CleanStep::EnablePrivilege(Privilege::IncreaseQuota), Measure::Unmeasured),
        planned(CleanStep::CombinePhysicalMemory, Measure::Unmeasured),
        planned(CleanStep::FlushFileCache, Measure::Always),
        if brute {
            planned(CleanStep::MemoryList(MemoryListCommand::EmptyWorkingSets), Measure::Unmeasured)
        } else {
            planned(CleanStep::TrimProcesses, Measure::Unmeasured)
        },
        planned(CleanStep::MemoryList(MemoryListCommand::PurgeStandbyList), Measure::IfDone),
        planned(CleanStep::MemoryList(MemoryListCommand::FlushModifiedList), Measure::IfDone),
        planned(CleanStep::MemoryList(MemoryListCommand::EmptyWorkingSets), Measure::Unmeasured),
    ]
}

/// The steps of running every known cleaning.
pub fn do_clean_all(brute: bool) -> (v: Vec<PlannedStep>)
    ensures
        v@ == clean_all_steps(brute),
{
    let mut v = Vec::new();
    v.push(plan_step(CleanStep::EnablePrivilege(Privilege::IncreaseQuota), Measure::Unmeasured));
    v.push(plan_step(CleanStep::CombinePhysicalMemory, Measure::Unmeasured));
    v.push(plan_step(CleanStep::FlushFileCache, Measure::Always));
    if brute {
        v.push(plan_step(CleanStep::MemoryList(MemoryListCommand::EmptyWorkingSets), Measure::Unmeasured));
    } else {
        v.push(plan_step(CleanStep::TrimProcesses, Measure::Unmeasured));
    }
    v.push(plan_step(CleanStep::MemoryList(MemoryListCommand::PurgeStandbyList), Measure::IfDone));
    v.push(plan_step(CleanStep::MemoryList(MemoryListCommand::FlushModifiedList), Measure::IfDone));
    v.push(plan_step(CleanStep::MemoryList(MemoryListCommand::EmptyWorkingSets), Measure::Unmeasured));
    v
}

impl AllCleanResult {
    /// The result of every known cleaning from the step reports and the
    /// available memory before the first and after the last step.
    pub fn from_reports(brute: bool, reports: &[StepReport], avail_before: u64, avail_after: u64) -> (r:
        AllCleanResult)
        requires
            reports@.len() == clean_all_steps(brute).len(),
        ensures
            r == (AllCleanResult {
                standby_cleared: reports@[4].done,
                standby_freed_bytes: reports@[4].freed_bytes,
                syscache_cleared: reports@[2].done,
                syscache_freed_bytes: reports@[2].freed_bytes,
                modified_cleared: reports@[5].done,
                modified_freed_bytes: reports@[5].freed_bytes,
                system_ws_cleared: brute && reports@[3].done,
                global_freed_bytes: sat_sub(avail_after, avail_before),
            }),
    {
        AllCleanResult {
            standby_cleared: reports[4].done,
            standby_freed_bytes: reports[4].freed_bytes,
            syscache_cleared: reports[2].done,
            syscache_freed_bytes: reports[2].freed_bytes,
            modified_cleared: reports[5].done,
            modified_freed_bytes: reports[5].freed_bytes,
            system_ws_cleared: brute && reports[3].done,
            global_freed_bytes: avail_after.saturating_sub(avail_before),
        }
    }
}

impl StepReport {
    /// The report of a step from whether it succeeded and the available
    /// memory read around it, following the step's way of measuring.
    pub fn measured(measure: Measure, ok: bool, avail_before: u64, avail_after: u64) -> (r: StepReport)
        ensures
            r == (match measure {
                Measure::Unmeasured => StepReport { done: ok, freed_bytes: 0, trimmed: 0 },
                Measure::Always => StepReport {
                    done: true,
                    freed_bytes: sat_sub(avail_after, avail_before),
                    trimmed: 0,
                },
                Measure::IfDone => StepReport {
                    done: ok,
                    freed_bytes: if ok { sat_sub(avail_after, avail_before) } else { 0 },
                    trimmed: 0,
                },
            }),
    {
        match measure {
            Measure::Unmeasured => StepReport { done: ok, freed_bytes: 0, trimmed: 0 },
            Measure::Always => {
                let (done, freed) = measure_avail_delta(true, avail_before, avail_after);
                StepReport { done, freed_bytes: freed, trimmed: 0 }
            },
            Measure::IfDone => {
                let (done, freed) = measure_avail_delta(ok, avail_before, avail_after);
                StepReport { done, freed_bytes: freed, trimmed: 0 }
            },
        }
    }

    /// The report of a process-by-process trimming pass.
    pub fn from_trim(report: &TrimReport) -> (r: StepReport)
        ensures
            r == (StepReport {
                done: true,
                freed_bytes: report.process_freed_bytes,
                trimmed: report.trimmed,
            }),
    {
        StepReport { done: true, freed_bytes: report.process_freed_bytes, trimmed: report.trimmed }
    }
}

/// The snapshot reports each figure of the reading: the used amount is the
/// total minus what is available (zero when more is available than the
/// total), and each percentage is the used amount times 100 (saturating at
/// the largest 64-bit number) divided by the total, rounded down and capped at
/// 100, or 0 for a zero total. Without saturation this is the plain share
/// `used * 100 / total`. The physical percentage is the one
/// `physical_usage_percent` reports for the same reading.
pub proof fn law_snapshot_figures(m: MemStatus, cache_used: u64, cache_total: u64)
    ensures
        ({
            let s = spec_memory_snapshot(m, cache_used, cache_total);
            let phys_used: int = if m.avail_phys <= m.total_phys { m.total_phys - m.avail_phys } else { 0 };
            let page_used: int = if m.avail_page_file <= m.total_page_file {
                m.total_page_file - m.avail_page_file
            } else {
                0
            };
            let phys_scaled: int = if phys_used * 100 > 0xFFFF_FFFF_FFFF_FFFF {
                0xFFFF_FFFF_FFFF_FFFF
            } else {
                phys_used * 100
            };
            let page_scaled: int = if page_used * 100 > 0xFFFF_FFFF_FFFF_FFFF {
                0xFFFF_FFFF_FFFF_FFFF
            } else {
                page_used * 100
            };
            let cache_scaled: int = if cache_used * 100 > 0xFFFF_FFFF_FFFF_FFFF {
                0xFFFF_FFFF_FFFF_FFFF
            } else {
                cache_used * 100
            };
            &&& s.phys_total == m.total_phys
            &&& s.phys_used == phys_used
            &&& s.page_total == m.total_page_file
            &&& s.page_used == page_used
            &&& s.cache_used == cache_used
            &&& s.cache_total == cache_total
            &&& m.total_phys == 0 ==> s.phys_percent == 0
            &&& m.total_phys > 0 ==> s.phys_percent == (if phys_scaled / (m.total_phys as int) > 100 {
                100
            } else {
                phys_scaled / (m.total_phys as int)
            })
            &&& m.total_page_file == 0 ==> s.page_percent == 0
            &&& m.total_page_file > 0 ==> s.page_percent == (if page_scaled / (m.total_page_file as int) > 100 {
                100
            } else {
                page_scaled / (m.total_page_file as int)
            })
            &&& cache_total == 0 ==> s.cache_percent == 0
            &&& cache_total > 0 ==> s.cache_percent == (if cache_scaled / (cache_total as int) > 100 {
                100
            } else {
                cache_scaled / (cache_total as int)
            })
            &&& m.total_phys > 0 && m.avail_phys <= m.total_phys && (m.total_phys - m.avail_phys) * 100
                <= 0xFFFF_FFFF_FFFF_FFFF ==> s.phys_percent == (m.total_phys - m.avail_phys) * 100
                / (m.total_phys as int)
            &&& s.phys_percent == usage_percent(sat_sub(m.total_phys, m.avail_phys), m.total_phys)
        }),
{
    let phys_used: int = if m.avail_phys <= m.total_phys { m.total_phys - m.avail_phys } else { 0 };
    if m.total_phys > 0 && m.avail_phys <= m.total_phys && phys_used * 100 <= 0xFFFF_FFFF_FFFF_FFFF {
        assert(phys_used * 100 / (m.total_phys as int) <= 100) by (nonlinear_arith)
            requires
                0 <= phys_used <= m.total_phys,
                m.total_phys > 0,
        ;
    }
}

/// The codes the system expects for the memory-list commands.
pub proof fn law_memory_list_codes()
    ensures
        command_code(MemoryListCommand::EmptyWorkingSets) == 2,
        command_code(MemoryListCommand::FlushModifiedList) == 3,
        command_code(MemoryListCommand::PurgeStandbyList) == 4,
        command_code(MemoryListCommand::PurgeLowPriorityStandbyList) == 5,
{
}

/// The cleaning at each strength, step by step. Standard: enable the quota
/// privilege, merge physical pages, trim the processes one by one, empty the
/// file cache (measured), release the low-priority standby memory. Deep (2
/// and above) then empties all working sets at once, releases the whole
/// standby list and flushes the modified pages.
pub proof fn law_cleaning_levels(level: u32)
    ensures
        level < 2 ==> clean_steps(level) == seq![
            PlannedStep { step: CleanStep::EnablePrivilege(Privilege::IncreaseQuota), measure: Measure::Unmeasured },
            PlannedStep { step: CleanStep::CombinePhysicalMemory, measure: Measure::Unmeasured },
            PlannedStep { step: CleanStep::TrimProcesses, measure: Measure::Unmeasured },
            PlannedStep { step: CleanStep::FlushFileCache, measure: Measure::Always },
            PlannedStep { step: CleanStep::MemoryList(MemoryListCommand::PurgeLowPriorityStandbyList), measure: Measure::Unmeasured },
        ],
        level >= 2 ==> clean_steps(level) == seq![
            PlannedStep { step: CleanStep::EnablePrivilege(Privilege::IncreaseQuota), measure: Measure::Unmeasured },
            PlannedStep { step: CleanStep::CombinePhysicalMemory, measure: Measure::Unmeasured },
            PlannedStep { step: CleanStep::TrimProcesses, measure: Measure::Unmeasured },
            PlannedStep { step: CleanStep::FlushFileCache, measure: Measure::Always },
            PlannedStep { step: CleanStep::MemoryList(MemoryListCommand::PurgeLowPriorityStandbyList), measure: Measure::Unmeasured },
            PlannedStep { step: CleanStep::MemoryList(MemoryListCommand::EmptyWorkingSets), measure: Measure::Unmeasured },
            PlannedStep { step: CleanStep::MemoryList(MemoryListCommand::PurgeStandbyList), measure: Measure::Unmeasured },
            PlannedStep { step: CleanStep::MemoryList(MemoryListCommand::FlushModifiedList), measure: Measure::Unmeasured },
        ],
{
}

/// Trimming: gently, one pass over the processes whose report is the pass's
/// own count and bytes (not measured on available memory); brute, a single
/// system-wide emptying of the working sets, measured. Emptying the file
/// cache is followed by emptying the system working sets, both unmeasured
/// (the pair is measured as a whole).
pub proof fn law_trim_and_cache_plans()
    ensures
        trim_steps(false) == seq![PlannedStep { step: CleanStep::TrimProcesses, measure: Measure::Unmeasured }],
        trim_steps(true) == seq![PlannedStep { step: CleanStep::MemoryList(MemoryListCommand::EmptyWorkingSets), measure: Measure::Always }],
        flush_cache_steps() == seq![
            PlannedStep { step: CleanStep::FlushFileCache, measure: Measure::Unmeasured },
            PlannedStep { step: CleanStep::MemoryList(MemoryListCommand::EmptyWorkingSets), measure: Measure::Unmeasured },
        ],
{
}

/// Every known cleaning, step by step: enable the quota privilege, merge
/// physical pages, empty the file cache (measured), empty the working sets
/// (all at once when brute, else process by process), release the whole
/// standby list and flush the modified pages (each measured when it
/// succeeded), and finally empty the system working sets.
pub proof fn law_clean_all_plan(brute: bool)
    ensures
        clean_all_steps(brute) == seq![
            PlannedStep { step: CleanStep::EnablePrivilege(Privilege::IncreaseQuota), measure: Measure::Unmeasured },
            PlannedStep { step: CleanStep::CombinePhysicalMemory, measure: Measure::Unmeasured },
            PlannedStep { step: CleanStep::FlushFileCache, measure: Measure::Always },
            if brute {
                PlannedStep { step: CleanStep::MemoryList(MemoryListCommand::EmptyWorkingSets), measure: Measure::Unmeasured }
            } else {
                PlannedStep { step: CleanStep::TrimProcesses, measure: Measure::Unmeasured }
            },
            PlannedStep { step: CleanStep::MemoryList(MemoryListCommand::PurgeStandbyList), measure: Measure::IfDone },
            PlannedStep { step: CleanStep::MemoryList(MemoryListCommand::FlushModifiedList), measure: Measure::IfDone },
            PlannedStep { step: CleanStep::MemoryList(MemoryListCommand::EmptyWorkingSets), measure: Measure::Unmeasured },
        ],
{
}

/// The system processes are spared whatever the trimming mode, the desktop
/// processes the user works with unless trimming is aggressive.
pub proof fn law_protected_processes(aggressive: bool)
    ensures
        is_protected_name("system"@, aggressive),
        is_protected_name("registry"@, aggressive),
        is_protected_name("memory compression"@, aggressive),
        is_protected_name("idle"@, aggressive),
        is_protected_name("smss.exe"@, aggressive),
        is_protected_name("csrss.exe"@, aggressive),
        is_protected_name("wininit.exe"@, aggressive),
        is_protected_name("winlogon.exe"@, aggressive),
        is_protected_name("services.exe"@, aggressive),
        is_protected_name("lsass.exe"@, aggressive),
        is_protected_name("dwm.exe"@, aggressive),
        is_protected_name("fontdrvhost.exe"@, aggressive),
        is_protected_name("explorer.exe"@, false),
        is_protected_name("sihost.exe"@, false),
        is_protected_name("shellexperiencehost.exe"@, false),
        is_protected_name("startmenuexperiencehost.exe"@, false),
        is_protected_name("textinputhost.exe"@, false),
        is_protected_name("searchhost.exe"@, false),
        is_protected_name("taskmgr.exe"@, false),
        is_protected_name("cmd.exe"@, false),
        is_protected_name("powershell.exe"@, false),
        is_protected_name("pwsh.exe"@, false),
        is_protected_name("conhost.exe"@, false),
{
    assert(critical_names()[0] == "system"@);
    assert(critical_names()[1] == "registry"@);
    assert(critical_names()[2] == "memory compression"@);
    assert(critical_names()[3] == "idle"@);
    assert(critical_names()[4] == "smss.exe"@);
    assert(critical_names()[5] == "csrss.exe"@);
    assert(critical_names()[6] == "wininit.exe"@);
    assert(critical_names()[7] == "winlogon.exe"@);
    assert(critical_names()[8] == "services.exe"@);
    assert(critical_names()[9] == "lsass.exe"@);
    assert(critical_names()[10] == "dwm.exe"@);
    assert(critical_names()[11] == "fontdrvhost.exe"@);
    assert(comfort_names()[0] == "explorer.exe"@);
    assert(comfort_names()[1] == "sihost.exe"@);
    assert(comfort_names()[2] == "shellexperiencehost.exe"@);
    assert(comfort_names()[3] == "startmenuexperiencehost.exe"@);
    assert(comfort_names()[4] == "textinputhost.exe"@);
    assert(comfort_names()[5] == "searchhost.exe"@);
    assert(comfort_names()[6] == "taskmgr.exe"@);
    assert(comfort_names()[7] == "cmd.exe"@);
    assert(comfort_names()[8] == "powershell.exe"@);
    assert(comfort_names()[9] == "pwsh.exe"@);
    assert(comfort_names()[10] == "conhost.exe"@);
}

/// A process whose image name key is one of the system processes is never a
/// trimming candidate, whatever the options.
pub proof fn law_system_processes_never_trimmed(
    pid: u32,
    current_pid: u32,
    exe_file: Seq<u16>,
    aggressive: bool,
    excluded: Seq<Seq<char>>,
)
    ensures
        ({
            let k = process_key_of(exe_file);
            k == "system"@ || k == "registry"@ || k == "memory compression"@ || k == "idle"@ || k == "smss.exe"@ || k == "csrss.exe"@ || k == "wininit.exe"@ || k == "winlogon.exe"@ || k == "services.exe"@ || k == "lsass.exe"@ || k == "dwm.exe"@ || k == "fontdrvhost.exe"@ ==> !spec_trim_candidate(pid, current_pid, exe_file, aggressive, excluded)
        }),
{
    law_protected_processes(aggressive);
}

} // verus!
