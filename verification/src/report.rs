//! The shared result accumulator and its write-once discipline.
//!
//! A `Report` holds one `Slot` per displayable attribute, grouped by the
//! unit of work that owns and alone writes it. A slot is *delivered* once
//! its unit has handed over a result for it -- the result itself may still
//! be absent, the uniform signal for a failed probe. A delivered slot is
//! never cleared or overwritten, so later snapshots of a run extend
//! earlier ones; the laws at the end of this module state that discipline
//! once and for all.

use vstd::prelude::*;

use crate::config::Config;

verus! {

/// One accumulator slot: whether its unit has delivered it, and the value
/// it delivered, if any.
pub struct Slot<T> {
    pub done: bool,
    pub value: Option<T>,
}

/// What delivering a result does to one slot: a slot already delivered
/// keeps its value, an enabled slot takes the result, and a disabled slot
/// stays as it was.
pub open spec fn delivered<T>(s: Slot<T>, deliver: bool, v: Option<T>) -> Slot<T> {
    if s.done {
        s
    } else if deliver {
        Slot { done: true, value: v }
    } else {
        s
    }
}

impl<T> Slot<T> {
    pub fn empty() -> (r: Slot<T>)
        ensures
            !r.done,
            r.value is None,
    {
        Slot { done: false, value: None }
    }

    /// The one write a slot ever sees; everything the write-once laws say
    /// of a whole report reduces to this equation, slot by slot.
    pub fn deliver(self, deliver: bool, v: Option<T>) -> (r: Slot<T>)
        ensures
            r == delivered(self, deliver, v),
    {
        if self.done {
            self
        } else if deliver {
            Slot { done: true, value: v }
        } else {
            self
        }
    }

    /// Slot-level write-once order: once delivered, delivered for good and
    /// with the identical value.
    pub open spec fn le(self, other: Slot<T>) -> bool {
        self.done ==> other == self
    }

    /// Slot well-formedness: a slot holds a value only once its unit has
    /// delivered it. Every reachable slot satisfies this -- an empty slot
    /// vacuously, and `deliver` is the only write.
    pub open spec fn wf(self) -> bool {
        self.value is Some ==> self.done
    }
}

/// Delivering preserves slot well-formedness: the delivered slot is
/// marked done together with whatever value it takes.
pub proof fn lemma_deliver_wf<T>(s: Slot<T>, deliver: bool, v: Option<T>)
    requires
        s.wf(),
    ensures
        delivered(s, deliver, v).wf(),
{
}

/// Delivering never un-delivers and never changes a delivered value.
pub proof fn lemma_deliver_le<T>(s: Slot<T>, deliver: bool, v: Option<T>)
    ensures
        s.le(delivered(s, deliver, v)),
{
}

/// The slot order is transitive.
pub proof fn lemma_slot_le_trans<T>(a: Slot<T>, b: Slot<T>, c: Slot<T>)
    requires
        a.le(b),
        b.le(c),
    ensures
        a.le(c),
{
}

/// One mounted filesystem: label, mount point, and usage in KiB.
#[derive(PartialEq, Eq, Debug)]
pub struct Partition {
    pub label: String,
    pub mount: String,
    pub used_kib: u64,
    pub total_kib: u64,
}

/// One network interface. Rates are hundredths of MB/s; ping and jitter
/// are thousandths of a millisecond; loss is thousandths of a percent.
#[derive(PartialEq, Eq, Debug)]
pub struct NetworkInfo {
    pub interface: String,
    pub ipv4: Option<String>,
    pub ipv6: Option<String>,
    pub mac: Option<String>,
    pub state: String,
    pub rx_bytes: Option<u64>,
    pub tx_bytes: Option<u64>,
    pub rx_rate_cmbs: Option<u64>,
    pub tx_rate_cmbs: Option<u64>,
    pub ping_um: Option<u64>,
    pub jitter_um: Option<u64>,
    pub loss_mpct: Option<u64>,
}

/// Every displayable attribute, one identifier per slot.
#[derive(PartialEq, Eq, Structural, Clone, Copy, Debug)]
pub enum FieldId {
    User,
    Hostname,
    Os,
    Kernel,
    Uptime,
    Shell,
    De,
    Init,
    Terminal,
    Locale,
    Model,
    Motherboard,
    Bios,
    Cpu,
    CpuCores,
    CpuCache,
    CpuFreq,
    CpuTemp,
    Memory,
    Swap,
    Battery,
    Processes,
    Users,
    Entropy,
    Gpu,
    GpuTemps,
    GpuVram,
    Packages,
    Partitions,
    BootTime,
    Bootloader,
    Wm,
    PublicIp,
    FailedUnits,
    Theme,
    Icons,
    Font,
    Display,
    Resolution,
    Network,
}

/// The slots owned by the `EnvAndFiles` unit of work.
pub struct EnvSlots {
    pub user: Slot<String>,
    pub hostname: Slot<String>,
    pub os: Slot<String>,
    pub kernel: Slot<String>,
    pub uptime: Slot<String>,
    pub shell: Slot<String>,
    pub de: Slot<String>,
    pub init: Slot<String>,
    pub terminal: Slot<String>,
    pub locale: Slot<String>,
    pub model: Slot<String>,
    pub motherboard: Slot<String>,
    pub bios: Slot<String>,
}

/// The slots owned by the `CpuMemory` unit of work.
pub struct CpuMemSlots {
    pub cpu: Slot<String>,
    pub cpu_cores: Slot<(usize, usize)>,
    pub cpu_cache: Slot<String>,
    pub cpu_freq: Slot<String>,
    pub cpu_temp: Slot<String>,
    pub memory: Slot<(u64, u64)>,
    pub swap: Slot<(u64, u64)>,
    pub battery: Slot<(u8, String)>,
    pub processes: Slot<usize>,
    pub users: Slot<usize>,
    pub entropy: Slot<String>,
}

/// The slots owned by the `Gpu` unit of work.
pub struct GpuSlots {
    pub gpu: Slot<Vec<String>>,
    pub gpu_temps: Slot<Vec<Option<String>>>,
    pub gpu_vram: Slot<Vec<String>>,
}

/// The slots owned by the `PackagesBoot` unit of work.
pub struct PkgSlots {
    pub packages: Slot<String>,
    pub partitions: Slot<Vec<Partition>>,
    pub boot_time: Slot<String>,
    pub bootloader: Slot<String>,
    pub wm: Slot<String>,
    pub public_ip: Slot<String>,
    pub failed_units: Slot<usize>,
    pub theme: Slot<String>,
    pub icons: Slot<String>,
    pub font: Slot<String>,
}

/// The slots owned by the `DisplayNet` unit of work.
pub struct DispSlots {
    pub display: Slot<String>,
    pub resolution: Slot<String>,
}

/// The slots owned by the `Assembly` unit of work.
pub struct NetSlots {
    pub network: Slot<Vec<NetworkInfo>>,
}

/// The accumulator: every slot, grouped by owning unit. That each unit
/// writes only its own group is visible in the types: a unit's `apply`
/// function replaces its own group and cannot touch another.
pub struct Report {
    pub env: EnvSlots,
    pub cpu_mem: CpuMemSlots,
    pub gpu: GpuSlots,
    pub pkg: PkgSlots,
    pub disp: DispSlots,
    pub net: NetSlots,
}

impl Report {
    /// A report starts with every slot undelivered and empty.
    pub fn new() -> (r: Report)
        ensures
            forall|f: FieldId| !(#[trigger] r.reported(f)),
            forall|f: FieldId| !(#[trigger] r.present(f)),
            r.wf(),
    {
        let r = Report {
            env: EnvSlots {
                user: Slot::empty(),
                hostname: Slot::empty(),
                os: Slot::empty(),
                kernel: Slot::empty(),
                uptime: Slot::empty(),
                shell: Slot::empty(),
                de: Slot::empty(),
                init: Slot::empty(),
                terminal: Slot::empty(),
                locale: Slot::empty(),
                model: Slot::empty(),
                motherboard: Slot::empty(),
                bios: Slot::empty(),
            },
            cpu_mem: CpuMemSlots {
                cpu: Slot::empty(),
                cpu_cores: Slot::empty(),
                cpu_cache: Slot::empty(),
                cpu_freq: Slot::empty(),
                cpu_temp: Slot::empty(),
                memory: Slot::empty(),
                swap: Slot::empty(),
                battery: Slot::empty(),
                processes: Slot::empty(),
                users: Slot::empty(),
                entropy: Slot::empty(),
            },
            gpu: GpuSlots {
                gpu: Slot::empty(),
                gpu_temps: Slot::empty(),
                gpu_vram: Slot::empty(),
            },
            pkg: PkgSlots {
                packages: Slot::empty(),
                partitions: Slot::empty(),
                boot_time: Slot::empty(),
                bootloader: Slot::empty(),
                wm: Slot::empty(),
                public_ip: Slot::empty(),
                failed_units: Slot::empty(),
                theme: Slot::empty(),
                icons: Slot::empty(),
                font: Slot::empty(),
            },
            disp: DispSlots {
                display: Slot::empty(),
                resolution: Slot::empty(),
            },
            net: NetSlots {
                network: Slot::empty(),
            },
        };
        proof {
            assert forall|f: FieldId| !(#[trigger] r.reported(f)) && !(#[trigger] r.present(
                f,
            )) by {
                match f {
                    FieldId::User => {},
                    FieldId::Hostname => {},
                    FieldId::Os => {},
                    FieldId::Kernel => {},
                    FieldId::Uptime => {},
                    FieldId::Shell => {},
                    FieldId::De => {},
                    FieldId::Init => {},
                    FieldId::Terminal => {},
                    FieldId::Locale => {},
                    FieldId::Model => {},
                    FieldId::Motherboard => {},
                    FieldId::Bios => {},
                    FieldId::Cpu => {},
                    FieldId::CpuCores => {},
                    FieldId::CpuCache => {},
                    FieldId::CpuFreq => {},
                    FieldId::CpuTemp => {},
                    FieldId::Memory => {},
                    FieldId::Swap => {},
                    FieldId::Battery => {},
                    FieldId::Processes => {},
                    FieldId::Users => {},
                    FieldId::Entropy => {},
                    FieldId::Gpu => {},
                    FieldId::GpuTemps => {},
                    FieldId::GpuVram => {},
                    FieldId::Packages => {},
                    FieldId::Partitions => {},
                    FieldId::BootTime => {},
                    FieldId::Bootloader => {},
                    FieldId::Wm => {},
                    FieldId::PublicIp => {},
                    FieldId::FailedUnits => {},
                    FieldId::Theme => {},
                    FieldId::Icons => {},
                    FieldId::Font => {},
                    FieldId::Display => {},
                    FieldId::Resolution => {},
                    FieldId::Network => {},
                }
            }
        }
        r
    }

    /// The slot for `f`.
    pub open spec fn slot_done(&self, f: FieldId) -> bool {
        match f {
            FieldId::User => self.env.user.done,
            FieldId::Hostname => self.env.hostname.done,
            FieldId::Os => self.env.os.done,
            FieldId::Kernel => self.env.kernel.done,
            FieldId::Uptime => self.env.uptime.done,
            FieldId::Shell => self.env.shell.done,
            FieldId::De => self.env.de.done,
            FieldId::Init => self.env.init.done,
            FieldId::Terminal => self.env.terminal.done,
            FieldId::Locale => self.env.locale.done,
            FieldId::Model => self.env.model.done,
            FieldId::Motherboard => self.env.motherboard.done,
            FieldId::Bios => self.env.bios.done,
            FieldId::Cpu => self.cpu_mem.cpu.done,
            FieldId::CpuCores => self.cpu_mem.cpu_cores.done,
            FieldId::CpuCache => self.cpu_mem.cpu_cache.done,
            FieldId::CpuFreq => self.cpu_mem.cpu_freq.done,
            FieldId::CpuTemp => self.cpu_mem.cpu_temp.done,
            FieldId::Memory => self.cpu_mem.memory.done,
            FieldId::Swap => self.cpu_mem.swap.done,
            FieldId::Battery => self.cpu_mem.battery.done,
            FieldId::Processes => self.cpu_mem.processes.done,
            FieldId::Users => self.cpu_mem.users.done,
            FieldId::Entropy => self.cpu_mem.entropy.done,
            FieldId::Gpu => self.gpu.gpu.done,
            FieldId::GpuTemps => self.gpu.gpu_temps.done,
            FieldId::GpuVram => self.gpu.gpu_vram.done,
            FieldId::Packages => self.pkg.packages.done,
            FieldId::Partitions => self.pkg.partitions.done,
            FieldId::BootTime => self.pkg.boot_time.done,
            FieldId::Bootloader => self.pkg.bootloader.done,
            FieldId::Wm => self.pkg.wm.done,
            FieldId::PublicIp => self.pkg.public_ip.done,
            FieldId::FailedUnits => self.pkg.failed_units.done,
            FieldId::Theme => self.pkg.theme.done,
            FieldId::Icons => self.pkg.icons.done,
            FieldId::Font => self.pkg.font.done,
            FieldId::Display => self.disp.display.done,
            FieldId::Resolution => self.disp.resolution.done,
            FieldId::Network => self.net.network.done,
        }
    }

    /// Whether the slot for `f` has been delivered by its unit.
    pub open spec fn reported(&self, f: FieldId) -> bool {
        self.slot_done(f)
    }

    /// Whether the slot for `f` holds a value.
    pub open spec fn present(&self, f: FieldId) -> bool {
        match f {
            FieldId::User => self.env.user.value is Some,
            FieldId::Hostname => self.env.hostname.value is Some,
            FieldId::Os => self.env.os.value is Some,
            FieldId::Kernel => self.env.kernel.value is Some,
            FieldId::Uptime => self.env.uptime.value is Some,
            FieldId::Shell => self.env.shell.value is Some,
            FieldId::De => self.env.de.value is Some,
            FieldId::Init => self.env.init.value is Some,
            FieldId::Terminal => self.env.terminal.value is Some,
            FieldId::Locale => self.env.locale.value is Some,
            FieldId::Model => self.env.model.value is Some,
            FieldId::Motherboard => self.env.motherboard.value is Some,
            FieldId::Bios => self.env.bios.value is Some,
            FieldId::Cpu => self.cpu_mem.cpu.value is Some,
            FieldId::CpuCores => self.cpu_mem.cpu_cores.value is Some,
            FieldId::CpuCache => self.cpu_mem.cpu_cache.value is Some,
            FieldId::CpuFreq => self.cpu_mem.cpu_freq.value is Some,
            FieldId::CpuTemp => self.cpu_mem.cpu_temp.value is Some,
            FieldId::Memory => self.cpu_mem.memory.value is Some,
            FieldId::Swap => self.cpu_mem.swap.value is Some,
            FieldId::Battery => self.cpu_mem.battery.value is Some,
            FieldId::Processes => self.cpu_mem.processes.value is Some,
            FieldId::Users => self.cpu_mem.users.value is Some,
            FieldId::Entropy => self.cpu_mem.entropy.value is Some,
            FieldId::Gpu => self.gpu.gpu.value is Some,
            FieldId::GpuTemps => self.gpu.gpu_temps.value is Some,
            FieldId::GpuVram => self.gpu.gpu_vram.value is Some,
            FieldId::Packages => self.pkg.packages.value is Some,
            FieldId::Partitions => self.pkg.partitions.value is Some,
            FieldId::BootTime => self.pkg.boot_time.value is Some,
            FieldId::Bootloader => self.pkg.bootloader.value is Some,
            FieldId::Wm => self.pkg.wm.value is Some,
            FieldId::PublicIp => self.pkg.public_ip.value is Some,
            FieldId::FailedUnits => self.pkg.failed_units.value is Some,
            FieldId::Theme => self.pkg.theme.value is Some,
            FieldId::Icons => self.pkg.icons.value is Some,
            FieldId::Font => self.pkg.font.value is Some,
            FieldId::Display => self.disp.display.value is Some,
            FieldId::Resolution => self.disp.resolution.value is Some,
            FieldId::Network => self.net.network.value is Some,
        }
    }

    /// The set of delivered slots of a snapshot.
    pub open spec fn reported_set(&self) -> Set<FieldId> {
        Set::new(|f: FieldId| self.reported(f))
    }

    /// The set of populated slots of a snapshot.
    pub open spec fn present_set(&self) -> Set<FieldId> {
        Set::new(|f: FieldId| self.present(f))
    }

    /// Report well-formedness: every slot holds a value only once its
    /// unit has delivered it. `new` establishes this and every `apply`
    /// preserves it, so it holds of every snapshot of a run.
    pub open spec fn wf(&self) -> bool {
        &&& self.env.user.wf()
        &&& self.env.hostname.wf()
        &&& self.env.os.wf()
        &&& self.env.kernel.wf()
        &&& self.env.uptime.wf()
        &&& self.env.shell.wf()
        &&& self.env.de.wf()
        &&& self.env.init.wf()
        &&& self.env.terminal.wf()
        &&& self.env.locale.wf()
        &&& self.env.model.wf()
        &&& self.env.motherboard.wf()
        &&& self.env.bios.wf()
        &&& self.cpu_mem.cpu.wf()
        &&& self.cpu_mem.cpu_cores.wf()
        &&& self.cpu_mem.cpu_cache.wf()
        &&& self.cpu_mem.cpu_freq.wf()
        &&& self.cpu_mem.cpu_temp.wf()
        &&& self.cpu_mem.memory.wf()
        &&& self.cpu_mem.swap.wf()
        &&& self.cpu_mem.battery.wf()
        &&& self.cpu_mem.processes.wf()
        &&& self.cpu_mem.users.wf()
        &&& self.cpu_mem.entropy.wf()
        &&& self.gpu.gpu.wf()
        &&& self.gpu.gpu_temps.wf()
        &&& self.gpu.gpu_vram.wf()
        &&& self.pkg.packages.wf()
        &&& self.pkg.partitions.wf()
        &&& self.pkg.boot_time.wf()
        &&& self.pkg.bootloader.wf()
        &&& self.pkg.wm.wf()
        &&& self.pkg.public_ip.wf()
        &&& self.pkg.failed_units.wf()
        &&& self.pkg.theme.wf()
        &&& self.pkg.icons.wf()
        &&& self.pkg.font.wf()
        &&& self.disp.display.wf()
        &&& self.disp.resolution.wf()
        &&& self.net.network.wf()
    }

    /// Whether the slots for `f` are identical in both snapshots.
    pub open spec fn field_eq(&self, other: &Report, f: FieldId) -> bool {
        match f {
            FieldId::User => self.env.user == other.env.user,
            FieldId::Hostname => self.env.hostname == other.env.hostname,
            FieldId::Os => self.env.os == other.env.os,
            FieldId::Kernel => self.env.kernel == other.env.kernel,
            FieldId::Uptime => self.env.uptime == other.env.uptime,
            FieldId::Shell => self.env.shell == other.env.shell,
            FieldId::De => self.env.de == other.env.de,
            FieldId::Init => self.env.init == other.env.init,
            FieldId::Terminal => self.env.terminal == other.env.terminal,
            FieldId::Locale => self.env.locale == other.env.locale,
            FieldId::Model => self.env.model == other.env.model,
            FieldId::Motherboard => self.env.motherboard == other.env.motherboard,
            FieldId::Bios => self.env.bios == other.env.bios,
            FieldId::Cpu => self.cpu_mem.cpu == other.cpu_mem.cpu,
            FieldId::CpuCores => self.cpu_mem.cpu_cores == other.cpu_mem.cpu_cores,
            FieldId::CpuCache => self.cpu_mem.cpu_cache == other.cpu_mem.cpu_cache,
            FieldId::CpuFreq => self.cpu_mem.cpu_freq == other.cpu_mem.cpu_freq,
            FieldId::CpuTemp => self.cpu_mem.cpu_temp == other.cpu_mem.cpu_temp,
            FieldId::Memory => self.cpu_mem.memory == other.cpu_mem.memory,
            FieldId::Swap => self.cpu_mem.swap == other.cpu_mem.swap,
            FieldId::Battery => self.cpu_mem.battery == other.cpu_mem.battery,
            FieldId::Processes => self.cpu_mem.processes == other.cpu_mem.processes,
            FieldId::Users => self.cpu_mem.users == other.cpu_mem.users,
            FieldId::Entropy => self.cpu_mem.entropy == other.cpu_mem.entropy,
            FieldId::Gpu => self.gpu.gpu == other.gpu.gpu,
            FieldId::GpuTemps => self.gpu.gpu_temps == other.gpu.gpu_temps,
            FieldId::GpuVram => self.gpu.gpu_vram == other.gpu.gpu_vram,
            FieldId::Packages => self.pkg.packages == other.pkg.packages,
            FieldId::Partitions => self.pkg.partitions == other.pkg.partitions,
            FieldId::BootTime => self.pkg.boot_time == other.pkg.boot_time,
            FieldId::Bootloader => self.pkg.bootloader == other.pkg.bootloader,
            FieldId::Wm => self.pkg.wm == other.pkg.wm,
            FieldId::PublicIp => self.pkg.public_ip == other.pkg.public_ip,
            FieldId::FailedUnits => self.pkg.failed_units == other.pkg.failed_units,
            FieldId::Theme => self.pkg.theme == other.pkg.theme,
            FieldId::Icons => self.pkg.icons == other.pkg.icons,
            FieldId::Font => self.pkg.font == other.pkg.font,
            FieldId::Display => self.disp.display == other.disp.display,
            FieldId::Resolution => self.disp.resolution == other.disp.resolution,
            FieldId::Network => self.net.network == other.net.network,
        }
    }
}

/// Snapshot order: `b` extends `a` when every slot delivered in `a` is
/// delivered in `b` with the identical value.
pub open spec fn extends(a: &Report, b: &Report) -> bool {
    &&& a.env.user.le(b.env.user)
    &&& a.env.hostname.le(b.env.hostname)
    &&& a.env.os.le(b.env.os)
    &&& a.env.kernel.le(b.env.kernel)
    &&& a.env.uptime.le(b.env.uptime)
    &&& a.env.shell.le(b.env.shell)
    &&& a.env.de.le(b.env.de)
    &&& a.env.init.le(b.env.init)
    &&& a.env.terminal.le(b.env.terminal)
    &&& a.env.locale.le(b.env.locale)
    &&& a.env.model.le(b.env.model)
    &&& a.env.motherboard.le(b.env.motherboard)
    &&& a.env.bios.le(b.env.bios)
    &&& a.cpu_mem.cpu.le(b.cpu_mem.cpu)
    &&& a.cpu_mem.cpu_cores.le(b.cpu_mem.cpu_cores)
    &&& a.cpu_mem.cpu_cache.le(b.cpu_mem.cpu_cache)
    &&& a.cpu_mem.cpu_freq.le(b.cpu_mem.cpu_freq)
    &&& a.cpu_mem.cpu_temp.le(b.cpu_mem.cpu_temp)
    &&& a.cpu_mem.memory.le(b.cpu_mem.memory)
    &&& a.cpu_mem.swap.le(b.cpu_mem.swap)
    &&& a.cpu_mem.battery.le(b.cpu_mem.battery)
    &&& a.cpu_mem.processes.le(b.cpu_mem.processes)
    &&& a.cpu_mem.users.le(b.cpu_mem.users)
    &&& a.cpu_mem.entropy.le(b.cpu_mem.entropy)
    &&& a.gpu.gpu.le(b.gpu.gpu)
    &&& a.gpu.gpu_temps.le(b.gpu.gpu_temps)
    &&& a.gpu.gpu_vram.le(b.gpu.gpu_vram)
    &&& a.pkg.packages.le(b.pkg.packages)
    &&& a.pkg.partitions.le(b.pkg.partitions)
    &&& a.pkg.boot_time.le(b.pkg.boot_time)
    &&& a.pkg.bootloader.le(b.pkg.bootloader)
    &&& a.pkg.wm.le(b.pkg.wm)
    &&& a.pkg.public_ip.le(b.pkg.public_ip)
    &&& a.pkg.failed_units.le(b.pkg.failed_units)
    &&& a.pkg.theme.le(b.pkg.theme)
    &&& a.pkg.icons.le(b.pkg.icons)
    &&& a.pkg.font.le(b.pkg.font)
    &&& a.disp.display.le(b.disp.display)
    &&& a.disp.resolution.le(b.disp.resolution)
    &&& a.net.network.le(b.net.network)
}

// ---------------------------------------------------------------------------
// The units of work and their disjoint ownership of slots
// ---------------------------------------------------------------------------

/// The concurrent units of work. Five worker units run the probes; the
/// network summary is assembled by the dispatching unit itself after the
/// workers are joined, since it needs the elapsed wall time of the run.
#[derive(PartialEq, Eq, Structural, Clone, Copy, Debug)]
pub enum UnitId {
    EnvAndFiles,
    CpuMemory,
    Gpu,
    PackagesBoot,
    DisplayNet,
    Assembly,
}

/// The unique unit of work that owns (and alone writes) each slot.
pub open spec fn unit_of(f: FieldId) -> UnitId {
    match f {
        FieldId::User => UnitId::EnvAndFiles,
        FieldId::Hostname => UnitId::EnvAndFiles,
        FieldId::Os => UnitId::EnvAndFiles,
        FieldId::Kernel => UnitId::EnvAndFiles,
        FieldId::Uptime => UnitId::EnvAndFiles,
        FieldId::Shell => UnitId::EnvAndFiles,
        FieldId::De => UnitId::EnvAndFiles,
        FieldId::Init => UnitId::EnvAndFiles,
        FieldId::Terminal => UnitId::EnvAndFiles,
        FieldId::Locale => UnitId::EnvAndFiles,
        FieldId::Model => UnitId::EnvAndFiles,
        FieldId::Motherboard => UnitId::EnvAndFiles,
        FieldId::Bios => UnitId::EnvAndFiles,
        FieldId::Cpu => UnitId::CpuMemory,
        FieldId::CpuCores => UnitId::CpuMemory,
        FieldId::CpuCache => UnitId::CpuMemory,
        FieldId::CpuFreq => UnitId::CpuMemory,
        FieldId::CpuTemp => UnitId::CpuMemory,
        FieldId::Memory => UnitId::CpuMemory,
        FieldId::Swap => UnitId::CpuMemory,
        FieldId::Battery => UnitId::CpuMemory,
        FieldId::Processes => UnitId::CpuMemory,
        FieldId::Users => UnitId::CpuMemory,
        FieldId::Entropy => UnitId::CpuMemory,
        FieldId::Gpu => UnitId::Gpu,
        FieldId::GpuTemps => UnitId::Gpu,
        FieldId::GpuVram => UnitId::Gpu,
        FieldId::Packages => UnitId::PackagesBoot,
        FieldId::Partitions => UnitId::PackagesBoot,
        FieldId::BootTime => UnitId::PackagesBoot,
        FieldId::Bootloader => UnitId::PackagesBoot,
        FieldId::Wm => UnitId::PackagesBoot,
        FieldId::PublicIp => UnitId::PackagesBoot,
        FieldId::FailedUnits => UnitId::PackagesBoot,
        FieldId::Theme => UnitId::PackagesBoot,
        FieldId::Icons => UnitId::PackagesBoot,
        FieldId::Font => UnitId::PackagesBoot,
        FieldId::Display => UnitId::DisplayNet,
        FieldId::Resolution => UnitId::DisplayNet,
        FieldId::Network => UnitId::Assembly,
    }
}

/// Which slots each run must deliver: the identity fields -- user,
/// hostname and OS name -- are part of every run; every other slot
/// follows the configuration, with the expensive probes also gated by
/// fast mode.
pub open spec fn enabled(c: &Config, f: FieldId) -> bool {
    match f {
        FieldId::User => true,
        FieldId::Hostname => true,
        FieldId::Os => true,
        FieldId::Kernel => c.show_kernel,
        FieldId::Uptime => c.show_uptime,
        FieldId::Shell => c.show_shell,
        FieldId::De => c.show_de,
        FieldId::Init => c.show_init,
        FieldId::Terminal => c.show_terminal,
        FieldId::Locale => c.show_locale,
        FieldId::Model => c.show_model,
        FieldId::Motherboard => c.show_motherboard,
        FieldId::Bios => c.show_bios,
        FieldId::Cpu => c.show_cpu,
        FieldId::CpuCores => c.show_cpu_cores,
        FieldId::CpuCache => c.show_cpu_cache,
        FieldId::CpuFreq => c.show_cpu_freq,
        FieldId::CpuTemp => c.show_cpu_temp && !c.fast_mode,
        FieldId::Memory => c.show_memory || c.show_swap,
        FieldId::Swap => c.show_memory || c.show_swap,
        FieldId::Battery => c.show_battery,
        FieldId::Processes => c.show_processes,
        FieldId::Users => c.show_users,
        FieldId::Entropy => c.show_entropy,
        FieldId::Gpu => c.show_gpu || c.show_gpu_vram,
        FieldId::GpuTemps => c.show_gpu && !c.fast_mode,
        FieldId::GpuVram => c.show_gpu || c.show_gpu_vram,
        FieldId::Packages => c.show_packages,
        FieldId::Partitions => c.show_partitions,
        FieldId::BootTime => c.show_boot_time,
        FieldId::Bootloader => c.show_bootloader,
        FieldId::Wm => c.show_wm,
        FieldId::PublicIp => c.show_public_ip && !c.fast_mode,
        FieldId::FailedUnits => c.show_failed_units,
        FieldId::Theme => c.show_theme || c.show_icons || c.show_font,
        FieldId::Icons => c.show_theme || c.show_icons || c.show_font,
        FieldId::Font => c.show_theme || c.show_icons || c.show_font,
        FieldId::Display => c.show_display || c.show_resolution,
        FieldId::Resolution => c.show_display || c.show_resolution,
        FieldId::Network => c.show_network,
    }
}

// ---------------------------------------------------------------------------
// Completion detector
// ---------------------------------------------------------------------------

impl Report {
    /// Whether this snapshot is terminal for the run: every slot the
    /// configuration asks for has been delivered, a value or the definite
    /// news that none is available.
    pub fn is_complete(&self, c: &Config) -> (r: bool)
        ensures
            r == forall|f: FieldId| enabled(c, f) ==> self.reported(f),
    {
        let r =
            self.env.user.done &&
            self.env.hostname.done &&
            self.env.os.done &&
            (!(c.show_kernel) || self.env.kernel.done) &&
            (!(c.show_uptime) || self.env.uptime.done) &&
            (!(c.show_shell) || self.env.shell.done) &&
            (!(c.show_de) || self.env.de.done) &&
            (!(c.show_init) || self.env.init.done) &&
            (!(c.show_terminal) || self.env.terminal.done) &&
            (!(c.show_locale) || self.env.locale.done) &&
            (!(c.show_model) || self.env.model.done) &&
            (!(c.show_motherboard) || self.env.motherboard.done) &&
            (!(c.show_bios) || self.env.bios.done) &&
            (!(c.show_cpu) || self.cpu_mem.cpu.done) &&
            (!(c.show_cpu_cores) || self.cpu_mem.cpu_cores.done) &&
            (!(c.show_cpu_cache) || self.cpu_mem.cpu_cache.done) &&
            (!(c.show_cpu_freq) || self.cpu_mem.cpu_freq.done) &&
            (!(c.show_cpu_temp && !c.fast_mode) || self.cpu_mem.cpu_temp.done) &&
            (!(c.show_memory || c.show_swap) || self.cpu_mem.memory.done) &&
            (!(c.show_memory || c.show_swap) || self.cpu_mem.swap.done) &&
            (!(c.show_battery) || self.cpu_mem.battery.done) &&
            (!(c.show_processes) || self.cpu_mem.processes.done) &&
            (!(c.show_users) || self.cpu_mem.users.done) &&
            (!(c.show_entropy) || self.cpu_mem.entropy.done) &&
            (!(c.show_gpu || c.show_gpu_vram) || self.gpu.gpu.done) &&
            (!(c.show_gpu && !c.fast_mode) || self.gpu.gpu_temps.done) &&
            (!(c.show_gpu || c.show_gpu_vram) || self.gpu.gpu_vram.done) &&
            (!(c.show_packages) || self.pkg.packages.done) &&
            (!(c.show_partitions) || self.pkg.partitions.done) &&
            (!(c.show_boot_time) || self.pkg.boot_time.done) &&
            (!(c.show_bootloader) || self.pkg.bootloader.done) &&
            (!(c.show_wm) || self.pkg.wm.done) &&
            (!(c.show_public_ip && !c.fast_mode) || self.pkg.public_ip.done) &&
            (!(c.show_failed_units) || self.pkg.failed_units.done) &&
            (!(c.show_theme || c.show_icons || c.show_font) || self.pkg.theme.done) &&
            (!(c.show_theme || c.show_icons || c.show_font) || self.pkg.icons.done) &&
            (!(c.show_theme || c.show_icons || c.show_font) || self.pkg.font.done) &&
            (!(c.show_display || c.show_resolution) || self.disp.display.done) &&
            (!(c.show_display || c.show_resolution) || self.disp.resolution.done) &&
            (!(c.show_network) || self.net.network.done);
        proof {
            if !self.env.user.done {
                assert(enabled(c, FieldId::User) && !self.reported(FieldId::User));
            } else if !self.env.hostname.done {
                assert(enabled(c, FieldId::Hostname) && !self.reported(FieldId::Hostname));
            } else if !self.env.os.done {
                assert(enabled(c, FieldId::Os) && !self.reported(FieldId::Os));
            } else if (c.show_kernel) && !self.env.kernel.done {
                assert(enabled(c, FieldId::Kernel) && !self.reported(FieldId::Kernel));
            } else if (c.show_uptime) && !self.env.uptime.done {
                assert(enabled(c, FieldId::Uptime) && !self.reported(FieldId::Uptime));
            } else if (c.show_shell) && !self.env.shell.done {
                assert(enabled(c, FieldId::Shell) && !self.reported(FieldId::Shell));
            } else if (c.show_de) && !self.env.de.done {
                assert(enabled(c, FieldId::De) && !self.reported(FieldId::De));
            } else if (c.show_init) && !self.env.init.done {
                assert(enabled(c, FieldId::Init) && !self.reported(FieldId::Init));
            } else if (c.show_terminal) && !self.env.terminal.done {
                assert(enabled(c, FieldId::Terminal) && !self.reported(FieldId::Terminal));
            } else if (c.show_locale) && !self.env.locale.done {
                assert(enabled(c, FieldId::Locale) && !self.reported(FieldId::Locale));
            } else if (c.show_model) && !self.env.model.done {
                assert(enabled(c, FieldId::Model) && !self.reported(FieldId::Model));
            } else if (c.show_motherboard) && !self.env.motherboard.done {
                assert(enabled(c, FieldId::Motherboard) && !self.reported(FieldId::Motherboard));
            } else if (c.show_bios) && !self.env.bios.done {
                assert(enabled(c, FieldId::Bios) && !self.reported(FieldId::Bios));
            } else if (c.show_cpu) && !self.cpu_mem.cpu.done {
                assert(enabled(c, FieldId::Cpu) && !self.reported(FieldId::Cpu));
            } else if (c.show_cpu_cores) && !self.cpu_mem.cpu_cores.done {
                assert(enabled(c, FieldId::CpuCores) && !self.reported(FieldId::CpuCores));
            } else if (c.show_cpu_cache) && !self.cpu_mem.cpu_cache.done {
                assert(enabled(c, FieldId::CpuCache) && !self.reported(FieldId::CpuCache));
            } else if (c.show_cpu_freq) && !self.cpu_mem.cpu_freq.done {
                assert(enabled(c, FieldId::CpuFreq) && !self.reported(FieldId::CpuFreq));
            } else if (c.show_cpu_temp && !c.fast_mode) && !self.cpu_mem.cpu_temp.done {
                assert(enabled(c, FieldId::CpuTemp) && !self.reported(FieldId::CpuTemp));
            } else if (c.show_memory || c.show_swap) && !self.cpu_mem.memory.done {
                assert(enabled(c, FieldId::Memory) && !self.reported(FieldId::Memory));
            } else if (c.show_memory || c.show_swap) && !self.cpu_mem.swap.done {
                assert(enabled(c, FieldId::Swap) && !self.reported(FieldId::Swap));
            } else if (c.show_battery) && !self.cpu_mem.battery.done {
                assert(enabled(c, FieldId::Battery) && !self.reported(FieldId::Battery));
            } else if (c.show_processes) && !self.cpu_mem.processes.done {
                assert(enabled(c, FieldId::Processes) && !self.reported(FieldId::Processes));
            } else if (c.show_users) && !self.cpu_mem.users.done {
                assert(enabled(c, FieldId::Users) && !self.reported(FieldId::Users));
            } else if (c.show_entropy) && !self.cpu_mem.entropy.done {
                assert(enabled(c, FieldId::Entropy) && !self.reported(FieldId::Entropy));
            } else if (c.show_gpu || c.show_gpu_vram) && !self.gpu.gpu.done {
                assert(enabled(c, FieldId::Gpu) && !self.reported(FieldId::Gpu));
            } else if (c.show_gpu && !c.fast_mode) && !self.gpu.gpu_temps.done {
                assert(enabled(c, FieldId::GpuTemps) && !self.reported(FieldId::GpuTemps));
            } else if (c.show_gpu || c.show_gpu_vram) && !self.gpu.gpu_vram.done {
                assert(enabled(c, FieldId::GpuVram) && !self.reported(FieldId::GpuVram));
            } else if (c.show_packages) && !self.pkg.packages.done {
                assert(enabled(c, FieldId::Packages) && !self.reported(FieldId::Packages));
            } else if (c.show_partitions) && !self.pkg.partitions.done {
                assert(enabled(c, FieldId::Partitions) && !self.reported(FieldId::Partitions));
            } else if (c.show_boot_time) && !self.pkg.boot_time.done {
                assert(enabled(c, FieldId::BootTime) && !self.reported(FieldId::BootTime));
            } else if (c.show_bootloader) && !self.pkg.bootloader.done {
                assert(enabled(c, FieldId::Bootloader) && !self.reported(FieldId::Bootloader));
            } else if (c.show_wm) && !self.pkg.wm.done {
                assert(enabled(c, FieldId::Wm) && !self.reported(FieldId::Wm));
            } else if (c.show_public_ip && !c.fast_mode) && !self.pkg.public_ip.done {
                assert(enabled(c, FieldId::PublicIp) && !self.reported(FieldId::PublicIp));
            } else if (c.show_failed_units) && !self.pkg.failed_units.done {
                assert(enabled(c, FieldId::FailedUnits) && !self.reported(FieldId::FailedUnits));
            } else if (c.show_theme || c.show_icons || c.show_font) && !self.pkg.theme.done {
                assert(enabled(c, FieldId::Theme) && !self.reported(FieldId::Theme));
            } else if (c.show_theme || c.show_icons || c.show_font) && !self.pkg.icons.done {
                assert(enabled(c, FieldId::Icons) && !self.reported(FieldId::Icons));
            } else if (c.show_theme || c.show_icons || c.show_font) && !self.pkg.font.done {
                assert(enabled(c, FieldId::Font) && !self.reported(FieldId::Font));
            } else if (c.show_display || c.show_resolution) && !self.disp.display.done {
                assert(enabled(c, FieldId::Display) && !self.reported(FieldId::Display));
            } else if (c.show_display || c.show_resolution) && !self.disp.resolution.done {
                assert(enabled(c, FieldId::Resolution) && !self.reported(FieldId::Resolution));
            } else if (c.show_network) && !self.net.network.done {
                assert(enabled(c, FieldId::Network) && !self.reported(FieldId::Network));
            } else {
                assert(r);
                assert forall|f: FieldId| enabled(c, f) implies self.reported(f) by {
                    match f {
                        FieldId::User => {},
                        FieldId::Hostname => {},
                        FieldId::Os => {},
                        FieldId::Kernel => {},
                        FieldId::Uptime => {},
                        FieldId::Shell => {},
                        FieldId::De => {},
                        FieldId::Init => {},
                        FieldId::Terminal => {},
                        FieldId::Locale => {},
                        FieldId::Model => {},
                        FieldId::Motherboard => {},
                        FieldId::Bios => {},
                        FieldId::Cpu => {},
                        FieldId::CpuCores => {},
                        FieldId::CpuCache => {},
                        FieldId::CpuFreq => {},
                        FieldId::CpuTemp => {},
                        FieldId::Memory => {},
                        FieldId::Swap => {},
                        FieldId::Battery => {},
                        FieldId::Processes => {},
                        FieldId::Users => {},
                        FieldId::Entropy => {},
                        FieldId::Gpu => {},
                        FieldId::GpuTemps => {},
                        FieldId::GpuVram => {},
                        FieldId::Packages => {},
                        FieldId::Partitions => {},
                        FieldId::BootTime => {},
                        FieldId::Bootloader => {},
                        FieldId::Wm => {},
                        FieldId::PublicIp => {},
                        FieldId::FailedUnits => {},
                        FieldId::Theme => {},
                        FieldId::Icons => {},
                        FieldId::Font => {},
                        FieldId::Display => {},
                        FieldId::Resolution => {},
                        FieldId::Network => {},
                    }
                }
            }
        }
        r
    }
}

// ---------------------------------------------------------------------------
// Laws of the write-once discipline
// ---------------------------------------------------------------------------

/// Write-once invariant: a slot delivered in an earlier snapshot is
/// delivered in every later snapshot of the same run, with the identical
/// value.
pub proof fn lemma_write_once(a: &Report, b: &Report, f: FieldId)
    requires
        extends(a, b),
        a.reported(f),
    ensures
        b.reported(f),
        a.field_eq(b, f),
{
    match f {
        FieldId::User => {},
        FieldId::Hostname => {},
        FieldId::Os => {},
        FieldId::Kernel => {},
        FieldId::Uptime => {},
        FieldId::Shell => {},
        FieldId::De => {},
        FieldId::Init => {},
        FieldId::Terminal => {},
        FieldId::Locale => {},
        FieldId::Model => {},
        FieldId::Motherboard => {},
        FieldId::Bios => {},
        FieldId::Cpu => {},
        FieldId::CpuCores => {},
        FieldId::CpuCache => {},
        FieldId::CpuFreq => {},
        FieldId::CpuTemp => {},
        FieldId::Memory => {},
        FieldId::Swap => {},
        FieldId::Battery => {},
        FieldId::Processes => {},
        FieldId::Users => {},
        FieldId::Entropy => {},
        FieldId::Gpu => {},
        FieldId::GpuTemps => {},
        FieldId::GpuVram => {},
        FieldId::Packages => {},
        FieldId::Partitions => {},
        FieldId::BootTime => {},
        FieldId::Bootloader => {},
        FieldId::Wm => {},
        FieldId::PublicIp => {},
        FieldId::FailedUnits => {},
        FieldId::Theme => {},
        FieldId::Icons => {},
        FieldId::Font => {},
        FieldId::Display => {},
        FieldId::Resolution => {},
        FieldId::Network => {},
    }
}

/// Monotonic completeness: the delivered slots of a later snapshot are a
/// superset of those of an earlier snapshot of the same run.
pub proof fn lemma_monotonic_completeness(a: &Report, b: &Report)
    requires
        extends(a, b),
    ensures
        a.reported_set() <= b.reported_set(),
{
    assert forall|f: FieldId| a.reported_set().contains(f) implies b.reported_set().contains(
        f,
    ) by {
        lemma_write_once(a, b, f);
    }
}

/// In a well-formed snapshot a populated slot has been delivered.
pub proof fn lemma_present_reported(a: &Report, f: FieldId)
    requires
        a.wf(),
        a.present(f),
    ensures
        a.reported(f),
{
    match f {
        FieldId::User => {},
        FieldId::Hostname => {},
        FieldId::Os => {},
        FieldId::Kernel => {},
        FieldId::Uptime => {},
        FieldId::Shell => {},
        FieldId::De => {},
        FieldId::Init => {},
        FieldId::Terminal => {},
        FieldId::Locale => {},
        FieldId::Model => {},
        FieldId::Motherboard => {},
        FieldId::Bios => {},
        FieldId::Cpu => {},
        FieldId::CpuCores => {},
        FieldId::CpuCache => {},
        FieldId::CpuFreq => {},
        FieldId::CpuTemp => {},
        FieldId::Memory => {},
        FieldId::Swap => {},
        FieldId::Battery => {},
        FieldId::Processes => {},
        FieldId::Users => {},
        FieldId::Entropy => {},
        FieldId::Gpu => {},
        FieldId::GpuTemps => {},
        FieldId::GpuVram => {},
        FieldId::Packages => {},
        FieldId::Partitions => {},
        FieldId::BootTime => {},
        FieldId::Bootloader => {},
        FieldId::Wm => {},
        FieldId::PublicIp => {},
        FieldId::FailedUnits => {},
        FieldId::Theme => {},
        FieldId::Icons => {},
        FieldId::Font => {},
        FieldId::Display => {},
        FieldId::Resolution => {},
        FieldId::Network => {},
    }
}

/// Write-once invariant over populated fields: a field populated in an
/// earlier well-formed snapshot is populated in every later snapshot of
/// the same run, with the identical value.
pub proof fn lemma_populated_write_once(a: &Report, b: &Report, f: FieldId)
    requires
        a.wf(),
        extends(a, b),
        a.present(f),
    ensures
        b.present(f),
        a.field_eq(b, f),
{
    lemma_present_reported(a, f);
    lemma_write_once(a, b, f);
    match f {
        FieldId::User => {},
        FieldId::Hostname => {},
        FieldId::Os => {},
        FieldId::Kernel => {},
        FieldId::Uptime => {},
        FieldId::Shell => {},
        FieldId::De => {},
        FieldId::Init => {},
        FieldId::Terminal => {},
        FieldId::Locale => {},
        FieldId::Model => {},
        FieldId::Motherboard => {},
        FieldId::Bios => {},
        FieldId::Cpu => {},
        FieldId::CpuCores => {},
        FieldId::CpuCache => {},
        FieldId::CpuFreq => {},
        FieldId::CpuTemp => {},
        FieldId::Memory => {},
        FieldId::Swap => {},
        FieldId::Battery => {},
        FieldId::Processes => {},
        FieldId::Users => {},
        FieldId::Entropy => {},
        FieldId::Gpu => {},
        FieldId::GpuTemps => {},
        FieldId::GpuVram => {},
        FieldId::Packages => {},
        FieldId::Partitions => {},
        FieldId::BootTime => {},
        FieldId::Bootloader => {},
        FieldId::Wm => {},
        FieldId::PublicIp => {},
        FieldId::FailedUnits => {},
        FieldId::Theme => {},
        FieldId::Icons => {},
        FieldId::Font => {},
        FieldId::Display => {},
        FieldId::Resolution => {},
        FieldId::Network => {},
    }
}

/// Monotonic completeness over populated fields: the populated fields of
/// a later snapshot are a superset of those of an earlier well-formed
/// snapshot of the same run.
pub proof fn lemma_populated_monotonic(a: &Report, b: &Report)
    requires
        a.wf(),
        extends(a, b),
    ensures
        a.present_set() <= b.present_set(),
{
    assert forall|f: FieldId| a.present_set().contains(f) implies b.present_set().contains(
        f,
    ) by {
        lemma_populated_write_once(a, b, f);
    }
}

/// The snapshot order is transitive, so the discipline holds across any
/// chain of snapshots, not only adjacent ones.
pub proof fn lemma_extends_trans(a: &Report, b: &Report, c: &Report)
    requires
        extends(a, b),
        extends(b, c),
    ensures
        extends(a, c),
{
}

/// The snapshot order is reflexive.
pub proof fn lemma_extends_refl(a: &Report)
    ensures
        extends(a, a),
{
}

/// Completion never reverts: once the completion detector holds of a
/// snapshot, it holds of every later snapshot of the same run.
pub proof fn lemma_completion_monotonic(a: &Report, b: &Report, c: &Config)
    requires
        extends(a, b),
        forall|f: FieldId| enabled(c, f) ==> a.reported(f),
    ensures
        forall|f: FieldId| enabled(c, f) ==> b.reported(f),
{
    assert forall|f: FieldId| enabled(c, f) implies b.reported(f) by {
        lemma_write_once(a, b, f);
    }
}

/// Whether unit `u` owns slot `f`.
pub open spec fn unit_of_is(f: FieldId, u: UnitId) -> bool {
    unit_of(f) == u
}

/// Disjointness of dispatch: each slot is owned by exactly one unit of
/// work -- `unit_of` is total, so the owned sets cover every slot and no
/// slot is owned twice.
pub proof fn lemma_dispatch_partition(f: FieldId, u1: UnitId, u2: UnitId)
    ensures
        unit_of_is(f, u1) && unit_of_is(f, u2) ==> u1 == u2,
        exists|u: UnitId| #[trigger] unit_of_is(f, u),
{
    assert(unit_of_is(f, unit_of(f)));
}

} // verus!
