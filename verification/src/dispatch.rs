//! The dispatcher's side of the engine: what each unit of work gathers,
//! how its results enter the shared accumulator, and which underlying
//! data sources it reads.
//!
//! Each unit owns one group of slots (see `unit_of` and the groups of
//! `Report`); its `apply` function below delivers results only into that
//! group, one `Slot::deliver` per slot, so applying results always
//! extends the snapshot in the write-once order.

use vstd::prelude::*;

use crate::config::Config;
use crate::report::{delivered, enabled, extends, CpuMemSlots, DispSlots, EnvSlots, FieldId,
    GpuSlots, NetSlots, NetworkInfo, Partition, PkgSlots, Report, UnitId};

verus! {

/// Results gathered by the `EnvAndFiles` unit of work.
pub struct EnvFilesOut {
    pub user: Option<String>,
    pub hostname: Option<String>,
    pub os: Option<String>,
    pub kernel: Option<String>,
    pub uptime: Option<String>,
    pub shell: Option<String>,
    pub de: Option<String>,
    pub init: Option<String>,
    pub terminal: Option<String>,
    pub locale: Option<String>,
    pub model: Option<String>,
    pub motherboard: Option<String>,
    pub bios: Option<String>,
}

/// Results gathered by the `CpuMemory` unit of work.
pub struct CpuMemoryOut {
    pub cpu: Option<String>,
    pub cpu_cores: Option<(usize, usize)>,
    pub cpu_cache: Option<String>,
    pub cpu_freq: Option<String>,
    pub cpu_temp: Option<String>,
    pub memory: Option<(u64, u64)>,
    pub swap: Option<(u64, u64)>,
    pub battery: Option<(u8, String)>,
    pub processes: Option<usize>,
    pub users: Option<usize>,
    pub entropy: Option<String>,
}

/// Results gathered by the `Gpu` unit of work.
pub struct GpuOut {
    pub gpu: Option<Vec<String>>,
    pub gpu_temps: Option<Vec<Option<String>>>,
    pub gpu_vram: Option<Vec<String>>,
}

/// Results gathered by the `PackagesBoot` unit of work.
pub struct PackagesBootOut {
    pub packages: Option<String>,
    pub partitions: Option<Vec<Partition>>,
    pub boot_time: Option<String>,
    pub bootloader: Option<String>,
    pub wm: Option<String>,
    pub public_ip: Option<String>,
    pub failed_units: Option<usize>,
    pub theme: Option<String>,
    pub icons: Option<String>,
    pub font: Option<String>,
}

/// Results gathered by the `DisplayNet` unit of work.
pub struct DisplayOut {
    pub display: Option<String>,
    pub resolution: Option<String>,
}

/// Results gathered by the `Assembly` unit of work.
pub struct AssemblyOut {
    pub network: Option<Vec<NetworkInfo>>,
}

impl Report {
    /// Delivers the `EnvAndFiles` unit's results into its own slot
    /// group; the other groups are returned untouched.
    pub fn apply_env_and_files(self, c: &Config, out: EnvFilesOut) -> (r: Report)
        ensures
            r.env.user == delivered(self.env.user, true, out.user),
            r.env.hostname == delivered(self.env.hostname, true, out.hostname),
            r.env.os == delivered(self.env.os, true, out.os),
            r.env.kernel == delivered(self.env.kernel, c.show_kernel, out.kernel),
            r.env.uptime == delivered(self.env.uptime, c.show_uptime, out.uptime),
            r.env.shell == delivered(self.env.shell, c.show_shell, out.shell),
            r.env.de == delivered(self.env.de, c.show_de, out.de),
            r.env.init == delivered(self.env.init, c.show_init, out.init),
            r.env.terminal == delivered(self.env.terminal, c.show_terminal, out.terminal),
            r.env.locale == delivered(self.env.locale, c.show_locale, out.locale),
            r.env.model == delivered(self.env.model, c.show_model, out.model),
            r.env.motherboard == delivered(self.env.motherboard, c.show_motherboard, out.motherboard),
            r.env.bios == delivered(self.env.bios, c.show_bios, out.bios),
            r.cpu_mem == self.cpu_mem,
            r.gpu == self.gpu,
            r.pkg == self.pkg,
            r.disp == self.disp,
            r.net == self.net,
            extends(&self, &r),
            self.wf() ==> r.wf(),
    {
        let Report { env, cpu_mem, gpu, pkg, disp, net } = self;
        let EnvSlots { user, hostname, os, kernel, uptime, shell, de, init, terminal, locale, model, motherboard, bios } = env;
        let user = user.deliver(true, out.user);
        let hostname = hostname.deliver(true, out.hostname);
        let os = os.deliver(true, out.os);
        let kernel = kernel.deliver(c.show_kernel, out.kernel);
        let uptime = uptime.deliver(c.show_uptime, out.uptime);
        let shell = shell.deliver(c.show_shell, out.shell);
        let de = de.deliver(c.show_de, out.de);
        let init = init.deliver(c.show_init, out.init);
        let terminal = terminal.deliver(c.show_terminal, out.terminal);
        let locale = locale.deliver(c.show_locale, out.locale);
        let model = model.deliver(c.show_model, out.model);
        let motherboard = motherboard.deliver(c.show_motherboard, out.motherboard);
        let bios = bios.deliver(c.show_bios, out.bios);
        let env = EnvSlots { user, hostname, os, kernel, uptime, shell, de, init, terminal, locale, model, motherboard, bios };
        Report { env, cpu_mem, gpu, pkg, disp, net }
    }

    /// Delivers the `CpuMemory` unit's results into its own slot
    /// group; the other groups are returned untouched.
    pub fn apply_cpu_memory(self, c: &Config, out: CpuMemoryOut) -> (r: Report)
        ensures
            r.cpu_mem.cpu == delivered(self.cpu_mem.cpu, c.show_cpu, out.cpu),
            r.cpu_mem.cpu_cores == delivered(self.cpu_mem.cpu_cores, c.show_cpu_cores, out.cpu_cores),
            r.cpu_mem.cpu_cache == delivered(self.cpu_mem.cpu_cache, c.show_cpu_cache, out.cpu_cache),
            r.cpu_mem.cpu_freq == delivered(self.cpu_mem.cpu_freq, c.show_cpu_freq, out.cpu_freq),
            r.cpu_mem.cpu_temp == delivered(self.cpu_mem.cpu_temp, c.show_cpu_temp && !c.fast_mode, out.cpu_temp),
            r.cpu_mem.memory == delivered(self.cpu_mem.memory, c.show_memory || c.show_swap, out.memory),
            r.cpu_mem.swap == delivered(self.cpu_mem.swap, c.show_memory || c.show_swap, out.swap),
            r.cpu_mem.battery == delivered(self.cpu_mem.battery, c.show_battery, out.battery),
            r.cpu_mem.processes == delivered(self.cpu_mem.processes, c.show_processes, out.processes),
            r.cpu_mem.users == delivered(self.cpu_mem.users, c.show_users, out.users),
            r.cpu_mem.entropy == delivered(self.cpu_mem.entropy, c.show_entropy, out.entropy),
            r.env == self.env,
            r.gpu == self.gpu,
            r.pkg == self.pkg,
            r.disp == self.disp,
            r.net == self.net,
            extends(&self, &r),
            self.wf() ==> r.wf(),
    {
        let Report { env, cpu_mem, gpu, pkg, disp, net } = self;
        let CpuMemSlots { cpu, cpu_cores, cpu_cache, cpu_freq, cpu_temp, memory, swap, battery, processes, users, entropy } = cpu_mem;
        let cpu = cpu.deliver(c.show_cpu, out.cpu);
        let cpu_cores = cpu_cores.deliver(c.show_cpu_cores, out.cpu_cores);
        let cpu_cache = cpu_cache.deliver(c.show_cpu_cache, out.cpu_cache);
        let cpu_freq = cpu_freq.deliver(c.show_cpu_freq, out.cpu_freq);
        let cpu_temp = cpu_temp.deliver(c.show_cpu_temp && !c.fast_mode, out.cpu_temp);
        let memory = memory.deliver(c.show_memory || c.show_swap, out.memory);
        let swap = swap.deliver(c.show_memory || c.show_swap, out.swap);
        let battery = battery.deliver(c.show_battery, out.battery);
        let processes = processes.deliver(c.show_processes, out.processes);
        let users = users.deliver(c.show_users, out.users);
        let entropy = entropy.deliver(c.show_entropy, out.entropy);
        let cpu_mem = CpuMemSlots { cpu, cpu_cores, cpu_cache, cpu_freq, cpu_temp, memory, swap, battery, processes, users, entropy };
        Report { env, cpu_mem, gpu, pkg, disp, net }
    }

    /// Delivers the `Gpu` unit's results into its own slot
    /// group; the other groups are returned untouched.
    pub fn apply_gpu(self, c: &Config, out: GpuOut) -> (r: Report)
        ensures
            r.gpu.gpu == delivered(self.gpu.gpu, c.show_gpu || c.show_gpu_vram, out.gpu),
            r.gpu.gpu_temps == delivered(self.gpu.gpu_temps, c.show_gpu && !c.fast_mode, out.gpu_temps),
            r.gpu.gpu_vram == delivered(self.gpu.gpu_vram, c.show_gpu || c.show_gpu_vram, out.gpu_vram),
            r.env == self.env,
            r.cpu_mem == self.cpu_mem,
            r.pkg == self.pkg,
            r.disp == self.disp,
            r.net == self.net,
            extends(&self, &r),
            self.wf() ==> r.wf(),
    {
        let Report { env, cpu_mem, gpu, pkg, disp, net } = self;
        let GpuSlots { gpu, gpu_temps, gpu_vram } = gpu;
        let gpu = gpu.deliver(c.show_gpu || c.show_gpu_vram, out.gpu);
        let gpu_temps = gpu_temps.deliver(c.show_gpu && !c.fast_mode, out.gpu_temps);
        let gpu_vram = gpu_vram.deliver(c.show_gpu || c.show_gpu_vram, out.gpu_vram);
        let gpu = GpuSlots { gpu, gpu_temps, gpu_vram };
        Report { env, cpu_mem, gpu, pkg, disp, net }
    }

    /// Delivers the `PackagesBoot` unit's results into its own slot
    /// group; the other groups are returned untouched.
    pub fn apply_packages_boot(self, c: &Config, out: PackagesBootOut) -> (r: Report)
        ensures
            r.pkg.packages == delivered(self.pkg.packages, c.show_packages, out.packages),
            r.pkg.partitions == delivered(self.pkg.partitions, c.show_partitions, out.partitions),
            r.pkg.boot_time == delivered(self.pkg.boot_time, c.show_boot_time, out.boot_time),
            r.pkg.bootloader == delivered(self.pkg.bootloader, c.show_bootloader, out.bootloader),
            r.pkg.wm == delivered(self.pkg.wm, c.show_wm, out.wm),
            r.pkg.public_ip == delivered(self.pkg.public_ip, c.show_public_ip && !c.fast_mode, out.public_ip),
            r.pkg.failed_units == delivered(self.pkg.failed_units, c.show_failed_units, out.failed_units),
            r.pkg.theme == delivered(self.pkg.theme, c.show_theme || c.show_icons || c.show_font, out.theme),
            r.pkg.icons == delivered(self.pkg.icons, c.show_theme || c.show_icons || c.show_font, out.icons),
            r.pkg.font == delivered(self.pkg.font, c.show_theme || c.show_icons || c.show_font, out.font),
            r.env == self.env,
            r.cpu_mem == self.cpu_mem,
            r.gpu == self.gpu,
            r.disp == self.disp,
            r.net == self.net,
            extends(&self, &r),
            self.wf() ==> r.wf(),
    {
        let Report { env, cpu_mem, gpu, pkg, disp, net } = self;
        let PkgSlots { packages, partitions, boot_time, bootloader, wm, public_ip, failed_units, theme, icons, font } = pkg;
        let packages = packages.deliver(c.show_packages, out.packages);
        let partitions = partitions.deliver(c.show_partitions, out.partitions);
        let boot_time = boot_time.deliver(c.show_boot_time, out.boot_time);
        let bootloader = bootloader.deliver(c.show_bootloader, out.bootloader);
        let wm = wm.deliver(c.show_wm, out.wm);
        let public_ip = public_ip.deliver(c.show_public_ip && !c.fast_mode, out.public_ip);
        let failed_units = failed_units.deliver(c.show_failed_units, out.failed_units);
        let theme = theme.deliver(c.show_theme || c.show_icons || c.show_font, out.theme);
        let icons = icons.deliver(c.show_theme || c.show_icons || c.show_font, out.icons);
        let font = font.deliver(c.show_theme || c.show_icons || c.show_font, out.font);
        let pkg = PkgSlots { packages, partitions, boot_time, bootloader, wm, public_ip, failed_units, theme, icons, font };
        Report { env, cpu_mem, gpu, pkg, disp, net }
    }

    /// Delivers the `DisplayNet` unit's results into its own slot
    /// group; the other groups are returned untouched.
    pub fn apply_display(self, c: &Config, out: DisplayOut) -> (r: Report)
        ensures
            r.disp.display == delivered(self.disp.display, c.show_display || c.show_resolution, out.display),
            r.disp.resolution == delivered(self.disp.resolution, c.show_display || c.show_resolution, out.resolution),
            r.env == self.env,
            r.cpu_mem == self.cpu_mem,
            r.gpu == self.gpu,
            r.pkg == self.pkg,
            r.net == self.net,
            extends(&self, &r),
            self.wf() ==> r.wf(),
    {
        let Report { env, cpu_mem, gpu, pkg, disp, net } = self;
        let DispSlots { display, resolution } = disp;
        let display = display.deliver(c.show_display || c.show_resolution, out.display);
        let resolution = resolution.deliver(c.show_display || c.show_resolution, out.resolution);
        let disp = DispSlots { display, resolution };
        Report { env, cpu_mem, gpu, pkg, disp, net }
    }

    /// Delivers the `Assembly` unit's results into its own slot
    /// group; the other groups are returned untouched.
    pub fn apply_assembly(self, c: &Config, out: AssemblyOut) -> (r: Report)
        ensures
            r.net.network == delivered(self.net.network, c.show_network, out.network),
            r.env == self.env,
            r.cpu_mem == self.cpu_mem,
            r.gpu == self.gpu,
            r.pkg == self.pkg,
            r.disp == self.disp,
            extends(&self, &r),
            self.wf() ==> r.wf(),
    {
        let Report { env, cpu_mem, gpu, pkg, disp, net } = self;
        let NetSlots { network } = net;
        let network = network.deliver(c.show_network, out.network);
        let net = NetSlots { network };
        Report { env, cpu_mem, gpu, pkg, disp, net }
    }

}

// ---------------------------------------------------------------------------
// Data sources
// ---------------------------------------------------------------------------

/// The underlying data sources a run may read, at the granularity at which
/// a single read can serve several slots: one `/proc/meminfo` read yields
/// both the memory and the swap pair, one `lspci` run yields both the GPU
/// names and their video memory, and one settings read yields theme, icons
/// and font.
pub struct SourcePlan {
    pub user_env: bool,
    pub hostname_file: bool,
    pub os_release: bool,
    pub kernel_file: bool,
    pub uptime_file: bool,
    pub shell_env: bool,
    pub desktop_env: bool,
    pub init_paths: bool,
    pub terminal_chain: bool,
    pub locale_env: bool,
    pub model_files: bool,
    pub motherboard_file: bool,
    pub bios_file: bool,
    pub cpuinfo: bool,
    pub scaling_freq: bool,
    pub cpu_hwmon: bool,
    pub meminfo: bool,
    pub power_supply: bool,
    pub proc_entries: bool,
    pub login_sessions: bool,
    pub entropy_files: bool,
    pub pci_devices: bool,
    pub gpu_hwmon: bool,
    pub package_dbs: bool,
    pub mounts_usage: bool,
    pub stat_file: bool,
    pub boot_evidence: bool,
    pub wm_session: bool,
    pub public_address: bool,
    pub unit_states: bool,
    pub theme_settings: bool,
    pub session_display: bool,
    pub net_dev: bool,
}

/// Which sources the given unit of work reads under this configuration.
/// Each source is owned by one unit and read at most once per run; a
/// source serving several slots is still read once.
pub fn unit_source_plan(u: UnitId, c: &Config) -> (p: SourcePlan)
    ensures
        p.user_env == (u == UnitId::EnvAndFiles),
        p.hostname_file == (u == UnitId::EnvAndFiles),
        p.os_release == (u == UnitId::EnvAndFiles),
        p.kernel_file == (u == UnitId::EnvAndFiles && enabled(c, FieldId::Kernel)),
        p.uptime_file == (u == UnitId::EnvAndFiles && enabled(c, FieldId::Uptime)),
        p.shell_env == (u == UnitId::EnvAndFiles && enabled(c, FieldId::Shell)),
        p.desktop_env == (u == UnitId::EnvAndFiles && enabled(c, FieldId::De)),
        p.init_paths == (u == UnitId::EnvAndFiles && enabled(c, FieldId::Init)),
        p.terminal_chain == (u == UnitId::EnvAndFiles && enabled(c, FieldId::Terminal)),
        p.locale_env == (u == UnitId::EnvAndFiles && enabled(c, FieldId::Locale)),
        p.model_files == (u == UnitId::EnvAndFiles && enabled(c, FieldId::Model)),
        p.motherboard_file == (u == UnitId::EnvAndFiles && enabled(c, FieldId::Motherboard)),
        p.bios_file == (u == UnitId::EnvAndFiles && enabled(c, FieldId::Bios)),
        p.cpuinfo == (u == UnitId::CpuMemory && (enabled(c, FieldId::Cpu) || enabled(
            c,
            FieldId::CpuCores,
        ) || enabled(c, FieldId::CpuCache))),
        p.scaling_freq == (u == UnitId::CpuMemory && enabled(c, FieldId::CpuFreq)),
        p.cpu_hwmon == (u == UnitId::CpuMemory && enabled(c, FieldId::CpuTemp)),
        p.meminfo == call_plan_meminfo(u, c),
        p.power_supply == (u == UnitId::CpuMemory && enabled(c, FieldId::Battery)),
        p.proc_entries == (u == UnitId::CpuMemory && enabled(c, FieldId::Processes)),
        p.login_sessions == (u == UnitId::CpuMemory && enabled(c, FieldId::Users)),
        p.entropy_files == (u == UnitId::CpuMemory && enabled(c, FieldId::Entropy)),
        p.pci_devices == (u == UnitId::Gpu && (enabled(c, FieldId::Gpu) || enabled(
            c,
            FieldId::GpuVram,
        ))),
        p.gpu_hwmon == (u == UnitId::Gpu && enabled(c, FieldId::GpuTemps)),
        p.package_dbs == (u == UnitId::PackagesBoot && enabled(c, FieldId::Packages)),
        p.mounts_usage == (u == UnitId::PackagesBoot && enabled(c, FieldId::Partitions)),
        p.stat_file == (u == UnitId::PackagesBoot && enabled(c, FieldId::BootTime)),
        p.boot_evidence == (u == UnitId::PackagesBoot && enabled(c, FieldId::Bootloader)),
        p.wm_session == (u == UnitId::PackagesBoot && enabled(c, FieldId::Wm)),
        p.public_address == (u == UnitId::PackagesBoot && enabled(c, FieldId::PublicIp)),
        p.unit_states == (u == UnitId::PackagesBoot && enabled(c, FieldId::FailedUnits)),
        p.theme_settings == (u == UnitId::PackagesBoot && (enabled(c, FieldId::Theme)
            || enabled(c, FieldId::Icons) || enabled(c, FieldId::Font))),
        p.session_display == (u == UnitId::DisplayNet && (enabled(c, FieldId::Display)
            || enabled(c, FieldId::Resolution))),
        p.net_dev == (u == UnitId::DisplayNet && enabled(c, FieldId::Network)),
{
    let env_files = matches!(u, UnitId::EnvAndFiles);
    let cpu_mem = matches!(u, UnitId::CpuMemory);
    let gpu = matches!(u, UnitId::Gpu);
    let pkg_boot = matches!(u, UnitId::PackagesBoot);
    let disp_net = matches!(u, UnitId::DisplayNet);
    SourcePlan {
        user_env: env_files,
        hostname_file: env_files,
        os_release: env_files,
        kernel_file: env_files && c.show_kernel,
        uptime_file: env_files && c.show_uptime,
        shell_env: env_files && c.show_shell,
        desktop_env: env_files && c.show_de,
        init_paths: env_files && c.show_init,
        terminal_chain: env_files && c.show_terminal,
        locale_env: env_files && c.show_locale,
        model_files: env_files && c.show_model,
        motherboard_file: env_files && c.show_motherboard,
        bios_file: env_files && c.show_bios,
        cpuinfo: cpu_mem && (c.show_cpu || c.show_cpu_cores || c.show_cpu_cache),
        scaling_freq: cpu_mem && c.show_cpu_freq,
        cpu_hwmon: cpu_mem && c.show_cpu_temp && !c.fast_mode,
        meminfo: cpu_mem && (c.show_memory || c.show_swap),
        power_supply: cpu_mem && c.show_battery,
        proc_entries: cpu_mem && c.show_processes,
        login_sessions: cpu_mem && c.show_users,
        entropy_files: cpu_mem && c.show_entropy,
        pci_devices: gpu && (c.show_gpu || c.show_gpu_vram),
        gpu_hwmon: gpu && c.show_gpu && !c.fast_mode,
        package_dbs: pkg_boot && c.show_packages,
        mounts_usage: pkg_boot && c.show_partitions,
        stat_file: pkg_boot && c.show_boot_time,
        boot_evidence: pkg_boot && c.show_bootloader,
        wm_session: pkg_boot && c.show_wm,
        public_address: pkg_boot && c.show_public_ip && !c.fast_mode,
        unit_states: pkg_boot && c.show_failed_units,
        theme_settings: pkg_boot && (c.show_theme || c.show_icons || c.show_font),
        session_display: disp_net && (c.show_display || c.show_resolution),
        net_dev: disp_net && c.show_network,
    }
}

/// A source read by one unit is read by no other: for every source field
/// of the plan, at most one unit's plan sets it, whatever the
/// configuration. Stated here for the one source that serves two separate
/// slots of one unit -- the memory and swap pair -- which therefore is
/// read exactly once per run when either slot is enabled.
pub proof fn lemma_meminfo_read_once(c: &Config, u1: UnitId, u2: UnitId)
    ensures
        call_plan_meminfo(u1, c) && call_plan_meminfo(u2, c) ==> u1 == u2,
        call_plan_meminfo(UnitId::CpuMemory, c) == (c.show_memory || c.show_swap),
{
}

/// Whether the plan of unit `u` under `c` includes the meminfo source.
pub open spec fn call_plan_meminfo(u: UnitId, c: &Config) -> bool {
    u == UnitId::CpuMemory && (enabled(c, FieldId::Memory) || enabled(c, FieldId::Swap))
}

} // verus!
