use rustfetch::colors::ColorScheme;
use rustfetch::config::Config;
use rustfetch::dispatch::{AssemblyOut, CpuMemoryOut, DisplayOut, EnvFilesOut, GpuOut,
    PackagesBootOut};
use rustfetch::driver::{Driver, DriverState, Mode};
use rustfetch::logo::get_logo;
use rustfetch::render::render;
use rustfetch::report::{Report, UnitId};

fn minimal_config() -> Config {
    let mut c = Config::default();
    c.use_color = false;
    c.show_kernel = false;
    c.show_uptime = false;
    c.show_boot_time = false;
    c.show_bootloader = false;
    c.show_packages = false;
    c.show_shell = false;
    c.show_de = false;
    c.show_wm = false;
    c.show_init = false;
    c.show_terminal = false;
    c.show_cpu = false;
    c.show_cpu_temp = false;
    c.show_gpu = false;
    c.show_memory = false;
    c.show_swap = false;
    c.show_partitions = false;
    c.show_network = false;
    c.show_display = false;
    c.show_battery = false;
    c.show_colors = false;
    c.show_model = false;
    c.show_motherboard = false;
    c.show_bios = false;
    c.show_theme = false;
    c.show_icons = false;
    c.show_font = false;
    c.show_processes = false;
    c.show_cpu_freq = false;
    c.show_locale = false;
    c.show_public_ip = false;
    c.show_cpu_cores = false;
    c.show_cpu_cache = false;
    c.show_gpu_vram = false;
    c.show_resolution = false;
    c.show_entropy = false;
    c.show_users = false;
    c.show_failed_units = false;
    c
}

fn env_out(user: &str, host: &str, os: &str) -> EnvFilesOut {
    EnvFilesOut {
        user: Some(user.to_string()),
        hostname: Some(host.to_string()),
        os: Some(os.to_string()),
        kernel: None,
        uptime: None,
        shell: None,
        de: None,
        init: None,
        terminal: None,
        locale: None,
        model: None,
        motherboard: None,
        bios: None,
    }
}

fn empty_cpu_out() -> CpuMemoryOut {
    CpuMemoryOut {
        cpu: None,
        cpu_cores: None,
        cpu_cache: None,
        cpu_freq: None,
        cpu_temp: None,
        memory: None,
        swap: None,
        battery: None,
        processes: None,
        users: None,
        entropy: None,
    }
}

fn empty_pkg_out() -> PackagesBootOut {
    PackagesBootOut {
        packages: None,
        partitions: None,
        boot_time: None,
        bootloader: None,
        wm: None,
        public_ip: None,
        failed_units: None,
        theme: None,
        icons: None,
        font: None,
    }
}

fn apply_all(report: Report, c: &Config, env: EnvFilesOut, cpu: CpuMemoryOut) -> Report {
    report
        .apply_env_and_files(c, env)
        .apply_cpu_memory(c, cpu)
        .apply_gpu(c, GpuOut { gpu: None, gpu_temps: None, gpu_vram: None })
        .apply_packages_boot(c, empty_pkg_out())
        .apply_display(c, DisplayOut { display: None, resolution: None })
        .apply_assembly(c, AssemblyOut { network: None })
}

#[test]
fn write_once_keeps_first_value() {
    let c = minimal_config();
    let r = Report::new();
    let r = r.apply_env_and_files(&c, env_out("alice", "box", "Linux"));
    assert_eq!(r.env.os.value.as_deref(), Some("Linux"));
    // a second delivery must not overwrite the slot
    let r = r.apply_env_and_files(&c, env_out("bob", "other", "Other"));
    assert_eq!(r.env.user.value.as_deref(), Some("alice"));
    assert_eq!(r.env.hostname.value.as_deref(), Some("box"));
    assert_eq!(r.env.os.value.as_deref(), Some("Linux"));
}

#[test]
fn monotonic_completeness_concrete() {
    let c = minimal_config();
    let r0 = Report::new();
    assert!(!r0.env.user.done);
    let r1 = r0.apply_env_and_files(&c, env_out("alice", "box", "Linux"));
    assert!(r1.env.user.done && r1.env.os.done);
    let r2 = r1.apply_cpu_memory(&c, empty_cpu_out());
    // everything delivered in r1 is still delivered and identical in r2
    assert!(r2.env.user.done && r2.env.os.done);
    assert_eq!(r2.env.os.value.as_deref(), Some("Linux"));
}

#[test]
fn completion_requires_every_unit() {
    let mut c = minimal_config();
    c.show_memory = true;
    let r = Report::new();
    assert!(!r.is_complete(&c));
    let r = r.apply_env_and_files(&c, env_out("alice", "box", "Linux"));
    // the identity trio is in, but the requested memory pair is not
    assert!(!r.is_complete(&c));
    let r = apply_all(Report::new(), &c, env_out("alice", "box", "Linux"), empty_cpu_out());
    assert!(r.is_complete(&c));
}

#[test]
fn completion_is_not_fooled_by_missing_unit() {
    let mut c = minimal_config();
    c.show_cpu = true;
    let r = Report::new()
        .apply_env_and_files(&c, env_out("alice", "box", "Linux"))
        .apply_gpu(&c, GpuOut { gpu: None, gpu_temps: None, gpu_vram: None })
        .apply_packages_boot(&c, empty_pkg_out())
        .apply_display(&c, DisplayOut { display: None, resolution: None })
        .apply_assembly(&c, AssemblyOut { network: None });
    // the cpu/memory unit never delivered, so the requested CPU slot is open
    assert!(!r.is_complete(&c));
}

#[test]
fn disabled_fields_are_never_written() {
    // a dispatch only writes the enabled fields plus the identity trio:
    // with the kernel and CPU fields off, their results are discarded
    let c = minimal_config();
    let mut env = env_out("alice", "box", "Linux");
    env.kernel = Some("6.1.0".to_string());
    let mut cpu = empty_cpu_out();
    cpu.cpu = Some("Some CPU".to_string());
    let r = apply_all(Report::new(), &c, env, cpu);
    assert!(!r.env.kernel.done);
    assert_eq!(r.env.kernel.value, None);
    assert!(!r.cpu_mem.cpu.done);
    assert_eq!(r.cpu_mem.cpu.value, None);
    // and the run is still complete without them
    assert!(r.is_complete(&c));
}

#[test]
fn enabled_kernel_is_gathered_and_required() {
    let mut c = minimal_config();
    c.show_kernel = true;
    let r = Report::new().apply_env_and_files(&c, {
        let mut env = env_out("alice", "box", "Linux");
        env.kernel = Some("6.1.0".to_string());
        env
    });
    assert!(r.env.kernel.done);
    assert_eq!(r.env.kernel.value.as_deref(), Some("6.1.0"));
}

#[test]
fn cpuinfo_is_planned_only_when_a_cpu_field_is_enabled() {
    let c = minimal_config();
    assert!(!rustfetch::dispatch::unit_source_plan(UnitId::CpuMemory, &c).cpuinfo);
    assert!(!rustfetch::dispatch::unit_source_plan(UnitId::CpuMemory, &c).scaling_freq);
    let mut c2 = minimal_config();
    c2.show_cpu = true;
    assert!(rustfetch::dispatch::unit_source_plan(UnitId::CpuMemory, &c2).cpuinfo);
    let mut c3 = minimal_config();
    c3.show_cpu_freq = true;
    assert!(rustfetch::dispatch::unit_source_plan(UnitId::CpuMemory, &c3).scaling_freq);
}

#[test]
fn meminfo_is_planned_once() {
    let mut c = minimal_config();
    c.show_memory = true;
    c.show_swap = true;
    let mut meminfo_reads = 0;
    for u in [
        UnitId::EnvAndFiles,
        UnitId::CpuMemory,
        UnitId::Gpu,
        UnitId::PackagesBoot,
        UnitId::DisplayNet,
        UnitId::Assembly,
    ] {
        if rustfetch::dispatch::unit_source_plan(u, &c).meminfo {
            meminfo_reads += 1;
        }
    }
    assert_eq!(meminfo_reads, 1);
}

#[test]
fn shared_meminfo_read_fills_both_slots() {
    let mut reads = 0;
    let read_meminfo = |n: &mut i32| -> Option<String> {
        *n += 1;
        Some(
            "MemTotal:       16000000 kB\nMemAvailable:    8000000 kB\nSwapTotal:       \
             4000000 kB\nSwapFree:        4000000 kB\n"
                .to_string(),
        )
    };
    let (mem, swap) = rustfetch::probes::get_memory_and_swap(read_meminfo(&mut reads));
    assert_eq!(reads, 1);
    assert_eq!(mem, Some((8000000, 16000000)));
    assert_eq!(swap, Some((0, 4000000)));
}

#[test]
fn render_is_deterministic() {
    let c = minimal_config();
    let r = apply_all(Report::new(), &c, env_out("alice", "box", "Linux"), empty_cpu_out());
    let cs1 = ColorScheme::new(&c);
    let cs2 = ColorScheme::new(&c);
    let logo = get_logo("Linux");
    let f1 = render(&r, &c, &logo, &cs1, 100);
    let f2 = render(&r, &c, &logo, &cs2, 100);
    assert_eq!(f1, f2);
}

#[test]
fn scenario_os_and_hostname_only() {
    // a run asking only for the identity header and the OS line
    let mut c = minimal_config();
    c.show_os = true;
    let report = apply_all(Report::new(), &c, env_out("alice", "box", "Linux"),
        empty_cpu_out());
    assert!(report.is_complete(&c));

    let cs = ColorScheme::new(&c);
    let logo = get_logo("Linux");
    let mut driver = Driver::start(Mode::Progressive);
    let erase0 = driver.begin_frame();
    assert_eq!(erase0, 0);
    let frame = render(&report, &c, &logo, &cs, 120);
    driver.end_frame(frame.len(), report.is_complete(&c));
    assert!(driver.is_done());

    // header (2 lines) plus exactly the OS line
    let info: Vec<&String> = frame.iter().filter(|l| !l.trim_end().is_empty()).collect();
    assert!(frame.iter().any(|l| l.contains("OS: Linux")));
    assert!(frame.iter().any(|l| l.contains("alice@box")));
    assert_eq!(frame.len(), get_logo("Linux").len().max(3));
    assert!(info.len() >= 3);
}

#[test]
fn scenario_missing_cpu_probe() {
    // the CPU probe failed: its slot is delivered empty, nothing is shown,
    // and the run still completes
    let mut c = minimal_config();
    c.show_cpu = true;
    let report = apply_all(Report::new(), &c, env_out("alice", "box", "Linux"),
        empty_cpu_out());
    assert!(report.is_complete(&c));
    let cs = ColorScheme::new(&c);
    let logo = get_logo("Linux");
    let frame = render(&report, &c, &logo, &cs, 120);
    assert!(!frame.iter().any(|l| l.contains("CPU:")));

    let mut driver = Driver::start(Mode::Progressive);
    let _ = driver.begin_frame();
    driver.end_frame(frame.len(), report.is_complete(&c));
    assert!(driver.is_done());
}

#[test]
fn progressive_erases_previous_frame_line_count() {
    let mut driver = Driver::start(Mode::Progressive);
    assert_eq!(driver.begin_frame(), 0);
    driver.end_frame(17, false);
    assert_eq!(driver.state, DriverState::WaitingForNextTick);
    assert_eq!(driver.begin_frame(), 17);
    driver.end_frame(19, false);
    assert_eq!(driver.begin_frame(), 19);
    driver.end_frame(19, true);
    assert!(driver.is_done());
}

#[test]
fn static_mode_renders_once() {
    let mut driver = Driver::start(Mode::Static);
    assert_eq!(driver.begin_frame(), 0);
    driver.end_frame(25, false);
    assert!(driver.is_done());
}
