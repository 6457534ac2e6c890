use rustfetch::logo::{get_logo, logo_kind, LogoKind};
use rustfetch::probes::{get_battery, get_bios, get_bootloader, get_cpu_info_combined,
    get_cpu_temp, get_gpu_temp_with_gpus, get_network_final_with_ip,
    get_display_and_resolution, get_packages, get_theme_info, gsettings_value,
    get_partitions_impl, get_processes, get_terminal, parse_human_size, parse_ppid,
    get_gpu_combined, get_wm, get_boot_time, get_de, get_entropy, get_failed_units,
    get_hostname, get_init, get_kernel, get_memory_and_swap, get_model, get_motherboard, get_os,
    get_public_ip, get_shell, get_uptime, get_users_count};

#[test]
fn init_system_detection_order() {
    assert_eq!(get_init(true, true, true).as_deref(), Some("systemd"));
    assert_eq!(get_init(false, true, true).as_deref(), Some("OpenRC"));
    assert_eq!(get_init(false, false, true).as_deref(), Some("runit"));
    assert_eq!(get_init(false, false, false), None);
}

#[test]
fn entropy_uses_default_pool() {
    assert_eq!(
        get_entropy(Some("256".to_string()), Some("4096".to_string())).as_deref(),
        Some("256/4096")
    );
    assert_eq!(get_entropy(Some("256".to_string()), None).as_deref(), Some("256/4096"));
    assert_eq!(get_entropy(None, Some("4096".to_string())), None);
}

#[test]
fn user_count_falls_back() {
    assert_eq!(get_users_count(Some("a tty1\nb tty2\n".to_string()), None), Some(2));
    assert_eq!(get_users_count(Some("".to_string()), Some("a b c".to_string())), Some(3));
    assert_eq!(get_users_count(None, None), Some(1));
    assert_eq!(get_users_count(Some("\n \n".to_string()), Some(" ".to_string())), Some(1));
}

#[test]
fn failed_units_counts_nonblank_lines() {
    assert_eq!(get_failed_units(None), None);
    assert_eq!(get_failed_units(Some("".to_string())), Some(0));
    assert_eq!(get_failed_units(Some("x.service failed\ny.service failed\n".to_string())),
        Some(2));
}

#[test]
fn model_joins_vendor_and_product() {
    assert_eq!(
        get_model(Some("LENOVO".to_string()), Some("X1".to_string())).as_deref(),
        Some("LENOVO X1")
    );
    assert_eq!(get_model(Some("LENOVO\n".to_string()), None).as_deref(), Some("LENOVO"));
    assert_eq!(get_model(None, None), None);
    assert_eq!(get_model(Some("".to_string()), Some("".to_string())), None);
}

#[test]
fn trimmed_file_probes() {
    assert_eq!(get_motherboard(Some("B550\n".to_string())).as_deref(), Some("B550"));
    assert_eq!(get_bios(Some(" 1.2 \n".to_string())).as_deref(), Some("1.2"));
    assert_eq!(get_public_ip(Some("1.2.3.4\n".to_string())).as_deref(), Some("1.2.3.4"));
    assert_eq!(get_kernel(Some("6.1.0\n".to_string())).as_deref(), Some("6.1.0"));
    assert_eq!(get_hostname(Some("box\n".to_string())).as_deref(), Some("box"));
    assert_eq!(get_kernel(None), None);
}

#[test]
fn shell_takes_last_path_component() {
    assert_eq!(get_shell(Some("/usr/bin/zsh".to_string())).as_deref(), Some("zsh"));
    assert_eq!(get_shell(Some("bash".to_string())).as_deref(), Some("bash"));
    assert_eq!(get_shell(None), None);
}

#[test]
fn desktop_env_prefers_xdg() {
    assert_eq!(
        get_de(Some("KDE".to_string()), Some("plasma".to_string())).as_deref(),
        Some("KDE")
    );
    assert_eq!(get_de(None, Some("plasma".to_string())).as_deref(), Some("plasma"));
    assert_eq!(get_de(None, None), None);
}

#[test]
fn os_release_pretty_name() {
    let content = "NAME=\"Ubuntu\"\nPRETTY_NAME=\"Ubuntu 22.04.3 LTS\"\nID=ubuntu\n";
    assert_eq!(get_os(Some(content.to_string())).as_deref(), Some("Ubuntu 22.04.3 LTS"));
    assert_eq!(get_os(Some("ID=linux\n".to_string())), None);
    assert_eq!(get_os(None), None);
}

#[test]
fn uptime_parses_leading_seconds() {
    assert_eq!(get_uptime(Some("90061.27 123.45\n".to_string())).as_deref(), Some("1d 1h 1m"));
    assert_eq!(get_uptime(Some("61.00 1.0".to_string())).as_deref(), Some("1m"));
    assert_eq!(get_uptime(Some("".to_string())), None);
    assert_eq!(get_uptime(None), None);
}

#[test]
fn boot_time_reads_btime() {
    let stat = "cpu  1 2 3\nbtime 1600000000\nprocesses 4\n";
    assert_eq!(get_boot_time(Some(stat.to_string())).as_deref(), Some("2020-09-13 12:26:40"));
    assert_eq!(get_boot_time(Some("cpu 1 2\n".to_string())), None);
    assert_eq!(get_boot_time(None), None);
}

#[test]
fn meminfo_rejected_without_totals() {
    let (mem, swap) = get_memory_and_swap(Some("MemAvailable: 5 kB\n".to_string()));
    assert_eq!(mem, None);
    assert_eq!(swap, None);
}

#[test]
fn logo_selection_is_keyword_based() {
    assert!(matches!(logo_kind("Ubuntu 22.04 LTS"), LogoKind::Ubuntu));
    assert!(matches!(logo_kind("Arch Linux"), LogoKind::Arch));
    assert!(matches!(logo_kind("Debian GNU/Linux 12"), LogoKind::Debian));
    assert!(matches!(logo_kind("Some Unknown OS"), LogoKind::Fallback));
    // the arco spelling routes to the arch art
    assert!(matches!(logo_kind("ArcoLinux"), LogoKind::Arch));
    assert!(!get_logo("Fedora Linux 39").is_empty());
    assert_ne!(get_logo("Fedora Linux 39"), get_logo("something else entirely"));
}

#[test]
fn gpu_listing_yields_names_and_memory() {
    let listing = "00:02.0 VGA compatible controller: Intel Corporation UHD Graphics 620 (rev 07)\n\
\tFlags: bus master\n\
\tMemory at a0000000 (64-bit, non-prefetchable) [size=16M]\n\
\tMemory at 90000000 (64-bit, prefetchable) [size=256M]\n\
01:00.0 Audio device: Intel Corporation Audio\n";
    let (gpus, vram) = get_gpu_combined(Some(listing.to_string()));
    let gpus = gpus.expect("a display controller should be found");
    assert_eq!(gpus, vec!["Intel UHD Graphics 620".to_string()]);
    assert_eq!(vram, Some(vec!["256M".to_string()]));
    assert_eq!(get_gpu_combined(None), (None, None));
    assert_eq!(get_gpu_combined(Some("00:1f.0 ISA bridge: Intel\n".to_string())), (None, None));
}

#[test]
fn battery_pair_defaults() {
    assert_eq!(get_battery(None), None);
    assert_eq!(
        get_battery(Some((Some("87\n".to_string()), Some("Charging\n".to_string())))),
        Some((87, "Charging".to_string()))
    );
    assert_eq!(get_battery(Some((None, None))), Some((0, "Unknown".to_string())));
    assert_eq!(
        get_battery(Some((Some("999".to_string()), None))),
        Some((0, "Unknown".to_string()))
    );
}

#[test]
fn window_manager_falls_back_to_listing() {
    assert_eq!(get_wm(Some("sway".to_string()), None).as_deref(), Some("sway"));
    let listing = "Name: i3\nClass: N/A\n";
    assert_eq!(get_wm(None, Some(listing.to_string())).as_deref(), Some("i3"));
    assert_eq!(get_wm(None, None), None);
}

#[test]
fn terminal_decision_chain() {
    assert_eq!(
        get_terminal(Some("konsole\n".to_string()), None, None).as_deref(),
        Some("konsole")
    );
    assert_eq!(
        get_terminal(
            Some("bash\n".to_string()),
            Some("alacritty\n".to_string()),
            Some("xterm".to_string()),
        )
        .as_deref(),
        Some("alacritty")
    );
    assert_eq!(
        get_terminal(Some("zsh".to_string()), Some("systemd".to_string()),
            Some("xterm-256color".to_string()))
            .as_deref(),
        Some("xterm-256color")
    );
    assert_eq!(get_terminal(None, None, None), None);
}

#[test]
fn ppid_and_process_count() {
    assert_eq!(parse_ppid("Name:\tx\nPPid:\t42\nUid: 1\n").as_deref(), Some("42"));
    assert_eq!(parse_ppid("Name: x\n"), None);
    let names = vec![
        "1".to_string(),
        "234".to_string(),
        "acpi".to_string(),
        "5x".to_string(),
        "".to_string(),
    ];
    assert_eq!(get_processes(&names), 2);
}

#[test]
fn cpu_facts_from_one_read() {
    let cpuinfo = "processor\t: 0\nmodel name\t: Intel(R) Core(TM) i7-8550U CPU\ncache size\t: 8192 KB\nphysical id\t: 0\ncpu cores\t: 4\nprocessor\t: 1\nmodel name\t: Intel(R) Core(TM) i7-8550U CPU\nphysical id\t: 0\ncpu cores\t: 4\n";
    let info = get_cpu_info_combined(Some(cpuinfo.to_string()), Some("2400000\n".to_string()));
    assert_eq!(info.name.as_deref(), Some("Intel i7-8550U CPU"));
    assert_eq!(info.threads, 2);
    assert_eq!(info.cores, Some(4));
    assert_eq!(info.cache.as_deref(), Some("8192 KB"));
    assert_eq!(info.freq.as_deref(), Some("2.40 GHz"));
    let empty = get_cpu_info_combined(None, None);
    assert_eq!(empty.name, None);
    assert_eq!(empty.threads, 0);
}

#[test]
fn package_summary_joins_managers() {
    assert_eq!(
        get_packages(Some(120), None, None, Some(3), None).as_deref(),
        Some("120 (pacman), 3 (flatpak)")
    );
    assert_eq!(
        get_packages(None, Some("ii a\nii b\nrc c\n".to_string()), None, None, None).as_deref(),
        Some("2 (dpkg)")
    );
    assert_eq!(
        get_packages(None, None, None, None, Some(vec!["a.snap".to_string(), "b".to_string()]))
            .as_deref(),
        Some("1 (snap)")
    );
    assert_eq!(get_packages(None, None, None, Some(0), None), None);
}

#[test]
fn root_partition_usage() {
    let mounts = "/dev/nvme0n1p2 / ext4 rw 0 0\n/dev/sda1 /boot vfat rw 0 0\n";
    let ps = get_partitions_impl(Some(mounts.to_string()), 4096, 1000000, 250000)
        .expect("the root filesystem should be reported");
    assert_eq!(ps.len(), 1);
    assert_eq!(ps[0].mount, "/");
    assert_eq!(ps[0].label, "nvme0n1p2 - ext4");
    assert_eq!(ps[0].total_kib, 4000000);
    assert_eq!(ps[0].used_kib, 3000000);
    assert_eq!(get_partitions_impl(None, 4096, 100, 10), None);
}

#[test]
fn human_sizes_scale_by_unit() {
    let v = |s: &str| s.chars().collect::<Vec<char>>();
    assert_eq!(parse_human_size(&v("4G")), Some(4 * 1024 * 1024 * 1024));
    assert_eq!(parse_human_size(&v("512M")), Some(512 * 1024 * 1024));
    assert_eq!(parse_human_size(&v("2T")), Some(2u64 * 1024 * 1024 * 1024 * 1024));
    assert_eq!(parse_human_size(&v("100")), Some(100));
    assert_eq!(parse_human_size(&v("1.5G")), Some(1024 * 1024 * 1024 * 3 / 2));
    assert_eq!(parse_human_size(&v("")), None);
    assert_eq!(parse_human_size(&v("  ")), None);
}

#[test]
fn display_follows_session_type() {
    let (d, r) = get_display_and_resolution(
        Some("wayland".to_string()),
        Some("wayland-1".to_string()),
        false,
        true,
        Some("Mode: 2560 px, 1440 px, 60 Hz\n".to_string()),
    );
    assert_eq!(d.as_deref(), Some("Wayland (wayland-1)"));
    assert_eq!(r.as_deref(), Some("Mode: 2560 px, 1440 px, 60 Hz"));

    let xr = "Screen 0: minimum\neDP-1 connected primary 1920x1080+0+0\nHDMI-1 disconnected\n";
    let (d, r) = get_display_and_resolution(Some("x11".to_string()), None, true, false,
        Some(xr.to_string()));
    assert_eq!(r.as_deref(), Some("1920x1080+0+0"));
    assert_eq!(d.as_deref(), Some("1920x1080+0+0 (X11)"));

    let (d, r) = get_display_and_resolution(None, None, true, false, None);
    assert_eq!(d.as_deref(), Some("X11"));
    assert_eq!(r, None);
    assert_eq!(get_display_and_resolution(None, None, false, false, None), (None, None));
}

#[test]
fn theme_prefers_desktop_file() {
    let kde = "[General]\nwidgetStyle=Breeze\nfont=Noto Sans,10,-1\n[Icons]\ntheme=Papirus\n[Other]\ntheme=Nope\n";
    let info = get_theme_info(Some(kde.to_string()), None, None, None);
    assert_eq!(info.theme.as_deref(), Some("Breeze"));
    assert_eq!(info.icons.as_deref(), Some("Papirus"));
    assert_eq!(info.font.as_deref(), Some("Noto Sans"));

    let fallback = get_theme_info(None, Some("'Adwaita'".to_string()), None,
        Some("''".to_string()));
    assert_eq!(fallback.theme.as_deref(), Some("Adwaita"));
    assert_eq!(fallback.font, None);
    assert_eq!(gsettings_value(Some("'Arc'".to_string())).as_deref(), Some("Arc"));
}

#[test]
fn default_art_is_the_penguin() {
    let tux = get_logo("unknown");
    assert_eq!(tux.len(), 16);
    assert_eq!(tux[0], "         _nnnn_        ");
    assert_eq!(get_logo("UNKNOWN"), tux);
}

#[test]
fn gpu_temps_match_vendors() {
    let gpus = vec!["Intel UHD Graphics".to_string(), "NVIDIA GeForce".to_string()];
    let sensors = vec![
        ("coretemp".to_string(), Some("45000".to_string())),
        ("i915".to_string(), Some("52000".to_string())),
    ];
    let temps = get_gpu_temp_with_gpus(Some(&gpus), &sensors, Some("67\n".to_string()))
        .expect("readings were available");
    assert_eq!(temps.len(), 2);
    assert_eq!(temps[0].as_deref(), Some("52\u{b0}C"));
    assert_eq!(temps[1].as_deref(), Some("67\u{b0}C"));
    assert_eq!(get_gpu_temp_with_gpus(None, &sensors, None), None);
    assert_eq!(get_gpu_temp_with_gpus(Some(&gpus), &Vec::new(), None), None);
}

#[test]
fn network_assembly_orders_interfaces() {
    let header = "Inter-|   Receive\n face |bytes\n";
    let dev1 = format!(
        "{}  eth0: 1000 0 0 0 0 0 0 0 2000 0 0 0\n  wlan0: 500 0 0 0 0 0 0 0 700 0 0 0\n    lo: 1 0 0 0 0 0 0 0 1 0 0 0\n",
        header
    );
    let dev2 = format!(
        "{}  eth0: 2048576 0 0 0 0 0 0 0 3000 0 0 0\n  wlan0: 500 0 0 0 0 0 0 0 700 0 0 0\n    lo: 1 0 0 0 0 0 0 0 1 0 0 0\n",
        header
    );
    let ip_out = "1: eth0 inet 192.168.1.5/24\n2: eth0 inet6 fe80::1/64\n3: wlan0 inet6 2001:db8::1/64\n";
    let states = vec![
        ("eth0".to_string(), "down\n".to_string()),
        ("wlan0".to_string(), "up\n".to_string()),
    ];
    let nets = get_network_final_with_ip(
        Some(dev1),
        Some(dev2),
        1000,
        false,
        Some(ip_out.to_string()),
        &states,
        &Vec::new(),
    )
    .expect("two interfaces should be reported");
    assert_eq!(nets.len(), 2);
    // the interface that is up sorts first
    assert_eq!(nets[0].interface, "wlan0");
    assert_eq!(nets[0].state, "UP");
    assert_eq!(nets[0].ipv6.as_deref(), Some("2001:db8::1"));
    assert_eq!(nets[1].interface, "eth0");
    assert_eq!(nets[1].state, "DOWN");
    assert_eq!(nets[1].ipv4.as_deref(), Some("192.168.1.5"));
    // 2048576-1000 bytes over one second is close to two MB/s
    assert_eq!(nets[1].rx_rate_cmbs, Some(195));
    assert_eq!(get_network_final_with_ip(None, None, 1, false, None, &Vec::new(),
        &Vec::new()), None);
}

#[test]
fn bootloader_from_boot_manager_entries() {
    let eb = "BootCurrent: 0001\nBoot0001* GRUB2 HD(1,GPT,...)/File(\\EFI\\grub2\\grubx64.efi)\n";
    assert_eq!(
        get_bootloader(Some(eb.to_string()), None, None, true, &Vec::new()).as_deref(),
        Some("GRUB 2")
    );
    let eb2 = "Boot0000* systemd-boot\n";
    assert_eq!(
        get_bootloader(Some(eb2.to_string()), None, None, true, &Vec::new()).as_deref(),
        Some("systemd-boot")
    );
}

#[test]
fn bootloader_from_status_and_files() {
    assert_eq!(
        get_bootloader(
            None,
            Some("systemd-boot 252 (default)".to_string()),
            None,
            true,
            &Vec::new()
        )
        .as_deref(),
        Some("systemd-boot")
    );
    let files = vec![("/boot/grub/grub.cfg".to_string(), Some("set root=hd0\n".to_string()))];
    assert_eq!(
        get_bootloader(None, None, None, false, &files).as_deref(),
        Some("GRUB 2")
    );
    let files2 = vec![(
        "/boot/grub/grub.cfg".to_string(),
        Some("# GRUB boot menu\n".to_string()),
    )];
    assert_eq!(
        get_bootloader(None, None, Some("grub-install (GRUB) 0.97".to_string()), false, &files2)
            .as_deref(),
        Some("GRUB")
    );
    let files3 = vec![("/boot/loader/entries".to_string(), None)];
    assert_eq!(
        get_bootloader(None, None, None, true, &files3).as_deref(),
        Some("systemd-boot")
    );
}

#[test]
fn bootloader_falls_back_to_firmware_kind() {
    assert_eq!(
        get_bootloader(None, None, None, true, &Vec::new()).as_deref(),
        Some("Unknown (UEFI)")
    );
    assert_eq!(
        get_bootloader(None, None, None, false, &Vec::new()).as_deref(),
        Some("Unknown (BIOS)")
    );
    let rpi = vec![
        ("/boot/config.txt".to_string(), None),
        ("/boot/start.elf".to_string(), None),
    ];
    assert_eq!(
        get_bootloader(None, None, None, false, &rpi).as_deref(),
        Some("Raspberry Pi Bootloader")
    );
}

#[test]
fn cpu_temperature_takes_first_validated_reading() {
    let sensors = vec![
        ("acpitz".to_string(), vec!["45000".to_string()]),
        ("coretemp".to_string(), vec!["bad".to_string(), "47500".to_string()]),
    ];
    assert_eq!(get_cpu_temp(&sensors).as_deref(), Some("47\u{b0}C"));
    let out_of_range = vec![("coretemp".to_string(), vec!["999".to_string()])];
    assert_eq!(get_cpu_temp(&out_of_range), None);
    assert_eq!(get_cpu_temp(&Vec::new()), None);
}

#[test]
fn human_size_reads_fractions_to_a_thousandth() {
    let v = |s: &str| s.chars().collect::<Vec<char>>();
    assert_eq!(parse_human_size(&v("0.5M")), Some(512 * 1024));
    assert_eq!(parse_human_size(&v("1.2345G")), Some(1024 * 1024 * 1024 * 1234 / 1000));
    assert_eq!(parse_human_size(&v("2.G")), Some(2 * 1024 * 1024 * 1024));
    assert_eq!(parse_human_size(&v("x5G")), None);
}

#[test]
fn ping_summary_attaches_to_up_interface() {
    let header = "Inter-|   Receive\n face |bytes    packets errs drop fifo frame compressed multicast\n";
    let row = " eth0: 1000 0 0 0 0 0 0 0 2000 0 0 0 0 0 0 0\n";
    let dev = format!("{}{}", header, row);
    let states = vec![("eth0".to_string(), "up\n".to_string())];
    let ip_out = "1: eth0 inet 10.0.0.2/24\n";
    let ping_out = "2 packets transmitted, 2 received, 0% packet loss, time 201ms\nrtt min/avg/max/mdev = 10.1/12.345/14.6/2.25 ms\n";
    let pings = vec![("eth0".to_string(), Some(ping_out.to_string()))];
    let nets = get_network_final_with_ip(
        Some(dev.clone()),
        Some(dev),
        1000,
        true,
        Some(ip_out.to_string()),
        &states,
        &pings,
    )
    .expect("one interface should be reported");
    assert_eq!(nets.len(), 1);
    assert_eq!(nets[0].ping_um, Some(12345));
    assert_eq!(nets[0].jitter_um, Some(2250));
    assert_eq!(nets[0].loss_mpct, Some(0));
}
