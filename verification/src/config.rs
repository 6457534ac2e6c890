//! Run configuration: which fields are requested, and how output is styled.
//!
//! A `Config` is fixed at startup and then only read: the dispatcher consults
//! it to decide which probes to launch, the completion detector to decide
//! which fields must be reported, and the renderer to decide which reported
//! fields to print.

use vstd::prelude::*;
use vstd::string::StringExecFns;

verus! {

pub struct Config {
    pub use_color: bool,
    pub color_scheme: String,
    pub json_output: bool,
    pub cache_enabled: bool,
    pub cache_ttl: u64,
    pub fast_mode: bool,
    pub benchmark: bool,
    pub show_os: bool,
    pub show_kernel: bool,
    pub show_uptime: bool,
    pub show_boot_time: bool,
    pub show_bootloader: bool,
    pub show_packages: bool,
    pub show_shell: bool,
    pub show_de: bool,
    pub show_wm: bool,
    pub show_init: bool,
    pub show_terminal: bool,
    pub show_cpu: bool,
    pub show_cpu_temp: bool,
    pub show_gpu: bool,
    pub show_memory: bool,
    pub show_swap: bool,
    pub show_partitions: bool,
    pub show_network: bool,
    pub show_network_ping: bool,
    pub show_display: bool,
    pub show_battery: bool,
    pub show_colors: bool,
    pub show_model: bool,
    pub show_motherboard: bool,
    pub show_bios: bool,
    pub show_theme: bool,
    pub show_icons: bool,
    pub show_font: bool,
    pub show_processes: bool,
    pub show_cpu_freq: bool,
    pub show_locale: bool,
    pub show_public_ip: bool,
    pub show_cpu_cores: bool,
    pub show_cpu_cache: bool,
    pub show_gpu_vram: bool,
    pub show_resolution: bool,
    pub show_entropy: bool,
    pub show_users: bool,
    pub show_failed_units: bool,
}

/// The configuration of a run started with no options at all.
pub open spec fn is_default_config(c: Config) -> bool {
    &&& c.use_color == true
    &&& c.color_scheme@ == "classic"@
    &&& c.json_output == false
    &&& c.cache_enabled == true
    &&& c.cache_ttl == 60
    &&& c.fast_mode == false
    &&& c.benchmark == false
    &&& c.show_os == true
    &&& c.show_kernel == true
    &&& c.show_uptime == true
    &&& c.show_boot_time == true
    &&& c.show_bootloader == true
    &&& c.show_packages == true
    &&& c.show_shell == true
    &&& c.show_de == true
    &&& c.show_wm == true
    &&& c.show_init == true
    &&& c.show_terminal == true
    &&& c.show_cpu == true
    &&& c.show_cpu_temp == true
    &&& c.show_gpu == true
    &&& c.show_memory == true
    &&& c.show_swap == true
    &&& c.show_partitions == true
    &&& c.show_network == true
    &&& c.show_network_ping == false
    &&& c.show_display == true
    &&& c.show_battery == true
    &&& c.show_colors == true
    &&& c.show_model == true
    &&& c.show_motherboard == true
    &&& c.show_bios == true
    &&& c.show_theme == true
    &&& c.show_icons == true
    &&& c.show_font == true
    &&& c.show_processes == true
    &&& c.show_cpu_freq == true
    &&& c.show_locale == true
    &&& c.show_public_ip == false
    &&& c.show_cpu_cores == true
    &&& c.show_cpu_cache == true
    &&& c.show_gpu_vram == true
    &&& c.show_resolution == true
    &&& c.show_entropy == true
    &&& c.show_users == true
    &&& c.show_failed_units == true
}

impl Default for Config {
    fn default() -> (r: Config)
        ensures
            is_default_config(r),
    {
        Config {
            use_color: true,
            color_scheme: String::from_str("classic"),
            json_output: false,
            cache_enabled: true,
            cache_ttl: 60,
            fast_mode: false,
            benchmark: false,
            show_os: true,
            show_kernel: true,
            show_uptime: true,
            show_boot_time: true,
            show_bootloader: true,
            show_packages: true,
            show_shell: true,
            show_de: true,
            show_wm: true,
            show_init: true,
            show_terminal: true,
            show_cpu: true,
            show_cpu_temp: true,
            show_gpu: true,
            show_memory: true,
            show_swap: true,
            show_partitions: true,
            show_network: true,
            show_network_ping: false,
            show_display: true,
            show_battery: true,
            show_colors: true,
            show_model: true,
            show_motherboard: true,
            show_bios: true,
            show_theme: true,
            show_icons: true,
            show_font: true,
            show_processes: true,
            show_cpu_freq: true,
            show_locale: true,
            show_public_ip: false,
            show_cpu_cores: true,
            show_cpu_cache: true,
            show_gpu_vram: true,
            show_resolution: true,
            show_entropy: true,
            show_users: true,
            show_failed_units: true,
        }
    }
}

} // verus!
