//! The renderer: a pure transformation from an accumulator snapshot, the
//! configuration, the logo and the color scheme to the lines of one frame.
//!
//! Everything here is a function of its arguments alone, so two calls on
//! identical arguments produce identical lines -- which is what lets the
//! progressive display erase a frame by its line count and redraw.

use vstd::prelude::*;
use vstd::string::StringExecFns;

use crate::colors::ColorScheme;
use crate::config::Config;
use crate::report::{NetworkInfo, Partition, Report};
use crate::text::{chars_of, dec_digits, digit_char, repeat_char, str_views, string_of,
    u64_string};

verus! {

/// The count of characters a terminal shows: escape sequences, from the
/// escape character through the next ASCII letter, take no cells.
pub open spec fn spec_visible_len(s: Seq<char>, in_ansi: bool) -> nat
    decreases s.len(),
{
    if s.len() == 0 {
        0
    } else {
        let c = s[0];
        if c == '\u{1b}' {
            spec_visible_len(s.skip(1), true)
        } else if in_ansi {
            spec_visible_len(s.skip(1), !is_ascii_alpha(c))
        } else {
            1 + spec_visible_len(s.skip(1), false)
        }
    }
}

pub open spec fn is_ascii_alpha(c: char) -> bool {
    (65 <= c as u32 && c as u32 <= 90) || (97 <= c as u32 && c as u32 <= 122)
}

/// The number of terminal cells the string occupies.
pub fn visible_len(s: &str) -> (r: usize)
    ensures
        r == spec_visible_len(s@, false),
{
    let v = chars_of(s);
    let n = v.len();
    let mut len: usize = 0;
    let mut in_ansi = false;
    let mut i: usize = 0;
    proof {
        assert(v@.skip(0) =~= v@);
    }
    while i < n
        invariant
            n == v@.len(),
            i <= n,
            len <= i,
            spec_visible_len(v@, false) == len + spec_visible_len(v@.skip(i as int), in_ansi),
        decreases n - i,
    {
        let c = v[i];
        proof {
            assert(v@.skip(i as int)[0] == v@[i as int]);
            assert(v@.skip(i as int).skip(1) =~= v@.skip(i + 1));
        }
        if c == '\u{1b}' {
            in_ansi = true;
        } else if in_ansi {
            let b = c as u32;
            if (65 <= b && b <= 90) || (97 <= b && b <= 122) {
                in_ansi = false;
            }
        } else {
            len = len + 1;
        }
        i = i + 1;
    }
    proof {
        assert(v@.skip(n as int) =~= Seq::<char>::empty());
    }
    len
}

/// The prefix of `s` that fits in `max` terminal cells, escape sequences
/// carried along whole; a color reset is appended when anything was kept
/// of a string that used escapes.
pub open spec fn spec_trunc(s: Seq<char>, left: nat, in_ansi: bool) -> Seq<char>
    decreases s.len(),
{
    if s.len() == 0 {
        Seq::empty()
    } else {
        let c = s[0];
        if c == '\u{1b}' {
            seq![c] + spec_trunc(s.skip(1), left, true)
        } else if in_ansi {
            seq![c] + spec_trunc(s.skip(1), left, !is_ascii_alpha(c))
        } else if left > 0 {
            seq![c] + spec_trunc(s.skip(1), (left - 1) as nat, false)
        } else {
            Seq::empty()
        }
    }
}

pub open spec fn spec_truncate_ansi(s: Seq<char>, max: nat) -> Seq<char> {
    let body = spec_trunc(s, max, false);
    if body.len() > 0 && crate::text::seq_contains(s, seq!['\u{1b}']) {
        body + "\u{1b}[0m"@
    } else {
        body
    }
}

pub fn truncate_ansi(s: &str, max_width: usize) -> (r: String)
    ensures
        r@ == spec_truncate_ansi(s@, max_width as nat),
{
    let v = chars_of(s);
    let n = v.len();
    let mut out: Vec<char> = Vec::new();
    let mut left = max_width;
    let mut in_ansi = false;
    let mut stopped = false;
    let mut i: usize = 0;
    proof {
        assert(v@.skip(0) =~= v@);
    }
    while i < n && !stopped
        invariant
            n == v@.len(),
            i <= n,
            left <= max_width,
            stopped ==> spec_trunc(v@, max_width as nat, false) == out@,
            !stopped ==> spec_trunc(v@, max_width as nat, false) == out@ + spec_trunc(
                v@.skip(i as int),
                left as nat,
                in_ansi,
            ),
        decreases n - i + if stopped {
            0int
        } else {
            1int
        },
    {
        let c = v[i];
        proof {
            assert(v@.skip(i as int)[0] == v@[i as int]);
            assert(v@.skip(i as int).skip(1) =~= v@.skip(i + 1));
        }
        if c == '\u{1b}' {
            in_ansi = true;
            out.push(c);
        } else if in_ansi {
            out.push(c);
            let b = c as u32;
            if (65 <= b && b <= 90) || (97 <= b && b <= 122) {
                in_ansi = false;
            }
        } else {
            if left > 0 {
                out.push(c);
                left = left - 1;
            } else {
                proof {
                    assert(spec_trunc(v@.skip(i as int), 0, false) =~= Seq::<char>::empty());
                }
                stopped = true;
            }
        }
        if !stopped {
            i = i + 1;
        }
    }
    proof {
        if !stopped {
            assert(v@.skip(n as int) =~= Seq::<char>::empty());
        }
        assert(spec_trunc(v@, max_width as nat, false) =~= out@);
    }
    let esc: Vec<char> = vec!['\u{1b}'];
    let has_esc = crate::text::contains_sub(&v, &esc);
    proof {
        assert(esc@ =~= seq!['\u{1b}']);
    }
    let mut r = string_of(&out);
    if out.len() > 0 && has_esc {
        r.append("\u{1b}[0m");
    }
    r
}

/// A usage bar of `width` cells: the filled share of cells for the given
/// percentage, colored when color is on.
pub open spec fn spec_bar(
    percent: u8,
    filled_color: Seq<char>,
    empty_color: Seq<char>,
    use_color: bool,
    width: nat,
) -> Seq<char> {
    let filled = if percent as nat * width / 100 <= width {
        percent as nat * width / 100
    } else {
        width
    };
    let empty = (width - filled) as nat;
    if use_color {
        "["@ + filled_color + Seq::new(filled, |i: int| '\u{2588}') + empty_color + Seq::new(
            empty,
            |i: int| '\u{2591}',
        ) + "\u{1b}[0m]"@
    } else {
        "["@ + Seq::new(filled, |i: int| '\u{2588}') + Seq::new(empty, |i: int| '\u{2591}')
            + "]"@
    }
}

pub fn create_bar(
    percent: u8,
    filled_color: &str,
    empty_color: &str,
    use_color: bool,
    width: usize,
) -> (r: String)
    ensures
        r@ == spec_bar(percent, filled_color@, empty_color@, use_color, width as nat),
{
    proof {
        assert(percent as u128 * width as u128 <= 1208925819614629174706176u128) by (nonlinear_arith);
    }
    let wide = percent as u128 * width as u128 / 100;
    let filled: usize = if wide <= width as u128 {
        wide as usize
    } else {
        width
    };
    let empty = width - filled;
    let filled_cells = string_of(&repeat_char('\u{2588}', filled));
    let empty_cells = string_of(&repeat_char('\u{2591}', empty));
    let mut s = String::from_str("[");
    if use_color {
        s.append(filled_color);
        s.append(filled_cells.as_str());
        s.append(empty_color);
        s.append(empty_cells.as_str());
        s.append("\u{1b}[0m]");
    } else {
        s.append(filled_cells.as_str());
        s.append(empty_cells.as_str());
        s.append("]");
    }
    proof {
        assert(s@ =~= spec_bar(percent, filled_color@, empty_color@, use_color, width as nat));
    }
    s
}

/// A whole number with one decimal digit, from a count of tenths.
pub open spec fn spec_fixed1(tenths: nat) -> Seq<char> {
    dec_digits(tenths / 10) + "."@ + seq![digit_char(tenths % 10)]
}

pub fn format_fixed1(tenths: u64) -> (r: String)
    ensures
        r@ == spec_fixed1(tenths as nat),
{
    let mut s = u64_string(tenths / 10);
    s.append(".");
    let mut v: Vec<char> = Vec::new();
    v.push(((48 + tenths % 10) as u8) as char);
    proof {
        assert(v@ =~= seq![digit_char(tenths as nat % 10)]);
    }
    s.append(string_of(&v).as_str());
    s
}

/// A byte count with a binary-unit suffix, rounded to the nearest tenth
/// of a unit (nearest whole unit for kibibytes), as transfer totals are
/// shown.
pub open spec fn spec_format_bytes(bytes: nat) -> Seq<char> {
    let kb: nat = 1024;
    let mb: nat = 1048576;
    let gb: nat = 1073741824;
    let tb: nat = 1099511627776;
    if bytes >= tb {
        spec_fixed1((bytes * 10 + tb / 2) / tb) + "T"@
    } else if bytes >= gb {
        spec_fixed1((bytes * 10 + gb / 2) / gb) + "G"@
    } else if bytes >= mb {
        spec_fixed1((bytes * 10 + mb / 2) / mb) + "M"@
    } else if bytes >= kb {
        dec_digits((bytes + kb / 2) / kb) + "K"@
    } else {
        dec_digits(bytes) + "B"@
    }
}

pub fn format_bytes(bytes: u64) -> (r: String)
    ensures
        r@ == spec_format_bytes(bytes as nat),
{
    let kb: u64 = 1024;
    let mb: u64 = 1048576;
    let gb: u64 = 1073741824;
    let tb: u64 = 1099511627776;
    proof {
        assert(bytes as u128 * 10 <= 1208925819614629174706176u128) by (nonlinear_arith);
    }
    if bytes >= tb {
        let t = ((bytes as u128 * 10 + (tb / 2) as u128) / tb as u128) as u64;
        let mut s = format_fixed1(t);
        s.append("T");
        s
    } else if bytes >= gb {
        let t = ((bytes as u128 * 10 + (gb / 2) as u128) / gb as u128) as u64;
        let mut s = format_fixed1(t);
        s.append("G");
        s
    } else if bytes >= mb {
        let t = ((bytes as u128 * 10 + (mb / 2) as u128) / mb as u128) as u64;
        let mut s = format_fixed1(t);
        s.append("M");
        s
    } else if bytes >= kb {
        let mut s = u64_string((bytes + kb / 2) / kb);
        s.append("K");
        s
    } else {
        let mut s = u64_string(bytes);
        s.append("B");
        s
    }
}

/// One information line: colored label, reset, then the value.
pub open spec fn spec_label_line(cs: &ColorScheme, label: Seq<char>, value: Seq<char>)
    -> Seq<char> {
    cs.primary@ + label + ":"@ + cs.reset@ + " "@ + value
}

pub fn label_line(cs: &ColorScheme, label: &str, value: &str) -> (r: String)
    ensures
        r@ == spec_label_line(cs, label@, value@),
{
    let mut s = cs.primary.clone();
    s.append(label);
    s.append(":");
    s.append(cs.reset.as_str());
    s.append(" ");
    s.append(value);
    s
}

/// A whole number with two decimal digits, from a count of hundredths.
pub open spec fn spec_fixed2(hundredths: nat) -> Seq<char> {
    dec_digits(hundredths / 100) + "."@ + crate::text::padded_dec(hundredths % 100, 2)
}

pub fn format_fixed2(hundredths: u64) -> (r: String)
    ensures
        r@ == spec_fixed2(hundredths as nat),
{
    let mut s = u64_string(hundredths / 100);
    s.append(".");
    s.append(string_of(&crate::text::u64_padded(hundredths % 100, 2)).as_str());
    s
}

/// KiB shown as tenths of GiB, rounded to the nearest tenth.
pub open spec fn gib_tenths(kib: nat) -> nat {
    (kib * 10 + 524288) / 1048576
}

/// The share of `total` that `used` is, as a whole percentage capped at
/// one hundred; zero when there is no total to compare against.
pub open spec fn spec_pct(used: nat, total: nat) -> nat {
    if total > 0 {
        if used * 100 / total <= 100 {
            used * 100 / total
        } else {
            100
        }
    } else {
        0
    }
}

pub fn usage_percent(used: u64, total: u64) -> (r: u8)
    ensures
        r as nat == spec_pct(used as nat, total as nat),
{
    if total == 0 {
        return 0;
    }
    proof {
        assert(used as u128 * 100 <= 1208925819614629174706176u128) by (nonlinear_arith);
    }
    let p = used as u128 * 100 / total as u128;
    if p <= 100 {
        p as u8
    } else {
        100
    }
}

/// A used/total pair in GiB with a usage bar, as the memory, swap and
/// disk lines are shown.
pub open spec fn spec_pair_line(
    cs: &ColorScheme,
    label: Seq<char>,
    used_kib: nat,
    total_kib: nat,
    bar: Seq<char>,
) -> Seq<char> {
    cs.primary@ + label + ":"@ + cs.reset@ + " "@ + spec_fixed1(gib_tenths(used_kib)) + "GiB / "@
        + spec_fixed1(gib_tenths(total_kib)) + "GiB "@ + bar
}

pub fn pair_line(
    cs: &ColorScheme,
    label: &str,
    used_kib: u64,
    total_kib: u64,
    bar: &str,
) -> (r: String)
    ensures
        r@ == spec_pair_line(cs, label@, used_kib as nat, total_kib as nat, bar@),
{
    let mut s = cs.primary.clone();
    s.append(label);
    s.append(":");
    s.append(cs.reset.as_str());
    s.append(" ");
    proof {
        assert(used_kib as u128 * 10 <= 1208925819614629174706176u128) by (nonlinear_arith);
        assert(total_kib as u128 * 10 <= 1208925819614629174706176u128) by (nonlinear_arith);
    }
    let ut = ((used_kib as u128 * 10 + 524288) / 1048576) as u64;
    let tt = ((total_kib as u128 * 10 + 524288) / 1048576) as u64;
    s.append(format_fixed1(ut).as_str());
    s.append("GiB / ");
    s.append(format_fixed1(tt).as_str());
    s.append("GiB ");
    s.append(bar);
    s
}

// ---------------------------------------------------------------------------
// The information column, block by block
// ---------------------------------------------------------------------------

/// One optional labeled line: present exactly when the field is enabled
/// and its slot holds a value.
pub open spec fn spec_opt_label(
    cs: &ColorScheme,
    show: bool,
    v: Option<String>,
    label: Seq<char>,
) -> Seq<Seq<char>> {
    if show && v is Some {
        seq![spec_label_line(cs, label, v->0@)]
    } else {
        seq![]
    }
}

fn opt_label_lines(cs: &ColorScheme, show: bool, v: &Option<String>, label: &str) -> (r: Vec<
    String,
>)
    ensures
        str_views(r@) == spec_opt_label(cs, show, *v, label@),
{
    let mut r: Vec<String> = Vec::new();
    if show {
        if let Some(s) = v {
            r.push(label_line(cs, label, s.as_str()));
        }
    }
    proof {
        assert(str_views(r@) =~= spec_opt_label(cs, show, *v, label@));
    }
    r
}

/// One optional numeric labeled line, for the process and user counts.
pub open spec fn spec_opt_count(
    cs: &ColorScheme,
    show: bool,
    v: Option<usize>,
    label: Seq<char>,
) -> Seq<Seq<char>> {
    if show && v is Some {
        seq![spec_label_line(cs, label, dec_digits(v->0 as nat))]
    } else {
        seq![]
    }
}

fn opt_count_lines(cs: &ColorScheme, show: bool, v: &Option<usize>, label: &str) -> (r: Vec<
    String,
>)
    ensures
        str_views(r@) == spec_opt_count(cs, show, *v, label@),
{
    let mut r: Vec<String> = Vec::new();
    if show {
        if let Some(n) = v {
            r.push(label_line(cs, label, u64_string(*n as u64).as_str()));
        }
    }
    proof {
        assert(str_views(r@) =~= spec_opt_count(cs, show, *v, label@));
    }
    r
}

/// The identity banner: user-at-host in bold, then a rule of box-drawing
/// dashes as long as the name; present exactly when both identity slots
/// hold values.
pub open spec fn spec_banner_lines(cs: &ColorScheme, user: Option<String>, host: Option<
    String,
>) -> Seq<Seq<char>> {
    if user is Some && host is Some {
        let total = rule_len(user->0@.len(), host->0@.len());
        seq![
            cs.bold@ + cs.primary@ + user->0@ + "@"@ + host->0@,
            cs.muted@ + Seq::new(total, |i: int| '\u{2500}') + cs.reset@,
        ]
    } else {
        seq![]
    }
}

/// The rule under the banner is one dash per character of `user@host`.
pub open spec fn rule_len(ul: nat, hl: nat) -> nat {
    if ul + hl + 1 <= usize::MAX {
        ul + hl + 1
    } else {
        usize::MAX as nat
    }
}

fn banner_lines(cs: &ColorScheme, user: &Option<String>, host: &Option<String>) -> (r: Vec<
    String,
>)
    ensures
        str_views(r@) == spec_banner_lines(cs, *user, *host),
{
    let mut r: Vec<String> = Vec::new();
    if let (Some(u), Some(h)) = (user, host) {
        let mut banner = cs.bold.clone();
        banner.append(cs.primary.as_str());
        banner.append(u.as_str());
        banner.append("@");
        banner.append(h.as_str());
        r.push(banner);
        let ul = u.unicode_len();
        let hl = h.unicode_len();
        let total = if hl < usize::MAX && ul <= usize::MAX - hl - 1 {
            ul + hl + 1
        } else {
            usize::MAX
        };
        let mut rule = cs.muted.clone();
        rule.append(string_of(&repeat_char('\u{2500}', total)).as_str());
        rule.append(cs.reset.as_str());
        r.push(rule);
    }
    proof {
        assert(str_views(r@) =~~= spec_banner_lines(cs, *user, *host));
    }
    r
}

/// The failed-units warning, shown only for a positive count.
pub open spec fn spec_failed_lines(cs: &ColorScheme, show: bool, v: Option<usize>) -> Seq<
    Seq<char>,
> {
    if show && v is Some && v->0 > 0 {
        seq![cs.warning@ + "Failed Units:"@ + cs.reset@ + " "@ + dec_digits(v->0 as nat)]
    } else {
        seq![]
    }
}

fn failed_lines(cs: &ColorScheme, show: bool, v: &Option<usize>) -> (r: Vec<String>)
    ensures
        str_views(r@) == spec_failed_lines(cs, show, *v),
{
    let mut r: Vec<String> = Vec::new();
    if show {
        if let Some(n) = v {
            if *n > 0 {
                let mut line = cs.warning.clone();
                line.append("Failed Units:");
                line.append(cs.reset.as_str());
                line.append(" ");
                line.append(u64_string(*n as u64).as_str());
                r.push(line);
            }
        }
    }
    proof {
        assert(str_views(r@) =~~= spec_failed_lines(cs, show, *v));
    }
    r
}

/// The detail pieces appended to the CPU description: frequency, core
/// and thread counts, and cache, each when enabled and available.
pub open spec fn spec_cpu_details(report: &Report, config: &Config) -> Seq<Seq<char>> {
    (if config.show_cpu_freq && report.cpu_mem.cpu_freq.value is Some {
        seq![report.cpu_mem.cpu_freq.value->0@]
    } else {
        seq![]
    }) + (if config.show_cpu_cores && report.cpu_mem.cpu_cores.value is Some {
        seq![
            dec_digits((report.cpu_mem.cpu_cores.value->0).0 as nat) + "C/"@ + dec_digits(
                (report.cpu_mem.cpu_cores.value->0).1 as nat,
            ) + "T"@,
        ]
    } else {
        seq![]
    }) + (if config.show_cpu_cache && report.cpu_mem.cpu_cache.value is Some {
        seq![report.cpu_mem.cpu_cache.value->0@ + " L3"@]
    } else {
        seq![]
    })
}

/// A parenthesised, comma-joined suffix, empty when there are no pieces.
pub open spec fn spec_detail_str(details: Seq<Seq<char>>) -> Seq<char> {
    if details.len() == 0 {
        Seq::empty()
    } else {
        " ("@ + crate::text::spec_join(details, ", "@) + ")"@
    }
}

fn detail_str(details: &Vec<String>) -> (r: String)
    ensures
        r@ == spec_detail_str(str_views(details@)),
{
    if details.len() == 0 {
        String::new()
    } else {
        let mut s = String::from_str(" (");
        s.append(crate::text::join_str(details, ", ").as_str());
        s.append(")");
        s
    }
}

/// The CPU line: the description with its detail suffix, when enabled
/// and available.
pub open spec fn spec_cpu_lines(report: &Report, config: &Config, cs: &ColorScheme) -> Seq<
    Seq<char>,
> {
    if config.show_cpu && report.cpu_mem.cpu.value is Some {
        seq![
            spec_label_line(cs, "CPU"@, report.cpu_mem.cpu.value->0@ + spec_detail_str(
                spec_cpu_details(report, config),
            )),
        ]
    } else {
        seq![]
    }
}

fn cpu_lines(report: &Report, config: &Config, cs: &ColorScheme) -> (r: Vec<String>)
    ensures
        str_views(r@) == spec_cpu_lines(report, config, cs),
{
    let mut r: Vec<String> = Vec::new();
    if config.show_cpu {
        if let Some(cpu) = &report.cpu_mem.cpu.value {
            let mut details: Vec<String> = Vec::new();
            if config.show_cpu_freq {
                if let Some(f) = &report.cpu_mem.cpu_freq.value {
                    details.push(f.clone());
                }
            }
            if config.show_cpu_cores {
                if let Some(ct) = &report.cpu_mem.cpu_cores.value {
                    let mut piece = u64_string(ct.0 as u64);
                    piece.append("C/");
                    piece.append(u64_string(ct.1 as u64).as_str());
                    piece.append("T");
                    details.push(piece);
                }
            }
            if config.show_cpu_cache {
                if let Some(cache) = &report.cpu_mem.cpu_cache.value {
                    let mut piece = cache.clone();
                    piece.append(" L3");
                    details.push(piece);
                }
            }
            proof {
                assert(str_views(details@) =~~= spec_cpu_details(report, config));
            }
            let mut value = cpu.clone();
            value.append(detail_str(&details).as_str());
            r.push(label_line(cs, "CPU", value.as_str()));
        }
    }
    proof {
        assert(str_views(r@) =~= spec_cpu_lines(report, config, cs));
    }
    r
}

/// One GPU line: the controller description and its detail suffix of
/// temperature and video memory, as far as either is known for index `i`.
pub open spec fn spec_gpu_line(report: &Report, config: &Config, cs: &ColorScheme, i: int)
    -> Seq<char> {
    let gpus = report.gpu.gpu.value->0;
    let details = (match report.gpu.gpu_temps.value {
        Some(ts) => if 0 <= i < ts@.len() && ts@[i] is Some {
            seq![ts@[i]->0@]
        } else {
            seq![]
        },
        None => seq![],
    }) + (if config.show_gpu_vram {
        match report.gpu.gpu_vram.value {
            Some(vs) => if 0 <= i < vs@.len() {
                seq![vs@[i]@]
            } else {
                seq![]
            },
            None => seq![],
        }
    } else {
        seq![]
    });
    spec_label_line(cs, "GPU"@, gpus@[i]@ + spec_detail_str(details))
}

/// The GPU block: one line per detected controller, when enabled.
pub open spec fn spec_gpu_lines(report: &Report, config: &Config, cs: &ColorScheme) -> Seq<
    Seq<char>,
> {
    if config.show_gpu && report.gpu.gpu.value is Some {
        Seq::new(
            report.gpu.gpu.value->0@.len(),
            |i: int| spec_gpu_line(report, config, cs, i),
        )
    } else {
        seq![]
    }
}

fn gpu_lines(report: &Report, config: &Config, cs: &ColorScheme) -> (r: Vec<String>)
    ensures
        str_views(r@) == spec_gpu_lines(report, config, cs),
{
    let mut r: Vec<String> = Vec::new();
    if config.show_gpu {
        if let Some(gpus) = &report.gpu.gpu.value {
            let mut i: usize = 0;
            while i < gpus.len()
                invariant
                    config.show_gpu,
                    report.gpu.gpu.value is Some,
                    gpus == &report.gpu.gpu.value->0,
                    i <= gpus@.len(),
                    r@.len() == i,
                    forall|j: int|
                        0 <= j < i ==> (#[trigger] r@[j]@) == spec_gpu_line(report, config,
                        cs, j),
                decreases gpus@.len() - i,
            {
                let mut details: Vec<String> = Vec::new();
                if let Some(ts) = &report.gpu.gpu_temps.value {
                    if i < ts.len() {
                        if let Some(t) = &ts[i] {
                            details.push(t.clone());
                        }
                    }
                }
                if config.show_gpu_vram {
                    if let Some(vs) = &report.gpu.gpu_vram.value {
                        if i < vs.len() {
                            details.push(vs[i].clone());
                        }
                    }
                }
                let mut value = gpus[i].clone();
                value.append(detail_str(&details).as_str());
                let line = label_line(cs, "GPU", value.as_str());
                proof {
                    assert(str_views(details@) =~= ((match report.gpu.gpu_temps.value {
                        Some(ts) => if 0 <= i < ts@.len() && ts@[i as int] is Some {
                            seq![ts@[i as int]->0@]
                        } else {
                            seq![]
                        },
                        None => seq![],
                    }) + (if config.show_gpu_vram {
                        match report.gpu.gpu_vram.value {
                            Some(vs) => if 0 <= i < vs@.len() {
                                seq![vs@[i as int]@]
                            } else {
                                seq![]
                            },
                            None => seq![],
                        }
                    } else {
                        seq![]
                    })));
                    assert(line@ =~~= spec_gpu_line(report, config, cs, i as int));
                }
                r.push(line);
                i = i + 1;
            }
            proof {
                assert(str_views(r@) =~= spec_gpu_lines(report, config, cs));
            }
            return r;
        }
    }
    proof {
        assert(str_views(r@) =~= spec_gpu_lines(report, config, cs));
    }
    r
}

/// A memory-style line for a used/total pair, when enabled and the pair
/// holds a positive total.
pub open spec fn spec_mem_pair_lines(
    cs: &ColorScheme,
    show: bool,
    v: Option<(u64, u64)>,
    label: Seq<char>,
    fill: Seq<char>,
    muted: Seq<char>,
    use_color: bool,
    bar_width: nat,
) -> Seq<Seq<char>> {
    if show && v is Some && (v->0).1 > 0 {
        let used = (v->0).0;
        let total = (v->0).1;
        seq![
            spec_pair_line(cs, label, used as nat, total as nat, spec_bar(
                spec_pct(used as nat, total as nat) as u8,
                fill,
                muted,
                use_color,
                bar_width,
            )),
        ]
    } else {
        seq![]
    }
}

fn mem_pair_lines(
    cs: &ColorScheme,
    show: bool,
    v: &Option<(u64, u64)>,
    label: &str,
    fill: &str,
    use_color: bool,
    bar_width: usize,
) -> (r: Vec<String>)
    requires
        fill@ == cs.secondary@ || fill@ == cs.warning@,
    ensures
        str_views(r@) == spec_mem_pair_lines(cs, show, *v, label@, fill@, cs.muted@, use_color,
            bar_width as nat),
{
    let mut r: Vec<String> = Vec::new();
    if show {
        if let Some(pair) = v {
            let (used, total) = *pair;
            if total > 0 {
                let percent = usage_percent(used, total);
                let bar = create_bar(percent, fill, cs.muted.as_str(), use_color, bar_width);
                r.push(pair_line(cs, label, used, total, bar.as_str()));
            }
        }
    }
    proof {
        assert(str_views(r@) =~= spec_mem_pair_lines(cs, show, *v, label@, fill@, cs.muted@,
            use_color, bar_width as nat));
    }
    r
}

/// One disk line: the mount point in the label, the usage pair and its
/// bar; an absent total shows an empty bar rather than no line.
pub open spec fn spec_disk_line(cs: &ColorScheme, config: &Config, p: Partition, bar_width:
    nat) -> Seq<char> {
    spec_pair_line(cs, "Disk ("@ + p.mount@ + ")"@, p.used_kib as nat, p.total_kib as nat,
        spec_bar(
        spec_pct(p.used_kib as nat, p.total_kib as nat) as u8,
        cs.secondary@,
        cs.muted@,
        config.use_color,
        bar_width,
    ))
}

/// The disk block: one line per mounted filesystem, when enabled.
pub open spec fn spec_disk_lines(report: &Report, config: &Config, cs: &ColorScheme,
    bar_width: nat) -> Seq<Seq<char>> {
    if config.show_partitions && report.pkg.partitions.value is Some {
        Seq::new(
            report.pkg.partitions.value->0@.len(),
            |i: int| spec_disk_line(cs, config, report.pkg.partitions.value->0@[i], bar_width),
        )
    } else {
        seq![]
    }
}

fn disk_lines(report: &Report, config: &Config, cs: &ColorScheme, bar_width: usize) -> (r:
    Vec<String>)
    ensures
        str_views(r@) == spec_disk_lines(report, config, cs, bar_width as nat),
{
    let mut r: Vec<String> = Vec::new();
    if config.show_partitions {
        if let Some(parts) = &report.pkg.partitions.value {
            let mut i: usize = 0;
            while i < parts.len()
                invariant
                    config.show_partitions,
                    report.pkg.partitions.value is Some,
                    parts == &report.pkg.partitions.value->0,
                    i <= parts@.len(),
                    r@.len() == i,
                    forall|j: int|
                        0 <= j < i ==> (#[trigger] r@[j]@) == spec_disk_line(cs, config,
                        parts@[j], bar_width as nat),
                decreases parts@.len() - i,
            {
                let p = &parts[i];
                let percent = usage_percent(p.used_kib, p.total_kib);
                let bar = create_bar(percent, cs.secondary.as_str(), cs.muted.as_str(),
                    config.use_color, bar_width);
                let mut label = String::from_str("Disk (");
                label.append(p.mount.as_str());
                label.append(")");
                let line = pair_line(cs, label.as_str(), p.used_kib, p.total_kib,
                    bar.as_str());
                proof {
                    assert(label@ =~= "Disk ("@ + p.mount@ + ")"@);
                    assert(line@ =~~= spec_disk_line(cs, config, parts@[i as int],
                        bar_width as nat));
                }
                r.push(line);
                i = i + 1;
            }
            proof {
                assert(str_views(r@) =~= spec_disk_lines(report, config, cs, bar_width as nat));
            }
            return r;
        }
    }
    proof {
        assert(str_views(r@) =~= spec_disk_lines(report, config, cs, bar_width as nat));
    }
    r
}

/// The pieces of one network line: the interface, its address, the ping
/// summary, and either live rates or lifetime totals.
pub open spec fn spec_net_parts(n: NetworkInfo) -> Seq<Seq<char>> {
    seq![n.interface@] + (match n.ipv4 {
        Some(ip) => seq![ip@],
        None => seq![],
    }) + (match n.ping_um {
        Some(p) => seq![
            "["@ + spec_fixed1(((p + 50) / 100) as nat) + "ms"@ + (match n.jitter_um {
                Some(j) => " | \u{b1}"@ + spec_fixed1(((j + 50) / 100) as nat) + "ms"@,
                None => Seq::empty(),
            }) + (match n.loss_mpct {
                Some(l) => " | "@ + dec_digits(((l + 500) / 1000) as nat) + "% loss"@,
                None => Seq::empty(),
            }) + "]"@,
        ],
        None => seq![],
    }) + (if n.rx_rate_cmbs is Some && n.tx_rate_cmbs is Some {
        if n.rx_rate_cmbs->0 > 1 || n.tx_rate_cmbs->0 > 1 {
            seq![
                "\u{2193}"@ + spec_fixed2(n.rx_rate_cmbs->0 as nat) + "MB/s \u{2191}"@
                    + spec_fixed2(n.tx_rate_cmbs->0 as nat) + "MB/s"@,
            ]
        } else {
            seq![]
        }
    } else if n.rx_bytes is Some && n.tx_bytes is Some {
        seq![
            "\u{2193}"@ + spec_format_bytes(n.rx_bytes->0 as nat) + " \u{2191}"@
                + spec_format_bytes(n.tx_bytes->0 as nat),
        ]
    } else {
        seq![]
    })
}

/// One network line: the pieces joined by single spaces.
pub open spec fn spec_net_line(cs: &ColorScheme, n: NetworkInfo) -> Seq<char> {
    spec_label_line(cs, "Network"@, crate::text::spec_join(spec_net_parts(n), " "@))
}

#[verifier::rlimit(100)]
#[verifier::spinoff_prover]
fn net_parts(n: &NetworkInfo) -> (r: Vec<String>)
    ensures
        str_views(r@) == spec_net_parts(*n),
{
    let mut r: Vec<String> = Vec::new();
    r.push(n.interface.clone());
    if let Some(ip) = &n.ipv4 {
        r.push(ip.clone());
    }
    if let Some(p) = &n.ping_um {
        let mut piece = String::from_str("[");
        piece.append(format_fixed1(((*p as u128 + 50) / 100) as u64).as_str());
        piece.append("ms");
        if let Some(j) = &n.jitter_um {
            piece.append(" | \u{b1}");
            piece.append(format_fixed1(((*j as u128 + 50) / 100) as u64).as_str());
            piece.append("ms");
        }
        if let Some(l) = &n.loss_mpct {
            piece.append(" | ");
            piece.append(u64_string(((*l as u128 + 500) / 1000) as u64).as_str());
            piece.append("% loss");
        }
        piece.append("]");
        r.push(piece);
    }
    if let (Some(rx), Some(tx)) = (&n.rx_rate_cmbs, &n.tx_rate_cmbs) {
        if *rx > 1 || *tx > 1 {
            let mut piece = String::from_str("\u{2193}");
            piece.append(format_fixed2(*rx).as_str());
            piece.append("MB/s \u{2191}");
            piece.append(format_fixed2(*tx).as_str());
            piece.append("MB/s");
            r.push(piece);
        }
    } else if let (Some(rx), Some(tx)) = (&n.rx_bytes, &n.tx_bytes) {
        let mut piece = String::from_str("\u{2193}");
        piece.append(format_bytes(*rx).as_str());
        piece.append(" \u{2191}");
        piece.append(format_bytes(*tx).as_str());
        r.push(piece);
    }
    proof {
        assert(str_views(r@) =~~= spec_net_parts(*n));
    }
    r
}

/// The network block: one line per interface, when enabled.
pub open spec fn spec_net_lines(report: &Report, config: &Config, cs: &ColorScheme) -> Seq<
    Seq<char>,
> {
    if config.show_network && report.net.network.value is Some {
        Seq::new(
            report.net.network.value->0@.len(),
            |i: int| spec_net_line(cs, report.net.network.value->0@[i]),
        )
    } else {
        seq![]
    }
}

fn net_lines(report: &Report, config: &Config, cs: &ColorScheme) -> (r: Vec<String>)
    ensures
        str_views(r@) == spec_net_lines(report, config, cs),
{
    let mut r: Vec<String> = Vec::new();
    if config.show_network {
        if let Some(nets) = &report.net.network.value {
            let mut i: usize = 0;
            while i < nets.len()
                invariant
                    config.show_network,
                    report.net.network.value is Some,
                    nets == &report.net.network.value->0,
                    i <= nets@.len(),
                    r@.len() == i,
                    forall|j: int|
                        0 <= j < i ==> (#[trigger] r@[j]@) == spec_net_line(cs, nets@[j]),
                decreases nets@.len() - i,
            {
                let parts = net_parts(&nets[i]);
                let joined = crate::text::join_str(&parts, " ");
                let line = label_line(cs, "Network", joined.as_str());
                proof {
                    assert(line@ =~~= spec_net_line(cs, nets@[i as int]));
                }
                r.push(line);
                i = i + 1;
            }
            proof {
                assert(str_views(r@) =~= spec_net_lines(report, config, cs));
            }
            return r;
        }
    }
    proof {
        assert(str_views(r@) =~= spec_net_lines(report, config, cs));
    }
    r
}

/// The display line, with the resolution appended when that too is
/// enabled and known.
pub open spec fn spec_display_lines(report: &Report, config: &Config, cs: &ColorScheme)
    -> Seq<Seq<char>> {
    if config.show_display && report.disp.display.value is Some {
        let res = if config.show_resolution && report.disp.resolution.value is Some {
            " @ "@ + report.disp.resolution.value->0@
        } else {
            Seq::empty()
        };
        seq![spec_label_line(cs, "Display"@, report.disp.display.value->0@ + res)]
    } else {
        seq![]
    }
}

fn display_lines(report: &Report, config: &Config, cs: &ColorScheme) -> (r: Vec<String>)
    ensures
        str_views(r@) == spec_display_lines(report, config, cs),
{
    let mut r: Vec<String> = Vec::new();
    if config.show_display {
        if let Some(disp) = &report.disp.display.value {
            let mut value = disp.clone();
            if config.show_resolution {
                if let Some(res) = &report.disp.resolution.value {
                    value.append(" @ ");
                    value.append(res.as_str());
                }
            }
            r.push(label_line(cs, "Display", value.as_str()));
        }
    }
    proof {
        assert(str_views(r@) =~~= spec_display_lines(report, config, cs));
    }
    r
}

/// The battery line: capacity, status and a bar colored by charge level.
pub open spec fn spec_battery_lines(report: &Report, config: &Config, cs: &ColorScheme,
    bar_width: nat) -> Seq<Seq<char>> {
    if config.show_battery && report.cpu_mem.battery.value is Some {
        let cap = (report.cpu_mem.battery.value->0).0;
        let status = (report.cpu_mem.battery.value->0).1;
        let fill = if cap > 50 {
            cs.secondary@
        } else if cap > 20 {
            cs.warning@
        } else {
            cs.error@
        };
        seq![
            cs.primary@ + "Battery:"@ + cs.reset@ + " "@ + dec_digits(cap as nat) + "% ("@
                + status@ + ") "@ + spec_bar(cap, fill, cs.muted@, config.use_color, bar_width),
        ]
    } else {
        seq![]
    }
}

fn battery_lines(report: &Report, config: &Config, cs: &ColorScheme, bar_width: usize) -> (r:
    Vec<String>)
    ensures
        str_views(r@) == spec_battery_lines(report, config, cs, bar_width as nat),
{
    let mut r: Vec<String> = Vec::new();
    if config.show_battery {
        if let Some(b) = &report.cpu_mem.battery.value {
            let capacity = b.0;
            let fill = if capacity > 50 {
                cs.secondary.as_str()
            } else if capacity > 20 {
                cs.warning.as_str()
            } else {
                cs.error.as_str()
            };
            let bar = create_bar(capacity, fill, cs.muted.as_str(), config.use_color,
                bar_width);
            let mut line = cs.primary.clone();
            line.append("Battery:");
            line.append(cs.reset.as_str());
            line.append(" ");
            line.append(u64_string(capacity as u64).as_str());
            line.append("% (");
            line.append(b.1.as_str());
            line.append(") ");
            line.append(bar.as_str());
            r.push(line);
        }
    }
    proof {
        assert(str_views(r@) =~~= spec_battery_lines(report, config, cs, bar_width as nat));
    }
    r
}

/// The palette row: a blank spacer and six colored block triples, shown
/// only when color output is on.
pub open spec fn spec_palette_lines(config: &Config, cs: &ColorScheme) -> Seq<Seq<char>> {
    if config.show_colors && config.use_color {
        seq![
            Seq::empty(),
            cs.color1@ + "\u{2588}\u{2588}\u{2588}"@ + cs.color2@ + "\u{2588}\u{2588}\u{2588}"@
                + cs.color3@ + "\u{2588}\u{2588}\u{2588}"@ + cs.color4@
                + "\u{2588}\u{2588}\u{2588}"@ + cs.color5@ + "\u{2588}\u{2588}\u{2588}"@
                + cs.color6@ + "\u{2588}\u{2588}\u{2588}"@ + cs.reset@,
        ]
    } else {
        seq![]
    }
}

fn palette_lines(config: &Config, cs: &ColorScheme) -> (r: Vec<String>)
    ensures
        str_views(r@) == spec_palette_lines(config, cs),
{
    let mut r: Vec<String> = Vec::new();
    if config.show_colors && config.use_color {
        r.push(String::new());
        let mut row = cs.color1.clone();
        row.append("\u{2588}\u{2588}\u{2588}");
        row.append(cs.color2.as_str());
        row.append("\u{2588}\u{2588}\u{2588}");
        row.append(cs.color3.as_str());
        row.append("\u{2588}\u{2588}\u{2588}");
        row.append(cs.color4.as_str());
        row.append("\u{2588}\u{2588}\u{2588}");
        row.append(cs.color5.as_str());
        row.append("\u{2588}\u{2588}\u{2588}");
        row.append(cs.color6.as_str());
        row.append("\u{2588}\u{2588}\u{2588}");
        row.append(cs.reset.as_str());
        r.push(row);
    }
    proof {
        assert(str_views(r@) =~= spec_palette_lines(config, cs));
    }
    r
}

/// Appends one block to the information column, carrying its
/// specification along: the column's view grows by exactly the block's.
fn append_part(lines: &mut Vec<String>, part: Vec<String>, Ghost(spec_part): Ghost<
    Seq<Seq<char>>,
>)
    requires
        str_views(part@) == spec_part,
    ensures
        str_views(final(lines)@) == str_views(old(lines)@) + spec_part,
{
    let mut part = part;
    let ghost prev = lines@;
    lines.append(&mut part);
    proof {
        assert(str_views(lines@) =~= str_views(prev) + spec_part);
    }
}

/// The banner and the system identity block of the information column.
pub open spec fn spec_identity_lines(report: &Report, config: &Config, cs: &ColorScheme,
    bar_width: nat) -> Seq<Seq<char>> {
    spec_banner_lines(cs, report.env.user.value, report.env.hostname.value) + spec_opt_label(cs, config.show_os, report.env.os.value, "OS"@) + spec_opt_label(cs, config.show_kernel, report.env.kernel.value, "Kernel"@) + spec_opt_label(cs, config.show_uptime, report.env.uptime.value, "Uptime"@) + spec_opt_label(cs, config.show_boot_time, report.pkg.boot_time.value, "Boot"@) + spec_failed_lines(cs, config.show_failed_units, report.pkg.failed_units.value) + spec_opt_label(cs, config.show_bootloader, report.pkg.bootloader.value, "Bootloader"@) + spec_opt_label(cs, config.show_packages, report.pkg.packages.value, "Packages"@)
}

#[verifier::rlimit(100)]
#[verifier::spinoff_prover]
fn identity_lines(report: &Report, config: &Config, cs: &ColorScheme, bar_width: usize) -> (r:
    Vec<String>)
    ensures
        str_views(r@) == spec_identity_lines(report, config, cs, bar_width as nat),
{
    let mut lines: Vec<String> = banner_lines(cs, &report.env.user.value,
        &report.env.hostname.value);
    append_part(&mut lines, opt_label_lines(cs, config.show_os, &report.env.os.value, "OS"),
        Ghost(spec_opt_label(cs, config.show_os, report.env.os.value, "OS"@)));
    append_part(&mut lines, opt_label_lines(cs, config.show_kernel, &report.env.kernel.value, "Kernel"), Ghost(spec_opt_label(cs, config.show_kernel, report.env.kernel.value, "Kernel"@)));
    append_part(&mut lines, opt_label_lines(cs, config.show_uptime, &report.env.uptime.value, "Uptime"), Ghost(spec_opt_label(cs, config.show_uptime, report.env.uptime.value, "Uptime"@)));
    append_part(&mut lines, opt_label_lines(cs, config.show_boot_time, &report.pkg.boot_time.value, "Boot"), Ghost(spec_opt_label(cs, config.show_boot_time, report.pkg.boot_time.value, "Boot"@)));
    append_part(&mut lines, failed_lines(cs, config.show_failed_units, &report.pkg.failed_units.value), Ghost(spec_failed_lines(cs, config.show_failed_units, report.pkg.failed_units.value)));
    append_part(&mut lines, opt_label_lines(cs, config.show_bootloader, &report.pkg.bootloader.value, "Bootloader"), Ghost(spec_opt_label(cs, config.show_bootloader, report.pkg.bootloader.value, "Bootloader"@)));
    append_part(&mut lines, opt_label_lines(cs, config.show_packages, &report.pkg.packages.value, "Packages"), Ghost(spec_opt_label(cs, config.show_packages, report.pkg.packages.value, "Packages"@)));
    proof {
        assert(str_views(lines@) == spec_identity_lines(report, config, cs, bar_width as nat));
    }
    lines
}

/// The session block of the information column: shell, desktop, window
/// manager, init, terminal, counts and entropy.
pub open spec fn spec_session_lines(report: &Report, config: &Config, cs: &ColorScheme,
    bar_width: nat) -> Seq<Seq<char>> {
    spec_opt_label(cs, config.show_shell, report.env.shell.value, "Shell"@) + spec_opt_label(cs, config.show_de, report.env.de.value, "DE"@) + spec_opt_label(cs, config.show_wm, report.pkg.wm.value, "WM"@) + spec_opt_label(cs, config.show_init, report.env.init.value, "Init"@) + spec_opt_label(cs, config.show_terminal, report.env.terminal.value, "Terminal"@) + spec_opt_count(cs, config.show_processes, report.cpu_mem.processes.value, "Processes"@) + spec_opt_count(cs, config.show_users, report.cpu_mem.users.value, "Users"@) + spec_opt_label(cs, config.show_entropy, report.cpu_mem.entropy.value, "Entropy"@)
}

#[verifier::rlimit(100)]
#[verifier::spinoff_prover]
fn session_lines(report: &Report, config: &Config, cs: &ColorScheme, bar_width: usize) -> (r:
    Vec<String>)
    ensures
        str_views(r@) == spec_session_lines(report, config, cs, bar_width as nat),
{
    let mut lines: Vec<String> = opt_label_lines(cs, config.show_shell, &report.env.shell.value, "Shell");
    append_part(&mut lines, opt_label_lines(cs, config.show_de, &report.env.de.value, "DE"), Ghost(spec_opt_label(cs, config.show_de, report.env.de.value, "DE"@)));
    append_part(&mut lines, opt_label_lines(cs, config.show_wm, &report.pkg.wm.value, "WM"), Ghost(spec_opt_label(cs, config.show_wm, report.pkg.wm.value, "WM"@)));
    append_part(&mut lines, opt_label_lines(cs, config.show_init, &report.env.init.value, "Init"), Ghost(spec_opt_label(cs, config.show_init, report.env.init.value, "Init"@)));
    append_part(&mut lines, opt_label_lines(cs, config.show_terminal, &report.env.terminal.value, "Terminal"), Ghost(spec_opt_label(cs, config.show_terminal, report.env.terminal.value, "Terminal"@)));
    append_part(&mut lines, opt_count_lines(cs, config.show_processes, &report.cpu_mem.processes.value, "Processes"), Ghost(spec_opt_count(cs, config.show_processes, report.cpu_mem.processes.value, "Processes"@)));
    append_part(&mut lines, opt_count_lines(cs, config.show_users, &report.cpu_mem.users.value, "Users"), Ghost(spec_opt_count(cs, config.show_users, report.cpu_mem.users.value, "Users"@)));
    append_part(&mut lines, opt_label_lines(cs, config.show_entropy, &report.cpu_mem.entropy.value, "Entropy"), Ghost(spec_opt_label(cs, config.show_entropy, report.cpu_mem.entropy.value, "Entropy"@)));
    proof {
        assert(str_views(lines@) == spec_session_lines(report, config, cs, bar_width as nat));
    }
    lines
}

/// The hardware block of the information column: machine identity, CPU,
/// GPU and the memory pairs.
pub open spec fn spec_hardware_lines(report: &Report, config: &Config, cs: &ColorScheme,
    bar_width: nat) -> Seq<Seq<char>> {
    spec_opt_label(cs, config.show_model, report.env.model.value, "Model"@) + spec_opt_label(cs, config.show_motherboard, report.env.motherboard.value, "Mobo"@) + spec_opt_label(cs, config.show_bios, report.env.bios.value, "BIOS"@) + spec_cpu_lines(report, config, cs) + spec_opt_label(cs, config.show_cpu_temp, report.cpu_mem.cpu_temp.value, "CPU Temp"@) + spec_gpu_lines(report, config, cs) + spec_mem_pair_lines(cs, config.show_memory, report.cpu_mem.memory.value, "Memory"@,
        cs.secondary@, cs.muted@, config.use_color, bar_width as nat) + spec_mem_pair_lines(cs, config.show_swap, report.cpu_mem.swap.value, "Swap"@,
        cs.warning@, cs.muted@, config.use_color, bar_width as nat)
}

#[verifier::rlimit(100)]
#[verifier::spinoff_prover]
fn hardware_lines(report: &Report, config: &Config, cs: &ColorScheme, bar_width: usize) -> (r:
    Vec<String>)
    ensures
        str_views(r@) == spec_hardware_lines(report, config, cs, bar_width as nat),
{
    let mut lines: Vec<String> = opt_label_lines(cs, config.show_model, &report.env.model.value, "Model");
    append_part(&mut lines, opt_label_lines(cs, config.show_motherboard, &report.env.motherboard.value, "Mobo"), Ghost(spec_opt_label(cs, config.show_motherboard, report.env.motherboard.value, "Mobo"@)));
    append_part(&mut lines, opt_label_lines(cs, config.show_bios, &report.env.bios.value, "BIOS"), Ghost(spec_opt_label(cs, config.show_bios, report.env.bios.value, "BIOS"@)));
    append_part(&mut lines, cpu_lines(report, config, cs), Ghost(spec_cpu_lines(report, config, cs)));
    append_part(&mut lines, opt_label_lines(cs, config.show_cpu_temp, &report.cpu_mem.cpu_temp.value, "CPU Temp"), Ghost(spec_opt_label(cs, config.show_cpu_temp, report.cpu_mem.cpu_temp.value, "CPU Temp"@)));
    append_part(&mut lines, gpu_lines(report, config, cs), Ghost(spec_gpu_lines(report, config, cs)));
    append_part(&mut lines, mem_pair_lines(cs, config.show_memory, &report.cpu_mem.memory.value, "Memory",
        cs.secondary.as_str(), config.use_color, bar_width), Ghost(spec_mem_pair_lines(cs, config.show_memory, report.cpu_mem.memory.value, "Memory"@,
        cs.secondary@, cs.muted@, config.use_color, bar_width as nat)));
    append_part(&mut lines, mem_pair_lines(cs, config.show_swap, &report.cpu_mem.swap.value, "Swap",
        cs.warning.as_str(), config.use_color, bar_width), Ghost(spec_mem_pair_lines(cs, config.show_swap, report.cpu_mem.swap.value, "Swap"@,
        cs.warning@, cs.muted@, config.use_color, bar_width as nat)));
    proof {
        assert(str_views(lines@) == spec_hardware_lines(report, config, cs, bar_width as nat));
    }
    lines
}

/// The closing block of the information column: disks, network,
/// addresses, desktop looks, battery and the palette row.
pub open spec fn spec_tail_lines(report: &Report, config: &Config, cs: &ColorScheme,
    bar_width: nat) -> Seq<Seq<char>> {
    spec_disk_lines(report, config, cs, bar_width as nat) + spec_net_lines(report, config, cs) + spec_opt_label(cs, config.show_public_ip, report.pkg.public_ip.value, "Public IP"@) + spec_display_lines(report, config, cs) + spec_opt_label(cs, config.show_locale, report.env.locale.value, "Locale"@) + spec_opt_label(cs, config.show_theme, report.pkg.theme.value, "Theme"@) + spec_opt_label(cs, config.show_icons, report.pkg.icons.value, "Icons"@) + spec_opt_label(cs, config.show_font, report.pkg.font.value, "Font"@) + spec_battery_lines(report, config, cs, bar_width as nat) + spec_palette_lines(config, cs)
}

#[verifier::rlimit(100)]
#[verifier::spinoff_prover]
fn tail_lines(report: &Report, config: &Config, cs: &ColorScheme, bar_width: usize) -> (r:
    Vec<String>)
    ensures
        str_views(r@) == spec_tail_lines(report, config, cs, bar_width as nat),
{
    let mut lines: Vec<String> = disk_lines(report, config, cs, bar_width);
    append_part(&mut lines, net_lines(report, config, cs), Ghost(spec_net_lines(report, config, cs)));
    append_part(&mut lines, opt_label_lines(cs, config.show_public_ip, &report.pkg.public_ip.value, "Public IP"), Ghost(spec_opt_label(cs, config.show_public_ip, report.pkg.public_ip.value, "Public IP"@)));
    append_part(&mut lines, display_lines(report, config, cs), Ghost(spec_display_lines(report, config, cs)));
    append_part(&mut lines, opt_label_lines(cs, config.show_locale, &report.env.locale.value, "Locale"), Ghost(spec_opt_label(cs, config.show_locale, report.env.locale.value, "Locale"@)));
    append_part(&mut lines, opt_label_lines(cs, config.show_theme, &report.pkg.theme.value, "Theme"), Ghost(spec_opt_label(cs, config.show_theme, report.pkg.theme.value, "Theme"@)));
    append_part(&mut lines, opt_label_lines(cs, config.show_icons, &report.pkg.icons.value, "Icons"), Ghost(spec_opt_label(cs, config.show_icons, report.pkg.icons.value, "Icons"@)));
    append_part(&mut lines, opt_label_lines(cs, config.show_font, &report.pkg.font.value, "Font"), Ghost(spec_opt_label(cs, config.show_font, report.pkg.font.value, "Font"@)));
    append_part(&mut lines, battery_lines(report, config, cs, bar_width), Ghost(spec_battery_lines(report, config, cs, bar_width as nat)));
    append_part(&mut lines, palette_lines(config, cs), Ghost(spec_palette_lines(config, cs)));
    proof {
        assert(str_views(lines@) == spec_tail_lines(report, config, cs, bar_width as nat));
    }
    lines
}

/// The whole information column, in the fixed display order: exactly one
/// line per enabled field whose slot holds a value, the banner when both
/// identity slots hold values, and the decorations of the blocks above.
pub open spec fn spec_info_lines(report: &Report, config: &Config, cs: &ColorScheme,
    bar_width: nat) -> Seq<Seq<char>> {
    spec_identity_lines(report, config, cs, bar_width) + spec_session_lines(report, config,
        cs, bar_width) + spec_hardware_lines(report, config, cs, bar_width) + spec_tail_lines(
        report,
        config,
        cs,
        bar_width,
    )
}

/// The information column of one frame.
#[verifier::rlimit(100)]
#[verifier::spinoff_prover]
pub fn info_lines(report: &Report, config: &Config, cs: &ColorScheme, bar_width: usize) -> (r:
    Vec<String>)
    ensures
        str_views(r@) == spec_info_lines(report, config, cs, bar_width as nat),
{
    let mut lines = identity_lines(report, config, cs, bar_width);
    append_part(&mut lines, session_lines(report, config, cs, bar_width), Ghost(spec_session_lines(report, config, cs,
            bar_width as nat)));
    append_part(&mut lines, hardware_lines(report, config, cs, bar_width), Ghost(spec_hardware_lines(report, config, cs,
            bar_width as nat)));
    let mut part = tail_lines(report, config, cs, bar_width);
    let ghost prev = lines@;
    lines.append(&mut part);
    proof {
        assert(str_views(lines@) =~= str_views(prev) + spec_tail_lines(report, config, cs,
            bar_width as nat));
        assert(str_views(lines@) == spec_info_lines(report, config, cs, bar_width as nat));
    }
    lines
}

// ---------------------------------------------------------------------------
// Frame composition
// ---------------------------------------------------------------------------

/// The width of the logo column: the widest logo line, measured without
/// trailing whitespace and without escape sequences.
pub open spec fn spec_logo_col_width(ls: Seq<Seq<char>>) -> nat
    decreases ls.len(),
{
    if ls.len() == 0 {
        0
    } else {
        let head = spec_visible_len(crate::text::spec_trim_end(ls[0]), false);
        let rest = spec_logo_col_width(ls.skip(1));
        if head >= rest {
            head
        } else {
            rest
        }
    }
}

pub fn logo_width_of(logo: &Vec<String>) -> (r: usize)
    ensures
        r as nat == spec_logo_col_width(str_views(logo@)),
{
    let mut w: usize = 0;
    let mut i: usize = logo.len();
    while i > 0
        invariant
            i <= logo@.len(),
            w as nat == spec_logo_col_width(str_views(logo@).skip(i as int)),
        decreases i,
    {
        i = i - 1;
        let trimmed = string_of(&crate::text::trim_end_vec(&chars_of(logo[i].as_str())));
        let n = visible_len(trimmed.as_str());
        if n > w {
            w = n;
        }
        proof {
            assert(str_views(logo@).skip(i as int)[0] == logo@[i as int]@);
            assert(str_views(logo@).skip(i as int).skip(1) =~= str_views(logo@).skip(i + 1));
        }
    }
    proof {
        assert(str_views(logo@).skip(0) =~= str_views(logo@));
    }
    w
}

/// One line of the composed frame: the colored logo cell, padding to the
/// logo column width, two spaces, then the information cell.
pub open spec fn spec_frame_line(
    cs: &ColorScheme,
    logo_part: Seq<char>,
    logo_width: nat,
    info_part: Seq<char>,
) -> Seq<char> {
    let shown = spec_visible_len(logo_part, false);
    let pad = if logo_width >= shown {
        (logo_width - shown) as nat
    } else {
        0
    };
    cs.primary@ + logo_part + cs.reset@ + Seq::new(pad, |i: int| ' ') + "  "@ + info_part
}

/// The whole frame: as many lines as the longer column, the shorter
/// blank-padded, each information cell truncated to the available width.
pub open spec fn spec_compose(
    cs: &ColorScheme,
    logo: Seq<Seq<char>>,
    info: Seq<Seq<char>>,
    logo_width: nat,
    info_width: nat,
) -> Seq<Seq<char>> {
    let total = if logo.len() >= info.len() {
        logo.len()
    } else {
        info.len()
    };
    Seq::new(
        total,
        |i: int| spec_frame_line(
            cs,
            if i < logo.len() {
                logo[i]
            } else {
                Seq::empty()
            },
            logo_width,
            if i < info.len() {
                spec_truncate_ansi(info[i], info_width)
            } else {
                Seq::empty()
            },
        ),
    )
}

pub fn compose_frame(
    cs: &ColorScheme,
    logo: &Vec<String>,
    info: &Vec<String>,
    logo_width: usize,
    info_width: usize,
) -> (r: Vec<String>)
    ensures
        str_views(r@) == spec_compose(cs, str_views(logo@), str_views(info@),
            logo_width as nat, info_width as nat),
        r@.len() == (if logo@.len() >= info@.len() {
            logo@.len()
        } else {
            info@.len()
        }),
{
    proof {
        reveal_strlit("");
        assert(""@ =~= Seq::<char>::empty());
    }
    let total = if logo.len() >= info.len() {
        logo.len()
    } else {
        info.len()
    };
    let mut r: Vec<String> = Vec::new();
    let mut i: usize = 0;
    while i < total
        invariant
            total == (if logo@.len() >= info@.len() {
                logo@.len()
            } else {
                info@.len()
            }),
            i <= total,
            r@.len() == i,
            forall|j: int|
                0 <= j < i ==> (#[trigger] r@[j]@) == spec_compose(cs, str_views(logo@),
                str_views(info@), logo_width as nat, info_width as nat)[j],
        decreases total - i,
    {
        let logo_part: &str = if i < logo.len() {
            logo[i].as_str()
        } else {
            ""
        };
        let shown = visible_len(logo_part);
        let pad = if logo_width >= shown {
            logo_width - shown
        } else {
            0
        };
        let mut line = cs.primary.clone();
        line.append(logo_part);
        line.append(cs.reset.as_str());
        line.append(string_of(&repeat_char(' ', pad)).as_str());
        line.append("  ");
        if i < info.len() {
            line.append(truncate_ansi(info[i].as_str(), info_width).as_str());
        }
        proof {
            let lp = if i < logo@.len() {
                str_views(logo@)[i as int]
            } else {
                Seq::<char>::empty()
            };
            let ip = if i < info@.len() {
                spec_truncate_ansi(str_views(info@)[i as int], info_width as nat)
            } else {
                Seq::<char>::empty()
            };
            reveal_strlit("");
            assert(""@ =~= Seq::<char>::empty());
            if i < logo.len() {
                assert(str_views(logo@)[i as int] == logo@[i as int]@);
            }
            assert(logo_part@ =~= lp);
            assert(shown == spec_visible_len(lp, false));
            assert(line@ =~= cs.primary@ + lp + cs.reset@ + Seq::new(pad as nat, |k: int| ' ')
                + "  "@ + ip);
            assert(line@ == spec_frame_line(cs, lp, logo_width as nat, ip));
            assert(spec_compose(cs, str_views(logo@), str_views(info@), logo_width as nat,
                info_width as nat)[i as int] == spec_frame_line(cs, lp, logo_width as nat,
                ip));
        }
        r.push(line);
        i = i + 1;
    }
    proof {
        assert(str_views(r@) =~= spec_compose(cs, str_views(logo@), str_views(info@),
            logo_width as nat, info_width as nat));
    }
    r
}

/// The information-column width for a terminal of the given width: what
/// is left beside the logo column and the two-space gutter, but at least
/// sixty cells.
pub open spec fn spec_info_width(term_width: nat, logo_width: nat) -> nat {
    let avail = if term_width > logo_width && term_width - logo_width > 2 {
        (term_width - logo_width - 2) as nat
    } else {
        0
    };
    if avail > 60 {
        avail
    } else {
        60
    }
}

/// The usage-bar width: what the information column can spare beyond the
/// text, held between two and twenty-five cells.
pub open spec fn spec_bar_width(info_width: nat) -> nat {
    let reduced = if info_width > 40 {
        (info_width - 40) as nat
    } else {
        0
    };
    if reduced < 2 {
        2
    } else if reduced > 25 {
        25
    } else {
        reduced
    }
}

/// One frame for the given snapshot: the information column beside the
/// logo column, sized to the terminal width.
pub open spec fn spec_render(
    report: &Report,
    config: &Config,
    logo: Seq<Seq<char>>,
    cs: &ColorScheme,
    term_width: nat,
) -> Seq<Seq<char>> {
    let logo_width = spec_logo_col_width(logo);
    let info_width = spec_info_width(term_width, logo_width);
    let bar_width = spec_bar_width(info_width);
    spec_compose(cs, logo, spec_info_lines(report, config, cs, bar_width), logo_width,
        info_width)
}

/// Renders one frame. The result is a function of the arguments alone,
/// stated by the equation below, so two calls on identical snapshots,
/// configuration, logo, colors and width produce identical lines.
pub fn render(report: &Report, config: &Config, logo: &Vec<String>, cs: &ColorScheme,
    term_width: usize) -> (r: Vec<String>)
    ensures
        str_views(r@) == spec_render(report, config, str_views(logo@), cs, term_width as nat),
        r@.len() >= logo@.len(),
{
    let logo_width = logo_width_of(logo);
    let avail = if term_width > logo_width && term_width - logo_width > 2 {
        term_width - logo_width - 2
    } else {
        0
    };
    let info_width = if avail > 60 {
        avail
    } else {
        60
    };
    let reduced = if info_width > 40 {
        info_width - 40
    } else {
        0
    };
    let bar_width = if reduced < 2 {
        2
    } else if reduced > 25 {
        25
    } else {
        reduced
    };
    let info = info_lines(report, config, cs, bar_width);
    compose_frame(cs, logo, &info, logo_width, info_width)
}

} // verus!
