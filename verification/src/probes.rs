//! The computing halves of the probes.
//!
//! Reading a file, an environment variable or a command's output happens
//! outside this crate; each function here takes that raw text as a plain
//! value and computes the displayable result, so the parsing and the
//! decision rules are verified while the I/O stays at the edge.

use vstd::prelude::*;
use vstd::string::StringExecFns;

use crate::report::{NetworkInfo, Partition};
use crate::text::{all_digits, chars_of, dec_digits, dec_val, digit_test, fields_vec, find_char,
    is_digit, lines_vec, padded_dec, parse_u64, spec_fields, spec_lines, spec_trim, string_of,
    trim_vec, u64_padded, u64_string};

verus! {

/// The number of non-blank lines of a command's output: how `who` and
/// `systemctl --failed` outputs are counted.
pub open spec fn nonblank_line_count(s: Seq<char>) -> nat {
    spec_lines(s).filter(|l: Seq<char>| spec_trim(l).len() > 0).len()
}

fn count_nonblank_lines(s: &str) -> (r: usize)
    ensures
        r == nonblank_line_count(s@),
{
    let v = chars_of(s);
    let ls = lines_vec(&v);
    let mut count: usize = 0;
    let mut i: usize = 0;
    while i < ls.len()
        invariant
            i <= ls@.len(),
            crate::text::views(ls@) == spec_lines(v@),
            count == crate::text::views(ls@).subrange(0, i as int).filter(
                |l: Seq<char>| spec_trim(l).len() > 0,
            ).len(),
            count <= i,
        decreases ls@.len() - i,
    {
        let t = trim_vec(&ls[i]);
        proof {
            let pre = crate::text::views(ls@).subrange(0, i as int);
            let cur = crate::text::views(ls@).subrange(0, i + 1);
            assert(cur.drop_last() =~= pre);
            assert(cur.last() == ls@[i as int]@);
            reveal_with_fuel(Seq::filter, 2);
        }
        if t.len() > 0 {
            count = count + 1;
        }
        i = i + 1;
    }
    proof {
        assert(crate::text::views(ls@).subrange(0, ls@.len() as int) =~= crate::text::views(
            ls@,
        ));
    }
    count
}

/// Which init system is installed, decided from which of its signature
/// paths exist: the systemd run directory, the OpenRC binary, the runit
/// configuration directory.
pub fn get_init(systemd: bool, openrc: bool, runit: bool) -> (r: Option<String>)
    ensures
        systemd ==> (r matches Some(s) && s@ == "systemd"@),
        !systemd && openrc ==> (r matches Some(s) && s@ == "OpenRC"@),
        !systemd && !openrc && runit ==> (r matches Some(s) && s@ == "runit"@),
        !systemd && !openrc && !runit ==> r is None,
{
    if systemd {
        Some(String::from_str("systemd"))
    } else if openrc {
        Some(String::from_str("OpenRC"))
    } else if runit {
        Some(String::from_str("runit"))
    } else {
        None
    }
}

/// The entropy display: available bits over pool size, with a default
/// pool size when the pool file cannot be read.
pub fn get_entropy(avail: Option<String>, pool: Option<String>) -> (r: Option<String>)
    ensures
        avail is None ==> r is None,
        avail matches Some(a) ==> (r matches Some(s) && s@ == a@ + "/"@ + (match pool {
            Some(p) => p@,
            None => "4096"@,
        })),
{
    match avail {
        None => None,
        Some(a) => {
            let mut s = a;
            s.append("/");
            match pool {
                Some(p) => { s.append(p.as_str()) },
                None => { s.append("4096") },
            }
            Some(s)
        },
    }
}

/// How many users are logged in: the non-blank lines of `who`, else the
/// words of `users`, else one for the user running the program.
pub fn get_users_count(who_out: Option<String>, users_out: Option<String>) -> (r: Option<
    usize,
>)
    ensures
        r matches Some(n) && n as nat == ({
            let wn = match who_out {
                Some(w) => nonblank_line_count(w@),
                None => 0,
            };
            let un = match users_out {
                Some(u) => spec_fields(u@).len(),
                None => 0,
            };
            if wn > 0 {
                wn
            } else if un > 0 {
                un
            } else {
                1
            }
        }),
{
    if let Some(w) = who_out {
        let n = count_nonblank_lines(w.as_str());
        if n > 0 {
            return Some(n);
        }
    }
    if let Some(u) = users_out {
        let v = chars_of(u.as_str());
        let fs = fields_vec(&v);
        if fs.len() > 0 {
            return Some(fs.len());
        }
    }
    Some(1)
}

/// How many systemd units have failed: the non-blank lines of the
/// `systemctl` listing, or nothing when the listing is unavailable.
pub fn get_failed_units(out: Option<String>) -> (r: Option<usize>)
    ensures
        out is None ==> r is None,
        out matches Some(s) ==> r == Some(nonblank_line_count(s@) as usize),
{
    match out {
        None => None,
        Some(s) => Some(count_nonblank_lines(s.as_str())),
    }
}

/// The hardware model: vendor and product joined by one space, trimmed,
/// or nothing when both files were unavailable or empty.
pub fn get_model(vendor: Option<String>, product: Option<String>) -> (r: Option<String>)
    ensures
        ({
            let v = match vendor {
                Some(s) => s@,
                None => Seq::<char>::empty(),
            };
            let p = match product {
                Some(s) => s@,
                None => Seq::<char>::empty(),
            };
            if v.len() == 0 && p.len() == 0 {
                r is None
            } else {
                r matches Some(s) && s@ == spec_trim(v + " "@ + p)
            }
        }),
{
    let v = match vendor {
        Some(s) => s,
        None => String::new(),
    };
    let p = match product {
        Some(s) => s,
        None => String::new(),
    };
    if v.unicode_len() == 0 && p.unicode_len() == 0 {
        return None;
    }
    let mut joined = v;
    joined.append(" ");
    joined.append(p.as_str());
    let cs = chars_of(joined.as_str());
    let t = trim_vec(&cs);
    Some(string_of(&t))
}

/// The motherboard name is the trimmed board-name file, when readable.
pub fn get_motherboard(content: Option<String>) -> (r: Option<String>)
    ensures
        content is None ==> r is None,
        content matches Some(s) ==> r matches Some(t) && t@ == spec_trim(s@),
{
    match content {
        None => None,
        Some(s) => {
            let v = chars_of(s.as_str());
            let t = trim_vec(&v);
            Some(string_of(&t))
        },
    }
}

/// The BIOS version is the trimmed version file, when readable.
pub fn get_bios(content: Option<String>) -> (r: Option<String>)
    ensures
        content is None ==> r is None,
        content matches Some(s) ==> r matches Some(t) && t@ == spec_trim(s@),
{
    get_motherboard(content)
}

/// The public address is whatever the address service answered, trimmed.
pub fn get_public_ip(response: Option<String>) -> (r: Option<String>)
    ensures
        response is None ==> r is None,
        response matches Some(s) ==> r matches Some(t) && t@ == spec_trim(s@),
{
    get_motherboard(response)
}

/// The kernel release is the trimmed content of the release file.
pub fn get_kernel(content: Option<String>) -> (r: Option<String>)
    ensures
        content is None ==> r is None,
        content matches Some(s) ==> r matches Some(t) && t@ == spec_trim(s@),
{
    get_motherboard(content)
}

/// The hostname is the trimmed content of the hostname file.
pub fn get_hostname(content: Option<String>) -> (r: Option<String>)
    ensures
        content is None ==> r is None,
        content matches Some(s) ==> r matches Some(t) && t@ == spec_trim(s@),
{
    get_motherboard(content)
}

/// The shell is the last path component of the `SHELL` variable.
pub fn get_shell(shell_env: Option<String>) -> (r: Option<String>)
    ensures
        shell_env is None ==> r is None,
        shell_env is Some ==> r is Some,
        r matches Some(t) ==> (shell_env matches Some(s) && crate::text::is_suffix(s@, t@) && (
        t@.len() == s@.len() || s@[s@.len() - t@.len() - 1] == '/') && (forall|j: int|
            0 <= j < t@.len() ==> t@[j] != '/')),
{
    match shell_env {
        None => None,
        Some(s) => {
            let v = chars_of(s.as_str());
            let n = v.len();
            match crate::text::rfind_char(&v, '/') {
                Some(i) => {
                    let part = crate::text::sub_vec(&v, i + 1, n);
                    let t = string_of(&part);
                    proof {
                        assert(s@.subrange(s@.len() - t@.len(), s@.len() as int) =~= t@);
                        assert forall|j: int| 0 <= j < t@.len() implies t@[j] != '/' by {
                            assert(s@[i + 1 + j] != '/');
                        }
                    }
                    Some(t)
                },
                None => {
                    proof {
                        assert(s@.subrange(0, s@.len() as int) =~= s@);
                    }
                    Some(s)
                },
            }
        },
    }
}

/// The desktop environment comes from the first of the two session
/// variables that is set.
pub fn get_de(xdg: Option<String>, session: Option<String>) -> (r: Option<String>)
    ensures
        xdg matches Some(s) ==> r == Some(s),
        xdg is None ==> r == session,
{
    match xdg {
        Some(s) => Some(s),
        None => session,
    }
}

/// The value of the first meminfo line that starts with `key` and whose
/// second field is a number.
pub open spec fn spec_meminfo_field(ls: Seq<Seq<char>>, key: Seq<char>) -> Option<nat>
    decreases ls.len(),
{
    if ls.len() == 0 {
        None
    } else if crate::text::is_prefix(ls[0], key) && spec_fields(ls[0]).len() >= 2
        && spec_fields(ls[0])[1].len() > 0 && all_digits(spec_fields(ls[0])[1]) && dec_val(
        spec_fields(ls[0])[1],
    ) <= u64::MAX {
        Some(dec_val(spec_fields(ls[0])[1]))
    } else {
        spec_meminfo_field(ls.skip(1), key)
    }
}

pub proof fn lemma_meminfo_field_bound(ls: Seq<Seq<char>>, key: Seq<char>)
    ensures
        spec_meminfo_field(ls, key) matches Some(n) ==> n <= u64::MAX,
    decreases ls.len(),
{
    if ls.len() > 0 {
        lemma_meminfo_field_bound(ls.skip(1), key);
    }
}

/// The memory pair a meminfo file yields: total minus available over
/// total, floored at zero, absent unless the total is positive.
pub open spec fn spec_mem_pair(total: Option<nat>, free: Option<nat>) -> Option<(u64, u64)> {
    let t = match total {
        Some(n) => n,
        None => 0,
    };
    let f = match free {
        Some(n) => n,
        None => 0,
    };
    if t > 0 {
        Some(((if f <= t { (t - f) as nat } else { 0 }) as u64, t as u64))
    } else {
        None
    }
}

/// The memory and swap pairs, in KiB, from one read of the meminfo file:
/// used memory is total minus available, used swap is total minus free,
/// and a zero or missing total means the pair is unavailable.
pub fn get_memory_and_swap(content: Option<String>) -> (r: (
    Option<(u64, u64)>,
    Option<(u64, u64)>,
))
    ensures
        content is None ==> r.0 is None && r.1 is None,
        content matches Some(s) ==> ({
            let ls = spec_lines(s@);
            r.0 == spec_mem_pair(spec_meminfo_field(ls, "MemTotal:"@), spec_meminfo_field(
                ls,
                "MemAvailable:"@,
            )) && r.1 == spec_mem_pair(spec_meminfo_field(ls, "SwapTotal:"@),
            spec_meminfo_field(ls, "SwapFree:"@))
        }),
{
    let text = match content {
        Some(s) => s,
        None => {
            return (None, None);
        },
    };
    let v = chars_of(text.as_str());
    let ls = lines_vec(&v);
    let mem_total = meminfo_first(&ls, "MemTotal:");
    let mem_avail = meminfo_first(&ls, "MemAvailable:");
    let swap_total = meminfo_first(&ls, "SwapTotal:");
    let swap_free = meminfo_first(&ls, "SwapFree:");
    proof {
        assert(crate::text::views(ls@) == spec_lines(text@));
        lemma_meminfo_field_bound(crate::text::views(ls@), "MemTotal:"@);
        lemma_meminfo_field_bound(crate::text::views(ls@), "MemAvailable:"@);
        lemma_meminfo_field_bound(crate::text::views(ls@), "SwapTotal:"@);
        lemma_meminfo_field_bound(crate::text::views(ls@), "SwapFree:"@);
    }
    let mem = pair_of(mem_total, mem_avail);
    let swap = pair_of(swap_total, swap_free);
    (mem, swap)
}

/// One used/total pair from its two meminfo fields.
fn pair_of(total: Option<u64>, free: Option<u64>) -> (r: Option<(u64, u64)>)
    ensures
        r == spec_mem_pair(
            match total {
                Some(n) => Some(n as nat),
                None => None,
            },
            match free {
                Some(n) => Some(n as nat),
                None => None,
            },
        ),
{
    let t = match total {
        Some(n) => n,
        None => 0,
    };
    let f = match free {
        Some(n) => n,
        None => 0,
    };
    if t > 0 {
        Some((if f <= t { t - f } else { 0 }, t))
    } else {
        None
    }
}

/// The first line of the file that starts with `key` and carries a
/// numeric second field.
fn meminfo_first(ls: &Vec<Vec<char>>, key: &str) -> (r: Option<u64>)
    ensures
        r == (match spec_meminfo_field(crate::text::views(ls@), key@) {
            Some(n) => Some(n as u64),
            None => None::<u64>,
        }),
{
    let k = chars_of(key);
    let mut i: usize = 0;
    proof {
        assert(crate::text::views(ls@).skip(0) =~= crate::text::views(ls@));
    }
    while i < ls.len()
        invariant
            k@ == key@,
            i <= ls@.len(),
            spec_meminfo_field(crate::text::views(ls@), key@) == spec_meminfo_field(
                crate::text::views(ls@).skip(i as int),
                key@,
            ),
        decreases ls@.len() - i,
    {
        proof {
            assert(crate::text::views(ls@).skip(i as int)[0] == ls@[i as int]@);
            assert(crate::text::views(ls@).skip(i as int).skip(1) =~= crate::text::views(
                ls@,
            ).skip(i + 1));
        }
        let line = &ls[i];
        if crate::text::starts_with_sub(line, &k) {
            let fs = fields_vec(line);
            if fs.len() >= 2 {
                if let Some(n) = parse_u64(&fs[1]) {
                    return Some(n);
                }
            }
        }
        i = i + 1;
    }
    proof {
        assert(crate::text::views(ls@).skip(ls@.len() as int) =~= Seq::<Seq<char>>::empty());
    }
    None
}

/// The numeric second field of the first line starting with `key`;
/// nothing when that line has no such field, whatever follows it.
pub open spec fn spec_keyed_number(ls: Seq<Seq<char>>, key: Seq<char>) -> Option<nat>
    decreases ls.len(),
{
    if ls.len() == 0 {
        None
    } else if crate::text::is_prefix(ls[0], key) {
        if spec_fields(ls[0]).len() >= 2 && spec_fields(ls[0])[1].len() > 0 && all_digits(
            spec_fields(ls[0])[1],
        ) && dec_val(spec_fields(ls[0])[1]) <= u64::MAX {
            Some(dec_val(spec_fields(ls[0])[1]))
        } else {
            None
        }
    } else {
        spec_keyed_number(ls.skip(1), key)
    }
}

/// The second field itself of the first line starting with `key`.
pub open spec fn spec_keyed_field(ls: Seq<Seq<char>>, key: Seq<char>) -> Option<Seq<char>>
    decreases ls.len(),
{
    if ls.len() == 0 {
        None
    } else if crate::text::is_prefix(ls[0], key) {
        if spec_fields(ls[0]).len() >= 2 {
            Some(spec_fields(ls[0])[1])
        } else {
            None
        }
    } else {
        spec_keyed_field(ls.skip(1), key)
    }
}

/// The trimmed remainder of the first line starting with `key`.
pub open spec fn spec_keyed_rest(ls: Seq<Seq<char>>, key: Seq<char>) -> Option<Seq<char>>
    decreases ls.len(),
{
    if ls.len() == 0 {
        None
    } else if crate::text::is_prefix(ls[0], key) {
        Some(spec_trim(ls[0].skip(key.len() as int)))
    } else {
        spec_keyed_rest(ls.skip(1), key)
    }
}

/// The value of the first os-release line naming the pretty name, one
/// layer of surrounding double quotes removed.
pub open spec fn strip_quotes(v: Seq<char>) -> Seq<char> {
    if v.len() >= 2 && v[0] == '"' && v[v.len() - 1] == '"' {
        v.subrange(1, v.len() - 1)
    } else {
        v
    }
}

pub open spec fn spec_os_name(ls: Seq<Seq<char>>) -> Option<Seq<char>>
    decreases ls.len(),
{
    if ls.len() == 0 {
        None
    } else if crate::text::is_prefix(ls[0], "PRETTY_NAME="@) {
        Some(strip_quotes(ls[0].skip("PRETTY_NAME="@.len() as int)))
    } else {
        spec_os_name(ls.skip(1))
    }
}

/// The operating system's pretty name from the os-release file: the value
/// of its first `PRETTY_NAME` entry with surrounding quotes removed, or
/// nothing when the file is unavailable or has no such entry.
pub fn get_os(content: Option<String>) -> (r: Option<String>)
    ensures
        content is None ==> r is None,
        content matches Some(s) ==> ((r matches Some(t) && spec_os_name(spec_lines(s@))
            == Some(t@)) || (r is None && spec_os_name(spec_lines(s@)) is None)),
{
    let text = match content {
        Some(s) => s,
        None => {
            return None;
        },
    };
    let v = chars_of(text.as_str());
    let ls = lines_vec(&v);
    let prefix = chars_of("PRETTY_NAME=");
    let mut i: usize = 0;
    proof {
        assert(crate::text::views(ls@).skip(0) =~= crate::text::views(ls@));
    }
    while i < ls.len()
        invariant
            content is Some,
            prefix@ == "PRETTY_NAME="@,
            crate::text::views(ls@) == spec_lines(content->0@),
            i <= ls@.len(),
            spec_os_name(crate::text::views(ls@)) == spec_os_name(crate::text::views(
                ls@,
            ).skip(i as int)),
        decreases ls@.len() - i,
    {
        proof {
            assert(crate::text::views(ls@).skip(i as int)[0] == ls@[i as int]@);
            assert(crate::text::views(ls@).skip(i as int).skip(1) =~= crate::text::views(
                ls@,
            ).skip(i + 1));
        }
        if crate::text::starts_with_sub(&ls[i], &prefix) {
            let line = &ls[i];
            let mut value = crate::text::sub_vec(line, prefix.len(), line.len());
            proof {
                assert(value@ =~= ls@[i as int]@.skip("PRETTY_NAME="@.len() as int));
            }
            if value.len() >= 2 && value[0] == '"' && value[value.len() - 1] == '"' {
                value = crate::text::sub_vec(&value, 1, value.len() - 1);
            }
            return Some(string_of(&value));
        }
        i = i + 1;
    }
    proof {
        assert(crate::text::views(ls@).skip(ls@.len() as int) =~= Seq::<Seq<char>>::empty());
    }
    None
}

/// The uptime display from whole seconds of uptime: days, hours and
/// minutes, dropping the leading units that are zero.
pub fn format_uptime(seconds: u64) -> (r: String)
    ensures
        r@ == spec_uptime(seconds as nat),
{
    let days = seconds / 86400;
    let hours = (seconds % 86400) / 3600;
    let mins = (seconds % 3600) / 60;
    if days > 0 {
        let mut s = u64_string(days);
        s.append("d ");
        s.append(u64_string(hours).as_str());
        s.append("h ");
        s.append(u64_string(mins).as_str());
        s.append("m");
        s
    } else if hours > 0 {
        let mut s = u64_string(hours);
        s.append("h ");
        s.append(u64_string(mins).as_str());
        s.append("m");
        s
    } else {
        let mut s = u64_string(mins);
        s.append("m");
        s
    }
}

/// The uptime display of a whole number of seconds.
pub open spec fn spec_uptime(seconds: nat) -> Seq<char> {
    let days = seconds / 86400;
    let hours = (seconds % 86400) / 3600;
    let mins = (seconds % 3600) / 60;
    if days > 0 {
        dec_digits(days) + "d "@ + dec_digits(hours) + "h "@ + dec_digits(mins) + "m"@
    } else if hours > 0 {
        dec_digits(hours) + "h "@ + dec_digits(mins) + "m"@
    } else {
        dec_digits(mins) + "m"@
    }
}

/// The whole seconds named by the first field of the uptime file, whose
/// digits before the first dot carry them.
pub open spec fn spec_uptime_field(s: Seq<char>) -> Option<nat> {
    let fs = spec_fields(s);
    if fs.len() == 0 {
        None
    } else {
        let first = fs[0];
        let dot = crate::text::char_at(first, '.', 0);
        let whole = first.subrange(0, dot);
        if whole.len() > 0 && all_digits(whole) && dec_val(whole) <= u64::MAX {
            Some(dec_val(whole))
        } else {
            None
        }
    }
}

/// The uptime display from the uptime file, whose first field is seconds
/// with a decimal fraction; the whole seconds decide the display.
pub fn get_uptime(content: Option<String>) -> (r: Option<String>)
    ensures
        content is None ==> r is None,
        content matches Some(s) ==> (match spec_uptime_field(s@) {
            Some(n) => r matches Some(t) && t@ == spec_uptime(n),
            None => r is None,
        }),
{
    let text = match content {
        Some(s) => s,
        None => {
            return None;
        },
    };
    let v = chars_of(text.as_str());
    let fs = fields_vec(&v);
    if fs.len() == 0 {
        return None;
    }
    let first = &fs[0];
    let whole = match find_char(first, '.', 0) {
        Some(i) => {
            proof {
                crate::text::lemma_char_at_is(first@, '.', 0, i as int);
            }
            crate::text::sub_vec(first, 0, i)
        },
        None => {
            proof {
                crate::text::lemma_char_at_none(first@, '.', 0);
            }
            crate::text::sub_vec(first, 0, first.len())
        },
    };
    proof {
        assert(whole@ =~= fs@[0]@.subrange(0, crate::text::char_at(fs@[0]@, '.', 0)));
    }
    match parse_u64(&whole) {
        Some(n) => Some(format_uptime(n)),
        None => None,
    }
}


/// The civil date and time of a nonnegative epoch timestamp, by the
/// standard era/cycle arithmetic on whole days; each subtraction is
/// floored at zero so every quantity stays a day count.
pub open spec fn spec_timestamp_text(ts: nat) -> Seq<char> {
    let days = ts / 86400 + 719468;
    let tod = ts % 86400;
    let era = days / 146097;
    let doe = days % 146097;
    let x = doe - doe / 1460 + doe / 36524 - doe / 146096;
    let yoe0 = (if x >= 0 { x } else { 0 }) as nat / 365;
    let yoe = if yoe0 > 399 { 399 } else { yoe0 };
    let y = yoe + era * 400;
    let sub = 365 * yoe + yoe / 4 - yoe / 100;
    let doy = if doe >= sub { (doe - sub) as nat } else { 0 };
    let mp = (5 * doy + 2) / 153;
    let dsub = (153 * mp + 2) / 5;
    let d = (if doy >= dsub { (doy - dsub) as nat } else { 0 }) + 1;
    let m = if mp < 10 { mp + 3 } else { (mp - 9) as nat };
    let year = if m <= 2 { y + 1 } else { y };
    padded_dec(year, 4) + "-"@ + padded_dec(m, 2) + "-"@ + padded_dec(d, 2) + " "@ + padded_dec(
        tod / 3600,
        2,
    ) + ":"@ + padded_dec((tod % 3600) / 60, 2) + ":"@ + padded_dec(tod % 60, 2)
}

/// A timestamp written as a calendar date and a clock time, as the boot
/// time is shown.
pub fn format_unix_timestamp(timestamp: u64) -> (r: String)
    ensures
        r@ == spec_timestamp_text(timestamp as nat),
{
    let ts = timestamp;
    let days = ts / 86400 + 719468;
    let tod = ts % 86400;
    let doe = days % 146097;
    let era = days / 146097;
    let x = doe + doe / 36524 - doe / 1460 - doe / 146096;
    proof {
        assert(doe / 1460 <= doe);
        assert(doe as int - doe as int / 1460 + doe as int / 36524 - doe as int / 146096 == (doe
            + doe / 36524 - doe / 1460 - doe / 146096) as int);
    }
    let yoe0 = x / 365;
    let yoe: u64 = if yoe0 > 399 {
        399
    } else {
        yoe0
    };
    let y = yoe + era * 400;
    let sub = 365 * yoe + yoe / 4 - yoe / 100;
    let doy: u64 = if doe >= sub {
        doe - sub
    } else {
        0
    };
    let mp = (5 * doy + 2) / 153;
    let dsub = (153 * mp + 2) / 5;
    let d: u64 = (if doy >= dsub {
        doy - dsub
    } else {
        0
    }) + 1;
    let m: u64 = if mp < 10 {
        mp + 3
    } else {
        mp - 9
    };
    let year = if m <= 2 {
        y + 1
    } else {
        y
    };
    let mut s = string_of(&u64_padded(year, 4));
    s.append("-");
    s.append(string_of(&u64_padded(m, 2)).as_str());
    s.append("-");
    s.append(string_of(&u64_padded(d, 2)).as_str());
    s.append(" ");
    s.append(string_of(&u64_padded(tod / 3600, 2)).as_str());
    s.append(":");
    s.append(string_of(&u64_padded((tod % 3600) / 60, 2)).as_str());
    s.append(":");
    s.append(string_of(&u64_padded(tod % 60, 2)).as_str());
    s
}

/// The boot time display from the stat file: the value of its first
/// `btime` line, shown as a date, or nothing when that line is missing
/// or malformed.
pub fn get_boot_time(content: Option<String>) -> (r: Option<String>)
    ensures
        content is None ==> r is None,
        content matches Some(s) ==> (match spec_keyed_number(spec_lines(s@), "btime "@) {
            Some(ts) => r matches Some(t) && t@ == spec_timestamp_text(ts),
            None => r is None,
        }),
{
    let text = match content {
        Some(s) => s,
        None => {
            return None;
        },
    };
    let v = chars_of(text.as_str());
    let ls = lines_vec(&v);
    let prefix = chars_of("btime ");
    let mut i: usize = 0;
    proof {
        assert(crate::text::views(ls@).skip(0) =~= crate::text::views(ls@));
    }
    while i < ls.len()
        invariant
            content is Some,
            prefix@ == "btime "@,
            crate::text::views(ls@) == spec_lines(content->0@),
            i <= ls@.len(),
            spec_keyed_number(crate::text::views(ls@), "btime "@) == spec_keyed_number(
                crate::text::views(ls@).skip(i as int),
                "btime "@,
            ),
        decreases ls@.len() - i,
    {
        proof {
            assert(crate::text::views(ls@).skip(i as int)[0] == ls@[i as int]@);
            assert(crate::text::views(ls@).skip(i as int).skip(1) =~= crate::text::views(
                ls@,
            ).skip(i + 1));
        }
        if crate::text::starts_with_sub(&ls[i], &prefix) {
            let fs = fields_vec(&ls[i]);
            if fs.len() >= 2 {
                if let Some(ts) = parse_u64(&fs[1]) {
                    return Some(format_unix_timestamp(ts));
                }
            }
            return None;
        }
        i = i + 1;
    }
    proof {
        assert(crate::text::views(ls@).skip(ls@.len() as int) =~= Seq::<Seq<char>>::empty());
    }
    None
}

// ---------------------------------------------------------------------------
// Bootloader detection
// ---------------------------------------------------------------------------

/// The first line of the boot-manager listing marked as an entry, in
/// lower case: entries carry an asterisk.
pub open spec fn star_line(ls: Seq<Seq<char>>, i: int) -> Option<Seq<char>>
    decreases ls.len() - i,
{
    if i < 0 || i >= ls.len() {
        None
    } else if crate::text::seq_contains(ls[i], seq!['*']) {
        Some(crate::text::spec_lower(ls[i]))
    } else {
        star_line(ls, i + 1)
    }
}

/// The verdict a lower-cased boot-manager entry gives, if any.
pub open spec fn entry_verdict(c: Seq<char>) -> Option<Seq<char>> {
    if crate::text::seq_contains(c, "grub"@) {
        if crate::text::seq_contains(c, "grub2"@) {
            Some("GRUB 2"@)
        } else {
            Some("GRUB"@)
        }
    } else if crate::text::seq_contains(c, "systemd"@) || crate::text::seq_contains(c,
        "gummiboot"@) {
        Some("systemd-boot"@)
    } else if crate::text::seq_contains(c, "refind"@) {
        Some("rEFInd"@)
    } else if crate::text::seq_contains(c, "limine"@) {
        Some("Limine"@)
    } else if crate::text::seq_contains(c, "clover"@) {
        Some("Clover"@)
    } else if crate::text::seq_contains(c, "opencore"@) {
        Some("OpenCore"@)
    } else {
        None
    }
}

/// The verdict of the whole boot-manager listing: the entry marked
/// current decides first, then any entry anywhere in the listing, in
/// the same order of recognition.
pub open spec fn efib_verdict(t: Seq<char>) -> Option<Seq<char>> {
    let cur = star_line(crate::text::spec_lines(t), 0);
    let lower = crate::text::spec_lower(t);
    if cur is Some && entry_verdict(cur->0) is Some {
        entry_verdict(cur->0)
    } else if crate::text::seq_contains(lower, "grub2"@) {
        Some("GRUB 2"@)
    } else if crate::text::seq_contains(lower, "grub"@) {
        Some("GRUB"@)
    } else if crate::text::seq_contains(lower, "systemd"@) || crate::text::seq_contains(lower,
        "gummiboot"@) {
        Some("systemd-boot"@)
    } else if crate::text::seq_contains(lower, "refind"@) {
        Some("rEFInd"@)
    } else if crate::text::seq_contains(lower, "limine"@) {
        Some("Limine"@)
    } else if crate::text::seq_contains(lower, "clover"@) {
        Some("Clover"@)
    } else if crate::text::seq_contains(lower, "opencore"@) {
        Some("OpenCore"@)
    } else {
        None
    }
}

/// The GRUB name to report for one configuration file: the installer's
/// version text decides first, then the path, then the file's own text,
/// and the modern name is the default.
pub open spec fn grub_name(gv: Option<Seq<char>>, path: Seq<char>, content: Option<Seq<char>>)
    -> Seq<char> {
    if gv matches Some(g) && (crate::text::seq_contains(g, "GRUB 2"@)
        || crate::text::seq_contains(g, "(GRUB) 2"@)) {
        "GRUB 2"@
    } else if gv matches Some(g) && crate::text::seq_contains(g, "GRUB"@) {
        "GRUB"@
    } else if crate::text::seq_contains(path, "grub2"@) {
        "GRUB 2"@
    } else if content matches Some(c) && (crate::text::seq_contains(c, "GRUB2"@)
        || crate::text::seq_contains(c, "grub2"@) || crate::text::seq_contains(c,
        "set root"@)) {
        "GRUB 2"@
    } else if content matches Some(c) && crate::text::seq_contains(c, "GRUB"@) {
        "GRUB"@
    } else {
        "GRUB 2"@
    }
}

/// The verdict one boot file gives, judged by its path and, for the
/// shared fallback name and the configuration files, its text.
pub open spec fn file_verdict(
    path: Seq<char>,
    content: Option<Seq<char>>,
    gv: Option<Seq<char>>,
) -> Option<Seq<char>> {
    if crate::text::seq_contains(path, "BOOTX64.EFI"@) {
        if content matches Some(c) && (crate::text::seq_contains(c, "systemd-boot"@)
            || crate::text::seq_contains(c, "gummiboot"@)) {
            Some("systemd-boot"@)
        } else if content matches Some(c) && (crate::text::seq_contains(c, "Limine"@)
            || crate::text::seq_contains(c, "limine"@)) {
            Some("Limine"@)
        } else {
            None
        }
    } else if crate::text::seq_contains(path, "loader/loader.conf"@)
        || crate::text::seq_contains(path, "loader/entries"@) || crate::text::seq_contains(
        path,
        "systemd-bootx64.efi"@,
    ) {
        Some("systemd-boot"@)
    } else if crate::text::seq_contains(path, "grub4dos"@) {
        Some("GRUB4DOS"@)
    } else if crate::text::is_suffix(path, "grubx64.efi"@) {
        Some("GRUB 2"@)
    } else if crate::text::seq_contains(path, "grub"@) {
        Some(grub_name(gv, path, content))
    } else if crate::text::seq_contains(path, "refind"@) {
        Some("rEFInd"@)
    } else if crate::text::seq_contains(path, "limine"@) {
        Some("Limine"@)
    } else if crate::text::seq_contains(path, "CLOVER"@) {
        Some("Clover"@)
    } else if crate::text::seq_contains(path, "/OC/"@) {
        Some("OpenCore"@)
    } else if crate::text::seq_contains(path, "elilo"@) {
        Some("ELILO"@)
    } else if crate::text::seq_contains(path, "lilo.conf"@) {
        Some("LILO"@)
    } else if crate::text::seq_contains(path, "extlinux"@) {
        Some("EXTLINUX"@)
    } else if crate::text::seq_contains(path, "isolinux"@) {
        Some("ISOLINUX"@)
    } else if crate::text::seq_contains(path, "pxelinux"@) {
        Some("PXELINUX"@)
    } else if crate::text::seq_contains(path, "syslinux"@) {
        Some("Syslinux"@)
    } else if crate::text::seq_contains(path, "u-boot.bin"@) || crate::text::seq_contains(
        path,
        "boot.scr"@,
    ) || crate::text::seq_contains(path, "uEnv.txt"@) || crate::text::seq_contains(path,
        "uboot.env"@) {
        Some("U-Boot"@)
    } else if crate::text::seq_contains(path, "burg"@) {
        Some("BURG"@)
    } else if crate::text::seq_contains(path, "petitboot"@) {
        Some("Petitboot"@)
    } else {
        None
    }
}

/// The views of the boot-file list.
pub open spec fn file_views(s: Seq<(String, Option<String>)>) -> Seq<
    (Seq<char>, Option<Seq<char>>),
> {
    s.map_values(|p: (String, Option<String>)| (p.0@, opt_view(p.1)))
}

/// The first verdict the boot files give, walking them in the order
/// handed in.
pub open spec fn files_verdict(
    files: Seq<(Seq<char>, Option<Seq<char>>)>,
    gv: Option<Seq<char>>,
    i: int,
) -> Option<Seq<char>>
    decreases files.len() - i,
{
    if i < 0 || i >= files.len() {
        None
    } else {
        match file_verdict(files[i].0, files[i].1, gv) {
            Some(v) => Some(v),
            None => files_verdict(files, gv, i + 1),
        }
    }
}

/// Whether the boot files name the single-board firmware pair: its
/// configuration and its loader both present.
pub open spec fn rpi_pair(files: Seq<(Seq<char>, Option<Seq<char>>)>) -> bool {
    &&& exists|i: int|
        0 <= i < files.len() && crate::text::seq_contains(#[trigger] files[i].0, "config.txt"@)
    &&& exists|i: int|
        0 <= i < files.len() && crate::text::seq_contains(#[trigger] files[i].0, "start.elf"@)
}

/// The bootloader the evidence names: the boot manager's entries decide
/// first, then the boot manager status text, then the boot files in
/// order, then the single-board firmware pair; when nothing matched, the
/// firmware kind alone is reported.
pub open spec fn spec_bootloader(
    eb: Option<Seq<char>>,
    bc: Option<Seq<char>>,
    gv: Option<Seq<char>>,
    efi: bool,
    files: Seq<(Seq<char>, Option<Seq<char>>)>,
) -> Seq<char> {
    if eb matches Some(t) && efib_verdict(t) is Some {
        efib_verdict(eb->0)->0
    } else if bc matches Some(t) && crate::text::seq_contains(crate::text::spec_lower(t),
        "systemd-boot"@) {
        "systemd-boot"@
    } else if files_verdict(files, gv, 0) is Some {
        files_verdict(files, gv, 0)->0
    } else if rpi_pair(files) {
        "Raspberry Pi Bootloader"@
    } else if efi {
        "Unknown (UEFI)"@
    } else {
        "Unknown (BIOS)"@
    }
}

/// The first boot-manager entry line, lower-cased.
fn star_line_exec(t: &str) -> (r: Option<String>)
    ensures
        match r {
            Some(s) => star_line(crate::text::spec_lines(t@), 0) == Some(s@),
            None => star_line(crate::text::spec_lines(t@), 0) is None,
        },
{
    let v = chars_of(t);
    let ls = lines_vec(&v);
    let ghost lsv = crate::text::spec_lines(t@);
    let mut star: Vec<char> = Vec::new();
    star.push('*');
    let mut i: usize = 0;
    while i < ls.len()
        invariant
            lsv == crate::text::spec_lines(t@),
            crate::text::views(ls@) == lsv,
            i <= ls@.len(),
            star@ =~= seq!['*'],
            star_line(lsv, 0) == star_line(lsv, i as int),
        decreases ls@.len() - i,
    {
        proof {
            assert(lsv[i as int] == ls@[i as int]@);
        }
        if crate::text::contains_sub(&ls[i], &star) {
            proof {
                assert(star_line(lsv, i as int) == Some(crate::text::spec_lower(
                    lsv[i as int])));
            }
            let out = string_of(&crate::text::ascii_lower(&ls[i]));
            proof {
                assert(out@ == crate::text::spec_lower(lsv[i as int]));
                assert(star_line(crate::text::spec_lines(t@), 0) == Some(out@));
            }
            return Some(out);
        }
        i = i + 1;
    }
    None
}

/// A boot-manager entry's verdict, as `entry_verdict` gives it.
fn entry_verdict_exec(c: &Vec<char>) -> (r: Option<String>)
    ensures
        match r {
            Some(s) => entry_verdict(c@) == Some(s@),
            None => entry_verdict(c@) is None,
        },
{
    if crate::text::contains_sub(c, &chars_of("grub")) {
        if crate::text::contains_sub(c, &chars_of("grub2")) {
            Some(String::from_str("GRUB 2"))
        } else {
            Some(String::from_str("GRUB"))
        }
    } else if crate::text::contains_sub(c, &chars_of("systemd")) || crate::text::contains_sub(
        c,
        &chars_of("gummiboot"),
    ) {
        Some(String::from_str("systemd-boot"))
    } else if crate::text::contains_sub(c, &chars_of("refind")) {
        Some(String::from_str("rEFInd"))
    } else if crate::text::contains_sub(c, &chars_of("limine")) {
        Some(String::from_str("Limine"))
    } else if crate::text::contains_sub(c, &chars_of("clover")) {
        Some(String::from_str("Clover"))
    } else if crate::text::contains_sub(c, &chars_of("opencore")) {
        Some(String::from_str("OpenCore"))
    } else {
        None
    }
}

/// The whole boot-manager listing's verdict, as `efib_verdict` gives it.
#[verifier::rlimit(100)]
#[verifier::spinoff_prover]
fn efib_verdict_exec(t: &str) -> (r: Option<String>)
    ensures
        match r {
            Some(s) => efib_verdict(t@) == Some(s@),
            None => efib_verdict(t@) is None,
        },
{
    if let Some(cur) = star_line_exec(t) {
        if let Some(v) = entry_verdict_exec(&chars_of(cur.as_str())) {
            return Some(v);
        }
    }
    let lower = crate::text::ascii_lower(&chars_of(t));
    if crate::text::contains_sub(&lower, &chars_of("grub2")) {
        Some(String::from_str("GRUB 2"))
    } else if crate::text::contains_sub(&lower, &chars_of("grub")) {
        Some(String::from_str("GRUB"))
    } else if crate::text::contains_sub(&lower, &chars_of("systemd"))
        || crate::text::contains_sub(&lower, &chars_of("gummiboot")) {
        Some(String::from_str("systemd-boot"))
    } else if crate::text::contains_sub(&lower, &chars_of("refind")) {
        Some(String::from_str("rEFInd"))
    } else if crate::text::contains_sub(&lower, &chars_of("limine")) {
        Some(String::from_str("Limine"))
    } else if crate::text::contains_sub(&lower, &chars_of("clover")) {
        Some(String::from_str("Clover"))
    } else if crate::text::contains_sub(&lower, &chars_of("opencore")) {
        Some(String::from_str("OpenCore"))
    } else {
        None
    }
}

/// One boot file's verdict, as `file_verdict` gives it.
#[verifier::rlimit(100)]
#[verifier::spinoff_prover]
fn file_verdict_exec(path: &Vec<char>, content: &Option<String>, gv: &Option<String>) -> (r:
    Option<String>)
    ensures
        match r {
            Some(s) => file_verdict(path@, opt_view(*content), opt_view(*gv)) == Some(s@),
            None => file_verdict(path@, opt_view(*content), opt_view(*gv)) is None,
        },
{
    if crate::text::contains_sub(path, &chars_of("BOOTX64.EFI")) {
        if let Some(c) = content {
            let cv = chars_of(c.as_str());
            if crate::text::contains_sub(&cv, &chars_of("systemd-boot"))
                || crate::text::contains_sub(&cv, &chars_of("gummiboot")) {
                return Some(String::from_str("systemd-boot"));
            }
            if crate::text::contains_sub(&cv, &chars_of("Limine")) || crate::text::contains_sub(
                &cv,
                &chars_of("limine"),
            ) {
                return Some(String::from_str("Limine"));
            }
        }
        return None;
    }
    if crate::text::contains_sub(path, &chars_of("loader/loader.conf"))
        || crate::text::contains_sub(path, &chars_of("loader/entries"))
        || crate::text::contains_sub(path, &chars_of("systemd-bootx64.efi")) {
        return Some(String::from_str("systemd-boot"));
    }
    if crate::text::contains_sub(path, &chars_of("grub4dos")) {
        return Some(String::from_str("GRUB4DOS"));
    }
    if crate::text::ends_with_chars(path, &chars_of("grubx64.efi")) {
        return Some(String::from_str("GRUB 2"));
    }
    if crate::text::contains_sub(path, &chars_of("grub")) {
        if let Some(g) = gv {
            let gvv = chars_of(g.as_str());
            if crate::text::contains_sub(&gvv, &chars_of("GRUB 2")) || crate::text::contains_sub(
                &gvv,
                &chars_of("(GRUB) 2"),
            ) {
                return Some(String::from_str("GRUB 2"));
            }
            if crate::text::contains_sub(&gvv, &chars_of("GRUB")) {
                return Some(String::from_str("GRUB"));
            }
        }
        if crate::text::contains_sub(path, &chars_of("grub2")) {
            return Some(String::from_str("GRUB 2"));
        }
        if let Some(c) = content {
            let cv = chars_of(c.as_str());
            if crate::text::contains_sub(&cv, &chars_of("GRUB2")) || crate::text::contains_sub(
                &cv,
                &chars_of("grub2"),
            ) || crate::text::contains_sub(&cv, &chars_of("set root")) {
                return Some(String::from_str("GRUB 2"));
            }
            if crate::text::contains_sub(&cv, &chars_of("GRUB")) {
                return Some(String::from_str("GRUB"));
            }
        }
        return Some(String::from_str("GRUB 2"));
    }
    if crate::text::contains_sub(path, &chars_of("refind")) {
        return Some(String::from_str("rEFInd"));
    }
    if crate::text::contains_sub(path, &chars_of("limine")) {
        return Some(String::from_str("Limine"));
    }
    if crate::text::contains_sub(path, &chars_of("CLOVER")) {
        return Some(String::from_str("Clover"));
    }
    if crate::text::contains_sub(path, &chars_of("/OC/")) {
        return Some(String::from_str("OpenCore"));
    }
    if crate::text::contains_sub(path, &chars_of("elilo")) {
        return Some(String::from_str("ELILO"));
    }
    if crate::text::contains_sub(path, &chars_of("lilo.conf")) {
        return Some(String::from_str("LILO"));
    }
    if crate::text::contains_sub(path, &chars_of("extlinux")) {
        return Some(String::from_str("EXTLINUX"));
    }
    if crate::text::contains_sub(path, &chars_of("isolinux")) {
        return Some(String::from_str("ISOLINUX"));
    }
    if crate::text::contains_sub(path, &chars_of("pxelinux")) {
        return Some(String::from_str("PXELINUX"));
    }
    if crate::text::contains_sub(path, &chars_of("syslinux")) {
        return Some(String::from_str("Syslinux"));
    }
    if crate::text::contains_sub(path, &chars_of("u-boot.bin")) || crate::text::contains_sub(
        path,
        &chars_of("boot.scr"),
    ) || crate::text::contains_sub(path, &chars_of("uEnv.txt")) || crate::text::contains_sub(
        path,
        &chars_of("uboot.env"),
    ) {
        return Some(String::from_str("U-Boot"));
    }
    if crate::text::contains_sub(path, &chars_of("burg")) {
        return Some(String::from_str("BURG"));
    }
    if crate::text::contains_sub(path, &chars_of("petitboot")) {
        return Some(String::from_str("Petitboot"));
    }
    None
}

/// The bootloader the gathered evidence names, decided exactly as
/// `spec_bootloader` says; there is always an answer, the firmware kind
/// standing in when nothing matched.
#[verifier::rlimit(100)]
#[verifier::spinoff_prover]
pub fn get_bootloader(
    efibootmgr_out: Option<String>,
    bootctl_out: Option<String>,
    grub_version_out: Option<String>,
    efi_present: bool,
    boot_files: &Vec<(String, Option<String>)>,
) -> (r: Option<String>)
    ensures
        r matches Some(s) && s@ == spec_bootloader(opt_view(efibootmgr_out), opt_view(
            bootctl_out), opt_view(grub_version_out), efi_present, file_views(boot_files@)),
{
    let ghost fv = file_views(boot_files@);
    if let Some(eb) = &efibootmgr_out {
        if let Some(v) = efib_verdict_exec(eb.as_str()) {
            return Some(v);
        }
    }
    if let Some(bc) = &bootctl_out {
        let lower = crate::text::ascii_lower(&chars_of(bc.as_str()));
        if crate::text::contains_sub(&lower, &chars_of("systemd-boot")) {
            return Some(String::from_str("systemd-boot"));
        }
    }
    let mut i: usize = 0;
    let mut has_config = false;
    let mut has_start = false;
    while i < boot_files.len()
        invariant
            fv == file_views(boot_files@),
            i <= boot_files@.len(),
            efib_verdict_none(opt_view(efibootmgr_out)),
            bootctl_none(opt_view(bootctl_out)),
            files_verdict(fv, opt_view(grub_version_out), 0) == files_verdict(fv, opt_view(
                grub_version_out), i as int),
            has_config == exists|k: int|
                0 <= k < i && crate::text::seq_contains(#[trigger] fv[k].0, "config.txt"@),
            has_start == exists|k: int|
                0 <= k < i && crate::text::seq_contains(#[trigger] fv[k].0, "start.elf"@),
        decreases boot_files@.len() - i,
    {
        proof {
            assert(fv[i as int] == (boot_files@[i as int].0@, opt_view(
                boot_files@[i as int].1)));
        }
        let path = chars_of(boot_files[i].0.as_str());
        if let Some(v) = file_verdict_exec(&path, &boot_files[i].1, &grub_version_out) {
            return Some(v);
        }
        if crate::text::contains_sub(&path, &chars_of("config.txt")) {
            has_config = true;
        }
        if crate::text::contains_sub(&path, &chars_of("start.elf")) {
            has_start = true;
        }
        i = i + 1;
    }
    proof {
        assert(files_verdict(fv, opt_view(grub_version_out), fv.len() as int) is None);
    }
    if has_config && has_start {
        return Some(String::from_str("Raspberry Pi Bootloader"));
    }
    if efi_present {
        Some(String::from_str("Unknown (UEFI)"))
    } else {
        Some(String::from_str("Unknown (BIOS)"))
    }
}

/// Whether the boot-manager listing gives no verdict.
pub open spec fn efib_verdict_none(eb: Option<Seq<char>>) -> bool {
    eb matches Some(t) ==> efib_verdict(t) is None
}

/// Whether the boot-manager status text gives no verdict.
pub open spec fn bootctl_none(bc: Option<Seq<char>>) -> bool {
    bc matches Some(t) ==> !crate::text::seq_contains(crate::text::spec_lower(t),
        "systemd-boot"@)
}

/// The byte count of a whole number with a binary-unit suffix.
pub open spec fn unit_bytes(c: char) -> nat {
    if c == 'G' || c == 'g' {
        1073741824
    } else if c == 'M' || c == 'm' {
        1048576
    } else if c == 'T' || c == 't' {
        1099511627776
    } else {
        1
    }
}

pub open spec fn has_unit_suffix(c: char) -> bool {
    c == 'G' || c == 'g' || c == 'M' || c == 'm' || c == 'T' || c == 't'
}

/// The numeric part of a trimmed size: everything before a recognised
/// unit suffix, or the whole text when there is none.
pub open spec fn size_num_part(t: Seq<char>) -> Seq<char> {
    if t.len() > 0 && has_unit_suffix(t.last()) {
        t.drop_last()
    } else {
        t
    }
}

/// The byte value of a trimmed size's unit suffix; one when there is none.
pub open spec fn size_unit(t: Seq<char>) -> nat {
    if t.len() > 0 && has_unit_suffix(t.last()) {
        unit_bytes(t.last())
    } else {
        1
    }
}

/// A fraction of up to three digits scaled to thousandths.
pub open spec fn frac_scaled(fr: Seq<char>) -> nat {
    if fr.len() == 1 {
        dec_val(fr) * 100
    } else if fr.len() == 2 {
        dec_val(fr) * 10
    } else {
        dec_val(fr)
    }
}

/// The numeric part read in thousandths: the whole number before the
/// first dot, and up to three fraction digits after it, any further
/// digits dropped. Nothing when either part is not a plain decimal
/// number or the whole part is over the accepted ceiling.
pub open spec fn spec_size_milli(num: Seq<char>) -> Option<nat> {
    let d = crate::text::char_at(num, '.', 0);
    let whole = num.subrange(0, d);
    let fe = if num.len() - d - 1 > 3 {
        d + 4
    } else {
        num.len() as int
    };
    let frac = if d < num.len() {
        num.subrange(d + 1, fe)
    } else {
        Seq::<char>::empty()
    };
    if whole.len() == 0 || !all_digits(whole) || dec_val(whole) > u64::MAX {
        None
    } else if frac.len() > 0 && !all_digits(frac) {
        None
    } else if dec_val(whole) > 15000000000000 {
        None
    } else {
        Some(dec_val(whole) * 1000 + frac_scaled(frac))
    }
}

/// A human-readable size read as a count of bytes: the numeric part in
/// thousandths times the suffix's unit, divided back down. Nothing on a
/// blank input, a malformed number, or a product beyond `u64`.
pub open spec fn spec_human_size(s: Seq<char>) -> Option<u64> {
    let t = spec_trim(s);
    if t.len() == 0 {
        None
    } else {
        match spec_size_milli(size_num_part(t)) {
            None => None,
            Some(m) => {
                let bytes = m * size_unit(t) / 1000;
                if bytes > u64::MAX {
                    None
                } else {
                    Some(bytes as u64)
                }
            },
        }
    }
}

proof fn lemma_dec_val_three_digits(s: Seq<char>)
    requires
        all_digits(s),
        s.len() <= 3,
    ensures
        dec_val(s) <= 999,
        s.len() <= 2 ==> dec_val(s) <= 99,
        s.len() <= 1 ==> dec_val(s) <= 9,
    decreases s.len(),
{
    if s.len() > 0 {
        assert(all_digits(s.drop_last())) by {
            assert(forall|i: int|
                0 <= i < s.len() - 1 ==> s.drop_last()[i] == #[trigger] s[i]);
        }
        lemma_dec_val_three_digits(s.drop_last());
        assert(crate::text::digit_val(s.last()) <= 9);
    }
}

/// A size such as `256M`, `8G` or `1.5G` read as a count of bytes, with a
/// binary unit suffix and an optional decimal fraction kept to a
/// thousandth; a blank, malformed or oversized input yields nothing.
pub fn parse_human_size(v: &Vec<char>) -> (r: Option<u64>)
    ensures
        r == spec_human_size(v@),
{
    let t = trim_vec(v);
    if t.len() == 0 {
        return None;
    }
    let last = t[t.len() - 1];
    let (num_end, unit): (usize, u64) = if last == 'G' || last == 'g' {
        (t.len() - 1, 1073741824)
    } else if last == 'M' || last == 'm' {
        (t.len() - 1, 1048576)
    } else if last == 'T' || last == 't' {
        (t.len() - 1, 1099511627776)
    } else {
        (t.len(), 1)
    };
    let num = crate::text::sub_vec(&t, 0, num_end);
    proof {
        if num_end < t@.len() {
            assert(num@ =~= t@.drop_last());
        } else {
            assert(num@ =~= t@);
        }
        assert(num@ == size_num_part(t@));
        assert(unit as nat == size_unit(t@));
    }
    let ghost d = crate::text::char_at(num@, '.', 0);
    let (whole, frac) = match find_char(&num, '.', 0) {
        Some(i) => {
            proof {
                crate::text::lemma_char_at_is(num@, '.', 0, i as int);
            }
            let frac_end = if num.len() - i - 1 > 3 {
                i + 4
            } else {
                num.len()
            };
            (crate::text::sub_vec(&num, 0, i), crate::text::sub_vec(&num, i + 1, frac_end))
        },
        None => {
            proof {
                crate::text::lemma_char_at_none(num@, '.', 0);
                assert(num@.subrange(0, num@.len() as int) =~= num@);
            }
            (crate::text::sub_vec(&num, 0, num.len()), Vec::new())
        },
    };
    proof {
        assert(whole@ == num@.subrange(0, d));
        assert(frac@.len() <= 3);
    }
    let w = match parse_u64(&whole) {
        Some(n) => n,
        None => {
            return None;
        },
    };
    let f: u64 = if frac.len() > 0 {
        match parse_u64(&frac) {
            Some(n) => {
                proof {
                    lemma_dec_val_three_digits(frac@);
                }
                if frac.len() == 1 {
                    n * 100
                } else if frac.len() == 2 {
                    n * 10
                } else {
                    n
                }
            },
            None => {
                proof {
                    if all_digits(frac@) {
                        lemma_dec_val_three_digits(frac@);
                    }
                }
                return None;
            },
        }
    } else {
        0
    };
    proof {
        assert(f as nat == frac_scaled(frac@));
    }
    if w > 15000000000000 {
        return None;
    }
    let milli = w as u128 * 1000 + f as u128;
    proof {
        assert(milli * (unit as u128) <= 15000000001000000u128 * 1099511627776u128)
            by (nonlinear_arith)
            requires milli <= 15000000001000000u128 && unit <= 1099511627776u64;
    }
    let bytes = milli * unit as u128 / 1000;
    if bytes > u64::MAX as u128 {
        None
    } else {
        Some(bytes as u64)
    }
}

/// Whether a listing line opens a new device block: detail lines are
/// indented, device lines are not.
pub open spec fn gpu_top_level(line: Seq<char>) -> bool {
    line.len() == 0 || (line[0] != '\t' && line[0] != ' ')
}

/// A controller description cleaned for display: vendor names shortened
/// and the bare corporate suffix dropped.
pub open spec fn spec_gpu_clean(d: Seq<char>) -> Seq<char> {
    spec_trim(crate::text::spec_replace(crate::text::spec_replace(crate::text::spec_replace(
        crate::text::spec_replace(crate::text::spec_replace(d, "Intel Corporation"@, "Intel"@),
        "Advanced Micro Devices, Inc."@, "AMD"@), "[AMD/ATI]"@, "AMD"@),
        "NVIDIA Corporation"@, "NVIDIA"@), "Corporation"@, Seq::<char>::empty()))
}

/// The description a device line contributes, if any: a display
/// controller that is not a bridge, audio or USB device yields the text
/// after the controller marker, revision dropped and vendors shortened,
/// kept only when it is a substantial named device.
pub open spec fn gpu_line_desc(line: Seq<char>) -> Option<Seq<char>> {
    let lower = crate::text::spec_lower(line);
    let skip = crate::text::seq_contains(lower, "bridge"@) || crate::text::seq_contains(lower,
        "audio"@) || crate::text::seq_contains(lower, "usb"@);
    let wanted = !skip && (crate::text::seq_contains(lower, "vga"@)
        || crate::text::seq_contains(lower, "3d"@) || crate::text::seq_contains(lower,
        "display"@)) && crate::text::seq_contains(lower, "controller"@);
    if wanted && crate::text::seq_contains(line, "controller:"@) {
        let pos = crate::text::first_at(line, "controller:"@);
        let raw = line.subrange(pos + "controller:"@.len(), line.len() as int);
        let cut = if crate::text::seq_contains(raw, " (rev "@) {
            raw.subrange(0, crate::text::first_at(raw, " (rev "@))
        } else {
            raw
        };
        let desc = spec_gpu_clean(cut);
        if desc.len() > 10 && !crate::text::seq_contains(crate::text::spec_lower(desc),
            "bridge"@) && !crate::text::is_prefix(desc, "Device "@) {
            Some(desc)
        } else {
            None
        }
    } else {
        None
    }
}

/// The memory size a detail line names, if any: the text between the
/// size marker and the closing bracket of a mapped memory region.
pub open spec fn gpu_mem_size(line: Seq<char>) -> Option<Seq<char>> {
    if crate::text::seq_contains(line, "Memory at"@) && crate::text::seq_contains(line,
        "size="@) {
        let p = crate::text::first_at(line, "size="@);
        let rest = line.subrange(p + "size="@.len(), line.len() as int);
        let e = crate::text::char_at(rest, ']', 0);
        if e < rest.len() {
            Some(rest.subrange(0, e))
        } else {
            None
        }
    } else {
        None
    }
}

/// The byte value of a size text, zero when it cannot be read.
pub open spec fn size_val(s: Seq<char>) -> u64 {
    match spec_human_size(s) {
        Some(b) => b,
        None => 0u64,
    }
}

/// The state of the device-listing scan: the descriptions found so far,
/// the finished blocks' memory sizes, and whether a controller block is
/// open with the largest size seen inside it.
pub ghost struct GpuScan {
    pub gpus: Seq<Seq<char>>,
    pub vrams: Seq<Seq<char>>,
    pub in_gpu: bool,
    pub cur: Option<Seq<char>>,
}

/// Closing the open block, if any: its best size joins the finished
/// sizes, an empty text standing for a block that named none.
pub open spec fn gpu_flush(st: GpuScan) -> Seq<Seq<char>> {
    if st.in_gpu {
        st.vrams.push(
            match st.cur {
                Some(s) => s,
                None => Seq::<char>::empty(),
            },
        )
    } else {
        st.vrams
    }
}

/// One listing line applied to the scan: a device line closes the open
/// block and opens a new one when it is a kept controller; a detail line
/// of an open block may raise that block's best memory size.
pub open spec fn gpu_step(st: GpuScan, line: Seq<char>) -> GpuScan {
    if gpu_top_level(line) {
        let vr = gpu_flush(st);
        match gpu_line_desc(line) {
            Some(d) => GpuScan { gpus: st.gpus.push(d), vrams: vr, in_gpu: true, cur: None },
            None => GpuScan { gpus: st.gpus, vrams: vr, in_gpu: false, cur: None },
        }
    } else if st.in_gpu {
        match gpu_mem_size(line) {
            Some(sz) => {
                let cur_b = match st.cur {
                    Some(s) => size_val(s),
                    None => 0u64,
                };
                if st.cur is None || size_val(sz) > cur_b {
                    GpuScan { cur: Some(sz), ..st }
                } else {
                    st
                }
            },
            None => st,
        }
    } else {
        st
    }
}

/// The scan state after the first `i` lines.
pub open spec fn gpu_scan(ls: Seq<Seq<char>>, i: int) -> GpuScan
    decreases i,
{
    if i <= 0 {
        GpuScan {
            gpus: Seq::<Seq<char>>::empty(),
            vrams: Seq::<Seq<char>>::empty(),
            in_gpu: false,
            cur: None,
        }
    } else {
        gpu_step(gpu_scan(ls, i - 1), ls[i - 1])
    }
}

/// The controller descriptions of a whole listing, in order of
/// appearance.
pub open spec fn spec_gpu_names(ls: Seq<Seq<char>>) -> Seq<Seq<char>> {
    gpu_scan(ls, ls.len() as int).gpus
}

/// The non-empty texts of a list, in order.
pub open spec fn keep_nonempty(vs: Seq<Seq<char>>) -> Seq<Seq<char>>
    decreases vs.len(),
{
    if vs.len() == 0 {
        vs
    } else {
        let rest = keep_nonempty(vs.drop_last());
        if vs.last().len() > 0 {
            rest.push(vs.last())
        } else {
            rest
        }
    }
}

/// The memory sizes of a whole listing: each kept controller's largest
/// named size, blocks that named none dropped.
pub open spec fn spec_gpu_vrams(ls: Seq<Seq<char>>) -> Seq<Seq<char>> {
    keep_nonempty(gpu_flush(gpu_scan(ls, ls.len() as int)))
}

/// One device line's kept description, computed as `gpu_line_desc` says.
#[verifier::rlimit(100)]
#[verifier::spinoff_prover]
fn gpu_desc_exec(line: &Vec<char>) -> (r: Option<String>)
    ensures
        match r {
            Some(d) => gpu_line_desc(line@) == Some(d@),
            None => gpu_line_desc(line@) is None,
        },
{
    let lower = crate::text::ascii_lower(line);
    let skip = crate::text::contains_sub(&lower, &chars_of("bridge"))
        || crate::text::contains_sub(&lower, &chars_of("audio"))
        || crate::text::contains_sub(&lower, &chars_of("usb"));
    let wanted = !skip && (crate::text::contains_sub(&lower, &chars_of("vga"))
        || crate::text::contains_sub(&lower, &chars_of("3d"))
        || crate::text::contains_sub(&lower, &chars_of("display"))) && crate::text::contains_sub(
        &lower,
        &chars_of("controller"),
    );
    if !wanted {
        return None;
    }
    let ctl = chars_of("controller:");
    let pos = match crate::text::find_sub(line, &ctl) {
        Some(pos) => pos,
        None => {
            return None;
        },
    };
    proof {
        crate::text::lemma_first_at(line@, "controller:"@, pos as int);
        assert(pos + ctl@.len() <= line@.len());
    }
    let n = line.len();
    let mut desc = crate::text::sub_vec(line, pos + ctl.len(), n);
    if let Some(rp) = crate::text::find_sub(&desc, &chars_of(" (rev ")) {
        proof {
            crate::text::lemma_first_at(desc@, " (rev "@, rp as int);
        }
        desc = crate::text::sub_vec(&desc, 0, rp);
    }
    desc = crate::text::replace_all(&desc, &chars_of("Intel Corporation"), &chars_of("Intel"));
    desc = crate::text::replace_all(
        &desc,
        &chars_of("Advanced Micro Devices, Inc."),
        &chars_of("AMD"),
    );
    desc = crate::text::replace_all(&desc, &chars_of("[AMD/ATI]"), &chars_of("AMD"));
    desc = crate::text::replace_all(&desc, &chars_of("NVIDIA Corporation"), &chars_of("NVIDIA"));
    desc = crate::text::replace_all(&desc, &chars_of("Corporation"), &Vec::new());
    let desc = trim_vec(&desc);
    let dlower = crate::text::ascii_lower(&desc);
    if desc.len() > 10 && !crate::text::contains_sub(&dlower, &chars_of("bridge"))
        && !crate::text::starts_with_sub(&desc, &chars_of("Device ")) {
        Some(string_of(&desc))
    } else {
        None
    }
}

/// One detail line's named memory size, computed as `gpu_mem_size` says.
#[verifier::spinoff_prover]
fn gpu_mem_size_exec(line: &Vec<char>) -> (r: Option<Vec<char>>)
    ensures
        match r {
            Some(sz) => gpu_mem_size(line@) == Some(sz@),
            None => gpu_mem_size(line@) is None,
        },
{
    if !(crate::text::contains_sub(line, &chars_of("Memory at")) && crate::text::contains_sub(
        line,
        &chars_of("size="),
    )) {
        return None;
    }
    let size_key = chars_of("size=");
    let p = match crate::text::find_sub(line, &size_key) {
        Some(p) => p,
        None => {
            return None;
        },
    };
    proof {
        crate::text::lemma_first_at(line@, "size="@, p as int);
        assert(p + size_key@.len() <= line@.len());
    }
    let n = line.len();
    let rest = crate::text::sub_vec(line, p + size_key.len(), n);
    match find_char(&rest, ']', 0) {
        Some(end) => {
            proof {
                crate::text::lemma_char_at_is(rest@, ']', 0, end as int);
            }
            Some(crate::text::sub_vec(&rest, 0, end))
        },
        None => {
            proof {
                crate::text::lemma_char_at_none(rest@, ']', 0);
            }
            None
        },
    }
}

/// The non-empty size texts, in order.
fn keep_nonempty_exec(vrams: &Vec<String>) -> (r: Vec<String>)
    ensures
        crate::text::str_views(r@) == keep_nonempty(crate::text::str_views(vrams@)),
        r@.len() <= vrams@.len(),
{
    let ghost fl = crate::text::str_views(vrams@);
    let mut kept: Vec<String> = Vec::new();
    let mut j: usize = 0;
    proof {
        assert(fl.subrange(0, 0) =~= Seq::<Seq<char>>::empty());
        assert(crate::text::str_views(kept@) =~= keep_nonempty(fl.subrange(0, 0)));
    }
    while j < vrams.len()
        invariant
            fl == crate::text::str_views(vrams@),
            j <= vrams@.len(),
            kept@.len() <= j,
            crate::text::str_views(kept@) == keep_nonempty(fl.subrange(0, j as int)),
        decreases vrams@.len() - j,
    {
        proof {
            assert(fl.subrange(0, j as int + 1).drop_last() =~= fl.subrange(0, j as int));
            assert(fl.subrange(0, j as int + 1).last() == fl[j as int]);
            assert(fl[j as int] == vrams@[j as int]@);
        }
        if vrams[j].unicode_len() > 0 {
            kept.push(vrams[j].clone());
        }
        j = j + 1;
        proof {
            assert(crate::text::str_views(kept@) =~= keep_nonempty(fl.subrange(0, j as int)));
        }
    }
    proof {
        assert(fl.subrange(0, fl.len() as int) =~= fl);
    }
    kept
}

/// The GPU names and their video-memory sizes, both parsed from one PCI
/// device listing: display controllers give the names, and the largest
/// mapped memory region of each controller gives its memory size.
#[verifier::rlimit(100)]
#[verifier::spinoff_prover]
pub fn get_gpu_combined(output: Option<String>) -> (r: (
    Option<Vec<String>>,
    Option<Vec<String>>,
))
    ensures
        output is None ==> r.0 is None && r.1 is None,
        output matches Some(s) ==> ({
            let gs = spec_gpu_names(crate::text::spec_lines(s@));
            let vs = spec_gpu_vrams(crate::text::spec_lines(s@));
            &&& (if gs.len() == 0 {
                r.0 is None
            } else {
                r.0 matches Some(g) && crate::text::str_views(g@) == gs
            })
            &&& (if vs.len() == 0 {
                r.1 is None
            } else {
                r.1 matches Some(v) && crate::text::str_views(v@) == vs
            })
        }),
        r.0 matches Some(g) ==> g@.len() > 0,
        r.1 matches Some(v) ==> v@.len() > 0,
        r.1 matches Some(v) ==> (r.0 matches Some(g) && v@.len() <= g@.len()),
{
    let text = match output {
        Some(s) => s,
        None => {
            return (None, None);
        },
    };
    let v = chars_of(text.as_str());
    let ls = lines_vec(&v);
    let ghost lsv = crate::text::spec_lines(text@);
    let mut gpus: Vec<String> = Vec::new();
    let mut vrams: Vec<String> = Vec::new();
    let mut cur_vram: Option<Vec<char>> = None;
    let mut has_cur = false;
    let mut cur_bytes: u64 = 0;
    let mut in_gpu = false;
    let mut i: usize = 0;
    proof {
        assert(crate::text::str_views(gpus@) =~= Seq::<Seq<char>>::empty());
        assert(crate::text::str_views(vrams@) =~= Seq::<Seq<char>>::empty());
    }
    while i < ls.len()
        invariant
            output matches Some(s) && s@ == text@,
            crate::text::views(ls@) == lsv,
            i <= ls@.len(),
            in_gpu ==> vrams@.len() + 1 == gpus@.len(),
            !in_gpu ==> vrams@.len() == gpus@.len(),
            gpu_scan(lsv, i as int) == (GpuScan {
                gpus: crate::text::str_views(gpus@),
                vrams: crate::text::str_views(vrams@),
                in_gpu: in_gpu,
                cur: match cur_vram {
                    Some(cv) => Some(cv@),
                    None => None,
                },
            }),
            has_cur == cur_vram is Some,
            cur_bytes == (match cur_vram {
                Some(cv) => size_val(cv@),
                None => 0u64,
            }),
        decreases ls@.len() - i,
    {
        let ghost st = gpu_scan(lsv, i as int);
        let line = &ls[i];
        proof {
            assert(lsv[i as int] == line@);
        }
        let top_level = line.len() == 0 || (line[0] != '\t' && line[0] != ' ');
        if top_level {
            if in_gpu {
                match cur_vram {
                    Some(ref s) => vrams.push(string_of(s)),
                    None => vrams.push(String::new()),
                }
            }
            proof {
                assert(crate::text::str_views(vrams@) =~= gpu_flush(st));
            }
            in_gpu = false;
            cur_vram = None;
            has_cur = false;
            cur_bytes = 0;
            match gpu_desc_exec(line) {
                Some(d) => {
                    gpus.push(d);
                    in_gpu = true;
                },
                None => {},
            }
            proof {
                assert(crate::text::str_views(gpus@) =~= gpu_step(st, line@).gpus);
                assert(gpu_scan(lsv, i as int + 1) == gpu_step(st, line@));
            }
        } else if in_gpu {
            match gpu_mem_size_exec(line) {
                Some(size) => {
                    let val = match parse_human_size(&size) {
                        Some(b) => b,
                        None => 0,
                    };
                    if !has_cur || val > cur_bytes {
                        cur_vram = Some(size);
                        has_cur = true;
                        cur_bytes = val;
                    }
                },
                None => {},
            }
            proof {
                assert(gpu_scan(lsv, i as int + 1) == gpu_step(st, line@));
            }
        } else {
            proof {
                assert(gpu_scan(lsv, i as int + 1) == gpu_step(st, line@));
            }
        }
        i = i + 1;
    }
    proof {
        assert(gpu_scan(lsv, lsv.len() as int).gpus == crate::text::str_views(gpus@));
    }
    let ghost fl = gpu_flush(gpu_scan(lsv, lsv.len() as int));
    if in_gpu {
        match cur_vram {
            Some(ref s) => vrams.push(string_of(s)),
            None => vrams.push(String::new()),
        }
    }
    proof {
        assert(crate::text::str_views(vrams@) =~= fl);
    }
    let kept = keep_nonempty_exec(&vrams);
    (
        if gpus.len() == 0 {
            None
        } else {
            Some(gpus)
        },
        if kept.len() == 0 {
            None
        } else {
            Some(kept)
        },
    )
}


/// The battery display pair from the first battery entry found: its
/// capacity as a percentage, zero when unreadable, and its charging
/// status, `Unknown` when unreadable.
pub fn get_battery(entry: Option<(Option<String>, Option<String>)>) -> (r: Option<(
    u8,
    String,
)>)
    ensures
        entry is None ==> r is None,
        entry is Some ==> r is Some,
        r matches Some((cap, status)) ==> (entry matches Some((c, s)) && ({
            &&& (match c {
                Some(ct) => (if all_digits(spec_trim(ct@)) && spec_trim(ct@).len() > 0
                    && dec_val(spec_trim(ct@)) <= 255 {
                    cap == dec_val(spec_trim(ct@))
                } else {
                    cap == 0
                }),
                None => cap == 0,
            })
            &&& (match s {
                Some(st) => status@ == spec_trim(st@),
                None => status@ == "Unknown"@,
            })
        })),
{
    let (c, s) = match entry {
        Some(pair) => pair,
        None => {
            return None;
        },
    };
    let cap: u8 = match c {
        Some(ct) => {
            let t = trim_vec(&chars_of(ct.as_str()));
            match parse_u64(&t) {
                Some(n) => if n <= 255 {
                    n as u8
                } else {
                    0
                },
                None => 0,
            }
        },
        None => 0,
    };
    let status = match s {
        Some(st) => {
            let t = trim_vec(&chars_of(st.as_str()));
            string_of(&t)
        },
        None => String::from_str("Unknown"),
    };
    Some((cap, status))
}

/// The window manager: the desktop session variable when set, else the
/// name reported by the window-manager listing, the trimmed text after
/// its first `Name:` key.
pub fn get_wm(env: Option<String>, listing: Option<String>) -> (r: Option<String>)
    ensures
        env matches Some(e) ==> r == Some(e),
        env is None && listing is None ==> r is None,
        env is None ==> (listing matches Some(s) ==> match spec_keyed_rest(
            spec_lines(s@),
            "Name:"@,
        ) {
            Some(n) => r matches Some(t) && t@ == n,
            None => r is None,
        }),
{
    if let Some(e) = env {
        return Some(e);
    }
    let text = match listing {
        Some(s) => s,
        None => {
            return None;
        },
    };
    let v = chars_of(text.as_str());
    let ls = lines_vec(&v);
    let prefix = chars_of("Name:");
    let mut i: usize = 0;
    proof {
        assert(crate::text::views(ls@).skip(0) =~= crate::text::views(ls@));
    }
    while i < ls.len()
        invariant
            env is None,
            listing is Some,
            prefix@ == "Name:"@,
            crate::text::views(ls@) == spec_lines(listing->0@),
            i <= ls@.len(),
            spec_keyed_rest(crate::text::views(ls@), "Name:"@) == spec_keyed_rest(
                crate::text::views(ls@).skip(i as int),
                "Name:"@,
            ),
        decreases ls@.len() - i,
    {
        proof {
            assert(crate::text::views(ls@).skip(i as int)[0] == ls@[i as int]@);
            assert(crate::text::views(ls@).skip(i as int).skip(1) =~= crate::text::views(
                ls@,
            ).skip(i + 1));
        }
        if crate::text::starts_with_sub(&ls[i], &prefix) {
            let line = &ls[i];
            let rest = crate::text::sub_vec(line, prefix.len(), line.len());
            proof {
                assert(rest@ =~= ls@[i as int]@.skip("Name:"@.len() as int));
            }
            let t = trim_vec(&rest);
            return Some(string_of(&t));
        }
        i = i + 1;
    }
    proof {
        assert(crate::text::views(ls@).skip(ls@.len() as int) =~= Seq::<Seq<char>>::empty());
    }
    None
}


/// The parent process id from a status file: the second field of its
/// first `PPid:` line.
pub fn parse_ppid(status: &str) -> (r: Option<String>)
    ensures
        (match spec_keyed_field(spec_lines(status@), "PPid:"@) {
            Some(p) => r matches Some(t) && t@ == p,
            None => r is None,
        }),
{
    let v = chars_of(status);
    let ls = lines_vec(&v);
    let prefix = chars_of("PPid:");
    let mut i: usize = 0;
    proof {
        assert(crate::text::views(ls@).skip(0) =~= crate::text::views(ls@));
    }
    while i < ls.len()
        invariant
            prefix@ == "PPid:"@,
            crate::text::views(ls@) == spec_lines(status@),
            i <= ls@.len(),
            spec_keyed_field(crate::text::views(ls@), "PPid:"@) == spec_keyed_field(
                crate::text::views(ls@).skip(i as int),
                "PPid:"@,
            ),
        decreases ls@.len() - i,
    {
        proof {
            assert(crate::text::views(ls@).skip(i as int)[0] == ls@[i as int]@);
            assert(crate::text::views(ls@).skip(i as int).skip(1) =~= crate::text::views(
                ls@,
            ).skip(i + 1));
        }
        if crate::text::starts_with_sub(&ls[i], &prefix) {
            let fs = fields_vec(&ls[i]);
            if fs.len() >= 2 {
                return Some(string_of(&fs[1]));
            }
            return None;
        }
        i = i + 1;
    }
    proof {
        assert(crate::text::views(ls@).skip(ls@.len() as int) =~= Seq::<Seq<char>>::empty());
    }
    None
}

/// Whether a process name names a shell rather than the terminal that
/// started it.
pub open spec fn is_shell_name(s: Seq<char>) -> bool {
    s == "sh"@ || s == "bash"@ || s == "fish"@ || s == "zsh"@ || s == "rustfetch"@ || s
        == "dash"@
}

fn shell_name(s: &str) -> (r: bool)
    ensures
        r == is_shell_name(s@),
{
    crate::text::str_eq(s, "sh") || crate::text::str_eq(s, "bash") || crate::text::str_eq(
        s,
        "fish",
    ) || crate::text::str_eq(s, "zsh") || crate::text::str_eq(s, "rustfetch")
        || crate::text::str_eq(s, "dash")
}

/// Whether a grandparent process name can stand in for the terminal:
/// anything but an init process or a login shell wrapper.
pub open spec fn is_session_leader(s: Seq<char>) -> bool {
    s.len() == 0 || s == "systemd"@ || s == "init"@ || crate::text::is_prefix(s, "login"@)
}

/// The terminal emulator, decided from the process tree: the parent when
/// it is not a shell, else the grandparent when it is not the session
/// leader, else whatever the terminal variable says.
pub fn get_terminal(
    parent: Option<String>,
    grandparent: Option<String>,
    term_env: Option<String>,
) -> (r: Option<String>)
    ensures
        ({
            let p = match parent {
                Some(x) => Some(spec_trim(x@)),
                None => None::<Seq<char>>,
            };
            let g = match grandparent {
                Some(x) => Some(spec_trim(x@)),
                None => None::<Seq<char>>,
            };
            if p is Some && !is_shell_name(p->0) {
                r matches Some(t) && t@ == p->0
            } else if g is Some && !is_session_leader(g->0) {
                r matches Some(t) && t@ == g->0
            } else {
                r == term_env
            }
        }),
{
    proof {
        reveal_strlit("sh");
        reveal_strlit("bash");
        reveal_strlit("fish");
        reveal_strlit("zsh");
        reveal_strlit("rustfetch");
        reveal_strlit("dash");
        reveal_strlit("systemd");
        reveal_strlit("init");
        reveal_strlit("login");
    }
    if let Some(p) = parent {
        let t = string_of(&trim_vec(&chars_of(p.as_str())));
        if !shell_name(t.as_str()) {
            return Some(t);
        }
    }
    if let Some(g) = grandparent {
        let t = string_of(&trim_vec(&chars_of(g.as_str())));
        let tv = chars_of(t.as_str());
        let leader = t.unicode_len() == 0 || crate::text::str_eq(t.as_str(), "systemd")
            || crate::text::str_eq(t.as_str(), "init") || crate::text::starts_with_sub(
            &tv,
            &chars_of("login"),
        );
        if !leader {
            return Some(t);
        }
    }
    term_env
}

/// How many entries of the process directory are processes: those whose
/// names are all digits.
pub fn get_processes(names: &Vec<String>) -> (r: usize)
    ensures
        r as nat == names@.map_values(|s: String| s@).filter(
            |n: Seq<char>| n.len() > 0 && all_digits(n),
        ).len(),
{
    let mut count: usize = 0;
    let mut i: usize = 0;
    while i < names.len()
        invariant
            i <= names@.len(),
            count <= i,
            count as nat == names@.map_values(|s: String| s@).subrange(0, i as int).filter(
                |n: Seq<char>| n.len() > 0 && all_digits(n),
            ).len(),
        decreases names@.len() - i,
    {
        let v = chars_of(names[i].as_str());
        let mut ok = v.len() > 0;
        let mut j: usize = 0;
        while j < v.len()
            invariant
                j <= v@.len(),
                v@ == names@[i as int]@,
                i < names@.len(),
                ok == (v@.len() > 0 && forall|k: int| 0 <= k < j ==> is_digit(#[trigger] v@[k])),
            decreases v@.len() - j,
        {
            if !digit_test(v[j]) {
                ok = false;
            }
            j = j + 1;
        }
        proof {
            let vs = names@.map_values(|s: String| s@);
            let pre = vs.subrange(0, i as int);
            let cur = vs.subrange(0, i + 1);
            assert(cur.drop_last() =~= pre);
            assert(cur.last() == names@[i as int]@);
            reveal_with_fuel(Seq::filter, 2);
        }
        if ok {
            count = count + 1;
        }
        i = i + 1;
    }
    proof {
        let vs = names@.map_values(|s: String| s@);
        assert(vs.subrange(0, vs.len() as int) =~= vs);
    }
    count
}


/// A processor description cleaned for display: trademark marks removed,
/// the vendor shortened, and whitespace collapsed to single spaces.
pub open spec fn spec_cpu_clean(v: Seq<char>) -> Seq<char> {
    crate::text::spec_join(
        spec_fields(
            crate::text::spec_replace(
                crate::text::spec_replace(
                    crate::text::spec_replace(spec_trim(v), "(R)"@, Seq::empty()),
                    "(TM)"@,
                    Seq::empty(),
                ),
                "Intel Core"@,
                "Intel"@,
            ),
        ),
        " "@,
    )
}

/// The value between the first and second colon of the first line
/// starting with `key` that has a colon at all.
pub open spec fn spec_colon_value(ls: Seq<Seq<char>>, key: Seq<char>) -> Option<Seq<char>>
    decreases ls.len(),
{
    if ls.len() == 0 {
        None
    } else if crate::text::is_prefix(ls[0], key) && crate::text::spec_split(ls[0], ':').len()
        >= 2 {
        Some(crate::text::spec_split(ls[0], ':')[1])
    } else {
        spec_colon_value(ls.skip(1), key)
    }
}

/// How many lines of the file start with `key`.
pub open spec fn count_prefixed(ls: Seq<Seq<char>>, key: Seq<char>) -> nat {
    ls.filter(|l: Seq<char>| crate::text::is_prefix(l, key)).len()
}

fn colon_value(ls: &Vec<Vec<char>>, key: &str) -> (r: Option<Vec<char>>)
    ensures
        r matches Some(t) ==> spec_colon_value(crate::text::views(ls@), key@) == Some(t@),
        r is None ==> spec_colon_value(crate::text::views(ls@), key@) is None,
{
    let k = chars_of(key);
    let mut i: usize = 0;
    proof {
        assert(crate::text::views(ls@).skip(0) =~= crate::text::views(ls@));
    }
    while i < ls.len()
        invariant
            k@ == key@,
            i <= ls@.len(),
            spec_colon_value(crate::text::views(ls@), key@) == spec_colon_value(
                crate::text::views(ls@).skip(i as int),
                key@,
            ),
        decreases ls@.len() - i,
    {
        proof {
            assert(crate::text::views(ls@).skip(i as int)[0] == ls@[i as int]@);
            assert(crate::text::views(ls@).skip(i as int).skip(1) =~= crate::text::views(
                ls@,
            ).skip(i + 1));
        }
        if crate::text::starts_with_sub(&ls[i], &k) {
            let pieces = crate::text::split_char_vec(&ls[i], ':');
            if pieces.len() >= 2 {
                let piece = crate::text::sub_vec(&pieces[1], 0, pieces[1].len());
                proof {
                    assert(piece@ =~= crate::text::spec_split(ls@[i as int]@, ':')[1]);
                }
                return Some(piece);
            }
        }
        i = i + 1;
    }
    proof {
        assert(crate::text::views(ls@).skip(ls@.len() as int) =~= Seq::<Seq<char>>::empty());
    }
    None
}

fn count_prefixed_lines(ls: &Vec<Vec<char>>, key: &str) -> (r: usize)
    ensures
        r == count_prefixed(crate::text::views(ls@), key@),
{
    let k = chars_of(key);
    let mut count: usize = 0;
    let mut i: usize = 0;
    while i < ls.len()
        invariant
            k@ == key@,
            i <= ls@.len(),
            count <= i,
            count == crate::text::views(ls@).subrange(0, i as int).filter(
                |l: Seq<char>| crate::text::is_prefix(l, key@),
            ).len(),
        decreases ls@.len() - i,
    {
        proof {
            let pre = crate::text::views(ls@).subrange(0, i as int);
            let cur = crate::text::views(ls@).subrange(0, i + 1);
            assert(cur.drop_last() =~= pre);
            assert(cur.last() == ls@[i as int]@);
            reveal_with_fuel(Seq::filter, 2);
        }
        if crate::text::starts_with_sub(&ls[i], &k) {
            count = count + 1;
        }
        i = i + 1;
    }
    proof {
        assert(crate::text::views(ls@).subrange(0, ls@.len() as int) =~= crate::text::views(
            ls@,
        ));
    }
    count
}

/// The processor facts one read of the cpuinfo file yields, plus the
/// current frequency from its own file.
pub struct CpuInfo {
    pub name: Option<String>,
    pub threads: usize,
    pub cores: Option<usize>,
    pub cache: Option<String>,
    pub freq: Option<String>,
}

/// The current frequency display: kilohertz shown as gigahertz with two
/// decimals, rounded to the nearest hundredth.
pub open spec fn spec_freq_text(khz: nat) -> Seq<char> {
    crate::render::spec_fixed2((khz + 5000) / 10000) + " GHz"@
}

/// The combined processor probe: description, thread and core counts,
/// cache and frequency, all from one read of the cpuinfo file and one of
/// the frequency file.
#[verifier::rlimit(100)]
#[verifier::spinoff_prover]
pub fn get_cpu_info_combined(cpuinfo: Option<String>, freq_content: Option<String>) -> (r:
    CpuInfo)
    ensures
        cpuinfo is None ==> r.name is None && r.threads == 0 && r.cores is None
            && r.cache is None,
        cpuinfo matches Some(s) ==> ({
            let ls = spec_lines(s@);
            &&& (match spec_colon_value(ls, "model name"@) {
                Some(nm) => r.name matches Some(t) && t@ == spec_cpu_clean(nm),
                None => r.name is None,
            })
            &&& r.threads == count_prefixed(ls, "processor"@)
            &&& r.cores == spec_core_sum(ls)
            &&& (match spec_colon_value(ls, "cache size"@) {
                Some(cv) => r.cache matches Some(t) && t@ == spec_trim(cv),
                None => r.cache is None,
            })
        }),
        (match freq_content {
            Some(f) => (if spec_trim(f@).len() > 0 && all_digits(spec_trim(f@)) && dec_val(
                spec_trim(f@),
            ) <= u64::MAX {
                r.freq matches Some(t) && t@ == spec_freq_text(dec_val(spec_trim(f@)))
            } else {
                r.freq is None
            }),
            None => r.freq is None,
        }),
{
    let freq = match freq_content {
        Some(f) => {
            let t = trim_vec(&chars_of(f.as_str()));
            match parse_u64(&t) {
                Some(khz) => {
                    let mut s = crate::render::format_fixed2((((khz as u128) + 5000)
                        / 10000) as u64);
                    s.append(" GHz");
                    Some(s)
                },
                None => None,
            }
        },
        None => None,
    };
    let text = match cpuinfo {
        Some(s) => s,
        None => {
            return CpuInfo { name: None, threads: 0, cores: None, cache: None, freq };
        },
    };
    let v = chars_of(text.as_str());
    let ls = lines_vec(&v);
    let name = match colon_value(&ls, "model name") {
        Some(raw) => Some(clean_cpu_name(&raw)),
        None => None,
    };
    let threads = count_prefixed_lines(&ls, "processor");
    let cache = match colon_value(&ls, "cache size") {
        Some(raw) => Some(string_of(&trim_vec(&raw))),
        None => None,
    };
    let cores = core_sum(&ls);
    CpuInfo { name, threads, cores, cache, freq }
}

/// One processor description, cleaned as the display shows it.
#[verifier::rlimit(100)]
#[verifier::spinoff_prover]
fn clean_cpu_name(raw: &Vec<char>) -> (r: String)
    ensures
        r@ == spec_cpu_clean(raw@),
{
    let t = trim_vec(raw);
    let t = crate::text::replace_all(&t, &chars_of("(R)"), &Vec::new());
    let t = crate::text::replace_all(&t, &chars_of("(TM)"), &Vec::new());
    let t = crate::text::replace_all(&t, &chars_of("Intel Core"), &chars_of("Intel"));
    let words = fields_vec(&t);
    let mut pieces: Vec<String> = Vec::new();
    let mut k: usize = 0;
    while k < words.len()
        invariant
            crate::text::views(words@) == spec_fields(
                crate::text::spec_replace(
                    crate::text::spec_replace(
                        crate::text::spec_replace(spec_trim(raw@), "(R)"@, Seq::empty()),
                        "(TM)"@,
                        Seq::empty(),
                    ),
                    "Intel Core"@,
                    "Intel"@,
                ),
            ),
            k <= words@.len(),
            pieces@.len() == k,
            forall|j: int| 0 <= j < k ==> (#[trigger] pieces@[j]@) == words@[j]@,
        decreases words@.len() - k,
    {
        let piece = string_of(&words[k]);
        proof {
            assert(piece@ == words@[k as int]@);
        }
        pieces.push(piece);
        k = k + 1;
    }
    proof {
        assert(crate::text::str_views(pieces@) =~= crate::text::views(words@));
    }
    crate::text::join_str(&pieces, " ")
}

/// The number after the first colon of a line, trimmed; nothing when the
/// line has no colon or what follows is not a plain decimal number.
pub open spec fn colon_tail_num(line: Seq<char>) -> Option<nat> {
    let pieces = crate::text::spec_split(line, ':');
    if pieces.len() >= 2 {
        let t = spec_trim(pieces[1]);
        if t.len() > 0 && all_digits(t) && dec_val(t) <= u64::MAX {
            Some(dec_val(t))
        } else {
            None
        }
    } else {
        None
    }
}

/// A package table with `key` bound to `value`: an earlier entry for the
/// same package is replaced in place, a new package is appended.
pub open spec fn spec_upsert(table: Seq<(u64, u64)>, key: u64, value: u64) -> Seq<(u64, u64)>
    decreases table.len(),
{
    if table.len() == 0 {
        seq![(key, value)]
    } else if table[0].0 == key {
        seq![(key, value)] + table.skip(1)
    } else {
        seq![table[0]] + spec_upsert(table.skip(1), key, value)
    }
}

/// The package table after the first `i` cpuinfo lines, with the current
/// package identifier: a `physical id` line with a colon selects the
/// package (zero when its value is malformed), and a `cpu cores` line
/// with a readable number stores that package's core count.
pub open spec fn spec_core_scan(ls: Seq<Seq<char>>, i: int) -> (u64, Seq<(u64, u64)>)
    decreases i,
{
    if i <= 0 {
        (0u64, Seq::<(u64, u64)>::empty())
    } else {
        let (cur, table) = spec_core_scan(ls, i - 1);
        let line = ls[i - 1];
        if crate::text::is_prefix(line, "physical id"@) {
            if crate::text::spec_split(line, ':').len() >= 2 {
                (
                    match colon_tail_num(line) {
                        Some(n) => n as u64,
                        None => 0u64,
                    },
                    table,
                )
            } else {
                (cur, table)
            }
        } else if crate::text::is_prefix(line, "cpu cores"@) {
            match colon_tail_num(line) {
                Some(n) => (cur, spec_upsert(table, cur, n as u64)),
                None => (cur, table),
            }
        } else {
            (cur, table)
        }
    }
}

/// Addition clamped at the top of `u64`.
pub open spec fn sat_add(a: u64, b: u64) -> u64 {
    if a + b > u64::MAX {
        u64::MAX
    } else {
        (a + b) as u64
    }
}

/// The summed core counts of the package table, clamped at `u64::MAX`.
pub open spec fn spec_table_sum(table: Seq<(u64, u64)>) -> u64
    decreases table.len(),
{
    if table.len() == 0 {
        0u64
    } else {
        sat_add(spec_table_sum(table.drop_last()), table.last().1)
    }
}

/// The core count the cpuinfo lines describe: the distinct physical
/// packages' core counts summed, each package counted once with its last
/// reported value; nothing when the sum is zero or beyond `usize`.
pub open spec fn spec_core_sum(ls: Seq<Seq<char>>) -> Option<usize> {
    let total = spec_table_sum(spec_core_scan(ls, ls.len() as int).1);
    if 0 < total <= usize::MAX {
        Some(total as usize)
    } else {
        None
    }
}

/// Splitting off matched table entries commutes with `spec_upsert`: while
/// no entry of the prefix holds the key, the prefix passes through.
proof fn lemma_upsert_skip(table: Seq<(u64, u64)>, key: u64, value: u64, k: int)
    requires
        0 <= k <= table.len(),
        forall|j: int| 0 <= j < k ==> (#[trigger] table[j]).0 != key,
    ensures
        spec_upsert(table, key, value) == table.subrange(0, k) + spec_upsert(
            table.skip(k),
            key,
            value,
        ),
    decreases k,
{
    if k == 0 {
        assert(table.skip(0) =~= table);
        assert(table.subrange(0, 0) + spec_upsert(table, key, value) =~= spec_upsert(
            table,
            key,
            value,
        ));
    } else {
        assert(table.len() > 0 && table[0].0 != key);
        lemma_upsert_skip(table.skip(1), key, value, k - 1);
        assert(table.skip(1).subrange(0, k - 1) =~= table.subrange(1, k));
        assert(table.skip(1).skip(k - 1) =~= table.skip(k));
        assert(seq![table[0]] + (table.subrange(1, k) + spec_upsert(table.skip(k), key, value))
            =~= table.subrange(0, k) + spec_upsert(table.skip(k), key, value));
    }
}

/// The summed core counts of the distinct physical packages the cpuinfo
/// file names, each package counted once with its last reported value.
fn core_sum(ls: &Vec<Vec<char>>) -> (r: Option<usize>)
    ensures
        r == spec_core_sum(crate::text::views(ls@)),
{
    let ghost lsv = crate::text::views(ls@);
    let id_key = chars_of("physical id");
    let cores_key = chars_of("cpu cores");
    let mut table: Vec<(u64, u64)> = Vec::new();
    let mut current_id: u64 = 0;
    let mut i: usize = 0;
    while i < ls.len()
        invariant
            lsv == crate::text::views(ls@),
            i <= ls@.len(),
            id_key@ == "physical id"@,
            cores_key@ == "cpu cores"@,
            (current_id, table@) == spec_core_scan(lsv, i as int),
        decreases ls@.len() - i,
    {
        let line = &ls[i];
        proof {
            assert(lsv[i as int] == line@);
        }
        if crate::text::starts_with_sub(line, &id_key) {
            let pieces = crate::text::split_char_vec(line, ':');
            proof {
                assert(crate::text::views(pieces@) == crate::text::spec_split(line@, ':'));
            }
            if pieces.len() >= 2 {
                proof {
                    assert(pieces@[1]@ == crate::text::spec_split(line@, ':')[1]);
                }
                match parse_u64(&trim_vec(&pieces[1])) {
                    Some(n) => {
                        current_id = n;
                    },
                    None => {
                        current_id = 0;
                    },
                }
            }
        } else if crate::text::starts_with_sub(line, &cores_key) {
            let pieces = crate::text::split_char_vec(line, ':');
            proof {
                assert(crate::text::views(pieces@) == crate::text::spec_split(line@, ':'));
            }
            if pieces.len() >= 2 {
                proof {
                    assert(pieces@[1]@ == crate::text::spec_split(line@, ':')[1]);
                }
                if let Some(n) = parse_u64(&trim_vec(&pieces[1])) {
                    upsert(&mut table, current_id, n);
                }
            }
        }
        i = i + 1;
    }
    proof {
        assert((current_id, table@) == spec_core_scan(lsv, lsv.len() as int));
    }
    let mut total: u64 = 0;
    let mut k: usize = 0;
    while k < table.len()
        invariant
            k <= table@.len(),
            total == spec_table_sum(table@.subrange(0, k as int)),
        decreases table@.len() - k,
    {
        let add = table[k].1;
        total = if total <= u64::MAX - add {
            total + add
        } else {
            u64::MAX
        };
        k = k + 1;
        proof {
            assert(table@.subrange(0, k as int).drop_last() =~= table@.subrange(0, k - 1));
            assert(table@.subrange(0, k as int).last() == table@[k - 1]);
        }
    }
    proof {
        assert(table@.subrange(0, table@.len() as int) =~= table@);
    }
    if total > 0 && total <= usize::MAX as u64 {
        Some(total as usize)
    } else {
        None
    }
}

/// Stores a package's core count, replacing an earlier value for the
/// same package.
fn upsert(table: &mut Vec<(u64, u64)>, key: u64, value: u64)
    ensures
        final(table)@ == spec_upsert(old(table)@, key, value),
{
    let ghost orig = old(table)@;
    let mut k: usize = 0;
    while k < table.len()
        invariant
            orig == old(table)@,
            table@ == orig,
            k <= table@.len(),
            forall|j: int| 0 <= j < k ==> (#[trigger] table@[j]).0 != key,
        decreases table@.len() - k,
    {
        if table[k].0 == key {
            proof {
                lemma_upsert_skip(orig, key, value, k as int);
                assert(orig.skip(k as int)[0] == orig[k as int]);
                assert(spec_upsert(orig.skip(k as int), key, value) =~= seq![(key, value)]
                    + orig.skip(k as int).skip(1));
                assert(orig.skip(k as int).skip(1) =~= orig.skip(k as int + 1));
            }
            table.set(k, (key, value));
            proof {
                assert(table@ =~= orig.subrange(0, k as int) + (seq![(key, value)] + orig.skip(
                    k as int + 1,
                )));
                assert(orig == old(table)@);
                assert(table@ == spec_upsert(orig, key, value));
                assert(table@ == spec_upsert(old(table)@, key, value));
            }
            return ;
        }
        k = k + 1;
    }
    proof {
        lemma_upsert_skip(orig, key, value, orig.len() as int);
        assert(orig.skip(orig.len() as int) =~= Seq::<(u64, u64)>::empty());
        assert(spec_upsert(Seq::<(u64, u64)>::empty(), key, value) =~= seq![(key, value)]);
    }
    table.push((key, value));
    proof {
        assert(orig.subrange(0, orig.len() as int) =~= orig);
        assert(table@ =~= orig + seq![(key, value)]);
        assert(orig + seq![(key, value)] =~= orig.subrange(0, orig.len() as int) + seq![
            (key, value),
        ]);
    }
}


/// The device and filesystem fields of the first mounts line whose mount
/// point is the root, each piece read as the mounts format writes it:
/// space-separated fields.
pub open spec fn spec_root_mount(ls: Seq<Seq<char>>) -> Option<(Seq<char>, Seq<char>)>
    decreases ls.len(),
{
    if ls.len() == 0 {
        None
    } else {
        let pieces = crate::text::spec_split(ls[0], ' ');
        if pieces.len() >= 3 && pieces[1] == "/"@ {
            Some((pieces[0], pieces[2]))
        } else {
            spec_root_mount(ls.skip(1))
        }
    }
}

/// The label names the device by its last path component and the
/// filesystem after a dash.
pub open spec fn is_dev_label(dev: Seq<char>, label: Seq<char>, fst: Seq<char>) -> bool {
    exists|k: int|
        0 <= k <= dev.len() && label == #[trigger] dev.subrange(k, dev.len() as int) + " - "@
            + fst && (k == 0 || dev[k - 1] == '/') && (forall|q: int|
            k <= q < dev.len() ==> dev[q] != '/')
}

proof fn lemma_dev_label(dev: Seq<char>, label: Seq<char>, fst: Seq<char>, cut: int)
    requires
        0 <= cut <= dev.len(),
        label == dev.subrange(cut, dev.len() as int) + " - "@ + fst,
        cut == 0 || dev[cut - 1] == '/',
        forall|q: int| cut <= q < dev.len() ==> dev[q] != '/',
    ensures
        is_dev_label(dev, label, fst),
{
    assert(label == dev.subrange(cut, dev.len() as int) + " - "@ + fst);
}

/// The root filesystem's usage: its device and filesystem label, and its
/// size and free space in KiB from the block counts the system reports.
/// Nothing without the mounts file or with no blocks at all.
pub fn get_partitions_impl(mounts: Option<String>, bsize: u64, blocks: u64, bavail: u64) -> (r:
    Option<Vec<Partition>>)
    ensures
        mounts is None ==> r is None,
        r matches Some(ps) ==> (ps@.len() == 1 && ({
            let p = ps@[0];
            let total = (blocks as nat * bsize as nat) / 1024;
            let avail = (bavail as nat * bsize as nat) / 1024;
            let named = (match mounts {
                Some(m) => spec_root_mount(spec_lines(m@)),
                None => None,
            });
            &&& p.mount@ == "/"@
            &&& total > 0
            &&& total <= u64::MAX
            &&& p.total_kib == total
            &&& p.used_kib == (if avail <= total {
                (total - avail) as nat
            } else {
                0
            })
            &&& (match named {
                Some((dev, fst)) => is_dev_label(dev, p.label@, fst),
                None => p.label@ == "root - unknown"@,
            })
        })),
        (mounts is Some && blocks as nat * bsize as nat / 1024 > 0 && blocks as nat
            * bsize as nat / 1024 <= u64::MAX) ==> r is Some,
{
    let text = match mounts {
        Some(s) => s,
        None => {
            return None;
        },
    };
    let v = chars_of(text.as_str());
    let ls = lines_vec(&v);
    let mut dev = String::from_str("root");
    let mut fst = String::from_str("unknown");
    let mut found = false;
    let mut i: usize = 0;
    proof {
        assert(crate::text::views(ls@).skip(0) =~= crate::text::views(ls@));
        reveal_strlit("root");
        reveal_strlit("unknown");
        reveal_strlit("root - unknown");
        reveal_strlit(" - ");
    }
    while i < ls.len() && !found
        invariant
            mounts is Some,
            crate::text::views(ls@) == spec_lines(mounts->0@),
            i <= ls@.len(),
            !found ==> spec_root_mount(crate::text::views(ls@)) == spec_root_mount(
                crate::text::views(ls@).skip(i as int),
            ) && dev@ == "root"@ && fst@ == "unknown"@,
            found ==> (spec_root_mount(crate::text::views(ls@)) matches Some((d, f)) && dev@
                == d && fst@ == f),
        decreases ls@.len() - i + if found {
            0int
        } else {
            1int
        },
    {
        proof {
            assert(crate::text::views(ls@).skip(i as int)[0] == ls@[i as int]@);
            assert(crate::text::views(ls@).skip(i as int).skip(1) =~= crate::text::views(
                ls@,
            ).skip(i + 1));
        }
        let pieces = crate::text::split_char_vec(&ls[i], ' ');
        if pieces.len() >= 3 && crate::text::str_eq(string_of(&pieces[1]).as_str(), "/") {
            dev = string_of(&pieces[0]);
            fst = string_of(&pieces[2]);
            found = true;
        } else {
            i = i + 1;
        }
    }
    proof {
        if !found {
            assert(crate::text::views(ls@).skip(ls@.len() as int) =~= Seq::<
                Seq<char>,
            >::empty());
        }
    }
    let dv = chars_of(dev.as_str());
    let dn = dv.len();
    let ghost mut cut: int = 0;
    let short = match crate::text::rfind_char(&dv, '/') {
        Some(p) => {
            proof {
                cut = p + 1;
            }
            string_of(&crate::text::sub_vec(&dv, p + 1, dn))
        },
        None => dev,
    };
    proof {
        assert(blocks as u128 * bsize as u128 <= 340282366920938463426481119284349108225u128)
            by (nonlinear_arith)
            requires blocks as u128 <= 0xFFFF_FFFF_FFFF_FFFFu128 && bsize as u128
                <= 0xFFFF_FFFF_FFFF_FFFFu128;
        assert(bavail as u128 * bsize as u128 <= 340282366920938463426481119284349108225u128)
            by (nonlinear_arith)
            requires bavail as u128 <= 0xFFFF_FFFF_FFFF_FFFFu128 && bsize as u128
                <= 0xFFFF_FFFF_FFFF_FFFFu128;
    }
    let total_wide = blocks as u128 * bsize as u128 / 1024;
    let avail_wide = bavail as u128 * bsize as u128 / 1024;
    if total_wide == 0 || total_wide > u64::MAX as u128 {
        return None;
    }
    let total = total_wide as u64;
    let used: u64 = if avail_wide <= total_wide {
        (total_wide - avail_wide) as u64
    } else {
        0
    };
    let mut label = short;
    label.append(" - ");
    label.append(fst.as_str());
    proof {
        if found {
            assert(0 <= cut <= dv@.len());
            assert(label@ =~= dv@.subrange(cut, dv@.len() as int) + " - "@ + fst@);
            assert(cut == 0 || dv@[cut - 1] == '/');
            assert(forall|q: int| cut <= q < dv@.len() ==> dv@[q] != '/');
            lemma_dev_label(dv@, label@, fst@, cut);
        } else {
            assert(label@ =~= "root - unknown"@);
        }
    }
    let mut ps: Vec<Partition> = Vec::new();
    ps.push(
        Partition { label, mount: String::from_str("/"), used_kib: used, total_kib: total },
    );
    Some(ps)
}

/// How many of the names end with the given suffix, as installed snap
/// images are counted.
pub open spec fn count_suffixed(names: Seq<Seq<char>>, suffix: Seq<char>) -> nat {
    names.filter(|n: Seq<char>| crate::text::is_suffix(n, suffix)).len()
}

fn count_suffixed_names(names: &Vec<String>, suffix: &str) -> (r: usize)
    ensures
        r == count_suffixed(crate::text::str_views(names@), suffix@),
{
    let sv = chars_of(suffix);
    let mut count: usize = 0;
    let mut i: usize = 0;
    while i < names.len()
        invariant
            sv@ == suffix@,
            i <= names@.len(),
            count <= i,
            count == crate::text::str_views(names@).subrange(0, i as int).filter(
                |n: Seq<char>| crate::text::is_suffix(n, suffix@),
            ).len(),
        decreases names@.len() - i,
    {
        proof {
            let pre = crate::text::str_views(names@).subrange(0, i as int);
            let cur = crate::text::str_views(names@).subrange(0, i + 1);
            assert(cur.drop_last() =~= pre);
            assert(cur.last() == names@[i as int]@);
            reveal_with_fuel(Seq::filter, 2);
        }
        let nv = chars_of(names[i].as_str());
        if crate::text::ends_with_chars(&nv, &sv) {
            count = count + 1;
        }
        i = i + 1;
    }
    proof {
        assert(crate::text::str_views(names@).subrange(0, names@.len() as int)
            =~= crate::text::str_views(names@));
    }
    count
}

/// One package-manager piece of the summary: the count and the manager's
/// name in parentheses.
pub open spec fn spec_pkg_piece(n: nat, manager: Seq<char>) -> Seq<char> {
    dec_digits(n) + " ("@ + manager + ")"@
}

fn pkg_piece(n: u64, manager: &str) -> (r: String)
    ensures
        r@ == spec_pkg_piece(n as nat, manager@),
{
    let mut s = u64_string(n);
    s.append(" (");
    s.append(manager);
    s.append(")");
    s
}

/// The package summary: one count per package manager with evidence of
/// use, joined by commas -- positive directory counts for the managers
/// counted by entries, line counts for those counted by listings.
pub open spec fn spec_packages(
    pacman: Option<usize>,
    dpkg: Option<String>,
    rpm: Option<String>,
    flatpak: Option<usize>,
    snaps: Option<Vec<String>>,
) -> Seq<Seq<char>> {
    (match pacman {
        Some(n) => if n > 0 {
            seq![spec_pkg_piece(n as nat, "pacman"@)]
        } else {
            seq![]
        },
        None => seq![],
    }) + (match dpkg {
        Some(out) => seq![
            spec_pkg_piece(count_prefixed(spec_lines(out@), "ii"@), "dpkg"@),
        ],
        None => seq![],
    }) + (match rpm {
        Some(out) => seq![spec_pkg_piece(spec_lines(out@).len(), "rpm"@)],
        None => seq![],
    }) + (match flatpak {
        Some(n) => if n > 0 {
            seq![spec_pkg_piece(n as nat, "flatpak"@)]
        } else {
            seq![]
        },
        None => seq![],
    }) + (match snaps {
        Some(names) => if count_suffixed(crate::text::str_views(names@), ".snap"@) > 0 {
            seq![
                spec_pkg_piece(count_suffixed(crate::text::str_views(names@), ".snap"@),
                "snap"@),
            ]
        } else {
            seq![]
        },
        None => seq![],
    })
}

/// The package summary line, or nothing when no package manager left any
/// evidence.
#[verifier::rlimit(100)]
#[verifier::spinoff_prover]
pub fn get_packages(
    pacman: Option<usize>,
    dpkg: Option<String>,
    rpm: Option<String>,
    flatpak: Option<usize>,
    snaps: Option<Vec<String>>,
) -> (r: Option<String>)
    ensures
        ({
            let pieces = spec_packages(pacman, dpkg, rpm, flatpak, snaps);
            if pieces.len() == 0 {
                r is None
            } else {
                r matches Some(t) && t@ == crate::text::spec_join(pieces, ", "@)
            }
        }),
{
    let mut counts: Vec<String> = Vec::new();
    let ghost spec0 = spec_packages(pacman, dpkg, rpm, flatpak, snaps);
    if let Some(n) = &pacman {
        if *n > 0 {
            counts.push(pkg_piece(*n as u64, "pacman"));
        }
    }
    if let Some(out) = &dpkg {
        let v = chars_of(out.as_str());
        let ls = lines_vec(&v);
        let n = count_prefixed_lines(&ls, "ii");
        counts.push(pkg_piece(n as u64, "dpkg"));
    }
    if let Some(out) = &rpm {
        let v = chars_of(out.as_str());
        let ls = lines_vec(&v);
        counts.push(pkg_piece(ls.len() as u64, "rpm"));
    }
    if let Some(n) = &flatpak {
        if *n > 0 {
            counts.push(pkg_piece(*n as u64, "flatpak"));
        }
    }
    if let Some(names) = &snaps {
        let n = count_suffixed_names(names, ".snap");
        if n > 0 {
            counts.push(pkg_piece(n as u64, "snap"));
        }
    }
    proof {
        assert(crate::text::str_views(counts@) =~~= spec0);
    }
    if counts.len() == 0 {
        None
    } else {
        Some(crate::text::join_str(&counts, ", "))
    }
}


/// The trimmed first line of a mode listing that names pixels and a
/// refresh rate, as the wayland tool prints the active mode.
pub open spec fn spec_mode_line(ls: Seq<Seq<char>>) -> Option<Seq<char>>
    decreases ls.len(),
{
    if ls.len() == 0 {
        None
    } else if crate::text::seq_contains(ls[0], " px, "@) && crate::text::seq_contains(
        ls[0],
        " Hz"@,
    ) {
        Some(spec_trim(ls[0]))
    } else {
        spec_mode_line(ls.skip(1))
    }
}

/// Whether a token of a connected-output line names a resolution: it has
/// an `x` somewhere and starts with a digit.
pub open spec fn is_resolution_token(t: Seq<char>) -> bool {
    t.len() > 0 && crate::text::seq_contains(t, "x"@) && is_digit(t[0])
}

/// The first resolution-shaped token after the output name of the first
/// connected-output line.
pub open spec fn spec_xrandr_resolution(ls: Seq<Seq<char>>) -> Option<Seq<char>>
    decreases ls.len(),
{
    if ls.len() == 0 {
        None
    } else if crate::text::seq_contains(ls[0], " connected"@) && (crate::text::seq_contains(
        ls[0],
        " primary"@,
    ) || !crate::text::seq_contains(ls[0], " disconnected"@)) {
        first_resolution(spec_fields(ls[0]), 1)
    } else {
        spec_xrandr_resolution(ls.skip(1))
    }
}

pub open spec fn first_resolution(fs: Seq<Seq<char>>, i: int) -> Option<Seq<char>>
    decreases fs.len() - i,
{
    if i < 0 || i >= fs.len() {
        None
    } else if is_resolution_token(fs[i]) {
        Some(fs[i])
    } else {
        first_resolution(fs, i + 1)
    }
}

/// The display and resolution, decided from the session type: a wayland
/// session names its socket and takes the mode line of its own tool, an
/// xeleven session takes the resolution of the first connected output,
/// and otherwise whichever display variable is set names the session
/// kind alone.
pub fn get_display_and_resolution(
    session_type: Option<String>,
    wayland_display: Option<String>,
    display_set: bool,
    wayland_set: bool,
    cmd_out: Option<String>,
) -> (r: (Option<String>, Option<String>))
    ensures
        (session_type matches Some(st) && st@ == "wayland"@) ==> ((match wayland_display {
            Some(wd) => r.0 matches Some(d) && d@ == "Wayland ("@ + wd@ + ")"@,
            None => r.0 matches Some(d) && d@ == "Wayland"@,
        }) && (match cmd_out {
            Some(out) => (match spec_mode_line(spec_lines(out@)) {
                Some(m) => r.1 matches Some(t) && t@ == m,
                None => r.1 is None,
            }),
            None => r.1 is None,
        })),
        (session_type matches Some(st) && st@ == "x11"@ && cmd_out is Some) ==> (match
            spec_xrandr_resolution(spec_lines(cmd_out->0@)) {
            Some(m) => r.1 matches Some(t) && t@ == m && (r.0 matches Some(d) && d@ == m
                + " (X11)"@),
            None => r.1 is None && (r.0 matches Some(d) && d@ == "X11"@),
        }),
        (session_type matches Some(st) && st@ == "x11"@ && cmd_out is None) ==> (
        r.1 is None && (r.0 matches Some(d) && d@ == "X11"@)),
        ((match session_type {
            Some(st) => st@ != "wayland"@ && st@ != "x11"@,
            None => true,
        }) && display_set) ==> (r.1 is None && (r.0 matches Some(d) && d@ == "X11"@)),
        ((match session_type {
            Some(st) => st@ != "wayland"@ && st@ != "x11"@,
            None => true,
        }) && !display_set && wayland_set) ==> (r.1 is None && (r.0 matches Some(d) && d@
            == "Wayland"@)),
        ((match session_type {
            Some(st) => st@ != "wayland"@ && st@ != "x11"@,
            None => true,
        }) && !display_set && !wayland_set) ==> (r.0 is None && r.1 is None),
{
    proof {
        reveal_strlit("wayland");
        reveal_strlit("x11");
        assert("wayland"@.len() == 7 && "x11"@.len() == 3);
    }
    if let Some(st) = &session_type {
        if crate::text::str_eq(st.as_str(), "wayland") {
            let disp = match &wayland_display {
                Some(wd) => {
                    let mut s = String::from_str("Wayland (");
                    s.append(wd.as_str());
                    s.append(")");
                    s
                },
                None => String::from_str("Wayland"),
            };
            let res = match &cmd_out {
                Some(out) => mode_line(out.as_str()),
                None => None,
            };
            return (Some(disp), res);
        }
        if crate::text::str_eq(st.as_str(), "x11") {
            if let Some(out) = &cmd_out {
                let res = xrandr_resolution(out.as_str());
                let disp = match &res {
                    Some(m) => {
                        let mut s = m.clone();
                        s.append(" (X11)");
                        s
                    },
                    None => String::from_str("X11"),
                };
                return (Some(disp), res);
            }
            return (Some(String::from_str("X11")), None);
        }
    }
    if display_set {
        return (Some(String::from_str("X11")), None);
    }
    if wayland_set {
        return (Some(String::from_str("Wayland")), None);
    }
    (None, None)
}

fn mode_line(out: &str) -> (r: Option<String>)
    ensures
        (match spec_mode_line(spec_lines(out@)) {
            Some(m) => r matches Some(t) && t@ == m,
            None => r is None,
        }),
{
    let v = chars_of(out);
    let ls = lines_vec(&v);
    let px = chars_of(" px, ");
    let hz = chars_of(" Hz");
    let mut i: usize = 0;
    proof {
        assert(crate::text::views(ls@).skip(0) =~= crate::text::views(ls@));
    }
    while i < ls.len()
        invariant
            px@ == " px, "@,
            hz@ == " Hz"@,
            crate::text::views(ls@) == spec_lines(out@),
            i <= ls@.len(),
            spec_mode_line(crate::text::views(ls@)) == spec_mode_line(
                crate::text::views(ls@).skip(i as int),
            ),
        decreases ls@.len() - i,
    {
        proof {
            assert(crate::text::views(ls@).skip(i as int)[0] == ls@[i as int]@);
            assert(crate::text::views(ls@).skip(i as int).skip(1) =~= crate::text::views(
                ls@,
            ).skip(i + 1));
        }
        if crate::text::contains_sub(&ls[i], &px) && crate::text::contains_sub(&ls[i], &hz) {
            return Some(string_of(&trim_vec(&ls[i])));
        }
        i = i + 1;
    }
    proof {
        assert(crate::text::views(ls@).skip(ls@.len() as int) =~= Seq::<Seq<char>>::empty());
    }
    None
}

fn xrandr_resolution(out: &str) -> (r: Option<String>)
    ensures
        (match spec_xrandr_resolution(spec_lines(out@)) {
            Some(m) => r matches Some(t) && t@ == m,
            None => r is None,
        }),
{
    let v = chars_of(out);
    let ls = lines_vec(&v);
    let conn = chars_of(" connected");
    let prim = chars_of(" primary");
    let disc = chars_of(" disconnected");
    let mut i: usize = 0;
    proof {
        assert(crate::text::views(ls@).skip(0) =~= crate::text::views(ls@));
    }
    while i < ls.len()
        invariant
            conn@ == " connected"@,
            prim@ == " primary"@,
            disc@ == " disconnected"@,
            crate::text::views(ls@) == spec_lines(out@),
            i <= ls@.len(),
            spec_xrandr_resolution(crate::text::views(ls@)) == spec_xrandr_resolution(
                crate::text::views(ls@).skip(i as int),
            ),
        decreases ls@.len() - i,
    {
        proof {
            assert(crate::text::views(ls@).skip(i as int)[0] == ls@[i as int]@);
            assert(crate::text::views(ls@).skip(i as int).skip(1) =~= crate::text::views(
                ls@,
            ).skip(i + 1));
        }
        if crate::text::contains_sub(&ls[i], &conn) && (crate::text::contains_sub(
            &ls[i],
            &prim,
        ) || !crate::text::contains_sub(&ls[i], &disc)) {
            let fs = fields_vec(&ls[i]);
            let x = chars_of("x");
            proof {
                assert(spec_xrandr_resolution(crate::text::views(ls@)) == first_resolution(
                    crate::text::views(fs@),
                    1,
                ));
            }
            let mut k: usize = 1;
            while k < fs.len()
                invariant
                    x@ == "x"@,
                    1 <= k,
                    spec_xrandr_resolution(spec_lines(out@)) == first_resolution(
                        crate::text::views(fs@),
                        k as int,
                    ),
                decreases fs@.len() - k,
            {
                proof {
                    assert(crate::text::views(fs@)[k as int] == fs@[k as int]@);
                }
                let tok = &fs[k];
                if tok.len() > 0 && crate::text::contains_sub(tok, &x) && digit_test(tok[0]) {
                    return Some(string_of(tok));
                }
                k = k + 1;
            }
            return None;
        }
        i = i + 1;
    }
    proof {
        assert(crate::text::views(ls@).skip(ls@.len() as int) =~= Seq::<Seq<char>>::empty());
    }
    None
}


/// A string with every leading and trailing single quote removed, as
/// settings values are unquoted.
pub open spec fn spec_trim_quotes(s: Seq<char>) -> Seq<char> {
    let a = first_not_quote(s, 0);
    let b = last_not_quote(s, s.len() as int);
    if a < b {
        s.subrange(a, b)
    } else {
        Seq::empty()
    }
}

pub open spec fn first_not_quote(s: Seq<char>, i: int) -> int
    decreases s.len() - i,
{
    if i < 0 || i >= s.len() {
        s.len() as int
    } else if s[i] == '\'' {
        first_not_quote(s, i + 1)
    } else {
        i
    }
}

pub open spec fn last_not_quote(s: Seq<char>, i: int) -> int
    decreases i,
{
    if i <= 0 || i > s.len() {
        0
    } else if s[i - 1] == '\'' {
        last_not_quote(s, i - 1)
    } else {
        i
    }
}

proof fn lemma_last_not_quote_le(s: Seq<char>, i: int)
    ensures
        last_not_quote(s, i) <= i || i < 0,
    decreases i,
{
    if 0 < i <= s.len() && s[i - 1] == '\'' {
        lemma_last_not_quote_le(s, i - 1);
    }
}

/// A settings value as the settings tool prints it: unquoted, and kept
/// only when something remains.
pub fn gsettings_value(out: Option<String>) -> (r: Option<String>)
    ensures
        out is None ==> r is None,
        out matches Some(v) ==> (if spec_trim_quotes(v@).len() > 0 {
            r matches Some(t) && t@ == spec_trim_quotes(v@)
        } else {
            r is None
        }),
{
    let text = match out {
        Some(v) => v,
        None => {
            return None;
        },
    };
    let v = chars_of(text.as_str());
    let n = v.len();
    let mut a: usize = 0;
    while a < n && v[a] == '\''
        invariant
            a <= n,
            n == v@.len(),
            first_not_quote(v@, 0) == first_not_quote(v@, a as int),
        decreases n - a,
    {
        a = a + 1;
    }
    proof {
        assert(first_not_quote(v@, a as int) == a as int);
    }
    let mut b: usize = n;
    while b > a && v[b - 1] == '\''
        invariant
            a <= b <= n,
            n == v@.len(),
            last_not_quote(v@, n as int) == last_not_quote(v@, b as int),
        decreases b,
    {
        b = b - 1;
    }
    if a < b {
        proof {
            assert(last_not_quote(v@, b as int) == b as int);
        }
        Some(string_of(&crate::text::sub_vec(&v, a, b)))
    } else {
        proof {
            if b > 0 {
                assert(last_not_quote(v@, b as int) == last_not_quote(v@, a as int));
                lemma_last_not_quote_le(v@, a as int);
            }
            assert(spec_trim_quotes(v@) =~= Seq::<char>::empty());
        }
        None
    }
}

/// The value after the first equals sign of the first line starting with
/// `key`, read as the widget style is.
pub open spec fn spec_kde_value(ls: Seq<Seq<char>>, key: Seq<char>) -> Option<Seq<char>>
    decreases ls.len(),
{
    if ls.len() == 0 {
        None
    } else if crate::text::is_prefix(ls[0], key) && crate::text::spec_split(ls[0], '=').len()
        >= 2 {
        Some(crate::text::spec_split(ls[0], '=')[1])
    } else {
        spec_kde_value(ls.skip(1), key)
    }
}

/// The icon theme named inside the icons section: the value of the first
/// `theme=` line after an `[Icons]` heading and before the next heading.
pub open spec fn spec_kde_icons(ls: Seq<Seq<char>>, in_icons: bool) -> Option<Seq<char>>
    decreases ls.len(),
{
    if ls.len() == 0 {
        None
    } else if ls[0] == "[Icons]"@ {
        spec_kde_icons(ls.skip(1), true)
    } else if ls[0].len() > 0 && ls[0][0] == '[' {
        spec_kde_icons(ls.skip(1), false)
    } else if in_icons && crate::text::is_prefix(ls[0], "theme="@) && crate::text::spec_split(
        ls[0],
        '=',
    ).len() >= 2 {
        Some(crate::text::spec_split(ls[0], '=')[1])
    } else {
        spec_kde_icons(ls.skip(1), in_icons)
    }
}

fn kde_value(ls: &Vec<Vec<char>>, key: &str) -> (r: Option<String>)
    ensures
        (match spec_kde_value(crate::text::views(ls@), key@) {
            Some(v) => r matches Some(t) && t@ == v,
            None => r is None,
        }),
{
    let k = chars_of(key);
    let mut i: usize = 0;
    proof {
        assert(crate::text::views(ls@).skip(0) =~= crate::text::views(ls@));
    }
    while i < ls.len()
        invariant
            k@ == key@,
            i <= ls@.len(),
            spec_kde_value(crate::text::views(ls@), key@) == spec_kde_value(
                crate::text::views(ls@).skip(i as int),
                key@,
            ),
        decreases ls@.len() - i,
    {
        proof {
            assert(crate::text::views(ls@).skip(i as int)[0] == ls@[i as int]@);
            assert(crate::text::views(ls@).skip(i as int).skip(1) =~= crate::text::views(
                ls@,
            ).skip(i + 1));
        }
        if crate::text::starts_with_sub(&ls[i], &k) {
            let pieces = crate::text::split_char_vec(&ls[i], '=');
            if pieces.len() >= 2 {
                return Some(string_of(&pieces[1]));
            }
        }
        i = i + 1;
    }
    proof {
        assert(crate::text::views(ls@).skip(ls@.len() as int) =~= Seq::<Seq<char>>::empty());
    }
    None
}

fn kde_icons(ls: &Vec<Vec<char>>) -> (r: Option<String>)
    ensures
        (match spec_kde_icons(crate::text::views(ls@), false) {
            Some(v) => r matches Some(t) && t@ == v,
            None => r is None,
        }),
{
    let heading = chars_of("[Icons]");
    let key = chars_of("theme=");
    let mut in_icons = false;
    let mut i: usize = 0;
    proof {
        assert(crate::text::views(ls@).skip(0) =~= crate::text::views(ls@));
    }
    while i < ls.len()
        invariant
            heading@ == "[Icons]"@,
            key@ == "theme="@,
            i <= ls@.len(),
            spec_kde_icons(crate::text::views(ls@), false) == spec_kde_icons(
                crate::text::views(ls@).skip(i as int),
                in_icons,
            ),
        decreases ls@.len() - i,
    {
        proof {
            assert(crate::text::views(ls@).skip(i as int)[0] == ls@[i as int]@);
            assert(crate::text::views(ls@).skip(i as int).skip(1) =~= crate::text::views(
                ls@,
            ).skip(i + 1));
        }
        let line = &ls[i];
        if crate::text::str_eq(string_of(line).as_str(), "[Icons]") {
            in_icons = true;
        } else if line.len() > 0 && line[0] == '[' {
            in_icons = false;
        } else if in_icons && crate::text::starts_with_sub(line, &key) {
            let pieces = crate::text::split_char_vec(line, '=');
            if pieces.len() >= 2 {
                return Some(string_of(&pieces[1]));
            }
        }
        i = i + 1;
    }
    proof {
        assert(crate::text::views(ls@).skip(ls@.len() as int) =~= Seq::<Seq<char>>::empty());
    }
    None
}

/// The desktop looks, one slot each for the widget theme, the icon theme
/// and the font.
pub struct ThemeInfo {
    pub theme: Option<String>,
    pub icons: Option<String>,
    pub font: Option<String>,
}

/// The desktop looks from the desktop's own configuration file, with the
/// settings tool's answers as the fallback for whatever that file does
/// not name: the widget style, the icon theme of the icons section, and
/// the first comma-piece of the font entry.
pub fn get_theme_info(
    kde: Option<String>,
    gs_theme: Option<String>,
    gs_icons: Option<String>,
    gs_font: Option<String>,
) -> (r: ThemeInfo)
    ensures
        (match (match kde {
            Some(c) => spec_kde_value(spec_lines(c@), "widgetStyle="@),
            None => None,
        }) {
            Some(v) => r.theme matches Some(t) && t@ == v,
            None => (match gs_theme {
                Some(g) => if spec_trim_quotes(g@).len() > 0 {
                    r.theme matches Some(t) && t@ == spec_trim_quotes(g@)
                } else {
                    r.theme is None
                },
                None => r.theme is None,
            }),
        }),
        (match (match kde {
            Some(c) => spec_kde_icons(spec_lines(c@), false),
            None => None,
        }) {
            Some(v) => r.icons matches Some(t) && t@ == v,
            None => (match gs_icons {
                Some(g) => if spec_trim_quotes(g@).len() > 0 {
                    r.icons matches Some(t) && t@ == spec_trim_quotes(g@)
                } else {
                    r.icons is None
                },
                None => r.icons is None,
            }),
        }),
        (match (match kde {
            Some(c) => spec_kde_value(spec_lines(c@), "font="@),
            None => None,
        }) {
            Some(f) => r.font matches Some(t) && t@ == crate::text::spec_split(f, ',')[0],
            None => (match gs_font {
                Some(g) => if spec_trim_quotes(g@).len() > 0 {
                    r.font matches Some(t) && t@ == spec_trim_quotes(g@)
                } else {
                    r.font is None
                },
                None => r.font is None,
            }),
        }),
{
    let (kde_theme, kde_font, kde_icon) = match &kde {
        Some(content) => {
            let v = chars_of(content.as_str());
            let ls = lines_vec(&v);
            let theme = kde_value(&ls, "widgetStyle=");
            let font = match kde_value(&ls, "font=") {
                Some(f) => {
                    let fv = chars_of(f.as_str());
                    let pieces = crate::text::split_char_vec(&fv, ',');
                    Some(string_of(&pieces[0]))
                },
                None => None,
            };
            let icons = kde_icons(&ls);
            (theme, font, icons)
        },
        None => (None, None, None),
    };
    let theme = match kde_theme {
        Some(t) => Some(t),
        None => gsettings_value(gs_theme),
    };
    let icons = match kde_icon {
        Some(t) => Some(t),
        None => gsettings_value(gs_icons),
    };
    let font = match kde_font {
        Some(t) => Some(t),
        None => gsettings_value(gs_font),
    };
    ThemeInfo { theme, icons, font }
}


/// Whether any of the names contains the vendor word, lower-cased.
pub open spec fn spec_any_vendor(gpus: Seq<Seq<char>>, vendor: Seq<char>) -> bool {
    exists|i: int|
        0 <= i < gpus.len() && crate::text::seq_contains(
            #[trigger] crate::text::spec_lower(gpus[i]),
            vendor,
        )
}

fn any_vendor(gpus: &Vec<String>, vendor: &str) -> (r: bool)
    ensures
        r == spec_any_vendor(crate::text::str_views(gpus@), vendor@),
{
    let vv = chars_of(vendor);
    let mut i: usize = 0;
    while i < gpus.len()
        invariant
            vv@ == vendor@,
            i <= gpus@.len(),
            forall|j: int|
                0 <= j < i ==> !crate::text::seq_contains(
                    #[trigger] crate::text::spec_lower(gpus@[j]@),
                    vendor@,
                ),
        decreases gpus@.len() - i,
    {
        let lower = crate::text::ascii_lower(&chars_of(gpus[i].as_str()));
        if crate::text::contains_sub(&lower, &vv) {
            proof {
                assert(crate::text::seq_contains(
                    crate::text::spec_lower(crate::text::str_views(gpus@)[i as int]),
                    vendor@,
                ));
            }
            return true;
        }
        i = i + 1;
    }
    proof {
        assert(!spec_any_vendor(crate::text::str_views(gpus@), vendor@));
    }
    false
}

/// The first index at or after `i` whose name mentions the vendor, or
/// the length when none does.
pub open spec fn first_vendor_from(gpus: Seq<Seq<char>>, vendor: Seq<char>, i: int) -> int
    decreases gpus.len() - i,
{
    if i < 0 || i >= gpus.len() {
        gpus.len() as int
    } else if crate::text::seq_contains(crate::text::spec_lower(gpus[i]), vendor) {
        i
    } else {
        first_vendor_from(gpus, vendor, i + 1)
    }
}

fn first_vendor_index(gpus: &Vec<String>, vendor: &str) -> (r: usize)
    ensures
        r == first_vendor_from(crate::text::str_views(gpus@), vendor@, 0),
        r <= gpus@.len(),
{
    let vv = chars_of(vendor);
    let mut i: usize = 0;
    while i < gpus.len()
        invariant
            vv@ == vendor@,
            i <= gpus@.len(),
            first_vendor_from(crate::text::str_views(gpus@), vendor@, 0) == first_vendor_from(
                crate::text::str_views(gpus@),
                vendor@,
                i as int,
            ),
        decreases gpus@.len() - i,
    {
        let lower = crate::text::ascii_lower(&chars_of(gpus[i].as_str()));
        proof {
            assert(crate::text::str_views(gpus@)[i as int] == gpus@[i as int]@);
        }
        if crate::text::contains_sub(&lower, &vv) {
            return i;
        }
        i = i + 1;
    }
    gpus.len()
}

/// The display text of a temperature in whole degrees.
pub open spec fn temp_text(deg: nat) -> Seq<char> {
    dec_digits(deg) + "\u{b0}C"@
}

/// One integrated sensor applied to the temperature slots: a sensor whose
/// name matches a detected vendor's driver, with a validated reading in
/// millidegrees, fills that vendor's first slot.
pub open spec fn spec_sensor_step(
    ts: Seq<Option<Seq<char>>>,
    gpus: Seq<Seq<char>>,
    name: Seq<char>,
    reading: Option<Seq<char>>,
) -> Seq<Option<Seq<char>>> {
    let lname = crate::text::spec_lower(name);
    let mi = spec_any_vendor(gpus, "intel"@) && (crate::text::seq_contains(lname, "i915"@)
        || crate::text::seq_contains(lname, "pch"@));
    let ma = spec_any_vendor(gpus, "amd"@) && crate::text::seq_contains(lname, "amdgpu"@);
    if mi || ma {
        match reading {
            Some(rd) => {
                let t = spec_trim(rd);
                if t.len() > 0 && all_digits(t) && dec_val(t) <= u64::MAX && 1000 <= dec_val(t)
                    && dec_val(t) <= 150000 {
                    let idx = if mi {
                        first_vendor_from(gpus, "intel"@, 0)
                    } else {
                        first_vendor_from(gpus, "amd"@, 0)
                    };
                    if idx < ts.len() {
                        ts.update(idx, Some(temp_text(dec_val(t) / 1000)))
                    } else {
                        ts
                    }
                } else {
                    ts
                }
            },
            None => ts,
        }
    } else {
        ts
    }
}

/// The temperature slots after the first `i` sensors, starting from one
/// empty slot per detected controller.
pub open spec fn spec_sensor_scan(
    gpus: Seq<Seq<char>>,
    sensors: Seq<(Seq<char>, Option<Seq<char>>)>,
    i: int,
) -> Seq<Option<Seq<char>>>
    decreases i,
{
    if i <= 0 {
        Seq::new(gpus.len(), |j: int| None::<Seq<char>>)
    } else {
        spec_sensor_step(spec_sensor_scan(gpus, sensors, i - 1), gpus, sensors[i - 1].0,
            sensors[i - 1].1)
    }
}

/// The first validated whole-degree reading of the discrete tool's
/// output, scanning its lines from `i`.
pub open spec fn spec_nvidia_pick(ls: Seq<Seq<char>>, i: int) -> Option<nat>
    decreases ls.len() - i,
{
    if i < 0 || i >= ls.len() {
        None
    } else {
        let t = spec_trim(ls[i]);
        if t.len() > 0 && all_digits(t) && dec_val(t) <= u64::MAX && 0 < dec_val(t) && dec_val(
            t,
        ) < 150 {
            Some(dec_val(t))
        } else {
            spec_nvidia_pick(ls, i + 1)
        }
    }
}

/// The discrete tool's reading applied to the slots: when a discrete
/// controller was detected and the tool reported a validated value, that
/// controller's first slot takes it.
pub open spec fn spec_nvidia_apply(
    ts: Seq<Option<Seq<char>>>,
    gpus: Seq<Seq<char>>,
    nvidia_out: Option<Seq<char>>,
) -> Seq<Option<Seq<char>>> {
    if spec_any_vendor(gpus, "nvidia"@) {
        match nvidia_out {
            Some(o) => match spec_nvidia_pick(crate::text::spec_lines(o), 0) {
                Some(d) => {
                    let idx = first_vendor_from(gpus, "nvidia"@, 0);
                    if idx < ts.len() {
                        ts.update(idx, Some(temp_text(d)))
                    } else {
                        ts
                    }
                },
                None => ts,
            },
            None => ts,
        }
    } else {
        ts
    }
}

/// The temperature slots a run ends with: every sensor applied in order,
/// then the discrete tool's reading.
pub open spec fn spec_gpu_temps(
    gpus: Seq<Seq<char>>,
    sensors: Seq<(Seq<char>, Option<Seq<char>>)>,
    nvidia_out: Option<Seq<char>>,
) -> Seq<Option<Seq<char>>> {
    spec_nvidia_apply(spec_sensor_scan(gpus, sensors, sensors.len() as int), gpus, nvidia_out)
}

/// Whether any slot holds a reading.
pub open spec fn any_some(ts: Seq<Option<Seq<char>>>) -> bool {
    exists|i: int| 0 <= i < ts.len() && ts[i] is Some
}

/// The view of an optional owned string.
pub open spec fn opt_view(o: Option<String>) -> Option<Seq<char>> {
    match o {
        Some(s) => Some(s@),
        None => None,
    }
}

/// The views of a sequence of optional strings.
pub open spec fn opt_views(s: Seq<Option<String>>) -> Seq<Option<Seq<char>>> {
    s.map_values(|o: Option<String>| opt_view(o))
}

/// The views of the sensor list: each name with its optional reading.
pub open spec fn sensor_views(s: Seq<(String, Option<String>)>) -> Seq<
    (Seq<char>, Option<Seq<char>>),
> {
    s.map_values(|p: (String, Option<String>)| (p.0@, opt_view(p.1)))
}

/// The temperatures of the detected controllers, one slot per
/// controller: integrated sensors matched by vendor, the discrete
/// vendor's own tool for its card, and nothing at all when no reading
/// was found anywhere.
pub fn get_gpu_temp_with_gpus(
    gpus: Option<&Vec<String>>,
    sensors: &Vec<(String, Option<String>)>,
    nvidia_out: Option<String>,
) -> (r: Option<Vec<Option<String>>>)
    ensures
        gpus is None ==> r is None,
        (gpus matches Some(g) && g@.len() == 0) ==> r is None,
        gpus matches Some(g) ==> g@.len() > 0 ==> ({
            let ts = spec_gpu_temps(crate::text::str_views(g@), sensor_views(sensors@),
                opt_view(nvidia_out));
            match r {
                Some(out) => any_some(ts) && opt_views(out@) == ts,
                None => !any_some(ts),
            }
        }),
        r matches Some(ts) ==> (gpus matches Some(g) && ts@.len() == g@.len()),
{
    let gpus = match gpus {
        Some(g) => g,
        None => {
            return None;
        },
    };
    if gpus.len() == 0 {
        return None;
    }
    let ghost gv = crate::text::str_views(gpus@);
    let count = gpus.len();
    let mut temps: Vec<Option<String>> = Vec::new();
    let mut k: usize = 0;
    while k < count
        invariant
            temps@.len() == k,
            k <= count,
            forall|j: int| 0 <= j < k ==> (#[trigger] temps@[j]) is None,
        decreases count - k,
    {
        temps.push(None);
        k = k + 1;
    }
    proof {
        assert(opt_views(temps@) =~= spec_sensor_scan(gv, sensor_views(sensors@), 0));
    }
    let has_intel = any_vendor(gpus, "intel");
    let has_amd = any_vendor(gpus, "amd");
    let has_nvidia = any_vendor(gpus, "nvidia");
    let mut i: usize = 0;
    while i < sensors.len()
        invariant
            gv == crate::text::str_views(gpus@),
            temps@.len() == count,
            count == gpus@.len(),
            i <= sensors@.len(),
            has_intel == spec_any_vendor(gv, "intel"@),
            has_amd == spec_any_vendor(gv, "amd"@),
            has_nvidia == spec_any_vendor(gv, "nvidia"@),
            opt_views(temps@) == spec_sensor_scan(gv, sensor_views(sensors@), i as int),
        decreases sensors@.len() - i,
    {
        let ghost before = opt_views(temps@);
        let name = crate::text::ascii_lower(&chars_of(sensors[i].0.as_str()));
        proof {
            assert(sensor_views(sensors@)[i as int] == (sensors@[i as int].0@, opt_view(
                sensors@[i as int].1,
            )));
        }
        let matched_intel = has_intel && (crate::text::contains_sub(&name, &chars_of("i915"))
            || crate::text::contains_sub(&name, &chars_of("pch")));
        let matched_amd = has_amd && crate::text::contains_sub(&name, &chars_of("amdgpu"));
        if matched_intel || matched_amd {
            if let Some(reading) = &sensors[i].1 {
                let t = trim_vec(&chars_of(reading.as_str()));
                if let Some(milli) = parse_u64(&t) {
                    if 1000 <= milli && milli <= 150000 {
                        let idx = if matched_intel {
                            first_vendor_index(gpus, "intel")
                        } else {
                            first_vendor_index(gpus, "amd")
                        };
                        if idx < count {
                            let mut display = u64_string(milli / 1000);
                            display.append("\u{b0}C");
                            proof {
                                assert(display@ == temp_text((milli / 1000) as nat));
                            }
                            temps.set(idx, Some(display));
                            proof {
                                assert(opt_views(temps@) =~= before.update(idx as int,
                                    Some(temp_text((milli / 1000) as nat))));
                            }
                        }
                    }
                }
            }
        }
        i = i + 1;
        proof {
            assert(opt_views(temps@) =~= spec_sensor_step(before, gv,
                sensors@[i - 1].0@, opt_view(sensors@[i - 1].1)));
        }
    }
    proof {
        assert(opt_views(temps@) == spec_sensor_scan(gv, sensor_views(sensors@),
            sensors@.len() as int));
    }
    let ghost scanned = opt_views(temps@);
    if has_nvidia {
        if let Some(out) = &nvidia_out {
            let v = chars_of(out.as_str());
            let ls = lines_vec(&v);
            let ghost lsv = crate::text::spec_lines(out@);
            let mut j: usize = 0;
            let mut taken = false;
            while j < ls.len() && !taken
                invariant
                    gv == crate::text::str_views(gpus@),
                    temps@.len() == count,
                    count == gpus@.len(),
                    has_nvidia == spec_any_vendor(gv, "nvidia"@),
                    has_nvidia,
                    j <= ls@.len(),
                    crate::text::views(ls@) == lsv,
                    opt_view(nvidia_out) == Some(out@),
                    lsv == crate::text::spec_lines(out@),
                    !taken ==> opt_views(temps@) == scanned && spec_nvidia_pick(lsv, 0)
                        == spec_nvidia_pick(lsv, j as int),
                    taken ==> opt_views(temps@) == spec_nvidia_apply(scanned, gv, opt_view(
                        nvidia_out,
                    )),
                decreases ls@.len() - j + (if taken { 0int } else { 1int }),
            {
                let t = trim_vec(&ls[j]);
                proof {
                    assert(lsv[j as int] == ls@[j as int]@);
                }
                if let Some(deg) = parse_u64(&t) {
                    if 0 < deg && deg < 150 {
                        proof {
                            assert(spec_nvidia_pick(lsv, j as int) == Some(deg as nat));
                        }
                        let idx = first_vendor_index(gpus, "nvidia");
                        if idx < count {
                            let mut display = u64_string(deg);
                            display.append("\u{b0}C");
                            proof {
                                assert(display@ == temp_text(deg as nat));
                            }
                            temps.set(idx, Some(display));
                            proof {
                                assert(opt_views(temps@) =~= scanned.update(idx as int,
                                    Some(temp_text(deg as nat))));
                            }
                        }
                        taken = true;
                        proof {
                            assert(opt_view(nvidia_out) == Some(out@));
                            assert(spec_nvidia_pick(lsv, 0) == Some(deg as nat));
                            assert(opt_views(temps@) == spec_nvidia_apply(scanned, gv,
                                opt_view(nvidia_out)));
                        }
                    }
                }
                if !taken {
                    proof {
                        assert(spec_nvidia_pick(lsv, j as int) == spec_nvidia_pick(lsv,
                            j as int + 1));
                    }
                    j = j + 1;
                }
            }
            proof {
                if !taken {
                    assert(spec_nvidia_pick(lsv, ls@.len() as int) is None);
                }
                assert(opt_views(temps@) == spec_nvidia_apply(scanned, gv, opt_view(
                    nvidia_out,
                )));
            }
        }
    }
    proof {
        assert(opt_views(temps@) == spec_gpu_temps(gv, sensor_views(sensors@), opt_view(
            nvidia_out,
        )));
    }
    let mut any = false;
    let mut m: usize = 0;
    while m < temps.len()
        invariant
            temps@.len() == count,
            count == gpus@.len(),
            m <= temps@.len(),
            any == exists|p: int| 0 <= p < m && opt_views(temps@)[p] is Some,
        decreases temps@.len() - m,
    {
        if temps[m].is_some() {
            proof {
                assert(opt_views(temps@)[m as int] is Some);
            }
            any = true;
        }
        m = m + 1;
    }
    proof {
        assert(any == any_some(opt_views(temps@)));
    }
    if any {
        Some(temps)
    } else {
        None
    }
}


/// Whether a hardware-monitor name, trimmed and lower-cased, names a
/// processor temperature sensor.
pub open spec fn cpu_sensor_name(name: Seq<char>) -> bool {
    let n = crate::text::spec_lower(spec_trim(name));
    ||| crate::text::seq_contains(n, "coretemp"@)
    ||| crate::text::seq_contains(n, "k10temp"@)
    ||| crate::text::seq_contains(n, "cpu"@)
    ||| crate::text::seq_contains(n, "zenpower"@)
}

/// The first reading at or after `i` that is a validated value in
/// millidegrees.
pub open spec fn first_valid_milli(reads: Seq<Seq<char>>, i: int) -> Option<nat>
    decreases reads.len() - i,
{
    if i < 0 || i >= reads.len() {
        None
    } else {
        let t = spec_trim(reads[i]);
        if t.len() > 0 && all_digits(t) && dec_val(t) <= u64::MAX && 1000 <= dec_val(t)
            && dec_val(t) <= 150000 {
            Some(dec_val(t))
        } else {
            first_valid_milli(reads, i + 1)
        }
    }
}

/// The views of the processor sensor list: each name with its readings.
pub open spec fn cpu_sensor_views(s: Seq<(String, Vec<String>)>) -> Seq<
    (Seq<char>, Seq<Seq<char>>),
> {
    s.map_values(|p: (String, Vec<String>)| (p.0@, crate::text::str_views(p.1@)))
}

/// The first processor sensor at or after `i` with a validated reading,
/// in whole degrees.
pub open spec fn spec_cpu_temp(
    sensors: Seq<(Seq<char>, Seq<Seq<char>>)>,
    i: int,
) -> Option<nat>
    decreases sensors.len() - i,
{
    if i < 0 || i >= sensors.len() {
        None
    } else if cpu_sensor_name(sensors[i].0) {
        match first_valid_milli(sensors[i].1, 0) {
            Some(m) => Some(m / 1000),
            None => spec_cpu_temp(sensors, i + 1),
        }
    } else {
        spec_cpu_temp(sensors, i + 1)
    }
}

/// The processor temperature: the first validated reading of the first
/// processor sensor that has one, displayed in whole degrees.
pub fn get_cpu_temp(sensors: &Vec<(String, Vec<String>)>) -> (r: Option<String>)
    ensures
        match spec_cpu_temp(cpu_sensor_views(sensors@), 0) {
            Some(d) => r matches Some(s) && s@ == temp_text(d),
            None => r is None,
        },
{
    let ghost sv = cpu_sensor_views(sensors@);
    let mut i: usize = 0;
    while i < sensors.len()
        invariant
            sv == cpu_sensor_views(sensors@),
            i <= sensors@.len(),
            spec_cpu_temp(sv, 0) == spec_cpu_temp(sv, i as int),
        decreases sensors@.len() - i,
    {
        proof {
            assert(sv[i as int] == (sensors@[i as int].0@, crate::text::str_views(
                sensors@[i as int].1@)));
        }
        let name = crate::text::ascii_lower(&trim_vec(&chars_of(sensors[i].0.as_str())));
        let matched = crate::text::contains_sub(&name, &chars_of("coretemp"))
            || crate::text::contains_sub(&name, &chars_of("k10temp"))
            || crate::text::contains_sub(&name, &chars_of("cpu"))
            || crate::text::contains_sub(&name, &chars_of("zenpower"));
        if matched {
            let reads = &sensors[i].1;
            let ghost rv = crate::text::str_views(reads@);
            let mut j: usize = 0;
            while j < reads.len()
                invariant
                    rv == crate::text::str_views(reads@),
                    j <= reads@.len(),
                    sv == cpu_sensor_views(sensors@),
                    i < sensors@.len(),
                    sv[i as int].1 == rv,
                    cpu_sensor_name(sv[i as int].0),
                    spec_cpu_temp(sv, 0) == spec_cpu_temp(sv, i as int),
                    first_valid_milli(rv, 0) == first_valid_milli(rv, j as int),
                decreases reads@.len() - j,
            {
                proof {
                    assert(rv[j as int] == reads@[j as int]@);
                }
                let t = trim_vec(&chars_of(reads[j].as_str()));
                if let Some(milli) = parse_u64(&t) {
                    if 1000 <= milli && milli <= 150000 {
                        proof {
                            assert(first_valid_milli(rv, j as int) == Some(milli as nat));
                            assert(spec_cpu_temp(sv, i as int) == Some((milli / 1000) as nat));
                        }
                        let mut display = u64_string(milli / 1000);
                        display.append("\u{b0}C");
                        return Some(display);
                    }
                }
                proof {
                    assert(first_valid_milli(rv, j as int) == first_valid_milli(rv,
                        j as int + 1));
                }
                j = j + 1;
            }
            proof {
                assert(first_valid_milli(rv, 0) is None);
                assert(spec_cpu_temp(sv, i as int) == spec_cpu_temp(sv, i as int + 1));
            }
        }
        i = i + 1;
    }
    None
}

/// Lexicographic order on names, character by character.
pub open spec fn lex_le(a: Seq<char>, b: Seq<char>) -> bool
    decreases a.len(),
{
    if a.len() == 0 {
        true
    } else if b.len() == 0 {
        false
    } else if (a[0] as u32) < (b[0] as u32) {
        true
    } else if (a[0] as u32) > (b[0] as u32) {
        false
    } else {
        lex_le(a.skip(1), b.skip(1))
    }
}

fn lex_le_str(a: &str, b: &str) -> (r: bool)
    ensures
        r == lex_le(a@, b@),
{
    let av = chars_of(a);
    let bv = chars_of(b);
    let mut i: usize = 0;
    proof {
        assert(a@.skip(0) =~= a@);
        assert(b@.skip(0) =~= b@);
    }
    while i < av.len() && i < bv.len()
        invariant
            av@ == a@,
            bv@ == b@,
            i <= av@.len(),
            i <= bv@.len(),
            lex_le(a@, b@) == lex_le(a@.skip(i as int), b@.skip(i as int)),
        decreases av@.len() - i,
    {
        proof {
            assert(a@.skip(i as int)[0] == a@[i as int]);
            assert(b@.skip(i as int)[0] == b@[i as int]);
            assert(a@.skip(i as int).skip(1) =~= a@.skip(i + 1));
            assert(b@.skip(i as int).skip(1) =~= b@.skip(i + 1));
        }
        let x = av[i] as u32;
        let y = bv[i] as u32;
        if x < y {
            return true;
        }
        if x > y {
            return false;
        }
        i = i + 1;
    }
    proof {
        if i >= av@.len() {
            assert(a@.skip(i as int) =~= Seq::<char>::empty());
        } else {
            assert(b@.skip(i as int) =~= Seq::<char>::empty());
            assert(a@.skip(i as int).len() > 0);
        }
    }
    i >= av.len()
}

/// The display order of interfaces: those that are up first, then by
/// name.
pub open spec fn net_le(a: NetworkInfo, b: NetworkInfo) -> bool {
    let au = a.state@ == "UP"@;
    let bu = b.state@ == "UP"@;
    if au != bu {
        au
    } else {
        lex_le(a.interface@, b.interface@)
    }
}

fn net_le_exec(a: &NetworkInfo, b: &NetworkInfo) -> (r: bool)
    ensures
        r == net_le(*a, *b),
{
    let au = crate::text::str_eq(a.state.as_str(), "UP");
    let bu = crate::text::str_eq(b.state.as_str(), "UP");
    if au != bu {
        au
    } else {
        lex_le_str(a.interface.as_str(), b.interface.as_str())
    }
}

proof fn lemma_lex_le_total(a: Seq<char>, b: Seq<char>)
    ensures
        lex_le(a, b) || lex_le(b, a),
    decreases a.len(),
{
    if a.len() > 0 && b.len() > 0 && a[0] as u32 == b[0] as u32 {
        lemma_lex_le_total(a.skip(1), b.skip(1));
    }
}

proof fn lemma_net_le_total(a: NetworkInfo, b: NetworkInfo)
    ensures
        net_le(a, b) || net_le(b, a),
{
    lemma_lex_le_total(a.interface@, b.interface@);
}

/// Inserting an element anywhere adds exactly it to the multiset.
proof fn lemma_insert_multiset(s: Seq<NetworkInfo>, j: int, x: NetworkInfo)
    requires
        0 <= j <= s.len(),
    ensures
        s.insert(j, x).to_multiset() == s.to_multiset().insert(x),
{
    broadcast use vstd::seq_lib::group_to_multiset_ensures;

    let a = s.subrange(0, j);
    let b = s.subrange(j, s.len() as int);
    assert(s.insert(j, x) =~= (a + seq![x]) + b);
    assert(s =~= a + b);
    vstd::seq_lib::lemma_multiset_commutative(a + seq![x], b);
    vstd::seq_lib::lemma_multiset_commutative(a, seq![x]);
    vstd::seq_lib::lemma_multiset_commutative(a, b);
    assert(seq![x] =~= Seq::<NetworkInfo>::empty().push(x));
    assert(Seq::<NetworkInfo>::empty().to_multiset() =~= vstd::multiset::Multiset::<NetworkInfo>::empty());
    assert(seq![x].to_multiset() =~= vstd::multiset::Multiset::<NetworkInfo>::empty().insert(x));
    assert(s.insert(j, x).to_multiset() =~= s.to_multiset().insert(x));
}

/// Sorts interfaces into display order, keeping exactly the given
/// records.
fn sort_nets(v: Vec<NetworkInfo>) -> (r: Vec<NetworkInfo>)
    ensures
        r@.len() == v@.len(),
        forall|i: int, j: int| 0 <= i < j < r@.len() ==> net_le(#[trigger] r@[i], #[trigger] r@[j]),
        r@.to_multiset() == v@.to_multiset(),
{
    let mut v = v;
    let ghost orig0 = v@;
    let n = v.len();
    let mut i: usize = 1;
    if n == 0 {
        return v;
    }
    while i < n
        invariant
            1 <= i <= n,
            n == v@.len(),
            forall|p: int, q: int| 0 <= p < q < i ==> net_le(#[trigger] v@[p], #[trigger] v@[q]),
            v@.to_multiset() == orig0.to_multiset(),
        decreases n - i,
    {
        let ghost before = v@;
        let x = v.remove(i);
        let mut j: usize = 0;
        while j < i && net_le_exec(&v[j], &x)
            invariant
                j <= i,
                i < n,
                v@.len() == n - 1,
                forall|p: int, q: int| 0 <= p < q < i ==> net_le(#[trigger] v@[p], #[trigger] v@[q]),
                forall|p: int| 0 <= p < j ==> net_le(#[trigger] v@[p], x),
            decreases i - j,
        {
            j = j + 1;
        }
        proof {
            if j < i {
                assert(!net_le(v@[j as int], x));
                lemma_net_le_total(v@[j as int], x);
                assert(net_le(x, v@[j as int]));
                assert forall|q: int| j <= q < i implies net_le(x, #[trigger] v@[q]) by {
                    if q > j {
                        assert(net_le(v@[j as int], v@[q]));
                        lemma_net_le_total(x, v@[q]);
                        if !net_le(x, v@[q]) {
                            assert(net_le(v@[q], x));
                            lemma_lex_le_trans_net(v@[j as int], v@[q], x);
                        }
                    }
                }
            }
        }
        v.insert(j, x);
        i = i + 1;
        proof {
            assert forall|p: int, q: int| 0 <= p < q < i implies net_le(
                #[trigger] v@[p],
                #[trigger] v@[q],
            ) by {}
            broadcast use vstd::seq_lib::group_to_multiset_ensures;

            assert(before.remove(i - 1).to_multiset() =~= before.to_multiset().remove(x));
            lemma_insert_multiset(before.remove(i - 1), j as int, x);
            assert(before.to_multiset().contains(x)) by {
                assert(before[i - 1] == x);
            }
            assert(before.to_multiset().remove(x).insert(x) =~= before.to_multiset());
        }
    }
    v
}

proof fn lemma_lex_le_trans(a: Seq<char>, b: Seq<char>, c: Seq<char>)
    requires
        lex_le(a, b),
        lex_le(b, c),
    ensures
        lex_le(a, c),
    decreases a.len(),
{
    if a.len() > 0 && b.len() > 0 && c.len() > 0 && a[0] as u32 == b[0] as u32 && b[0] as u32
        == c[0] as u32 {
        lemma_lex_le_trans(a.skip(1), b.skip(1), c.skip(1));
    }
}

proof fn lemma_lex_le_trans_net(a: NetworkInfo, b: NetworkInfo, c: NetworkInfo)
    requires
        net_le(a, b),
        net_le(b, c),
    ensures
        net_le(a, c),
{
    if a.state@ == "UP"@ && b.state@ == "UP"@ && c.state@ == "UP"@ || !(a.state@ == "UP"@)
        && !(b.state@ == "UP"@) && !(c.state@ == "UP"@) {
        lemma_lex_le_trans(a.interface@, b.interface@, c.interface@);
    }
}


/// A decimal read in thousandths: the whole part before the first dot
/// and up to three fraction digits, any further digits dropped. Nothing
/// when either part is not a plain decimal number or the whole part is
/// over the accepted ceiling.
pub open spec fn spec_fixed3(num: Seq<char>) -> Option<u64> {
    let d = crate::text::char_at(num, '.', 0);
    let whole = num.subrange(0, d);
    let fe = if num.len() - d - 1 > 3 {
        d + 4
    } else {
        num.len() as int
    };
    let frac = if d < num.len() {
        num.subrange(d + 1, fe)
    } else {
        Seq::<char>::empty()
    };
    if whole.len() == 0 || !all_digits(whole) || dec_val(whole) > u64::MAX {
        None
    } else if dec_val(whole) > 18000000000000000 {
        None
    } else if frac.len() > 0 && !all_digits(frac) {
        None
    } else {
        Some((dec_val(whole) * 1000 + frac_scaled(frac)) as u64)
    }
}

/// A decimal with up to three fraction digits read as thousandths; any
/// further digits are dropped.
fn parse_fixed3(v: &Vec<char>) -> (r: Option<u64>)
    ensures
        r == spec_fixed3(v@),
{
    let ghost d = crate::text::char_at(v@, '.', 0);
    let (whole, frac) = match find_char(v, '.', 0) {
        Some(i) => {
            proof {
                crate::text::lemma_char_at_is(v@, '.', 0, i as int);
            }
            let frac_end = if v.len() - i - 1 > 3 {
                i + 4
            } else {
                v.len()
            };
            (crate::text::sub_vec(v, 0, i), crate::text::sub_vec(v, i + 1, frac_end))
        },
        None => {
            proof {
                crate::text::lemma_char_at_none(v@, '.', 0);
                assert(v@.subrange(0, v@.len() as int) =~= v@);
            }
            (crate::text::sub_vec(v, 0, v.len()), Vec::new())
        },
    };
    proof {
        assert(whole@ == v@.subrange(0, d));
        assert(frac@.len() <= 3);
    }
    let w = match parse_u64(&whole) {
        Some(n) => n,
        None => {
            return None;
        },
    };
    if w > 18000000000000000 {
        return None;
    }
    let f: u64 = if frac.len() > 0 {
        match parse_u64(&frac) {
            Some(n) => {
                proof {
                    lemma_dec_val_three_digits(frac@);
                }
                if frac.len() == 1 {
                    n * 100
                } else if frac.len() == 2 {
                    n * 10
                } else {
                    n
                }
            },
            None => {
                proof {
                    if all_digits(frac@) {
                        lemma_dec_val_three_digits(frac@);
                    }
                }
                return None;
            },
        }
    } else {
        0
    };
    proof {
        assert(f as nat == frac_scaled(frac@));
    }
    Some(w * 1000 + f)
}

/// One past the last character before `i` that is not a colon.
pub open spec fn last_non_colon(s: Seq<char>, i: int) -> int
    decreases i,
{
    if i <= 0 || i > s.len() {
        0
    } else if s[i - 1] == ':' {
        last_non_colon(s, i - 1)
    } else {
        i
    }
}

/// The text with its trailing colons removed.
pub open spec fn spec_strip_colons(s: Seq<char>) -> Seq<char> {
    s.subrange(0, last_non_colon(s, s.len() as int))
}

/// An interface name with its trailing colons removed, as the device
/// statistics file writes it.
fn strip_colons(v: &Vec<char>) -> (r: String)
    ensures
        r@ == spec_strip_colons(v@),
{
    let n = v.len();
    let mut b = n;
    while b > 0 && v[b - 1] == ':'
        invariant
            b <= n,
            n == v@.len(),
            last_non_colon(v@, n as int) == last_non_colon(v@, b as int),
        decreases b,
    {
        b = b - 1;
    }
    proof {
        assert(last_non_colon(v@, b as int) == b as int);
    }
    string_of(&crate::text::sub_vec(v, 0, b))
}

/// The last position of `c` in `s`, where it occurs.
pub open spec fn last_at(s: Seq<char>, c: char) -> int {
    choose|i: int|
        0 <= i < s.len() && s[i] == c && (forall|j: int| i < j < s.len() ==> s[j] != c)
}

pub proof fn lemma_last_at(s: Seq<char>, c: char, k: int)
    requires
        0 <= k < s.len(),
        s[k] == c,
        forall|j: int| k < j < s.len() ==> s[j] != c,
    ensures
        last_at(s, c) == k,
{
    let i = last_at(s, c);
    assert(0 <= k < s.len() && s[k] == c && (forall|j: int| k < j < s.len() ==> s[j] != c));
    assert(0 <= i < s.len() && s[i] == c && (forall|j: int| i < j < s.len() ==> s[j] != c));
    if i < k {
        assert(s[k] != c);
    } else if k < i {
        assert(s[i] != c);
    }
}

/// The loss a summary line reports, when the line carries a percentage:
/// the word just before the percent sign, read in thousandths. The outer
/// option says whether the line updates the running value at all.
pub open spec fn loss_update(line: Seq<char>) -> Option<Option<u64>> {
    let p = crate::text::char_at(line, '%', 0);
    if p < line.len() {
        let prefix = line.subrange(0, p);
        let start: int = if exists|j: int| 0 <= j < prefix.len() && prefix[j] == ' ' {
            last_at(prefix, ' ') + 1
        } else {
            0
        };
        Some(spec_fixed3(spec_trim(prefix.subrange(start, prefix.len() as int))))
    } else {
        None
    }
}

/// The average round-trip time a summary line reports: the second of the
/// slash-separated statistics after the equals sign, in thousandths.
pub open spec fn rtt_ping(line: Seq<char>) -> Option<Option<u64>> {
    let halves = crate::text::spec_split(line, '=');
    if halves.len() >= 2 {
        let stats = crate::text::spec_split(spec_trim(halves[1]), '/');
        if stats.len() >= 4 {
            Some(spec_fixed3(spec_trim(stats[1])))
        } else {
            None
        }
    } else {
        None
    }
}

/// The jitter a summary line reports: the first word of the fourth
/// statistic, in thousandths.
pub open spec fn rtt_jitter(line: Seq<char>) -> Option<Option<u64>> {
    let halves = crate::text::spec_split(line, '=');
    if halves.len() >= 2 {
        let stats = crate::text::spec_split(spec_trim(halves[1]), '/');
        if stats.len() >= 4 && spec_fields(stats[3]).len() >= 1 {
            Some(spec_fixed3(spec_fields(stats[3])[0]))
        } else {
            None
        }
    } else {
        None
    }
}

/// The running (average, jitter, loss) after the first `i` lines of a
/// ping summary: a loss line sets the loss, a statistics line sets the
/// average and, when present, the jitter; later lines win.
pub open spec fn ping_scan(ls: Seq<Seq<char>>, i: int) -> (
    Option<u64>,
    Option<u64>,
    Option<u64>,
)
    decreases i,
{
    if i <= 0 {
        (None::<u64>, None::<u64>, None::<u64>)
    } else {
        let (p, j, l) = ping_scan(ls, i - 1);
        let line = ls[i - 1];
        if crate::text::seq_contains(line, "packet loss"@) {
            match loss_update(line) {
                Some(nl) => (p, j, nl),
                None => (p, j, l),
            }
        } else if crate::text::seq_contains(line, "rtt min/avg/max/mdev"@) {
            (
                match rtt_ping(line) {
                    Some(x) => x,
                    None => p,
                },
                match rtt_jitter(line) {
                    Some(x) => x,
                    None => j,
                },
                l,
            )
        } else {
            (p, j, l)
        }
    }
}

/// The ping summary of one interface: average, jitter and loss, each in
/// thousandths of its unit.
#[verifier::rlimit(100)]
#[verifier::spinoff_prover]
fn parse_ping_stats(out: &str) -> (r: (Option<u64>, Option<u64>, Option<u64>))
    ensures
        r == ping_scan(crate::text::spec_lines(out@), crate::text::spec_lines(out@).len() as int),
{
    let v = chars_of(out);
    let ls = lines_vec(&v);
    let ghost lsv = crate::text::spec_lines(out@);
    let loss_key = chars_of("packet loss");
    let rtt_key = chars_of("rtt min/avg/max/mdev");
    let mut ping: Option<u64> = None;
    let mut jitter: Option<u64> = None;
    let mut loss: Option<u64> = None;
    let mut i: usize = 0;
    while i < ls.len()
        invariant
            lsv == crate::text::spec_lines(out@),
            crate::text::views(ls@) == lsv,
            i <= ls@.len(),
            loss_key@ == "packet loss"@,
            rtt_key@ == "rtt min/avg/max/mdev"@,
            (ping, jitter, loss) == ping_scan(lsv, i as int),
        decreases ls@.len() - i,
    {
        let line = &ls[i];
        proof {
            assert(lsv[i as int] == line@);
        }
        if crate::text::contains_sub(line, &loss_key) {
            match find_char(line, '%', 0) {
                Some(pos) => {
                    proof {
                        crate::text::lemma_char_at_is(line@, '%', 0, pos as int);
                    }
                    let prefix = crate::text::sub_vec(line, 0, pos);
                    let start = match crate::text::rfind_char(&prefix, ' ') {
                        Some(sp) => {
                            proof {
                                lemma_last_at(prefix@, ' ', sp as int);
                            }
                            sp + 1
                        },
                        None => 0,
                    };
                    let piece = crate::text::sub_vec(&prefix, start, prefix.len());
                    loss = parse_fixed3(&trim_vec(&piece));
                    proof {
                        assert(loss_update(line@) == Some(loss));
                    }
                },
                None => {
                    proof {
                        crate::text::lemma_char_at_none(line@, '%', 0);
                        assert(loss_update(line@) is None);
                    }
                },
            }
        } else if crate::text::contains_sub(line, &rtt_key) {
            let halves = crate::text::split_char_vec(line, '=');
            proof {
                assert(crate::text::views(halves@) == crate::text::spec_split(line@, '='));
            }
            if halves.len() >= 2 {
                proof {
                    assert(halves@[1]@ == crate::text::spec_split(line@, '=')[1]);
                }
                let stats = crate::text::split_char_vec(&trim_vec(&halves[1]), '/');
                proof {
                    assert(crate::text::views(stats@) == crate::text::spec_split(spec_trim(
                        halves@[1]@), '/'));
                }
                if stats.len() >= 4 {
                    proof {
                        assert(stats@[1]@ == crate::text::spec_split(spec_trim(halves@[1]@),
                            '/')[1]);
                        assert(stats@[3]@ == crate::text::spec_split(spec_trim(halves@[1]@),
                            '/')[3]);
                    }
                    ping = parse_fixed3(&trim_vec(&stats[1]));
                    let tail_fields = fields_vec(&stats[3]);
                    proof {
                        assert(crate::text::views(tail_fields@) == spec_fields(stats@[3]@));
                    }
                    if tail_fields.len() >= 1 {
                        proof {
                            assert(tail_fields@[0]@ == spec_fields(stats@[3]@)[0]);
                        }
                        jitter = parse_fixed3(&tail_fields[0]);
                    }
                }
            }
        }
        i = i + 1;
        proof {
            assert((ping, jitter, loss) == ping_scan(lsv, i as int));
        }
    }
    (ping, jitter, loss)
}

/// The value of a text as a plain decimal number, if it is one.
pub open spec fn spec_opt_num(s: Seq<char>) -> Option<u64> {
    if s.len() > 0 && all_digits(s) && dec_val(s) <= u64::MAX {
        Some(dec_val(s) as u64)
    } else {
        None
    }
}

/// The interface a device-statistics row names: its first column with
/// the trailing colon removed.
pub open spec fn net_line_iface(line: Seq<char>) -> Seq<char> {
    spec_strip_colons(spec_fields(line)[0])
}

/// Whether a device-statistics row yields a record: it has the full
/// column count and names an interface other than the loopback.
pub open spec fn net_qualifying(line: Seq<char>) -> bool {
    spec_fields(line).len() >= 10 && net_line_iface(line) != "lo"@
}

/// How many rows at or after `i` yield records.
pub open spec fn net_count(ls: Seq<Seq<char>>, i: int) -> nat
    decreases ls.len() - i,
{
    if i < 0 || i >= ls.len() {
        0
    } else {
        (if net_qualifying(ls[i]) {
            1nat
        } else {
            0nat
        }) + net_count(ls, i + 1)
    }
}

/// The totals table of the first snapshot's rows before `i`, skipping
/// the two header lines: each full row's interface with its received and
/// sent totals, both zero when either is unreadable.
pub open spec fn spec_stats1_upto(ls: Seq<Seq<char>>, i: int) -> Seq<(Seq<char>, u64, u64)>
    decreases i,
{
    if i <= 2 {
        Seq::<(Seq<char>, u64, u64)>::empty()
    } else {
        let line = ls[i - 1];
        let fs = spec_fields(line);
        spec_stats1_upto(ls, i - 1) + (if fs.len() > 9 {
            seq![
                (match (spec_opt_num(fs[1]), spec_opt_num(fs[9])) {
                    (Some(rx), Some(tx)) => (net_line_iface(line), rx, tx),
                    _ => (net_line_iface(line), 0u64, 0u64),
                }),
            ]
        } else {
            Seq::<(Seq<char>, u64, u64)>::empty()
        })
    }
}

/// The first table row for an interface, if any.
pub open spec fn stats_lookup(t: Seq<(Seq<char>, u64, u64)>, iface: Seq<char>) -> Option<
    (u64, u64),
>
    decreases t.len(),
{
    if t.len() == 0 {
        None
    } else if t[0].0 == iface {
        Some((t[0].1, t[0].2))
    } else {
        stats_lookup(t.skip(1), iface)
    }
}

/// The link state of an interface: its first entry's text, trimmed and
/// upper-cased, or `UNKNOWN` when the listing has none.
pub open spec fn spec_state_of(
    states: Seq<(Seq<char>, Seq<char>)>,
    iface: Seq<char>,
    i: int,
) -> Seq<char>
    decreases states.len() - i,
{
    if i < 0 || i >= states.len() {
        "UNKNOWN"@
    } else if states[i].0 == iface {
        crate::text::spec_upper(spec_trim(states[i].1))
    } else {
        spec_state_of(states, iface, i + 1)
    }
}

/// Subtraction clamped at zero.
pub open spec fn sat_sub(a: u64, b: u64) -> u64 {
    if a >= b {
        (a - b) as u64
    } else {
        0u64
    }
}

/// A byte difference over the elapsed milliseconds as hundredths of
/// MB/s, when it fits.
pub open spec fn rate_opt(diff: u64, delta_ms: u64) -> Option<u64> {
    let w = (diff * 100000) / (1048576 * delta_ms);
    if w <= u64::MAX {
        Some(w as u64)
    } else {
        None
    }
}

/// The views of the state listing.
pub open spec fn pairs_views(s: Seq<(String, String)>) -> Seq<(Seq<char>, Seq<char>)> {
    s.map_values(|p: (String, String)| (p.0@, p.1@))
}

/// The views of the totals table.
pub open spec fn stats_views(s: Seq<(String, u64, u64)>) -> Seq<(Seq<char>, u64, u64)> {
    s.map_values(|p: (String, u64, u64)| (p.0@, p.1, p.2))
}

/// What a record owes to the row it came from: the row's interface,
/// its byte totals as the row gives them, the link state looked up in
/// the state listing, and the rates computed from the two snapshots by
/// the saturating-difference formula, absent when either total is
/// unreadable, the first snapshot lacks the interface, or no time
/// elapsed.
pub open spec fn net_record_matches(
    line: Seq<char>,
    st1: Seq<(Seq<char>, u64, u64)>,
    states: Seq<(Seq<char>, Seq<char>)>,
    delta_ms: u64,
    x: NetworkInfo,
) -> bool {
    let fs = spec_fields(line);
    let iface = net_line_iface(line);
    &&& x.interface@ == iface
    &&& x.mac is None
    &&& x.rx_bytes == spec_opt_num(fs[1])
    &&& x.tx_bytes == spec_opt_num(fs[9])
    &&& x.state@ == spec_state_of(states, iface, 0)
    &&& (match (spec_opt_num(fs[1]), spec_opt_num(fs[9])) {
        (Some(r2), Some(t2)) => (match stats_lookup(st1, iface) {
            Some(p) => (if delta_ms > 0 {
                x.rx_rate_cmbs == rate_opt(sat_sub(r2, p.0), delta_ms) && x.tx_rate_cmbs
                    == rate_opt(sat_sub(t2, p.1), delta_ms)
            } else {
                x.rx_rate_cmbs is None && x.tx_rate_cmbs is None
            }),
            None => x.rx_rate_cmbs is None && x.tx_rate_cmbs is None,
        }),
        _ => x.rx_rate_cmbs is None && x.tx_rate_cmbs is None,
    })
}

/// Whether a record comes from some qualifying row of the second
/// snapshot, with the contents that row dictates.
pub open spec fn net_record_ok(
    ls2: Seq<Seq<char>>,
    st1: Seq<(Seq<char>, u64, u64)>,
    states: Seq<(Seq<char>, Seq<char>)>,
    delta_ms: u64,
    x: NetworkInfo,
) -> bool {
    exists|j: int|
        2 <= j < ls2.len() && #[trigger] net_qualifying(ls2[j]) && net_record_matches(
            ls2[j],
            st1,
            states,
            delta_ms,
            x,
        )
}

/// The network summary assembled from the two device-statistics
/// snapshots, the address listing, the per-interface link states and the
/// per-interface ping outputs: one record per interface but the loopback,
/// sorted with the interfaces that are up first and by name within each
/// group. Rates are computed from the two snapshots over the elapsed
/// time; a zero elapsed time yields no rate.
#[verifier::rlimit(100)]
#[verifier::spinoff_prover]
pub fn get_network_final_with_ip(
    net_start: Option<String>,
    dev2: Option<String>,
    delta_ms: u64,
    should_ping: bool,
    ip_out: Option<String>,
    states: &Vec<(String, String)>,
    pings: &Vec<(String, Option<String>)>,
) -> (r: Option<Vec<NetworkInfo>>)
    ensures
        net_start is None || dev2 is None ==> r is None,
        r matches Some(nets) ==> nets@.len() > 0 && (forall|i: int, j: int|
            0 <= i < j < nets@.len() ==> net_le(#[trigger] nets@[i], #[trigger] nets@[j])),
        net_start matches Some(d1) ==> dev2 matches Some(d2) ==> ({
            let ls1 = crate::text::spec_lines(d1@);
            let ls2 = crate::text::spec_lines(d2@);
            let st1 = spec_stats1_upto(ls1, ls1.len() as int);
            &&& (r is None <==> net_count(ls2, 2) == 0)
            &&& (r matches Some(nets) ==> nets@.len() == net_count(ls2, 2) && (forall|k: int|
                0 <= k < nets@.len() ==> net_record_ok(ls2, st1, pairs_views(states@),
                    delta_ms, #[trigger] nets@[k])))
        }),
{
    let dev1 = match net_start {
        Some(s) => s,
        None => {
            return None;
        },
    };
    let dev2 = match dev2 {
        Some(s) => s,
        None => {
            return None;
        },
    };
    let ghost ls1v = crate::text::spec_lines(dev1@);
    let ghost ls2v = crate::text::spec_lines(dev2@);
    let ghost statesv = pairs_views(states@);
    // first snapshot: received and sent totals per interface
    let mut stats1: Vec<(String, u64, u64)> = Vec::new();
    let ls1 = lines_vec(&chars_of(dev1.as_str()));
    let mut i: usize = 2;
    proof {
        assert(stats_views(stats1@) =~= spec_stats1_upto(ls1v, 2));
    }
    while i < ls1.len()
        invariant
            crate::text::views(ls1@) == ls1v,
            2 <= i,
            i <= ls1@.len() || i == 2,
            stats_views(stats1@) == spec_stats1_upto(ls1v, i as int),
        decreases ls1@.len() - i,
    {
        let fs = fields_vec(&ls1[i]);
        proof {
            assert(ls1v[i as int] == ls1@[i as int]@);
            assert(crate::text::views(fs@) == spec_fields(ls1v[i as int]));
        }
        if fs.len() > 9 {
            proof {
                assert(fs@[0]@ == spec_fields(ls1v[i as int])[0]);
                assert(fs@[1]@ == spec_fields(ls1v[i as int])[1]);
                assert(fs@[9]@ == spec_fields(ls1v[i as int])[9]);
            }
            let iface = strip_colons(&fs[0]);
            let rx = parse_u64(&fs[1]);
            let tx = parse_u64(&fs[9]);
            if let (Some(rx), Some(tx)) = (rx, tx) {
                stats1.push((iface, rx, tx));
            } else {
                stats1.push((iface, 0, 0));
            }
        }
        i = i + 1;
        proof {
            assert(stats_views(stats1@) =~= spec_stats1_upto(ls1v, i as int));
        }
    }
    proof {
        if ls1v.len() > 2 {
            assert(i == ls1v.len());
        } else {
            assert(spec_stats1_upto(ls1v, ls1v.len() as int) =~= spec_stats1_upto(ls1v, 2));
        }
        assert(stats_views(stats1@) == spec_stats1_upto(ls1v, ls1v.len() as int));
    }
    let ghost st1v = stats_views(stats1@);
    // the address listing: one optional pair of addresses per interface
    let mut addrs: Vec<(String, Option<String>, Option<String>)> = Vec::new();
    if let Some(out) = &ip_out {
        let ls = lines_vec(&chars_of(out.as_str()));
        let mut k: usize = 0;
        while k < ls.len()
            decreases ls@.len() - k,
        {
            let fs = fields_vec(&ls[k]);
            if fs.len() >= 4 {
                let iface = string_of(&fs[1]);
                let family = &fs[2];
                let addr_end = match find_char(&fs[3], '/', 0) {
                    Some(p) => p,
                    None => fs[3].len(),
                };
                let addr = string_of(&crate::text::sub_vec(&fs[3], 0, addr_end));
                let mut slot: usize = 0;
                let mut have = false;
                let mut m: usize = 0;
                while m < addrs.len()
                    invariant
                        have ==> slot < addrs@.len(),
                    decreases addrs@.len() - m,
                {
                    if crate::text::str_eq(addrs[m].0.as_str(), iface.as_str()) {
                        slot = m;
                        have = true;
                    }
                    m = m + 1;
                }
                if !have {
                    addrs.push((string_of(&fs[1]), None, None));
                    slot = addrs.len() - 1;
                }
                if crate::text::str_eq(string_of(family).as_str(), "inet") {
                    proof {
                        assert(slot < addrs@.len());
                    }
                    let entry = addrs.remove(slot);
                    addrs.insert(slot, (entry.0, Some(addr), entry.2));
                } else if crate::text::str_eq(string_of(family).as_str(), "inet6") {
                    let av = chars_of(addr.as_str());
                    let local = crate::text::starts_with_sub(&av, &chars_of("fe80"))
                        || crate::text::str_eq(addr.as_str(), "::1");
                    if !local {
                        proof {
                            assert(slot < addrs@.len());
                        }
                        let entry = addrs.remove(slot);
                        addrs.insert(slot, (entry.0, entry.1, Some(addr)));
                    }
                }
            }
            k = k + 1;
        }
    }
    // the second snapshot drives the records
    let mut nets: Vec<NetworkInfo> = Vec::new();
    let ls2 = lines_vec(&chars_of(dev2.as_str()));
    let mut i: usize = 2;
    while i < ls2.len()
        invariant
            crate::text::views(ls2@) == ls2v,
            statesv == pairs_views(states@),
            st1v == stats_views(stats1@),
            2 <= i,
            i <= ls2@.len() || i == 2,
            nets@.len() + net_count(ls2v, i as int) == net_count(ls2v, 2),
            forall|k: int|
                0 <= k < nets@.len() ==> net_record_ok(ls2v, st1v, statesv, delta_ms,
                    #[trigger] nets@[k]),
        decreases ls2@.len() - i,
    {
        let ghost line = ls2v[i as int];
        let fs = fields_vec(&ls2[i]);
        proof {
            assert(line == ls2@[i as int]@);
            assert(crate::text::views(fs@) == spec_fields(line));
        }
        if fs.len() >= 10 {
            proof {
                assert(fs@[0]@ == spec_fields(line)[0]);
                assert(fs@[1]@ == spec_fields(line)[1]);
                assert(fs@[9]@ == spec_fields(line)[9]);
            }
            let iface = strip_colons(&fs[0]);
            if !crate::text::str_eq(iface.as_str(), "lo") {
                proof {
                    assert(net_qualifying(line));
                }
                let mut ipv4: Option<String> = None;
                let mut ipv6: Option<String> = None;
                let mut m: usize = 0;
                let mut taken: Option<usize> = None;
                while m < addrs.len()
                    invariant
                        taken matches Some(s) ==> s < addrs@.len(),
                    decreases addrs@.len() - m,
                {
                    if taken.is_none() && crate::text::str_eq(addrs[m].0.as_str(),
                        iface.as_str()) {
                        taken = Some(m);
                    }
                    m = m + 1;
                }
                if let Some(slot) = taken {
                    if slot < addrs.len() {
                        let entry = addrs.remove(slot);
                        ipv4 = entry.1;
                        ipv6 = entry.2;
                    }
                }
                let mut state = String::from_str("UNKNOWN");
                let mut m: usize = 0;
                let mut found_state = false;
                while m < states.len()
                    invariant
                        statesv == pairs_views(states@),
                        m <= states@.len(),
                        found_state ==> state@ == spec_state_of(statesv, iface@, 0),
                        !found_state ==> state@ == "UNKNOWN"@ && spec_state_of(statesv,
                            iface@, 0) == spec_state_of(statesv, iface@, m as int),
                    decreases states@.len() - m,
                {
                    proof {
                        assert(statesv[m as int] == (states@[m as int].0@,
                            states@[m as int].1@));
                    }
                    if !found_state && crate::text::str_eq(states[m].0.as_str(),
                        iface.as_str()) {
                        state = string_of(&crate::text::ascii_upper(&trim_vec(&chars_of(
                            states[m].1.as_str(),
                        ))));
                        found_state = true;
                    }
                    m = m + 1;
                }
                proof {
                    assert(state@ == spec_state_of(statesv, iface@, 0));
                }
                let rx2 = parse_u64(&fs[1]);
                let tx2 = parse_u64(&fs[9]);
                proof {
                    assert(rx2 == spec_opt_num(spec_fields(line)[1]));
                    assert(tx2 == spec_opt_num(spec_fields(line)[9]));
                }
                let mut rx_rate: Option<u64> = None;
                let mut tx_rate: Option<u64> = None;
                if let (Some(r2), Some(t2)) = (&rx2, &tx2) {
                    let mut m: usize = 0;
                    let mut looked = false;
                    proof {
                        assert(st1v.skip(0) =~= st1v);
                    }
                    while m < stats1.len() && !looked
                        invariant
                            st1v == stats_views(stats1@),
                            m <= stats1@.len(),
                            rx2 matches Some(a) && a == *r2,
                            tx2 matches Some(b) && b == *t2,
                            !looked ==> rx_rate is None && tx_rate is None && stats_lookup(
                                st1v, iface@) == stats_lookup(st1v.skip(m as int), iface@),
                            looked ==> (match stats_lookup(st1v, iface@) {
                                Some(p) => (if delta_ms > 0 {
                                    rx_rate == rate_opt(sat_sub(*r2, p.0), delta_ms)
                                        && tx_rate == rate_opt(sat_sub(*t2, p.1), delta_ms)
                                } else {
                                    rx_rate is None && tx_rate is None
                                }),
                                None => false,
                            }),
                        decreases stats1@.len() - m + (if looked { 0int } else { 1int }),
                    {
                        proof {
                            assert(st1v[m as int] == (stats1@[m as int].0@,
                                stats1@[m as int].1, stats1@[m as int].2));
                            assert(st1v.skip(m as int)[0] == st1v[m as int]);
                            assert(st1v.skip(m as int).skip(1) =~= st1v.skip(m as int + 1));
                        }
                        if crate::text::str_eq(stats1[m].0.as_str(), iface.as_str()) {
                            proof {
                                assert(stats_lookup(st1v, iface@) == Some((
                                    stats1@[m as int].1, stats1@[m as int].2)));
                            }
                            if delta_ms > 0 {
                                let rdiff = if *r2 >= stats1[m].1 {
                                    *r2 - stats1[m].1
                                } else {
                                    0
                                };
                                let tdiff = if *t2 >= stats1[m].2 {
                                    *t2 - stats1[m].2
                                } else {
                                    0
                                };
                                proof {
                                    assert(rdiff as u128 * 100000
                                        <= 0xFFFF_FFFF_FFFF_FFFFu128 * 100000)
                                        by (nonlinear_arith)
                                        requires rdiff as u128 <= 0xFFFF_FFFF_FFFF_FFFFu128;
                                    assert(tdiff as u128 * 100000
                                        <= 0xFFFF_FFFF_FFFF_FFFFu128 * 100000)
                                        by (nonlinear_arith)
                                        requires tdiff as u128 <= 0xFFFF_FFFF_FFFF_FFFFu128;
                                    assert(1048576u128 * delta_ms as u128
                                        <= 1048576u128 * 0xFFFF_FFFF_FFFF_FFFFu128)
                                        by (nonlinear_arith)
                                        requires delta_ms as u128 <= 0xFFFF_FFFF_FFFF_FFFFu128;
                                }
                                let denom = 1048576u128 * delta_ms as u128;
                                let rw = rdiff as u128 * 100000 / denom;
                                let tw = tdiff as u128 * 100000 / denom;
                                rx_rate = if rw <= u64::MAX as u128 {
                                    Some(rw as u64)
                                } else {
                                    None
                                };
                                tx_rate = if tw <= u64::MAX as u128 {
                                    Some(tw as u64)
                                } else {
                                    None
                                };
                            }
                            looked = true;
                        } else {
                            m = m + 1;
                        }
                    }
                    proof {
                        if !looked {
                            assert(st1v.skip(stats1@.len() as int) =~= Seq::<(
                                Seq<char>,
                                u64,
                                u64,
                            )>::empty());
                            assert(stats_lookup(st1v, iface@) is None);
                        }
                    }
                }
                let mut ping: Option<u64> = None;
                let mut jitter: Option<u64> = None;
                let mut loss: Option<u64> = None;
                if should_ping && crate::text::str_eq(state.as_str(), "UP") && ipv4.is_some() {
                    let mut m: usize = 0;
                    while m < pings.len()
                        decreases pings@.len() - m,
                    {
                        if crate::text::str_eq(pings[m].0.as_str(), iface.as_str()) {
                            if let Some(out) = &pings[m].1 {
                                let (p, j, l) = parse_ping_stats(out.as_str());
                                ping = p;
                                jitter = j;
                                loss = l;
                            }
                            break ;
                        }
                        m = m + 1;
                    }
                }
                let rec = NetworkInfo {
                    interface: iface,
                    ipv4,
                    ipv6,
                    mac: None,
                    state,
                    rx_bytes: rx2,
                    tx_bytes: tx2,
                    rx_rate_cmbs: rx_rate,
                    tx_rate_cmbs: tx_rate,
                    ping_um: ping,
                    jitter_um: jitter,
                    loss_mpct: loss,
                };
                proof {
                    assert(net_record_matches(line, st1v, statesv, delta_ms, rec));
                    assert(net_record_ok(ls2v, st1v, statesv, delta_ms, rec)) by {
                        assert(2 <= i as int && (i as int) < ls2v.len() && net_qualifying(
                            ls2v[i as int]) && net_record_matches(ls2v[i as int], st1v,
                            statesv, delta_ms, rec));
                    }
                }
                nets.push(rec);
            } else {
                proof {
                    assert(!net_qualifying(line));
                }
            }
        } else {
            proof {
                assert(!net_qualifying(line));
            }
        }
        i = i + 1;
        proof {
            assert(net_count(ls2v, i - 1) == (if net_qualifying(ls2v[i - 1]) {
                1nat
            } else {
                0nat
            }) + net_count(ls2v, i as int));
        }
    }
    proof {
        assert(net_count(ls2v, i as int) == 0);
        assert(nets@.len() == net_count(ls2v, 2));
    }
    let ghost pre = nets@;
    let nets = sort_nets(nets);
    proof {
        broadcast use vstd::seq_lib::group_to_multiset_ensures;

        assert forall|k: int| 0 <= k < nets@.len() implies net_record_ok(ls2v, st1v, statesv,
            delta_ms, #[trigger] nets@[k]) by {
            assert(nets@.contains(nets@[k]));
            assert(nets@.to_multiset().count(nets@[k]) > 0);
            assert(pre.to_multiset().count(nets@[k]) > 0);
            assert(pre.contains(nets@[k]));
            let t = choose|t: int| 0 <= t < pre.len() && pre[t] == nets@[k];
            assert(net_record_ok(ls2v, st1v, statesv, delta_ms, pre[t]));
        }
    }
    if nets.len() == 0 {
        None
    } else {
        Some(nets)
    }
}

} // verus!
