//! The machine-readable report: the gathered values as one object, each
//! key present exactly when its slot holds a value.

use vstd::prelude::*;
use vstd::string::StringExecFns;

use crate::render::{spec_fixed1, spec_fixed2, format_fixed1, format_fixed2, gib_tenths};
use crate::report::{NetworkInfo, Report};
use crate::text::{chars_of, dec_digits, spec_replace, replace_all, str_views, string_of,
    u64_string};

verus! {

/// A string as a quoted member of the object: backslashes, quotes and
/// line breaks escaped, in that order.
pub open spec fn spec_json_string(s: Seq<char>) -> Seq<char> {
    "\""@ + spec_replace(
        spec_replace(spec_replace(s, "\\"@, "\\\\"@), "\""@, "\\\""@),
        "\n"@,
        "\\n"@,
    ) + "\""@
}

pub fn json_string(s: &str) -> (r: String)
    ensures
        r@ == spec_json_string(s@),
{
    let v = chars_of(s);
    let v = replace_all(&v, &chars_of("\\"), &chars_of("\\\\"));
    let v = replace_all(&v, &chars_of("\""), &chars_of("\\\""));
    let v = replace_all(&v, &chars_of("\n"), &chars_of("\\n"));
    let mut r = String::from_str("\"");
    r.append(string_of(&v).as_str());
    r.append("\"");
    r
}

/// One optional string member.
pub open spec fn spec_opt_str_piece(key: Seq<char>, v: Option<String>) -> Seq<Seq<char>> {
    match v {
        Some(s) => seq!["\""@ + key + "\":"@ + spec_json_string(s@)],
        None => seq![],
    }
}

fn opt_str_piece(key: &str, v: &Option<String>) -> (r: Vec<String>)
    ensures
        str_views(r@) == spec_opt_str_piece(key@, *v),
{
    let mut r: Vec<String> = Vec::new();
    if let Some(s) = v {
        let mut piece = String::from_str("\"");
        piece.append(key);
        piece.append("\":");
        piece.append(json_string(s.as_str()).as_str());
        r.push(piece);
    }
    proof {
        assert(str_views(r@) =~~= spec_opt_str_piece(key@, *v));
    }
    r
}

/// One optional count member.
pub open spec fn spec_opt_num_piece(key: Seq<char>, v: Option<usize>) -> Seq<Seq<char>> {
    match v {
        Some(n) => seq!["\""@ + key + "\":"@ + dec_digits(n as nat)],
        None => seq![],
    }
}

fn opt_num_piece(key: &str, v: &Option<usize>) -> (r: Vec<String>)
    ensures
        str_views(r@) == spec_opt_num_piece(key@, *v),
{
    let mut r: Vec<String> = Vec::new();
    if let Some(n) = v {
        let mut piece = String::from_str("\"");
        piece.append(key);
        piece.append("\":");
        piece.append(u64_string(*n as u64).as_str());
        r.push(piece);
    }
    proof {
        assert(str_views(r@) =~~= spec_opt_num_piece(key@, *v));
    }
    r
}

/// One optional used/total member, the pair shown in tenths of GiB.
pub open spec fn spec_pair_piece(key: Seq<char>, v: Option<(u64, u64)>) -> Seq<Seq<char>> {
    match v {
        Some((used, total)) => seq![
            "\""@ + key + "\":{\"used\":"@ + spec_fixed1(gib_tenths(used as nat))
                + ",\"total\":"@ + spec_fixed1(gib_tenths(total as nat)) + "}"@,
        ],
        None => seq![],
    }
}

fn pair_piece(key: &str, v: &Option<(u64, u64)>) -> (r: Vec<String>)
    ensures
        str_views(r@) == spec_pair_piece(key@, *v),
{
    let mut r: Vec<String> = Vec::new();
    if let Some(pair) = v {
        let (used, total) = *pair;
        proof {
            assert(used as u128 * 10 <= 1208925819614629174706176u128) by (nonlinear_arith);
            assert(total as u128 * 10 <= 1208925819614629174706176u128) by (nonlinear_arith);
        }
        let ut = ((used as u128 * 10 + 524288) / 1048576) as u64;
        let tt = ((total as u128 * 10 + 524288) / 1048576) as u64;
        let mut piece = String::from_str("\"");
        piece.append(key);
        piece.append("\":{\"used\":");
        piece.append(format_fixed1(ut).as_str());
        piece.append(",\"total\":");
        piece.append(format_fixed1(tt).as_str());
        piece.append("}");
        r.push(piece);
    }
    proof {
        assert(str_views(r@) =~~= spec_pair_piece(key@, *v));
    }
    r
}

/// Appends one group of members, carrying its specification along.
fn append_pieces(pieces: &mut Vec<String>, part: Vec<String>, Ghost(spec_part): Ghost<
    Seq<Seq<char>>,
>)
    requires
        str_views(part@) == spec_part,
    ensures
        str_views(final(pieces)@) == str_views(old(pieces)@) + spec_part,
{
    let mut part = part;
    let ghost prev = pieces@;
    pieces.append(&mut part);
    proof {
        assert(str_views(pieces@) =~= str_views(prev) + spec_part);
    }
}


/// A duration-style quantity with three decimals, from thousandths.
pub open spec fn spec_fixed3(milli: nat) -> Seq<char> {
    dec_digits(milli / 1000) + "."@ + crate::text::padded_dec(milli % 1000, 3)
}

fn format_fixed3(milli: u64) -> (r: String)
    ensures
        r@ == spec_fixed3(milli as nat),
{
    let mut s = u64_string(milli / 1000);
    s.append(".");
    s.append(string_of(&crate::text::u64_padded(milli % 1000, 3)).as_str());
    s
}

/// An optional value as a member value: its text, or the null word.
pub open spec fn spec_or_null(v: Option<Seq<char>>) -> Seq<char> {
    match v {
        Some(t) => t,
        None => "null"@,
    }
}

/// One interface as an object, every member present, absent facts null.
pub open spec fn spec_net_json(n: NetworkInfo) -> Seq<char> {
    "{\"interface\":"@ + spec_json_string(n.interface@) + ",\"ipv4\":"@ + spec_or_null(
        match n.ipv4 {
            Some(s) => Some(spec_json_string(s@)),
            None => None,
        },
    ) + ",\"ipv6\":"@ + spec_or_null(
        match n.ipv6 {
            Some(s) => Some(spec_json_string(s@)),
            None => None,
        },
    ) + ",\"mac\":"@ + spec_or_null(
        match n.mac {
            Some(s) => Some(spec_json_string(s@)),
            None => None,
        },
    ) + ",\"state\":"@ + spec_json_string(n.state@) + ",\"rx_bytes\":"@ + spec_or_null(
        match n.rx_bytes {
            Some(b) => Some(dec_digits(b as nat)),
            None => None,
        },
    ) + ",\"tx_bytes\":"@ + spec_or_null(
        match n.tx_bytes {
            Some(b) => Some(dec_digits(b as nat)),
            None => None,
        },
    ) + ",\"rx_rate_mbs\":"@ + spec_or_null(
        match n.rx_rate_cmbs {
            Some(c) => Some(spec_fixed2(c as nat)),
            None => None,
        },
    ) + ",\"tx_rate_mbs\":"@ + spec_or_null(
        match n.tx_rate_cmbs {
            Some(c) => Some(spec_fixed2(c as nat)),
            None => None,
        },
    ) + ",\"ping\":"@ + spec_or_null(
        match n.ping_um {
            Some(p) => Some(spec_fixed3(p as nat)),
            None => None,
        },
    ) + ",\"jitter\":"@ + spec_or_null(
        match n.jitter_um {
            Some(p) => Some(spec_fixed3(p as nat)),
            None => None,
        },
    ) + ",\"packet_loss\":"@ + spec_or_null(
        match n.loss_mpct {
            Some(p) => Some(spec_fixed3(p as nat)),
            None => None,
        },
    ) + "}"@
}

#[verifier::rlimit(100)]
#[verifier::spinoff_prover]
fn net_json(n: &NetworkInfo) -> (r: String)
    ensures
        r@ == spec_net_json(*n),
{
    let mut s = String::from_str("{\"interface\":");
    s.append(json_string(n.interface.as_str()).as_str());
    s.append(",\"ipv4\":");
    match &n.ipv4 {
        Some(v) => s.append(json_string(v.as_str()).as_str()),
        None => s.append("null"),
    }
    s.append(",\"ipv6\":");
    match &n.ipv6 {
        Some(v) => s.append(json_string(v.as_str()).as_str()),
        None => s.append("null"),
    }
    s.append(",\"mac\":");
    match &n.mac {
        Some(v) => s.append(json_string(v.as_str()).as_str()),
        None => s.append("null"),
    }
    s.append(",\"state\":");
    s.append(json_string(n.state.as_str()).as_str());
    s.append(",\"rx_bytes\":");
    match &n.rx_bytes {
        Some(b) => s.append(u64_string(*b).as_str()),
        None => s.append("null"),
    }
    s.append(",\"tx_bytes\":");
    match &n.tx_bytes {
        Some(b) => s.append(u64_string(*b).as_str()),
        None => s.append("null"),
    }
    s.append(",\"rx_rate_mbs\":");
    match &n.rx_rate_cmbs {
        Some(c) => s.append(format_fixed2(*c).as_str()),
        None => s.append("null"),
    }
    s.append(",\"tx_rate_mbs\":");
    match &n.tx_rate_cmbs {
        Some(c) => s.append(format_fixed2(*c).as_str()),
        None => s.append("null"),
    }
    s.append(",\"ping\":");
    match &n.ping_um {
        Some(p) => s.append(format_fixed3(*p).as_str()),
        None => s.append("null"),
    }
    s.append(",\"jitter\":");
    match &n.jitter_um {
        Some(p) => s.append(format_fixed3(*p).as_str()),
        None => s.append("null"),
    }
    s.append(",\"packet_loss\":");
    match &n.loss_mpct {
        Some(p) => s.append(format_fixed3(*p).as_str()),
        None => s.append("null"),
    }
    s.append("}");
    s
}

/// An array of quoted strings.
pub open spec fn spec_json_str_array(vs: Seq<Seq<char>>) -> Seq<char> {
    "["@ + crate::text::spec_join(vs.map_values(|v: Seq<char>| spec_json_string(v)), ","@)
        + "]"@
}

fn json_str_array(vs: &Vec<String>) -> (r: String)
    ensures
        r@ == spec_json_str_array(str_views(vs@)),
{
    let mut pieces: Vec<String> = Vec::new();
    let mut i: usize = 0;
    while i < vs.len()
        invariant
            i <= vs@.len(),
            pieces@.len() == i,
            forall|j: int|
                0 <= j < i ==> (#[trigger] pieces@[j]@) == spec_json_string(vs@[j]@),
        decreases vs@.len() - i,
    {
        pieces.push(json_string(vs[i].as_str()));
        i = i + 1;
    }
    proof {
        assert(str_views(pieces@) =~= str_views(vs@).map_values(
            |v: Seq<char>| spec_json_string(v),
        ));
    }
    let mut s = String::from_str("[");
    s.append(crate::text::join_str(&pieces, ",").as_str());
    s.append("]");
    s
}

/// An array of quoted strings or nulls, as the temperature list is.
pub open spec fn spec_json_opt_array(vs: Seq<Option<String>>) -> Seq<char> {
    "["@ + crate::text::spec_join(
        vs.map_values(
            |v: Option<String>| match v {
                Some(s) => spec_json_string(s@),
                None => "null"@,
            },
        ),
        ","@,
    ) + "]"@
}

fn json_opt_array(vs: &Vec<Option<String>>) -> (r: String)
    ensures
        r@ == spec_json_opt_array(vs@),
{
    let mut pieces: Vec<String> = Vec::new();
    let mut i: usize = 0;
    while i < vs.len()
        invariant
            i <= vs@.len(),
            pieces@.len() == i,
            forall|j: int|
                0 <= j < i ==> (#[trigger] pieces@[j]@) == (match vs@[j] {
                    Some(s) => spec_json_string(s@),
                    None => "null"@,
                }),
        decreases vs@.len() - i,
    {
        match &vs[i] {
            Some(s) => pieces.push(json_string(s.as_str())),
            None => pieces.push(String::from_str("null")),
        }
        i = i + 1;
    }
    proof {
        assert(str_views(pieces@) =~= vs@.map_values(
            |v: Option<String>| match v {
                Some(s) => spec_json_string(s@),
                None => "null"@,
            },
        ));
    }
    let mut s = String::from_str("[");
    s.append(crate::text::join_str(&pieces, ",").as_str());
    s.append("]");
    s
}


/// One optional array-of-strings member.
pub open spec fn spec_opt_list_piece(key: Seq<char>, v: Option<Vec<String>>) -> Seq<
    Seq<char>,
> {
    match v {
        Some(vs) => seq!["\""@ + key + "\":"@ + spec_json_str_array(str_views(vs@))],
        None => seq![],
    }
}

fn opt_list_piece(key: &str, v: &Option<Vec<String>>) -> (r: Vec<String>)
    ensures
        str_views(r@) == spec_opt_list_piece(key@, *v),
{
    let mut r: Vec<String> = Vec::new();
    if let Some(vs) = v {
        let mut piece = String::from_str("\"");
        piece.append(key);
        piece.append("\":");
        piece.append(json_str_array(vs).as_str());
        r.push(piece);
    }
    proof {
        assert(str_views(r@) =~~= spec_opt_list_piece(key@, *v));
    }
    r
}

/// The identity and session members, in the object's fixed order.
pub open spec fn spec_core_pieces(report: &Report) -> Seq<Seq<char>> {
    spec_opt_str_piece("user"@, report.env.user.value) + spec_opt_str_piece(
        "hostname"@,
        report.env.hostname.value,
    ) + spec_opt_str_piece("os"@, report.env.os.value) + spec_opt_str_piece(
        "kernel"@,
        report.env.kernel.value,
    ) + spec_opt_str_piece("uptime"@, report.env.uptime.value) + spec_opt_str_piece(
        "boot_time"@,
        report.pkg.boot_time.value,
    ) + spec_opt_str_piece("bootloader"@, report.pkg.bootloader.value) + spec_opt_str_piece(
        "packages"@,
        report.pkg.packages.value,
    ) + spec_opt_str_piece("shell"@, report.env.shell.value) + spec_opt_str_piece(
        "de"@,
        report.env.de.value,
    ) + spec_opt_str_piece("wm"@, report.pkg.wm.value) + spec_opt_str_piece(
        "init"@,
        report.env.init.value,
    ) + spec_opt_str_piece("terminal"@, report.env.terminal.value)
}

#[verifier::rlimit(100)]
#[verifier::spinoff_prover]
fn core_pieces(report: &Report) -> (r: Vec<String>)
    ensures
        str_views(r@) == spec_core_pieces(report),
{
    let mut pieces = opt_str_piece("user", &report.env.user.value);
    append_pieces(&mut pieces, opt_str_piece("hostname", &report.env.hostname.value), Ghost(
        spec_opt_str_piece("hostname"@, report.env.hostname.value),
    ));
    append_pieces(&mut pieces, opt_str_piece("os", &report.env.os.value), Ghost(
        spec_opt_str_piece("os"@, report.env.os.value),
    ));
    append_pieces(&mut pieces, opt_str_piece("kernel", &report.env.kernel.value), Ghost(
        spec_opt_str_piece("kernel"@, report.env.kernel.value),
    ));
    append_pieces(&mut pieces, opt_str_piece("uptime", &report.env.uptime.value), Ghost(
        spec_opt_str_piece("uptime"@, report.env.uptime.value),
    ));
    append_pieces(&mut pieces, opt_str_piece("boot_time", &report.pkg.boot_time.value), Ghost(
        spec_opt_str_piece("boot_time"@, report.pkg.boot_time.value),
    ));
    append_pieces(&mut pieces, opt_str_piece("bootloader", &report.pkg.bootloader.value),
        Ghost(spec_opt_str_piece("bootloader"@, report.pkg.bootloader.value)));
    append_pieces(&mut pieces, opt_str_piece("packages", &report.pkg.packages.value), Ghost(
        spec_opt_str_piece("packages"@, report.pkg.packages.value),
    ));
    append_pieces(&mut pieces, opt_str_piece("shell", &report.env.shell.value), Ghost(
        spec_opt_str_piece("shell"@, report.env.shell.value),
    ));
    append_pieces(&mut pieces, opt_str_piece("de", &report.env.de.value), Ghost(
        spec_opt_str_piece("de"@, report.env.de.value),
    ));
    append_pieces(&mut pieces, opt_str_piece("wm", &report.pkg.wm.value), Ghost(
        spec_opt_str_piece("wm"@, report.pkg.wm.value),
    ));
    append_pieces(&mut pieces, opt_str_piece("init", &report.env.init.value), Ghost(
        spec_opt_str_piece("init"@, report.env.init.value),
    ));
    append_pieces(&mut pieces, opt_str_piece("terminal", &report.env.terminal.value), Ghost(
        spec_opt_str_piece("terminal"@, report.env.terminal.value),
    ));
    proof {
        assert(str_views(pieces@) == spec_core_pieces(report));
    }
    pieces
}

/// The temperature-list member.
pub open spec fn spec_temps_piece(report: &Report) -> Seq<Seq<char>> {
    match report.gpu.gpu_temps.value {
        Some(ts) => seq!["\"gpu_temps\":"@ + spec_json_opt_array(ts@)],
        None => seq![],
    }
}

/// The interface-list member.
pub open spec fn spec_network_piece(report: &Report) -> Seq<Seq<char>> {
    match report.net.network.value {
        Some(nets) => seq![
            "\"network\":["@ + crate::text::spec_join(
                nets@.map_values(|n: NetworkInfo| spec_net_json(n)),
                ","@,
            ) + "]"@,
        ],
        None => seq![],
    }
}

/// The battery member.
pub open spec fn spec_battery_piece(report: &Report) -> Seq<Seq<char>> {
    match report.cpu_mem.battery.value {
        Some((cap, status)) => seq![
            "\"battery\":{\"capacity\":"@ + dec_digits(cap as nat) + ",\"status\":"@
                + spec_json_string(status@) + "}"@,
        ],
        None => seq![],
    }
}

/// The hardware members: processor, graphics, memory and the network.
pub open spec fn spec_hw_pieces(report: &Report) -> Seq<Seq<char>> {
    spec_opt_str_piece("cpu"@, report.cpu_mem.cpu.value) + spec_opt_str_piece(
        "cpu_temp"@,
        report.cpu_mem.cpu_temp.value,
    ) + spec_opt_list_piece("gpu"@, report.gpu.gpu.value) + spec_temps_piece(report)
        + spec_pair_piece("memory"@, report.cpu_mem.memory.value) + spec_pair_piece(
        "swap"@,
        report.cpu_mem.swap.value,
    ) + spec_network_piece(report)
}

#[verifier::rlimit(100)]
#[verifier::spinoff_prover]
fn hw_pieces(report: &Report) -> (r: Vec<String>)
    ensures
        str_views(r@) == spec_hw_pieces(report),
{
    let mut pieces = opt_str_piece("cpu", &report.cpu_mem.cpu.value);
    append_pieces(&mut pieces, opt_str_piece("cpu_temp", &report.cpu_mem.cpu_temp.value),
        Ghost(spec_opt_str_piece("cpu_temp"@, report.cpu_mem.cpu_temp.value)));
    append_pieces(&mut pieces, opt_list_piece("gpu", &report.gpu.gpu.value), Ghost(
        spec_opt_list_piece("gpu"@, report.gpu.gpu.value),
    ));
    let mut temps_piece: Vec<String> = Vec::new();
    if let Some(ts) = &report.gpu.gpu_temps.value {
        let mut piece = String::from_str("\"gpu_temps\":");
        piece.append(json_opt_array(ts).as_str());
        temps_piece.push(piece);
    }
    proof {
        assert(str_views(temps_piece@) =~~= spec_temps_piece(report));
    }
    append_pieces(&mut pieces, temps_piece, Ghost(spec_temps_piece(report)));
    append_pieces(&mut pieces, pair_piece("memory", &report.cpu_mem.memory.value), Ghost(
        spec_pair_piece("memory"@, report.cpu_mem.memory.value),
    ));
    append_pieces(&mut pieces, pair_piece("swap", &report.cpu_mem.swap.value), Ghost(
        spec_pair_piece("swap"@, report.cpu_mem.swap.value),
    ));
    let mut net_piece: Vec<String> = Vec::new();
    if let Some(nets) = &report.net.network.value {
        let mut objs: Vec<String> = Vec::new();
        let mut i: usize = 0;
        while i < nets.len()
            invariant
                i <= nets@.len(),
                objs@.len() == i,
                forall|j: int| 0 <= j < i ==> (#[trigger] objs@[j]@) == spec_net_json(nets@[j]),
            decreases nets@.len() - i,
        {
            objs.push(net_json(&nets[i]));
            i = i + 1;
        }
        proof {
            assert(str_views(objs@) =~= nets@.map_values(|n: NetworkInfo| spec_net_json(n)));
        }
        let mut piece = String::from_str("\"network\":[");
        piece.append(crate::text::join_str(&objs, ",").as_str());
        piece.append("]");
        net_piece.push(piece);
    }
    proof {
        assert(str_views(net_piece@) =~~= spec_network_piece(report));
    }
    append_pieces(&mut pieces, net_piece, Ghost(spec_network_piece(report)));
    proof {
        assert(str_views(pieces@) == spec_hw_pieces(report));
    }
    pieces
}

/// The closing members: looks, counts and addresses.
pub open spec fn spec_tail_pieces(report: &Report) -> Seq<Seq<char>> {
    spec_opt_str_piece("display"@, report.disp.display.value) + spec_battery_piece(report)
        + spec_opt_str_piece("model"@, report.env.model.value) + spec_opt_str_piece(
        "motherboard"@,
        report.env.motherboard.value,
    ) + spec_opt_str_piece("bios"@, report.env.bios.value) + spec_opt_str_piece(
        "theme"@,
        report.pkg.theme.value,
    ) + spec_opt_str_piece("icons"@, report.pkg.icons.value) + spec_opt_str_piece(
        "font"@,
        report.pkg.font.value,
    ) + spec_opt_num_piece("processes"@, report.cpu_mem.processes.value) + spec_opt_str_piece(
        "cpu_freq"@,
        report.cpu_mem.cpu_freq.value,
    ) + spec_opt_str_piece("locale"@, report.env.locale.value) + spec_opt_str_piece(
        "public_ip"@,
        report.pkg.public_ip.value,
    )
}

#[verifier::rlimit(100)]
#[verifier::spinoff_prover]
fn tail_pieces(report: &Report) -> (r: Vec<String>)
    ensures
        str_views(r@) == spec_tail_pieces(report),
{
    let mut pieces = opt_str_piece("display", &report.disp.display.value);
    let mut battery_piece: Vec<String> = Vec::new();
    if let Some(b) = &report.cpu_mem.battery.value {
        let mut piece = String::from_str("\"battery\":{\"capacity\":");
        piece.append(u64_string(b.0 as u64).as_str());
        piece.append(",\"status\":");
        piece.append(json_string(b.1.as_str()).as_str());
        piece.append("}");
        battery_piece.push(piece);
    }
    proof {
        assert(str_views(battery_piece@) =~~= spec_battery_piece(report));
    }
    append_pieces(&mut pieces, battery_piece, Ghost(spec_battery_piece(report)));
    append_pieces(&mut pieces, opt_str_piece("model", &report.env.model.value), Ghost(
        spec_opt_str_piece("model"@, report.env.model.value),
    ));
    append_pieces(&mut pieces, opt_str_piece("motherboard", &report.env.motherboard.value),
        Ghost(spec_opt_str_piece("motherboard"@, report.env.motherboard.value)));
    append_pieces(&mut pieces, opt_str_piece("bios", &report.env.bios.value), Ghost(
        spec_opt_str_piece("bios"@, report.env.bios.value),
    ));
    append_pieces(&mut pieces, opt_str_piece("theme", &report.pkg.theme.value), Ghost(
        spec_opt_str_piece("theme"@, report.pkg.theme.value),
    ));
    append_pieces(&mut pieces, opt_str_piece("icons", &report.pkg.icons.value), Ghost(
        spec_opt_str_piece("icons"@, report.pkg.icons.value),
    ));
    append_pieces(&mut pieces, opt_str_piece("font", &report.pkg.font.value), Ghost(
        spec_opt_str_piece("font"@, report.pkg.font.value),
    ));
    append_pieces(&mut pieces, opt_num_piece("processes", &report.cpu_mem.processes.value),
        Ghost(spec_opt_num_piece("processes"@, report.cpu_mem.processes.value)));
    append_pieces(&mut pieces, opt_str_piece("cpu_freq", &report.cpu_mem.cpu_freq.value),
        Ghost(spec_opt_str_piece("cpu_freq"@, report.cpu_mem.cpu_freq.value)));
    append_pieces(&mut pieces, opt_str_piece("locale", &report.env.locale.value), Ghost(
        spec_opt_str_piece("locale"@, report.env.locale.value),
    ));
    append_pieces(&mut pieces, opt_str_piece("public_ip", &report.pkg.public_ip.value), Ghost(
        spec_opt_str_piece("public_ip"@, report.pkg.public_ip.value),
    ));
    proof {
        assert(str_views(pieces@) == spec_tail_pieces(report));
    }
    pieces
}

/// The whole report as one object, members in the fixed order, each
/// present exactly when its slot holds a value.
pub open spec fn spec_report_json(report: &Report) -> Seq<char> {
    "{"@ + crate::text::spec_join(
        spec_core_pieces(report) + spec_hw_pieces(report) + spec_tail_pieces(report),
        ","@,
    ) + "}"@
}

pub fn report_json(report: &Report) -> (r: String)
    ensures
        r@ == spec_report_json(report),
{
    let mut pieces = core_pieces(report);
    append_pieces(&mut pieces, hw_pieces(report), Ghost(spec_hw_pieces(report)));
    append_pieces(&mut pieces, tail_pieces(report), Ghost(spec_tail_pieces(report)));
    let mut s = String::from_str("{");
    s.append(crate::text::join_str(&pieces, ",").as_str());
    s.append("}");
    s
}

/// The cache record: the time the report was taken, and the report.
pub open spec fn spec_cache_json(report: &Report, now: nat) -> Seq<char> {
    "{\"timestamp\":"@ + dec_digits(now) + ",\"data\":"@ + spec_report_json(report) + "}"@
}

pub fn cache_json(report: &Report, now: u64) -> (r: String)
    ensures
        r@ == spec_cache_json(report, now as nat),
{
    let mut s = String::from_str("{\"timestamp\":");
    s.append(u64_string(now).as_str());
    s.append(",\"data\":");
    s.append(report_json(report).as_str());
    s.append("}");
    s
}

} // verus!
