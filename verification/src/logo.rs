//! The ASCII-art logos and their selection.
//!
//! Which logo a system gets is decided by substring tests on the
//! lower-cased operating-system name, first match winning; the art
//! itself is a fixed table with a penguin as the fallback.

use vstd::prelude::*;
use vstd::string::StringExecFns;

use crate::text::{ascii_lower, chars_of, contains_sub, seq_contains, spec_lower};

verus! {

/// The recognised logo subjects, in the order they are tried.
#[derive(PartialEq, Eq, Structural, Clone, Copy, Debug)]
pub enum LogoKind {
    Cachy,
    Bazzite,
    Arch,
    Ubuntu,
    Debian,
    Fedora,
    Manjaro,
    Mint,
    Pop,
    Gentoo,
    Nixos,
    Void,
    Alpine,
    Endeavour,
    Zorin,
    Kali,
    Garuda,
    Elementary,
    Solus,
    Centos,
    Windows,
    Android,
    Freebsd,
    Fallback,
}

/// Which keyword test, tried in order on the lower-cased name, first
/// matches; the fallback when none does.
pub open spec fn spec_logo_kind(os: Seq<char>) -> LogoKind {
    let ol = spec_lower(os);
    if seq_contains(ol, "cachy"@) {
        LogoKind::Cachy
    } else if seq_contains(ol, "bazzite"@) {
        LogoKind::Bazzite
    } else if seq_contains(ol, "arch"@) || seq_contains(ol, "artix"@) || seq_contains(ol, "arco"@) {
        LogoKind::Arch
    } else if seq_contains(ol, "ubuntu"@) || seq_contains(ol, "kubuntu"@) || seq_contains(ol, "xubuntu"@) || seq_contains(ol, "lubuntu"@) {
        LogoKind::Ubuntu
    } else if seq_contains(ol, "debian"@) || seq_contains(ol, "raspberry"@) || seq_contains(ol, "raspbian"@) {
        LogoKind::Debian
    } else if seq_contains(ol, "fedora"@) {
        LogoKind::Fedora
    } else if seq_contains(ol, "manjaro"@) {
        LogoKind::Manjaro
    } else if seq_contains(ol, "mint"@) {
        LogoKind::Mint
    } else if seq_contains(ol, "pop"@) {
        LogoKind::Pop
    } else if seq_contains(ol, "gentoo"@) {
        LogoKind::Gentoo
    } else if seq_contains(ol, "nixos"@) || seq_contains(ol, "nix"@) {
        LogoKind::Nixos
    } else if seq_contains(ol, "void"@) {
        LogoKind::Void
    } else if seq_contains(ol, "alpine"@) {
        LogoKind::Alpine
    } else if seq_contains(ol, "endeavour"@) || seq_contains(ol, "eos"@) {
        LogoKind::Endeavour
    } else if seq_contains(ol, "zorin"@) {
        LogoKind::Zorin
    } else if seq_contains(ol, "kali"@) {
        LogoKind::Kali
    } else if seq_contains(ol, "garuda"@) {
        LogoKind::Garuda
    } else if seq_contains(ol, "elementary"@) {
        LogoKind::Elementary
    } else if seq_contains(ol, "solus"@) {
        LogoKind::Solus
    } else if seq_contains(ol, "centos"@) || seq_contains(ol, "rocky"@) || seq_contains(ol, "alma"@) || seq_contains(ol, "rhel"@) || seq_contains(ol, "red hat"@) {
        LogoKind::Centos
    } else if seq_contains(ol, "windows"@) || seq_contains(ol, "wsl"@) {
        LogoKind::Windows
    } else if seq_contains(ol, "android"@) || seq_contains(ol, "termux"@) {
        LogoKind::Android
    } else if seq_contains(ol, "freebsd"@) {
        LogoKind::Freebsd
    } else {
        LogoKind::Fallback
    }
}

pub fn logo_kind(os: &str) -> (k: LogoKind)
    ensures
        k == spec_logo_kind(os@),
{
    let ol = ascii_lower(&chars_of(os));
    if contains_sub(&ol, &chars_of("cachy")) {
        LogoKind::Cachy
    } else if contains_sub(&ol, &chars_of("bazzite")) {
        LogoKind::Bazzite
    } else if contains_sub(&ol, &chars_of("arch")) || contains_sub(&ol, &chars_of("artix")) || contains_sub(&ol, &chars_of("arco")) {
        LogoKind::Arch
    } else if contains_sub(&ol, &chars_of("ubuntu")) || contains_sub(&ol, &chars_of("kubuntu")) || contains_sub(&ol, &chars_of("xubuntu")) || contains_sub(&ol, &chars_of("lubuntu")) {
        LogoKind::Ubuntu
    } else if contains_sub(&ol, &chars_of("debian")) || contains_sub(&ol, &chars_of("raspberry")) || contains_sub(&ol, &chars_of("raspbian")) {
        LogoKind::Debian
    } else if contains_sub(&ol, &chars_of("fedora")) {
        LogoKind::Fedora
    } else if contains_sub(&ol, &chars_of("manjaro")) {
        LogoKind::Manjaro
    } else if contains_sub(&ol, &chars_of("mint")) {
        LogoKind::Mint
    } else if contains_sub(&ol, &chars_of("pop")) {
        LogoKind::Pop
    } else if contains_sub(&ol, &chars_of("gentoo")) {
        LogoKind::Gentoo
    } else if contains_sub(&ol, &chars_of("nixos")) || contains_sub(&ol, &chars_of("nix")) {
        LogoKind::Nixos
    } else if contains_sub(&ol, &chars_of("void")) {
        LogoKind::Void
    } else if contains_sub(&ol, &chars_of("alpine")) {
        LogoKind::Alpine
    } else if contains_sub(&ol, &chars_of("endeavour")) || contains_sub(&ol, &chars_of("eos")) {
        LogoKind::Endeavour
    } else if contains_sub(&ol, &chars_of("zorin")) {
        LogoKind::Zorin
    } else if contains_sub(&ol, &chars_of("kali")) {
        LogoKind::Kali
    } else if contains_sub(&ol, &chars_of("garuda")) {
        LogoKind::Garuda
    } else if contains_sub(&ol, &chars_of("elementary")) {
        LogoKind::Elementary
    } else if contains_sub(&ol, &chars_of("solus")) {
        LogoKind::Solus
    } else if contains_sub(&ol, &chars_of("centos")) || contains_sub(&ol, &chars_of("rocky")) || contains_sub(&ol, &chars_of("alma")) || contains_sub(&ol, &chars_of("rhel")) || contains_sub(&ol, &chars_of("red hat")) {
        LogoKind::Centos
    } else if contains_sub(&ol, &chars_of("windows")) || contains_sub(&ol, &chars_of("wsl")) {
        LogoKind::Windows
    } else if contains_sub(&ol, &chars_of("android")) || contains_sub(&ol, &chars_of("termux")) {
        LogoKind::Android
    } else if contains_sub(&ol, &chars_of("freebsd")) {
        LogoKind::Freebsd
    } else {
        LogoKind::Fallback
    }
}

/// The art of each subject, line by line.
pub open spec fn logo_art(kind: LogoKind) -> Seq<Seq<char>> {
    match kind {
        LogoKind::Cachy => seq![
            "           .-------------------------:"@,
            "          .+=========================."@,
            "         :++===++==================-       :++-"@,
            "        :*++====+++++=============-        .==:"@,
            "       -*+++=====+***++==========:"@,
            "      =*++++========------------:"@,
            "     =*+++++=====-                     ..."@,
            "   .+*+++++=-===:                    .=+++=:"@,
            "  :++++=====-==:                     -*****+"@,
            " :++========-=.                      .=+**+."@,
            ".+==========-.                          ."@,
            " :+++++++====-                                .--==-."@,
            "  :++==========.                             :+++++++:"@,
            "   .-===========.                            =*****+*+"@,
            "    .-===========:                           .+*****+:"@,
            "      -=======++++:::::::::::::::::::::::::-:  .---:"@,
            "       :======++++====+++******************=."@,
            "        :=====+++==========++++++++++++++*-"@,
            "         .====++==============++++++++++*-"@,
            "          .===+==================+++++++:"@,
            "           .-=======================+++:"@,
            "             .........................."@,
        ],
        LogoKind::Bazzite => seq![
            "         ,....,          "@,
            "       ,::::::<          "@,
            "      ,::/^\\/::.         "@,
            "     ,::/   \\::.         "@,
            "    ,::/     \\::.        "@,
            "   ,::/       \\::.       "@,
            "   :::         :::       "@,
            "   `::.       .::'       "@,
            "     `::.   .::'         "@,
            "       `:::::'           "@,
            "         `'''            "@,
        ],
        LogoKind::Arch => seq![
            "                   -`                    "@,
            "                  .o+`                   "@,
            "                 `ooo/                   "@,
            "                `+oooo:                  "@,
            "               `+oooooo:                 "@,
            "               -+oooooo+:                "@,
            "             `/:-:++oooo+:               "@,
            "            `/++++/+++++++:              "@,
            "           `/++++++++++++++:             "@,
            "          `/+++ooooooooooooo/`           "@,
            "         ./ooosssso++osssssso+`          "@,
            "        .oossssso-````/ossssss+`         "@,
            "       -osssssso.      :ssssssso.        "@,
            "      :osssssss/        osssso+++.       "@,
            "     /ossssssss/        +ssssooo/-       "@,
            "   `/ossssso+/:-        -:/+osssso+-     "@,
            "  `+sso+:-`                 `.-/+oso:    "@,
            " `++:.                           `-/+/   "@,
            " .`                                 `/   "@,
        ],
        LogoKind::Ubuntu => seq![
            "            .-/+oossssoo+/-.               "@,
            "        `:+ssssssssssssssssss+:`           "@,
            "      -+ssssssssssssssssssyyssss+-         "@,
            "    .ossssssssssssssssssdMMMNysssso.       "@,
            "   /ssssssssssshdmmNNmmyNMMMMhssssss/      "@,
            "  +ssssssssshmydMMMMMMMNddddyssssssss+     "@,
            " /sssssssshNMMMyhhyyyyhmNMMMNhssssssss/    "@,
            " .ssssssssdMMMNhsssssssssshNMMMdssssssss.   "@,
            " +sssshhhyNMMNyssssssssssssyNMMMysssssss+   "@,
            " ossyNMMMNyMMhsssssssssssssshmmmhssssssso   "@,
            " ossyNMMMNyMMhsssssssssssssshmmmhssssssso   "@,
            " +sssshhhyNMMNyssssssssssssyNMMMysssssss+   "@,
            " .ssssssssdMMMNhsssssssssshNMMMdssssssss.   "@,
            "  /sssssssshNMMMyhhyyyyhdNMMMNhssssssss/    "@,
            "   +ssssssssshmydMMMMMMMNddddyssssssss+     "@,
            "    /ssssssssssshdmmNNmmyNMMMMhssssss/      "@,
            "     .ossssssssssssssssssdMMMNysssso.       "@,
            "       -+ssssssssssssssssssyyssss+-         "@,
            "         `:+ssssssssssssssssss+:`           "@,
            "             .-/+oossssoo+/-.               "@,
        ],
        LogoKind::Debian => seq![
            "       _,met$$$$$gg.           "@,
            "    ,g$$$$$$$$$$$$$$$P.        "@,
            "  ,g$$P\"     \"\"\"Y$$. \".     "@,
            " ,$$P'              `$$$.      "@,
            "',$$P       ,ggs.     `$$b:    "@,
            "`d$$'     ,$P\"'   .    $$$     "@,
            " $$P      d$'     ,    $$P     "@,
            " $$:      $$.   -    ,d$$'     "@,
            " $$;      Y$b._   _,d$P'       "@,
            " Y$$.    `.`\"Y$$$$P\"'          "@,
            " `$$b      \"-.__               "@,
            "  `Y$$                         "@,
            "   `Y$$.                       "@,
            "     `$$b.                     "@,
            "       `Y$$b.                  "@,
            "          `\"Y$b._              "@,
            "              `\"\"\"             "@,
        ],
        LogoKind::Fedora => seq![
            "          /:-------------:\\          "@,
            "       :-------------------::        "@,
            "     :-----------/shhOHbmp---:\\      "@,
            "   /-----------omMMMNNNMMD  ---:     "@,
            "  :-----------sMMMMNMNMP.    ---:    "@,
            " :-----------:MMMdP-------    ---\\   "@,
            ",------------:MMMd--------    ---:   "@,
            ":------------:MMMd-------    .---:   "@,
            ":----    oNMMMMMMMMMNho     .----:   "@,
            ":--     .+shhhMMMmhhy++   .------/   "@,
            ":-    -------:MMMd--------------:    "@,
            ":-   --------/MMMd-------------;     "@,
            ":-    ------/hMMMy------------:      "@,
            ":-- :dMNdhhdNMMNo------------;       "@,
            ":---:sdNMMMMNds:------------:        "@,
            ":------:://:-------------::          "@,
            ":---------------------://            "@,
        ],
        LogoKind::Manjaro => seq![
            "██████████████████  ████████   "@,
            "██████████████████  ████████   "@,
            "██████████████████  ████████   "@,
            "██████████████████  ████████   "@,
            "████████            ████████   "@,
            "████████  ████████  ████████   "@,
            "████████  ████████  ████████   "@,
            "████████  ████████  ████████   "@,
            "████████  ████████  ████████   "@,
            "████████  ████████  ████████   "@,
            "████████  ████████  ████████   "@,
            "████████  ████████  ████████   "@,
            "████████  ████████  ████████   "@,
            "████████  ████████  ████████   "@,
        ],
        LogoKind::Mint => seq![
            " MMMMMMMMMMMMMMMMMMMMMMMMMmds+.        "@,
            " MMm----::-://////////////oymNMd+`     "@,
            " MMd      /++                -sNMd:    "@,
            " MMNso/`  dMM    `.::-. .-::.` .hMN:   "@,
            " ddddMMh  dMM   :hNMNMNhNMNMNh: `NMm   "@,
            "     NMm  dMM  .NMN/-+MMM+-/NMN` dMM   "@,
            "     NMm  dMM  -MMm  `MMM   dMM. dMM   "@,
            "     NMm  dMM  -MMm  `MMM   dMM. dMM   "@,
            "     NMm  dMM  .mmd  `mmm   yMM. dMM   "@,
            "     NMm  dMM`  ..`   ...   ydm. dMM   "@,
            "     hMM- +MMd/-------...-:sdds  dMM   "@,
            "     -NMm- :hNMNNNmdddddddddy/`  dMM   "@,
            "      -dMNs-``-::::-------.``    dMM   "@,
            "       `/dMNmy+/:.............:/yMMM   "@,
            "          ./ydNMMMMMMMMMMMMMMMMMMMMM   "@,
            "             \\.MMMMMMMMMMMMMMMMMMM     "@,
        ],
        LogoKind::Pop => seq![
            "             /////////////                "@,
            "         /////////////////////            "@,
            "      ///////*767////////////////         "@,
            "    //////7676767676*//////////////       "@,
            "   /////76767//7676767//////////////      "@,
            "  /////767676///*76767///////////////     "@,
            " ///////767676///76767.///7676*///////    "@,
            "/////////767676//76767///767676////////   "@,
            "//////////76767676767////76767/////////   "@,
            "///////////76767676//////7676//////////   "@,
            "////////////,7676,///////767///////////   "@,
            "/////////////*7676///////76////////////   "@,
            "///////////////7676////////////////////   "@,
            " ///////////////7676///767////////////    "@,
            "  //////////////////////'////////////     "@,
            "   //////.7676767676767676767//////       "@,
            "    //////767676767676767676//////        "@,
            "      ///////////////////////////         "@,
            "         /////////////////////            "@,
            "             /////////////                "@,
        ],
        LogoKind::Gentoo => seq![
            "         -/oyddmdhs+:.                "@,
            "     -odNMMMMMMMMNNmhy+.              "@,
            "   -yNMMMMMMMMNmhhyhs+:`              "@,
            " -oNMMMMMMMMMNne`                     "@,
            " `oNMMMMMMMMN- `                      "@,
            "   `+yMMMMMMMm-                       "@,
            "     `+hMMMMMMMc                      "@,
            "       `oNMMMMMMd-                    "@,
            "         `sNMMMMMMm+`                 "@,
            "           `+dMMMMMMNho:              "@,
            "             `+hMMMMMMMMNds+.         "@,
            "               `+hNMMMMMMMMMMmy-      "@,
            "                 `/dNMMMMMMMMMMMy`    "@,
            "                   `:yNMMMMMMMMMMMs   "@,
            "                     `:hNMMMMMMMMMM+  "@,
        ],
        LogoKind::Nixos => seq![
            "          \\\\  \\\\ //          "@,
            "         ==\\\\__\\\\/ //        "@,
            "           //   \\\\//         "@,
            "        ==//     //==        "@,
            "         //\\\\___//           "@,
            "        // /\\\\  \\\\==         "@,
            "          // \\\\              "@,
        ],
        LogoKind::Void => seq![
            "                __.,,------.._     "@,
            "             ,'\"   _      _   \"`.  "@,
            "            /.__, ._  -=- _\"`    Y "@,
            "           (.____.-.`      \"\"`   j "@,
            "           VvvvvvV`.Y,.    _.,-'`  "@,
            "              Y    ||,   '\"\\       "@,
            "              |    ,'  ,     `-..  "@,
            "              |  ,    o  ,  ,.'    "@,
            "              | ;       /   ;      "@,
            "              |  _  ,  /   ,       "@,
            "              |,' .   :  ,         "@,
            "              `--..__  `._`.._     "@,
            "                     `--..____,    "@,
        ],
        LogoKind::Alpine => seq![
            "       .hddddddddddddddddddddddh.          "@,
            "      :dddddddddddddddddddddddddd:         "@,
            "     /dddddddddddddddddddddddddddd/        "@,
            "    +dddddddddddddddddddddddddddddd+       "@,
            "  `sdddddddddddddddddddddddddddddddds`     "@,
            " `ydddddddddddd++hdddddddddddddddddddy`    "@,
            " .hddddddddddd+`  `+ddddh:-sdddddddddddh.   "@,
            " hdddddddddd+`      `+y:    .sddddddddddh   "@,
            " ddddddddh+`   `//`   `.`     -sddddddddd   "@,
            " ddddddh+`   `/hddh/`   `:s-    -sddddddd   "@,
            " ddddh+`   `/+/dddddh/`   `+s-    -sddddd   "@,
            " ddd+`   `/o` :dddddddh/`   `oy-    .yddd   "@,
            " hdddyo+ohddyosdddddddddho+oydddy++ohdddh   "@,
            " .hddddddddddddddddddddddddddddddddddddh.   "@,
            "  `yddddddddddddddddddddddddddddddddddy`    "@,
            "   `sdddddddddddddddddddddddddddddddds`     "@,
            "     +dddddddddddddddddddddddddddddd+       "@,
            "      /dddddddddddddddddddddddddddd/        "@,
            "       :dddddddddddddddddddddddddd:         "@,
            "        .hddddddddddddddddddddddh.          "@,
        ],
        LogoKind::Endeavour => seq![
            "                     ./o.                  "@,
            "                   ./sssso-                "@,
            "                 `:osssssss+-              "@,
            "               `:+sssssssssso/.            "@,
            "             `-/ossssssssssssso/.          "@,
            "           `-/+sssssssssssssssso+:`        "@,
            "         `-:/+sssssssssssssssssso+/.       "@,
            "       `.://osssssssssssssssssssswo++-     "@,
            "      .://+ssssssssssssssssssssssso++:     "@,
            "    .:///ossssssssssssssssssssssssso++:    "@,
            "  `:////ssssssssssssssssssssssssssso+++.   "@,
            " `-////+ssssssssssssssssssssssssssso++++-   "@,
            "  `..-+oosssssssssssssssssssssssso+++++/`   "@,
            "    ./++++++++++++++++++++++++++++++/:.     "@,
            "   `:::::::::::::::::::::::::------``       "@,
        ],
        LogoKind::Zorin => seq![
            "        `.:/++++++/-.`             "@,
            "      .:/++++++++++++/:-           "@,
            "    `:/++++++++++++++/++/.         "@,
            "   `:/++++++++++++++//++/+`        "@,
            "  .://++++++++++++++//++ /+        "@,
            "  :://++++++++++++++/++  :+        "@,
            "  /://+++++++++++++/++   :+        "@,
            "  /://++++++++++++/++    :+        "@,
            "  /://+++++++++++/++     :+        "@,
            "  /://++++++++++/++      :+        "@,
            "  /://+++++++++/++       :+        "@,
            "  /://++++++++/++        :+        "@,
            "  /://+++++++/++         :+        "@,
            "  /://++++++/++          :+        "@,
            "  /://+++++/++           :+        "@,
            "  /://++++/++            :+        "@,
            "  /://+++/++             :+        "@,
            "  /://++/++              :+        "@,
            "  /://+/++               :+        "@,
            "  /://++`                .+        "@,
            "   ++`                    `        "@,
        ],
        LogoKind::Kali => seq![
            "      ..............           "@,
            "    ..`  `......`  `..         "@,
            "  ..`  `.`......`.`  `..       "@,
            " ..  `.`  `....`  `.`  ..      "@,
            "..  `.` .` ... `. `.`  ..      "@,
            "..  `.` `.`...`.` `.`  ..      "@,
            " ..  `.`  `...`  `.`  ..       "@,
            "  ..`  `.` `.` `. `  ..        "@,
            "    ..`  `.` `.` ` ..          "@,
            "      ..`  `.` `. `            "@,
            "        ..`  ` .               "@,
            "          ..`                  "@,
            "            .                  "@,
        ],
        LogoKind::Garuda => seq![
            "             .           "@,
            "           .d8l          "@,
            "         .d8888l         "@,
            "        .d888888l        "@,
            "       .d88888888l       "@,
            "      .d8888888888l      "@,
            "     .d888888888888l     "@,
            "    .d88888888888888l    "@,
            "   .d8888888888888888l   "@,
            "  .d888888888888888888l  "@,
            " .d88888888888888888888l "@,
            ".d8888888888888888888888l"@,
        ],
        LogoKind::Elementary => seq![
            "         eeeeeeeeeeeeeeeee         "@,
            "      eeeeeeeeeeeeeeeeeeeeeee      "@,
            "    eeeee  eeeeeeeeeeee   eeeee    "@,
            "  eeee   eeeee       eee     eeee  "@,
            " eeee   eeee          eee     eeee "@,
            "eee    eee            eee       eee"@,
            "eee   eee            eee        eee"@,
            "ee    eee           eeee       eeee"@,
            "ee    eee         eeeee      eeeeee"@,
            "ee    eee       eeeee      eeeee ee"@,
            "eee   eeee   eeeeee      eeeee  eee"@,
            "eee    eeeeeeeeee     eeeeee    eee"@,
            " eeeeeeeeeeeeeeeeeeeeeeee    eeeee "@,
            "  eeeeeeee eeeeeeeeeeee      eeee  "@,
            "    eeeee                 eeeee    "@,
            "      eeeeeee         eeeeeee      "@,
            "         eeeeeeeeeeeeeeeee         "@,
        ],
        LogoKind::Solus => seq![
            "             `.-:-.`             "@,
            "           ./++++++/-.           "@,
            "         .:/+++++++++/-          "@,
            "        -/++++++++++++/-         "@,
            "      `./+++++++++++++++/.       "@,
            "     .://+++++++++++++++//:.     "@,
            "    .:/+++++++++++++++++++//:.   "@,
            "   -///+++++++++++++++++++///-   "@,
            "  `////+++++++++++++++++++////`  "@,
            "  -////+++++++++++++++++++////-  "@,
            "   -///+++++++++++++++++++///-   "@,
            "    `://+++++++++++++++++//:`    "@,
            "      `-://+++++++++++//:-`      "@,
            "         `.-://///:-.`           "@,
        ],
        LogoKind::Centos => seq![
            "           .          "@,
            "          ..          "@,
            "         .=.          "@,
            "       .=: .          "@,
            "     .==:  .=|.       "@,
            "    .===:  .===.      "@,
            "  .====:   .====.     "@,
            " .=====.   .=====.    "@,
            ".======.   .======.   "@,
            ".======.   .======.   "@,
            ".======.   .======.   "@,
            ".======.   .======.   "@,
            " .=====.   .=====.    "@,
            "  .====:   .====.     "@,
            "    .===:  .===.      "@,
            "     .==:  .=|.       "@,
            "       .=: .          "@,
            "         .=.          "@,
            "          ..          "@,
            "           .          "@,
        ],
        LogoKind::Windows => seq![
            "                                ..,  "@,
            "                    ....,,:;+ccllll  "@,
            "      ...,,+:;  cllllllllllllllllll  "@,
            ",cclllllllllll  lllllllllllllllllll  "@,
            "llllllllllllll  lllllllllllllllllll  "@,
            "llllllllllllll  lllllllllllllllllll  "@,
            "llllllllllllll  lllllllllllllllllll  "@,
            "llllllllllllll  lllllllllllllllllll  "@,
            "                                     "@,
            "llllllllllllll  lllllllllllllllllll  "@,
            "llllllllllllll  lllllllllllllllllll  "@,
            "llllllllllllll  lllllllllllllllllll  "@,
            "llllllllllllll  lllllllllllllllllll  "@,
            "llllllllllllll  lllllllllllllllllll  "@,
            "`'ccllllllllll  lllllllllllllllllll  "@,
            "       `' \\*::  :ccllllllllllllllll  "@,
            "                       ````''*::cll  "@,
        ],
        LogoKind::Android => seq![
            "      -o          o-       "@,
            "     +hyd.      .dhy+      "@,
            "     +hyd.      .dhy+      "@,
            "     +hyd.      .dhy+      "@,
            "     +hyd.      .dhy+      "@,
            "     +hyd.      .dhy+      "@,
            "     +hyd.      .dhy+      "@,
            "     +hyd.      .dhy+      "@,
            "     +hyd.      .dhy+      "@,
            "     +hyd.      .dhy+      "@,
            "     +hyd.      .dhy+      "@,
            "     +hyd.      .dhy+      "@,
            "     +hyd.      .dhy+      "@,
            "     +hyd.      .dhy+      "@,
            "     +hyd.      .dhy+      "@,
            "     +hyd.      .dhy+      "@,
        ],
        LogoKind::Freebsd => seq![
            "   /\\,-''''-.    "@,
            "  \\_)       \\   "@,
            "  |         |   "@,
            "  |  FreeBSD|   "@,
            "   ;        /    "@,
            "    '-....--'    "@,
        ],
        LogoKind::Fallback => seq![
            "         _nnnn_        "@,
            "        dGGGGMMb       "@,
            "       @p~qp~~qMb      "@,
            "       M|@||@) M|      "@,
            "       @,----.JM|      "@,
            "      JS^\\__/  qKL     "@,
            "     dZP        qKRb   "@,
            "    dZP          qKKb  "@,
            "   fZP            SMMb "@,
            "   HZM            MMMM "@,
            "   FqM            MMMM "@,
            " __| \".        |\\dS\"qML"@,
            " |    `.       | `' \\Zq"@,
            "_)      \\.___.,|     .'"@,
            "\\____   )MMMMMP|   .'  "@,
            "     `-'       `--'    "@,
        ],
    }
}

/// The art for one subject; every logo has at least one line.
#[verifier::rlimit(100)]
#[verifier::spinoff_prover]
pub fn logo_lines(kind: LogoKind) -> (r: Vec<String>)
    ensures
        crate::text::str_views(r@) == logo_art(kind),
        r@.len() > 0,
{
    let mut r: Vec<String> = Vec::new();
    match kind {
        LogoKind::Cachy => {
            r.push(String::from_str("           .-------------------------:"));
            r.push(String::from_str("          .+=========================."));
            r.push(String::from_str("         :++===++==================-       :++-"));
            r.push(String::from_str("        :*++====+++++=============-        .==:"));
            r.push(String::from_str("       -*+++=====+***++==========:"));
            r.push(String::from_str("      =*++++========------------:"));
            r.push(String::from_str("     =*+++++=====-                     ..."));
            r.push(String::from_str("   .+*+++++=-===:                    .=+++=:"));
            r.push(String::from_str("  :++++=====-==:                     -*****+"));
            r.push(String::from_str(" :++========-=.                      .=+**+."));
            r.push(String::from_str(".+==========-.                          ."));
            r.push(String::from_str(" :+++++++====-                                .--==-."));
            r.push(String::from_str("  :++==========.                             :+++++++:"));
            r.push(String::from_str("   .-===========.                            =*****+*+"));
            r.push(String::from_str("    .-===========:                           .+*****+:"));
            r.push(String::from_str("      -=======++++:::::::::::::::::::::::::-:  .---:"));
            r.push(String::from_str("       :======++++====+++******************=."));
            r.push(String::from_str("        :=====+++==========++++++++++++++*-"));
            r.push(String::from_str("         .====++==============++++++++++*-"));
            r.push(String::from_str("          .===+==================+++++++:"));
            r.push(String::from_str("           .-=======================+++:"));
            r.push(String::from_str("             .........................."));
        },
        LogoKind::Bazzite => {
            r.push(String::from_str("         ,....,          "));
            r.push(String::from_str("       ,::::::<          "));
            r.push(String::from_str("      ,::/^\\/::.         "));
            r.push(String::from_str("     ,::/   \\::.         "));
            r.push(String::from_str("    ,::/     \\::.        "));
            r.push(String::from_str("   ,::/       \\::.       "));
            r.push(String::from_str("   :::         :::       "));
            r.push(String::from_str("   `::.       .::'       "));
            r.push(String::from_str("     `::.   .::'         "));
            r.push(String::from_str("       `:::::'           "));
            r.push(String::from_str("         `'''            "));
        },
        LogoKind::Arch => {
            r.push(String::from_str("                   -`                    "));
            r.push(String::from_str("                  .o+`                   "));
            r.push(String::from_str("                 `ooo/                   "));
            r.push(String::from_str("                `+oooo:                  "));
            r.push(String::from_str("               `+oooooo:                 "));
            r.push(String::from_str("               -+oooooo+:                "));
            r.push(String::from_str("             `/:-:++oooo+:               "));
            r.push(String::from_str("            `/++++/+++++++:              "));
            r.push(String::from_str("           `/++++++++++++++:             "));
            r.push(String::from_str("          `/+++ooooooooooooo/`           "));
            r.push(String::from_str("         ./ooosssso++osssssso+`          "));
            r.push(String::from_str("        .oossssso-````/ossssss+`         "));
            r.push(String::from_str("       -osssssso.      :ssssssso.        "));
            r.push(String::from_str("      :osssssss/        osssso+++.       "));
            r.push(String::from_str("     /ossssssss/        +ssssooo/-       "));
            r.push(String::from_str("   `/ossssso+/:-        -:/+osssso+-     "));
            r.push(String::from_str("  `+sso+:-`                 `.-/+oso:    "));
            r.push(String::from_str(" `++:.                           `-/+/   "));
            r.push(String::from_str(" .`                                 `/   "));
        },
        LogoKind::Ubuntu => {
            r.push(String::from_str("            .-/+oossssoo+/-.               "));
            r.push(String::from_str("        `:+ssssssssssssssssss+:`           "));
            r.push(String::from_str("      -+ssssssssssssssssssyyssss+-         "));
            r.push(String::from_str("    .ossssssssssssssssssdMMMNysssso.       "));
            r.push(String::from_str("   /ssssssssssshdmmNNmmyNMMMMhssssss/      "));
            r.push(String::from_str("  +ssssssssshmydMMMMMMMNddddyssssssss+     "));
            r.push(String::from_str(" /sssssssshNMMMyhhyyyyhmNMMMNhssssssss/    "));
            r.push(String::from_str(" .ssssssssdMMMNhsssssssssshNMMMdssssssss.   "));
            r.push(String::from_str(" +sssshhhyNMMNyssssssssssssyNMMMysssssss+   "));
            r.push(String::from_str(" ossyNMMMNyMMhsssssssssssssshmmmhssssssso   "));
            r.push(String::from_str(" ossyNMMMNyMMhsssssssssssssshmmmhssssssso   "));
            r.push(String::from_str(" +sssshhhyNMMNyssssssssssssyNMMMysssssss+   "));
            r.push(String::from_str(" .ssssssssdMMMNhsssssssssshNMMMdssssssss.   "));
            r.push(String::from_str("  /sssssssshNMMMyhhyyyyhdNMMMNhssssssss/    "));
            r.push(String::from_str("   +ssssssssshmydMMMMMMMNddddyssssssss+     "));
            r.push(String::from_str("    /ssssssssssshdmmNNmmyNMMMMhssssss/      "));
            r.push(String::from_str("     .ossssssssssssssssssdMMMNysssso.       "));
            r.push(String::from_str("       -+ssssssssssssssssssyyssss+-         "));
            r.push(String::from_str("         `:+ssssssssssssssssss+:`           "));
            r.push(String::from_str("             .-/+oossssoo+/-.               "));
        },
        LogoKind::Debian => {
            r.push(String::from_str("       _,met$$$$$gg.           "));
            r.push(String::from_str("    ,g$$$$$$$$$$$$$$$P.        "));
            r.push(String::from_str("  ,g$$P\"     \"\"\"Y$$. \".     "));
            r.push(String::from_str(" ,$$P'              `$$$.      "));
            r.push(String::from_str("',$$P       ,ggs.     `$$b:    "));
            r.push(String::from_str("`d$$'     ,$P\"'   .    $$$     "));
            r.push(String::from_str(" $$P      d$'     ,    $$P     "));
            r.push(String::from_str(" $$:      $$.   -    ,d$$'     "));
            r.push(String::from_str(" $$;      Y$b._   _,d$P'       "));
            r.push(String::from_str(" Y$$.    `.`\"Y$$$$P\"'          "));
            r.push(String::from_str(" `$$b      \"-.__               "));
            r.push(String::from_str("  `Y$$                         "));
            r.push(String::from_str("   `Y$$.                       "));
            r.push(String::from_str("     `$$b.                     "));
            r.push(String::from_str("       `Y$$b.                  "));
            r.push(String::from_str("          `\"Y$b._              "));
            r.push(String::from_str("              `\"\"\"             "));
        },
        LogoKind::Fedora => {
            r.push(String::from_str("          /:-------------:\\          "));
            r.push(String::from_str("       :-------------------::        "));
            r.push(String::from_str("     :-----------/shhOHbmp---:\\      "));
            r.push(String::from_str("   /-----------omMMMNNNMMD  ---:     "));
            r.push(String::from_str("  :-----------sMMMMNMNMP.    ---:    "));
            r.push(String::from_str(" :-----------:MMMdP-------    ---\\   "));
            r.push(String::from_str(",------------:MMMd--------    ---:   "));
            r.push(String::from_str(":------------:MMMd-------    .---:   "));
            r.push(String::from_str(":----    oNMMMMMMMMMNho     .----:   "));
            r.push(String::from_str(":--     .+shhhMMMmhhy++   .------/   "));
            r.push(String::from_str(":-    -------:MMMd--------------:    "));
            r.push(String::from_str(":-   --------/MMMd-------------;     "));
            r.push(String::from_str(":-    ------/hMMMy------------:      "));
            r.push(String::from_str(":-- :dMNdhhdNMMNo------------;       "));
            r.push(String::from_str(":---:sdNMMMMNds:------------:        "));
            r.push(String::from_str(":------:://:-------------::          "));
            r.push(String::from_str(":---------------------://            "));
        },
        LogoKind::Manjaro => {
            r.push(String::from_str("██████████████████  ████████   "));
            r.push(String::from_str("██████████████████  ████████   "));
            r.push(String::from_str("██████████████████  ████████   "));
            r.push(String::from_str("██████████████████  ████████   "));
            r.push(String::from_str("████████            ████████   "));
            r.push(String::from_str("████████  ████████  ████████   "));
            r.push(String::from_str("████████  ████████  ████████   "));
            r.push(String::from_str("████████  ████████  ████████   "));
            r.push(String::from_str("████████  ████████  ████████   "));
            r.push(String::from_str("████████  ████████  ████████   "));
            r.push(String::from_str("████████  ████████  ████████   "));
            r.push(String::from_str("████████  ████████  ████████   "));
            r.push(String::from_str("████████  ████████  ████████   "));
            r.push(String::from_str("████████  ████████  ████████   "));
        },
        LogoKind::Mint => {
            r.push(String::from_str(" MMMMMMMMMMMMMMMMMMMMMMMMMmds+.        "));
            r.push(String::from_str(" MMm----::-://////////////oymNMd+`     "));
            r.push(String::from_str(" MMd      /++                -sNMd:    "));
            r.push(String::from_str(" MMNso/`  dMM    `.::-. .-::.` .hMN:   "));
            r.push(String::from_str(" ddddMMh  dMM   :hNMNMNhNMNMNh: `NMm   "));
            r.push(String::from_str("     NMm  dMM  .NMN/-+MMM+-/NMN` dMM   "));
            r.push(String::from_str("     NMm  dMM  -MMm  `MMM   dMM. dMM   "));
            r.push(String::from_str("     NMm  dMM  -MMm  `MMM   dMM. dMM   "));
            r.push(String::from_str("     NMm  dMM  .mmd  `mmm   yMM. dMM   "));
            r.push(String::from_str("     NMm  dMM`  ..`   ...   ydm. dMM   "));
            r.push(String::from_str("     hMM- +MMd/-------...-:sdds  dMM   "));
            r.push(String::from_str("     -NMm- :hNMNNNmdddddddddy/`  dMM   "));
            r.push(String::from_str("      -dMNs-``-::::-------.``    dMM   "));
            r.push(String::from_str("       `/dMNmy+/:.............:/yMMM   "));
            r.push(String::from_str("          ./ydNMMMMMMMMMMMMMMMMMMMMM   "));
            r.push(String::from_str("             \\.MMMMMMMMMMMMMMMMMMM     "));
        },
        LogoKind::Pop => {
            r.push(String::from_str("             /////////////                "));
            r.push(String::from_str("         /////////////////////            "));
            r.push(String::from_str("      ///////*767////////////////         "));
            r.push(String::from_str("    //////7676767676*//////////////       "));
            r.push(String::from_str("   /////76767//7676767//////////////      "));
            r.push(String::from_str("  /////767676///*76767///////////////     "));
            r.push(String::from_str(" ///////767676///76767.///7676*///////    "));
            r.push(String::from_str("/////////767676//76767///767676////////   "));
            r.push(String::from_str("//////////76767676767////76767/////////   "));
            r.push(String::from_str("///////////76767676//////7676//////////   "));
            r.push(String::from_str("////////////,7676,///////767///////////   "));
            r.push(String::from_str("/////////////*7676///////76////////////   "));
            r.push(String::from_str("///////////////7676////////////////////   "));
            r.push(String::from_str(" ///////////////7676///767////////////    "));
            r.push(String::from_str("  //////////////////////'////////////     "));
            r.push(String::from_str("   //////.7676767676767676767//////       "));
            r.push(String::from_str("    //////767676767676767676//////        "));
            r.push(String::from_str("      ///////////////////////////         "));
            r.push(String::from_str("         /////////////////////            "));
            r.push(String::from_str("             /////////////                "));
        },
        LogoKind::Gentoo => {
            r.push(String::from_str("         -/oyddmdhs+:.                "));
            r.push(String::from_str("     -odNMMMMMMMMNNmhy+.              "));
            r.push(String::from_str("   -yNMMMMMMMMNmhhyhs+:`              "));
            r.push(String::from_str(" -oNMMMMMMMMMNne`                     "));
            r.push(String::from_str(" `oNMMMMMMMMN- `                      "));
            r.push(String::from_str("   `+yMMMMMMMm-                       "));
            r.push(String::from_str("     `+hMMMMMMMc                      "));
            r.push(String::from_str("       `oNMMMMMMd-                    "));
            r.push(String::from_str("         `sNMMMMMMm+`                 "));
            r.push(String::from_str("           `+dMMMMMMNho:              "));
            r.push(String::from_str("             `+hMMMMMMMMNds+.         "));
            r.push(String::from_str("               `+hNMMMMMMMMMMmy-      "));
            r.push(String::from_str("                 `/dNMMMMMMMMMMMy`    "));
            r.push(String::from_str("                   `:yNMMMMMMMMMMMs   "));
            r.push(String::from_str("                     `:hNMMMMMMMMMM+  "));
        },
        LogoKind::Nixos => {
            r.push(String::from_str("          \\\\  \\\\ //          "));
            r.push(String::from_str("         ==\\\\__\\\\/ //        "));
            r.push(String::from_str("           //   \\\\//         "));
            r.push(String::from_str("        ==//     //==        "));
            r.push(String::from_str("         //\\\\___//           "));
            r.push(String::from_str("        // /\\\\  \\\\==         "));
            r.push(String::from_str("          // \\\\              "));
        },
        LogoKind::Void => {
            r.push(String::from_str("                __.,,------.._     "));
            r.push(String::from_str("             ,'\"   _      _   \"`.  "));
            r.push(String::from_str("            /.__, ._  -=- _\"`    Y "));
            r.push(String::from_str("           (.____.-.`      \"\"`   j "));
            r.push(String::from_str("           VvvvvvV`.Y,.    _.,-'`  "));
            r.push(String::from_str("              Y    ||,   '\"\\       "));
            r.push(String::from_str("              |    ,'  ,     `-..  "));
            r.push(String::from_str("              |  ,    o  ,  ,.'    "));
            r.push(String::from_str("              | ;       /   ;      "));
            r.push(String::from_str("              |  _  ,  /   ,       "));
            r.push(String::from_str("              |,' .   :  ,         "));
            r.push(String::from_str("              `--..__  `._`.._     "));
            r.push(String::from_str("                     `--..____,    "));
        },
        LogoKind::Alpine => {
            r.push(String::from_str("       .hddddddddddddddddddddddh.          "));
            r.push(String::from_str("      :dddddddddddddddddddddddddd:         "));
            r.push(String::from_str("     /dddddddddddddddddddddddddddd/        "));
            r.push(String::from_str("    +dddddddddddddddddddddddddddddd+       "));
            r.push(String::from_str("  `sdddddddddddddddddddddddddddddddds`     "));
            r.push(String::from_str(" `ydddddddddddd++hdddddddddddddddddddy`    "));
            r.push(String::from_str(" .hddddddddddd+`  `+ddddh:-sdddddddddddh.   "));
            r.push(String::from_str(" hdddddddddd+`      `+y:    .sddddddddddh   "));
            r.push(String::from_str(" ddddddddh+`   `//`   `.`     -sddddddddd   "));
            r.push(String::from_str(" ddddddh+`   `/hddh/`   `:s-    -sddddddd   "));
            r.push(String::from_str(" ddddh+`   `/+/dddddh/`   `+s-    -sddddd   "));
            r.push(String::from_str(" ddd+`   `/o` :dddddddh/`   `oy-    .yddd   "));
            r.push(String::from_str(" hdddyo+ohddyosdddddddddho+oydddy++ohdddh   "));
            r.push(String::from_str(" .hddddddddddddddddddddddddddddddddddddh.   "));
            r.push(String::from_str("  `yddddddddddddddddddddddddddddddddddy`    "));
            r.push(String::from_str("   `sdddddddddddddddddddddddddddddddds`     "));
            r.push(String::from_str("     +dddddddddddddddddddddddddddddd+       "));
            r.push(String::from_str("      /dddddddddddddddddddddddddddd/        "));
            r.push(String::from_str("       :dddddddddddddddddddddddddd:         "));
            r.push(String::from_str("        .hddddddddddddddddddddddh.          "));
        },
        LogoKind::Endeavour => {
            r.push(String::from_str("                     ./o.                  "));
            r.push(String::from_str("                   ./sssso-                "));
            r.push(String::from_str("                 `:osssssss+-              "));
            r.push(String::from_str("               `:+sssssssssso/.            "));
            r.push(String::from_str("             `-/ossssssssssssso/.          "));
            r.push(String::from_str("           `-/+sssssssssssssssso+:`        "));
            r.push(String::from_str("         `-:/+sssssssssssssssssso+/.       "));
            r.push(String::from_str("       `.://osssssssssssssssssssswo++-     "));
            r.push(String::from_str("      .://+ssssssssssssssssssssssso++:     "));
            r.push(String::from_str("    .:///ossssssssssssssssssssssssso++:    "));
            r.push(String::from_str("  `:////ssssssssssssssssssssssssssso+++.   "));
            r.push(String::from_str(" `-////+ssssssssssssssssssssssssssso++++-   "));
            r.push(String::from_str("  `..-+oosssssssssssssssssssssssso+++++/`   "));
            r.push(String::from_str("    ./++++++++++++++++++++++++++++++/:.     "));
            r.push(String::from_str("   `:::::::::::::::::::::::::------``       "));
        },
        LogoKind::Zorin => {
            r.push(String::from_str("        `.:/++++++/-.`             "));
            r.push(String::from_str("      .:/++++++++++++/:-           "));
            r.push(String::from_str("    `:/++++++++++++++/++/.         "));
            r.push(String::from_str("   `:/++++++++++++++//++/+`        "));
            r.push(String::from_str("  .://++++++++++++++//++ /+        "));
            r.push(String::from_str("  :://++++++++++++++/++  :+        "));
            r.push(String::from_str("  /://+++++++++++++/++   :+        "));
            r.push(String::from_str("  /://++++++++++++/++    :+        "));
            r.push(String::from_str("  /://+++++++++++/++     :+        "));
            r.push(String::from_str("  /://++++++++++/++      :+        "));
            r.push(String::from_str("  /://+++++++++/++       :+        "));
            r.push(String::from_str("  /://++++++++/++        :+        "));
            r.push(String::from_str("  /://+++++++/++         :+        "));
            r.push(String::from_str("  /://++++++/++          :+        "));
            r.push(String::from_str("  /://+++++/++           :+        "));
            r.push(String::from_str("  /://++++/++            :+        "));
            r.push(String::from_str("  /://+++/++             :+        "));
            r.push(String::from_str("  /://++/++              :+        "));
            r.push(String::from_str("  /://+/++               :+        "));
            r.push(String::from_str("  /://++`                .+        "));
            r.push(String::from_str("   ++`                    `        "));
        },
        LogoKind::Kali => {
            r.push(String::from_str("      ..............           "));
            r.push(String::from_str("    ..`  `......`  `..         "));
            r.push(String::from_str("  ..`  `.`......`.`  `..       "));
            r.push(String::from_str(" ..  `.`  `....`  `.`  ..      "));
            r.push(String::from_str("..  `.` .` ... `. `.`  ..      "));
            r.push(String::from_str("..  `.` `.`...`.` `.`  ..      "));
            r.push(String::from_str(" ..  `.`  `...`  `.`  ..       "));
            r.push(String::from_str("  ..`  `.` `.` `. `  ..        "));
            r.push(String::from_str("    ..`  `.` `.` ` ..          "));
            r.push(String::from_str("      ..`  `.` `. `            "));
            r.push(String::from_str("        ..`  ` .               "));
            r.push(String::from_str("          ..`                  "));
            r.push(String::from_str("            .                  "));
        },
        LogoKind::Garuda => {
            r.push(String::from_str("             .           "));
            r.push(String::from_str("           .d8l          "));
            r.push(String::from_str("         .d8888l         "));
            r.push(String::from_str("        .d888888l        "));
            r.push(String::from_str("       .d88888888l       "));
            r.push(String::from_str("      .d8888888888l      "));
            r.push(String::from_str("     .d888888888888l     "));
            r.push(String::from_str("    .d88888888888888l    "));
            r.push(String::from_str("   .d8888888888888888l   "));
            r.push(String::from_str("  .d888888888888888888l  "));
            r.push(String::from_str(" .d88888888888888888888l "));
            r.push(String::from_str(".d8888888888888888888888l"));
        },
        LogoKind::Elementary => {
            r.push(String::from_str("         eeeeeeeeeeeeeeeee         "));
            r.push(String::from_str("      eeeeeeeeeeeeeeeeeeeeeee      "));
            r.push(String::from_str("    eeeee  eeeeeeeeeeee   eeeee    "));
            r.push(String::from_str("  eeee   eeeee       eee     eeee  "));
            r.push(String::from_str(" eeee   eeee          eee     eeee "));
            r.push(String::from_str("eee    eee            eee       eee"));
            r.push(String::from_str("eee   eee            eee        eee"));
            r.push(String::from_str("ee    eee           eeee       eeee"));
            r.push(String::from_str("ee    eee         eeeee      eeeeee"));
            r.push(String::from_str("ee    eee       eeeee      eeeee ee"));
            r.push(String::from_str("eee   eeee   eeeeee      eeeee  eee"));
            r.push(String::from_str("eee    eeeeeeeeee     eeeeee    eee"));
            r.push(String::from_str(" eeeeeeeeeeeeeeeeeeeeeeee    eeeee "));
            r.push(String::from_str("  eeeeeeee eeeeeeeeeeee      eeee  "));
            r.push(String::from_str("    eeeee                 eeeee    "));
            r.push(String::from_str("      eeeeeee         eeeeeee      "));
            r.push(String::from_str("         eeeeeeeeeeeeeeeee         "));
        },
        LogoKind::Solus => {
            r.push(String::from_str("             `.-:-.`             "));
            r.push(String::from_str("           ./++++++/-.           "));
            r.push(String::from_str("         .:/+++++++++/-          "));
            r.push(String::from_str("        -/++++++++++++/-         "));
            r.push(String::from_str("      `./+++++++++++++++/.       "));
            r.push(String::from_str("     .://+++++++++++++++//:.     "));
            r.push(String::from_str("    .:/+++++++++++++++++++//:.   "));
            r.push(String::from_str("   -///+++++++++++++++++++///-   "));
            r.push(String::from_str("  `////+++++++++++++++++++////`  "));
            r.push(String::from_str("  -////+++++++++++++++++++////-  "));
            r.push(String::from_str("   -///+++++++++++++++++++///-   "));
            r.push(String::from_str("    `://+++++++++++++++++//:`    "));
            r.push(String::from_str("      `-://+++++++++++//:-`      "));
            r.push(String::from_str("         `.-://///:-.`           "));
        },
        LogoKind::Centos => {
            r.push(String::from_str("           .          "));
            r.push(String::from_str("          ..          "));
            r.push(String::from_str("         .=.          "));
            r.push(String::from_str("       .=: .          "));
            r.push(String::from_str("     .==:  .=|.       "));
            r.push(String::from_str("    .===:  .===.      "));
            r.push(String::from_str("  .====:   .====.     "));
            r.push(String::from_str(" .=====.   .=====.    "));
            r.push(String::from_str(".======.   .======.   "));
            r.push(String::from_str(".======.   .======.   "));
            r.push(String::from_str(".======.   .======.   "));
            r.push(String::from_str(".======.   .======.   "));
            r.push(String::from_str(" .=====.   .=====.    "));
            r.push(String::from_str("  .====:   .====.     "));
            r.push(String::from_str("    .===:  .===.      "));
            r.push(String::from_str("     .==:  .=|.       "));
            r.push(String::from_str("       .=: .          "));
            r.push(String::from_str("         .=.          "));
            r.push(String::from_str("          ..          "));
            r.push(String::from_str("           .          "));
        },
        LogoKind::Windows => {
            r.push(String::from_str("                                ..,  "));
            r.push(String::from_str("                    ....,,:;+ccllll  "));
            r.push(String::from_str("      ...,,+:;  cllllllllllllllllll  "));
            r.push(String::from_str(",cclllllllllll  lllllllllllllllllll  "));
            r.push(String::from_str("llllllllllllll  lllllllllllllllllll  "));
            r.push(String::from_str("llllllllllllll  lllllllllllllllllll  "));
            r.push(String::from_str("llllllllllllll  lllllllllllllllllll  "));
            r.push(String::from_str("llllllllllllll  lllllllllllllllllll  "));
            r.push(String::from_str("                                     "));
            r.push(String::from_str("llllllllllllll  lllllllllllllllllll  "));
            r.push(String::from_str("llllllllllllll  lllllllllllllllllll  "));
            r.push(String::from_str("llllllllllllll  lllllllllllllllllll  "));
            r.push(String::from_str("llllllllllllll  lllllllllllllllllll  "));
            r.push(String::from_str("llllllllllllll  lllllllllllllllllll  "));
            r.push(String::from_str("`'ccllllllllll  lllllllllllllllllll  "));
            r.push(String::from_str("       `' \\*::  :ccllllllllllllllll  "));
            r.push(String::from_str("                       ````''*::cll  "));
        },
        LogoKind::Android => {
            r.push(String::from_str("      -o          o-       "));
            r.push(String::from_str("     +hyd.      .dhy+      "));
            r.push(String::from_str("     +hyd.      .dhy+      "));
            r.push(String::from_str("     +hyd.      .dhy+      "));
            r.push(String::from_str("     +hyd.      .dhy+      "));
            r.push(String::from_str("     +hyd.      .dhy+      "));
            r.push(String::from_str("     +hyd.      .dhy+      "));
            r.push(String::from_str("     +hyd.      .dhy+      "));
            r.push(String::from_str("     +hyd.      .dhy+      "));
            r.push(String::from_str("     +hyd.      .dhy+      "));
            r.push(String::from_str("     +hyd.      .dhy+      "));
            r.push(String::from_str("     +hyd.      .dhy+      "));
            r.push(String::from_str("     +hyd.      .dhy+      "));
            r.push(String::from_str("     +hyd.      .dhy+      "));
            r.push(String::from_str("     +hyd.      .dhy+      "));
            r.push(String::from_str("     +hyd.      .dhy+      "));
        },
        LogoKind::Freebsd => {
            r.push(String::from_str("   /\\,-''''-.    "));
            r.push(String::from_str("  \\_)       \\   "));
            r.push(String::from_str("  |         |   "));
            r.push(String::from_str("  |  FreeBSD|   "));
            r.push(String::from_str("   ;        /    "));
            r.push(String::from_str("    '-....--'    "));
        },
        LogoKind::Fallback => {
            r.push(String::from_str("         _nnnn_        "));
            r.push(String::from_str("        dGGGGMMb       "));
            r.push(String::from_str("       @p~qp~~qMb      "));
            r.push(String::from_str("       M|@||@) M|      "));
            r.push(String::from_str("       @,----.JM|      "));
            r.push(String::from_str("      JS^\\__/  qKL     "));
            r.push(String::from_str("     dZP        qKRb   "));
            r.push(String::from_str("    dZP          qKKb  "));
            r.push(String::from_str("   fZP            SMMb "));
            r.push(String::from_str("   HZM            MMMM "));
            r.push(String::from_str("   FqM            MMMM "));
            r.push(String::from_str(" __| \".        |\\dS\"qML"));
            r.push(String::from_str(" |    `.       | `' \\Zq"));
            r.push(String::from_str("_)      \\.___.,|     .'"));
            r.push(String::from_str("\\____   )MMMMMP|   .'  "));
            r.push(String::from_str("     `-'       `--'    "));
        },
    }
    proof {
        assert(crate::text::str_views(r@) =~= logo_art(kind));
    }
    r
}

/// The logo for an operating-system name: the art of the first keyword
/// the lower-cased name contains, or the fallback art.
pub fn get_logo(os: &str) -> (r: Vec<String>)
    ensures
        crate::text::str_views(r@) == logo_art(spec_logo_kind(os@)),
        r@.len() > 0,
{
    logo_lines(logo_kind(os))
}

} // verus!
