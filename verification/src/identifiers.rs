//! The identifier tables.
//!
//! License and exception short identifiers of the SPDX license list, in
//! byte order, each with its flags. Besides the entries of list version
//! 3.6 the license table holds the GFDL `invariants` family and the
//! placeholder `NOASSERTION`. A third table maps loosely written names to
//! the identifier that was meant.

use crate::registry::gnu_name;
use crate::text::{
    behind_prefix, differs_below, has_prefix, is_operator_word, is_term_text, lemma_not_prefix,
    lemma_prefixed_between, sorts_before,
};
use vstd::prelude::*;
use vstd::string::*;
use vstd::utf8::*;

verus! {

/// Listed as free by the Free Software Foundation.
pub const IS_FSF_LIBRE: u8 = 0x1;

/// Approved by the Open Source Initiative.
pub const IS_OSI_APPROVED: u8 = 0x2;

/// Deprecated: the identifier should no longer be used.
pub const IS_DEPRECATED: u8 = 0x4;

/// Considered copyleft.
pub const IS_COPYLEFT: u8 = 0x8;

/// A license of the GNU family.
pub const IS_GNU: u8 = 0x10;

/// The version of the SPDX license list that the tables come from.
pub const VERSION: &'static str = "3.6";

/// The number of licenses in the table.
pub const LICENSE_COUNT: usize = 412;

/// The number of exceptions in the table.
pub const EXCEPTION_COUNT: usize = 36;

/// The number of loosely written names in the table.
pub const IMPRECISE_COUNT: usize = 68;

/// The short identifier of the license at `index`.
pub open spec fn license_name(index: usize) -> &'static str {
    match index {
        0 => "0BSD",
        1 => "AAL",
        2 => "ADSL",
        3 => "AFL-1.1",
        4 => "AFL-1.2",
        5 => "AFL-2.0",
        6 => "AFL-2.1",
        7 => "AFL-3.0",
        8 => "AGPL-1.0",
        9 => "AGPL-1.0-only",
        10 => "AGPL-1.0-or-later",
        11 => "AGPL-3.0",
        12 => "AGPL-3.0-only",
        13 => "AGPL-3.0-or-later",
        14 => "AMDPLPA",
        15 => "AML",
        16 => "AMPAS",
        17 => "ANTLR-PD",
        18 => "APAFML",
        19 => "APL-1.0",
        20 => "APSL-1.0",
        21 => "APSL-1.1",
        22 => "APSL-1.2",
        23 => "APSL-2.0",
        24 => "Abstyles",
        25 => "Adobe-2006",
        26 => "Adobe-Glyph",
        27 => "Afmparse",
        28 => "Aladdin",
        29 => "Apache-1.0",
        30 => "Apache-1.1",
        31 => "Apache-2.0",
        32 => "Artistic-1.0",
        33 => "Artistic-1.0-Perl",
        34 => "Artistic-1.0-cl8",
        35 => "Artistic-2.0",
        36 => "BSD-1-Clause",
        37 => "BSD-2-Clause",
        38 => "BSD-2-Clause-FreeBSD",
        39 => "BSD-2-Clause-NetBSD",
        40 => "BSD-2-Clause-Patent",
        41 => "BSD-3-Clause",
        42 => "BSD-3-Clause-Attribution",
        43 => "BSD-3-Clause-Clear",
        44 => "BSD-3-Clause-LBNL",
        45 => "BSD-3-Clause-No-Nuclear-License",
        46 => "BSD-3-Clause-No-Nuclear-License-2014",
        47 => "BSD-3-Clause-No-Nuclear-Warranty",
        48 => "BSD-3-Clause-Open-MPI",
        49 => "BSD-4-Clause",
        50 => "BSD-4-Clause-UC",
        51 => "BSD-Protection",
        52 => "BSD-Source-Code",
        53 => "BSL-1.0",
        54 => "Bahyph",
        55 => "Barr",
        56 => "Beerware",
        57 => "BitTorrent-1.0",
        58 => "BitTorrent-1.1",
        59 => "BlueOak-1.0.0",
        60 => "Borceux",
        61 => "CATOSL-1.1",
        62 => "CC-BY-1.0",
        63 => "CC-BY-2.0",
        64 => "CC-BY-2.5",
        65 => "CC-BY-3.0",
        66 => "CC-BY-4.0",
        67 => "CC-BY-NC-1.0",
        68 => "CC-BY-NC-2.0",
        69 => "CC-BY-NC-2.5",
        70 => "CC-BY-NC-3.0",
        71 => "CC-BY-NC-4.0",
        72 => "CC-BY-NC-ND-1.0",
        73 => "CC-BY-NC-ND-2.0",
        74 => "CC-BY-NC-ND-2.5",
        75 => "CC-BY-NC-ND-3.0",
        76 => "CC-BY-NC-ND-4.0",
        77 => "CC-BY-NC-SA-1.0",
        78 => "CC-BY-NC-SA-2.0",
        79 => "CC-BY-NC-SA-2.5",
        80 => "CC-BY-NC-SA-3.0",
        81 => "CC-BY-NC-SA-4.0",
        82 => "CC-BY-ND-1.0",
        83 => "CC-BY-ND-2.0",
        84 => "CC-BY-ND-2.5",
        85 => "CC-BY-ND-3.0",
        86 => "CC-BY-ND-4.0",
        87 => "CC-BY-SA-1.0",
        88 => "CC-BY-SA-2.0",
        89 => "CC-BY-SA-2.5",
        90 => "CC-BY-SA-3.0",
        91 => "CC-BY-SA-4.0",
        92 => "CC-PDDC",
        93 => "CC0-1.0",
        94 => "CDDL-1.0",
        95 => "CDDL-1.1",
        96 => "CDLA-Permissive-1.0",
        97 => "CDLA-Sharing-1.0",
        98 => "CECILL-1.0",
        99 => "CECILL-1.1",
        100 => "CECILL-2.0",
        101 => "CECILL-2.1",
        102 => "CECILL-B",
        103 => "CECILL-C",
        104 => "CERN-OHL-1.1",
        105 => "CERN-OHL-1.2",
        106 => "CNRI-Jython",
        107 => "CNRI-Python",
        108 => "CNRI-Python-GPL-Compatible",
        109 => "CPAL-1.0",
        110 => "CPL-1.0",
        111 => "CPOL-1.02",
        112 => "CUA-OPL-1.0",
        113 => "Caldera",
        114 => "ClArtistic",
        115 => "Condor-1.1",
        116 => "Crossword",
        117 => "CrystalStacker",
        118 => "Cube",
        119 => "D-FSL-1.0",
        120 => "DOC",
        121 => "DSDP",
        122 => "Dotseqn",
        123 => "ECL-1.0",
        124 => "ECL-2.0",
        125 => "EFL-1.0",
        126 => "EFL-2.0",
        127 => "EPL-1.0",
        128 => "EPL-2.0",
        129 => "EUDatagrid",
        130 => "EUPL-1.0",
        131 => "EUPL-1.1",
        132 => "EUPL-1.2",
        133 => "Entessa",
        134 => "ErlPL-1.1",
        135 => "Eurosym",
        136 => "FSFAP",
        137 => "FSFUL",
        138 => "FSFULLR",
        139 => "FTL",
        140 => "Fair",
        141 => "Frameworx-1.0",
        142 => "FreeImage",
        143 => "GFDL-1.1",
        144 => "GFDL-1.1-invariants",
        145 => "GFDL-1.1-invariants-only",
        146 => "GFDL-1.1-invariants-or-later",
        147 => "GFDL-1.1-no-invariants-only",
        148 => "GFDL-1.1-no-invariants-or-later",
        149 => "GFDL-1.1-only",
        150 => "GFDL-1.1-or-later",
        151 => "GFDL-1.2",
        152 => "GFDL-1.2-invariants",
        153 => "GFDL-1.2-invariants-only",
        154 => "GFDL-1.2-invariants-or-later",
        155 => "GFDL-1.2-no-invariants-only",
        156 => "GFDL-1.2-no-invariants-or-later",
        157 => "GFDL-1.2-only",
        158 => "GFDL-1.2-or-later",
        159 => "GFDL-1.3",
        160 => "GFDL-1.3-invariants",
        161 => "GFDL-1.3-invariants-only",
        162 => "GFDL-1.3-invariants-or-later",
        163 => "GFDL-1.3-no-invariants-only",
        164 => "GFDL-1.3-no-invariants-or-later",
        165 => "GFDL-1.3-only",
        166 => "GFDL-1.3-or-later",
        167 => "GL2PS",
        168 => "GPL-1.0",
        169 => "GPL-1.0+",
        170 => "GPL-1.0-only",
        171 => "GPL-1.0-or-later",
        172 => "GPL-2.0",
        173 => "GPL-2.0+",
        174 => "GPL-2.0-only",
        175 => "GPL-2.0-or-later",
        176 => "GPL-2.0-with-GCC-exception",
        177 => "GPL-2.0-with-autoconf-exception",
        178 => "GPL-2.0-with-bison-exception",
        179 => "GPL-2.0-with-classpath-exception",
        180 => "GPL-2.0-with-font-exception",
        181 => "GPL-3.0",
        182 => "GPL-3.0+",
        183 => "GPL-3.0-only",
        184 => "GPL-3.0-or-later",
        185 => "GPL-3.0-with-GCC-exception",
        186 => "GPL-3.0-with-autoconf-exception",
        187 => "Giftware",
        188 => "Glide",
        189 => "Glulxe",
        190 => "HPND",
        191 => "HPND-sell-variant",
        192 => "HaskellReport",
        193 => "IBM-pibs",
        194 => "ICU",
        195 => "IJG",
        196 => "IPA",
        197 => "IPL-1.0",
        198 => "ISC",
        199 => "ImageMagick",
        200 => "Imlib2",
        201 => "Info-ZIP",
        202 => "Intel",
        203 => "Intel-ACPI",
        204 => "Interbase-1.0",
        205 => "JPNIC",
        206 => "JSON",
        207 => "JasPer-2.0",
        208 => "LAL-1.2",
        209 => "LAL-1.3",
        210 => "LGPL-2.0",
        211 => "LGPL-2.0+",
        212 => "LGPL-2.0-only",
        213 => "LGPL-2.0-or-later",
        214 => "LGPL-2.1",
        215 => "LGPL-2.1+",
        216 => "LGPL-2.1-only",
        217 => "LGPL-2.1-or-later",
        218 => "LGPL-3.0",
        219 => "LGPL-3.0+",
        220 => "LGPL-3.0-only",
        221 => "LGPL-3.0-or-later",
        222 => "LGPLLR",
        223 => "LPL-1.0",
        224 => "LPL-1.02",
        225 => "LPPL-1.0",
        226 => "LPPL-1.1",
        227 => "LPPL-1.2",
        228 => "LPPL-1.3a",
        229 => "LPPL-1.3c",
        230 => "Latex2e",
        231 => "Leptonica",
        232 => "LiLiQ-P-1.1",
        233 => "LiLiQ-R-1.1",
        234 => "LiLiQ-Rplus-1.1",
        235 => "Libpng",
        236 => "Linux-OpenIB",
        237 => "MIT",
        238 => "MIT-0",
        239 => "MIT-CMU",
        240 => "MIT-advertising",
        241 => "MIT-enna",
        242 => "MIT-feh",
        243 => "MITNFA",
        244 => "MPL-1.0",
        245 => "MPL-1.1",
        246 => "MPL-2.0",
        247 => "MPL-2.0-no-copyleft-exception",
        248 => "MS-PL",
        249 => "MS-RL",
        250 => "MTLL",
        251 => "MakeIndex",
        252 => "MirOS",
        253 => "Motosoto",
        254 => "Multics",
        255 => "Mup",
        256 => "NASA-1.3",
        257 => "NBPL-1.0",
        258 => "NCSA",
        259 => "NGPL",
        260 => "NLOD-1.0",
        261 => "NLPL",
        262 => "NOASSERTION",
        263 => "NOSL",
        264 => "NPL-1.0",
        265 => "NPL-1.1",
        266 => "NPOSL-3.0",
        267 => "NRL",
        268 => "NTP",
        269 => "Naumen",
        270 => "Net-SNMP",
        271 => "NetCDF",
        272 => "Newsletr",
        273 => "Nokia",
        274 => "Noweb",
        275 => "Nunit",
        276 => "OCCT-PL",
        277 => "OCLC-2.0",
        278 => "ODC-By-1.0",
        279 => "ODbL-1.0",
        280 => "OFL-1.0",
        281 => "OFL-1.1",
        282 => "OGL-UK-1.0",
        283 => "OGL-UK-2.0",
        284 => "OGL-UK-3.0",
        285 => "OGTSL",
        286 => "OLDAP-1.1",
        287 => "OLDAP-1.2",
        288 => "OLDAP-1.3",
        289 => "OLDAP-1.4",
        290 => "OLDAP-2.0",
        291 => "OLDAP-2.0.1",
        292 => "OLDAP-2.1",
        293 => "OLDAP-2.2",
        294 => "OLDAP-2.2.1",
        295 => "OLDAP-2.2.2",
        296 => "OLDAP-2.3",
        297 => "OLDAP-2.4",
        298 => "OLDAP-2.5",
        299 => "OLDAP-2.6",
        300 => "OLDAP-2.7",
        301 => "OLDAP-2.8",
        302 => "OML",
        303 => "OPL-1.0",
        304 => "OSET-PL-2.1",
        305 => "OSL-1.0",
        306 => "OSL-1.1",
        307 => "OSL-2.0",
        308 => "OSL-2.1",
        309 => "OSL-3.0",
        310 => "OpenSSL",
        311 => "PDDL-1.0",
        312 => "PHP-3.0",
        313 => "PHP-3.01",
        314 => "Parity-6.0.0",
        315 => "Plexus",
        316 => "PostgreSQL",
        317 => "Python-2.0",
        318 => "QPL-1.0",
        319 => "Qhull",
        320 => "RHeCos-1.1",
        321 => "RPL-1.1",
        322 => "RPL-1.5",
        323 => "RPSL-1.0",
        324 => "RSA-MD",
        325 => "RSCPL",
        326 => "Rdisc",
        327 => "Ruby",
        328 => "SAX-PD",
        329 => "SCEA",
        330 => "SGI-B-1.0",
        331 => "SGI-B-1.1",
        332 => "SGI-B-2.0",
        333 => "SHL-0.5",
        334 => "SHL-0.51",
        335 => "SISSL",
        336 => "SISSL-1.2",
        337 => "SMLNJ",
        338 => "SMPPL",
        339 => "SNIA",
        340 => "SPL-1.0",
        341 => "SSPL-1.0",
        342 => "SWL",
        343 => "Saxpath",
        344 => "Sendmail",
        345 => "Sendmail-8.23",
        346 => "SimPL-2.0",
        347 => "Sleepycat",
        348 => "Spencer-86",
        349 => "Spencer-94",
        350 => "Spencer-99",
        351 => "StandardML-NJ",
        352 => "SugarCRM-1.1.3",
        353 => "TAPR-OHL-1.0",
        354 => "TCL",
        355 => "TCP-wrappers",
        356 => "TMate",
        357 => "TORQUE-1.1",
        358 => "TOSL",
        359 => "TU-Berlin-1.0",
        360 => "TU-Berlin-2.0",
        361 => "UPL-1.0",
        362 => "Unicode-DFS-2015",
        363 => "Unicode-DFS-2016",
        364 => "Unicode-TOU",
        365 => "Unlicense",
        366 => "VOSTROM",
        367 => "VSL-1.0",
        368 => "Vim",
        369 => "W3C",
        370 => "W3C-19980720",
        371 => "W3C-20150513",
        372 => "WTFPL",
        373 => "Watcom-1.0",
        374 => "Wsuipa",
        375 => "X11",
        376 => "XFree86-1.1",
        377 => "XSkat",
        378 => "Xerox",
        379 => "Xnet",
        380 => "YPL-1.0",
        381 => "YPL-1.1",
        382 => "ZPL-1.1",
        383 => "ZPL-2.0",
        384 => "ZPL-2.1",
        385 => "Zed",
        386 => "Zend-2.0",
        387 => "Zimbra-1.3",
        388 => "Zimbra-1.4",
        389 => "Zlib",
        390 => "blessing",
        391 => "bzip2-1.0.5",
        392 => "bzip2-1.0.6",
        393 => "copyleft-next-0.3.0",
        394 => "copyleft-next-0.3.1",
        395 => "curl",
        396 => "diffmark",
        397 => "dvipdfm",
        398 => "eCos-2.0",
        399 => "eGenix",
        400 => "gSOAP-1.3b",
        401 => "gnuplot",
        402 => "iMatix",
        403 => "libpng-2.0",
        404 => "libtiff",
        405 => "mpich2",
        406 => "psfrag",
        407 => "psutils",
        408 => "wxWindows",
        409 => "xinetd",
        410 => "xpp",
        411 => "zlib-acknowledgement",
        _ => "",
    }
}

pub fn license_name_at(index: usize) -> (r: &'static str)
    ensures
        r == license_name(index),
{
    match index {
        0 => "0BSD",
        1 => "AAL",
        2 => "ADSL",
        3 => "AFL-1.1",
        4 => "AFL-1.2",
        5 => "AFL-2.0",
        6 => "AFL-2.1",
        7 => "AFL-3.0",
        8 => "AGPL-1.0",
        9 => "AGPL-1.0-only",
        10 => "AGPL-1.0-or-later",
        11 => "AGPL-3.0",
        12 => "AGPL-3.0-only",
        13 => "AGPL-3.0-or-later",
        14 => "AMDPLPA",
        15 => "AML",
        16 => "AMPAS",
        17 => "ANTLR-PD",
        18 => "APAFML",
        19 => "APL-1.0",
        20 => "APSL-1.0",
        21 => "APSL-1.1",
        22 => "APSL-1.2",
        23 => "APSL-2.0",
        24 => "Abstyles",
        25 => "Adobe-2006",
        26 => "Adobe-Glyph",
        27 => "Afmparse",
        28 => "Aladdin",
        29 => "Apache-1.0",
        30 => "Apache-1.1",
        31 => "Apache-2.0",
        32 => "Artistic-1.0",
        33 => "Artistic-1.0-Perl",
        34 => "Artistic-1.0-cl8",
        35 => "Artistic-2.0",
        36 => "BSD-1-Clause",
        37 => "BSD-2-Clause",
        38 => "BSD-2-Clause-FreeBSD",
        39 => "BSD-2-Clause-NetBSD",
        40 => "BSD-2-Clause-Patent",
        41 => "BSD-3-Clause",
        42 => "BSD-3-Clause-Attribution",
        43 => "BSD-3-Clause-Clear",
        44 => "BSD-3-Clause-LBNL",
        45 => "BSD-3-Clause-No-Nuclear-License",
        46 => "BSD-3-Clause-No-Nuclear-License-2014",
        47 => "BSD-3-Clause-No-Nuclear-Warranty",
        48 => "BSD-3-Clause-Open-MPI",
        49 => "BSD-4-Clause",
        50 => "BSD-4-Clause-UC",
        51 => "BSD-Protection",
        52 => "BSD-Source-Code",
        53 => "BSL-1.0",
        54 => "Bahyph",
        55 => "Barr",
        56 => "Beerware",
        57 => "BitTorrent-1.0",
        58 => "BitTorrent-1.1",
        59 => "BlueOak-1.0.0",
        60 => "Borceux",
        61 => "CATOSL-1.1",
        62 => "CC-BY-1.0",
        63 => "CC-BY-2.0",
        64 => "CC-BY-2.5",
        65 => "CC-BY-3.0",
        66 => "CC-BY-4.0",
        67 => "CC-BY-NC-1.0",
        68 => "CC-BY-NC-2.0",
        69 => "CC-BY-NC-2.5",
        70 => "CC-BY-NC-3.0",
        71 => "CC-BY-NC-4.0",
        72 => "CC-BY-NC-ND-1.0",
        73 => "CC-BY-NC-ND-2.0",
        74 => "CC-BY-NC-ND-2.5",
        75 => "CC-BY-NC-ND-3.0",
        76 => "CC-BY-NC-ND-4.0",
        77 => "CC-BY-NC-SA-1.0",
        78 => "CC-BY-NC-SA-2.0",
        79 => "CC-BY-NC-SA-2.5",
        80 => "CC-BY-NC-SA-3.0",
        81 => "CC-BY-NC-SA-4.0",
        82 => "CC-BY-ND-1.0",
        83 => "CC-BY-ND-2.0",
        84 => "CC-BY-ND-2.5",
        85 => "CC-BY-ND-3.0",
        86 => "CC-BY-ND-4.0",
        87 => "CC-BY-SA-1.0",
        88 => "CC-BY-SA-2.0",
        89 => "CC-BY-SA-2.5",
        90 => "CC-BY-SA-3.0",
        91 => "CC-BY-SA-4.0",
        92 => "CC-PDDC",
        93 => "CC0-1.0",
        94 => "CDDL-1.0",
        95 => "CDDL-1.1",
        96 => "CDLA-Permissive-1.0",
        97 => "CDLA-Sharing-1.0",
        98 => "CECILL-1.0",
        99 => "CECILL-1.1",
        100 => "CECILL-2.0",
        101 => "CECILL-2.1",
        102 => "CECILL-B",
        103 => "CECILL-C",
        104 => "CERN-OHL-1.1",
        105 => "CERN-OHL-1.2",
        106 => "CNRI-Jython",
        107 => "CNRI-Python",
        108 => "CNRI-Python-GPL-Compatible",
        109 => "CPAL-1.0",
        110 => "CPL-1.0",
        111 => "CPOL-1.02",
        112 => "CUA-OPL-1.0",
        113 => "Caldera",
        114 => "ClArtistic",
        115 => "Condor-1.1",
        116 => "Crossword",
        117 => "CrystalStacker",
        118 => "Cube",
        119 => "D-FSL-1.0",
        120 => "DOC",
        121 => "DSDP",
        122 => "Dotseqn",
        123 => "ECL-1.0",
        124 => "ECL-2.0",
        125 => "EFL-1.0",
        126 => "EFL-2.0",
        127 => "EPL-1.0",
        128 => "EPL-2.0",
        129 => "EUDatagrid",
        130 => "EUPL-1.0",
        131 => "EUPL-1.1",
        132 => "EUPL-1.2",
        133 => "Entessa",
        134 => "ErlPL-1.1",
        135 => "Eurosym",
        136 => "FSFAP",
        137 => "FSFUL",
        138 => "FSFULLR",
        139 => "FTL",
        140 => "Fair",
        141 => "Frameworx-1.0",
        142 => "FreeImage",
        143 => "GFDL-1.1",
        144 => "GFDL-1.1-invariants",
        145 => "GFDL-1.1-invariants-only",
        146 => "GFDL-1.1-invariants-or-later",
        147 => "GFDL-1.1-no-invariants-only",
        148 => "GFDL-1.1-no-invariants-or-later",
        149 => "GFDL-1.1-only",
        150 => "GFDL-1.1-or-later",
        151 => "GFDL-1.2",
        152 => "GFDL-1.2-invariants",
        153 => "GFDL-1.2-invariants-only",
        154 => "GFDL-1.2-invariants-or-later",
        155 => "GFDL-1.2-no-invariants-only",
        156 => "GFDL-1.2-no-invariants-or-later",
        157 => "GFDL-1.2-only",
        158 => "GFDL-1.2-or-later",
        159 => "GFDL-1.3",
        160 => "GFDL-1.3-invariants",
        161 => "GFDL-1.3-invariants-only",
        162 => "GFDL-1.3-invariants-or-later",
        163 => "GFDL-1.3-no-invariants-only",
        164 => "GFDL-1.3-no-invariants-or-later",
        165 => "GFDL-1.3-only",
        166 => "GFDL-1.3-or-later",
        167 => "GL2PS",
        168 => "GPL-1.0",
        169 => "GPL-1.0+",
        170 => "GPL-1.0-only",
        171 => "GPL-1.0-or-later",
        172 => "GPL-2.0",
        173 => "GPL-2.0+",
        174 => "GPL-2.0-only",
        175 => "GPL-2.0-or-later",
        176 => "GPL-2.0-with-GCC-exception",
        177 => "GPL-2.0-with-autoconf-exception",
        178 => "GPL-2.0-with-bison-exception",
        179 => "GPL-2.0-with-classpath-exception",
        180 => "GPL-2.0-with-font-exception",
        181 => "GPL-3.0",
        182 => "GPL-3.0+",
        183 => "GPL-3.0-only",
        184 => "GPL-3.0-or-later",
        185 => "GPL-3.0-with-GCC-exception",
        186 => "GPL-3.0-with-autoconf-exception",
        187 => "Giftware",
        188 => "Glide",
        189 => "Glulxe",
        190 => "HPND",
        191 => "HPND-sell-variant",
        192 => "HaskellReport",
        193 => "IBM-pibs",
        194 => "ICU",
        195 => "IJG",
        196 => "IPA",
        197 => "IPL-1.0",
        198 => "ISC",
        199 => "ImageMagick",
        200 => "Imlib2",
        201 => "Info-ZIP",
        202 => "Intel",
        203 => "Intel-ACPI",
        204 => "Interbase-1.0",
        205 => "JPNIC",
        206 => "JSON",
        207 => "JasPer-2.0",
        208 => "LAL-1.2",
        209 => "LAL-1.3",
        210 => "LGPL-2.0",
        211 => "LGPL-2.0+",
        212 => "LGPL-2.0-only",
        213 => "LGPL-2.0-or-later",
        214 => "LGPL-2.1",
        215 => "LGPL-2.1+",
        216 => "LGPL-2.1-only",
        217 => "LGPL-2.1-or-later",
        218 => "LGPL-3.0",
        219 => "LGPL-3.0+",
        220 => "LGPL-3.0-only",
        221 => "LGPL-3.0-or-later",
        222 => "LGPLLR",
        223 => "LPL-1.0",
        224 => "LPL-1.02",
        225 => "LPPL-1.0",
        226 => "LPPL-1.1",
        227 => "LPPL-1.2",
        228 => "LPPL-1.3a",
        229 => "LPPL-1.3c",
        230 => "Latex2e",
        231 => "Leptonica",
        232 => "LiLiQ-P-1.1",
        233 => "LiLiQ-R-1.1",
        234 => "LiLiQ-Rplus-1.1",
        235 => "Libpng",
        236 => "Linux-OpenIB",
        237 => "MIT",
        238 => "MIT-0",
        239 => "MIT-CMU",
        240 => "MIT-advertising",
        241 => "MIT-enna",
        242 => "MIT-feh",
        243 => "MITNFA",
        244 => "MPL-1.0",
        245 => "MPL-1.1",
        246 => "MPL-2.0",
        247 => "MPL-2.0-no-copyleft-exception",
        248 => "MS-PL",
        249 => "MS-RL",
        250 => "MTLL",
        251 => "MakeIndex",
        252 => "MirOS",
        253 => "Motosoto",
        254 => "Multics",
        255 => "Mup",
        256 => "NASA-1.3",
        257 => "NBPL-1.0",
        258 => "NCSA",
        259 => "NGPL",
        260 => "NLOD-1.0",
        261 => "NLPL",
        262 => "NOASSERTION",
        263 => "NOSL",
        264 => "NPL-1.0",
        265 => "NPL-1.1",
        266 => "NPOSL-3.0",
        267 => "NRL",
        268 => "NTP",
        269 => "Naumen",
        270 => "Net-SNMP",
        271 => "NetCDF",
        272 => "Newsletr",
        273 => "Nokia",
        274 => "Noweb",
        275 => "Nunit",
        276 => "OCCT-PL",
        277 => "OCLC-2.0",
        278 => "ODC-By-1.0",
        279 => "ODbL-1.0",
        280 => "OFL-1.0",
        281 => "OFL-1.1",
        282 => "OGL-UK-1.0",
        283 => "OGL-UK-2.0",
        284 => "OGL-UK-3.0",
        285 => "OGTSL",
        286 => "OLDAP-1.1",
        287 => "OLDAP-1.2",
        288 => "OLDAP-1.3",
        289 => "OLDAP-1.4",
        290 => "OLDAP-2.0",
        291 => "OLDAP-2.0.1",
        292 => "OLDAP-2.1",
        293 => "OLDAP-2.2",
        294 => "OLDAP-2.2.1",
        295 => "OLDAP-2.2.2",
        296 => "OLDAP-2.3",
        297 => "OLDAP-2.4",
        298 => "OLDAP-2.5",
        299 => "OLDAP-2.6",
        300 => "OLDAP-2.7",
        301 => "OLDAP-2.8",
        302 => "OML",
        303 => "OPL-1.0",
        304 => "OSET-PL-2.1",
        305 => "OSL-1.0",
        306 => "OSL-1.1",
        307 => "OSL-2.0",
        308 => "OSL-2.1",
        309 => "OSL-3.0",
        310 => "OpenSSL",
        311 => "PDDL-1.0",
        312 => "PHP-3.0",
        313 => "PHP-3.01",
        314 => "Parity-6.0.0",
        315 => "Plexus",
        316 => "PostgreSQL",
        317 => "Python-2.0",
        318 => "QPL-1.0",
        319 => "Qhull",
        320 => "RHeCos-1.1",
        321 => "RPL-1.1",
        322 => "RPL-1.5",
        323 => "RPSL-1.0",
        324 => "RSA-MD",
        325 => "RSCPL",
        326 => "Rdisc",
        327 => "Ruby",
        328 => "SAX-PD",
        329 => "SCEA",
        330 => "SGI-B-1.0",
        331 => "SGI-B-1.1",
        332 => "SGI-B-2.0",
        333 => "SHL-0.5",
        334 => "SHL-0.51",
        335 => "SISSL",
        336 => "SISSL-1.2",
        337 => "SMLNJ",
        338 => "SMPPL",
        339 => "SNIA",
        340 => "SPL-1.0",
        341 => "SSPL-1.0",
        342 => "SWL",
        343 => "Saxpath",
        344 => "Sendmail",
        345 => "Sendmail-8.23",
        346 => "SimPL-2.0",
        347 => "Sleepycat",
        348 => "Spencer-86",
        349 => "Spencer-94",
        350 => "Spencer-99",
        351 => "StandardML-NJ",
        352 => "SugarCRM-1.1.3",
        353 => "TAPR-OHL-1.0",
        354 => "TCL",
        355 => "TCP-wrappers",
        356 => "TMate",
        357 => "TORQUE-1.1",
        358 => "TOSL",
        359 => "TU-Berlin-1.0",
        360 => "TU-Berlin-2.0",
        361 => "UPL-1.0",
        362 => "Unicode-DFS-2015",
        363 => "Unicode-DFS-2016",
        364 => "Unicode-TOU",
        365 => "Unlicense",
        366 => "VOSTROM",
        367 => "VSL-1.0",
        368 => "Vim",
        369 => "W3C",
        370 => "W3C-19980720",
        371 => "W3C-20150513",
        372 => "WTFPL",
        373 => "Watcom-1.0",
        374 => "Wsuipa",
        375 => "X11",
        376 => "XFree86-1.1",
        377 => "XSkat",
        378 => "Xerox",
        379 => "Xnet",
        380 => "YPL-1.0",
        381 => "YPL-1.1",
        382 => "ZPL-1.1",
        383 => "ZPL-2.0",
        384 => "ZPL-2.1",
        385 => "Zed",
        386 => "Zend-2.0",
        387 => "Zimbra-1.3",
        388 => "Zimbra-1.4",
        389 => "Zlib",
        390 => "blessing",
        391 => "bzip2-1.0.5",
        392 => "bzip2-1.0.6",
        393 => "copyleft-next-0.3.0",
        394 => "copyleft-next-0.3.1",
        395 => "curl",
        396 => "diffmark",
        397 => "dvipdfm",
        398 => "eCos-2.0",
        399 => "eGenix",
        400 => "gSOAP-1.3b",
        401 => "gnuplot",
        402 => "iMatix",
        403 => "libpng-2.0",
        404 => "libtiff",
        405 => "mpich2",
        406 => "psfrag",
        407 => "psutils",
        408 => "wxWindows",
        409 => "xinetd",
        410 => "xpp",
        411 => "zlib-acknowledgement",
        _ => "",
    }
}

/// The full name of the license at `index`.
pub open spec fn license_full_name(index: usize) -> &'static str {
    match index {
        0 => "BSD Zero Clause License",
        1 => "Attribution Assurance License",
        2 => "Amazon Digital Services License",
        3 => "Academic Free License v1.1",
        4 => "Academic Free License v1.2",
        5 => "Academic Free License v2.0",
        6 => "Academic Free License v2.1",
        7 => "Academic Free License v3.0",
        8 => "Affero General Public License v1.0",
        9 => "Affero General Public License v1.0 only",
        10 => "Affero General Public License v1.0 or later",
        11 => "GNU Affero General Public License v3.0",
        12 => "GNU Affero General Public License v3.0 only",
        13 => "GNU Affero General Public License v3.0 or later",
        14 => "AMD's plpa_map.c License",
        15 => "Apple MIT License",
        16 => "Academy of Motion Picture Arts and Sciences BSD",
        17 => "ANTLR Software Rights Notice",
        18 => "Adobe Postscript AFM License",
        19 => "Adaptive Public License 1.0",
        20 => "Apple Public Source License 1.0",
        21 => "Apple Public Source License 1.1",
        22 => "Apple Public Source License 1.2",
        23 => "Apple Public Source License 2.0",
        24 => "Abstyles License",
        25 => "Adobe Systems Incorporated Source Code License Agreement",
        26 => "Adobe Glyph List License",
        27 => "Afmparse License",
        28 => "Aladdin Free Public License",
        29 => "Apache License 1.0",
        30 => "Apache License 1.1",
        31 => "Apache License 2.0",
        32 => "Artistic License 1.0",
        33 => "Artistic License 1.0 (Perl)",
        34 => "Artistic License 1.0 w/clause 8",
        35 => "Artistic License 2.0",
        36 => "BSD 1-Clause License",
        37 => "BSD 2-Clause \"Simplified\" License",
        38 => "BSD 2-Clause FreeBSD License",
        39 => "BSD 2-Clause NetBSD License",
        40 => "BSD-2-Clause Plus Patent License",
        41 => "BSD 3-Clause \"New\" or \"Revised\" License",
        42 => "BSD with attribution",
        43 => "BSD 3-Clause Clear License",
        44 => "Lawrence Berkeley National Labs BSD variant license",
        45 => "BSD 3-Clause No Nuclear License",
        46 => "BSD 3-Clause No Nuclear License 2014",
        47 => "BSD 3-Clause No Nuclear Warranty",
        48 => "BSD 3-Clause Open MPI variant",
        49 => "BSD 4-Clause \"Original\" or \"Old\" License",
        50 => "BSD-4-Clause (University of California-Specific)",
        51 => "BSD Protection License",
        52 => "BSD Source Code Attribution",
        53 => "Boost Software License 1.0",
        54 => "Bahyph License",
        55 => "Barr License",
        56 => "Beerware License",
        57 => "BitTorrent Open Source License v1.0",
        58 => "BitTorrent Open Source License v1.1",
        59 => "Blue Oak Model License 1.0.0",
        60 => "Borceux license",
        61 => "Computer Associates Trusted Open Source License 1.1",
        62 => "Creative Commons Attribution 1.0 Generic",
        63 => "Creative Commons Attribution 2.0 Generic",
        64 => "Creative Commons Attribution 2.5 Generic",
        65 => "Creative Commons Attribution 3.0 Unported",
        66 => "Creative Commons Attribution 4.0 International",
        67 => "Creative Commons Attribution Non Commercial 1.0 Generic",
        68 => "Creative Commons Attribution Non Commercial 2.0 Generic",
        69 => "Creative Commons Attribution Non Commercial 2.5 Generic",
        70 => "Creative Commons Attribution Non Commercial 3.0 Unported",
        71 => "Creative Commons Attribution Non Commercial 4.0 International",
        72 => "Creative Commons Attribution Non Commercial No Derivatives 1.0 Generic",
        73 => "Creative Commons Attribution Non Commercial No Derivatives 2.0 Generic",
        74 => "Creative Commons Attribution Non Commercial No Derivatives 2.5 Generic",
        75 => "Creative Commons Attribution Non Commercial No Derivatives 3.0 Unported",
        76 => "Creative Commons Attribution Non Commercial No Derivatives 4.0 International",
        77 => "Creative Commons Attribution Non Commercial Share Alike 1.0 Generic",
        78 => "Creative Commons Attribution Non Commercial Share Alike 2.0 Generic",
        79 => "Creative Commons Attribution Non Commercial Share Alike 2.5 Generic",
        80 => "Creative Commons Attribution Non Commercial Share Alike 3.0 Unported",
        81 => "Creative Commons Attribution Non Commercial Share Alike 4.0 International",
        82 => "Creative Commons Attribution No Derivatives 1.0 Generic",
        83 => "Creative Commons Attribution No Derivatives 2.0 Generic",
        84 => "Creative Commons Attribution No Derivatives 2.5 Generic",
        85 => "Creative Commons Attribution No Derivatives 3.0 Unported",
        86 => "Creative Commons Attribution No Derivatives 4.0 International",
        87 => "Creative Commons Attribution Share Alike 1.0 Generic",
        88 => "Creative Commons Attribution Share Alike 2.0 Generic",
        89 => "Creative Commons Attribution Share Alike 2.5 Generic",
        90 => "Creative Commons Attribution Share Alike 3.0 Unported",
        91 => "Creative Commons Attribution Share Alike 4.0 International",
        92 => "Creative Commons Public Domain Dedication and Certification",
        93 => "Creative Commons Zero v1.0 Universal",
        94 => "Common Development and Distribution License 1.0",
        95 => "Common Development and Distribution License 1.1",
        96 => "Community Data License Agreement Permissive 1.0",
        97 => "Community Data License Agreement Sharing 1.0",
        98 => "CeCILL Free Software License Agreement v1.0",
        99 => "CeCILL Free Software License Agreement v1.1",
        100 => "CeCILL Free Software License Agreement v2.0",
        101 => "CeCILL Free Software License Agreement v2.1",
        102 => "CeCILL-B Free Software License Agreement",
        103 => "CeCILL-C Free Software License Agreement",
        104 => "CERN Open Hardware License v1.1",
        105 => "CERN Open Hardware Licence v1.2",
        106 => "CNRI Jython License",
        107 => "CNRI Python License",
        108 => "CNRI Python Open Source GPL Compatible License Agreement",
        109 => "Common Public Attribution License 1.0",
        110 => "Common Public License 1.0",
        111 => "Code Project Open License 1.02",
        112 => "CUA Office Public License v1.0",
        113 => "Caldera License",
        114 => "Clarified Artistic License",
        115 => "Condor Public License v1.1",
        116 => "Crossword License",
        117 => "CrystalStacker License",
        118 => "Cube License",
        119 => "Deutsche Freie Software Lizenz",
        120 => "DOC License",
        121 => "DSDP License",
        122 => "Dotseqn License",
        123 => "Educational Community License v1.0",
        124 => "Educational Community License v2.0",
        125 => "Eiffel Forum License v1.0",
        126 => "Eiffel Forum License v2.0",
        127 => "Eclipse Public License 1.0",
        128 => "Eclipse Public License 2.0",
        129 => "EU DataGrid Software License",
        130 => "European Union Public License 1.0",
        131 => "European Union Public License 1.1",
        132 => "European Union Public License 1.2",
        133 => "Entessa Public License v1.0",
        134 => "Erlang Public License v1.1",
        135 => "Eurosym License",
        136 => "FSF All Permissive License",
        137 => "FSF Unlimited License",
        138 => "FSF Unlimited License (with License Retention)",
        139 => "Freetype Project License",
        140 => "Fair License",
        141 => "Frameworx Open License 1.0",
        142 => "FreeImage Public License v1.0",
        143 => "GNU Free Documentation License v1.1",
        144 => "GNU Free Documentation License v1.1 only - invariants",
        145 => "GNU Free Documentation License v1.1 only - invariants",
        146 => "GNU Free Documentation License v1.1 or later - invariants",
        147 => "GNU Free Documentation License v1.1 only - no invariants",
        148 => "GNU Free Documentation License v1.1 or later - no invariants",
        149 => "GNU Free Documentation License v1.1 only",
        150 => "GNU Free Documentation License v1.1 or later",
        151 => "GNU Free Documentation License v1.2",
        152 => "GNU Free Documentation License v1.2 only - invariants",
        153 => "GNU Free Documentation License v1.2 only - invariants",
        154 => "GNU Free Documentation License v1.2 or later - invariants",
        155 => "GNU Free Documentation License v1.2 only - no invariants",
        156 => "GNU Free Documentation License v1.2 or later - no invariants",
        157 => "GNU Free Documentation License v1.2 only",
        158 => "GNU Free Documentation License v1.2 or later",
        159 => "GNU Free Documentation License v1.3",
        160 => "GNU Free Documentation License v1.3 only - invariants",
        161 => "GNU Free Documentation License v1.3 only - invariants",
        162 => "GNU Free Documentation License v1.3 or later - invariants",
        163 => "GNU Free Documentation License v1.3 only - no invariants",
        164 => "GNU Free Documentation License v1.3 or later - no invariants",
        165 => "GNU Free Documentation License v1.3 only",
        166 => "GNU Free Documentation License v1.3 or later",
        167 => "GL2PS License",
        168 => "GNU General Public License v1.0 only",
        169 => "GNU General Public License v1.0 or later",
        170 => "GNU General Public License v1.0 only",
        171 => "GNU General Public License v1.0 or later",
        172 => "GNU General Public License v2.0 only",
        173 => "GNU General Public License v2.0 or later",
        174 => "GNU General Public License v2.0 only",
        175 => "GNU General Public License v2.0 or later",
        176 => "GNU General Public License v2.0 w/GCC Runtime Library exception",
        177 => "GNU General Public License v2.0 w/Autoconf exception",
        178 => "GNU General Public License v2.0 w/Bison exception",
        179 => "GNU General Public License v2.0 w/Classpath exception",
        180 => "GNU General Public License v2.0 w/Font exception",
        181 => "GNU General Public License v3.0 only",
        182 => "GNU General Public License v3.0 or later",
        183 => "GNU General Public License v3.0 only",
        184 => "GNU General Public License v3.0 or later",
        185 => "GNU General Public License v3.0 w/GCC Runtime Library exception",
        186 => "GNU General Public License v3.0 w/Autoconf exception",
        187 => "Giftware License",
        188 => "3dfx Glide License",
        189 => "Glulxe License",
        190 => "Historical Permission Notice and Disclaimer",
        191 => "Historical Permission Notice and Disclaimer - sell variant",
        192 => "Haskell Language Report License",
        193 => "IBM PowerPC Initialization and Boot Software",
        194 => "ICU License",
        195 => "Independent JPEG Group License",
        196 => "IPA Font License",
        197 => "IBM Public License v1.0",
        198 => "ISC License",
        199 => "ImageMagick License",
        200 => "Imlib2 License",
        201 => "Info-ZIP License",
        202 => "Intel Open Source License",
        203 => "Intel ACPI Software License Agreement",
        204 => "Interbase Public License v1.0",
        205 => "Japan Network Information Center License",
        206 => "JSON License",
        207 => "JasPer License",
        208 => "Licence Art Libre 1.2",
        209 => "Licence Art Libre 1.3",
        210 => "GNU Library General Public License v2 only",
        211 => "GNU Library General Public License v2 or later",
        212 => "GNU Library General Public License v2 only",
        213 => "GNU Library General Public License v2 or later",
        214 => "GNU Lesser General Public License v2.1 only",
        215 => "GNU Library General Public License v2.1 or later",
        216 => "GNU Lesser General Public License v2.1 only",
        217 => "GNU Lesser General Public License v2.1 or later",
        218 => "GNU Lesser General Public License v3.0 only",
        219 => "GNU Lesser General Public License v3.0 or later",
        220 => "GNU Lesser General Public License v3.0 only",
        221 => "GNU Lesser General Public License v3.0 or later",
        222 => "Lesser General Public License For Linguistic Resources",
        223 => "Lucent Public License Version 1.0",
        224 => "Lucent Public License v1.02",
        225 => "LaTeX Project Public License v1.0",
        226 => "LaTeX Project Public License v1.1",
        227 => "LaTeX Project Public License v1.2",
        228 => "LaTeX Project Public License v1.3a",
        229 => "LaTeX Project Public License v1.3c",
        230 => "Latex2e License",
        231 => "Leptonica License",
        232 => "Licence Libre du Qu\u{e9}bec \u{2013} Permissive version 1.1",
        233 => "Licence Libre du Qu\u{e9}bec \u{2013} R\u{e9}ciprocit\u{e9} version 1.1",
        234 => "Licence Libre du Qu\u{e9}bec \u{2013} R\u{e9}ciprocit\u{e9} forte version 1.1",
        235 => "libpng License",
        236 => "Linux Kernel Variant of OpenIB.org license",
        237 => "MIT License",
        238 => "MIT No Attribution",
        239 => "CMU License",
        240 => "Enlightenment License (e16)",
        241 => "enna License",
        242 => "feh License",
        243 => "MIT +no-false-attribs license",
        244 => "Mozilla Public License 1.0",
        245 => "Mozilla Public License 1.1",
        246 => "Mozilla Public License 2.0",
        247 => "Mozilla Public License 2.0 (no copyleft exception)",
        248 => "Microsoft Public License",
        249 => "Microsoft Reciprocal License",
        250 => "Matrix Template Library License",
        251 => "MakeIndex License",
        252 => "MirOS License",
        253 => "Motosoto License",
        254 => "Multics License",
        255 => "Mup License",
        256 => "NASA Open Source Agreement 1.3",
        257 => "Net Boolean Public License v1",
        258 => "University of Illinois/NCSA Open Source License",
        259 => "Nethack General Public License",
        260 => "Norwegian Licence for Open Government Data",
        261 => "No Limit Public License",
        262 => "NOASSERTION",
        263 => "Netizen Open Source License",
        264 => "Netscape Public License v1.0",
        265 => "Netscape Public License v1.1",
        266 => "Non-Profit Open Software License 3.0",
        267 => "NRL License",
        268 => "NTP License",
        269 => "Naumen Public License",
        270 => "Net-SNMP License",
        271 => "NetCDF license",
        272 => "Newsletr License",
        273 => "Nokia Open Source License",
        274 => "Noweb License",
        275 => "Nunit License",
        276 => "Open CASCADE Technology Public License",
        277 => "OCLC Research Public License 2.0",
        278 => "Open Data Commons Attribution License v1.0",
        279 => "ODC Open Database License v1.0",
        280 => "SIL Open Font License 1.0",
        281 => "SIL Open Font License 1.1",
        282 => "Open Government Licence v1.0",
        283 => "Open Government Licence v2.0",
        284 => "Open Government Licence v3.0",
        285 => "Open Group Test Suite License",
        286 => "Open LDAP Public License v1.1",
        287 => "Open LDAP Public License v1.2",
        288 => "Open LDAP Public License v1.3",
        289 => "Open LDAP Public License v1.4",
        290 => "Open LDAP Public License v2.0 (or possibly 2.0A and 2.0B)",
        291 => "Open LDAP Public License v2.0.1",
        292 => "Open LDAP Public License v2.1",
        293 => "Open LDAP Public License v2.2",
        294 => "Open LDAP Public License v2.2.1",
        295 => "Open LDAP Public License 2.2.2",
        296 => "Open LDAP Public License v2.3",
        297 => "Open LDAP Public License v2.4",
        298 => "Open LDAP Public License v2.5",
        299 => "Open LDAP Public License v2.6",
        300 => "Open LDAP Public License v2.7",
        301 => "Open LDAP Public License v2.8",
        302 => "Open Market License",
        303 => "Open Public License v1.0",
        304 => "OSET Public License version 2.1",
        305 => "Open Software License 1.0",
        306 => "Open Software License 1.1",
        307 => "Open Software License 2.0",
        308 => "Open Software License 2.1",
        309 => "Open Software License 3.0",
        310 => "OpenSSL License",
        311 => "ODC Public Domain Dedication & License 1.0",
        312 => "PHP License v3.0",
        313 => "PHP License v3.01",
        314 => "The Parity Public License 6.0.0",
        315 => "Plexus Classworlds License",
        316 => "PostgreSQL License",
        317 => "Python License 2.0",
        318 => "Q Public License 1.0",
        319 => "Qhull License",
        320 => "Red Hat eCos Public License v1.1",
        321 => "Reciprocal Public License 1.1",
        322 => "Reciprocal Public License 1.5",
        323 => "RealNetworks Public Source License v1.0",
        324 => "RSA Message-Digest License ",
        325 => "Ricoh Source Code Public License",
        326 => "Rdisc License",
        327 => "Ruby License",
        328 => "Sax Public Domain Notice",
        329 => "SCEA Shared Source License",
        330 => "SGI Free Software License B v1.0",
        331 => "SGI Free Software License B v1.1",
        332 => "SGI Free Software License B v2.0",
        333 => "Solderpad Hardware License v0.5",
        334 => "Solderpad Hardware License, Version 0.51",
        335 => "Sun Industry Standards Source License v1.1",
        336 => "Sun Industry Standards Source License v1.2",
        337 => "Standard ML of New Jersey License",
        338 => "Secure Messaging Protocol Public License",
        339 => "SNIA Public License 1.1",
        340 => "Sun Public License v1.0",
        341 => "Server Side Public License, v 1",
        342 => "Scheme Widget Library (SWL) Software License Agreement",
        343 => "Saxpath License",
        344 => "Sendmail License",
        345 => "Sendmail License 8.23",
        346 => "Simple Public License 2.0",
        347 => "Sleepycat License",
        348 => "Spencer License 86",
        349 => "Spencer License 94",
        350 => "Spencer License 99",
        351 => "Standard ML of New Jersey License",
        352 => "SugarCRM Public License v1.1.3",
        353 => "TAPR Open Hardware License v1.0",
        354 => "TCL/TK License",
        355 => "TCP Wrappers License",
        356 => "TMate Open Source License",
        357 => "TORQUE v2.5+ Software License v1.1",
        358 => "Trusster Open Source License",
        359 => "Technische Universitaet Berlin License 1.0",
        360 => "Technische Universitaet Berlin License 2.0",
        361 => "Universal Permissive License v1.0",
        362 => "Unicode License Agreement - Data Files and Software (2015)",
        363 => "Unicode License Agreement - Data Files and Software (2016)",
        364 => "Unicode Terms of Use",
        365 => "The Unlicense",
        366 => "VOSTROM Public License for Open Source",
        367 => "Vovida Software License v1.0",
        368 => "Vim License",
        369 => "W3C Software Notice and License (2002-12-31)",
        370 => "W3C Software Notice and License (1998-07-20)",
        371 => "W3C Software Notice and Document License (2015-05-13)",
        372 => "Do What The F*ck You Want To Public License",
        373 => "Sybase Open Watcom Public License 1.0",
        374 => "Wsuipa License",
        375 => "X11 License",
        376 => "XFree86 License 1.1",
        377 => "XSkat License",
        378 => "Xerox License",
        379 => "X.Net License",
        380 => "Yahoo! Public License v1.0",
        381 => "Yahoo! Public License v1.1",
        382 => "Zope Public License 1.1",
        383 => "Zope Public License 2.0",
        384 => "Zope Public License 2.1",
        385 => "Zed License",
        386 => "Zend License v2.0",
        387 => "Zimbra Public License v1.3",
        388 => "Zimbra Public License v1.4",
        389 => "zlib License",
        390 => "SQLite Blessing",
        391 => "bzip2 and libbzip2 License v1.0.5",
        392 => "bzip2 and libbzip2 License v1.0.6",
        393 => "copyleft-next 0.3.0",
        394 => "copyleft-next 0.3.1",
        395 => "curl License",
        396 => "diffmark license",
        397 => "dvipdfm License",
        398 => "eCos license version 2.0",
        399 => "eGenix.com Public License 1.1.0",
        400 => "gSOAP Public License v1.3b",
        401 => "gnuplot License",
        402 => "iMatix Standard Function Library Agreement",
        403 => "PNG Reference Library version 2",
        404 => "libtiff License",
        405 => "mpich2 License",
        406 => "psfrag License",
        407 => "psutils License",
        408 => "wxWindows Library License",
        409 => "xinetd License",
        410 => "XPP License",
        411 => "zlib/libpng License with Acknowledgement",
        _ => "",
    }
}

pub fn license_full_name_at(index: usize) -> (r: &'static str)
    ensures
        r == license_full_name(index),
{
    match index {
        0 => "BSD Zero Clause License",
        1 => "Attribution Assurance License",
        2 => "Amazon Digital Services License",
        3 => "Academic Free License v1.1",
        4 => "Academic Free License v1.2",
        5 => "Academic Free License v2.0",
        6 => "Academic Free License v2.1",
        7 => "Academic Free License v3.0",
        8 => "Affero General Public License v1.0",
        9 => "Affero General Public License v1.0 only",
        10 => "Affero General Public License v1.0 or later",
        11 => "GNU Affero General Public License v3.0",
        12 => "GNU Affero General Public License v3.0 only",
        13 => "GNU Affero General Public License v3.0 or later",
        14 => "AMD's plpa_map.c License",
        15 => "Apple MIT License",
        16 => "Academy of Motion Picture Arts and Sciences BSD",
        17 => "ANTLR Software Rights Notice",
        18 => "Adobe Postscript AFM License",
        19 => "Adaptive Public License 1.0",
        20 => "Apple Public Source License 1.0",
        21 => "Apple Public Source License 1.1",
        22 => "Apple Public Source License 1.2",
        23 => "Apple Public Source License 2.0",
        24 => "Abstyles License",
        25 => "Adobe Systems Incorporated Source Code License Agreement",
        26 => "Adobe Glyph List License",
        27 => "Afmparse License",
        28 => "Aladdin Free Public License",
        29 => "Apache License 1.0",
        30 => "Apache License 1.1",
        31 => "Apache License 2.0",
        32 => "Artistic License 1.0",
        33 => "Artistic License 1.0 (Perl)",
        34 => "Artistic License 1.0 w/clause 8",
        35 => "Artistic License 2.0",
        36 => "BSD 1-Clause License",
        37 => "BSD 2-Clause \"Simplified\" License",
        38 => "BSD 2-Clause FreeBSD License",
        39 => "BSD 2-Clause NetBSD License",
        40 => "BSD-2-Clause Plus Patent License",
        41 => "BSD 3-Clause \"New\" or \"Revised\" License",
        42 => "BSD with attribution",
        43 => "BSD 3-Clause Clear License",
        44 => "Lawrence Berkeley National Labs BSD variant license",
        45 => "BSD 3-Clause No Nuclear License",
        46 => "BSD 3-Clause No Nuclear License 2014",
        47 => "BSD 3-Clause No Nuclear Warranty",
        48 => "BSD 3-Clause Open MPI variant",
        49 => "BSD 4-Clause \"Original\" or \"Old\" License",
        50 => "BSD-4-Clause (University of California-Specific)",
        51 => "BSD Protection License",
        52 => "BSD Source Code Attribution",
        53 => "Boost Software License 1.0",
        54 => "Bahyph License",
        55 => "Barr License",
        56 => "Beerware License",
        57 => "BitTorrent Open Source License v1.0",
        58 => "BitTorrent Open Source License v1.1",
        59 => "Blue Oak Model License 1.0.0",
        60 => "Borceux license",
        61 => "Computer Associates Trusted Open Source License 1.1",
        62 => "Creative Commons Attribution 1.0 Generic",
        63 => "Creative Commons Attribution 2.0 Generic",
        64 => "Creative Commons Attribution 2.5 Generic",
        65 => "Creative Commons Attribution 3.0 Unported",
        66 => "Creative Commons Attribution 4.0 International",
        67 => "Creative Commons Attribution Non Commercial 1.0 Generic",
        68 => "Creative Commons Attribution Non Commercial 2.0 Generic",
        69 => "Creative Commons Attribution Non Commercial 2.5 Generic",
        70 => "Creative Commons Attribution Non Commercial 3.0 Unported",
        71 => "Creative Commons Attribution Non Commercial 4.0 International",
        72 => "Creative Commons Attribution Non Commercial No Derivatives 1.0 Generic",
        73 => "Creative Commons Attribution Non Commercial No Derivatives 2.0 Generic",
        74 => "Creative Commons Attribution Non Commercial No Derivatives 2.5 Generic",
        75 => "Creative Commons Attribution Non Commercial No Derivatives 3.0 Unported",
        76 => "Creative Commons Attribution Non Commercial No Derivatives 4.0 International",
        77 => "Creative Commons Attribution Non Commercial Share Alike 1.0 Generic",
        78 => "Creative Commons Attribution Non Commercial Share Alike 2.0 Generic",
        79 => "Creative Commons Attribution Non Commercial Share Alike 2.5 Generic",
        80 => "Creative Commons Attribution Non Commercial Share Alike 3.0 Unported",
        81 => "Creative Commons Attribution Non Commercial Share Alike 4.0 International",
        82 => "Creative Commons Attribution No Derivatives 1.0 Generic",
        83 => "Creative Commons Attribution No Derivatives 2.0 Generic",
        84 => "Creative Commons Attribution No Derivatives 2.5 Generic",
        85 => "Creative Commons Attribution No Derivatives 3.0 Unported",
        86 => "Creative Commons Attribution No Derivatives 4.0 International",
        87 => "Creative Commons Attribution Share Alike 1.0 Generic",
        88 => "Creative Commons Attribution Share Alike 2.0 Generic",
        89 => "Creative Commons Attribution Share Alike 2.5 Generic",
        90 => "Creative Commons Attribution Share Alike 3.0 Unported",
        91 => "Creative Commons Attribution Share Alike 4.0 International",
        92 => "Creative Commons Public Domain Dedication and Certification",
        93 => "Creative Commons Zero v1.0 Universal",
        94 => "Common Development and Distribution License 1.0",
        95 => "Common Development and Distribution License 1.1",
        96 => "Community Data License Agreement Permissive 1.0",
        97 => "Community Data License Agreement Sharing 1.0",
        98 => "CeCILL Free Software License Agreement v1.0",
        99 => "CeCILL Free Software License Agreement v1.1",
        100 => "CeCILL Free Software License Agreement v2.0",
        101 => "CeCILL Free Software License Agreement v2.1",
        102 => "CeCILL-B Free Software License Agreement",
        103 => "CeCILL-C Free Software License Agreement",
        104 => "CERN Open Hardware License v1.1",
        105 => "CERN Open Hardware Licence v1.2",
        106 => "CNRI Jython License",
        107 => "CNRI Python License",
        108 => "CNRI Python Open Source GPL Compatible License Agreement",
        109 => "Common Public Attribution License 1.0",
        110 => "Common Public License 1.0",
        111 => "Code Project Open License 1.02",
        112 => "CUA Office Public License v1.0",
        113 => "Caldera License",
        114 => "Clarified Artistic License",
        115 => "Condor Public License v1.1",
        116 => "Crossword License",
        117 => "CrystalStacker License",
        118 => "Cube License",
        119 => "Deutsche Freie Software Lizenz",
        120 => "DOC License",
        121 => "DSDP License",
        122 => "Dotseqn License",
        123 => "Educational Community License v1.0",
        124 => "Educational Community License v2.0",
        125 => "Eiffel Forum License v1.0",
        126 => "Eiffel Forum License v2.0",
        127 => "Eclipse Public License 1.0",
        128 => "Eclipse Public License 2.0",
        129 => "EU DataGrid Software License",
        130 => "European Union Public License 1.0",
        131 => "European Union Public License 1.1",
        132 => "European Union Public License 1.2",
        133 => "Entessa Public License v1.0",
        134 => "Erlang Public License v1.1",
        135 => "Eurosym License",
        136 => "FSF All Permissive License",
        137 => "FSF Unlimited License",
        138 => "FSF Unlimited License (with License Retention)",
        139 => "Freetype Project License",
        140 => "Fair License",
        141 => "Frameworx Open License 1.0",
        142 => "FreeImage Public License v1.0",
        143 => "GNU Free Documentation License v1.1",
        144 => "GNU Free Documentation License v1.1 only - invariants",
        145 => "GNU Free Documentation License v1.1 only - invariants",
        146 => "GNU Free Documentation License v1.1 or later - invariants",
        147 => "GNU Free Documentation License v1.1 only - no invariants",
        148 => "GNU Free Documentation License v1.1 or later - no invariants",
        149 => "GNU Free Documentation License v1.1 only",
        150 => "GNU Free Documentation License v1.1 or later",
        151 => "GNU Free Documentation License v1.2",
        152 => "GNU Free Documentation License v1.2 only - invariants",
        153 => "GNU Free Documentation License v1.2 only - invariants",
        154 => "GNU Free Documentation License v1.2 or later - invariants",
        155 => "GNU Free Documentation License v1.2 only - no invariants",
        156 => "GNU Free Documentation License v1.2 or later - no invariants",
        157 => "GNU Free Documentation License v1.2 only",
        158 => "GNU Free Documentation License v1.2 or later",
        159 => "GNU Free Documentation License v1.3",
        160 => "GNU Free Documentation License v1.3 only - invariants",
        161 => "GNU Free Documentation License v1.3 only - invariants",
        162 => "GNU Free Documentation License v1.3 or later - invariants",
        163 => "GNU Free Documentation License v1.3 only - no invariants",
        164 => "GNU Free Documentation License v1.3 or later - no invariants",
        165 => "GNU Free Documentation License v1.3 only",
        166 => "GNU Free Documentation License v1.3 or later",
        167 => "GL2PS License",
        168 => "GNU General Public License v1.0 only",
        169 => "GNU General Public License v1.0 or later",
        170 => "GNU General Public License v1.0 only",
        171 => "GNU General Public License v1.0 or later",
        172 => "GNU General Public License v2.0 only",
        173 => "GNU General Public License v2.0 or later",
        174 => "GNU General Public License v2.0 only",
        175 => "GNU General Public License v2.0 or later",
        176 => "GNU General Public License v2.0 w/GCC Runtime Library exception",
        177 => "GNU General Public License v2.0 w/Autoconf exception",
        178 => "GNU General Public License v2.0 w/Bison exception",
        179 => "GNU General Public License v2.0 w/Classpath exception",
        180 => "GNU General Public License v2.0 w/Font exception",
        181 => "GNU General Public License v3.0 only",
        182 => "GNU General Public License v3.0 or later",
        183 => "GNU General Public License v3.0 only",
        184 => "GNU General Public License v3.0 or later",
        185 => "GNU General Public License v3.0 w/GCC Runtime Library exception",
        186 => "GNU General Public License v3.0 w/Autoconf exception",
        187 => "Giftware License",
        188 => "3dfx Glide License",
        189 => "Glulxe License",
        190 => "Historical Permission Notice and Disclaimer",
        191 => "Historical Permission Notice and Disclaimer - sell variant",
        192 => "Haskell Language Report License",
        193 => "IBM PowerPC Initialization and Boot Software",
        194 => "ICU License",
        195 => "Independent JPEG Group License",
        196 => "IPA Font License",
        197 => "IBM Public License v1.0",
        198 => "ISC License",
        199 => "ImageMagick License",
        200 => "Imlib2 License",
        201 => "Info-ZIP License",
        202 => "Intel Open Source License",
        203 => "Intel ACPI Software License Agreement",
        204 => "Interbase Public License v1.0",
        205 => "Japan Network Information Center License",
        206 => "JSON License",
        207 => "JasPer License",
        208 => "Licence Art Libre 1.2",
        209 => "Licence Art Libre 1.3",
        210 => "GNU Library General Public License v2 only",
        211 => "GNU Library General Public License v2 or later",
        212 => "GNU Library General Public License v2 only",
        213 => "GNU Library General Public License v2 or later",
        214 => "GNU Lesser General Public License v2.1 only",
        215 => "GNU Library General Public License v2.1 or later",
        216 => "GNU Lesser General Public License v2.1 only",
        217 => "GNU Lesser General Public License v2.1 or later",
        218 => "GNU Lesser General Public License v3.0 only",
        219 => "GNU Lesser General Public License v3.0 or later",
        220 => "GNU Lesser General Public License v3.0 only",
        221 => "GNU Lesser General Public License v3.0 or later",
        222 => "Lesser General Public License For Linguistic Resources",
        223 => "Lucent Public License Version 1.0",
        224 => "Lucent Public License v1.02",
        225 => "LaTeX Project Public License v1.0",
        226 => "LaTeX Project Public License v1.1",
        227 => "LaTeX Project Public License v1.2",
        228 => "LaTeX Project Public License v1.3a",
        229 => "LaTeX Project Public License v1.3c",
        230 => "Latex2e License",
        231 => "Leptonica License",
        232 => "Licence Libre du Qu\u{e9}bec \u{2013} Permissive version 1.1",
        233 => "Licence Libre du Qu\u{e9}bec \u{2013} R\u{e9}ciprocit\u{e9} version 1.1",
        234 => "Licence Libre du Qu\u{e9}bec \u{2013} R\u{e9}ciprocit\u{e9} forte version 1.1",
        235 => "libpng License",
        236 => "Linux Kernel Variant of OpenIB.org license",
        237 => "MIT License",
        238 => "MIT No Attribution",
        239 => "CMU License",
        240 => "Enlightenment License (e16)",
        241 => "enna License",
        242 => "feh License",
        243 => "MIT +no-false-attribs license",
        244 => "Mozilla Public License 1.0",
        245 => "Mozilla Public License 1.1",
        246 => "Mozilla Public License 2.0",
        247 => "Mozilla Public License 2.0 (no copyleft exception)",
        248 => "Microsoft Public License",
        249 => "Microsoft Reciprocal License",
        250 => "Matrix Template Library License",
        251 => "MakeIndex License",
        252 => "MirOS License",
        253 => "Motosoto License",
        254 => "Multics License",
        255 => "Mup License",
        256 => "NASA Open Source Agreement 1.3",
        257 => "Net Boolean Public License v1",
        258 => "University of Illinois/NCSA Open Source License",
        259 => "Nethack General Public License",
        260 => "Norwegian Licence for Open Government Data",
        261 => "No Limit Public License",
        262 => "NOASSERTION",
        263 => "Netizen Open Source License",
        264 => "Netscape Public License v1.0",
        265 => "Netscape Public License v1.1",
        266 => "Non-Profit Open Software License 3.0",
        267 => "NRL License",
        268 => "NTP License",
        269 => "Naumen Public License",
        270 => "Net-SNMP License",
        271 => "NetCDF license",
        272 => "Newsletr License",
        273 => "Nokia Open Source License",
        274 => "Noweb License",
        275 => "Nunit License",
        276 => "Open CASCADE Technology Public License",
        277 => "OCLC Research Public License 2.0",
        278 => "Open Data Commons Attribution License v1.0",
        279 => "ODC Open Database License v1.0",
        280 => "SIL Open Font License 1.0",
        281 => "SIL Open Font License 1.1",
        282 => "Open Government Licence v1.0",
        283 => "Open Government Licence v2.0",
        284 => "Open Government Licence v3.0",
        285 => "Open Group Test Suite License",
        286 => "Open LDAP Public License v1.1",
        287 => "Open LDAP Public License v1.2",
        288 => "Open LDAP Public License v1.3",
        289 => "Open LDAP Public License v1.4",
        290 => "Open LDAP Public License v2.0 (or possibly 2.0A and 2.0B)",
        291 => "Open LDAP Public License v2.0.1",
        292 => "Open LDAP Public License v2.1",
        293 => "Open LDAP Public License v2.2",
        294 => "Open LDAP Public License v2.2.1",
        295 => "Open LDAP Public License 2.2.2",
        296 => "Open LDAP Public License v2.3",
        297 => "Open LDAP Public License v2.4",
        298 => "Open LDAP Public License v2.5",
        299 => "Open LDAP Public License v2.6",
        300 => "Open LDAP Public License v2.7",
        301 => "Open LDAP Public License v2.8",
        302 => "Open Market License",
        303 => "Open Public License v1.0",
        304 => "OSET Public License version 2.1",
        305 => "Open Software License 1.0",
        306 => "Open Software License 1.1",
        307 => "Open Software License 2.0",
        308 => "Open Software License 2.1",
        309 => "Open Software License 3.0",
        310 => "OpenSSL License",
        311 => "ODC Public Domain Dedication & License 1.0",
        312 => "PHP License v3.0",
        313 => "PHP License v3.01",
        314 => "The Parity Public License 6.0.0",
        315 => "Plexus Classworlds License",
        316 => "PostgreSQL License",
        317 => "Python License 2.0",
        318 => "Q Public License 1.0",
        319 => "Qhull License",
        320 => "Red Hat eCos Public License v1.1",
        321 => "Reciprocal Public License 1.1",
        322 => "Reciprocal Public License 1.5",
        323 => "RealNetworks Public Source License v1.0",
        324 => "RSA Message-Digest License ",
        325 => "Ricoh Source Code Public License",
        326 => "Rdisc License",
        327 => "Ruby License",
        328 => "Sax Public Domain Notice",
        329 => "SCEA Shared Source License",
        330 => "SGI Free Software License B v1.0",
        331 => "SGI Free Software License B v1.1",
        332 => "SGI Free Software License B v2.0",
        333 => "Solderpad Hardware License v0.5",
        334 => "Solderpad Hardware License, Version 0.51",
        335 => "Sun Industry Standards Source License v1.1",
        336 => "Sun Industry Standards Source License v1.2",
        337 => "Standard ML of New Jersey License",
        338 => "Secure Messaging Protocol Public License",
        339 => "SNIA Public License 1.1",
        340 => "Sun Public License v1.0",
        341 => "Server Side Public License, v 1",
        342 => "Scheme Widget Library (SWL) Software License Agreement",
        343 => "Saxpath License",
        344 => "Sendmail License",
        345 => "Sendmail License 8.23",
        346 => "Simple Public License 2.0",
        347 => "Sleepycat License",
        348 => "Spencer License 86",
        349 => "Spencer License 94",
        350 => "Spencer License 99",
        351 => "Standard ML of New Jersey License",
        352 => "SugarCRM Public License v1.1.3",
        353 => "TAPR Open Hardware License v1.0",
        354 => "TCL/TK License",
        355 => "TCP Wrappers License",
        356 => "TMate Open Source License",
        357 => "TORQUE v2.5+ Software License v1.1",
        358 => "Trusster Open Source License",
        359 => "Technische Universitaet Berlin License 1.0",
        360 => "Technische Universitaet Berlin License 2.0",
        361 => "Universal Permissive License v1.0",
        362 => "Unicode License Agreement - Data Files and Software (2015)",
        363 => "Unicode License Agreement - Data Files and Software (2016)",
        364 => "Unicode Terms of Use",
        365 => "The Unlicense",
        366 => "VOSTROM Public License for Open Source",
        367 => "Vovida Software License v1.0",
        368 => "Vim License",
        369 => "W3C Software Notice and License (2002-12-31)",
        370 => "W3C Software Notice and License (1998-07-20)",
        371 => "W3C Software Notice and Document License (2015-05-13)",
        372 => "Do What The F*ck You Want To Public License",
        373 => "Sybase Open Watcom Public License 1.0",
        374 => "Wsuipa License",
        375 => "X11 License",
        376 => "XFree86 License 1.1",
        377 => "XSkat License",
        378 => "Xerox License",
        379 => "X.Net License",
        380 => "Yahoo! Public License v1.0",
        381 => "Yahoo! Public License v1.1",
        382 => "Zope Public License 1.1",
        383 => "Zope Public License 2.0",
        384 => "Zope Public License 2.1",
        385 => "Zed License",
        386 => "Zend License v2.0",
        387 => "Zimbra Public License v1.3",
        388 => "Zimbra Public License v1.4",
        389 => "zlib License",
        390 => "SQLite Blessing",
        391 => "bzip2 and libbzip2 License v1.0.5",
        392 => "bzip2 and libbzip2 License v1.0.6",
        393 => "copyleft-next 0.3.0",
        394 => "copyleft-next 0.3.1",
        395 => "curl License",
        396 => "diffmark license",
        397 => "dvipdfm License",
        398 => "eCos license version 2.0",
        399 => "eGenix.com Public License 1.1.0",
        400 => "gSOAP Public License v1.3b",
        401 => "gnuplot License",
        402 => "iMatix Standard Function Library Agreement",
        403 => "PNG Reference Library version 2",
        404 => "libtiff License",
        405 => "mpich2 License",
        406 => "psfrag License",
        407 => "psutils License",
        408 => "wxWindows Library License",
        409 => "xinetd License",
        410 => "XPP License",
        411 => "zlib/libpng License with Acknowledgement",
        _ => "",
    }
}

/// The flags of the license at `index`.
pub open spec fn license_flags(index: usize) -> u8 {
    match index {
        0 => 0x2,
        1 => 0x2,
        2 => 0x0,
        3 => 0x3,
        4 => 0x3,
        5 => 0x3,
        6 => 0x3,
        7 => 0x3,
        8 => 0x1d,
        9 => 0x18,
        10 => 0x18,
        11 => 0x1f,
        12 => 0x1b,
        13 => 0x1b,
        14 => 0x0,
        15 => 0x0,
        16 => 0x0,
        17 => 0x0,
        18 => 0x0,
        19 => 0x2,
        20 => 0x2,
        21 => 0x2,
        22 => 0x2,
        23 => 0x3,
        24 => 0x0,
        25 => 0x0,
        26 => 0x0,
        27 => 0x0,
        28 => 0x0,
        29 => 0x1,
        30 => 0x3,
        31 => 0x3,
        32 => 0x2,
        33 => 0x2,
        34 => 0x2,
        35 => 0x3,
        36 => 0x0,
        37 => 0x2,
        38 => 0x1,
        39 => 0x0,
        40 => 0x2,
        41 => 0x3,
        42 => 0x0,
        43 => 0x1,
        44 => 0x2,
        45 => 0x0,
        46 => 0x0,
        47 => 0x0,
        48 => 0x0,
        49 => 0x1,
        50 => 0x0,
        51 => 0x8,
        52 => 0x0,
        53 => 0x3,
        54 => 0x0,
        55 => 0x0,
        56 => 0x0,
        57 => 0x0,
        58 => 0x1,
        59 => 0x0,
        60 => 0x0,
        61 => 0x2,
        62 => 0x0,
        63 => 0x0,
        64 => 0x0,
        65 => 0x0,
        66 => 0x1,
        67 => 0x0,
        68 => 0x0,
        69 => 0x0,
        70 => 0x0,
        71 => 0x0,
        72 => 0x0,
        73 => 0x0,
        74 => 0x0,
        75 => 0x0,
        76 => 0x0,
        77 => 0x8,
        78 => 0x8,
        79 => 0x8,
        80 => 0x8,
        81 => 0x8,
        82 => 0x0,
        83 => 0x0,
        84 => 0x0,
        85 => 0x0,
        86 => 0x0,
        87 => 0x8,
        88 => 0x8,
        89 => 0x8,
        90 => 0x8,
        91 => 0x9,
        92 => 0x0,
        93 => 0x1,
        94 => 0xb,
        95 => 0x8,
        96 => 0x0,
        97 => 0x0,
        98 => 0x8,
        99 => 0x8,
        100 => 0x9,
        101 => 0xa,
        102 => 0x9,
        103 => 0x9,
        104 => 0x0,
        105 => 0x0,
        106 => 0x0,
        107 => 0x2,
        108 => 0x0,
        109 => 0x3,
        110 => 0xb,
        111 => 0x0,
        112 => 0x2,
        113 => 0x0,
        114 => 0x1,
        115 => 0x1,
        116 => 0x0,
        117 => 0x0,
        118 => 0x0,
        119 => 0x0,
        120 => 0x0,
        121 => 0x0,
        122 => 0x0,
        123 => 0x2,
        124 => 0x3,
        125 => 0x2,
        126 => 0x3,
        127 => 0x3,
        128 => 0x3,
        129 => 0x3,
        130 => 0x8,
        131 => 0xb,
        132 => 0xb,
        133 => 0x2,
        134 => 0x0,
        135 => 0x0,
        136 => 0x1,
        137 => 0x0,
        138 => 0x0,
        139 => 0x1,
        140 => 0x2,
        141 => 0x2,
        142 => 0x0,
        143 => 0x1d,
        144 => 0x18,
        145 => 0x18,
        146 => 0x18,
        147 => 0x18,
        148 => 0x18,
        149 => 0x19,
        150 => 0x19,
        151 => 0x1d,
        152 => 0x18,
        153 => 0x18,
        154 => 0x18,
        155 => 0x18,
        156 => 0x18,
        157 => 0x19,
        158 => 0x19,
        159 => 0x1d,
        160 => 0x18,
        161 => 0x18,
        162 => 0x18,
        163 => 0x18,
        164 => 0x18,
        165 => 0x19,
        166 => 0x19,
        167 => 0x0,
        168 => 0x1c,
        169 => 0x1c,
        170 => 0x18,
        171 => 0x18,
        172 => 0x1f,
        173 => 0x1f,
        174 => 0x1b,
        175 => 0x1b,
        176 => 0x1c,
        177 => 0x1c,
        178 => 0x1c,
        179 => 0x1c,
        180 => 0x1c,
        181 => 0x1f,
        182 => 0x1f,
        183 => 0x1b,
        184 => 0x1b,
        185 => 0x1e,
        186 => 0x1c,
        187 => 0x0,
        188 => 0x0,
        189 => 0x0,
        190 => 0x3,
        191 => 0x0,
        192 => 0x0,
        193 => 0x0,
        194 => 0x0,
        195 => 0x1,
        196 => 0x3,
        197 => 0x3,
        198 => 0x3,
        199 => 0x0,
        200 => 0x1,
        201 => 0x0,
        202 => 0x3,
        203 => 0x0,
        204 => 0x0,
        205 => 0x0,
        206 => 0x0,
        207 => 0x0,
        208 => 0x0,
        209 => 0x0,
        210 => 0x1e,
        211 => 0x1e,
        212 => 0x1a,
        213 => 0x1a,
        214 => 0x1f,
        215 => 0x1f,
        216 => 0x1b,
        217 => 0x1b,
        218 => 0x1f,
        219 => 0x1f,
        220 => 0x1b,
        221 => 0x1b,
        222 => 0x0,
        223 => 0x2,
        224 => 0x3,
        225 => 0x0,
        226 => 0x0,
        227 => 0x1,
        228 => 0x1,
        229 => 0x2,
        230 => 0x0,
        231 => 0x0,
        232 => 0x2,
        233 => 0x2,
        234 => 0x2,
        235 => 0x0,
        236 => 0x0,
        237 => 0x3,
        238 => 0x2,
        239 => 0x0,
        240 => 0x0,
        241 => 0x0,
        242 => 0x0,
        243 => 0x0,
        244 => 0xa,
        245 => 0xb,
        246 => 0xb,
        247 => 0xa,
        248 => 0xb,
        249 => 0xb,
        250 => 0x0,
        251 => 0x0,
        252 => 0x2,
        253 => 0x2,
        254 => 0x2,
        255 => 0x0,
        256 => 0x2,
        257 => 0x0,
        258 => 0x3,
        259 => 0x2,
        260 => 0x0,
        261 => 0x0,
        262 => 0x0,
        263 => 0x1,
        264 => 0x9,
        265 => 0x9,
        266 => 0x2,
        267 => 0x0,
        268 => 0x2,
        269 => 0x2,
        270 => 0x0,
        271 => 0x0,
        272 => 0x0,
        273 => 0x3,
        274 => 0x0,
        275 => 0x5,
        276 => 0x0,
        277 => 0x2,
        278 => 0x0,
        279 => 0x1,
        280 => 0x1,
        281 => 0x3,
        282 => 0x0,
        283 => 0x0,
        284 => 0x0,
        285 => 0x2,
        286 => 0x0,
        287 => 0x0,
        288 => 0x0,
        289 => 0x0,
        290 => 0x0,
        291 => 0x0,
        292 => 0x0,
        293 => 0x0,
        294 => 0x0,
        295 => 0x0,
        296 => 0x1,
        297 => 0x0,
        298 => 0x0,
        299 => 0x0,
        300 => 0x1,
        301 => 0x0,
        302 => 0x0,
        303 => 0x0,
        304 => 0x2,
        305 => 0xb,
        306 => 0x9,
        307 => 0xb,
        308 => 0xb,
        309 => 0xb,
        310 => 0x1,
        311 => 0x0,
        312 => 0x2,
        313 => 0x1,
        314 => 0x8,
        315 => 0x0,
        316 => 0x2,
        317 => 0x3,
        318 => 0x3,
        319 => 0x0,
        320 => 0x0,
        321 => 0x2,
        322 => 0x2,
        323 => 0x3,
        324 => 0x0,
        325 => 0x2,
        326 => 0x0,
        327 => 0x1,
        328 => 0x0,
        329 => 0x0,
        330 => 0x0,
        331 => 0x0,
        332 => 0x1,
        333 => 0x0,
        334 => 0x0,
        335 => 0xb,
        336 => 0x0,
        337 => 0x1,
        338 => 0x0,
        339 => 0x0,
        340 => 0x3,
        341 => 0x0,
        342 => 0x0,
        343 => 0x0,
        344 => 0x0,
        345 => 0x0,
        346 => 0x2,
        347 => 0x3,
        348 => 0x0,
        349 => 0x0,
        350 => 0x0,
        351 => 0x5,
        352 => 0x0,
        353 => 0x0,
        354 => 0x0,
        355 => 0x0,
        356 => 0x0,
        357 => 0x0,
        358 => 0x0,
        359 => 0x0,
        360 => 0x0,
        361 => 0x3,
        362 => 0x0,
        363 => 0x0,
        364 => 0x0,
        365 => 0x1,
        366 => 0x0,
        367 => 0x2,
        368 => 0x1,
        369 => 0x3,
        370 => 0x0,
        371 => 0x0,
        372 => 0x1,
        373 => 0x2,
        374 => 0x0,
        375 => 0x1,
        376 => 0x1,
        377 => 0x0,
        378 => 0x0,
        379 => 0x2,
        380 => 0x0,
        381 => 0x9,
        382 => 0x0,
        383 => 0x3,
        384 => 0x1,
        385 => 0x0,
        386 => 0x1,
        387 => 0x1,
        388 => 0x0,
        389 => 0x3,
        390 => 0x0,
        391 => 0x0,
        392 => 0x0,
        393 => 0x0,
        394 => 0x0,
        395 => 0x0,
        396 => 0x0,
        397 => 0x0,
        398 => 0x5,
        399 => 0x0,
        400 => 0x0,
        401 => 0x1,
        402 => 0x1,
        403 => 0x0,
        404 => 0x0,
        405 => 0x0,
        406 => 0x0,
        407 => 0x0,
        408 => 0x4,
        409 => 0x9,
        410 => 0x0,
        411 => 0x0,
        _ => 0x0,
    }
}

pub fn license_flags_at(index: usize) -> (r: u8)
    ensures
        r == license_flags(index),
{
    match index {
        0 => 0x2,
        1 => 0x2,
        2 => 0x0,
        3 => 0x3,
        4 => 0x3,
        5 => 0x3,
        6 => 0x3,
        7 => 0x3,
        8 => 0x1d,
        9 => 0x18,
        10 => 0x18,
        11 => 0x1f,
        12 => 0x1b,
        13 => 0x1b,
        14 => 0x0,
        15 => 0x0,
        16 => 0x0,
        17 => 0x0,
        18 => 0x0,
        19 => 0x2,
        20 => 0x2,
        21 => 0x2,
        22 => 0x2,
        23 => 0x3,
        24 => 0x0,
        25 => 0x0,
        26 => 0x0,
        27 => 0x0,
        28 => 0x0,
        29 => 0x1,
        30 => 0x3,
        31 => 0x3,
        32 => 0x2,
        33 => 0x2,
        34 => 0x2,
        35 => 0x3,
        36 => 0x0,
        37 => 0x2,
        38 => 0x1,
        39 => 0x0,
        40 => 0x2,
        41 => 0x3,
        42 => 0x0,
        43 => 0x1,
        44 => 0x2,
        45 => 0x0,
        46 => 0x0,
        47 => 0x0,
        48 => 0x0,
        49 => 0x1,
        50 => 0x0,
        51 => 0x8,
        52 => 0x0,
        53 => 0x3,
        54 => 0x0,
        55 => 0x0,
        56 => 0x0,
        57 => 0x0,
        58 => 0x1,
        59 => 0x0,
        60 => 0x0,
        61 => 0x2,
        62 => 0x0,
        63 => 0x0,
        64 => 0x0,
        65 => 0x0,
        66 => 0x1,
        67 => 0x0,
        68 => 0x0,
        69 => 0x0,
        70 => 0x0,
        71 => 0x0,
        72 => 0x0,
        73 => 0x0,
        74 => 0x0,
        75 => 0x0,
        76 => 0x0,
        77 => 0x8,
        78 => 0x8,
        79 => 0x8,
        80 => 0x8,
        81 => 0x8,
        82 => 0x0,
        83 => 0x0,
        84 => 0x0,
        85 => 0x0,
        86 => 0x0,
        87 => 0x8,
        88 => 0x8,
        89 => 0x8,
        90 => 0x8,
        91 => 0x9,
        92 => 0x0,
        93 => 0x1,
        94 => 0xb,
        95 => 0x8,
        96 => 0x0,
        97 => 0x0,
        98 => 0x8,
        99 => 0x8,
        100 => 0x9,
        101 => 0xa,
        102 => 0x9,
        103 => 0x9,
        104 => 0x0,
        105 => 0x0,
        106 => 0x0,
        107 => 0x2,
        108 => 0x0,
        109 => 0x3,
        110 => 0xb,
        111 => 0x0,
        112 => 0x2,
        113 => 0x0,
        114 => 0x1,
        115 => 0x1,
        116 => 0x0,
        117 => 0x0,
        118 => 0x0,
        119 => 0x0,
        120 => 0x0,
        121 => 0x0,
        122 => 0x0,
        123 => 0x2,
        124 => 0x3,
        125 => 0x2,
        126 => 0x3,
        127 => 0x3,
        128 => 0x3,
        129 => 0x3,
        130 => 0x8,
        131 => 0xb,
        132 => 0xb,
        133 => 0x2,
        134 => 0x0,
        135 => 0x0,
        136 => 0x1,
        137 => 0x0,
        138 => 0x0,
        139 => 0x1,
        140 => 0x2,
        141 => 0x2,
        142 => 0x0,
        143 => 0x1d,
        144 => 0x18,
        145 => 0x18,
        146 => 0x18,
        147 => 0x18,
        148 => 0x18,
        149 => 0x19,
        150 => 0x19,
        151 => 0x1d,
        152 => 0x18,
        153 => 0x18,
        154 => 0x18,
        155 => 0x18,
        156 => 0x18,
        157 => 0x19,
        158 => 0x19,
        159 => 0x1d,
        160 => 0x18,
        161 => 0x18,
        162 => 0x18,
        163 => 0x18,
        164 => 0x18,
        165 => 0x19,
        166 => 0x19,
        167 => 0x0,
        168 => 0x1c,
        169 => 0x1c,
        170 => 0x18,
        171 => 0x18,
        172 => 0x1f,
        173 => 0x1f,
        174 => 0x1b,
        175 => 0x1b,
        176 => 0x1c,
        177 => 0x1c,
        178 => 0x1c,
        179 => 0x1c,
        180 => 0x1c,
        181 => 0x1f,
        182 => 0x1f,
        183 => 0x1b,
        184 => 0x1b,
        185 => 0x1e,
        186 => 0x1c,
        187 => 0x0,
        188 => 0x0,
        189 => 0x0,
        190 => 0x3,
        191 => 0x0,
        192 => 0x0,
        193 => 0x0,
        194 => 0x0,
        195 => 0x1,
        196 => 0x3,
        197 => 0x3,
        198 => 0x3,
        199 => 0x0,
        200 => 0x1,
        201 => 0x0,
        202 => 0x3,
        203 => 0x0,
        204 => 0x0,
        205 => 0x0,
        206 => 0x0,
        207 => 0x0,
        208 => 0x0,
        209 => 0x0,
        210 => 0x1e,
        211 => 0x1e,
        212 => 0x1a,
        213 => 0x1a,
        214 => 0x1f,
        215 => 0x1f,
        216 => 0x1b,
        217 => 0x1b,
        218 => 0x1f,
        219 => 0x1f,
        220 => 0x1b,
        221 => 0x1b,
        222 => 0x0,
        223 => 0x2,
        224 => 0x3,
        225 => 0x0,
        226 => 0x0,
        227 => 0x1,
        228 => 0x1,
        229 => 0x2,
        230 => 0x0,
        231 => 0x0,
        232 => 0x2,
        233 => 0x2,
        234 => 0x2,
        235 => 0x0,
        236 => 0x0,
        237 => 0x3,
        238 => 0x2,
        239 => 0x0,
        240 => 0x0,
        241 => 0x0,
        242 => 0x0,
        243 => 0x0,
        244 => 0xa,
        245 => 0xb,
        246 => 0xb,
        247 => 0xa,
        248 => 0xb,
        249 => 0xb,
        250 => 0x0,
        251 => 0x0,
        252 => 0x2,
        253 => 0x2,
        254 => 0x2,
        255 => 0x0,
        256 => 0x2,
        257 => 0x0,
        258 => 0x3,
        259 => 0x2,
        260 => 0x0,
        261 => 0x0,
        262 => 0x0,
        263 => 0x1,
        264 => 0x9,
        265 => 0x9,
        266 => 0x2,
        267 => 0x0,
        268 => 0x2,
        269 => 0x2,
        270 => 0x0,
        271 => 0x0,
        272 => 0x0,
        273 => 0x3,
        274 => 0x0,
        275 => 0x5,
        276 => 0x0,
        277 => 0x2,
        278 => 0x0,
        279 => 0x1,
        280 => 0x1,
        281 => 0x3,
        282 => 0x0,
        283 => 0x0,
        284 => 0x0,
        285 => 0x2,
        286 => 0x0,
        287 => 0x0,
        288 => 0x0,
        289 => 0x0,
        290 => 0x0,
        291 => 0x0,
        292 => 0x0,
        293 => 0x0,
        294 => 0x0,
        295 => 0x0,
        296 => 0x1,
        297 => 0x0,
        298 => 0x0,
        299 => 0x0,
        300 => 0x1,
        301 => 0x0,
        302 => 0x0,
        303 => 0x0,
        304 => 0x2,
        305 => 0xb,
        306 => 0x9,
        307 => 0xb,
        308 => 0xb,
        309 => 0xb,
        310 => 0x1,
        311 => 0x0,
        312 => 0x2,
        313 => 0x1,
        314 => 0x8,
        315 => 0x0,
        316 => 0x2,
        317 => 0x3,
        318 => 0x3,
        319 => 0x0,
        320 => 0x0,
        321 => 0x2,
        322 => 0x2,
        323 => 0x3,
        324 => 0x0,
        325 => 0x2,
        326 => 0x0,
        327 => 0x1,
        328 => 0x0,
        329 => 0x0,
        330 => 0x0,
        331 => 0x0,
        332 => 0x1,
        333 => 0x0,
        334 => 0x0,
        335 => 0xb,
        336 => 0x0,
        337 => 0x1,
        338 => 0x0,
        339 => 0x0,
        340 => 0x3,
        341 => 0x0,
        342 => 0x0,
        343 => 0x0,
        344 => 0x0,
        345 => 0x0,
        346 => 0x2,
        347 => 0x3,
        348 => 0x0,
        349 => 0x0,
        350 => 0x0,
        351 => 0x5,
        352 => 0x0,
        353 => 0x0,
        354 => 0x0,
        355 => 0x0,
        356 => 0x0,
        357 => 0x0,
        358 => 0x0,
        359 => 0x0,
        360 => 0x0,
        361 => 0x3,
        362 => 0x0,
        363 => 0x0,
        364 => 0x0,
        365 => 0x1,
        366 => 0x0,
        367 => 0x2,
        368 => 0x1,
        369 => 0x3,
        370 => 0x0,
        371 => 0x0,
        372 => 0x1,
        373 => 0x2,
        374 => 0x0,
        375 => 0x1,
        376 => 0x1,
        377 => 0x0,
        378 => 0x0,
        379 => 0x2,
        380 => 0x0,
        381 => 0x9,
        382 => 0x0,
        383 => 0x3,
        384 => 0x1,
        385 => 0x0,
        386 => 0x1,
        387 => 0x1,
        388 => 0x0,
        389 => 0x3,
        390 => 0x0,
        391 => 0x0,
        392 => 0x0,
        393 => 0x0,
        394 => 0x0,
        395 => 0x0,
        396 => 0x0,
        397 => 0x0,
        398 => 0x5,
        399 => 0x0,
        400 => 0x0,
        401 => 0x1,
        402 => 0x1,
        403 => 0x0,
        404 => 0x0,
        405 => 0x0,
        406 => 0x0,
        407 => 0x0,
        408 => 0x4,
        409 => 0x9,
        410 => 0x0,
        411 => 0x0,
        _ => 0x0,
    }
}

/// The short identifier of the exception at `index`.
pub open spec fn exception_name(index: usize) -> &'static str {
    match index {
        0 => "389-exception",
        1 => "Autoconf-exception-2.0",
        2 => "Autoconf-exception-3.0",
        3 => "Bison-exception-2.2",
        4 => "Bootloader-exception",
        5 => "CLISP-exception-2.0",
        6 => "Classpath-exception-2.0",
        7 => "DigiRule-FOSS-exception",
        8 => "FLTK-exception",
        9 => "Fawkes-Runtime-exception",
        10 => "Font-exception-2.0",
        11 => "GCC-exception-2.0",
        12 => "GCC-exception-3.1",
        13 => "GPL-CC-1.0",
        14 => "LLVM-exception",
        15 => "LZMA-exception",
        16 => "Libtool-exception",
        17 => "Linux-syscall-note",
        18 => "Nokia-Qt-exception-1.1",
        19 => "OCCT-exception-1.0",
        20 => "OCaml-LGPL-linking-exception",
        21 => "OpenJDK-assembly-exception-1.0",
        22 => "PS-or-PDF-font-exception-20170817",
        23 => "Qt-GPL-exception-1.0",
        24 => "Qt-LGPL-exception-1.1",
        25 => "Qwt-exception-1.0",
        26 => "Swift-exception",
        27 => "Universal-FOSS-exception-1.0",
        28 => "WxWindows-exception-3.1",
        29 => "eCos-exception-2.0",
        30 => "freertos-exception-2.0",
        31 => "gnu-javamail-exception",
        32 => "i2p-gpl-java-exception",
        33 => "mif-exception",
        34 => "openvpn-openssl-exception",
        35 => "u-boot-exception-2.0",
        _ => "",
    }
}

pub fn exception_name_at(index: usize) -> (r: &'static str)
    ensures
        r == exception_name(index),
{
    match index {
        0 => "389-exception",
        1 => "Autoconf-exception-2.0",
        2 => "Autoconf-exception-3.0",
        3 => "Bison-exception-2.2",
        4 => "Bootloader-exception",
        5 => "CLISP-exception-2.0",
        6 => "Classpath-exception-2.0",
        7 => "DigiRule-FOSS-exception",
        8 => "FLTK-exception",
        9 => "Fawkes-Runtime-exception",
        10 => "Font-exception-2.0",
        11 => "GCC-exception-2.0",
        12 => "GCC-exception-3.1",
        13 => "GPL-CC-1.0",
        14 => "LLVM-exception",
        15 => "LZMA-exception",
        16 => "Libtool-exception",
        17 => "Linux-syscall-note",
        18 => "Nokia-Qt-exception-1.1",
        19 => "OCCT-exception-1.0",
        20 => "OCaml-LGPL-linking-exception",
        21 => "OpenJDK-assembly-exception-1.0",
        22 => "PS-or-PDF-font-exception-20170817",
        23 => "Qt-GPL-exception-1.0",
        24 => "Qt-LGPL-exception-1.1",
        25 => "Qwt-exception-1.0",
        26 => "Swift-exception",
        27 => "Universal-FOSS-exception-1.0",
        28 => "WxWindows-exception-3.1",
        29 => "eCos-exception-2.0",
        30 => "freertos-exception-2.0",
        31 => "gnu-javamail-exception",
        32 => "i2p-gpl-java-exception",
        33 => "mif-exception",
        34 => "openvpn-openssl-exception",
        35 => "u-boot-exception-2.0",
        _ => "",
    }
}

/// The flags of the exception at `index`.
pub open spec fn exception_flags(index: usize) -> u8 {
    match index {
        0 => 0x0,
        1 => 0x0,
        2 => 0x0,
        3 => 0x0,
        4 => 0x0,
        5 => 0x0,
        6 => 0x0,
        7 => 0x0,
        8 => 0x0,
        9 => 0x0,
        10 => 0x0,
        11 => 0x0,
        12 => 0x0,
        13 => 0x0,
        14 => 0x0,
        15 => 0x0,
        16 => 0x0,
        17 => 0x0,
        18 => 0x4,
        19 => 0x0,
        20 => 0x0,
        21 => 0x0,
        22 => 0x0,
        23 => 0x0,
        24 => 0x0,
        25 => 0x0,
        26 => 0x0,
        27 => 0x0,
        28 => 0x0,
        29 => 0x0,
        30 => 0x0,
        31 => 0x0,
        32 => 0x0,
        33 => 0x0,
        34 => 0x0,
        35 => 0x0,
        _ => 0x0,
    }
}

pub fn exception_flags_at(index: usize) -> (r: u8)
    ensures
        r == exception_flags(index),
{
    match index {
        0 => 0x0,
        1 => 0x0,
        2 => 0x0,
        3 => 0x0,
        4 => 0x0,
        5 => 0x0,
        6 => 0x0,
        7 => 0x0,
        8 => 0x0,
        9 => 0x0,
        10 => 0x0,
        11 => 0x0,
        12 => 0x0,
        13 => 0x0,
        14 => 0x0,
        15 => 0x0,
        16 => 0x0,
        17 => 0x0,
        18 => 0x4,
        19 => 0x0,
        20 => 0x0,
        21 => 0x0,
        22 => 0x0,
        23 => 0x0,
        24 => 0x0,
        25 => 0x0,
        26 => 0x0,
        27 => 0x0,
        28 => 0x0,
        29 => 0x0,
        30 => 0x0,
        31 => 0x0,
        32 => 0x0,
        33 => 0x0,
        34 => 0x0,
        35 => 0x0,
        _ => 0x0,
    }
}

/// The loosely written name at `index`, in lower case.
pub open spec fn imprecise_name(index: usize) -> &'static str {
    match index {
        0 => "affero",
        1 => "afl",
        2 => "agpl",
        3 => "agplv1",
        4 => "agplv3",
        5 => "al2",
        6 => "al2.0",
        7 => "apache",
        8 => "apache 2",
        9 => "apache 2.0",
        10 => "apache license",
        11 => "apache license 2.0",
        12 => "apache license version 2.0",
        13 => "apache-2",
        14 => "apache-2.0",
        15 => "apache2",
        16 => "apache2.0",
        17 => "apachev2",
        18 => "apl2",
        19 => "apl2.0",
        20 => "asl2",
        21 => "asl2.0",
        22 => "boost",
        23 => "bsd",
        24 => "bsd 2-clause",
        25 => "bsd 3-clause",
        26 => "bsd license",
        27 => "bsd-2",
        28 => "bsd-3",
        29 => "bsd-new",
        30 => "bsd2",
        31 => "bsd3",
        32 => "bsl",
        33 => "bsl1.0",
        34 => "cc0",
        35 => "cddl",
        36 => "epl",
        37 => "fdl",
        38 => "gpl",
        39 => "gpl v2",
        40 => "gpl v3",
        41 => "gpl-2.0",
        42 => "gpl-3.0",
        43 => "gpl2",
        44 => "gpl3",
        45 => "gplv2",
        46 => "gplv3",
        47 => "isc license",
        48 => "lgpl",
        49 => "lgpl-2.1",
        50 => "lgpl-3.0",
        51 => "lgplv2",
        52 => "lgplv2.1",
        53 => "lgplv3",
        54 => "mit",
        55 => "mit license",
        56 => "mpl",
        57 => "mpl1",
        58 => "mpl1.0",
        59 => "mpl1.1",
        60 => "mpl2",
        61 => "mpl2.0",
        62 => "mplv2",
        63 => "new bsd license",
        64 => "simplified bsd license",
        65 => "the unlicense",
        66 => "unlicense",
        67 => "zlib",
        _ => "",
    }
}

pub fn imprecise_name_at(index: usize) -> (r: &'static str)
    ensures
        r == imprecise_name(index),
{
    match index {
        0 => "affero",
        1 => "afl",
        2 => "agpl",
        3 => "agplv1",
        4 => "agplv3",
        5 => "al2",
        6 => "al2.0",
        7 => "apache",
        8 => "apache 2",
        9 => "apache 2.0",
        10 => "apache license",
        11 => "apache license 2.0",
        12 => "apache license version 2.0",
        13 => "apache-2",
        14 => "apache-2.0",
        15 => "apache2",
        16 => "apache2.0",
        17 => "apachev2",
        18 => "apl2",
        19 => "apl2.0",
        20 => "asl2",
        21 => "asl2.0",
        22 => "boost",
        23 => "bsd",
        24 => "bsd 2-clause",
        25 => "bsd 3-clause",
        26 => "bsd license",
        27 => "bsd-2",
        28 => "bsd-3",
        29 => "bsd-new",
        30 => "bsd2",
        31 => "bsd3",
        32 => "bsl",
        33 => "bsl1.0",
        34 => "cc0",
        35 => "cddl",
        36 => "epl",
        37 => "fdl",
        38 => "gpl",
        39 => "gpl v2",
        40 => "gpl v3",
        41 => "gpl-2.0",
        42 => "gpl-3.0",
        43 => "gpl2",
        44 => "gpl3",
        45 => "gplv2",
        46 => "gplv3",
        47 => "isc license",
        48 => "lgpl",
        49 => "lgpl-2.1",
        50 => "lgpl-3.0",
        51 => "lgplv2",
        52 => "lgplv2.1",
        53 => "lgplv3",
        54 => "mit",
        55 => "mit license",
        56 => "mpl",
        57 => "mpl1",
        58 => "mpl1.0",
        59 => "mpl1.1",
        60 => "mpl2",
        61 => "mpl2.0",
        62 => "mplv2",
        63 => "new bsd license",
        64 => "simplified bsd license",
        65 => "the unlicense",
        66 => "unlicense",
        67 => "zlib",
        _ => "",
    }
}

/// The identifier meant by the loosely written name at `index`.
pub open spec fn imprecise_target(index: usize) -> &'static str {
    match index {
        0 => "AGPL-3.0",
        1 => "AFL-3.0",
        2 => "AGPL-3.0",
        3 => "AGPL-1.0",
        4 => "AGPL-3.0",
        5 => "Apache-2.0",
        6 => "Apache-2.0",
        7 => "Apache-2.0",
        8 => "Apache-2.0",
        9 => "Apache-2.0",
        10 => "Apache-2.0",
        11 => "Apache-2.0",
        12 => "Apache-2.0",
        13 => "Apache-2.0",
        14 => "Apache-2.0",
        15 => "Apache-2.0",
        16 => "Apache-2.0",
        17 => "Apache-2.0",
        18 => "Apache-2.0",
        19 => "Apache-2.0",
        20 => "Apache-2.0",
        21 => "Apache-2.0",
        22 => "BSL-1.0",
        23 => "BSD-2-Clause",
        24 => "BSD-2-Clause",
        25 => "BSD-3-Clause",
        26 => "BSD-2-Clause",
        27 => "BSD-2-Clause",
        28 => "BSD-3-Clause",
        29 => "BSD-3-Clause",
        30 => "BSD-2-Clause",
        31 => "BSD-3-Clause",
        32 => "BSL-1.0",
        33 => "BSL-1.0",
        34 => "CC0-1.0",
        35 => "CDDL-1.0",
        36 => "EPL-1.0",
        37 => "GFDL-1.3",
        38 => "GPL-3.0",
        39 => "GPL-2.0",
        40 => "GPL-3.0",
        41 => "GPL-2.0",
        42 => "GPL-3.0",
        43 => "GPL-2.0",
        44 => "GPL-3.0",
        45 => "GPL-2.0",
        46 => "GPL-3.0",
        47 => "ISC",
        48 => "LGPL-3.0",
        49 => "LGPL-2.1",
        50 => "LGPL-3.0",
        51 => "LGPL-2.1",
        52 => "LGPL-2.1",
        53 => "LGPL-3.0",
        54 => "MIT",
        55 => "MIT",
        56 => "MPL-2.0",
        57 => "MPL-1.0",
        58 => "MPL-1.0",
        59 => "MPL-1.1",
        60 => "MPL-2.0",
        61 => "MPL-2.0",
        62 => "MPL-2.0",
        63 => "BSD-3-Clause",
        64 => "BSD-2-Clause",
        65 => "Unlicense",
        66 => "Unlicense",
        67 => "Zlib",
        _ => "",
    }
}

pub fn imprecise_target_at(index: usize) -> (r: &'static str)
    ensures
        r == imprecise_target(index),
{
    match index {
        0 => "AGPL-3.0",
        1 => "AFL-3.0",
        2 => "AGPL-3.0",
        3 => "AGPL-1.0",
        4 => "AGPL-3.0",
        5 => "Apache-2.0",
        6 => "Apache-2.0",
        7 => "Apache-2.0",
        8 => "Apache-2.0",
        9 => "Apache-2.0",
        10 => "Apache-2.0",
        11 => "Apache-2.0",
        12 => "Apache-2.0",
        13 => "Apache-2.0",
        14 => "Apache-2.0",
        15 => "Apache-2.0",
        16 => "Apache-2.0",
        17 => "Apache-2.0",
        18 => "Apache-2.0",
        19 => "Apache-2.0",
        20 => "Apache-2.0",
        21 => "Apache-2.0",
        22 => "BSL-1.0",
        23 => "BSD-2-Clause",
        24 => "BSD-2-Clause",
        25 => "BSD-3-Clause",
        26 => "BSD-2-Clause",
        27 => "BSD-2-Clause",
        28 => "BSD-3-Clause",
        29 => "BSD-3-Clause",
        30 => "BSD-2-Clause",
        31 => "BSD-3-Clause",
        32 => "BSL-1.0",
        33 => "BSL-1.0",
        34 => "CC0-1.0",
        35 => "CDDL-1.0",
        36 => "EPL-1.0",
        37 => "GFDL-1.3",
        38 => "GPL-3.0",
        39 => "GPL-2.0",
        40 => "GPL-3.0",
        41 => "GPL-2.0",
        42 => "GPL-3.0",
        43 => "GPL-2.0",
        44 => "GPL-3.0",
        45 => "GPL-2.0",
        46 => "GPL-3.0",
        47 => "ISC",
        48 => "LGPL-3.0",
        49 => "LGPL-2.1",
        50 => "LGPL-3.0",
        51 => "LGPL-2.1",
        52 => "LGPL-2.1",
        53 => "LGPL-3.0",
        54 => "MIT",
        55 => "MIT",
        56 => "MPL-2.0",
        57 => "MPL-1.0",
        58 => "MPL-1.0",
        59 => "MPL-1.1",
        60 => "MPL-2.0",
        61 => "MPL-2.0",
        62 => "MPL-2.0",
        63 => "BSD-3-Clause",
        64 => "BSD-2-Clause",
        65 => "Unlicense",
        66 => "Unlicense",
        67 => "Zlib",
        _ => "",
    }
}

proof fn lemma_license_order_0()
    ensures
        sorts_before("0BSD".spec_bytes(), "AAL".spec_bytes()),
{
    reveal_strlit("0BSD");
    reveal_strlit("AAL");
    is_ascii_chars_encode_utf8("0BSD"@);
    is_ascii_chars_encode_utf8("AAL"@);
    let a = "0BSD".spec_bytes();
    let b = "AAL".spec_bytes();
    assert(a.subrange(0, 0) =~= b.subrange(0, 0));
    assert(differs_below(a, b, 0));
}

proof fn lemma_license_order_1()
    ensures
        sorts_before("AAL".spec_bytes(), "ADSL".spec_bytes()),
{
    reveal_strlit("AAL");
    reveal_strlit("ADSL");
    is_ascii_chars_encode_utf8("AAL"@);
    is_ascii_chars_encode_utf8("ADSL"@);
    let a = "AAL".spec_bytes();
    let b = "ADSL".spec_bytes();
    assert(a.subrange(0, 1) =~= b.subrange(0, 1));
    assert(differs_below(a, b, 1));
}

proof fn lemma_license_order_2()
    ensures
        sorts_before("ADSL".spec_bytes(), "AFL-1.1".spec_bytes()),
{
    reveal_strlit("ADSL");
    reveal_strlit("AFL-1.1");
    is_ascii_chars_encode_utf8("ADSL"@);
    is_ascii_chars_encode_utf8("AFL-1.1"@);
    let a = "ADSL".spec_bytes();
    let b = "AFL-1.1".spec_bytes();
    assert(a.subrange(0, 1) =~= b.subrange(0, 1));
    assert(differs_below(a, b, 1));
}

proof fn lemma_license_order_3()
    ensures
        sorts_before("AFL-1.1".spec_bytes(), "AFL-1.2".spec_bytes()),
{
    reveal_strlit("AFL-1.1");
    reveal_strlit("AFL-1.2");
    is_ascii_chars_encode_utf8("AFL-1.1"@);
    is_ascii_chars_encode_utf8("AFL-1.2"@);
    let a = "AFL-1.1".spec_bytes();
    let b = "AFL-1.2".spec_bytes();
    assert(a.subrange(0, 6) =~= b.subrange(0, 6));
    assert(differs_below(a, b, 6));
}

proof fn lemma_license_order_4()
    ensures
        sorts_before("AFL-1.2".spec_bytes(), "AFL-2.0".spec_bytes()),
{
    reveal_strlit("AFL-1.2");
    reveal_strlit("AFL-2.0");
    is_ascii_chars_encode_utf8("AFL-1.2"@);
    is_ascii_chars_encode_utf8("AFL-2.0"@);
    let a = "AFL-1.2".spec_bytes();
    let b = "AFL-2.0".spec_bytes();
    assert(a.subrange(0, 4) =~= b.subrange(0, 4));
    assert(differs_below(a, b, 4));
}

proof fn lemma_license_order_5()
    ensures
        sorts_before("AFL-2.0".spec_bytes(), "AFL-2.1".spec_bytes()),
{
    reveal_strlit("AFL-2.0");
    reveal_strlit("AFL-2.1");
    is_ascii_chars_encode_utf8("AFL-2.0"@);
    is_ascii_chars_encode_utf8("AFL-2.1"@);
    let a = "AFL-2.0".spec_bytes();
    let b = "AFL-2.1".spec_bytes();
    assert(a.subrange(0, 6) =~= b.subrange(0, 6));
    assert(differs_below(a, b, 6));
}

proof fn lemma_license_order_6()
    ensures
        sorts_before("AFL-2.1".spec_bytes(), "AFL-3.0".spec_bytes()),
{
    reveal_strlit("AFL-2.1");
    reveal_strlit("AFL-3.0");
    is_ascii_chars_encode_utf8("AFL-2.1"@);
    is_ascii_chars_encode_utf8("AFL-3.0"@);
    let a = "AFL-2.1".spec_bytes();
    let b = "AFL-3.0".spec_bytes();
    assert(a.subrange(0, 4) =~= b.subrange(0, 4));
    assert(differs_below(a, b, 4));
}

proof fn lemma_license_order_7()
    ensures
        sorts_before("AFL-3.0".spec_bytes(), "AGPL-1.0".spec_bytes()),
{
    reveal_strlit("AFL-3.0");
    reveal_strlit("AGPL-1.0");
    is_ascii_chars_encode_utf8("AFL-3.0"@);
    is_ascii_chars_encode_utf8("AGPL-1.0"@);
    let a = "AFL-3.0".spec_bytes();
    let b = "AGPL-1.0".spec_bytes();
    assert(a.subrange(0, 1) =~= b.subrange(0, 1));
    assert(differs_below(a, b, 1));
}

proof fn lemma_license_order_8()
    ensures
        sorts_before("AGPL-1.0".spec_bytes(), "AGPL-1.0-only".spec_bytes()),
{
    reveal_strlit("AGPL-1.0");
    reveal_strlit("AGPL-1.0-only");
    is_ascii_chars_encode_utf8("AGPL-1.0"@);
    is_ascii_chars_encode_utf8("AGPL-1.0-only"@);
    let a = "AGPL-1.0".spec_bytes();
    let b = "AGPL-1.0-only".spec_bytes();
    assert(b.subrange(0, 8) =~= a);
}

proof fn lemma_license_order_9()
    ensures
        sorts_before("AGPL-1.0-only".spec_bytes(), "AGPL-1.0-or-later".spec_bytes()),
{
    reveal_strlit("AGPL-1.0-only");
    reveal_strlit("AGPL-1.0-or-later");
    is_ascii_chars_encode_utf8("AGPL-1.0-only"@);
    is_ascii_chars_encode_utf8("AGPL-1.0-or-later"@);
    let a = "AGPL-1.0-only".spec_bytes();
    let b = "AGPL-1.0-or-later".spec_bytes();
    assert(a.subrange(0, 10) =~= b.subrange(0, 10));
    assert(differs_below(a, b, 10));
}

proof fn lemma_license_order_10()
    ensures
        sorts_before("AGPL-1.0-or-later".spec_bytes(), "AGPL-3.0".spec_bytes()),
{
    reveal_strlit("AGPL-1.0-or-later");
    reveal_strlit("AGPL-3.0");
    is_ascii_chars_encode_utf8("AGPL-1.0-or-later"@);
    is_ascii_chars_encode_utf8("AGPL-3.0"@);
    let a = "AGPL-1.0-or-later".spec_bytes();
    let b = "AGPL-3.0".spec_bytes();
    assert(a.subrange(0, 5) =~= b.subrange(0, 5));
    assert(differs_below(a, b, 5));
}

proof fn lemma_license_order_11()
    ensures
        sorts_before("AGPL-3.0".spec_bytes(), "AGPL-3.0-only".spec_bytes()),
{
    reveal_strlit("AGPL-3.0");
    reveal_strlit("AGPL-3.0-only");
    is_ascii_chars_encode_utf8("AGPL-3.0"@);
    is_ascii_chars_encode_utf8("AGPL-3.0-only"@);
    let a = "AGPL-3.0".spec_bytes();
    let b = "AGPL-3.0-only".spec_bytes();
    assert(b.subrange(0, 8) =~= a);
}

proof fn lemma_license_order_12()
    ensures
        sorts_before("AGPL-3.0-only".spec_bytes(), "AGPL-3.0-or-later".spec_bytes()),
{
    reveal_strlit("AGPL-3.0-only");
    reveal_strlit("AGPL-3.0-or-later");
    is_ascii_chars_encode_utf8("AGPL-3.0-only"@);
    is_ascii_chars_encode_utf8("AGPL-3.0-or-later"@);
    let a = "AGPL-3.0-only".spec_bytes();
    let b = "AGPL-3.0-or-later".spec_bytes();
    assert(a.subrange(0, 10) =~= b.subrange(0, 10));
    assert(differs_below(a, b, 10));
}

proof fn lemma_license_order_13()
    ensures
        sorts_before("AGPL-3.0-or-later".spec_bytes(), "AMDPLPA".spec_bytes()),
{
    reveal_strlit("AGPL-3.0-or-later");
    reveal_strlit("AMDPLPA");
    is_ascii_chars_encode_utf8("AGPL-3.0-or-later"@);
    is_ascii_chars_encode_utf8("AMDPLPA"@);
    let a = "AGPL-3.0-or-later".spec_bytes();
    let b = "AMDPLPA".spec_bytes();
    assert(a.subrange(0, 1) =~= b.subrange(0, 1));
    assert(differs_below(a, b, 1));
}

proof fn lemma_license_order_14()
    ensures
        sorts_before("AMDPLPA".spec_bytes(), "AML".spec_bytes()),
{
    reveal_strlit("AMDPLPA");
    reveal_strlit("AML");
    is_ascii_chars_encode_utf8("AMDPLPA"@);
    is_ascii_chars_encode_utf8("AML"@);
    let a = "AMDPLPA".spec_bytes();
    let b = "AML".spec_bytes();
    assert(a.subrange(0, 2) =~= b.subrange(0, 2));
    assert(differs_below(a, b, 2));
}

proof fn lemma_license_order_15()
    ensures
        sorts_before("AML".spec_bytes(), "AMPAS".spec_bytes()),
{
    reveal_strlit("AML");
    reveal_strlit("AMPAS");
    is_ascii_chars_encode_utf8("AML"@);
    is_ascii_chars_encode_utf8("AMPAS"@);
    let a = "AML".spec_bytes();
    let b = "AMPAS".spec_bytes();
    assert(a.subrange(0, 2) =~= b.subrange(0, 2));
    assert(differs_below(a, b, 2));
}

proof fn lemma_license_order_16()
    ensures
        sorts_before("AMPAS".spec_bytes(), "ANTLR-PD".spec_bytes()),
{
    reveal_strlit("AMPAS");
    reveal_strlit("ANTLR-PD");
    is_ascii_chars_encode_utf8("AMPAS"@);
    is_ascii_chars_encode_utf8("ANTLR-PD"@);
    let a = "AMPAS".spec_bytes();
    let b = "ANTLR-PD".spec_bytes();
    assert(a.subrange(0, 1) =~= b.subrange(0, 1));
    assert(differs_below(a, b, 1));
}

proof fn lemma_license_order_17()
    ensures
        sorts_before("ANTLR-PD".spec_bytes(), "APAFML".spec_bytes()),
{
    reveal_strlit("ANTLR-PD");
    reveal_strlit("APAFML");
    is_ascii_chars_encode_utf8("ANTLR-PD"@);
    is_ascii_chars_encode_utf8("APAFML"@);
    let a = "ANTLR-PD".spec_bytes();
    let b = "APAFML".spec_bytes();
    assert(a.subrange(0, 1) =~= b.subrange(0, 1));
    assert(differs_below(a, b, 1));
}

proof fn lemma_license_order_18()
    ensures
        sorts_before("APAFML".spec_bytes(), "APL-1.0".spec_bytes()),
{
    reveal_strlit("APAFML");
    reveal_strlit("APL-1.0");
    is_ascii_chars_encode_utf8("APAFML"@);
    is_ascii_chars_encode_utf8("APL-1.0"@);
    let a = "APAFML".spec_bytes();
    let b = "APL-1.0".spec_bytes();
    assert(a.subrange(0, 2) =~= b.subrange(0, 2));
    assert(differs_below(a, b, 2));
}

proof fn lemma_license_order_19()
    ensures
        sorts_before("APL-1.0".spec_bytes(), "APSL-1.0".spec_bytes()),
{
    reveal_strlit("APL-1.0");
    reveal_strlit("APSL-1.0");
    is_ascii_chars_encode_utf8("APL-1.0"@);
    is_ascii_chars_encode_utf8("APSL-1.0"@);
    let a = "APL-1.0".spec_bytes();
    let b = "APSL-1.0".spec_bytes();
    assert(a.subrange(0, 2) =~= b.subrange(0, 2));
    assert(differs_below(a, b, 2));
}

proof fn lemma_license_order_20()
    ensures
        sorts_before("APSL-1.0".spec_bytes(), "APSL-1.1".spec_bytes()),
{
    reveal_strlit("APSL-1.0");
    reveal_strlit("APSL-1.1");
    is_ascii_chars_encode_utf8("APSL-1.0"@);
    is_ascii_chars_encode_utf8("APSL-1.1"@);
    let a = "APSL-1.0".spec_bytes();
    let b = "APSL-1.1".spec_bytes();
    assert(a.subrange(0, 7) =~= b.subrange(0, 7));
    assert(differs_below(a, b, 7));
}

proof fn lemma_license_order_21()
    ensures
        sorts_before("APSL-1.1".spec_bytes(), "APSL-1.2".spec_bytes()),
{
    reveal_strlit("APSL-1.1");
    reveal_strlit("APSL-1.2");
    is_ascii_chars_encode_utf8("APSL-1.1"@);
    is_ascii_chars_encode_utf8("APSL-1.2"@);
    let a = "APSL-1.1".spec_bytes();
    let b = "APSL-1.2".spec_bytes();
    assert(a.subrange(0, 7) =~= b.subrange(0, 7));
    assert(differs_below(a, b, 7));
}

proof fn lemma_license_order_22()
    ensures
        sorts_before("APSL-1.2".spec_bytes(), "APSL-2.0".spec_bytes()),
{
    reveal_strlit("APSL-1.2");
    reveal_strlit("APSL-2.0");
    is_ascii_chars_encode_utf8("APSL-1.2"@);
    is_ascii_chars_encode_utf8("APSL-2.0"@);
    let a = "APSL-1.2".spec_bytes();
    let b = "APSL-2.0".spec_bytes();
    assert(a.subrange(0, 5) =~= b.subrange(0, 5));
    assert(differs_below(a, b, 5));
}

proof fn lemma_license_order_23()
    ensures
        sorts_before("APSL-2.0".spec_bytes(), "Abstyles".spec_bytes()),
{
    reveal_strlit("APSL-2.0");
    reveal_strlit("Abstyles");
    is_ascii_chars_encode_utf8("APSL-2.0"@);
    is_ascii_chars_encode_utf8("Abstyles"@);
    let a = "APSL-2.0".spec_bytes();
    let b = "Abstyles".spec_bytes();
    assert(a.subrange(0, 1) =~= b.subrange(0, 1));
    assert(differs_below(a, b, 1));
}

proof fn lemma_license_order_24()
    ensures
        sorts_before("Abstyles".spec_bytes(), "Adobe-2006".spec_bytes()),
{
    reveal_strlit("Abstyles");
    reveal_strlit("Adobe-2006");
    is_ascii_chars_encode_utf8("Abstyles"@);
    is_ascii_chars_encode_utf8("Adobe-2006"@);
    let a = "Abstyles".spec_bytes();
    let b = "Adobe-2006".spec_bytes();
    assert(a.subrange(0, 1) =~= b.subrange(0, 1));
    assert(differs_below(a, b, 1));
}

proof fn lemma_license_order_25()
    ensures
        sorts_before("Adobe-2006".spec_bytes(), "Adobe-Glyph".spec_bytes()),
{
    reveal_strlit("Adobe-2006");
    reveal_strlit("Adobe-Glyph");
    is_ascii_chars_encode_utf8("Adobe-2006"@);
    is_ascii_chars_encode_utf8("Adobe-Glyph"@);
    let a = "Adobe-2006".spec_bytes();
    let b = "Adobe-Glyph".spec_bytes();
    assert(a.subrange(0, 6) =~= b.subrange(0, 6));
    assert(differs_below(a, b, 6));
}

proof fn lemma_license_order_26()
    ensures
        sorts_before("Adobe-Glyph".spec_bytes(), "Afmparse".spec_bytes()),
{
    reveal_strlit("Adobe-Glyph");
    reveal_strlit("Afmparse");
    is_ascii_chars_encode_utf8("Adobe-Glyph"@);
    is_ascii_chars_encode_utf8("Afmparse"@);
    let a = "Adobe-Glyph".spec_bytes();
    let b = "Afmparse".spec_bytes();
    assert(a.subrange(0, 1) =~= b.subrange(0, 1));
    assert(differs_below(a, b, 1));
}

proof fn lemma_license_order_27()
    ensures
        sorts_before("Afmparse".spec_bytes(), "Aladdin".spec_bytes()),
{
    reveal_strlit("Afmparse");
    reveal_strlit("Aladdin");
    is_ascii_chars_encode_utf8("Afmparse"@);
    is_ascii_chars_encode_utf8("Aladdin"@);
    let a = "Afmparse".spec_bytes();
    let b = "Aladdin".spec_bytes();
    assert(a.subrange(0, 1) =~= b.subrange(0, 1));
    assert(differs_below(a, b, 1));
}

proof fn lemma_license_order_28()
    ensures
        sorts_before("Aladdin".spec_bytes(), "Apache-1.0".spec_bytes()),
{
    reveal_strlit("Aladdin");
    reveal_strlit("Apache-1.0");
    is_ascii_chars_encode_utf8("Aladdin"@);
    is_ascii_chars_encode_utf8("Apache-1.0"@);
    let a = "Aladdin".spec_bytes();
    let b = "Apache-1.0".spec_bytes();
    assert(a.subrange(0, 1) =~= b.subrange(0, 1));
    assert(differs_below(a, b, 1));
}

proof fn lemma_license_order_29()
    ensures
        sorts_before("Apache-1.0".spec_bytes(), "Apache-1.1".spec_bytes()),
{
    reveal_strlit("Apache-1.0");
    reveal_strlit("Apache-1.1");
    is_ascii_chars_encode_utf8("Apache-1.0"@);
    is_ascii_chars_encode_utf8("Apache-1.1"@);
    let a = "Apache-1.0".spec_bytes();
    let b = "Apache-1.1".spec_bytes();
    assert(a.subrange(0, 9) =~= b.subrange(0, 9));
    assert(differs_below(a, b, 9));
}

proof fn lemma_license_order_30()
    ensures
        sorts_before("Apache-1.1".spec_bytes(), "Apache-2.0".spec_bytes()),
{
    reveal_strlit("Apache-1.1");
    reveal_strlit("Apache-2.0");
    is_ascii_chars_encode_utf8("Apache-1.1"@);
    is_ascii_chars_encode_utf8("Apache-2.0"@);
    let a = "Apache-1.1".spec_bytes();
    let b = "Apache-2.0".spec_bytes();
    assert(a.subrange(0, 7) =~= b.subrange(0, 7));
    assert(differs_below(a, b, 7));
}

proof fn lemma_license_order_31()
    ensures
        sorts_before("Apache-2.0".spec_bytes(), "Artistic-1.0".spec_bytes()),
{
    reveal_strlit("Apache-2.0");
    reveal_strlit("Artistic-1.0");
    is_ascii_chars_encode_utf8("Apache-2.0"@);
    is_ascii_chars_encode_utf8("Artistic-1.0"@);
    let a = "Apache-2.0".spec_bytes();
    let b = "Artistic-1.0".spec_bytes();
    assert(a.subrange(0, 1) =~= b.subrange(0, 1));
    assert(differs_below(a, b, 1));
}

proof fn lemma_license_order_32()
    ensures
        sorts_before("Artistic-1.0".spec_bytes(), "Artistic-1.0-Perl".spec_bytes()),
{
    reveal_strlit("Artistic-1.0");
    reveal_strlit("Artistic-1.0-Perl");
    is_ascii_chars_encode_utf8("Artistic-1.0"@);
    is_ascii_chars_encode_utf8("Artistic-1.0-Perl"@);
    let a = "Artistic-1.0".spec_bytes();
    let b = "Artistic-1.0-Perl".spec_bytes();
    assert(b.subrange(0, 12) =~= a);
}

proof fn lemma_license_order_33()
    ensures
        sorts_before("Artistic-1.0-Perl".spec_bytes(), "Artistic-1.0-cl8".spec_bytes()),
{
    reveal_strlit("Artistic-1.0-Perl");
    reveal_strlit("Artistic-1.0-cl8");
    is_ascii_chars_encode_utf8("Artistic-1.0-Perl"@);
    is_ascii_chars_encode_utf8("Artistic-1.0-cl8"@);
    let a = "Artistic-1.0-Perl".spec_bytes();
    let b = "Artistic-1.0-cl8".spec_bytes();
    assert(a.subrange(0, 13) =~= b.subrange(0, 13));
    assert(differs_below(a, b, 13));
}

proof fn lemma_license_order_34()
    ensures
        sorts_before("Artistic-1.0-cl8".spec_bytes(), "Artistic-2.0".spec_bytes()),
{
    reveal_strlit("Artistic-1.0-cl8");
    reveal_strlit("Artistic-2.0");
    is_ascii_chars_encode_utf8("Artistic-1.0-cl8"@);
    is_ascii_chars_encode_utf8("Artistic-2.0"@);
    let a = "Artistic-1.0-cl8".spec_bytes();
    let b = "Artistic-2.0".spec_bytes();
    assert(a.subrange(0, 9) =~= b.subrange(0, 9));
    assert(differs_below(a, b, 9));
}

proof fn lemma_license_order_35()
    ensures
        sorts_before("Artistic-2.0".spec_bytes(), "BSD-1-Clause".spec_bytes()),
{
    reveal_strlit("Artistic-2.0");
    reveal_strlit("BSD-1-Clause");
    is_ascii_chars_encode_utf8("Artistic-2.0"@);
    is_ascii_chars_encode_utf8("BSD-1-Clause"@);
    let a = "Artistic-2.0".spec_bytes();
    let b = "BSD-1-Clause".spec_bytes();
    assert(a.subrange(0, 0) =~= b.subrange(0, 0));
    assert(differs_below(a, b, 0));
}

proof fn lemma_license_order_36()
    ensures
        sorts_before("BSD-1-Clause".spec_bytes(), "BSD-2-Clause".spec_bytes()),
{
    reveal_strlit("BSD-1-Clause");
    reveal_strlit("BSD-2-Clause");
    is_ascii_chars_encode_utf8("BSD-1-Clause"@);
    is_ascii_chars_encode_utf8("BSD-2-Clause"@);
    let a = "BSD-1-Clause".spec_bytes();
    let b = "BSD-2-Clause".spec_bytes();
    assert(a.subrange(0, 4) =~= b.subrange(0, 4));
    assert(differs_below(a, b, 4));
}

proof fn lemma_license_order_37()
    ensures
        sorts_before("BSD-2-Clause".spec_bytes(), "BSD-2-Clause-FreeBSD".spec_bytes()),
{
    reveal_strlit("BSD-2-Clause");
    reveal_strlit("BSD-2-Clause-FreeBSD");
    is_ascii_chars_encode_utf8("BSD-2-Clause"@);
    is_ascii_chars_encode_utf8("BSD-2-Clause-FreeBSD"@);
    let a = "BSD-2-Clause".spec_bytes();
    let b = "BSD-2-Clause-FreeBSD".spec_bytes();
    assert(b.subrange(0, 12) =~= a);
}

proof fn lemma_license_order_38()
    ensures
        sorts_before("BSD-2-Clause-FreeBSD".spec_bytes(), "BSD-2-Clause-NetBSD".spec_bytes()),
{
    reveal_strlit("BSD-2-Clause-FreeBSD");
    reveal_strlit("BSD-2-Clause-NetBSD");
    is_ascii_chars_encode_utf8("BSD-2-Clause-FreeBSD"@);
    is_ascii_chars_encode_utf8("BSD-2-Clause-NetBSD"@);
    let a = "BSD-2-Clause-FreeBSD".spec_bytes();
    let b = "BSD-2-Clause-NetBSD".spec_bytes();
    assert(a.subrange(0, 13) =~= b.subrange(0, 13));
    assert(differs_below(a, b, 13));
}

proof fn lemma_license_order_39()
    ensures
        sorts_before("BSD-2-Clause-NetBSD".spec_bytes(), "BSD-2-Clause-Patent".spec_bytes()),
{
    reveal_strlit("BSD-2-Clause-NetBSD");
    reveal_strlit("BSD-2-Clause-Patent");
    is_ascii_chars_encode_utf8("BSD-2-Clause-NetBSD"@);
    is_ascii_chars_encode_utf8("BSD-2-Clause-Patent"@);
    let a = "BSD-2-Clause-NetBSD".spec_bytes();
    let b = "BSD-2-Clause-Patent".spec_bytes();
    assert(a.subrange(0, 13) =~= b.subrange(0, 13));
    assert(differs_below(a, b, 13));
}

proof fn lemma_license_order_40()
    ensures
        sorts_before("BSD-2-Clause-Patent".spec_bytes(), "BSD-3-Clause".spec_bytes()),
{
    reveal_strlit("BSD-2-Clause-Patent");
    reveal_strlit("BSD-3-Clause");
    is_ascii_chars_encode_utf8("BSD-2-Clause-Patent"@);
    is_ascii_chars_encode_utf8("BSD-3-Clause"@);
    let a = "BSD-2-Clause-Patent".spec_bytes();
    let b = "BSD-3-Clause".spec_bytes();
    assert(a.subrange(0, 4) =~= b.subrange(0, 4));
    assert(differs_below(a, b, 4));
}

proof fn lemma_license_order_41()
    ensures
        sorts_before("BSD-3-Clause".spec_bytes(), "BSD-3-Clause-Attribution".spec_bytes()),
{
    reveal_strlit("BSD-3-Clause");
    reveal_strlit("BSD-3-Clause-Attribution");
    is_ascii_chars_encode_utf8("BSD-3-Clause"@);
    is_ascii_chars_encode_utf8("BSD-3-Clause-Attribution"@);
    let a = "BSD-3-Clause".spec_bytes();
    let b = "BSD-3-Clause-Attribution".spec_bytes();
    assert(b.subrange(0, 12) =~= a);
}

proof fn lemma_license_order_42()
    ensures
        sorts_before("BSD-3-Clause-Attribution".spec_bytes(), "BSD-3-Clause-Clear".spec_bytes()),
{
    reveal_strlit("BSD-3-Clause-Attribution");
    reveal_strlit("BSD-3-Clause-Clear");
    is_ascii_chars_encode_utf8("BSD-3-Clause-Attribution"@);
    is_ascii_chars_encode_utf8("BSD-3-Clause-Clear"@);
    let a = "BSD-3-Clause-Attribution".spec_bytes();
    let b = "BSD-3-Clause-Clear".spec_bytes();
    assert(a.subrange(0, 13) =~= b.subrange(0, 13));
    assert(differs_below(a, b, 13));
}

proof fn lemma_license_order_43()
    ensures
        sorts_before("BSD-3-Clause-Clear".spec_bytes(), "BSD-3-Clause-LBNL".spec_bytes()),
{
    reveal_strlit("BSD-3-Clause-Clear");
    reveal_strlit("BSD-3-Clause-LBNL");
    is_ascii_chars_encode_utf8("BSD-3-Clause-Clear"@);
    is_ascii_chars_encode_utf8("BSD-3-Clause-LBNL"@);
    let a = "BSD-3-Clause-Clear".spec_bytes();
    let b = "BSD-3-Clause-LBNL".spec_bytes();
    assert(a.subrange(0, 13) =~= b.subrange(0, 13));
    assert(differs_below(a, b, 13));
}

proof fn lemma_license_order_44()
    ensures
        sorts_before("BSD-3-Clause-LBNL".spec_bytes(), "BSD-3-Clause-No-Nuclear-License".spec_bytes()),
{
    reveal_strlit("BSD-3-Clause-LBNL");
    reveal_strlit("BSD-3-Clause-No-Nuclear-License");
    is_ascii_chars_encode_utf8("BSD-3-Clause-LBNL"@);
    is_ascii_chars_encode_utf8("BSD-3-Clause-No-Nuclear-License"@);
    let a = "BSD-3-Clause-LBNL".spec_bytes();
    let b = "BSD-3-Clause-No-Nuclear-License".spec_bytes();
    assert(a.subrange(0, 13) =~= b.subrange(0, 13));
    assert(differs_below(a, b, 13));
}

proof fn lemma_license_order_45()
    ensures
        sorts_before("BSD-3-Clause-No-Nuclear-License".spec_bytes(), "BSD-3-Clause-No-Nuclear-License-2014".spec_bytes()),
{
    reveal_strlit("BSD-3-Clause-No-Nuclear-License");
    reveal_strlit("BSD-3-Clause-No-Nuclear-License-2014");
    is_ascii_chars_encode_utf8("BSD-3-Clause-No-Nuclear-License"@);
    is_ascii_chars_encode_utf8("BSD-3-Clause-No-Nuclear-License-2014"@);
    let a = "BSD-3-Clause-No-Nuclear-License".spec_bytes();
    let b = "BSD-3-Clause-No-Nuclear-License-2014".spec_bytes();
    assert(b.subrange(0, 31) =~= a);
}

proof fn lemma_license_order_46()
    ensures
        sorts_before("BSD-3-Clause-No-Nuclear-License-2014".spec_bytes(), "BSD-3-Clause-No-Nuclear-Warranty".spec_bytes()),
{
    reveal_strlit("BSD-3-Clause-No-Nuclear-License-2014");
    reveal_strlit("BSD-3-Clause-No-Nuclear-Warranty");
    is_ascii_chars_encode_utf8("BSD-3-Clause-No-Nuclear-License-2014"@);
    is_ascii_chars_encode_utf8("BSD-3-Clause-No-Nuclear-Warranty"@);
    let a = "BSD-3-Clause-No-Nuclear-License-2014".spec_bytes();
    let b = "BSD-3-Clause-No-Nuclear-Warranty".spec_bytes();
    assert(a.subrange(0, 24) =~= b.subrange(0, 24));
    assert(differs_below(a, b, 24));
}

proof fn lemma_license_order_47()
    ensures
        sorts_before("BSD-3-Clause-No-Nuclear-Warranty".spec_bytes(), "BSD-3-Clause-Open-MPI".spec_bytes()),
{
    reveal_strlit("BSD-3-Clause-No-Nuclear-Warranty");
    reveal_strlit("BSD-3-Clause-Open-MPI");
    is_ascii_chars_encode_utf8("BSD-3-Clause-No-Nuclear-Warranty"@);
    is_ascii_chars_encode_utf8("BSD-3-Clause-Open-MPI"@);
    let a = "BSD-3-Clause-No-Nuclear-Warranty".spec_bytes();
    let b = "BSD-3-Clause-Open-MPI".spec_bytes();
    assert(a.subrange(0, 13) =~= b.subrange(0, 13));
    assert(differs_below(a, b, 13));
}

proof fn lemma_license_order_48()
    ensures
        sorts_before("BSD-3-Clause-Open-MPI".spec_bytes(), "BSD-4-Clause".spec_bytes()),
{
    reveal_strlit("BSD-3-Clause-Open-MPI");
    reveal_strlit("BSD-4-Clause");
    is_ascii_chars_encode_utf8("BSD-3-Clause-Open-MPI"@);
    is_ascii_chars_encode_utf8("BSD-4-Clause"@);
    let a = "BSD-3-Clause-Open-MPI".spec_bytes();
    let b = "BSD-4-Clause".spec_bytes();
    assert(a.subrange(0, 4) =~= b.subrange(0, 4));
    assert(differs_below(a, b, 4));
}

proof fn lemma_license_order_49()
    ensures
        sorts_before("BSD-4-Clause".spec_bytes(), "BSD-4-Clause-UC".spec_bytes()),
{
    reveal_strlit("BSD-4-Clause");
    reveal_strlit("BSD-4-Clause-UC");
    is_ascii_chars_encode_utf8("BSD-4-Clause"@);
    is_ascii_chars_encode_utf8("BSD-4-Clause-UC"@);
    let a = "BSD-4-Clause".spec_bytes();
    let b = "BSD-4-Clause-UC".spec_bytes();
    assert(b.subrange(0, 12) =~= a);
}

proof fn lemma_license_order_50()
    ensures
        sorts_before("BSD-4-Clause-UC".spec_bytes(), "BSD-Protection".spec_bytes()),
{
    reveal_strlit("BSD-4-Clause-UC");
    reveal_strlit("BSD-Protection");
    is_ascii_chars_encode_utf8("BSD-4-Clause-UC"@);
    is_ascii_chars_encode_utf8("BSD-Protection"@);
    let a = "BSD-4-Clause-UC".spec_bytes();
    let b = "BSD-Protection".spec_bytes();
    assert(a.subrange(0, 4) =~= b.subrange(0, 4));
    assert(differs_below(a, b, 4));
}

proof fn lemma_license_order_51()
    ensures
        sorts_before("BSD-Protection".spec_bytes(), "BSD-Source-Code".spec_bytes()),
{
    reveal_strlit("BSD-Protection");
    reveal_strlit("BSD-Source-Code");
    is_ascii_chars_encode_utf8("BSD-Protection"@);
    is_ascii_chars_encode_utf8("BSD-Source-Code"@);
    let a = "BSD-Protection".spec_bytes();
    let b = "BSD-Source-Code".spec_bytes();
    assert(a.subrange(0, 4) =~= b.subrange(0, 4));
    assert(differs_below(a, b, 4));
}

proof fn lemma_license_order_52()
    ensures
        sorts_before("BSD-Source-Code".spec_bytes(), "BSL-1.0".spec_bytes()),
{
    reveal_strlit("BSD-Source-Code");
    reveal_strlit("BSL-1.0");
    is_ascii_chars_encode_utf8("BSD-Source-Code"@);
    is_ascii_chars_encode_utf8("BSL-1.0"@);
    let a = "BSD-Source-Code".spec_bytes();
    let b = "BSL-1.0".spec_bytes();
    assert(a.subrange(0, 2) =~= b.subrange(0, 2));
    assert(differs_below(a, b, 2));
}

proof fn lemma_license_order_53()
    ensures
        sorts_before("BSL-1.0".spec_bytes(), "Bahyph".spec_bytes()),
{
    reveal_strlit("BSL-1.0");
    reveal_strlit("Bahyph");
    is_ascii_chars_encode_utf8("BSL-1.0"@);
    is_ascii_chars_encode_utf8("Bahyph"@);
    let a = "BSL-1.0".spec_bytes();
    let b = "Bahyph".spec_bytes();
    assert(a.subrange(0, 1) =~= b.subrange(0, 1));
    assert(differs_below(a, b, 1));
}

proof fn lemma_license_order_54()
    ensures
        sorts_before("Bahyph".spec_bytes(), "Barr".spec_bytes()),
{
    reveal_strlit("Bahyph");
    reveal_strlit("Barr");
    is_ascii_chars_encode_utf8("Bahyph"@);
    is_ascii_chars_encode_utf8("Barr"@);
    let a = "Bahyph".spec_bytes();
    let b = "Barr".spec_bytes();
    assert(a.subrange(0, 2) =~= b.subrange(0, 2));
    assert(differs_below(a, b, 2));
}

proof fn lemma_license_order_55()
    ensures
        sorts_before("Barr".spec_bytes(), "Beerware".spec_bytes()),
{
    reveal_strlit("Barr");
    reveal_strlit("Beerware");
    is_ascii_chars_encode_utf8("Barr"@);
    is_ascii_chars_encode_utf8("Beerware"@);
    let a = "Barr".spec_bytes();
    let b = "Beerware".spec_bytes();
    assert(a.subrange(0, 1) =~= b.subrange(0, 1));
    assert(differs_below(a, b, 1));
}

proof fn lemma_license_order_56()
    ensures
        sorts_before("Beerware".spec_bytes(), "BitTorrent-1.0".spec_bytes()),
{
    reveal_strlit("Beerware");
    reveal_strlit("BitTorrent-1.0");
    is_ascii_chars_encode_utf8("Beerware"@);
    is_ascii_chars_encode_utf8("BitTorrent-1.0"@);
    let a = "Beerware".spec_bytes();
    let b = "BitTorrent-1.0".spec_bytes();
    assert(a.subrange(0, 1) =~= b.subrange(0, 1));
    assert(differs_below(a, b, 1));
}

proof fn lemma_license_order_57()
    ensures
        sorts_before("BitTorrent-1.0".spec_bytes(), "BitTorrent-1.1".spec_bytes()),
{
    reveal_strlit("BitTorrent-1.0");
    reveal_strlit("BitTorrent-1.1");
    is_ascii_chars_encode_utf8("BitTorrent-1.0"@);
    is_ascii_chars_encode_utf8("BitTorrent-1.1"@);
    let a = "BitTorrent-1.0".spec_bytes();
    let b = "BitTorrent-1.1".spec_bytes();
    assert(a.subrange(0, 13) =~= b.subrange(0, 13));
    assert(differs_below(a, b, 13));
}

proof fn lemma_license_order_58()
    ensures
        sorts_before("BitTorrent-1.1".spec_bytes(), "BlueOak-1.0.0".spec_bytes()),
{
    reveal_strlit("BitTorrent-1.1");
    reveal_strlit("BlueOak-1.0.0");
    is_ascii_chars_encode_utf8("BitTorrent-1.1"@);
    is_ascii_chars_encode_utf8("BlueOak-1.0.0"@);
    let a = "BitTorrent-1.1".spec_bytes();
    let b = "BlueOak-1.0.0".spec_bytes();
    assert(a.subrange(0, 1) =~= b.subrange(0, 1));
    assert(differs_below(a, b, 1));
}

proof fn lemma_license_order_59()
    ensures
        sorts_before("BlueOak-1.0.0".spec_bytes(), "Borceux".spec_bytes()),
{
    reveal_strlit("BlueOak-1.0.0");
    reveal_strlit("Borceux");
    is_ascii_chars_encode_utf8("BlueOak-1.0.0"@);
    is_ascii_chars_encode_utf8("Borceux"@);
    let a = "BlueOak-1.0.0".spec_bytes();
    let b = "Borceux".spec_bytes();
    assert(a.subrange(0, 1) =~= b.subrange(0, 1));
    assert(differs_below(a, b, 1));
}

proof fn lemma_license_order_60()
    ensures
        sorts_before("Borceux".spec_bytes(), "CATOSL-1.1".spec_bytes()),
{
    reveal_strlit("Borceux");
    reveal_strlit("CATOSL-1.1");
    is_ascii_chars_encode_utf8("Borceux"@);
    is_ascii_chars_encode_utf8("CATOSL-1.1"@);
    let a = "Borceux".spec_bytes();
    let b = "CATOSL-1.1".spec_bytes();
    assert(a.subrange(0, 0) =~= b.subrange(0, 0));
    assert(differs_below(a, b, 0));
}

proof fn lemma_license_order_61()
    ensures
        sorts_before("CATOSL-1.1".spec_bytes(), "CC-BY-1.0".spec_bytes()),
{
    reveal_strlit("CATOSL-1.1");
    reveal_strlit("CC-BY-1.0");
    is_ascii_chars_encode_utf8("CATOSL-1.1"@);
    is_ascii_chars_encode_utf8("CC-BY-1.0"@);
    let a = "CATOSL-1.1".spec_bytes();
    let b = "CC-BY-1.0".spec_bytes();
    assert(a.subrange(0, 1) =~= b.subrange(0, 1));
    assert(differs_below(a, b, 1));
}

proof fn lemma_license_order_62()
    ensures
        sorts_before("CC-BY-1.0".spec_bytes(), "CC-BY-2.0".spec_bytes()),
{
    reveal_strlit("CC-BY-1.0");
    reveal_strlit("CC-BY-2.0");
    is_ascii_chars_encode_utf8("CC-BY-1.0"@);
    is_ascii_chars_encode_utf8("CC-BY-2.0"@);
    let a = "CC-BY-1.0".spec_bytes();
    let b = "CC-BY-2.0".spec_bytes();
    assert(a.subrange(0, 6) =~= b.subrange(0, 6));
    assert(differs_below(a, b, 6));
}

proof fn lemma_license_order_63()
    ensures
        sorts_before("CC-BY-2.0".spec_bytes(), "CC-BY-2.5".spec_bytes()),
{
    reveal_strlit("CC-BY-2.0");
    reveal_strlit("CC-BY-2.5");
    is_ascii_chars_encode_utf8("CC-BY-2.0"@);
    is_ascii_chars_encode_utf8("CC-BY-2.5"@);
    let a = "CC-BY-2.0".spec_bytes();
    let b = "CC-BY-2.5".spec_bytes();
    assert(a.subrange(0, 8) =~= b.subrange(0, 8));
    assert(differs_below(a, b, 8));
}

proof fn lemma_license_order_64()
    ensures
        sorts_before("CC-BY-2.5".spec_bytes(), "CC-BY-3.0".spec_bytes()),
{
    reveal_strlit("CC-BY-2.5");
    reveal_strlit("CC-BY-3.0");
    is_ascii_chars_encode_utf8("CC-BY-2.5"@);
    is_ascii_chars_encode_utf8("CC-BY-3.0"@);
    let a = "CC-BY-2.5".spec_bytes();
    let b = "CC-BY-3.0".spec_bytes();
    assert(a.subrange(0, 6) =~= b.subrange(0, 6));
    assert(differs_below(a, b, 6));
}

proof fn lemma_license_order_65()
    ensures
        sorts_before("CC-BY-3.0".spec_bytes(), "CC-BY-4.0".spec_bytes()),
{
    reveal_strlit("CC-BY-3.0");
    reveal_strlit("CC-BY-4.0");
    is_ascii_chars_encode_utf8("CC-BY-3.0"@);
    is_ascii_chars_encode_utf8("CC-BY-4.0"@);
    let a = "CC-BY-3.0".spec_bytes();
    let b = "CC-BY-4.0".spec_bytes();
    assert(a.subrange(0, 6) =~= b.subrange(0, 6));
    assert(differs_below(a, b, 6));
}

proof fn lemma_license_order_66()
    ensures
        sorts_before("CC-BY-4.0".spec_bytes(), "CC-BY-NC-1.0".spec_bytes()),
{
    reveal_strlit("CC-BY-4.0");
    reveal_strlit("CC-BY-NC-1.0");
    is_ascii_chars_encode_utf8("CC-BY-4.0"@);
    is_ascii_chars_encode_utf8("CC-BY-NC-1.0"@);
    let a = "CC-BY-4.0".spec_bytes();
    let b = "CC-BY-NC-1.0".spec_bytes();
    assert(a.subrange(0, 6) =~= b.subrange(0, 6));
    assert(differs_below(a, b, 6));
}

proof fn lemma_license_order_67()
    ensures
        sorts_before("CC-BY-NC-1.0".spec_bytes(), "CC-BY-NC-2.0".spec_bytes()),
{
    reveal_strlit("CC-BY-NC-1.0");
    reveal_strlit("CC-BY-NC-2.0");
    is_ascii_chars_encode_utf8("CC-BY-NC-1.0"@);
    is_ascii_chars_encode_utf8("CC-BY-NC-2.0"@);
    let a = "CC-BY-NC-1.0".spec_bytes();
    let b = "CC-BY-NC-2.0".spec_bytes();
    assert(a.subrange(0, 9) =~= b.subrange(0, 9));
    assert(differs_below(a, b, 9));
}

proof fn lemma_license_order_68()
    ensures
        sorts_before("CC-BY-NC-2.0".spec_bytes(), "CC-BY-NC-2.5".spec_bytes()),
{
    reveal_strlit("CC-BY-NC-2.0");
    reveal_strlit("CC-BY-NC-2.5");
    is_ascii_chars_encode_utf8("CC-BY-NC-2.0"@);
    is_ascii_chars_encode_utf8("CC-BY-NC-2.5"@);
    let a = "CC-BY-NC-2.0".spec_bytes();
    let b = "CC-BY-NC-2.5".spec_bytes();
    assert(a.subrange(0, 11) =~= b.subrange(0, 11));
    assert(differs_below(a, b, 11));
}

proof fn lemma_license_order_69()
    ensures
        sorts_before("CC-BY-NC-2.5".spec_bytes(), "CC-BY-NC-3.0".spec_bytes()),
{
    reveal_strlit("CC-BY-NC-2.5");
    reveal_strlit("CC-BY-NC-3.0");
    is_ascii_chars_encode_utf8("CC-BY-NC-2.5"@);
    is_ascii_chars_encode_utf8("CC-BY-NC-3.0"@);
    let a = "CC-BY-NC-2.5".spec_bytes();
    let b = "CC-BY-NC-3.0".spec_bytes();
    assert(a.subrange(0, 9) =~= b.subrange(0, 9));
    assert(differs_below(a, b, 9));
}

proof fn lemma_license_order_70()
    ensures
        sorts_before("CC-BY-NC-3.0".spec_bytes(), "CC-BY-NC-4.0".spec_bytes()),
{
    reveal_strlit("CC-BY-NC-3.0");
    reveal_strlit("CC-BY-NC-4.0");
    is_ascii_chars_encode_utf8("CC-BY-NC-3.0"@);
    is_ascii_chars_encode_utf8("CC-BY-NC-4.0"@);
    let a = "CC-BY-NC-3.0".spec_bytes();
    let b = "CC-BY-NC-4.0".spec_bytes();
    assert(a.subrange(0, 9) =~= b.subrange(0, 9));
    assert(differs_below(a, b, 9));
}

proof fn lemma_license_order_71()
    ensures
        sorts_before("CC-BY-NC-4.0".spec_bytes(), "CC-BY-NC-ND-1.0".spec_bytes()),
{
    reveal_strlit("CC-BY-NC-4.0");
    reveal_strlit("CC-BY-NC-ND-1.0");
    is_ascii_chars_encode_utf8("CC-BY-NC-4.0"@);
    is_ascii_chars_encode_utf8("CC-BY-NC-ND-1.0"@);
    let a = "CC-BY-NC-4.0".spec_bytes();
    let b = "CC-BY-NC-ND-1.0".spec_bytes();
    assert(a.subrange(0, 9) =~= b.subrange(0, 9));
    assert(differs_below(a, b, 9));
}

proof fn lemma_license_order_72()
    ensures
        sorts_before("CC-BY-NC-ND-1.0".spec_bytes(), "CC-BY-NC-ND-2.0".spec_bytes()),
{
    reveal_strlit("CC-BY-NC-ND-1.0");
    reveal_strlit("CC-BY-NC-ND-2.0");
    is_ascii_chars_encode_utf8("CC-BY-NC-ND-1.0"@);
    is_ascii_chars_encode_utf8("CC-BY-NC-ND-2.0"@);
    let a = "CC-BY-NC-ND-1.0".spec_bytes();
    let b = "CC-BY-NC-ND-2.0".spec_bytes();
    assert(a.subrange(0, 12) =~= b.subrange(0, 12));
    assert(differs_below(a, b, 12));
}

proof fn lemma_license_order_73()
    ensures
        sorts_before("CC-BY-NC-ND-2.0".spec_bytes(), "CC-BY-NC-ND-2.5".spec_bytes()),
{
    reveal_strlit("CC-BY-NC-ND-2.0");
    reveal_strlit("CC-BY-NC-ND-2.5");
    is_ascii_chars_encode_utf8("CC-BY-NC-ND-2.0"@);
    is_ascii_chars_encode_utf8("CC-BY-NC-ND-2.5"@);
    let a = "CC-BY-NC-ND-2.0".spec_bytes();
    let b = "CC-BY-NC-ND-2.5".spec_bytes();
    assert(a.subrange(0, 14) =~= b.subrange(0, 14));
    assert(differs_below(a, b, 14));
}

proof fn lemma_license_order_74()
    ensures
        sorts_before("CC-BY-NC-ND-2.5".spec_bytes(), "CC-BY-NC-ND-3.0".spec_bytes()),
{
    reveal_strlit("CC-BY-NC-ND-2.5");
    reveal_strlit("CC-BY-NC-ND-3.0");
    is_ascii_chars_encode_utf8("CC-BY-NC-ND-2.5"@);
    is_ascii_chars_encode_utf8("CC-BY-NC-ND-3.0"@);
    let a = "CC-BY-NC-ND-2.5".spec_bytes();
    let b = "CC-BY-NC-ND-3.0".spec_bytes();
    assert(a.subrange(0, 12) =~= b.subrange(0, 12));
    assert(differs_below(a, b, 12));
}

proof fn lemma_license_order_75()
    ensures
        sorts_before("CC-BY-NC-ND-3.0".spec_bytes(), "CC-BY-NC-ND-4.0".spec_bytes()),
{
    reveal_strlit("CC-BY-NC-ND-3.0");
    reveal_strlit("CC-BY-NC-ND-4.0");
    is_ascii_chars_encode_utf8("CC-BY-NC-ND-3.0"@);
    is_ascii_chars_encode_utf8("CC-BY-NC-ND-4.0"@);
    let a = "CC-BY-NC-ND-3.0".spec_bytes();
    let b = "CC-BY-NC-ND-4.0".spec_bytes();
    assert(a.subrange(0, 12) =~= b.subrange(0, 12));
    assert(differs_below(a, b, 12));
}

proof fn lemma_license_order_76()
    ensures
        sorts_before("CC-BY-NC-ND-4.0".spec_bytes(), "CC-BY-NC-SA-1.0".spec_bytes()),
{
    reveal_strlit("CC-BY-NC-ND-4.0");
    reveal_strlit("CC-BY-NC-SA-1.0");
    is_ascii_chars_encode_utf8("CC-BY-NC-ND-4.0"@);
    is_ascii_chars_encode_utf8("CC-BY-NC-SA-1.0"@);
    let a = "CC-BY-NC-ND-4.0".spec_bytes();
    let b = "CC-BY-NC-SA-1.0".spec_bytes();
    assert(a.subrange(0, 9) =~= b.subrange(0, 9));
    assert(differs_below(a, b, 9));
}

proof fn lemma_license_order_77()
    ensures
        sorts_before("CC-BY-NC-SA-1.0".spec_bytes(), "CC-BY-NC-SA-2.0".spec_bytes()),
{
    reveal_strlit("CC-BY-NC-SA-1.0");
    reveal_strlit("CC-BY-NC-SA-2.0");
    is_ascii_chars_encode_utf8("CC-BY-NC-SA-1.0"@);
    is_ascii_chars_encode_utf8("CC-BY-NC-SA-2.0"@);
    let a = "CC-BY-NC-SA-1.0".spec_bytes();
    let b = "CC-BY-NC-SA-2.0".spec_bytes();
    assert(a.subrange(0, 12) =~= b.subrange(0, 12));
    assert(differs_below(a, b, 12));
}

proof fn lemma_license_order_78()
    ensures
        sorts_before("CC-BY-NC-SA-2.0".spec_bytes(), "CC-BY-NC-SA-2.5".spec_bytes()),
{
    reveal_strlit("CC-BY-NC-SA-2.0");
    reveal_strlit("CC-BY-NC-SA-2.5");
    is_ascii_chars_encode_utf8("CC-BY-NC-SA-2.0"@);
    is_ascii_chars_encode_utf8("CC-BY-NC-SA-2.5"@);
    let a = "CC-BY-NC-SA-2.0".spec_bytes();
    let b = "CC-BY-NC-SA-2.5".spec_bytes();
    assert(a.subrange(0, 14) =~= b.subrange(0, 14));
    assert(differs_below(a, b, 14));
}

proof fn lemma_license_order_79()
    ensures
        sorts_before("CC-BY-NC-SA-2.5".spec_bytes(), "CC-BY-NC-SA-3.0".spec_bytes()),
{
    reveal_strlit("CC-BY-NC-SA-2.5");
    reveal_strlit("CC-BY-NC-SA-3.0");
    is_ascii_chars_encode_utf8("CC-BY-NC-SA-2.5"@);
    is_ascii_chars_encode_utf8("CC-BY-NC-SA-3.0"@);
    let a = "CC-BY-NC-SA-2.5".spec_bytes();
    let b = "CC-BY-NC-SA-3.0".spec_bytes();
    assert(a.subrange(0, 12) =~= b.subrange(0, 12));
    assert(differs_below(a, b, 12));
}

proof fn lemma_license_order_80()
    ensures
        sorts_before("CC-BY-NC-SA-3.0".spec_bytes(), "CC-BY-NC-SA-4.0".spec_bytes()),
{
    reveal_strlit("CC-BY-NC-SA-3.0");
    reveal_strlit("CC-BY-NC-SA-4.0");
    is_ascii_chars_encode_utf8("CC-BY-NC-SA-3.0"@);
    is_ascii_chars_encode_utf8("CC-BY-NC-SA-4.0"@);
    let a = "CC-BY-NC-SA-3.0".spec_bytes();
    let b = "CC-BY-NC-SA-4.0".spec_bytes();
    assert(a.subrange(0, 12) =~= b.subrange(0, 12));
    assert(differs_below(a, b, 12));
}

proof fn lemma_license_order_81()
    ensures
        sorts_before("CC-BY-NC-SA-4.0".spec_bytes(), "CC-BY-ND-1.0".spec_bytes()),
{
    reveal_strlit("CC-BY-NC-SA-4.0");
    reveal_strlit("CC-BY-ND-1.0");
    is_ascii_chars_encode_utf8("CC-BY-NC-SA-4.0"@);
    is_ascii_chars_encode_utf8("CC-BY-ND-1.0"@);
    let a = "CC-BY-NC-SA-4.0".spec_bytes();
    let b = "CC-BY-ND-1.0".spec_bytes();
    assert(a.subrange(0, 7) =~= b.subrange(0, 7));
    assert(differs_below(a, b, 7));
}

proof fn lemma_license_order_82()
    ensures
        sorts_before("CC-BY-ND-1.0".spec_bytes(), "CC-BY-ND-2.0".spec_bytes()),
{
    reveal_strlit("CC-BY-ND-1.0");
    reveal_strlit("CC-BY-ND-2.0");
    is_ascii_chars_encode_utf8("CC-BY-ND-1.0"@);
    is_ascii_chars_encode_utf8("CC-BY-ND-2.0"@);
    let a = "CC-BY-ND-1.0".spec_bytes();
    let b = "CC-BY-ND-2.0".spec_bytes();
    assert(a.subrange(0, 9) =~= b.subrange(0, 9));
    assert(differs_below(a, b, 9));
}

proof fn lemma_license_order_83()
    ensures
        sorts_before("CC-BY-ND-2.0".spec_bytes(), "CC-BY-ND-2.5".spec_bytes()),
{
    reveal_strlit("CC-BY-ND-2.0");
    reveal_strlit("CC-BY-ND-2.5");
    is_ascii_chars_encode_utf8("CC-BY-ND-2.0"@);
    is_ascii_chars_encode_utf8("CC-BY-ND-2.5"@);
    let a = "CC-BY-ND-2.0".spec_bytes();
    let b = "CC-BY-ND-2.5".spec_bytes();
    assert(a.subrange(0, 11) =~= b.subrange(0, 11));
    assert(differs_below(a, b, 11));
}

proof fn lemma_license_order_84()
    ensures
        sorts_before("CC-BY-ND-2.5".spec_bytes(), "CC-BY-ND-3.0".spec_bytes()),
{
    reveal_strlit("CC-BY-ND-2.5");
    reveal_strlit("CC-BY-ND-3.0");
    is_ascii_chars_encode_utf8("CC-BY-ND-2.5"@);
    is_ascii_chars_encode_utf8("CC-BY-ND-3.0"@);
    let a = "CC-BY-ND-2.5".spec_bytes();
    let b = "CC-BY-ND-3.0".spec_bytes();
    assert(a.subrange(0, 9) =~= b.subrange(0, 9));
    assert(differs_below(a, b, 9));
}

proof fn lemma_license_order_85()
    ensures
        sorts_before("CC-BY-ND-3.0".spec_bytes(), "CC-BY-ND-4.0".spec_bytes()),
{
    reveal_strlit("CC-BY-ND-3.0");
    reveal_strlit("CC-BY-ND-4.0");
    is_ascii_chars_encode_utf8("CC-BY-ND-3.0"@);
    is_ascii_chars_encode_utf8("CC-BY-ND-4.0"@);
    let a = "CC-BY-ND-3.0".spec_bytes();
    let b = "CC-BY-ND-4.0".spec_bytes();
    assert(a.subrange(0, 9) =~= b.subrange(0, 9));
    assert(differs_below(a, b, 9));
}

proof fn lemma_license_order_86()
    ensures
        sorts_before("CC-BY-ND-4.0".spec_bytes(), "CC-BY-SA-1.0".spec_bytes()),
{
    reveal_strlit("CC-BY-ND-4.0");
    reveal_strlit("CC-BY-SA-1.0");
    is_ascii_chars_encode_utf8("CC-BY-ND-4.0"@);
    is_ascii_chars_encode_utf8("CC-BY-SA-1.0"@);
    let a = "CC-BY-ND-4.0".spec_bytes();
    let b = "CC-BY-SA-1.0".spec_bytes();
    assert(a.subrange(0, 6) =~= b.subrange(0, 6));
    assert(differs_below(a, b, 6));
}

proof fn lemma_license_order_87()
    ensures
        sorts_before("CC-BY-SA-1.0".spec_bytes(), "CC-BY-SA-2.0".spec_bytes()),
{
    reveal_strlit("CC-BY-SA-1.0");
    reveal_strlit("CC-BY-SA-2.0");
    is_ascii_chars_encode_utf8("CC-BY-SA-1.0"@);
    is_ascii_chars_encode_utf8("CC-BY-SA-2.0"@);
    let a = "CC-BY-SA-1.0".spec_bytes();
    let b = "CC-BY-SA-2.0".spec_bytes();
    assert(a.subrange(0, 9) =~= b.subrange(0, 9));
    assert(differs_below(a, b, 9));
}

proof fn lemma_license_order_88()
    ensures
        sorts_before("CC-BY-SA-2.0".spec_bytes(), "CC-BY-SA-2.5".spec_bytes()),
{
    reveal_strlit("CC-BY-SA-2.0");
    reveal_strlit("CC-BY-SA-2.5");
    is_ascii_chars_encode_utf8("CC-BY-SA-2.0"@);
    is_ascii_chars_encode_utf8("CC-BY-SA-2.5"@);
    let a = "CC-BY-SA-2.0".spec_bytes();
    let b = "CC-BY-SA-2.5".spec_bytes();
    assert(a.subrange(0, 11) =~= b.subrange(0, 11));
    assert(differs_below(a, b, 11));
}

proof fn lemma_license_order_89()
    ensures
        sorts_before("CC-BY-SA-2.5".spec_bytes(), "CC-BY-SA-3.0".spec_bytes()),
{
    reveal_strlit("CC-BY-SA-2.5");
    reveal_strlit("CC-BY-SA-3.0");
    is_ascii_chars_encode_utf8("CC-BY-SA-2.5"@);
    is_ascii_chars_encode_utf8("CC-BY-SA-3.0"@);
    let a = "CC-BY-SA-2.5".spec_bytes();
    let b = "CC-BY-SA-3.0".spec_bytes();
    assert(a.subrange(0, 9) =~= b.subrange(0, 9));
    assert(differs_below(a, b, 9));
}

proof fn lemma_license_order_90()
    ensures
        sorts_before("CC-BY-SA-3.0".spec_bytes(), "CC-BY-SA-4.0".spec_bytes()),
{
    reveal_strlit("CC-BY-SA-3.0");
    reveal_strlit("CC-BY-SA-4.0");
    is_ascii_chars_encode_utf8("CC-BY-SA-3.0"@);
    is_ascii_chars_encode_utf8("CC-BY-SA-4.0"@);
    let a = "CC-BY-SA-3.0".spec_bytes();
    let b = "CC-BY-SA-4.0".spec_bytes();
    assert(a.subrange(0, 9) =~= b.subrange(0, 9));
    assert(differs_below(a, b, 9));
}

proof fn lemma_license_order_91()
    ensures
        sorts_before("CC-BY-SA-4.0".spec_bytes(), "CC-PDDC".spec_bytes()),
{
    reveal_strlit("CC-BY-SA-4.0");
    reveal_strlit("CC-PDDC");
    is_ascii_chars_encode_utf8("CC-BY-SA-4.0"@);
    is_ascii_chars_encode_utf8("CC-PDDC"@);
    let a = "CC-BY-SA-4.0".spec_bytes();
    let b = "CC-PDDC".spec_bytes();
    assert(a.subrange(0, 3) =~= b.subrange(0, 3));
    assert(differs_below(a, b, 3));
}

proof fn lemma_license_order_92()
    ensures
        sorts_before("CC-PDDC".spec_bytes(), "CC0-1.0".spec_bytes()),
{
    reveal_strlit("CC-PDDC");
    reveal_strlit("CC0-1.0");
    is_ascii_chars_encode_utf8("CC-PDDC"@);
    is_ascii_chars_encode_utf8("CC0-1.0"@);
    let a = "CC-PDDC".spec_bytes();
    let b = "CC0-1.0".spec_bytes();
    assert(a.subrange(0, 2) =~= b.subrange(0, 2));
    assert(differs_below(a, b, 2));
}

proof fn lemma_license_order_93()
    ensures
        sorts_before("CC0-1.0".spec_bytes(), "CDDL-1.0".spec_bytes()),
{
    reveal_strlit("CC0-1.0");
    reveal_strlit("CDDL-1.0");
    is_ascii_chars_encode_utf8("CC0-1.0"@);
    is_ascii_chars_encode_utf8("CDDL-1.0"@);
    let a = "CC0-1.0".spec_bytes();
    let b = "CDDL-1.0".spec_bytes();
    assert(a.subrange(0, 1) =~= b.subrange(0, 1));
    assert(differs_below(a, b, 1));
}

proof fn lemma_license_order_94()
    ensures
        sorts_before("CDDL-1.0".spec_bytes(), "CDDL-1.1".spec_bytes()),
{
    reveal_strlit("CDDL-1.0");
    reveal_strlit("CDDL-1.1");
    is_ascii_chars_encode_utf8("CDDL-1.0"@);
    is_ascii_chars_encode_utf8("CDDL-1.1"@);
    let a = "CDDL-1.0".spec_bytes();
    let b = "CDDL-1.1".spec_bytes();
    assert(a.subrange(0, 7) =~= b.subrange(0, 7));
    assert(differs_below(a, b, 7));
}

proof fn lemma_license_order_95()
    ensures
        sorts_before("CDDL-1.1".spec_bytes(), "CDLA-Permissive-1.0".spec_bytes()),
{
    reveal_strlit("CDDL-1.1");
    reveal_strlit("CDLA-Permissive-1.0");
    is_ascii_chars_encode_utf8("CDDL-1.1"@);
    is_ascii_chars_encode_utf8("CDLA-Permissive-1.0"@);
    let a = "CDDL-1.1".spec_bytes();
    let b = "CDLA-Permissive-1.0".spec_bytes();
    assert(a.subrange(0, 2) =~= b.subrange(0, 2));
    assert(differs_below(a, b, 2));
}

proof fn lemma_license_order_96()
    ensures
        sorts_before("CDLA-Permissive-1.0".spec_bytes(), "CDLA-Sharing-1.0".spec_bytes()),
{
    reveal_strlit("CDLA-Permissive-1.0");
    reveal_strlit("CDLA-Sharing-1.0");
    is_ascii_chars_encode_utf8("CDLA-Permissive-1.0"@);
    is_ascii_chars_encode_utf8("CDLA-Sharing-1.0"@);
    let a = "CDLA-Permissive-1.0".spec_bytes();
    let b = "CDLA-Sharing-1.0".spec_bytes();
    assert(a.subrange(0, 5) =~= b.subrange(0, 5));
    assert(differs_below(a, b, 5));
}

proof fn lemma_license_order_97()
    ensures
        sorts_before("CDLA-Sharing-1.0".spec_bytes(), "CECILL-1.0".spec_bytes()),
{
    reveal_strlit("CDLA-Sharing-1.0");
    reveal_strlit("CECILL-1.0");
    is_ascii_chars_encode_utf8("CDLA-Sharing-1.0"@);
    is_ascii_chars_encode_utf8("CECILL-1.0"@);
    let a = "CDLA-Sharing-1.0".spec_bytes();
    let b = "CECILL-1.0".spec_bytes();
    assert(a.subrange(0, 1) =~= b.subrange(0, 1));
    assert(differs_below(a, b, 1));
}

proof fn lemma_license_order_98()
    ensures
        sorts_before("CECILL-1.0".spec_bytes(), "CECILL-1.1".spec_bytes()),
{
    reveal_strlit("CECILL-1.0");
    reveal_strlit("CECILL-1.1");
    is_ascii_chars_encode_utf8("CECILL-1.0"@);
    is_ascii_chars_encode_utf8("CECILL-1.1"@);
    let a = "CECILL-1.0".spec_bytes();
    let b = "CECILL-1.1".spec_bytes();
    assert(a.subrange(0, 9) =~= b.subrange(0, 9));
    assert(differs_below(a, b, 9));
}

proof fn lemma_license_order_99()
    ensures
        sorts_before("CECILL-1.1".spec_bytes(), "CECILL-2.0".spec_bytes()),
{
    reveal_strlit("CECILL-1.1");
    reveal_strlit("CECILL-2.0");
    is_ascii_chars_encode_utf8("CECILL-1.1"@);
    is_ascii_chars_encode_utf8("CECILL-2.0"@);
    let a = "CECILL-1.1".spec_bytes();
    let b = "CECILL-2.0".spec_bytes();
    assert(a.subrange(0, 7) =~= b.subrange(0, 7));
    assert(differs_below(a, b, 7));
}

proof fn lemma_license_order_100()
    ensures
        sorts_before("CECILL-2.0".spec_bytes(), "CECILL-2.1".spec_bytes()),
{
    reveal_strlit("CECILL-2.0");
    reveal_strlit("CECILL-2.1");
    is_ascii_chars_encode_utf8("CECILL-2.0"@);
    is_ascii_chars_encode_utf8("CECILL-2.1"@);
    let a = "CECILL-2.0".spec_bytes();
    let b = "CECILL-2.1".spec_bytes();
    assert(a.subrange(0, 9) =~= b.subrange(0, 9));
    assert(differs_below(a, b, 9));
}

proof fn lemma_license_order_101()
    ensures
        sorts_before("CECILL-2.1".spec_bytes(), "CECILL-B".spec_bytes()),
{
    reveal_strlit("CECILL-2.1");
    reveal_strlit("CECILL-B");
    is_ascii_chars_encode_utf8("CECILL-2.1"@);
    is_ascii_chars_encode_utf8("CECILL-B"@);
    let a = "CECILL-2.1".spec_bytes();
    let b = "CECILL-B".spec_bytes();
    assert(a.subrange(0, 7) =~= b.subrange(0, 7));
    assert(differs_below(a, b, 7));
}

proof fn lemma_license_order_102()
    ensures
        sorts_before("CECILL-B".spec_bytes(), "CECILL-C".spec_bytes()),
{
    reveal_strlit("CECILL-B");
    reveal_strlit("CECILL-C");
    is_ascii_chars_encode_utf8("CECILL-B"@);
    is_ascii_chars_encode_utf8("CECILL-C"@);
    let a = "CECILL-B".spec_bytes();
    let b = "CECILL-C".spec_bytes();
    assert(a.subrange(0, 7) =~= b.subrange(0, 7));
    assert(differs_below(a, b, 7));
}

proof fn lemma_license_order_103()
    ensures
        sorts_before("CECILL-C".spec_bytes(), "CERN-OHL-1.1".spec_bytes()),
{
    reveal_strlit("CECILL-C");
    reveal_strlit("CERN-OHL-1.1");
    is_ascii_chars_encode_utf8("CECILL-C"@);
    is_ascii_chars_encode_utf8("CERN-OHL-1.1"@);
    let a = "CECILL-C".spec_bytes();
    let b = "CERN-OHL-1.1".spec_bytes();
    assert(a.subrange(0, 2) =~= b.subrange(0, 2));
    assert(differs_below(a, b, 2));
}

proof fn lemma_license_order_104()
    ensures
        sorts_before("CERN-OHL-1.1".spec_bytes(), "CERN-OHL-1.2".spec_bytes()),
{
    reveal_strlit("CERN-OHL-1.1");
    reveal_strlit("CERN-OHL-1.2");
    is_ascii_chars_encode_utf8("CERN-OHL-1.1"@);
    is_ascii_chars_encode_utf8("CERN-OHL-1.2"@);
    let a = "CERN-OHL-1.1".spec_bytes();
    let b = "CERN-OHL-1.2".spec_bytes();
    assert(a.subrange(0, 11) =~= b.subrange(0, 11));
    assert(differs_below(a, b, 11));
}

proof fn lemma_license_order_105()
    ensures
        sorts_before("CERN-OHL-1.2".spec_bytes(), "CNRI-Jython".spec_bytes()),
{
    reveal_strlit("CERN-OHL-1.2");
    reveal_strlit("CNRI-Jython");
    is_ascii_chars_encode_utf8("CERN-OHL-1.2"@);
    is_ascii_chars_encode_utf8("CNRI-Jython"@);
    let a = "CERN-OHL-1.2".spec_bytes();
    let b = "CNRI-Jython".spec_bytes();
    assert(a.subrange(0, 1) =~= b.subrange(0, 1));
    assert(differs_below(a, b, 1));
}

proof fn lemma_license_order_106()
    ensures
        sorts_before("CNRI-Jython".spec_bytes(), "CNRI-Python".spec_bytes()),
{
    reveal_strlit("CNRI-Jython");
    reveal_strlit("CNRI-Python");
    is_ascii_chars_encode_utf8("CNRI-Jython"@);
    is_ascii_chars_encode_utf8("CNRI-Python"@);
    let a = "CNRI-Jython".spec_bytes();
    let b = "CNRI-Python".spec_bytes();
    assert(a.subrange(0, 5) =~= b.subrange(0, 5));
    assert(differs_below(a, b, 5));
}

proof fn lemma_license_order_107()
    ensures
        sorts_before("CNRI-Python".spec_bytes(), "CNRI-Python-GPL-Compatible".spec_bytes()),
{
    reveal_strlit("CNRI-Python");
    reveal_strlit("CNRI-Python-GPL-Compatible");
    is_ascii_chars_encode_utf8("CNRI-Python"@);
    is_ascii_chars_encode_utf8("CNRI-Python-GPL-Compatible"@);
    let a = "CNRI-Python".spec_bytes();
    let b = "CNRI-Python-GPL-Compatible".spec_bytes();
    assert(b.subrange(0, 11) =~= a);
}

proof fn lemma_license_order_108()
    ensures
        sorts_before("CNRI-Python-GPL-Compatible".spec_bytes(), "CPAL-1.0".spec_bytes()),
{
    reveal_strlit("CNRI-Python-GPL-Compatible");
    reveal_strlit("CPAL-1.0");
    is_ascii_chars_encode_utf8("CNRI-Python-GPL-Compatible"@);
    is_ascii_chars_encode_utf8("CPAL-1.0"@);
    let a = "CNRI-Python-GPL-Compatible".spec_bytes();
    let b = "CPAL-1.0".spec_bytes();
    assert(a.subrange(0, 1) =~= b.subrange(0, 1));
    assert(differs_below(a, b, 1));
}

proof fn lemma_license_order_109()
    ensures
        sorts_before("CPAL-1.0".spec_bytes(), "CPL-1.0".spec_bytes()),
{
    reveal_strlit("CPAL-1.0");
    reveal_strlit("CPL-1.0");
    is_ascii_chars_encode_utf8("CPAL-1.0"@);
    is_ascii_chars_encode_utf8("CPL-1.0"@);
    let a = "CPAL-1.0".spec_bytes();
    let b = "CPL-1.0".spec_bytes();
    assert(a.subrange(0, 2) =~= b.subrange(0, 2));
    assert(differs_below(a, b, 2));
}

proof fn lemma_license_order_110()
    ensures
        sorts_before("CPL-1.0".spec_bytes(), "CPOL-1.02".spec_bytes()),
{
    reveal_strlit("CPL-1.0");
    reveal_strlit("CPOL-1.02");
    is_ascii_chars_encode_utf8("CPL-1.0"@);
    is_ascii_chars_encode_utf8("CPOL-1.02"@);
    let a = "CPL-1.0".spec_bytes();
    let b = "CPOL-1.02".spec_bytes();
    assert(a.subrange(0, 2) =~= b.subrange(0, 2));
    assert(differs_below(a, b, 2));
}

proof fn lemma_license_order_111()
    ensures
        sorts_before("CPOL-1.02".spec_bytes(), "CUA-OPL-1.0".spec_bytes()),
{
    reveal_strlit("CPOL-1.02");
    reveal_strlit("CUA-OPL-1.0");
    is_ascii_chars_encode_utf8("CPOL-1.02"@);
    is_ascii_chars_encode_utf8("CUA-OPL-1.0"@);
    let a = "CPOL-1.02".spec_bytes();
    let b = "CUA-OPL-1.0".spec_bytes();
    assert(a.subrange(0, 1) =~= b.subrange(0, 1));
    assert(differs_below(a, b, 1));
}

proof fn lemma_license_order_112()
    ensures
        sorts_before("CUA-OPL-1.0".spec_bytes(), "Caldera".spec_bytes()),
{
    reveal_strlit("CUA-OPL-1.0");
    reveal_strlit("Caldera");
    is_ascii_chars_encode_utf8("CUA-OPL-1.0"@);
    is_ascii_chars_encode_utf8("Caldera"@);
    let a = "CUA-OPL-1.0".spec_bytes();
    let b = "Caldera".spec_bytes();
    assert(a.subrange(0, 1) =~= b.subrange(0, 1));
    assert(differs_below(a, b, 1));
}

proof fn lemma_license_order_113()
    ensures
        sorts_before("Caldera".spec_bytes(), "ClArtistic".spec_bytes()),
{
    reveal_strlit("Caldera");
    reveal_strlit("ClArtistic");
    is_ascii_chars_encode_utf8("Caldera"@);
    is_ascii_chars_encode_utf8("ClArtistic"@);
    let a = "Caldera".spec_bytes();
    let b = "ClArtistic".spec_bytes();
    assert(a.subrange(0, 1) =~= b.subrange(0, 1));
    assert(differs_below(a, b, 1));
}

proof fn lemma_license_order_114()
    ensures
        sorts_before("ClArtistic".spec_bytes(), "Condor-1.1".spec_bytes()),
{
    reveal_strlit("ClArtistic");
    reveal_strlit("Condor-1.1");
    is_ascii_chars_encode_utf8("ClArtistic"@);
    is_ascii_chars_encode_utf8("Condor-1.1"@);
    let a = "ClArtistic".spec_bytes();
    let b = "Condor-1.1".spec_bytes();
    assert(a.subrange(0, 1) =~= b.subrange(0, 1));
    assert(differs_below(a, b, 1));
}

proof fn lemma_license_order_115()
    ensures
        sorts_before("Condor-1.1".spec_bytes(), "Crossword".spec_bytes()),
{
    reveal_strlit("Condor-1.1");
    reveal_strlit("Crossword");
    is_ascii_chars_encode_utf8("Condor-1.1"@);
    is_ascii_chars_encode_utf8("Crossword"@);
    let a = "Condor-1.1".spec_bytes();
    let b = "Crossword".spec_bytes();
    assert(a.subrange(0, 1) =~= b.subrange(0, 1));
    assert(differs_below(a, b, 1));
}

proof fn lemma_license_order_116()
    ensures
        sorts_before("Crossword".spec_bytes(), "CrystalStacker".spec_bytes()),
{
    reveal_strlit("Crossword");
    reveal_strlit("CrystalStacker");
    is_ascii_chars_encode_utf8("Crossword"@);
    is_ascii_chars_encode_utf8("CrystalStacker"@);
    let a = "Crossword".spec_bytes();
    let b = "CrystalStacker".spec_bytes();
    assert(a.subrange(0, 2) =~= b.subrange(0, 2));
    assert(differs_below(a, b, 2));
}

proof fn lemma_license_order_117()
    ensures
        sorts_before("CrystalStacker".spec_bytes(), "Cube".spec_bytes()),
{
    reveal_strlit("CrystalStacker");
    reveal_strlit("Cube");
    is_ascii_chars_encode_utf8("CrystalStacker"@);
    is_ascii_chars_encode_utf8("Cube"@);
    let a = "CrystalStacker".spec_bytes();
    let b = "Cube".spec_bytes();
    assert(a.subrange(0, 1) =~= b.subrange(0, 1));
    assert(differs_below(a, b, 1));
}

proof fn lemma_license_order_118()
    ensures
        sorts_before("Cube".spec_bytes(), "D-FSL-1.0".spec_bytes()),
{
    reveal_strlit("Cube");
    reveal_strlit("D-FSL-1.0");
    is_ascii_chars_encode_utf8("Cube"@);
    is_ascii_chars_encode_utf8("D-FSL-1.0"@);
    let a = "Cube".spec_bytes();
    let b = "D-FSL-1.0".spec_bytes();
    assert(a.subrange(0, 0) =~= b.subrange(0, 0));
    assert(differs_below(a, b, 0));
}

proof fn lemma_license_order_119()
    ensures
        sorts_before("D-FSL-1.0".spec_bytes(), "DOC".spec_bytes()),
{
    reveal_strlit("D-FSL-1.0");
    reveal_strlit("DOC");
    is_ascii_chars_encode_utf8("D-FSL-1.0"@);
    is_ascii_chars_encode_utf8("DOC"@);
    let a = "D-FSL-1.0".spec_bytes();
    let b = "DOC".spec_bytes();
    assert(a.subrange(0, 1) =~= b.subrange(0, 1));
    assert(differs_below(a, b, 1));
}

proof fn lemma_license_order_120()
    ensures
        sorts_before("DOC".spec_bytes(), "DSDP".spec_bytes()),
{
    reveal_strlit("DOC");
    reveal_strlit("DSDP");
    is_ascii_chars_encode_utf8("DOC"@);
    is_ascii_chars_encode_utf8("DSDP"@);
    let a = "DOC".spec_bytes();
    let b = "DSDP".spec_bytes();
    assert(a.subrange(0, 1) =~= b.subrange(0, 1));
    assert(differs_below(a, b, 1));
}

proof fn lemma_license_order_121()
    ensures
        sorts_before("DSDP".spec_bytes(), "Dotseqn".spec_bytes()),
{
    reveal_strlit("DSDP");
    reveal_strlit("Dotseqn");
    is_ascii_chars_encode_utf8("DSDP"@);
    is_ascii_chars_encode_utf8("Dotseqn"@);
    let a = "DSDP".spec_bytes();
    let b = "Dotseqn".spec_bytes();
    assert(a.subrange(0, 1) =~= b.subrange(0, 1));
    assert(differs_below(a, b, 1));
}

proof fn lemma_license_order_122()
    ensures
        sorts_before("Dotseqn".spec_bytes(), "ECL-1.0".spec_bytes()),
{
    reveal_strlit("Dotseqn");
    reveal_strlit("ECL-1.0");
    is_ascii_chars_encode_utf8("Dotseqn"@);
    is_ascii_chars_encode_utf8("ECL-1.0"@);
    let a = "Dotseqn".spec_bytes();
    let b = "ECL-1.0".spec_bytes();
    assert(a.subrange(0, 0) =~= b.subrange(0, 0));
    assert(differs_below(a, b, 0));
}

proof fn lemma_license_order_123()
    ensures
        sorts_before("ECL-1.0".spec_bytes(), "ECL-2.0".spec_bytes()),
{
    reveal_strlit("ECL-1.0");
    reveal_strlit("ECL-2.0");
    is_ascii_chars_encode_utf8("ECL-1.0"@);
    is_ascii_chars_encode_utf8("ECL-2.0"@);
    let a = "ECL-1.0".spec_bytes();
    let b = "ECL-2.0".spec_bytes();
    assert(a.subrange(0, 4) =~= b.subrange(0, 4));
    assert(differs_below(a, b, 4));
}

proof fn lemma_license_order_124()
    ensures
        sorts_before("ECL-2.0".spec_bytes(), "EFL-1.0".spec_bytes()),
{
    reveal_strlit("ECL-2.0");
    reveal_strlit("EFL-1.0");
    is_ascii_chars_encode_utf8("ECL-2.0"@);
    is_ascii_chars_encode_utf8("EFL-1.0"@);
    let a = "ECL-2.0".spec_bytes();
    let b = "EFL-1.0".spec_bytes();
    assert(a.subrange(0, 1) =~= b.subrange(0, 1));
    assert(differs_below(a, b, 1));
}

proof fn lemma_license_order_125()
    ensures
        sorts_before("EFL-1.0".spec_bytes(), "EFL-2.0".spec_bytes()),
{
    reveal_strlit("EFL-1.0");
    reveal_strlit("EFL-2.0");
    is_ascii_chars_encode_utf8("EFL-1.0"@);
    is_ascii_chars_encode_utf8("EFL-2.0"@);
    let a = "EFL-1.0".spec_bytes();
    let b = "EFL-2.0".spec_bytes();
    assert(a.subrange(0, 4) =~= b.subrange(0, 4));
    assert(differs_below(a, b, 4));
}

proof fn lemma_license_order_126()
    ensures
        sorts_before("EFL-2.0".spec_bytes(), "EPL-1.0".spec_bytes()),
{
    reveal_strlit("EFL-2.0");
    reveal_strlit("EPL-1.0");
    is_ascii_chars_encode_utf8("EFL-2.0"@);
    is_ascii_chars_encode_utf8("EPL-1.0"@);
    let a = "EFL-2.0".spec_bytes();
    let b = "EPL-1.0".spec_bytes();
    assert(a.subrange(0, 1) =~= b.subrange(0, 1));
    assert(differs_below(a, b, 1));
}

proof fn lemma_license_order_127()
    ensures
        sorts_before("EPL-1.0".spec_bytes(), "EPL-2.0".spec_bytes()),
{
    reveal_strlit("EPL-1.0");
    reveal_strlit("EPL-2.0");
    is_ascii_chars_encode_utf8("EPL-1.0"@);
    is_ascii_chars_encode_utf8("EPL-2.0"@);
    let a = "EPL-1.0".spec_bytes();
    let b = "EPL-2.0".spec_bytes();
    assert(a.subrange(0, 4) =~= b.subrange(0, 4));
    assert(differs_below(a, b, 4));
}

proof fn lemma_license_order_128()
    ensures
        sorts_before("EPL-2.0".spec_bytes(), "EUDatagrid".spec_bytes()),
{
    reveal_strlit("EPL-2.0");
    reveal_strlit("EUDatagrid");
    is_ascii_chars_encode_utf8("EPL-2.0"@);
    is_ascii_chars_encode_utf8("EUDatagrid"@);
    let a = "EPL-2.0".spec_bytes();
    let b = "EUDatagrid".spec_bytes();
    assert(a.subrange(0, 1) =~= b.subrange(0, 1));
    assert(differs_below(a, b, 1));
}

proof fn lemma_license_order_129()
    ensures
        sorts_before("EUDatagrid".spec_bytes(), "EUPL-1.0".spec_bytes()),
{
    reveal_strlit("EUDatagrid");
    reveal_strlit("EUPL-1.0");
    is_ascii_chars_encode_utf8("EUDatagrid"@);
    is_ascii_chars_encode_utf8("EUPL-1.0"@);
    let a = "EUDatagrid".spec_bytes();
    let b = "EUPL-1.0".spec_bytes();
    assert(a.subrange(0, 2) =~= b.subrange(0, 2));
    assert(differs_below(a, b, 2));
}

proof fn lemma_license_order_130()
    ensures
        sorts_before("EUPL-1.0".spec_bytes(), "EUPL-1.1".spec_bytes()),
{
    reveal_strlit("EUPL-1.0");
    reveal_strlit("EUPL-1.1");
    is_ascii_chars_encode_utf8("EUPL-1.0"@);
    is_ascii_chars_encode_utf8("EUPL-1.1"@);
    let a = "EUPL-1.0".spec_bytes();
    let b = "EUPL-1.1".spec_bytes();
    assert(a.subrange(0, 7) =~= b.subrange(0, 7));
    assert(differs_below(a, b, 7));
}

proof fn lemma_license_order_131()
    ensures
        sorts_before("EUPL-1.1".spec_bytes(), "EUPL-1.2".spec_bytes()),
{
    reveal_strlit("EUPL-1.1");
    reveal_strlit("EUPL-1.2");
    is_ascii_chars_encode_utf8("EUPL-1.1"@);
    is_ascii_chars_encode_utf8("EUPL-1.2"@);
    let a = "EUPL-1.1".spec_bytes();
    let b = "EUPL-1.2".spec_bytes();
    assert(a.subrange(0, 7) =~= b.subrange(0, 7));
    assert(differs_below(a, b, 7));
}

proof fn lemma_license_order_132()
    ensures
        sorts_before("EUPL-1.2".spec_bytes(), "Entessa".spec_bytes()),
{
    reveal_strlit("EUPL-1.2");
    reveal_strlit("Entessa");
    is_ascii_chars_encode_utf8("EUPL-1.2"@);
    is_ascii_chars_encode_utf8("Entessa"@);
    let a = "EUPL-1.2".spec_bytes();
    let b = "Entessa".spec_bytes();
    assert(a.subrange(0, 1) =~= b.subrange(0, 1));
    assert(differs_below(a, b, 1));
}

proof fn lemma_license_order_133()
    ensures
        sorts_before("Entessa".spec_bytes(), "ErlPL-1.1".spec_bytes()),
{
    reveal_strlit("Entessa");
    reveal_strlit("ErlPL-1.1");
    is_ascii_chars_encode_utf8("Entessa"@);
    is_ascii_chars_encode_utf8("ErlPL-1.1"@);
    let a = "Entessa".spec_bytes();
    let b = "ErlPL-1.1".spec_bytes();
    assert(a.subrange(0, 1) =~= b.subrange(0, 1));
    assert(differs_below(a, b, 1));
}

proof fn lemma_license_order_134()
    ensures
        sorts_before("ErlPL-1.1".spec_bytes(), "Eurosym".spec_bytes()),
{
    reveal_strlit("ErlPL-1.1");
    reveal_strlit("Eurosym");
    is_ascii_chars_encode_utf8("ErlPL-1.1"@);
    is_ascii_chars_encode_utf8("Eurosym"@);
    let a = "ErlPL-1.1".spec_bytes();
    let b = "Eurosym".spec_bytes();
    assert(a.subrange(0, 1) =~= b.subrange(0, 1));
    assert(differs_below(a, b, 1));
}

proof fn lemma_license_order_135()
    ensures
        sorts_before("Eurosym".spec_bytes(), "FSFAP".spec_bytes()),
{
    reveal_strlit("Eurosym");
    reveal_strlit("FSFAP");
    is_ascii_chars_encode_utf8("Eurosym"@);
    is_ascii_chars_encode_utf8("FSFAP"@);
    let a = "Eurosym".spec_bytes();
    let b = "FSFAP".spec_bytes();
    assert(a.subrange(0, 0) =~= b.subrange(0, 0));
    assert(differs_below(a, b, 0));
}

proof fn lemma_license_order_136()
    ensures
        sorts_before("FSFAP".spec_bytes(), "FSFUL".spec_bytes()),
{
    reveal_strlit("FSFAP");
    reveal_strlit("FSFUL");
    is_ascii_chars_encode_utf8("FSFAP"@);
    is_ascii_chars_encode_utf8("FSFUL"@);
    let a = "FSFAP".spec_bytes();
    let b = "FSFUL".spec_bytes();
    assert(a.subrange(0, 3) =~= b.subrange(0, 3));
    assert(differs_below(a, b, 3));
}

proof fn lemma_license_order_137()
    ensures
        sorts_before("FSFUL".spec_bytes(), "FSFULLR".spec_bytes()),
{
    reveal_strlit("FSFUL");
    reveal_strlit("FSFULLR");
    is_ascii_chars_encode_utf8("FSFUL"@);
    is_ascii_chars_encode_utf8("FSFULLR"@);
    let a = "FSFUL".spec_bytes();
    let b = "FSFULLR".spec_bytes();
    assert(b.subrange(0, 5) =~= a);
}

proof fn lemma_license_order_138()
    ensures
        sorts_before("FSFULLR".spec_bytes(), "FTL".spec_bytes()),
{
    reveal_strlit("FSFULLR");
    reveal_strlit("FTL");
    is_ascii_chars_encode_utf8("FSFULLR"@);
    is_ascii_chars_encode_utf8("FTL"@);
    let a = "FSFULLR".spec_bytes();
    let b = "FTL".spec_bytes();
    assert(a.subrange(0, 1) =~= b.subrange(0, 1));
    assert(differs_below(a, b, 1));
}

proof fn lemma_license_order_139()
    ensures
        sorts_before("FTL".spec_bytes(), "Fair".spec_bytes()),
{
    reveal_strlit("FTL");
    reveal_strlit("Fair");
    is_ascii_chars_encode_utf8("FTL"@);
    is_ascii_chars_encode_utf8("Fair"@);
    let a = "FTL".spec_bytes();
    let b = "Fair".spec_bytes();
    assert(a.subrange(0, 1) =~= b.subrange(0, 1));
    assert(differs_below(a, b, 1));
}

proof fn lemma_license_order_140()
    ensures
        sorts_before("Fair".spec_bytes(), "Frameworx-1.0".spec_bytes()),
{
    reveal_strlit("Fair");
    reveal_strlit("Frameworx-1.0");
    is_ascii_chars_encode_utf8("Fair"@);
    is_ascii_chars_encode_utf8("Frameworx-1.0"@);
    let a = "Fair".spec_bytes();
    let b = "Frameworx-1.0".spec_bytes();
    assert(a.subrange(0, 1) =~= b.subrange(0, 1));
    assert(differs_below(a, b, 1));
}

proof fn lemma_license_order_141()
    ensures
        sorts_before("Frameworx-1.0".spec_bytes(), "FreeImage".spec_bytes()),
{
    reveal_strlit("Frameworx-1.0");
    reveal_strlit("FreeImage");
    is_ascii_chars_encode_utf8("Frameworx-1.0"@);
    is_ascii_chars_encode_utf8("FreeImage"@);
    let a = "Frameworx-1.0".spec_bytes();
    let b = "FreeImage".spec_bytes();
    assert(a.subrange(0, 2) =~= b.subrange(0, 2));
    assert(differs_below(a, b, 2));
}

proof fn lemma_license_order_142()
    ensures
        sorts_before("FreeImage".spec_bytes(), "GFDL-1.1".spec_bytes()),
{
    reveal_strlit("FreeImage");
    reveal_strlit("GFDL-1.1");
    is_ascii_chars_encode_utf8("FreeImage"@);
    is_ascii_chars_encode_utf8("GFDL-1.1"@);
    let a = "FreeImage".spec_bytes();
    let b = "GFDL-1.1".spec_bytes();
    assert(a.subrange(0, 0) =~= b.subrange(0, 0));
    assert(differs_below(a, b, 0));
}

proof fn lemma_license_order_143()
    ensures
        sorts_before("GFDL-1.1".spec_bytes(), "GFDL-1.1-invariants".spec_bytes()),
{
    reveal_strlit("GFDL-1.1");
    reveal_strlit("GFDL-1.1-invariants");
    is_ascii_chars_encode_utf8("GFDL-1.1"@);
    is_ascii_chars_encode_utf8("GFDL-1.1-invariants"@);
    let a = "GFDL-1.1".spec_bytes();
    let b = "GFDL-1.1-invariants".spec_bytes();
    assert(b.subrange(0, 8) =~= a);
}

proof fn lemma_license_order_144()
    ensures
        sorts_before("GFDL-1.1-invariants".spec_bytes(), "GFDL-1.1-invariants-only".spec_bytes()),
{
    reveal_strlit("GFDL-1.1-invariants");
    reveal_strlit("GFDL-1.1-invariants-only");
    is_ascii_chars_encode_utf8("GFDL-1.1-invariants"@);
    is_ascii_chars_encode_utf8("GFDL-1.1-invariants-only"@);
    let a = "GFDL-1.1-invariants".spec_bytes();
    let b = "GFDL-1.1-invariants-only".spec_bytes();
    assert(b.subrange(0, 19) =~= a);
}

proof fn lemma_license_order_145()
    ensures
        sorts_before("GFDL-1.1-invariants-only".spec_bytes(), "GFDL-1.1-invariants-or-later".spec_bytes()),
{
    reveal_strlit("GFDL-1.1-invariants-only");
    reveal_strlit("GFDL-1.1-invariants-or-later");
    is_ascii_chars_encode_utf8("GFDL-1.1-invariants-only"@);
    is_ascii_chars_encode_utf8("GFDL-1.1-invariants-or-later"@);
    let a = "GFDL-1.1-invariants-only".spec_bytes();
    let b = "GFDL-1.1-invariants-or-later".spec_bytes();
    assert(a.subrange(0, 21) =~= b.subrange(0, 21));
    assert(differs_below(a, b, 21));
}

proof fn lemma_license_order_146()
    ensures
        sorts_before("GFDL-1.1-invariants-or-later".spec_bytes(), "GFDL-1.1-no-invariants-only".spec_bytes()),
{
    reveal_strlit("GFDL-1.1-invariants-or-later");
    reveal_strlit("GFDL-1.1-no-invariants-only");
    is_ascii_chars_encode_utf8("GFDL-1.1-invariants-or-later"@);
    is_ascii_chars_encode_utf8("GFDL-1.1-no-invariants-only"@);
    let a = "GFDL-1.1-invariants-or-later".spec_bytes();
    let b = "GFDL-1.1-no-invariants-only".spec_bytes();
    assert(a.subrange(0, 9) =~= b.subrange(0, 9));
    assert(differs_below(a, b, 9));
}

proof fn lemma_license_order_147()
    ensures
        sorts_before("GFDL-1.1-no-invariants-only".spec_bytes(), "GFDL-1.1-no-invariants-or-later".spec_bytes()),
{
    reveal_strlit("GFDL-1.1-no-invariants-only");
    reveal_strlit("GFDL-1.1-no-invariants-or-later");
    is_ascii_chars_encode_utf8("GFDL-1.1-no-invariants-only"@);
    is_ascii_chars_encode_utf8("GFDL-1.1-no-invariants-or-later"@);
    let a = "GFDL-1.1-no-invariants-only".spec_bytes();
    let b = "GFDL-1.1-no-invariants-or-later".spec_bytes();
    assert(a.subrange(0, 24) =~= b.subrange(0, 24));
    assert(differs_below(a, b, 24));
}

proof fn lemma_license_order_148()
    ensures
        sorts_before("GFDL-1.1-no-invariants-or-later".spec_bytes(), "GFDL-1.1-only".spec_bytes()),
{
    reveal_strlit("GFDL-1.1-no-invariants-or-later");
    reveal_strlit("GFDL-1.1-only");
    is_ascii_chars_encode_utf8("GFDL-1.1-no-invariants-or-later"@);
    is_ascii_chars_encode_utf8("GFDL-1.1-only"@);
    let a = "GFDL-1.1-no-invariants-or-later".spec_bytes();
    let b = "GFDL-1.1-only".spec_bytes();
    assert(a.subrange(0, 9) =~= b.subrange(0, 9));
    assert(differs_below(a, b, 9));
}

proof fn lemma_license_order_149()
    ensures
        sorts_before("GFDL-1.1-only".spec_bytes(), "GFDL-1.1-or-later".spec_bytes()),
{
    reveal_strlit("GFDL-1.1-only");
    reveal_strlit("GFDL-1.1-or-later");
    is_ascii_chars_encode_utf8("GFDL-1.1-only"@);
    is_ascii_chars_encode_utf8("GFDL-1.1-or-later"@);
    let a = "GFDL-1.1-only".spec_bytes();
    let b = "GFDL-1.1-or-later".spec_bytes();
    assert(a.subrange(0, 10) =~= b.subrange(0, 10));
    assert(differs_below(a, b, 10));
}

proof fn lemma_license_order_150()
    ensures
        sorts_before("GFDL-1.1-or-later".spec_bytes(), "GFDL-1.2".spec_bytes()),
{
    reveal_strlit("GFDL-1.1-or-later");
    reveal_strlit("GFDL-1.2");
    is_ascii_chars_encode_utf8("GFDL-1.1-or-later"@);
    is_ascii_chars_encode_utf8("GFDL-1.2"@);
    let a = "GFDL-1.1-or-later".spec_bytes();
    let b = "GFDL-1.2".spec_bytes();
    assert(a.subrange(0, 7) =~= b.subrange(0, 7));
    assert(differs_below(a, b, 7));
}

proof fn lemma_license_order_151()
    ensures
        sorts_before("GFDL-1.2".spec_bytes(), "GFDL-1.2-invariants".spec_bytes()),
{
    reveal_strlit("GFDL-1.2");
    reveal_strlit("GFDL-1.2-invariants");
    is_ascii_chars_encode_utf8("GFDL-1.2"@);
    is_ascii_chars_encode_utf8("GFDL-1.2-invariants"@);
    let a = "GFDL-1.2".spec_bytes();
    let b = "GFDL-1.2-invariants".spec_bytes();
    assert(b.subrange(0, 8) =~= a);
}

proof fn lemma_license_order_152()
    ensures
        sorts_before("GFDL-1.2-invariants".spec_bytes(), "GFDL-1.2-invariants-only".spec_bytes()),
{
    reveal_strlit("GFDL-1.2-invariants");
    reveal_strlit("GFDL-1.2-invariants-only");
    is_ascii_chars_encode_utf8("GFDL-1.2-invariants"@);
    is_ascii_chars_encode_utf8("GFDL-1.2-invariants-only"@);
    let a = "GFDL-1.2-invariants".spec_bytes();
    let b = "GFDL-1.2-invariants-only".spec_bytes();
    assert(b.subrange(0, 19) =~= a);
}

proof fn lemma_license_order_153()
    ensures
        sorts_before("GFDL-1.2-invariants-only".spec_bytes(), "GFDL-1.2-invariants-or-later".spec_bytes()),
{
    reveal_strlit("GFDL-1.2-invariants-only");
    reveal_strlit("GFDL-1.2-invariants-or-later");
    is_ascii_chars_encode_utf8("GFDL-1.2-invariants-only"@);
    is_ascii_chars_encode_utf8("GFDL-1.2-invariants-or-later"@);
    let a = "GFDL-1.2-invariants-only".spec_bytes();
    let b = "GFDL-1.2-invariants-or-later".spec_bytes();
    assert(a.subrange(0, 21) =~= b.subrange(0, 21));
    assert(differs_below(a, b, 21));
}

proof fn lemma_license_order_154()
    ensures
        sorts_before("GFDL-1.2-invariants-or-later".spec_bytes(), "GFDL-1.2-no-invariants-only".spec_bytes()),
{
    reveal_strlit("GFDL-1.2-invariants-or-later");
    reveal_strlit("GFDL-1.2-no-invariants-only");
    is_ascii_chars_encode_utf8("GFDL-1.2-invariants-or-later"@);
    is_ascii_chars_encode_utf8("GFDL-1.2-no-invariants-only"@);
    let a = "GFDL-1.2-invariants-or-later".spec_bytes();
    let b = "GFDL-1.2-no-invariants-only".spec_bytes();
    assert(a.subrange(0, 9) =~= b.subrange(0, 9));
    assert(differs_below(a, b, 9));
}

proof fn lemma_license_order_155()
    ensures
        sorts_before("GFDL-1.2-no-invariants-only".spec_bytes(), "GFDL-1.2-no-invariants-or-later".spec_bytes()),
{
    reveal_strlit("GFDL-1.2-no-invariants-only");
    reveal_strlit("GFDL-1.2-no-invariants-or-later");
    is_ascii_chars_encode_utf8("GFDL-1.2-no-invariants-only"@);
    is_ascii_chars_encode_utf8("GFDL-1.2-no-invariants-or-later"@);
    let a = "GFDL-1.2-no-invariants-only".spec_bytes();
    let b = "GFDL-1.2-no-invariants-or-later".spec_bytes();
    assert(a.subrange(0, 24) =~= b.subrange(0, 24));
    assert(differs_below(a, b, 24));
}

proof fn lemma_license_order_156()
    ensures
        sorts_before("GFDL-1.2-no-invariants-or-later".spec_bytes(), "GFDL-1.2-only".spec_bytes()),
{
    reveal_strlit("GFDL-1.2-no-invariants-or-later");
    reveal_strlit("GFDL-1.2-only");
    is_ascii_chars_encode_utf8("GFDL-1.2-no-invariants-or-later"@);
    is_ascii_chars_encode_utf8("GFDL-1.2-only"@);
    let a = "GFDL-1.2-no-invariants-or-later".spec_bytes();
    let b = "GFDL-1.2-only".spec_bytes();
    assert(a.subrange(0, 9) =~= b.subrange(0, 9));
    assert(differs_below(a, b, 9));
}

proof fn lemma_license_order_157()
    ensures
        sorts_before("GFDL-1.2-only".spec_bytes(), "GFDL-1.2-or-later".spec_bytes()),
{
    reveal_strlit("GFDL-1.2-only");
    reveal_strlit("GFDL-1.2-or-later");
    is_ascii_chars_encode_utf8("GFDL-1.2-only"@);
    is_ascii_chars_encode_utf8("GFDL-1.2-or-later"@);
    let a = "GFDL-1.2-only".spec_bytes();
    let b = "GFDL-1.2-or-later".spec_bytes();
    assert(a.subrange(0, 10) =~= b.subrange(0, 10));
    assert(differs_below(a, b, 10));
}

proof fn lemma_license_order_158()
    ensures
        sorts_before("GFDL-1.2-or-later".spec_bytes(), "GFDL-1.3".spec_bytes()),
{
    reveal_strlit("GFDL-1.2-or-later");
    reveal_strlit("GFDL-1.3");
    is_ascii_chars_encode_utf8("GFDL-1.2-or-later"@);
    is_ascii_chars_encode_utf8("GFDL-1.3"@);
    let a = "GFDL-1.2-or-later".spec_bytes();
    let b = "GFDL-1.3".spec_bytes();
    assert(a.subrange(0, 7) =~= b.subrange(0, 7));
    assert(differs_below(a, b, 7));
}

proof fn lemma_license_order_159()
    ensures
        sorts_before("GFDL-1.3".spec_bytes(), "GFDL-1.3-invariants".spec_bytes()),
{
    reveal_strlit("GFDL-1.3");
    reveal_strlit("GFDL-1.3-invariants");
    is_ascii_chars_encode_utf8("GFDL-1.3"@);
    is_ascii_chars_encode_utf8("GFDL-1.3-invariants"@);
    let a = "GFDL-1.3".spec_bytes();
    let b = "GFDL-1.3-invariants".spec_bytes();
    assert(b.subrange(0, 8) =~= a);
}

proof fn lemma_license_order_160()
    ensures
        sorts_before("GFDL-1.3-invariants".spec_bytes(), "GFDL-1.3-invariants-only".spec_bytes()),
{
    reveal_strlit("GFDL-1.3-invariants");
    reveal_strlit("GFDL-1.3-invariants-only");
    is_ascii_chars_encode_utf8("GFDL-1.3-invariants"@);
    is_ascii_chars_encode_utf8("GFDL-1.3-invariants-only"@);
    let a = "GFDL-1.3-invariants".spec_bytes();
    let b = "GFDL-1.3-invariants-only".spec_bytes();
    assert(b.subrange(0, 19) =~= a);
}

proof fn lemma_license_order_161()
    ensures
        sorts_before("GFDL-1.3-invariants-only".spec_bytes(), "GFDL-1.3-invariants-or-later".spec_bytes()),
{
    reveal_strlit("GFDL-1.3-invariants-only");
    reveal_strlit("GFDL-1.3-invariants-or-later");
    is_ascii_chars_encode_utf8("GFDL-1.3-invariants-only"@);
    is_ascii_chars_encode_utf8("GFDL-1.3-invariants-or-later"@);
    let a = "GFDL-1.3-invariants-only".spec_bytes();
    let b = "GFDL-1.3-invariants-or-later".spec_bytes();
    assert(a.subrange(0, 21) =~= b.subrange(0, 21));
    assert(differs_below(a, b, 21));
}

proof fn lemma_license_order_162()
    ensures
        sorts_before("GFDL-1.3-invariants-or-later".spec_bytes(), "GFDL-1.3-no-invariants-only".spec_bytes()),
{
    reveal_strlit("GFDL-1.3-invariants-or-later");
    reveal_strlit("GFDL-1.3-no-invariants-only");
    is_ascii_chars_encode_utf8("GFDL-1.3-invariants-or-later"@);
    is_ascii_chars_encode_utf8("GFDL-1.3-no-invariants-only"@);
    let a = "GFDL-1.3-invariants-or-later".spec_bytes();
    let b = "GFDL-1.3-no-invariants-only".spec_bytes();
    assert(a.subrange(0, 9) =~= b.subrange(0, 9));
    assert(differs_below(a, b, 9));
}

proof fn lemma_license_order_163()
    ensures
        sorts_before("GFDL-1.3-no-invariants-only".spec_bytes(), "GFDL-1.3-no-invariants-or-later".spec_bytes()),
{
    reveal_strlit("GFDL-1.3-no-invariants-only");
    reveal_strlit("GFDL-1.3-no-invariants-or-later");
    is_ascii_chars_encode_utf8("GFDL-1.3-no-invariants-only"@);
    is_ascii_chars_encode_utf8("GFDL-1.3-no-invariants-or-later"@);
    let a = "GFDL-1.3-no-invariants-only".spec_bytes();
    let b = "GFDL-1.3-no-invariants-or-later".spec_bytes();
    assert(a.subrange(0, 24) =~= b.subrange(0, 24));
    assert(differs_below(a, b, 24));
}

proof fn lemma_license_order_164()
    ensures
        sorts_before("GFDL-1.3-no-invariants-or-later".spec_bytes(), "GFDL-1.3-only".spec_bytes()),
{
    reveal_strlit("GFDL-1.3-no-invariants-or-later");
    reveal_strlit("GFDL-1.3-only");
    is_ascii_chars_encode_utf8("GFDL-1.3-no-invariants-or-later"@);
    is_ascii_chars_encode_utf8("GFDL-1.3-only"@);
    let a = "GFDL-1.3-no-invariants-or-later".spec_bytes();
    let b = "GFDL-1.3-only".spec_bytes();
    assert(a.subrange(0, 9) =~= b.subrange(0, 9));
    assert(differs_below(a, b, 9));
}

proof fn lemma_license_order_165()
    ensures
        sorts_before("GFDL-1.3-only".spec_bytes(), "GFDL-1.3-or-later".spec_bytes()),
{
    reveal_strlit("GFDL-1.3-only");
    reveal_strlit("GFDL-1.3-or-later");
    is_ascii_chars_encode_utf8("GFDL-1.3-only"@);
    is_ascii_chars_encode_utf8("GFDL-1.3-or-later"@);
    let a = "GFDL-1.3-only".spec_bytes();
    let b = "GFDL-1.3-or-later".spec_bytes();
    assert(a.subrange(0, 10) =~= b.subrange(0, 10));
    assert(differs_below(a, b, 10));
}

proof fn lemma_license_order_166()
    ensures
        sorts_before("GFDL-1.3-or-later".spec_bytes(), "GL2PS".spec_bytes()),
{
    reveal_strlit("GFDL-1.3-or-later");
    reveal_strlit("GL2PS");
    is_ascii_chars_encode_utf8("GFDL-1.3-or-later"@);
    is_ascii_chars_encode_utf8("GL2PS"@);
    let a = "GFDL-1.3-or-later".spec_bytes();
    let b = "GL2PS".spec_bytes();
    assert(a.subrange(0, 1) =~= b.subrange(0, 1));
    assert(differs_below(a, b, 1));
}

proof fn lemma_license_order_167()
    ensures
        sorts_before("GL2PS".spec_bytes(), "GPL-1.0".spec_bytes()),
{
    reveal_strlit("GL2PS");
    reveal_strlit("GPL-1.0");
    is_ascii_chars_encode_utf8("GL2PS"@);
    is_ascii_chars_encode_utf8("GPL-1.0"@);
    let a = "GL2PS".spec_bytes();
    let b = "GPL-1.0".spec_bytes();
    assert(a.subrange(0, 1) =~= b.subrange(0, 1));
    assert(differs_below(a, b, 1));
}

proof fn lemma_license_order_168()
    ensures
        sorts_before("GPL-1.0".spec_bytes(), "GPL-1.0+".spec_bytes()),
{
    reveal_strlit("GPL-1.0");
    reveal_strlit("GPL-1.0+");
    is_ascii_chars_encode_utf8("GPL-1.0"@);
    is_ascii_chars_encode_utf8("GPL-1.0+"@);
    let a = "GPL-1.0".spec_bytes();
    let b = "GPL-1.0+".spec_bytes();
    assert(b.subrange(0, 7) =~= a);
}

proof fn lemma_license_order_169()
    ensures
        sorts_before("GPL-1.0+".spec_bytes(), "GPL-1.0-only".spec_bytes()),
{
    reveal_strlit("GPL-1.0+");
    reveal_strlit("GPL-1.0-only");
    is_ascii_chars_encode_utf8("GPL-1.0+"@);
    is_ascii_chars_encode_utf8("GPL-1.0-only"@);
    let a = "GPL-1.0+".spec_bytes();
    let b = "GPL-1.0-only".spec_bytes();
    assert(a.subrange(0, 7) =~= b.subrange(0, 7));
    assert(differs_below(a, b, 7));
}

proof fn lemma_license_order_170()
    ensures
        sorts_before("GPL-1.0-only".spec_bytes(), "GPL-1.0-or-later".spec_bytes()),
{
    reveal_strlit("GPL-1.0-only");
    reveal_strlit("GPL-1.0-or-later");
    is_ascii_chars_encode_utf8("GPL-1.0-only"@);
    is_ascii_chars_encode_utf8("GPL-1.0-or-later"@);
    let a = "GPL-1.0-only".spec_bytes();
    let b = "GPL-1.0-or-later".spec_bytes();
    assert(a.subrange(0, 9) =~= b.subrange(0, 9));
    assert(differs_below(a, b, 9));
}

proof fn lemma_license_order_171()
    ensures
        sorts_before("GPL-1.0-or-later".spec_bytes(), "GPL-2.0".spec_bytes()),
{
    reveal_strlit("GPL-1.0-or-later");
    reveal_strlit("GPL-2.0");
    is_ascii_chars_encode_utf8("GPL-1.0-or-later"@);
    is_ascii_chars_encode_utf8("GPL-2.0"@);
    let a = "GPL-1.0-or-later".spec_bytes();
    let b = "GPL-2.0".spec_bytes();
    assert(a.subrange(0, 4) =~= b.subrange(0, 4));
    assert(differs_below(a, b, 4));
}

proof fn lemma_license_order_172()
    ensures
        sorts_before("GPL-2.0".spec_bytes(), "GPL-2.0+".spec_bytes()),
{
    reveal_strlit("GPL-2.0");
    reveal_strlit("GPL-2.0+");
    is_ascii_chars_encode_utf8("GPL-2.0"@);
    is_ascii_chars_encode_utf8("GPL-2.0+"@);
    let a = "GPL-2.0".spec_bytes();
    let b = "GPL-2.0+".spec_bytes();
    assert(b.subrange(0, 7) =~= a);
}

proof fn lemma_license_order_173()
    ensures
        sorts_before("GPL-2.0+".spec_bytes(), "GPL-2.0-only".spec_bytes()),
{
    reveal_strlit("GPL-2.0+");
    reveal_strlit("GPL-2.0-only");
    is_ascii_chars_encode_utf8("GPL-2.0+"@);
    is_ascii_chars_encode_utf8("GPL-2.0-only"@);
    let a = "GPL-2.0+".spec_bytes();
    let b = "GPL-2.0-only".spec_bytes();
    assert(a.subrange(0, 7) =~= b.subrange(0, 7));
    assert(differs_below(a, b, 7));
}

proof fn lemma_license_order_174()
    ensures
        sorts_before("GPL-2.0-only".spec_bytes(), "GPL-2.0-or-later".spec_bytes()),
{
    reveal_strlit("GPL-2.0-only");
    reveal_strlit("GPL-2.0-or-later");
    is_ascii_chars_encode_utf8("GPL-2.0-only"@);
    is_ascii_chars_encode_utf8("GPL-2.0-or-later"@);
    let a = "GPL-2.0-only".spec_bytes();
    let b = "GPL-2.0-or-later".spec_bytes();
    assert(a.subrange(0, 9) =~= b.subrange(0, 9));
    assert(differs_below(a, b, 9));
}

proof fn lemma_license_order_175()
    ensures
        sorts_before("GPL-2.0-or-later".spec_bytes(), "GPL-2.0-with-GCC-exception".spec_bytes()),
{
    reveal_strlit("GPL-2.0-or-later");
    reveal_strlit("GPL-2.0-with-GCC-exception");
    is_ascii_chars_encode_utf8("GPL-2.0-or-later"@);
    is_ascii_chars_encode_utf8("GPL-2.0-with-GCC-exception"@);
    let a = "GPL-2.0-or-later".spec_bytes();
    let b = "GPL-2.0-with-GCC-exception".spec_bytes();
    assert(a.subrange(0, 8) =~= b.subrange(0, 8));
    assert(differs_below(a, b, 8));
}

proof fn lemma_license_order_176()
    ensures
        sorts_before("GPL-2.0-with-GCC-exception".spec_bytes(), "GPL-2.0-with-autoconf-exception".spec_bytes()),
{
    reveal_strlit("GPL-2.0-with-GCC-exception");
    reveal_strlit("GPL-2.0-with-autoconf-exception");
    is_ascii_chars_encode_utf8("GPL-2.0-with-GCC-exception"@);
    is_ascii_chars_encode_utf8("GPL-2.0-with-autoconf-exception"@);
    let a = "GPL-2.0-with-GCC-exception".spec_bytes();
    let b = "GPL-2.0-with-autoconf-exception".spec_bytes();
    assert(a.subrange(0, 13) =~= b.subrange(0, 13));
    assert(differs_below(a, b, 13));
}

proof fn lemma_license_order_177()
    ensures
        sorts_before("GPL-2.0-with-autoconf-exception".spec_bytes(), "GPL-2.0-with-bison-exception".spec_bytes()),
{
    reveal_strlit("GPL-2.0-with-autoconf-exception");
    reveal_strlit("GPL-2.0-with-bison-exception");
    is_ascii_chars_encode_utf8("GPL-2.0-with-autoconf-exception"@);
    is_ascii_chars_encode_utf8("GPL-2.0-with-bison-exception"@);
    let a = "GPL-2.0-with-autoconf-exception".spec_bytes();
    let b = "GPL-2.0-with-bison-exception".spec_bytes();
    assert(a.subrange(0, 13) =~= b.subrange(0, 13));
    assert(differs_below(a, b, 13));
}

proof fn lemma_license_order_178()
    ensures
        sorts_before("GPL-2.0-with-bison-exception".spec_bytes(), "GPL-2.0-with-classpath-exception".spec_bytes()),
{
    reveal_strlit("GPL-2.0-with-bison-exception");
    reveal_strlit("GPL-2.0-with-classpath-exception");
    is_ascii_chars_encode_utf8("GPL-2.0-with-bison-exception"@);
    is_ascii_chars_encode_utf8("GPL-2.0-with-classpath-exception"@);
    let a = "GPL-2.0-with-bison-exception".spec_bytes();
    let b = "GPL-2.0-with-classpath-exception".spec_bytes();
    assert(a.subrange(0, 13) =~= b.subrange(0, 13));
    assert(differs_below(a, b, 13));
}

proof fn lemma_license_order_179()
    ensures
        sorts_before("GPL-2.0-with-classpath-exception".spec_bytes(), "GPL-2.0-with-font-exception".spec_bytes()),
{
    reveal_strlit("GPL-2.0-with-classpath-exception");
    reveal_strlit("GPL-2.0-with-font-exception");
    is_ascii_chars_encode_utf8("GPL-2.0-with-classpath-exception"@);
    is_ascii_chars_encode_utf8("GPL-2.0-with-font-exception"@);
    let a = "GPL-2.0-with-classpath-exception".spec_bytes();
    let b = "GPL-2.0-with-font-exception".spec_bytes();
    assert(a.subrange(0, 13) =~= b.subrange(0, 13));
    assert(differs_below(a, b, 13));
}

proof fn lemma_license_order_180()
    ensures
        sorts_before("GPL-2.0-with-font-exception".spec_bytes(), "GPL-3.0".spec_bytes()),
{
    reveal_strlit("GPL-2.0-with-font-exception");
    reveal_strlit("GPL-3.0");
    is_ascii_chars_encode_utf8("GPL-2.0-with-font-exception"@);
    is_ascii_chars_encode_utf8("GPL-3.0"@);
    let a = "GPL-2.0-with-font-exception".spec_bytes();
    let b = "GPL-3.0".spec_bytes();
    assert(a.subrange(0, 4) =~= b.subrange(0, 4));
    assert(differs_below(a, b, 4));
}

proof fn lemma_license_order_181()
    ensures
        sorts_before("GPL-3.0".spec_bytes(), "GPL-3.0+".spec_bytes()),
{
    reveal_strlit("GPL-3.0");
    reveal_strlit("GPL-3.0+");
    is_ascii_chars_encode_utf8("GPL-3.0"@);
    is_ascii_chars_encode_utf8("GPL-3.0+"@);
    let a = "GPL-3.0".spec_bytes();
    let b = "GPL-3.0+".spec_bytes();
    assert(b.subrange(0, 7) =~= a);
}

proof fn lemma_license_order_182()
    ensures
        sorts_before("GPL-3.0+".spec_bytes(), "GPL-3.0-only".spec_bytes()),
{
    reveal_strlit("GPL-3.0+");
    reveal_strlit("GPL-3.0-only");
    is_ascii_chars_encode_utf8("GPL-3.0+"@);
    is_ascii_chars_encode_utf8("GPL-3.0-only"@);
    let a = "GPL-3.0+".spec_bytes();
    let b = "GPL-3.0-only".spec_bytes();
    assert(a.subrange(0, 7) =~= b.subrange(0, 7));
    assert(differs_below(a, b, 7));
}

proof fn lemma_license_order_183()
    ensures
        sorts_before("GPL-3.0-only".spec_bytes(), "GPL-3.0-or-later".spec_bytes()),
{
    reveal_strlit("GPL-3.0-only");
    reveal_strlit("GPL-3.0-or-later");
    is_ascii_chars_encode_utf8("GPL-3.0-only"@);
    is_ascii_chars_encode_utf8("GPL-3.0-or-later"@);
    let a = "GPL-3.0-only".spec_bytes();
    let b = "GPL-3.0-or-later".spec_bytes();
    assert(a.subrange(0, 9) =~= b.subrange(0, 9));
    assert(differs_below(a, b, 9));
}

proof fn lemma_license_order_184()
    ensures
        sorts_before("GPL-3.0-or-later".spec_bytes(), "GPL-3.0-with-GCC-exception".spec_bytes()),
{
    reveal_strlit("GPL-3.0-or-later");
    reveal_strlit("GPL-3.0-with-GCC-exception");
    is_ascii_chars_encode_utf8("GPL-3.0-or-later"@);
    is_ascii_chars_encode_utf8("GPL-3.0-with-GCC-exception"@);
    let a = "GPL-3.0-or-later".spec_bytes();
    let b = "GPL-3.0-with-GCC-exception".spec_bytes();
    assert(a.subrange(0, 8) =~= b.subrange(0, 8));
    assert(differs_below(a, b, 8));
}

proof fn lemma_license_order_185()
    ensures
        sorts_before("GPL-3.0-with-GCC-exception".spec_bytes(), "GPL-3.0-with-autoconf-exception".spec_bytes()),
{
    reveal_strlit("GPL-3.0-with-GCC-exception");
    reveal_strlit("GPL-3.0-with-autoconf-exception");
    is_ascii_chars_encode_utf8("GPL-3.0-with-GCC-exception"@);
    is_ascii_chars_encode_utf8("GPL-3.0-with-autoconf-exception"@);
    let a = "GPL-3.0-with-GCC-exception".spec_bytes();
    let b = "GPL-3.0-with-autoconf-exception".spec_bytes();
    assert(a.subrange(0, 13) =~= b.subrange(0, 13));
    assert(differs_below(a, b, 13));
}

proof fn lemma_license_order_186()
    ensures
        sorts_before("GPL-3.0-with-autoconf-exception".spec_bytes(), "Giftware".spec_bytes()),
{
    reveal_strlit("GPL-3.0-with-autoconf-exception");
    reveal_strlit("Giftware");
    is_ascii_chars_encode_utf8("GPL-3.0-with-autoconf-exception"@);
    is_ascii_chars_encode_utf8("Giftware"@);
    let a = "GPL-3.0-with-autoconf-exception".spec_bytes();
    let b = "Giftware".spec_bytes();
    assert(a.subrange(0, 1) =~= b.subrange(0, 1));
    assert(differs_below(a, b, 1));
}

proof fn lemma_license_order_187()
    ensures
        sorts_before("Giftware".spec_bytes(), "Glide".spec_bytes()),
{
    reveal_strlit("Giftware");
    reveal_strlit("Glide");
    is_ascii_chars_encode_utf8("Giftware"@);
    is_ascii_chars_encode_utf8("Glide"@);
    let a = "Giftware".spec_bytes();
    let b = "Glide".spec_bytes();
    assert(a.subrange(0, 1) =~= b.subrange(0, 1));
    assert(differs_below(a, b, 1));
}

proof fn lemma_license_order_188()
    ensures
        sorts_before("Glide".spec_bytes(), "Glulxe".spec_bytes()),
{
    reveal_strlit("Glide");
    reveal_strlit("Glulxe");
    is_ascii_chars_encode_utf8("Glide"@);
    is_ascii_chars_encode_utf8("Glulxe"@);
    let a = "Glide".spec_bytes();
    let b = "Glulxe".spec_bytes();
    assert(a.subrange(0, 2) =~= b.subrange(0, 2));
    assert(differs_below(a, b, 2));
}

proof fn lemma_license_order_189()
    ensures
        sorts_before("Glulxe".spec_bytes(), "HPND".spec_bytes()),
{
    reveal_strlit("Glulxe");
    reveal_strlit("HPND");
    is_ascii_chars_encode_utf8("Glulxe"@);
    is_ascii_chars_encode_utf8("HPND"@);
    let a = "Glulxe".spec_bytes();
    let b = "HPND".spec_bytes();
    assert(a.subrange(0, 0) =~= b.subrange(0, 0));
    assert(differs_below(a, b, 0));
}

proof fn lemma_license_order_190()
    ensures
        sorts_before("HPND".spec_bytes(), "HPND-sell-variant".spec_bytes()),
{
    reveal_strlit("HPND");
    reveal_strlit("HPND-sell-variant");
    is_ascii_chars_encode_utf8("HPND"@);
    is_ascii_chars_encode_utf8("HPND-sell-variant"@);
    let a = "HPND".spec_bytes();
    let b = "HPND-sell-variant".spec_bytes();
    assert(b.subrange(0, 4) =~= a);
}

proof fn lemma_license_order_191()
    ensures
        sorts_before("HPND-sell-variant".spec_bytes(), "HaskellReport".spec_bytes()),
{
    reveal_strlit("HPND-sell-variant");
    reveal_strlit("HaskellReport");
    is_ascii_chars_encode_utf8("HPND-sell-variant"@);
    is_ascii_chars_encode_utf8("HaskellReport"@);
    let a = "HPND-sell-variant".spec_bytes();
    let b = "HaskellReport".spec_bytes();
    assert(a.subrange(0, 1) =~= b.subrange(0, 1));
    assert(differs_below(a, b, 1));
}

proof fn lemma_license_order_192()
    ensures
        sorts_before("HaskellReport".spec_bytes(), "IBM-pibs".spec_bytes()),
{
    reveal_strlit("HaskellReport");
    reveal_strlit("IBM-pibs");
    is_ascii_chars_encode_utf8("HaskellReport"@);
    is_ascii_chars_encode_utf8("IBM-pibs"@);
    let a = "HaskellReport".spec_bytes();
    let b = "IBM-pibs".spec_bytes();
    assert(a.subrange(0, 0) =~= b.subrange(0, 0));
    assert(differs_below(a, b, 0));
}

proof fn lemma_license_order_193()
    ensures
        sorts_before("IBM-pibs".spec_bytes(), "ICU".spec_bytes()),
{
    reveal_strlit("IBM-pibs");
    reveal_strlit("ICU");
    is_ascii_chars_encode_utf8("IBM-pibs"@);
    is_ascii_chars_encode_utf8("ICU"@);
    let a = "IBM-pibs".spec_bytes();
    let b = "ICU".spec_bytes();
    assert(a.subrange(0, 1) =~= b.subrange(0, 1));
    assert(differs_below(a, b, 1));
}

proof fn lemma_license_order_194()
    ensures
        sorts_before("ICU".spec_bytes(), "IJG".spec_bytes()),
{
    reveal_strlit("ICU");
    reveal_strlit("IJG");
    is_ascii_chars_encode_utf8("ICU"@);
    is_ascii_chars_encode_utf8("IJG"@);
    let a = "ICU".spec_bytes();
    let b = "IJG".spec_bytes();
    assert(a.subrange(0, 1) =~= b.subrange(0, 1));
    assert(differs_below(a, b, 1));
}

proof fn lemma_license_order_195()
    ensures
        sorts_before("IJG".spec_bytes(), "IPA".spec_bytes()),
{
    reveal_strlit("IJG");
    reveal_strlit("IPA");
    is_ascii_chars_encode_utf8("IJG"@);
    is_ascii_chars_encode_utf8("IPA"@);
    let a = "IJG".spec_bytes();
    let b = "IPA".spec_bytes();
    assert(a.subrange(0, 1) =~= b.subrange(0, 1));
    assert(differs_below(a, b, 1));
}

proof fn lemma_license_order_196()
    ensures
        sorts_before("IPA".spec_bytes(), "IPL-1.0".spec_bytes()),
{
    reveal_strlit("IPA");
    reveal_strlit("IPL-1.0");
    is_ascii_chars_encode_utf8("IPA"@);
    is_ascii_chars_encode_utf8("IPL-1.0"@);
    let a = "IPA".spec_bytes();
    let b = "IPL-1.0".spec_bytes();
    assert(a.subrange(0, 2) =~= b.subrange(0, 2));
    assert(differs_below(a, b, 2));
}

proof fn lemma_license_order_197()
    ensures
        sorts_before("IPL-1.0".spec_bytes(), "ISC".spec_bytes()),
{
    reveal_strlit("IPL-1.0");
    reveal_strlit("ISC");
    is_ascii_chars_encode_utf8("IPL-1.0"@);
    is_ascii_chars_encode_utf8("ISC"@);
    let a = "IPL-1.0".spec_bytes();
    let b = "ISC".spec_bytes();
    assert(a.subrange(0, 1) =~= b.subrange(0, 1));
    assert(differs_below(a, b, 1));
}

proof fn lemma_license_order_198()
    ensures
        sorts_before("ISC".spec_bytes(), "ImageMagick".spec_bytes()),
{
    reveal_strlit("ISC");
    reveal_strlit("ImageMagick");
    is_ascii_chars_encode_utf8("ISC"@);
    is_ascii_chars_encode_utf8("ImageMagick"@);
    let a = "ISC".spec_bytes();
    let b = "ImageMagick".spec_bytes();
    assert(a.subrange(0, 1) =~= b.subrange(0, 1));
    assert(differs_below(a, b, 1));
}

proof fn lemma_license_order_199()
    ensures
        sorts_before("ImageMagick".spec_bytes(), "Imlib2".spec_bytes()),
{
    reveal_strlit("ImageMagick");
    reveal_strlit("Imlib2");
    is_ascii_chars_encode_utf8("ImageMagick"@);
    is_ascii_chars_encode_utf8("Imlib2"@);
    let a = "ImageMagick".spec_bytes();
    let b = "Imlib2".spec_bytes();
    assert(a.subrange(0, 2) =~= b.subrange(0, 2));
    assert(differs_below(a, b, 2));
}

proof fn lemma_license_order_200()
    ensures
        sorts_before("Imlib2".spec_bytes(), "Info-ZIP".spec_bytes()),
{
    reveal_strlit("Imlib2");
    reveal_strlit("Info-ZIP");
    is_ascii_chars_encode_utf8("Imlib2"@);
    is_ascii_chars_encode_utf8("Info-ZIP"@);
    let a = "Imlib2".spec_bytes();
    let b = "Info-ZIP".spec_bytes();
    assert(a.subrange(0, 1) =~= b.subrange(0, 1));
    assert(differs_below(a, b, 1));
}

proof fn lemma_license_order_201()
    ensures
        sorts_before("Info-ZIP".spec_bytes(), "Intel".spec_bytes()),
{
    reveal_strlit("Info-ZIP");
    reveal_strlit("Intel");
    is_ascii_chars_encode_utf8("Info-ZIP"@);
    is_ascii_chars_encode_utf8("Intel"@);
    let a = "Info-ZIP".spec_bytes();
    let b = "Intel".spec_bytes();
    assert(a.subrange(0, 2) =~= b.subrange(0, 2));
    assert(differs_below(a, b, 2));
}

proof fn lemma_license_order_202()
    ensures
        sorts_before("Intel".spec_bytes(), "Intel-ACPI".spec_bytes()),
{
    reveal_strlit("Intel");
    reveal_strlit("Intel-ACPI");
    is_ascii_chars_encode_utf8("Intel"@);
    is_ascii_chars_encode_utf8("Intel-ACPI"@);
    let a = "Intel".spec_bytes();
    let b = "Intel-ACPI".spec_bytes();
    assert(b.subrange(0, 5) =~= a);
}

proof fn lemma_license_order_203()
    ensures
        sorts_before("Intel-ACPI".spec_bytes(), "Interbase-1.0".spec_bytes()),
{
    reveal_strlit("Intel-ACPI");
    reveal_strlit("Interbase-1.0");
    is_ascii_chars_encode_utf8("Intel-ACPI"@);
    is_ascii_chars_encode_utf8("Interbase-1.0"@);
    let a = "Intel-ACPI".spec_bytes();
    let b = "Interbase-1.0".spec_bytes();
    assert(a.subrange(0, 4) =~= b.subrange(0, 4));
    assert(differs_below(a, b, 4));
}

proof fn lemma_license_order_204()
    ensures
        sorts_before("Interbase-1.0".spec_bytes(), "JPNIC".spec_bytes()),
{
    reveal_strlit("Interbase-1.0");
    reveal_strlit("JPNIC");
    is_ascii_chars_encode_utf8("Interbase-1.0"@);
    is_ascii_chars_encode_utf8("JPNIC"@);
    let a = "Interbase-1.0".spec_bytes();
    let b = "JPNIC".spec_bytes();
    assert(a.subrange(0, 0) =~= b.subrange(0, 0));
    assert(differs_below(a, b, 0));
}

proof fn lemma_license_order_205()
    ensures
        sorts_before("JPNIC".spec_bytes(), "JSON".spec_bytes()),
{
    reveal_strlit("JPNIC");
    reveal_strlit("JSON");
    is_ascii_chars_encode_utf8("JPNIC"@);
    is_ascii_chars_encode_utf8("JSON"@);
    let a = "JPNIC".spec_bytes();
    let b = "JSON".spec_bytes();
    assert(a.subrange(0, 1) =~= b.subrange(0, 1));
    assert(differs_below(a, b, 1));
}

proof fn lemma_license_order_206()
    ensures
        sorts_before("JSON".spec_bytes(), "JasPer-2.0".spec_bytes()),
{
    reveal_strlit("JSON");
    reveal_strlit("JasPer-2.0");
    is_ascii_chars_encode_utf8("JSON"@);
    is_ascii_chars_encode_utf8("JasPer-2.0"@);
    let a = "JSON".spec_bytes();
    let b = "JasPer-2.0".spec_bytes();
    assert(a.subrange(0, 1) =~= b.subrange(0, 1));
    assert(differs_below(a, b, 1));
}

proof fn lemma_license_order_207()
    ensures
        sorts_before("JasPer-2.0".spec_bytes(), "LAL-1.2".spec_bytes()),
{
    reveal_strlit("JasPer-2.0");
    reveal_strlit("LAL-1.2");
    is_ascii_chars_encode_utf8("JasPer-2.0"@);
    is_ascii_chars_encode_utf8("LAL-1.2"@);
    let a = "JasPer-2.0".spec_bytes();
    let b = "LAL-1.2".spec_bytes();
    assert(a.subrange(0, 0) =~= b.subrange(0, 0));
    assert(differs_below(a, b, 0));
}

proof fn lemma_license_order_208()
    ensures
        sorts_before("LAL-1.2".spec_bytes(), "LAL-1.3".spec_bytes()),
{
    reveal_strlit("LAL-1.2");
    reveal_strlit("LAL-1.3");
    is_ascii_chars_encode_utf8("LAL-1.2"@);
    is_ascii_chars_encode_utf8("LAL-1.3"@);
    let a = "LAL-1.2".spec_bytes();
    let b = "LAL-1.3".spec_bytes();
    assert(a.subrange(0, 6) =~= b.subrange(0, 6));
    assert(differs_below(a, b, 6));
}

proof fn lemma_license_order_209()
    ensures
        sorts_before("LAL-1.3".spec_bytes(), "LGPL-2.0".spec_bytes()),
{
    reveal_strlit("LAL-1.3");
    reveal_strlit("LGPL-2.0");
    is_ascii_chars_encode_utf8("LAL-1.3"@);
    is_ascii_chars_encode_utf8("LGPL-2.0"@);
    let a = "LAL-1.3".spec_bytes();
    let b = "LGPL-2.0".spec_bytes();
    assert(a.subrange(0, 1) =~= b.subrange(0, 1));
    assert(differs_below(a, b, 1));
}

proof fn lemma_license_order_210()
    ensures
        sorts_before("LGPL-2.0".spec_bytes(), "LGPL-2.0+".spec_bytes()),
{
    reveal_strlit("LGPL-2.0");
    reveal_strlit("LGPL-2.0+");
    is_ascii_chars_encode_utf8("LGPL-2.0"@);
    is_ascii_chars_encode_utf8("LGPL-2.0+"@);
    let a = "LGPL-2.0".spec_bytes();
    let b = "LGPL-2.0+".spec_bytes();
    assert(b.subrange(0, 8) =~= a);
}

proof fn lemma_license_order_211()
    ensures
        sorts_before("LGPL-2.0+".spec_bytes(), "LGPL-2.0-only".spec_bytes()),
{
    reveal_strlit("LGPL-2.0+");
    reveal_strlit("LGPL-2.0-only");
    is_ascii_chars_encode_utf8("LGPL-2.0+"@);
    is_ascii_chars_encode_utf8("LGPL-2.0-only"@);
    let a = "LGPL-2.0+".spec_bytes();
    let b = "LGPL-2.0-only".spec_bytes();
    assert(a.subrange(0, 8) =~= b.subrange(0, 8));
    assert(differs_below(a, b, 8));
}

proof fn lemma_license_order_212()
    ensures
        sorts_before("LGPL-2.0-only".spec_bytes(), "LGPL-2.0-or-later".spec_bytes()),
{
    reveal_strlit("LGPL-2.0-only");
    reveal_strlit("LGPL-2.0-or-later");
    is_ascii_chars_encode_utf8("LGPL-2.0-only"@);
    is_ascii_chars_encode_utf8("LGPL-2.0-or-later"@);
    let a = "LGPL-2.0-only".spec_bytes();
    let b = "LGPL-2.0-or-later".spec_bytes();
    assert(a.subrange(0, 10) =~= b.subrange(0, 10));
    assert(differs_below(a, b, 10));
}

proof fn lemma_license_order_213()
    ensures
        sorts_before("LGPL-2.0-or-later".spec_bytes(), "LGPL-2.1".spec_bytes()),
{
    reveal_strlit("LGPL-2.0-or-later");
    reveal_strlit("LGPL-2.1");
    is_ascii_chars_encode_utf8("LGPL-2.0-or-later"@);
    is_ascii_chars_encode_utf8("LGPL-2.1"@);
    let a = "LGPL-2.0-or-later".spec_bytes();
    let b = "LGPL-2.1".spec_bytes();
    assert(a.subrange(0, 7) =~= b.subrange(0, 7));
    assert(differs_below(a, b, 7));
}

proof fn lemma_license_order_214()
    ensures
        sorts_before("LGPL-2.1".spec_bytes(), "LGPL-2.1+".spec_bytes()),
{
    reveal_strlit("LGPL-2.1");
    reveal_strlit("LGPL-2.1+");
    is_ascii_chars_encode_utf8("LGPL-2.1"@);
    is_ascii_chars_encode_utf8("LGPL-2.1+"@);
    let a = "LGPL-2.1".spec_bytes();
    let b = "LGPL-2.1+".spec_bytes();
    assert(b.subrange(0, 8) =~= a);
}

proof fn lemma_license_order_215()
    ensures
        sorts_before("LGPL-2.1+".spec_bytes(), "LGPL-2.1-only".spec_bytes()),
{
    reveal_strlit("LGPL-2.1+");
    reveal_strlit("LGPL-2.1-only");
    is_ascii_chars_encode_utf8("LGPL-2.1+"@);
    is_ascii_chars_encode_utf8("LGPL-2.1-only"@);
    let a = "LGPL-2.1+".spec_bytes();
    let b = "LGPL-2.1-only".spec_bytes();
    assert(a.subrange(0, 8) =~= b.subrange(0, 8));
    assert(differs_below(a, b, 8));
}

proof fn lemma_license_order_216()
    ensures
        sorts_before("LGPL-2.1-only".spec_bytes(), "LGPL-2.1-or-later".spec_bytes()),
{
    reveal_strlit("LGPL-2.1-only");
    reveal_strlit("LGPL-2.1-or-later");
    is_ascii_chars_encode_utf8("LGPL-2.1-only"@);
    is_ascii_chars_encode_utf8("LGPL-2.1-or-later"@);
    let a = "LGPL-2.1-only".spec_bytes();
    let b = "LGPL-2.1-or-later".spec_bytes();
    assert(a.subrange(0, 10) =~= b.subrange(0, 10));
    assert(differs_below(a, b, 10));
}

proof fn lemma_license_order_217()
    ensures
        sorts_before("LGPL-2.1-or-later".spec_bytes(), "LGPL-3.0".spec_bytes()),
{
    reveal_strlit("LGPL-2.1-or-later");
    reveal_strlit("LGPL-3.0");
    is_ascii_chars_encode_utf8("LGPL-2.1-or-later"@);
    is_ascii_chars_encode_utf8("LGPL-3.0"@);
    let a = "LGPL-2.1-or-later".spec_bytes();
    let b = "LGPL-3.0".spec_bytes();
    assert(a.subrange(0, 5) =~= b.subrange(0, 5));
    assert(differs_below(a, b, 5));
}

proof fn lemma_license_order_218()
    ensures
        sorts_before("LGPL-3.0".spec_bytes(), "LGPL-3.0+".spec_bytes()),
{
    reveal_strlit("LGPL-3.0");
    reveal_strlit("LGPL-3.0+");
    is_ascii_chars_encode_utf8("LGPL-3.0"@);
    is_ascii_chars_encode_utf8("LGPL-3.0+"@);
    let a = "LGPL-3.0".spec_bytes();
    let b = "LGPL-3.0+".spec_bytes();
    assert(b.subrange(0, 8) =~= a);
}

proof fn lemma_license_order_219()
    ensures
        sorts_before("LGPL-3.0+".spec_bytes(), "LGPL-3.0-only".spec_bytes()),
{
    reveal_strlit("LGPL-3.0+");
    reveal_strlit("LGPL-3.0-only");
    is_ascii_chars_encode_utf8("LGPL-3.0+"@);
    is_ascii_chars_encode_utf8("LGPL-3.0-only"@);
    let a = "LGPL-3.0+".spec_bytes();
    let b = "LGPL-3.0-only".spec_bytes();
    assert(a.subrange(0, 8) =~= b.subrange(0, 8));
    assert(differs_below(a, b, 8));
}

proof fn lemma_license_order_220()
    ensures
        sorts_before("LGPL-3.0-only".spec_bytes(), "LGPL-3.0-or-later".spec_bytes()),
{
    reveal_strlit("LGPL-3.0-only");
    reveal_strlit("LGPL-3.0-or-later");
    is_ascii_chars_encode_utf8("LGPL-3.0-only"@);
    is_ascii_chars_encode_utf8("LGPL-3.0-or-later"@);
    let a = "LGPL-3.0-only".spec_bytes();
    let b = "LGPL-3.0-or-later".spec_bytes();
    assert(a.subrange(0, 10) =~= b.subrange(0, 10));
    assert(differs_below(a, b, 10));
}

proof fn lemma_license_order_221()
    ensures
        sorts_before("LGPL-3.0-or-later".spec_bytes(), "LGPLLR".spec_bytes()),
{
    reveal_strlit("LGPL-3.0-or-later");
    reveal_strlit("LGPLLR");
    is_ascii_chars_encode_utf8("LGPL-3.0-or-later"@);
    is_ascii_chars_encode_utf8("LGPLLR"@);
    let a = "LGPL-3.0-or-later".spec_bytes();
    let b = "LGPLLR".spec_bytes();
    assert(a.subrange(0, 4) =~= b.subrange(0, 4));
    assert(differs_below(a, b, 4));
}

proof fn lemma_license_order_222()
    ensures
        sorts_before("LGPLLR".spec_bytes(), "LPL-1.0".spec_bytes()),
{
    reveal_strlit("LGPLLR");
    reveal_strlit("LPL-1.0");
    is_ascii_chars_encode_utf8("LGPLLR"@);
    is_ascii_chars_encode_utf8("LPL-1.0"@);
    let a = "LGPLLR".spec_bytes();
    let b = "LPL-1.0".spec_bytes();
    assert(a.subrange(0, 1) =~= b.subrange(0, 1));
    assert(differs_below(a, b, 1));
}

proof fn lemma_license_order_223()
    ensures
        sorts_before("LPL-1.0".spec_bytes(), "LPL-1.02".spec_bytes()),
{
    reveal_strlit("LPL-1.0");
    reveal_strlit("LPL-1.02");
    is_ascii_chars_encode_utf8("LPL-1.0"@);
    is_ascii_chars_encode_utf8("LPL-1.02"@);
    let a = "LPL-1.0".spec_bytes();
    let b = "LPL-1.02".spec_bytes();
    assert(b.subrange(0, 7) =~= a);
}

proof fn lemma_license_order_224()
    ensures
        sorts_before("LPL-1.02".spec_bytes(), "LPPL-1.0".spec_bytes()),
{
    reveal_strlit("LPL-1.02");
    reveal_strlit("LPPL-1.0");
    is_ascii_chars_encode_utf8("LPL-1.02"@);
    is_ascii_chars_encode_utf8("LPPL-1.0"@);
    let a = "LPL-1.02".spec_bytes();
    let b = "LPPL-1.0".spec_bytes();
    assert(a.subrange(0, 2) =~= b.subrange(0, 2));
    assert(differs_below(a, b, 2));
}

proof fn lemma_license_order_225()
    ensures
        sorts_before("LPPL-1.0".spec_bytes(), "LPPL-1.1".spec_bytes()),
{
    reveal_strlit("LPPL-1.0");
    reveal_strlit("LPPL-1.1");
    is_ascii_chars_encode_utf8("LPPL-1.0"@);
    is_ascii_chars_encode_utf8("LPPL-1.1"@);
    let a = "LPPL-1.0".spec_bytes();
    let b = "LPPL-1.1".spec_bytes();
    assert(a.subrange(0, 7) =~= b.subrange(0, 7));
    assert(differs_below(a, b, 7));
}

proof fn lemma_license_order_226()
    ensures
        sorts_before("LPPL-1.1".spec_bytes(), "LPPL-1.2".spec_bytes()),
{
    reveal_strlit("LPPL-1.1");
    reveal_strlit("LPPL-1.2");
    is_ascii_chars_encode_utf8("LPPL-1.1"@);
    is_ascii_chars_encode_utf8("LPPL-1.2"@);
    let a = "LPPL-1.1".spec_bytes();
    let b = "LPPL-1.2".spec_bytes();
    assert(a.subrange(0, 7) =~= b.subrange(0, 7));
    assert(differs_below(a, b, 7));
}

proof fn lemma_license_order_227()
    ensures
        sorts_before("LPPL-1.2".spec_bytes(), "LPPL-1.3a".spec_bytes()),
{
    reveal_strlit("LPPL-1.2");
    reveal_strlit("LPPL-1.3a");
    is_ascii_chars_encode_utf8("LPPL-1.2"@);
    is_ascii_chars_encode_utf8("LPPL-1.3a"@);
    let a = "LPPL-1.2".spec_bytes();
    let b = "LPPL-1.3a".spec_bytes();
    assert(a.subrange(0, 7) =~= b.subrange(0, 7));
    assert(differs_below(a, b, 7));
}

proof fn lemma_license_order_228()
    ensures
        sorts_before("LPPL-1.3a".spec_bytes(), "LPPL-1.3c".spec_bytes()),
{
    reveal_strlit("LPPL-1.3a");
    reveal_strlit("LPPL-1.3c");
    is_ascii_chars_encode_utf8("LPPL-1.3a"@);
    is_ascii_chars_encode_utf8("LPPL-1.3c"@);
    let a = "LPPL-1.3a".spec_bytes();
    let b = "LPPL-1.3c".spec_bytes();
    assert(a.subrange(0, 8) =~= b.subrange(0, 8));
    assert(differs_below(a, b, 8));
}

proof fn lemma_license_order_229()
    ensures
        sorts_before("LPPL-1.3c".spec_bytes(), "Latex2e".spec_bytes()),
{
    reveal_strlit("LPPL-1.3c");
    reveal_strlit("Latex2e");
    is_ascii_chars_encode_utf8("LPPL-1.3c"@);
    is_ascii_chars_encode_utf8("Latex2e"@);
    let a = "LPPL-1.3c".spec_bytes();
    let b = "Latex2e".spec_bytes();
    assert(a.subrange(0, 1) =~= b.subrange(0, 1));
    assert(differs_below(a, b, 1));
}

proof fn lemma_license_order_230()
    ensures
        sorts_before("Latex2e".spec_bytes(), "Leptonica".spec_bytes()),
{
    reveal_strlit("Latex2e");
    reveal_strlit("Leptonica");
    is_ascii_chars_encode_utf8("Latex2e"@);
    is_ascii_chars_encode_utf8("Leptonica"@);
    let a = "Latex2e".spec_bytes();
    let b = "Leptonica".spec_bytes();
    assert(a.subrange(0, 1) =~= b.subrange(0, 1));
    assert(differs_below(a, b, 1));
}

proof fn lemma_license_order_231()
    ensures
        sorts_before("Leptonica".spec_bytes(), "LiLiQ-P-1.1".spec_bytes()),
{
    reveal_strlit("Leptonica");
    reveal_strlit("LiLiQ-P-1.1");
    is_ascii_chars_encode_utf8("Leptonica"@);
    is_ascii_chars_encode_utf8("LiLiQ-P-1.1"@);
    let a = "Leptonica".spec_bytes();
    let b = "LiLiQ-P-1.1".spec_bytes();
    assert(a.subrange(0, 1) =~= b.subrange(0, 1));
    assert(differs_below(a, b, 1));
}

proof fn lemma_license_order_232()
    ensures
        sorts_before("LiLiQ-P-1.1".spec_bytes(), "LiLiQ-R-1.1".spec_bytes()),
{
    reveal_strlit("LiLiQ-P-1.1");
    reveal_strlit("LiLiQ-R-1.1");
    is_ascii_chars_encode_utf8("LiLiQ-P-1.1"@);
    is_ascii_chars_encode_utf8("LiLiQ-R-1.1"@);
    let a = "LiLiQ-P-1.1".spec_bytes();
    let b = "LiLiQ-R-1.1".spec_bytes();
    assert(a.subrange(0, 6) =~= b.subrange(0, 6));
    assert(differs_below(a, b, 6));
}

proof fn lemma_license_order_233()
    ensures
        sorts_before("LiLiQ-R-1.1".spec_bytes(), "LiLiQ-Rplus-1.1".spec_bytes()),
{
    reveal_strlit("LiLiQ-R-1.1");
    reveal_strlit("LiLiQ-Rplus-1.1");
    is_ascii_chars_encode_utf8("LiLiQ-R-1.1"@);
    is_ascii_chars_encode_utf8("LiLiQ-Rplus-1.1"@);
    let a = "LiLiQ-R-1.1".spec_bytes();
    let b = "LiLiQ-Rplus-1.1".spec_bytes();
    assert(a.subrange(0, 7) =~= b.subrange(0, 7));
    assert(differs_below(a, b, 7));
}

proof fn lemma_license_order_234()
    ensures
        sorts_before("LiLiQ-Rplus-1.1".spec_bytes(), "Libpng".spec_bytes()),
{
    reveal_strlit("LiLiQ-Rplus-1.1");
    reveal_strlit("Libpng");
    is_ascii_chars_encode_utf8("LiLiQ-Rplus-1.1"@);
    is_ascii_chars_encode_utf8("Libpng"@);
    let a = "LiLiQ-Rplus-1.1".spec_bytes();
    let b = "Libpng".spec_bytes();
    assert(a.subrange(0, 2) =~= b.subrange(0, 2));
    assert(differs_below(a, b, 2));
}

proof fn lemma_license_order_235()
    ensures
        sorts_before("Libpng".spec_bytes(), "Linux-OpenIB".spec_bytes()),
{
    reveal_strlit("Libpng");
    reveal_strlit("Linux-OpenIB");
    is_ascii_chars_encode_utf8("Libpng"@);
    is_ascii_chars_encode_utf8("Linux-OpenIB"@);
    let a = "Libpng".spec_bytes();
    let b = "Linux-OpenIB".spec_bytes();
    assert(a.subrange(0, 2) =~= b.subrange(0, 2));
    assert(differs_below(a, b, 2));
}

proof fn lemma_license_order_236()
    ensures
        sorts_before("Linux-OpenIB".spec_bytes(), "MIT".spec_bytes()),
{
    reveal_strlit("Linux-OpenIB");
    reveal_strlit("MIT");
    is_ascii_chars_encode_utf8("Linux-OpenIB"@);
    is_ascii_chars_encode_utf8("MIT"@);
    let a = "Linux-OpenIB".spec_bytes();
    let b = "MIT".spec_bytes();
    assert(a.subrange(0, 0) =~= b.subrange(0, 0));
    assert(differs_below(a, b, 0));
}

proof fn lemma_license_order_237()
    ensures
        sorts_before("MIT".spec_bytes(), "MIT-0".spec_bytes()),
{
    reveal_strlit("MIT");
    reveal_strlit("MIT-0");
    is_ascii_chars_encode_utf8("MIT"@);
    is_ascii_chars_encode_utf8("MIT-0"@);
    let a = "MIT".spec_bytes();
    let b = "MIT-0".spec_bytes();
    assert(b.subrange(0, 3) =~= a);
}

proof fn lemma_license_order_238()
    ensures
        sorts_before("MIT-0".spec_bytes(), "MIT-CMU".spec_bytes()),
{
    reveal_strlit("MIT-0");
    reveal_strlit("MIT-CMU");
    is_ascii_chars_encode_utf8("MIT-0"@);
    is_ascii_chars_encode_utf8("MIT-CMU"@);
    let a = "MIT-0".spec_bytes();
    let b = "MIT-CMU".spec_bytes();
    assert(a.subrange(0, 4) =~= b.subrange(0, 4));
    assert(differs_below(a, b, 4));
}

proof fn lemma_license_order_239()
    ensures
        sorts_before("MIT-CMU".spec_bytes(), "MIT-advertising".spec_bytes()),
{
    reveal_strlit("MIT-CMU");
    reveal_strlit("MIT-advertising");
    is_ascii_chars_encode_utf8("MIT-CMU"@);
    is_ascii_chars_encode_utf8("MIT-advertising"@);
    let a = "MIT-CMU".spec_bytes();
    let b = "MIT-advertising".spec_bytes();
    assert(a.subrange(0, 4) =~= b.subrange(0, 4));
    assert(differs_below(a, b, 4));
}

proof fn lemma_license_order_240()
    ensures
        sorts_before("MIT-advertising".spec_bytes(), "MIT-enna".spec_bytes()),
{
    reveal_strlit("MIT-advertising");
    reveal_strlit("MIT-enna");
    is_ascii_chars_encode_utf8("MIT-advertising"@);
    is_ascii_chars_encode_utf8("MIT-enna"@);
    let a = "MIT-advertising".spec_bytes();
    let b = "MIT-enna".spec_bytes();
    assert(a.subrange(0, 4) =~= b.subrange(0, 4));
    assert(differs_below(a, b, 4));
}

proof fn lemma_license_order_241()
    ensures
        sorts_before("MIT-enna".spec_bytes(), "MIT-feh".spec_bytes()),
{
    reveal_strlit("MIT-enna");
    reveal_strlit("MIT-feh");
    is_ascii_chars_encode_utf8("MIT-enna"@);
    is_ascii_chars_encode_utf8("MIT-feh"@);
    let a = "MIT-enna".spec_bytes();
    let b = "MIT-feh".spec_bytes();
    assert(a.subrange(0, 4) =~= b.subrange(0, 4));
    assert(differs_below(a, b, 4));
}

proof fn lemma_license_order_242()
    ensures
        sorts_before("MIT-feh".spec_bytes(), "MITNFA".spec_bytes()),
{
    reveal_strlit("MIT-feh");
    reveal_strlit("MITNFA");
    is_ascii_chars_encode_utf8("MIT-feh"@);
    is_ascii_chars_encode_utf8("MITNFA"@);
    let a = "MIT-feh".spec_bytes();
    let b = "MITNFA".spec_bytes();
    assert(a.subrange(0, 3) =~= b.subrange(0, 3));
    assert(differs_below(a, b, 3));
}

proof fn lemma_license_order_243()
    ensures
        sorts_before("MITNFA".spec_bytes(), "MPL-1.0".spec_bytes()),
{
    reveal_strlit("MITNFA");
    reveal_strlit("MPL-1.0");
    is_ascii_chars_encode_utf8("MITNFA"@);
    is_ascii_chars_encode_utf8("MPL-1.0"@);
    let a = "MITNFA".spec_bytes();
    let b = "MPL-1.0".spec_bytes();
    assert(a.subrange(0, 1) =~= b.subrange(0, 1));
    assert(differs_below(a, b, 1));
}

proof fn lemma_license_order_244()
    ensures
        sorts_before("MPL-1.0".spec_bytes(), "MPL-1.1".spec_bytes()),
{
    reveal_strlit("MPL-1.0");
    reveal_strlit("MPL-1.1");
    is_ascii_chars_encode_utf8("MPL-1.0"@);
    is_ascii_chars_encode_utf8("MPL-1.1"@);
    let a = "MPL-1.0".spec_bytes();
    let b = "MPL-1.1".spec_bytes();
    assert(a.subrange(0, 6) =~= b.subrange(0, 6));
    assert(differs_below(a, b, 6));
}

proof fn lemma_license_order_245()
    ensures
        sorts_before("MPL-1.1".spec_bytes(), "MPL-2.0".spec_bytes()),
{
    reveal_strlit("MPL-1.1");
    reveal_strlit("MPL-2.0");
    is_ascii_chars_encode_utf8("MPL-1.1"@);
    is_ascii_chars_encode_utf8("MPL-2.0"@);
    let a = "MPL-1.1".spec_bytes();
    let b = "MPL-2.0".spec_bytes();
    assert(a.subrange(0, 4) =~= b.subrange(0, 4));
    assert(differs_below(a, b, 4));
}

proof fn lemma_license_order_246()
    ensures
        sorts_before("MPL-2.0".spec_bytes(), "MPL-2.0-no-copyleft-exception".spec_bytes()),
{
    reveal_strlit("MPL-2.0");
    reveal_strlit("MPL-2.0-no-copyleft-exception");
    is_ascii_chars_encode_utf8("MPL-2.0"@);
    is_ascii_chars_encode_utf8("MPL-2.0-no-copyleft-exception"@);
    let a = "MPL-2.0".spec_bytes();
    let b = "MPL-2.0-no-copyleft-exception".spec_bytes();
    assert(b.subrange(0, 7) =~= a);
}

proof fn lemma_license_order_247()
    ensures
        sorts_before("MPL-2.0-no-copyleft-exception".spec_bytes(), "MS-PL".spec_bytes()),
{
    reveal_strlit("MPL-2.0-no-copyleft-exception");
    reveal_strlit("MS-PL");
    is_ascii_chars_encode_utf8("MPL-2.0-no-copyleft-exception"@);
    is_ascii_chars_encode_utf8("MS-PL"@);
    let a = "MPL-2.0-no-copyleft-exception".spec_bytes();
    let b = "MS-PL".spec_bytes();
    assert(a.subrange(0, 1) =~= b.subrange(0, 1));
    assert(differs_below(a, b, 1));
}

proof fn lemma_license_order_248()
    ensures
        sorts_before("MS-PL".spec_bytes(), "MS-RL".spec_bytes()),
{
    reveal_strlit("MS-PL");
    reveal_strlit("MS-RL");
    is_ascii_chars_encode_utf8("MS-PL"@);
    is_ascii_chars_encode_utf8("MS-RL"@);
    let a = "MS-PL".spec_bytes();
    let b = "MS-RL".spec_bytes();
    assert(a.subrange(0, 3) =~= b.subrange(0, 3));
    assert(differs_below(a, b, 3));
}

proof fn lemma_license_order_249()
    ensures
        sorts_before("MS-RL".spec_bytes(), "MTLL".spec_bytes()),
{
    reveal_strlit("MS-RL");
    reveal_strlit("MTLL");
    is_ascii_chars_encode_utf8("MS-RL"@);
    is_ascii_chars_encode_utf8("MTLL"@);
    let a = "MS-RL".spec_bytes();
    let b = "MTLL".spec_bytes();
    assert(a.subrange(0, 1) =~= b.subrange(0, 1));
    assert(differs_below(a, b, 1));
}

proof fn lemma_license_order_250()
    ensures
        sorts_before("MTLL".spec_bytes(), "MakeIndex".spec_bytes()),
{
    reveal_strlit("MTLL");
    reveal_strlit("MakeIndex");
    is_ascii_chars_encode_utf8("MTLL"@);
    is_ascii_chars_encode_utf8("MakeIndex"@);
    let a = "MTLL".spec_bytes();
    let b = "MakeIndex".spec_bytes();
    assert(a.subrange(0, 1) =~= b.subrange(0, 1));
    assert(differs_below(a, b, 1));
}

proof fn lemma_license_order_251()
    ensures
        sorts_before("MakeIndex".spec_bytes(), "MirOS".spec_bytes()),
{
    reveal_strlit("MakeIndex");
    reveal_strlit("MirOS");
    is_ascii_chars_encode_utf8("MakeIndex"@);
    is_ascii_chars_encode_utf8("MirOS"@);
    let a = "MakeIndex".spec_bytes();
    let b = "MirOS".spec_bytes();
    assert(a.subrange(0, 1) =~= b.subrange(0, 1));
    assert(differs_below(a, b, 1));
}

proof fn lemma_license_order_252()
    ensures
        sorts_before("MirOS".spec_bytes(), "Motosoto".spec_bytes()),
{
    reveal_strlit("MirOS");
    reveal_strlit("Motosoto");
    is_ascii_chars_encode_utf8("MirOS"@);
    is_ascii_chars_encode_utf8("Motosoto"@);
    let a = "MirOS".spec_bytes();
    let b = "Motosoto".spec_bytes();
    assert(a.subrange(0, 1) =~= b.subrange(0, 1));
    assert(differs_below(a, b, 1));
}

proof fn lemma_license_order_253()
    ensures
        sorts_before("Motosoto".spec_bytes(), "Multics".spec_bytes()),
{
    reveal_strlit("Motosoto");
    reveal_strlit("Multics");
    is_ascii_chars_encode_utf8("Motosoto"@);
    is_ascii_chars_encode_utf8("Multics"@);
    let a = "Motosoto".spec_bytes();
    let b = "Multics".spec_bytes();
    assert(a.subrange(0, 1) =~= b.subrange(0, 1));
    assert(differs_below(a, b, 1));
}

proof fn lemma_license_order_254()
    ensures
        sorts_before("Multics".spec_bytes(), "Mup".spec_bytes()),
{
    reveal_strlit("Multics");
    reveal_strlit("Mup");
    is_ascii_chars_encode_utf8("Multics"@);
    is_ascii_chars_encode_utf8("Mup"@);
    let a = "Multics".spec_bytes();
    let b = "Mup".spec_bytes();
    assert(a.subrange(0, 2) =~= b.subrange(0, 2));
    assert(differs_below(a, b, 2));
}

proof fn lemma_license_order_255()
    ensures
        sorts_before("Mup".spec_bytes(), "NASA-1.3".spec_bytes()),
{
    reveal_strlit("Mup");
    reveal_strlit("NASA-1.3");
    is_ascii_chars_encode_utf8("Mup"@);
    is_ascii_chars_encode_utf8("NASA-1.3"@);
    let a = "Mup".spec_bytes();
    let b = "NASA-1.3".spec_bytes();
    assert(a.subrange(0, 0) =~= b.subrange(0, 0));
    assert(differs_below(a, b, 0));
}

proof fn lemma_license_order_256()
    ensures
        sorts_before("NASA-1.3".spec_bytes(), "NBPL-1.0".spec_bytes()),
{
    reveal_strlit("NASA-1.3");
    reveal_strlit("NBPL-1.0");
    is_ascii_chars_encode_utf8("NASA-1.3"@);
    is_ascii_chars_encode_utf8("NBPL-1.0"@);
    let a = "NASA-1.3".spec_bytes();
    let b = "NBPL-1.0".spec_bytes();
    assert(a.subrange(0, 1) =~= b.subrange(0, 1));
    assert(differs_below(a, b, 1));
}

proof fn lemma_license_order_257()
    ensures
        sorts_before("NBPL-1.0".spec_bytes(), "NCSA".spec_bytes()),
{
    reveal_strlit("NBPL-1.0");
    reveal_strlit("NCSA");
    is_ascii_chars_encode_utf8("NBPL-1.0"@);
    is_ascii_chars_encode_utf8("NCSA"@);
    let a = "NBPL-1.0".spec_bytes();
    let b = "NCSA".spec_bytes();
    assert(a.subrange(0, 1) =~= b.subrange(0, 1));
    assert(differs_below(a, b, 1));
}

proof fn lemma_license_order_258()
    ensures
        sorts_before("NCSA".spec_bytes(), "NGPL".spec_bytes()),
{
    reveal_strlit("NCSA");
    reveal_strlit("NGPL");
    is_ascii_chars_encode_utf8("NCSA"@);
    is_ascii_chars_encode_utf8("NGPL"@);
    let a = "NCSA".spec_bytes();
    let b = "NGPL".spec_bytes();
    assert(a.subrange(0, 1) =~= b.subrange(0, 1));
    assert(differs_below(a, b, 1));
}

proof fn lemma_license_order_259()
    ensures
        sorts_before("NGPL".spec_bytes(), "NLOD-1.0".spec_bytes()),
{
    reveal_strlit("NGPL");
    reveal_strlit("NLOD-1.0");
    is_ascii_chars_encode_utf8("NGPL"@);
    is_ascii_chars_encode_utf8("NLOD-1.0"@);
    let a = "NGPL".spec_bytes();
    let b = "NLOD-1.0".spec_bytes();
    assert(a.subrange(0, 1) =~= b.subrange(0, 1));
    assert(differs_below(a, b, 1));
}

proof fn lemma_license_order_260()
    ensures
        sorts_before("NLOD-1.0".spec_bytes(), "NLPL".spec_bytes()),
{
    reveal_strlit("NLOD-1.0");
    reveal_strlit("NLPL");
    is_ascii_chars_encode_utf8("NLOD-1.0"@);
    is_ascii_chars_encode_utf8("NLPL"@);
    let a = "NLOD-1.0".spec_bytes();
    let b = "NLPL".spec_bytes();
    assert(a.subrange(0, 2) =~= b.subrange(0, 2));
    assert(differs_below(a, b, 2));
}

proof fn lemma_license_order_261()
    ensures
        sorts_before("NLPL".spec_bytes(), "NOASSERTION".spec_bytes()),
{
    reveal_strlit("NLPL");
    reveal_strlit("NOASSERTION");
    is_ascii_chars_encode_utf8("NLPL"@);
    is_ascii_chars_encode_utf8("NOASSERTION"@);
    let a = "NLPL".spec_bytes();
    let b = "NOASSERTION".spec_bytes();
    assert(a.subrange(0, 1) =~= b.subrange(0, 1));
    assert(differs_below(a, b, 1));
}

proof fn lemma_license_order_262()
    ensures
        sorts_before("NOASSERTION".spec_bytes(), "NOSL".spec_bytes()),
{
    reveal_strlit("NOASSERTION");
    reveal_strlit("NOSL");
    is_ascii_chars_encode_utf8("NOASSERTION"@);
    is_ascii_chars_encode_utf8("NOSL"@);
    let a = "NOASSERTION".spec_bytes();
    let b = "NOSL".spec_bytes();
    assert(a.subrange(0, 2) =~= b.subrange(0, 2));
    assert(differs_below(a, b, 2));
}

proof fn lemma_license_order_263()
    ensures
        sorts_before("NOSL".spec_bytes(), "NPL-1.0".spec_bytes()),
{
    reveal_strlit("NOSL");
    reveal_strlit("NPL-1.0");
    is_ascii_chars_encode_utf8("NOSL"@);
    is_ascii_chars_encode_utf8("NPL-1.0"@);
    let a = "NOSL".spec_bytes();
    let b = "NPL-1.0".spec_bytes();
    assert(a.subrange(0, 1) =~= b.subrange(0, 1));
    assert(differs_below(a, b, 1));
}

proof fn lemma_license_order_264()
    ensures
        sorts_before("NPL-1.0".spec_bytes(), "NPL-1.1".spec_bytes()),
{
    reveal_strlit("NPL-1.0");
    reveal_strlit("NPL-1.1");
    is_ascii_chars_encode_utf8("NPL-1.0"@);
    is_ascii_chars_encode_utf8("NPL-1.1"@);
    let a = "NPL-1.0".spec_bytes();
    let b = "NPL-1.1".spec_bytes();
    assert(a.subrange(0, 6) =~= b.subrange(0, 6));
    assert(differs_below(a, b, 6));
}

proof fn lemma_license_order_265()
    ensures
        sorts_before("NPL-1.1".spec_bytes(), "NPOSL-3.0".spec_bytes()),
{
    reveal_strlit("NPL-1.1");
    reveal_strlit("NPOSL-3.0");
    is_ascii_chars_encode_utf8("NPL-1.1"@);
    is_ascii_chars_encode_utf8("NPOSL-3.0"@);
    let a = "NPL-1.1".spec_bytes();
    let b = "NPOSL-3.0".spec_bytes();
    assert(a.subrange(0, 2) =~= b.subrange(0, 2));
    assert(differs_below(a, b, 2));
}

proof fn lemma_license_order_266()
    ensures
        sorts_before("NPOSL-3.0".spec_bytes(), "NRL".spec_bytes()),
{
    reveal_strlit("NPOSL-3.0");
    reveal_strlit("NRL");
    is_ascii_chars_encode_utf8("NPOSL-3.0"@);
    is_ascii_chars_encode_utf8("NRL"@);
    let a = "NPOSL-3.0".spec_bytes();
    let b = "NRL".spec_bytes();
    assert(a.subrange(0, 1) =~= b.subrange(0, 1));
    assert(differs_below(a, b, 1));
}

proof fn lemma_license_order_267()
    ensures
        sorts_before("NRL".spec_bytes(), "NTP".spec_bytes()),
{
    reveal_strlit("NRL");
    reveal_strlit("NTP");
    is_ascii_chars_encode_utf8("NRL"@);
    is_ascii_chars_encode_utf8("NTP"@);
    let a = "NRL".spec_bytes();
    let b = "NTP".spec_bytes();
    assert(a.subrange(0, 1) =~= b.subrange(0, 1));
    assert(differs_below(a, b, 1));
}

proof fn lemma_license_order_268()
    ensures
        sorts_before("NTP".spec_bytes(), "Naumen".spec_bytes()),
{
    reveal_strlit("NTP");
    reveal_strlit("Naumen");
    is_ascii_chars_encode_utf8("NTP"@);
    is_ascii_chars_encode_utf8("Naumen"@);
    let a = "NTP".spec_bytes();
    let b = "Naumen".spec_bytes();
    assert(a.subrange(0, 1) =~= b.subrange(0, 1));
    assert(differs_below(a, b, 1));
}

proof fn lemma_license_order_269()
    ensures
        sorts_before("Naumen".spec_bytes(), "Net-SNMP".spec_bytes()),
{
    reveal_strlit("Naumen");
    reveal_strlit("Net-SNMP");
    is_ascii_chars_encode_utf8("Naumen"@);
    is_ascii_chars_encode_utf8("Net-SNMP"@);
    let a = "Naumen".spec_bytes();
    let b = "Net-SNMP".spec_bytes();
    assert(a.subrange(0, 1) =~= b.subrange(0, 1));
    assert(differs_below(a, b, 1));
}

proof fn lemma_license_order_270()
    ensures
        sorts_before("Net-SNMP".spec_bytes(), "NetCDF".spec_bytes()),
{
    reveal_strlit("Net-SNMP");
    reveal_strlit("NetCDF");
    is_ascii_chars_encode_utf8("Net-SNMP"@);
    is_ascii_chars_encode_utf8("NetCDF"@);
    let a = "Net-SNMP".spec_bytes();
    let b = "NetCDF".spec_bytes();
    assert(a.subrange(0, 3) =~= b.subrange(0, 3));
    assert(differs_below(a, b, 3));
}

proof fn lemma_license_order_271()
    ensures
        sorts_before("NetCDF".spec_bytes(), "Newsletr".spec_bytes()),
{
    reveal_strlit("NetCDF");
    reveal_strlit("Newsletr");
    is_ascii_chars_encode_utf8("NetCDF"@);
    is_ascii_chars_encode_utf8("Newsletr"@);
    let a = "NetCDF".spec_bytes();
    let b = "Newsletr".spec_bytes();
    assert(a.subrange(0, 2) =~= b.subrange(0, 2));
    assert(differs_below(a, b, 2));
}

proof fn lemma_license_order_272()
    ensures
        sorts_before("Newsletr".spec_bytes(), "Nokia".spec_bytes()),
{
    reveal_strlit("Newsletr");
    reveal_strlit("Nokia");
    is_ascii_chars_encode_utf8("Newsletr"@);
    is_ascii_chars_encode_utf8("Nokia"@);
    let a = "Newsletr".spec_bytes();
    let b = "Nokia".spec_bytes();
    assert(a.subrange(0, 1) =~= b.subrange(0, 1));
    assert(differs_below(a, b, 1));
}

proof fn lemma_license_order_273()
    ensures
        sorts_before("Nokia".spec_bytes(), "Noweb".spec_bytes()),
{
    reveal_strlit("Nokia");
    reveal_strlit("Noweb");
    is_ascii_chars_encode_utf8("Nokia"@);
    is_ascii_chars_encode_utf8("Noweb"@);
    let a = "Nokia".spec_bytes();
    let b = "Noweb".spec_bytes();
    assert(a.subrange(0, 2) =~= b.subrange(0, 2));
    assert(differs_below(a, b, 2));
}

proof fn lemma_license_order_274()
    ensures
        sorts_before("Noweb".spec_bytes(), "Nunit".spec_bytes()),
{
    reveal_strlit("Noweb");
    reveal_strlit("Nunit");
    is_ascii_chars_encode_utf8("Noweb"@);
    is_ascii_chars_encode_utf8("Nunit"@);
    let a = "Noweb".spec_bytes();
    let b = "Nunit".spec_bytes();
    assert(a.subrange(0, 1) =~= b.subrange(0, 1));
    assert(differs_below(a, b, 1));
}

proof fn lemma_license_order_275()
    ensures
        sorts_before("Nunit".spec_bytes(), "OCCT-PL".spec_bytes()),
{
    reveal_strlit("Nunit");
    reveal_strlit("OCCT-PL");
    is_ascii_chars_encode_utf8("Nunit"@);
    is_ascii_chars_encode_utf8("OCCT-PL"@);
    let a = "Nunit".spec_bytes();
    let b = "OCCT-PL".spec_bytes();
    assert(a.subrange(0, 0) =~= b.subrange(0, 0));
    assert(differs_below(a, b, 0));
}

proof fn lemma_license_order_276()
    ensures
        sorts_before("OCCT-PL".spec_bytes(), "OCLC-2.0".spec_bytes()),
{
    reveal_strlit("OCCT-PL");
    reveal_strlit("OCLC-2.0");
    is_ascii_chars_encode_utf8("OCCT-PL"@);
    is_ascii_chars_encode_utf8("OCLC-2.0"@);
    let a = "OCCT-PL".spec_bytes();
    let b = "OCLC-2.0".spec_bytes();
    assert(a.subrange(0, 2) =~= b.subrange(0, 2));
    assert(differs_below(a, b, 2));
}

proof fn lemma_license_order_277()
    ensures
        sorts_before("OCLC-2.0".spec_bytes(), "ODC-By-1.0".spec_bytes()),
{
    reveal_strlit("OCLC-2.0");
    reveal_strlit("ODC-By-1.0");
    is_ascii_chars_encode_utf8("OCLC-2.0"@);
    is_ascii_chars_encode_utf8("ODC-By-1.0"@);
    let a = "OCLC-2.0".spec_bytes();
    let b = "ODC-By-1.0".spec_bytes();
    assert(a.subrange(0, 1) =~= b.subrange(0, 1));
    assert(differs_below(a, b, 1));
}

proof fn lemma_license_order_278()
    ensures
        sorts_before("ODC-By-1.0".spec_bytes(), "ODbL-1.0".spec_bytes()),
{
    reveal_strlit("ODC-By-1.0");
    reveal_strlit("ODbL-1.0");
    is_ascii_chars_encode_utf8("ODC-By-1.0"@);
    is_ascii_chars_encode_utf8("ODbL-1.0"@);
    let a = "ODC-By-1.0".spec_bytes();
    let b = "ODbL-1.0".spec_bytes();
    assert(a.subrange(0, 2) =~= b.subrange(0, 2));
    assert(differs_below(a, b, 2));
}

proof fn lemma_license_order_279()
    ensures
        sorts_before("ODbL-1.0".spec_bytes(), "OFL-1.0".spec_bytes()),
{
    reveal_strlit("ODbL-1.0");
    reveal_strlit("OFL-1.0");
    is_ascii_chars_encode_utf8("ODbL-1.0"@);
    is_ascii_chars_encode_utf8("OFL-1.0"@);
    let a = "ODbL-1.0".spec_bytes();
    let b = "OFL-1.0".spec_bytes();
    assert(a.subrange(0, 1) =~= b.subrange(0, 1));
    assert(differs_below(a, b, 1));
}

proof fn lemma_license_order_280()
    ensures
        sorts_before("OFL-1.0".spec_bytes(), "OFL-1.1".spec_bytes()),
{
    reveal_strlit("OFL-1.0");
    reveal_strlit("OFL-1.1");
    is_ascii_chars_encode_utf8("OFL-1.0"@);
    is_ascii_chars_encode_utf8("OFL-1.1"@);
    let a = "OFL-1.0".spec_bytes();
    let b = "OFL-1.1".spec_bytes();
    assert(a.subrange(0, 6) =~= b.subrange(0, 6));
    assert(differs_below(a, b, 6));
}

proof fn lemma_license_order_281()
    ensures
        sorts_before("OFL-1.1".spec_bytes(), "OGL-UK-1.0".spec_bytes()),
{
    reveal_strlit("OFL-1.1");
    reveal_strlit("OGL-UK-1.0");
    is_ascii_chars_encode_utf8("OFL-1.1"@);
    is_ascii_chars_encode_utf8("OGL-UK-1.0"@);
    let a = "OFL-1.1".spec_bytes();
    let b = "OGL-UK-1.0".spec_bytes();
    assert(a.subrange(0, 1) =~= b.subrange(0, 1));
    assert(differs_below(a, b, 1));
}

proof fn lemma_license_order_282()
    ensures
        sorts_before("OGL-UK-1.0".spec_bytes(), "OGL-UK-2.0".spec_bytes()),
{
    reveal_strlit("OGL-UK-1.0");
    reveal_strlit("OGL-UK-2.0");
    is_ascii_chars_encode_utf8("OGL-UK-1.0"@);
    is_ascii_chars_encode_utf8("OGL-UK-2.0"@);
    let a = "OGL-UK-1.0".spec_bytes();
    let b = "OGL-UK-2.0".spec_bytes();
    assert(a.subrange(0, 7) =~= b.subrange(0, 7));
    assert(differs_below(a, b, 7));
}

proof fn lemma_license_order_283()
    ensures
        sorts_before("OGL-UK-2.0".spec_bytes(), "OGL-UK-3.0".spec_bytes()),
{
    reveal_strlit("OGL-UK-2.0");
    reveal_strlit("OGL-UK-3.0");
    is_ascii_chars_encode_utf8("OGL-UK-2.0"@);
    is_ascii_chars_encode_utf8("OGL-UK-3.0"@);
    let a = "OGL-UK-2.0".spec_bytes();
    let b = "OGL-UK-3.0".spec_bytes();
    assert(a.subrange(0, 7) =~= b.subrange(0, 7));
    assert(differs_below(a, b, 7));
}

proof fn lemma_license_order_284()
    ensures
        sorts_before("OGL-UK-3.0".spec_bytes(), "OGTSL".spec_bytes()),
{
    reveal_strlit("OGL-UK-3.0");
    reveal_strlit("OGTSL");
    is_ascii_chars_encode_utf8("OGL-UK-3.0"@);
    is_ascii_chars_encode_utf8("OGTSL"@);
    let a = "OGL-UK-3.0".spec_bytes();
    let b = "OGTSL".spec_bytes();
    assert(a.subrange(0, 2) =~= b.subrange(0, 2));
    assert(differs_below(a, b, 2));
}

proof fn lemma_license_order_285()
    ensures
        sorts_before("OGTSL".spec_bytes(), "OLDAP-1.1".spec_bytes()),
{
    reveal_strlit("OGTSL");
    reveal_strlit("OLDAP-1.1");
    is_ascii_chars_encode_utf8("OGTSL"@);
    is_ascii_chars_encode_utf8("OLDAP-1.1"@);
    let a = "OGTSL".spec_bytes();
    let b = "OLDAP-1.1".spec_bytes();
    assert(a.subrange(0, 1) =~= b.subrange(0, 1));
    assert(differs_below(a, b, 1));
}

proof fn lemma_license_order_286()
    ensures
        sorts_before("OLDAP-1.1".spec_bytes(), "OLDAP-1.2".spec_bytes()),
{
    reveal_strlit("OLDAP-1.1");
    reveal_strlit("OLDAP-1.2");
    is_ascii_chars_encode_utf8("OLDAP-1.1"@);
    is_ascii_chars_encode_utf8("OLDAP-1.2"@);
    let a = "OLDAP-1.1".spec_bytes();
    let b = "OLDAP-1.2".spec_bytes();
    assert(a.subrange(0, 8) =~= b.subrange(0, 8));
    assert(differs_below(a, b, 8));
}

proof fn lemma_license_order_287()
    ensures
        sorts_before("OLDAP-1.2".spec_bytes(), "OLDAP-1.3".spec_bytes()),
{
    reveal_strlit("OLDAP-1.2");
    reveal_strlit("OLDAP-1.3");
    is_ascii_chars_encode_utf8("OLDAP-1.2"@);
    is_ascii_chars_encode_utf8("OLDAP-1.3"@);
    let a = "OLDAP-1.2".spec_bytes();
    let b = "OLDAP-1.3".spec_bytes();
    assert(a.subrange(0, 8) =~= b.subrange(0, 8));
    assert(differs_below(a, b, 8));
}

proof fn lemma_license_order_288()
    ensures
        sorts_before("OLDAP-1.3".spec_bytes(), "OLDAP-1.4".spec_bytes()),
{
    reveal_strlit("OLDAP-1.3");
    reveal_strlit("OLDAP-1.4");
    is_ascii_chars_encode_utf8("OLDAP-1.3"@);
    is_ascii_chars_encode_utf8("OLDAP-1.4"@);
    let a = "OLDAP-1.3".spec_bytes();
    let b = "OLDAP-1.4".spec_bytes();
    assert(a.subrange(0, 8) =~= b.subrange(0, 8));
    assert(differs_below(a, b, 8));
}

proof fn lemma_license_order_289()
    ensures
        sorts_before("OLDAP-1.4".spec_bytes(), "OLDAP-2.0".spec_bytes()),
{
    reveal_strlit("OLDAP-1.4");
    reveal_strlit("OLDAP-2.0");
    is_ascii_chars_encode_utf8("OLDAP-1.4"@);
    is_ascii_chars_encode_utf8("OLDAP-2.0"@);
    let a = "OLDAP-1.4".spec_bytes();
    let b = "OLDAP-2.0".spec_bytes();
    assert(a.subrange(0, 6) =~= b.subrange(0, 6));
    assert(differs_below(a, b, 6));
}

proof fn lemma_license_order_290()
    ensures
        sorts_before("OLDAP-2.0".spec_bytes(), "OLDAP-2.0.1".spec_bytes()),
{
    reveal_strlit("OLDAP-2.0");
    reveal_strlit("OLDAP-2.0.1");
    is_ascii_chars_encode_utf8("OLDAP-2.0"@);
    is_ascii_chars_encode_utf8("OLDAP-2.0.1"@);
    let a = "OLDAP-2.0".spec_bytes();
    let b = "OLDAP-2.0.1".spec_bytes();
    assert(b.subrange(0, 9) =~= a);
}

proof fn lemma_license_order_291()
    ensures
        sorts_before("OLDAP-2.0.1".spec_bytes(), "OLDAP-2.1".spec_bytes()),
{
    reveal_strlit("OLDAP-2.0.1");
    reveal_strlit("OLDAP-2.1");
    is_ascii_chars_encode_utf8("OLDAP-2.0.1"@);
    is_ascii_chars_encode_utf8("OLDAP-2.1"@);
    let a = "OLDAP-2.0.1".spec_bytes();
    let b = "OLDAP-2.1".spec_bytes();
    assert(a.subrange(0, 8) =~= b.subrange(0, 8));
    assert(differs_below(a, b, 8));
}

proof fn lemma_license_order_292()
    ensures
        sorts_before("OLDAP-2.1".spec_bytes(), "OLDAP-2.2".spec_bytes()),
{
    reveal_strlit("OLDAP-2.1");
    reveal_strlit("OLDAP-2.2");
    is_ascii_chars_encode_utf8("OLDAP-2.1"@);
    is_ascii_chars_encode_utf8("OLDAP-2.2"@);
    let a = "OLDAP-2.1".spec_bytes();
    let b = "OLDAP-2.2".spec_bytes();
    assert(a.subrange(0, 8) =~= b.subrange(0, 8));
    assert(differs_below(a, b, 8));
}

proof fn lemma_license_order_293()
    ensures
        sorts_before("OLDAP-2.2".spec_bytes(), "OLDAP-2.2.1".spec_bytes()),
{
    reveal_strlit("OLDAP-2.2");
    reveal_strlit("OLDAP-2.2.1");
    is_ascii_chars_encode_utf8("OLDAP-2.2"@);
    is_ascii_chars_encode_utf8("OLDAP-2.2.1"@);
    let a = "OLDAP-2.2".spec_bytes();
    let b = "OLDAP-2.2.1".spec_bytes();
    assert(b.subrange(0, 9) =~= a);
}

proof fn lemma_license_order_294()
    ensures
        sorts_before("OLDAP-2.2.1".spec_bytes(), "OLDAP-2.2.2".spec_bytes()),
{
    reveal_strlit("OLDAP-2.2.1");
    reveal_strlit("OLDAP-2.2.2");
    is_ascii_chars_encode_utf8("OLDAP-2.2.1"@);
    is_ascii_chars_encode_utf8("OLDAP-2.2.2"@);
    let a = "OLDAP-2.2.1".spec_bytes();
    let b = "OLDAP-2.2.2".spec_bytes();
    assert(a.subrange(0, 10) =~= b.subrange(0, 10));
    assert(differs_below(a, b, 10));
}

proof fn lemma_license_order_295()
    ensures
        sorts_before("OLDAP-2.2.2".spec_bytes(), "OLDAP-2.3".spec_bytes()),
{
    reveal_strlit("OLDAP-2.2.2");
    reveal_strlit("OLDAP-2.3");
    is_ascii_chars_encode_utf8("OLDAP-2.2.2"@);
    is_ascii_chars_encode_utf8("OLDAP-2.3"@);
    let a = "OLDAP-2.2.2".spec_bytes();
    let b = "OLDAP-2.3".spec_bytes();
    assert(a.subrange(0, 8) =~= b.subrange(0, 8));
    assert(differs_below(a, b, 8));
}

proof fn lemma_license_order_296()
    ensures
        sorts_before("OLDAP-2.3".spec_bytes(), "OLDAP-2.4".spec_bytes()),
{
    reveal_strlit("OLDAP-2.3");
    reveal_strlit("OLDAP-2.4");
    is_ascii_chars_encode_utf8("OLDAP-2.3"@);
    is_ascii_chars_encode_utf8("OLDAP-2.4"@);
    let a = "OLDAP-2.3".spec_bytes();
    let b = "OLDAP-2.4".spec_bytes();
    assert(a.subrange(0, 8) =~= b.subrange(0, 8));
    assert(differs_below(a, b, 8));
}

proof fn lemma_license_order_297()
    ensures
        sorts_before("OLDAP-2.4".spec_bytes(), "OLDAP-2.5".spec_bytes()),
{
    reveal_strlit("OLDAP-2.4");
    reveal_strlit("OLDAP-2.5");
    is_ascii_chars_encode_utf8("OLDAP-2.4"@);
    is_ascii_chars_encode_utf8("OLDAP-2.5"@);
    let a = "OLDAP-2.4".spec_bytes();
    let b = "OLDAP-2.5".spec_bytes();
    assert(a.subrange(0, 8) =~= b.subrange(0, 8));
    assert(differs_below(a, b, 8));
}

proof fn lemma_license_order_298()
    ensures
        sorts_before("OLDAP-2.5".spec_bytes(), "OLDAP-2.6".spec_bytes()),
{
    reveal_strlit("OLDAP-2.5");
    reveal_strlit("OLDAP-2.6");
    is_ascii_chars_encode_utf8("OLDAP-2.5"@);
    is_ascii_chars_encode_utf8("OLDAP-2.6"@);
    let a = "OLDAP-2.5".spec_bytes();
    let b = "OLDAP-2.6".spec_bytes();
    assert(a.subrange(0, 8) =~= b.subrange(0, 8));
    assert(differs_below(a, b, 8));
}

proof fn lemma_license_order_299()
    ensures
        sorts_before("OLDAP-2.6".spec_bytes(), "OLDAP-2.7".spec_bytes()),
{
    reveal_strlit("OLDAP-2.6");
    reveal_strlit("OLDAP-2.7");
    is_ascii_chars_encode_utf8("OLDAP-2.6"@);
    is_ascii_chars_encode_utf8("OLDAP-2.7"@);
    let a = "OLDAP-2.6".spec_bytes();
    let b = "OLDAP-2.7".spec_bytes();
    assert(a.subrange(0, 8) =~= b.subrange(0, 8));
    assert(differs_below(a, b, 8));
}

proof fn lemma_license_order_300()
    ensures
        sorts_before("OLDAP-2.7".spec_bytes(), "OLDAP-2.8".spec_bytes()),
{
    reveal_strlit("OLDAP-2.7");
    reveal_strlit("OLDAP-2.8");
    is_ascii_chars_encode_utf8("OLDAP-2.7"@);
    is_ascii_chars_encode_utf8("OLDAP-2.8"@);
    let a = "OLDAP-2.7".spec_bytes();
    let b = "OLDAP-2.8".spec_bytes();
    assert(a.subrange(0, 8) =~= b.subrange(0, 8));
    assert(differs_below(a, b, 8));
}

proof fn lemma_license_order_301()
    ensures
        sorts_before("OLDAP-2.8".spec_bytes(), "OML".spec_bytes()),
{
    reveal_strlit("OLDAP-2.8");
    reveal_strlit("OML");
    is_ascii_chars_encode_utf8("OLDAP-2.8"@);
    is_ascii_chars_encode_utf8("OML"@);
    let a = "OLDAP-2.8".spec_bytes();
    let b = "OML".spec_bytes();
    assert(a.subrange(0, 1) =~= b.subrange(0, 1));
    assert(differs_below(a, b, 1));
}

proof fn lemma_license_order_302()
    ensures
        sorts_before("OML".spec_bytes(), "OPL-1.0".spec_bytes()),
{
    reveal_strlit("OML");
    reveal_strlit("OPL-1.0");
    is_ascii_chars_encode_utf8("OML"@);
    is_ascii_chars_encode_utf8("OPL-1.0"@);
    let a = "OML".spec_bytes();
    let b = "OPL-1.0".spec_bytes();
    assert(a.subrange(0, 1) =~= b.subrange(0, 1));
    assert(differs_below(a, b, 1));
}

proof fn lemma_license_order_303()
    ensures
        sorts_before("OPL-1.0".spec_bytes(), "OSET-PL-2.1".spec_bytes()),
{
    reveal_strlit("OPL-1.0");
    reveal_strlit("OSET-PL-2.1");
    is_ascii_chars_encode_utf8("OPL-1.0"@);
    is_ascii_chars_encode_utf8("OSET-PL-2.1"@);
    let a = "OPL-1.0".spec_bytes();
    let b = "OSET-PL-2.1".spec_bytes();
    assert(a.subrange(0, 1) =~= b.subrange(0, 1));
    assert(differs_below(a, b, 1));
}

proof fn lemma_license_order_304()
    ensures
        sorts_before("OSET-PL-2.1".spec_bytes(), "OSL-1.0".spec_bytes()),
{
    reveal_strlit("OSET-PL-2.1");
    reveal_strlit("OSL-1.0");
    is_ascii_chars_encode_utf8("OSET-PL-2.1"@);
    is_ascii_chars_encode_utf8("OSL-1.0"@);
    let a = "OSET-PL-2.1".spec_bytes();
    let b = "OSL-1.0".spec_bytes();
    assert(a.subrange(0, 2) =~= b.subrange(0, 2));
    assert(differs_below(a, b, 2));
}

proof fn lemma_license_order_305()
    ensures
        sorts_before("OSL-1.0".spec_bytes(), "OSL-1.1".spec_bytes()),
{
    reveal_strlit("OSL-1.0");
    reveal_strlit("OSL-1.1");
    is_ascii_chars_encode_utf8("OSL-1.0"@);
    is_ascii_chars_encode_utf8("OSL-1.1"@);
    let a = "OSL-1.0".spec_bytes();
    let b = "OSL-1.1".spec_bytes();
    assert(a.subrange(0, 6) =~= b.subrange(0, 6));
    assert(differs_below(a, b, 6));
}

proof fn lemma_license_order_306()
    ensures
        sorts_before("OSL-1.1".spec_bytes(), "OSL-2.0".spec_bytes()),
{
    reveal_strlit("OSL-1.1");
    reveal_strlit("OSL-2.0");
    is_ascii_chars_encode_utf8("OSL-1.1"@);
    is_ascii_chars_encode_utf8("OSL-2.0"@);
    let a = "OSL-1.1".spec_bytes();
    let b = "OSL-2.0".spec_bytes();
    assert(a.subrange(0, 4) =~= b.subrange(0, 4));
    assert(differs_below(a, b, 4));
}

proof fn lemma_license_order_307()
    ensures
        sorts_before("OSL-2.0".spec_bytes(), "OSL-2.1".spec_bytes()),
{
    reveal_strlit("OSL-2.0");
    reveal_strlit("OSL-2.1");
    is_ascii_chars_encode_utf8("OSL-2.0"@);
    is_ascii_chars_encode_utf8("OSL-2.1"@);
    let a = "OSL-2.0".spec_bytes();
    let b = "OSL-2.1".spec_bytes();
    assert(a.subrange(0, 6) =~= b.subrange(0, 6));
    assert(differs_below(a, b, 6));
}

proof fn lemma_license_order_308()
    ensures
        sorts_before("OSL-2.1".spec_bytes(), "OSL-3.0".spec_bytes()),
{
    reveal_strlit("OSL-2.1");
    reveal_strlit("OSL-3.0");
    is_ascii_chars_encode_utf8("OSL-2.1"@);
    is_ascii_chars_encode_utf8("OSL-3.0"@);
    let a = "OSL-2.1".spec_bytes();
    let b = "OSL-3.0".spec_bytes();
    assert(a.subrange(0, 4) =~= b.subrange(0, 4));
    assert(differs_below(a, b, 4));
}

proof fn lemma_license_order_309()
    ensures
        sorts_before("OSL-3.0".spec_bytes(), "OpenSSL".spec_bytes()),
{
    reveal_strlit("OSL-3.0");
    reveal_strlit("OpenSSL");
    is_ascii_chars_encode_utf8("OSL-3.0"@);
    is_ascii_chars_encode_utf8("OpenSSL"@);
    let a = "OSL-3.0".spec_bytes();
    let b = "OpenSSL".spec_bytes();
    assert(a.subrange(0, 1) =~= b.subrange(0, 1));
    assert(differs_below(a, b, 1));
}

proof fn lemma_license_order_310()
    ensures
        sorts_before("OpenSSL".spec_bytes(), "PDDL-1.0".spec_bytes()),
{
    reveal_strlit("OpenSSL");
    reveal_strlit("PDDL-1.0");
    is_ascii_chars_encode_utf8("OpenSSL"@);
    is_ascii_chars_encode_utf8("PDDL-1.0"@);
    let a = "OpenSSL".spec_bytes();
    let b = "PDDL-1.0".spec_bytes();
    assert(a.subrange(0, 0) =~= b.subrange(0, 0));
    assert(differs_below(a, b, 0));
}

proof fn lemma_license_order_311()
    ensures
        sorts_before("PDDL-1.0".spec_bytes(), "PHP-3.0".spec_bytes()),
{
    reveal_strlit("PDDL-1.0");
    reveal_strlit("PHP-3.0");
    is_ascii_chars_encode_utf8("PDDL-1.0"@);
    is_ascii_chars_encode_utf8("PHP-3.0"@);
    let a = "PDDL-1.0".spec_bytes();
    let b = "PHP-3.0".spec_bytes();
    assert(a.subrange(0, 1) =~= b.subrange(0, 1));
    assert(differs_below(a, b, 1));
}

proof fn lemma_license_order_312()
    ensures
        sorts_before("PHP-3.0".spec_bytes(), "PHP-3.01".spec_bytes()),
{
    reveal_strlit("PHP-3.0");
    reveal_strlit("PHP-3.01");
    is_ascii_chars_encode_utf8("PHP-3.0"@);
    is_ascii_chars_encode_utf8("PHP-3.01"@);
    let a = "PHP-3.0".spec_bytes();
    let b = "PHP-3.01".spec_bytes();
    assert(b.subrange(0, 7) =~= a);
}

proof fn lemma_license_order_313()
    ensures
        sorts_before("PHP-3.01".spec_bytes(), "Parity-6.0.0".spec_bytes()),
{
    reveal_strlit("PHP-3.01");
    reveal_strlit("Parity-6.0.0");
    is_ascii_chars_encode_utf8("PHP-3.01"@);
    is_ascii_chars_encode_utf8("Parity-6.0.0"@);
    let a = "PHP-3.01".spec_bytes();
    let b = "Parity-6.0.0".spec_bytes();
    assert(a.subrange(0, 1) =~= b.subrange(0, 1));
    assert(differs_below(a, b, 1));
}

proof fn lemma_license_order_314()
    ensures
        sorts_before("Parity-6.0.0".spec_bytes(), "Plexus".spec_bytes()),
{
    reveal_strlit("Parity-6.0.0");
    reveal_strlit("Plexus");
    is_ascii_chars_encode_utf8("Parity-6.0.0"@);
    is_ascii_chars_encode_utf8("Plexus"@);
    let a = "Parity-6.0.0".spec_bytes();
    let b = "Plexus".spec_bytes();
    assert(a.subrange(0, 1) =~= b.subrange(0, 1));
    assert(differs_below(a, b, 1));
}

proof fn lemma_license_order_315()
    ensures
        sorts_before("Plexus".spec_bytes(), "PostgreSQL".spec_bytes()),
{
    reveal_strlit("Plexus");
    reveal_strlit("PostgreSQL");
    is_ascii_chars_encode_utf8("Plexus"@);
    is_ascii_chars_encode_utf8("PostgreSQL"@);
    let a = "Plexus".spec_bytes();
    let b = "PostgreSQL".spec_bytes();
    assert(a.subrange(0, 1) =~= b.subrange(0, 1));
    assert(differs_below(a, b, 1));
}

proof fn lemma_license_order_316()
    ensures
        sorts_before("PostgreSQL".spec_bytes(), "Python-2.0".spec_bytes()),
{
    reveal_strlit("PostgreSQL");
    reveal_strlit("Python-2.0");
    is_ascii_chars_encode_utf8("PostgreSQL"@);
    is_ascii_chars_encode_utf8("Python-2.0"@);
    let a = "PostgreSQL".spec_bytes();
    let b = "Python-2.0".spec_bytes();
    assert(a.subrange(0, 1) =~= b.subrange(0, 1));
    assert(differs_below(a, b, 1));
}

proof fn lemma_license_order_317()
    ensures
        sorts_before("Python-2.0".spec_bytes(), "QPL-1.0".spec_bytes()),
{
    reveal_strlit("Python-2.0");
    reveal_strlit("QPL-1.0");
    is_ascii_chars_encode_utf8("Python-2.0"@);
    is_ascii_chars_encode_utf8("QPL-1.0"@);
    let a = "Python-2.0".spec_bytes();
    let b = "QPL-1.0".spec_bytes();
    assert(a.subrange(0, 0) =~= b.subrange(0, 0));
    assert(differs_below(a, b, 0));
}

proof fn lemma_license_order_318()
    ensures
        sorts_before("QPL-1.0".spec_bytes(), "Qhull".spec_bytes()),
{
    reveal_strlit("QPL-1.0");
    reveal_strlit("Qhull");
    is_ascii_chars_encode_utf8("QPL-1.0"@);
    is_ascii_chars_encode_utf8("Qhull"@);
    let a = "QPL-1.0".spec_bytes();
    let b = "Qhull".spec_bytes();
    assert(a.subrange(0, 1) =~= b.subrange(0, 1));
    assert(differs_below(a, b, 1));
}

proof fn lemma_license_order_319()
    ensures
        sorts_before("Qhull".spec_bytes(), "RHeCos-1.1".spec_bytes()),
{
    reveal_strlit("Qhull");
    reveal_strlit("RHeCos-1.1");
    is_ascii_chars_encode_utf8("Qhull"@);
    is_ascii_chars_encode_utf8("RHeCos-1.1"@);
    let a = "Qhull".spec_bytes();
    let b = "RHeCos-1.1".spec_bytes();
    assert(a.subrange(0, 0) =~= b.subrange(0, 0));
    assert(differs_below(a, b, 0));
}

proof fn lemma_license_order_320()
    ensures
        sorts_before("RHeCos-1.1".spec_bytes(), "RPL-1.1".spec_bytes()),
{
    reveal_strlit("RHeCos-1.1");
    reveal_strlit("RPL-1.1");
    is_ascii_chars_encode_utf8("RHeCos-1.1"@);
    is_ascii_chars_encode_utf8("RPL-1.1"@);
    let a = "RHeCos-1.1".spec_bytes();
    let b = "RPL-1.1".spec_bytes();
    assert(a.subrange(0, 1) =~= b.subrange(0, 1));
    assert(differs_below(a, b, 1));
}

proof fn lemma_license_order_321()
    ensures
        sorts_before("RPL-1.1".spec_bytes(), "RPL-1.5".spec_bytes()),
{
    reveal_strlit("RPL-1.1");
    reveal_strlit("RPL-1.5");
    is_ascii_chars_encode_utf8("RPL-1.1"@);
    is_ascii_chars_encode_utf8("RPL-1.5"@);
    let a = "RPL-1.1".spec_bytes();
    let b = "RPL-1.5".spec_bytes();
    assert(a.subrange(0, 6) =~= b.subrange(0, 6));
    assert(differs_below(a, b, 6));
}

proof fn lemma_license_order_322()
    ensures
        sorts_before("RPL-1.5".spec_bytes(), "RPSL-1.0".spec_bytes()),
{
    reveal_strlit("RPL-1.5");
    reveal_strlit("RPSL-1.0");
    is_ascii_chars_encode_utf8("RPL-1.5"@);
    is_ascii_chars_encode_utf8("RPSL-1.0"@);
    let a = "RPL-1.5".spec_bytes();
    let b = "RPSL-1.0".spec_bytes();
    assert(a.subrange(0, 2) =~= b.subrange(0, 2));
    assert(differs_below(a, b, 2));
}

proof fn lemma_license_order_323()
    ensures
        sorts_before("RPSL-1.0".spec_bytes(), "RSA-MD".spec_bytes()),
{
    reveal_strlit("RPSL-1.0");
    reveal_strlit("RSA-MD");
    is_ascii_chars_encode_utf8("RPSL-1.0"@);
    is_ascii_chars_encode_utf8("RSA-MD"@);
    let a = "RPSL-1.0".spec_bytes();
    let b = "RSA-MD".spec_bytes();
    assert(a.subrange(0, 1) =~= b.subrange(0, 1));
    assert(differs_below(a, b, 1));
}

proof fn lemma_license_order_324()
    ensures
        sorts_before("RSA-MD".spec_bytes(), "RSCPL".spec_bytes()),
{
    reveal_strlit("RSA-MD");
    reveal_strlit("RSCPL");
    is_ascii_chars_encode_utf8("RSA-MD"@);
    is_ascii_chars_encode_utf8("RSCPL"@);
    let a = "RSA-MD".spec_bytes();
    let b = "RSCPL".spec_bytes();
    assert(a.subrange(0, 2) =~= b.subrange(0, 2));
    assert(differs_below(a, b, 2));
}

proof fn lemma_license_order_325()
    ensures
        sorts_before("RSCPL".spec_bytes(), "Rdisc".spec_bytes()),
{
    reveal_strlit("RSCPL");
    reveal_strlit("Rdisc");
    is_ascii_chars_encode_utf8("RSCPL"@);
    is_ascii_chars_encode_utf8("Rdisc"@);
    let a = "RSCPL".spec_bytes();
    let b = "Rdisc".spec_bytes();
    assert(a.subrange(0, 1) =~= b.subrange(0, 1));
    assert(differs_below(a, b, 1));
}

proof fn lemma_license_order_326()
    ensures
        sorts_before("Rdisc".spec_bytes(), "Ruby".spec_bytes()),
{
    reveal_strlit("Rdisc");
    reveal_strlit("Ruby");
    is_ascii_chars_encode_utf8("Rdisc"@);
    is_ascii_chars_encode_utf8("Ruby"@);
    let a = "Rdisc".spec_bytes();
    let b = "Ruby".spec_bytes();
    assert(a.subrange(0, 1) =~= b.subrange(0, 1));
    assert(differs_below(a, b, 1));
}

proof fn lemma_license_order_327()
    ensures
        sorts_before("Ruby".spec_bytes(), "SAX-PD".spec_bytes()),
{
    reveal_strlit("Ruby");
    reveal_strlit("SAX-PD");
    is_ascii_chars_encode_utf8("Ruby"@);
    is_ascii_chars_encode_utf8("SAX-PD"@);
    let a = "Ruby".spec_bytes();
    let b = "SAX-PD".spec_bytes();
    assert(a.subrange(0, 0) =~= b.subrange(0, 0));
    assert(differs_below(a, b, 0));
}

proof fn lemma_license_order_328()
    ensures
        sorts_before("SAX-PD".spec_bytes(), "SCEA".spec_bytes()),
{
    reveal_strlit("SAX-PD");
    reveal_strlit("SCEA");
    is_ascii_chars_encode_utf8("SAX-PD"@);
    is_ascii_chars_encode_utf8("SCEA"@);
    let a = "SAX-PD".spec_bytes();
    let b = "SCEA".spec_bytes();
    assert(a.subrange(0, 1) =~= b.subrange(0, 1));
    assert(differs_below(a, b, 1));
}

proof fn lemma_license_order_329()
    ensures
        sorts_before("SCEA".spec_bytes(), "SGI-B-1.0".spec_bytes()),
{
    reveal_strlit("SCEA");
    reveal_strlit("SGI-B-1.0");
    is_ascii_chars_encode_utf8("SCEA"@);
    is_ascii_chars_encode_utf8("SGI-B-1.0"@);
    let a = "SCEA".spec_bytes();
    let b = "SGI-B-1.0".spec_bytes();
    assert(a.subrange(0, 1) =~= b.subrange(0, 1));
    assert(differs_below(a, b, 1));
}

proof fn lemma_license_order_330()
    ensures
        sorts_before("SGI-B-1.0".spec_bytes(), "SGI-B-1.1".spec_bytes()),
{
    reveal_strlit("SGI-B-1.0");
    reveal_strlit("SGI-B-1.1");
    is_ascii_chars_encode_utf8("SGI-B-1.0"@);
    is_ascii_chars_encode_utf8("SGI-B-1.1"@);
    let a = "SGI-B-1.0".spec_bytes();
    let b = "SGI-B-1.1".spec_bytes();
    assert(a.subrange(0, 8) =~= b.subrange(0, 8));
    assert(differs_below(a, b, 8));
}

proof fn lemma_license_order_331()
    ensures
        sorts_before("SGI-B-1.1".spec_bytes(), "SGI-B-2.0".spec_bytes()),
{
    reveal_strlit("SGI-B-1.1");
    reveal_strlit("SGI-B-2.0");
    is_ascii_chars_encode_utf8("SGI-B-1.1"@);
    is_ascii_chars_encode_utf8("SGI-B-2.0"@);
    let a = "SGI-B-1.1".spec_bytes();
    let b = "SGI-B-2.0".spec_bytes();
    assert(a.subrange(0, 6) =~= b.subrange(0, 6));
    assert(differs_below(a, b, 6));
}

proof fn lemma_license_order_332()
    ensures
        sorts_before("SGI-B-2.0".spec_bytes(), "SHL-0.5".spec_bytes()),
{
    reveal_strlit("SGI-B-2.0");
    reveal_strlit("SHL-0.5");
    is_ascii_chars_encode_utf8("SGI-B-2.0"@);
    is_ascii_chars_encode_utf8("SHL-0.5"@);
    let a = "SGI-B-2.0".spec_bytes();
    let b = "SHL-0.5".spec_bytes();
    assert(a.subrange(0, 1) =~= b.subrange(0, 1));
    assert(differs_below(a, b, 1));
}

proof fn lemma_license_order_333()
    ensures
        sorts_before("SHL-0.5".spec_bytes(), "SHL-0.51".spec_bytes()),
{
    reveal_strlit("SHL-0.5");
    reveal_strlit("SHL-0.51");
    is_ascii_chars_encode_utf8("SHL-0.5"@);
    is_ascii_chars_encode_utf8("SHL-0.51"@);
    let a = "SHL-0.5".spec_bytes();
    let b = "SHL-0.51".spec_bytes();
    assert(b.subrange(0, 7) =~= a);
}

proof fn lemma_license_order_334()
    ensures
        sorts_before("SHL-0.51".spec_bytes(), "SISSL".spec_bytes()),
{
    reveal_strlit("SHL-0.51");
    reveal_strlit("SISSL");
    is_ascii_chars_encode_utf8("SHL-0.51"@);
    is_ascii_chars_encode_utf8("SISSL"@);
    let a = "SHL-0.51".spec_bytes();
    let b = "SISSL".spec_bytes();
    assert(a.subrange(0, 1) =~= b.subrange(0, 1));
    assert(differs_below(a, b, 1));
}

proof fn lemma_license_order_335()
    ensures
        sorts_before("SISSL".spec_bytes(), "SISSL-1.2".spec_bytes()),
{
    reveal_strlit("SISSL");
    reveal_strlit("SISSL-1.2");
    is_ascii_chars_encode_utf8("SISSL"@);
    is_ascii_chars_encode_utf8("SISSL-1.2"@);
    let a = "SISSL".spec_bytes();
    let b = "SISSL-1.2".spec_bytes();
    assert(b.subrange(0, 5) =~= a);
}

proof fn lemma_license_order_336()
    ensures
        sorts_before("SISSL-1.2".spec_bytes(), "SMLNJ".spec_bytes()),
{
    reveal_strlit("SISSL-1.2");
    reveal_strlit("SMLNJ");
    is_ascii_chars_encode_utf8("SISSL-1.2"@);
    is_ascii_chars_encode_utf8("SMLNJ"@);
    let a = "SISSL-1.2".spec_bytes();
    let b = "SMLNJ".spec_bytes();
    assert(a.subrange(0, 1) =~= b.subrange(0, 1));
    assert(differs_below(a, b, 1));
}

proof fn lemma_license_order_337()
    ensures
        sorts_before("SMLNJ".spec_bytes(), "SMPPL".spec_bytes()),
{
    reveal_strlit("SMLNJ");
    reveal_strlit("SMPPL");
    is_ascii_chars_encode_utf8("SMLNJ"@);
    is_ascii_chars_encode_utf8("SMPPL"@);
    let a = "SMLNJ".spec_bytes();
    let b = "SMPPL".spec_bytes();
    assert(a.subrange(0, 2) =~= b.subrange(0, 2));
    assert(differs_below(a, b, 2));
}

proof fn lemma_license_order_338()
    ensures
        sorts_before("SMPPL".spec_bytes(), "SNIA".spec_bytes()),
{
    reveal_strlit("SMPPL");
    reveal_strlit("SNIA");
    is_ascii_chars_encode_utf8("SMPPL"@);
    is_ascii_chars_encode_utf8("SNIA"@);
    let a = "SMPPL".spec_bytes();
    let b = "SNIA".spec_bytes();
    assert(a.subrange(0, 1) =~= b.subrange(0, 1));
    assert(differs_below(a, b, 1));
}

proof fn lemma_license_order_339()
    ensures
        sorts_before("SNIA".spec_bytes(), "SPL-1.0".spec_bytes()),
{
    reveal_strlit("SNIA");
    reveal_strlit("SPL-1.0");
    is_ascii_chars_encode_utf8("SNIA"@);
    is_ascii_chars_encode_utf8("SPL-1.0"@);
    let a = "SNIA".spec_bytes();
    let b = "SPL-1.0".spec_bytes();
    assert(a.subrange(0, 1) =~= b.subrange(0, 1));
    assert(differs_below(a, b, 1));
}

proof fn lemma_license_order_340()
    ensures
        sorts_before("SPL-1.0".spec_bytes(), "SSPL-1.0".spec_bytes()),
{
    reveal_strlit("SPL-1.0");
    reveal_strlit("SSPL-1.0");
    is_ascii_chars_encode_utf8("SPL-1.0"@);
    is_ascii_chars_encode_utf8("SSPL-1.0"@);
    let a = "SPL-1.0".spec_bytes();
    let b = "SSPL-1.0".spec_bytes();
    assert(a.subrange(0, 1) =~= b.subrange(0, 1));
    assert(differs_below(a, b, 1));
}

proof fn lemma_license_order_341()
    ensures
        sorts_before("SSPL-1.0".spec_bytes(), "SWL".spec_bytes()),
{
    reveal_strlit("SSPL-1.0");
    reveal_strlit("SWL");
    is_ascii_chars_encode_utf8("SSPL-1.0"@);
    is_ascii_chars_encode_utf8("SWL"@);
    let a = "SSPL-1.0".spec_bytes();
    let b = "SWL".spec_bytes();
    assert(a.subrange(0, 1) =~= b.subrange(0, 1));
    assert(differs_below(a, b, 1));
}

proof fn lemma_license_order_342()
    ensures
        sorts_before("SWL".spec_bytes(), "Saxpath".spec_bytes()),
{
    reveal_strlit("SWL");
    reveal_strlit("Saxpath");
    is_ascii_chars_encode_utf8("SWL"@);
    is_ascii_chars_encode_utf8("Saxpath"@);
    let a = "SWL".spec_bytes();
    let b = "Saxpath".spec_bytes();
    assert(a.subrange(0, 1) =~= b.subrange(0, 1));
    assert(differs_below(a, b, 1));
}

proof fn lemma_license_order_343()
    ensures
        sorts_before("Saxpath".spec_bytes(), "Sendmail".spec_bytes()),
{
    reveal_strlit("Saxpath");
    reveal_strlit("Sendmail");
    is_ascii_chars_encode_utf8("Saxpath"@);
    is_ascii_chars_encode_utf8("Sendmail"@);
    let a = "Saxpath".spec_bytes();
    let b = "Sendmail".spec_bytes();
    assert(a.subrange(0, 1) =~= b.subrange(0, 1));
    assert(differs_below(a, b, 1));
}

proof fn lemma_license_order_344()
    ensures
        sorts_before("Sendmail".spec_bytes(), "Sendmail-8.23".spec_bytes()),
{
    reveal_strlit("Sendmail");
    reveal_strlit("Sendmail-8.23");
    is_ascii_chars_encode_utf8("Sendmail"@);
    is_ascii_chars_encode_utf8("Sendmail-8.23"@);
    let a = "Sendmail".spec_bytes();
    let b = "Sendmail-8.23".spec_bytes();
    assert(b.subrange(0, 8) =~= a);
}

proof fn lemma_license_order_345()
    ensures
        sorts_before("Sendmail-8.23".spec_bytes(), "SimPL-2.0".spec_bytes()),
{
    reveal_strlit("Sendmail-8.23");
    reveal_strlit("SimPL-2.0");
    is_ascii_chars_encode_utf8("Sendmail-8.23"@);
    is_ascii_chars_encode_utf8("SimPL-2.0"@);
    let a = "Sendmail-8.23".spec_bytes();
    let b = "SimPL-2.0".spec_bytes();
    assert(a.subrange(0, 1) =~= b.subrange(0, 1));
    assert(differs_below(a, b, 1));
}

proof fn lemma_license_order_346()
    ensures
        sorts_before("SimPL-2.0".spec_bytes(), "Sleepycat".spec_bytes()),
{
    reveal_strlit("SimPL-2.0");
    reveal_strlit("Sleepycat");
    is_ascii_chars_encode_utf8("SimPL-2.0"@);
    is_ascii_chars_encode_utf8("Sleepycat"@);
    let a = "SimPL-2.0".spec_bytes();
    let b = "Sleepycat".spec_bytes();
    assert(a.subrange(0, 1) =~= b.subrange(0, 1));
    assert(differs_below(a, b, 1));
}

proof fn lemma_license_order_347()
    ensures
        sorts_before("Sleepycat".spec_bytes(), "Spencer-86".spec_bytes()),
{
    reveal_strlit("Sleepycat");
    reveal_strlit("Spencer-86");
    is_ascii_chars_encode_utf8("Sleepycat"@);
    is_ascii_chars_encode_utf8("Spencer-86"@);
    let a = "Sleepycat".spec_bytes();
    let b = "Spencer-86".spec_bytes();
    assert(a.subrange(0, 1) =~= b.subrange(0, 1));
    assert(differs_below(a, b, 1));
}

proof fn lemma_license_order_348()
    ensures
        sorts_before("Spencer-86".spec_bytes(), "Spencer-94".spec_bytes()),
{
    reveal_strlit("Spencer-86");
    reveal_strlit("Spencer-94");
    is_ascii_chars_encode_utf8("Spencer-86"@);
    is_ascii_chars_encode_utf8("Spencer-94"@);
    let a = "Spencer-86".spec_bytes();
    let b = "Spencer-94".spec_bytes();
    assert(a.subrange(0, 8) =~= b.subrange(0, 8));
    assert(differs_below(a, b, 8));
}

proof fn lemma_license_order_349()
    ensures
        sorts_before("Spencer-94".spec_bytes(), "Spencer-99".spec_bytes()),
{
    reveal_strlit("Spencer-94");
    reveal_strlit("Spencer-99");
    is_ascii_chars_encode_utf8("Spencer-94"@);
    is_ascii_chars_encode_utf8("Spencer-99"@);
    let a = "Spencer-94".spec_bytes();
    let b = "Spencer-99".spec_bytes();
    assert(a.subrange(0, 9) =~= b.subrange(0, 9));
    assert(differs_below(a, b, 9));
}

proof fn lemma_license_order_350()
    ensures
        sorts_before("Spencer-99".spec_bytes(), "StandardML-NJ".spec_bytes()),
{
    reveal_strlit("Spencer-99");
    reveal_strlit("StandardML-NJ");
    is_ascii_chars_encode_utf8("Spencer-99"@);
    is_ascii_chars_encode_utf8("StandardML-NJ"@);
    let a = "Spencer-99".spec_bytes();
    let b = "StandardML-NJ".spec_bytes();
    assert(a.subrange(0, 1) =~= b.subrange(0, 1));
    assert(differs_below(a, b, 1));
}

proof fn lemma_license_order_351()
    ensures
        sorts_before("StandardML-NJ".spec_bytes(), "SugarCRM-1.1.3".spec_bytes()),
{
    reveal_strlit("StandardML-NJ");
    reveal_strlit("SugarCRM-1.1.3");
    is_ascii_chars_encode_utf8("StandardML-NJ"@);
    is_ascii_chars_encode_utf8("SugarCRM-1.1.3"@);
    let a = "StandardML-NJ".spec_bytes();
    let b = "SugarCRM-1.1.3".spec_bytes();
    assert(a.subrange(0, 1) =~= b.subrange(0, 1));
    assert(differs_below(a, b, 1));
}

proof fn lemma_license_order_352()
    ensures
        sorts_before("SugarCRM-1.1.3".spec_bytes(), "TAPR-OHL-1.0".spec_bytes()),
{
    reveal_strlit("SugarCRM-1.1.3");
    reveal_strlit("TAPR-OHL-1.0");
    is_ascii_chars_encode_utf8("SugarCRM-1.1.3"@);
    is_ascii_chars_encode_utf8("TAPR-OHL-1.0"@);
    let a = "SugarCRM-1.1.3".spec_bytes();
    let b = "TAPR-OHL-1.0".spec_bytes();
    assert(a.subrange(0, 0) =~= b.subrange(0, 0));
    assert(differs_below(a, b, 0));
}

proof fn lemma_license_order_353()
    ensures
        sorts_before("TAPR-OHL-1.0".spec_bytes(), "TCL".spec_bytes()),
{
    reveal_strlit("TAPR-OHL-1.0");
    reveal_strlit("TCL");
    is_ascii_chars_encode_utf8("TAPR-OHL-1.0"@);
    is_ascii_chars_encode_utf8("TCL"@);
    let a = "TAPR-OHL-1.0".spec_bytes();
    let b = "TCL".spec_bytes();
    assert(a.subrange(0, 1) =~= b.subrange(0, 1));
    assert(differs_below(a, b, 1));
}

proof fn lemma_license_order_354()
    ensures
        sorts_before("TCL".spec_bytes(), "TCP-wrappers".spec_bytes()),
{
    reveal_strlit("TCL");
    reveal_strlit("TCP-wrappers");
    is_ascii_chars_encode_utf8("TCL"@);
    is_ascii_chars_encode_utf8("TCP-wrappers"@);
    let a = "TCL".spec_bytes();
    let b = "TCP-wrappers".spec_bytes();
    assert(a.subrange(0, 2) =~= b.subrange(0, 2));
    assert(differs_below(a, b, 2));
}

proof fn lemma_license_order_355()
    ensures
        sorts_before("TCP-wrappers".spec_bytes(), "TMate".spec_bytes()),
{
    reveal_strlit("TCP-wrappers");
    reveal_strlit("TMate");
    is_ascii_chars_encode_utf8("TCP-wrappers"@);
    is_ascii_chars_encode_utf8("TMate"@);
    let a = "TCP-wrappers".spec_bytes();
    let b = "TMate".spec_bytes();
    assert(a.subrange(0, 1) =~= b.subrange(0, 1));
    assert(differs_below(a, b, 1));
}

proof fn lemma_license_order_356()
    ensures
        sorts_before("TMate".spec_bytes(), "TORQUE-1.1".spec_bytes()),
{
    reveal_strlit("TMate");
    reveal_strlit("TORQUE-1.1");
    is_ascii_chars_encode_utf8("TMate"@);
    is_ascii_chars_encode_utf8("TORQUE-1.1"@);
    let a = "TMate".spec_bytes();
    let b = "TORQUE-1.1".spec_bytes();
    assert(a.subrange(0, 1) =~= b.subrange(0, 1));
    assert(differs_below(a, b, 1));
}

proof fn lemma_license_order_357()
    ensures
        sorts_before("TORQUE-1.1".spec_bytes(), "TOSL".spec_bytes()),
{
    reveal_strlit("TORQUE-1.1");
    reveal_strlit("TOSL");
    is_ascii_chars_encode_utf8("TORQUE-1.1"@);
    is_ascii_chars_encode_utf8("TOSL"@);
    let a = "TORQUE-1.1".spec_bytes();
    let b = "TOSL".spec_bytes();
    assert(a.subrange(0, 2) =~= b.subrange(0, 2));
    assert(differs_below(a, b, 2));
}

proof fn lemma_license_order_358()
    ensures
        sorts_before("TOSL".spec_bytes(), "TU-Berlin-1.0".spec_bytes()),
{
    reveal_strlit("TOSL");
    reveal_strlit("TU-Berlin-1.0");
    is_ascii_chars_encode_utf8("TOSL"@);
    is_ascii_chars_encode_utf8("TU-Berlin-1.0"@);
    let a = "TOSL".spec_bytes();
    let b = "TU-Berlin-1.0".spec_bytes();
    assert(a.subrange(0, 1) =~= b.subrange(0, 1));
    assert(differs_below(a, b, 1));
}

proof fn lemma_license_order_359()
    ensures
        sorts_before("TU-Berlin-1.0".spec_bytes(), "TU-Berlin-2.0".spec_bytes()),
{
    reveal_strlit("TU-Berlin-1.0");
    reveal_strlit("TU-Berlin-2.0");
    is_ascii_chars_encode_utf8("TU-Berlin-1.0"@);
    is_ascii_chars_encode_utf8("TU-Berlin-2.0"@);
    let a = "TU-Berlin-1.0".spec_bytes();
    let b = "TU-Berlin-2.0".spec_bytes();
    assert(a.subrange(0, 10) =~= b.subrange(0, 10));
    assert(differs_below(a, b, 10));
}

proof fn lemma_license_order_360()
    ensures
        sorts_before("TU-Berlin-2.0".spec_bytes(), "UPL-1.0".spec_bytes()),
{
    reveal_strlit("TU-Berlin-2.0");
    reveal_strlit("UPL-1.0");
    is_ascii_chars_encode_utf8("TU-Berlin-2.0"@);
    is_ascii_chars_encode_utf8("UPL-1.0"@);
    let a = "TU-Berlin-2.0".spec_bytes();
    let b = "UPL-1.0".spec_bytes();
    assert(a.subrange(0, 0) =~= b.subrange(0, 0));
    assert(differs_below(a, b, 0));
}

proof fn lemma_license_order_361()
    ensures
        sorts_before("UPL-1.0".spec_bytes(), "Unicode-DFS-2015".spec_bytes()),
{
    reveal_strlit("UPL-1.0");
    reveal_strlit("Unicode-DFS-2015");
    is_ascii_chars_encode_utf8("UPL-1.0"@);
    is_ascii_chars_encode_utf8("Unicode-DFS-2015"@);
    let a = "UPL-1.0".spec_bytes();
    let b = "Unicode-DFS-2015".spec_bytes();
    assert(a.subrange(0, 1) =~= b.subrange(0, 1));
    assert(differs_below(a, b, 1));
}

proof fn lemma_license_order_362()
    ensures
        sorts_before("Unicode-DFS-2015".spec_bytes(), "Unicode-DFS-2016".spec_bytes()),
{
    reveal_strlit("Unicode-DFS-2015");
    reveal_strlit("Unicode-DFS-2016");
    is_ascii_chars_encode_utf8("Unicode-DFS-2015"@);
    is_ascii_chars_encode_utf8("Unicode-DFS-2016"@);
    let a = "Unicode-DFS-2015".spec_bytes();
    let b = "Unicode-DFS-2016".spec_bytes();
    assert(a.subrange(0, 15) =~= b.subrange(0, 15));
    assert(differs_below(a, b, 15));
}

proof fn lemma_license_order_363()
    ensures
        sorts_before("Unicode-DFS-2016".spec_bytes(), "Unicode-TOU".spec_bytes()),
{
    reveal_strlit("Unicode-DFS-2016");
    reveal_strlit("Unicode-TOU");
    is_ascii_chars_encode_utf8("Unicode-DFS-2016"@);
    is_ascii_chars_encode_utf8("Unicode-TOU"@);
    let a = "Unicode-DFS-2016".spec_bytes();
    let b = "Unicode-TOU".spec_bytes();
    assert(a.subrange(0, 8) =~= b.subrange(0, 8));
    assert(differs_below(a, b, 8));
}

proof fn lemma_license_order_364()
    ensures
        sorts_before("Unicode-TOU".spec_bytes(), "Unlicense".spec_bytes()),
{
    reveal_strlit("Unicode-TOU");
    reveal_strlit("Unlicense");
    is_ascii_chars_encode_utf8("Unicode-TOU"@);
    is_ascii_chars_encode_utf8("Unlicense"@);
    let a = "Unicode-TOU".spec_bytes();
    let b = "Unlicense".spec_bytes();
    assert(a.subrange(0, 2) =~= b.subrange(0, 2));
    assert(differs_below(a, b, 2));
}

proof fn lemma_license_order_365()
    ensures
        sorts_before("Unlicense".spec_bytes(), "VOSTROM".spec_bytes()),
{
    reveal_strlit("Unlicense");
    reveal_strlit("VOSTROM");
    is_ascii_chars_encode_utf8("Unlicense"@);
    is_ascii_chars_encode_utf8("VOSTROM"@);
    let a = "Unlicense".spec_bytes();
    let b = "VOSTROM".spec_bytes();
    assert(a.subrange(0, 0) =~= b.subrange(0, 0));
    assert(differs_below(a, b, 0));
}

proof fn lemma_license_order_366()
    ensures
        sorts_before("VOSTROM".spec_bytes(), "VSL-1.0".spec_bytes()),
{
    reveal_strlit("VOSTROM");
    reveal_strlit("VSL-1.0");
    is_ascii_chars_encode_utf8("VOSTROM"@);
    is_ascii_chars_encode_utf8("VSL-1.0"@);
    let a = "VOSTROM".spec_bytes();
    let b = "VSL-1.0".spec_bytes();
    assert(a.subrange(0, 1) =~= b.subrange(0, 1));
    assert(differs_below(a, b, 1));
}

proof fn lemma_license_order_367()
    ensures
        sorts_before("VSL-1.0".spec_bytes(), "Vim".spec_bytes()),
{
    reveal_strlit("VSL-1.0");
    reveal_strlit("Vim");
    is_ascii_chars_encode_utf8("VSL-1.0"@);
    is_ascii_chars_encode_utf8("Vim"@);
    let a = "VSL-1.0".spec_bytes();
    let b = "Vim".spec_bytes();
    assert(a.subrange(0, 1) =~= b.subrange(0, 1));
    assert(differs_below(a, b, 1));
}

proof fn lemma_license_order_368()
    ensures
        sorts_before("Vim".spec_bytes(), "W3C".spec_bytes()),
{
    reveal_strlit("Vim");
    reveal_strlit("W3C");
    is_ascii_chars_encode_utf8("Vim"@);
    is_ascii_chars_encode_utf8("W3C"@);
    let a = "Vim".spec_bytes();
    let b = "W3C".spec_bytes();
    assert(a.subrange(0, 0) =~= b.subrange(0, 0));
    assert(differs_below(a, b, 0));
}

proof fn lemma_license_order_369()
    ensures
        sorts_before("W3C".spec_bytes(), "W3C-19980720".spec_bytes()),
{
    reveal_strlit("W3C");
    reveal_strlit("W3C-19980720");
    is_ascii_chars_encode_utf8("W3C"@);
    is_ascii_chars_encode_utf8("W3C-19980720"@);
    let a = "W3C".spec_bytes();
    let b = "W3C-19980720".spec_bytes();
    assert(b.subrange(0, 3) =~= a);
}

proof fn lemma_license_order_370()
    ensures
        sorts_before("W3C-19980720".spec_bytes(), "W3C-20150513".spec_bytes()),
{
    reveal_strlit("W3C-19980720");
    reveal_strlit("W3C-20150513");
    is_ascii_chars_encode_utf8("W3C-19980720"@);
    is_ascii_chars_encode_utf8("W3C-20150513"@);
    let a = "W3C-19980720".spec_bytes();
    let b = "W3C-20150513".spec_bytes();
    assert(a.subrange(0, 4) =~= b.subrange(0, 4));
    assert(differs_below(a, b, 4));
}

proof fn lemma_license_order_371()
    ensures
        sorts_before("W3C-20150513".spec_bytes(), "WTFPL".spec_bytes()),
{
    reveal_strlit("W3C-20150513");
    reveal_strlit("WTFPL");
    is_ascii_chars_encode_utf8("W3C-20150513"@);
    is_ascii_chars_encode_utf8("WTFPL"@);
    let a = "W3C-20150513".spec_bytes();
    let b = "WTFPL".spec_bytes();
    assert(a.subrange(0, 1) =~= b.subrange(0, 1));
    assert(differs_below(a, b, 1));
}

proof fn lemma_license_order_372()
    ensures
        sorts_before("WTFPL".spec_bytes(), "Watcom-1.0".spec_bytes()),
{
    reveal_strlit("WTFPL");
    reveal_strlit("Watcom-1.0");
    is_ascii_chars_encode_utf8("WTFPL"@);
    is_ascii_chars_encode_utf8("Watcom-1.0"@);
    let a = "WTFPL".spec_bytes();
    let b = "Watcom-1.0".spec_bytes();
    assert(a.subrange(0, 1) =~= b.subrange(0, 1));
    assert(differs_below(a, b, 1));
}

proof fn lemma_license_order_373()
    ensures
        sorts_before("Watcom-1.0".spec_bytes(), "Wsuipa".spec_bytes()),
{
    reveal_strlit("Watcom-1.0");
    reveal_strlit("Wsuipa");
    is_ascii_chars_encode_utf8("Watcom-1.0"@);
    is_ascii_chars_encode_utf8("Wsuipa"@);
    let a = "Watcom-1.0".spec_bytes();
    let b = "Wsuipa".spec_bytes();
    assert(a.subrange(0, 1) =~= b.subrange(0, 1));
    assert(differs_below(a, b, 1));
}

proof fn lemma_license_order_374()
    ensures
        sorts_before("Wsuipa".spec_bytes(), "X11".spec_bytes()),
{
    reveal_strlit("Wsuipa");
    reveal_strlit("X11");
    is_ascii_chars_encode_utf8("Wsuipa"@);
    is_ascii_chars_encode_utf8("X11"@);
    let a = "Wsuipa".spec_bytes();
    let b = "X11".spec_bytes();
    assert(a.subrange(0, 0) =~= b.subrange(0, 0));
    assert(differs_below(a, b, 0));
}

proof fn lemma_license_order_375()
    ensures
        sorts_before("X11".spec_bytes(), "XFree86-1.1".spec_bytes()),
{
    reveal_strlit("X11");
    reveal_strlit("XFree86-1.1");
    is_ascii_chars_encode_utf8("X11"@);
    is_ascii_chars_encode_utf8("XFree86-1.1"@);
    let a = "X11".spec_bytes();
    let b = "XFree86-1.1".spec_bytes();
    assert(a.subrange(0, 1) =~= b.subrange(0, 1));
    assert(differs_below(a, b, 1));
}

proof fn lemma_license_order_376()
    ensures
        sorts_before("XFree86-1.1".spec_bytes(), "XSkat".spec_bytes()),
{
    reveal_strlit("XFree86-1.1");
    reveal_strlit("XSkat");
    is_ascii_chars_encode_utf8("XFree86-1.1"@);
    is_ascii_chars_encode_utf8("XSkat"@);
    let a = "XFree86-1.1".spec_bytes();
    let b = "XSkat".spec_bytes();
    assert(a.subrange(0, 1) =~= b.subrange(0, 1));
    assert(differs_below(a, b, 1));
}

proof fn lemma_license_order_377()
    ensures
        sorts_before("XSkat".spec_bytes(), "Xerox".spec_bytes()),
{
    reveal_strlit("XSkat");
    reveal_strlit("Xerox");
    is_ascii_chars_encode_utf8("XSkat"@);
    is_ascii_chars_encode_utf8("Xerox"@);
    let a = "XSkat".spec_bytes();
    let b = "Xerox".spec_bytes();
    assert(a.subrange(0, 1) =~= b.subrange(0, 1));
    assert(differs_below(a, b, 1));
}

proof fn lemma_license_order_378()
    ensures
        sorts_before("Xerox".spec_bytes(), "Xnet".spec_bytes()),
{
    reveal_strlit("Xerox");
    reveal_strlit("Xnet");
    is_ascii_chars_encode_utf8("Xerox"@);
    is_ascii_chars_encode_utf8("Xnet"@);
    let a = "Xerox".spec_bytes();
    let b = "Xnet".spec_bytes();
    assert(a.subrange(0, 1) =~= b.subrange(0, 1));
    assert(differs_below(a, b, 1));
}

proof fn lemma_license_order_379()
    ensures
        sorts_before("Xnet".spec_bytes(), "YPL-1.0".spec_bytes()),
{
    reveal_strlit("Xnet");
    reveal_strlit("YPL-1.0");
    is_ascii_chars_encode_utf8("Xnet"@);
    is_ascii_chars_encode_utf8("YPL-1.0"@);
    let a = "Xnet".spec_bytes();
    let b = "YPL-1.0".spec_bytes();
    assert(a.subrange(0, 0) =~= b.subrange(0, 0));
    assert(differs_below(a, b, 0));
}

proof fn lemma_license_order_380()
    ensures
        sorts_before("YPL-1.0".spec_bytes(), "YPL-1.1".spec_bytes()),
{
    reveal_strlit("YPL-1.0");
    reveal_strlit("YPL-1.1");
    is_ascii_chars_encode_utf8("YPL-1.0"@);
    is_ascii_chars_encode_utf8("YPL-1.1"@);
    let a = "YPL-1.0".spec_bytes();
    let b = "YPL-1.1".spec_bytes();
    assert(a.subrange(0, 6) =~= b.subrange(0, 6));
    assert(differs_below(a, b, 6));
}

proof fn lemma_license_order_381()
    ensures
        sorts_before("YPL-1.1".spec_bytes(), "ZPL-1.1".spec_bytes()),
{
    reveal_strlit("YPL-1.1");
    reveal_strlit("ZPL-1.1");
    is_ascii_chars_encode_utf8("YPL-1.1"@);
    is_ascii_chars_encode_utf8("ZPL-1.1"@);
    let a = "YPL-1.1".spec_bytes();
    let b = "ZPL-1.1".spec_bytes();
    assert(a.subrange(0, 0) =~= b.subrange(0, 0));
    assert(differs_below(a, b, 0));
}

proof fn lemma_license_order_382()
    ensures
        sorts_before("ZPL-1.1".spec_bytes(), "ZPL-2.0".spec_bytes()),
{
    reveal_strlit("ZPL-1.1");
    reveal_strlit("ZPL-2.0");
    is_ascii_chars_encode_utf8("ZPL-1.1"@);
    is_ascii_chars_encode_utf8("ZPL-2.0"@);
    let a = "ZPL-1.1".spec_bytes();
    let b = "ZPL-2.0".spec_bytes();
    assert(a.subrange(0, 4) =~= b.subrange(0, 4));
    assert(differs_below(a, b, 4));
}

proof fn lemma_license_order_383()
    ensures
        sorts_before("ZPL-2.0".spec_bytes(), "ZPL-2.1".spec_bytes()),
{
    reveal_strlit("ZPL-2.0");
    reveal_strlit("ZPL-2.1");
    is_ascii_chars_encode_utf8("ZPL-2.0"@);
    is_ascii_chars_encode_utf8("ZPL-2.1"@);
    let a = "ZPL-2.0".spec_bytes();
    let b = "ZPL-2.1".spec_bytes();
    assert(a.subrange(0, 6) =~= b.subrange(0, 6));
    assert(differs_below(a, b, 6));
}

proof fn lemma_license_order_384()
    ensures
        sorts_before("ZPL-2.1".spec_bytes(), "Zed".spec_bytes()),
{
    reveal_strlit("ZPL-2.1");
    reveal_strlit("Zed");
    is_ascii_chars_encode_utf8("ZPL-2.1"@);
    is_ascii_chars_encode_utf8("Zed"@);
    let a = "ZPL-2.1".spec_bytes();
    let b = "Zed".spec_bytes();
    assert(a.subrange(0, 1) =~= b.subrange(0, 1));
    assert(differs_below(a, b, 1));
}

proof fn lemma_license_order_385()
    ensures
        sorts_before("Zed".spec_bytes(), "Zend-2.0".spec_bytes()),
{
    reveal_strlit("Zed");
    reveal_strlit("Zend-2.0");
    is_ascii_chars_encode_utf8("Zed"@);
    is_ascii_chars_encode_utf8("Zend-2.0"@);
    let a = "Zed".spec_bytes();
    let b = "Zend-2.0".spec_bytes();
    assert(a.subrange(0, 2) =~= b.subrange(0, 2));
    assert(differs_below(a, b, 2));
}

proof fn lemma_license_order_386()
    ensures
        sorts_before("Zend-2.0".spec_bytes(), "Zimbra-1.3".spec_bytes()),
{
    reveal_strlit("Zend-2.0");
    reveal_strlit("Zimbra-1.3");
    is_ascii_chars_encode_utf8("Zend-2.0"@);
    is_ascii_chars_encode_utf8("Zimbra-1.3"@);
    let a = "Zend-2.0".spec_bytes();
    let b = "Zimbra-1.3".spec_bytes();
    assert(a.subrange(0, 1) =~= b.subrange(0, 1));
    assert(differs_below(a, b, 1));
}

proof fn lemma_license_order_387()
    ensures
        sorts_before("Zimbra-1.3".spec_bytes(), "Zimbra-1.4".spec_bytes()),
{
    reveal_strlit("Zimbra-1.3");
    reveal_strlit("Zimbra-1.4");
    is_ascii_chars_encode_utf8("Zimbra-1.3"@);
    is_ascii_chars_encode_utf8("Zimbra-1.4"@);
    let a = "Zimbra-1.3".spec_bytes();
    let b = "Zimbra-1.4".spec_bytes();
    assert(a.subrange(0, 9) =~= b.subrange(0, 9));
    assert(differs_below(a, b, 9));
}

proof fn lemma_license_order_388()
    ensures
        sorts_before("Zimbra-1.4".spec_bytes(), "Zlib".spec_bytes()),
{
    reveal_strlit("Zimbra-1.4");
    reveal_strlit("Zlib");
    is_ascii_chars_encode_utf8("Zimbra-1.4"@);
    is_ascii_chars_encode_utf8("Zlib"@);
    let a = "Zimbra-1.4".spec_bytes();
    let b = "Zlib".spec_bytes();
    assert(a.subrange(0, 1) =~= b.subrange(0, 1));
    assert(differs_below(a, b, 1));
}

proof fn lemma_license_order_389()
    ensures
        sorts_before("Zlib".spec_bytes(), "blessing".spec_bytes()),
{
    reveal_strlit("Zlib");
    reveal_strlit("blessing");
    is_ascii_chars_encode_utf8("Zlib"@);
    is_ascii_chars_encode_utf8("blessing"@);
    let a = "Zlib".spec_bytes();
    let b = "blessing".spec_bytes();
    assert(a.subrange(0, 0) =~= b.subrange(0, 0));
    assert(differs_below(a, b, 0));
}

proof fn lemma_license_order_390()
    ensures
        sorts_before("blessing".spec_bytes(), "bzip2-1.0.5".spec_bytes()),
{
    reveal_strlit("blessing");
    reveal_strlit("bzip2-1.0.5");
    is_ascii_chars_encode_utf8("blessing"@);
    is_ascii_chars_encode_utf8("bzip2-1.0.5"@);
    let a = "blessing".spec_bytes();
    let b = "bzip2-1.0.5".spec_bytes();
    assert(a.subrange(0, 1) =~= b.subrange(0, 1));
    assert(differs_below(a, b, 1));
}

proof fn lemma_license_order_391()
    ensures
        sorts_before("bzip2-1.0.5".spec_bytes(), "bzip2-1.0.6".spec_bytes()),
{
    reveal_strlit("bzip2-1.0.5");
    reveal_strlit("bzip2-1.0.6");
    is_ascii_chars_encode_utf8("bzip2-1.0.5"@);
    is_ascii_chars_encode_utf8("bzip2-1.0.6"@);
    let a = "bzip2-1.0.5".spec_bytes();
    let b = "bzip2-1.0.6".spec_bytes();
    assert(a.subrange(0, 10) =~= b.subrange(0, 10));
    assert(differs_below(a, b, 10));
}

proof fn lemma_license_order_392()
    ensures
        sorts_before("bzip2-1.0.6".spec_bytes(), "copyleft-next-0.3.0".spec_bytes()),
{
    reveal_strlit("bzip2-1.0.6");
    reveal_strlit("copyleft-next-0.3.0");
    is_ascii_chars_encode_utf8("bzip2-1.0.6"@);
    is_ascii_chars_encode_utf8("copyleft-next-0.3.0"@);
    let a = "bzip2-1.0.6".spec_bytes();
    let b = "copyleft-next-0.3.0".spec_bytes();
    assert(a.subrange(0, 0) =~= b.subrange(0, 0));
    assert(differs_below(a, b, 0));
}

proof fn lemma_license_order_393()
    ensures
        sorts_before("copyleft-next-0.3.0".spec_bytes(), "copyleft-next-0.3.1".spec_bytes()),
{
    reveal_strlit("copyleft-next-0.3.0");
    reveal_strlit("copyleft-next-0.3.1");
    is_ascii_chars_encode_utf8("copyleft-next-0.3.0"@);
    is_ascii_chars_encode_utf8("copyleft-next-0.3.1"@);
    let a = "copyleft-next-0.3.0".spec_bytes();
    let b = "copyleft-next-0.3.1".spec_bytes();
    assert(a.subrange(0, 18) =~= b.subrange(0, 18));
    assert(differs_below(a, b, 18));
}

proof fn lemma_license_order_394()
    ensures
        sorts_before("copyleft-next-0.3.1".spec_bytes(), "curl".spec_bytes()),
{
    reveal_strlit("copyleft-next-0.3.1");
    reveal_strlit("curl");
    is_ascii_chars_encode_utf8("copyleft-next-0.3.1"@);
    is_ascii_chars_encode_utf8("curl"@);
    let a = "copyleft-next-0.3.1".spec_bytes();
    let b = "curl".spec_bytes();
    assert(a.subrange(0, 1) =~= b.subrange(0, 1));
    assert(differs_below(a, b, 1));
}

proof fn lemma_license_order_395()
    ensures
        sorts_before("curl".spec_bytes(), "diffmark".spec_bytes()),
{
    reveal_strlit("curl");
    reveal_strlit("diffmark");
    is_ascii_chars_encode_utf8("curl"@);
    is_ascii_chars_encode_utf8("diffmark"@);
    let a = "curl".spec_bytes();
    let b = "diffmark".spec_bytes();
    assert(a.subrange(0, 0) =~= b.subrange(0, 0));
    assert(differs_below(a, b, 0));
}

proof fn lemma_license_order_396()
    ensures
        sorts_before("diffmark".spec_bytes(), "dvipdfm".spec_bytes()),
{
    reveal_strlit("diffmark");
    reveal_strlit("dvipdfm");
    is_ascii_chars_encode_utf8("diffmark"@);
    is_ascii_chars_encode_utf8("dvipdfm"@);
    let a = "diffmark".spec_bytes();
    let b = "dvipdfm".spec_bytes();
    assert(a.subrange(0, 1) =~= b.subrange(0, 1));
    assert(differs_below(a, b, 1));
}

proof fn lemma_license_order_397()
    ensures
        sorts_before("dvipdfm".spec_bytes(), "eCos-2.0".spec_bytes()),
{
    reveal_strlit("dvipdfm");
    reveal_strlit("eCos-2.0");
    is_ascii_chars_encode_utf8("dvipdfm"@);
    is_ascii_chars_encode_utf8("eCos-2.0"@);
    let a = "dvipdfm".spec_bytes();
    let b = "eCos-2.0".spec_bytes();
    assert(a.subrange(0, 0) =~= b.subrange(0, 0));
    assert(differs_below(a, b, 0));
}

proof fn lemma_license_order_398()
    ensures
        sorts_before("eCos-2.0".spec_bytes(), "eGenix".spec_bytes()),
{
    reveal_strlit("eCos-2.0");
    reveal_strlit("eGenix");
    is_ascii_chars_encode_utf8("eCos-2.0"@);
    is_ascii_chars_encode_utf8("eGenix"@);
    let a = "eCos-2.0".spec_bytes();
    let b = "eGenix".spec_bytes();
    assert(a.subrange(0, 1) =~= b.subrange(0, 1));
    assert(differs_below(a, b, 1));
}

proof fn lemma_license_order_399()
    ensures
        sorts_before("eGenix".spec_bytes(), "gSOAP-1.3b".spec_bytes()),
{
    reveal_strlit("eGenix");
    reveal_strlit("gSOAP-1.3b");
    is_ascii_chars_encode_utf8("eGenix"@);
    is_ascii_chars_encode_utf8("gSOAP-1.3b"@);
    let a = "eGenix".spec_bytes();
    let b = "gSOAP-1.3b".spec_bytes();
    assert(a.subrange(0, 0) =~= b.subrange(0, 0));
    assert(differs_below(a, b, 0));
}

proof fn lemma_license_order_400()
    ensures
        sorts_before("gSOAP-1.3b".spec_bytes(), "gnuplot".spec_bytes()),
{
    reveal_strlit("gSOAP-1.3b");
    reveal_strlit("gnuplot");
    is_ascii_chars_encode_utf8("gSOAP-1.3b"@);
    is_ascii_chars_encode_utf8("gnuplot"@);
    let a = "gSOAP-1.3b".spec_bytes();
    let b = "gnuplot".spec_bytes();
    assert(a.subrange(0, 1) =~= b.subrange(0, 1));
    assert(differs_below(a, b, 1));
}

proof fn lemma_license_order_401()
    ensures
        sorts_before("gnuplot".spec_bytes(), "iMatix".spec_bytes()),
{
    reveal_strlit("gnuplot");
    reveal_strlit("iMatix");
    is_ascii_chars_encode_utf8("gnuplot"@);
    is_ascii_chars_encode_utf8("iMatix"@);
    let a = "gnuplot".spec_bytes();
    let b = "iMatix".spec_bytes();
    assert(a.subrange(0, 0) =~= b.subrange(0, 0));
    assert(differs_below(a, b, 0));
}

proof fn lemma_license_order_402()
    ensures
        sorts_before("iMatix".spec_bytes(), "libpng-2.0".spec_bytes()),
{
    reveal_strlit("iMatix");
    reveal_strlit("libpng-2.0");
    is_ascii_chars_encode_utf8("iMatix"@);
    is_ascii_chars_encode_utf8("libpng-2.0"@);
    let a = "iMatix".spec_bytes();
    let b = "libpng-2.0".spec_bytes();
    assert(a.subrange(0, 0) =~= b.subrange(0, 0));
    assert(differs_below(a, b, 0));
}

proof fn lemma_license_order_403()
    ensures
        sorts_before("libpng-2.0".spec_bytes(), "libtiff".spec_bytes()),
{
    reveal_strlit("libpng-2.0");
    reveal_strlit("libtiff");
    is_ascii_chars_encode_utf8("libpng-2.0"@);
    is_ascii_chars_encode_utf8("libtiff"@);
    let a = "libpng-2.0".spec_bytes();
    let b = "libtiff".spec_bytes();
    assert(a.subrange(0, 3) =~= b.subrange(0, 3));
    assert(differs_below(a, b, 3));
}

proof fn lemma_license_order_404()
    ensures
        sorts_before("libtiff".spec_bytes(), "mpich2".spec_bytes()),
{
    reveal_strlit("libtiff");
    reveal_strlit("mpich2");
    is_ascii_chars_encode_utf8("libtiff"@);
    is_ascii_chars_encode_utf8("mpich2"@);
    let a = "libtiff".spec_bytes();
    let b = "mpich2".spec_bytes();
    assert(a.subrange(0, 0) =~= b.subrange(0, 0));
    assert(differs_below(a, b, 0));
}

proof fn lemma_license_order_405()
    ensures
        sorts_before("mpich2".spec_bytes(), "psfrag".spec_bytes()),
{
    reveal_strlit("mpich2");
    reveal_strlit("psfrag");
    is_ascii_chars_encode_utf8("mpich2"@);
    is_ascii_chars_encode_utf8("psfrag"@);
    let a = "mpich2".spec_bytes();
    let b = "psfrag".spec_bytes();
    assert(a.subrange(0, 0) =~= b.subrange(0, 0));
    assert(differs_below(a, b, 0));
}

proof fn lemma_license_order_406()
    ensures
        sorts_before("psfrag".spec_bytes(), "psutils".spec_bytes()),
{
    reveal_strlit("psfrag");
    reveal_strlit("psutils");
    is_ascii_chars_encode_utf8("psfrag"@);
    is_ascii_chars_encode_utf8("psutils"@);
    let a = "psfrag".spec_bytes();
    let b = "psutils".spec_bytes();
    assert(a.subrange(0, 2) =~= b.subrange(0, 2));
    assert(differs_below(a, b, 2));
}

proof fn lemma_license_order_407()
    ensures
        sorts_before("psutils".spec_bytes(), "wxWindows".spec_bytes()),
{
    reveal_strlit("psutils");
    reveal_strlit("wxWindows");
    is_ascii_chars_encode_utf8("psutils"@);
    is_ascii_chars_encode_utf8("wxWindows"@);
    let a = "psutils".spec_bytes();
    let b = "wxWindows".spec_bytes();
    assert(a.subrange(0, 0) =~= b.subrange(0, 0));
    assert(differs_below(a, b, 0));
}

proof fn lemma_license_order_408()
    ensures
        sorts_before("wxWindows".spec_bytes(), "xinetd".spec_bytes()),
{
    reveal_strlit("wxWindows");
    reveal_strlit("xinetd");
    is_ascii_chars_encode_utf8("wxWindows"@);
    is_ascii_chars_encode_utf8("xinetd"@);
    let a = "wxWindows".spec_bytes();
    let b = "xinetd".spec_bytes();
    assert(a.subrange(0, 0) =~= b.subrange(0, 0));
    assert(differs_below(a, b, 0));
}

proof fn lemma_license_order_409()
    ensures
        sorts_before("xinetd".spec_bytes(), "xpp".spec_bytes()),
{
    reveal_strlit("xinetd");
    reveal_strlit("xpp");
    is_ascii_chars_encode_utf8("xinetd"@);
    is_ascii_chars_encode_utf8("xpp"@);
    let a = "xinetd".spec_bytes();
    let b = "xpp".spec_bytes();
    assert(a.subrange(0, 1) =~= b.subrange(0, 1));
    assert(differs_below(a, b, 1));
}

proof fn lemma_license_order_410()
    ensures
        sorts_before("xpp".spec_bytes(), "zlib-acknowledgement".spec_bytes()),
{
    reveal_strlit("xpp");
    reveal_strlit("zlib-acknowledgement");
    is_ascii_chars_encode_utf8("xpp"@);
    is_ascii_chars_encode_utf8("zlib-acknowledgement"@);
    let a = "xpp".spec_bytes();
    let b = "zlib-acknowledgement".spec_bytes();
    assert(a.subrange(0, 0) =~= b.subrange(0, 0));
    assert(differs_below(a, b, 0));
}

/// Each license of the table sorts before the next one.
pub proof fn lemma_license_order(index: usize)
    requires
        index + 1 < LICENSE_COUNT,
    ensures
        sorts_before(license_name(index).spec_bytes(), license_name((index + 1) as usize).spec_bytes()),
{
    match index {
        0 => {
            lemma_license_order_0();
        },
        1 => {
            lemma_license_order_1();
        },
        2 => {
            lemma_license_order_2();
        },
        3 => {
            lemma_license_order_3();
        },
        4 => {
            lemma_license_order_4();
        },
        5 => {
            lemma_license_order_5();
        },
        6 => {
            lemma_license_order_6();
        },
        7 => {
            lemma_license_order_7();
        },
        8 => {
            lemma_license_order_8();
        },
        9 => {
            lemma_license_order_9();
        },
        10 => {
            lemma_license_order_10();
        },
        11 => {
            lemma_license_order_11();
        },
        12 => {
            lemma_license_order_12();
        },
        13 => {
            lemma_license_order_13();
        },
        14 => {
            lemma_license_order_14();
        },
        15 => {
            lemma_license_order_15();
        },
        16 => {
            lemma_license_order_16();
        },
        17 => {
            lemma_license_order_17();
        },
        18 => {
            lemma_license_order_18();
        },
        19 => {
            lemma_license_order_19();
        },
        20 => {
            lemma_license_order_20();
        },
        21 => {
            lemma_license_order_21();
        },
        22 => {
            lemma_license_order_22();
        },
        23 => {
            lemma_license_order_23();
        },
        24 => {
            lemma_license_order_24();
        },
        25 => {
            lemma_license_order_25();
        },
        26 => {
            lemma_license_order_26();
        },
        27 => {
            lemma_license_order_27();
        },
        28 => {
            lemma_license_order_28();
        },
        29 => {
            lemma_license_order_29();
        },
        30 => {
            lemma_license_order_30();
        },
        31 => {
            lemma_license_order_31();
        },
        32 => {
            lemma_license_order_32();
        },
        33 => {
            lemma_license_order_33();
        },
        34 => {
            lemma_license_order_34();
        },
        35 => {
            lemma_license_order_35();
        },
        36 => {
            lemma_license_order_36();
        },
        37 => {
            lemma_license_order_37();
        },
        38 => {
            lemma_license_order_38();
        },
        39 => {
            lemma_license_order_39();
        },
        40 => {
            lemma_license_order_40();
        },
        41 => {
            lemma_license_order_41();
        },
        42 => {
            lemma_license_order_42();
        },
        43 => {
            lemma_license_order_43();
        },
        44 => {
            lemma_license_order_44();
        },
        45 => {
            lemma_license_order_45();
        },
        46 => {
            lemma_license_order_46();
        },
        47 => {
            lemma_license_order_47();
        },
        48 => {
            lemma_license_order_48();
        },
        49 => {
            lemma_license_order_49();
        },
        50 => {
            lemma_license_order_50();
        },
        51 => {
            lemma_license_order_51();
        },
        52 => {
            lemma_license_order_52();
        },
        53 => {
            lemma_license_order_53();
        },
        54 => {
            lemma_license_order_54();
        },
        55 => {
            lemma_license_order_55();
        },
        56 => {
            lemma_license_order_56();
        },
        57 => {
            lemma_license_order_57();
        },
        58 => {
            lemma_license_order_58();
        },
        59 => {
            lemma_license_order_59();
        },
        60 => {
            lemma_license_order_60();
        },
        61 => {
            lemma_license_order_61();
        },
        62 => {
            lemma_license_order_62();
        },
        63 => {
            lemma_license_order_63();
        },
        64 => {
            lemma_license_order_64();
        },
        65 => {
            lemma_license_order_65();
        },
        66 => {
            lemma_license_order_66();
        },
        67 => {
            lemma_license_order_67();
        },
        68 => {
            lemma_license_order_68();
        },
        69 => {
            lemma_license_order_69();
        },
        70 => {
            lemma_license_order_70();
        },
        71 => {
            lemma_license_order_71();
        },
        72 => {
            lemma_license_order_72();
        },
        73 => {
            lemma_license_order_73();
        },
        74 => {
            lemma_license_order_74();
        },
        75 => {
            lemma_license_order_75();
        },
        76 => {
            lemma_license_order_76();
        },
        77 => {
            lemma_license_order_77();
        },
        78 => {
            lemma_license_order_78();
        },
        79 => {
            lemma_license_order_79();
        },
        80 => {
            lemma_license_order_80();
        },
        81 => {
            lemma_license_order_81();
        },
        82 => {
            lemma_license_order_82();
        },
        83 => {
            lemma_license_order_83();
        },
        84 => {
            lemma_license_order_84();
        },
        85 => {
            lemma_license_order_85();
        },
        86 => {
            lemma_license_order_86();
        },
        87 => {
            lemma_license_order_87();
        },
        88 => {
            lemma_license_order_88();
        },
        89 => {
            lemma_license_order_89();
        },
        90 => {
            lemma_license_order_90();
        },
        91 => {
            lemma_license_order_91();
        },
        92 => {
            lemma_license_order_92();
        },
        93 => {
            lemma_license_order_93();
        },
        94 => {
            lemma_license_order_94();
        },
        95 => {
            lemma_license_order_95();
        },
        96 => {
            lemma_license_order_96();
        },
        97 => {
            lemma_license_order_97();
        },
        98 => {
            lemma_license_order_98();
        },
        99 => {
            lemma_license_order_99();
        },
        100 => {
            lemma_license_order_100();
        },
        101 => {
            lemma_license_order_101();
        },
        102 => {
            lemma_license_order_102();
        },
        103 => {
            lemma_license_order_103();
        },
        104 => {
            lemma_license_order_104();
        },
        105 => {
            lemma_license_order_105();
        },
        106 => {
            lemma_license_order_106();
        },
        107 => {
            lemma_license_order_107();
        },
        108 => {
            lemma_license_order_108();
        },
        109 => {
            lemma_license_order_109();
        },
        110 => {
            lemma_license_order_110();
        },
        111 => {
            lemma_license_order_111();
        },
        112 => {
            lemma_license_order_112();
        },
        113 => {
            lemma_license_order_113();
        },
        114 => {
            lemma_license_order_114();
        },
        115 => {
            lemma_license_order_115();
        },
        116 => {
            lemma_license_order_116();
        },
        117 => {
            lemma_license_order_117();
        },
        118 => {
            lemma_license_order_118();
        },
        119 => {
            lemma_license_order_119();
        },
        120 => {
            lemma_license_order_120();
        },
        121 => {
            lemma_license_order_121();
        },
        122 => {
            lemma_license_order_122();
        },
        123 => {
            lemma_license_order_123();
        },
        124 => {
            lemma_license_order_124();
        },
        125 => {
            lemma_license_order_125();
        },
        126 => {
            lemma_license_order_126();
        },
        127 => {
            lemma_license_order_127();
        },
        128 => {
            lemma_license_order_128();
        },
        129 => {
            lemma_license_order_129();
        },
        130 => {
            lemma_license_order_130();
        },
        131 => {
            lemma_license_order_131();
        },
        132 => {
            lemma_license_order_132();
        },
        133 => {
            lemma_license_order_133();
        },
        134 => {
            lemma_license_order_134();
        },
        135 => {
            lemma_license_order_135();
        },
        136 => {
            lemma_license_order_136();
        },
        137 => {
            lemma_license_order_137();
        },
        138 => {
            lemma_license_order_138();
        },
        139 => {
            lemma_license_order_139();
        },
        140 => {
            lemma_license_order_140();
        },
        141 => {
            lemma_license_order_141();
        },
        142 => {
            lemma_license_order_142();
        },
        143 => {
            lemma_license_order_143();
        },
        144 => {
            lemma_license_order_144();
        },
        145 => {
            lemma_license_order_145();
        },
        146 => {
            lemma_license_order_146();
        },
        147 => {
            lemma_license_order_147();
        },
        148 => {
            lemma_license_order_148();
        },
        149 => {
            lemma_license_order_149();
        },
        150 => {
            lemma_license_order_150();
        },
        151 => {
            lemma_license_order_151();
        },
        152 => {
            lemma_license_order_152();
        },
        153 => {
            lemma_license_order_153();
        },
        154 => {
            lemma_license_order_154();
        },
        155 => {
            lemma_license_order_155();
        },
        156 => {
            lemma_license_order_156();
        },
        157 => {
            lemma_license_order_157();
        },
        158 => {
            lemma_license_order_158();
        },
        159 => {
            lemma_license_order_159();
        },
        160 => {
            lemma_license_order_160();
        },
        161 => {
            lemma_license_order_161();
        },
        162 => {
            lemma_license_order_162();
        },
        163 => {
            lemma_license_order_163();
        },
        164 => {
            lemma_license_order_164();
        },
        165 => {
            lemma_license_order_165();
        },
        166 => {
            lemma_license_order_166();
        },
        167 => {
            lemma_license_order_167();
        },
        168 => {
            lemma_license_order_168();
        },
        169 => {
            lemma_license_order_169();
        },
        170 => {
            lemma_license_order_170();
        },
        171 => {
            lemma_license_order_171();
        },
        172 => {
            lemma_license_order_172();
        },
        173 => {
            lemma_license_order_173();
        },
        174 => {
            lemma_license_order_174();
        },
        175 => {
            lemma_license_order_175();
        },
        176 => {
            lemma_license_order_176();
        },
        177 => {
            lemma_license_order_177();
        },
        178 => {
            lemma_license_order_178();
        },
        179 => {
            lemma_license_order_179();
        },
        180 => {
            lemma_license_order_180();
        },
        181 => {
            lemma_license_order_181();
        },
        182 => {
            lemma_license_order_182();
        },
        183 => {
            lemma_license_order_183();
        },
        184 => {
            lemma_license_order_184();
        },
        185 => {
            lemma_license_order_185();
        },
        186 => {
            lemma_license_order_186();
        },
        187 => {
            lemma_license_order_187();
        },
        188 => {
            lemma_license_order_188();
        },
        189 => {
            lemma_license_order_189();
        },
        190 => {
            lemma_license_order_190();
        },
        191 => {
            lemma_license_order_191();
        },
        192 => {
            lemma_license_order_192();
        },
        193 => {
            lemma_license_order_193();
        },
        194 => {
            lemma_license_order_194();
        },
        195 => {
            lemma_license_order_195();
        },
        196 => {
            lemma_license_order_196();
        },
        197 => {
            lemma_license_order_197();
        },
        198 => {
            lemma_license_order_198();
        },
        199 => {
            lemma_license_order_199();
        },
        200 => {
            lemma_license_order_200();
        },
        201 => {
            lemma_license_order_201();
        },
        202 => {
            lemma_license_order_202();
        },
        203 => {
            lemma_license_order_203();
        },
        204 => {
            lemma_license_order_204();
        },
        205 => {
            lemma_license_order_205();
        },
        206 => {
            lemma_license_order_206();
        },
        207 => {
            lemma_license_order_207();
        },
        208 => {
            lemma_license_order_208();
        },
        209 => {
            lemma_license_order_209();
        },
        210 => {
            lemma_license_order_210();
        },
        211 => {
            lemma_license_order_211();
        },
        212 => {
            lemma_license_order_212();
        },
        213 => {
            lemma_license_order_213();
        },
        214 => {
            lemma_license_order_214();
        },
        215 => {
            lemma_license_order_215();
        },
        216 => {
            lemma_license_order_216();
        },
        217 => {
            lemma_license_order_217();
        },
        218 => {
            lemma_license_order_218();
        },
        219 => {
            lemma_license_order_219();
        },
        220 => {
            lemma_license_order_220();
        },
        221 => {
            lemma_license_order_221();
        },
        222 => {
            lemma_license_order_222();
        },
        223 => {
            lemma_license_order_223();
        },
        224 => {
            lemma_license_order_224();
        },
        225 => {
            lemma_license_order_225();
        },
        226 => {
            lemma_license_order_226();
        },
        227 => {
            lemma_license_order_227();
        },
        228 => {
            lemma_license_order_228();
        },
        229 => {
            lemma_license_order_229();
        },
        230 => {
            lemma_license_order_230();
        },
        231 => {
            lemma_license_order_231();
        },
        232 => {
            lemma_license_order_232();
        },
        233 => {
            lemma_license_order_233();
        },
        234 => {
            lemma_license_order_234();
        },
        235 => {
            lemma_license_order_235();
        },
        236 => {
            lemma_license_order_236();
        },
        237 => {
            lemma_license_order_237();
        },
        238 => {
            lemma_license_order_238();
        },
        239 => {
            lemma_license_order_239();
        },
        240 => {
            lemma_license_order_240();
        },
        241 => {
            lemma_license_order_241();
        },
        242 => {
            lemma_license_order_242();
        },
        243 => {
            lemma_license_order_243();
        },
        244 => {
            lemma_license_order_244();
        },
        245 => {
            lemma_license_order_245();
        },
        246 => {
            lemma_license_order_246();
        },
        247 => {
            lemma_license_order_247();
        },
        248 => {
            lemma_license_order_248();
        },
        249 => {
            lemma_license_order_249();
        },
        250 => {
            lemma_license_order_250();
        },
        251 => {
            lemma_license_order_251();
        },
        252 => {
            lemma_license_order_252();
        },
        253 => {
            lemma_license_order_253();
        },
        254 => {
            lemma_license_order_254();
        },
        255 => {
            lemma_license_order_255();
        },
        256 => {
            lemma_license_order_256();
        },
        257 => {
            lemma_license_order_257();
        },
        258 => {
            lemma_license_order_258();
        },
        259 => {
            lemma_license_order_259();
        },
        260 => {
            lemma_license_order_260();
        },
        261 => {
            lemma_license_order_261();
        },
        262 => {
            lemma_license_order_262();
        },
        263 => {
            lemma_license_order_263();
        },
        264 => {
            lemma_license_order_264();
        },
        265 => {
            lemma_license_order_265();
        },
        266 => {
            lemma_license_order_266();
        },
        267 => {
            lemma_license_order_267();
        },
        268 => {
            lemma_license_order_268();
        },
        269 => {
            lemma_license_order_269();
        },
        270 => {
            lemma_license_order_270();
        },
        271 => {
            lemma_license_order_271();
        },
        272 => {
            lemma_license_order_272();
        },
        273 => {
            lemma_license_order_273();
        },
        274 => {
            lemma_license_order_274();
        },
        275 => {
            lemma_license_order_275();
        },
        276 => {
            lemma_license_order_276();
        },
        277 => {
            lemma_license_order_277();
        },
        278 => {
            lemma_license_order_278();
        },
        279 => {
            lemma_license_order_279();
        },
        280 => {
            lemma_license_order_280();
        },
        281 => {
            lemma_license_order_281();
        },
        282 => {
            lemma_license_order_282();
        },
        283 => {
            lemma_license_order_283();
        },
        284 => {
            lemma_license_order_284();
        },
        285 => {
            lemma_license_order_285();
        },
        286 => {
            lemma_license_order_286();
        },
        287 => {
            lemma_license_order_287();
        },
        288 => {
            lemma_license_order_288();
        },
        289 => {
            lemma_license_order_289();
        },
        290 => {
            lemma_license_order_290();
        },
        291 => {
            lemma_license_order_291();
        },
        292 => {
            lemma_license_order_292();
        },
        293 => {
            lemma_license_order_293();
        },
        294 => {
            lemma_license_order_294();
        },
        295 => {
            lemma_license_order_295();
        },
        296 => {
            lemma_license_order_296();
        },
        297 => {
            lemma_license_order_297();
        },
        298 => {
            lemma_license_order_298();
        },
        299 => {
            lemma_license_order_299();
        },
        300 => {
            lemma_license_order_300();
        },
        301 => {
            lemma_license_order_301();
        },
        302 => {
            lemma_license_order_302();
        },
        303 => {
            lemma_license_order_303();
        },
        304 => {
            lemma_license_order_304();
        },
        305 => {
            lemma_license_order_305();
        },
        306 => {
            lemma_license_order_306();
        },
        307 => {
            lemma_license_order_307();
        },
        308 => {
            lemma_license_order_308();
        },
        309 => {
            lemma_license_order_309();
        },
        310 => {
            lemma_license_order_310();
        },
        311 => {
            lemma_license_order_311();
        },
        312 => {
            lemma_license_order_312();
        },
        313 => {
            lemma_license_order_313();
        },
        314 => {
            lemma_license_order_314();
        },
        315 => {
            lemma_license_order_315();
        },
        316 => {
            lemma_license_order_316();
        },
        317 => {
            lemma_license_order_317();
        },
        318 => {
            lemma_license_order_318();
        },
        319 => {
            lemma_license_order_319();
        },
        320 => {
            lemma_license_order_320();
        },
        321 => {
            lemma_license_order_321();
        },
        322 => {
            lemma_license_order_322();
        },
        323 => {
            lemma_license_order_323();
        },
        324 => {
            lemma_license_order_324();
        },
        325 => {
            lemma_license_order_325();
        },
        326 => {
            lemma_license_order_326();
        },
        327 => {
            lemma_license_order_327();
        },
        328 => {
            lemma_license_order_328();
        },
        329 => {
            lemma_license_order_329();
        },
        330 => {
            lemma_license_order_330();
        },
        331 => {
            lemma_license_order_331();
        },
        332 => {
            lemma_license_order_332();
        },
        333 => {
            lemma_license_order_333();
        },
        334 => {
            lemma_license_order_334();
        },
        335 => {
            lemma_license_order_335();
        },
        336 => {
            lemma_license_order_336();
        },
        337 => {
            lemma_license_order_337();
        },
        338 => {
            lemma_license_order_338();
        },
        339 => {
            lemma_license_order_339();
        },
        340 => {
            lemma_license_order_340();
        },
        341 => {
            lemma_license_order_341();
        },
        342 => {
            lemma_license_order_342();
        },
        343 => {
            lemma_license_order_343();
        },
        344 => {
            lemma_license_order_344();
        },
        345 => {
            lemma_license_order_345();
        },
        346 => {
            lemma_license_order_346();
        },
        347 => {
            lemma_license_order_347();
        },
        348 => {
            lemma_license_order_348();
        },
        349 => {
            lemma_license_order_349();
        },
        350 => {
            lemma_license_order_350();
        },
        351 => {
            lemma_license_order_351();
        },
        352 => {
            lemma_license_order_352();
        },
        353 => {
            lemma_license_order_353();
        },
        354 => {
            lemma_license_order_354();
        },
        355 => {
            lemma_license_order_355();
        },
        356 => {
            lemma_license_order_356();
        },
        357 => {
            lemma_license_order_357();
        },
        358 => {
            lemma_license_order_358();
        },
        359 => {
            lemma_license_order_359();
        },
        360 => {
            lemma_license_order_360();
        },
        361 => {
            lemma_license_order_361();
        },
        362 => {
            lemma_license_order_362();
        },
        363 => {
            lemma_license_order_363();
        },
        364 => {
            lemma_license_order_364();
        },
        365 => {
            lemma_license_order_365();
        },
        366 => {
            lemma_license_order_366();
        },
        367 => {
            lemma_license_order_367();
        },
        368 => {
            lemma_license_order_368();
        },
        369 => {
            lemma_license_order_369();
        },
        370 => {
            lemma_license_order_370();
        },
        371 => {
            lemma_license_order_371();
        },
        372 => {
            lemma_license_order_372();
        },
        373 => {
            lemma_license_order_373();
        },
        374 => {
            lemma_license_order_374();
        },
        375 => {
            lemma_license_order_375();
        },
        376 => {
            lemma_license_order_376();
        },
        377 => {
            lemma_license_order_377();
        },
        378 => {
            lemma_license_order_378();
        },
        379 => {
            lemma_license_order_379();
        },
        380 => {
            lemma_license_order_380();
        },
        381 => {
            lemma_license_order_381();
        },
        382 => {
            lemma_license_order_382();
        },
        383 => {
            lemma_license_order_383();
        },
        384 => {
            lemma_license_order_384();
        },
        385 => {
            lemma_license_order_385();
        },
        386 => {
            lemma_license_order_386();
        },
        387 => {
            lemma_license_order_387();
        },
        388 => {
            lemma_license_order_388();
        },
        389 => {
            lemma_license_order_389();
        },
        390 => {
            lemma_license_order_390();
        },
        391 => {
            lemma_license_order_391();
        },
        392 => {
            lemma_license_order_392();
        },
        393 => {
            lemma_license_order_393();
        },
        394 => {
            lemma_license_order_394();
        },
        395 => {
            lemma_license_order_395();
        },
        396 => {
            lemma_license_order_396();
        },
        397 => {
            lemma_license_order_397();
        },
        398 => {
            lemma_license_order_398();
        },
        399 => {
            lemma_license_order_399();
        },
        400 => {
            lemma_license_order_400();
        },
        401 => {
            lemma_license_order_401();
        },
        402 => {
            lemma_license_order_402();
        },
        403 => {
            lemma_license_order_403();
        },
        404 => {
            lemma_license_order_404();
        },
        405 => {
            lemma_license_order_405();
        },
        406 => {
            lemma_license_order_406();
        },
        407 => {
            lemma_license_order_407();
        },
        408 => {
            lemma_license_order_408();
        },
        409 => {
            lemma_license_order_409();
        },
        410 => {
            lemma_license_order_410();
        },
        _ => {},
    }
}

proof fn lemma_exception_order_0()
    ensures
        sorts_before("389-exception".spec_bytes(), "Autoconf-exception-2.0".spec_bytes()),
{
    reveal_strlit("389-exception");
    reveal_strlit("Autoconf-exception-2.0");
    is_ascii_chars_encode_utf8("389-exception"@);
    is_ascii_chars_encode_utf8("Autoconf-exception-2.0"@);
    let a = "389-exception".spec_bytes();
    let b = "Autoconf-exception-2.0".spec_bytes();
    assert(a.subrange(0, 0) =~= b.subrange(0, 0));
    assert(differs_below(a, b, 0));
}

proof fn lemma_exception_order_1()
    ensures
        sorts_before("Autoconf-exception-2.0".spec_bytes(), "Autoconf-exception-3.0".spec_bytes()),
{
    reveal_strlit("Autoconf-exception-2.0");
    reveal_strlit("Autoconf-exception-3.0");
    is_ascii_chars_encode_utf8("Autoconf-exception-2.0"@);
    is_ascii_chars_encode_utf8("Autoconf-exception-3.0"@);
    let a = "Autoconf-exception-2.0".spec_bytes();
    let b = "Autoconf-exception-3.0".spec_bytes();
    assert(a.subrange(0, 19) =~= b.subrange(0, 19));
    assert(differs_below(a, b, 19));
}

proof fn lemma_exception_order_2()
    ensures
        sorts_before("Autoconf-exception-3.0".spec_bytes(), "Bison-exception-2.2".spec_bytes()),
{
    reveal_strlit("Autoconf-exception-3.0");
    reveal_strlit("Bison-exception-2.2");
    is_ascii_chars_encode_utf8("Autoconf-exception-3.0"@);
    is_ascii_chars_encode_utf8("Bison-exception-2.2"@);
    let a = "Autoconf-exception-3.0".spec_bytes();
    let b = "Bison-exception-2.2".spec_bytes();
    assert(a.subrange(0, 0) =~= b.subrange(0, 0));
    assert(differs_below(a, b, 0));
}

proof fn lemma_exception_order_3()
    ensures
        sorts_before("Bison-exception-2.2".spec_bytes(), "Bootloader-exception".spec_bytes()),
{
    reveal_strlit("Bison-exception-2.2");
    reveal_strlit("Bootloader-exception");
    is_ascii_chars_encode_utf8("Bison-exception-2.2"@);
    is_ascii_chars_encode_utf8("Bootloader-exception"@);
    let a = "Bison-exception-2.2".spec_bytes();
    let b = "Bootloader-exception".spec_bytes();
    assert(a.subrange(0, 1) =~= b.subrange(0, 1));
    assert(differs_below(a, b, 1));
}

proof fn lemma_exception_order_4()
    ensures
        sorts_before("Bootloader-exception".spec_bytes(), "CLISP-exception-2.0".spec_bytes()),
{
    reveal_strlit("Bootloader-exception");
    reveal_strlit("CLISP-exception-2.0");
    is_ascii_chars_encode_utf8("Bootloader-exception"@);
    is_ascii_chars_encode_utf8("CLISP-exception-2.0"@);
    let a = "Bootloader-exception".spec_bytes();
    let b = "CLISP-exception-2.0".spec_bytes();
    assert(a.subrange(0, 0) =~= b.subrange(0, 0));
    assert(differs_below(a, b, 0));
}

proof fn lemma_exception_order_5()
    ensures
        sorts_before("CLISP-exception-2.0".spec_bytes(), "Classpath-exception-2.0".spec_bytes()),
{
    reveal_strlit("CLISP-exception-2.0");
    reveal_strlit("Classpath-exception-2.0");
    is_ascii_chars_encode_utf8("CLISP-exception-2.0"@);
    is_ascii_chars_encode_utf8("Classpath-exception-2.0"@);
    let a = "CLISP-exception-2.0".spec_bytes();
    let b = "Classpath-exception-2.0".spec_bytes();
    assert(a.subrange(0, 1) =~= b.subrange(0, 1));
    assert(differs_below(a, b, 1));
}

proof fn lemma_exception_order_6()
    ensures
        sorts_before("Classpath-exception-2.0".spec_bytes(), "DigiRule-FOSS-exception".spec_bytes()),
{
    reveal_strlit("Classpath-exception-2.0");
    reveal_strlit("DigiRule-FOSS-exception");
    is_ascii_chars_encode_utf8("Classpath-exception-2.0"@);
    is_ascii_chars_encode_utf8("DigiRule-FOSS-exception"@);
    let a = "Classpath-exception-2.0".spec_bytes();
    let b = "DigiRule-FOSS-exception".spec_bytes();
    assert(a.subrange(0, 0) =~= b.subrange(0, 0));
    assert(differs_below(a, b, 0));
}

proof fn lemma_exception_order_7()
    ensures
        sorts_before("DigiRule-FOSS-exception".spec_bytes(), "FLTK-exception".spec_bytes()),
{
    reveal_strlit("DigiRule-FOSS-exception");
    reveal_strlit("FLTK-exception");
    is_ascii_chars_encode_utf8("DigiRule-FOSS-exception"@);
    is_ascii_chars_encode_utf8("FLTK-exception"@);
    let a = "DigiRule-FOSS-exception".spec_bytes();
    let b = "FLTK-exception".spec_bytes();
    assert(a.subrange(0, 0) =~= b.subrange(0, 0));
    assert(differs_below(a, b, 0));
}

proof fn lemma_exception_order_8()
    ensures
        sorts_before("FLTK-exception".spec_bytes(), "Fawkes-Runtime-exception".spec_bytes()),
{
    reveal_strlit("FLTK-exception");
    reveal_strlit("Fawkes-Runtime-exception");
    is_ascii_chars_encode_utf8("FLTK-exception"@);
    is_ascii_chars_encode_utf8("Fawkes-Runtime-exception"@);
    let a = "FLTK-exception".spec_bytes();
    let b = "Fawkes-Runtime-exception".spec_bytes();
    assert(a.subrange(0, 1) =~= b.subrange(0, 1));
    assert(differs_below(a, b, 1));
}

proof fn lemma_exception_order_9()
    ensures
        sorts_before("Fawkes-Runtime-exception".spec_bytes(), "Font-exception-2.0".spec_bytes()),
{
    reveal_strlit("Fawkes-Runtime-exception");
    reveal_strlit("Font-exception-2.0");
    is_ascii_chars_encode_utf8("Fawkes-Runtime-exception"@);
    is_ascii_chars_encode_utf8("Font-exception-2.0"@);
    let a = "Fawkes-Runtime-exception".spec_bytes();
    let b = "Font-exception-2.0".spec_bytes();
    assert(a.subrange(0, 1) =~= b.subrange(0, 1));
    assert(differs_below(a, b, 1));
}

proof fn lemma_exception_order_10()
    ensures
        sorts_before("Font-exception-2.0".spec_bytes(), "GCC-exception-2.0".spec_bytes()),
{
    reveal_strlit("Font-exception-2.0");
    reveal_strlit("GCC-exception-2.0");
    is_ascii_chars_encode_utf8("Font-exception-2.0"@);
    is_ascii_chars_encode_utf8("GCC-exception-2.0"@);
    let a = "Font-exception-2.0".spec_bytes();
    let b = "GCC-exception-2.0".spec_bytes();
    assert(a.subrange(0, 0) =~= b.subrange(0, 0));
    assert(differs_below(a, b, 0));
}

proof fn lemma_exception_order_11()
    ensures
        sorts_before("GCC-exception-2.0".spec_bytes(), "GCC-exception-3.1".spec_bytes()),
{
    reveal_strlit("GCC-exception-2.0");
    reveal_strlit("GCC-exception-3.1");
    is_ascii_chars_encode_utf8("GCC-exception-2.0"@);
    is_ascii_chars_encode_utf8("GCC-exception-3.1"@);
    let a = "GCC-exception-2.0".spec_bytes();
    let b = "GCC-exception-3.1".spec_bytes();
    assert(a.subrange(0, 14) =~= b.subrange(0, 14));
    assert(differs_below(a, b, 14));
}

proof fn lemma_exception_order_12()
    ensures
        sorts_before("GCC-exception-3.1".spec_bytes(), "GPL-CC-1.0".spec_bytes()),
{
    reveal_strlit("GCC-exception-3.1");
    reveal_strlit("GPL-CC-1.0");
    is_ascii_chars_encode_utf8("GCC-exception-3.1"@);
    is_ascii_chars_encode_utf8("GPL-CC-1.0"@);
    let a = "GCC-exception-3.1".spec_bytes();
    let b = "GPL-CC-1.0".spec_bytes();
    assert(a.subrange(0, 1) =~= b.subrange(0, 1));
    assert(differs_below(a, b, 1));
}

proof fn lemma_exception_order_13()
    ensures
        sorts_before("GPL-CC-1.0".spec_bytes(), "LLVM-exception".spec_bytes()),
{
    reveal_strlit("GPL-CC-1.0");
    reveal_strlit("LLVM-exception");
    is_ascii_chars_encode_utf8("GPL-CC-1.0"@);
    is_ascii_chars_encode_utf8("LLVM-exception"@);
    let a = "GPL-CC-1.0".spec_bytes();
    let b = "LLVM-exception".spec_bytes();
    assert(a.subrange(0, 0) =~= b.subrange(0, 0));
    assert(differs_below(a, b, 0));
}

proof fn lemma_exception_order_14()
    ensures
        sorts_before("LLVM-exception".spec_bytes(), "LZMA-exception".spec_bytes()),
{
    reveal_strlit("LLVM-exception");
    reveal_strlit("LZMA-exception");
    is_ascii_chars_encode_utf8("LLVM-exception"@);
    is_ascii_chars_encode_utf8("LZMA-exception"@);
    let a = "LLVM-exception".spec_bytes();
    let b = "LZMA-exception".spec_bytes();
    assert(a.subrange(0, 1) =~= b.subrange(0, 1));
    assert(differs_below(a, b, 1));
}

proof fn lemma_exception_order_15()
    ensures
        sorts_before("LZMA-exception".spec_bytes(), "Libtool-exception".spec_bytes()),
{
    reveal_strlit("LZMA-exception");
    reveal_strlit("Libtool-exception");
    is_ascii_chars_encode_utf8("LZMA-exception"@);
    is_ascii_chars_encode_utf8("Libtool-exception"@);
    let a = "LZMA-exception".spec_bytes();
    let b = "Libtool-exception".spec_bytes();
    assert(a.subrange(0, 1) =~= b.subrange(0, 1));
    assert(differs_below(a, b, 1));
}

proof fn lemma_exception_order_16()
    ensures
        sorts_before("Libtool-exception".spec_bytes(), "Linux-syscall-note".spec_bytes()),
{
    reveal_strlit("Libtool-exception");
    reveal_strlit("Linux-syscall-note");
    is_ascii_chars_encode_utf8("Libtool-exception"@);
    is_ascii_chars_encode_utf8("Linux-syscall-note"@);
    let a = "Libtool-exception".spec_bytes();
    let b = "Linux-syscall-note".spec_bytes();
    assert(a.subrange(0, 2) =~= b.subrange(0, 2));
    assert(differs_below(a, b, 2));
}

proof fn lemma_exception_order_17()
    ensures
        sorts_before("Linux-syscall-note".spec_bytes(), "Nokia-Qt-exception-1.1".spec_bytes()),
{
    reveal_strlit("Linux-syscall-note");
    reveal_strlit("Nokia-Qt-exception-1.1");
    is_ascii_chars_encode_utf8("Linux-syscall-note"@);
    is_ascii_chars_encode_utf8("Nokia-Qt-exception-1.1"@);
    let a = "Linux-syscall-note".spec_bytes();
    let b = "Nokia-Qt-exception-1.1".spec_bytes();
    assert(a.subrange(0, 0) =~= b.subrange(0, 0));
    assert(differs_below(a, b, 0));
}

proof fn lemma_exception_order_18()
    ensures
        sorts_before("Nokia-Qt-exception-1.1".spec_bytes(), "OCCT-exception-1.0".spec_bytes()),
{
    reveal_strlit("Nokia-Qt-exception-1.1");
    reveal_strlit("OCCT-exception-1.0");
    is_ascii_chars_encode_utf8("Nokia-Qt-exception-1.1"@);
    is_ascii_chars_encode_utf8("OCCT-exception-1.0"@);
    let a = "Nokia-Qt-exception-1.1".spec_bytes();
    let b = "OCCT-exception-1.0".spec_bytes();
    assert(a.subrange(0, 0) =~= b.subrange(0, 0));
    assert(differs_below(a, b, 0));
}

proof fn lemma_exception_order_19()
    ensures
        sorts_before("OCCT-exception-1.0".spec_bytes(), "OCaml-LGPL-linking-exception".spec_bytes()),
{
    reveal_strlit("OCCT-exception-1.0");
    reveal_strlit("OCaml-LGPL-linking-exception");
    is_ascii_chars_encode_utf8("OCCT-exception-1.0"@);
    is_ascii_chars_encode_utf8("OCaml-LGPL-linking-exception"@);
    let a = "OCCT-exception-1.0".spec_bytes();
    let b = "OCaml-LGPL-linking-exception".spec_bytes();
    assert(a.subrange(0, 2) =~= b.subrange(0, 2));
    assert(differs_below(a, b, 2));
}

proof fn lemma_exception_order_20()
    ensures
        sorts_before("OCaml-LGPL-linking-exception".spec_bytes(), "OpenJDK-assembly-exception-1.0".spec_bytes()),
{
    reveal_strlit("OCaml-LGPL-linking-exception");
    reveal_strlit("OpenJDK-assembly-exception-1.0");
    is_ascii_chars_encode_utf8("OCaml-LGPL-linking-exception"@);
    is_ascii_chars_encode_utf8("OpenJDK-assembly-exception-1.0"@);
    let a = "OCaml-LGPL-linking-exception".spec_bytes();
    let b = "OpenJDK-assembly-exception-1.0".spec_bytes();
    assert(a.subrange(0, 1) =~= b.subrange(0, 1));
    assert(differs_below(a, b, 1));
}

proof fn lemma_exception_order_21()
    ensures
        sorts_before("OpenJDK-assembly-exception-1.0".spec_bytes(), "PS-or-PDF-font-exception-20170817".spec_bytes()),
{
    reveal_strlit("OpenJDK-assembly-exception-1.0");
    reveal_strlit("PS-or-PDF-font-exception-20170817");
    is_ascii_chars_encode_utf8("OpenJDK-assembly-exception-1.0"@);
    is_ascii_chars_encode_utf8("PS-or-PDF-font-exception-20170817"@);
    let a = "OpenJDK-assembly-exception-1.0".spec_bytes();
    let b = "PS-or-PDF-font-exception-20170817".spec_bytes();
    assert(a.subrange(0, 0) =~= b.subrange(0, 0));
    assert(differs_below(a, b, 0));
}

proof fn lemma_exception_order_22()
    ensures
        sorts_before("PS-or-PDF-font-exception-20170817".spec_bytes(), "Qt-GPL-exception-1.0".spec_bytes()),
{
    reveal_strlit("PS-or-PDF-font-exception-20170817");
    reveal_strlit("Qt-GPL-exception-1.0");
    is_ascii_chars_encode_utf8("PS-or-PDF-font-exception-20170817"@);
    is_ascii_chars_encode_utf8("Qt-GPL-exception-1.0"@);
    let a = "PS-or-PDF-font-exception-20170817".spec_bytes();
    let b = "Qt-GPL-exception-1.0".spec_bytes();
    assert(a.subrange(0, 0) =~= b.subrange(0, 0));
    assert(differs_below(a, b, 0));
}

proof fn lemma_exception_order_23()
    ensures
        sorts_before("Qt-GPL-exception-1.0".spec_bytes(), "Qt-LGPL-exception-1.1".spec_bytes()),
{
    reveal_strlit("Qt-GPL-exception-1.0");
    reveal_strlit("Qt-LGPL-exception-1.1");
    is_ascii_chars_encode_utf8("Qt-GPL-exception-1.0"@);
    is_ascii_chars_encode_utf8("Qt-LGPL-exception-1.1"@);
    let a = "Qt-GPL-exception-1.0".spec_bytes();
    let b = "Qt-LGPL-exception-1.1".spec_bytes();
    assert(a.subrange(0, 3) =~= b.subrange(0, 3));
    assert(differs_below(a, b, 3));
}

proof fn lemma_exception_order_24()
    ensures
        sorts_before("Qt-LGPL-exception-1.1".spec_bytes(), "Qwt-exception-1.0".spec_bytes()),
{
    reveal_strlit("Qt-LGPL-exception-1.1");
    reveal_strlit("Qwt-exception-1.0");
    is_ascii_chars_encode_utf8("Qt-LGPL-exception-1.1"@);
    is_ascii_chars_encode_utf8("Qwt-exception-1.0"@);
    let a = "Qt-LGPL-exception-1.1".spec_bytes();
    let b = "Qwt-exception-1.0".spec_bytes();
    assert(a.subrange(0, 1) =~= b.subrange(0, 1));
    assert(differs_below(a, b, 1));
}

proof fn lemma_exception_order_25()
    ensures
        sorts_before("Qwt-exception-1.0".spec_bytes(), "Swift-exception".spec_bytes()),
{
    reveal_strlit("Qwt-exception-1.0");
    reveal_strlit("Swift-exception");
    is_ascii_chars_encode_utf8("Qwt-exception-1.0"@);
    is_ascii_chars_encode_utf8("Swift-exception"@);
    let a = "Qwt-exception-1.0".spec_bytes();
    let b = "Swift-exception".spec_bytes();
    assert(a.subrange(0, 0) =~= b.subrange(0, 0));
    assert(differs_below(a, b, 0));
}

proof fn lemma_exception_order_26()
    ensures
        sorts_before("Swift-exception".spec_bytes(), "Universal-FOSS-exception-1.0".spec_bytes()),
{
    reveal_strlit("Swift-exception");
    reveal_strlit("Universal-FOSS-exception-1.0");
    is_ascii_chars_encode_utf8("Swift-exception"@);
    is_ascii_chars_encode_utf8("Universal-FOSS-exception-1.0"@);
    let a = "Swift-exception".spec_bytes();
    let b = "Universal-FOSS-exception-1.0".spec_bytes();
    assert(a.subrange(0, 0) =~= b.subrange(0, 0));
    assert(differs_below(a, b, 0));
}

proof fn lemma_exception_order_27()
    ensures
        sorts_before("Universal-FOSS-exception-1.0".spec_bytes(), "WxWindows-exception-3.1".spec_bytes()),
{
    reveal_strlit("Universal-FOSS-exception-1.0");
    reveal_strlit("WxWindows-exception-3.1");
    is_ascii_chars_encode_utf8("Universal-FOSS-exception-1.0"@);
    is_ascii_chars_encode_utf8("WxWindows-exception-3.1"@);
    let a = "Universal-FOSS-exception-1.0".spec_bytes();
    let b = "WxWindows-exception-3.1".spec_bytes();
    assert(a.subrange(0, 0) =~= b.subrange(0, 0));
    assert(differs_below(a, b, 0));
}

proof fn lemma_exception_order_28()
    ensures
        sorts_before("WxWindows-exception-3.1".spec_bytes(), "eCos-exception-2.0".spec_bytes()),
{
    reveal_strlit("WxWindows-exception-3.1");
    reveal_strlit("eCos-exception-2.0");
    is_ascii_chars_encode_utf8("WxWindows-exception-3.1"@);
    is_ascii_chars_encode_utf8("eCos-exception-2.0"@);
    let a = "WxWindows-exception-3.1".spec_bytes();
    let b = "eCos-exception-2.0".spec_bytes();
    assert(a.subrange(0, 0) =~= b.subrange(0, 0));
    assert(differs_below(a, b, 0));
}

proof fn lemma_exception_order_29()
    ensures
        sorts_before("eCos-exception-2.0".spec_bytes(), "freertos-exception-2.0".spec_bytes()),
{
    reveal_strlit("eCos-exception-2.0");
    reveal_strlit("freertos-exception-2.0");
    is_ascii_chars_encode_utf8("eCos-exception-2.0"@);
    is_ascii_chars_encode_utf8("freertos-exception-2.0"@);
    let a = "eCos-exception-2.0".spec_bytes();
    let b = "freertos-exception-2.0".spec_bytes();
    assert(a.subrange(0, 0) =~= b.subrange(0, 0));
    assert(differs_below(a, b, 0));
}

proof fn lemma_exception_order_30()
    ensures
        sorts_before("freertos-exception-2.0".spec_bytes(), "gnu-javamail-exception".spec_bytes()),
{
    reveal_strlit("freertos-exception-2.0");
    reveal_strlit("gnu-javamail-exception");
    is_ascii_chars_encode_utf8("freertos-exception-2.0"@);
    is_ascii_chars_encode_utf8("gnu-javamail-exception"@);
    let a = "freertos-exception-2.0".spec_bytes();
    let b = "gnu-javamail-exception".spec_bytes();
    assert(a.subrange(0, 0) =~= b.subrange(0, 0));
    assert(differs_below(a, b, 0));
}

proof fn lemma_exception_order_31()
    ensures
        sorts_before("gnu-javamail-exception".spec_bytes(), "i2p-gpl-java-exception".spec_bytes()),
{
    reveal_strlit("gnu-javamail-exception");
    reveal_strlit("i2p-gpl-java-exception");
    is_ascii_chars_encode_utf8("gnu-javamail-exception"@);
    is_ascii_chars_encode_utf8("i2p-gpl-java-exception"@);
    let a = "gnu-javamail-exception".spec_bytes();
    let b = "i2p-gpl-java-exception".spec_bytes();
    assert(a.subrange(0, 0) =~= b.subrange(0, 0));
    assert(differs_below(a, b, 0));
}

proof fn lemma_exception_order_32()
    ensures
        sorts_before("i2p-gpl-java-exception".spec_bytes(), "mif-exception".spec_bytes()),
{
    reveal_strlit("i2p-gpl-java-exception");
    reveal_strlit("mif-exception");
    is_ascii_chars_encode_utf8("i2p-gpl-java-exception"@);
    is_ascii_chars_encode_utf8("mif-exception"@);
    let a = "i2p-gpl-java-exception".spec_bytes();
    let b = "mif-exception".spec_bytes();
    assert(a.subrange(0, 0) =~= b.subrange(0, 0));
    assert(differs_below(a, b, 0));
}

proof fn lemma_exception_order_33()
    ensures
        sorts_before("mif-exception".spec_bytes(), "openvpn-openssl-exception".spec_bytes()),
{
    reveal_strlit("mif-exception");
    reveal_strlit("openvpn-openssl-exception");
    is_ascii_chars_encode_utf8("mif-exception"@);
    is_ascii_chars_encode_utf8("openvpn-openssl-exception"@);
    let a = "mif-exception".spec_bytes();
    let b = "openvpn-openssl-exception".spec_bytes();
    assert(a.subrange(0, 0) =~= b.subrange(0, 0));
    assert(differs_below(a, b, 0));
}

proof fn lemma_exception_order_34()
    ensures
        sorts_before("openvpn-openssl-exception".spec_bytes(), "u-boot-exception-2.0".spec_bytes()),
{
    reveal_strlit("openvpn-openssl-exception");
    reveal_strlit("u-boot-exception-2.0");
    is_ascii_chars_encode_utf8("openvpn-openssl-exception"@);
    is_ascii_chars_encode_utf8("u-boot-exception-2.0"@);
    let a = "openvpn-openssl-exception".spec_bytes();
    let b = "u-boot-exception-2.0".spec_bytes();
    assert(a.subrange(0, 0) =~= b.subrange(0, 0));
    assert(differs_below(a, b, 0));
}

/// Each exception of the table sorts before the next one.
pub proof fn lemma_exception_order(index: usize)
    requires
        index + 1 < EXCEPTION_COUNT,
    ensures
        sorts_before(exception_name(index).spec_bytes(), exception_name((index + 1) as usize).spec_bytes()),
{
    match index {
        0 => {
            lemma_exception_order_0();
        },
        1 => {
            lemma_exception_order_1();
        },
        2 => {
            lemma_exception_order_2();
        },
        3 => {
            lemma_exception_order_3();
        },
        4 => {
            lemma_exception_order_4();
        },
        5 => {
            lemma_exception_order_5();
        },
        6 => {
            lemma_exception_order_6();
        },
        7 => {
            lemma_exception_order_7();
        },
        8 => {
            lemma_exception_order_8();
        },
        9 => {
            lemma_exception_order_9();
        },
        10 => {
            lemma_exception_order_10();
        },
        11 => {
            lemma_exception_order_11();
        },
        12 => {
            lemma_exception_order_12();
        },
        13 => {
            lemma_exception_order_13();
        },
        14 => {
            lemma_exception_order_14();
        },
        15 => {
            lemma_exception_order_15();
        },
        16 => {
            lemma_exception_order_16();
        },
        17 => {
            lemma_exception_order_17();
        },
        18 => {
            lemma_exception_order_18();
        },
        19 => {
            lemma_exception_order_19();
        },
        20 => {
            lemma_exception_order_20();
        },
        21 => {
            lemma_exception_order_21();
        },
        22 => {
            lemma_exception_order_22();
        },
        23 => {
            lemma_exception_order_23();
        },
        24 => {
            lemma_exception_order_24();
        },
        25 => {
            lemma_exception_order_25();
        },
        26 => {
            lemma_exception_order_26();
        },
        27 => {
            lemma_exception_order_27();
        },
        28 => {
            lemma_exception_order_28();
        },
        29 => {
            lemma_exception_order_29();
        },
        30 => {
            lemma_exception_order_30();
        },
        31 => {
            lemma_exception_order_31();
        },
        32 => {
            lemma_exception_order_32();
        },
        33 => {
            lemma_exception_order_33();
        },
        34 => {
            lemma_exception_order_34();
        },
        _ => {},
    }
}

/// The bit of the GNU flag is set in the flags from 16 on.
proof fn lemma_gnu_bit(flags: u8)
    requires
        flags < 32,
    ensures
        (flags & 0x10 != 0) == (flags >= 16),
{
    assert((flags & 0x10 != 0) == (flags >= 16)) by (bit_vector)
        requires
            flags < 32,
    ;
}

/// The four words that GNU identifiers begin with, in bytes.
proof fn lemma_gnu_words()
    ensures
        "AGPL-".spec_bytes() == seq![0x41u8, 0x47u8, 0x50u8, 0x4cu8, 0x2du8],
        "GFDL-".spec_bytes() == seq![0x47u8, 0x46u8, 0x44u8, 0x4cu8, 0x2du8],
        "GPL-".spec_bytes() == seq![0x47u8, 0x50u8, 0x4cu8, 0x2du8],
        "LGPL-".spec_bytes() == seq![0x4cu8, 0x47u8, 0x50u8, 0x4cu8, 0x2du8],
{
    reveal_strlit("AGPL-");
    is_ascii_chars_encode_utf8("AGPL-"@);
    assert("AGPL-".spec_bytes() =~= seq![0x41u8, 0x47u8, 0x50u8, 0x4cu8, 0x2du8]);
    reveal_strlit("GFDL-");
    is_ascii_chars_encode_utf8("GFDL-"@);
    assert("GFDL-".spec_bytes() =~= seq![0x47u8, 0x46u8, 0x44u8, 0x4cu8, 0x2du8]);
    reveal_strlit("GPL-");
    is_ascii_chars_encode_utf8("GPL-"@);
    assert("GPL-".spec_bytes() =~= seq![0x47u8, 0x50u8, 0x4cu8, 0x2du8]);
    reveal_strlit("LGPL-");
    is_ascii_chars_encode_utf8("LGPL-"@);
    assert("LGPL-".spec_bytes() =~= seq![0x4cu8, 0x47u8, 0x50u8, 0x4cu8, 0x2du8]);
}

proof fn lemma_gnu_flag_0()
    ensures
        gnu_name("0BSD".spec_bytes()) == (0x2u8 & IS_GNU != 0),
{
    lemma_gnu_bit(0x2);
    lemma_gnu_words();
    reveal_strlit("0BSD");
    is_ascii_chars_encode_utf8("0BSD"@);
    let name = "0BSD".spec_bytes();
    lemma_not_prefix(name, "GPL-".spec_bytes(), 0);
}

proof fn lemma_gnu_flag_1()
    ensures
        gnu_name("AAL".spec_bytes()) == (0x2u8 & IS_GNU != 0),
{
    lemma_gnu_bit(0x2);
    lemma_gnu_words();
    reveal_strlit("AAL");
    is_ascii_chars_encode_utf8("AAL"@);
    let name = "AAL".spec_bytes();
}

proof fn lemma_gnu_flag_2()
    ensures
        gnu_name("ADSL".spec_bytes()) == (0x0u8 & IS_GNU != 0),
{
    lemma_gnu_bit(0x0);
    lemma_gnu_words();
    reveal_strlit("ADSL");
    is_ascii_chars_encode_utf8("ADSL"@);
    let name = "ADSL".spec_bytes();
    lemma_not_prefix(name, "GPL-".spec_bytes(), 0);
}

proof fn lemma_gnu_flag_3()
    ensures
        gnu_name("AFL-1.1".spec_bytes()) == (0x3u8 & IS_GNU != 0),
{
    lemma_gnu_bit(0x3);
    lemma_gnu_words();
    reveal_strlit("AFL-1.1");
    is_ascii_chars_encode_utf8("AFL-1.1"@);
    let name = "AFL-1.1".spec_bytes();
    lemma_not_prefix(name, "AGPL-".spec_bytes(), 1);
    lemma_not_prefix(name, "GFDL-".spec_bytes(), 0);
    lemma_not_prefix(name, "GPL-".spec_bytes(), 0);
    lemma_not_prefix(name, "LGPL-".spec_bytes(), 0);
}

proof fn lemma_gnu_flag_4()
    ensures
        gnu_name("AFL-1.2".spec_bytes()) == (0x3u8 & IS_GNU != 0),
{
    lemma_gnu_bit(0x3);
    lemma_gnu_words();
    reveal_strlit("AFL-1.2");
    is_ascii_chars_encode_utf8("AFL-1.2"@);
    let name = "AFL-1.2".spec_bytes();
    lemma_not_prefix(name, "AGPL-".spec_bytes(), 1);
    lemma_not_prefix(name, "GFDL-".spec_bytes(), 0);
    lemma_not_prefix(name, "GPL-".spec_bytes(), 0);
    lemma_not_prefix(name, "LGPL-".spec_bytes(), 0);
}

proof fn lemma_gnu_flag_5()
    ensures
        gnu_name("AFL-2.0".spec_bytes()) == (0x3u8 & IS_GNU != 0),
{
    lemma_gnu_bit(0x3);
    lemma_gnu_words();
    reveal_strlit("AFL-2.0");
    is_ascii_chars_encode_utf8("AFL-2.0"@);
    let name = "AFL-2.0".spec_bytes();
    lemma_not_prefix(name, "AGPL-".spec_bytes(), 1);
    lemma_not_prefix(name, "GFDL-".spec_bytes(), 0);
    lemma_not_prefix(name, "GPL-".spec_bytes(), 0);
    lemma_not_prefix(name, "LGPL-".spec_bytes(), 0);
}

proof fn lemma_gnu_flag_6()
    ensures
        gnu_name("AFL-2.1".spec_bytes()) == (0x3u8 & IS_GNU != 0),
{
    lemma_gnu_bit(0x3);
    lemma_gnu_words();
    reveal_strlit("AFL-2.1");
    is_ascii_chars_encode_utf8("AFL-2.1"@);
    let name = "AFL-2.1".spec_bytes();
    lemma_not_prefix(name, "AGPL-".spec_bytes(), 1);
    lemma_not_prefix(name, "GFDL-".spec_bytes(), 0);
    lemma_not_prefix(name, "GPL-".spec_bytes(), 0);
    lemma_not_prefix(name, "LGPL-".spec_bytes(), 0);
}

proof fn lemma_gnu_flag_7()
    ensures
        gnu_name("AFL-3.0".spec_bytes()) == (0x3u8 & IS_GNU != 0),
{
    lemma_gnu_bit(0x3);
    lemma_gnu_words();
    reveal_strlit("AFL-3.0");
    is_ascii_chars_encode_utf8("AFL-3.0"@);
    let name = "AFL-3.0".spec_bytes();
    lemma_not_prefix(name, "AGPL-".spec_bytes(), 1);
    lemma_not_prefix(name, "GFDL-".spec_bytes(), 0);
    lemma_not_prefix(name, "GPL-".spec_bytes(), 0);
    lemma_not_prefix(name, "LGPL-".spec_bytes(), 0);
}

proof fn lemma_gnu_flag_8()
    ensures
        gnu_name("AGPL-1.0".spec_bytes()) == (0x1du8 & IS_GNU != 0),
{
    lemma_gnu_bit(0x1d);
    lemma_gnu_words();
    reveal_strlit("AGPL-1.0");
    is_ascii_chars_encode_utf8("AGPL-1.0"@);
    let name = "AGPL-1.0".spec_bytes();
    assert(name.subrange(0, 5) =~= "AGPL-".spec_bytes());
}

proof fn lemma_gnu_flag_9()
    ensures
        gnu_name("AGPL-1.0-only".spec_bytes()) == (0x18u8 & IS_GNU != 0),
{
    lemma_gnu_bit(0x18);
    lemma_gnu_words();
    reveal_strlit("AGPL-1.0-only");
    is_ascii_chars_encode_utf8("AGPL-1.0-only"@);
    let name = "AGPL-1.0-only".spec_bytes();
    assert(name.subrange(0, 5) =~= "AGPL-".spec_bytes());
}

proof fn lemma_gnu_flag_10()
    ensures
        gnu_name("AGPL-1.0-or-later".spec_bytes()) == (0x18u8 & IS_GNU != 0),
{
    lemma_gnu_bit(0x18);
    lemma_gnu_words();
    reveal_strlit("AGPL-1.0-or-later");
    is_ascii_chars_encode_utf8("AGPL-1.0-or-later"@);
    let name = "AGPL-1.0-or-later".spec_bytes();
    assert(name.subrange(0, 5) =~= "AGPL-".spec_bytes());
}

proof fn lemma_gnu_flag_11()
    ensures
        gnu_name("AGPL-3.0".spec_bytes()) == (0x1fu8 & IS_GNU != 0),
{
    lemma_gnu_bit(0x1f);
    lemma_gnu_words();
    reveal_strlit("AGPL-3.0");
    is_ascii_chars_encode_utf8("AGPL-3.0"@);
    let name = "AGPL-3.0".spec_bytes();
    assert(name.subrange(0, 5) =~= "AGPL-".spec_bytes());
}

proof fn lemma_gnu_flag_12()
    ensures
        gnu_name("AGPL-3.0-only".spec_bytes()) == (0x1bu8 & IS_GNU != 0),
{
    lemma_gnu_bit(0x1b);
    lemma_gnu_words();
    reveal_strlit("AGPL-3.0-only");
    is_ascii_chars_encode_utf8("AGPL-3.0-only"@);
    let name = "AGPL-3.0-only".spec_bytes();
    assert(name.subrange(0, 5) =~= "AGPL-".spec_bytes());
}

proof fn lemma_gnu_flag_13()
    ensures
        gnu_name("AGPL-3.0-or-later".spec_bytes()) == (0x1bu8 & IS_GNU != 0),
{
    lemma_gnu_bit(0x1b);
    lemma_gnu_words();
    reveal_strlit("AGPL-3.0-or-later");
    is_ascii_chars_encode_utf8("AGPL-3.0-or-later"@);
    let name = "AGPL-3.0-or-later".spec_bytes();
    assert(name.subrange(0, 5) =~= "AGPL-".spec_bytes());
}

proof fn lemma_gnu_flag_14()
    ensures
        gnu_name("AMDPLPA".spec_bytes()) == (0x0u8 & IS_GNU != 0),
{
    lemma_gnu_bit(0x0);
    lemma_gnu_words();
    reveal_strlit("AMDPLPA");
    is_ascii_chars_encode_utf8("AMDPLPA"@);
    let name = "AMDPLPA".spec_bytes();
    lemma_not_prefix(name, "AGPL-".spec_bytes(), 1);
    lemma_not_prefix(name, "GFDL-".spec_bytes(), 0);
    lemma_not_prefix(name, "GPL-".spec_bytes(), 0);
    lemma_not_prefix(name, "LGPL-".spec_bytes(), 0);
}

proof fn lemma_gnu_flag_15()
    ensures
        gnu_name("AML".spec_bytes()) == (0x0u8 & IS_GNU != 0),
{
    lemma_gnu_bit(0x0);
    lemma_gnu_words();
    reveal_strlit("AML");
    is_ascii_chars_encode_utf8("AML"@);
    let name = "AML".spec_bytes();
}

proof fn lemma_gnu_flag_16()
    ensures
        gnu_name("AMPAS".spec_bytes()) == (0x0u8 & IS_GNU != 0),
{
    lemma_gnu_bit(0x0);
    lemma_gnu_words();
    reveal_strlit("AMPAS");
    is_ascii_chars_encode_utf8("AMPAS"@);
    let name = "AMPAS".spec_bytes();
    lemma_not_prefix(name, "AGPL-".spec_bytes(), 1);
    lemma_not_prefix(name, "GFDL-".spec_bytes(), 0);
    lemma_not_prefix(name, "GPL-".spec_bytes(), 0);
    lemma_not_prefix(name, "LGPL-".spec_bytes(), 0);
}

proof fn lemma_gnu_flag_17()
    ensures
        gnu_name("ANTLR-PD".spec_bytes()) == (0x0u8 & IS_GNU != 0),
{
    lemma_gnu_bit(0x0);
    lemma_gnu_words();
    reveal_strlit("ANTLR-PD");
    is_ascii_chars_encode_utf8("ANTLR-PD"@);
    let name = "ANTLR-PD".spec_bytes();
    lemma_not_prefix(name, "AGPL-".spec_bytes(), 1);
    lemma_not_prefix(name, "GFDL-".spec_bytes(), 0);
    lemma_not_prefix(name, "GPL-".spec_bytes(), 0);
    lemma_not_prefix(name, "LGPL-".spec_bytes(), 0);
}

proof fn lemma_gnu_flag_18()
    ensures
        gnu_name("APAFML".spec_bytes()) == (0x0u8 & IS_GNU != 0),
{
    lemma_gnu_bit(0x0);
    lemma_gnu_words();
    reveal_strlit("APAFML");
    is_ascii_chars_encode_utf8("APAFML"@);
    let name = "APAFML".spec_bytes();
    lemma_not_prefix(name, "AGPL-".spec_bytes(), 1);
    lemma_not_prefix(name, "GFDL-".spec_bytes(), 0);
    lemma_not_prefix(name, "GPL-".spec_bytes(), 0);
    lemma_not_prefix(name, "LGPL-".spec_bytes(), 0);
}

proof fn lemma_gnu_flag_19()
    ensures
        gnu_name("APL-1.0".spec_bytes()) == (0x2u8 & IS_GNU != 0),
{
    lemma_gnu_bit(0x2);
    lemma_gnu_words();
    reveal_strlit("APL-1.0");
    is_ascii_chars_encode_utf8("APL-1.0"@);
    let name = "APL-1.0".spec_bytes();
    lemma_not_prefix(name, "AGPL-".spec_bytes(), 1);
    lemma_not_prefix(name, "GFDL-".spec_bytes(), 0);
    lemma_not_prefix(name, "GPL-".spec_bytes(), 0);
    lemma_not_prefix(name, "LGPL-".spec_bytes(), 0);
}

proof fn lemma_gnu_flag_20()
    ensures
        gnu_name("APSL-1.0".spec_bytes()) == (0x2u8 & IS_GNU != 0),
{
    lemma_gnu_bit(0x2);
    lemma_gnu_words();
    reveal_strlit("APSL-1.0");
    is_ascii_chars_encode_utf8("APSL-1.0"@);
    let name = "APSL-1.0".spec_bytes();
    lemma_not_prefix(name, "AGPL-".spec_bytes(), 1);
    lemma_not_prefix(name, "GFDL-".spec_bytes(), 0);
    lemma_not_prefix(name, "GPL-".spec_bytes(), 0);
    lemma_not_prefix(name, "LGPL-".spec_bytes(), 0);
}

proof fn lemma_gnu_flag_21()
    ensures
        gnu_name("APSL-1.1".spec_bytes()) == (0x2u8 & IS_GNU != 0),
{
    lemma_gnu_bit(0x2);
    lemma_gnu_words();
    reveal_strlit("APSL-1.1");
    is_ascii_chars_encode_utf8("APSL-1.1"@);
    let name = "APSL-1.1".spec_bytes();
    lemma_not_prefix(name, "AGPL-".spec_bytes(), 1);
    lemma_not_prefix(name, "GFDL-".spec_bytes(), 0);
    lemma_not_prefix(name, "GPL-".spec_bytes(), 0);
    lemma_not_prefix(name, "LGPL-".spec_bytes(), 0);
}

proof fn lemma_gnu_flag_22()
    ensures
        gnu_name("APSL-1.2".spec_bytes()) == (0x2u8 & IS_GNU != 0),
{
    lemma_gnu_bit(0x2);
    lemma_gnu_words();
    reveal_strlit("APSL-1.2");
    is_ascii_chars_encode_utf8("APSL-1.2"@);
    let name = "APSL-1.2".spec_bytes();
    lemma_not_prefix(name, "AGPL-".spec_bytes(), 1);
    lemma_not_prefix(name, "GFDL-".spec_bytes(), 0);
    lemma_not_prefix(name, "GPL-".spec_bytes(), 0);
    lemma_not_prefix(name, "LGPL-".spec_bytes(), 0);
}

proof fn lemma_gnu_flag_23()
    ensures
        gnu_name("APSL-2.0".spec_bytes()) == (0x3u8 & IS_GNU != 0),
{
    lemma_gnu_bit(0x3);
    lemma_gnu_words();
    reveal_strlit("APSL-2.0");
    is_ascii_chars_encode_utf8("APSL-2.0"@);
    let name = "APSL-2.0".spec_bytes();
    lemma_not_prefix(name, "AGPL-".spec_bytes(), 1);
    lemma_not_prefix(name, "GFDL-".spec_bytes(), 0);
    lemma_not_prefix(name, "GPL-".spec_bytes(), 0);
    lemma_not_prefix(name, "LGPL-".spec_bytes(), 0);
}

proof fn lemma_gnu_flag_24()
    ensures
        gnu_name("Abstyles".spec_bytes()) == (0x0u8 & IS_GNU != 0),
{
    lemma_gnu_bit(0x0);
    lemma_gnu_words();
    reveal_strlit("Abstyles");
    is_ascii_chars_encode_utf8("Abstyles"@);
    let name = "Abstyles".spec_bytes();
    lemma_not_prefix(name, "AGPL-".spec_bytes(), 1);
    lemma_not_prefix(name, "GFDL-".spec_bytes(), 0);
    lemma_not_prefix(name, "GPL-".spec_bytes(), 0);
    lemma_not_prefix(name, "LGPL-".spec_bytes(), 0);
}

proof fn lemma_gnu_flag_25()
    ensures
        gnu_name("Adobe-2006".spec_bytes()) == (0x0u8 & IS_GNU != 0),
{
    lemma_gnu_bit(0x0);
    lemma_gnu_words();
    reveal_strlit("Adobe-2006");
    is_ascii_chars_encode_utf8("Adobe-2006"@);
    let name = "Adobe-2006".spec_bytes();
    lemma_not_prefix(name, "AGPL-".spec_bytes(), 1);
    lemma_not_prefix(name, "GFDL-".spec_bytes(), 0);
    lemma_not_prefix(name, "GPL-".spec_bytes(), 0);
    lemma_not_prefix(name, "LGPL-".spec_bytes(), 0);
}

proof fn lemma_gnu_flag_26()
    ensures
        gnu_name("Adobe-Glyph".spec_bytes()) == (0x0u8 & IS_GNU != 0),
{
    lemma_gnu_bit(0x0);
    lemma_gnu_words();
    reveal_strlit("Adobe-Glyph");
    is_ascii_chars_encode_utf8("Adobe-Glyph"@);
    let name = "Adobe-Glyph".spec_bytes();
    lemma_not_prefix(name, "AGPL-".spec_bytes(), 1);
    lemma_not_prefix(name, "GFDL-".spec_bytes(), 0);
    lemma_not_prefix(name, "GPL-".spec_bytes(), 0);
    lemma_not_prefix(name, "LGPL-".spec_bytes(), 0);
}

proof fn lemma_gnu_flag_27()
    ensures
        gnu_name("Afmparse".spec_bytes()) == (0x0u8 & IS_GNU != 0),
{
    lemma_gnu_bit(0x0);
    lemma_gnu_words();
    reveal_strlit("Afmparse");
    is_ascii_chars_encode_utf8("Afmparse"@);
    let name = "Afmparse".spec_bytes();
    lemma_not_prefix(name, "AGPL-".spec_bytes(), 1);
    lemma_not_prefix(name, "GFDL-".spec_bytes(), 0);
    lemma_not_prefix(name, "GPL-".spec_bytes(), 0);
    lemma_not_prefix(name, "LGPL-".spec_bytes(), 0);
}

proof fn lemma_gnu_flag_28()
    ensures
        gnu_name("Aladdin".spec_bytes()) == (0x0u8 & IS_GNU != 0),
{
    lemma_gnu_bit(0x0);
    lemma_gnu_words();
    reveal_strlit("Aladdin");
    is_ascii_chars_encode_utf8("Aladdin"@);
    let name = "Aladdin".spec_bytes();
    lemma_not_prefix(name, "AGPL-".spec_bytes(), 1);
    lemma_not_prefix(name, "GFDL-".spec_bytes(), 0);
    lemma_not_prefix(name, "GPL-".spec_bytes(), 0);
    lemma_not_prefix(name, "LGPL-".spec_bytes(), 0);
}

proof fn lemma_gnu_flag_29()
    ensures
        gnu_name("Apache-1.0".spec_bytes()) == (0x1u8 & IS_GNU != 0),
{
    lemma_gnu_bit(0x1);
    lemma_gnu_words();
    reveal_strlit("Apache-1.0");
    is_ascii_chars_encode_utf8("Apache-1.0"@);
    let name = "Apache-1.0".spec_bytes();
    lemma_not_prefix(name, "AGPL-".spec_bytes(), 1);
    lemma_not_prefix(name, "GFDL-".spec_bytes(), 0);
    lemma_not_prefix(name, "GPL-".spec_bytes(), 0);
    lemma_not_prefix(name, "LGPL-".spec_bytes(), 0);
}

proof fn lemma_gnu_flag_30()
    ensures
        gnu_name("Apache-1.1".spec_bytes()) == (0x3u8 & IS_GNU != 0),
{
    lemma_gnu_bit(0x3);
    lemma_gnu_words();
    reveal_strlit("Apache-1.1");
    is_ascii_chars_encode_utf8("Apache-1.1"@);
    let name = "Apache-1.1".spec_bytes();
    lemma_not_prefix(name, "AGPL-".spec_bytes(), 1);
    lemma_not_prefix(name, "GFDL-".spec_bytes(), 0);
    lemma_not_prefix(name, "GPL-".spec_bytes(), 0);
    lemma_not_prefix(name, "LGPL-".spec_bytes(), 0);
}

proof fn lemma_gnu_flag_31()
    ensures
        gnu_name("Apache-2.0".spec_bytes()) == (0x3u8 & IS_GNU != 0),
{
    lemma_gnu_bit(0x3);
    lemma_gnu_words();
    reveal_strlit("Apache-2.0");
    is_ascii_chars_encode_utf8("Apache-2.0"@);
    let name = "Apache-2.0".spec_bytes();
    lemma_not_prefix(name, "AGPL-".spec_bytes(), 1);
    lemma_not_prefix(name, "GFDL-".spec_bytes(), 0);
    lemma_not_prefix(name, "GPL-".spec_bytes(), 0);
    lemma_not_prefix(name, "LGPL-".spec_bytes(), 0);
}

proof fn lemma_gnu_flag_32()
    ensures
        gnu_name("Artistic-1.0".spec_bytes()) == (0x2u8 & IS_GNU != 0),
{
    lemma_gnu_bit(0x2);
    lemma_gnu_words();
    reveal_strlit("Artistic-1.0");
    is_ascii_chars_encode_utf8("Artistic-1.0"@);
    let name = "Artistic-1.0".spec_bytes();
    lemma_not_prefix(name, "AGPL-".spec_bytes(), 1);
    lemma_not_prefix(name, "GFDL-".spec_bytes(), 0);
    lemma_not_prefix(name, "GPL-".spec_bytes(), 0);
    lemma_not_prefix(name, "LGPL-".spec_bytes(), 0);
}

proof fn lemma_gnu_flag_33()
    ensures
        gnu_name("Artistic-1.0-Perl".spec_bytes()) == (0x2u8 & IS_GNU != 0),
{
    lemma_gnu_bit(0x2);
    lemma_gnu_words();
    reveal_strlit("Artistic-1.0-Perl");
    is_ascii_chars_encode_utf8("Artistic-1.0-Perl"@);
    let name = "Artistic-1.0-Perl".spec_bytes();
    lemma_not_prefix(name, "AGPL-".spec_bytes(), 1);
    lemma_not_prefix(name, "GFDL-".spec_bytes(), 0);
    lemma_not_prefix(name, "GPL-".spec_bytes(), 0);
    lemma_not_prefix(name, "LGPL-".spec_bytes(), 0);
}

proof fn lemma_gnu_flag_34()
    ensures
        gnu_name("Artistic-1.0-cl8".spec_bytes()) == (0x2u8 & IS_GNU != 0),
{
    lemma_gnu_bit(0x2);
    lemma_gnu_words();
    reveal_strlit("Artistic-1.0-cl8");
    is_ascii_chars_encode_utf8("Artistic-1.0-cl8"@);
    let name = "Artistic-1.0-cl8".spec_bytes();
    lemma_not_prefix(name, "AGPL-".spec_bytes(), 1);
    lemma_not_prefix(name, "GFDL-".spec_bytes(), 0);
    lemma_not_prefix(name, "GPL-".spec_bytes(), 0);
    lemma_not_prefix(name, "LGPL-".spec_bytes(), 0);
}

proof fn lemma_gnu_flag_35()
    ensures
        gnu_name("Artistic-2.0".spec_bytes()) == (0x3u8 & IS_GNU != 0),
{
    lemma_gnu_bit(0x3);
    lemma_gnu_words();
    reveal_strlit("Artistic-2.0");
    is_ascii_chars_encode_utf8("Artistic-2.0"@);
    let name = "Artistic-2.0".spec_bytes();
    lemma_not_prefix(name, "AGPL-".spec_bytes(), 1);
    lemma_not_prefix(name, "GFDL-".spec_bytes(), 0);
    lemma_not_prefix(name, "GPL-".spec_bytes(), 0);
    lemma_not_prefix(name, "LGPL-".spec_bytes(), 0);
}

proof fn lemma_gnu_flag_36()
    ensures
        gnu_name("BSD-1-Clause".spec_bytes()) == (0x0u8 & IS_GNU != 0),
{
    lemma_gnu_bit(0x0);
    lemma_gnu_words();
    reveal_strlit("BSD-1-Clause");
    is_ascii_chars_encode_utf8("BSD-1-Clause"@);
    let name = "BSD-1-Clause".spec_bytes();
    lemma_not_prefix(name, "AGPL-".spec_bytes(), 0);
    lemma_not_prefix(name, "GFDL-".spec_bytes(), 0);
    lemma_not_prefix(name, "GPL-".spec_bytes(), 0);
    lemma_not_prefix(name, "LGPL-".spec_bytes(), 0);
}

proof fn lemma_gnu_flag_37()
    ensures
        gnu_name("BSD-2-Clause".spec_bytes()) == (0x2u8 & IS_GNU != 0),
{
    lemma_gnu_bit(0x2);
    lemma_gnu_words();
    reveal_strlit("BSD-2-Clause");
    is_ascii_chars_encode_utf8("BSD-2-Clause"@);
    let name = "BSD-2-Clause".spec_bytes();
    lemma_not_prefix(name, "AGPL-".spec_bytes(), 0);
    lemma_not_prefix(name, "GFDL-".spec_bytes(), 0);
    lemma_not_prefix(name, "GPL-".spec_bytes(), 0);
    lemma_not_prefix(name, "LGPL-".spec_bytes(), 0);
}

proof fn lemma_gnu_flag_38()
    ensures
        gnu_name("BSD-2-Clause-FreeBSD".spec_bytes()) == (0x1u8 & IS_GNU != 0),
{
    lemma_gnu_bit(0x1);
    lemma_gnu_words();
    reveal_strlit("BSD-2-Clause-FreeBSD");
    is_ascii_chars_encode_utf8("BSD-2-Clause-FreeBSD"@);
    let name = "BSD-2-Clause-FreeBSD".spec_bytes();
    lemma_not_prefix(name, "AGPL-".spec_bytes(), 0);
    lemma_not_prefix(name, "GFDL-".spec_bytes(), 0);
    lemma_not_prefix(name, "GPL-".spec_bytes(), 0);
    lemma_not_prefix(name, "LGPL-".spec_bytes(), 0);
}

proof fn lemma_gnu_flag_39()
    ensures
        gnu_name("BSD-2-Clause-NetBSD".spec_bytes()) == (0x0u8 & IS_GNU != 0),
{
    lemma_gnu_bit(0x0);
    lemma_gnu_words();
    reveal_strlit("BSD-2-Clause-NetBSD");
    is_ascii_chars_encode_utf8("BSD-2-Clause-NetBSD"@);
    let name = "BSD-2-Clause-NetBSD".spec_bytes();
    lemma_not_prefix(name, "AGPL-".spec_bytes(), 0);
    lemma_not_prefix(name, "GFDL-".spec_bytes(), 0);
    lemma_not_prefix(name, "GPL-".spec_bytes(), 0);
    lemma_not_prefix(name, "LGPL-".spec_bytes(), 0);
}

proof fn lemma_gnu_flag_40()
    ensures
        gnu_name("BSD-2-Clause-Patent".spec_bytes()) == (0x2u8 & IS_GNU != 0),
{
    lemma_gnu_bit(0x2);
    lemma_gnu_words();
    reveal_strlit("BSD-2-Clause-Patent");
    is_ascii_chars_encode_utf8("BSD-2-Clause-Patent"@);
    let name = "BSD-2-Clause-Patent".spec_bytes();
    lemma_not_prefix(name, "AGPL-".spec_bytes(), 0);
    lemma_not_prefix(name, "GFDL-".spec_bytes(), 0);
    lemma_not_prefix(name, "GPL-".spec_bytes(), 0);
    lemma_not_prefix(name, "LGPL-".spec_bytes(), 0);
}

proof fn lemma_gnu_flag_41()
    ensures
        gnu_name("BSD-3-Clause".spec_bytes()) == (0x3u8 & IS_GNU != 0),
{
    lemma_gnu_bit(0x3);
    lemma_gnu_words();
    reveal_strlit("BSD-3-Clause");
    is_ascii_chars_encode_utf8("BSD-3-Clause"@);
    let name = "BSD-3-Clause".spec_bytes();
    lemma_not_prefix(name, "AGPL-".spec_bytes(), 0);
    lemma_not_prefix(name, "GFDL-".spec_bytes(), 0);
    lemma_not_prefix(name, "GPL-".spec_bytes(), 0);
    lemma_not_prefix(name, "LGPL-".spec_bytes(), 0);
}

proof fn lemma_gnu_flag_42()
    ensures
        gnu_name("BSD-3-Clause-Attribution".spec_bytes()) == (0x0u8 & IS_GNU != 0),
{
    lemma_gnu_bit(0x0);
    lemma_gnu_words();
    reveal_strlit("BSD-3-Clause-Attribution");
    is_ascii_chars_encode_utf8("BSD-3-Clause-Attribution"@);
    let name = "BSD-3-Clause-Attribution".spec_bytes();
    lemma_not_prefix(name, "AGPL-".spec_bytes(), 0);
    lemma_not_prefix(name, "GFDL-".spec_bytes(), 0);
    lemma_not_prefix(name, "GPL-".spec_bytes(), 0);
    lemma_not_prefix(name, "LGPL-".spec_bytes(), 0);
}

proof fn lemma_gnu_flag_43()
    ensures
        gnu_name("BSD-3-Clause-Clear".spec_bytes()) == (0x1u8 & IS_GNU != 0),
{
    lemma_gnu_bit(0x1);
    lemma_gnu_words();
    reveal_strlit("BSD-3-Clause-Clear");
    is_ascii_chars_encode_utf8("BSD-3-Clause-Clear"@);
    let name = "BSD-3-Clause-Clear".spec_bytes();
    lemma_not_prefix(name, "AGPL-".spec_bytes(), 0);
    lemma_not_prefix(name, "GFDL-".spec_bytes(), 0);
    lemma_not_prefix(name, "GPL-".spec_bytes(), 0);
    lemma_not_prefix(name, "LGPL-".spec_bytes(), 0);
}

proof fn lemma_gnu_flag_44()
    ensures
        gnu_name("BSD-3-Clause-LBNL".spec_bytes()) == (0x2u8 & IS_GNU != 0),
{
    lemma_gnu_bit(0x2);
    lemma_gnu_words();
    reveal_strlit("BSD-3-Clause-LBNL");
    is_ascii_chars_encode_utf8("BSD-3-Clause-LBNL"@);
    let name = "BSD-3-Clause-LBNL".spec_bytes();
    lemma_not_prefix(name, "AGPL-".spec_bytes(), 0);
    lemma_not_prefix(name, "GFDL-".spec_bytes(), 0);
    lemma_not_prefix(name, "GPL-".spec_bytes(), 0);
    lemma_not_prefix(name, "LGPL-".spec_bytes(), 0);
}

proof fn lemma_gnu_flag_45()
    ensures
        gnu_name("BSD-3-Clause-No-Nuclear-License".spec_bytes()) == (0x0u8 & IS_GNU != 0),
{
    lemma_gnu_bit(0x0);
    lemma_gnu_words();
    reveal_strlit("BSD-3-Clause-No-Nuclear-License");
    is_ascii_chars_encode_utf8("BSD-3-Clause-No-Nuclear-License"@);
    let name = "BSD-3-Clause-No-Nuclear-License".spec_bytes();
    lemma_not_prefix(name, "AGPL-".spec_bytes(), 0);
    lemma_not_prefix(name, "GFDL-".spec_bytes(), 0);
    lemma_not_prefix(name, "GPL-".spec_bytes(), 0);
    lemma_not_prefix(name, "LGPL-".spec_bytes(), 0);
}

proof fn lemma_gnu_flag_46()
    ensures
        gnu_name("BSD-3-Clause-No-Nuclear-License-2014".spec_bytes()) == (0x0u8 & IS_GNU != 0),
{
    lemma_gnu_bit(0x0);
    lemma_gnu_words();
    reveal_strlit("BSD-3-Clause-No-Nuclear-License-2014");
    is_ascii_chars_encode_utf8("BSD-3-Clause-No-Nuclear-License-2014"@);
    let name = "BSD-3-Clause-No-Nuclear-License-2014".spec_bytes();
    lemma_not_prefix(name, "AGPL-".spec_bytes(), 0);
    lemma_not_prefix(name, "GFDL-".spec_bytes(), 0);
    lemma_not_prefix(name, "GPL-".spec_bytes(), 0);
    lemma_not_prefix(name, "LGPL-".spec_bytes(), 0);
}

proof fn lemma_gnu_flag_47()
    ensures
        gnu_name("BSD-3-Clause-No-Nuclear-Warranty".spec_bytes()) == (0x0u8 & IS_GNU != 0),
{
    lemma_gnu_bit(0x0);
    lemma_gnu_words();
    reveal_strlit("BSD-3-Clause-No-Nuclear-Warranty");
    is_ascii_chars_encode_utf8("BSD-3-Clause-No-Nuclear-Warranty"@);
    let name = "BSD-3-Clause-No-Nuclear-Warranty".spec_bytes();
    lemma_not_prefix(name, "AGPL-".spec_bytes(), 0);
    lemma_not_prefix(name, "GFDL-".spec_bytes(), 0);
    lemma_not_prefix(name, "GPL-".spec_bytes(), 0);
    lemma_not_prefix(name, "LGPL-".spec_bytes(), 0);
}

proof fn lemma_gnu_flag_48()
    ensures
        gnu_name("BSD-3-Clause-Open-MPI".spec_bytes()) == (0x0u8 & IS_GNU != 0),
{
    lemma_gnu_bit(0x0);
    lemma_gnu_words();
    reveal_strlit("BSD-3-Clause-Open-MPI");
    is_ascii_chars_encode_utf8("BSD-3-Clause-Open-MPI"@);
    let name = "BSD-3-Clause-Open-MPI".spec_bytes();
    lemma_not_prefix(name, "AGPL-".spec_bytes(), 0);
    lemma_not_prefix(name, "GFDL-".spec_bytes(), 0);
    lemma_not_prefix(name, "GPL-".spec_bytes(), 0);
    lemma_not_prefix(name, "LGPL-".spec_bytes(), 0);
}

proof fn lemma_gnu_flag_49()
    ensures
        gnu_name("BSD-4-Clause".spec_bytes()) == (0x1u8 & IS_GNU != 0),
{
    lemma_gnu_bit(0x1);
    lemma_gnu_words();
    reveal_strlit("BSD-4-Clause");
    is_ascii_chars_encode_utf8("BSD-4-Clause"@);
    let name = "BSD-4-Clause".spec_bytes();
    lemma_not_prefix(name, "AGPL-".spec_bytes(), 0);
    lemma_not_prefix(name, "GFDL-".spec_bytes(), 0);
    lemma_not_prefix(name, "GPL-".spec_bytes(), 0);
    lemma_not_prefix(name, "LGPL-".spec_bytes(), 0);
}

proof fn lemma_gnu_flag_50()
    ensures
        gnu_name("BSD-4-Clause-UC".spec_bytes()) == (0x0u8 & IS_GNU != 0),
{
    lemma_gnu_bit(0x0);
    lemma_gnu_words();
    reveal_strlit("BSD-4-Clause-UC");
    is_ascii_chars_encode_utf8("BSD-4-Clause-UC"@);
    let name = "BSD-4-Clause-UC".spec_bytes();
    lemma_not_prefix(name, "AGPL-".spec_bytes(), 0);
    lemma_not_prefix(name, "GFDL-".spec_bytes(), 0);
    lemma_not_prefix(name, "GPL-".spec_bytes(), 0);
    lemma_not_prefix(name, "LGPL-".spec_bytes(), 0);
}

proof fn lemma_gnu_flag_51()
    ensures
        gnu_name("BSD-Protection".spec_bytes()) == (0x8u8 & IS_GNU != 0),
{
    lemma_gnu_bit(0x8);
    lemma_gnu_words();
    reveal_strlit("BSD-Protection");
    is_ascii_chars_encode_utf8("BSD-Protection"@);
    let name = "BSD-Protection".spec_bytes();
    lemma_not_prefix(name, "AGPL-".spec_bytes(), 0);
    lemma_not_prefix(name, "GFDL-".spec_bytes(), 0);
    lemma_not_prefix(name, "GPL-".spec_bytes(), 0);
    lemma_not_prefix(name, "LGPL-".spec_bytes(), 0);
}

proof fn lemma_gnu_flag_52()
    ensures
        gnu_name("BSD-Source-Code".spec_bytes()) == (0x0u8 & IS_GNU != 0),
{
    lemma_gnu_bit(0x0);
    lemma_gnu_words();
    reveal_strlit("BSD-Source-Code");
    is_ascii_chars_encode_utf8("BSD-Source-Code"@);
    let name = "BSD-Source-Code".spec_bytes();
    lemma_not_prefix(name, "AGPL-".spec_bytes(), 0);
    lemma_not_prefix(name, "GFDL-".spec_bytes(), 0);
    lemma_not_prefix(name, "GPL-".spec_bytes(), 0);
    lemma_not_prefix(name, "LGPL-".spec_bytes(), 0);
}

proof fn lemma_gnu_flag_53()
    ensures
        gnu_name("BSL-1.0".spec_bytes()) == (0x3u8 & IS_GNU != 0),
{
    lemma_gnu_bit(0x3);
    lemma_gnu_words();
    reveal_strlit("BSL-1.0");
    is_ascii_chars_encode_utf8("BSL-1.0"@);
    let name = "BSL-1.0".spec_bytes();
    lemma_not_prefix(name, "AGPL-".spec_bytes(), 0);
    lemma_not_prefix(name, "GFDL-".spec_bytes(), 0);
    lemma_not_prefix(name, "GPL-".spec_bytes(), 0);
    lemma_not_prefix(name, "LGPL-".spec_bytes(), 0);
}

proof fn lemma_gnu_flag_54()
    ensures
        gnu_name("Bahyph".spec_bytes()) == (0x0u8 & IS_GNU != 0),
{
    lemma_gnu_bit(0x0);
    lemma_gnu_words();
    reveal_strlit("Bahyph");
    is_ascii_chars_encode_utf8("Bahyph"@);
    let name = "Bahyph".spec_bytes();
    lemma_not_prefix(name, "AGPL-".spec_bytes(), 0);
    lemma_not_prefix(name, "GFDL-".spec_bytes(), 0);
    lemma_not_prefix(name, "GPL-".spec_bytes(), 0);
    lemma_not_prefix(name, "LGPL-".spec_bytes(), 0);
}

proof fn lemma_gnu_flag_55()
    ensures
        gnu_name("Barr".spec_bytes()) == (0x0u8 & IS_GNU != 0),
{
    lemma_gnu_bit(0x0);
    lemma_gnu_words();
    reveal_strlit("Barr");
    is_ascii_chars_encode_utf8("Barr"@);
    let name = "Barr".spec_bytes();
    lemma_not_prefix(name, "GPL-".spec_bytes(), 0);
}

proof fn lemma_gnu_flag_56()
    ensures
        gnu_name("Beerware".spec_bytes()) == (0x0u8 & IS_GNU != 0),
{
    lemma_gnu_bit(0x0);
    lemma_gnu_words();
    reveal_strlit("Beerware");
    is_ascii_chars_encode_utf8("Beerware"@);
    let name = "Beerware".spec_bytes();
    lemma_not_prefix(name, "AGPL-".spec_bytes(), 0);
    lemma_not_prefix(name, "GFDL-".spec_bytes(), 0);
    lemma_not_prefix(name, "GPL-".spec_bytes(), 0);
    lemma_not_prefix(name, "LGPL-".spec_bytes(), 0);
}

proof fn lemma_gnu_flag_57()
    ensures
        gnu_name("BitTorrent-1.0".spec_bytes()) == (0x0u8 & IS_GNU != 0),
{
    lemma_gnu_bit(0x0);
    lemma_gnu_words();
    reveal_strlit("BitTorrent-1.0");
    is_ascii_chars_encode_utf8("BitTorrent-1.0"@);
    let name = "BitTorrent-1.0".spec_bytes();
    lemma_not_prefix(name, "AGPL-".spec_bytes(), 0);
    lemma_not_prefix(name, "GFDL-".spec_bytes(), 0);
    lemma_not_prefix(name, "GPL-".spec_bytes(), 0);
    lemma_not_prefix(name, "LGPL-".spec_bytes(), 0);
}

proof fn lemma_gnu_flag_58()
    ensures
        gnu_name("BitTorrent-1.1".spec_bytes()) == (0x1u8 & IS_GNU != 0),
{
    lemma_gnu_bit(0x1);
    lemma_gnu_words();
    reveal_strlit("BitTorrent-1.1");
    is_ascii_chars_encode_utf8("BitTorrent-1.1"@);
    let name = "BitTorrent-1.1".spec_bytes();
    lemma_not_prefix(name, "AGPL-".spec_bytes(), 0);
    lemma_not_prefix(name, "GFDL-".spec_bytes(), 0);
    lemma_not_prefix(name, "GPL-".spec_bytes(), 0);
    lemma_not_prefix(name, "LGPL-".spec_bytes(), 0);
}

proof fn lemma_gnu_flag_59()
    ensures
        gnu_name("BlueOak-1.0.0".spec_bytes()) == (0x0u8 & IS_GNU != 0),
{
    lemma_gnu_bit(0x0);
    lemma_gnu_words();
    reveal_strlit("BlueOak-1.0.0");
    is_ascii_chars_encode_utf8("BlueOak-1.0.0"@);
    let name = "BlueOak-1.0.0".spec_bytes();
    lemma_not_prefix(name, "AGPL-".spec_bytes(), 0);
    lemma_not_prefix(name, "GFDL-".spec_bytes(), 0);
    lemma_not_prefix(name, "GPL-".spec_bytes(), 0);
    lemma_not_prefix(name, "LGPL-".spec_bytes(), 0);
}

proof fn lemma_gnu_flag_60()
    ensures
        gnu_name("Borceux".spec_bytes()) == (0x0u8 & IS_GNU != 0),
{
    lemma_gnu_bit(0x0);
    lemma_gnu_words();
    reveal_strlit("Borceux");
    is_ascii_chars_encode_utf8("Borceux"@);
    let name = "Borceux".spec_bytes();
    lemma_not_prefix(name, "AGPL-".spec_bytes(), 0);
    lemma_not_prefix(name, "GFDL-".spec_bytes(), 0);
    lemma_not_prefix(name, "GPL-".spec_bytes(), 0);
    lemma_not_prefix(name, "LGPL-".spec_bytes(), 0);
}

proof fn lemma_gnu_flag_61()
    ensures
        gnu_name("CATOSL-1.1".spec_bytes()) == (0x2u8 & IS_GNU != 0),
{
    lemma_gnu_bit(0x2);
    lemma_gnu_words();
    reveal_strlit("CATOSL-1.1");
    is_ascii_chars_encode_utf8("CATOSL-1.1"@);
    let name = "CATOSL-1.1".spec_bytes();
    lemma_not_prefix(name, "AGPL-".spec_bytes(), 0);
    lemma_not_prefix(name, "GFDL-".spec_bytes(), 0);
    lemma_not_prefix(name, "GPL-".spec_bytes(), 0);
    lemma_not_prefix(name, "LGPL-".spec_bytes(), 0);
}

proof fn lemma_gnu_flag_62()
    ensures
        gnu_name("CC-BY-1.0".spec_bytes()) == (0x0u8 & IS_GNU != 0),
{
    lemma_gnu_bit(0x0);
    lemma_gnu_words();
    reveal_strlit("CC-BY-1.0");
    is_ascii_chars_encode_utf8("CC-BY-1.0"@);
    let name = "CC-BY-1.0".spec_bytes();
    lemma_not_prefix(name, "AGPL-".spec_bytes(), 0);
    lemma_not_prefix(name, "GFDL-".spec_bytes(), 0);
    lemma_not_prefix(name, "GPL-".spec_bytes(), 0);
    lemma_not_prefix(name, "LGPL-".spec_bytes(), 0);
}

proof fn lemma_gnu_flag_63()
    ensures
        gnu_name("CC-BY-2.0".spec_bytes()) == (0x0u8 & IS_GNU != 0),
{
    lemma_gnu_bit(0x0);
    lemma_gnu_words();
    reveal_strlit("CC-BY-2.0");
    is_ascii_chars_encode_utf8("CC-BY-2.0"@);
    let name = "CC-BY-2.0".spec_bytes();
    lemma_not_prefix(name, "AGPL-".spec_bytes(), 0);
    lemma_not_prefix(name, "GFDL-".spec_bytes(), 0);
    lemma_not_prefix(name, "GPL-".spec_bytes(), 0);
    lemma_not_prefix(name, "LGPL-".spec_bytes(), 0);
}

proof fn lemma_gnu_flag_64()
    ensures
        gnu_name("CC-BY-2.5".spec_bytes()) == (0x0u8 & IS_GNU != 0),
{
    lemma_gnu_bit(0x0);
    lemma_gnu_words();
    reveal_strlit("CC-BY-2.5");
    is_ascii_chars_encode_utf8("CC-BY-2.5"@);
    let name = "CC-BY-2.5".spec_bytes();
    lemma_not_prefix(name, "AGPL-".spec_bytes(), 0);
    lemma_not_prefix(name, "GFDL-".spec_bytes(), 0);
    lemma_not_prefix(name, "GPL-".spec_bytes(), 0);
    lemma_not_prefix(name, "LGPL-".spec_bytes(), 0);
}

proof fn lemma_gnu_flag_65()
    ensures
        gnu_name("CC-BY-3.0".spec_bytes()) == (0x0u8 & IS_GNU != 0),
{
    lemma_gnu_bit(0x0);
    lemma_gnu_words();
    reveal_strlit("CC-BY-3.0");
    is_ascii_chars_encode_utf8("CC-BY-3.0"@);
    let name = "CC-BY-3.0".spec_bytes();
    lemma_not_prefix(name, "AGPL-".spec_bytes(), 0);
    lemma_not_prefix(name, "GFDL-".spec_bytes(), 0);
    lemma_not_prefix(name, "GPL-".spec_bytes(), 0);
    lemma_not_prefix(name, "LGPL-".spec_bytes(), 0);
}

proof fn lemma_gnu_flag_66()
    ensures
        gnu_name("CC-BY-4.0".spec_bytes()) == (0x1u8 & IS_GNU != 0),
{
    lemma_gnu_bit(0x1);
    lemma_gnu_words();
    reveal_strlit("CC-BY-4.0");
    is_ascii_chars_encode_utf8("CC-BY-4.0"@);
    let name = "CC-BY-4.0".spec_bytes();
    lemma_not_prefix(name, "AGPL-".spec_bytes(), 0);
    lemma_not_prefix(name, "GFDL-".spec_bytes(), 0);
    lemma_not_prefix(name, "GPL-".spec_bytes(), 0);
    lemma_not_prefix(name, "LGPL-".spec_bytes(), 0);
}

proof fn lemma_gnu_flag_67()
    ensures
        gnu_name("CC-BY-NC-1.0".spec_bytes()) == (0x0u8 & IS_GNU != 0),
{
    lemma_gnu_bit(0x0);
    lemma_gnu_words();
    reveal_strlit("CC-BY-NC-1.0");
    is_ascii_chars_encode_utf8("CC-BY-NC-1.0"@);
    let name = "CC-BY-NC-1.0".spec_bytes();
    lemma_not_prefix(name, "AGPL-".spec_bytes(), 0);
    lemma_not_prefix(name, "GFDL-".spec_bytes(), 0);
    lemma_not_prefix(name, "GPL-".spec_bytes(), 0);
    lemma_not_prefix(name, "LGPL-".spec_bytes(), 0);
}

proof fn lemma_gnu_flag_68()
    ensures
        gnu_name("CC-BY-NC-2.0".spec_bytes()) == (0x0u8 & IS_GNU != 0),
{
    lemma_gnu_bit(0x0);
    lemma_gnu_words();
    reveal_strlit("CC-BY-NC-2.0");
    is_ascii_chars_encode_utf8("CC-BY-NC-2.0"@);
    let name = "CC-BY-NC-2.0".spec_bytes();
    lemma_not_prefix(name, "AGPL-".spec_bytes(), 0);
    lemma_not_prefix(name, "GFDL-".spec_bytes(), 0);
    lemma_not_prefix(name, "GPL-".spec_bytes(), 0);
    lemma_not_prefix(name, "LGPL-".spec_bytes(), 0);
}

proof fn lemma_gnu_flag_69()
    ensures
        gnu_name("CC-BY-NC-2.5".spec_bytes()) == (0x0u8 & IS_GNU != 0),
{
    lemma_gnu_bit(0x0);
    lemma_gnu_words();
    reveal_strlit("CC-BY-NC-2.5");
    is_ascii_chars_encode_utf8("CC-BY-NC-2.5"@);
    let name = "CC-BY-NC-2.5".spec_bytes();
    lemma_not_prefix(name, "AGPL-".spec_bytes(), 0);
    lemma_not_prefix(name, "GFDL-".spec_bytes(), 0);
    lemma_not_prefix(name, "GPL-".spec_bytes(), 0);
    lemma_not_prefix(name, "LGPL-".spec_bytes(), 0);
}

proof fn lemma_gnu_flag_70()
    ensures
        gnu_name("CC-BY-NC-3.0".spec_bytes()) == (0x0u8 & IS_GNU != 0),
{
    lemma_gnu_bit(0x0);
    lemma_gnu_words();
    reveal_strlit("CC-BY-NC-3.0");
    is_ascii_chars_encode_utf8("CC-BY-NC-3.0"@);
    let name = "CC-BY-NC-3.0".spec_bytes();
    lemma_not_prefix(name, "AGPL-".spec_bytes(), 0);
    lemma_not_prefix(name, "GFDL-".spec_bytes(), 0);
    lemma_not_prefix(name, "GPL-".spec_bytes(), 0);
    lemma_not_prefix(name, "LGPL-".spec_bytes(), 0);
}

proof fn lemma_gnu_flag_71()
    ensures
        gnu_name("CC-BY-NC-4.0".spec_bytes()) == (0x0u8 & IS_GNU != 0),
{
    lemma_gnu_bit(0x0);
    lemma_gnu_words();
    reveal_strlit("CC-BY-NC-4.0");
    is_ascii_chars_encode_utf8("CC-BY-NC-4.0"@);
    let name = "CC-BY-NC-4.0".spec_bytes();
    lemma_not_prefix(name, "AGPL-".spec_bytes(), 0);
    lemma_not_prefix(name, "GFDL-".spec_bytes(), 0);
    lemma_not_prefix(name, "GPL-".spec_bytes(), 0);
    lemma_not_prefix(name, "LGPL-".spec_bytes(), 0);
}

proof fn lemma_gnu_flag_72()
    ensures
        gnu_name("CC-BY-NC-ND-1.0".spec_bytes()) == (0x0u8 & IS_GNU != 0),
{
    lemma_gnu_bit(0x0);
    lemma_gnu_words();
    reveal_strlit("CC-BY-NC-ND-1.0");
    is_ascii_chars_encode_utf8("CC-BY-NC-ND-1.0"@);
    let name = "CC-BY-NC-ND-1.0".spec_bytes();
    lemma_not_prefix(name, "AGPL-".spec_bytes(), 0);
    lemma_not_prefix(name, "GFDL-".spec_bytes(), 0);
    lemma_not_prefix(name, "GPL-".spec_bytes(), 0);
    lemma_not_prefix(name, "LGPL-".spec_bytes(), 0);
}

proof fn lemma_gnu_flag_73()
    ensures
        gnu_name("CC-BY-NC-ND-2.0".spec_bytes()) == (0x0u8 & IS_GNU != 0),
{
    lemma_gnu_bit(0x0);
    lemma_gnu_words();
    reveal_strlit("CC-BY-NC-ND-2.0");
    is_ascii_chars_encode_utf8("CC-BY-NC-ND-2.0"@);
    let name = "CC-BY-NC-ND-2.0".spec_bytes();
    lemma_not_prefix(name, "AGPL-".spec_bytes(), 0);
    lemma_not_prefix(name, "GFDL-".spec_bytes(), 0);
    lemma_not_prefix(name, "GPL-".spec_bytes(), 0);
    lemma_not_prefix(name, "LGPL-".spec_bytes(), 0);
}

proof fn lemma_gnu_flag_74()
    ensures
        gnu_name("CC-BY-NC-ND-2.5".spec_bytes()) == (0x0u8 & IS_GNU != 0),
{
    lemma_gnu_bit(0x0);
    lemma_gnu_words();
    reveal_strlit("CC-BY-NC-ND-2.5");
    is_ascii_chars_encode_utf8("CC-BY-NC-ND-2.5"@);
    let name = "CC-BY-NC-ND-2.5".spec_bytes();
    lemma_not_prefix(name, "AGPL-".spec_bytes(), 0);
    lemma_not_prefix(name, "GFDL-".spec_bytes(), 0);
    lemma_not_prefix(name, "GPL-".spec_bytes(), 0);
    lemma_not_prefix(name, "LGPL-".spec_bytes(), 0);
}

proof fn lemma_gnu_flag_75()
    ensures
        gnu_name("CC-BY-NC-ND-3.0".spec_bytes()) == (0x0u8 & IS_GNU != 0),
{
    lemma_gnu_bit(0x0);
    lemma_gnu_words();
    reveal_strlit("CC-BY-NC-ND-3.0");
    is_ascii_chars_encode_utf8("CC-BY-NC-ND-3.0"@);
    let name = "CC-BY-NC-ND-3.0".spec_bytes();
    lemma_not_prefix(name, "AGPL-".spec_bytes(), 0);
    lemma_not_prefix(name, "GFDL-".spec_bytes(), 0);
    lemma_not_prefix(name, "GPL-".spec_bytes(), 0);
    lemma_not_prefix(name, "LGPL-".spec_bytes(), 0);
}

proof fn lemma_gnu_flag_76()
    ensures
        gnu_name("CC-BY-NC-ND-4.0".spec_bytes()) == (0x0u8 & IS_GNU != 0),
{
    lemma_gnu_bit(0x0);
    lemma_gnu_words();
    reveal_strlit("CC-BY-NC-ND-4.0");
    is_ascii_chars_encode_utf8("CC-BY-NC-ND-4.0"@);
    let name = "CC-BY-NC-ND-4.0".spec_bytes();
    lemma_not_prefix(name, "AGPL-".spec_bytes(), 0);
    lemma_not_prefix(name, "GFDL-".spec_bytes(), 0);
    lemma_not_prefix(name, "GPL-".spec_bytes(), 0);
    lemma_not_prefix(name, "LGPL-".spec_bytes(), 0);
}

proof fn lemma_gnu_flag_77()
    ensures
        gnu_name("CC-BY-NC-SA-1.0".spec_bytes()) == (0x8u8 & IS_GNU != 0),
{
    lemma_gnu_bit(0x8);
    lemma_gnu_words();
    reveal_strlit("CC-BY-NC-SA-1.0");
    is_ascii_chars_encode_utf8("CC-BY-NC-SA-1.0"@);
    let name = "CC-BY-NC-SA-1.0".spec_bytes();
    lemma_not_prefix(name, "AGPL-".spec_bytes(), 0);
    lemma_not_prefix(name, "GFDL-".spec_bytes(), 0);
    lemma_not_prefix(name, "GPL-".spec_bytes(), 0);
    lemma_not_prefix(name, "LGPL-".spec_bytes(), 0);
}

proof fn lemma_gnu_flag_78()
    ensures
        gnu_name("CC-BY-NC-SA-2.0".spec_bytes()) == (0x8u8 & IS_GNU != 0),
{
    lemma_gnu_bit(0x8);
    lemma_gnu_words();
    reveal_strlit("CC-BY-NC-SA-2.0");
    is_ascii_chars_encode_utf8("CC-BY-NC-SA-2.0"@);
    let name = "CC-BY-NC-SA-2.0".spec_bytes();
    lemma_not_prefix(name, "AGPL-".spec_bytes(), 0);
    lemma_not_prefix(name, "GFDL-".spec_bytes(), 0);
    lemma_not_prefix(name, "GPL-".spec_bytes(), 0);
    lemma_not_prefix(name, "LGPL-".spec_bytes(), 0);
}

proof fn lemma_gnu_flag_79()
    ensures
        gnu_name("CC-BY-NC-SA-2.5".spec_bytes()) == (0x8u8 & IS_GNU != 0),
{
    lemma_gnu_bit(0x8);
    lemma_gnu_words();
    reveal_strlit("CC-BY-NC-SA-2.5");
    is_ascii_chars_encode_utf8("CC-BY-NC-SA-2.5"@);
    let name = "CC-BY-NC-SA-2.5".spec_bytes();
    lemma_not_prefix(name, "AGPL-".spec_bytes(), 0);
    lemma_not_prefix(name, "GFDL-".spec_bytes(), 0);
    lemma_not_prefix(name, "GPL-".spec_bytes(), 0);
    lemma_not_prefix(name, "LGPL-".spec_bytes(), 0);
}

proof fn lemma_gnu_flag_80()
    ensures
        gnu_name("CC-BY-NC-SA-3.0".spec_bytes()) == (0x8u8 & IS_GNU != 0),
{
    lemma_gnu_bit(0x8);
    lemma_gnu_words();
    reveal_strlit("CC-BY-NC-SA-3.0");
    is_ascii_chars_encode_utf8("CC-BY-NC-SA-3.0"@);
    let name = "CC-BY-NC-SA-3.0".spec_bytes();
    lemma_not_prefix(name, "AGPL-".spec_bytes(), 0);
    lemma_not_prefix(name, "GFDL-".spec_bytes(), 0);
    lemma_not_prefix(name, "GPL-".spec_bytes(), 0);
    lemma_not_prefix(name, "LGPL-".spec_bytes(), 0);
}

proof fn lemma_gnu_flag_81()
    ensures
        gnu_name("CC-BY-NC-SA-4.0".spec_bytes()) == (0x8u8 & IS_GNU != 0),
{
    lemma_gnu_bit(0x8);
    lemma_gnu_words();
    reveal_strlit("CC-BY-NC-SA-4.0");
    is_ascii_chars_encode_utf8("CC-BY-NC-SA-4.0"@);
    let name = "CC-BY-NC-SA-4.0".spec_bytes();
    lemma_not_prefix(name, "AGPL-".spec_bytes(), 0);
    lemma_not_prefix(name, "GFDL-".spec_bytes(), 0);
    lemma_not_prefix(name, "GPL-".spec_bytes(), 0);
    lemma_not_prefix(name, "LGPL-".spec_bytes(), 0);
}

proof fn lemma_gnu_flag_82()
    ensures
        gnu_name("CC-BY-ND-1.0".spec_bytes()) == (0x0u8 & IS_GNU != 0),
{
    lemma_gnu_bit(0x0);
    lemma_gnu_words();
    reveal_strlit("CC-BY-ND-1.0");
    is_ascii_chars_encode_utf8("CC-BY-ND-1.0"@);
    let name = "CC-BY-ND-1.0".spec_bytes();
    lemma_not_prefix(name, "AGPL-".spec_bytes(), 0);
    lemma_not_prefix(name, "GFDL-".spec_bytes(), 0);
    lemma_not_prefix(name, "GPL-".spec_bytes(), 0);
    lemma_not_prefix(name, "LGPL-".spec_bytes(), 0);
}

proof fn lemma_gnu_flag_83()
    ensures
        gnu_name("CC-BY-ND-2.0".spec_bytes()) == (0x0u8 & IS_GNU != 0),
{
    lemma_gnu_bit(0x0);
    lemma_gnu_words();
    reveal_strlit("CC-BY-ND-2.0");
    is_ascii_chars_encode_utf8("CC-BY-ND-2.0"@);
    let name = "CC-BY-ND-2.0".spec_bytes();
    lemma_not_prefix(name, "AGPL-".spec_bytes(), 0);
    lemma_not_prefix(name, "GFDL-".spec_bytes(), 0);
    lemma_not_prefix(name, "GPL-".spec_bytes(), 0);
    lemma_not_prefix(name, "LGPL-".spec_bytes(), 0);
}

proof fn lemma_gnu_flag_84()
    ensures
        gnu_name("CC-BY-ND-2.5".spec_bytes()) == (0x0u8 & IS_GNU != 0),
{
    lemma_gnu_bit(0x0);
    lemma_gnu_words();
    reveal_strlit("CC-BY-ND-2.5");
    is_ascii_chars_encode_utf8("CC-BY-ND-2.5"@);
    let name = "CC-BY-ND-2.5".spec_bytes();
    lemma_not_prefix(name, "AGPL-".spec_bytes(), 0);
    lemma_not_prefix(name, "GFDL-".spec_bytes(), 0);
    lemma_not_prefix(name, "GPL-".spec_bytes(), 0);
    lemma_not_prefix(name, "LGPL-".spec_bytes(), 0);
}

proof fn lemma_gnu_flag_85()
    ensures
        gnu_name("CC-BY-ND-3.0".spec_bytes()) == (0x0u8 & IS_GNU != 0),
{
    lemma_gnu_bit(0x0);
    lemma_gnu_words();
    reveal_strlit("CC-BY-ND-3.0");
    is_ascii_chars_encode_utf8("CC-BY-ND-3.0"@);
    let name = "CC-BY-ND-3.0".spec_bytes();
    lemma_not_prefix(name, "AGPL-".spec_bytes(), 0);
    lemma_not_prefix(name, "GFDL-".spec_bytes(), 0);
    lemma_not_prefix(name, "GPL-".spec_bytes(), 0);
    lemma_not_prefix(name, "LGPL-".spec_bytes(), 0);
}

proof fn lemma_gnu_flag_86()
    ensures
        gnu_name("CC-BY-ND-4.0".spec_bytes()) == (0x0u8 & IS_GNU != 0),
{
    lemma_gnu_bit(0x0);
    lemma_gnu_words();
    reveal_strlit("CC-BY-ND-4.0");
    is_ascii_chars_encode_utf8("CC-BY-ND-4.0"@);
    let name = "CC-BY-ND-4.0".spec_bytes();
    lemma_not_prefix(name, "AGPL-".spec_bytes(), 0);
    lemma_not_prefix(name, "GFDL-".spec_bytes(), 0);
    lemma_not_prefix(name, "GPL-".spec_bytes(), 0);
    lemma_not_prefix(name, "LGPL-".spec_bytes(), 0);
}

proof fn lemma_gnu_flag_87()
    ensures
        gnu_name("CC-BY-SA-1.0".spec_bytes()) == (0x8u8 & IS_GNU != 0),
{
    lemma_gnu_bit(0x8);
    lemma_gnu_words();
    reveal_strlit("CC-BY-SA-1.0");
    is_ascii_chars_encode_utf8("CC-BY-SA-1.0"@);
    let name = "CC-BY-SA-1.0".spec_bytes();
    lemma_not_prefix(name, "AGPL-".spec_bytes(), 0);
    lemma_not_prefix(name, "GFDL-".spec_bytes(), 0);
    lemma_not_prefix(name, "GPL-".spec_bytes(), 0);
    lemma_not_prefix(name, "LGPL-".spec_bytes(), 0);
}

proof fn lemma_gnu_flag_88()
    ensures
        gnu_name("CC-BY-SA-2.0".spec_bytes()) == (0x8u8 & IS_GNU != 0),
{
    lemma_gnu_bit(0x8);
    lemma_gnu_words();
    reveal_strlit("CC-BY-SA-2.0");
    is_ascii_chars_encode_utf8("CC-BY-SA-2.0"@);
    let name = "CC-BY-SA-2.0".spec_bytes();
    lemma_not_prefix(name, "AGPL-".spec_bytes(), 0);
    lemma_not_prefix(name, "GFDL-".spec_bytes(), 0);
    lemma_not_prefix(name, "GPL-".spec_bytes(), 0);
    lemma_not_prefix(name, "LGPL-".spec_bytes(), 0);
}

proof fn lemma_gnu_flag_89()
    ensures
        gnu_name("CC-BY-SA-2.5".spec_bytes()) == (0x8u8 & IS_GNU != 0),
{
    lemma_gnu_bit(0x8);
    lemma_gnu_words();
    reveal_strlit("CC-BY-SA-2.5");
    is_ascii_chars_encode_utf8("CC-BY-SA-2.5"@);
    let name = "CC-BY-SA-2.5".spec_bytes();
    lemma_not_prefix(name, "AGPL-".spec_bytes(), 0);
    lemma_not_prefix(name, "GFDL-".spec_bytes(), 0);
    lemma_not_prefix(name, "GPL-".spec_bytes(), 0);
    lemma_not_prefix(name, "LGPL-".spec_bytes(), 0);
}

proof fn lemma_gnu_flag_90()
    ensures
        gnu_name("CC-BY-SA-3.0".spec_bytes()) == (0x8u8 & IS_GNU != 0),
{
    lemma_gnu_bit(0x8);
    lemma_gnu_words();
    reveal_strlit("CC-BY-SA-3.0");
    is_ascii_chars_encode_utf8("CC-BY-SA-3.0"@);
    let name = "CC-BY-SA-3.0".spec_bytes();
    lemma_not_prefix(name, "AGPL-".spec_bytes(), 0);
    lemma_not_prefix(name, "GFDL-".spec_bytes(), 0);
    lemma_not_prefix(name, "GPL-".spec_bytes(), 0);
    lemma_not_prefix(name, "LGPL-".spec_bytes(), 0);
}

proof fn lemma_gnu_flag_91()
    ensures
        gnu_name("CC-BY-SA-4.0".spec_bytes()) == (0x9u8 & IS_GNU != 0),
{
    lemma_gnu_bit(0x9);
    lemma_gnu_words();
    reveal_strlit("CC-BY-SA-4.0");
    is_ascii_chars_encode_utf8("CC-BY-SA-4.0"@);
    let name = "CC-BY-SA-4.0".spec_bytes();
    lemma_not_prefix(name, "AGPL-".spec_bytes(), 0);
    lemma_not_prefix(name, "GFDL-".spec_bytes(), 0);
    lemma_not_prefix(name, "GPL-".spec_bytes(), 0);
    lemma_not_prefix(name, "LGPL-".spec_bytes(), 0);
}

proof fn lemma_gnu_flag_92()
    ensures
        gnu_name("CC-PDDC".spec_bytes()) == (0x0u8 & IS_GNU != 0),
{
    lemma_gnu_bit(0x0);
    lemma_gnu_words();
    reveal_strlit("CC-PDDC");
    is_ascii_chars_encode_utf8("CC-PDDC"@);
    let name = "CC-PDDC".spec_bytes();
    lemma_not_prefix(name, "AGPL-".spec_bytes(), 0);
    lemma_not_prefix(name, "GFDL-".spec_bytes(), 0);
    lemma_not_prefix(name, "GPL-".spec_bytes(), 0);
    lemma_not_prefix(name, "LGPL-".spec_bytes(), 0);
}

proof fn lemma_gnu_flag_93()
    ensures
        gnu_name("CC0-1.0".spec_bytes()) == (0x1u8 & IS_GNU != 0),
{
    lemma_gnu_bit(0x1);
    lemma_gnu_words();
    reveal_strlit("CC0-1.0");
    is_ascii_chars_encode_utf8("CC0-1.0"@);
    let name = "CC0-1.0".spec_bytes();
    lemma_not_prefix(name, "AGPL-".spec_bytes(), 0);
    lemma_not_prefix(name, "GFDL-".spec_bytes(), 0);
    lemma_not_prefix(name, "GPL-".spec_bytes(), 0);
    lemma_not_prefix(name, "LGPL-".spec_bytes(), 0);
}

proof fn lemma_gnu_flag_94()
    ensures
        gnu_name("CDDL-1.0".spec_bytes()) == (0xbu8 & IS_GNU != 0),
{
    lemma_gnu_bit(0xb);
    lemma_gnu_words();
    reveal_strlit("CDDL-1.0");
    is_ascii_chars_encode_utf8("CDDL-1.0"@);
    let name = "CDDL-1.0".spec_bytes();
    lemma_not_prefix(name, "AGPL-".spec_bytes(), 0);
    lemma_not_prefix(name, "GFDL-".spec_bytes(), 0);
    lemma_not_prefix(name, "GPL-".spec_bytes(), 0);
    lemma_not_prefix(name, "LGPL-".spec_bytes(), 0);
}

proof fn lemma_gnu_flag_95()
    ensures
        gnu_name("CDDL-1.1".spec_bytes()) == (0x8u8 & IS_GNU != 0),
{
    lemma_gnu_bit(0x8);
    lemma_gnu_words();
    reveal_strlit("CDDL-1.1");
    is_ascii_chars_encode_utf8("CDDL-1.1"@);
    let name = "CDDL-1.1".spec_bytes();
    lemma_not_prefix(name, "AGPL-".spec_bytes(), 0);
    lemma_not_prefix(name, "GFDL-".spec_bytes(), 0);
    lemma_not_prefix(name, "GPL-".spec_bytes(), 0);
    lemma_not_prefix(name, "LGPL-".spec_bytes(), 0);
}

proof fn lemma_gnu_flag_96()
    ensures
        gnu_name("CDLA-Permissive-1.0".spec_bytes()) == (0x0u8 & IS_GNU != 0),
{
    lemma_gnu_bit(0x0);
    lemma_gnu_words();
    reveal_strlit("CDLA-Permissive-1.0");
    is_ascii_chars_encode_utf8("CDLA-Permissive-1.0"@);
    let name = "CDLA-Permissive-1.0".spec_bytes();
    lemma_not_prefix(name, "AGPL-".spec_bytes(), 0);
    lemma_not_prefix(name, "GFDL-".spec_bytes(), 0);
    lemma_not_prefix(name, "GPL-".spec_bytes(), 0);
    lemma_not_prefix(name, "LGPL-".spec_bytes(), 0);
}

proof fn lemma_gnu_flag_97()
    ensures
        gnu_name("CDLA-Sharing-1.0".spec_bytes()) == (0x0u8 & IS_GNU != 0),
{
    lemma_gnu_bit(0x0);
    lemma_gnu_words();
    reveal_strlit("CDLA-Sharing-1.0");
    is_ascii_chars_encode_utf8("CDLA-Sharing-1.0"@);
    let name = "CDLA-Sharing-1.0".spec_bytes();
    lemma_not_prefix(name, "AGPL-".spec_bytes(), 0);
    lemma_not_prefix(name, "GFDL-".spec_bytes(), 0);
    lemma_not_prefix(name, "GPL-".spec_bytes(), 0);
    lemma_not_prefix(name, "LGPL-".spec_bytes(), 0);
}

proof fn lemma_gnu_flag_98()
    ensures
        gnu_name("CECILL-1.0".spec_bytes()) == (0x8u8 & IS_GNU != 0),
{
    lemma_gnu_bit(0x8);
    lemma_gnu_words();
    reveal_strlit("CECILL-1.0");
    is_ascii_chars_encode_utf8("CECILL-1.0"@);
    let name = "CECILL-1.0".spec_bytes();
    lemma_not_prefix(name, "AGPL-".spec_bytes(), 0);
    lemma_not_prefix(name, "GFDL-".spec_bytes(), 0);
    lemma_not_prefix(name, "GPL-".spec_bytes(), 0);
    lemma_not_prefix(name, "LGPL-".spec_bytes(), 0);
}

proof fn lemma_gnu_flag_99()
    ensures
        gnu_name("CECILL-1.1".spec_bytes()) == (0x8u8 & IS_GNU != 0),
{
    lemma_gnu_bit(0x8);
    lemma_gnu_words();
    reveal_strlit("CECILL-1.1");
    is_ascii_chars_encode_utf8("CECILL-1.1"@);
    let name = "CECILL-1.1".spec_bytes();
    lemma_not_prefix(name, "AGPL-".spec_bytes(), 0);
    lemma_not_prefix(name, "GFDL-".spec_bytes(), 0);
    lemma_not_prefix(name, "GPL-".spec_bytes(), 0);
    lemma_not_prefix(name, "LGPL-".spec_bytes(), 0);
}

proof fn lemma_gnu_flag_100()
    ensures
        gnu_name("CECILL-2.0".spec_bytes()) == (0x9u8 & IS_GNU != 0),
{
    lemma_gnu_bit(0x9);
    lemma_gnu_words();
    reveal_strlit("CECILL-2.0");
    is_ascii_chars_encode_utf8("CECILL-2.0"@);
    let name = "CECILL-2.0".spec_bytes();
    lemma_not_prefix(name, "AGPL-".spec_bytes(), 0);
    lemma_not_prefix(name, "GFDL-".spec_bytes(), 0);
    lemma_not_prefix(name, "GPL-".spec_bytes(), 0);
    lemma_not_prefix(name, "LGPL-".spec_bytes(), 0);
}

proof fn lemma_gnu_flag_101()
    ensures
        gnu_name("CECILL-2.1".spec_bytes()) == (0xau8 & IS_GNU != 0),
{
    lemma_gnu_bit(0xa);
    lemma_gnu_words();
    reveal_strlit("CECILL-2.1");
    is_ascii_chars_encode_utf8("CECILL-2.1"@);
    let name = "CECILL-2.1".spec_bytes();
    lemma_not_prefix(name, "AGPL-".spec_bytes(), 0);
    lemma_not_prefix(name, "GFDL-".spec_bytes(), 0);
    lemma_not_prefix(name, "GPL-".spec_bytes(), 0);
    lemma_not_prefix(name, "LGPL-".spec_bytes(), 0);
}

proof fn lemma_gnu_flag_102()
    ensures
        gnu_name("CECILL-B".spec_bytes()) == (0x9u8 & IS_GNU != 0),
{
    lemma_gnu_bit(0x9);
    lemma_gnu_words();
    reveal_strlit("CECILL-B");
    is_ascii_chars_encode_utf8("CECILL-B"@);
    let name = "CECILL-B".spec_bytes();
    lemma_not_prefix(name, "AGPL-".spec_bytes(), 0);
    lemma_not_prefix(name, "GFDL-".spec_bytes(), 0);
    lemma_not_prefix(name, "GPL-".spec_bytes(), 0);
    lemma_not_prefix(name, "LGPL-".spec_bytes(), 0);
}

proof fn lemma_gnu_flag_103()
    ensures
        gnu_name("CECILL-C".spec_bytes()) == (0x9u8 & IS_GNU != 0),
{
    lemma_gnu_bit(0x9);
    lemma_gnu_words();
    reveal_strlit("CECILL-C");
    is_ascii_chars_encode_utf8("CECILL-C"@);
    let name = "CECILL-C".spec_bytes();
    lemma_not_prefix(name, "AGPL-".spec_bytes(), 0);
    lemma_not_prefix(name, "GFDL-".spec_bytes(), 0);
    lemma_not_prefix(name, "GPL-".spec_bytes(), 0);
    lemma_not_prefix(name, "LGPL-".spec_bytes(), 0);
}

proof fn lemma_gnu_flag_104()
    ensures
        gnu_name("CERN-OHL-1.1".spec_bytes()) == (0x0u8 & IS_GNU != 0),
{
    lemma_gnu_bit(0x0);
    lemma_gnu_words();
    reveal_strlit("CERN-OHL-1.1");
    is_ascii_chars_encode_utf8("CERN-OHL-1.1"@);
    let name = "CERN-OHL-1.1".spec_bytes();
    lemma_not_prefix(name, "AGPL-".spec_bytes(), 0);
    lemma_not_prefix(name, "GFDL-".spec_bytes(), 0);
    lemma_not_prefix(name, "GPL-".spec_bytes(), 0);
    lemma_not_prefix(name, "LGPL-".spec_bytes(), 0);
}

proof fn lemma_gnu_flag_105()
    ensures
        gnu_name("CERN-OHL-1.2".spec_bytes()) == (0x0u8 & IS_GNU != 0),
{
    lemma_gnu_bit(0x0);
    lemma_gnu_words();
    reveal_strlit("CERN-OHL-1.2");
    is_ascii_chars_encode_utf8("CERN-OHL-1.2"@);
    let name = "CERN-OHL-1.2".spec_bytes();
    lemma_not_prefix(name, "AGPL-".spec_bytes(), 0);
    lemma_not_prefix(name, "GFDL-".spec_bytes(), 0);
    lemma_not_prefix(name, "GPL-".spec_bytes(), 0);
    lemma_not_prefix(name, "LGPL-".spec_bytes(), 0);
}

proof fn lemma_gnu_flag_106()
    ensures
        gnu_name("CNRI-Jython".spec_bytes()) == (0x0u8 & IS_GNU != 0),
{
    lemma_gnu_bit(0x0);
    lemma_gnu_words();
    reveal_strlit("CNRI-Jython");
    is_ascii_chars_encode_utf8("CNRI-Jython"@);
    let name = "CNRI-Jython".spec_bytes();
    lemma_not_prefix(name, "AGPL-".spec_bytes(), 0);
    lemma_not_prefix(name, "GFDL-".spec_bytes(), 0);
    lemma_not_prefix(name, "GPL-".spec_bytes(), 0);
    lemma_not_prefix(name, "LGPL-".spec_bytes(), 0);
}

proof fn lemma_gnu_flag_107()
    ensures
        gnu_name("CNRI-Python".spec_bytes()) == (0x2u8 & IS_GNU != 0),
{
    lemma_gnu_bit(0x2);
    lemma_gnu_words();
    reveal_strlit("CNRI-Python");
    is_ascii_chars_encode_utf8("CNRI-Python"@);
    let name = "CNRI-Python".spec_bytes();
    lemma_not_prefix(name, "AGPL-".spec_bytes(), 0);
    lemma_not_prefix(name, "GFDL-".spec_bytes(), 0);
    lemma_not_prefix(name, "GPL-".spec_bytes(), 0);
    lemma_not_prefix(name, "LGPL-".spec_bytes(), 0);
}

proof fn lemma_gnu_flag_108()
    ensures
        gnu_name("CNRI-Python-GPL-Compatible".spec_bytes()) == (0x0u8 & IS_GNU != 0),
{
    lemma_gnu_bit(0x0);
    lemma_gnu_words();
    reveal_strlit("CNRI-Python-GPL-Compatible");
    is_ascii_chars_encode_utf8("CNRI-Python-GPL-Compatible"@);
    let name = "CNRI-Python-GPL-Compatible".spec_bytes();
    lemma_not_prefix(name, "AGPL-".spec_bytes(), 0);
    lemma_not_prefix(name, "GFDL-".spec_bytes(), 0);
    lemma_not_prefix(name, "GPL-".spec_bytes(), 0);
    lemma_not_prefix(name, "LGPL-".spec_bytes(), 0);
}

proof fn lemma_gnu_flag_109()
    ensures
        gnu_name("CPAL-1.0".spec_bytes()) == (0x3u8 & IS_GNU != 0),
{
    lemma_gnu_bit(0x3);
    lemma_gnu_words();
    reveal_strlit("CPAL-1.0");
    is_ascii_chars_encode_utf8("CPAL-1.0"@);
    let name = "CPAL-1.0".spec_bytes();
    lemma_not_prefix(name, "AGPL-".spec_bytes(), 0);
    lemma_not_prefix(name, "GFDL-".spec_bytes(), 0);
    lemma_not_prefix(name, "GPL-".spec_bytes(), 0);
    lemma_not_prefix(name, "LGPL-".spec_bytes(), 0);
}

proof fn lemma_gnu_flag_110()
    ensures
        gnu_name("CPL-1.0".spec_bytes()) == (0xbu8 & IS_GNU != 0),
{
    lemma_gnu_bit(0xb);
    lemma_gnu_words();
    reveal_strlit("CPL-1.0");
    is_ascii_chars_encode_utf8("CPL-1.0"@);
    let name = "CPL-1.0".spec_bytes();
    lemma_not_prefix(name, "AGPL-".spec_bytes(), 0);
    lemma_not_prefix(name, "GFDL-".spec_bytes(), 0);
    lemma_not_prefix(name, "GPL-".spec_bytes(), 0);
    lemma_not_prefix(name, "LGPL-".spec_bytes(), 0);
}

proof fn lemma_gnu_flag_111()
    ensures
        gnu_name("CPOL-1.02".spec_bytes()) == (0x0u8 & IS_GNU != 0),
{
    lemma_gnu_bit(0x0);
    lemma_gnu_words();
    reveal_strlit("CPOL-1.02");
    is_ascii_chars_encode_utf8("CPOL-1.02"@);
    let name = "CPOL-1.02".spec_bytes();
    lemma_not_prefix(name, "AGPL-".spec_bytes(), 0);
    lemma_not_prefix(name, "GFDL-".spec_bytes(), 0);
    lemma_not_prefix(name, "GPL-".spec_bytes(), 0);
    lemma_not_prefix(name, "LGPL-".spec_bytes(), 0);
}

proof fn lemma_gnu_flag_112()
    ensures
        gnu_name("CUA-OPL-1.0".spec_bytes()) == (0x2u8 & IS_GNU != 0),
{
    lemma_gnu_bit(0x2);
    lemma_gnu_words();
    reveal_strlit("CUA-OPL-1.0");
    is_ascii_chars_encode_utf8("CUA-OPL-1.0"@);
    let name = "CUA-OPL-1.0".spec_bytes();
    lemma_not_prefix(name, "AGPL-".spec_bytes(), 0);
    lemma_not_prefix(name, "GFDL-".spec_bytes(), 0);
    lemma_not_prefix(name, "GPL-".spec_bytes(), 0);
    lemma_not_prefix(name, "LGPL-".spec_bytes(), 0);
}

proof fn lemma_gnu_flag_113()
    ensures
        gnu_name("Caldera".spec_bytes()) == (0x0u8 & IS_GNU != 0),
{
    lemma_gnu_bit(0x0);
    lemma_gnu_words();
    reveal_strlit("Caldera");
    is_ascii_chars_encode_utf8("Caldera"@);
    let name = "Caldera".spec_bytes();
    lemma_not_prefix(name, "AGPL-".spec_bytes(), 0);
    lemma_not_prefix(name, "GFDL-".spec_bytes(), 0);
    lemma_not_prefix(name, "GPL-".spec_bytes(), 0);
    lemma_not_prefix(name, "LGPL-".spec_bytes(), 0);
}

proof fn lemma_gnu_flag_114()
    ensures
        gnu_name("ClArtistic".spec_bytes()) == (0x1u8 & IS_GNU != 0),
{
    lemma_gnu_bit(0x1);
    lemma_gnu_words();
    reveal_strlit("ClArtistic");
    is_ascii_chars_encode_utf8("ClArtistic"@);
    let name = "ClArtistic".spec_bytes();
    lemma_not_prefix(name, "AGPL-".spec_bytes(), 0);
    lemma_not_prefix(name, "GFDL-".spec_bytes(), 0);
    lemma_not_prefix(name, "GPL-".spec_bytes(), 0);
    lemma_not_prefix(name, "LGPL-".spec_bytes(), 0);
}

proof fn lemma_gnu_flag_115()
    ensures
        gnu_name("Condor-1.1".spec_bytes()) == (0x1u8 & IS_GNU != 0),
{
    lemma_gnu_bit(0x1);
    lemma_gnu_words();
    reveal_strlit("Condor-1.1");
    is_ascii_chars_encode_utf8("Condor-1.1"@);
    let name = "Condor-1.1".spec_bytes();
    lemma_not_prefix(name, "AGPL-".spec_bytes(), 0);
    lemma_not_prefix(name, "GFDL-".spec_bytes(), 0);
    lemma_not_prefix(name, "GPL-".spec_bytes(), 0);
    lemma_not_prefix(name, "LGPL-".spec_bytes(), 0);
}

proof fn lemma_gnu_flag_116()
    ensures
        gnu_name("Crossword".spec_bytes()) == (0x0u8 & IS_GNU != 0),
{
    lemma_gnu_bit(0x0);
    lemma_gnu_words();
    reveal_strlit("Crossword");
    is_ascii_chars_encode_utf8("Crossword"@);
    let name = "Crossword".spec_bytes();
    lemma_not_prefix(name, "AGPL-".spec_bytes(), 0);
    lemma_not_prefix(name, "GFDL-".spec_bytes(), 0);
    lemma_not_prefix(name, "GPL-".spec_bytes(), 0);
    lemma_not_prefix(name, "LGPL-".spec_bytes(), 0);
}

proof fn lemma_gnu_flag_117()
    ensures
        gnu_name("CrystalStacker".spec_bytes()) == (0x0u8 & IS_GNU != 0),
{
    lemma_gnu_bit(0x0);
    lemma_gnu_words();
    reveal_strlit("CrystalStacker");
    is_ascii_chars_encode_utf8("CrystalStacker"@);
    let name = "CrystalStacker".spec_bytes();
    lemma_not_prefix(name, "AGPL-".spec_bytes(), 0);
    lemma_not_prefix(name, "GFDL-".spec_bytes(), 0);
    lemma_not_prefix(name, "GPL-".spec_bytes(), 0);
    lemma_not_prefix(name, "LGPL-".spec_bytes(), 0);
}

proof fn lemma_gnu_flag_118()
    ensures
        gnu_name("Cube".spec_bytes()) == (0x0u8 & IS_GNU != 0),
{
    lemma_gnu_bit(0x0);
    lemma_gnu_words();
    reveal_strlit("Cube");
    is_ascii_chars_encode_utf8("Cube"@);
    let name = "Cube".spec_bytes();
    lemma_not_prefix(name, "GPL-".spec_bytes(), 0);
}

proof fn lemma_gnu_flag_119()
    ensures
        gnu_name("D-FSL-1.0".spec_bytes()) == (0x0u8 & IS_GNU != 0),
{
    lemma_gnu_bit(0x0);
    lemma_gnu_words();
    reveal_strlit("D-FSL-1.0");
    is_ascii_chars_encode_utf8("D-FSL-1.0"@);
    let name = "D-FSL-1.0".spec_bytes();
    lemma_not_prefix(name, "AGPL-".spec_bytes(), 0);
    lemma_not_prefix(name, "GFDL-".spec_bytes(), 0);
    lemma_not_prefix(name, "GPL-".spec_bytes(), 0);
    lemma_not_prefix(name, "LGPL-".spec_bytes(), 0);
}

proof fn lemma_gnu_flag_120()
    ensures
        gnu_name("DOC".spec_bytes()) == (0x0u8 & IS_GNU != 0),
{
    lemma_gnu_bit(0x0);
    lemma_gnu_words();
    reveal_strlit("DOC");
    is_ascii_chars_encode_utf8("DOC"@);
    let name = "DOC".spec_bytes();
}

proof fn lemma_gnu_flag_121()
    ensures
        gnu_name("DSDP".spec_bytes()) == (0x0u8 & IS_GNU != 0),
{
    lemma_gnu_bit(0x0);
    lemma_gnu_words();
    reveal_strlit("DSDP");
    is_ascii_chars_encode_utf8("DSDP"@);
    let name = "DSDP".spec_bytes();
    lemma_not_prefix(name, "GPL-".spec_bytes(), 0);
}

proof fn lemma_gnu_flag_122()
    ensures
        gnu_name("Dotseqn".spec_bytes()) == (0x0u8 & IS_GNU != 0),
{
    lemma_gnu_bit(0x0);
    lemma_gnu_words();
    reveal_strlit("Dotseqn");
    is_ascii_chars_encode_utf8("Dotseqn"@);
    let name = "Dotseqn".spec_bytes();
    lemma_not_prefix(name, "AGPL-".spec_bytes(), 0);
    lemma_not_prefix(name, "GFDL-".spec_bytes(), 0);
    lemma_not_prefix(name, "GPL-".spec_bytes(), 0);
    lemma_not_prefix(name, "LGPL-".spec_bytes(), 0);
}

proof fn lemma_gnu_flag_123()
    ensures
        gnu_name("ECL-1.0".spec_bytes()) == (0x2u8 & IS_GNU != 0),
{
    lemma_gnu_bit(0x2);
    lemma_gnu_words();
    reveal_strlit("ECL-1.0");
    is_ascii_chars_encode_utf8("ECL-1.0"@);
    let name = "ECL-1.0".spec_bytes();
    lemma_not_prefix(name, "AGPL-".spec_bytes(), 0);
    lemma_not_prefix(name, "GFDL-".spec_bytes(), 0);
    lemma_not_prefix(name, "GPL-".spec_bytes(), 0);
    lemma_not_prefix(name, "LGPL-".spec_bytes(), 0);
}

proof fn lemma_gnu_flag_124()
    ensures
        gnu_name("ECL-2.0".spec_bytes()) == (0x3u8 & IS_GNU != 0),
{
    lemma_gnu_bit(0x3);
    lemma_gnu_words();
    reveal_strlit("ECL-2.0");
    is_ascii_chars_encode_utf8("ECL-2.0"@);
    let name = "ECL-2.0".spec_bytes();
    lemma_not_prefix(name, "AGPL-".spec_bytes(), 0);
    lemma_not_prefix(name, "GFDL-".spec_bytes(), 0);
    lemma_not_prefix(name, "GPL-".spec_bytes(), 0);
    lemma_not_prefix(name, "LGPL-".spec_bytes(), 0);
}

proof fn lemma_gnu_flag_125()
    ensures
        gnu_name("EFL-1.0".spec_bytes()) == (0x2u8 & IS_GNU != 0),
{
    lemma_gnu_bit(0x2);
    lemma_gnu_words();
    reveal_strlit("EFL-1.0");
    is_ascii_chars_encode_utf8("EFL-1.0"@);
    let name = "EFL-1.0".spec_bytes();
    lemma_not_prefix(name, "AGPL-".spec_bytes(), 0);
    lemma_not_prefix(name, "GFDL-".spec_bytes(), 0);
    lemma_not_prefix(name, "GPL-".spec_bytes(), 0);
    lemma_not_prefix(name, "LGPL-".spec_bytes(), 0);
}

proof fn lemma_gnu_flag_126()
    ensures
        gnu_name("EFL-2.0".spec_bytes()) == (0x3u8 & IS_GNU != 0),
{
    lemma_gnu_bit(0x3);
    lemma_gnu_words();
    reveal_strlit("EFL-2.0");
    is_ascii_chars_encode_utf8("EFL-2.0"@);
    let name = "EFL-2.0".spec_bytes();
    lemma_not_prefix(name, "AGPL-".spec_bytes(), 0);
    lemma_not_prefix(name, "GFDL-".spec_bytes(), 0);
    lemma_not_prefix(name, "GPL-".spec_bytes(), 0);
    lemma_not_prefix(name, "LGPL-".spec_bytes(), 0);
}

proof fn lemma_gnu_flag_127()
    ensures
        gnu_name("EPL-1.0".spec_bytes()) == (0x3u8 & IS_GNU != 0),
{
    lemma_gnu_bit(0x3);
    lemma_gnu_words();
    reveal_strlit("EPL-1.0");
    is_ascii_chars_encode_utf8("EPL-1.0"@);
    let name = "EPL-1.0".spec_bytes();
    lemma_not_prefix(name, "AGPL-".spec_bytes(), 0);
    lemma_not_prefix(name, "GFDL-".spec_bytes(), 0);
    lemma_not_prefix(name, "GPL-".spec_bytes(), 0);
    lemma_not_prefix(name, "LGPL-".spec_bytes(), 0);
}

proof fn lemma_gnu_flag_128()
    ensures
        gnu_name("EPL-2.0".spec_bytes()) == (0x3u8 & IS_GNU != 0),
{
    lemma_gnu_bit(0x3);
    lemma_gnu_words();
    reveal_strlit("EPL-2.0");
    is_ascii_chars_encode_utf8("EPL-2.0"@);
    let name = "EPL-2.0".spec_bytes();
    lemma_not_prefix(name, "AGPL-".spec_bytes(), 0);
    lemma_not_prefix(name, "GFDL-".spec_bytes(), 0);
    lemma_not_prefix(name, "GPL-".spec_bytes(), 0);
    lemma_not_prefix(name, "LGPL-".spec_bytes(), 0);
}

proof fn lemma_gnu_flag_129()
    ensures
        gnu_name("EUDatagrid".spec_bytes()) == (0x3u8 & IS_GNU != 0),
{
    lemma_gnu_bit(0x3);
    lemma_gnu_words();
    reveal_strlit("EUDatagrid");
    is_ascii_chars_encode_utf8("EUDatagrid"@);
    let name = "EUDatagrid".spec_bytes();
    lemma_not_prefix(name, "AGPL-".spec_bytes(), 0);
    lemma_not_prefix(name, "GFDL-".spec_bytes(), 0);
    lemma_not_prefix(name, "GPL-".spec_bytes(), 0);
    lemma_not_prefix(name, "LGPL-".spec_bytes(), 0);
}

proof fn lemma_gnu_flag_130()
    ensures
        gnu_name("EUPL-1.0".spec_bytes()) == (0x8u8 & IS_GNU != 0),
{
    lemma_gnu_bit(0x8);
    lemma_gnu_words();
    reveal_strlit("EUPL-1.0");
    is_ascii_chars_encode_utf8("EUPL-1.0"@);
    let name = "EUPL-1.0".spec_bytes();
    lemma_not_prefix(name, "AGPL-".spec_bytes(), 0);
    lemma_not_prefix(name, "GFDL-".spec_bytes(), 0);
    lemma_not_prefix(name, "GPL-".spec_bytes(), 0);
    lemma_not_prefix(name, "LGPL-".spec_bytes(), 0);
}

proof fn lemma_gnu_flag_131()
    ensures
        gnu_name("EUPL-1.1".spec_bytes()) == (0xbu8 & IS_GNU != 0),
{
    lemma_gnu_bit(0xb);
    lemma_gnu_words();
    reveal_strlit("EUPL-1.1");
    is_ascii_chars_encode_utf8("EUPL-1.1"@);
    let name = "EUPL-1.1".spec_bytes();
    lemma_not_prefix(name, "AGPL-".spec_bytes(), 0);
    lemma_not_prefix(name, "GFDL-".spec_bytes(), 0);
    lemma_not_prefix(name, "GPL-".spec_bytes(), 0);
    lemma_not_prefix(name, "LGPL-".spec_bytes(), 0);
}

proof fn lemma_gnu_flag_132()
    ensures
        gnu_name("EUPL-1.2".spec_bytes()) == (0xbu8 & IS_GNU != 0),
{
    lemma_gnu_bit(0xb);
    lemma_gnu_words();
    reveal_strlit("EUPL-1.2");
    is_ascii_chars_encode_utf8("EUPL-1.2"@);
    let name = "EUPL-1.2".spec_bytes();
    lemma_not_prefix(name, "AGPL-".spec_bytes(), 0);
    lemma_not_prefix(name, "GFDL-".spec_bytes(), 0);
    lemma_not_prefix(name, "GPL-".spec_bytes(), 0);
    lemma_not_prefix(name, "LGPL-".spec_bytes(), 0);
}

proof fn lemma_gnu_flag_133()
    ensures
        gnu_name("Entessa".spec_bytes()) == (0x2u8 & IS_GNU != 0),
{
    lemma_gnu_bit(0x2);
    lemma_gnu_words();
    reveal_strlit("Entessa");
    is_ascii_chars_encode_utf8("Entessa"@);
    let name = "Entessa".spec_bytes();
    lemma_not_prefix(name, "AGPL-".spec_bytes(), 0);
    lemma_not_prefix(name, "GFDL-".spec_bytes(), 0);
    lemma_not_prefix(name, "GPL-".spec_bytes(), 0);
    lemma_not_prefix(name, "LGPL-".spec_bytes(), 0);
}

proof fn lemma_gnu_flag_134()
    ensures
        gnu_name("ErlPL-1.1".spec_bytes()) == (0x0u8 & IS_GNU != 0),
{
    lemma_gnu_bit(0x0);
    lemma_gnu_words();
    reveal_strlit("ErlPL-1.1");
    is_ascii_chars_encode_utf8("ErlPL-1.1"@);
    let name = "ErlPL-1.1".spec_bytes();
    lemma_not_prefix(name, "AGPL-".spec_bytes(), 0);
    lemma_not_prefix(name, "GFDL-".spec_bytes(), 0);
    lemma_not_prefix(name, "GPL-".spec_bytes(), 0);
    lemma_not_prefix(name, "LGPL-".spec_bytes(), 0);
}

proof fn lemma_gnu_flag_135()
    ensures
        gnu_name("Eurosym".spec_bytes()) == (0x0u8 & IS_GNU != 0),
{
    lemma_gnu_bit(0x0);
    lemma_gnu_words();
    reveal_strlit("Eurosym");
    is_ascii_chars_encode_utf8("Eurosym"@);
    let name = "Eurosym".spec_bytes();
    lemma_not_prefix(name, "AGPL-".spec_bytes(), 0);
    lemma_not_prefix(name, "GFDL-".spec_bytes(), 0);
    lemma_not_prefix(name, "GPL-".spec_bytes(), 0);
    lemma_not_prefix(name, "LGPL-".spec_bytes(), 0);
}

proof fn lemma_gnu_flag_136()
    ensures
        gnu_name("FSFAP".spec_bytes()) == (0x1u8 & IS_GNU != 0),
{
    lemma_gnu_bit(0x1);
    lemma_gnu_words();
    reveal_strlit("FSFAP");
    is_ascii_chars_encode_utf8("FSFAP"@);
    let name = "FSFAP".spec_bytes();
    lemma_not_prefix(name, "AGPL-".spec_bytes(), 0);
    lemma_not_prefix(name, "GFDL-".spec_bytes(), 0);
    lemma_not_prefix(name, "GPL-".spec_bytes(), 0);
    lemma_not_prefix(name, "LGPL-".spec_bytes(), 0);
}

proof fn lemma_gnu_flag_137()
    ensures
        gnu_name("FSFUL".spec_bytes()) == (0x0u8 & IS_GNU != 0),
{
    lemma_gnu_bit(0x0);
    lemma_gnu_words();
    reveal_strlit("FSFUL");
    is_ascii_chars_encode_utf8("FSFUL"@);
    let name = "FSFUL".spec_bytes();
    lemma_not_prefix(name, "AGPL-".spec_bytes(), 0);
    lemma_not_prefix(name, "GFDL-".spec_bytes(), 0);
    lemma_not_prefix(name, "GPL-".spec_bytes(), 0);
    lemma_not_prefix(name, "LGPL-".spec_bytes(), 0);
}

proof fn lemma_gnu_flag_138()
    ensures
        gnu_name("FSFULLR".spec_bytes()) == (0x0u8 & IS_GNU != 0),
{
    lemma_gnu_bit(0x0);
    lemma_gnu_words();
    reveal_strlit("FSFULLR");
    is_ascii_chars_encode_utf8("FSFULLR"@);
    let name = "FSFULLR".spec_bytes();
    lemma_not_prefix(name, "AGPL-".spec_bytes(), 0);
    lemma_not_prefix(name, "GFDL-".spec_bytes(), 0);
    lemma_not_prefix(name, "GPL-".spec_bytes(), 0);
    lemma_not_prefix(name, "LGPL-".spec_bytes(), 0);
}

proof fn lemma_gnu_flag_139()
    ensures
        gnu_name("FTL".spec_bytes()) == (0x1u8 & IS_GNU != 0),
{
    lemma_gnu_bit(0x1);
    lemma_gnu_words();
    reveal_strlit("FTL");
    is_ascii_chars_encode_utf8("FTL"@);
    let name = "FTL".spec_bytes();
}

proof fn lemma_gnu_flag_140()
    ensures
        gnu_name("Fair".spec_bytes()) == (0x2u8 & IS_GNU != 0),
{
    lemma_gnu_bit(0x2);
    lemma_gnu_words();
    reveal_strlit("Fair");
    is_ascii_chars_encode_utf8("Fair"@);
    let name = "Fair".spec_bytes();
    lemma_not_prefix(name, "GPL-".spec_bytes(), 0);
}

proof fn lemma_gnu_flag_141()
    ensures
        gnu_name("Frameworx-1.0".spec_bytes()) == (0x2u8 & IS_GNU != 0),
{
    lemma_gnu_bit(0x2);
    lemma_gnu_words();
    reveal_strlit("Frameworx-1.0");
    is_ascii_chars_encode_utf8("Frameworx-1.0"@);
    let name = "Frameworx-1.0".spec_bytes();
    lemma_not_prefix(name, "AGPL-".spec_bytes(), 0);
    lemma_not_prefix(name, "GFDL-".spec_bytes(), 0);
    lemma_not_prefix(name, "GPL-".spec_bytes(), 0);
    lemma_not_prefix(name, "LGPL-".spec_bytes(), 0);
}

proof fn lemma_gnu_flag_142()
    ensures
        gnu_name("FreeImage".spec_bytes()) == (0x0u8 & IS_GNU != 0),
{
    lemma_gnu_bit(0x0);
    lemma_gnu_words();
    reveal_strlit("FreeImage");
    is_ascii_chars_encode_utf8("FreeImage"@);
    let name = "FreeImage".spec_bytes();
    lemma_not_prefix(name, "AGPL-".spec_bytes(), 0);
    lemma_not_prefix(name, "GFDL-".spec_bytes(), 0);
    lemma_not_prefix(name, "GPL-".spec_bytes(), 0);
    lemma_not_prefix(name, "LGPL-".spec_bytes(), 0);
}

proof fn lemma_gnu_flag_143()
    ensures
        gnu_name("GFDL-1.1".spec_bytes()) == (0x1du8 & IS_GNU != 0),
{
    lemma_gnu_bit(0x1d);
    lemma_gnu_words();
    reveal_strlit("GFDL-1.1");
    is_ascii_chars_encode_utf8("GFDL-1.1"@);
    let name = "GFDL-1.1".spec_bytes();
    assert(name.subrange(0, 5) =~= "GFDL-".spec_bytes());
}

proof fn lemma_gnu_flag_144()
    ensures
        gnu_name("GFDL-1.1-invariants".spec_bytes()) == (0x18u8 & IS_GNU != 0),
{
    lemma_gnu_bit(0x18);
    lemma_gnu_words();
    reveal_strlit("GFDL-1.1-invariants");
    is_ascii_chars_encode_utf8("GFDL-1.1-invariants"@);
    let name = "GFDL-1.1-invariants".spec_bytes();
    assert(name.subrange(0, 5) =~= "GFDL-".spec_bytes());
}

proof fn lemma_gnu_flag_145()
    ensures
        gnu_name("GFDL-1.1-invariants-only".spec_bytes()) == (0x18u8 & IS_GNU != 0),
{
    lemma_gnu_bit(0x18);
    lemma_gnu_words();
    reveal_strlit("GFDL-1.1-invariants-only");
    is_ascii_chars_encode_utf8("GFDL-1.1-invariants-only"@);
    let name = "GFDL-1.1-invariants-only".spec_bytes();
    assert(name.subrange(0, 5) =~= "GFDL-".spec_bytes());
}

proof fn lemma_gnu_flag_146()
    ensures
        gnu_name("GFDL-1.1-invariants-or-later".spec_bytes()) == (0x18u8 & IS_GNU != 0),
{
    lemma_gnu_bit(0x18);
    lemma_gnu_words();
    reveal_strlit("GFDL-1.1-invariants-or-later");
    is_ascii_chars_encode_utf8("GFDL-1.1-invariants-or-later"@);
    let name = "GFDL-1.1-invariants-or-later".spec_bytes();
    assert(name.subrange(0, 5) =~= "GFDL-".spec_bytes());
}

proof fn lemma_gnu_flag_147()
    ensures
        gnu_name("GFDL-1.1-no-invariants-only".spec_bytes()) == (0x18u8 & IS_GNU != 0),
{
    lemma_gnu_bit(0x18);
    lemma_gnu_words();
    reveal_strlit("GFDL-1.1-no-invariants-only");
    is_ascii_chars_encode_utf8("GFDL-1.1-no-invariants-only"@);
    let name = "GFDL-1.1-no-invariants-only".spec_bytes();
    assert(name.subrange(0, 5) =~= "GFDL-".spec_bytes());
}

proof fn lemma_gnu_flag_148()
    ensures
        gnu_name("GFDL-1.1-no-invariants-or-later".spec_bytes()) == (0x18u8 & IS_GNU != 0),
{
    lemma_gnu_bit(0x18);
    lemma_gnu_words();
    reveal_strlit("GFDL-1.1-no-invariants-or-later");
    is_ascii_chars_encode_utf8("GFDL-1.1-no-invariants-or-later"@);
    let name = "GFDL-1.1-no-invariants-or-later".spec_bytes();
    assert(name.subrange(0, 5) =~= "GFDL-".spec_bytes());
}

proof fn lemma_gnu_flag_149()
    ensures
        gnu_name("GFDL-1.1-only".spec_bytes()) == (0x19u8 & IS_GNU != 0),
{
    lemma_gnu_bit(0x19);
    lemma_gnu_words();
    reveal_strlit("GFDL-1.1-only");
    is_ascii_chars_encode_utf8("GFDL-1.1-only"@);
    let name = "GFDL-1.1-only".spec_bytes();
    assert(name.subrange(0, 5) =~= "GFDL-".spec_bytes());
}

proof fn lemma_gnu_flag_150()
    ensures
        gnu_name("GFDL-1.1-or-later".spec_bytes()) == (0x19u8 & IS_GNU != 0),
{
    lemma_gnu_bit(0x19);
    lemma_gnu_words();
    reveal_strlit("GFDL-1.1-or-later");
    is_ascii_chars_encode_utf8("GFDL-1.1-or-later"@);
    let name = "GFDL-1.1-or-later".spec_bytes();
    assert(name.subrange(0, 5) =~= "GFDL-".spec_bytes());
}

proof fn lemma_gnu_flag_151()
    ensures
        gnu_name("GFDL-1.2".spec_bytes()) == (0x1du8 & IS_GNU != 0),
{
    lemma_gnu_bit(0x1d);
    lemma_gnu_words();
    reveal_strlit("GFDL-1.2");
    is_ascii_chars_encode_utf8("GFDL-1.2"@);
    let name = "GFDL-1.2".spec_bytes();
    assert(name.subrange(0, 5) =~= "GFDL-".spec_bytes());
}

proof fn lemma_gnu_flag_152()
    ensures
        gnu_name("GFDL-1.2-invariants".spec_bytes()) == (0x18u8 & IS_GNU != 0),
{
    lemma_gnu_bit(0x18);
    lemma_gnu_words();
    reveal_strlit("GFDL-1.2-invariants");
    is_ascii_chars_encode_utf8("GFDL-1.2-invariants"@);
    let name = "GFDL-1.2-invariants".spec_bytes();
    assert(name.subrange(0, 5) =~= "GFDL-".spec_bytes());
}

proof fn lemma_gnu_flag_153()
    ensures
        gnu_name("GFDL-1.2-invariants-only".spec_bytes()) == (0x18u8 & IS_GNU != 0),
{
    lemma_gnu_bit(0x18);
    lemma_gnu_words();
    reveal_strlit("GFDL-1.2-invariants-only");
    is_ascii_chars_encode_utf8("GFDL-1.2-invariants-only"@);
    let name = "GFDL-1.2-invariants-only".spec_bytes();
    assert(name.subrange(0, 5) =~= "GFDL-".spec_bytes());
}

proof fn lemma_gnu_flag_154()
    ensures
        gnu_name("GFDL-1.2-invariants-or-later".spec_bytes()) == (0x18u8 & IS_GNU != 0),
{
    lemma_gnu_bit(0x18);
    lemma_gnu_words();
    reveal_strlit("GFDL-1.2-invariants-or-later");
    is_ascii_chars_encode_utf8("GFDL-1.2-invariants-or-later"@);
    let name = "GFDL-1.2-invariants-or-later".spec_bytes();
    assert(name.subrange(0, 5) =~= "GFDL-".spec_bytes());
}

proof fn lemma_gnu_flag_155()
    ensures
        gnu_name("GFDL-1.2-no-invariants-only".spec_bytes()) == (0x18u8 & IS_GNU != 0),
{
    lemma_gnu_bit(0x18);
    lemma_gnu_words();
    reveal_strlit("GFDL-1.2-no-invariants-only");
    is_ascii_chars_encode_utf8("GFDL-1.2-no-invariants-only"@);
    let name = "GFDL-1.2-no-invariants-only".spec_bytes();
    assert(name.subrange(0, 5) =~= "GFDL-".spec_bytes());
}

proof fn lemma_gnu_flag_156()
    ensures
        gnu_name("GFDL-1.2-no-invariants-or-later".spec_bytes()) == (0x18u8 & IS_GNU != 0),
{
    lemma_gnu_bit(0x18);
    lemma_gnu_words();
    reveal_strlit("GFDL-1.2-no-invariants-or-later");
    is_ascii_chars_encode_utf8("GFDL-1.2-no-invariants-or-later"@);
    let name = "GFDL-1.2-no-invariants-or-later".spec_bytes();
    assert(name.subrange(0, 5) =~= "GFDL-".spec_bytes());
}

proof fn lemma_gnu_flag_157()
    ensures
        gnu_name("GFDL-1.2-only".spec_bytes()) == (0x19u8 & IS_GNU != 0),
{
    lemma_gnu_bit(0x19);
    lemma_gnu_words();
    reveal_strlit("GFDL-1.2-only");
    is_ascii_chars_encode_utf8("GFDL-1.2-only"@);
    let name = "GFDL-1.2-only".spec_bytes();
    assert(name.subrange(0, 5) =~= "GFDL-".spec_bytes());
}

proof fn lemma_gnu_flag_158()
    ensures
        gnu_name("GFDL-1.2-or-later".spec_bytes()) == (0x19u8 & IS_GNU != 0),
{
    lemma_gnu_bit(0x19);
    lemma_gnu_words();
    reveal_strlit("GFDL-1.2-or-later");
    is_ascii_chars_encode_utf8("GFDL-1.2-or-later"@);
    let name = "GFDL-1.2-or-later".spec_bytes();
    assert(name.subrange(0, 5) =~= "GFDL-".spec_bytes());
}

proof fn lemma_gnu_flag_159()
    ensures
        gnu_name("GFDL-1.3".spec_bytes()) == (0x1du8 & IS_GNU != 0),
{
    lemma_gnu_bit(0x1d);
    lemma_gnu_words();
    reveal_strlit("GFDL-1.3");
    is_ascii_chars_encode_utf8("GFDL-1.3"@);
    let name = "GFDL-1.3".spec_bytes();
    assert(name.subrange(0, 5) =~= "GFDL-".spec_bytes());
}

proof fn lemma_gnu_flag_160()
    ensures
        gnu_name("GFDL-1.3-invariants".spec_bytes()) == (0x18u8 & IS_GNU != 0),
{
    lemma_gnu_bit(0x18);
    lemma_gnu_words();
    reveal_strlit("GFDL-1.3-invariants");
    is_ascii_chars_encode_utf8("GFDL-1.3-invariants"@);
    let name = "GFDL-1.3-invariants".spec_bytes();
    assert(name.subrange(0, 5) =~= "GFDL-".spec_bytes());
}

proof fn lemma_gnu_flag_161()
    ensures
        gnu_name("GFDL-1.3-invariants-only".spec_bytes()) == (0x18u8 & IS_GNU != 0),
{
    lemma_gnu_bit(0x18);
    lemma_gnu_words();
    reveal_strlit("GFDL-1.3-invariants-only");
    is_ascii_chars_encode_utf8("GFDL-1.3-invariants-only"@);
    let name = "GFDL-1.3-invariants-only".spec_bytes();
    assert(name.subrange(0, 5) =~= "GFDL-".spec_bytes());
}

proof fn lemma_gnu_flag_162()
    ensures
        gnu_name("GFDL-1.3-invariants-or-later".spec_bytes()) == (0x18u8 & IS_GNU != 0),
{
    lemma_gnu_bit(0x18);
    lemma_gnu_words();
    reveal_strlit("GFDL-1.3-invariants-or-later");
    is_ascii_chars_encode_utf8("GFDL-1.3-invariants-or-later"@);
    let name = "GFDL-1.3-invariants-or-later".spec_bytes();
    assert(name.subrange(0, 5) =~= "GFDL-".spec_bytes());
}

proof fn lemma_gnu_flag_163()
    ensures
        gnu_name("GFDL-1.3-no-invariants-only".spec_bytes()) == (0x18u8 & IS_GNU != 0),
{
    lemma_gnu_bit(0x18);
    lemma_gnu_words();
    reveal_strlit("GFDL-1.3-no-invariants-only");
    is_ascii_chars_encode_utf8("GFDL-1.3-no-invariants-only"@);
    let name = "GFDL-1.3-no-invariants-only".spec_bytes();
    assert(name.subrange(0, 5) =~= "GFDL-".spec_bytes());
}

proof fn lemma_gnu_flag_164()
    ensures
        gnu_name("GFDL-1.3-no-invariants-or-later".spec_bytes()) == (0x18u8 & IS_GNU != 0),
{
    lemma_gnu_bit(0x18);
    lemma_gnu_words();
    reveal_strlit("GFDL-1.3-no-invariants-or-later");
    is_ascii_chars_encode_utf8("GFDL-1.3-no-invariants-or-later"@);
    let name = "GFDL-1.3-no-invariants-or-later".spec_bytes();
    assert(name.subrange(0, 5) =~= "GFDL-".spec_bytes());
}

proof fn lemma_gnu_flag_165()
    ensures
        gnu_name("GFDL-1.3-only".spec_bytes()) == (0x19u8 & IS_GNU != 0),
{
    lemma_gnu_bit(0x19);
    lemma_gnu_words();
    reveal_strlit("GFDL-1.3-only");
    is_ascii_chars_encode_utf8("GFDL-1.3-only"@);
    let name = "GFDL-1.3-only".spec_bytes();
    assert(name.subrange(0, 5) =~= "GFDL-".spec_bytes());
}

proof fn lemma_gnu_flag_166()
    ensures
        gnu_name("GFDL-1.3-or-later".spec_bytes()) == (0x19u8 & IS_GNU != 0),
{
    lemma_gnu_bit(0x19);
    lemma_gnu_words();
    reveal_strlit("GFDL-1.3-or-later");
    is_ascii_chars_encode_utf8("GFDL-1.3-or-later"@);
    let name = "GFDL-1.3-or-later".spec_bytes();
    assert(name.subrange(0, 5) =~= "GFDL-".spec_bytes());
}

proof fn lemma_gnu_flag_167()
    ensures
        gnu_name("GL2PS".spec_bytes()) == (0x0u8 & IS_GNU != 0),
{
    lemma_gnu_bit(0x0);
    lemma_gnu_words();
    reveal_strlit("GL2PS");
    is_ascii_chars_encode_utf8("GL2PS"@);
    let name = "GL2PS".spec_bytes();
    lemma_not_prefix(name, "AGPL-".spec_bytes(), 0);
    lemma_not_prefix(name, "GFDL-".spec_bytes(), 1);
    lemma_not_prefix(name, "GPL-".spec_bytes(), 1);
    lemma_not_prefix(name, "LGPL-".spec_bytes(), 0);
}

proof fn lemma_gnu_flag_168()
    ensures
        gnu_name("GPL-1.0".spec_bytes()) == (0x1cu8 & IS_GNU != 0),
{
    lemma_gnu_bit(0x1c);
    lemma_gnu_words();
    reveal_strlit("GPL-1.0");
    is_ascii_chars_encode_utf8("GPL-1.0"@);
    let name = "GPL-1.0".spec_bytes();
    assert(name.subrange(0, 4) =~= "GPL-".spec_bytes());
}

proof fn lemma_gnu_flag_169()
    ensures
        gnu_name("GPL-1.0+".spec_bytes()) == (0x1cu8 & IS_GNU != 0),
{
    lemma_gnu_bit(0x1c);
    lemma_gnu_words();
    reveal_strlit("GPL-1.0+");
    is_ascii_chars_encode_utf8("GPL-1.0+"@);
    let name = "GPL-1.0+".spec_bytes();
    assert(name.subrange(0, 4) =~= "GPL-".spec_bytes());
}

proof fn lemma_gnu_flag_170()
    ensures
        gnu_name("GPL-1.0-only".spec_bytes()) == (0x18u8 & IS_GNU != 0),
{
    lemma_gnu_bit(0x18);
    lemma_gnu_words();
    reveal_strlit("GPL-1.0-only");
    is_ascii_chars_encode_utf8("GPL-1.0-only"@);
    let name = "GPL-1.0-only".spec_bytes();
    assert(name.subrange(0, 4) =~= "GPL-".spec_bytes());
}

proof fn lemma_gnu_flag_171()
    ensures
        gnu_name("GPL-1.0-or-later".spec_bytes()) == (0x18u8 & IS_GNU != 0),
{
    lemma_gnu_bit(0x18);
    lemma_gnu_words();
    reveal_strlit("GPL-1.0-or-later");
    is_ascii_chars_encode_utf8("GPL-1.0-or-later"@);
    let name = "GPL-1.0-or-later".spec_bytes();
    assert(name.subrange(0, 4) =~= "GPL-".spec_bytes());
}

proof fn lemma_gnu_flag_172()
    ensures
        gnu_name("GPL-2.0".spec_bytes()) == (0x1fu8 & IS_GNU != 0),
{
    lemma_gnu_bit(0x1f);
    lemma_gnu_words();
    reveal_strlit("GPL-2.0");
    is_ascii_chars_encode_utf8("GPL-2.0"@);
    let name = "GPL-2.0".spec_bytes();
    assert(name.subrange(0, 4) =~= "GPL-".spec_bytes());
}

proof fn lemma_gnu_flag_173()
    ensures
        gnu_name("GPL-2.0+".spec_bytes()) == (0x1fu8 & IS_GNU != 0),
{
    lemma_gnu_bit(0x1f);
    lemma_gnu_words();
    reveal_strlit("GPL-2.0+");
    is_ascii_chars_encode_utf8("GPL-2.0+"@);
    let name = "GPL-2.0+".spec_bytes();
    assert(name.subrange(0, 4) =~= "GPL-".spec_bytes());
}

proof fn lemma_gnu_flag_174()
    ensures
        gnu_name("GPL-2.0-only".spec_bytes()) == (0x1bu8 & IS_GNU != 0),
{
    lemma_gnu_bit(0x1b);
    lemma_gnu_words();
    reveal_strlit("GPL-2.0-only");
    is_ascii_chars_encode_utf8("GPL-2.0-only"@);
    let name = "GPL-2.0-only".spec_bytes();
    assert(name.subrange(0, 4) =~= "GPL-".spec_bytes());
}

proof fn lemma_gnu_flag_175()
    ensures
        gnu_name("GPL-2.0-or-later".spec_bytes()) == (0x1bu8 & IS_GNU != 0),
{
    lemma_gnu_bit(0x1b);
    lemma_gnu_words();
    reveal_strlit("GPL-2.0-or-later");
    is_ascii_chars_encode_utf8("GPL-2.0-or-later"@);
    let name = "GPL-2.0-or-later".spec_bytes();
    assert(name.subrange(0, 4) =~= "GPL-".spec_bytes());
}

proof fn lemma_gnu_flag_176()
    ensures
        gnu_name("GPL-2.0-with-GCC-exception".spec_bytes()) == (0x1cu8 & IS_GNU != 0),
{
    lemma_gnu_bit(0x1c);
    lemma_gnu_words();
    reveal_strlit("GPL-2.0-with-GCC-exception");
    is_ascii_chars_encode_utf8("GPL-2.0-with-GCC-exception"@);
    let name = "GPL-2.0-with-GCC-exception".spec_bytes();
    assert(name.subrange(0, 4) =~= "GPL-".spec_bytes());
}

proof fn lemma_gnu_flag_177()
    ensures
        gnu_name("GPL-2.0-with-autoconf-exception".spec_bytes()) == (0x1cu8 & IS_GNU != 0),
{
    lemma_gnu_bit(0x1c);
    lemma_gnu_words();
    reveal_strlit("GPL-2.0-with-autoconf-exception");
    is_ascii_chars_encode_utf8("GPL-2.0-with-autoconf-exception"@);
    let name = "GPL-2.0-with-autoconf-exception".spec_bytes();
    assert(name.subrange(0, 4) =~= "GPL-".spec_bytes());
}

proof fn lemma_gnu_flag_178()
    ensures
        gnu_name("GPL-2.0-with-bison-exception".spec_bytes()) == (0x1cu8 & IS_GNU != 0),
{
    lemma_gnu_bit(0x1c);
    lemma_gnu_words();
    reveal_strlit("GPL-2.0-with-bison-exception");
    is_ascii_chars_encode_utf8("GPL-2.0-with-bison-exception"@);
    let name = "GPL-2.0-with-bison-exception".spec_bytes();
    assert(name.subrange(0, 4) =~= "GPL-".spec_bytes());
}

proof fn lemma_gnu_flag_179()
    ensures
        gnu_name("GPL-2.0-with-classpath-exception".spec_bytes()) == (0x1cu8 & IS_GNU != 0),
{
    lemma_gnu_bit(0x1c);
    lemma_gnu_words();
    reveal_strlit("GPL-2.0-with-classpath-exception");
    is_ascii_chars_encode_utf8("GPL-2.0-with-classpath-exception"@);
    let name = "GPL-2.0-with-classpath-exception".spec_bytes();
    assert(name.subrange(0, 4) =~= "GPL-".spec_bytes());
}

proof fn lemma_gnu_flag_180()
    ensures
        gnu_name("GPL-2.0-with-font-exception".spec_bytes()) == (0x1cu8 & IS_GNU != 0),
{
    lemma_gnu_bit(0x1c);
    lemma_gnu_words();
    reveal_strlit("GPL-2.0-with-font-exception");
    is_ascii_chars_encode_utf8("GPL-2.0-with-font-exception"@);
    let name = "GPL-2.0-with-font-exception".spec_bytes();
    assert(name.subrange(0, 4) =~= "GPL-".spec_bytes());
}

proof fn lemma_gnu_flag_181()
    ensures
        gnu_name("GPL-3.0".spec_bytes()) == (0x1fu8 & IS_GNU != 0),
{
    lemma_gnu_bit(0x1f);
    lemma_gnu_words();
    reveal_strlit("GPL-3.0");
    is_ascii_chars_encode_utf8("GPL-3.0"@);
    let name = "GPL-3.0".spec_bytes();
    assert(name.subrange(0, 4) =~= "GPL-".spec_bytes());
}

proof fn lemma_gnu_flag_182()
    ensures
        gnu_name("GPL-3.0+".spec_bytes()) == (0x1fu8 & IS_GNU != 0),
{
    lemma_gnu_bit(0x1f);
    lemma_gnu_words();
    reveal_strlit("GPL-3.0+");
    is_ascii_chars_encode_utf8("GPL-3.0+"@);
    let name = "GPL-3.0+".spec_bytes();
    assert(name.subrange(0, 4) =~= "GPL-".spec_bytes());
}

proof fn lemma_gnu_flag_183()
    ensures
        gnu_name("GPL-3.0-only".spec_bytes()) == (0x1bu8 & IS_GNU != 0),
{
    lemma_gnu_bit(0x1b);
    lemma_gnu_words();
    reveal_strlit("GPL-3.0-only");
    is_ascii_chars_encode_utf8("GPL-3.0-only"@);
    let name = "GPL-3.0-only".spec_bytes();
    assert(name.subrange(0, 4) =~= "GPL-".spec_bytes());
}

proof fn lemma_gnu_flag_184()
    ensures
        gnu_name("GPL-3.0-or-later".spec_bytes()) == (0x1bu8 & IS_GNU != 0),
{
    lemma_gnu_bit(0x1b);
    lemma_gnu_words();
    reveal_strlit("GPL-3.0-or-later");
    is_ascii_chars_encode_utf8("GPL-3.0-or-later"@);
    let name = "GPL-3.0-or-later".spec_bytes();
    assert(name.subrange(0, 4) =~= "GPL-".spec_bytes());
}

proof fn lemma_gnu_flag_185()
    ensures
        gnu_name("GPL-3.0-with-GCC-exception".spec_bytes()) == (0x1eu8 & IS_GNU != 0),
{
    lemma_gnu_bit(0x1e);
    lemma_gnu_words();
    reveal_strlit("GPL-3.0-with-GCC-exception");
    is_ascii_chars_encode_utf8("GPL-3.0-with-GCC-exception"@);
    let name = "GPL-3.0-with-GCC-exception".spec_bytes();
    assert(name.subrange(0, 4) =~= "GPL-".spec_bytes());
}

proof fn lemma_gnu_flag_186()
    ensures
        gnu_name("GPL-3.0-with-autoconf-exception".spec_bytes()) == (0x1cu8 & IS_GNU != 0),
{
    lemma_gnu_bit(0x1c);
    lemma_gnu_words();
    reveal_strlit("GPL-3.0-with-autoconf-exception");
    is_ascii_chars_encode_utf8("GPL-3.0-with-autoconf-exception"@);
    let name = "GPL-3.0-with-autoconf-exception".spec_bytes();
    assert(name.subrange(0, 4) =~= "GPL-".spec_bytes());
}

proof fn lemma_gnu_flag_187()
    ensures
        gnu_name("Giftware".spec_bytes()) == (0x0u8 & IS_GNU != 0),
{
    lemma_gnu_bit(0x0);
    lemma_gnu_words();
    reveal_strlit("Giftware");
    is_ascii_chars_encode_utf8("Giftware"@);
    let name = "Giftware".spec_bytes();
    lemma_not_prefix(name, "AGPL-".spec_bytes(), 0);
    lemma_not_prefix(name, "GFDL-".spec_bytes(), 1);
    lemma_not_prefix(name, "GPL-".spec_bytes(), 1);
    lemma_not_prefix(name, "LGPL-".spec_bytes(), 0);
}

proof fn lemma_gnu_flag_188()
    ensures
        gnu_name("Glide".spec_bytes()) == (0x0u8 & IS_GNU != 0),
{
    lemma_gnu_bit(0x0);
    lemma_gnu_words();
    reveal_strlit("Glide");
    is_ascii_chars_encode_utf8("Glide"@);
    let name = "Glide".spec_bytes();
    lemma_not_prefix(name, "AGPL-".spec_bytes(), 0);
    lemma_not_prefix(name, "GFDL-".spec_bytes(), 1);
    lemma_not_prefix(name, "GPL-".spec_bytes(), 1);
    lemma_not_prefix(name, "LGPL-".spec_bytes(), 0);
}

proof fn lemma_gnu_flag_189()
    ensures
        gnu_name("Glulxe".spec_bytes()) == (0x0u8 & IS_GNU != 0),
{
    lemma_gnu_bit(0x0);
    lemma_gnu_words();
    reveal_strlit("Glulxe");
    is_ascii_chars_encode_utf8("Glulxe"@);
    let name = "Glulxe".spec_bytes();
    lemma_not_prefix(name, "AGPL-".spec_bytes(), 0);
    lemma_not_prefix(name, "GFDL-".spec_bytes(), 1);
    lemma_not_prefix(name, "GPL-".spec_bytes(), 1);
    lemma_not_prefix(name, "LGPL-".spec_bytes(), 0);
}

proof fn lemma_gnu_flag_190()
    ensures
        gnu_name("HPND".spec_bytes()) == (0x3u8 & IS_GNU != 0),
{
    lemma_gnu_bit(0x3);
    lemma_gnu_words();
    reveal_strlit("HPND");
    is_ascii_chars_encode_utf8("HPND"@);
    let name = "HPND".spec_bytes();
    lemma_not_prefix(name, "GPL-".spec_bytes(), 0);
}

proof fn lemma_gnu_flag_191()
    ensures
        gnu_name("HPND-sell-variant".spec_bytes()) == (0x0u8 & IS_GNU != 0),
{
    lemma_gnu_bit(0x0);
    lemma_gnu_words();
    reveal_strlit("HPND-sell-variant");
    is_ascii_chars_encode_utf8("HPND-sell-variant"@);
    let name = "HPND-sell-variant".spec_bytes();
    lemma_not_prefix(name, "AGPL-".spec_bytes(), 0);
    lemma_not_prefix(name, "GFDL-".spec_bytes(), 0);
    lemma_not_prefix(name, "GPL-".spec_bytes(), 0);
    lemma_not_prefix(name, "LGPL-".spec_bytes(), 0);
}

proof fn lemma_gnu_flag_192()
    ensures
        gnu_name("HaskellReport".spec_bytes()) == (0x0u8 & IS_GNU != 0),
{
    lemma_gnu_bit(0x0);
    lemma_gnu_words();
    reveal_strlit("HaskellReport");
    is_ascii_chars_encode_utf8("HaskellReport"@);
    let name = "HaskellReport".spec_bytes();
    lemma_not_prefix(name, "AGPL-".spec_bytes(), 0);
    lemma_not_prefix(name, "GFDL-".spec_bytes(), 0);
    lemma_not_prefix(name, "GPL-".spec_bytes(), 0);
    lemma_not_prefix(name, "LGPL-".spec_bytes(), 0);
}

proof fn lemma_gnu_flag_193()
    ensures
        gnu_name("IBM-pibs".spec_bytes()) == (0x0u8 & IS_GNU != 0),
{
    lemma_gnu_bit(0x0);
    lemma_gnu_words();
    reveal_strlit("IBM-pibs");
    is_ascii_chars_encode_utf8("IBM-pibs"@);
    let name = "IBM-pibs".spec_bytes();
    lemma_not_prefix(name, "AGPL-".spec_bytes(), 0);
    lemma_not_prefix(name, "GFDL-".spec_bytes(), 0);
    lemma_not_prefix(name, "GPL-".spec_bytes(), 0);
    lemma_not_prefix(name, "LGPL-".spec_bytes(), 0);
}

proof fn lemma_gnu_flag_194()
    ensures
        gnu_name("ICU".spec_bytes()) == (0x0u8 & IS_GNU != 0),
{
    lemma_gnu_bit(0x0);
    lemma_gnu_words();
    reveal_strlit("ICU");
    is_ascii_chars_encode_utf8("ICU"@);
    let name = "ICU".spec_bytes();
}

proof fn lemma_gnu_flag_195()
    ensures
        gnu_name("IJG".spec_bytes()) == (0x1u8 & IS_GNU != 0),
{
    lemma_gnu_bit(0x1);
    lemma_gnu_words();
    reveal_strlit("IJG");
    is_ascii_chars_encode_utf8("IJG"@);
    let name = "IJG".spec_bytes();
}

proof fn lemma_gnu_flag_196()
    ensures
        gnu_name("IPA".spec_bytes()) == (0x3u8 & IS_GNU != 0),
{
    lemma_gnu_bit(0x3);
    lemma_gnu_words();
    reveal_strlit("IPA");
    is_ascii_chars_encode_utf8("IPA"@);
    let name = "IPA".spec_bytes();
}

proof fn lemma_gnu_flag_197()
    ensures
        gnu_name("IPL-1.0".spec_bytes()) == (0x3u8 & IS_GNU != 0),
{
    lemma_gnu_bit(0x3);
    lemma_gnu_words();
    reveal_strlit("IPL-1.0");
    is_ascii_chars_encode_utf8("IPL-1.0"@);
    let name = "IPL-1.0".spec_bytes();
    lemma_not_prefix(name, "AGPL-".spec_bytes(), 0);
    lemma_not_prefix(name, "GFDL-".spec_bytes(), 0);
    lemma_not_prefix(name, "GPL-".spec_bytes(), 0);
    lemma_not_prefix(name, "LGPL-".spec_bytes(), 0);
}

proof fn lemma_gnu_flag_198()
    ensures
        gnu_name("ISC".spec_bytes()) == (0x3u8 & IS_GNU != 0),
{
    lemma_gnu_bit(0x3);
    lemma_gnu_words();
    reveal_strlit("ISC");
    is_ascii_chars_encode_utf8("ISC"@);
    let name = "ISC".spec_bytes();
}

proof fn lemma_gnu_flag_199()
    ensures
        gnu_name("ImageMagick".spec_bytes()) == (0x0u8 & IS_GNU != 0),
{
    lemma_gnu_bit(0x0);
    lemma_gnu_words();
    reveal_strlit("ImageMagick");
    is_ascii_chars_encode_utf8("ImageMagick"@);
    let name = "ImageMagick".spec_bytes();
    lemma_not_prefix(name, "AGPL-".spec_bytes(), 0);
    lemma_not_prefix(name, "GFDL-".spec_bytes(), 0);
    lemma_not_prefix(name, "GPL-".spec_bytes(), 0);
    lemma_not_prefix(name, "LGPL-".spec_bytes(), 0);
}

proof fn lemma_gnu_flag_200()
    ensures
        gnu_name("Imlib2".spec_bytes()) == (0x1u8 & IS_GNU != 0),
{
    lemma_gnu_bit(0x1);
    lemma_gnu_words();
    reveal_strlit("Imlib2");
    is_ascii_chars_encode_utf8("Imlib2"@);
    let name = "Imlib2".spec_bytes();
    lemma_not_prefix(name, "AGPL-".spec_bytes(), 0);
    lemma_not_prefix(name, "GFDL-".spec_bytes(), 0);
    lemma_not_prefix(name, "GPL-".spec_bytes(), 0);
    lemma_not_prefix(name, "LGPL-".spec_bytes(), 0);
}

proof fn lemma_gnu_flag_201()
    ensures
        gnu_name("Info-ZIP".spec_bytes()) == (0x0u8 & IS_GNU != 0),
{
    lemma_gnu_bit(0x0);
    lemma_gnu_words();
    reveal_strlit("Info-ZIP");
    is_ascii_chars_encode_utf8("Info-ZIP"@);
    let name = "Info-ZIP".spec_bytes();
    lemma_not_prefix(name, "AGPL-".spec_bytes(), 0);
    lemma_not_prefix(name, "GFDL-".spec_bytes(), 0);
    lemma_not_prefix(name, "GPL-".spec_bytes(), 0);
    lemma_not_prefix(name, "LGPL-".spec_bytes(), 0);
}

proof fn lemma_gnu_flag_202()
    ensures
        gnu_name("Intel".spec_bytes()) == (0x3u8 & IS_GNU != 0),
{
    lemma_gnu_bit(0x3);
    lemma_gnu_words();
    reveal_strlit("Intel");
    is_ascii_chars_encode_utf8("Intel"@);
    let name = "Intel".spec_bytes();
    lemma_not_prefix(name, "AGPL-".spec_bytes(), 0);
    lemma_not_prefix(name, "GFDL-".spec_bytes(), 0);
    lemma_not_prefix(name, "GPL-".spec_bytes(), 0);
    lemma_not_prefix(name, "LGPL-".spec_bytes(), 0);
}

proof fn lemma_gnu_flag_203()
    ensures
        gnu_name("Intel-ACPI".spec_bytes()) == (0x0u8 & IS_GNU != 0),
{
    lemma_gnu_bit(0x0);
    lemma_gnu_words();
    reveal_strlit("Intel-ACPI");
    is_ascii_chars_encode_utf8("Intel-ACPI"@);
    let name = "Intel-ACPI".spec_bytes();
    lemma_not_prefix(name, "AGPL-".spec_bytes(), 0);
    lemma_not_prefix(name, "GFDL-".spec_bytes(), 0);
    lemma_not_prefix(name, "GPL-".spec_bytes(), 0);
    lemma_not_prefix(name, "LGPL-".spec_bytes(), 0);
}

proof fn lemma_gnu_flag_204()
    ensures
        gnu_name("Interbase-1.0".spec_bytes()) == (0x0u8 & IS_GNU != 0),
{
    lemma_gnu_bit(0x0);
    lemma_gnu_words();
    reveal_strlit("Interbase-1.0");
    is_ascii_chars_encode_utf8("Interbase-1.0"@);
    let name = "Interbase-1.0".spec_bytes();
    lemma_not_prefix(name, "AGPL-".spec_bytes(), 0);
    lemma_not_prefix(name, "GFDL-".spec_bytes(), 0);
    lemma_not_prefix(name, "GPL-".spec_bytes(), 0);
    lemma_not_prefix(name, "LGPL-".spec_bytes(), 0);
}

proof fn lemma_gnu_flag_205()
    ensures
        gnu_name("JPNIC".spec_bytes()) == (0x0u8 & IS_GNU != 0),
{
    lemma_gnu_bit(0x0);
    lemma_gnu_words();
    reveal_strlit("JPNIC");
    is_ascii_chars_encode_utf8("JPNIC"@);
    let name = "JPNIC".spec_bytes();
    lemma_not_prefix(name, "AGPL-".spec_bytes(), 0);
    lemma_not_prefix(name, "GFDL-".spec_bytes(), 0);
    lemma_not_prefix(name, "GPL-".spec_bytes(), 0);
    lemma_not_prefix(name, "LGPL-".spec_bytes(), 0);
}

proof fn lemma_gnu_flag_206()
    ensures
        gnu_name("JSON".spec_bytes()) == (0x0u8 & IS_GNU != 0),
{
    lemma_gnu_bit(0x0);
    lemma_gnu_words();
    reveal_strlit("JSON");
    is_ascii_chars_encode_utf8("JSON"@);
    let name = "JSON".spec_bytes();
    lemma_not_prefix(name, "GPL-".spec_bytes(), 0);
}

proof fn lemma_gnu_flag_207()
    ensures
        gnu_name("JasPer-2.0".spec_bytes()) == (0x0u8 & IS_GNU != 0),
{
    lemma_gnu_bit(0x0);
    lemma_gnu_words();
    reveal_strlit("JasPer-2.0");
    is_ascii_chars_encode_utf8("JasPer-2.0"@);
    let name = "JasPer-2.0".spec_bytes();
    lemma_not_prefix(name, "AGPL-".spec_bytes(), 0);
    lemma_not_prefix(name, "GFDL-".spec_bytes(), 0);
    lemma_not_prefix(name, "GPL-".spec_bytes(), 0);
    lemma_not_prefix(name, "LGPL-".spec_bytes(), 0);
}

proof fn lemma_gnu_flag_208()
    ensures
        gnu_name("LAL-1.2".spec_bytes()) == (0x0u8 & IS_GNU != 0),
{
    lemma_gnu_bit(0x0);
    lemma_gnu_words();
    reveal_strlit("LAL-1.2");
    is_ascii_chars_encode_utf8("LAL-1.2"@);
    let name = "LAL-1.2".spec_bytes();
    lemma_not_prefix(name, "AGPL-".spec_bytes(), 0);
    lemma_not_prefix(name, "GFDL-".spec_bytes(), 0);
    lemma_not_prefix(name, "GPL-".spec_bytes(), 0);
    lemma_not_prefix(name, "LGPL-".spec_bytes(), 1);
}

proof fn lemma_gnu_flag_209()
    ensures
        gnu_name("LAL-1.3".spec_bytes()) == (0x0u8 & IS_GNU != 0),
{
    lemma_gnu_bit(0x0);
    lemma_gnu_words();
    reveal_strlit("LAL-1.3");
    is_ascii_chars_encode_utf8("LAL-1.3"@);
    let name = "LAL-1.3".spec_bytes();
    lemma_not_prefix(name, "AGPL-".spec_bytes(), 0);
    lemma_not_prefix(name, "GFDL-".spec_bytes(), 0);
    lemma_not_prefix(name, "GPL-".spec_bytes(), 0);
    lemma_not_prefix(name, "LGPL-".spec_bytes(), 1);
}

proof fn lemma_gnu_flag_210()
    ensures
        gnu_name("LGPL-2.0".spec_bytes()) == (0x1eu8 & IS_GNU != 0),
{
    lemma_gnu_bit(0x1e);
    lemma_gnu_words();
    reveal_strlit("LGPL-2.0");
    is_ascii_chars_encode_utf8("LGPL-2.0"@);
    let name = "LGPL-2.0".spec_bytes();
    assert(name.subrange(0, 5) =~= "LGPL-".spec_bytes());
}

proof fn lemma_gnu_flag_211()
    ensures
        gnu_name("LGPL-2.0+".spec_bytes()) == (0x1eu8 & IS_GNU != 0),
{
    lemma_gnu_bit(0x1e);
    lemma_gnu_words();
    reveal_strlit("LGPL-2.0+");
    is_ascii_chars_encode_utf8("LGPL-2.0+"@);
    let name = "LGPL-2.0+".spec_bytes();
    assert(name.subrange(0, 5) =~= "LGPL-".spec_bytes());
}

proof fn lemma_gnu_flag_212()
    ensures
        gnu_name("LGPL-2.0-only".spec_bytes()) == (0x1au8 & IS_GNU != 0),
{
    lemma_gnu_bit(0x1a);
    lemma_gnu_words();
    reveal_strlit("LGPL-2.0-only");
    is_ascii_chars_encode_utf8("LGPL-2.0-only"@);
    let name = "LGPL-2.0-only".spec_bytes();
    assert(name.subrange(0, 5) =~= "LGPL-".spec_bytes());
}

proof fn lemma_gnu_flag_213()
    ensures
        gnu_name("LGPL-2.0-or-later".spec_bytes()) == (0x1au8 & IS_GNU != 0),
{
    lemma_gnu_bit(0x1a);
    lemma_gnu_words();
    reveal_strlit("LGPL-2.0-or-later");
    is_ascii_chars_encode_utf8("LGPL-2.0-or-later"@);
    let name = "LGPL-2.0-or-later".spec_bytes();
    assert(name.subrange(0, 5) =~= "LGPL-".spec_bytes());
}

proof fn lemma_gnu_flag_214()
    ensures
        gnu_name("LGPL-2.1".spec_bytes()) == (0x1fu8 & IS_GNU != 0),
{
    lemma_gnu_bit(0x1f);
    lemma_gnu_words();
    reveal_strlit("LGPL-2.1");
    is_ascii_chars_encode_utf8("LGPL-2.1"@);
    let name = "LGPL-2.1".spec_bytes();
    assert(name.subrange(0, 5) =~= "LGPL-".spec_bytes());
}

proof fn lemma_gnu_flag_215()
    ensures
        gnu_name("LGPL-2.1+".spec_bytes()) == (0x1fu8 & IS_GNU != 0),
{
    lemma_gnu_bit(0x1f);
    lemma_gnu_words();
    reveal_strlit("LGPL-2.1+");
    is_ascii_chars_encode_utf8("LGPL-2.1+"@);
    let name = "LGPL-2.1+".spec_bytes();
    assert(name.subrange(0, 5) =~= "LGPL-".spec_bytes());
}

proof fn lemma_gnu_flag_216()
    ensures
        gnu_name("LGPL-2.1-only".spec_bytes()) == (0x1bu8 & IS_GNU != 0),
{
    lemma_gnu_bit(0x1b);
    lemma_gnu_words();
    reveal_strlit("LGPL-2.1-only");
    is_ascii_chars_encode_utf8("LGPL-2.1-only"@);
    let name = "LGPL-2.1-only".spec_bytes();
    assert(name.subrange(0, 5) =~= "LGPL-".spec_bytes());
}

proof fn lemma_gnu_flag_217()
    ensures
        gnu_name("LGPL-2.1-or-later".spec_bytes()) == (0x1bu8 & IS_GNU != 0),
{
    lemma_gnu_bit(0x1b);
    lemma_gnu_words();
    reveal_strlit("LGPL-2.1-or-later");
    is_ascii_chars_encode_utf8("LGPL-2.1-or-later"@);
    let name = "LGPL-2.1-or-later".spec_bytes();
    assert(name.subrange(0, 5) =~= "LGPL-".spec_bytes());
}

proof fn lemma_gnu_flag_218()
    ensures
        gnu_name("LGPL-3.0".spec_bytes()) == (0x1fu8 & IS_GNU != 0),
{
    lemma_gnu_bit(0x1f);
    lemma_gnu_words();
    reveal_strlit("LGPL-3.0");
    is_ascii_chars_encode_utf8("LGPL-3.0"@);
    let name = "LGPL-3.0".spec_bytes();
    assert(name.subrange(0, 5) =~= "LGPL-".spec_bytes());
}

proof fn lemma_gnu_flag_219()
    ensures
        gnu_name("LGPL-3.0+".spec_bytes()) == (0x1fu8 & IS_GNU != 0),
{
    lemma_gnu_bit(0x1f);
    lemma_gnu_words();
    reveal_strlit("LGPL-3.0+");
    is_ascii_chars_encode_utf8("LGPL-3.0+"@);
    let name = "LGPL-3.0+".spec_bytes();
    assert(name.subrange(0, 5) =~= "LGPL-".spec_bytes());
}

proof fn lemma_gnu_flag_220()
    ensures
        gnu_name("LGPL-3.0-only".spec_bytes()) == (0x1bu8 & IS_GNU != 0),
{
    lemma_gnu_bit(0x1b);
    lemma_gnu_words();
    reveal_strlit("LGPL-3.0-only");
    is_ascii_chars_encode_utf8("LGPL-3.0-only"@);
    let name = "LGPL-3.0-only".spec_bytes();
    assert(name.subrange(0, 5) =~= "LGPL-".spec_bytes());
}

proof fn lemma_gnu_flag_221()
    ensures
        gnu_name("LGPL-3.0-or-later".spec_bytes()) == (0x1bu8 & IS_GNU != 0),
{
    lemma_gnu_bit(0x1b);
    lemma_gnu_words();
    reveal_strlit("LGPL-3.0-or-later");
    is_ascii_chars_encode_utf8("LGPL-3.0-or-later"@);
    let name = "LGPL-3.0-or-later".spec_bytes();
    assert(name.subrange(0, 5) =~= "LGPL-".spec_bytes());
}

proof fn lemma_gnu_flag_222()
    ensures
        gnu_name("LGPLLR".spec_bytes()) == (0x0u8 & IS_GNU != 0),
{
    lemma_gnu_bit(0x0);
    lemma_gnu_words();
    reveal_strlit("LGPLLR");
    is_ascii_chars_encode_utf8("LGPLLR"@);
    let name = "LGPLLR".spec_bytes();
    lemma_not_prefix(name, "AGPL-".spec_bytes(), 0);
    lemma_not_prefix(name, "GFDL-".spec_bytes(), 0);
    lemma_not_prefix(name, "GPL-".spec_bytes(), 0);
    lemma_not_prefix(name, "LGPL-".spec_bytes(), 4);
}

proof fn lemma_gnu_flag_223()
    ensures
        gnu_name("LPL-1.0".spec_bytes()) == (0x2u8 & IS_GNU != 0),
{
    lemma_gnu_bit(0x2);
    lemma_gnu_words();
    reveal_strlit("LPL-1.0");
    is_ascii_chars_encode_utf8("LPL-1.0"@);
    let name = "LPL-1.0".spec_bytes();
    lemma_not_prefix(name, "AGPL-".spec_bytes(), 0);
    lemma_not_prefix(name, "GFDL-".spec_bytes(), 0);
    lemma_not_prefix(name, "GPL-".spec_bytes(), 0);
    lemma_not_prefix(name, "LGPL-".spec_bytes(), 1);
}

proof fn lemma_gnu_flag_224()
    ensures
        gnu_name("LPL-1.02".spec_bytes()) == (0x3u8 & IS_GNU != 0),
{
    lemma_gnu_bit(0x3);
    lemma_gnu_words();
    reveal_strlit("LPL-1.02");
    is_ascii_chars_encode_utf8("LPL-1.02"@);
    let name = "LPL-1.02".spec_bytes();
    lemma_not_prefix(name, "AGPL-".spec_bytes(), 0);
    lemma_not_prefix(name, "GFDL-".spec_bytes(), 0);
    lemma_not_prefix(name, "GPL-".spec_bytes(), 0);
    lemma_not_prefix(name, "LGPL-".spec_bytes(), 1);
}

proof fn lemma_gnu_flag_225()
    ensures
        gnu_name("LPPL-1.0".spec_bytes()) == (0x0u8 & IS_GNU != 0),
{
    lemma_gnu_bit(0x0);
    lemma_gnu_words();
    reveal_strlit("LPPL-1.0");
    is_ascii_chars_encode_utf8("LPPL-1.0"@);
    let name = "LPPL-1.0".spec_bytes();
    lemma_not_prefix(name, "AGPL-".spec_bytes(), 0);
    lemma_not_prefix(name, "GFDL-".spec_bytes(), 0);
    lemma_not_prefix(name, "GPL-".spec_bytes(), 0);
    lemma_not_prefix(name, "LGPL-".spec_bytes(), 1);
}

proof fn lemma_gnu_flag_226()
    ensures
        gnu_name("LPPL-1.1".spec_bytes()) == (0x0u8 & IS_GNU != 0),
{
    lemma_gnu_bit(0x0);
    lemma_gnu_words();
    reveal_strlit("LPPL-1.1");
    is_ascii_chars_encode_utf8("LPPL-1.1"@);
    let name = "LPPL-1.1".spec_bytes();
    lemma_not_prefix(name, "AGPL-".spec_bytes(), 0);
    lemma_not_prefix(name, "GFDL-".spec_bytes(), 0);
    lemma_not_prefix(name, "GPL-".spec_bytes(), 0);
    lemma_not_prefix(name, "LGPL-".spec_bytes(), 1);
}

proof fn lemma_gnu_flag_227()
    ensures
        gnu_name("LPPL-1.2".spec_bytes()) == (0x1u8 & IS_GNU != 0),
{
    lemma_gnu_bit(0x1);
    lemma_gnu_words();
    reveal_strlit("LPPL-1.2");
    is_ascii_chars_encode_utf8("LPPL-1.2"@);
    let name = "LPPL-1.2".spec_bytes();
    lemma_not_prefix(name, "AGPL-".spec_bytes(), 0);
    lemma_not_prefix(name, "GFDL-".spec_bytes(), 0);
    lemma_not_prefix(name, "GPL-".spec_bytes(), 0);
    lemma_not_prefix(name, "LGPL-".spec_bytes(), 1);
}

proof fn lemma_gnu_flag_228()
    ensures
        gnu_name("LPPL-1.3a".spec_bytes()) == (0x1u8 & IS_GNU != 0),
{
    lemma_gnu_bit(0x1);
    lemma_gnu_words();
    reveal_strlit("LPPL-1.3a");
    is_ascii_chars_encode_utf8("LPPL-1.3a"@);
    let name = "LPPL-1.3a".spec_bytes();
    lemma_not_prefix(name, "AGPL-".spec_bytes(), 0);
    lemma_not_prefix(name, "GFDL-".spec_bytes(), 0);
    lemma_not_prefix(name, "GPL-".spec_bytes(), 0);
    lemma_not_prefix(name, "LGPL-".spec_bytes(), 1);
}

proof fn lemma_gnu_flag_229()
    ensures
        gnu_name("LPPL-1.3c".spec_bytes()) == (0x2u8 & IS_GNU != 0),
{
    lemma_gnu_bit(0x2);
    lemma_gnu_words();
    reveal_strlit("LPPL-1.3c");
    is_ascii_chars_encode_utf8("LPPL-1.3c"@);
    let name = "LPPL-1.3c".spec_bytes();
    lemma_not_prefix(name, "AGPL-".spec_bytes(), 0);
    lemma_not_prefix(name, "GFDL-".spec_bytes(), 0);
    lemma_not_prefix(name, "GPL-".spec_bytes(), 0);
    lemma_not_prefix(name, "LGPL-".spec_bytes(), 1);
}

proof fn lemma_gnu_flag_230()
    ensures
        gnu_name("Latex2e".spec_bytes()) == (0x0u8 & IS_GNU != 0),
{
    lemma_gnu_bit(0x0);
    lemma_gnu_words();
    reveal_strlit("Latex2e");
    is_ascii_chars_encode_utf8("Latex2e"@);
    let name = "Latex2e".spec_bytes();
    lemma_not_prefix(name, "AGPL-".spec_bytes(), 0);
    lemma_not_prefix(name, "GFDL-".spec_bytes(), 0);
    lemma_not_prefix(name, "GPL-".spec_bytes(), 0);
    lemma_not_prefix(name, "LGPL-".spec_bytes(), 1);
}

proof fn lemma_gnu_flag_231()
    ensures
        gnu_name("Leptonica".spec_bytes()) == (0x0u8 & IS_GNU != 0),
{
    lemma_gnu_bit(0x0);
    lemma_gnu_words();
    reveal_strlit("Leptonica");
    is_ascii_chars_encode_utf8("Leptonica"@);
    let name = "Leptonica".spec_bytes();
    lemma_not_prefix(name, "AGPL-".spec_bytes(), 0);
    lemma_not_prefix(name, "GFDL-".spec_bytes(), 0);
    lemma_not_prefix(name, "GPL-".spec_bytes(), 0);
    lemma_not_prefix(name, "LGPL-".spec_bytes(), 1);
}

proof fn lemma_gnu_flag_232()
    ensures
        gnu_name("LiLiQ-P-1.1".spec_bytes()) == (0x2u8 & IS_GNU != 0),
{
    lemma_gnu_bit(0x2);
    lemma_gnu_words();
    reveal_strlit("LiLiQ-P-1.1");
    is_ascii_chars_encode_utf8("LiLiQ-P-1.1"@);
    let name = "LiLiQ-P-1.1".spec_bytes();
    lemma_not_prefix(name, "AGPL-".spec_bytes(), 0);
    lemma_not_prefix(name, "GFDL-".spec_bytes(), 0);
    lemma_not_prefix(name, "GPL-".spec_bytes(), 0);
    lemma_not_prefix(name, "LGPL-".spec_bytes(), 1);
}

proof fn lemma_gnu_flag_233()
    ensures
        gnu_name("LiLiQ-R-1.1".spec_bytes()) == (0x2u8 & IS_GNU != 0),
{
    lemma_gnu_bit(0x2);
    lemma_gnu_words();
    reveal_strlit("LiLiQ-R-1.1");
    is_ascii_chars_encode_utf8("LiLiQ-R-1.1"@);
    let name = "LiLiQ-R-1.1".spec_bytes();
    lemma_not_prefix(name, "AGPL-".spec_bytes(), 0);
    lemma_not_prefix(name, "GFDL-".spec_bytes(), 0);
    lemma_not_prefix(name, "GPL-".spec_bytes(), 0);
    lemma_not_prefix(name, "LGPL-".spec_bytes(), 1);
}

proof fn lemma_gnu_flag_234()
    ensures
        gnu_name("LiLiQ-Rplus-1.1".spec_bytes()) == (0x2u8 & IS_GNU != 0),
{
    lemma_gnu_bit(0x2);
    lemma_gnu_words();
    reveal_strlit("LiLiQ-Rplus-1.1");
    is_ascii_chars_encode_utf8("LiLiQ-Rplus-1.1"@);
    let name = "LiLiQ-Rplus-1.1".spec_bytes();
    lemma_not_prefix(name, "AGPL-".spec_bytes(), 0);
    lemma_not_prefix(name, "GFDL-".spec_bytes(), 0);
    lemma_not_prefix(name, "GPL-".spec_bytes(), 0);
    lemma_not_prefix(name, "LGPL-".spec_bytes(), 1);
}

proof fn lemma_gnu_flag_235()
    ensures
        gnu_name("Libpng".spec_bytes()) == (0x0u8 & IS_GNU != 0),
{
    lemma_gnu_bit(0x0);
    lemma_gnu_words();
    reveal_strlit("Libpng");
    is_ascii_chars_encode_utf8("Libpng"@);
    let name = "Libpng".spec_bytes();
    lemma_not_prefix(name, "AGPL-".spec_bytes(), 0);
    lemma_not_prefix(name, "GFDL-".spec_bytes(), 0);
    lemma_not_prefix(name, "GPL-".spec_bytes(), 0);
    lemma_not_prefix(name, "LGPL-".spec_bytes(), 1);
}

proof fn lemma_gnu_flag_236()
    ensures
        gnu_name("Linux-OpenIB".spec_bytes()) == (0x0u8 & IS_GNU != 0),
{
    lemma_gnu_bit(0x0);
    lemma_gnu_words();
    reveal_strlit("Linux-OpenIB");
    is_ascii_chars_encode_utf8("Linux-OpenIB"@);
    let name = "Linux-OpenIB".spec_bytes();
    lemma_not_prefix(name, "AGPL-".spec_bytes(), 0);
    lemma_not_prefix(name, "GFDL-".spec_bytes(), 0);
    lemma_not_prefix(name, "GPL-".spec_bytes(), 0);
    lemma_not_prefix(name, "LGPL-".spec_bytes(), 1);
}

proof fn lemma_gnu_flag_237()
    ensures
        gnu_name("MIT".spec_bytes()) == (0x3u8 & IS_GNU != 0),
{
    lemma_gnu_bit(0x3);
    lemma_gnu_words();
    reveal_strlit("MIT");
    is_ascii_chars_encode_utf8("MIT"@);
    let name = "MIT".spec_bytes();
}

proof fn lemma_gnu_flag_238()
    ensures
        gnu_name("MIT-0".spec_bytes()) == (0x2u8 & IS_GNU != 0),
{
    lemma_gnu_bit(0x2);
    lemma_gnu_words();
    reveal_strlit("MIT-0");
    is_ascii_chars_encode_utf8("MIT-0"@);
    let name = "MIT-0".spec_bytes();
    lemma_not_prefix(name, "AGPL-".spec_bytes(), 0);
    lemma_not_prefix(name, "GFDL-".spec_bytes(), 0);
    lemma_not_prefix(name, "GPL-".spec_bytes(), 0);
    lemma_not_prefix(name, "LGPL-".spec_bytes(), 0);
}

proof fn lemma_gnu_flag_239()
    ensures
        gnu_name("MIT-CMU".spec_bytes()) == (0x0u8 & IS_GNU != 0),
{
    lemma_gnu_bit(0x0);
    lemma_gnu_words();
    reveal_strlit("MIT-CMU");
    is_ascii_chars_encode_utf8("MIT-CMU"@);
    let name = "MIT-CMU".spec_bytes();
    lemma_not_prefix(name, "AGPL-".spec_bytes(), 0);
    lemma_not_prefix(name, "GFDL-".spec_bytes(), 0);
    lemma_not_prefix(name, "GPL-".spec_bytes(), 0);
    lemma_not_prefix(name, "LGPL-".spec_bytes(), 0);
}

proof fn lemma_gnu_flag_240()
    ensures
        gnu_name("MIT-advertising".spec_bytes()) == (0x0u8 & IS_GNU != 0),
{
    lemma_gnu_bit(0x0);
    lemma_gnu_words();
    reveal_strlit("MIT-advertising");
    is_ascii_chars_encode_utf8("MIT-advertising"@);
    let name = "MIT-advertising".spec_bytes();
    lemma_not_prefix(name, "AGPL-".spec_bytes(), 0);
    lemma_not_prefix(name, "GFDL-".spec_bytes(), 0);
    lemma_not_prefix(name, "GPL-".spec_bytes(), 0);
    lemma_not_prefix(name, "LGPL-".spec_bytes(), 0);
}

proof fn lemma_gnu_flag_241()
    ensures
        gnu_name("MIT-enna".spec_bytes()) == (0x0u8 & IS_GNU != 0),
{
    lemma_gnu_bit(0x0);
    lemma_gnu_words();
    reveal_strlit("MIT-enna");
    is_ascii_chars_encode_utf8("MIT-enna"@);
    let name = "MIT-enna".spec_bytes();
    lemma_not_prefix(name, "AGPL-".spec_bytes(), 0);
    lemma_not_prefix(name, "GFDL-".spec_bytes(), 0);
    lemma_not_prefix(name, "GPL-".spec_bytes(), 0);
    lemma_not_prefix(name, "LGPL-".spec_bytes(), 0);
}

proof fn lemma_gnu_flag_242()
    ensures
        gnu_name("MIT-feh".spec_bytes()) == (0x0u8 & IS_GNU != 0),
{
    lemma_gnu_bit(0x0);
    lemma_gnu_words();
    reveal_strlit("MIT-feh");
    is_ascii_chars_encode_utf8("MIT-feh"@);
    let name = "MIT-feh".spec_bytes();
    lemma_not_prefix(name, "AGPL-".spec_bytes(), 0);
    lemma_not_prefix(name, "GFDL-".spec_bytes(), 0);
    lemma_not_prefix(name, "GPL-".spec_bytes(), 0);
    lemma_not_prefix(name, "LGPL-".spec_bytes(), 0);
}

proof fn lemma_gnu_flag_243()
    ensures
        gnu_name("MITNFA".spec_bytes()) == (0x0u8 & IS_GNU != 0),
{
    lemma_gnu_bit(0x0);
    lemma_gnu_words();
    reveal_strlit("MITNFA");
    is_ascii_chars_encode_utf8("MITNFA"@);
    let name = "MITNFA".spec_bytes();
    lemma_not_prefix(name, "AGPL-".spec_bytes(), 0);
    lemma_not_prefix(name, "GFDL-".spec_bytes(), 0);
    lemma_not_prefix(name, "GPL-".spec_bytes(), 0);
    lemma_not_prefix(name, "LGPL-".spec_bytes(), 0);
}

proof fn lemma_gnu_flag_244()
    ensures
        gnu_name("MPL-1.0".spec_bytes()) == (0xau8 & IS_GNU != 0),
{
    lemma_gnu_bit(0xa);
    lemma_gnu_words();
    reveal_strlit("MPL-1.0");
    is_ascii_chars_encode_utf8("MPL-1.0"@);
    let name = "MPL-1.0".spec_bytes();
    lemma_not_prefix(name, "AGPL-".spec_bytes(), 0);
    lemma_not_prefix(name, "GFDL-".spec_bytes(), 0);
    lemma_not_prefix(name, "GPL-".spec_bytes(), 0);
    lemma_not_prefix(name, "LGPL-".spec_bytes(), 0);
}

proof fn lemma_gnu_flag_245()
    ensures
        gnu_name("MPL-1.1".spec_bytes()) == (0xbu8 & IS_GNU != 0),
{
    lemma_gnu_bit(0xb);
    lemma_gnu_words();
    reveal_strlit("MPL-1.1");
    is_ascii_chars_encode_utf8("MPL-1.1"@);
    let name = "MPL-1.1".spec_bytes();
    lemma_not_prefix(name, "AGPL-".spec_bytes(), 0);
    lemma_not_prefix(name, "GFDL-".spec_bytes(), 0);
    lemma_not_prefix(name, "GPL-".spec_bytes(), 0);
    lemma_not_prefix(name, "LGPL-".spec_bytes(), 0);
}

proof fn lemma_gnu_flag_246()
    ensures
        gnu_name("MPL-2.0".spec_bytes()) == (0xbu8 & IS_GNU != 0),
{
    lemma_gnu_bit(0xb);
    lemma_gnu_words();
    reveal_strlit("MPL-2.0");
    is_ascii_chars_encode_utf8("MPL-2.0"@);
    let name = "MPL-2.0".spec_bytes();
    lemma_not_prefix(name, "AGPL-".spec_bytes(), 0);
    lemma_not_prefix(name, "GFDL-".spec_bytes(), 0);
    lemma_not_prefix(name, "GPL-".spec_bytes(), 0);
    lemma_not_prefix(name, "LGPL-".spec_bytes(), 0);
}

proof fn lemma_gnu_flag_247()
    ensures
        gnu_name("MPL-2.0-no-copyleft-exception".spec_bytes()) == (0xau8 & IS_GNU != 0),
{
    lemma_gnu_bit(0xa);
    lemma_gnu_words();
    reveal_strlit("MPL-2.0-no-copyleft-exception");
    is_ascii_chars_encode_utf8("MPL-2.0-no-copyleft-exception"@);
    let name = "MPL-2.0-no-copyleft-exception".spec_bytes();
    lemma_not_prefix(name, "AGPL-".spec_bytes(), 0);
    lemma_not_prefix(name, "GFDL-".spec_bytes(), 0);
    lemma_not_prefix(name, "GPL-".spec_bytes(), 0);
    lemma_not_prefix(name, "LGPL-".spec_bytes(), 0);
}

proof fn lemma_gnu_flag_248()
    ensures
        gnu_name("MS-PL".spec_bytes()) == (0xbu8 & IS_GNU != 0),
{
    lemma_gnu_bit(0xb);
    lemma_gnu_words();
    reveal_strlit("MS-PL");
    is_ascii_chars_encode_utf8("MS-PL"@);
    let name = "MS-PL".spec_bytes();
    lemma_not_prefix(name, "AGPL-".spec_bytes(), 0);
    lemma_not_prefix(name, "GFDL-".spec_bytes(), 0);
    lemma_not_prefix(name, "GPL-".spec_bytes(), 0);
    lemma_not_prefix(name, "LGPL-".spec_bytes(), 0);
}

proof fn lemma_gnu_flag_249()
    ensures
        gnu_name("MS-RL".spec_bytes()) == (0xbu8 & IS_GNU != 0),
{
    lemma_gnu_bit(0xb);
    lemma_gnu_words();
    reveal_strlit("MS-RL");
    is_ascii_chars_encode_utf8("MS-RL"@);
    let name = "MS-RL".spec_bytes();
    lemma_not_prefix(name, "AGPL-".spec_bytes(), 0);
    lemma_not_prefix(name, "GFDL-".spec_bytes(), 0);
    lemma_not_prefix(name, "GPL-".spec_bytes(), 0);
    lemma_not_prefix(name, "LGPL-".spec_bytes(), 0);
}

proof fn lemma_gnu_flag_250()
    ensures
        gnu_name("MTLL".spec_bytes()) == (0x0u8 & IS_GNU != 0),
{
    lemma_gnu_bit(0x0);
    lemma_gnu_words();
    reveal_strlit("MTLL");
    is_ascii_chars_encode_utf8("MTLL"@);
    let name = "MTLL".spec_bytes();
    lemma_not_prefix(name, "GPL-".spec_bytes(), 0);
}

proof fn lemma_gnu_flag_251()
    ensures
        gnu_name("MakeIndex".spec_bytes()) == (0x0u8 & IS_GNU != 0),
{
    lemma_gnu_bit(0x0);
    lemma_gnu_words();
    reveal_strlit("MakeIndex");
    is_ascii_chars_encode_utf8("MakeIndex"@);
    let name = "MakeIndex".spec_bytes();
    lemma_not_prefix(name, "AGPL-".spec_bytes(), 0);
    lemma_not_prefix(name, "GFDL-".spec_bytes(), 0);
    lemma_not_prefix(name, "GPL-".spec_bytes(), 0);
    lemma_not_prefix(name, "LGPL-".spec_bytes(), 0);
}

proof fn lemma_gnu_flag_252()
    ensures
        gnu_name("MirOS".spec_bytes()) == (0x2u8 & IS_GNU != 0),
{
    lemma_gnu_bit(0x2);
    lemma_gnu_words();
    reveal_strlit("MirOS");
    is_ascii_chars_encode_utf8("MirOS"@);
    let name = "MirOS".spec_bytes();
    lemma_not_prefix(name, "AGPL-".spec_bytes(), 0);
    lemma_not_prefix(name, "GFDL-".spec_bytes(), 0);
    lemma_not_prefix(name, "GPL-".spec_bytes(), 0);
    lemma_not_prefix(name, "LGPL-".spec_bytes(), 0);
}

proof fn lemma_gnu_flag_253()
    ensures
        gnu_name("Motosoto".spec_bytes()) == (0x2u8 & IS_GNU != 0),
{
    lemma_gnu_bit(0x2);
    lemma_gnu_words();
    reveal_strlit("Motosoto");
    is_ascii_chars_encode_utf8("Motosoto"@);
    let name = "Motosoto".spec_bytes();
    lemma_not_prefix(name, "AGPL-".spec_bytes(), 0);
    lemma_not_prefix(name, "GFDL-".spec_bytes(), 0);
    lemma_not_prefix(name, "GPL-".spec_bytes(), 0);
    lemma_not_prefix(name, "LGPL-".spec_bytes(), 0);
}

proof fn lemma_gnu_flag_254()
    ensures
        gnu_name("Multics".spec_bytes()) == (0x2u8 & IS_GNU != 0),
{
    lemma_gnu_bit(0x2);
    lemma_gnu_words();
    reveal_strlit("Multics");
    is_ascii_chars_encode_utf8("Multics"@);
    let name = "Multics".spec_bytes();
    lemma_not_prefix(name, "AGPL-".spec_bytes(), 0);
    lemma_not_prefix(name, "GFDL-".spec_bytes(), 0);
    lemma_not_prefix(name, "GPL-".spec_bytes(), 0);
    lemma_not_prefix(name, "LGPL-".spec_bytes(), 0);
}

proof fn lemma_gnu_flag_255()
    ensures
        gnu_name("Mup".spec_bytes()) == (0x0u8 & IS_GNU != 0),
{
    lemma_gnu_bit(0x0);
    lemma_gnu_words();
    reveal_strlit("Mup");
    is_ascii_chars_encode_utf8("Mup"@);
    let name = "Mup".spec_bytes();
}

proof fn lemma_gnu_flag_256()
    ensures
        gnu_name("NASA-1.3".spec_bytes()) == (0x2u8 & IS_GNU != 0),
{
    lemma_gnu_bit(0x2);
    lemma_gnu_words();
    reveal_strlit("NASA-1.3");
    is_ascii_chars_encode_utf8("NASA-1.3"@);
    let name = "NASA-1.3".spec_bytes();
    lemma_not_prefix(name, "AGPL-".spec_bytes(), 0);
    lemma_not_prefix(name, "GFDL-".spec_bytes(), 0);
    lemma_not_prefix(name, "GPL-".spec_bytes(), 0);
    lemma_not_prefix(name, "LGPL-".spec_bytes(), 0);
}

proof fn lemma_gnu_flag_257()
    ensures
        gnu_name("NBPL-1.0".spec_bytes()) == (0x0u8 & IS_GNU != 0),
{
    lemma_gnu_bit(0x0);
    lemma_gnu_words();
    reveal_strlit("NBPL-1.0");
    is_ascii_chars_encode_utf8("NBPL-1.0"@);
    let name = "NBPL-1.0".spec_bytes();
    lemma_not_prefix(name, "AGPL-".spec_bytes(), 0);
    lemma_not_prefix(name, "GFDL-".spec_bytes(), 0);
    lemma_not_prefix(name, "GPL-".spec_bytes(), 0);
    lemma_not_prefix(name, "LGPL-".spec_bytes(), 0);
}

proof fn lemma_gnu_flag_258()
    ensures
        gnu_name("NCSA".spec_bytes()) == (0x3u8 & IS_GNU != 0),
{
    lemma_gnu_bit(0x3);
    lemma_gnu_words();
    reveal_strlit("NCSA");
    is_ascii_chars_encode_utf8("NCSA"@);
    let name = "NCSA".spec_bytes();
    lemma_not_prefix(name, "GPL-".spec_bytes(), 0);
}

proof fn lemma_gnu_flag_259()
    ensures
        gnu_name("NGPL".spec_bytes()) == (0x2u8 & IS_GNU != 0),
{
    lemma_gnu_bit(0x2);
    lemma_gnu_words();
    reveal_strlit("NGPL");
    is_ascii_chars_encode_utf8("NGPL"@);
    let name = "NGPL".spec_bytes();
    lemma_not_prefix(name, "GPL-".spec_bytes(), 0);
}

proof fn lemma_gnu_flag_260()
    ensures
        gnu_name("NLOD-1.0".spec_bytes()) == (0x0u8 & IS_GNU != 0),
{
    lemma_gnu_bit(0x0);
    lemma_gnu_words();
    reveal_strlit("NLOD-1.0");
    is_ascii_chars_encode_utf8("NLOD-1.0"@);
    let name = "NLOD-1.0".spec_bytes();
    lemma_not_prefix(name, "AGPL-".spec_bytes(), 0);
    lemma_not_prefix(name, "GFDL-".spec_bytes(), 0);
    lemma_not_prefix(name, "GPL-".spec_bytes(), 0);
    lemma_not_prefix(name, "LGPL-".spec_bytes(), 0);
}

proof fn lemma_gnu_flag_261()
    ensures
        gnu_name("NLPL".spec_bytes()) == (0x0u8 & IS_GNU != 0),
{
    lemma_gnu_bit(0x0);
    lemma_gnu_words();
    reveal_strlit("NLPL");
    is_ascii_chars_encode_utf8("NLPL"@);
    let name = "NLPL".spec_bytes();
    lemma_not_prefix(name, "GPL-".spec_bytes(), 0);
}

proof fn lemma_gnu_flag_262()
    ensures
        gnu_name("NOASSERTION".spec_bytes()) == (0x0u8 & IS_GNU != 0),
{
    lemma_gnu_bit(0x0);
    lemma_gnu_words();
    reveal_strlit("NOASSERTION");
    is_ascii_chars_encode_utf8("NOASSERTION"@);
    let name = "NOASSERTION".spec_bytes();
    lemma_not_prefix(name, "AGPL-".spec_bytes(), 0);
    lemma_not_prefix(name, "GFDL-".spec_bytes(), 0);
    lemma_not_prefix(name, "GPL-".spec_bytes(), 0);
    lemma_not_prefix(name, "LGPL-".spec_bytes(), 0);
}

proof fn lemma_gnu_flag_263()
    ensures
        gnu_name("NOSL".spec_bytes()) == (0x1u8 & IS_GNU != 0),
{
    lemma_gnu_bit(0x1);
    lemma_gnu_words();
    reveal_strlit("NOSL");
    is_ascii_chars_encode_utf8("NOSL"@);
    let name = "NOSL".spec_bytes();
    lemma_not_prefix(name, "GPL-".spec_bytes(), 0);
}

proof fn lemma_gnu_flag_264()
    ensures
        gnu_name("NPL-1.0".spec_bytes()) == (0x9u8 & IS_GNU != 0),
{
    lemma_gnu_bit(0x9);
    lemma_gnu_words();
    reveal_strlit("NPL-1.0");
    is_ascii_chars_encode_utf8("NPL-1.0"@);
    let name = "NPL-1.0".spec_bytes();
    lemma_not_prefix(name, "AGPL-".spec_bytes(), 0);
    lemma_not_prefix(name, "GFDL-".spec_bytes(), 0);
    lemma_not_prefix(name, "GPL-".spec_bytes(), 0);
    lemma_not_prefix(name, "LGPL-".spec_bytes(), 0);
}

proof fn lemma_gnu_flag_265()
    ensures
        gnu_name("NPL-1.1".spec_bytes()) == (0x9u8 & IS_GNU != 0),
{
    lemma_gnu_bit(0x9);
    lemma_gnu_words();
    reveal_strlit("NPL-1.1");
    is_ascii_chars_encode_utf8("NPL-1.1"@);
    let name = "NPL-1.1".spec_bytes();
    lemma_not_prefix(name, "AGPL-".spec_bytes(), 0);
    lemma_not_prefix(name, "GFDL-".spec_bytes(), 0);
    lemma_not_prefix(name, "GPL-".spec_bytes(), 0);
    lemma_not_prefix(name, "LGPL-".spec_bytes(), 0);
}

proof fn lemma_gnu_flag_266()
    ensures
        gnu_name("NPOSL-3.0".spec_bytes()) == (0x2u8 & IS_GNU != 0),
{
    lemma_gnu_bit(0x2);
    lemma_gnu_words();
    reveal_strlit("NPOSL-3.0");
    is_ascii_chars_encode_utf8("NPOSL-3.0"@);
    let name = "NPOSL-3.0".spec_bytes();
    lemma_not_prefix(name, "AGPL-".spec_bytes(), 0);
    lemma_not_prefix(name, "GFDL-".spec_bytes(), 0);
    lemma_not_prefix(name, "GPL-".spec_bytes(), 0);
    lemma_not_prefix(name, "LGPL-".spec_bytes(), 0);
}

proof fn lemma_gnu_flag_267()
    ensures
        gnu_name("NRL".spec_bytes()) == (0x0u8 & IS_GNU != 0),
{
    lemma_gnu_bit(0x0);
    lemma_gnu_words();
    reveal_strlit("NRL");
    is_ascii_chars_encode_utf8("NRL"@);
    let name = "NRL".spec_bytes();
}

proof fn lemma_gnu_flag_268()
    ensures
        gnu_name("NTP".spec_bytes()) == (0x2u8 & IS_GNU != 0),
{
    lemma_gnu_bit(0x2);
    lemma_gnu_words();
    reveal_strlit("NTP");
    is_ascii_chars_encode_utf8("NTP"@);
    let name = "NTP".spec_bytes();
}

proof fn lemma_gnu_flag_269()
    ensures
        gnu_name("Naumen".spec_bytes()) == (0x2u8 & IS_GNU != 0),
{
    lemma_gnu_bit(0x2);
    lemma_gnu_words();
    reveal_strlit("Naumen");
    is_ascii_chars_encode_utf8("Naumen"@);
    let name = "Naumen".spec_bytes();
    lemma_not_prefix(name, "AGPL-".spec_bytes(), 0);
    lemma_not_prefix(name, "GFDL-".spec_bytes(), 0);
    lemma_not_prefix(name, "GPL-".spec_bytes(), 0);
    lemma_not_prefix(name, "LGPL-".spec_bytes(), 0);
}

proof fn lemma_gnu_flag_270()
    ensures
        gnu_name("Net-SNMP".spec_bytes()) == (0x0u8 & IS_GNU != 0),
{
    lemma_gnu_bit(0x0);
    lemma_gnu_words();
    reveal_strlit("Net-SNMP");
    is_ascii_chars_encode_utf8("Net-SNMP"@);
    let name = "Net-SNMP".spec_bytes();
    lemma_not_prefix(name, "AGPL-".spec_bytes(), 0);
    lemma_not_prefix(name, "GFDL-".spec_bytes(), 0);
    lemma_not_prefix(name, "GPL-".spec_bytes(), 0);
    lemma_not_prefix(name, "LGPL-".spec_bytes(), 0);
}

proof fn lemma_gnu_flag_271()
    ensures
        gnu_name("NetCDF".spec_bytes()) == (0x0u8 & IS_GNU != 0),
{
    lemma_gnu_bit(0x0);
    lemma_gnu_words();
    reveal_strlit("NetCDF");
    is_ascii_chars_encode_utf8("NetCDF"@);
    let name = "NetCDF".spec_bytes();
    lemma_not_prefix(name, "AGPL-".spec_bytes(), 0);
    lemma_not_prefix(name, "GFDL-".spec_bytes(), 0);
    lemma_not_prefix(name, "GPL-".spec_bytes(), 0);
    lemma_not_prefix(name, "LGPL-".spec_bytes(), 0);
}

proof fn lemma_gnu_flag_272()
    ensures
        gnu_name("Newsletr".spec_bytes()) == (0x0u8 & IS_GNU != 0),
{
    lemma_gnu_bit(0x0);
    lemma_gnu_words();
    reveal_strlit("Newsletr");
    is_ascii_chars_encode_utf8("Newsletr"@);
    let name = "Newsletr".spec_bytes();
    lemma_not_prefix(name, "AGPL-".spec_bytes(), 0);
    lemma_not_prefix(name, "GFDL-".spec_bytes(), 0);
    lemma_not_prefix(name, "GPL-".spec_bytes(), 0);
    lemma_not_prefix(name, "LGPL-".spec_bytes(), 0);
}

proof fn lemma_gnu_flag_273()
    ensures
        gnu_name("Nokia".spec_bytes()) == (0x3u8 & IS_GNU != 0),
{
    lemma_gnu_bit(0x3);
    lemma_gnu_words();
    reveal_strlit("Nokia");
    is_ascii_chars_encode_utf8("Nokia"@);
    let name = "Nokia".spec_bytes();
    lemma_not_prefix(name, "AGPL-".spec_bytes(), 0);
    lemma_not_prefix(name, "GFDL-".spec_bytes(), 0);
    lemma_not_prefix(name, "GPL-".spec_bytes(), 0);
    lemma_not_prefix(name, "LGPL-".spec_bytes(), 0);
}

proof fn lemma_gnu_flag_274()
    ensures
        gnu_name("Noweb".spec_bytes()) == (0x0u8 & IS_GNU != 0),
{
    lemma_gnu_bit(0x0);
    lemma_gnu_words();
    reveal_strlit("Noweb");
    is_ascii_chars_encode_utf8("Noweb"@);
    let name = "Noweb".spec_bytes();
    lemma_not_prefix(name, "AGPL-".spec_bytes(), 0);
    lemma_not_prefix(name, "GFDL-".spec_bytes(), 0);
    lemma_not_prefix(name, "GPL-".spec_bytes(), 0);
    lemma_not_prefix(name, "LGPL-".spec_bytes(), 0);
}

proof fn lemma_gnu_flag_275()
    ensures
        gnu_name("Nunit".spec_bytes()) == (0x5u8 & IS_GNU != 0),
{
    lemma_gnu_bit(0x5);
    lemma_gnu_words();
    reveal_strlit("Nunit");
    is_ascii_chars_encode_utf8("Nunit"@);
    let name = "Nunit".spec_bytes();
    lemma_not_prefix(name, "AGPL-".spec_bytes(), 0);
    lemma_not_prefix(name, "GFDL-".spec_bytes(), 0);
    lemma_not_prefix(name, "GPL-".spec_bytes(), 0);
    lemma_not_prefix(name, "LGPL-".spec_bytes(), 0);
}

proof fn lemma_gnu_flag_276()
    ensures
        gnu_name("OCCT-PL".spec_bytes()) == (0x0u8 & IS_GNU != 0),
{
    lemma_gnu_bit(0x0);
    lemma_gnu_words();
    reveal_strlit("OCCT-PL");
    is_ascii_chars_encode_utf8("OCCT-PL"@);
    let name = "OCCT-PL".spec_bytes();
    lemma_not_prefix(name, "AGPL-".spec_bytes(), 0);
    lemma_not_prefix(name, "GFDL-".spec_bytes(), 0);
    lemma_not_prefix(name, "GPL-".spec_bytes(), 0);
    lemma_not_prefix(name, "LGPL-".spec_bytes(), 0);
}

proof fn lemma_gnu_flag_277()
    ensures
        gnu_name("OCLC-2.0".spec_bytes()) == (0x2u8 & IS_GNU != 0),
{
    lemma_gnu_bit(0x2);
    lemma_gnu_words();
    reveal_strlit("OCLC-2.0");
    is_ascii_chars_encode_utf8("OCLC-2.0"@);
    let name = "OCLC-2.0".spec_bytes();
    lemma_not_prefix(name, "AGPL-".spec_bytes(), 0);
    lemma_not_prefix(name, "GFDL-".spec_bytes(), 0);
    lemma_not_prefix(name, "GPL-".spec_bytes(), 0);
    lemma_not_prefix(name, "LGPL-".spec_bytes(), 0);
}

proof fn lemma_gnu_flag_278()
    ensures
        gnu_name("ODC-By-1.0".spec_bytes()) == (0x0u8 & IS_GNU != 0),
{
    lemma_gnu_bit(0x0);
    lemma_gnu_words();
    reveal_strlit("ODC-By-1.0");
    is_ascii_chars_encode_utf8("ODC-By-1.0"@);
    let name = "ODC-By-1.0".spec_bytes();
    lemma_not_prefix(name, "AGPL-".spec_bytes(), 0);
    lemma_not_prefix(name, "GFDL-".spec_bytes(), 0);
    lemma_not_prefix(name, "GPL-".spec_bytes(), 0);
    lemma_not_prefix(name, "LGPL-".spec_bytes(), 0);
}

proof fn lemma_gnu_flag_279()
    ensures
        gnu_name("ODbL-1.0".spec_bytes()) == (0x1u8 & IS_GNU != 0),
{
    lemma_gnu_bit(0x1);
    lemma_gnu_words();
    reveal_strlit("ODbL-1.0");
    is_ascii_chars_encode_utf8("ODbL-1.0"@);
    let name = "ODbL-1.0".spec_bytes();
    lemma_not_prefix(name, "AGPL-".spec_bytes(), 0);
    lemma_not_prefix(name, "GFDL-".spec_bytes(), 0);
    lemma_not_prefix(name, "GPL-".spec_bytes(), 0);
    lemma_not_prefix(name, "LGPL-".spec_bytes(), 0);
}

proof fn lemma_gnu_flag_280()
    ensures
        gnu_name("OFL-1.0".spec_bytes()) == (0x1u8 & IS_GNU != 0),
{
    lemma_gnu_bit(0x1);
    lemma_gnu_words();
    reveal_strlit("OFL-1.0");
    is_ascii_chars_encode_utf8("OFL-1.0"@);
    let name = "OFL-1.0".spec_bytes();
    lemma_not_prefix(name, "AGPL-".spec_bytes(), 0);
    lemma_not_prefix(name, "GFDL-".spec_bytes(), 0);
    lemma_not_prefix(name, "GPL-".spec_bytes(), 0);
    lemma_not_prefix(name, "LGPL-".spec_bytes(), 0);
}

proof fn lemma_gnu_flag_281()
    ensures
        gnu_name("OFL-1.1".spec_bytes()) == (0x3u8 & IS_GNU != 0),
{
    lemma_gnu_bit(0x3);
    lemma_gnu_words();
    reveal_strlit("OFL-1.1");
    is_ascii_chars_encode_utf8("OFL-1.1"@);
    let name = "OFL-1.1".spec_bytes();
    lemma_not_prefix(name, "AGPL-".spec_bytes(), 0);
    lemma_not_prefix(name, "GFDL-".spec_bytes(), 0);
    lemma_not_prefix(name, "GPL-".spec_bytes(), 0);
    lemma_not_prefix(name, "LGPL-".spec_bytes(), 0);
}

proof fn lemma_gnu_flag_282()
    ensures
        gnu_name("OGL-UK-1.0".spec_bytes()) == (0x0u8 & IS_GNU != 0),
{
    lemma_gnu_bit(0x0);
    lemma_gnu_words();
    reveal_strlit("OGL-UK-1.0");
    is_ascii_chars_encode_utf8("OGL-UK-1.0"@);
    let name = "OGL-UK-1.0".spec_bytes();
    lemma_not_prefix(name, "AGPL-".spec_bytes(), 0);
    lemma_not_prefix(name, "GFDL-".spec_bytes(), 0);
    lemma_not_prefix(name, "GPL-".spec_bytes(), 0);
    lemma_not_prefix(name, "LGPL-".spec_bytes(), 0);
}

proof fn lemma_gnu_flag_283()
    ensures
        gnu_name("OGL-UK-2.0".spec_bytes()) == (0x0u8 & IS_GNU != 0),
{
    lemma_gnu_bit(0x0);
    lemma_gnu_words();
    reveal_strlit("OGL-UK-2.0");
    is_ascii_chars_encode_utf8("OGL-UK-2.0"@);
    let name = "OGL-UK-2.0".spec_bytes();
    lemma_not_prefix(name, "AGPL-".spec_bytes(), 0);
    lemma_not_prefix(name, "GFDL-".spec_bytes(), 0);
    lemma_not_prefix(name, "GPL-".spec_bytes(), 0);
    lemma_not_prefix(name, "LGPL-".spec_bytes(), 0);
}

proof fn lemma_gnu_flag_284()
    ensures
        gnu_name("OGL-UK-3.0".spec_bytes()) == (0x0u8 & IS_GNU != 0),
{
    lemma_gnu_bit(0x0);
    lemma_gnu_words();
    reveal_strlit("OGL-UK-3.0");
    is_ascii_chars_encode_utf8("OGL-UK-3.0"@);
    let name = "OGL-UK-3.0".spec_bytes();
    lemma_not_prefix(name, "AGPL-".spec_bytes(), 0);
    lemma_not_prefix(name, "GFDL-".spec_bytes(), 0);
    lemma_not_prefix(name, "GPL-".spec_bytes(), 0);
    lemma_not_prefix(name, "LGPL-".spec_bytes(), 0);
}

proof fn lemma_gnu_flag_285()
    ensures
        gnu_name("OGTSL".spec_bytes()) == (0x2u8 & IS_GNU != 0),
{
    lemma_gnu_bit(0x2);
    lemma_gnu_words();
    reveal_strlit("OGTSL");
    is_ascii_chars_encode_utf8("OGTSL"@);
    let name = "OGTSL".spec_bytes();
    lemma_not_prefix(name, "AGPL-".spec_bytes(), 0);
    lemma_not_prefix(name, "GFDL-".spec_bytes(), 0);
    lemma_not_prefix(name, "GPL-".spec_bytes(), 0);
    lemma_not_prefix(name, "LGPL-".spec_bytes(), 0);
}

proof fn lemma_gnu_flag_286()
    ensures
        gnu_name("OLDAP-1.1".spec_bytes()) == (0x0u8 & IS_GNU != 0),
{
    lemma_gnu_bit(0x0);
    lemma_gnu_words();
    reveal_strlit("OLDAP-1.1");
    is_ascii_chars_encode_utf8("OLDAP-1.1"@);
    let name = "OLDAP-1.1".spec_bytes();
    lemma_not_prefix(name, "AGPL-".spec_bytes(), 0);
    lemma_not_prefix(name, "GFDL-".spec_bytes(), 0);
    lemma_not_prefix(name, "GPL-".spec_bytes(), 0);
    lemma_not_prefix(name, "LGPL-".spec_bytes(), 0);
}

proof fn lemma_gnu_flag_287()
    ensures
        gnu_name("OLDAP-1.2".spec_bytes()) == (0x0u8 & IS_GNU != 0),
{
    lemma_gnu_bit(0x0);
    lemma_gnu_words();
    reveal_strlit("OLDAP-1.2");
    is_ascii_chars_encode_utf8("OLDAP-1.2"@);
    let name = "OLDAP-1.2".spec_bytes();
    lemma_not_prefix(name, "AGPL-".spec_bytes(), 0);
    lemma_not_prefix(name, "GFDL-".spec_bytes(), 0);
    lemma_not_prefix(name, "GPL-".spec_bytes(), 0);
    lemma_not_prefix(name, "LGPL-".spec_bytes(), 0);
}

proof fn lemma_gnu_flag_288()
    ensures
        gnu_name("OLDAP-1.3".spec_bytes()) == (0x0u8 & IS_GNU != 0),
{
    lemma_gnu_bit(0x0);
    lemma_gnu_words();
    reveal_strlit("OLDAP-1.3");
    is_ascii_chars_encode_utf8("OLDAP-1.3"@);
    let name = "OLDAP-1.3".spec_bytes();
    lemma_not_prefix(name, "AGPL-".spec_bytes(), 0);
    lemma_not_prefix(name, "GFDL-".spec_bytes(), 0);
    lemma_not_prefix(name, "GPL-".spec_bytes(), 0);
    lemma_not_prefix(name, "LGPL-".spec_bytes(), 0);
}

proof fn lemma_gnu_flag_289()
    ensures
        gnu_name("OLDAP-1.4".spec_bytes()) == (0x0u8 & IS_GNU != 0),
{
    lemma_gnu_bit(0x0);
    lemma_gnu_words();
    reveal_strlit("OLDAP-1.4");
    is_ascii_chars_encode_utf8("OLDAP-1.4"@);
    let name = "OLDAP-1.4".spec_bytes();
    lemma_not_prefix(name, "AGPL-".spec_bytes(), 0);
    lemma_not_prefix(name, "GFDL-".spec_bytes(), 0);
    lemma_not_prefix(name, "GPL-".spec_bytes(), 0);
    lemma_not_prefix(name, "LGPL-".spec_bytes(), 0);
}

proof fn lemma_gnu_flag_290()
    ensures
        gnu_name("OLDAP-2.0".spec_bytes()) == (0x0u8 & IS_GNU != 0),
{
    lemma_gnu_bit(0x0);
    lemma_gnu_words();
    reveal_strlit("OLDAP-2.0");
    is_ascii_chars_encode_utf8("OLDAP-2.0"@);
    let name = "OLDAP-2.0".spec_bytes();
    lemma_not_prefix(name, "AGPL-".spec_bytes(), 0);
    lemma_not_prefix(name, "GFDL-".spec_bytes(), 0);
    lemma_not_prefix(name, "GPL-".spec_bytes(), 0);
    lemma_not_prefix(name, "LGPL-".spec_bytes(), 0);
}

proof fn lemma_gnu_flag_291()
    ensures
        gnu_name("OLDAP-2.0.1".spec_bytes()) == (0x0u8 & IS_GNU != 0),
{
    lemma_gnu_bit(0x0);
    lemma_gnu_words();
    reveal_strlit("OLDAP-2.0.1");
    is_ascii_chars_encode_utf8("OLDAP-2.0.1"@);
    let name = "OLDAP-2.0.1".spec_bytes();
    lemma_not_prefix(name, "AGPL-".spec_bytes(), 0);
    lemma_not_prefix(name, "GFDL-".spec_bytes(), 0);
    lemma_not_prefix(name, "GPL-".spec_bytes(), 0);
    lemma_not_prefix(name, "LGPL-".spec_bytes(), 0);
}

proof fn lemma_gnu_flag_292()
    ensures
        gnu_name("OLDAP-2.1".spec_bytes()) == (0x0u8 & IS_GNU != 0),
{
    lemma_gnu_bit(0x0);
    lemma_gnu_words();
    reveal_strlit("OLDAP-2.1");
    is_ascii_chars_encode_utf8("OLDAP-2.1"@);
    let name = "OLDAP-2.1".spec_bytes();
    lemma_not_prefix(name, "AGPL-".spec_bytes(), 0);
    lemma_not_prefix(name, "GFDL-".spec_bytes(), 0);
    lemma_not_prefix(name, "GPL-".spec_bytes(), 0);
    lemma_not_prefix(name, "LGPL-".spec_bytes(), 0);
}

proof fn lemma_gnu_flag_293()
    ensures
        gnu_name("OLDAP-2.2".spec_bytes()) == (0x0u8 & IS_GNU != 0),
{
    lemma_gnu_bit(0x0);
    lemma_gnu_words();
    reveal_strlit("OLDAP-2.2");
    is_ascii_chars_encode_utf8("OLDAP-2.2"@);
    let name = "OLDAP-2.2".spec_bytes();
    lemma_not_prefix(name, "AGPL-".spec_bytes(), 0);
    lemma_not_prefix(name, "GFDL-".spec_bytes(), 0);
    lemma_not_prefix(name, "GPL-".spec_bytes(), 0);
    lemma_not_prefix(name, "LGPL-".spec_bytes(), 0);
}

proof fn lemma_gnu_flag_294()
    ensures
        gnu_name("OLDAP-2.2.1".spec_bytes()) == (0x0u8 & IS_GNU != 0),
{
    lemma_gnu_bit(0x0);
    lemma_gnu_words();
    reveal_strlit("OLDAP-2.2.1");
    is_ascii_chars_encode_utf8("OLDAP-2.2.1"@);
    let name = "OLDAP-2.2.1".spec_bytes();
    lemma_not_prefix(name, "AGPL-".spec_bytes(), 0);
    lemma_not_prefix(name, "GFDL-".spec_bytes(), 0);
    lemma_not_prefix(name, "GPL-".spec_bytes(), 0);
    lemma_not_prefix(name, "LGPL-".spec_bytes(), 0);
}

proof fn lemma_gnu_flag_295()
    ensures
        gnu_name("OLDAP-2.2.2".spec_bytes()) == (0x0u8 & IS_GNU != 0),
{
    lemma_gnu_bit(0x0);
    lemma_gnu_words();
    reveal_strlit("OLDAP-2.2.2");
    is_ascii_chars_encode_utf8("OLDAP-2.2.2"@);
    let name = "OLDAP-2.2.2".spec_bytes();
    lemma_not_prefix(name, "AGPL-".spec_bytes(), 0);
    lemma_not_prefix(name, "GFDL-".spec_bytes(), 0);
    lemma_not_prefix(name, "GPL-".spec_bytes(), 0);
    lemma_not_prefix(name, "LGPL-".spec_bytes(), 0);
}

proof fn lemma_gnu_flag_296()
    ensures
        gnu_name("OLDAP-2.3".spec_bytes()) == (0x1u8 & IS_GNU != 0),
{
    lemma_gnu_bit(0x1);
    lemma_gnu_words();
    reveal_strlit("OLDAP-2.3");
    is_ascii_chars_encode_utf8("OLDAP-2.3"@);
    let name = "OLDAP-2.3".spec_bytes();
    lemma_not_prefix(name, "AGPL-".spec_bytes(), 0);
    lemma_not_prefix(name, "GFDL-".spec_bytes(), 0);
    lemma_not_prefix(name, "GPL-".spec_bytes(), 0);
    lemma_not_prefix(name, "LGPL-".spec_bytes(), 0);
}

proof fn lemma_gnu_flag_297()
    ensures
        gnu_name("OLDAP-2.4".spec_bytes()) == (0x0u8 & IS_GNU != 0),
{
    lemma_gnu_bit(0x0);
    lemma_gnu_words();
    reveal_strlit("OLDAP-2.4");
    is_ascii_chars_encode_utf8("OLDAP-2.4"@);
    let name = "OLDAP-2.4".spec_bytes();
    lemma_not_prefix(name, "AGPL-".spec_bytes(), 0);
    lemma_not_prefix(name, "GFDL-".spec_bytes(), 0);
    lemma_not_prefix(name, "GPL-".spec_bytes(), 0);
    lemma_not_prefix(name, "LGPL-".spec_bytes(), 0);
}

proof fn lemma_gnu_flag_298()
    ensures
        gnu_name("OLDAP-2.5".spec_bytes()) == (0x0u8 & IS_GNU != 0),
{
    lemma_gnu_bit(0x0);
    lemma_gnu_words();
    reveal_strlit("OLDAP-2.5");
    is_ascii_chars_encode_utf8("OLDAP-2.5"@);
    let name = "OLDAP-2.5".spec_bytes();
    lemma_not_prefix(name, "AGPL-".spec_bytes(), 0);
    lemma_not_prefix(name, "GFDL-".spec_bytes(), 0);
    lemma_not_prefix(name, "GPL-".spec_bytes(), 0);
    lemma_not_prefix(name, "LGPL-".spec_bytes(), 0);
}

proof fn lemma_gnu_flag_299()
    ensures
        gnu_name("OLDAP-2.6".spec_bytes()) == (0x0u8 & IS_GNU != 0),
{
    lemma_gnu_bit(0x0);
    lemma_gnu_words();
    reveal_strlit("OLDAP-2.6");
    is_ascii_chars_encode_utf8("OLDAP-2.6"@);
    let name = "OLDAP-2.6".spec_bytes();
    lemma_not_prefix(name, "AGPL-".spec_bytes(), 0);
    lemma_not_prefix(name, "GFDL-".spec_bytes(), 0);
    lemma_not_prefix(name, "GPL-".spec_bytes(), 0);
    lemma_not_prefix(name, "LGPL-".spec_bytes(), 0);
}

proof fn lemma_gnu_flag_300()
    ensures
        gnu_name("OLDAP-2.7".spec_bytes()) == (0x1u8 & IS_GNU != 0),
{
    lemma_gnu_bit(0x1);
    lemma_gnu_words();
    reveal_strlit("OLDAP-2.7");
    is_ascii_chars_encode_utf8("OLDAP-2.7"@);
    let name = "OLDAP-2.7".spec_bytes();
    lemma_not_prefix(name, "AGPL-".spec_bytes(), 0);
    lemma_not_prefix(name, "GFDL-".spec_bytes(), 0);
    lemma_not_prefix(name, "GPL-".spec_bytes(), 0);
    lemma_not_prefix(name, "LGPL-".spec_bytes(), 0);
}

proof fn lemma_gnu_flag_301()
    ensures
        gnu_name("OLDAP-2.8".spec_bytes()) == (0x0u8 & IS_GNU != 0),
{
    lemma_gnu_bit(0x0);
    lemma_gnu_words();
    reveal_strlit("OLDAP-2.8");
    is_ascii_chars_encode_utf8("OLDAP-2.8"@);
    let name = "OLDAP-2.8".spec_bytes();
    lemma_not_prefix(name, "AGPL-".spec_bytes(), 0);
    lemma_not_prefix(name, "GFDL-".spec_bytes(), 0);
    lemma_not_prefix(name, "GPL-".spec_bytes(), 0);
    lemma_not_prefix(name, "LGPL-".spec_bytes(), 0);
}

proof fn lemma_gnu_flag_302()
    ensures
        gnu_name("OML".spec_bytes()) == (0x0u8 & IS_GNU != 0),
{
    lemma_gnu_bit(0x0);
    lemma_gnu_words();
    reveal_strlit("OML");
    is_ascii_chars_encode_utf8("OML"@);
    let name = "OML".spec_bytes();
}

proof fn lemma_gnu_flag_303()
    ensures
        gnu_name("OPL-1.0".spec_bytes()) == (0x0u8 & IS_GNU != 0),
{
    lemma_gnu_bit(0x0);
    lemma_gnu_words();
    reveal_strlit("OPL-1.0");
    is_ascii_chars_encode_utf8("OPL-1.0"@);
    let name = "OPL-1.0".spec_bytes();
    lemma_not_prefix(name, "AGPL-".spec_bytes(), 0);
    lemma_not_prefix(name, "GFDL-".spec_bytes(), 0);
    lemma_not_prefix(name, "GPL-".spec_bytes(), 0);
    lemma_not_prefix(name, "LGPL-".spec_bytes(), 0);
}

proof fn lemma_gnu_flag_304()
    ensures
        gnu_name("OSET-PL-2.1".spec_bytes()) == (0x2u8 & IS_GNU != 0),
{
    lemma_gnu_bit(0x2);
    lemma_gnu_words();
    reveal_strlit("OSET-PL-2.1");
    is_ascii_chars_encode_utf8("OSET-PL-2.1"@);
    let name = "OSET-PL-2.1".spec_bytes();
    lemma_not_prefix(name, "AGPL-".spec_bytes(), 0);
    lemma_not_prefix(name, "GFDL-".spec_bytes(), 0);
    lemma_not_prefix(name, "GPL-".spec_bytes(), 0);
    lemma_not_prefix(name, "LGPL-".spec_bytes(), 0);
}

proof fn lemma_gnu_flag_305()
    ensures
        gnu_name("OSL-1.0".spec_bytes()) == (0xbu8 & IS_GNU != 0),
{
    lemma_gnu_bit(0xb);
    lemma_gnu_words();
    reveal_strlit("OSL-1.0");
    is_ascii_chars_encode_utf8("OSL-1.0"@);
    let name = "OSL-1.0".spec_bytes();
    lemma_not_prefix(name, "AGPL-".spec_bytes(), 0);
    lemma_not_prefix(name, "GFDL-".spec_bytes(), 0);
    lemma_not_prefix(name, "GPL-".spec_bytes(), 0);
    lemma_not_prefix(name, "LGPL-".spec_bytes(), 0);
}

proof fn lemma_gnu_flag_306()
    ensures
        gnu_name("OSL-1.1".spec_bytes()) == (0x9u8 & IS_GNU != 0),
{
    lemma_gnu_bit(0x9);
    lemma_gnu_words();
    reveal_strlit("OSL-1.1");
    is_ascii_chars_encode_utf8("OSL-1.1"@);
    let name = "OSL-1.1".spec_bytes();
    lemma_not_prefix(name, "AGPL-".spec_bytes(), 0);
    lemma_not_prefix(name, "GFDL-".spec_bytes(), 0);
    lemma_not_prefix(name, "GPL-".spec_bytes(), 0);
    lemma_not_prefix(name, "LGPL-".spec_bytes(), 0);
}

proof fn lemma_gnu_flag_307()
    ensures
        gnu_name("OSL-2.0".spec_bytes()) == (0xbu8 & IS_GNU != 0),
{
    lemma_gnu_bit(0xb);
    lemma_gnu_words();
    reveal_strlit("OSL-2.0");
    is_ascii_chars_encode_utf8("OSL-2.0"@);
    let name = "OSL-2.0".spec_bytes();
    lemma_not_prefix(name, "AGPL-".spec_bytes(), 0);
    lemma_not_prefix(name, "GFDL-".spec_bytes(), 0);
    lemma_not_prefix(name, "GPL-".spec_bytes(), 0);
    lemma_not_prefix(name, "LGPL-".spec_bytes(), 0);
}

proof fn lemma_gnu_flag_308()
    ensures
        gnu_name("OSL-2.1".spec_bytes()) == (0xbu8 & IS_GNU != 0),
{
    lemma_gnu_bit(0xb);
    lemma_gnu_words();
    reveal_strlit("OSL-2.1");
    is_ascii_chars_encode_utf8("OSL-2.1"@);
    let name = "OSL-2.1".spec_bytes();
    lemma_not_prefix(name, "AGPL-".spec_bytes(), 0);
    lemma_not_prefix(name, "GFDL-".spec_bytes(), 0);
    lemma_not_prefix(name, "GPL-".spec_bytes(), 0);
    lemma_not_prefix(name, "LGPL-".spec_bytes(), 0);
}

proof fn lemma_gnu_flag_309()
    ensures
        gnu_name("OSL-3.0".spec_bytes()) == (0xbu8 & IS_GNU != 0),
{
    lemma_gnu_bit(0xb);
    lemma_gnu_words();
    reveal_strlit("OSL-3.0");
    is_ascii_chars_encode_utf8("OSL-3.0"@);
    let name = "OSL-3.0".spec_bytes();
    lemma_not_prefix(name, "AGPL-".spec_bytes(), 0);
    lemma_not_prefix(name, "GFDL-".spec_bytes(), 0);
    lemma_not_prefix(name, "GPL-".spec_bytes(), 0);
    lemma_not_prefix(name, "LGPL-".spec_bytes(), 0);
}

proof fn lemma_gnu_flag_310()
    ensures
        gnu_name("OpenSSL".spec_bytes()) == (0x1u8 & IS_GNU != 0),
{
    lemma_gnu_bit(0x1);
    lemma_gnu_words();
    reveal_strlit("OpenSSL");
    is_ascii_chars_encode_utf8("OpenSSL"@);
    let name = "OpenSSL".spec_bytes();
    lemma_not_prefix(name, "AGPL-".spec_bytes(), 0);
    lemma_not_prefix(name, "GFDL-".spec_bytes(), 0);
    lemma_not_prefix(name, "GPL-".spec_bytes(), 0);
    lemma_not_prefix(name, "LGPL-".spec_bytes(), 0);
}

proof fn lemma_gnu_flag_311()
    ensures
        gnu_name("PDDL-1.0".spec_bytes()) == (0x0u8 & IS_GNU != 0),
{
    lemma_gnu_bit(0x0);
    lemma_gnu_words();
    reveal_strlit("PDDL-1.0");
    is_ascii_chars_encode_utf8("PDDL-1.0"@);
    let name = "PDDL-1.0".spec_bytes();
    lemma_not_prefix(name, "AGPL-".spec_bytes(), 0);
    lemma_not_prefix(name, "GFDL-".spec_bytes(), 0);
    lemma_not_prefix(name, "GPL-".spec_bytes(), 0);
    lemma_not_prefix(name, "LGPL-".spec_bytes(), 0);
}

proof fn lemma_gnu_flag_312()
    ensures
        gnu_name("PHP-3.0".spec_bytes()) == (0x2u8 & IS_GNU != 0),
{
    lemma_gnu_bit(0x2);
    lemma_gnu_words();
    reveal_strlit("PHP-3.0");
    is_ascii_chars_encode_utf8("PHP-3.0"@);
    let name = "PHP-3.0".spec_bytes();
    lemma_not_prefix(name, "AGPL-".spec_bytes(), 0);
    lemma_not_prefix(name, "GFDL-".spec_bytes(), 0);
    lemma_not_prefix(name, "GPL-".spec_bytes(), 0);
    lemma_not_prefix(name, "LGPL-".spec_bytes(), 0);
}

proof fn lemma_gnu_flag_313()
    ensures
        gnu_name("PHP-3.01".spec_bytes()) == (0x1u8 & IS_GNU != 0),
{
    lemma_gnu_bit(0x1);
    lemma_gnu_words();
    reveal_strlit("PHP-3.01");
    is_ascii_chars_encode_utf8("PHP-3.01"@);
    let name = "PHP-3.01".spec_bytes();
    lemma_not_prefix(name, "AGPL-".spec_bytes(), 0);
    lemma_not_prefix(name, "GFDL-".spec_bytes(), 0);
    lemma_not_prefix(name, "GPL-".spec_bytes(), 0);
    lemma_not_prefix(name, "LGPL-".spec_bytes(), 0);
}

proof fn lemma_gnu_flag_314()
    ensures
        gnu_name("Parity-6.0.0".spec_bytes()) == (0x8u8 & IS_GNU != 0),
{
    lemma_gnu_bit(0x8);
    lemma_gnu_words();
    reveal_strlit("Parity-6.0.0");
    is_ascii_chars_encode_utf8("Parity-6.0.0"@);
    let name = "Parity-6.0.0".spec_bytes();
    lemma_not_prefix(name, "AGPL-".spec_bytes(), 0);
    lemma_not_prefix(name, "GFDL-".spec_bytes(), 0);
    lemma_not_prefix(name, "GPL-".spec_bytes(), 0);
    lemma_not_prefix(name, "LGPL-".spec_bytes(), 0);
}

proof fn lemma_gnu_flag_315()
    ensures
        gnu_name("Plexus".spec_bytes()) == (0x0u8 & IS_GNU != 0),
{
    lemma_gnu_bit(0x0);
    lemma_gnu_words();
    reveal_strlit("Plexus");
    is_ascii_chars_encode_utf8("Plexus"@);
    let name = "Plexus".spec_bytes();
    lemma_not_prefix(name, "AGPL-".spec_bytes(), 0);
    lemma_not_prefix(name, "GFDL-".spec_bytes(), 0);
    lemma_not_prefix(name, "GPL-".spec_bytes(), 0);
    lemma_not_prefix(name, "LGPL-".spec_bytes(), 0);
}

proof fn lemma_gnu_flag_316()
    ensures
        gnu_name("PostgreSQL".spec_bytes()) == (0x2u8 & IS_GNU != 0),
{
    lemma_gnu_bit(0x2);
    lemma_gnu_words();
    reveal_strlit("PostgreSQL");
    is_ascii_chars_encode_utf8("PostgreSQL"@);
    let name = "PostgreSQL".spec_bytes();
    lemma_not_prefix(name, "AGPL-".spec_bytes(), 0);
    lemma_not_prefix(name, "GFDL-".spec_bytes(), 0);
    lemma_not_prefix(name, "GPL-".spec_bytes(), 0);
    lemma_not_prefix(name, "LGPL-".spec_bytes(), 0);
}

proof fn lemma_gnu_flag_317()
    ensures
        gnu_name("Python-2.0".spec_bytes()) == (0x3u8 & IS_GNU != 0),
{
    lemma_gnu_bit(0x3);
    lemma_gnu_words();
    reveal_strlit("Python-2.0");
    is_ascii_chars_encode_utf8("Python-2.0"@);
    let name = "Python-2.0".spec_bytes();
    lemma_not_prefix(name, "AGPL-".spec_bytes(), 0);
    lemma_not_prefix(name, "GFDL-".spec_bytes(), 0);
    lemma_not_prefix(name, "GPL-".spec_bytes(), 0);
    lemma_not_prefix(name, "LGPL-".spec_bytes(), 0);
}

proof fn lemma_gnu_flag_318()
    ensures
        gnu_name("QPL-1.0".spec_bytes()) == (0x3u8 & IS_GNU != 0),
{
    lemma_gnu_bit(0x3);
    lemma_gnu_words();
    reveal_strlit("QPL-1.0");
    is_ascii_chars_encode_utf8("QPL-1.0"@);
    let name = "QPL-1.0".spec_bytes();
    lemma_not_prefix(name, "AGPL-".spec_bytes(), 0);
    lemma_not_prefix(name, "GFDL-".spec_bytes(), 0);
    lemma_not_prefix(name, "GPL-".spec_bytes(), 0);
    lemma_not_prefix(name, "LGPL-".spec_bytes(), 0);
}

proof fn lemma_gnu_flag_319()
    ensures
        gnu_name("Qhull".spec_bytes()) == (0x0u8 & IS_GNU != 0),
{
    lemma_gnu_bit(0x0);
    lemma_gnu_words();
    reveal_strlit("Qhull");
    is_ascii_chars_encode_utf8("Qhull"@);
    let name = "Qhull".spec_bytes();
    lemma_not_prefix(name, "AGPL-".spec_bytes(), 0);
    lemma_not_prefix(name, "GFDL-".spec_bytes(), 0);
    lemma_not_prefix(name, "GPL-".spec_bytes(), 0);
    lemma_not_prefix(name, "LGPL-".spec_bytes(), 0);
}

proof fn lemma_gnu_flag_320()
    ensures
        gnu_name("RHeCos-1.1".spec_bytes()) == (0x0u8 & IS_GNU != 0),
{
    lemma_gnu_bit(0x0);
    lemma_gnu_words();
    reveal_strlit("RHeCos-1.1");
    is_ascii_chars_encode_utf8("RHeCos-1.1"@);
    let name = "RHeCos-1.1".spec_bytes();
    lemma_not_prefix(name, "AGPL-".spec_bytes(), 0);
    lemma_not_prefix(name, "GFDL-".spec_bytes(), 0);
    lemma_not_prefix(name, "GPL-".spec_bytes(), 0);
    lemma_not_prefix(name, "LGPL-".spec_bytes(), 0);
}

proof fn lemma_gnu_flag_321()
    ensures
        gnu_name("RPL-1.1".spec_bytes()) == (0x2u8 & IS_GNU != 0),
{
    lemma_gnu_bit(0x2);
    lemma_gnu_words();
    reveal_strlit("RPL-1.1");
    is_ascii_chars_encode_utf8("RPL-1.1"@);
    let name = "RPL-1.1".spec_bytes();
    lemma_not_prefix(name, "AGPL-".spec_bytes(), 0);
    lemma_not_prefix(name, "GFDL-".spec_bytes(), 0);
    lemma_not_prefix(name, "GPL-".spec_bytes(), 0);
    lemma_not_prefix(name, "LGPL-".spec_bytes(), 0);
}

proof fn lemma_gnu_flag_322()
    ensures
        gnu_name("RPL-1.5".spec_bytes()) == (0x2u8 & IS_GNU != 0),
{
    lemma_gnu_bit(0x2);
    lemma_gnu_words();
    reveal_strlit("RPL-1.5");
    is_ascii_chars_encode_utf8("RPL-1.5"@);
    let name = "RPL-1.5".spec_bytes();
    lemma_not_prefix(name, "AGPL-".spec_bytes(), 0);
    lemma_not_prefix(name, "GFDL-".spec_bytes(), 0);
    lemma_not_prefix(name, "GPL-".spec_bytes(), 0);
    lemma_not_prefix(name, "LGPL-".spec_bytes(), 0);
}

proof fn lemma_gnu_flag_323()
    ensures
        gnu_name("RPSL-1.0".spec_bytes()) == (0x3u8 & IS_GNU != 0),
{
    lemma_gnu_bit(0x3);
    lemma_gnu_words();
    reveal_strlit("RPSL-1.0");
    is_ascii_chars_encode_utf8("RPSL-1.0"@);
    let name = "RPSL-1.0".spec_bytes();
    lemma_not_prefix(name, "AGPL-".spec_bytes(), 0);
    lemma_not_prefix(name, "GFDL-".spec_bytes(), 0);
    lemma_not_prefix(name, "GPL-".spec_bytes(), 0);
    lemma_not_prefix(name, "LGPL-".spec_bytes(), 0);
}

proof fn lemma_gnu_flag_324()
    ensures
        gnu_name("RSA-MD".spec_bytes()) == (0x0u8 & IS_GNU != 0),
{
    lemma_gnu_bit(0x0);
    lemma_gnu_words();
    reveal_strlit("RSA-MD");
    is_ascii_chars_encode_utf8("RSA-MD"@);
    let name = "RSA-MD".spec_bytes();
    lemma_not_prefix(name, "AGPL-".spec_bytes(), 0);
    lemma_not_prefix(name, "GFDL-".spec_bytes(), 0);
    lemma_not_prefix(name, "GPL-".spec_bytes(), 0);
    lemma_not_prefix(name, "LGPL-".spec_bytes(), 0);
}

proof fn lemma_gnu_flag_325()
    ensures
        gnu_name("RSCPL".spec_bytes()) == (0x2u8 & IS_GNU != 0),
{
    lemma_gnu_bit(0x2);
    lemma_gnu_words();
    reveal_strlit("RSCPL");
    is_ascii_chars_encode_utf8("RSCPL"@);
    let name = "RSCPL".spec_bytes();
    lemma_not_prefix(name, "AGPL-".spec_bytes(), 0);
    lemma_not_prefix(name, "GFDL-".spec_bytes(), 0);
    lemma_not_prefix(name, "GPL-".spec_bytes(), 0);
    lemma_not_prefix(name, "LGPL-".spec_bytes(), 0);
}

proof fn lemma_gnu_flag_326()
    ensures
        gnu_name("Rdisc".spec_bytes()) == (0x0u8 & IS_GNU != 0),
{
    lemma_gnu_bit(0x0);
    lemma_gnu_words();
    reveal_strlit("Rdisc");
    is_ascii_chars_encode_utf8("Rdisc"@);
    let name = "Rdisc".spec_bytes();
    lemma_not_prefix(name, "AGPL-".spec_bytes(), 0);
    lemma_not_prefix(name, "GFDL-".spec_bytes(), 0);
    lemma_not_prefix(name, "GPL-".spec_bytes(), 0);
    lemma_not_prefix(name, "LGPL-".spec_bytes(), 0);
}

proof fn lemma_gnu_flag_327()
    ensures
        gnu_name("Ruby".spec_bytes()) == (0x1u8 & IS_GNU != 0),
{
    lemma_gnu_bit(0x1);
    lemma_gnu_words();
    reveal_strlit("Ruby");
    is_ascii_chars_encode_utf8("Ruby"@);
    let name = "Ruby".spec_bytes();
    lemma_not_prefix(name, "GPL-".spec_bytes(), 0);
}

proof fn lemma_gnu_flag_328()
    ensures
        gnu_name("SAX-PD".spec_bytes()) == (0x0u8 & IS_GNU != 0),
{
    lemma_gnu_bit(0x0);
    lemma_gnu_words();
    reveal_strlit("SAX-PD");
    is_ascii_chars_encode_utf8("SAX-PD"@);
    let name = "SAX-PD".spec_bytes();
    lemma_not_prefix(name, "AGPL-".spec_bytes(), 0);
    lemma_not_prefix(name, "GFDL-".spec_bytes(), 0);
    lemma_not_prefix(name, "GPL-".spec_bytes(), 0);
    lemma_not_prefix(name, "LGPL-".spec_bytes(), 0);
}

proof fn lemma_gnu_flag_329()
    ensures
        gnu_name("SCEA".spec_bytes()) == (0x0u8 & IS_GNU != 0),
{
    lemma_gnu_bit(0x0);
    lemma_gnu_words();
    reveal_strlit("SCEA");
    is_ascii_chars_encode_utf8("SCEA"@);
    let name = "SCEA".spec_bytes();
    lemma_not_prefix(name, "GPL-".spec_bytes(), 0);
}

proof fn lemma_gnu_flag_330()
    ensures
        gnu_name("SGI-B-1.0".spec_bytes()) == (0x0u8 & IS_GNU != 0),
{
    lemma_gnu_bit(0x0);
    lemma_gnu_words();
    reveal_strlit("SGI-B-1.0");
    is_ascii_chars_encode_utf8("SGI-B-1.0"@);
    let name = "SGI-B-1.0".spec_bytes();
    lemma_not_prefix(name, "AGPL-".spec_bytes(), 0);
    lemma_not_prefix(name, "GFDL-".spec_bytes(), 0);
    lemma_not_prefix(name, "GPL-".spec_bytes(), 0);
    lemma_not_prefix(name, "LGPL-".spec_bytes(), 0);
}

proof fn lemma_gnu_flag_331()
    ensures
        gnu_name("SGI-B-1.1".spec_bytes()) == (0x0u8 & IS_GNU != 0),
{
    lemma_gnu_bit(0x0);
    lemma_gnu_words();
    reveal_strlit("SGI-B-1.1");
    is_ascii_chars_encode_utf8("SGI-B-1.1"@);
    let name = "SGI-B-1.1".spec_bytes();
    lemma_not_prefix(name, "AGPL-".spec_bytes(), 0);
    lemma_not_prefix(name, "GFDL-".spec_bytes(), 0);
    lemma_not_prefix(name, "GPL-".spec_bytes(), 0);
    lemma_not_prefix(name, "LGPL-".spec_bytes(), 0);
}

proof fn lemma_gnu_flag_332()
    ensures
        gnu_name("SGI-B-2.0".spec_bytes()) == (0x1u8 & IS_GNU != 0),
{
    lemma_gnu_bit(0x1);
    lemma_gnu_words();
    reveal_strlit("SGI-B-2.0");
    is_ascii_chars_encode_utf8("SGI-B-2.0"@);
    let name = "SGI-B-2.0".spec_bytes();
    lemma_not_prefix(name, "AGPL-".spec_bytes(), 0);
    lemma_not_prefix(name, "GFDL-".spec_bytes(), 0);
    lemma_not_prefix(name, "GPL-".spec_bytes(), 0);
    lemma_not_prefix(name, "LGPL-".spec_bytes(), 0);
}

proof fn lemma_gnu_flag_333()
    ensures
        gnu_name("SHL-0.5".spec_bytes()) == (0x0u8 & IS_GNU != 0),
{
    lemma_gnu_bit(0x0);
    lemma_gnu_words();
    reveal_strlit("SHL-0.5");
    is_ascii_chars_encode_utf8("SHL-0.5"@);
    let name = "SHL-0.5".spec_bytes();
    lemma_not_prefix(name, "AGPL-".spec_bytes(), 0);
    lemma_not_prefix(name, "GFDL-".spec_bytes(), 0);
    lemma_not_prefix(name, "GPL-".spec_bytes(), 0);
    lemma_not_prefix(name, "LGPL-".spec_bytes(), 0);
}

proof fn lemma_gnu_flag_334()
    ensures
        gnu_name("SHL-0.51".spec_bytes()) == (0x0u8 & IS_GNU != 0),
{
    lemma_gnu_bit(0x0);
    lemma_gnu_words();
    reveal_strlit("SHL-0.51");
    is_ascii_chars_encode_utf8("SHL-0.51"@);
    let name = "SHL-0.51".spec_bytes();
    lemma_not_prefix(name, "AGPL-".spec_bytes(), 0);
    lemma_not_prefix(name, "GFDL-".spec_bytes(), 0);
    lemma_not_prefix(name, "GPL-".spec_bytes(), 0);
    lemma_not_prefix(name, "LGPL-".spec_bytes(), 0);
}

proof fn lemma_gnu_flag_335()
    ensures
        gnu_name("SISSL".spec_bytes()) == (0xbu8 & IS_GNU != 0),
{
    lemma_gnu_bit(0xb);
    lemma_gnu_words();
    reveal_strlit("SISSL");
    is_ascii_chars_encode_utf8("SISSL"@);
    let name = "SISSL".spec_bytes();
    lemma_not_prefix(name, "AGPL-".spec_bytes(), 0);
    lemma_not_prefix(name, "GFDL-".spec_bytes(), 0);
    lemma_not_prefix(name, "GPL-".spec_bytes(), 0);
    lemma_not_prefix(name, "LGPL-".spec_bytes(), 0);
}

proof fn lemma_gnu_flag_336()
    ensures
        gnu_name("SISSL-1.2".spec_bytes()) == (0x0u8 & IS_GNU != 0),
{
    lemma_gnu_bit(0x0);
    lemma_gnu_words();
    reveal_strlit("SISSL-1.2");
    is_ascii_chars_encode_utf8("SISSL-1.2"@);
    let name = "SISSL-1.2".spec_bytes();
    lemma_not_prefix(name, "AGPL-".spec_bytes(), 0);
    lemma_not_prefix(name, "GFDL-".spec_bytes(), 0);
    lemma_not_prefix(name, "GPL-".spec_bytes(), 0);
    lemma_not_prefix(name, "LGPL-".spec_bytes(), 0);
}

proof fn lemma_gnu_flag_337()
    ensures
        gnu_name("SMLNJ".spec_bytes()) == (0x1u8 & IS_GNU != 0),
{
    lemma_gnu_bit(0x1);
    lemma_gnu_words();
    reveal_strlit("SMLNJ");
    is_ascii_chars_encode_utf8("SMLNJ"@);
    let name = "SMLNJ".spec_bytes();
    lemma_not_prefix(name, "AGPL-".spec_bytes(), 0);
    lemma_not_prefix(name, "GFDL-".spec_bytes(), 0);
    lemma_not_prefix(name, "GPL-".spec_bytes(), 0);
    lemma_not_prefix(name, "LGPL-".spec_bytes(), 0);
}

proof fn lemma_gnu_flag_338()
    ensures
        gnu_name("SMPPL".spec_bytes()) == (0x0u8 & IS_GNU != 0),
{
    lemma_gnu_bit(0x0);
    lemma_gnu_words();
    reveal_strlit("SMPPL");
    is_ascii_chars_encode_utf8("SMPPL"@);
    let name = "SMPPL".spec_bytes();
    lemma_not_prefix(name, "AGPL-".spec_bytes(), 0);
    lemma_not_prefix(name, "GFDL-".spec_bytes(), 0);
    lemma_not_prefix(name, "GPL-".spec_bytes(), 0);
    lemma_not_prefix(name, "LGPL-".spec_bytes(), 0);
}

proof fn lemma_gnu_flag_339()
    ensures
        gnu_name("SNIA".spec_bytes()) == (0x0u8 & IS_GNU != 0),
{
    lemma_gnu_bit(0x0);
    lemma_gnu_words();
    reveal_strlit("SNIA");
    is_ascii_chars_encode_utf8("SNIA"@);
    let name = "SNIA".spec_bytes();
    lemma_not_prefix(name, "GPL-".spec_bytes(), 0);
}

proof fn lemma_gnu_flag_340()
    ensures
        gnu_name("SPL-1.0".spec_bytes()) == (0x3u8 & IS_GNU != 0),
{
    lemma_gnu_bit(0x3);
    lemma_gnu_words();
    reveal_strlit("SPL-1.0");
    is_ascii_chars_encode_utf8("SPL-1.0"@);
    let name = "SPL-1.0".spec_bytes();
    lemma_not_prefix(name, "AGPL-".spec_bytes(), 0);
    lemma_not_prefix(name, "GFDL-".spec_bytes(), 0);
    lemma_not_prefix(name, "GPL-".spec_bytes(), 0);
    lemma_not_prefix(name, "LGPL-".spec_bytes(), 0);
}

proof fn lemma_gnu_flag_341()
    ensures
        gnu_name("SSPL-1.0".spec_bytes()) == (0x0u8 & IS_GNU != 0),
{
    lemma_gnu_bit(0x0);
    lemma_gnu_words();
    reveal_strlit("SSPL-1.0");
    is_ascii_chars_encode_utf8("SSPL-1.0"@);
    let name = "SSPL-1.0".spec_bytes();
    lemma_not_prefix(name, "AGPL-".spec_bytes(), 0);
    lemma_not_prefix(name, "GFDL-".spec_bytes(), 0);
    lemma_not_prefix(name, "GPL-".spec_bytes(), 0);
    lemma_not_prefix(name, "LGPL-".spec_bytes(), 0);
}

proof fn lemma_gnu_flag_342()
    ensures
        gnu_name("SWL".spec_bytes()) == (0x0u8 & IS_GNU != 0),
{
    lemma_gnu_bit(0x0);
    lemma_gnu_words();
    reveal_strlit("SWL");
    is_ascii_chars_encode_utf8("SWL"@);
    let name = "SWL".spec_bytes();
}

proof fn lemma_gnu_flag_343()
    ensures
        gnu_name("Saxpath".spec_bytes()) == (0x0u8 & IS_GNU != 0),
{
    lemma_gnu_bit(0x0);
    lemma_gnu_words();
    reveal_strlit("Saxpath");
    is_ascii_chars_encode_utf8("Saxpath"@);
    let name = "Saxpath".spec_bytes();
    lemma_not_prefix(name, "AGPL-".spec_bytes(), 0);
    lemma_not_prefix(name, "GFDL-".spec_bytes(), 0);
    lemma_not_prefix(name, "GPL-".spec_bytes(), 0);
    lemma_not_prefix(name, "LGPL-".spec_bytes(), 0);
}

proof fn lemma_gnu_flag_344()
    ensures
        gnu_name("Sendmail".spec_bytes()) == (0x0u8 & IS_GNU != 0),
{
    lemma_gnu_bit(0x0);
    lemma_gnu_words();
    reveal_strlit("Sendmail");
    is_ascii_chars_encode_utf8("Sendmail"@);
    let name = "Sendmail".spec_bytes();
    lemma_not_prefix(name, "AGPL-".spec_bytes(), 0);
    lemma_not_prefix(name, "GFDL-".spec_bytes(), 0);
    lemma_not_prefix(name, "GPL-".spec_bytes(), 0);
    lemma_not_prefix(name, "LGPL-".spec_bytes(), 0);
}

proof fn lemma_gnu_flag_345()
    ensures
        gnu_name("Sendmail-8.23".spec_bytes()) == (0x0u8 & IS_GNU != 0),
{
    lemma_gnu_bit(0x0);
    lemma_gnu_words();
    reveal_strlit("Sendmail-8.23");
    is_ascii_chars_encode_utf8("Sendmail-8.23"@);
    let name = "Sendmail-8.23".spec_bytes();
    lemma_not_prefix(name, "AGPL-".spec_bytes(), 0);
    lemma_not_prefix(name, "GFDL-".spec_bytes(), 0);
    lemma_not_prefix(name, "GPL-".spec_bytes(), 0);
    lemma_not_prefix(name, "LGPL-".spec_bytes(), 0);
}

proof fn lemma_gnu_flag_346()
    ensures
        gnu_name("SimPL-2.0".spec_bytes()) == (0x2u8 & IS_GNU != 0),
{
    lemma_gnu_bit(0x2);
    lemma_gnu_words();
    reveal_strlit("SimPL-2.0");
    is_ascii_chars_encode_utf8("SimPL-2.0"@);
    let name = "SimPL-2.0".spec_bytes();
    lemma_not_prefix(name, "AGPL-".spec_bytes(), 0);
    lemma_not_prefix(name, "GFDL-".spec_bytes(), 0);
    lemma_not_prefix(name, "GPL-".spec_bytes(), 0);
    lemma_not_prefix(name, "LGPL-".spec_bytes(), 0);
}

proof fn lemma_gnu_flag_347()
    ensures
        gnu_name("Sleepycat".spec_bytes()) == (0x3u8 & IS_GNU != 0),
{
    lemma_gnu_bit(0x3);
    lemma_gnu_words();
    reveal_strlit("Sleepycat");
    is_ascii_chars_encode_utf8("Sleepycat"@);
    let name = "Sleepycat".spec_bytes();
    lemma_not_prefix(name, "AGPL-".spec_bytes(), 0);
    lemma_not_prefix(name, "GFDL-".spec_bytes(), 0);
    lemma_not_prefix(name, "GPL-".spec_bytes(), 0);
    lemma_not_prefix(name, "LGPL-".spec_bytes(), 0);
}

proof fn lemma_gnu_flag_348()
    ensures
        gnu_name("Spencer-86".spec_bytes()) == (0x0u8 & IS_GNU != 0),
{
    lemma_gnu_bit(0x0);
    lemma_gnu_words();
    reveal_strlit("Spencer-86");
    is_ascii_chars_encode_utf8("Spencer-86"@);
    let name = "Spencer-86".spec_bytes();
    lemma_not_prefix(name, "AGPL-".spec_bytes(), 0);
    lemma_not_prefix(name, "GFDL-".spec_bytes(), 0);
    lemma_not_prefix(name, "GPL-".spec_bytes(), 0);
    lemma_not_prefix(name, "LGPL-".spec_bytes(), 0);
}

proof fn lemma_gnu_flag_349()
    ensures
        gnu_name("Spencer-94".spec_bytes()) == (0x0u8 & IS_GNU != 0),
{
    lemma_gnu_bit(0x0);
    lemma_gnu_words();
    reveal_strlit("Spencer-94");
    is_ascii_chars_encode_utf8("Spencer-94"@);
    let name = "Spencer-94".spec_bytes();
    lemma_not_prefix(name, "AGPL-".spec_bytes(), 0);
    lemma_not_prefix(name, "GFDL-".spec_bytes(), 0);
    lemma_not_prefix(name, "GPL-".spec_bytes(), 0);
    lemma_not_prefix(name, "LGPL-".spec_bytes(), 0);
}

proof fn lemma_gnu_flag_350()
    ensures
        gnu_name("Spencer-99".spec_bytes()) == (0x0u8 & IS_GNU != 0),
{
    lemma_gnu_bit(0x0);
    lemma_gnu_words();
    reveal_strlit("Spencer-99");
    is_ascii_chars_encode_utf8("Spencer-99"@);
    let name = "Spencer-99".spec_bytes();
    lemma_not_prefix(name, "AGPL-".spec_bytes(), 0);
    lemma_not_prefix(name, "GFDL-".spec_bytes(), 0);
    lemma_not_prefix(name, "GPL-".spec_bytes(), 0);
    lemma_not_prefix(name, "LGPL-".spec_bytes(), 0);
}

proof fn lemma_gnu_flag_351()
    ensures
        gnu_name("StandardML-NJ".spec_bytes()) == (0x5u8 & IS_GNU != 0),
{
    lemma_gnu_bit(0x5);
    lemma_gnu_words();
    reveal_strlit("StandardML-NJ");
    is_ascii_chars_encode_utf8("StandardML-NJ"@);
    let name = "StandardML-NJ".spec_bytes();
    lemma_not_prefix(name, "AGPL-".spec_bytes(), 0);
    lemma_not_prefix(name, "GFDL-".spec_bytes(), 0);
    lemma_not_prefix(name, "GPL-".spec_bytes(), 0);
    lemma_not_prefix(name, "LGPL-".spec_bytes(), 0);
}

proof fn lemma_gnu_flag_352()
    ensures
        gnu_name("SugarCRM-1.1.3".spec_bytes()) == (0x0u8 & IS_GNU != 0),
{
    lemma_gnu_bit(0x0);
    lemma_gnu_words();
    reveal_strlit("SugarCRM-1.1.3");
    is_ascii_chars_encode_utf8("SugarCRM-1.1.3"@);
    let name = "SugarCRM-1.1.3".spec_bytes();
    lemma_not_prefix(name, "AGPL-".spec_bytes(), 0);
    lemma_not_prefix(name, "GFDL-".spec_bytes(), 0);
    lemma_not_prefix(name, "GPL-".spec_bytes(), 0);
    lemma_not_prefix(name, "LGPL-".spec_bytes(), 0);
}

proof fn lemma_gnu_flag_353()
    ensures
        gnu_name("TAPR-OHL-1.0".spec_bytes()) == (0x0u8 & IS_GNU != 0),
{
    lemma_gnu_bit(0x0);
    lemma_gnu_words();
    reveal_strlit("TAPR-OHL-1.0");
    is_ascii_chars_encode_utf8("TAPR-OHL-1.0"@);
    let name = "TAPR-OHL-1.0".spec_bytes();
    lemma_not_prefix(name, "AGPL-".spec_bytes(), 0);
    lemma_not_prefix(name, "GFDL-".spec_bytes(), 0);
    lemma_not_prefix(name, "GPL-".spec_bytes(), 0);
    lemma_not_prefix(name, "LGPL-".spec_bytes(), 0);
}

proof fn lemma_gnu_flag_354()
    ensures
        gnu_name("TCL".spec_bytes()) == (0x0u8 & IS_GNU != 0),
{
    lemma_gnu_bit(0x0);
    lemma_gnu_words();
    reveal_strlit("TCL");
    is_ascii_chars_encode_utf8("TCL"@);
    let name = "TCL".spec_bytes();
}

proof fn lemma_gnu_flag_355()
    ensures
        gnu_name("TCP-wrappers".spec_bytes()) == (0x0u8 & IS_GNU != 0),
{
    lemma_gnu_bit(0x0);
    lemma_gnu_words();
    reveal_strlit("TCP-wrappers");
    is_ascii_chars_encode_utf8("TCP-wrappers"@);
    let name = "TCP-wrappers".spec_bytes();
    lemma_not_prefix(name, "AGPL-".spec_bytes(), 0);
    lemma_not_prefix(name, "GFDL-".spec_bytes(), 0);
    lemma_not_prefix(name, "GPL-".spec_bytes(), 0);
    lemma_not_prefix(name, "LGPL-".spec_bytes(), 0);
}

proof fn lemma_gnu_flag_356()
    ensures
        gnu_name("TMate".spec_bytes()) == (0x0u8 & IS_GNU != 0),
{
    lemma_gnu_bit(0x0);
    lemma_gnu_words();
    reveal_strlit("TMate");
    is_ascii_chars_encode_utf8("TMate"@);
    let name = "TMate".spec_bytes();
    lemma_not_prefix(name, "AGPL-".spec_bytes(), 0);
    lemma_not_prefix(name, "GFDL-".spec_bytes(), 0);
    lemma_not_prefix(name, "GPL-".spec_bytes(), 0);
    lemma_not_prefix(name, "LGPL-".spec_bytes(), 0);
}

proof fn lemma_gnu_flag_357()
    ensures
        gnu_name("TORQUE-1.1".spec_bytes()) == (0x0u8 & IS_GNU != 0),
{
    lemma_gnu_bit(0x0);
    lemma_gnu_words();
    reveal_strlit("TORQUE-1.1");
    is_ascii_chars_encode_utf8("TORQUE-1.1"@);
    let name = "TORQUE-1.1".spec_bytes();
    lemma_not_prefix(name, "AGPL-".spec_bytes(), 0);
    lemma_not_prefix(name, "GFDL-".spec_bytes(), 0);
    lemma_not_prefix(name, "GPL-".spec_bytes(), 0);
    lemma_not_prefix(name, "LGPL-".spec_bytes(), 0);
}

proof fn lemma_gnu_flag_358()
    ensures
        gnu_name("TOSL".spec_bytes()) == (0x0u8 & IS_GNU != 0),
{
    lemma_gnu_bit(0x0);
    lemma_gnu_words();
    reveal_strlit("TOSL");
    is_ascii_chars_encode_utf8("TOSL"@);
    let name = "TOSL".spec_bytes();
    lemma_not_prefix(name, "GPL-".spec_bytes(), 0);
}

proof fn lemma_gnu_flag_359()
    ensures
        gnu_name("TU-Berlin-1.0".spec_bytes()) == (0x0u8 & IS_GNU != 0),
{
    lemma_gnu_bit(0x0);
    lemma_gnu_words();
    reveal_strlit("TU-Berlin-1.0");
    is_ascii_chars_encode_utf8("TU-Berlin-1.0"@);
    let name = "TU-Berlin-1.0".spec_bytes();
    lemma_not_prefix(name, "AGPL-".spec_bytes(), 0);
    lemma_not_prefix(name, "GFDL-".spec_bytes(), 0);
    lemma_not_prefix(name, "GPL-".spec_bytes(), 0);
    lemma_not_prefix(name, "LGPL-".spec_bytes(), 0);
}

proof fn lemma_gnu_flag_360()
    ensures
        gnu_name("TU-Berlin-2.0".spec_bytes()) == (0x0u8 & IS_GNU != 0),
{
    lemma_gnu_bit(0x0);
    lemma_gnu_words();
    reveal_strlit("TU-Berlin-2.0");
    is_ascii_chars_encode_utf8("TU-Berlin-2.0"@);
    let name = "TU-Berlin-2.0".spec_bytes();
    lemma_not_prefix(name, "AGPL-".spec_bytes(), 0);
    lemma_not_prefix(name, "GFDL-".spec_bytes(), 0);
    lemma_not_prefix(name, "GPL-".spec_bytes(), 0);
    lemma_not_prefix(name, "LGPL-".spec_bytes(), 0);
}

proof fn lemma_gnu_flag_361()
    ensures
        gnu_name("UPL-1.0".spec_bytes()) == (0x3u8 & IS_GNU != 0),
{
    lemma_gnu_bit(0x3);
    lemma_gnu_words();
    reveal_strlit("UPL-1.0");
    is_ascii_chars_encode_utf8("UPL-1.0"@);
    let name = "UPL-1.0".spec_bytes();
    lemma_not_prefix(name, "AGPL-".spec_bytes(), 0);
    lemma_not_prefix(name, "GFDL-".spec_bytes(), 0);
    lemma_not_prefix(name, "GPL-".spec_bytes(), 0);
    lemma_not_prefix(name, "LGPL-".spec_bytes(), 0);
}

proof fn lemma_gnu_flag_362()
    ensures
        gnu_name("Unicode-DFS-2015".spec_bytes()) == (0x0u8 & IS_GNU != 0),
{
    lemma_gnu_bit(0x0);
    lemma_gnu_words();
    reveal_strlit("Unicode-DFS-2015");
    is_ascii_chars_encode_utf8("Unicode-DFS-2015"@);
    let name = "Unicode-DFS-2015".spec_bytes();
    lemma_not_prefix(name, "AGPL-".spec_bytes(), 0);
    lemma_not_prefix(name, "GFDL-".spec_bytes(), 0);
    lemma_not_prefix(name, "GPL-".spec_bytes(), 0);
    lemma_not_prefix(name, "LGPL-".spec_bytes(), 0);
}

proof fn lemma_gnu_flag_363()
    ensures
        gnu_name("Unicode-DFS-2016".spec_bytes()) == (0x0u8 & IS_GNU != 0),
{
    lemma_gnu_bit(0x0);
    lemma_gnu_words();
    reveal_strlit("Unicode-DFS-2016");
    is_ascii_chars_encode_utf8("Unicode-DFS-2016"@);
    let name = "Unicode-DFS-2016".spec_bytes();
    lemma_not_prefix(name, "AGPL-".spec_bytes(), 0);
    lemma_not_prefix(name, "GFDL-".spec_bytes(), 0);
    lemma_not_prefix(name, "GPL-".spec_bytes(), 0);
    lemma_not_prefix(name, "LGPL-".spec_bytes(), 0);
}

proof fn lemma_gnu_flag_364()
    ensures
        gnu_name("Unicode-TOU".spec_bytes()) == (0x0u8 & IS_GNU != 0),
{
    lemma_gnu_bit(0x0);
    lemma_gnu_words();
    reveal_strlit("Unicode-TOU");
    is_ascii_chars_encode_utf8("Unicode-TOU"@);
    let name = "Unicode-TOU".spec_bytes();
    lemma_not_prefix(name, "AGPL-".spec_bytes(), 0);
    lemma_not_prefix(name, "GFDL-".spec_bytes(), 0);
    lemma_not_prefix(name, "GPL-".spec_bytes(), 0);
    lemma_not_prefix(name, "LGPL-".spec_bytes(), 0);
}

proof fn lemma_gnu_flag_365()
    ensures
        gnu_name("Unlicense".spec_bytes()) == (0x1u8 & IS_GNU != 0),
{
    lemma_gnu_bit(0x1);
    lemma_gnu_words();
    reveal_strlit("Unlicense");
    is_ascii_chars_encode_utf8("Unlicense"@);
    let name = "Unlicense".spec_bytes();
    lemma_not_prefix(name, "AGPL-".spec_bytes(), 0);
    lemma_not_prefix(name, "GFDL-".spec_bytes(), 0);
    lemma_not_prefix(name, "GPL-".spec_bytes(), 0);
    lemma_not_prefix(name, "LGPL-".spec_bytes(), 0);
}

proof fn lemma_gnu_flag_366()
    ensures
        gnu_name("VOSTROM".spec_bytes()) == (0x0u8 & IS_GNU != 0),
{
    lemma_gnu_bit(0x0);
    lemma_gnu_words();
    reveal_strlit("VOSTROM");
    is_ascii_chars_encode_utf8("VOSTROM"@);
    let name = "VOSTROM".spec_bytes();
    lemma_not_prefix(name, "AGPL-".spec_bytes(), 0);
    lemma_not_prefix(name, "GFDL-".spec_bytes(), 0);
    lemma_not_prefix(name, "GPL-".spec_bytes(), 0);
    lemma_not_prefix(name, "LGPL-".spec_bytes(), 0);
}

proof fn lemma_gnu_flag_367()
    ensures
        gnu_name("VSL-1.0".spec_bytes()) == (0x2u8 & IS_GNU != 0),
{
    lemma_gnu_bit(0x2);
    lemma_gnu_words();
    reveal_strlit("VSL-1.0");
    is_ascii_chars_encode_utf8("VSL-1.0"@);
    let name = "VSL-1.0".spec_bytes();
    lemma_not_prefix(name, "AGPL-".spec_bytes(), 0);
    lemma_not_prefix(name, "GFDL-".spec_bytes(), 0);
    lemma_not_prefix(name, "GPL-".spec_bytes(), 0);
    lemma_not_prefix(name, "LGPL-".spec_bytes(), 0);
}

proof fn lemma_gnu_flag_368()
    ensures
        gnu_name("Vim".spec_bytes()) == (0x1u8 & IS_GNU != 0),
{
    lemma_gnu_bit(0x1);
    lemma_gnu_words();
    reveal_strlit("Vim");
    is_ascii_chars_encode_utf8("Vim"@);
    let name = "Vim".spec_bytes();
}

proof fn lemma_gnu_flag_369()
    ensures
        gnu_name("W3C".spec_bytes()) == (0x3u8 & IS_GNU != 0),
{
    lemma_gnu_bit(0x3);
    lemma_gnu_words();
    reveal_strlit("W3C");
    is_ascii_chars_encode_utf8("W3C"@);
    let name = "W3C".spec_bytes();
}

proof fn lemma_gnu_flag_370()
    ensures
        gnu_name("W3C-19980720".spec_bytes()) == (0x0u8 & IS_GNU != 0),
{
    lemma_gnu_bit(0x0);
    lemma_gnu_words();
    reveal_strlit("W3C-19980720");
    is_ascii_chars_encode_utf8("W3C-19980720"@);
    let name = "W3C-19980720".spec_bytes();
    lemma_not_prefix(name, "AGPL-".spec_bytes(), 0);
    lemma_not_prefix(name, "GFDL-".spec_bytes(), 0);
    lemma_not_prefix(name, "GPL-".spec_bytes(), 0);
    lemma_not_prefix(name, "LGPL-".spec_bytes(), 0);
}

proof fn lemma_gnu_flag_371()
    ensures
        gnu_name("W3C-20150513".spec_bytes()) == (0x0u8 & IS_GNU != 0),
{
    lemma_gnu_bit(0x0);
    lemma_gnu_words();
    reveal_strlit("W3C-20150513");
    is_ascii_chars_encode_utf8("W3C-20150513"@);
    let name = "W3C-20150513".spec_bytes();
    lemma_not_prefix(name, "AGPL-".spec_bytes(), 0);
    lemma_not_prefix(name, "GFDL-".spec_bytes(), 0);
    lemma_not_prefix(name, "GPL-".spec_bytes(), 0);
    lemma_not_prefix(name, "LGPL-".spec_bytes(), 0);
}

proof fn lemma_gnu_flag_372()
    ensures
        gnu_name("WTFPL".spec_bytes()) == (0x1u8 & IS_GNU != 0),
{
    lemma_gnu_bit(0x1);
    lemma_gnu_words();
    reveal_strlit("WTFPL");
    is_ascii_chars_encode_utf8("WTFPL"@);
    let name = "WTFPL".spec_bytes();
    lemma_not_prefix(name, "AGPL-".spec_bytes(), 0);
    lemma_not_prefix(name, "GFDL-".spec_bytes(), 0);
    lemma_not_prefix(name, "GPL-".spec_bytes(), 0);
    lemma_not_prefix(name, "LGPL-".spec_bytes(), 0);
}

proof fn lemma_gnu_flag_373()
    ensures
        gnu_name("Watcom-1.0".spec_bytes()) == (0x2u8 & IS_GNU != 0),
{
    lemma_gnu_bit(0x2);
    lemma_gnu_words();
    reveal_strlit("Watcom-1.0");
    is_ascii_chars_encode_utf8("Watcom-1.0"@);
    let name = "Watcom-1.0".spec_bytes();
    lemma_not_prefix(name, "AGPL-".spec_bytes(), 0);
    lemma_not_prefix(name, "GFDL-".spec_bytes(), 0);
    lemma_not_prefix(name, "GPL-".spec_bytes(), 0);
    lemma_not_prefix(name, "LGPL-".spec_bytes(), 0);
}

proof fn lemma_gnu_flag_374()
    ensures
        gnu_name("Wsuipa".spec_bytes()) == (0x0u8 & IS_GNU != 0),
{
    lemma_gnu_bit(0x0);
    lemma_gnu_words();
    reveal_strlit("Wsuipa");
    is_ascii_chars_encode_utf8("Wsuipa"@);
    let name = "Wsuipa".spec_bytes();
    lemma_not_prefix(name, "AGPL-".spec_bytes(), 0);
    lemma_not_prefix(name, "GFDL-".spec_bytes(), 0);
    lemma_not_prefix(name, "GPL-".spec_bytes(), 0);
    lemma_not_prefix(name, "LGPL-".spec_bytes(), 0);
}

proof fn lemma_gnu_flag_375()
    ensures
        gnu_name("X11".spec_bytes()) == (0x1u8 & IS_GNU != 0),
{
    lemma_gnu_bit(0x1);
    lemma_gnu_words();
    reveal_strlit("X11");
    is_ascii_chars_encode_utf8("X11"@);
    let name = "X11".spec_bytes();
}

proof fn lemma_gnu_flag_376()
    ensures
        gnu_name("XFree86-1.1".spec_bytes()) == (0x1u8 & IS_GNU != 0),
{
    lemma_gnu_bit(0x1);
    lemma_gnu_words();
    reveal_strlit("XFree86-1.1");
    is_ascii_chars_encode_utf8("XFree86-1.1"@);
    let name = "XFree86-1.1".spec_bytes();
    lemma_not_prefix(name, "AGPL-".spec_bytes(), 0);
    lemma_not_prefix(name, "GFDL-".spec_bytes(), 0);
    lemma_not_prefix(name, "GPL-".spec_bytes(), 0);
    lemma_not_prefix(name, "LGPL-".spec_bytes(), 0);
}

proof fn lemma_gnu_flag_377()
    ensures
        gnu_name("XSkat".spec_bytes()) == (0x0u8 & IS_GNU != 0),
{
    lemma_gnu_bit(0x0);
    lemma_gnu_words();
    reveal_strlit("XSkat");
    is_ascii_chars_encode_utf8("XSkat"@);
    let name = "XSkat".spec_bytes();
    lemma_not_prefix(name, "AGPL-".spec_bytes(), 0);
    lemma_not_prefix(name, "GFDL-".spec_bytes(), 0);
    lemma_not_prefix(name, "GPL-".spec_bytes(), 0);
    lemma_not_prefix(name, "LGPL-".spec_bytes(), 0);
}

proof fn lemma_gnu_flag_378()
    ensures
        gnu_name("Xerox".spec_bytes()) == (0x0u8 & IS_GNU != 0),
{
    lemma_gnu_bit(0x0);
    lemma_gnu_words();
    reveal_strlit("Xerox");
    is_ascii_chars_encode_utf8("Xerox"@);
    let name = "Xerox".spec_bytes();
    lemma_not_prefix(name, "AGPL-".spec_bytes(), 0);
    lemma_not_prefix(name, "GFDL-".spec_bytes(), 0);
    lemma_not_prefix(name, "GPL-".spec_bytes(), 0);
    lemma_not_prefix(name, "LGPL-".spec_bytes(), 0);
}

proof fn lemma_gnu_flag_379()
    ensures
        gnu_name("Xnet".spec_bytes()) == (0x2u8 & IS_GNU != 0),
{
    lemma_gnu_bit(0x2);
    lemma_gnu_words();
    reveal_strlit("Xnet");
    is_ascii_chars_encode_utf8("Xnet"@);
    let name = "Xnet".spec_bytes();
    lemma_not_prefix(name, "GPL-".spec_bytes(), 0);
}

proof fn lemma_gnu_flag_380()
    ensures
        gnu_name("YPL-1.0".spec_bytes()) == (0x0u8 & IS_GNU != 0),
{
    lemma_gnu_bit(0x0);
    lemma_gnu_words();
    reveal_strlit("YPL-1.0");
    is_ascii_chars_encode_utf8("YPL-1.0"@);
    let name = "YPL-1.0".spec_bytes();
    lemma_not_prefix(name, "AGPL-".spec_bytes(), 0);
    lemma_not_prefix(name, "GFDL-".spec_bytes(), 0);
    lemma_not_prefix(name, "GPL-".spec_bytes(), 0);
    lemma_not_prefix(name, "LGPL-".spec_bytes(), 0);
}

proof fn lemma_gnu_flag_381()
    ensures
        gnu_name("YPL-1.1".spec_bytes()) == (0x9u8 & IS_GNU != 0),
{
    lemma_gnu_bit(0x9);
    lemma_gnu_words();
    reveal_strlit("YPL-1.1");
    is_ascii_chars_encode_utf8("YPL-1.1"@);
    let name = "YPL-1.1".spec_bytes();
    lemma_not_prefix(name, "AGPL-".spec_bytes(), 0);
    lemma_not_prefix(name, "GFDL-".spec_bytes(), 0);
    lemma_not_prefix(name, "GPL-".spec_bytes(), 0);
    lemma_not_prefix(name, "LGPL-".spec_bytes(), 0);
}

proof fn lemma_gnu_flag_382()
    ensures
        gnu_name("ZPL-1.1".spec_bytes()) == (0x0u8 & IS_GNU != 0),
{
    lemma_gnu_bit(0x0);
    lemma_gnu_words();
    reveal_strlit("ZPL-1.1");
    is_ascii_chars_encode_utf8("ZPL-1.1"@);
    let name = "ZPL-1.1".spec_bytes();
    lemma_not_prefix(name, "AGPL-".spec_bytes(), 0);
    lemma_not_prefix(name, "GFDL-".spec_bytes(), 0);
    lemma_not_prefix(name, "GPL-".spec_bytes(), 0);
    lemma_not_prefix(name, "LGPL-".spec_bytes(), 0);
}

proof fn lemma_gnu_flag_383()
    ensures
        gnu_name("ZPL-2.0".spec_bytes()) == (0x3u8 & IS_GNU != 0),
{
    lemma_gnu_bit(0x3);
    lemma_gnu_words();
    reveal_strlit("ZPL-2.0");
    is_ascii_chars_encode_utf8("ZPL-2.0"@);
    let name = "ZPL-2.0".spec_bytes();
    lemma_not_prefix(name, "AGPL-".spec_bytes(), 0);
    lemma_not_prefix(name, "GFDL-".spec_bytes(), 0);
    lemma_not_prefix(name, "GPL-".spec_bytes(), 0);
    lemma_not_prefix(name, "LGPL-".spec_bytes(), 0);
}

proof fn lemma_gnu_flag_384()
    ensures
        gnu_name("ZPL-2.1".spec_bytes()) == (0x1u8 & IS_GNU != 0),
{
    lemma_gnu_bit(0x1);
    lemma_gnu_words();
    reveal_strlit("ZPL-2.1");
    is_ascii_chars_encode_utf8("ZPL-2.1"@);
    let name = "ZPL-2.1".spec_bytes();
    lemma_not_prefix(name, "AGPL-".spec_bytes(), 0);
    lemma_not_prefix(name, "GFDL-".spec_bytes(), 0);
    lemma_not_prefix(name, "GPL-".spec_bytes(), 0);
    lemma_not_prefix(name, "LGPL-".spec_bytes(), 0);
}

proof fn lemma_gnu_flag_385()
    ensures
        gnu_name("Zed".spec_bytes()) == (0x0u8 & IS_GNU != 0),
{
    lemma_gnu_bit(0x0);
    lemma_gnu_words();
    reveal_strlit("Zed");
    is_ascii_chars_encode_utf8("Zed"@);
    let name = "Zed".spec_bytes();
}

proof fn lemma_gnu_flag_386()
    ensures
        gnu_name("Zend-2.0".spec_bytes()) == (0x1u8 & IS_GNU != 0),
{
    lemma_gnu_bit(0x1);
    lemma_gnu_words();
    reveal_strlit("Zend-2.0");
    is_ascii_chars_encode_utf8("Zend-2.0"@);
    let name = "Zend-2.0".spec_bytes();
    lemma_not_prefix(name, "AGPL-".spec_bytes(), 0);
    lemma_not_prefix(name, "GFDL-".spec_bytes(), 0);
    lemma_not_prefix(name, "GPL-".spec_bytes(), 0);
    lemma_not_prefix(name, "LGPL-".spec_bytes(), 0);
}

proof fn lemma_gnu_flag_387()
    ensures
        gnu_name("Zimbra-1.3".spec_bytes()) == (0x1u8 & IS_GNU != 0),
{
    lemma_gnu_bit(0x1);
    lemma_gnu_words();
    reveal_strlit("Zimbra-1.3");
    is_ascii_chars_encode_utf8("Zimbra-1.3"@);
    let name = "Zimbra-1.3".spec_bytes();
    lemma_not_prefix(name, "AGPL-".spec_bytes(), 0);
    lemma_not_prefix(name, "GFDL-".spec_bytes(), 0);
    lemma_not_prefix(name, "GPL-".spec_bytes(), 0);
    lemma_not_prefix(name, "LGPL-".spec_bytes(), 0);
}

proof fn lemma_gnu_flag_388()
    ensures
        gnu_name("Zimbra-1.4".spec_bytes()) == (0x0u8 & IS_GNU != 0),
{
    lemma_gnu_bit(0x0);
    lemma_gnu_words();
    reveal_strlit("Zimbra-1.4");
    is_ascii_chars_encode_utf8("Zimbra-1.4"@);
    let name = "Zimbra-1.4".spec_bytes();
    lemma_not_prefix(name, "AGPL-".spec_bytes(), 0);
    lemma_not_prefix(name, "GFDL-".spec_bytes(), 0);
    lemma_not_prefix(name, "GPL-".spec_bytes(), 0);
    lemma_not_prefix(name, "LGPL-".spec_bytes(), 0);
}

proof fn lemma_gnu_flag_389()
    ensures
        gnu_name("Zlib".spec_bytes()) == (0x3u8 & IS_GNU != 0),
{
    lemma_gnu_bit(0x3);
    lemma_gnu_words();
    reveal_strlit("Zlib");
    is_ascii_chars_encode_utf8("Zlib"@);
    let name = "Zlib".spec_bytes();
    lemma_not_prefix(name, "GPL-".spec_bytes(), 0);
}

proof fn lemma_gnu_flag_390()
    ensures
        gnu_name("blessing".spec_bytes()) == (0x0u8 & IS_GNU != 0),
{
    lemma_gnu_bit(0x0);
    lemma_gnu_words();
    reveal_strlit("blessing");
    is_ascii_chars_encode_utf8("blessing"@);
    let name = "blessing".spec_bytes();
    lemma_not_prefix(name, "AGPL-".spec_bytes(), 0);
    lemma_not_prefix(name, "GFDL-".spec_bytes(), 0);
    lemma_not_prefix(name, "GPL-".spec_bytes(), 0);
    lemma_not_prefix(name, "LGPL-".spec_bytes(), 0);
}

proof fn lemma_gnu_flag_391()
    ensures
        gnu_name("bzip2-1.0.5".spec_bytes()) == (0x0u8 & IS_GNU != 0),
{
    lemma_gnu_bit(0x0);
    lemma_gnu_words();
    reveal_strlit("bzip2-1.0.5");
    is_ascii_chars_encode_utf8("bzip2-1.0.5"@);
    let name = "bzip2-1.0.5".spec_bytes();
    lemma_not_prefix(name, "AGPL-".spec_bytes(), 0);
    lemma_not_prefix(name, "GFDL-".spec_bytes(), 0);
    lemma_not_prefix(name, "GPL-".spec_bytes(), 0);
    lemma_not_prefix(name, "LGPL-".spec_bytes(), 0);
}

proof fn lemma_gnu_flag_392()
    ensures
        gnu_name("bzip2-1.0.6".spec_bytes()) == (0x0u8 & IS_GNU != 0),
{
    lemma_gnu_bit(0x0);
    lemma_gnu_words();
    reveal_strlit("bzip2-1.0.6");
    is_ascii_chars_encode_utf8("bzip2-1.0.6"@);
    let name = "bzip2-1.0.6".spec_bytes();
    lemma_not_prefix(name, "AGPL-".spec_bytes(), 0);
    lemma_not_prefix(name, "GFDL-".spec_bytes(), 0);
    lemma_not_prefix(name, "GPL-".spec_bytes(), 0);
    lemma_not_prefix(name, "LGPL-".spec_bytes(), 0);
}

proof fn lemma_gnu_flag_393()
    ensures
        gnu_name("copyleft-next-0.3.0".spec_bytes()) == (0x0u8 & IS_GNU != 0),
{
    lemma_gnu_bit(0x0);
    lemma_gnu_words();
    reveal_strlit("copyleft-next-0.3.0");
    is_ascii_chars_encode_utf8("copyleft-next-0.3.0"@);
    let name = "copyleft-next-0.3.0".spec_bytes();
    lemma_not_prefix(name, "AGPL-".spec_bytes(), 0);
    lemma_not_prefix(name, "GFDL-".spec_bytes(), 0);
    lemma_not_prefix(name, "GPL-".spec_bytes(), 0);
    lemma_not_prefix(name, "LGPL-".spec_bytes(), 0);
}

proof fn lemma_gnu_flag_394()
    ensures
        gnu_name("copyleft-next-0.3.1".spec_bytes()) == (0x0u8 & IS_GNU != 0),
{
    lemma_gnu_bit(0x0);
    lemma_gnu_words();
    reveal_strlit("copyleft-next-0.3.1");
    is_ascii_chars_encode_utf8("copyleft-next-0.3.1"@);
    let name = "copyleft-next-0.3.1".spec_bytes();
    lemma_not_prefix(name, "AGPL-".spec_bytes(), 0);
    lemma_not_prefix(name, "GFDL-".spec_bytes(), 0);
    lemma_not_prefix(name, "GPL-".spec_bytes(), 0);
    lemma_not_prefix(name, "LGPL-".spec_bytes(), 0);
}

proof fn lemma_gnu_flag_395()
    ensures
        gnu_name("curl".spec_bytes()) == (0x0u8 & IS_GNU != 0),
{
    lemma_gnu_bit(0x0);
    lemma_gnu_words();
    reveal_strlit("curl");
    is_ascii_chars_encode_utf8("curl"@);
    let name = "curl".spec_bytes();
    lemma_not_prefix(name, "GPL-".spec_bytes(), 0);
}

proof fn lemma_gnu_flag_396()
    ensures
        gnu_name("diffmark".spec_bytes()) == (0x0u8 & IS_GNU != 0),
{
    lemma_gnu_bit(0x0);
    lemma_gnu_words();
    reveal_strlit("diffmark");
    is_ascii_chars_encode_utf8("diffmark"@);
    let name = "diffmark".spec_bytes();
    lemma_not_prefix(name, "AGPL-".spec_bytes(), 0);
    lemma_not_prefix(name, "GFDL-".spec_bytes(), 0);
    lemma_not_prefix(name, "GPL-".spec_bytes(), 0);
    lemma_not_prefix(name, "LGPL-".spec_bytes(), 0);
}

proof fn lemma_gnu_flag_397()
    ensures
        gnu_name("dvipdfm".spec_bytes()) == (0x0u8 & IS_GNU != 0),
{
    lemma_gnu_bit(0x0);
    lemma_gnu_words();
    reveal_strlit("dvipdfm");
    is_ascii_chars_encode_utf8("dvipdfm"@);
    let name = "dvipdfm".spec_bytes();
    lemma_not_prefix(name, "AGPL-".spec_bytes(), 0);
    lemma_not_prefix(name, "GFDL-".spec_bytes(), 0);
    lemma_not_prefix(name, "GPL-".spec_bytes(), 0);
    lemma_not_prefix(name, "LGPL-".spec_bytes(), 0);
}

proof fn lemma_gnu_flag_398()
    ensures
        gnu_name("eCos-2.0".spec_bytes()) == (0x5u8 & IS_GNU != 0),
{
    lemma_gnu_bit(0x5);
    lemma_gnu_words();
    reveal_strlit("eCos-2.0");
    is_ascii_chars_encode_utf8("eCos-2.0"@);
    let name = "eCos-2.0".spec_bytes();
    lemma_not_prefix(name, "AGPL-".spec_bytes(), 0);
    lemma_not_prefix(name, "GFDL-".spec_bytes(), 0);
    lemma_not_prefix(name, "GPL-".spec_bytes(), 0);
    lemma_not_prefix(name, "LGPL-".spec_bytes(), 0);
}

proof fn lemma_gnu_flag_399()
    ensures
        gnu_name("eGenix".spec_bytes()) == (0x0u8 & IS_GNU != 0),
{
    lemma_gnu_bit(0x0);
    lemma_gnu_words();
    reveal_strlit("eGenix");
    is_ascii_chars_encode_utf8("eGenix"@);
    let name = "eGenix".spec_bytes();
    lemma_not_prefix(name, "AGPL-".spec_bytes(), 0);
    lemma_not_prefix(name, "GFDL-".spec_bytes(), 0);
    lemma_not_prefix(name, "GPL-".spec_bytes(), 0);
    lemma_not_prefix(name, "LGPL-".spec_bytes(), 0);
}

proof fn lemma_gnu_flag_400()
    ensures
        gnu_name("gSOAP-1.3b".spec_bytes()) == (0x0u8 & IS_GNU != 0),
{
    lemma_gnu_bit(0x0);
    lemma_gnu_words();
    reveal_strlit("gSOAP-1.3b");
    is_ascii_chars_encode_utf8("gSOAP-1.3b"@);
    let name = "gSOAP-1.3b".spec_bytes();
    lemma_not_prefix(name, "AGPL-".spec_bytes(), 0);
    lemma_not_prefix(name, "GFDL-".spec_bytes(), 0);
    lemma_not_prefix(name, "GPL-".spec_bytes(), 0);
    lemma_not_prefix(name, "LGPL-".spec_bytes(), 0);
}

proof fn lemma_gnu_flag_401()
    ensures
        gnu_name("gnuplot".spec_bytes()) == (0x1u8 & IS_GNU != 0),
{
    lemma_gnu_bit(0x1);
    lemma_gnu_words();
    reveal_strlit("gnuplot");
    is_ascii_chars_encode_utf8("gnuplot"@);
    let name = "gnuplot".spec_bytes();
    lemma_not_prefix(name, "AGPL-".spec_bytes(), 0);
    lemma_not_prefix(name, "GFDL-".spec_bytes(), 0);
    lemma_not_prefix(name, "GPL-".spec_bytes(), 0);
    lemma_not_prefix(name, "LGPL-".spec_bytes(), 0);
}

proof fn lemma_gnu_flag_402()
    ensures
        gnu_name("iMatix".spec_bytes()) == (0x1u8 & IS_GNU != 0),
{
    lemma_gnu_bit(0x1);
    lemma_gnu_words();
    reveal_strlit("iMatix");
    is_ascii_chars_encode_utf8("iMatix"@);
    let name = "iMatix".spec_bytes();
    lemma_not_prefix(name, "AGPL-".spec_bytes(), 0);
    lemma_not_prefix(name, "GFDL-".spec_bytes(), 0);
    lemma_not_prefix(name, "GPL-".spec_bytes(), 0);
    lemma_not_prefix(name, "LGPL-".spec_bytes(), 0);
}

proof fn lemma_gnu_flag_403()
    ensures
        gnu_name("libpng-2.0".spec_bytes()) == (0x0u8 & IS_GNU != 0),
{
    lemma_gnu_bit(0x0);
    lemma_gnu_words();
    reveal_strlit("libpng-2.0");
    is_ascii_chars_encode_utf8("libpng-2.0"@);
    let name = "libpng-2.0".spec_bytes();
    lemma_not_prefix(name, "AGPL-".spec_bytes(), 0);
    lemma_not_prefix(name, "GFDL-".spec_bytes(), 0);
    lemma_not_prefix(name, "GPL-".spec_bytes(), 0);
    lemma_not_prefix(name, "LGPL-".spec_bytes(), 0);
}

proof fn lemma_gnu_flag_404()
    ensures
        gnu_name("libtiff".spec_bytes()) == (0x0u8 & IS_GNU != 0),
{
    lemma_gnu_bit(0x0);
    lemma_gnu_words();
    reveal_strlit("libtiff");
    is_ascii_chars_encode_utf8("libtiff"@);
    let name = "libtiff".spec_bytes();
    lemma_not_prefix(name, "AGPL-".spec_bytes(), 0);
    lemma_not_prefix(name, "GFDL-".spec_bytes(), 0);
    lemma_not_prefix(name, "GPL-".spec_bytes(), 0);
    lemma_not_prefix(name, "LGPL-".spec_bytes(), 0);
}

proof fn lemma_gnu_flag_405()
    ensures
        gnu_name("mpich2".spec_bytes()) == (0x0u8 & IS_GNU != 0),
{
    lemma_gnu_bit(0x0);
    lemma_gnu_words();
    reveal_strlit("mpich2");
    is_ascii_chars_encode_utf8("mpich2"@);
    let name = "mpich2".spec_bytes();
    lemma_not_prefix(name, "AGPL-".spec_bytes(), 0);
    lemma_not_prefix(name, "GFDL-".spec_bytes(), 0);
    lemma_not_prefix(name, "GPL-".spec_bytes(), 0);
    lemma_not_prefix(name, "LGPL-".spec_bytes(), 0);
}

proof fn lemma_gnu_flag_406()
    ensures
        gnu_name("psfrag".spec_bytes()) == (0x0u8 & IS_GNU != 0),
{
    lemma_gnu_bit(0x0);
    lemma_gnu_words();
    reveal_strlit("psfrag");
    is_ascii_chars_encode_utf8("psfrag"@);
    let name = "psfrag".spec_bytes();
    lemma_not_prefix(name, "AGPL-".spec_bytes(), 0);
    lemma_not_prefix(name, "GFDL-".spec_bytes(), 0);
    lemma_not_prefix(name, "GPL-".spec_bytes(), 0);
    lemma_not_prefix(name, "LGPL-".spec_bytes(), 0);
}

proof fn lemma_gnu_flag_407()
    ensures
        gnu_name("psutils".spec_bytes()) == (0x0u8 & IS_GNU != 0),
{
    lemma_gnu_bit(0x0);
    lemma_gnu_words();
    reveal_strlit("psutils");
    is_ascii_chars_encode_utf8("psutils"@);
    let name = "psutils".spec_bytes();
    lemma_not_prefix(name, "AGPL-".spec_bytes(), 0);
    lemma_not_prefix(name, "GFDL-".spec_bytes(), 0);
    lemma_not_prefix(name, "GPL-".spec_bytes(), 0);
    lemma_not_prefix(name, "LGPL-".spec_bytes(), 0);
}

proof fn lemma_gnu_flag_408()
    ensures
        gnu_name("wxWindows".spec_bytes()) == (0x4u8 & IS_GNU != 0),
{
    lemma_gnu_bit(0x4);
    lemma_gnu_words();
    reveal_strlit("wxWindows");
    is_ascii_chars_encode_utf8("wxWindows"@);
    let name = "wxWindows".spec_bytes();
    lemma_not_prefix(name, "AGPL-".spec_bytes(), 0);
    lemma_not_prefix(name, "GFDL-".spec_bytes(), 0);
    lemma_not_prefix(name, "GPL-".spec_bytes(), 0);
    lemma_not_prefix(name, "LGPL-".spec_bytes(), 0);
}

proof fn lemma_gnu_flag_409()
    ensures
        gnu_name("xinetd".spec_bytes()) == (0x9u8 & IS_GNU != 0),
{
    lemma_gnu_bit(0x9);
    lemma_gnu_words();
    reveal_strlit("xinetd");
    is_ascii_chars_encode_utf8("xinetd"@);
    let name = "xinetd".spec_bytes();
    lemma_not_prefix(name, "AGPL-".spec_bytes(), 0);
    lemma_not_prefix(name, "GFDL-".spec_bytes(), 0);
    lemma_not_prefix(name, "GPL-".spec_bytes(), 0);
    lemma_not_prefix(name, "LGPL-".spec_bytes(), 0);
}

proof fn lemma_gnu_flag_410()
    ensures
        gnu_name("xpp".spec_bytes()) == (0x0u8 & IS_GNU != 0),
{
    lemma_gnu_bit(0x0);
    lemma_gnu_words();
    reveal_strlit("xpp");
    is_ascii_chars_encode_utf8("xpp"@);
    let name = "xpp".spec_bytes();
}

proof fn lemma_gnu_flag_411()
    ensures
        gnu_name("zlib-acknowledgement".spec_bytes()) == (0x0u8 & IS_GNU != 0),
{
    lemma_gnu_bit(0x0);
    lemma_gnu_words();
    reveal_strlit("zlib-acknowledgement");
    is_ascii_chars_encode_utf8("zlib-acknowledgement"@);
    let name = "zlib-acknowledgement".spec_bytes();
    lemma_not_prefix(name, "AGPL-".spec_bytes(), 0);
    lemma_not_prefix(name, "GFDL-".spec_bytes(), 0);
    lemma_not_prefix(name, "GPL-".spec_bytes(), 0);
    lemma_not_prefix(name, "LGPL-".spec_bytes(), 0);
}

/// The GNU flag is set on exactly the licenses whose identifier begins
/// with `AGPL-`, `GFDL-`, `GPL-` or `LGPL-`.
pub proof fn lemma_gnu_flag(index: usize)
    requires
        index < LICENSE_COUNT,
    ensures
        gnu_name(license_name(index).spec_bytes()) == (license_flags(index) & IS_GNU != 0),
{
    match index {
        0 => {
            lemma_gnu_flag_0();
        },
        1 => {
            lemma_gnu_flag_1();
        },
        2 => {
            lemma_gnu_flag_2();
        },
        3 => {
            lemma_gnu_flag_3();
        },
        4 => {
            lemma_gnu_flag_4();
        },
        5 => {
            lemma_gnu_flag_5();
        },
        6 => {
            lemma_gnu_flag_6();
        },
        7 => {
            lemma_gnu_flag_7();
        },
        8 => {
            lemma_gnu_flag_8();
        },
        9 => {
            lemma_gnu_flag_9();
        },
        10 => {
            lemma_gnu_flag_10();
        },
        11 => {
            lemma_gnu_flag_11();
        },
        12 => {
            lemma_gnu_flag_12();
        },
        13 => {
            lemma_gnu_flag_13();
        },
        14 => {
            lemma_gnu_flag_14();
        },
        15 => {
            lemma_gnu_flag_15();
        },
        16 => {
            lemma_gnu_flag_16();
        },
        17 => {
            lemma_gnu_flag_17();
        },
        18 => {
            lemma_gnu_flag_18();
        },
        19 => {
            lemma_gnu_flag_19();
        },
        20 => {
            lemma_gnu_flag_20();
        },
        21 => {
            lemma_gnu_flag_21();
        },
        22 => {
            lemma_gnu_flag_22();
        },
        23 => {
            lemma_gnu_flag_23();
        },
        24 => {
            lemma_gnu_flag_24();
        },
        25 => {
            lemma_gnu_flag_25();
        },
        26 => {
            lemma_gnu_flag_26();
        },
        27 => {
            lemma_gnu_flag_27();
        },
        28 => {
            lemma_gnu_flag_28();
        },
        29 => {
            lemma_gnu_flag_29();
        },
        30 => {
            lemma_gnu_flag_30();
        },
        31 => {
            lemma_gnu_flag_31();
        },
        32 => {
            lemma_gnu_flag_32();
        },
        33 => {
            lemma_gnu_flag_33();
        },
        34 => {
            lemma_gnu_flag_34();
        },
        35 => {
            lemma_gnu_flag_35();
        },
        36 => {
            lemma_gnu_flag_36();
        },
        37 => {
            lemma_gnu_flag_37();
        },
        38 => {
            lemma_gnu_flag_38();
        },
        39 => {
            lemma_gnu_flag_39();
        },
        40 => {
            lemma_gnu_flag_40();
        },
        41 => {
            lemma_gnu_flag_41();
        },
        42 => {
            lemma_gnu_flag_42();
        },
        43 => {
            lemma_gnu_flag_43();
        },
        44 => {
            lemma_gnu_flag_44();
        },
        45 => {
            lemma_gnu_flag_45();
        },
        46 => {
            lemma_gnu_flag_46();
        },
        47 => {
            lemma_gnu_flag_47();
        },
        48 => {
            lemma_gnu_flag_48();
        },
        49 => {
            lemma_gnu_flag_49();
        },
        50 => {
            lemma_gnu_flag_50();
        },
        51 => {
            lemma_gnu_flag_51();
        },
        52 => {
            lemma_gnu_flag_52();
        },
        53 => {
            lemma_gnu_flag_53();
        },
        54 => {
            lemma_gnu_flag_54();
        },
        55 => {
            lemma_gnu_flag_55();
        },
        56 => {
            lemma_gnu_flag_56();
        },
        57 => {
            lemma_gnu_flag_57();
        },
        58 => {
            lemma_gnu_flag_58();
        },
        59 => {
            lemma_gnu_flag_59();
        },
        60 => {
            lemma_gnu_flag_60();
        },
        61 => {
            lemma_gnu_flag_61();
        },
        62 => {
            lemma_gnu_flag_62();
        },
        63 => {
            lemma_gnu_flag_63();
        },
        64 => {
            lemma_gnu_flag_64();
        },
        65 => {
            lemma_gnu_flag_65();
        },
        66 => {
            lemma_gnu_flag_66();
        },
        67 => {
            lemma_gnu_flag_67();
        },
        68 => {
            lemma_gnu_flag_68();
        },
        69 => {
            lemma_gnu_flag_69();
        },
        70 => {
            lemma_gnu_flag_70();
        },
        71 => {
            lemma_gnu_flag_71();
        },
        72 => {
            lemma_gnu_flag_72();
        },
        73 => {
            lemma_gnu_flag_73();
        },
        74 => {
            lemma_gnu_flag_74();
        },
        75 => {
            lemma_gnu_flag_75();
        },
        76 => {
            lemma_gnu_flag_76();
        },
        77 => {
            lemma_gnu_flag_77();
        },
        78 => {
            lemma_gnu_flag_78();
        },
        79 => {
            lemma_gnu_flag_79();
        },
        80 => {
            lemma_gnu_flag_80();
        },
        81 => {
            lemma_gnu_flag_81();
        },
        82 => {
            lemma_gnu_flag_82();
        },
        83 => {
            lemma_gnu_flag_83();
        },
        84 => {
            lemma_gnu_flag_84();
        },
        85 => {
            lemma_gnu_flag_85();
        },
        86 => {
            lemma_gnu_flag_86();
        },
        87 => {
            lemma_gnu_flag_87();
        },
        88 => {
            lemma_gnu_flag_88();
        },
        89 => {
            lemma_gnu_flag_89();
        },
        90 => {
            lemma_gnu_flag_90();
        },
        91 => {
            lemma_gnu_flag_91();
        },
        92 => {
            lemma_gnu_flag_92();
        },
        93 => {
            lemma_gnu_flag_93();
        },
        94 => {
            lemma_gnu_flag_94();
        },
        95 => {
            lemma_gnu_flag_95();
        },
        96 => {
            lemma_gnu_flag_96();
        },
        97 => {
            lemma_gnu_flag_97();
        },
        98 => {
            lemma_gnu_flag_98();
        },
        99 => {
            lemma_gnu_flag_99();
        },
        100 => {
            lemma_gnu_flag_100();
        },
        101 => {
            lemma_gnu_flag_101();
        },
        102 => {
            lemma_gnu_flag_102();
        },
        103 => {
            lemma_gnu_flag_103();
        },
        104 => {
            lemma_gnu_flag_104();
        },
        105 => {
            lemma_gnu_flag_105();
        },
        106 => {
            lemma_gnu_flag_106();
        },
        107 => {
            lemma_gnu_flag_107();
        },
        108 => {
            lemma_gnu_flag_108();
        },
        109 => {
            lemma_gnu_flag_109();
        },
        110 => {
            lemma_gnu_flag_110();
        },
        111 => {
            lemma_gnu_flag_111();
        },
        112 => {
            lemma_gnu_flag_112();
        },
        113 => {
            lemma_gnu_flag_113();
        },
        114 => {
            lemma_gnu_flag_114();
        },
        115 => {
            lemma_gnu_flag_115();
        },
        116 => {
            lemma_gnu_flag_116();
        },
        117 => {
            lemma_gnu_flag_117();
        },
        118 => {
            lemma_gnu_flag_118();
        },
        119 => {
            lemma_gnu_flag_119();
        },
        120 => {
            lemma_gnu_flag_120();
        },
        121 => {
            lemma_gnu_flag_121();
        },
        122 => {
            lemma_gnu_flag_122();
        },
        123 => {
            lemma_gnu_flag_123();
        },
        124 => {
            lemma_gnu_flag_124();
        },
        125 => {
            lemma_gnu_flag_125();
        },
        126 => {
            lemma_gnu_flag_126();
        },
        127 => {
            lemma_gnu_flag_127();
        },
        128 => {
            lemma_gnu_flag_128();
        },
        129 => {
            lemma_gnu_flag_129();
        },
        130 => {
            lemma_gnu_flag_130();
        },
        131 => {
            lemma_gnu_flag_131();
        },
        132 => {
            lemma_gnu_flag_132();
        },
        133 => {
            lemma_gnu_flag_133();
        },
        134 => {
            lemma_gnu_flag_134();
        },
        135 => {
            lemma_gnu_flag_135();
        },
        136 => {
            lemma_gnu_flag_136();
        },
        137 => {
            lemma_gnu_flag_137();
        },
        138 => {
            lemma_gnu_flag_138();
        },
        139 => {
            lemma_gnu_flag_139();
        },
        140 => {
            lemma_gnu_flag_140();
        },
        141 => {
            lemma_gnu_flag_141();
        },
        142 => {
            lemma_gnu_flag_142();
        },
        143 => {
            lemma_gnu_flag_143();
        },
        144 => {
            lemma_gnu_flag_144();
        },
        145 => {
            lemma_gnu_flag_145();
        },
        146 => {
            lemma_gnu_flag_146();
        },
        147 => {
            lemma_gnu_flag_147();
        },
        148 => {
            lemma_gnu_flag_148();
        },
        149 => {
            lemma_gnu_flag_149();
        },
        150 => {
            lemma_gnu_flag_150();
        },
        151 => {
            lemma_gnu_flag_151();
        },
        152 => {
            lemma_gnu_flag_152();
        },
        153 => {
            lemma_gnu_flag_153();
        },
        154 => {
            lemma_gnu_flag_154();
        },
        155 => {
            lemma_gnu_flag_155();
        },
        156 => {
            lemma_gnu_flag_156();
        },
        157 => {
            lemma_gnu_flag_157();
        },
        158 => {
            lemma_gnu_flag_158();
        },
        159 => {
            lemma_gnu_flag_159();
        },
        160 => {
            lemma_gnu_flag_160();
        },
        161 => {
            lemma_gnu_flag_161();
        },
        162 => {
            lemma_gnu_flag_162();
        },
        163 => {
            lemma_gnu_flag_163();
        },
        164 => {
            lemma_gnu_flag_164();
        },
        165 => {
            lemma_gnu_flag_165();
        },
        166 => {
            lemma_gnu_flag_166();
        },
        167 => {
            lemma_gnu_flag_167();
        },
        168 => {
            lemma_gnu_flag_168();
        },
        169 => {
            lemma_gnu_flag_169();
        },
        170 => {
            lemma_gnu_flag_170();
        },
        171 => {
            lemma_gnu_flag_171();
        },
        172 => {
            lemma_gnu_flag_172();
        },
        173 => {
            lemma_gnu_flag_173();
        },
        174 => {
            lemma_gnu_flag_174();
        },
        175 => {
            lemma_gnu_flag_175();
        },
        176 => {
            lemma_gnu_flag_176();
        },
        177 => {
            lemma_gnu_flag_177();
        },
        178 => {
            lemma_gnu_flag_178();
        },
        179 => {
            lemma_gnu_flag_179();
        },
        180 => {
            lemma_gnu_flag_180();
        },
        181 => {
            lemma_gnu_flag_181();
        },
        182 => {
            lemma_gnu_flag_182();
        },
        183 => {
            lemma_gnu_flag_183();
        },
        184 => {
            lemma_gnu_flag_184();
        },
        185 => {
            lemma_gnu_flag_185();
        },
        186 => {
            lemma_gnu_flag_186();
        },
        187 => {
            lemma_gnu_flag_187();
        },
        188 => {
            lemma_gnu_flag_188();
        },
        189 => {
            lemma_gnu_flag_189();
        },
        190 => {
            lemma_gnu_flag_190();
        },
        191 => {
            lemma_gnu_flag_191();
        },
        192 => {
            lemma_gnu_flag_192();
        },
        193 => {
            lemma_gnu_flag_193();
        },
        194 => {
            lemma_gnu_flag_194();
        },
        195 => {
            lemma_gnu_flag_195();
        },
        196 => {
            lemma_gnu_flag_196();
        },
        197 => {
            lemma_gnu_flag_197();
        },
        198 => {
            lemma_gnu_flag_198();
        },
        199 => {
            lemma_gnu_flag_199();
        },
        200 => {
            lemma_gnu_flag_200();
        },
        201 => {
            lemma_gnu_flag_201();
        },
        202 => {
            lemma_gnu_flag_202();
        },
        203 => {
            lemma_gnu_flag_203();
        },
        204 => {
            lemma_gnu_flag_204();
        },
        205 => {
            lemma_gnu_flag_205();
        },
        206 => {
            lemma_gnu_flag_206();
        },
        207 => {
            lemma_gnu_flag_207();
        },
        208 => {
            lemma_gnu_flag_208();
        },
        209 => {
            lemma_gnu_flag_209();
        },
        210 => {
            lemma_gnu_flag_210();
        },
        211 => {
            lemma_gnu_flag_211();
        },
        212 => {
            lemma_gnu_flag_212();
        },
        213 => {
            lemma_gnu_flag_213();
        },
        214 => {
            lemma_gnu_flag_214();
        },
        215 => {
            lemma_gnu_flag_215();
        },
        216 => {
            lemma_gnu_flag_216();
        },
        217 => {
            lemma_gnu_flag_217();
        },
        218 => {
            lemma_gnu_flag_218();
        },
        219 => {
            lemma_gnu_flag_219();
        },
        220 => {
            lemma_gnu_flag_220();
        },
        221 => {
            lemma_gnu_flag_221();
        },
        222 => {
            lemma_gnu_flag_222();
        },
        223 => {
            lemma_gnu_flag_223();
        },
        224 => {
            lemma_gnu_flag_224();
        },
        225 => {
            lemma_gnu_flag_225();
        },
        226 => {
            lemma_gnu_flag_226();
        },
        227 => {
            lemma_gnu_flag_227();
        },
        228 => {
            lemma_gnu_flag_228();
        },
        229 => {
            lemma_gnu_flag_229();
        },
        230 => {
            lemma_gnu_flag_230();
        },
        231 => {
            lemma_gnu_flag_231();
        },
        232 => {
            lemma_gnu_flag_232();
        },
        233 => {
            lemma_gnu_flag_233();
        },
        234 => {
            lemma_gnu_flag_234();
        },
        235 => {
            lemma_gnu_flag_235();
        },
        236 => {
            lemma_gnu_flag_236();
        },
        237 => {
            lemma_gnu_flag_237();
        },
        238 => {
            lemma_gnu_flag_238();
        },
        239 => {
            lemma_gnu_flag_239();
        },
        240 => {
            lemma_gnu_flag_240();
        },
        241 => {
            lemma_gnu_flag_241();
        },
        242 => {
            lemma_gnu_flag_242();
        },
        243 => {
            lemma_gnu_flag_243();
        },
        244 => {
            lemma_gnu_flag_244();
        },
        245 => {
            lemma_gnu_flag_245();
        },
        246 => {
            lemma_gnu_flag_246();
        },
        247 => {
            lemma_gnu_flag_247();
        },
        248 => {
            lemma_gnu_flag_248();
        },
        249 => {
            lemma_gnu_flag_249();
        },
        250 => {
            lemma_gnu_flag_250();
        },
        251 => {
            lemma_gnu_flag_251();
        },
        252 => {
            lemma_gnu_flag_252();
        },
        253 => {
            lemma_gnu_flag_253();
        },
        254 => {
            lemma_gnu_flag_254();
        },
        255 => {
            lemma_gnu_flag_255();
        },
        256 => {
            lemma_gnu_flag_256();
        },
        257 => {
            lemma_gnu_flag_257();
        },
        258 => {
            lemma_gnu_flag_258();
        },
        259 => {
            lemma_gnu_flag_259();
        },
        260 => {
            lemma_gnu_flag_260();
        },
        261 => {
            lemma_gnu_flag_261();
        },
        262 => {
            lemma_gnu_flag_262();
        },
        263 => {
            lemma_gnu_flag_263();
        },
        264 => {
            lemma_gnu_flag_264();
        },
        265 => {
            lemma_gnu_flag_265();
        },
        266 => {
            lemma_gnu_flag_266();
        },
        267 => {
            lemma_gnu_flag_267();
        },
        268 => {
            lemma_gnu_flag_268();
        },
        269 => {
            lemma_gnu_flag_269();
        },
        270 => {
            lemma_gnu_flag_270();
        },
        271 => {
            lemma_gnu_flag_271();
        },
        272 => {
            lemma_gnu_flag_272();
        },
        273 => {
            lemma_gnu_flag_273();
        },
        274 => {
            lemma_gnu_flag_274();
        },
        275 => {
            lemma_gnu_flag_275();
        },
        276 => {
            lemma_gnu_flag_276();
        },
        277 => {
            lemma_gnu_flag_277();
        },
        278 => {
            lemma_gnu_flag_278();
        },
        279 => {
            lemma_gnu_flag_279();
        },
        280 => {
            lemma_gnu_flag_280();
        },
        281 => {
            lemma_gnu_flag_281();
        },
        282 => {
            lemma_gnu_flag_282();
        },
        283 => {
            lemma_gnu_flag_283();
        },
        284 => {
            lemma_gnu_flag_284();
        },
        285 => {
            lemma_gnu_flag_285();
        },
        286 => {
            lemma_gnu_flag_286();
        },
        287 => {
            lemma_gnu_flag_287();
        },
        288 => {
            lemma_gnu_flag_288();
        },
        289 => {
            lemma_gnu_flag_289();
        },
        290 => {
            lemma_gnu_flag_290();
        },
        291 => {
            lemma_gnu_flag_291();
        },
        292 => {
            lemma_gnu_flag_292();
        },
        293 => {
            lemma_gnu_flag_293();
        },
        294 => {
            lemma_gnu_flag_294();
        },
        295 => {
            lemma_gnu_flag_295();
        },
        296 => {
            lemma_gnu_flag_296();
        },
        297 => {
            lemma_gnu_flag_297();
        },
        298 => {
            lemma_gnu_flag_298();
        },
        299 => {
            lemma_gnu_flag_299();
        },
        300 => {
            lemma_gnu_flag_300();
        },
        301 => {
            lemma_gnu_flag_301();
        },
        302 => {
            lemma_gnu_flag_302();
        },
        303 => {
            lemma_gnu_flag_303();
        },
        304 => {
            lemma_gnu_flag_304();
        },
        305 => {
            lemma_gnu_flag_305();
        },
        306 => {
            lemma_gnu_flag_306();
        },
        307 => {
            lemma_gnu_flag_307();
        },
        308 => {
            lemma_gnu_flag_308();
        },
        309 => {
            lemma_gnu_flag_309();
        },
        310 => {
            lemma_gnu_flag_310();
        },
        311 => {
            lemma_gnu_flag_311();
        },
        312 => {
            lemma_gnu_flag_312();
        },
        313 => {
            lemma_gnu_flag_313();
        },
        314 => {
            lemma_gnu_flag_314();
        },
        315 => {
            lemma_gnu_flag_315();
        },
        316 => {
            lemma_gnu_flag_316();
        },
        317 => {
            lemma_gnu_flag_317();
        },
        318 => {
            lemma_gnu_flag_318();
        },
        319 => {
            lemma_gnu_flag_319();
        },
        320 => {
            lemma_gnu_flag_320();
        },
        321 => {
            lemma_gnu_flag_321();
        },
        322 => {
            lemma_gnu_flag_322();
        },
        323 => {
            lemma_gnu_flag_323();
        },
        324 => {
            lemma_gnu_flag_324();
        },
        325 => {
            lemma_gnu_flag_325();
        },
        326 => {
            lemma_gnu_flag_326();
        },
        327 => {
            lemma_gnu_flag_327();
        },
        328 => {
            lemma_gnu_flag_328();
        },
        329 => {
            lemma_gnu_flag_329();
        },
        330 => {
            lemma_gnu_flag_330();
        },
        331 => {
            lemma_gnu_flag_331();
        },
        332 => {
            lemma_gnu_flag_332();
        },
        333 => {
            lemma_gnu_flag_333();
        },
        334 => {
            lemma_gnu_flag_334();
        },
        335 => {
            lemma_gnu_flag_335();
        },
        336 => {
            lemma_gnu_flag_336();
        },
        337 => {
            lemma_gnu_flag_337();
        },
        338 => {
            lemma_gnu_flag_338();
        },
        339 => {
            lemma_gnu_flag_339();
        },
        340 => {
            lemma_gnu_flag_340();
        },
        341 => {
            lemma_gnu_flag_341();
        },
        342 => {
            lemma_gnu_flag_342();
        },
        343 => {
            lemma_gnu_flag_343();
        },
        344 => {
            lemma_gnu_flag_344();
        },
        345 => {
            lemma_gnu_flag_345();
        },
        346 => {
            lemma_gnu_flag_346();
        },
        347 => {
            lemma_gnu_flag_347();
        },
        348 => {
            lemma_gnu_flag_348();
        },
        349 => {
            lemma_gnu_flag_349();
        },
        350 => {
            lemma_gnu_flag_350();
        },
        351 => {
            lemma_gnu_flag_351();
        },
        352 => {
            lemma_gnu_flag_352();
        },
        353 => {
            lemma_gnu_flag_353();
        },
        354 => {
            lemma_gnu_flag_354();
        },
        355 => {
            lemma_gnu_flag_355();
        },
        356 => {
            lemma_gnu_flag_356();
        },
        357 => {
            lemma_gnu_flag_357();
        },
        358 => {
            lemma_gnu_flag_358();
        },
        359 => {
            lemma_gnu_flag_359();
        },
        360 => {
            lemma_gnu_flag_360();
        },
        361 => {
            lemma_gnu_flag_361();
        },
        362 => {
            lemma_gnu_flag_362();
        },
        363 => {
            lemma_gnu_flag_363();
        },
        364 => {
            lemma_gnu_flag_364();
        },
        365 => {
            lemma_gnu_flag_365();
        },
        366 => {
            lemma_gnu_flag_366();
        },
        367 => {
            lemma_gnu_flag_367();
        },
        368 => {
            lemma_gnu_flag_368();
        },
        369 => {
            lemma_gnu_flag_369();
        },
        370 => {
            lemma_gnu_flag_370();
        },
        371 => {
            lemma_gnu_flag_371();
        },
        372 => {
            lemma_gnu_flag_372();
        },
        373 => {
            lemma_gnu_flag_373();
        },
        374 => {
            lemma_gnu_flag_374();
        },
        375 => {
            lemma_gnu_flag_375();
        },
        376 => {
            lemma_gnu_flag_376();
        },
        377 => {
            lemma_gnu_flag_377();
        },
        378 => {
            lemma_gnu_flag_378();
        },
        379 => {
            lemma_gnu_flag_379();
        },
        380 => {
            lemma_gnu_flag_380();
        },
        381 => {
            lemma_gnu_flag_381();
        },
        382 => {
            lemma_gnu_flag_382();
        },
        383 => {
            lemma_gnu_flag_383();
        },
        384 => {
            lemma_gnu_flag_384();
        },
        385 => {
            lemma_gnu_flag_385();
        },
        386 => {
            lemma_gnu_flag_386();
        },
        387 => {
            lemma_gnu_flag_387();
        },
        388 => {
            lemma_gnu_flag_388();
        },
        389 => {
            lemma_gnu_flag_389();
        },
        390 => {
            lemma_gnu_flag_390();
        },
        391 => {
            lemma_gnu_flag_391();
        },
        392 => {
            lemma_gnu_flag_392();
        },
        393 => {
            lemma_gnu_flag_393();
        },
        394 => {
            lemma_gnu_flag_394();
        },
        395 => {
            lemma_gnu_flag_395();
        },
        396 => {
            lemma_gnu_flag_396();
        },
        397 => {
            lemma_gnu_flag_397();
        },
        398 => {
            lemma_gnu_flag_398();
        },
        399 => {
            lemma_gnu_flag_399();
        },
        400 => {
            lemma_gnu_flag_400();
        },
        401 => {
            lemma_gnu_flag_401();
        },
        402 => {
            lemma_gnu_flag_402();
        },
        403 => {
            lemma_gnu_flag_403();
        },
        404 => {
            lemma_gnu_flag_404();
        },
        405 => {
            lemma_gnu_flag_405();
        },
        406 => {
            lemma_gnu_flag_406();
        },
        407 => {
            lemma_gnu_flag_407();
        },
        408 => {
            lemma_gnu_flag_408();
        },
        409 => {
            lemma_gnu_flag_409();
        },
        410 => {
            lemma_gnu_flag_410();
        },
        411 => {
            lemma_gnu_flag_411();
        },
        _ => {},
    }
}

proof fn lemma_target_afl_3_0()
    ensures
        is_term_text("AFL-3.0".spec_bytes()),
        !is_operator_word("AFL-3.0".spec_bytes()),
{
    reveal_strlit("AFL-3.0");
    is_ascii_chars_encode_utf8("AFL-3.0"@);
    reveal_strlit("AND");
    is_ascii_chars_encode_utf8("AND"@);
    reveal_strlit("and");
    is_ascii_chars_encode_utf8("and"@);
    reveal_strlit("OR");
    is_ascii_chars_encode_utf8("OR"@);
    reveal_strlit("or");
    is_ascii_chars_encode_utf8("or"@);
    reveal_strlit("WITH");
    is_ascii_chars_encode_utf8("WITH"@);
    reveal_strlit("with");
    is_ascii_chars_encode_utf8("with"@);
}

proof fn lemma_target_agpl_1_0()
    ensures
        is_term_text("AGPL-1.0".spec_bytes()),
        !is_operator_word("AGPL-1.0".spec_bytes()),
{
    reveal_strlit("AGPL-1.0");
    is_ascii_chars_encode_utf8("AGPL-1.0"@);
    reveal_strlit("AND");
    is_ascii_chars_encode_utf8("AND"@);
    reveal_strlit("and");
    is_ascii_chars_encode_utf8("and"@);
    reveal_strlit("OR");
    is_ascii_chars_encode_utf8("OR"@);
    reveal_strlit("or");
    is_ascii_chars_encode_utf8("or"@);
    reveal_strlit("WITH");
    is_ascii_chars_encode_utf8("WITH"@);
    reveal_strlit("with");
    is_ascii_chars_encode_utf8("with"@);
}

proof fn lemma_target_agpl_3_0()
    ensures
        is_term_text("AGPL-3.0".spec_bytes()),
        !is_operator_word("AGPL-3.0".spec_bytes()),
{
    reveal_strlit("AGPL-3.0");
    is_ascii_chars_encode_utf8("AGPL-3.0"@);
    reveal_strlit("AND");
    is_ascii_chars_encode_utf8("AND"@);
    reveal_strlit("and");
    is_ascii_chars_encode_utf8("and"@);
    reveal_strlit("OR");
    is_ascii_chars_encode_utf8("OR"@);
    reveal_strlit("or");
    is_ascii_chars_encode_utf8("or"@);
    reveal_strlit("WITH");
    is_ascii_chars_encode_utf8("WITH"@);
    reveal_strlit("with");
    is_ascii_chars_encode_utf8("with"@);
}

proof fn lemma_target_apache_2_0()
    ensures
        is_term_text("Apache-2.0".spec_bytes()),
        !is_operator_word("Apache-2.0".spec_bytes()),
{
    reveal_strlit("Apache-2.0");
    is_ascii_chars_encode_utf8("Apache-2.0"@);
    reveal_strlit("AND");
    is_ascii_chars_encode_utf8("AND"@);
    reveal_strlit("and");
    is_ascii_chars_encode_utf8("and"@);
    reveal_strlit("OR");
    is_ascii_chars_encode_utf8("OR"@);
    reveal_strlit("or");
    is_ascii_chars_encode_utf8("or"@);
    reveal_strlit("WITH");
    is_ascii_chars_encode_utf8("WITH"@);
    reveal_strlit("with");
    is_ascii_chars_encode_utf8("with"@);
}

proof fn lemma_target_bsd_2_clause()
    ensures
        is_term_text("BSD-2-Clause".spec_bytes()),
        !is_operator_word("BSD-2-Clause".spec_bytes()),
{
    reveal_strlit("BSD-2-Clause");
    is_ascii_chars_encode_utf8("BSD-2-Clause"@);
    reveal_strlit("AND");
    is_ascii_chars_encode_utf8("AND"@);
    reveal_strlit("and");
    is_ascii_chars_encode_utf8("and"@);
    reveal_strlit("OR");
    is_ascii_chars_encode_utf8("OR"@);
    reveal_strlit("or");
    is_ascii_chars_encode_utf8("or"@);
    reveal_strlit("WITH");
    is_ascii_chars_encode_utf8("WITH"@);
    reveal_strlit("with");
    is_ascii_chars_encode_utf8("with"@);
}

proof fn lemma_target_bsd_3_clause()
    ensures
        is_term_text("BSD-3-Clause".spec_bytes()),
        !is_operator_word("BSD-3-Clause".spec_bytes()),
{
    reveal_strlit("BSD-3-Clause");
    is_ascii_chars_encode_utf8("BSD-3-Clause"@);
    reveal_strlit("AND");
    is_ascii_chars_encode_utf8("AND"@);
    reveal_strlit("and");
    is_ascii_chars_encode_utf8("and"@);
    reveal_strlit("OR");
    is_ascii_chars_encode_utf8("OR"@);
    reveal_strlit("or");
    is_ascii_chars_encode_utf8("or"@);
    reveal_strlit("WITH");
    is_ascii_chars_encode_utf8("WITH"@);
    reveal_strlit("with");
    is_ascii_chars_encode_utf8("with"@);
}

proof fn lemma_target_bsl_1_0()
    ensures
        is_term_text("BSL-1.0".spec_bytes()),
        !is_operator_word("BSL-1.0".spec_bytes()),
{
    reveal_strlit("BSL-1.0");
    is_ascii_chars_encode_utf8("BSL-1.0"@);
    reveal_strlit("AND");
    is_ascii_chars_encode_utf8("AND"@);
    reveal_strlit("and");
    is_ascii_chars_encode_utf8("and"@);
    reveal_strlit("OR");
    is_ascii_chars_encode_utf8("OR"@);
    reveal_strlit("or");
    is_ascii_chars_encode_utf8("or"@);
    reveal_strlit("WITH");
    is_ascii_chars_encode_utf8("WITH"@);
    reveal_strlit("with");
    is_ascii_chars_encode_utf8("with"@);
}

proof fn lemma_target_cc0_1_0()
    ensures
        is_term_text("CC0-1.0".spec_bytes()),
        !is_operator_word("CC0-1.0".spec_bytes()),
{
    reveal_strlit("CC0-1.0");
    is_ascii_chars_encode_utf8("CC0-1.0"@);
    reveal_strlit("AND");
    is_ascii_chars_encode_utf8("AND"@);
    reveal_strlit("and");
    is_ascii_chars_encode_utf8("and"@);
    reveal_strlit("OR");
    is_ascii_chars_encode_utf8("OR"@);
    reveal_strlit("or");
    is_ascii_chars_encode_utf8("or"@);
    reveal_strlit("WITH");
    is_ascii_chars_encode_utf8("WITH"@);
    reveal_strlit("with");
    is_ascii_chars_encode_utf8("with"@);
}

proof fn lemma_target_cddl_1_0()
    ensures
        is_term_text("CDDL-1.0".spec_bytes()),
        !is_operator_word("CDDL-1.0".spec_bytes()),
{
    reveal_strlit("CDDL-1.0");
    is_ascii_chars_encode_utf8("CDDL-1.0"@);
    reveal_strlit("AND");
    is_ascii_chars_encode_utf8("AND"@);
    reveal_strlit("and");
    is_ascii_chars_encode_utf8("and"@);
    reveal_strlit("OR");
    is_ascii_chars_encode_utf8("OR"@);
    reveal_strlit("or");
    is_ascii_chars_encode_utf8("or"@);
    reveal_strlit("WITH");
    is_ascii_chars_encode_utf8("WITH"@);
    reveal_strlit("with");
    is_ascii_chars_encode_utf8("with"@);
}

proof fn lemma_target_epl_1_0()
    ensures
        is_term_text("EPL-1.0".spec_bytes()),
        !is_operator_word("EPL-1.0".spec_bytes()),
{
    reveal_strlit("EPL-1.0");
    is_ascii_chars_encode_utf8("EPL-1.0"@);
    reveal_strlit("AND");
    is_ascii_chars_encode_utf8("AND"@);
    reveal_strlit("and");
    is_ascii_chars_encode_utf8("and"@);
    reveal_strlit("OR");
    is_ascii_chars_encode_utf8("OR"@);
    reveal_strlit("or");
    is_ascii_chars_encode_utf8("or"@);
    reveal_strlit("WITH");
    is_ascii_chars_encode_utf8("WITH"@);
    reveal_strlit("with");
    is_ascii_chars_encode_utf8("with"@);
}

proof fn lemma_target_gfdl_1_3()
    ensures
        is_term_text("GFDL-1.3".spec_bytes()),
        !is_operator_word("GFDL-1.3".spec_bytes()),
{
    reveal_strlit("GFDL-1.3");
    is_ascii_chars_encode_utf8("GFDL-1.3"@);
    reveal_strlit("AND");
    is_ascii_chars_encode_utf8("AND"@);
    reveal_strlit("and");
    is_ascii_chars_encode_utf8("and"@);
    reveal_strlit("OR");
    is_ascii_chars_encode_utf8("OR"@);
    reveal_strlit("or");
    is_ascii_chars_encode_utf8("or"@);
    reveal_strlit("WITH");
    is_ascii_chars_encode_utf8("WITH"@);
    reveal_strlit("with");
    is_ascii_chars_encode_utf8("with"@);
}

proof fn lemma_target_gpl_2_0()
    ensures
        is_term_text("GPL-2.0".spec_bytes()),
        !is_operator_word("GPL-2.0".spec_bytes()),
{
    reveal_strlit("GPL-2.0");
    is_ascii_chars_encode_utf8("GPL-2.0"@);
    reveal_strlit("AND");
    is_ascii_chars_encode_utf8("AND"@);
    reveal_strlit("and");
    is_ascii_chars_encode_utf8("and"@);
    reveal_strlit("OR");
    is_ascii_chars_encode_utf8("OR"@);
    reveal_strlit("or");
    is_ascii_chars_encode_utf8("or"@);
    reveal_strlit("WITH");
    is_ascii_chars_encode_utf8("WITH"@);
    reveal_strlit("with");
    is_ascii_chars_encode_utf8("with"@);
}

proof fn lemma_target_gpl_3_0()
    ensures
        is_term_text("GPL-3.0".spec_bytes()),
        !is_operator_word("GPL-3.0".spec_bytes()),
{
    reveal_strlit("GPL-3.0");
    is_ascii_chars_encode_utf8("GPL-3.0"@);
    reveal_strlit("AND");
    is_ascii_chars_encode_utf8("AND"@);
    reveal_strlit("and");
    is_ascii_chars_encode_utf8("and"@);
    reveal_strlit("OR");
    is_ascii_chars_encode_utf8("OR"@);
    reveal_strlit("or");
    is_ascii_chars_encode_utf8("or"@);
    reveal_strlit("WITH");
    is_ascii_chars_encode_utf8("WITH"@);
    reveal_strlit("with");
    is_ascii_chars_encode_utf8("with"@);
}

proof fn lemma_target_isc()
    ensures
        is_term_text("ISC".spec_bytes()),
        !is_operator_word("ISC".spec_bytes()),
{
    reveal_strlit("ISC");
    is_ascii_chars_encode_utf8("ISC"@);
    reveal_strlit("AND");
    is_ascii_chars_encode_utf8("AND"@);
    reveal_strlit("and");
    is_ascii_chars_encode_utf8("and"@);
    reveal_strlit("OR");
    is_ascii_chars_encode_utf8("OR"@);
    reveal_strlit("or");
    is_ascii_chars_encode_utf8("or"@);
    reveal_strlit("WITH");
    is_ascii_chars_encode_utf8("WITH"@);
    reveal_strlit("with");
    is_ascii_chars_encode_utf8("with"@);
}

proof fn lemma_target_lgpl_2_1()
    ensures
        is_term_text("LGPL-2.1".spec_bytes()),
        !is_operator_word("LGPL-2.1".spec_bytes()),
{
    reveal_strlit("LGPL-2.1");
    is_ascii_chars_encode_utf8("LGPL-2.1"@);
    reveal_strlit("AND");
    is_ascii_chars_encode_utf8("AND"@);
    reveal_strlit("and");
    is_ascii_chars_encode_utf8("and"@);
    reveal_strlit("OR");
    is_ascii_chars_encode_utf8("OR"@);
    reveal_strlit("or");
    is_ascii_chars_encode_utf8("or"@);
    reveal_strlit("WITH");
    is_ascii_chars_encode_utf8("WITH"@);
    reveal_strlit("with");
    is_ascii_chars_encode_utf8("with"@);
}

proof fn lemma_target_lgpl_3_0()
    ensures
        is_term_text("LGPL-3.0".spec_bytes()),
        !is_operator_word("LGPL-3.0".spec_bytes()),
{
    reveal_strlit("LGPL-3.0");
    is_ascii_chars_encode_utf8("LGPL-3.0"@);
    reveal_strlit("AND");
    is_ascii_chars_encode_utf8("AND"@);
    reveal_strlit("and");
    is_ascii_chars_encode_utf8("and"@);
    reveal_strlit("OR");
    is_ascii_chars_encode_utf8("OR"@);
    reveal_strlit("or");
    is_ascii_chars_encode_utf8("or"@);
    reveal_strlit("WITH");
    is_ascii_chars_encode_utf8("WITH"@);
    reveal_strlit("with");
    is_ascii_chars_encode_utf8("with"@);
}

proof fn lemma_target_mit()
    ensures
        is_term_text("MIT".spec_bytes()),
        !is_operator_word("MIT".spec_bytes()),
{
    reveal_strlit("MIT");
    is_ascii_chars_encode_utf8("MIT"@);
    reveal_strlit("AND");
    is_ascii_chars_encode_utf8("AND"@);
    reveal_strlit("and");
    is_ascii_chars_encode_utf8("and"@);
    reveal_strlit("OR");
    is_ascii_chars_encode_utf8("OR"@);
    reveal_strlit("or");
    is_ascii_chars_encode_utf8("or"@);
    reveal_strlit("WITH");
    is_ascii_chars_encode_utf8("WITH"@);
    reveal_strlit("with");
    is_ascii_chars_encode_utf8("with"@);
}

proof fn lemma_target_mpl_1_0()
    ensures
        is_term_text("MPL-1.0".spec_bytes()),
        !is_operator_word("MPL-1.0".spec_bytes()),
{
    reveal_strlit("MPL-1.0");
    is_ascii_chars_encode_utf8("MPL-1.0"@);
    reveal_strlit("AND");
    is_ascii_chars_encode_utf8("AND"@);
    reveal_strlit("and");
    is_ascii_chars_encode_utf8("and"@);
    reveal_strlit("OR");
    is_ascii_chars_encode_utf8("OR"@);
    reveal_strlit("or");
    is_ascii_chars_encode_utf8("or"@);
    reveal_strlit("WITH");
    is_ascii_chars_encode_utf8("WITH"@);
    reveal_strlit("with");
    is_ascii_chars_encode_utf8("with"@);
}

proof fn lemma_target_mpl_1_1()
    ensures
        is_term_text("MPL-1.1".spec_bytes()),
        !is_operator_word("MPL-1.1".spec_bytes()),
{
    reveal_strlit("MPL-1.1");
    is_ascii_chars_encode_utf8("MPL-1.1"@);
    reveal_strlit("AND");
    is_ascii_chars_encode_utf8("AND"@);
    reveal_strlit("and");
    is_ascii_chars_encode_utf8("and"@);
    reveal_strlit("OR");
    is_ascii_chars_encode_utf8("OR"@);
    reveal_strlit("or");
    is_ascii_chars_encode_utf8("or"@);
    reveal_strlit("WITH");
    is_ascii_chars_encode_utf8("WITH"@);
    reveal_strlit("with");
    is_ascii_chars_encode_utf8("with"@);
}

proof fn lemma_target_mpl_2_0()
    ensures
        is_term_text("MPL-2.0".spec_bytes()),
        !is_operator_word("MPL-2.0".spec_bytes()),
{
    reveal_strlit("MPL-2.0");
    is_ascii_chars_encode_utf8("MPL-2.0"@);
    reveal_strlit("AND");
    is_ascii_chars_encode_utf8("AND"@);
    reveal_strlit("and");
    is_ascii_chars_encode_utf8("and"@);
    reveal_strlit("OR");
    is_ascii_chars_encode_utf8("OR"@);
    reveal_strlit("or");
    is_ascii_chars_encode_utf8("or"@);
    reveal_strlit("WITH");
    is_ascii_chars_encode_utf8("WITH"@);
    reveal_strlit("with");
    is_ascii_chars_encode_utf8("with"@);
}

proof fn lemma_target_unlicense()
    ensures
        is_term_text("Unlicense".spec_bytes()),
        !is_operator_word("Unlicense".spec_bytes()),
{
    reveal_strlit("Unlicense");
    is_ascii_chars_encode_utf8("Unlicense"@);
    reveal_strlit("AND");
    is_ascii_chars_encode_utf8("AND"@);
    reveal_strlit("and");
    is_ascii_chars_encode_utf8("and"@);
    reveal_strlit("OR");
    is_ascii_chars_encode_utf8("OR"@);
    reveal_strlit("or");
    is_ascii_chars_encode_utf8("or"@);
    reveal_strlit("WITH");
    is_ascii_chars_encode_utf8("WITH"@);
    reveal_strlit("with");
    is_ascii_chars_encode_utf8("with"@);
}

proof fn lemma_target_zlib()
    ensures
        is_term_text("Zlib".spec_bytes()),
        !is_operator_word("Zlib".spec_bytes()),
{
    reveal_strlit("Zlib");
    is_ascii_chars_encode_utf8("Zlib"@);
    reveal_strlit("AND");
    is_ascii_chars_encode_utf8("AND"@);
    reveal_strlit("and");
    is_ascii_chars_encode_utf8("and"@);
    reveal_strlit("OR");
    is_ascii_chars_encode_utf8("OR"@);
    reveal_strlit("or");
    is_ascii_chars_encode_utf8("or"@);
    reveal_strlit("WITH");
    is_ascii_chars_encode_utf8("WITH"@);
    reveal_strlit("with");
    is_ascii_chars_encode_utf8("with"@);
}

/// What a loosely written name stands for is a term, and no operator.
pub proof fn lemma_target_is_term(index: usize)
    requires
        index < IMPRECISE_COUNT,
    ensures
        is_term_text(imprecise_target(index).spec_bytes()),
        !is_operator_word(imprecise_target(index).spec_bytes()),
{
    match index {
        0 => {
            lemma_target_agpl_3_0();
        },
        1 => {
            lemma_target_afl_3_0();
        },
        2 => {
            lemma_target_agpl_3_0();
        },
        3 => {
            lemma_target_agpl_1_0();
        },
        4 => {
            lemma_target_agpl_3_0();
        },
        5 => {
            lemma_target_apache_2_0();
        },
        6 => {
            lemma_target_apache_2_0();
        },
        7 => {
            lemma_target_apache_2_0();
        },
        8 => {
            lemma_target_apache_2_0();
        },
        9 => {
            lemma_target_apache_2_0();
        },
        10 => {
            lemma_target_apache_2_0();
        },
        11 => {
            lemma_target_apache_2_0();
        },
        12 => {
            lemma_target_apache_2_0();
        },
        13 => {
            lemma_target_apache_2_0();
        },
        14 => {
            lemma_target_apache_2_0();
        },
        15 => {
            lemma_target_apache_2_0();
        },
        16 => {
            lemma_target_apache_2_0();
        },
        17 => {
            lemma_target_apache_2_0();
        },
        18 => {
            lemma_target_apache_2_0();
        },
        19 => {
            lemma_target_apache_2_0();
        },
        20 => {
            lemma_target_apache_2_0();
        },
        21 => {
            lemma_target_apache_2_0();
        },
        22 => {
            lemma_target_bsl_1_0();
        },
        23 => {
            lemma_target_bsd_2_clause();
        },
        24 => {
            lemma_target_bsd_2_clause();
        },
        25 => {
            lemma_target_bsd_3_clause();
        },
        26 => {
            lemma_target_bsd_2_clause();
        },
        27 => {
            lemma_target_bsd_2_clause();
        },
        28 => {
            lemma_target_bsd_3_clause();
        },
        29 => {
            lemma_target_bsd_3_clause();
        },
        30 => {
            lemma_target_bsd_2_clause();
        },
        31 => {
            lemma_target_bsd_3_clause();
        },
        32 => {
            lemma_target_bsl_1_0();
        },
        33 => {
            lemma_target_bsl_1_0();
        },
        34 => {
            lemma_target_cc0_1_0();
        },
        35 => {
            lemma_target_cddl_1_0();
        },
        36 => {
            lemma_target_epl_1_0();
        },
        37 => {
            lemma_target_gfdl_1_3();
        },
        38 => {
            lemma_target_gpl_3_0();
        },
        39 => {
            lemma_target_gpl_2_0();
        },
        40 => {
            lemma_target_gpl_3_0();
        },
        41 => {
            lemma_target_gpl_2_0();
        },
        42 => {
            lemma_target_gpl_3_0();
        },
        43 => {
            lemma_target_gpl_2_0();
        },
        44 => {
            lemma_target_gpl_3_0();
        },
        45 => {
            lemma_target_gpl_2_0();
        },
        46 => {
            lemma_target_gpl_3_0();
        },
        47 => {
            lemma_target_isc();
        },
        48 => {
            lemma_target_lgpl_3_0();
        },
        49 => {
            lemma_target_lgpl_2_1();
        },
        50 => {
            lemma_target_lgpl_3_0();
        },
        51 => {
            lemma_target_lgpl_2_1();
        },
        52 => {
            lemma_target_lgpl_2_1();
        },
        53 => {
            lemma_target_lgpl_3_0();
        },
        54 => {
            lemma_target_mit();
        },
        55 => {
            lemma_target_mit();
        },
        56 => {
            lemma_target_mpl_2_0();
        },
        57 => {
            lemma_target_mpl_1_0();
        },
        58 => {
            lemma_target_mpl_1_0();
        },
        59 => {
            lemma_target_mpl_1_1();
        },
        60 => {
            lemma_target_mpl_2_0();
        },
        61 => {
            lemma_target_mpl_2_0();
        },
        62 => {
            lemma_target_mpl_2_0();
        },
        63 => {
            lemma_target_bsd_3_clause();
        },
        64 => {
            lemma_target_bsd_2_clause();
        },
        65 => {
            lemma_target_unlicense();
        },
        66 => {
            lemma_target_unlicense();
        },
        67 => {
            lemma_target_zlib();
        },
        _ => {},
    }
}

/// Nothing that begins with `LicenseRef-` is a license of the table: it sorts
/// between two a licenses that follow each other.
pub proof fn lemma_license_ref_is_no_license(w: Seq<u8>) -> (gap: usize)
    requires
        has_prefix(w, "LicenseRef-".spec_bytes()),
    ensures
        gap + 1 < LICENSE_COUNT,
        sorts_before(license_name(gap).spec_bytes(), w),
        sorts_before(w, license_name((gap + 1) as usize).spec_bytes()),
{
    reveal_strlit("Libpng");
    is_ascii_chars_encode_utf8("Libpng"@);
    reveal_strlit("Linux-OpenIB");
    is_ascii_chars_encode_utf8("Linux-OpenIB"@);
    reveal_strlit("LicenseRef-");
    is_ascii_chars_encode_utf8("LicenseRef-"@);
    reveal_strlit("LicenseRef.");
    is_ascii_chars_encode_utf8("LicenseRef."@);
    let lo = "Libpng".spec_bytes();
    let hi = "Linux-OpenIB".spec_bytes();
    let p = "LicenseRef-".spec_bytes();
    let next = "LicenseRef.".spec_bytes();
    assert(lo.subrange(0, 2) =~= p.subrange(0, 2));
    assert(differs_below(lo, p, 2));
    assert(behind_prefix(p) =~= next);
    assert(next.subrange(0, 2) =~= hi.subrange(0, 2));
    assert(differs_below(next, hi, 2));
    lemma_prefixed_between(w, p, lo, hi);
    235
}

/// Nothing that begins with `LicenseRef-` is an exception of the table: it sorts
/// between two an exceptions that follow each other.
pub proof fn lemma_license_ref_is_no_exception(w: Seq<u8>) -> (gap: usize)
    requires
        has_prefix(w, "LicenseRef-".spec_bytes()),
    ensures
        gap + 1 < EXCEPTION_COUNT,
        sorts_before(exception_name(gap).spec_bytes(), w),
        sorts_before(w, exception_name((gap + 1) as usize).spec_bytes()),
{
    reveal_strlit("Libtool-exception");
    is_ascii_chars_encode_utf8("Libtool-exception"@);
    reveal_strlit("Linux-syscall-note");
    is_ascii_chars_encode_utf8("Linux-syscall-note"@);
    reveal_strlit("LicenseRef-");
    is_ascii_chars_encode_utf8("LicenseRef-"@);
    reveal_strlit("LicenseRef.");
    is_ascii_chars_encode_utf8("LicenseRef."@);
    let lo = "Libtool-exception".spec_bytes();
    let hi = "Linux-syscall-note".spec_bytes();
    let p = "LicenseRef-".spec_bytes();
    let next = "LicenseRef.".spec_bytes();
    assert(lo.subrange(0, 2) =~= p.subrange(0, 2));
    assert(differs_below(lo, p, 2));
    assert(behind_prefix(p) =~= next);
    assert(next.subrange(0, 2) =~= hi.subrange(0, 2));
    assert(differs_below(next, hi, 2));
    lemma_prefixed_between(w, p, lo, hi);
    16
}

/// Nothing that begins with `AdditionRef-` is a license of the table: it sorts
/// between two a licenses that follow each other.
pub proof fn lemma_addition_ref_is_no_license(w: Seq<u8>) -> (gap: usize)
    requires
        has_prefix(w, "AdditionRef-".spec_bytes()),
    ensures
        gap + 1 < LICENSE_COUNT,
        sorts_before(license_name(gap).spec_bytes(), w),
        sorts_before(w, license_name((gap + 1) as usize).spec_bytes()),
{
    reveal_strlit("Abstyles");
    is_ascii_chars_encode_utf8("Abstyles"@);
    reveal_strlit("Adobe-2006");
    is_ascii_chars_encode_utf8("Adobe-2006"@);
    reveal_strlit("AdditionRef-");
    is_ascii_chars_encode_utf8("AdditionRef-"@);
    reveal_strlit("AdditionRef.");
    is_ascii_chars_encode_utf8("AdditionRef."@);
    let lo = "Abstyles".spec_bytes();
    let hi = "Adobe-2006".spec_bytes();
    let p = "AdditionRef-".spec_bytes();
    let next = "AdditionRef.".spec_bytes();
    assert(lo.subrange(0, 1) =~= p.subrange(0, 1));
    assert(differs_below(lo, p, 1));
    assert(behind_prefix(p) =~= next);
    assert(next.subrange(0, 2) =~= hi.subrange(0, 2));
    assert(differs_below(next, hi, 2));
    lemma_prefixed_between(w, p, lo, hi);
    24
}

/// Nothing that begins with `AdditionRef-` is an exception of the table: it sorts
/// between two an exceptions that follow each other.
pub proof fn lemma_addition_ref_is_no_exception(w: Seq<u8>) -> (gap: usize)
    requires
        has_prefix(w, "AdditionRef-".spec_bytes()),
    ensures
        gap + 1 < EXCEPTION_COUNT,
        sorts_before(exception_name(gap).spec_bytes(), w),
        sorts_before(w, exception_name((gap + 1) as usize).spec_bytes()),
{
    reveal_strlit("389-exception");
    is_ascii_chars_encode_utf8("389-exception"@);
    reveal_strlit("Autoconf-exception-2.0");
    is_ascii_chars_encode_utf8("Autoconf-exception-2.0"@);
    reveal_strlit("AdditionRef-");
    is_ascii_chars_encode_utf8("AdditionRef-"@);
    reveal_strlit("AdditionRef.");
    is_ascii_chars_encode_utf8("AdditionRef."@);
    let lo = "389-exception".spec_bytes();
    let hi = "Autoconf-exception-2.0".spec_bytes();
    let p = "AdditionRef-".spec_bytes();
    let next = "AdditionRef.".spec_bytes();
    assert(lo.subrange(0, 0) =~= p.subrange(0, 0));
    assert(differs_below(lo, p, 0));
    assert(behind_prefix(p) =~= next);
    assert(next.subrange(0, 1) =~= hi.subrange(0, 1));
    assert(differs_below(next, hi, 1));
    lemma_prefixed_between(w, p, lo, hi);
    0
}

/// Nothing that begins with `DocumentRef-` is a license of the table: it sorts
/// between two a licenses that follow each other.
pub proof fn lemma_document_ref_is_no_license(w: Seq<u8>) -> (gap: usize)
    requires
        has_prefix(w, "DocumentRef-".spec_bytes()),
    ensures
        gap + 1 < LICENSE_COUNT,
        sorts_before(license_name(gap).spec_bytes(), w),
        sorts_before(w, license_name((gap + 1) as usize).spec_bytes()),
{
    reveal_strlit("DSDP");
    is_ascii_chars_encode_utf8("DSDP"@);
    reveal_strlit("Dotseqn");
    is_ascii_chars_encode_utf8("Dotseqn"@);
    reveal_strlit("DocumentRef-");
    is_ascii_chars_encode_utf8("DocumentRef-"@);
    reveal_strlit("DocumentRef.");
    is_ascii_chars_encode_utf8("DocumentRef."@);
    let lo = "DSDP".spec_bytes();
    let hi = "Dotseqn".spec_bytes();
    let p = "DocumentRef-".spec_bytes();
    let next = "DocumentRef.".spec_bytes();
    assert(lo.subrange(0, 1) =~= p.subrange(0, 1));
    assert(differs_below(lo, p, 1));
    assert(behind_prefix(p) =~= next);
    assert(next.subrange(0, 2) =~= hi.subrange(0, 2));
    assert(differs_below(next, hi, 2));
    lemma_prefixed_between(w, p, lo, hi);
    121
}

/// Nothing that begins with `DocumentRef-` is an exception of the table: it sorts
/// between two an exceptions that follow each other.
pub proof fn lemma_document_ref_is_no_exception(w: Seq<u8>) -> (gap: usize)
    requires
        has_prefix(w, "DocumentRef-".spec_bytes()),
    ensures
        gap + 1 < EXCEPTION_COUNT,
        sorts_before(exception_name(gap).spec_bytes(), w),
        sorts_before(w, exception_name((gap + 1) as usize).spec_bytes()),
{
    reveal_strlit("DigiRule-FOSS-exception");
    is_ascii_chars_encode_utf8("DigiRule-FOSS-exception"@);
    reveal_strlit("FLTK-exception");
    is_ascii_chars_encode_utf8("FLTK-exception"@);
    reveal_strlit("DocumentRef-");
    is_ascii_chars_encode_utf8("DocumentRef-"@);
    reveal_strlit("DocumentRef.");
    is_ascii_chars_encode_utf8("DocumentRef."@);
    let lo = "DigiRule-FOSS-exception".spec_bytes();
    let hi = "FLTK-exception".spec_bytes();
    let p = "DocumentRef-".spec_bytes();
    let next = "DocumentRef.".spec_bytes();
    assert(lo.subrange(0, 1) =~= p.subrange(0, 1));
    assert(differs_below(lo, p, 1));
    assert(behind_prefix(p) =~= next);
    assert(next.subrange(0, 0) =~= hi.subrange(0, 0));
    assert(differs_below(next, hi, 0));
    lemma_prefixed_between(w, p, lo, hi);
    7
}

} // verus!
