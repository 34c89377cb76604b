//! Fixed-point trigonometry on turns.
//!
//! A phase is a 32-bit turn: the full circle maps onto the 2^32 values of the
//! word, so that wrapping addition is addition of angles. Cosine and sine are
//! returned with a full scale of 2^31. Both directions go through one table of
//! 257 points that splits the first octant into 256 equal steps; the other
//! octants follow from the symmetries of the circle.
use crate::turn::{lemma_wrap_shift, signed_of};
use vstd::prelude::*;

verus! {

/// Turn units in one octant (an eighth of the circle).
pub open spec fn octant_span() -> int {
    0x2000_0000
}

/// Turn units between two neighbouring table points.
pub open spec fn table_step() -> int {
    0x20_0000
}

/// `(cos, sin)` at `i / 256` of the first octant, scaled by 2^31 and rounded;
/// the point at angle zero is held at `2^31 - 1` so that it fits a word.
#[verifier::opaque]
pub open spec fn octant_point(i: u32) -> (int, int) {
    match i {
        0 => (2147483647, 0),
        1 => (2147473542, 6588387),
        2 => (2147443222, 13176712),
        3 => (2147392690, 19764913),
        4 => (2147321946, 26352928),
        5 => (2147230991, 32940695),
        6 => (2147119825, 39528151),
        7 => (2146988450, 46115236),
        8 => (2146836866, 52701887),
        9 => (2146665076, 59288042),
        10 => (2146473080, 65873638),
        11 => (2146260881, 72458615),
        12 => (2146028480, 79042909),
        13 => (2145775880, 85626460),
        14 => (2145503083, 92209205),
        15 => (2145210092, 98791081),
        16 => (2144896910, 105372028),
        17 => (2144563539, 111951983),
        18 => (2144209982, 118530885),
        19 => (2143836244, 125108670),
        20 => (2143442326, 131685278),
        21 => (2143028234, 138260647),
        22 => (2142593971, 144834714),
        23 => (2142139541, 151407418),
        24 => (2141664948, 157978697),
        25 => (2141170197, 164548489),
        26 => (2140655293, 171116733),
        27 => (2140120240, 177683365),
        28 => (2139565043, 184248325),
        29 => (2138989708, 190811551),
        30 => (2138394240, 197372981),
        31 => (2137778644, 203932553),
        32 => (2137142927, 210490206),
        33 => (2136487095, 217045878),
        34 => (2135811153, 223599506),
        35 => (2135115107, 230151030),
        36 => (2134398966, 236700388),
        37 => (2133662734, 243247518),
        38 => (2132906420, 249792358),
        39 => (2132130030, 256334847),
        40 => (2131333572, 262874923),
        41 => (2130517052, 269412525),
        42 => (2129680480, 275947592),
        43 => (2128823862, 282480061),
        44 => (2127947206, 289009871),
        45 => (2127050522, 295536961),
        46 => (2126133817, 302061269),
        47 => (2125197100, 308582734),
        48 => (2124240380, 315101295),
        49 => (2123263666, 321616889),
        50 => (2122266967, 328129457),
        51 => (2121250292, 334638936),
        52 => (2120213651, 341145265),
        53 => (2119157054, 347648383),
        54 => (2118080511, 354148230),
        55 => (2116984031, 360644742),
        56 => (2115867626, 367137861),
        57 => (2114731305, 373627523),
        58 => (2113575080, 380113669),
        59 => (2112398960, 386596237),
        60 => (2111202959, 393075166),
        61 => (2109987085, 399550396),
        62 => (2108751352, 406021865),
        63 => (2107495770, 412489512),
        64 => (2106220352, 418953276),
        65 => (2104925109, 425413098),
        66 => (2103610054, 431868915),
        67 => (2102275199, 438320667),
        68 => (2100920556, 444768294),
        69 => (2099546139, 451211734),
        70 => (2098151960, 457650927),
        71 => (2096738032, 464085813),
        72 => (2095304370, 470516330),
        73 => (2093850985, 476942419),
        74 => (2092377892, 483364019),
        75 => (2090885105, 489781069),
        76 => (2089372638, 496193509),
        77 => (2087840505, 502601279),
        78 => (2086288720, 509004318),
        79 => (2084717298, 515402566),
        80 => (2083126254, 521795963),
        81 => (2081515603, 528184449),
        82 => (2079885360, 534567963),
        83 => (2078235540, 540946445),
        84 => (2076566160, 547319836),
        85 => (2074877233, 553688076),
        86 => (2073168777, 560051104),
        87 => (2071440808, 566408860),
        88 => (2069693342, 572761285),
        89 => (2067926394, 579108320),
        90 => (2066139983, 585449903),
        91 => (2064334124, 591785976),
        92 => (2062508835, 598116479),
        93 => (2060664133, 604441352),
        94 => (2058800036, 610760536),
        95 => (2056916560, 617073971),
        96 => (2055013723, 623381598),
        97 => (2053091544, 629683357),
        98 => (2051150040, 635979190),
        99 => (2049189231, 642269036),
        100 => (2047209133, 648552838),
        101 => (2045209767, 654830535),
        102 => (2043191150, 661102068),
        103 => (2041153301, 667367379),
        104 => (2039096241, 673626408),
        105 => (2037019988, 679879097),
        106 => (2034924562, 686125387),
        107 => (2032809982, 692365218),
        108 => (2030676269, 698598533),
        109 => (2028523442, 704825272),
        110 => (2026351522, 711045377),
        111 => (2024160529, 717258790),
        112 => (2021950484, 723465451),
        113 => (2019721407, 729665303),
        114 => (2017473321, 735858287),
        115 => (2015206245, 742044345),
        116 => (2012920201, 748223418),
        117 => (2010615210, 754395449),
        118 => (2008291295, 760560380),
        119 => (2005948478, 766718151),
        120 => (2003586779, 772868706),
        121 => (2001206222, 779011986),
        122 => (1998806829, 785147934),
        123 => (1996388622, 791276492),
        124 => (1993951625, 797397602),
        125 => (1991495860, 803511207),
        126 => (1989021350, 809617249),
        127 => (1986528118, 815715670),
        128 => (1984016189, 821806413),
        129 => (1981485585, 827889422),
        130 => (1978936331, 833964638),
        131 => (1976368450, 840032004),
        132 => (1973781967, 846091463),
        133 => (1971176906, 852142959),
        134 => (1968553292, 858186435),
        135 => (1965911148, 864221832),
        136 => (1963250501, 870249095),
        137 => (1960571375, 876268167),
        138 => (1957873796, 882278992),
        139 => (1955157788, 888281512),
        140 => (1952423377, 894275671),
        141 => (1949670589, 900261413),
        142 => (1946899451, 906238681),
        143 => (1944109987, 912207419),
        144 => (1941302225, 918167572),
        145 => (1938476190, 924119082),
        146 => (1935631910, 930061894),
        147 => (1932769411, 935995952),
        148 => (1929888720, 941921200),
        149 => (1926989864, 947837582),
        150 => (1924072871, 953745043),
        151 => (1921137767, 959643527),
        152 => (1918184581, 965532978),
        153 => (1915213340, 971413342),
        154 => (1912224073, 977284562),
        155 => (1909216806, 983146583),
        156 => (1906191570, 988999351),
        157 => (1903148392, 994842810),
        158 => (1900087301, 1000676905),
        159 => (1897008325, 1006501581),
        160 => (1893911494, 1012316784),
        161 => (1890796837, 1018122458),
        162 => (1887664383, 1023918550),
        163 => (1884514161, 1029705004),
        164 => (1881346202, 1035481766),
        165 => (1878160535, 1041248781),
        166 => (1874957189, 1047005996),
        167 => (1871736196, 1052753357),
        168 => (1868497586, 1058490808),
        169 => (1865241388, 1064218296),
        170 => (1861967634, 1069935768),
        171 => (1858676355, 1075643169),
        172 => (1855367581, 1081340445),
        173 => (1852041343, 1087027544),
        174 => (1848697674, 1092704411),
        175 => (1845336604, 1098370993),
        176 => (1841958164, 1104027237),
        177 => (1838562388, 1109673089),
        178 => (1835149306, 1115308496),
        179 => (1831718951, 1120933406),
        180 => (1828271356, 1126547765),
        181 => (1824806552, 1132151521),
        182 => (1821324572, 1137744621),
        183 => (1817825449, 1143327011),
        184 => (1814309216, 1148898640),
        185 => (1810775906, 1154459456),
        186 => (1807225553, 1160009405),
        187 => (1803658189, 1165548435),
        188 => (1800073849, 1171076495),
        189 => (1796472565, 1176593533),
        190 => (1792854372, 1182099496),
        191 => (1789219305, 1187594332),
        192 => (1785567396, 1193077991),
        193 => (1781898681, 1198550419),
        194 => (1778213194, 1204011567),
        195 => (1774510970, 1209461382),
        196 => (1770792044, 1214899813),
        197 => (1767056450, 1220326809),
        198 => (1763304224, 1225742318),
        199 => (1759535401, 1231146291),
        200 => (1755750017, 1236538675),
        201 => (1751948107, 1241919421),
        202 => (1748129707, 1247288478),
        203 => (1744294853, 1252645794),
        204 => (1740443581, 1257991320),
        205 => (1736575927, 1263325005),
        206 => (1732691928, 1268646800),
        207 => (1728791620, 1273956653),
        208 => (1724875040, 1279254516),
        209 => (1720942225, 1284540337),
        210 => (1716993211, 1289814068),
        211 => (1713028037, 1295075659),
        212 => (1709046739, 1300325060),
        213 => (1705049355, 1305562222),
        214 => (1701035922, 1310787095),
        215 => (1697006479, 1315999631),
        216 => (1692961062, 1321199781),
        217 => (1688899711, 1326387494),
        218 => (1684822463, 1331562723),
        219 => (1680729357, 1336725419),
        220 => (1676620432, 1341875533),
        221 => (1672495725, 1347013017),
        222 => (1668355276, 1352137822),
        223 => (1664199124, 1357249901),
        224 => (1660027308, 1362349204),
        225 => (1655839867, 1367435685),
        226 => (1651636841, 1372509294),
        227 => (1647418269, 1377569986),
        228 => (1643184191, 1382617710),
        229 => (1638934646, 1387652422),
        230 => (1634669676, 1392674072),
        231 => (1630389319, 1397682613),
        232 => (1626093616, 1402678000),
        233 => (1621782608, 1407660183),
        234 => (1617456335, 1412629117),
        235 => (1613114838, 1417584755),
        236 => (1608758157, 1422527051),
        237 => (1604386335, 1427455956),
        238 => (1599999411, 1432371426),
        239 => (1595597428, 1437273414),
        240 => (1591180426, 1442161874),
        241 => (1586748447, 1447036760),
        242 => (1582301533, 1451898025),
        243 => (1577839726, 1456745625),
        244 => (1573363068, 1461579514),
        245 => (1568871601, 1466399645),
        246 => (1564365367, 1471205974),
        247 => (1559844408, 1475998456),
        248 => (1555308768, 1480777044),
        249 => (1550758488, 1485541696),
        250 => (1546193612, 1490292364),
        251 => (1541614183, 1495029006),
        252 => (1537020244, 1499751576),
        253 => (1532411837, 1504460029),
        254 => (1527789007, 1509154322),
        255 => (1523151797, 1513834411),
        _ => (1518500250, 1518500250),
    }
}

/// How close a point lies to the circle of radius 2^31: its squared radius
/// differs from 2^62 by at most 2^32, about one part in 10^9.
pub open spec fn on_unit_circle(p: (int, int)) -> bool {
    let e = p.0 * p.0 + p.1 * p.1 - 0x4000_0000_0000_0000int;
    -0x1_0000_0000int <= e <= 0x1_0000_0000int
}

/// The phase as a turn in `0 .. 2^32`.
pub open spec fn turn_of(phase: i32) -> int {
    if phase >= 0 {
        phase as int
    } else {
        phase + 0x1_0000_0000int
    }
}

/// Octant (0 to 7) of a turn.
pub open spec fn octant_of(p: int) -> int {
    p / octant_span()
}

/// Index of the table point nearest to the turn, measured from the octant's
/// edge that lies on an axis.
pub open spec fn table_index(p: int) -> int {
    let r = p % octant_span();
    let d = if octant_of(p) % 2 == 0 {
        r
    } else {
        octant_span() - r
    };
    (d + table_step() / 2) / table_step()
}

/// `(cos, sin)` that the kernel gives for a phase: the nearest table point,
/// carried into the phase's octant by reflection.
pub open spec fn cossin_spec(phase: i32) -> (int, int) {
    let p = turn_of(phase);
    let t = octant_point(table_index(p) as u32);
    let (c, s) = (t.0, t.1);
    let o = octant_of(p);
    if o == 0 {
        (c, s)
    } else if o == 1 {
        (s, c)
    } else if o == 2 {
        (-s, c)
    } else if o == 3 {
        (-c, s)
    } else if o == 4 {
        (-c, -s)
    } else if o == 5 {
        (-s, -c)
    } else if o == 6 {
        (s, -c)
    } else {
        (c, -s)
    }
}

/// Every table point lies on the circle.
proof fn lemma_octant_point_on_circle(i: u32)
    requires
        i <= 256,
    ensures
        on_unit_circle(octant_point(i)),
        0 <= octant_point(i).1 <= octant_point(i).0 < 0x8000_0000,
        i == 0 ==> octant_point(i).1 == 0,
        i < 256 ==> octant_point(i).1 < octant_point(i).0,
        i == 256 ==> octant_point(i).1 == octant_point(i).0,
        octant_point(i).0 > 0x5000_0000,
{
    reveal(octant_point);
}

fn octant_entry(i: u32) -> (r: (i32, i32))
    requires
        i <= 256,
    ensures
        (r.0 as int, r.1 as int) == octant_point(i),
{
    reveal(octant_point);
    match i {
        0 => (2147483647, 0),
        1 => (2147473542, 6588387),
        2 => (2147443222, 13176712),
        3 => (2147392690, 19764913),
        4 => (2147321946, 26352928),
        5 => (2147230991, 32940695),
        6 => (2147119825, 39528151),
        7 => (2146988450, 46115236),
        8 => (2146836866, 52701887),
        9 => (2146665076, 59288042),
        10 => (2146473080, 65873638),
        11 => (2146260881, 72458615),
        12 => (2146028480, 79042909),
        13 => (2145775880, 85626460),
        14 => (2145503083, 92209205),
        15 => (2145210092, 98791081),
        16 => (2144896910, 105372028),
        17 => (2144563539, 111951983),
        18 => (2144209982, 118530885),
        19 => (2143836244, 125108670),
        20 => (2143442326, 131685278),
        21 => (2143028234, 138260647),
        22 => (2142593971, 144834714),
        23 => (2142139541, 151407418),
        24 => (2141664948, 157978697),
        25 => (2141170197, 164548489),
        26 => (2140655293, 171116733),
        27 => (2140120240, 177683365),
        28 => (2139565043, 184248325),
        29 => (2138989708, 190811551),
        30 => (2138394240, 197372981),
        31 => (2137778644, 203932553),
        32 => (2137142927, 210490206),
        33 => (2136487095, 217045878),
        34 => (2135811153, 223599506),
        35 => (2135115107, 230151030),
        36 => (2134398966, 236700388),
        37 => (2133662734, 243247518),
        38 => (2132906420, 249792358),
        39 => (2132130030, 256334847),
        40 => (2131333572, 262874923),
        41 => (2130517052, 269412525),
        42 => (2129680480, 275947592),
        43 => (2128823862, 282480061),
        44 => (2127947206, 289009871),
        45 => (2127050522, 295536961),
        46 => (2126133817, 302061269),
        47 => (2125197100, 308582734),
        48 => (2124240380, 315101295),
        49 => (2123263666, 321616889),
        50 => (2122266967, 328129457),
        51 => (2121250292, 334638936),
        52 => (2120213651, 341145265),
        53 => (2119157054, 347648383),
        54 => (2118080511, 354148230),
        55 => (2116984031, 360644742),
        56 => (2115867626, 367137861),
        57 => (2114731305, 373627523),
        58 => (2113575080, 380113669),
        59 => (2112398960, 386596237),
        60 => (2111202959, 393075166),
        61 => (2109987085, 399550396),
        62 => (2108751352, 406021865),
        63 => (2107495770, 412489512),
        64 => (2106220352, 418953276),
        65 => (2104925109, 425413098),
        66 => (2103610054, 431868915),
        67 => (2102275199, 438320667),
        68 => (2100920556, 444768294),
        69 => (2099546139, 451211734),
        70 => (2098151960, 457650927),
        71 => (2096738032, 464085813),
        72 => (2095304370, 470516330),
        73 => (2093850985, 476942419),
        74 => (2092377892, 483364019),
        75 => (2090885105, 489781069),
        76 => (2089372638, 496193509),
        77 => (2087840505, 502601279),
        78 => (2086288720, 509004318),
        79 => (2084717298, 515402566),
        80 => (2083126254, 521795963),
        81 => (2081515603, 528184449),
        82 => (2079885360, 534567963),
        83 => (2078235540, 540946445),
        84 => (2076566160, 547319836),
        85 => (2074877233, 553688076),
        86 => (2073168777, 560051104),
        87 => (2071440808, 566408860),
        88 => (2069693342, 572761285),
        89 => (2067926394, 579108320),
        90 => (2066139983, 585449903),
        91 => (2064334124, 591785976),
        92 => (2062508835, 598116479),
        93 => (2060664133, 604441352),
        94 => (2058800036, 610760536),
        95 => (2056916560, 617073971),
        96 => (2055013723, 623381598),
        97 => (2053091544, 629683357),
        98 => (2051150040, 635979190),
        99 => (2049189231, 642269036),
        100 => (2047209133, 648552838),
        101 => (2045209767, 654830535),
        102 => (2043191150, 661102068),
        103 => (2041153301, 667367379),
        104 => (2039096241, 673626408),
        105 => (2037019988, 679879097),
        106 => (2034924562, 686125387),
        107 => (2032809982, 692365218),
        108 => (2030676269, 698598533),
        109 => (2028523442, 704825272),
        110 => (2026351522, 711045377),
        111 => (2024160529, 717258790),
        112 => (2021950484, 723465451),
        113 => (2019721407, 729665303),
        114 => (2017473321, 735858287),
        115 => (2015206245, 742044345),
        116 => (2012920201, 748223418),
        117 => (2010615210, 754395449),
        118 => (2008291295, 760560380),
        119 => (2005948478, 766718151),
        120 => (2003586779, 772868706),
        121 => (2001206222, 779011986),
        122 => (1998806829, 785147934),
        123 => (1996388622, 791276492),
        124 => (1993951625, 797397602),
        125 => (1991495860, 803511207),
        126 => (1989021350, 809617249),
        127 => (1986528118, 815715670),
        128 => (1984016189, 821806413),
        129 => (1981485585, 827889422),
        130 => (1978936331, 833964638),
        131 => (1976368450, 840032004),
        132 => (1973781967, 846091463),
        133 => (1971176906, 852142959),
        134 => (1968553292, 858186435),
        135 => (1965911148, 864221832),
        136 => (1963250501, 870249095),
        137 => (1960571375, 876268167),
        138 => (1957873796, 882278992),
        139 => (1955157788, 888281512),
        140 => (1952423377, 894275671),
        141 => (1949670589, 900261413),
        142 => (1946899451, 906238681),
        143 => (1944109987, 912207419),
        144 => (1941302225, 918167572),
        145 => (1938476190, 924119082),
        146 => (1935631910, 930061894),
        147 => (1932769411, 935995952),
        148 => (1929888720, 941921200),
        149 => (1926989864, 947837582),
        150 => (1924072871, 953745043),
        151 => (1921137767, 959643527),
        152 => (1918184581, 965532978),
        153 => (1915213340, 971413342),
        154 => (1912224073, 977284562),
        155 => (1909216806, 983146583),
        156 => (1906191570, 988999351),
        157 => (1903148392, 994842810),
        158 => (1900087301, 1000676905),
        159 => (1897008325, 1006501581),
        160 => (1893911494, 1012316784),
        161 => (1890796837, 1018122458),
        162 => (1887664383, 1023918550),
        163 => (1884514161, 1029705004),
        164 => (1881346202, 1035481766),
        165 => (1878160535, 1041248781),
        166 => (1874957189, 1047005996),
        167 => (1871736196, 1052753357),
        168 => (1868497586, 1058490808),
        169 => (1865241388, 1064218296),
        170 => (1861967634, 1069935768),
        171 => (1858676355, 1075643169),
        172 => (1855367581, 1081340445),
        173 => (1852041343, 1087027544),
        174 => (1848697674, 1092704411),
        175 => (1845336604, 1098370993),
        176 => (1841958164, 1104027237),
        177 => (1838562388, 1109673089),
        178 => (1835149306, 1115308496),
        179 => (1831718951, 1120933406),
        180 => (1828271356, 1126547765),
        181 => (1824806552, 1132151521),
        182 => (1821324572, 1137744621),
        183 => (1817825449, 1143327011),
        184 => (1814309216, 1148898640),
        185 => (1810775906, 1154459456),
        186 => (1807225553, 1160009405),
        187 => (1803658189, 1165548435),
        188 => (1800073849, 1171076495),
        189 => (1796472565, 1176593533),
        190 => (1792854372, 1182099496),
        191 => (1789219305, 1187594332),
        192 => (1785567396, 1193077991),
        193 => (1781898681, 1198550419),
        194 => (1778213194, 1204011567),
        195 => (1774510970, 1209461382),
        196 => (1770792044, 1214899813),
        197 => (1767056450, 1220326809),
        198 => (1763304224, 1225742318),
        199 => (1759535401, 1231146291),
        200 => (1755750017, 1236538675),
        201 => (1751948107, 1241919421),
        202 => (1748129707, 1247288478),
        203 => (1744294853, 1252645794),
        204 => (1740443581, 1257991320),
        205 => (1736575927, 1263325005),
        206 => (1732691928, 1268646800),
        207 => (1728791620, 1273956653),
        208 => (1724875040, 1279254516),
        209 => (1720942225, 1284540337),
        210 => (1716993211, 1289814068),
        211 => (1713028037, 1295075659),
        212 => (1709046739, 1300325060),
        213 => (1705049355, 1305562222),
        214 => (1701035922, 1310787095),
        215 => (1697006479, 1315999631),
        216 => (1692961062, 1321199781),
        217 => (1688899711, 1326387494),
        218 => (1684822463, 1331562723),
        219 => (1680729357, 1336725419),
        220 => (1676620432, 1341875533),
        221 => (1672495725, 1347013017),
        222 => (1668355276, 1352137822),
        223 => (1664199124, 1357249901),
        224 => (1660027308, 1362349204),
        225 => (1655839867, 1367435685),
        226 => (1651636841, 1372509294),
        227 => (1647418269, 1377569986),
        228 => (1643184191, 1382617710),
        229 => (1638934646, 1387652422),
        230 => (1634669676, 1392674072),
        231 => (1630389319, 1397682613),
        232 => (1626093616, 1402678000),
        233 => (1621782608, 1407660183),
        234 => (1617456335, 1412629117),
        235 => (1613114838, 1417584755),
        236 => (1608758157, 1422527051),
        237 => (1604386335, 1427455956),
        238 => (1599999411, 1432371426),
        239 => (1595597428, 1437273414),
        240 => (1591180426, 1442161874),
        241 => (1586748447, 1447036760),
        242 => (1582301533, 1451898025),
        243 => (1577839726, 1456745625),
        244 => (1573363068, 1461579514),
        245 => (1568871601, 1466399645),
        246 => (1564365367, 1471205974),
        247 => (1559844408, 1475998456),
        248 => (1555308768, 1480777044),
        249 => (1550758488, 1485541696),
        250 => (1546193612, 1490292364),
        251 => (1541614183, 1495029006),
        252 => (1537020244, 1499751576),
        253 => (1532411837, 1504460029),
        254 => (1527789007, 1509154322),
        255 => (1523151797, 1513834411),
        _ => (1518500250, 1518500250),
    }
}

/// Cosine and sine of a phase given in turns, with full scale 2^31. The
/// result is the table point nearest to the phase (within half a step,
/// 2^20 turn units), carried into the phase's octant; it lies on the circle of
/// radius 2^31 to within one part in 10^9 of the squared radius.
pub fn cossin(phase: i32) -> (r: (i32, i32))
    ensures
        (r.0 as int, r.1 as int) == cossin_spec(phase),
        on_unit_circle((r.0 as int, r.1 as int)),
{
    let p: u32 = if phase >= 0 {
        phase as u32
    } else {
        (phase as i64 + 0x1_0000_0000i64) as u32
    };
    let o: u32 = p / 0x2000_0000;
    let rem: u32 = p % 0x2000_0000;
    let d: u32 = if o % 2 == 0 {
        rem
    } else {
        0x2000_0000 - rem
    };
    let idx: u32 = (d + 0x10_0000) / 0x20_0000;
    let (c, s) = octant_entry(idx);
    proof {
        lemma_octant_point_on_circle(idx);
        lemma_cossin_unit_circle(phase);
    }
    if o == 0 {
        (c, s)
    } else if o == 1 {
        (s, c)
    } else if o == 2 {
        (-s, c)
    } else if o == 3 {
        (-c, s)
    } else if o == 4 {
        (-c, -s)
    } else if o == 5 {
        (-s, -c)
    } else if o == 6 {
        (s, -c)
    } else {
        (c, -s)
    }
}

/// Both components of the kernel's output lie strictly inside `(-2^31, 2^31)`.
pub proof fn lemma_cossin_bounds(phase: i32)
    ensures
        -0x8000_0000 < cossin_spec(phase).0 < 0x8000_0000,
        -0x8000_0000 < cossin_spec(phase).1 < 0x8000_0000,
{
    let p = turn_of(phase);
    let i = table_index(p);
    assert(0 <= i <= 256) by {
        let r = p % octant_span();
        assert(0 <= r < octant_span());
    }
    lemma_octant_point_on_circle(i as u32);
}

/// Unit-circle law: for every phase, `cos^2 + sin^2` from the kernel equals
/// the squared full scale 2^62 to within 2^32.
pub proof fn lemma_cossin_unit_circle(phase: i32)
    ensures
        on_unit_circle(cossin_spec(phase)),
{
    let p = turn_of(phase);
    let i = table_index(p);
    assert(0 <= i <= 256) by {
        let r = p % octant_span();
        assert(0 <= r < octant_span());
    }
    lemma_octant_point_on_circle(i as u32);
    let t = octant_point(i as u32);
    assert((-t.0) * (-t.0) == t.0 * t.0) by (nonlinear_arith);
    assert((-t.1) * (-t.1) == t.1 * t.1) by (nonlinear_arith);
}

/// Whether the direction `(hi, lo)` (with `0 <= lo <= hi`) lies at or past
/// table point `i`, that is `lo / hi >= sin_i / cos_i`.
pub open spec fn at_or_past(i: u32, lo: int, hi: int) -> bool {
    octant_point(i).1 * hi <= lo * octant_point(i).0
}

/// The last of the table points `0 ..= k` that the direction `(hi, lo)` lies
/// at or past; 0 if there is none.
pub open spec fn last_point_before(k: u32, lo: int, hi: int) -> u32
    decreases k,
{
    if k == 0 {
        0
    } else if at_or_past(k, lo, hi) {
        k
    } else {
        last_point_before((k - 1) as u32, lo, hi)
    }
}

/// `lo * cos_i - hi * sin_i`, which has the sign of the angle from table point
/// `i` to the direction `(hi, lo)`.
pub open spec fn cross(i: u32, lo: int, hi: int) -> int {
    lo * octant_point(i).0 - octant_point(i).1 * hi
}

/// Angle in turn units of the direction `(hi, lo)` of the first octant: the
/// last table point before it, plus the fraction of a step found by linear
/// interpolation of `cross` towards the next point.
pub open spec fn octant_angle(lo: int, hi: int) -> int {
    let i = last_point_before(256, lo, hi);
    if i == 256 {
        256 * table_step()
    } else {
        let a = cross(i, lo, hi);
        let b = cross((i + 1) as u32, lo, hi);
        i * table_step() + table_step() * a / (a - b)
    }
}

/// The angle in turn units that `atan2` gives for the point `(x, y)`: the
/// point is reflected into the first octant, measured there, and the angle
/// reflected back; the half turn is given as `-2^31`, and the origin as 0.
pub open spec fn atan2_spec(y: i32, x: i32) -> int {
    let ax = if x < 0 { -x } else { x as int };
    let ay = if y < 0 { -y } else { y as int };
    if ax == 0 && ay == 0 {
        0
    } else {
        let a0 = if ay > ax { octant_angle(ax, ay) } else { octant_angle(ay, ax) };
        let a1 = if ay > ax { 0x4000_0000 - a0 } else { a0 };
        let a2 = if x < 0 { 0x8000_0000 - a1 } else { a1 };
        let a3 = if y < 0 { -a2 } else { a2 };
        if a3 == 0x8000_0000 { -0x8000_0000 } else { a3 }
    }
}

proof fn lemma_last_point_before(k: u32, lo: int, hi: int)
    requires
        k <= 256,
        0 <= lo,
    ensures
        last_point_before(k, lo, hi) <= k,
        at_or_past(last_point_before(k, lo, hi), lo, hi),
        last_point_before(k, lo, hi) < k ==> !at_or_past(
            (last_point_before(k, lo, hi) + 1) as u32,
            lo,
            hi,
        ),
    decreases k,
{
    lemma_octant_point_on_circle(0);
    if k > 0 && !at_or_past(k, lo, hi) {
        lemma_last_point_before((k - 1) as u32, lo, hi);
    }
    if k == 0 {
        assert(lo * octant_point(0).0 >= 0) by (nonlinear_arith)
            requires
                lo >= 0,
                octant_point(0).0 >= 0,
        ;
    }
}

fn octant_angle_exec(lo: i64, hi: i64) -> (r: i64)
    requires
        0 <= lo <= hi <= 0x8000_0000,
        hi > 0,
    ensures
        r == octant_angle(lo as int, hi as int),
        0 <= r <= 0x2000_0000,
{
    let mut best: u32 = 0;
    let mut i: u32 = 1;
    while i <= 256
        invariant
            1 <= i <= 257,
            best == last_point_before((i - 1) as u32, lo as int, hi as int),
            0 <= lo <= hi <= 0x8000_0000,
            hi > 0,
        decreases 257 - i,
    {
        let (c, s) = octant_entry(i);
        proof {
            lemma_octant_point_on_circle(i);
            assert(0 <= s * hi <= 0x8000_0000 * 0x8000_0000) by (nonlinear_arith)
                requires
                    0 <= s < 0x8000_0000,
                    0 < hi <= 0x8000_0000,
            ;
            assert(0 <= lo * c <= 0x8000_0000 * 0x8000_0000) by (nonlinear_arith)
                requires
                    0 <= c < 0x8000_0000,
                    0 <= lo <= 0x8000_0000,
            ;
        }
        if (s as i64) * hi <= lo * (c as i64) {
            best = i;
        }
        i += 1;
    }
    proof {
        lemma_last_point_before(256, lo as int, hi as int);
    }
    if best == 256 {
        return 256 * 0x20_0000;
    }
    let (c0, s0) = octant_entry(best);
    let (c1, s1) = octant_entry(best + 1);
    proof {
        lemma_octant_point_on_circle(best);
        lemma_octant_point_on_circle((best + 1) as u32);
        assert(0 <= lo * c0 <= 0x8000_0000 * 0x8000_0000) by (nonlinear_arith)
            requires
                0 <= c0 < 0x8000_0000,
                0 <= lo <= 0x8000_0000,
        ;
        assert(0 <= s0 * hi <= 0x8000_0000 * 0x8000_0000) by (nonlinear_arith)
            requires
                0 <= s0 < 0x8000_0000,
                0 < hi <= 0x8000_0000,
        ;
        assert(0 <= lo * c1 <= 0x8000_0000 * 0x8000_0000) by (nonlinear_arith)
            requires
                0 <= c1 < 0x8000_0000,
                0 <= lo <= 0x8000_0000,
        ;
        assert(0 <= s1 * hi <= 0x8000_0000 * 0x8000_0000) by (nonlinear_arith)
            requires
                0 <= s1 < 0x8000_0000,
                0 < hi <= 0x8000_0000,
        ;
    }
    let a: i128 = lo as i128 * c0 as i128 - s0 as i128 * hi as i128;
    let b: i128 = lo as i128 * c1 as i128 - s1 as i128 * hi as i128;
    assert(at_or_past(best, lo as int, hi as int));
    assert(!at_or_past((best + 1) as u32, lo as int, hi as int));
    assert(a >= 0 && b < 0);
    let frac: i128 = (0x20_0000i128 * a) / (a - b);
    proof {
        assert(0 <= frac < 0x20_0000) by (nonlinear_arith)
            requires
                frac == (0x20_0000 * a) / (a - b),
                a >= 0,
                b < 0,
        ;
    }
    (best as i64) * 0x20_0000 + frac as i64
}

/// The angle of the point `(x, y)` as a turn (2^31 is half a circle), with the
/// quadrant taken from the signs as a signed-infinity-aware arctangent does:
/// `(0, y)` gives a quarter turn with the sign of `y`, `(x, 0)` with `x < 0`
/// a half turn, and the origin 0. Within an octant the angle is interpolated
/// between the same table points that `cossin` uses.
pub fn atan2(y: i32, x: i32) -> (r: i32)
    ensures
        r as int == atan2_spec(y, x),
{
    let ax: i64 = if x < 0 { -(x as i64) } else { x as i64 };
    let ay: i64 = if y < 0 { -(y as i64) } else { y as i64 };
    if ax == 0 && ay == 0 {
        return 0;
    }
    let a0: i64 = if ay > ax { octant_angle_exec(ax, ay) } else { octant_angle_exec(ay, ax) };
    let a1: i64 = if ay > ax { 0x4000_0000 - a0 } else { a0 };
    let a2: i64 = if x < 0 { 0x8000_0000 - a1 } else { a1 };
    let a3: i64 = if y < 0 { -a2 } else { a2 };
    if a3 == 0x8000_0000 {
        i32::MIN
    } else {
        a3 as i32
    }
}

/// Neighbouring table points turn counter-clockwise.
proof fn lemma_table_step_turns(i: u32)
    requires
        i < 256,
    ensures
        octant_point(i).1 * octant_point((i + 1) as u32).0 < octant_point((i + 1) as u32).1
            * octant_point(i).0,
{
    reveal(octant_point);
}

/// Table points further along lie at strictly larger angles.
proof fn lemma_table_increasing(j: u32, k: u32)
    requires
        j < k <= 256,
    ensures
        octant_point(j).1 * octant_point(k).0 < octant_point(k).1 * octant_point(j).0,
    decreases k - j,
{
    if k == j + 1 {
        lemma_table_step_turns(j);
    } else {
        let m = (k - 1) as u32;
        lemma_table_increasing(j, m);
        lemma_table_step_turns(m);
        lemma_octant_point_on_circle(j);
        lemma_octant_point_on_circle(m);
        lemma_octant_point_on_circle(k);
        let (cj, sj) = (octant_point(j).0, octant_point(j).1);
        let (cm, sm) = (octant_point(m).0, octant_point(m).1);
        let (ck, sk) = (octant_point(k).0, octant_point(k).1);
        assert(sj * ck < sk * cj) by (nonlinear_arith)
            requires
                sj * cm < sm * cj,
                sm * ck < sk * cm,
                cj > 0,
                cm > 0,
                ck > 0,
        ;
    }
}

proof fn lemma_last_point_of_table_point(k: u32, top: u32)
    requires
        k <= top <= 256,
    ensures
        last_point_before(top, octant_point(k).1, octant_point(k).0) == k,
    decreases top,
{
    if top > k {
        lemma_table_increasing(k, top);
        lemma_last_point_of_table_point(k, (top - 1) as u32);
    }
}

/// Measuring a table point gives back its angle exactly.
proof fn lemma_octant_angle_of_point(k: u32)
    requires
        k <= 256,
    ensures
        octant_angle(octant_point(k).1, octant_point(k).0) == k * table_step(),
{
    lemma_last_point_of_table_point(k, 256);
    if k < 256 {
        lemma_table_increasing(k, (k + 1) as u32);
        let b = cross((k + 1) as u32, octant_point(k).1, octant_point(k).0);
        assert(b < 0);
        assert(cross(k, octant_point(k).1, octant_point(k).0) == 0);
        assert(table_step() * 0 / (0 - b) == 0);
    }
}

/// Round-trip law: `atan2` of the cosine and sine that `cossin` gives for a
/// phase returns that phase to within half a table step (2^20 turn units),
/// modulo a full turn.
pub proof fn lemma_atan2_inverts_cossin(phase: i32)
    ensures
        ({
            let cs = cossin_spec(phase);
            let back = atan2_spec(cs.1 as i32, cs.0 as i32);
            -0x10_0000 <= signed_of(back - phase) <= 0x10_0000
        }),
{
    let p = turn_of(phase);
    let o = octant_of(p);
    let r = p % octant_span();
    let i = table_index(p);
    assert(0 <= i <= 256);
    let k = i as u32;
    lemma_octant_point_on_circle(k);
    lemma_octant_angle_of_point(k);
    let c = octant_point(k).0;
    let sn = octant_point(k).1;
    let a0 = k * table_step();
    if k > 0 {
        lemma_table_increasing(0, k);
        lemma_octant_point_on_circle(0);
        assert(sn > 0) by (nonlinear_arith)
            requires
                octant_point(0).1 == 0,
                octant_point(0).1 * c < sn * octant_point(0).0,
                octant_point(0).0 > 0,
                sn >= 0,
        ;
    }
    assert(k == 0 <==> sn == 0);
    let d = if o % 2 == 0 { r } else { octant_span() - r };
    assert(-0x10_0000 <= a0 - d <= 0x10_0000);
    assert(p == o * octant_span() + r);
    let cs = cossin_spec(phase);
    let back = atan2_spec(cs.1 as i32, cs.0 as i32);
    let m = 0x1_0000_0000int;
    // `back - phase` differs from `a0 - d` (or `d - a0`) by whole turns.
    if o == 0 {
        assert(back == a0);
    } else if o == 1 {
        assert(back == 0x4000_0000 - a0);
    } else if o == 2 {
        assert(back == 0x4000_0000 + a0);
    } else if o == 3 {
        assert(back == 0x8000_0000 - a0 || (a0 == 0 && back == -0x8000_0000));
    } else if o == 4 {
        assert(back == a0 - 0x8000_0000 || (a0 == 0 && back == -0x8000_0000));
    } else if o == 5 {
        assert(back == -0x4000_0000 - a0);
    } else if o == 6 {
        assert(back == a0 - 0x4000_0000);
    } else {
        assert(back == -a0);
    }
    let e = back - phase;
    let delta = if o % 2 == 0 { a0 - d } else { d - a0 };
    let j: int = if e == delta {
        0
    } else if e == delta + m {
        1
    } else if e == delta - m {
        -1
    } else if e == delta + 2 * m {
        2
    } else {
        -2
    };
    assert(e == delta + j * m);
    if delta >= 0 {
        lemma_wrap_shift(e, j);
    } else {
        lemma_wrap_shift(e, j - 1);
    }
}

} // verus!
