use vstd::prelude::*;
use crate::board::{
    BoardError, BoardView, GameData, Nation, NationView, earlier, edge_views, edges_closed, home,
    home_repeated, home_sound, homes_sound, is_home, lemma_neighbor_has_edge, neighbors, unit_fits,
    valid,
};
use crate::province::{
    Coast, Province, ProvinceType, ProvinceView, Unit, province_views, same_face, same_province,
};

verus! {

// Positions of the regions in the standard catalog.
pub const BOH: usize = 0;

pub const BUD: usize = 1;

pub const GAL: usize = 2;

pub const TRI: usize = 3;

pub const TYR: usize = 4;

pub const VIE: usize = 5;

pub const CLY: usize = 6;

pub const EDI: usize = 7;

pub const LVP: usize = 8;

pub const LON: usize = 9;

pub const WAL: usize = 10;

pub const YOR: usize = 11;

pub const BRE: usize = 12;

pub const BUR: usize = 13;

pub const GAS: usize = 14;

pub const MAR: usize = 15;

pub const PAR: usize = 16;

pub const PIC: usize = 17;

pub const BER: usize = 18;

pub const KIE: usize = 19;

pub const MUN: usize = 20;

pub const PRU: usize = 21;

pub const RUH: usize = 22;

pub const SIL: usize = 23;

pub const APU: usize = 24;

pub const NAP: usize = 25;

pub const PIE: usize = 26;

pub const ROM: usize = 27;

pub const TUS: usize = 28;

pub const VEN: usize = 29;

pub const FIN: usize = 30;

pub const LVN: usize = 31;

pub const MOS: usize = 32;

pub const SEV: usize = 33;

pub const STP_SC: usize = 34;

pub const STP_NC: usize = 35;

pub const UKR: usize = 36;

pub const WAR: usize = 37;

pub const ANK: usize = 38;

pub const ARM: usize = 39;

pub const CON: usize = 40;

pub const SMY: usize = 41;

pub const SYR: usize = 42;

pub const ALB: usize = 43;

pub const BEL: usize = 44;

pub const BUL_SC: usize = 45;

pub const BUL_EC: usize = 46;

pub const DEN: usize = 47;

pub const GRE: usize = 48;

pub const HOL: usize = 49;

pub const NWY: usize = 50;

pub const NAF: usize = 51;

pub const POR: usize = 52;

pub const RUM: usize = 53;

pub const SER: usize = 54;

pub const SPA_SC: usize = 55;

pub const SPA_NC: usize = 56;

pub const SWE: usize = 57;

pub const TUN: usize = 58;

pub const ADR: usize = 59;

pub const AEG: usize = 60;

pub const BAL: usize = 61;

pub const BAR: usize = 62;

pub const BLA: usize = 63;

pub const EAS: usize = 64;

pub const ENG: usize = 65;

pub const BOT: usize = 66;

pub const LYO: usize = 67;

pub const HEL: usize = 68;

pub const ION: usize = 69;

pub const IRI: usize = 70;

pub const MAO: usize = 71;

pub const NAO: usize = 72;

pub const NTH: usize = 73;

pub const NWG: usize = 74;

pub const SKA: usize = 75;

pub const TYS: usize = 76;

pub const WES: usize = 77;

/// The number of regions of the standard catalog.
pub const REGION_COUNT: usize = 78;

pub open spec fn region(name: &str, abbreviation: &str, terrain: ProvinceType) -> ProvinceView {
    ProvinceView { name: name@, abbreviation: abbreviation@, terrain }
}

/// The regions of the standard map, split-coast provinces as one region per face.
pub open spec fn standard_provinces() -> Seq<ProvinceView> {
    seq![
        region("Bohemia", "Boh", ProvinceType::Land(None)),
        region("Budapest", "Bud", ProvinceType::Land(None)),
        region("Galicia", "Gal", ProvinceType::Land(None)),
        region("Trieste", "Tri", ProvinceType::Land(None)),
        region("Tyrolia", "Tyr", ProvinceType::Land(None)),
        region("Vienna", "Vie", ProvinceType::Land(None)),
        region("Clyde", "Cly", ProvinceType::Land(None)),
        region("Edinburgh", "Edi", ProvinceType::Land(None)),
        region("Liverpool", "Lvp", ProvinceType::Land(None)),
        region("London", "Lon", ProvinceType::Land(None)),
        region("Wales", "Wal", ProvinceType::Land(None)),
        region("Yorkshire", "Yor", ProvinceType::Land(None)),
        region("Brest", "Bre", ProvinceType::Land(None)),
        region("Burgundy", "Bur", ProvinceType::Land(None)),
        region("Gascony", "Gas", ProvinceType::Land(None)),
        region("Marseilles", "Mar", ProvinceType::Land(None)),
        region("Paris", "Par", ProvinceType::Land(None)),
        region("Picardy", "Pic", ProvinceType::Land(None)),
        region("Berlin", "Ber", ProvinceType::Land(None)),
        region("Kiel", "Kie", ProvinceType::Land(None)),
        region("Munich", "Mun", ProvinceType::Land(None)),
        region("Prussia", "Pru", ProvinceType::Land(None)),
        region("Ruhr", "Ruh", ProvinceType::Land(None)),
        region("Silesia", "Sil", ProvinceType::Land(None)),
        region("Apulia", "Apu", ProvinceType::Land(None)),
        region("Naples", "Nap", ProvinceType::Land(None)),
        region("Piedmont", "Pie", ProvinceType::Land(None)),
        region("Rome", "Rom", ProvinceType::Land(None)),
        region("Tuscany", "Tus", ProvinceType::Land(None)),
        region("Venice", "Ven", ProvinceType::Land(None)),
        region("Finland", "Fin", ProvinceType::Land(None)),
        region("Livonia", "Lvn", ProvinceType::Land(None)),
        region("Moscow", "Mos", ProvinceType::Land(None)),
        region("Sevastopol", "Sev", ProvinceType::Land(None)),
        region("St. Petersburg", "Stp", ProvinceType::Land(Some(Coast::South))),
        region("St. Petersburg", "Stp", ProvinceType::Land(Some(Coast::North))),
        region("Ukraine", "Ukr", ProvinceType::Land(None)),
        region("Warsaw", "War", ProvinceType::Land(None)),
        region("Ankara", "Ank", ProvinceType::Land(None)),
        region("Armenia", "Arm", ProvinceType::Land(None)),
        region("Constantinople", "Con", ProvinceType::Land(None)),
        region("Smyrna", "Smy", ProvinceType::Land(None)),
        region("Syria", "Syr", ProvinceType::Land(None)),
        region("Albania", "Alb", ProvinceType::Land(None)),
        region("Belgium", "Bel", ProvinceType::Land(None)),
        region("Bulgaria", "Bul", ProvinceType::Land(Some(Coast::South))),
        region("Bulgaria", "Bul", ProvinceType::Land(Some(Coast::East))),
        region("Denmark", "Den", ProvinceType::Land(None)),
        region("Greece", "Gre", ProvinceType::Land(None)),
        region("Holland", "Hol", ProvinceType::Land(None)),
        region("Norway", "Nwy", ProvinceType::Land(None)),
        region("North Africa", "Naf", ProvinceType::Land(None)),
        region("Portugal", "Por", ProvinceType::Land(None)),
        region("Rumania", "Rum", ProvinceType::Land(None)),
        region("Serbia", "Ser", ProvinceType::Land(None)),
        region("Spain", "Spa", ProvinceType::Land(Some(Coast::South))),
        region("Spain", "Spa", ProvinceType::Land(Some(Coast::North))),
        region("Sweden", "Swe", ProvinceType::Land(None)),
        region("Tunis", "Tun", ProvinceType::Land(None)),
        region("Adriatic Sea", "ADR", ProvinceType::Water),
        region("Aegean Sea", "AEG", ProvinceType::Water),
        region("Baltic Sea", "BAL", ProvinceType::Water),
        region("Barents Sea", "BAR", ProvinceType::Water),
        region("Black Sea", "BLA", ProvinceType::Water),
        region("Eastern Mediterranean", "EAS", ProvinceType::Water),
        region("English Channel", "ENG", ProvinceType::Water),
        region("Gulf of Bothnia", "BOT", ProvinceType::Water),
        region("Gulf of Lyon", "LYO", ProvinceType::Water),
        region("Helgoland Bight", "HEL", ProvinceType::Water),
        region("Ionian Sea", "ION", ProvinceType::Water),
        region("Irish Sea", "IRI", ProvinceType::Water),
        region("Mid-Atlantic Ocean", "MAO", ProvinceType::Water),
        region("North Atlantic Ocean", "NAO", ProvinceType::Water),
        region("North Sea", "NTH", ProvinceType::Water),
        region("Norwegian Sea", "NWG", ProvinceType::Water),
        region("Skagerrak", "SKA", ProvinceType::Water),
        region("Tyrrhenian Sea", "TYS", ProvinceType::Water),
        region("Western Mediterranean", "WES", ProvinceType::Water),
    ]
}

/// The adjacencies of the standard map, as pairs of catalog positions.
pub open spec fn standard_edge_ids() -> Seq<(usize, usize)> {
    seq![
        (BOH, MUN),
        (BOH, SIL),
        (BOH, GAL),
        (BOH, VIE),
        (BOH, TYR),
        (BUD, VIE),
        (BUD, GAL),
        (BUD, RUM),
        (BUD, SER),
        (BUD, TRI),
        (GAL, SIL),
        (GAL, WAR),
        (GAL, UKR),
        (GAL, RUM),
        (GAL, VIE),
        (TRI, VEN),
        (TRI, TYR),
        (TRI, VIE),
        (TRI, SER),
        (TRI, ALB),
        (TRI, ADR),
        (TYR, MUN),
        (TYR, VIE),
        (TYR, VEN),
        (TYR, PIE),
        (CLY, LVP),
        (CLY, NAO),
        (CLY, NWG),
        (CLY, EDI),
        (EDI, NWG),
        (EDI, LVP),
        (EDI, YOR),
        (EDI, NTH),
        (LVP, NAO),
        (LVP, YOR),
        (LVP, WAL),
        (LVP, IRI),
        (LON, YOR),
        (LON, NTH),
        (LON, ENG),
        (LON, WAL),
        (WAL, YOR),
        (WAL, ENG),
        (WAL, IRI),
        (YOR, NTH),
        (BRE, ENG),
        (BRE, PIC),
        (BRE, PAR),
        (BRE, GAS),
        (BRE, MAO),
        (BUR, BEL),
        (BUR, RUH),
        (BUR, MUN),
        (BUR, MAR),
        (BUR, GAS),
        (BUR, PAR),
        (BUR, PIC),
        (GAS, PAR),
        (GAS, MAR),
        (GAS, SPA_NC),
        (GAS, MAO),
        (MAR, PIE),
        (MAR, LYO),
        (MAR, SPA_SC),
        (PAR, PIC),
        (PIC, ENG),
        (PIC, BEL),
        (BER, KIE),
        (BER, BAL),
        (BER, PRU),
        (BER, SIL),
        (BER, MUN),
        (KIE, HOL),
        (KIE, HEL),
        (KIE, DEN),
        (KIE, BAL),
        (KIE, MUN),
        (KIE, RUH),
        (MUN, RUH),
        (MUN, SIL),
        (PRU, BAL),
        (PRU, LVN),
        (PRU, WAR),
        (PRU, SIL),
        (RUH, BEL),
        (RUH, HOL),
        (SIL, WAR),
        (APU, ADR),
        (APU, ION),
        (APU, NAP),
        (APU, ROM),
        (APU, VEN),
        (NAP, ION),
        (NAP, TYS),
        (NAP, ROM),
        (PIE, VEN),
        (PIE, TUS),
        (PIE, LYO),
        (ROM, VEN),
        (ROM, TYS),
        (TUS, VEN),
        (TUS, ROM),
        (TUS, TYS),
        (TUS, LYO),
        (VEN, ADR),
        (FIN, BOT),
        (FIN, SWE),
        (FIN, NWY),
        (FIN, STP_SC),
        (LVN, BAL),
        (LVN, BOT),
        (LVN, STP_SC),
        (LVN, MOS),
        (LVN, WAR),
        (MOS, STP_SC),
        (MOS, SEV),
        (MOS, UKR),
        (MOS, WAR),
        (SEV, ARM),
        (SEV, BLA),
        (SEV, RUM),
        (SEV, UKR),
        (STP_NC, BAR),
        (STP_NC, NWY),
        (STP_SC, BOT),
        (UKR, RUM),
        (UKR, WAR),
        (ANK, BLA),
        (ANK, ARM),
        (ANK, SMY),
        (ANK, CON),
        (ARM, BLA),
        (ARM, SMY),
        (ARM, SYR),
        (CON, BUL_EC),
        (CON, BUL_SC),
        (CON, BLA),
        (CON, SMY),
        (CON, AEG),
        (SMY, AEG),
        (SMY, EAS),
        (SMY, SYR),
        (SYR, EAS),
        (ALB, SER),
        (ALB, ADR),
        (ALB, ION),
        (ALB, GRE),
        (BEL, ENG),
        (BEL, NTH),
        (BEL, HOL),
        (BUL_EC, RUM),
        (BUL_EC, BLA),
        (BUL_SC, AEG),
        (BUL_SC, GRE),
        (BUL_SC, SER),
        (DEN, NTH),
        (DEN, SKA),
        (DEN, BAL),
        (DEN, HEL),
        (DEN, SWE),
        (GRE, SER),
        (GRE, ION),
        (GRE, AEG),
        (HOL, NTH),
        (HOL, HEL),
        (NWY, SWE),
        (NWY, NTH),
        (NWY, SKA),
        (NWY, NWG),
        (NWY, BAR),
        (NAF, TUN),
        (NAF, MAO),
        (NAF, WES),
        (POR, MAO),
        (POR, SPA_NC),
        (POR, SPA_SC),
        (RUM, BLA),
        (RUM, SER),
        (SPA_NC, MAO),
        (SPA_SC, MAO),
        (SPA_SC, WES),
        (SPA_SC, LYO),
        (SWE, SKA),
        (SWE, BAL),
        (SWE, BOT),
        (TUN, WES),
        (TUN, TYS),
        (TUN, ION),
        (ADR, ION),
        (AEG, EAS),
        (AEG, ION),
        (BAL, BOT),
        (BAR, NWG),
        (EAS, ION),
        (ENG, IRI),
        (ENG, MAO),
        (ENG, NTH),
        (LYO, TYS),
        (LYO, WES),
        (HEL, NTH),
        (ION, TYS),
        (IRI, NAO),
        (IRI, MAO),
        (MAO, NAO),
        (MAO, WES),
        (NAO, NWG),
        (NTH, NWG),
        (NTH, SKA),
        (TYS, WES),
    ]
}

pub open spec fn standard_edges() -> Seq<(ProvinceView, ProvinceView)> {
    standard_edge_ids().map_values(
        |e: (usize, usize)| (standard_provinces()[e.0 as int], standard_provinces()[e.1 as int]),
    )
}

pub open spec fn home_of(i: usize, u: Unit) -> (ProvinceView, Unit) {
    (standard_provinces()[i as int], u)
}

/// The seven nations of the standard map and their home territories.
pub open spec fn standard_nations() -> Seq<NationView> {
    seq![
        NationView {
            name: "Austria-Hungary"@,
            homes: seq![home_of(TRI, Unit::Fleet), home_of(VIE, Unit::Army), home_of(BUD, Unit::Army)],
        },
        NationView {
            name: "England"@,
            homes: seq![home_of(EDI, Unit::Fleet), home_of(LVP, Unit::Army), home_of(LON, Unit::Fleet)],
        },
        NationView {
            name: "France"@,
            homes: seq![home_of(BRE, Unit::Fleet), home_of(PAR, Unit::Army), home_of(RUH, Unit::Army)],
        },
        NationView {
            name: "Germany"@,
            homes: seq![home_of(KIE, Unit::Fleet), home_of(BER, Unit::Army), home_of(MUN, Unit::Army)],
        },
        NationView {
            name: "Italy"@,
            homes: seq![home_of(NAP, Unit::Fleet), home_of(ROM, Unit::Army), home_of(VEN, Unit::Army)],
        },
        NationView {
            name: "Russia"@,
            homes: seq![home_of(STP_SC, Unit::Fleet), home_of(MOS, Unit::Army), home_of(WAR, Unit::Army)],
        },
        NationView {
            name: "Turkey"@,
            homes: seq![home_of(ANK, Unit::Fleet), home_of(CON, Unit::Army), home_of(SMY, Unit::Army)],
        },
    ]
}

/// The standard board.
pub open spec fn standard_board() -> BoardView {
    BoardView {
        nations: standard_nations(),
        provinces: standard_provinces(),
        adjacencies: standard_edges(),
    }
}

fn standard_catalog() -> (r: Vec<Province>)
    ensures
        province_views(r@) == standard_provinces(),
        r.len() == REGION_COUNT,
{
    let r = vec![
        Province::new("Bohemia", "Boh", ProvinceType::Land(None)),
        Province::new("Budapest", "Bud", ProvinceType::Land(None)),
        Province::new("Galicia", "Gal", ProvinceType::Land(None)),
        Province::new("Trieste", "Tri", ProvinceType::Land(None)),
        Province::new("Tyrolia", "Tyr", ProvinceType::Land(None)),
        Province::new("Vienna", "Vie", ProvinceType::Land(None)),
        Province::new("Clyde", "Cly", ProvinceType::Land(None)),
        Province::new("Edinburgh", "Edi", ProvinceType::Land(None)),
        Province::new("Liverpool", "Lvp", ProvinceType::Land(None)),
        Province::new("London", "Lon", ProvinceType::Land(None)),
        Province::new("Wales", "Wal", ProvinceType::Land(None)),
        Province::new("Yorkshire", "Yor", ProvinceType::Land(None)),
        Province::new("Brest", "Bre", ProvinceType::Land(None)),
        Province::new("Burgundy", "Bur", ProvinceType::Land(None)),
        Province::new("Gascony", "Gas", ProvinceType::Land(None)),
        Province::new("Marseilles", "Mar", ProvinceType::Land(None)),
        Province::new("Paris", "Par", ProvinceType::Land(None)),
        Province::new("Picardy", "Pic", ProvinceType::Land(None)),
        Province::new("Berlin", "Ber", ProvinceType::Land(None)),
        Province::new("Kiel", "Kie", ProvinceType::Land(None)),
        Province::new("Munich", "Mun", ProvinceType::Land(None)),
        Province::new("Prussia", "Pru", ProvinceType::Land(None)),
        Province::new("Ruhr", "Ruh", ProvinceType::Land(None)),
        Province::new("Silesia", "Sil", ProvinceType::Land(None)),
        Province::new("Apulia", "Apu", ProvinceType::Land(None)),
        Province::new("Naples", "Nap", ProvinceType::Land(None)),
        Province::new("Piedmont", "Pie", ProvinceType::Land(None)),
        Province::new("Rome", "Rom", ProvinceType::Land(None)),
        Province::new("Tuscany", "Tus", ProvinceType::Land(None)),
        Province::new("Venice", "Ven", ProvinceType::Land(None)),
        Province::new("Finland", "Fin", ProvinceType::Land(None)),
        Province::new("Livonia", "Lvn", ProvinceType::Land(None)),
        Province::new("Moscow", "Mos", ProvinceType::Land(None)),
        Province::new("Sevastopol", "Sev", ProvinceType::Land(None)),
        Province::new("St. Petersburg", "Stp", ProvinceType::Land(Some(Coast::South))),
        Province::new("St. Petersburg", "Stp", ProvinceType::Land(Some(Coast::North))),
        Province::new("Ukraine", "Ukr", ProvinceType::Land(None)),
        Province::new("Warsaw", "War", ProvinceType::Land(None)),
        Province::new("Ankara", "Ank", ProvinceType::Land(None)),
        Province::new("Armenia", "Arm", ProvinceType::Land(None)),
        Province::new("Constantinople", "Con", ProvinceType::Land(None)),
        Province::new("Smyrna", "Smy", ProvinceType::Land(None)),
        Province::new("Syria", "Syr", ProvinceType::Land(None)),
        Province::new("Albania", "Alb", ProvinceType::Land(None)),
        Province::new("Belgium", "Bel", ProvinceType::Land(None)),
        Province::new("Bulgaria", "Bul", ProvinceType::Land(Some(Coast::South))),
        Province::new("Bulgaria", "Bul", ProvinceType::Land(Some(Coast::East))),
        Province::new("Denmark", "Den", ProvinceType::Land(None)),
        Province::new("Greece", "Gre", ProvinceType::Land(None)),
        Province::new("Holland", "Hol", ProvinceType::Land(None)),
        Province::new("Norway", "Nwy", ProvinceType::Land(None)),
        Province::new("North Africa", "Naf", ProvinceType::Land(None)),
        Province::new("Portugal", "Por", ProvinceType::Land(None)),
        Province::new("Rumania", "Rum", ProvinceType::Land(None)),
        Province::new("Serbia", "Ser", ProvinceType::Land(None)),
        Province::new("Spain", "Spa", ProvinceType::Land(Some(Coast::South))),
        Province::new("Spain", "Spa", ProvinceType::Land(Some(Coast::North))),
        Province::new("Sweden", "Swe", ProvinceType::Land(None)),
        Province::new("Tunis", "Tun", ProvinceType::Land(None)),
        Province::new("Adriatic Sea", "ADR", ProvinceType::Water),
        Province::new("Aegean Sea", "AEG", ProvinceType::Water),
        Province::new("Baltic Sea", "BAL", ProvinceType::Water),
        Province::new("Barents Sea", "BAR", ProvinceType::Water),
        Province::new("Black Sea", "BLA", ProvinceType::Water),
        Province::new("Eastern Mediterranean", "EAS", ProvinceType::Water),
        Province::new("English Channel", "ENG", ProvinceType::Water),
        Province::new("Gulf of Bothnia", "BOT", ProvinceType::Water),
        Province::new("Gulf of Lyon", "LYO", ProvinceType::Water),
        Province::new("Helgoland Bight", "HEL", ProvinceType::Water),
        Province::new("Ionian Sea", "ION", ProvinceType::Water),
        Province::new("Irish Sea", "IRI", ProvinceType::Water),
        Province::new("Mid-Atlantic Ocean", "MAO", ProvinceType::Water),
        Province::new("North Atlantic Ocean", "NAO", ProvinceType::Water),
        Province::new("North Sea", "NTH", ProvinceType::Water),
        Province::new("Norwegian Sea", "NWG", ProvinceType::Water),
        Province::new("Skagerrak", "SKA", ProvinceType::Water),
        Province::new("Tyrrhenian Sea", "TYS", ProvinceType::Water),
        Province::new("Western Mediterranean", "WES", ProvinceType::Water),
    ];
    assert(province_views(r@) =~= standard_provinces());
    r
}

fn standard_edge_table() -> (r: Vec<(usize, usize)>)
    ensures
        r@ == standard_edge_ids(),
{
    vec![
        (BOH, MUN),
        (BOH, SIL),
        (BOH, GAL),
        (BOH, VIE),
        (BOH, TYR),
        (BUD, VIE),
        (BUD, GAL),
        (BUD, RUM),
        (BUD, SER),
        (BUD, TRI),
        (GAL, SIL),
        (GAL, WAR),
        (GAL, UKR),
        (GAL, RUM),
        (GAL, VIE),
        (TRI, VEN),
        (TRI, TYR),
        (TRI, VIE),
        (TRI, SER),
        (TRI, ALB),
        (TRI, ADR),
        (TYR, MUN),
        (TYR, VIE),
        (TYR, VEN),
        (TYR, PIE),
        (CLY, LVP),
        (CLY, NAO),
        (CLY, NWG),
        (CLY, EDI),
        (EDI, NWG),
        (EDI, LVP),
        (EDI, YOR),
        (EDI, NTH),
        (LVP, NAO),
        (LVP, YOR),
        (LVP, WAL),
        (LVP, IRI),
        (LON, YOR),
        (LON, NTH),
        (LON, ENG),
        (LON, WAL),
        (WAL, YOR),
        (WAL, ENG),
        (WAL, IRI),
        (YOR, NTH),
        (BRE, ENG),
        (BRE, PIC),
        (BRE, PAR),
        (BRE, GAS),
        (BRE, MAO),
        (BUR, BEL),
        (BUR, RUH),
        (BUR, MUN),
        (BUR, MAR),
        (BUR, GAS),
        (BUR, PAR),
        (BUR, PIC),
        (GAS, PAR),
        (GAS, MAR),
        (GAS, SPA_NC),
        (GAS, MAO),
        (MAR, PIE),
        (MAR, LYO),
        (MAR, SPA_SC),
        (PAR, PIC),
        (PIC, ENG),
        (PIC, BEL),
        (BER, KIE),
        (BER, BAL),
        (BER, PRU),
        (BER, SIL),
        (BER, MUN),
        (KIE, HOL),
        (KIE, HEL),
        (KIE, DEN),
        (KIE, BAL),
        (KIE, MUN),
        (KIE, RUH),
        (MUN, RUH),
        (MUN, SIL),
        (PRU, BAL),
        (PRU, LVN),
        (PRU, WAR),
        (PRU, SIL),
        (RUH, BEL),
        (RUH, HOL),
        (SIL, WAR),
        (APU, ADR),
        (APU, ION),
        (APU, NAP),
        (APU, ROM),
        (APU, VEN),
        (NAP, ION),
        (NAP, TYS),
        (NAP, ROM),
        (PIE, VEN),
        (PIE, TUS),
        (PIE, LYO),
        (ROM, VEN),
        (ROM, TYS),
        (TUS, VEN),
        (TUS, ROM),
        (TUS, TYS),
        (TUS, LYO),
        (VEN, ADR),
        (FIN, BOT),
        (FIN, SWE),
        (FIN, NWY),
        (FIN, STP_SC),
        (LVN, BAL),
        (LVN, BOT),
        (LVN, STP_SC),
        (LVN, MOS),
        (LVN, WAR),
        (MOS, STP_SC),
        (MOS, SEV),
        (MOS, UKR),
        (MOS, WAR),
        (SEV, ARM),
        (SEV, BLA),
        (SEV, RUM),
        (SEV, UKR),
        (STP_NC, BAR),
        (STP_NC, NWY),
        (STP_SC, BOT),
        (UKR, RUM),
        (UKR, WAR),
        (ANK, BLA),
        (ANK, ARM),
        (ANK, SMY),
        (ANK, CON),
        (ARM, BLA),
        (ARM, SMY),
        (ARM, SYR),
        (CON, BUL_EC),
        (CON, BUL_SC),
        (CON, BLA),
        (CON, SMY),
        (CON, AEG),
        (SMY, AEG),
        (SMY, EAS),
        (SMY, SYR),
        (SYR, EAS),
        (ALB, SER),
        (ALB, ADR),
        (ALB, ION),
        (ALB, GRE),
        (BEL, ENG),
        (BEL, NTH),
        (BEL, HOL),
        (BUL_EC, RUM),
        (BUL_EC, BLA),
        (BUL_SC, AEG),
        (BUL_SC, GRE),
        (BUL_SC, SER),
        (DEN, NTH),
        (DEN, SKA),
        (DEN, BAL),
        (DEN, HEL),
        (DEN, SWE),
        (GRE, SER),
        (GRE, ION),
        (GRE, AEG),
        (HOL, NTH),
        (HOL, HEL),
        (NWY, SWE),
        (NWY, NTH),
        (NWY, SKA),
        (NWY, NWG),
        (NWY, BAR),
        (NAF, TUN),
        (NAF, MAO),
        (NAF, WES),
        (POR, MAO),
        (POR, SPA_NC),
        (POR, SPA_SC),
        (RUM, BLA),
        (RUM, SER),
        (SPA_NC, MAO),
        (SPA_SC, MAO),
        (SPA_SC, WES),
        (SPA_SC, LYO),
        (SWE, SKA),
        (SWE, BAL),
        (SWE, BOT),
        (TUN, WES),
        (TUN, TYS),
        (TUN, ION),
        (ADR, ION),
        (AEG, EAS),
        (AEG, ION),
        (BAL, BOT),
        (BAR, NWG),
        (EAS, ION),
        (ENG, IRI),
        (ENG, MAO),
        (ENG, NTH),
        (LYO, TYS),
        (LYO, WES),
        (HEL, NTH),
        (ION, TYS),
        (IRI, NAO),
        (IRI, MAO),
        (MAO, NAO),
        (MAO, WES),
        (NAO, NWG),
        (NTH, NWG),
        (NTH, SKA),
        (TYS, WES),
    ]
}

fn home_entry(ps: &Vec<Province>, i: usize, u: Unit) -> (r: (Province, Unit))
    requires
        i < ps.len(),
    ensures
        r.0@ == ps@[i as int]@,
        r.1 == u,
{
    (ps[i].clone(), u)
}

/// Every adjacency of the standard map joins two regions of its catalog.
proof fn lemma_standard_edge_ids_in_range()
    ensures
        forall|k: int|
            0 <= k < standard_edge_ids().len() ==> (#[trigger] standard_edge_ids()[k]).0
                < REGION_COUNT && standard_edge_ids()[k].1 < REGION_COUNT,
{
}

impl GameData {
    /// The standard board: its catalog, its adjacencies and its seven nations.
    pub fn default() -> (r: GameData)
        ensures
            r@ == standard_board(),
            valid(r@),
    {
        let provinces = standard_catalog();
        let ids = standard_edge_table();
        proof {
            lemma_standard_edge_ids_in_range();
        }
        let ghost edges = standard_edges();
        let mut adjacencies: Vec<(Province, Province)> = Vec::new();
        let mut k: usize = 0;
        while k < ids.len()
            invariant
                k <= ids.len(),
                ids@ == standard_edge_ids(),
                province_views(provinces@) == standard_provinces(),
                provinces.len() == REGION_COUNT,
                edges == standard_edges(),
                edges.len() == ids.len(),
                forall|k2: int|
                    0 <= k2 < ids.len() ==> (#[trigger] ids@[k2]).0 < REGION_COUNT && ids@[k2].1
                        < REGION_COUNT,
                edge_views(adjacencies@) == edges.take(k as int),
            decreases ids.len() - k,
        {
            let (i, j) = ids[k];
            assert(province_views(provinces@)[i as int] == provinces@[i as int]@);
            assert(province_views(provinces@)[j as int] == provinces@[j as int]@);
            assert(edges[k as int] == (
                standard_provinces()[i as int],
                standard_provinces()[j as int],
            ));
            let ghost before = adjacencies@;
            assert(edge_views(before).len() == before.len());
            assert(before.len() == k);
            adjacencies.push((provinces[i].clone(), provinces[j].clone()));
            assert forall|k2: int| 0 <= k2 <= k implies edge_views(adjacencies@)[k2]
                == edges[k2] by {
                if k2 < k {
                    assert(adjacencies@[k2] == before[k2]);
                    assert(edge_views(before)[k2] == edges.take(k as int)[k2]);
                }
            }
            assert(edge_views(adjacencies@) =~= edges.take(k + 1));
            k += 1;
        }
        assert(edges.take(k as int) =~= edges);
        let nations = vec![
            Nation {
                name: "Austria-Hungary".to_owned(),
                home_supply_centers: vec![
                    home_entry(&provinces, TRI, Unit::Fleet),
                    home_entry(&provinces, VIE, Unit::Army),
                    home_entry(&provinces, BUD, Unit::Army),
                ],
            },
            Nation {
                name: "England".to_owned(),
                home_supply_centers: vec![
                    home_entry(&provinces, EDI, Unit::Fleet),
                    home_entry(&provinces, LVP, Unit::Army),
                    home_entry(&provinces, LON, Unit::Fleet),
                ],
            },
            Nation {
                name: "France".to_owned(),
                home_supply_centers: vec![
                    home_entry(&provinces, BRE, Unit::Fleet),
                    home_entry(&provinces, PAR, Unit::Army),
                    home_entry(&provinces, RUH, Unit::Army),
                ],
            },
            Nation {
                name: "Germany".to_owned(),
                home_supply_centers: vec![
                    home_entry(&provinces, KIE, Unit::Fleet),
                    home_entry(&provinces, BER, Unit::Army),
                    home_entry(&provinces, MUN, Unit::Army),
                ],
            },
            Nation {
                name: "Italy".to_owned(),
                home_supply_centers: vec![
                    home_entry(&provinces, NAP, Unit::Fleet),
                    home_entry(&provinces, ROM, Unit::Army),
                    home_entry(&provinces, VEN, Unit::Army),
                ],
            },
            Nation {
                name: "Russia".to_owned(),
                home_supply_centers: vec![
                    home_entry(&provinces, STP_SC, Unit::Fleet),
                    home_entry(&provinces, MOS, Unit::Army),
                    home_entry(&provinces, WAR, Unit::Army),
                ],
            },
            Nation {
                name: "Turkey".to_owned(),
                home_supply_centers: vec![
                    home_entry(&provinces, ANK, Unit::Fleet),
                    home_entry(&provinces, CON, Unit::Army),
                    home_entry(&provinces, SMY, Unit::Army),
                ],
            },
        ];
        let r = GameData { nations, provinces, adjacencies };
        proof {
            assert forall|i: int| 0 <= i < REGION_COUNT implies #[trigger] provinces@[i]@
                == standard_provinces()[i] by {
                assert(province_views(provinces@)[i] == provinces@[i]@);
            }
            assert(r@.nations[0].homes =~= standard_nations()[0].homes);
            assert(r@.nations[1].homes =~= standard_nations()[1].homes);
            assert(r@.nations[2].homes =~= standard_nations()[2].homes);
            assert(r@.nations[3].homes =~= standard_nations()[3].homes);
            assert(r@.nations[4].homes =~= standard_nations()[4].homes);
            assert(r@.nations[5].homes =~= standard_nations()[5].homes);
            assert(r@.nations[6].homes =~= standard_nations()[6].homes);
        }
        assert(r@.nations =~= standard_nations());
        proof {
            lemma_standard_board_valid();
        }
        r
    }

    /// The standard board, checked against every board invariant at run time
    /// as any other board is; the check always passes.
    pub fn standard() -> (r: Result<GameData, BoardError>)
        ensures
            r is Ok,
            r matches Ok(g) ==> g@ == standard_board(),
    {
        let g = GameData::default();
        match g.validate() {
            Ok(()) => Ok(g),
            Err(e) => Err(e),
        }
    }
}

/// The standard board is closed: every adjacency endpoint and every home
/// territory is a region of its catalog.
pub proof fn lemma_standard_board_closed()
    ensures
        edges_closed(standard_board()),
        forall|n: int, h: int|
            is_home(standard_board(), n, h) ==> standard_board().provinces.contains(
                #[trigger] home(standard_board(), n, h).0,
            ),
{
    let b = standard_board();
    lemma_standard_edge_ids_in_range();
    assert forall|k: int| 0 <= k < b.adjacencies.len() implies b.provinces.contains(
        (#[trigger] b.adjacencies[k]).0,
    ) && b.provinces.contains(b.adjacencies[k].1) by {
        let e = standard_edge_ids()[k];
        assert(b.provinces[e.0 as int] == b.adjacencies[k].0);
        assert(b.provinces[e.1 as int] == b.adjacencies[k].1);
    }
    assert forall|n: int, h: int| is_home(b, n, h) implies b.provinces.contains(
        #[trigger] home(b, n, h).0,
    ) by {
        assert(0 <= n < 7);
    }
}


/// Split-coast faces of the standard map: exactly the two faces each of
/// St. Petersburg, Bulgaria and Spain.
pub open spec fn is_split_face(i: int) -> bool {
    i == STP_SC || i == STP_NC || i == BUL_SC || i == BUL_EC || i == SPA_SC || i == SPA_NC
}

/// The standard map has seven nations with three home territories each, and
/// three split-coast provinces (St. Petersburg, Bulgaria, Spain) of two faces
/// each, which share their province but not their face; every other region is
/// a single node.
pub proof fn lemma_standard_counts()
    ensures
        standard_board().nations.len() == 7,
        forall|n: int| 0 <= n < 7 ==> (#[trigger] standard_board().nations[n]).homes.len() == 3,
        standard_board().provinces.len() == REGION_COUNT,
        forall|i: int|
            0 <= i < REGION_COUNT ==> ((#[trigger] standard_provinces()[i]).terrain matches ProvinceType::Land(
                Some(_),
            ) <==> is_split_face(i)),
        same_province(standard_provinces()[STP_SC as int], standard_provinces()[STP_NC as int]),
        same_province(standard_provinces()[BUL_SC as int], standard_provinces()[BUL_EC as int]),
        same_province(standard_provinces()[SPA_SC as int], standard_provinces()[SPA_NC as int]),
        !same_face(standard_provinces()[STP_SC as int], standard_provinces()[STP_NC as int]),
        !same_face(standard_provinces()[BUL_SC as int], standard_provinces()[BUL_EC as int]),
        !same_face(standard_provinces()[SPA_SC as int], standard_provinces()[SPA_NC as int]),
{
}

/// Building the standard board is deterministic: any two boards that the
/// factory returns are equal in regions, adjacencies and nations.
pub proof fn lemma_standard_deterministic(a: BoardView, b: BoardView)
    requires
        a == standard_board(),
        b == standard_board(),
    ensures
        a.provinces == b.provinces,
        a.adjacencies == b.adjacencies,
        a.nations == b.nations,
{
}

/// The first three characters of a region code (every code of the standard
/// catalog has three).
pub open spec fn code_key(s: Seq<char>) -> (char, char, char) {
    (s[0], s[1], s[2])
}

/// The catalog position of the province whose code has key `k`: for a
/// split-coast province, the position of its first face.
pub open spec fn province_with_key(k: (char, char, char)) -> int {
    if k == ('B', 'o', 'h') {
        BOH as int
    } else
    if k == ('B', 'u', 'd') {
        BUD as int
    } else
    if k == ('G', 'a', 'l') {
        GAL as int
    } else
    if k == ('T', 'r', 'i') {
        TRI as int
    } else
    if k == ('T', 'y', 'r') {
        TYR as int
    } else
    if k == ('V', 'i', 'e') {
        VIE as int
    } else
    if k == ('C', 'l', 'y') {
        CLY as int
    } else
    if k == ('E', 'd', 'i') {
        EDI as int
    } else
    if k == ('L', 'v', 'p') {
        LVP as int
    } else
    if k == ('L', 'o', 'n') {
        LON as int
    } else
    if k == ('W', 'a', 'l') {
        WAL as int
    } else
    if k == ('Y', 'o', 'r') {
        YOR as int
    } else
    if k == ('B', 'r', 'e') {
        BRE as int
    } else
    if k == ('B', 'u', 'r') {
        BUR as int
    } else
    if k == ('G', 'a', 's') {
        GAS as int
    } else
    if k == ('M', 'a', 'r') {
        MAR as int
    } else
    if k == ('P', 'a', 'r') {
        PAR as int
    } else
    if k == ('P', 'i', 'c') {
        PIC as int
    } else
    if k == ('B', 'e', 'r') {
        BER as int
    } else
    if k == ('K', 'i', 'e') {
        KIE as int
    } else
    if k == ('M', 'u', 'n') {
        MUN as int
    } else
    if k == ('P', 'r', 'u') {
        PRU as int
    } else
    if k == ('R', 'u', 'h') {
        RUH as int
    } else
    if k == ('S', 'i', 'l') {
        SIL as int
    } else
    if k == ('A', 'p', 'u') {
        APU as int
    } else
    if k == ('N', 'a', 'p') {
        NAP as int
    } else
    if k == ('P', 'i', 'e') {
        PIE as int
    } else
    if k == ('R', 'o', 'm') {
        ROM as int
    } else
    if k == ('T', 'u', 's') {
        TUS as int
    } else
    if k == ('V', 'e', 'n') {
        VEN as int
    } else
    if k == ('F', 'i', 'n') {
        FIN as int
    } else
    if k == ('L', 'v', 'n') {
        LVN as int
    } else
    if k == ('M', 'o', 's') {
        MOS as int
    } else
    if k == ('S', 'e', 'v') {
        SEV as int
    } else
    if k == ('S', 't', 'p') {
        STP_SC as int
    } else
    if k == ('U', 'k', 'r') {
        UKR as int
    } else
    if k == ('W', 'a', 'r') {
        WAR as int
    } else
    if k == ('A', 'n', 'k') {
        ANK as int
    } else
    if k == ('A', 'r', 'm') {
        ARM as int
    } else
    if k == ('C', 'o', 'n') {
        CON as int
    } else
    if k == ('S', 'm', 'y') {
        SMY as int
    } else
    if k == ('S', 'y', 'r') {
        SYR as int
    } else
    if k == ('A', 'l', 'b') {
        ALB as int
    } else
    if k == ('B', 'e', 'l') {
        BEL as int
    } else
    if k == ('B', 'u', 'l') {
        BUL_SC as int
    } else
    if k == ('D', 'e', 'n') {
        DEN as int
    } else
    if k == ('G', 'r', 'e') {
        GRE as int
    } else
    if k == ('H', 'o', 'l') {
        HOL as int
    } else
    if k == ('N', 'w', 'y') {
        NWY as int
    } else
    if k == ('N', 'a', 'f') {
        NAF as int
    } else
    if k == ('P', 'o', 'r') {
        POR as int
    } else
    if k == ('R', 'u', 'm') {
        RUM as int
    } else
    if k == ('S', 'e', 'r') {
        SER as int
    } else
    if k == ('S', 'p', 'a') {
        SPA_SC as int
    } else
    if k == ('S', 'w', 'e') {
        SWE as int
    } else
    if k == ('T', 'u', 'n') {
        TUN as int
    } else
    if k == ('A', 'D', 'R') {
        ADR as int
    } else
    if k == ('A', 'E', 'G') {
        AEG as int
    } else
    if k == ('B', 'A', 'L') {
        BAL as int
    } else
    if k == ('B', 'A', 'R') {
        BAR as int
    } else
    if k == ('B', 'L', 'A') {
        BLA as int
    } else
    if k == ('E', 'A', 'S') {
        EAS as int
    } else
    if k == ('E', 'N', 'G') {
        ENG as int
    } else
    if k == ('B', 'O', 'T') {
        BOT as int
    } else
    if k == ('L', 'Y', 'O') {
        LYO as int
    } else
    if k == ('H', 'E', 'L') {
        HEL as int
    } else
    if k == ('I', 'O', 'N') {
        ION as int
    } else
    if k == ('I', 'R', 'I') {
        IRI as int
    } else
    if k == ('M', 'A', 'O') {
        MAO as int
    } else
    if k == ('N', 'A', 'O') {
        NAO as int
    } else
    if k == ('N', 'T', 'H') {
        NTH as int
    } else
    if k == ('N', 'W', 'G') {
        NWG as int
    } else
    if k == ('S', 'K', 'A') {
        SKA as int
    } else
    if k == ('T', 'Y', 'S') {
        TYS as int
    } else
    if k == ('W', 'E', 'S') {
        WES as int
    } else {
        -1
    }
}

/// The first face of the province at position `i` of the standard catalog.
pub open spec fn first_face(i: int) -> int {
    if i == STP_NC {
        STP_SC as int
    } else if i == BUL_EC {
        BUL_SC as int
    } else if i == SPA_NC {
        SPA_SC as int
    } else {
        i
    }
}

/// The code of a region of the standard catalog determines its province.
proof fn lemma_code_locates_province()
    ensures
        forall|i: int|
            0 <= i < REGION_COUNT ==> province_with_key(
                code_key((#[trigger] standard_provinces()[i]).abbreviation),
            ) == first_face(i),
{
    reveal_strlit("Boh");
    reveal_strlit("Bud");
    reveal_strlit("Gal");
    reveal_strlit("Tri");
    reveal_strlit("Tyr");
    reveal_strlit("Vie");
    reveal_strlit("Cly");
    reveal_strlit("Edi");
    reveal_strlit("Lvp");
    reveal_strlit("Lon");
    reveal_strlit("Wal");
    reveal_strlit("Yor");
    reveal_strlit("Bre");
    reveal_strlit("Bur");
    reveal_strlit("Gas");
    reveal_strlit("Mar");
    reveal_strlit("Par");
    reveal_strlit("Pic");
    reveal_strlit("Ber");
    reveal_strlit("Kie");
    reveal_strlit("Mun");
    reveal_strlit("Pru");
    reveal_strlit("Ruh");
    reveal_strlit("Sil");
    reveal_strlit("Apu");
    reveal_strlit("Nap");
    reveal_strlit("Pie");
    reveal_strlit("Rom");
    reveal_strlit("Tus");
    reveal_strlit("Ven");
    reveal_strlit("Fin");
    reveal_strlit("Lvn");
    reveal_strlit("Mos");
    reveal_strlit("Sev");
    reveal_strlit("Stp");
    reveal_strlit("Ukr");
    reveal_strlit("War");
    reveal_strlit("Ank");
    reveal_strlit("Arm");
    reveal_strlit("Con");
    reveal_strlit("Smy");
    reveal_strlit("Syr");
    reveal_strlit("Alb");
    reveal_strlit("Bel");
    reveal_strlit("Bul");
    reveal_strlit("Den");
    reveal_strlit("Gre");
    reveal_strlit("Hol");
    reveal_strlit("Nwy");
    reveal_strlit("Naf");
    reveal_strlit("Por");
    reveal_strlit("Rum");
    reveal_strlit("Ser");
    reveal_strlit("Spa");
    reveal_strlit("Swe");
    reveal_strlit("Tun");
    reveal_strlit("ADR");
    reveal_strlit("AEG");
    reveal_strlit("BAL");
    reveal_strlit("BAR");
    reveal_strlit("BLA");
    reveal_strlit("EAS");
    reveal_strlit("ENG");
    reveal_strlit("BOT");
    reveal_strlit("LYO");
    reveal_strlit("HEL");
    reveal_strlit("ION");
    reveal_strlit("IRI");
    reveal_strlit("MAO");
    reveal_strlit("NAO");
    reveal_strlit("NTH");
    reveal_strlit("NWG");
    reveal_strlit("SKA");
    reveal_strlit("TYS");
    reveal_strlit("WES");
}

/// Two regions of the standard catalog are faces of one province only where they
/// are the two faces of a split-coast province, and no two are the same face.
proof fn lemma_standard_provinces_distinct()
    ensures
        forall|i: int, j: int|
            0 <= i < REGION_COUNT && 0 <= j < REGION_COUNT && same_province(
                #[trigger] standard_provinces()[i],
                #[trigger] standard_provinces()[j],
            ) ==> first_face(i) == first_face(j),
        forall|i: int, j: int|
            0 <= i < j < REGION_COUNT ==> !same_face(
                #[trigger] standard_provinces()[i],
                #[trigger] standard_provinces()[j],
            ),
{
    lemma_code_locates_province();
    let ps = standard_provinces();
    assert forall|i: int, j: int|
        0 <= i < REGION_COUNT && 0 <= j < REGION_COUNT && same_province(
            #[trigger] ps[i],
            #[trigger] ps[j],
        ) implies first_face(i) == first_face(j) by {
        assert(code_key(ps[i].abbreviation) == code_key(ps[j].abbreviation));
    }
    assert forall|i: int, j: int| 0 <= i < j < REGION_COUNT implies !same_face(
        #[trigger] ps[i],
        #[trigger] ps[j],
    ) by {
        if same_face(ps[i], ps[j]) {
            assert(code_key(ps[i].abbreviation) == code_key(ps[j].abbreviation));
            assert(first_face(i) == first_face(j));
        }
    }
}

/// The catalog position of home entry `h` of nation `n` of the standard map.
pub open spec fn home_position(n: int, h: int) -> int {
    if n == 0 {
        if h == 0 {
            TRI as int
        } else if h == 1 {
            VIE as int
        } else {
            BUD as int
        }
    } else
    if n == 1 {
        if h == 0 {
            EDI as int
        } else if h == 1 {
            LVP as int
        } else {
            LON as int
        }
    } else
    if n == 2 {
        if h == 0 {
            BRE as int
        } else if h == 1 {
            PAR as int
        } else {
            RUH as int
        }
    } else
    if n == 3 {
        if h == 0 {
            KIE as int
        } else if h == 1 {
            BER as int
        } else {
            MUN as int
        }
    } else
    if n == 4 {
        if h == 0 {
            NAP as int
        } else if h == 1 {
            ROM as int
        } else {
            VEN as int
        }
    } else
    if n == 5 {
        if h == 0 {
            STP_SC as int
        } else if h == 1 {
            MOS as int
        } else {
            WAR as int
        }
    } else
    if n == 6 {
        if h == 0 {
            ANK as int
        } else if h == 1 {
            CON as int
        } else {
            SMY as int
        }
    } else {
        -1
    }
}

/// Home entry `(n, h)` of the standard map lies at `home_position(n, h)`.
proof fn lemma_home_positions()
    ensures
        forall|n: int, h: int|
            is_home(standard_board(), n, h) ==> 0 <= home_position(n, h) < REGION_COUNT
                && (#[trigger] home(standard_board(), n, h)).0 == standard_provinces()[home_position(n, h)],
{
    let b = standard_board();
    let ps = standard_provinces();
    assert(home(b, 0, 0) == (ps[TRI as int], Unit::Fleet));
    assert(home(b, 0, 1) == (ps[VIE as int], Unit::Army));
    assert(home(b, 0, 2) == (ps[BUD as int], Unit::Army));
    assert(home(b, 1, 0) == (ps[EDI as int], Unit::Fleet));
    assert(home(b, 1, 1) == (ps[LVP as int], Unit::Army));
    assert(home(b, 1, 2) == (ps[LON as int], Unit::Fleet));
    assert(home(b, 2, 0) == (ps[BRE as int], Unit::Fleet));
    assert(home(b, 2, 1) == (ps[PAR as int], Unit::Army));
    assert(home(b, 2, 2) == (ps[RUH as int], Unit::Army));
    assert(home(b, 3, 0) == (ps[KIE as int], Unit::Fleet));
    assert(home(b, 3, 1) == (ps[BER as int], Unit::Army));
    assert(home(b, 3, 2) == (ps[MUN as int], Unit::Army));
    assert(home(b, 4, 0) == (ps[NAP as int], Unit::Fleet));
    assert(home(b, 4, 1) == (ps[ROM as int], Unit::Army));
    assert(home(b, 4, 2) == (ps[VEN as int], Unit::Army));
    assert(home(b, 5, 0) == (ps[STP_SC as int], Unit::Fleet));
    assert(home(b, 5, 1) == (ps[MOS as int], Unit::Army));
    assert(home(b, 5, 2) == (ps[WAR as int], Unit::Army));
    assert(home(b, 6, 0) == (ps[ANK as int], Unit::Fleet));
    assert(home(b, 6, 1) == (ps[CON as int], Unit::Army));
    assert(home(b, 6, 2) == (ps[SMY as int], Unit::Army));
    assert forall|n: int, h: int| is_home(b, n, h) implies 0 <= home_position(n, h) < REGION_COUNT
        && (#[trigger] home(b, n, h)).0 == ps[home_position(n, h)] by {
        assert(0 <= n < 7 && 0 <= h < 3);
    }
}

/// Distinct home entries of the standard map lie in distinct provinces.
proof fn lemma_home_positions_distinct()
    ensures
        forall|n: int, h: int, n2: int, h2: int|
            0 <= n < 7 && 0 <= h < 3 && 0 <= n2 < 7 && 0 <= h2 < 3 && (n != n2 || h != h2)
                ==> first_face(#[trigger] home_position(n, h)) != first_face(
                #[trigger] home_position(n2, h2),
            ),
{
}

/// Every home entry of the standard map fits its starting unit.
proof fn lemma_home_units_fit()
    ensures
        forall|n: int, h: int|
            is_home(standard_board(), n, h) ==> unit_fits(
                standard_edges(),
                (#[trigger] home(standard_board(), n, h)).0,
                home(standard_board(), n, h).1,
            ),
{
    let b = standard_board();
    let ps = standard_provinces();
    assert(home(b, 0, 0) == (ps[TRI as int], Unit::Fleet));
    assert(home(b, 0, 1) == (ps[VIE as int], Unit::Army));
    assert(home(b, 0, 2) == (ps[BUD as int], Unit::Army));
    assert(home(b, 1, 0) == (ps[EDI as int], Unit::Fleet));
    assert(home(b, 1, 1) == (ps[LVP as int], Unit::Army));
    assert(home(b, 1, 2) == (ps[LON as int], Unit::Fleet));
    assert(home(b, 2, 0) == (ps[BRE as int], Unit::Fleet));
    assert(home(b, 2, 1) == (ps[PAR as int], Unit::Army));
    assert(home(b, 2, 2) == (ps[RUH as int], Unit::Army));
    assert(home(b, 3, 0) == (ps[KIE as int], Unit::Fleet));
    assert(home(b, 3, 1) == (ps[BER as int], Unit::Army));
    assert(home(b, 3, 2) == (ps[MUN as int], Unit::Army));
    assert(home(b, 4, 0) == (ps[NAP as int], Unit::Fleet));
    assert(home(b, 4, 1) == (ps[ROM as int], Unit::Army));
    assert(home(b, 4, 2) == (ps[VEN as int], Unit::Army));
    assert(home(b, 5, 0) == (ps[STP_SC as int], Unit::Fleet));
    assert(home(b, 5, 1) == (ps[MOS as int], Unit::Army));
    assert(home(b, 5, 2) == (ps[WAR as int], Unit::Army));
    assert(home(b, 6, 0) == (ps[ANK as int], Unit::Fleet));
    assert(home(b, 6, 1) == (ps[CON as int], Unit::Army));
    assert(home(b, 6, 2) == (ps[SMY as int], Unit::Army));
    assert(standard_edges()[20].1.terrain == ProvinceType::Water);
    assert(standard_edges()[29].1.terrain == ProvinceType::Water);
    assert(standard_edges()[38].1.terrain == ProvinceType::Water);
    assert(standard_edges()[45].1.terrain == ProvinceType::Water);
    assert(standard_edges()[73].1.terrain == ProvinceType::Water);
    assert(standard_edges()[92].1.terrain == ProvinceType::Water);
    assert(standard_edges()[124].1.terrain == ProvinceType::Water);
    assert(standard_edges()[127].1.terrain == ProvinceType::Water);
    assert forall|n: int, h: int| is_home(b, n, h) implies unit_fits(
        standard_edges(),
        (#[trigger] home(b, n, h)).0,
        home(b, n, h).1,
    ) by {
        assert(0 <= n < 7 && 0 <= h < 3);
    }
}

/// Every home entry of the standard map is sound: its region is in the
/// catalog, fits its unit, and no other entry binds the same province.
proof fn lemma_standard_homes_sound()
    ensures
        homes_sound(standard_board()),
{
    let b = standard_board();
    let ps = standard_provinces();
    lemma_standard_board_closed();
    lemma_standard_provinces_distinct();
    lemma_home_positions();
    lemma_home_positions_distinct();
    lemma_home_units_fit();
    assert forall|n: int, h: int| is_home(b, n, h) implies #[trigger] home_sound(b, n, h) by {
        if home_repeated(b, n, h) {
            let (n2, h2) = choose|n2: int, h2: int|
                #![trigger home(b, n2, h2)]
                is_home(b, n2, h2) && earlier(n2, h2, n, h) && same_province(
                    home(b, n2, h2).0,
                    home(b, n, h).0,
                );
            assert(same_province(ps[home_position(n2, h2)], ps[home_position(n, h)]));
            assert(first_face(home_position(n2, h2)) == first_face(home_position(n, h)));
        }
    }
}

/// The standard board keeps every board invariant.
pub proof fn lemma_standard_board_valid()
    ensures
        valid(standard_board()),
{
    lemma_standard_provinces_distinct();
    lemma_standard_board_closed();
    lemma_standard_homes_sound();
}

/// The inland provinces of the standard map: those with no coast at all.
pub open spec fn is_inland(i: int) -> bool {
    i == BOH || i == BUD || i == BUR || i == GAL || i == MOS
        || i == MUN || i == PAR || i == RUH || i == SER || i == SIL
        || i == TYR || i == UKR || i == VIE || i == WAR
}

/// No adjacency of the standard map joins a sea to an inland province.
proof fn lemma_no_sea_meets_inland()
    ensures
        forall|k: int|
            0 <= k < standard_edge_ids().len() ==> {
                let e = #[trigger] standard_edge_ids()[k];
                (standard_provinces()[e.0 as int].terrain == ProvinceType::Water ==> !is_inland(
                    e.1 as int,
                )) && (standard_provinces()[e.1 as int].terrain == ProvinceType::Water
                    ==> !is_inland(e.0 as int))
            },
{
}

/// Seas border only seas and coastal regions: every neighbour of a sea of the
/// standard map is a region of the catalog that is not an inland province.
pub proof fn lemma_sea_neighbors_are_coastal(w: int, i: int)
    requires
        0 <= w < REGION_COUNT,
        standard_provinces()[w].terrain == ProvinceType::Water,
        0 <= i < neighbors(standard_edges(), standard_provinces()[w]).len(),
    ensures
        exists|j: int|
            0 <= j < REGION_COUNT && !is_inland(j) && neighbors(
                standard_edges(),
                standard_provinces()[w],
            )[i] == #[trigger] standard_provinces()[j],
{
    let ps = standard_provinces();
    let edges = standard_edges();
    lemma_neighbor_has_edge(edges, ps[w], i);
    lemma_standard_edge_ids_in_range();
    lemma_standard_provinces_distinct();
    lemma_no_sea_meets_inland();
    let k = choose|k: int|
        0 <= k < edges.len() && {
            let e = #[trigger] edges[k];
            (same_face(e.0, ps[w]) && neighbors(edges, ps[w])[i] == e.1) || (same_face(e.1, ps[w])
                && neighbors(edges, ps[w])[i] == e.0)
        };
    let id = standard_edge_ids()[k];
    assert(edges[k] == (ps[id.0 as int], ps[id.1 as int]));
    if same_face(ps[id.0 as int], ps[w]) && neighbors(edges, ps[w])[i] == ps[id.1 as int] {
        if id.0 as int != w {
            if (id.0 as int) < w {
                assert(!same_face(ps[id.0 as int], ps[w]));
            } else {
                assert(!same_face(ps[w], ps[id.0 as int]));
            }
        }
        assert(!is_inland(id.1 as int));
    } else {
        if id.1 as int != w {
            if (id.1 as int) < w {
                assert(!same_face(ps[id.1 as int], ps[w]));
            } else {
                assert(!same_face(ps[w], ps[id.1 as int]));
            }
        }
        assert(!is_inland(id.0 as int));
    }
}

} // verus!
