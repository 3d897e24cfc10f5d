//! The catalog of EDGAR filing types: one table of canonical form codes, read in both
//! directions.
//!
//! Rendering gives a form's canonical code (`"10-K"`, `"19b-4"`). Parsing uppercases its
//! input and looks it up among the uppercased codes. The catalog lists the forms in
//! strictly ascending order of their uppercased codes, which is what makes the lookup
//! unambiguous and rendering and parsing inverse to each other.

use crate::error::EDGARParserError;
use crate::text::{ascii_upper, matches_upper, upper_of, uppercase};
use vstd::prelude::*;
use vstd::string::*;
use vstd::utf8::is_ascii_chars;

verus! {

/// How many filing types the catalog holds.
pub const FILING_TYPE_COUNT: usize = 143;

/// A filing type of the EDGAR system.
#[allow(non_camel_case_types)]
#[derive(Debug, PartialEq, Eq, Hash, Clone, Copy, Structural)]
pub enum FilingTypeOption {
    _1A,
    _1E,
    _1K,
    _1N,
    _1SA,
    _1U,
    _1Z,
    _10,
    _10D,
    _10K,
    _10M,
    _10Q,
    _11K,
    _12B25,
    _13F,
    _13H,
    _144,
    _15,
    _15F,
    _17H,
    _18,
    _18K,
    _19B4,
    _19B4E,
    _19B7,
    _2E,
    _20F,
    _24F2,
    _25,
    _3,
    _4,
    _40F,
    _5,
    _6K,
    _7M,
    _8A,
    _8K,
    _8M,
    _9M,
    ABS,
    ABS15G,
    ABSEE,
    ADV,
    ADVE,
    ADVH,
    ADVNR,
    ADVW,
    ATS,
    ATSN,
    ATSR,
    BD,
    BDN,
    BDW,
    C,
    CA1,
    CB,
    CFPORTAL,
    CRS,
    CUSTODY,
    D,
    F1,
    F10,
    F3,
    F4,
    F6,
    F7,
    F8,
    F80,
    FN,
    FX,
    ID,
    MA,
    MAI,
    MANR,
    MAW,
    MSD,
    MSDW,
    N14,
    N17D1,
    N17F1,
    N17F2,
    N18F1,
    N1A,
    N2,
    N23C3,
    N27D1,
    N3,
    N4,
    N5,
    N54A,
    N54C,
    N6,
    N6EI1,
    N6F,
    N8A,
    N8B2,
    N8B4,
    N8F,
    NCEN,
    NCR,
    NCSR,
    NMFP,
    NPORT,
    NPX,
    NQ,
    NRN,
    NRSRO,
    PF,
    PILOT,
    R31,
    S1,
    S11,
    S20,
    S3,
    S4,
    S6,
    S8,
    SBSE,
    SBSEA,
    SBSEBD,
    SBSEC,
    SBSEW,
    SCI,
    SD,
    SDR,
    SE,
    SF1,
    SF3,
    SIP,
    T1,
    T2,
    T3,
    T4,
    T6,
    TA1,
    TA2,
    TAW,
    TCR,
    TH,
    WBAPP,
    X17A19,
    X17A5,
    X17F1A,
}

/// The placeholder filing type `1-U` stands for a query with no explicit filing type.
impl Default for FilingTypeOption {
    fn default() -> (r: Self)
        ensures
            r == FilingTypeOption::_1U,
    {
        FilingTypeOption::_1U
    }
}

/// The ASCII weight of the character at `i`, or 0 past the end.
pub open spec fn code_char(s: Seq<char>, i: int) -> int {
    if 0 <= i < s.len() {
        s[i] as int
    } else {
        0
    }
}

/// The first `n` characters of `s`, read as a base-128 number (missing characters count 0).
pub open spec fn code_prefix(s: Seq<char>, n: nat) -> int
    decreases n,
{
    if n == 0 {
        0
    } else {
        code_prefix(s, (n - 1) as nat) * 128 + code_char(s, n - 1)
    }
}

/// The first eight characters of `s` as a base-128 number. On ASCII text of at most
/// eight characters it orders as the text does, and the form codes are such text.
pub open spec fn key_code(s: Seq<char>) -> int {
    code_prefix(s, 8)
}

impl FilingTypeOption {
    /// The canonical form code, as the EDGAR query interface writes it.
    pub open spec fn form(self) -> Seq<char> {
        match self {
            FilingTypeOption::_1A => "1-A"@,
            FilingTypeOption::_1E => "1-E"@,
            FilingTypeOption::_1K => "1-K"@,
            FilingTypeOption::_1N => "1-N"@,
            FilingTypeOption::_1SA => "1-SA"@,
            FilingTypeOption::_1U => "1-U"@,
            FilingTypeOption::_1Z => "1-Z"@,
            FilingTypeOption::_10 => "10"@,
            FilingTypeOption::_10D => "10-D"@,
            FilingTypeOption::_10K => "10-K"@,
            FilingTypeOption::_10M => "10-M"@,
            FilingTypeOption::_10Q => "10-Q"@,
            FilingTypeOption::_11K => "11-K"@,
            FilingTypeOption::_12B25 => "12B-25"@,
            FilingTypeOption::_13F => "13F"@,
            FilingTypeOption::_13H => "13H"@,
            FilingTypeOption::_144 => "144"@,
            FilingTypeOption::_15 => "15"@,
            FilingTypeOption::_15F => "15F"@,
            FilingTypeOption::_17H => "17-H"@,
            FilingTypeOption::_18 => "18"@,
            FilingTypeOption::_18K => "18-K"@,
            FilingTypeOption::_19B4 => "19b-4"@,
            FilingTypeOption::_19B4E => "19b-4(E)"@,
            FilingTypeOption::_19B7 => "19b-7"@,
            FilingTypeOption::_2E => "2-E"@,
            FilingTypeOption::_20F => "20-F"@,
            FilingTypeOption::_24F2 => "24F-2"@,
            FilingTypeOption::_25 => "25"@,
            FilingTypeOption::_3 => "3"@,
            FilingTypeOption::_4 => "4"@,
            FilingTypeOption::_40F => "40-F"@,
            FilingTypeOption::_5 => "5"@,
            FilingTypeOption::_6K => "6-K"@,
            FilingTypeOption::_7M => "7-M"@,
            FilingTypeOption::_8A => "8-A"@,
            FilingTypeOption::_8K => "8-K"@,
            FilingTypeOption::_8M => "8-M"@,
            FilingTypeOption::_9M => "9-M"@,
            FilingTypeOption::ABS => "ABS"@,
            FilingTypeOption::ABS15G => "ABS-15G"@,
            FilingTypeOption::ABSEE => "ABS-EE"@,
            FilingTypeOption::ADV => "ADV"@,
            FilingTypeOption::ADVE => "ADV-E"@,
            FilingTypeOption::ADVH => "ADV-H"@,
            FilingTypeOption::ADVNR => "ADV-NR"@,
            FilingTypeOption::ADVW => "ADV-W"@,
            FilingTypeOption::ATS => "ATS"@,
            FilingTypeOption::ATSN => "ATS-N"@,
            FilingTypeOption::ATSR => "ATS-R"@,
            FilingTypeOption::BD => "BD"@,
            FilingTypeOption::BDN => "BD-N"@,
            FilingTypeOption::BDW => "BDW"@,
            FilingTypeOption::C => "C"@,
            FilingTypeOption::CA1 => "CA-1"@,
            FilingTypeOption::CB => "CB"@,
            FilingTypeOption::CFPORTAL => "CFPORTAL"@,
            FilingTypeOption::CRS => "CRS"@,
            FilingTypeOption::CUSTODY => "CUSTODY"@,
            FilingTypeOption::D => "D"@,
            FilingTypeOption::F1 => "F-1"@,
            FilingTypeOption::F10 => "F-10"@,
            FilingTypeOption::F3 => "F-3"@,
            FilingTypeOption::F4 => "F-4"@,
            FilingTypeOption::F6 => "F-6"@,
            FilingTypeOption::F7 => "F-7"@,
            FilingTypeOption::F8 => "F-8"@,
            FilingTypeOption::F80 => "F-80"@,
            FilingTypeOption::FN => "F-N"@,
            FilingTypeOption::FX => "F-X"@,
            FilingTypeOption::ID => "ID"@,
            FilingTypeOption::MA => "MA"@,
            FilingTypeOption::MAI => "MA-I"@,
            FilingTypeOption::MANR => "MA-NR"@,
            FilingTypeOption::MAW => "MA-W"@,
            FilingTypeOption::MSD => "MSD"@,
            FilingTypeOption::MSDW => "MSDW"@,
            FilingTypeOption::N14 => "N-14"@,
            FilingTypeOption::N17D1 => "N-17D-1"@,
            FilingTypeOption::N17F1 => "N-17F-1"@,
            FilingTypeOption::N17F2 => "N-17F-2"@,
            FilingTypeOption::N18F1 => "N-18F-1"@,
            FilingTypeOption::N1A => "N-1A"@,
            FilingTypeOption::N2 => "N-2"@,
            FilingTypeOption::N23C3 => "N-23C-3"@,
            FilingTypeOption::N27D1 => "N-27D-1"@,
            FilingTypeOption::N3 => "N-3"@,
            FilingTypeOption::N4 => "N-4"@,
            FilingTypeOption::N5 => "N-5"@,
            FilingTypeOption::N54A => "N-54A"@,
            FilingTypeOption::N54C => "N-54C"@,
            FilingTypeOption::N6 => "N-6"@,
            FilingTypeOption::N6EI1 => "N-6EI-1"@,
            FilingTypeOption::N6F => "N-6F"@,
            FilingTypeOption::N8A => "N-8A"@,
            FilingTypeOption::N8B2 => "N-8B-2"@,
            FilingTypeOption::N8B4 => "N-8B-4"@,
            FilingTypeOption::N8F => "N-8F"@,
            FilingTypeOption::NCEN => "N-CEN"@,
            FilingTypeOption::NCR => "N-CR"@,
            FilingTypeOption::NCSR => "N-CSR"@,
            FilingTypeOption::NMFP => "N-MFP"@,
            FilingTypeOption::NPORT => "N-PORT"@,
            FilingTypeOption::NPX => "N-PX"@,
            FilingTypeOption::NQ => "N-Q"@,
            FilingTypeOption::NRN => "N-RN"@,
            FilingTypeOption::NRSRO => "NRSRO"@,
            FilingTypeOption::PF => "PF"@,
            FilingTypeOption::PILOT => "PILOT"@,
            FilingTypeOption::R31 => "R31"@,
            FilingTypeOption::S1 => "S-1"@,
            FilingTypeOption::S11 => "S-11"@,
            FilingTypeOption::S20 => "S-20"@,
            FilingTypeOption::S3 => "S-3"@,
            FilingTypeOption::S4 => "S-4"@,
            FilingTypeOption::S6 => "S-6"@,
            FilingTypeOption::S8 => "S-8"@,
            FilingTypeOption::SBSE => "SBSE"@,
            FilingTypeOption::SBSEA => "SBSE-A"@,
            FilingTypeOption::SBSEBD => "SBSE-BD"@,
            FilingTypeOption::SBSEC => "SBSE-C"@,
            FilingTypeOption::SBSEW => "SBSE-W"@,
            FilingTypeOption::SCI => "SCI"@,
            FilingTypeOption::SD => "SD"@,
            FilingTypeOption::SDR => "SDR"@,
            FilingTypeOption::SE => "SE"@,
            FilingTypeOption::SF1 => "SF-1"@,
            FilingTypeOption::SF3 => "SF-3"@,
            FilingTypeOption::SIP => "SIP"@,
            FilingTypeOption::T1 => "T-1"@,
            FilingTypeOption::T2 => "T-2"@,
            FilingTypeOption::T3 => "T-3"@,
            FilingTypeOption::T4 => "T-4"@,
            FilingTypeOption::T6 => "T-6"@,
            FilingTypeOption::TA1 => "TA-1"@,
            FilingTypeOption::TA2 => "TA-2"@,
            FilingTypeOption::TAW => "TA-W"@,
            FilingTypeOption::TCR => "TCR"@,
            FilingTypeOption::TH => "TH"@,
            FilingTypeOption::WBAPP => "WB-APP"@,
            FilingTypeOption::X17A19 => "X-17A-19"@,
            FilingTypeOption::X17A5 => "X-17A-5"@,
            FilingTypeOption::X17F1A => "X-17F-1A"@,
        }
    }

    /// The form code in ASCII uppercase: what a parsed string is compared with.
    pub open spec fn key(self) -> Seq<char> {
        ascii_upper(self.form())
    }

    /// The position of the form in the catalog.
    pub open spec fn index(self) -> int {
        match self {
            FilingTypeOption::_1A => 0,
            FilingTypeOption::_1E => 1,
            FilingTypeOption::_1K => 2,
            FilingTypeOption::_1N => 3,
            FilingTypeOption::_1SA => 4,
            FilingTypeOption::_1U => 5,
            FilingTypeOption::_1Z => 6,
            FilingTypeOption::_10 => 7,
            FilingTypeOption::_10D => 8,
            FilingTypeOption::_10K => 9,
            FilingTypeOption::_10M => 10,
            FilingTypeOption::_10Q => 11,
            FilingTypeOption::_11K => 12,
            FilingTypeOption::_12B25 => 13,
            FilingTypeOption::_13F => 14,
            FilingTypeOption::_13H => 15,
            FilingTypeOption::_144 => 16,
            FilingTypeOption::_15 => 17,
            FilingTypeOption::_15F => 18,
            FilingTypeOption::_17H => 19,
            FilingTypeOption::_18 => 20,
            FilingTypeOption::_18K => 21,
            FilingTypeOption::_19B4 => 22,
            FilingTypeOption::_19B4E => 23,
            FilingTypeOption::_19B7 => 24,
            FilingTypeOption::_2E => 25,
            FilingTypeOption::_20F => 26,
            FilingTypeOption::_24F2 => 27,
            FilingTypeOption::_25 => 28,
            FilingTypeOption::_3 => 29,
            FilingTypeOption::_4 => 30,
            FilingTypeOption::_40F => 31,
            FilingTypeOption::_5 => 32,
            FilingTypeOption::_6K => 33,
            FilingTypeOption::_7M => 34,
            FilingTypeOption::_8A => 35,
            FilingTypeOption::_8K => 36,
            FilingTypeOption::_8M => 37,
            FilingTypeOption::_9M => 38,
            FilingTypeOption::ABS => 39,
            FilingTypeOption::ABS15G => 40,
            FilingTypeOption::ABSEE => 41,
            FilingTypeOption::ADV => 42,
            FilingTypeOption::ADVE => 43,
            FilingTypeOption::ADVH => 44,
            FilingTypeOption::ADVNR => 45,
            FilingTypeOption::ADVW => 46,
            FilingTypeOption::ATS => 47,
            FilingTypeOption::ATSN => 48,
            FilingTypeOption::ATSR => 49,
            FilingTypeOption::BD => 50,
            FilingTypeOption::BDN => 51,
            FilingTypeOption::BDW => 52,
            FilingTypeOption::C => 53,
            FilingTypeOption::CA1 => 54,
            FilingTypeOption::CB => 55,
            FilingTypeOption::CFPORTAL => 56,
            FilingTypeOption::CRS => 57,
            FilingTypeOption::CUSTODY => 58,
            FilingTypeOption::D => 59,
            FilingTypeOption::F1 => 60,
            FilingTypeOption::F10 => 61,
            FilingTypeOption::F3 => 62,
            FilingTypeOption::F4 => 63,
            FilingTypeOption::F6 => 64,
            FilingTypeOption::F7 => 65,
            FilingTypeOption::F8 => 66,
            FilingTypeOption::F80 => 67,
            FilingTypeOption::FN => 68,
            FilingTypeOption::FX => 69,
            FilingTypeOption::ID => 70,
            FilingTypeOption::MA => 71,
            FilingTypeOption::MAI => 72,
            FilingTypeOption::MANR => 73,
            FilingTypeOption::MAW => 74,
            FilingTypeOption::MSD => 75,
            FilingTypeOption::MSDW => 76,
            FilingTypeOption::N14 => 77,
            FilingTypeOption::N17D1 => 78,
            FilingTypeOption::N17F1 => 79,
            FilingTypeOption::N17F2 => 80,
            FilingTypeOption::N18F1 => 81,
            FilingTypeOption::N1A => 82,
            FilingTypeOption::N2 => 83,
            FilingTypeOption::N23C3 => 84,
            FilingTypeOption::N27D1 => 85,
            FilingTypeOption::N3 => 86,
            FilingTypeOption::N4 => 87,
            FilingTypeOption::N5 => 88,
            FilingTypeOption::N54A => 89,
            FilingTypeOption::N54C => 90,
            FilingTypeOption::N6 => 91,
            FilingTypeOption::N6EI1 => 92,
            FilingTypeOption::N6F => 93,
            FilingTypeOption::N8A => 94,
            FilingTypeOption::N8B2 => 95,
            FilingTypeOption::N8B4 => 96,
            FilingTypeOption::N8F => 97,
            FilingTypeOption::NCEN => 98,
            FilingTypeOption::NCR => 99,
            FilingTypeOption::NCSR => 100,
            FilingTypeOption::NMFP => 101,
            FilingTypeOption::NPORT => 102,
            FilingTypeOption::NPX => 103,
            FilingTypeOption::NQ => 104,
            FilingTypeOption::NRN => 105,
            FilingTypeOption::NRSRO => 106,
            FilingTypeOption::PF => 107,
            FilingTypeOption::PILOT => 108,
            FilingTypeOption::R31 => 109,
            FilingTypeOption::S1 => 110,
            FilingTypeOption::S11 => 111,
            FilingTypeOption::S20 => 112,
            FilingTypeOption::S3 => 113,
            FilingTypeOption::S4 => 114,
            FilingTypeOption::S6 => 115,
            FilingTypeOption::S8 => 116,
            FilingTypeOption::SBSE => 117,
            FilingTypeOption::SBSEA => 118,
            FilingTypeOption::SBSEBD => 119,
            FilingTypeOption::SBSEC => 120,
            FilingTypeOption::SBSEW => 121,
            FilingTypeOption::SCI => 122,
            FilingTypeOption::SD => 123,
            FilingTypeOption::SDR => 124,
            FilingTypeOption::SE => 125,
            FilingTypeOption::SF1 => 126,
            FilingTypeOption::SF3 => 127,
            FilingTypeOption::SIP => 128,
            FilingTypeOption::T1 => 129,
            FilingTypeOption::T2 => 130,
            FilingTypeOption::T3 => 131,
            FilingTypeOption::T4 => 132,
            FilingTypeOption::T6 => 133,
            FilingTypeOption::TA1 => 134,
            FilingTypeOption::TA2 => 135,
            FilingTypeOption::TAW => 136,
            FilingTypeOption::TCR => 137,
            FilingTypeOption::TH => 138,
            FilingTypeOption::WBAPP => 139,
            FilingTypeOption::X17A19 => 140,
            FilingTypeOption::X17A5 => 141,
            FilingTypeOption::X17F1A => 142,
        }
    }

    /// The form at position `i` of the catalog (the last one past the end).
    pub open spec fn at(i: int) -> Self {
        if i == 0 {
            FilingTypeOption::_1A
        } else if i == 1 {
            FilingTypeOption::_1E
        } else if i == 2 {
            FilingTypeOption::_1K
        } else if i == 3 {
            FilingTypeOption::_1N
        } else if i == 4 {
            FilingTypeOption::_1SA
        } else if i == 5 {
            FilingTypeOption::_1U
        } else if i == 6 {
            FilingTypeOption::_1Z
        } else if i == 7 {
            FilingTypeOption::_10
        } else if i == 8 {
            FilingTypeOption::_10D
        } else if i == 9 {
            FilingTypeOption::_10K
        } else if i == 10 {
            FilingTypeOption::_10M
        } else if i == 11 {
            FilingTypeOption::_10Q
        } else if i == 12 {
            FilingTypeOption::_11K
        } else if i == 13 {
            FilingTypeOption::_12B25
        } else if i == 14 {
            FilingTypeOption::_13F
        } else if i == 15 {
            FilingTypeOption::_13H
        } else if i == 16 {
            FilingTypeOption::_144
        } else if i == 17 {
            FilingTypeOption::_15
        } else if i == 18 {
            FilingTypeOption::_15F
        } else if i == 19 {
            FilingTypeOption::_17H
        } else if i == 20 {
            FilingTypeOption::_18
        } else if i == 21 {
            FilingTypeOption::_18K
        } else if i == 22 {
            FilingTypeOption::_19B4
        } else if i == 23 {
            FilingTypeOption::_19B4E
        } else if i == 24 {
            FilingTypeOption::_19B7
        } else if i == 25 {
            FilingTypeOption::_2E
        } else if i == 26 {
            FilingTypeOption::_20F
        } else if i == 27 {
            FilingTypeOption::_24F2
        } else if i == 28 {
            FilingTypeOption::_25
        } else if i == 29 {
            FilingTypeOption::_3
        } else if i == 30 {
            FilingTypeOption::_4
        } else if i == 31 {
            FilingTypeOption::_40F
        } else if i == 32 {
            FilingTypeOption::_5
        } else if i == 33 {
            FilingTypeOption::_6K
        } else if i == 34 {
            FilingTypeOption::_7M
        } else if i == 35 {
            FilingTypeOption::_8A
        } else if i == 36 {
            FilingTypeOption::_8K
        } else if i == 37 {
            FilingTypeOption::_8M
        } else if i == 38 {
            FilingTypeOption::_9M
        } else if i == 39 {
            FilingTypeOption::ABS
        } else if i == 40 {
            FilingTypeOption::ABS15G
        } else if i == 41 {
            FilingTypeOption::ABSEE
        } else if i == 42 {
            FilingTypeOption::ADV
        } else if i == 43 {
            FilingTypeOption::ADVE
        } else if i == 44 {
            FilingTypeOption::ADVH
        } else if i == 45 {
            FilingTypeOption::ADVNR
        } else if i == 46 {
            FilingTypeOption::ADVW
        } else if i == 47 {
            FilingTypeOption::ATS
        } else if i == 48 {
            FilingTypeOption::ATSN
        } else if i == 49 {
            FilingTypeOption::ATSR
        } else if i == 50 {
            FilingTypeOption::BD
        } else if i == 51 {
            FilingTypeOption::BDN
        } else if i == 52 {
            FilingTypeOption::BDW
        } else if i == 53 {
            FilingTypeOption::C
        } else if i == 54 {
            FilingTypeOption::CA1
        } else if i == 55 {
            FilingTypeOption::CB
        } else if i == 56 {
            FilingTypeOption::CFPORTAL
        } else if i == 57 {
            FilingTypeOption::CRS
        } else if i == 58 {
            FilingTypeOption::CUSTODY
        } else if i == 59 {
            FilingTypeOption::D
        } else if i == 60 {
            FilingTypeOption::F1
        } else if i == 61 {
            FilingTypeOption::F10
        } else if i == 62 {
            FilingTypeOption::F3
        } else if i == 63 {
            FilingTypeOption::F4
        } else if i == 64 {
            FilingTypeOption::F6
        } else if i == 65 {
            FilingTypeOption::F7
        } else if i == 66 {
            FilingTypeOption::F8
        } else if i == 67 {
            FilingTypeOption::F80
        } else if i == 68 {
            FilingTypeOption::FN
        } else if i == 69 {
            FilingTypeOption::FX
        } else if i == 70 {
            FilingTypeOption::ID
        } else if i == 71 {
            FilingTypeOption::MA
        } else if i == 72 {
            FilingTypeOption::MAI
        } else if i == 73 {
            FilingTypeOption::MANR
        } else if i == 74 {
            FilingTypeOption::MAW
        } else if i == 75 {
            FilingTypeOption::MSD
        } else if i == 76 {
            FilingTypeOption::MSDW
        } else if i == 77 {
            FilingTypeOption::N14
        } else if i == 78 {
            FilingTypeOption::N17D1
        } else if i == 79 {
            FilingTypeOption::N17F1
        } else if i == 80 {
            FilingTypeOption::N17F2
        } else if i == 81 {
            FilingTypeOption::N18F1
        } else if i == 82 {
            FilingTypeOption::N1A
        } else if i == 83 {
            FilingTypeOption::N2
        } else if i == 84 {
            FilingTypeOption::N23C3
        } else if i == 85 {
            FilingTypeOption::N27D1
        } else if i == 86 {
            FilingTypeOption::N3
        } else if i == 87 {
            FilingTypeOption::N4
        } else if i == 88 {
            FilingTypeOption::N5
        } else if i == 89 {
            FilingTypeOption::N54A
        } else if i == 90 {
            FilingTypeOption::N54C
        } else if i == 91 {
            FilingTypeOption::N6
        } else if i == 92 {
            FilingTypeOption::N6EI1
        } else if i == 93 {
            FilingTypeOption::N6F
        } else if i == 94 {
            FilingTypeOption::N8A
        } else if i == 95 {
            FilingTypeOption::N8B2
        } else if i == 96 {
            FilingTypeOption::N8B4
        } else if i == 97 {
            FilingTypeOption::N8F
        } else if i == 98 {
            FilingTypeOption::NCEN
        } else if i == 99 {
            FilingTypeOption::NCR
        } else if i == 100 {
            FilingTypeOption::NCSR
        } else if i == 101 {
            FilingTypeOption::NMFP
        } else if i == 102 {
            FilingTypeOption::NPORT
        } else if i == 103 {
            FilingTypeOption::NPX
        } else if i == 104 {
            FilingTypeOption::NQ
        } else if i == 105 {
            FilingTypeOption::NRN
        } else if i == 106 {
            FilingTypeOption::NRSRO
        } else if i == 107 {
            FilingTypeOption::PF
        } else if i == 108 {
            FilingTypeOption::PILOT
        } else if i == 109 {
            FilingTypeOption::R31
        } else if i == 110 {
            FilingTypeOption::S1
        } else if i == 111 {
            FilingTypeOption::S11
        } else if i == 112 {
            FilingTypeOption::S20
        } else if i == 113 {
            FilingTypeOption::S3
        } else if i == 114 {
            FilingTypeOption::S4
        } else if i == 115 {
            FilingTypeOption::S6
        } else if i == 116 {
            FilingTypeOption::S8
        } else if i == 117 {
            FilingTypeOption::SBSE
        } else if i == 118 {
            FilingTypeOption::SBSEA
        } else if i == 119 {
            FilingTypeOption::SBSEBD
        } else if i == 120 {
            FilingTypeOption::SBSEC
        } else if i == 121 {
            FilingTypeOption::SBSEW
        } else if i == 122 {
            FilingTypeOption::SCI
        } else if i == 123 {
            FilingTypeOption::SD
        } else if i == 124 {
            FilingTypeOption::SDR
        } else if i == 125 {
            FilingTypeOption::SE
        } else if i == 126 {
            FilingTypeOption::SF1
        } else if i == 127 {
            FilingTypeOption::SF3
        } else if i == 128 {
            FilingTypeOption::SIP
        } else if i == 129 {
            FilingTypeOption::T1
        } else if i == 130 {
            FilingTypeOption::T2
        } else if i == 131 {
            FilingTypeOption::T3
        } else if i == 132 {
            FilingTypeOption::T4
        } else if i == 133 {
            FilingTypeOption::T6
        } else if i == 134 {
            FilingTypeOption::TA1
        } else if i == 135 {
            FilingTypeOption::TA2
        } else if i == 136 {
            FilingTypeOption::TAW
        } else if i == 137 {
            FilingTypeOption::TCR
        } else if i == 138 {
            FilingTypeOption::TH
        } else if i == 139 {
            FilingTypeOption::WBAPP
        } else if i == 140 {
            FilingTypeOption::X17A19
        } else if i == 141 {
            FilingTypeOption::X17A5
        } else {
            FilingTypeOption::X17F1A
        }
    }

    /// The filing type whose uppercased code is `u`, if there is one.
    pub open spec fn for_key(u: Seq<char>) -> Option<Self> {
        if exists|v: Self| v.key() == u {
            Some(choose|v: Self| v.key() == u)
        } else {
            None
        }
    }

    /// What parsing makes of a string already normalized to uppercase.
    pub open spec fn parse_key(u: Seq<char>) -> Result<Self, EDGARParserError> {
        match Self::for_key(u) {
            Some(v) => Ok(v),
            None => Err(EDGARParserError::FilingTypeNotFound),
        }
    }

    /// The canonical form code.
    pub fn as_str(&self) -> (r: &'static str)
        ensures
            r@ == self.form(),
    {
        match self {
            FilingTypeOption::_1A => "1-A",
            FilingTypeOption::_1E => "1-E",
            FilingTypeOption::_1K => "1-K",
            FilingTypeOption::_1N => "1-N",
            FilingTypeOption::_1SA => "1-SA",
            FilingTypeOption::_1U => "1-U",
            FilingTypeOption::_1Z => "1-Z",
            FilingTypeOption::_10 => "10",
            FilingTypeOption::_10D => "10-D",
            FilingTypeOption::_10K => "10-K",
            FilingTypeOption::_10M => "10-M",
            FilingTypeOption::_10Q => "10-Q",
            FilingTypeOption::_11K => "11-K",
            FilingTypeOption::_12B25 => "12B-25",
            FilingTypeOption::_13F => "13F",
            FilingTypeOption::_13H => "13H",
            FilingTypeOption::_144 => "144",
            FilingTypeOption::_15 => "15",
            FilingTypeOption::_15F => "15F",
            FilingTypeOption::_17H => "17-H",
            FilingTypeOption::_18 => "18",
            FilingTypeOption::_18K => "18-K",
            FilingTypeOption::_19B4 => "19b-4",
            FilingTypeOption::_19B4E => "19b-4(E)",
            FilingTypeOption::_19B7 => "19b-7",
            FilingTypeOption::_2E => "2-E",
            FilingTypeOption::_20F => "20-F",
            FilingTypeOption::_24F2 => "24F-2",
            FilingTypeOption::_25 => "25",
            FilingTypeOption::_3 => "3",
            FilingTypeOption::_4 => "4",
            FilingTypeOption::_40F => "40-F",
            FilingTypeOption::_5 => "5",
            FilingTypeOption::_6K => "6-K",
            FilingTypeOption::_7M => "7-M",
            FilingTypeOption::_8A => "8-A",
            FilingTypeOption::_8K => "8-K",
            FilingTypeOption::_8M => "8-M",
            FilingTypeOption::_9M => "9-M",
            FilingTypeOption::ABS => "ABS",
            FilingTypeOption::ABS15G => "ABS-15G",
            FilingTypeOption::ABSEE => "ABS-EE",
            FilingTypeOption::ADV => "ADV",
            FilingTypeOption::ADVE => "ADV-E",
            FilingTypeOption::ADVH => "ADV-H",
            FilingTypeOption::ADVNR => "ADV-NR",
            FilingTypeOption::ADVW => "ADV-W",
            FilingTypeOption::ATS => "ATS",
            FilingTypeOption::ATSN => "ATS-N",
            FilingTypeOption::ATSR => "ATS-R",
            FilingTypeOption::BD => "BD",
            FilingTypeOption::BDN => "BD-N",
            FilingTypeOption::BDW => "BDW",
            FilingTypeOption::C => "C",
            FilingTypeOption::CA1 => "CA-1",
            FilingTypeOption::CB => "CB",
            FilingTypeOption::CFPORTAL => "CFPORTAL",
            FilingTypeOption::CRS => "CRS",
            FilingTypeOption::CUSTODY => "CUSTODY",
            FilingTypeOption::D => "D",
            FilingTypeOption::F1 => "F-1",
            FilingTypeOption::F10 => "F-10",
            FilingTypeOption::F3 => "F-3",
            FilingTypeOption::F4 => "F-4",
            FilingTypeOption::F6 => "F-6",
            FilingTypeOption::F7 => "F-7",
            FilingTypeOption::F8 => "F-8",
            FilingTypeOption::F80 => "F-80",
            FilingTypeOption::FN => "F-N",
            FilingTypeOption::FX => "F-X",
            FilingTypeOption::ID => "ID",
            FilingTypeOption::MA => "MA",
            FilingTypeOption::MAI => "MA-I",
            FilingTypeOption::MANR => "MA-NR",
            FilingTypeOption::MAW => "MA-W",
            FilingTypeOption::MSD => "MSD",
            FilingTypeOption::MSDW => "MSDW",
            FilingTypeOption::N14 => "N-14",
            FilingTypeOption::N17D1 => "N-17D-1",
            FilingTypeOption::N17F1 => "N-17F-1",
            FilingTypeOption::N17F2 => "N-17F-2",
            FilingTypeOption::N18F1 => "N-18F-1",
            FilingTypeOption::N1A => "N-1A",
            FilingTypeOption::N2 => "N-2",
            FilingTypeOption::N23C3 => "N-23C-3",
            FilingTypeOption::N27D1 => "N-27D-1",
            FilingTypeOption::N3 => "N-3",
            FilingTypeOption::N4 => "N-4",
            FilingTypeOption::N5 => "N-5",
            FilingTypeOption::N54A => "N-54A",
            FilingTypeOption::N54C => "N-54C",
            FilingTypeOption::N6 => "N-6",
            FilingTypeOption::N6EI1 => "N-6EI-1",
            FilingTypeOption::N6F => "N-6F",
            FilingTypeOption::N8A => "N-8A",
            FilingTypeOption::N8B2 => "N-8B-2",
            FilingTypeOption::N8B4 => "N-8B-4",
            FilingTypeOption::N8F => "N-8F",
            FilingTypeOption::NCEN => "N-CEN",
            FilingTypeOption::NCR => "N-CR",
            FilingTypeOption::NCSR => "N-CSR",
            FilingTypeOption::NMFP => "N-MFP",
            FilingTypeOption::NPORT => "N-PORT",
            FilingTypeOption::NPX => "N-PX",
            FilingTypeOption::NQ => "N-Q",
            FilingTypeOption::NRN => "N-RN",
            FilingTypeOption::NRSRO => "NRSRO",
            FilingTypeOption::PF => "PF",
            FilingTypeOption::PILOT => "PILOT",
            FilingTypeOption::R31 => "R31",
            FilingTypeOption::S1 => "S-1",
            FilingTypeOption::S11 => "S-11",
            FilingTypeOption::S20 => "S-20",
            FilingTypeOption::S3 => "S-3",
            FilingTypeOption::S4 => "S-4",
            FilingTypeOption::S6 => "S-6",
            FilingTypeOption::S8 => "S-8",
            FilingTypeOption::SBSE => "SBSE",
            FilingTypeOption::SBSEA => "SBSE-A",
            FilingTypeOption::SBSEBD => "SBSE-BD",
            FilingTypeOption::SBSEC => "SBSE-C",
            FilingTypeOption::SBSEW => "SBSE-W",
            FilingTypeOption::SCI => "SCI",
            FilingTypeOption::SD => "SD",
            FilingTypeOption::SDR => "SDR",
            FilingTypeOption::SE => "SE",
            FilingTypeOption::SF1 => "SF-1",
            FilingTypeOption::SF3 => "SF-3",
            FilingTypeOption::SIP => "SIP",
            FilingTypeOption::T1 => "T-1",
            FilingTypeOption::T2 => "T-2",
            FilingTypeOption::T3 => "T-3",
            FilingTypeOption::T4 => "T-4",
            FilingTypeOption::T6 => "T-6",
            FilingTypeOption::TA1 => "TA-1",
            FilingTypeOption::TA2 => "TA-2",
            FilingTypeOption::TAW => "TA-W",
            FilingTypeOption::TCR => "TCR",
            FilingTypeOption::TH => "TH",
            FilingTypeOption::WBAPP => "WB-APP",
            FilingTypeOption::X17A19 => "X-17A-19",
            FilingTypeOption::X17A5 => "X-17A-5",
            FilingTypeOption::X17F1A => "X-17F-1A",
        }
    }

    /// The form at position `i` of the catalog.
    pub fn from_index(i: usize) -> (r: Self)
        requires
            i < FILING_TYPE_COUNT,
        ensures
            r == Self::at(i as int),
    {
        match i {
            0 => FilingTypeOption::_1A,
            1 => FilingTypeOption::_1E,
            2 => FilingTypeOption::_1K,
            3 => FilingTypeOption::_1N,
            4 => FilingTypeOption::_1SA,
            5 => FilingTypeOption::_1U,
            6 => FilingTypeOption::_1Z,
            7 => FilingTypeOption::_10,
            8 => FilingTypeOption::_10D,
            9 => FilingTypeOption::_10K,
            10 => FilingTypeOption::_10M,
            11 => FilingTypeOption::_10Q,
            12 => FilingTypeOption::_11K,
            13 => FilingTypeOption::_12B25,
            14 => FilingTypeOption::_13F,
            15 => FilingTypeOption::_13H,
            16 => FilingTypeOption::_144,
            17 => FilingTypeOption::_15,
            18 => FilingTypeOption::_15F,
            19 => FilingTypeOption::_17H,
            20 => FilingTypeOption::_18,
            21 => FilingTypeOption::_18K,
            22 => FilingTypeOption::_19B4,
            23 => FilingTypeOption::_19B4E,
            24 => FilingTypeOption::_19B7,
            25 => FilingTypeOption::_2E,
            26 => FilingTypeOption::_20F,
            27 => FilingTypeOption::_24F2,
            28 => FilingTypeOption::_25,
            29 => FilingTypeOption::_3,
            30 => FilingTypeOption::_4,
            31 => FilingTypeOption::_40F,
            32 => FilingTypeOption::_5,
            33 => FilingTypeOption::_6K,
            34 => FilingTypeOption::_7M,
            35 => FilingTypeOption::_8A,
            36 => FilingTypeOption::_8K,
            37 => FilingTypeOption::_8M,
            38 => FilingTypeOption::_9M,
            39 => FilingTypeOption::ABS,
            40 => FilingTypeOption::ABS15G,
            41 => FilingTypeOption::ABSEE,
            42 => FilingTypeOption::ADV,
            43 => FilingTypeOption::ADVE,
            44 => FilingTypeOption::ADVH,
            45 => FilingTypeOption::ADVNR,
            46 => FilingTypeOption::ADVW,
            47 => FilingTypeOption::ATS,
            48 => FilingTypeOption::ATSN,
            49 => FilingTypeOption::ATSR,
            50 => FilingTypeOption::BD,
            51 => FilingTypeOption::BDN,
            52 => FilingTypeOption::BDW,
            53 => FilingTypeOption::C,
            54 => FilingTypeOption::CA1,
            55 => FilingTypeOption::CB,
            56 => FilingTypeOption::CFPORTAL,
            57 => FilingTypeOption::CRS,
            58 => FilingTypeOption::CUSTODY,
            59 => FilingTypeOption::D,
            60 => FilingTypeOption::F1,
            61 => FilingTypeOption::F10,
            62 => FilingTypeOption::F3,
            63 => FilingTypeOption::F4,
            64 => FilingTypeOption::F6,
            65 => FilingTypeOption::F7,
            66 => FilingTypeOption::F8,
            67 => FilingTypeOption::F80,
            68 => FilingTypeOption::FN,
            69 => FilingTypeOption::FX,
            70 => FilingTypeOption::ID,
            71 => FilingTypeOption::MA,
            72 => FilingTypeOption::MAI,
            73 => FilingTypeOption::MANR,
            74 => FilingTypeOption::MAW,
            75 => FilingTypeOption::MSD,
            76 => FilingTypeOption::MSDW,
            77 => FilingTypeOption::N14,
            78 => FilingTypeOption::N17D1,
            79 => FilingTypeOption::N17F1,
            80 => FilingTypeOption::N17F2,
            81 => FilingTypeOption::N18F1,
            82 => FilingTypeOption::N1A,
            83 => FilingTypeOption::N2,
            84 => FilingTypeOption::N23C3,
            85 => FilingTypeOption::N27D1,
            86 => FilingTypeOption::N3,
            87 => FilingTypeOption::N4,
            88 => FilingTypeOption::N5,
            89 => FilingTypeOption::N54A,
            90 => FilingTypeOption::N54C,
            91 => FilingTypeOption::N6,
            92 => FilingTypeOption::N6EI1,
            93 => FilingTypeOption::N6F,
            94 => FilingTypeOption::N8A,
            95 => FilingTypeOption::N8B2,
            96 => FilingTypeOption::N8B4,
            97 => FilingTypeOption::N8F,
            98 => FilingTypeOption::NCEN,
            99 => FilingTypeOption::NCR,
            100 => FilingTypeOption::NCSR,
            101 => FilingTypeOption::NMFP,
            102 => FilingTypeOption::NPORT,
            103 => FilingTypeOption::NPX,
            104 => FilingTypeOption::NQ,
            105 => FilingTypeOption::NRN,
            106 => FilingTypeOption::NRSRO,
            107 => FilingTypeOption::PF,
            108 => FilingTypeOption::PILOT,
            109 => FilingTypeOption::R31,
            110 => FilingTypeOption::S1,
            111 => FilingTypeOption::S11,
            112 => FilingTypeOption::S20,
            113 => FilingTypeOption::S3,
            114 => FilingTypeOption::S4,
            115 => FilingTypeOption::S6,
            116 => FilingTypeOption::S8,
            117 => FilingTypeOption::SBSE,
            118 => FilingTypeOption::SBSEA,
            119 => FilingTypeOption::SBSEBD,
            120 => FilingTypeOption::SBSEC,
            121 => FilingTypeOption::SBSEW,
            122 => FilingTypeOption::SCI,
            123 => FilingTypeOption::SD,
            124 => FilingTypeOption::SDR,
            125 => FilingTypeOption::SE,
            126 => FilingTypeOption::SF1,
            127 => FilingTypeOption::SF3,
            128 => FilingTypeOption::SIP,
            129 => FilingTypeOption::T1,
            130 => FilingTypeOption::T2,
            131 => FilingTypeOption::T3,
            132 => FilingTypeOption::T4,
            133 => FilingTypeOption::T6,
            134 => FilingTypeOption::TA1,
            135 => FilingTypeOption::TA2,
            136 => FilingTypeOption::TAW,
            137 => FilingTypeOption::TCR,
            138 => FilingTypeOption::TH,
            139 => FilingTypeOption::WBAPP,
            140 => FilingTypeOption::X17A19,
            141 => FilingTypeOption::X17A5,
            _ => FilingTypeOption::X17F1A,
        }
    }

    /// Neighbouring forms from position 0 up to 12 have ascending key codes.
    proof fn lemma_codes_ascend_0_12(i: int)
        requires
            0 <= i < 12,
        ensures
            key_code(Self::at(i).key()) < key_code(Self::at(i + 1).key()),
    {
        reveal_with_fuel(code_prefix, 9);
        if i == 0 {
            reveal_strlit("1-A");
            reveal_strlit("1-E");
            assert(key_code(FilingTypeOption::_1A.key()) < key_code(FilingTypeOption::_1E.key()));
        } else if i == 1 {
            reveal_strlit("1-E");
            reveal_strlit("1-K");
            assert(key_code(FilingTypeOption::_1E.key()) < key_code(FilingTypeOption::_1K.key()));
        } else if i == 2 {
            reveal_strlit("1-K");
            reveal_strlit("1-N");
            assert(key_code(FilingTypeOption::_1K.key()) < key_code(FilingTypeOption::_1N.key()));
        } else if i == 3 {
            reveal_strlit("1-N");
            reveal_strlit("1-SA");
            assert(key_code(FilingTypeOption::_1N.key()) < key_code(FilingTypeOption::_1SA.key()));
        } else if i == 4 {
            reveal_strlit("1-SA");
            reveal_strlit("1-U");
            assert(key_code(FilingTypeOption::_1SA.key()) < key_code(FilingTypeOption::_1U.key()));
        } else if i == 5 {
            reveal_strlit("1-U");
            reveal_strlit("1-Z");
            assert(key_code(FilingTypeOption::_1U.key()) < key_code(FilingTypeOption::_1Z.key()));
        } else if i == 6 {
            reveal_strlit("1-Z");
            reveal_strlit("10");
            assert(key_code(FilingTypeOption::_1Z.key()) < key_code(FilingTypeOption::_10.key()));
        } else if i == 7 {
            reveal_strlit("10");
            reveal_strlit("10-D");
            assert(key_code(FilingTypeOption::_10.key()) < key_code(FilingTypeOption::_10D.key()));
        } else if i == 8 {
            reveal_strlit("10-D");
            reveal_strlit("10-K");
            assert(key_code(FilingTypeOption::_10D.key()) < key_code(FilingTypeOption::_10K.key()));
        } else if i == 9 {
            reveal_strlit("10-K");
            reveal_strlit("10-M");
            assert(key_code(FilingTypeOption::_10K.key()) < key_code(FilingTypeOption::_10M.key()));
        } else if i == 10 {
            reveal_strlit("10-M");
            reveal_strlit("10-Q");
            assert(key_code(FilingTypeOption::_10M.key()) < key_code(FilingTypeOption::_10Q.key()));
        } else if i == 11 {
            reveal_strlit("10-Q");
            reveal_strlit("11-K");
            assert(key_code(FilingTypeOption::_10Q.key()) < key_code(FilingTypeOption::_11K.key()));
        }
    }

    /// Neighbouring forms from position 12 up to 24 have ascending key codes.
    proof fn lemma_codes_ascend_12_24(i: int)
        requires
            12 <= i < 24,
        ensures
            key_code(Self::at(i).key()) < key_code(Self::at(i + 1).key()),
    {
        reveal_with_fuel(code_prefix, 9);
        if i == 12 {
            reveal_strlit("11-K");
            reveal_strlit("12B-25");
            assert(key_code(FilingTypeOption::_11K.key()) < key_code(FilingTypeOption::_12B25.key()));
        } else if i == 13 {
            reveal_strlit("12B-25");
            reveal_strlit("13F");
            assert(key_code(FilingTypeOption::_12B25.key()) < key_code(FilingTypeOption::_13F.key()));
        } else if i == 14 {
            reveal_strlit("13F");
            reveal_strlit("13H");
            assert(key_code(FilingTypeOption::_13F.key()) < key_code(FilingTypeOption::_13H.key()));
        } else if i == 15 {
            reveal_strlit("13H");
            reveal_strlit("144");
            assert(key_code(FilingTypeOption::_13H.key()) < key_code(FilingTypeOption::_144.key()));
        } else if i == 16 {
            reveal_strlit("144");
            reveal_strlit("15");
            assert(key_code(FilingTypeOption::_144.key()) < key_code(FilingTypeOption::_15.key()));
        } else if i == 17 {
            reveal_strlit("15");
            reveal_strlit("15F");
            assert(key_code(FilingTypeOption::_15.key()) < key_code(FilingTypeOption::_15F.key()));
        } else if i == 18 {
            reveal_strlit("15F");
            reveal_strlit("17-H");
            assert(key_code(FilingTypeOption::_15F.key()) < key_code(FilingTypeOption::_17H.key()));
        } else if i == 19 {
            reveal_strlit("17-H");
            reveal_strlit("18");
            assert(key_code(FilingTypeOption::_17H.key()) < key_code(FilingTypeOption::_18.key()));
        } else if i == 20 {
            reveal_strlit("18");
            reveal_strlit("18-K");
            assert(key_code(FilingTypeOption::_18.key()) < key_code(FilingTypeOption::_18K.key()));
        } else if i == 21 {
            reveal_strlit("18-K");
            reveal_strlit("19b-4");
            assert(key_code(FilingTypeOption::_18K.key()) < key_code(FilingTypeOption::_19B4.key()));
        } else if i == 22 {
            reveal_strlit("19b-4");
            reveal_strlit("19b-4(E)");
            assert(key_code(FilingTypeOption::_19B4.key()) < key_code(FilingTypeOption::_19B4E.key()));
        } else if i == 23 {
            reveal_strlit("19b-4(E)");
            reveal_strlit("19b-7");
            assert(key_code(FilingTypeOption::_19B4E.key()) < key_code(FilingTypeOption::_19B7.key()));
        }
    }

    /// Neighbouring forms from position 24 up to 36 have ascending key codes.
    proof fn lemma_codes_ascend_24_36(i: int)
        requires
            24 <= i < 36,
        ensures
            key_code(Self::at(i).key()) < key_code(Self::at(i + 1).key()),
    {
        reveal_with_fuel(code_prefix, 9);
        if i == 24 {
            reveal_strlit("19b-7");
            reveal_strlit("2-E");
            assert(key_code(FilingTypeOption::_19B7.key()) < key_code(FilingTypeOption::_2E.key()));
        } else if i == 25 {
            reveal_strlit("2-E");
            reveal_strlit("20-F");
            assert(key_code(FilingTypeOption::_2E.key()) < key_code(FilingTypeOption::_20F.key()));
        } else if i == 26 {
            reveal_strlit("20-F");
            reveal_strlit("24F-2");
            assert(key_code(FilingTypeOption::_20F.key()) < key_code(FilingTypeOption::_24F2.key()));
        } else if i == 27 {
            reveal_strlit("24F-2");
            reveal_strlit("25");
            assert(key_code(FilingTypeOption::_24F2.key()) < key_code(FilingTypeOption::_25.key()));
        } else if i == 28 {
            reveal_strlit("25");
            reveal_strlit("3");
            assert(key_code(FilingTypeOption::_25.key()) < key_code(FilingTypeOption::_3.key()));
        } else if i == 29 {
            reveal_strlit("3");
            reveal_strlit("4");
            assert(key_code(FilingTypeOption::_3.key()) < key_code(FilingTypeOption::_4.key()));
        } else if i == 30 {
            reveal_strlit("4");
            reveal_strlit("40-F");
            assert(key_code(FilingTypeOption::_4.key()) < key_code(FilingTypeOption::_40F.key()));
        } else if i == 31 {
            reveal_strlit("40-F");
            reveal_strlit("5");
            assert(key_code(FilingTypeOption::_40F.key()) < key_code(FilingTypeOption::_5.key()));
        } else if i == 32 {
            reveal_strlit("5");
            reveal_strlit("6-K");
            assert(key_code(FilingTypeOption::_5.key()) < key_code(FilingTypeOption::_6K.key()));
        } else if i == 33 {
            reveal_strlit("6-K");
            reveal_strlit("7-M");
            assert(key_code(FilingTypeOption::_6K.key()) < key_code(FilingTypeOption::_7M.key()));
        } else if i == 34 {
            reveal_strlit("7-M");
            reveal_strlit("8-A");
            assert(key_code(FilingTypeOption::_7M.key()) < key_code(FilingTypeOption::_8A.key()));
        } else if i == 35 {
            reveal_strlit("8-A");
            reveal_strlit("8-K");
            assert(key_code(FilingTypeOption::_8A.key()) < key_code(FilingTypeOption::_8K.key()));
        }
    }

    /// Neighbouring forms from position 36 up to 48 have ascending key codes.
    proof fn lemma_codes_ascend_36_48(i: int)
        requires
            36 <= i < 48,
        ensures
            key_code(Self::at(i).key()) < key_code(Self::at(i + 1).key()),
    {
        reveal_with_fuel(code_prefix, 9);
        if i == 36 {
            reveal_strlit("8-K");
            reveal_strlit("8-M");
            assert(key_code(FilingTypeOption::_8K.key()) < key_code(FilingTypeOption::_8M.key()));
        } else if i == 37 {
            reveal_strlit("8-M");
            reveal_strlit("9-M");
            assert(key_code(FilingTypeOption::_8M.key()) < key_code(FilingTypeOption::_9M.key()));
        } else if i == 38 {
            reveal_strlit("9-M");
            reveal_strlit("ABS");
            assert(key_code(FilingTypeOption::_9M.key()) < key_code(FilingTypeOption::ABS.key()));
        } else if i == 39 {
            reveal_strlit("ABS");
            reveal_strlit("ABS-15G");
            assert(key_code(FilingTypeOption::ABS.key()) < key_code(FilingTypeOption::ABS15G.key()));
        } else if i == 40 {
            reveal_strlit("ABS-15G");
            reveal_strlit("ABS-EE");
            assert(key_code(FilingTypeOption::ABS15G.key()) < key_code(FilingTypeOption::ABSEE.key()));
        } else if i == 41 {
            reveal_strlit("ABS-EE");
            reveal_strlit("ADV");
            assert(key_code(FilingTypeOption::ABSEE.key()) < key_code(FilingTypeOption::ADV.key()));
        } else if i == 42 {
            reveal_strlit("ADV");
            reveal_strlit("ADV-E");
            assert(key_code(FilingTypeOption::ADV.key()) < key_code(FilingTypeOption::ADVE.key()));
        } else if i == 43 {
            reveal_strlit("ADV-E");
            reveal_strlit("ADV-H");
            assert(key_code(FilingTypeOption::ADVE.key()) < key_code(FilingTypeOption::ADVH.key()));
        } else if i == 44 {
            reveal_strlit("ADV-H");
            reveal_strlit("ADV-NR");
            assert(key_code(FilingTypeOption::ADVH.key()) < key_code(FilingTypeOption::ADVNR.key()));
        } else if i == 45 {
            reveal_strlit("ADV-NR");
            reveal_strlit("ADV-W");
            assert(key_code(FilingTypeOption::ADVNR.key()) < key_code(FilingTypeOption::ADVW.key()));
        } else if i == 46 {
            reveal_strlit("ADV-W");
            reveal_strlit("ATS");
            assert(key_code(FilingTypeOption::ADVW.key()) < key_code(FilingTypeOption::ATS.key()));
        } else if i == 47 {
            reveal_strlit("ATS");
            reveal_strlit("ATS-N");
            assert(key_code(FilingTypeOption::ATS.key()) < key_code(FilingTypeOption::ATSN.key()));
        }
    }

    /// Neighbouring forms from position 48 up to 60 have ascending key codes.
    proof fn lemma_codes_ascend_48_60(i: int)
        requires
            48 <= i < 60,
        ensures
            key_code(Self::at(i).key()) < key_code(Self::at(i + 1).key()),
    {
        reveal_with_fuel(code_prefix, 9);
        if i == 48 {
            reveal_strlit("ATS-N");
            reveal_strlit("ATS-R");
            assert(key_code(FilingTypeOption::ATSN.key()) < key_code(FilingTypeOption::ATSR.key()));
        } else if i == 49 {
            reveal_strlit("ATS-R");
            reveal_strlit("BD");
            assert(key_code(FilingTypeOption::ATSR.key()) < key_code(FilingTypeOption::BD.key()));
        } else if i == 50 {
            reveal_strlit("BD");
            reveal_strlit("BD-N");
            assert(key_code(FilingTypeOption::BD.key()) < key_code(FilingTypeOption::BDN.key()));
        } else if i == 51 {
            reveal_strlit("BD-N");
            reveal_strlit("BDW");
            assert(key_code(FilingTypeOption::BDN.key()) < key_code(FilingTypeOption::BDW.key()));
        } else if i == 52 {
            reveal_strlit("BDW");
            reveal_strlit("C");
            assert(key_code(FilingTypeOption::BDW.key()) < key_code(FilingTypeOption::C.key()));
        } else if i == 53 {
            reveal_strlit("C");
            reveal_strlit("CA-1");
            assert(key_code(FilingTypeOption::C.key()) < key_code(FilingTypeOption::CA1.key()));
        } else if i == 54 {
            reveal_strlit("CA-1");
            reveal_strlit("CB");
            assert(key_code(FilingTypeOption::CA1.key()) < key_code(FilingTypeOption::CB.key()));
        } else if i == 55 {
            reveal_strlit("CB");
            reveal_strlit("CFPORTAL");
            assert(key_code(FilingTypeOption::CB.key()) < key_code(FilingTypeOption::CFPORTAL.key()));
        } else if i == 56 {
            reveal_strlit("CFPORTAL");
            reveal_strlit("CRS");
            assert(key_code(FilingTypeOption::CFPORTAL.key()) < key_code(FilingTypeOption::CRS.key()));
        } else if i == 57 {
            reveal_strlit("CRS");
            reveal_strlit("CUSTODY");
            assert(key_code(FilingTypeOption::CRS.key()) < key_code(FilingTypeOption::CUSTODY.key()));
        } else if i == 58 {
            reveal_strlit("CUSTODY");
            reveal_strlit("D");
            assert(key_code(FilingTypeOption::CUSTODY.key()) < key_code(FilingTypeOption::D.key()));
        } else if i == 59 {
            reveal_strlit("D");
            reveal_strlit("F-1");
            assert(key_code(FilingTypeOption::D.key()) < key_code(FilingTypeOption::F1.key()));
        }
    }

    /// Neighbouring forms from position 60 up to 72 have ascending key codes.
    proof fn lemma_codes_ascend_60_72(i: int)
        requires
            60 <= i < 72,
        ensures
            key_code(Self::at(i).key()) < key_code(Self::at(i + 1).key()),
    {
        reveal_with_fuel(code_prefix, 9);
        if i == 60 {
            reveal_strlit("F-1");
            reveal_strlit("F-10");
            assert(key_code(FilingTypeOption::F1.key()) < key_code(FilingTypeOption::F10.key()));
        } else if i == 61 {
            reveal_strlit("F-10");
            reveal_strlit("F-3");
            assert(key_code(FilingTypeOption::F10.key()) < key_code(FilingTypeOption::F3.key()));
        } else if i == 62 {
            reveal_strlit("F-3");
            reveal_strlit("F-4");
            assert(key_code(FilingTypeOption::F3.key()) < key_code(FilingTypeOption::F4.key()));
        } else if i == 63 {
            reveal_strlit("F-4");
            reveal_strlit("F-6");
            assert(key_code(FilingTypeOption::F4.key()) < key_code(FilingTypeOption::F6.key()));
        } else if i == 64 {
            reveal_strlit("F-6");
            reveal_strlit("F-7");
            assert(key_code(FilingTypeOption::F6.key()) < key_code(FilingTypeOption::F7.key()));
        } else if i == 65 {
            reveal_strlit("F-7");
            reveal_strlit("F-8");
            assert(key_code(FilingTypeOption::F7.key()) < key_code(FilingTypeOption::F8.key()));
        } else if i == 66 {
            reveal_strlit("F-8");
            reveal_strlit("F-80");
            assert(key_code(FilingTypeOption::F8.key()) < key_code(FilingTypeOption::F80.key()));
        } else if i == 67 {
            reveal_strlit("F-80");
            reveal_strlit("F-N");
            assert(key_code(FilingTypeOption::F80.key()) < key_code(FilingTypeOption::FN.key()));
        } else if i == 68 {
            reveal_strlit("F-N");
            reveal_strlit("F-X");
            assert(key_code(FilingTypeOption::FN.key()) < key_code(FilingTypeOption::FX.key()));
        } else if i == 69 {
            reveal_strlit("F-X");
            reveal_strlit("ID");
            assert(key_code(FilingTypeOption::FX.key()) < key_code(FilingTypeOption::ID.key()));
        } else if i == 70 {
            reveal_strlit("ID");
            reveal_strlit("MA");
            assert(key_code(FilingTypeOption::ID.key()) < key_code(FilingTypeOption::MA.key()));
        } else if i == 71 {
            reveal_strlit("MA");
            reveal_strlit("MA-I");
            assert(key_code(FilingTypeOption::MA.key()) < key_code(FilingTypeOption::MAI.key()));
        }
    }

    /// Neighbouring forms from position 72 up to 84 have ascending key codes.
    proof fn lemma_codes_ascend_72_84(i: int)
        requires
            72 <= i < 84,
        ensures
            key_code(Self::at(i).key()) < key_code(Self::at(i + 1).key()),
    {
        reveal_with_fuel(code_prefix, 9);
        if i == 72 {
            reveal_strlit("MA-I");
            reveal_strlit("MA-NR");
            assert(key_code(FilingTypeOption::MAI.key()) < key_code(FilingTypeOption::MANR.key()));
        } else if i == 73 {
            reveal_strlit("MA-NR");
            reveal_strlit("MA-W");
            assert(key_code(FilingTypeOption::MANR.key()) < key_code(FilingTypeOption::MAW.key()));
        } else if i == 74 {
            reveal_strlit("MA-W");
            reveal_strlit("MSD");
            assert(key_code(FilingTypeOption::MAW.key()) < key_code(FilingTypeOption::MSD.key()));
        } else if i == 75 {
            reveal_strlit("MSD");
            reveal_strlit("MSDW");
            assert(key_code(FilingTypeOption::MSD.key()) < key_code(FilingTypeOption::MSDW.key()));
        } else if i == 76 {
            reveal_strlit("MSDW");
            reveal_strlit("N-14");
            assert(key_code(FilingTypeOption::MSDW.key()) < key_code(FilingTypeOption::N14.key()));
        } else if i == 77 {
            reveal_strlit("N-14");
            reveal_strlit("N-17D-1");
            assert(key_code(FilingTypeOption::N14.key()) < key_code(FilingTypeOption::N17D1.key()));
        } else if i == 78 {
            reveal_strlit("N-17D-1");
            reveal_strlit("N-17F-1");
            assert(key_code(FilingTypeOption::N17D1.key()) < key_code(FilingTypeOption::N17F1.key()));
        } else if i == 79 {
            reveal_strlit("N-17F-1");
            reveal_strlit("N-17F-2");
            assert(key_code(FilingTypeOption::N17F1.key()) < key_code(FilingTypeOption::N17F2.key()));
        } else if i == 80 {
            reveal_strlit("N-17F-2");
            reveal_strlit("N-18F-1");
            assert(key_code(FilingTypeOption::N17F2.key()) < key_code(FilingTypeOption::N18F1.key()));
        } else if i == 81 {
            reveal_strlit("N-18F-1");
            reveal_strlit("N-1A");
            assert(key_code(FilingTypeOption::N18F1.key()) < key_code(FilingTypeOption::N1A.key()));
        } else if i == 82 {
            reveal_strlit("N-1A");
            reveal_strlit("N-2");
            assert(key_code(FilingTypeOption::N1A.key()) < key_code(FilingTypeOption::N2.key()));
        } else if i == 83 {
            reveal_strlit("N-2");
            reveal_strlit("N-23C-3");
            assert(key_code(FilingTypeOption::N2.key()) < key_code(FilingTypeOption::N23C3.key()));
        }
    }

    /// Neighbouring forms from position 84 up to 96 have ascending key codes.
    proof fn lemma_codes_ascend_84_96(i: int)
        requires
            84 <= i < 96,
        ensures
            key_code(Self::at(i).key()) < key_code(Self::at(i + 1).key()),
    {
        reveal_with_fuel(code_prefix, 9);
        if i == 84 {
            reveal_strlit("N-23C-3");
            reveal_strlit("N-27D-1");
            assert(key_code(FilingTypeOption::N23C3.key()) < key_code(FilingTypeOption::N27D1.key()));
        } else if i == 85 {
            reveal_strlit("N-27D-1");
            reveal_strlit("N-3");
            assert(key_code(FilingTypeOption::N27D1.key()) < key_code(FilingTypeOption::N3.key()));
        } else if i == 86 {
            reveal_strlit("N-3");
            reveal_strlit("N-4");
            assert(key_code(FilingTypeOption::N3.key()) < key_code(FilingTypeOption::N4.key()));
        } else if i == 87 {
            reveal_strlit("N-4");
            reveal_strlit("N-5");
            assert(key_code(FilingTypeOption::N4.key()) < key_code(FilingTypeOption::N5.key()));
        } else if i == 88 {
            reveal_strlit("N-5");
            reveal_strlit("N-54A");
            assert(key_code(FilingTypeOption::N5.key()) < key_code(FilingTypeOption::N54A.key()));
        } else if i == 89 {
            reveal_strlit("N-54A");
            reveal_strlit("N-54C");
            assert(key_code(FilingTypeOption::N54A.key()) < key_code(FilingTypeOption::N54C.key()));
        } else if i == 90 {
            reveal_strlit("N-54C");
            reveal_strlit("N-6");
            assert(key_code(FilingTypeOption::N54C.key()) < key_code(FilingTypeOption::N6.key()));
        } else if i == 91 {
            reveal_strlit("N-6");
            reveal_strlit("N-6EI-1");
            assert(key_code(FilingTypeOption::N6.key()) < key_code(FilingTypeOption::N6EI1.key()));
        } else if i == 92 {
            reveal_strlit("N-6EI-1");
            reveal_strlit("N-6F");
            assert(key_code(FilingTypeOption::N6EI1.key()) < key_code(FilingTypeOption::N6F.key()));
        } else if i == 93 {
            reveal_strlit("N-6F");
            reveal_strlit("N-8A");
            assert(key_code(FilingTypeOption::N6F.key()) < key_code(FilingTypeOption::N8A.key()));
        } else if i == 94 {
            reveal_strlit("N-8A");
            reveal_strlit("N-8B-2");
            assert(key_code(FilingTypeOption::N8A.key()) < key_code(FilingTypeOption::N8B2.key()));
        } else if i == 95 {
            reveal_strlit("N-8B-2");
            reveal_strlit("N-8B-4");
            assert(key_code(FilingTypeOption::N8B2.key()) < key_code(FilingTypeOption::N8B4.key()));
        }
    }

    /// Neighbouring forms from position 96 up to 108 have ascending key codes.
    proof fn lemma_codes_ascend_96_108(i: int)
        requires
            96 <= i < 108,
        ensures
            key_code(Self::at(i).key()) < key_code(Self::at(i + 1).key()),
    {
        reveal_with_fuel(code_prefix, 9);
        if i == 96 {
            reveal_strlit("N-8B-4");
            reveal_strlit("N-8F");
            assert(key_code(FilingTypeOption::N8B4.key()) < key_code(FilingTypeOption::N8F.key()));
        } else if i == 97 {
            reveal_strlit("N-8F");
            reveal_strlit("N-CEN");
            assert(key_code(FilingTypeOption::N8F.key()) < key_code(FilingTypeOption::NCEN.key()));
        } else if i == 98 {
            reveal_strlit("N-CEN");
            reveal_strlit("N-CR");
            assert(key_code(FilingTypeOption::NCEN.key()) < key_code(FilingTypeOption::NCR.key()));
        } else if i == 99 {
            reveal_strlit("N-CR");
            reveal_strlit("N-CSR");
            assert(key_code(FilingTypeOption::NCR.key()) < key_code(FilingTypeOption::NCSR.key()));
        } else if i == 100 {
            reveal_strlit("N-CSR");
            reveal_strlit("N-MFP");
            assert(key_code(FilingTypeOption::NCSR.key()) < key_code(FilingTypeOption::NMFP.key()));
        } else if i == 101 {
            reveal_strlit("N-MFP");
            reveal_strlit("N-PORT");
            assert(key_code(FilingTypeOption::NMFP.key()) < key_code(FilingTypeOption::NPORT.key()));
        } else if i == 102 {
            reveal_strlit("N-PORT");
            reveal_strlit("N-PX");
            assert(key_code(FilingTypeOption::NPORT.key()) < key_code(FilingTypeOption::NPX.key()));
        } else if i == 103 {
            reveal_strlit("N-PX");
            reveal_strlit("N-Q");
            assert(key_code(FilingTypeOption::NPX.key()) < key_code(FilingTypeOption::NQ.key()));
        } else if i == 104 {
            reveal_strlit("N-Q");
            reveal_strlit("N-RN");
            assert(key_code(FilingTypeOption::NQ.key()) < key_code(FilingTypeOption::NRN.key()));
        } else if i == 105 {
            reveal_strlit("N-RN");
            reveal_strlit("NRSRO");
            assert(key_code(FilingTypeOption::NRN.key()) < key_code(FilingTypeOption::NRSRO.key()));
        } else if i == 106 {
            reveal_strlit("NRSRO");
            reveal_strlit("PF");
            assert(key_code(FilingTypeOption::NRSRO.key()) < key_code(FilingTypeOption::PF.key()));
        } else if i == 107 {
            reveal_strlit("PF");
            reveal_strlit("PILOT");
            assert(key_code(FilingTypeOption::PF.key()) < key_code(FilingTypeOption::PILOT.key()));
        }
    }

    /// Neighbouring forms from position 108 up to 120 have ascending key codes.
    proof fn lemma_codes_ascend_108_120(i: int)
        requires
            108 <= i < 120,
        ensures
            key_code(Self::at(i).key()) < key_code(Self::at(i + 1).key()),
    {
        reveal_with_fuel(code_prefix, 9);
        if i == 108 {
            reveal_strlit("PILOT");
            reveal_strlit("R31");
            assert(key_code(FilingTypeOption::PILOT.key()) < key_code(FilingTypeOption::R31.key()));
        } else if i == 109 {
            reveal_strlit("R31");
            reveal_strlit("S-1");
            assert(key_code(FilingTypeOption::R31.key()) < key_code(FilingTypeOption::S1.key()));
        } else if i == 110 {
            reveal_strlit("S-1");
            reveal_strlit("S-11");
            assert(key_code(FilingTypeOption::S1.key()) < key_code(FilingTypeOption::S11.key()));
        } else if i == 111 {
            reveal_strlit("S-11");
            reveal_strlit("S-20");
            assert(key_code(FilingTypeOption::S11.key()) < key_code(FilingTypeOption::S20.key()));
        } else if i == 112 {
            reveal_strlit("S-20");
            reveal_strlit("S-3");
            assert(key_code(FilingTypeOption::S20.key()) < key_code(FilingTypeOption::S3.key()));
        } else if i == 113 {
            reveal_strlit("S-3");
            reveal_strlit("S-4");
            assert(key_code(FilingTypeOption::S3.key()) < key_code(FilingTypeOption::S4.key()));
        } else if i == 114 {
            reveal_strlit("S-4");
            reveal_strlit("S-6");
            assert(key_code(FilingTypeOption::S4.key()) < key_code(FilingTypeOption::S6.key()));
        } else if i == 115 {
            reveal_strlit("S-6");
            reveal_strlit("S-8");
            assert(key_code(FilingTypeOption::S6.key()) < key_code(FilingTypeOption::S8.key()));
        } else if i == 116 {
            reveal_strlit("S-8");
            reveal_strlit("SBSE");
            assert(key_code(FilingTypeOption::S8.key()) < key_code(FilingTypeOption::SBSE.key()));
        } else if i == 117 {
            reveal_strlit("SBSE");
            reveal_strlit("SBSE-A");
            assert(key_code(FilingTypeOption::SBSE.key()) < key_code(FilingTypeOption::SBSEA.key()));
        } else if i == 118 {
            reveal_strlit("SBSE-A");
            reveal_strlit("SBSE-BD");
            assert(key_code(FilingTypeOption::SBSEA.key()) < key_code(FilingTypeOption::SBSEBD.key()));
        } else if i == 119 {
            reveal_strlit("SBSE-BD");
            reveal_strlit("SBSE-C");
            assert(key_code(FilingTypeOption::SBSEBD.key()) < key_code(FilingTypeOption::SBSEC.key()));
        }
    }

    /// Neighbouring forms from position 120 up to 132 have ascending key codes.
    proof fn lemma_codes_ascend_120_132(i: int)
        requires
            120 <= i < 132,
        ensures
            key_code(Self::at(i).key()) < key_code(Self::at(i + 1).key()),
    {
        reveal_with_fuel(code_prefix, 9);
        if i == 120 {
            reveal_strlit("SBSE-C");
            reveal_strlit("SBSE-W");
            assert(key_code(FilingTypeOption::SBSEC.key()) < key_code(FilingTypeOption::SBSEW.key()));
        } else if i == 121 {
            reveal_strlit("SBSE-W");
            reveal_strlit("SCI");
            assert(key_code(FilingTypeOption::SBSEW.key()) < key_code(FilingTypeOption::SCI.key()));
        } else if i == 122 {
            reveal_strlit("SCI");
            reveal_strlit("SD");
            assert(key_code(FilingTypeOption::SCI.key()) < key_code(FilingTypeOption::SD.key()));
        } else if i == 123 {
            reveal_strlit("SD");
            reveal_strlit("SDR");
            assert(key_code(FilingTypeOption::SD.key()) < key_code(FilingTypeOption::SDR.key()));
        } else if i == 124 {
            reveal_strlit("SDR");
            reveal_strlit("SE");
            assert(key_code(FilingTypeOption::SDR.key()) < key_code(FilingTypeOption::SE.key()));
        } else if i == 125 {
            reveal_strlit("SE");
            reveal_strlit("SF-1");
            assert(key_code(FilingTypeOption::SE.key()) < key_code(FilingTypeOption::SF1.key()));
        } else if i == 126 {
            reveal_strlit("SF-1");
            reveal_strlit("SF-3");
            assert(key_code(FilingTypeOption::SF1.key()) < key_code(FilingTypeOption::SF3.key()));
        } else if i == 127 {
            reveal_strlit("SF-3");
            reveal_strlit("SIP");
            assert(key_code(FilingTypeOption::SF3.key()) < key_code(FilingTypeOption::SIP.key()));
        } else if i == 128 {
            reveal_strlit("SIP");
            reveal_strlit("T-1");
            assert(key_code(FilingTypeOption::SIP.key()) < key_code(FilingTypeOption::T1.key()));
        } else if i == 129 {
            reveal_strlit("T-1");
            reveal_strlit("T-2");
            assert(key_code(FilingTypeOption::T1.key()) < key_code(FilingTypeOption::T2.key()));
        } else if i == 130 {
            reveal_strlit("T-2");
            reveal_strlit("T-3");
            assert(key_code(FilingTypeOption::T2.key()) < key_code(FilingTypeOption::T3.key()));
        } else if i == 131 {
            reveal_strlit("T-3");
            reveal_strlit("T-4");
            assert(key_code(FilingTypeOption::T3.key()) < key_code(FilingTypeOption::T4.key()));
        }
    }

    /// Neighbouring forms from position 132 up to 142 have ascending key codes.
    proof fn lemma_codes_ascend_132_142(i: int)
        requires
            132 <= i < 142,
        ensures
            key_code(Self::at(i).key()) < key_code(Self::at(i + 1).key()),
    {
        reveal_with_fuel(code_prefix, 9);
        if i == 132 {
            reveal_strlit("T-4");
            reveal_strlit("T-6");
            assert(key_code(FilingTypeOption::T4.key()) < key_code(FilingTypeOption::T6.key()));
        } else if i == 133 {
            reveal_strlit("T-6");
            reveal_strlit("TA-1");
            assert(key_code(FilingTypeOption::T6.key()) < key_code(FilingTypeOption::TA1.key()));
        } else if i == 134 {
            reveal_strlit("TA-1");
            reveal_strlit("TA-2");
            assert(key_code(FilingTypeOption::TA1.key()) < key_code(FilingTypeOption::TA2.key()));
        } else if i == 135 {
            reveal_strlit("TA-2");
            reveal_strlit("TA-W");
            assert(key_code(FilingTypeOption::TA2.key()) < key_code(FilingTypeOption::TAW.key()));
        } else if i == 136 {
            reveal_strlit("TA-W");
            reveal_strlit("TCR");
            assert(key_code(FilingTypeOption::TAW.key()) < key_code(FilingTypeOption::TCR.key()));
        } else if i == 137 {
            reveal_strlit("TCR");
            reveal_strlit("TH");
            assert(key_code(FilingTypeOption::TCR.key()) < key_code(FilingTypeOption::TH.key()));
        } else if i == 138 {
            reveal_strlit("TH");
            reveal_strlit("WB-APP");
            assert(key_code(FilingTypeOption::TH.key()) < key_code(FilingTypeOption::WBAPP.key()));
        } else if i == 139 {
            reveal_strlit("WB-APP");
            reveal_strlit("X-17A-19");
            assert(key_code(FilingTypeOption::WBAPP.key()) < key_code(FilingTypeOption::X17A19.key()));
        } else if i == 140 {
            reveal_strlit("X-17A-19");
            reveal_strlit("X-17A-5");
            assert(key_code(FilingTypeOption::X17A19.key()) < key_code(FilingTypeOption::X17A5.key()));
        } else if i == 141 {
            reveal_strlit("X-17A-5");
            reveal_strlit("X-17F-1A");
            assert(key_code(FilingTypeOption::X17A5.key()) < key_code(FilingTypeOption::X17F1A.key()));
        }
    }

    /// Neighbouring forms of the catalog have ascending key codes.
    proof fn lemma_codes_ascend(i: int)
        requires
            0 <= i < FILING_TYPE_COUNT - 1,
        ensures
            key_code(Self::at(i).key()) < key_code(Self::at(i + 1).key()),
    {
        if i < 12 {
            Self::lemma_codes_ascend_0_12(i);
        } else if i < 24 {
            Self::lemma_codes_ascend_12_24(i);
        } else if i < 36 {
            Self::lemma_codes_ascend_24_36(i);
        } else if i < 48 {
            Self::lemma_codes_ascend_36_48(i);
        } else if i < 60 {
            Self::lemma_codes_ascend_48_60(i);
        } else if i < 72 {
            Self::lemma_codes_ascend_60_72(i);
        } else if i < 84 {
            Self::lemma_codes_ascend_72_84(i);
        } else if i < 96 {
            Self::lemma_codes_ascend_84_96(i);
        } else if i < 108 {
            Self::lemma_codes_ascend_96_108(i);
        } else if i < 120 {
            Self::lemma_codes_ascend_108_120(i);
        } else if i < 132 {
            Self::lemma_codes_ascend_120_132(i);
        } else if i < 142 {
            Self::lemma_codes_ascend_132_142(i);
        }
    }

    /// Every canonical form code is ASCII.
    pub proof fn lemma_form_ascii(self)
        ensures
            is_ascii_chars(self.form()),
    {
        match self {
            FilingTypeOption::_1A => {
                reveal_strlit("1-A");
            },
            FilingTypeOption::_1E => {
                reveal_strlit("1-E");
            },
            FilingTypeOption::_1K => {
                reveal_strlit("1-K");
            },
            FilingTypeOption::_1N => {
                reveal_strlit("1-N");
            },
            FilingTypeOption::_1SA => {
                reveal_strlit("1-SA");
            },
            FilingTypeOption::_1U => {
                reveal_strlit("1-U");
            },
            FilingTypeOption::_1Z => {
                reveal_strlit("1-Z");
            },
            FilingTypeOption::_10 => {
                reveal_strlit("10");
            },
            FilingTypeOption::_10D => {
                reveal_strlit("10-D");
            },
            FilingTypeOption::_10K => {
                reveal_strlit("10-K");
            },
            FilingTypeOption::_10M => {
                reveal_strlit("10-M");
            },
            FilingTypeOption::_10Q => {
                reveal_strlit("10-Q");
            },
            FilingTypeOption::_11K => {
                reveal_strlit("11-K");
            },
            FilingTypeOption::_12B25 => {
                reveal_strlit("12B-25");
            },
            FilingTypeOption::_13F => {
                reveal_strlit("13F");
            },
            FilingTypeOption::_13H => {
                reveal_strlit("13H");
            },
            FilingTypeOption::_144 => {
                reveal_strlit("144");
            },
            FilingTypeOption::_15 => {
                reveal_strlit("15");
            },
            FilingTypeOption::_15F => {
                reveal_strlit("15F");
            },
            FilingTypeOption::_17H => {
                reveal_strlit("17-H");
            },
            FilingTypeOption::_18 => {
                reveal_strlit("18");
            },
            FilingTypeOption::_18K => {
                reveal_strlit("18-K");
            },
            FilingTypeOption::_19B4 => {
                reveal_strlit("19b-4");
            },
            FilingTypeOption::_19B4E => {
                reveal_strlit("19b-4(E)");
            },
            FilingTypeOption::_19B7 => {
                reveal_strlit("19b-7");
            },
            FilingTypeOption::_2E => {
                reveal_strlit("2-E");
            },
            FilingTypeOption::_20F => {
                reveal_strlit("20-F");
            },
            FilingTypeOption::_24F2 => {
                reveal_strlit("24F-2");
            },
            FilingTypeOption::_25 => {
                reveal_strlit("25");
            },
            FilingTypeOption::_3 => {
                reveal_strlit("3");
            },
            FilingTypeOption::_4 => {
                reveal_strlit("4");
            },
            FilingTypeOption::_40F => {
                reveal_strlit("40-F");
            },
            FilingTypeOption::_5 => {
                reveal_strlit("5");
            },
            FilingTypeOption::_6K => {
                reveal_strlit("6-K");
            },
            FilingTypeOption::_7M => {
                reveal_strlit("7-M");
            },
            FilingTypeOption::_8A => {
                reveal_strlit("8-A");
            },
            FilingTypeOption::_8K => {
                reveal_strlit("8-K");
            },
            FilingTypeOption::_8M => {
                reveal_strlit("8-M");
            },
            FilingTypeOption::_9M => {
                reveal_strlit("9-M");
            },
            FilingTypeOption::ABS => {
                reveal_strlit("ABS");
            },
            FilingTypeOption::ABS15G => {
                reveal_strlit("ABS-15G");
            },
            FilingTypeOption::ABSEE => {
                reveal_strlit("ABS-EE");
            },
            FilingTypeOption::ADV => {
                reveal_strlit("ADV");
            },
            FilingTypeOption::ADVE => {
                reveal_strlit("ADV-E");
            },
            FilingTypeOption::ADVH => {
                reveal_strlit("ADV-H");
            },
            FilingTypeOption::ADVNR => {
                reveal_strlit("ADV-NR");
            },
            FilingTypeOption::ADVW => {
                reveal_strlit("ADV-W");
            },
            FilingTypeOption::ATS => {
                reveal_strlit("ATS");
            },
            FilingTypeOption::ATSN => {
                reveal_strlit("ATS-N");
            },
            FilingTypeOption::ATSR => {
                reveal_strlit("ATS-R");
            },
            FilingTypeOption::BD => {
                reveal_strlit("BD");
            },
            FilingTypeOption::BDN => {
                reveal_strlit("BD-N");
            },
            FilingTypeOption::BDW => {
                reveal_strlit("BDW");
            },
            FilingTypeOption::C => {
                reveal_strlit("C");
            },
            FilingTypeOption::CA1 => {
                reveal_strlit("CA-1");
            },
            FilingTypeOption::CB => {
                reveal_strlit("CB");
            },
            FilingTypeOption::CFPORTAL => {
                reveal_strlit("CFPORTAL");
            },
            FilingTypeOption::CRS => {
                reveal_strlit("CRS");
            },
            FilingTypeOption::CUSTODY => {
                reveal_strlit("CUSTODY");
            },
            FilingTypeOption::D => {
                reveal_strlit("D");
            },
            FilingTypeOption::F1 => {
                reveal_strlit("F-1");
            },
            FilingTypeOption::F10 => {
                reveal_strlit("F-10");
            },
            FilingTypeOption::F3 => {
                reveal_strlit("F-3");
            },
            FilingTypeOption::F4 => {
                reveal_strlit("F-4");
            },
            FilingTypeOption::F6 => {
                reveal_strlit("F-6");
            },
            FilingTypeOption::F7 => {
                reveal_strlit("F-7");
            },
            FilingTypeOption::F8 => {
                reveal_strlit("F-8");
            },
            FilingTypeOption::F80 => {
                reveal_strlit("F-80");
            },
            FilingTypeOption::FN => {
                reveal_strlit("F-N");
            },
            FilingTypeOption::FX => {
                reveal_strlit("F-X");
            },
            FilingTypeOption::ID => {
                reveal_strlit("ID");
            },
            FilingTypeOption::MA => {
                reveal_strlit("MA");
            },
            FilingTypeOption::MAI => {
                reveal_strlit("MA-I");
            },
            FilingTypeOption::MANR => {
                reveal_strlit("MA-NR");
            },
            FilingTypeOption::MAW => {
                reveal_strlit("MA-W");
            },
            FilingTypeOption::MSD => {
                reveal_strlit("MSD");
            },
            FilingTypeOption::MSDW => {
                reveal_strlit("MSDW");
            },
            FilingTypeOption::N14 => {
                reveal_strlit("N-14");
            },
            FilingTypeOption::N17D1 => {
                reveal_strlit("N-17D-1");
            },
            FilingTypeOption::N17F1 => {
                reveal_strlit("N-17F-1");
            },
            FilingTypeOption::N17F2 => {
                reveal_strlit("N-17F-2");
            },
            FilingTypeOption::N18F1 => {
                reveal_strlit("N-18F-1");
            },
            FilingTypeOption::N1A => {
                reveal_strlit("N-1A");
            },
            FilingTypeOption::N2 => {
                reveal_strlit("N-2");
            },
            FilingTypeOption::N23C3 => {
                reveal_strlit("N-23C-3");
            },
            FilingTypeOption::N27D1 => {
                reveal_strlit("N-27D-1");
            },
            FilingTypeOption::N3 => {
                reveal_strlit("N-3");
            },
            FilingTypeOption::N4 => {
                reveal_strlit("N-4");
            },
            FilingTypeOption::N5 => {
                reveal_strlit("N-5");
            },
            FilingTypeOption::N54A => {
                reveal_strlit("N-54A");
            },
            FilingTypeOption::N54C => {
                reveal_strlit("N-54C");
            },
            FilingTypeOption::N6 => {
                reveal_strlit("N-6");
            },
            FilingTypeOption::N6EI1 => {
                reveal_strlit("N-6EI-1");
            },
            FilingTypeOption::N6F => {
                reveal_strlit("N-6F");
            },
            FilingTypeOption::N8A => {
                reveal_strlit("N-8A");
            },
            FilingTypeOption::N8B2 => {
                reveal_strlit("N-8B-2");
            },
            FilingTypeOption::N8B4 => {
                reveal_strlit("N-8B-4");
            },
            FilingTypeOption::N8F => {
                reveal_strlit("N-8F");
            },
            FilingTypeOption::NCEN => {
                reveal_strlit("N-CEN");
            },
            FilingTypeOption::NCR => {
                reveal_strlit("N-CR");
            },
            FilingTypeOption::NCSR => {
                reveal_strlit("N-CSR");
            },
            FilingTypeOption::NMFP => {
                reveal_strlit("N-MFP");
            },
            FilingTypeOption::NPORT => {
                reveal_strlit("N-PORT");
            },
            FilingTypeOption::NPX => {
                reveal_strlit("N-PX");
            },
            FilingTypeOption::NQ => {
                reveal_strlit("N-Q");
            },
            FilingTypeOption::NRN => {
                reveal_strlit("N-RN");
            },
            FilingTypeOption::NRSRO => {
                reveal_strlit("NRSRO");
            },
            FilingTypeOption::PF => {
                reveal_strlit("PF");
            },
            FilingTypeOption::PILOT => {
                reveal_strlit("PILOT");
            },
            FilingTypeOption::R31 => {
                reveal_strlit("R31");
            },
            FilingTypeOption::S1 => {
                reveal_strlit("S-1");
            },
            FilingTypeOption::S11 => {
                reveal_strlit("S-11");
            },
            FilingTypeOption::S20 => {
                reveal_strlit("S-20");
            },
            FilingTypeOption::S3 => {
                reveal_strlit("S-3");
            },
            FilingTypeOption::S4 => {
                reveal_strlit("S-4");
            },
            FilingTypeOption::S6 => {
                reveal_strlit("S-6");
            },
            FilingTypeOption::S8 => {
                reveal_strlit("S-8");
            },
            FilingTypeOption::SBSE => {
                reveal_strlit("SBSE");
            },
            FilingTypeOption::SBSEA => {
                reveal_strlit("SBSE-A");
            },
            FilingTypeOption::SBSEBD => {
                reveal_strlit("SBSE-BD");
            },
            FilingTypeOption::SBSEC => {
                reveal_strlit("SBSE-C");
            },
            FilingTypeOption::SBSEW => {
                reveal_strlit("SBSE-W");
            },
            FilingTypeOption::SCI => {
                reveal_strlit("SCI");
            },
            FilingTypeOption::SD => {
                reveal_strlit("SD");
            },
            FilingTypeOption::SDR => {
                reveal_strlit("SDR");
            },
            FilingTypeOption::SE => {
                reveal_strlit("SE");
            },
            FilingTypeOption::SF1 => {
                reveal_strlit("SF-1");
            },
            FilingTypeOption::SF3 => {
                reveal_strlit("SF-3");
            },
            FilingTypeOption::SIP => {
                reveal_strlit("SIP");
            },
            FilingTypeOption::T1 => {
                reveal_strlit("T-1");
            },
            FilingTypeOption::T2 => {
                reveal_strlit("T-2");
            },
            FilingTypeOption::T3 => {
                reveal_strlit("T-3");
            },
            FilingTypeOption::T4 => {
                reveal_strlit("T-4");
            },
            FilingTypeOption::T6 => {
                reveal_strlit("T-6");
            },
            FilingTypeOption::TA1 => {
                reveal_strlit("TA-1");
            },
            FilingTypeOption::TA2 => {
                reveal_strlit("TA-2");
            },
            FilingTypeOption::TAW => {
                reveal_strlit("TA-W");
            },
            FilingTypeOption::TCR => {
                reveal_strlit("TCR");
            },
            FilingTypeOption::TH => {
                reveal_strlit("TH");
            },
            FilingTypeOption::WBAPP => {
                reveal_strlit("WB-APP");
            },
            FilingTypeOption::X17A19 => {
                reveal_strlit("X-17A-19");
            },
            FilingTypeOption::X17A5 => {
                reveal_strlit("X-17A-5");
            },
            FilingTypeOption::X17F1A => {
                reveal_strlit("X-17F-1A");
            },
        }
    }

    /// Every form sits at its own index of the catalog.
    pub proof fn lemma_at_index(v: Self)
        ensures
            0 <= v.index() < FILING_TYPE_COUNT,
            Self::at(v.index()) == v,
    {
    }

    /// Key codes strictly increase along the catalog.
    proof fn lemma_codes_increase(i: int, j: int)
        requires
            0 <= i < j < FILING_TYPE_COUNT,
        ensures
            key_code(Self::at(i).key()) < key_code(Self::at(j).key()),
        decreases j - i,
    {
        Self::lemma_codes_ascend(j - 1);
        if i < j - 1 {
            Self::lemma_codes_increase(i, j - 1);
        }
    }

    /// No two forms share an uppercased code.
    pub proof fn lemma_key_injective(a: Self, b: Self)
        requires
            a.key() == b.key(),
        ensures
            a == b,
    {
        Self::lemma_at_index(a);
        Self::lemma_at_index(b);
        if a.index() < b.index() {
            Self::lemma_codes_increase(a.index(), b.index());
        } else if b.index() < a.index() {
            Self::lemma_codes_increase(b.index(), a.index());
        }
    }

    /// The filing type whose uppercased code is `u`.
    pub fn from_normalized(u: &str) -> (r: Result<Self, EDGARParserError>)
        ensures
            r == Self::parse_key(u@),
    {
        let mut i: usize = 0;
        while i < FILING_TYPE_COUNT
            invariant
                0 <= i <= FILING_TYPE_COUNT,
                forall|j: int| 0 <= j < i ==> (#[trigger] Self::at(j)).key() != u@,
            decreases FILING_TYPE_COUNT - i,
        {
            let v = Self::from_index(i);
            if matches_upper(u, v.as_str()) {
                proof {
                    assert(v.key() == u@);
                    let w = choose|w: Self| w.key() == u@;
                    Self::lemma_key_injective(v, w);
                }
                return Ok(v);
            }
            i += 1;
        }
        proof {
            assert forall|v: Self| v.key() != u@ by {
                Self::lemma_at_index(v);
            }
        }
        Err(EDGARParserError::FilingTypeNotFound)
    }

    /// Parses a filing type, ignoring case: the string is uppercased, then looked up among
    /// the uppercased form codes.
    pub fn from_str(s: &str) -> (r: Result<Self, EDGARParserError>)
        ensures
            r == Self::parse_key(upper_of(s@)),
            is_ascii_chars(s@) ==> r == Self::parse_key(ascii_upper(s@)),
    {
        let u = uppercase(s);
        Self::from_normalized(u.as_str())
    }

    /// The canonical form code, as an owned string.
    pub fn to_string(&self) -> (r: String)
        ensures
            r@ == self.form(),
    {
        String::from_str(self.as_str())
    }

    /// Rendering a parsed string gives back that string in canonical casing: the uppercased
    /// rendering is the normalized input.
    pub proof fn lemma_render_of_parse(u: Seq<char>)
        requires
            Self::parse_key(u) is Ok,
        ensures
            ascii_upper(Self::parse_key(u)->Ok_0.form()) == u,
    {
    }

    /// Parsing a rendered form, after the uppercasing that parsing applies to ASCII text,
    /// gives back the same form.
    pub proof fn lemma_parse_of_render(v: Self)
        ensures
            is_ascii_chars(v.form()),
            Self::parse_key(ascii_upper(v.form())) == Ok::<Self, EDGARParserError>(v),
    {
        v.lemma_form_ascii();
        let w = choose|w: Self| w.key() == v.key();
        Self::lemma_key_injective(v, w);
    }
}

/// Parses a filing type, ignoring case.
pub fn filing_from_str(s: &str) -> (r: Result<FilingTypeOption, EDGARParserError>)
    ensures
        r == FilingTypeOption::parse_key(upper_of(s@)),
        is_ascii_chars(s@) ==> r == FilingTypeOption::parse_key(ascii_upper(s@)),
{
    FilingTypeOption::from_str(s)
}

/// The canonical form code of a filing type.
pub fn to_string(filing_type: FilingTypeOption) -> (r: String)
    ensures
        r@ == filing_type.form(),
{
    filing_type.to_string()
}

/// Parses a filing type, ignoring case, and gives back its canonical form code.
pub fn validate_filing_type_string(s: &str) -> (r: Result<String, EDGARParserError>)
    ensures
        match FilingTypeOption::parse_key(upper_of(s@)) {
            Ok(v) => r is Ok && r->Ok_0@ == v.form(),
            Err(e) => r is Err && e == EDGARParserError::FilingTypeNotFound
                && r->Err_0 == EDGARParserError::FilingTypeNotFound,
        },
{
    let ft = filing_from_str(s)?;
    Ok(ft.to_string())
}

} // verus!
