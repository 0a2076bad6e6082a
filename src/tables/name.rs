//! The naming table (`name`), formats 0 and 1, with its platform, encoding,
//! language and name identifiers.
//!
//! A name record whose platform or encoding is unknown, or whose name id is
//! unknown, cannot be identified and makes the table fail to decode. A record
//! whose language is unknown keeps its platform with no language: its
//! language cannot be identified, but it is still decoded.
use crate::codec::{slice_range, spec_u16, u16_at};
use crate::error::Error;
use vstd::prelude::*;

verus! {

/// Encodings of the Unicode platform.
#[allow(non_camel_case_types)]
#[derive(Debug, Clone, Copy, PartialEq, Eq, Hash, Structural)]
pub enum UnicodeEncoding {
    Unicode_1_0,
    Unicode_1_1,
    Iso10646,
    Unicode_2_0_Bmp,
    Unicode_2_0_Full,
    UnicodeVariationSequences,
    UnicodeFullRepertoire,
}

/// The value of `UnicodeEncoding` whose identifier is `v`, if any.
pub open spec fn spec_unicode_encoding(v: u16) -> Option<UnicodeEncoding> {
    match v {
        0 => Some(UnicodeEncoding::Unicode_1_0),
        1 => Some(UnicodeEncoding::Unicode_1_1),
        2 => Some(UnicodeEncoding::Iso10646),
        3 => Some(UnicodeEncoding::Unicode_2_0_Bmp),
        4 => Some(UnicodeEncoding::Unicode_2_0_Full),
        5 => Some(UnicodeEncoding::UnicodeVariationSequences),
        6 => Some(UnicodeEncoding::UnicodeFullRepertoire),
        _ => None,
    }
}

impl UnicodeEncoding {
    /// The value whose identifier is `v`; `None` when it is unknown.
    pub fn from_u16(v: u16) -> (r: Option<UnicodeEncoding>)
        ensures
            r == spec_unicode_encoding(v),
    {
        match v {
            0 => Some(UnicodeEncoding::Unicode_1_0),
            1 => Some(UnicodeEncoding::Unicode_1_1),
            2 => Some(UnicodeEncoding::Iso10646),
            3 => Some(UnicodeEncoding::Unicode_2_0_Bmp),
            4 => Some(UnicodeEncoding::Unicode_2_0_Full),
            5 => Some(UnicodeEncoding::UnicodeVariationSequences),
            6 => Some(UnicodeEncoding::UnicodeFullRepertoire),
            _ => None,
        }
    }
}

/// Encodings of the Windows platform.
#[allow(non_camel_case_types)]
#[derive(Debug, Clone, Copy, PartialEq, Eq, Hash, Structural)]
pub enum WindowsEncoding {
    Symbol,
    UnicodeBmp,
    ShiftJis,
    Prc,
    Big5,
    Wansung,
    Johab,
    UnicodeFullRepertoire,
}

/// The value of `WindowsEncoding` whose identifier is `v`, if any.
pub open spec fn spec_windows_encoding(v: u16) -> Option<WindowsEncoding> {
    match v {
        0 => Some(WindowsEncoding::Symbol),
        1 => Some(WindowsEncoding::UnicodeBmp),
        2 => Some(WindowsEncoding::ShiftJis),
        3 => Some(WindowsEncoding::Prc),
        4 => Some(WindowsEncoding::Big5),
        5 => Some(WindowsEncoding::Wansung),
        6 => Some(WindowsEncoding::Johab),
        10 => Some(WindowsEncoding::UnicodeFullRepertoire),
        _ => None,
    }
}

impl WindowsEncoding {
    /// The value whose identifier is `v`; `None` when it is unknown.
    pub fn from_u16(v: u16) -> (r: Option<WindowsEncoding>)
        ensures
            r == spec_windows_encoding(v),
    {
        match v {
            0 => Some(WindowsEncoding::Symbol),
            1 => Some(WindowsEncoding::UnicodeBmp),
            2 => Some(WindowsEncoding::ShiftJis),
            3 => Some(WindowsEncoding::Prc),
            4 => Some(WindowsEncoding::Big5),
            5 => Some(WindowsEncoding::Wansung),
            6 => Some(WindowsEncoding::Johab),
            10 => Some(WindowsEncoding::UnicodeFullRepertoire),
            _ => None,
        }
    }
}

/// Languages of the Windows platform.
#[allow(non_camel_case_types)]
#[derive(Debug, Clone, Copy, PartialEq, Eq, Hash, Structural)]
pub enum WindowsLanguage {
    Afrikaans,
    Albanian,
    Alsatian,
    Amharic,
    ArabicAlgeria,
    ArabicBahrain,
    ArabicEgypt,
    ArabicIraq,
    ArabicJordan,
    ArabicKuwait,
    ArabicLebanon,
    ArabicLibya,
    ArabicMorocco,
    ArabicOman,
    ArabicQatar,
    ArabicSaudi,
    ArabicSyria,
    ArabicTunisia,
    ArabicUAE,
    ArabicYemen,
    Armenian,
    Assamese,
    AzeriCyrillic,
    AzeriLatin,
    Bashkir,
    Basque,
    Belarusian,
    BengaliBangladesh,
    BengaliIndia,
    BosnianCyrillic,
    BosnianLatin,
    Breton,
    Bulgarian,
    Catalan,
    ChineseHongKongSAR,
    ChineseMacaoSAR,
    ChineseRepublicOfChina,
    ChineseSingapore,
    ChineseTaiwan,
    Corsican,
    Croatian,
    CroatianLatin,
    Czech,
    Danish,
    Dari,
    Divehi,
    DutchBelgium,
    DutchNetherlands,
    EnglishAustralia,
    EnglishBelize,
    EnglishCanada,
    EnglishCaribbean,
    EnglishIndia,
    EnglishIreland,
    EnglishJamaica,
    EnglishMalaysia,
    EnglishNewZealand,
    EnglishPhilippines,
    EnglishSingapore,
    EnglishSouthAfrica,
    EnglishTrinidadAndTobago,
    EnglishUnitedKingdom,
    EnglishUnitedStates,
    EnglishZimbabwe,
    Estonian,
    Faroese,
    Filipino,
    Finnish,
    FrenchBelgium,
    FrenchCanada,
    FrenchFrance,
    FrenchLuxembourg,
    FrenchMonaco,
    FrenchSwitzerland,
    Frisian,
    Galician,
    Georgian,
    GermanAustria,
    GermanGermany,
    GermanLiechtenstein,
    GermanLuxembourg,
    GermanSwitzerland,
    Greek,
    Greenlandic,
    Gujarati,
    Hausa,
    Hebrew,
    Hindi,
    Hungarian,
    Icelandic,
    Igbo,
    Indonesian,
    Inuktitut,
    InuktitutLatin,
    Irish,
    IsiXhosa,
    IsiZulu,
    ItalianItaly,
    ItalianSwitzerland,
    Japanese,
    Kannada,
    Kazakh,
    Khmer,
    Kiche,
    Kinyarwanda,
    Kiswahili,
    Konkani,
    Korean,
    Kyrgyz,
    Lao,
    Latvian,
    Lithuanian,
    LowerSorbian,
    Luxembourgish,
    Macedonian,
    MalayBrunei,
    MalayMalaysia,
    Malayalam,
    Maltese,
    Maori,
    Mapudungun,
    Marathi,
    Mohawk,
    MongolianCyrillic,
    MongolianTraditional,
    Nepali,
    NorwegianBokmal,
    NorwegianNynorsk,
    Occitan,
    Odia,
    Pashto,
    Polish,
    PortugueseBrazil,
    PortuguesePortugal,
    Punjabi,
    QuechuaBolivia,
    QuechuaEcuador,
    QuechuaPeru,
    Romanian,
    Romansh,
    Russian,
    SamiInariFinland,
    SamiLuleNorway,
    SamiLuleSweden,
    SamiNorthernFinland,
    SamiNorthernNorway,
    SamiNorthernSweden,
    SamiSkoltFinland,
    SamiSouthernNorway,
    SamiSouthernSweden,
    Sanskrit,
    SerbianCyrillicBosniaAndHerzegovina,
    SerbianCyrillicSerbia,
    SerbianLatinBosniAndHerzegovina,
    SerbianLatinSerbia,
    Sesotho,
    Setswana,
    Sinhala,
    Slovak,
    Slovenian,
    SpanishArgentina,
    SpanishBolivia,
    SpanishChile,
    SpanishColombia,
    SpanishCostaRica,
    SpanishDominicanRepublic,
    SpanishEcuador,
    SpanishElSalvador,
    SpanishGuatemala,
    SpanishHonduras,
    SpanishMexico,
    SpanishNicaragua,
    SpanishPanama,
    SpanishParaguay,
    SpanishPeru,
    SpanishPuertoRico,
    SpanishModernSpain,
    SpanishTraditionalSpain,
    SpanishUnitedStates,
    SpanishUruguay,
    SpanishVenezuela,
    SwedenFinland,
    SwedishSweden,
    Syriac,
    Tajik,
    Tamazight,
    Tamil,
    Tatar,
    Telugu,
    Thai,
    Tibetan,
    Turkish,
    Turkmen,
    Uighur,
    Ukrainian,
    Upper,
    Urdu,
    UzbekCyrillic,
    UzbekLatin,
    Vietnamese,
    Welsh,
    Wolof,
    Yakut,
    Yi,
    Yoruba,
}

/// The value of `WindowsLanguage` whose identifier is `v`, if any.
pub open spec fn spec_windows_language(v: u16) -> Option<WindowsLanguage> {
    match v {
        0x0436 => Some(WindowsLanguage::Afrikaans),
        0x041C => Some(WindowsLanguage::Albanian),
        0x0484 => Some(WindowsLanguage::Alsatian),
        0x045E => Some(WindowsLanguage::Amharic),
        0x1401 => Some(WindowsLanguage::ArabicAlgeria),
        0x3C01 => Some(WindowsLanguage::ArabicBahrain),
        0x0C01 => Some(WindowsLanguage::ArabicEgypt),
        0x0801 => Some(WindowsLanguage::ArabicIraq),
        0x2C01 => Some(WindowsLanguage::ArabicJordan),
        0x3401 => Some(WindowsLanguage::ArabicKuwait),
        0x3001 => Some(WindowsLanguage::ArabicLebanon),
        0x1001 => Some(WindowsLanguage::ArabicLibya),
        0x1801 => Some(WindowsLanguage::ArabicMorocco),
        0x2001 => Some(WindowsLanguage::ArabicOman),
        0x4001 => Some(WindowsLanguage::ArabicQatar),
        0x0401 => Some(WindowsLanguage::ArabicSaudi),
        0x2801 => Some(WindowsLanguage::ArabicSyria),
        0x1C01 => Some(WindowsLanguage::ArabicTunisia),
        0x3801 => Some(WindowsLanguage::ArabicUAE),
        0x2401 => Some(WindowsLanguage::ArabicYemen),
        0x042B => Some(WindowsLanguage::Armenian),
        0x044D => Some(WindowsLanguage::Assamese),
        0x082C => Some(WindowsLanguage::AzeriCyrillic),
        0x042C => Some(WindowsLanguage::AzeriLatin),
        0x046D => Some(WindowsLanguage::Bashkir),
        0x042D => Some(WindowsLanguage::Basque),
        0x0423 => Some(WindowsLanguage::Belarusian),
        0x0845 => Some(WindowsLanguage::BengaliBangladesh),
        0x0445 => Some(WindowsLanguage::BengaliIndia),
        0x201A => Some(WindowsLanguage::BosnianCyrillic),
        0x141A => Some(WindowsLanguage::BosnianLatin),
        0x047E => Some(WindowsLanguage::Breton),
        0x0402 => Some(WindowsLanguage::Bulgarian),
        0x0403 => Some(WindowsLanguage::Catalan),
        0x0C04 => Some(WindowsLanguage::ChineseHongKongSAR),
        0x1404 => Some(WindowsLanguage::ChineseMacaoSAR),
        0x0804 => Some(WindowsLanguage::ChineseRepublicOfChina),
        0x1004 => Some(WindowsLanguage::ChineseSingapore),
        0x0404 => Some(WindowsLanguage::ChineseTaiwan),
        0x0483 => Some(WindowsLanguage::Corsican),
        0x041A => Some(WindowsLanguage::Croatian),
        0x101A => Some(WindowsLanguage::CroatianLatin),
        0x0405 => Some(WindowsLanguage::Czech),
        0x0406 => Some(WindowsLanguage::Danish),
        0x048C => Some(WindowsLanguage::Dari),
        0x0465 => Some(WindowsLanguage::Divehi),
        0x0813 => Some(WindowsLanguage::DutchBelgium),
        0x0413 => Some(WindowsLanguage::DutchNetherlands),
        0x0C09 => Some(WindowsLanguage::EnglishAustralia),
        0x2809 => Some(WindowsLanguage::EnglishBelize),
        0x1009 => Some(WindowsLanguage::EnglishCanada),
        0x2409 => Some(WindowsLanguage::EnglishCaribbean),
        0x4009 => Some(WindowsLanguage::EnglishIndia),
        0x1809 => Some(WindowsLanguage::EnglishIreland),
        0x2009 => Some(WindowsLanguage::EnglishJamaica),
        0x4409 => Some(WindowsLanguage::EnglishMalaysia),
        0x1409 => Some(WindowsLanguage::EnglishNewZealand),
        0x3409 => Some(WindowsLanguage::EnglishPhilippines),
        0x4809 => Some(WindowsLanguage::EnglishSingapore),
        0x1C09 => Some(WindowsLanguage::EnglishSouthAfrica),
        0x2C09 => Some(WindowsLanguage::EnglishTrinidadAndTobago),
        0x0809 => Some(WindowsLanguage::EnglishUnitedKingdom),
        0x0409 => Some(WindowsLanguage::EnglishUnitedStates),
        0x3009 => Some(WindowsLanguage::EnglishZimbabwe),
        0x0425 => Some(WindowsLanguage::Estonian),
        0x0438 => Some(WindowsLanguage::Faroese),
        0x0464 => Some(WindowsLanguage::Filipino),
        0x040B => Some(WindowsLanguage::Finnish),
        0x080C => Some(WindowsLanguage::FrenchBelgium),
        0x0C0C => Some(WindowsLanguage::FrenchCanada),
        0x040C => Some(WindowsLanguage::FrenchFrance),
        0x140c => Some(WindowsLanguage::FrenchLuxembourg),
        0x180C => Some(WindowsLanguage::FrenchMonaco),
        0x100C => Some(WindowsLanguage::FrenchSwitzerland),
        0x0462 => Some(WindowsLanguage::Frisian),
        0x0456 => Some(WindowsLanguage::Galician),
        0x0437 => Some(WindowsLanguage::Georgian),
        0x0C07 => Some(WindowsLanguage::GermanAustria),
        0x0407 => Some(WindowsLanguage::GermanGermany),
        0x1407 => Some(WindowsLanguage::GermanLiechtenstein),
        0x1007 => Some(WindowsLanguage::GermanLuxembourg),
        0x0807 => Some(WindowsLanguage::GermanSwitzerland),
        0x0408 => Some(WindowsLanguage::Greek),
        0x046F => Some(WindowsLanguage::Greenlandic),
        0x0447 => Some(WindowsLanguage::Gujarati),
        0x0468 => Some(WindowsLanguage::Hausa),
        0x040D => Some(WindowsLanguage::Hebrew),
        0x0439 => Some(WindowsLanguage::Hindi),
        0x040E => Some(WindowsLanguage::Hungarian),
        0x040F => Some(WindowsLanguage::Icelandic),
        0x0470 => Some(WindowsLanguage::Igbo),
        0x0421 => Some(WindowsLanguage::Indonesian),
        0x045D => Some(WindowsLanguage::Inuktitut),
        0x085D => Some(WindowsLanguage::InuktitutLatin),
        0x083C => Some(WindowsLanguage::Irish),
        0x0434 => Some(WindowsLanguage::IsiXhosa),
        0x0435 => Some(WindowsLanguage::IsiZulu),
        0x0410 => Some(WindowsLanguage::ItalianItaly),
        0x0810 => Some(WindowsLanguage::ItalianSwitzerland),
        0x0411 => Some(WindowsLanguage::Japanese),
        0x044B => Some(WindowsLanguage::Kannada),
        0x043F => Some(WindowsLanguage::Kazakh),
        0x0453 => Some(WindowsLanguage::Khmer),
        0x0486 => Some(WindowsLanguage::Kiche),
        0x0487 => Some(WindowsLanguage::Kinyarwanda),
        0x0441 => Some(WindowsLanguage::Kiswahili),
        0x0457 => Some(WindowsLanguage::Konkani),
        0x0412 => Some(WindowsLanguage::Korean),
        0x0440 => Some(WindowsLanguage::Kyrgyz),
        0x0454 => Some(WindowsLanguage::Lao),
        0x0426 => Some(WindowsLanguage::Latvian),
        0x0427 => Some(WindowsLanguage::Lithuanian),
        0x082E => Some(WindowsLanguage::LowerSorbian),
        0x046E => Some(WindowsLanguage::Luxembourgish),
        0x042F => Some(WindowsLanguage::Macedonian),
        0x083E => Some(WindowsLanguage::MalayBrunei),
        0x043E => Some(WindowsLanguage::MalayMalaysia),
        0x044C => Some(WindowsLanguage::Malayalam),
        0x043A => Some(WindowsLanguage::Maltese),
        0x0481 => Some(WindowsLanguage::Maori),
        0x047A => Some(WindowsLanguage::Mapudungun),
        0x044E => Some(WindowsLanguage::Marathi),
        0x047C => Some(WindowsLanguage::Mohawk),
        0x0450 => Some(WindowsLanguage::MongolianCyrillic),
        0x0850 => Some(WindowsLanguage::MongolianTraditional),
        0x0461 => Some(WindowsLanguage::Nepali),
        0x0414 => Some(WindowsLanguage::NorwegianBokmal),
        0x0814 => Some(WindowsLanguage::NorwegianNynorsk),
        0x0482 => Some(WindowsLanguage::Occitan),
        0x0448 => Some(WindowsLanguage::Odia),
        0x0463 => Some(WindowsLanguage::Pashto),
        0x0415 => Some(WindowsLanguage::Polish),
        0x0416 => Some(WindowsLanguage::PortugueseBrazil),
        0x0816 => Some(WindowsLanguage::PortuguesePortugal),
        0x0446 => Some(WindowsLanguage::Punjabi),
        0x046B => Some(WindowsLanguage::QuechuaBolivia),
        0x086B => Some(WindowsLanguage::QuechuaEcuador),
        0x0C6B => Some(WindowsLanguage::QuechuaPeru),
        0x0418 => Some(WindowsLanguage::Romanian),
        0x0417 => Some(WindowsLanguage::Romansh),
        0x0419 => Some(WindowsLanguage::Russian),
        0x243B => Some(WindowsLanguage::SamiInariFinland),
        0x103B => Some(WindowsLanguage::SamiLuleNorway),
        0x143B => Some(WindowsLanguage::SamiLuleSweden),
        0x0C3B => Some(WindowsLanguage::SamiNorthernFinland),
        0x043B => Some(WindowsLanguage::SamiNorthernNorway),
        0x083B => Some(WindowsLanguage::SamiNorthernSweden),
        0x203B => Some(WindowsLanguage::SamiSkoltFinland),
        0x183B => Some(WindowsLanguage::SamiSouthernNorway),
        0x1C3B => Some(WindowsLanguage::SamiSouthernSweden),
        0x044F => Some(WindowsLanguage::Sanskrit),
        0x1C1A => Some(WindowsLanguage::SerbianCyrillicBosniaAndHerzegovina),
        0x0C1A => Some(WindowsLanguage::SerbianCyrillicSerbia),
        0x181A => Some(WindowsLanguage::SerbianLatinBosniAndHerzegovina),
        0x081A => Some(WindowsLanguage::SerbianLatinSerbia),
        0x046C => Some(WindowsLanguage::Sesotho),
        0x0432 => Some(WindowsLanguage::Setswana),
        0x045B => Some(WindowsLanguage::Sinhala),
        0x041B => Some(WindowsLanguage::Slovak),
        0x0424 => Some(WindowsLanguage::Slovenian),
        0x2C0A => Some(WindowsLanguage::SpanishArgentina),
        0x400A => Some(WindowsLanguage::SpanishBolivia),
        0x340A => Some(WindowsLanguage::SpanishChile),
        0x240A => Some(WindowsLanguage::SpanishColombia),
        0x140A => Some(WindowsLanguage::SpanishCostaRica),
        0x1C0A => Some(WindowsLanguage::SpanishDominicanRepublic),
        0x300A => Some(WindowsLanguage::SpanishEcuador),
        0x440A => Some(WindowsLanguage::SpanishElSalvador),
        0x100A => Some(WindowsLanguage::SpanishGuatemala),
        0x480A => Some(WindowsLanguage::SpanishHonduras),
        0x080A => Some(WindowsLanguage::SpanishMexico),
        0x4C0A => Some(WindowsLanguage::SpanishNicaragua),
        0x180A => Some(WindowsLanguage::SpanishPanama),
        0x3C0A => Some(WindowsLanguage::SpanishParaguay),
        0x280A => Some(WindowsLanguage::SpanishPeru),
        0x500A => Some(WindowsLanguage::SpanishPuertoRico),
        0x0C0A => Some(WindowsLanguage::SpanishModernSpain),
        0x040A => Some(WindowsLanguage::SpanishTraditionalSpain),
        0x540A => Some(WindowsLanguage::SpanishUnitedStates),
        0x380A => Some(WindowsLanguage::SpanishUruguay),
        0x200A => Some(WindowsLanguage::SpanishVenezuela),
        0x081D => Some(WindowsLanguage::SwedenFinland),
        0x041D => Some(WindowsLanguage::SwedishSweden),
        0x045A => Some(WindowsLanguage::Syriac),
        0x0428 => Some(WindowsLanguage::Tajik),
        0x085F => Some(WindowsLanguage::Tamazight),
        0x0449 => Some(WindowsLanguage::Tamil),
        0x0444 => Some(WindowsLanguage::Tatar),
        0x044A => Some(WindowsLanguage::Telugu),
        0x041E => Some(WindowsLanguage::Thai),
        0x0451 => Some(WindowsLanguage::Tibetan),
        0x041F => Some(WindowsLanguage::Turkish),
        0x0442 => Some(WindowsLanguage::Turkmen),
        0x0480 => Some(WindowsLanguage::Uighur),
        0x0422 => Some(WindowsLanguage::Ukrainian),
        0x042E => Some(WindowsLanguage::Upper),
        0x0420 => Some(WindowsLanguage::Urdu),
        0x0843 => Some(WindowsLanguage::UzbekCyrillic),
        0x0443 => Some(WindowsLanguage::UzbekLatin),
        0x042A => Some(WindowsLanguage::Vietnamese),
        0x0452 => Some(WindowsLanguage::Welsh),
        0x0488 => Some(WindowsLanguage::Wolof),
        0x0485 => Some(WindowsLanguage::Yakut),
        0x0478 => Some(WindowsLanguage::Yi),
        0x046A => Some(WindowsLanguage::Yoruba),
        _ => None,
    }
}

impl WindowsLanguage {
    /// The value whose identifier is `v`; `None` when it is unknown.
    pub fn from_u16(v: u16) -> (r: Option<WindowsLanguage>)
        ensures
            r == spec_windows_language(v),
    {
        match v {
            0x0436 => Some(WindowsLanguage::Afrikaans),
            0x041C => Some(WindowsLanguage::Albanian),
            0x0484 => Some(WindowsLanguage::Alsatian),
            0x045E => Some(WindowsLanguage::Amharic),
            0x1401 => Some(WindowsLanguage::ArabicAlgeria),
            0x3C01 => Some(WindowsLanguage::ArabicBahrain),
            0x0C01 => Some(WindowsLanguage::ArabicEgypt),
            0x0801 => Some(WindowsLanguage::ArabicIraq),
            0x2C01 => Some(WindowsLanguage::ArabicJordan),
            0x3401 => Some(WindowsLanguage::ArabicKuwait),
            0x3001 => Some(WindowsLanguage::ArabicLebanon),
            0x1001 => Some(WindowsLanguage::ArabicLibya),
            0x1801 => Some(WindowsLanguage::ArabicMorocco),
            0x2001 => Some(WindowsLanguage::ArabicOman),
            0x4001 => Some(WindowsLanguage::ArabicQatar),
            0x0401 => Some(WindowsLanguage::ArabicSaudi),
            0x2801 => Some(WindowsLanguage::ArabicSyria),
            0x1C01 => Some(WindowsLanguage::ArabicTunisia),
            0x3801 => Some(WindowsLanguage::ArabicUAE),
            0x2401 => Some(WindowsLanguage::ArabicYemen),
            0x042B => Some(WindowsLanguage::Armenian),
            0x044D => Some(WindowsLanguage::Assamese),
            0x082C => Some(WindowsLanguage::AzeriCyrillic),
            0x042C => Some(WindowsLanguage::AzeriLatin),
            0x046D => Some(WindowsLanguage::Bashkir),
            0x042D => Some(WindowsLanguage::Basque),
            0x0423 => Some(WindowsLanguage::Belarusian),
            0x0845 => Some(WindowsLanguage::BengaliBangladesh),
            0x0445 => Some(WindowsLanguage::BengaliIndia),
            0x201A => Some(WindowsLanguage::BosnianCyrillic),
            0x141A => Some(WindowsLanguage::BosnianLatin),
            0x047E => Some(WindowsLanguage::Breton),
            0x0402 => Some(WindowsLanguage::Bulgarian),
            0x0403 => Some(WindowsLanguage::Catalan),
            0x0C04 => Some(WindowsLanguage::ChineseHongKongSAR),
            0x1404 => Some(WindowsLanguage::ChineseMacaoSAR),
            0x0804 => Some(WindowsLanguage::ChineseRepublicOfChina),
            0x1004 => Some(WindowsLanguage::ChineseSingapore),
            0x0404 => Some(WindowsLanguage::ChineseTaiwan),
            0x0483 => Some(WindowsLanguage::Corsican),
            0x041A => Some(WindowsLanguage::Croatian),
            0x101A => Some(WindowsLanguage::CroatianLatin),
            0x0405 => Some(WindowsLanguage::Czech),
            0x0406 => Some(WindowsLanguage::Danish),
            0x048C => Some(WindowsLanguage::Dari),
            0x0465 => Some(WindowsLanguage::Divehi),
            0x0813 => Some(WindowsLanguage::DutchBelgium),
            0x0413 => Some(WindowsLanguage::DutchNetherlands),
            0x0C09 => Some(WindowsLanguage::EnglishAustralia),
            0x2809 => Some(WindowsLanguage::EnglishBelize),
            0x1009 => Some(WindowsLanguage::EnglishCanada),
            0x2409 => Some(WindowsLanguage::EnglishCaribbean),
            0x4009 => Some(WindowsLanguage::EnglishIndia),
            0x1809 => Some(WindowsLanguage::EnglishIreland),
            0x2009 => Some(WindowsLanguage::EnglishJamaica),
            0x4409 => Some(WindowsLanguage::EnglishMalaysia),
            0x1409 => Some(WindowsLanguage::EnglishNewZealand),
            0x3409 => Some(WindowsLanguage::EnglishPhilippines),
            0x4809 => Some(WindowsLanguage::EnglishSingapore),
            0x1C09 => Some(WindowsLanguage::EnglishSouthAfrica),
            0x2C09 => Some(WindowsLanguage::EnglishTrinidadAndTobago),
            0x0809 => Some(WindowsLanguage::EnglishUnitedKingdom),
            0x0409 => Some(WindowsLanguage::EnglishUnitedStates),
            0x3009 => Some(WindowsLanguage::EnglishZimbabwe),
            0x0425 => Some(WindowsLanguage::Estonian),
            0x0438 => Some(WindowsLanguage::Faroese),
            0x0464 => Some(WindowsLanguage::Filipino),
            0x040B => Some(WindowsLanguage::Finnish),
            0x080C => Some(WindowsLanguage::FrenchBelgium),
            0x0C0C => Some(WindowsLanguage::FrenchCanada),
            0x040C => Some(WindowsLanguage::FrenchFrance),
            0x140c => Some(WindowsLanguage::FrenchLuxembourg),
            0x180C => Some(WindowsLanguage::FrenchMonaco),
            0x100C => Some(WindowsLanguage::FrenchSwitzerland),
            0x0462 => Some(WindowsLanguage::Frisian),
            0x0456 => Some(WindowsLanguage::Galician),
            0x0437 => Some(WindowsLanguage::Georgian),
            0x0C07 => Some(WindowsLanguage::GermanAustria),
            0x0407 => Some(WindowsLanguage::GermanGermany),
            0x1407 => Some(WindowsLanguage::GermanLiechtenstein),
            0x1007 => Some(WindowsLanguage::GermanLuxembourg),
            0x0807 => Some(WindowsLanguage::GermanSwitzerland),
            0x0408 => Some(WindowsLanguage::Greek),
            0x046F => Some(WindowsLanguage::Greenlandic),
            0x0447 => Some(WindowsLanguage::Gujarati),
            0x0468 => Some(WindowsLanguage::Hausa),
            0x040D => Some(WindowsLanguage::Hebrew),
            0x0439 => Some(WindowsLanguage::Hindi),
            0x040E => Some(WindowsLanguage::Hungarian),
            0x040F => Some(WindowsLanguage::Icelandic),
            0x0470 => Some(WindowsLanguage::Igbo),
            0x0421 => Some(WindowsLanguage::Indonesian),
            0x045D => Some(WindowsLanguage::Inuktitut),
            0x085D => Some(WindowsLanguage::InuktitutLatin),
            0x083C => Some(WindowsLanguage::Irish),
            0x0434 => Some(WindowsLanguage::IsiXhosa),
            0x0435 => Some(WindowsLanguage::IsiZulu),
            0x0410 => Some(WindowsLanguage::ItalianItaly),
            0x0810 => Some(WindowsLanguage::ItalianSwitzerland),
            0x0411 => Some(WindowsLanguage::Japanese),
            0x044B => Some(WindowsLanguage::Kannada),
            0x043F => Some(WindowsLanguage::Kazakh),
            0x0453 => Some(WindowsLanguage::Khmer),
            0x0486 => Some(WindowsLanguage::Kiche),
            0x0487 => Some(WindowsLanguage::Kinyarwanda),
            0x0441 => Some(WindowsLanguage::Kiswahili),
            0x0457 => Some(WindowsLanguage::Konkani),
            0x0412 => Some(WindowsLanguage::Korean),
            0x0440 => Some(WindowsLanguage::Kyrgyz),
            0x0454 => Some(WindowsLanguage::Lao),
            0x0426 => Some(WindowsLanguage::Latvian),
            0x0427 => Some(WindowsLanguage::Lithuanian),
            0x082E => Some(WindowsLanguage::LowerSorbian),
            0x046E => Some(WindowsLanguage::Luxembourgish),
            0x042F => Some(WindowsLanguage::Macedonian),
            0x083E => Some(WindowsLanguage::MalayBrunei),
            0x043E => Some(WindowsLanguage::MalayMalaysia),
            0x044C => Some(WindowsLanguage::Malayalam),
            0x043A => Some(WindowsLanguage::Maltese),
            0x0481 => Some(WindowsLanguage::Maori),
            0x047A => Some(WindowsLanguage::Mapudungun),
            0x044E => Some(WindowsLanguage::Marathi),
            0x047C => Some(WindowsLanguage::Mohawk),
            0x0450 => Some(WindowsLanguage::MongolianCyrillic),
            0x0850 => Some(WindowsLanguage::MongolianTraditional),
            0x0461 => Some(WindowsLanguage::Nepali),
            0x0414 => Some(WindowsLanguage::NorwegianBokmal),
            0x0814 => Some(WindowsLanguage::NorwegianNynorsk),
            0x0482 => Some(WindowsLanguage::Occitan),
            0x0448 => Some(WindowsLanguage::Odia),
            0x0463 => Some(WindowsLanguage::Pashto),
            0x0415 => Some(WindowsLanguage::Polish),
            0x0416 => Some(WindowsLanguage::PortugueseBrazil),
            0x0816 => Some(WindowsLanguage::PortuguesePortugal),
            0x0446 => Some(WindowsLanguage::Punjabi),
            0x046B => Some(WindowsLanguage::QuechuaBolivia),
            0x086B => Some(WindowsLanguage::QuechuaEcuador),
            0x0C6B => Some(WindowsLanguage::QuechuaPeru),
            0x0418 => Some(WindowsLanguage::Romanian),
            0x0417 => Some(WindowsLanguage::Romansh),
            0x0419 => Some(WindowsLanguage::Russian),
            0x243B => Some(WindowsLanguage::SamiInariFinland),
            0x103B => Some(WindowsLanguage::SamiLuleNorway),
            0x143B => Some(WindowsLanguage::SamiLuleSweden),
            0x0C3B => Some(WindowsLanguage::SamiNorthernFinland),
            0x043B => Some(WindowsLanguage::SamiNorthernNorway),
            0x083B => Some(WindowsLanguage::SamiNorthernSweden),
            0x203B => Some(WindowsLanguage::SamiSkoltFinland),
            0x183B => Some(WindowsLanguage::SamiSouthernNorway),
            0x1C3B => Some(WindowsLanguage::SamiSouthernSweden),
            0x044F => Some(WindowsLanguage::Sanskrit),
            0x1C1A => Some(WindowsLanguage::SerbianCyrillicBosniaAndHerzegovina),
            0x0C1A => Some(WindowsLanguage::SerbianCyrillicSerbia),
            0x181A => Some(WindowsLanguage::SerbianLatinBosniAndHerzegovina),
            0x081A => Some(WindowsLanguage::SerbianLatinSerbia),
            0x046C => Some(WindowsLanguage::Sesotho),
            0x0432 => Some(WindowsLanguage::Setswana),
            0x045B => Some(WindowsLanguage::Sinhala),
            0x041B => Some(WindowsLanguage::Slovak),
            0x0424 => Some(WindowsLanguage::Slovenian),
            0x2C0A => Some(WindowsLanguage::SpanishArgentina),
            0x400A => Some(WindowsLanguage::SpanishBolivia),
            0x340A => Some(WindowsLanguage::SpanishChile),
            0x240A => Some(WindowsLanguage::SpanishColombia),
            0x140A => Some(WindowsLanguage::SpanishCostaRica),
            0x1C0A => Some(WindowsLanguage::SpanishDominicanRepublic),
            0x300A => Some(WindowsLanguage::SpanishEcuador),
            0x440A => Some(WindowsLanguage::SpanishElSalvador),
            0x100A => Some(WindowsLanguage::SpanishGuatemala),
            0x480A => Some(WindowsLanguage::SpanishHonduras),
            0x080A => Some(WindowsLanguage::SpanishMexico),
            0x4C0A => Some(WindowsLanguage::SpanishNicaragua),
            0x180A => Some(WindowsLanguage::SpanishPanama),
            0x3C0A => Some(WindowsLanguage::SpanishParaguay),
            0x280A => Some(WindowsLanguage::SpanishPeru),
            0x500A => Some(WindowsLanguage::SpanishPuertoRico),
            0x0C0A => Some(WindowsLanguage::SpanishModernSpain),
            0x040A => Some(WindowsLanguage::SpanishTraditionalSpain),
            0x540A => Some(WindowsLanguage::SpanishUnitedStates),
            0x380A => Some(WindowsLanguage::SpanishUruguay),
            0x200A => Some(WindowsLanguage::SpanishVenezuela),
            0x081D => Some(WindowsLanguage::SwedenFinland),
            0x041D => Some(WindowsLanguage::SwedishSweden),
            0x045A => Some(WindowsLanguage::Syriac),
            0x0428 => Some(WindowsLanguage::Tajik),
            0x085F => Some(WindowsLanguage::Tamazight),
            0x0449 => Some(WindowsLanguage::Tamil),
            0x0444 => Some(WindowsLanguage::Tatar),
            0x044A => Some(WindowsLanguage::Telugu),
            0x041E => Some(WindowsLanguage::Thai),
            0x0451 => Some(WindowsLanguage::Tibetan),
            0x041F => Some(WindowsLanguage::Turkish),
            0x0442 => Some(WindowsLanguage::Turkmen),
            0x0480 => Some(WindowsLanguage::Uighur),
            0x0422 => Some(WindowsLanguage::Ukrainian),
            0x042E => Some(WindowsLanguage::Upper),
            0x0420 => Some(WindowsLanguage::Urdu),
            0x0843 => Some(WindowsLanguage::UzbekCyrillic),
            0x0443 => Some(WindowsLanguage::UzbekLatin),
            0x042A => Some(WindowsLanguage::Vietnamese),
            0x0452 => Some(WindowsLanguage::Welsh),
            0x0488 => Some(WindowsLanguage::Wolof),
            0x0485 => Some(WindowsLanguage::Yakut),
            0x0478 => Some(WindowsLanguage::Yi),
            0x046A => Some(WindowsLanguage::Yoruba),
            _ => None,
        }
    }
}

/// Encodings of the Macintosh platform.
#[allow(non_camel_case_types)]
#[derive(Debug, Clone, Copy, PartialEq, Eq, Hash, Structural)]
pub enum MacintoshEncoding {
    Roman,
    Japanese,
    Chinese,
    Korean,
    Arabic,
    Hebrew,
    Greek,
    Russian,
    RSymbol,
    Devanagari,
    Gurmukhi,
    Gujarati,
    Oriya,
    Bengali,
    Tamil,
    Telugu,
    Kannada,
}

/// The value of `MacintoshEncoding` whose identifier is `v`, if any.
pub open spec fn spec_macintosh_encoding(v: u16) -> Option<MacintoshEncoding> {
    match v {
        0 => Some(MacintoshEncoding::Roman),
        1 => Some(MacintoshEncoding::Japanese),
        2 => Some(MacintoshEncoding::Chinese),
        3 => Some(MacintoshEncoding::Korean),
        4 => Some(MacintoshEncoding::Arabic),
        5 => Some(MacintoshEncoding::Hebrew),
        6 => Some(MacintoshEncoding::Greek),
        7 => Some(MacintoshEncoding::Russian),
        8 => Some(MacintoshEncoding::RSymbol),
        9 => Some(MacintoshEncoding::Devanagari),
        10 => Some(MacintoshEncoding::Gurmukhi),
        11 => Some(MacintoshEncoding::Gujarati),
        12 => Some(MacintoshEncoding::Oriya),
        13 => Some(MacintoshEncoding::Bengali),
        14 => Some(MacintoshEncoding::Tamil),
        15 => Some(MacintoshEncoding::Telugu),
        16 => Some(MacintoshEncoding::Kannada),
        _ => None,
    }
}

impl MacintoshEncoding {
    /// The value whose identifier is `v`; `None` when it is unknown.
    pub fn from_u16(v: u16) -> (r: Option<MacintoshEncoding>)
        ensures
            r == spec_macintosh_encoding(v),
    {
        match v {
            0 => Some(MacintoshEncoding::Roman),
            1 => Some(MacintoshEncoding::Japanese),
            2 => Some(MacintoshEncoding::Chinese),
            3 => Some(MacintoshEncoding::Korean),
            4 => Some(MacintoshEncoding::Arabic),
            5 => Some(MacintoshEncoding::Hebrew),
            6 => Some(MacintoshEncoding::Greek),
            7 => Some(MacintoshEncoding::Russian),
            8 => Some(MacintoshEncoding::RSymbol),
            9 => Some(MacintoshEncoding::Devanagari),
            10 => Some(MacintoshEncoding::Gurmukhi),
            11 => Some(MacintoshEncoding::Gujarati),
            12 => Some(MacintoshEncoding::Oriya),
            13 => Some(MacintoshEncoding::Bengali),
            14 => Some(MacintoshEncoding::Tamil),
            15 => Some(MacintoshEncoding::Telugu),
            16 => Some(MacintoshEncoding::Kannada),
            _ => None,
        }
    }
}

/// Languages of the Macintosh platform.
#[allow(non_camel_case_types)]
#[derive(Debug, Clone, Copy, PartialEq, Eq, Hash, Structural)]
pub enum MacintoshLanguage {
    English,
    French,
    German,
    Italian,
    Dutch,
    Swedish,
    Spanish,
    Danish,
    Portuguese,
    Norwegian,
    Hebrew,
    Japanese,
    Arabic,
    Finnish,
    Greek,
    Icelandic,
    Maltese,
    Turkish,
    Croatian,
    ChineseTraditional,
    Urdu,
    Hindi,
    Thai,
    Korean,
    Lithuanian,
    Polish,
    Hungarian,
    Estonian,
    Latvian,
    Sami,
    Faroese,
    Farsi,
    Russian,
    ChineseSimplified,
    Flemish,
    Irish,
    Albanian,
    Romanian,
    Czech,
    Slovak,
    Slovenian,
    Yiddish,
    Serbian,
    Macedonian,
    Bulgarian,
    Ukrainian,
    Byelorussian,
    Uzbek,
    Kazakh,
    AzerbaijaniCyrillic,
    AzerbaijaniArabic,
    Armenian,
    Georgian,
    Moldavian,
    Kirghiz,
    Tajiki,
    Turkmen,
    Mongolian,
    MongolianCyrillic,
    Pashto,
    Kurdish,
    Kashmiri,
    Sindhi,
    Tibetan,
    Nepali,
    Sanskrit,
    Marathi,
    Bengali,
    Assamese,
    Gujarati,
    Punjabi,
    Oriya,
    Malayalam,
    Kannada,
    Tamil,
    Telugu,
    Sinhalese,
    Burmese,
    Khmer,
    Lao,
    Vietnamese,
    Indonesian,
    Tagalog,
    MalayRoman,
    MalayArabic,
    Amharic,
    Tigrinya,
    Galla,
    Somali,
    Swahili,
    Kinyarwanda,
    Rundi,
    Nyanja,
    Malagasy,
    Esperanto,
    Welsh,
    Basque,
    Catalan,
    Latin,
    Quechua,
    Guarani,
    Aymara,
    Tatar,
    Uighur,
    Dzongkha,
    Javanese,
    Sundanese,
    Galician,
    Afrikaans,
    Breton,
    Inuktitut,
    Scottish,
    Manx,
    IrishGaelicWithDotAbove,
    Tongan,
    GreekPolytonic,
    Greenlandic,
    AzerbaijaniRoman,
}

/// The value of `MacintoshLanguage` whose identifier is `v`, if any.
pub open spec fn spec_macintosh_language(v: u16) -> Option<MacintoshLanguage> {
    match v {
        0 => Some(MacintoshLanguage::English),
        1 => Some(MacintoshLanguage::French),
        2 => Some(MacintoshLanguage::German),
        3 => Some(MacintoshLanguage::Italian),
        4 => Some(MacintoshLanguage::Dutch),
        5 => Some(MacintoshLanguage::Swedish),
        6 => Some(MacintoshLanguage::Spanish),
        7 => Some(MacintoshLanguage::Danish),
        8 => Some(MacintoshLanguage::Portuguese),
        9 => Some(MacintoshLanguage::Norwegian),
        10 => Some(MacintoshLanguage::Hebrew),
        11 => Some(MacintoshLanguage::Japanese),
        12 => Some(MacintoshLanguage::Arabic),
        13 => Some(MacintoshLanguage::Finnish),
        14 => Some(MacintoshLanguage::Greek),
        15 => Some(MacintoshLanguage::Icelandic),
        16 => Some(MacintoshLanguage::Maltese),
        17 => Some(MacintoshLanguage::Turkish),
        18 => Some(MacintoshLanguage::Croatian),
        19 => Some(MacintoshLanguage::ChineseTraditional),
        20 => Some(MacintoshLanguage::Urdu),
        21 => Some(MacintoshLanguage::Hindi),
        22 => Some(MacintoshLanguage::Thai),
        23 => Some(MacintoshLanguage::Korean),
        24 => Some(MacintoshLanguage::Lithuanian),
        25 => Some(MacintoshLanguage::Polish),
        26 => Some(MacintoshLanguage::Hungarian),
        27 => Some(MacintoshLanguage::Estonian),
        28 => Some(MacintoshLanguage::Latvian),
        29 => Some(MacintoshLanguage::Sami),
        30 => Some(MacintoshLanguage::Faroese),
        31 => Some(MacintoshLanguage::Farsi),
        32 => Some(MacintoshLanguage::Russian),
        33 => Some(MacintoshLanguage::ChineseSimplified),
        34 => Some(MacintoshLanguage::Flemish),
        35 => Some(MacintoshLanguage::Irish),
        36 => Some(MacintoshLanguage::Albanian),
        37 => Some(MacintoshLanguage::Romanian),
        38 => Some(MacintoshLanguage::Czech),
        39 => Some(MacintoshLanguage::Slovak),
        40 => Some(MacintoshLanguage::Slovenian),
        41 => Some(MacintoshLanguage::Yiddish),
        42 => Some(MacintoshLanguage::Serbian),
        43 => Some(MacintoshLanguage::Macedonian),
        44 => Some(MacintoshLanguage::Bulgarian),
        45 => Some(MacintoshLanguage::Ukrainian),
        46 => Some(MacintoshLanguage::Byelorussian),
        47 => Some(MacintoshLanguage::Uzbek),
        48 => Some(MacintoshLanguage::Kazakh),
        49 => Some(MacintoshLanguage::AzerbaijaniCyrillic),
        50 => Some(MacintoshLanguage::AzerbaijaniArabic),
        51 => Some(MacintoshLanguage::Armenian),
        52 => Some(MacintoshLanguage::Georgian),
        53 => Some(MacintoshLanguage::Moldavian),
        54 => Some(MacintoshLanguage::Kirghiz),
        55 => Some(MacintoshLanguage::Tajiki),
        56 => Some(MacintoshLanguage::Turkmen),
        57 => Some(MacintoshLanguage::Mongolian),
        58 => Some(MacintoshLanguage::MongolianCyrillic),
        59 => Some(MacintoshLanguage::Pashto),
        60 => Some(MacintoshLanguage::Kurdish),
        61 => Some(MacintoshLanguage::Kashmiri),
        62 => Some(MacintoshLanguage::Sindhi),
        63 => Some(MacintoshLanguage::Tibetan),
        64 => Some(MacintoshLanguage::Nepali),
        65 => Some(MacintoshLanguage::Sanskrit),
        66 => Some(MacintoshLanguage::Marathi),
        67 => Some(MacintoshLanguage::Bengali),
        68 => Some(MacintoshLanguage::Assamese),
        69 => Some(MacintoshLanguage::Gujarati),
        70 => Some(MacintoshLanguage::Punjabi),
        71 => Some(MacintoshLanguage::Oriya),
        72 => Some(MacintoshLanguage::Malayalam),
        73 => Some(MacintoshLanguage::Kannada),
        74 => Some(MacintoshLanguage::Tamil),
        75 => Some(MacintoshLanguage::Telugu),
        76 => Some(MacintoshLanguage::Sinhalese),
        77 => Some(MacintoshLanguage::Burmese),
        78 => Some(MacintoshLanguage::Khmer),
        79 => Some(MacintoshLanguage::Lao),
        80 => Some(MacintoshLanguage::Vietnamese),
        81 => Some(MacintoshLanguage::Indonesian),
        82 => Some(MacintoshLanguage::Tagalog),
        83 => Some(MacintoshLanguage::MalayRoman),
        84 => Some(MacintoshLanguage::MalayArabic),
        85 => Some(MacintoshLanguage::Amharic),
        86 => Some(MacintoshLanguage::Tigrinya),
        87 => Some(MacintoshLanguage::Galla),
        88 => Some(MacintoshLanguage::Somali),
        89 => Some(MacintoshLanguage::Swahili),
        90 => Some(MacintoshLanguage::Kinyarwanda),
        91 => Some(MacintoshLanguage::Rundi),
        92 => Some(MacintoshLanguage::Nyanja),
        93 => Some(MacintoshLanguage::Malagasy),
        94 => Some(MacintoshLanguage::Esperanto),
        128 => Some(MacintoshLanguage::Welsh),
        129 => Some(MacintoshLanguage::Basque),
        130 => Some(MacintoshLanguage::Catalan),
        131 => Some(MacintoshLanguage::Latin),
        132 => Some(MacintoshLanguage::Quechua),
        133 => Some(MacintoshLanguage::Guarani),
        134 => Some(MacintoshLanguage::Aymara),
        135 => Some(MacintoshLanguage::Tatar),
        136 => Some(MacintoshLanguage::Uighur),
        137 => Some(MacintoshLanguage::Dzongkha),
        138 => Some(MacintoshLanguage::Javanese),
        139 => Some(MacintoshLanguage::Sundanese),
        140 => Some(MacintoshLanguage::Galician),
        141 => Some(MacintoshLanguage::Afrikaans),
        142 => Some(MacintoshLanguage::Breton),
        143 => Some(MacintoshLanguage::Inuktitut),
        144 => Some(MacintoshLanguage::Scottish),
        145 => Some(MacintoshLanguage::Manx),
        146 => Some(MacintoshLanguage::IrishGaelicWithDotAbove),
        147 => Some(MacintoshLanguage::Tongan),
        148 => Some(MacintoshLanguage::GreekPolytonic),
        149 => Some(MacintoshLanguage::Greenlandic),
        150 => Some(MacintoshLanguage::AzerbaijaniRoman),
        _ => None,
    }
}

impl MacintoshLanguage {
    /// The value whose identifier is `v`; `None` when it is unknown.
    pub fn from_u16(v: u16) -> (r: Option<MacintoshLanguage>)
        ensures
            r == spec_macintosh_language(v),
    {
        match v {
            0 => Some(MacintoshLanguage::English),
            1 => Some(MacintoshLanguage::French),
            2 => Some(MacintoshLanguage::German),
            3 => Some(MacintoshLanguage::Italian),
            4 => Some(MacintoshLanguage::Dutch),
            5 => Some(MacintoshLanguage::Swedish),
            6 => Some(MacintoshLanguage::Spanish),
            7 => Some(MacintoshLanguage::Danish),
            8 => Some(MacintoshLanguage::Portuguese),
            9 => Some(MacintoshLanguage::Norwegian),
            10 => Some(MacintoshLanguage::Hebrew),
            11 => Some(MacintoshLanguage::Japanese),
            12 => Some(MacintoshLanguage::Arabic),
            13 => Some(MacintoshLanguage::Finnish),
            14 => Some(MacintoshLanguage::Greek),
            15 => Some(MacintoshLanguage::Icelandic),
            16 => Some(MacintoshLanguage::Maltese),
            17 => Some(MacintoshLanguage::Turkish),
            18 => Some(MacintoshLanguage::Croatian),
            19 => Some(MacintoshLanguage::ChineseTraditional),
            20 => Some(MacintoshLanguage::Urdu),
            21 => Some(MacintoshLanguage::Hindi),
            22 => Some(MacintoshLanguage::Thai),
            23 => Some(MacintoshLanguage::Korean),
            24 => Some(MacintoshLanguage::Lithuanian),
            25 => Some(MacintoshLanguage::Polish),
            26 => Some(MacintoshLanguage::Hungarian),
            27 => Some(MacintoshLanguage::Estonian),
            28 => Some(MacintoshLanguage::Latvian),
            29 => Some(MacintoshLanguage::Sami),
            30 => Some(MacintoshLanguage::Faroese),
            31 => Some(MacintoshLanguage::Farsi),
            32 => Some(MacintoshLanguage::Russian),
            33 => Some(MacintoshLanguage::ChineseSimplified),
            34 => Some(MacintoshLanguage::Flemish),
            35 => Some(MacintoshLanguage::Irish),
            36 => Some(MacintoshLanguage::Albanian),
            37 => Some(MacintoshLanguage::Romanian),
            38 => Some(MacintoshLanguage::Czech),
            39 => Some(MacintoshLanguage::Slovak),
            40 => Some(MacintoshLanguage::Slovenian),
            41 => Some(MacintoshLanguage::Yiddish),
            42 => Some(MacintoshLanguage::Serbian),
            43 => Some(MacintoshLanguage::Macedonian),
            44 => Some(MacintoshLanguage::Bulgarian),
            45 => Some(MacintoshLanguage::Ukrainian),
            46 => Some(MacintoshLanguage::Byelorussian),
            47 => Some(MacintoshLanguage::Uzbek),
            48 => Some(MacintoshLanguage::Kazakh),
            49 => Some(MacintoshLanguage::AzerbaijaniCyrillic),
            50 => Some(MacintoshLanguage::AzerbaijaniArabic),
            51 => Some(MacintoshLanguage::Armenian),
            52 => Some(MacintoshLanguage::Georgian),
            53 => Some(MacintoshLanguage::Moldavian),
            54 => Some(MacintoshLanguage::Kirghiz),
            55 => Some(MacintoshLanguage::Tajiki),
            56 => Some(MacintoshLanguage::Turkmen),
            57 => Some(MacintoshLanguage::Mongolian),
            58 => Some(MacintoshLanguage::MongolianCyrillic),
            59 => Some(MacintoshLanguage::Pashto),
            60 => Some(MacintoshLanguage::Kurdish),
            61 => Some(MacintoshLanguage::Kashmiri),
            62 => Some(MacintoshLanguage::Sindhi),
            63 => Some(MacintoshLanguage::Tibetan),
            64 => Some(MacintoshLanguage::Nepali),
            65 => Some(MacintoshLanguage::Sanskrit),
            66 => Some(MacintoshLanguage::Marathi),
            67 => Some(MacintoshLanguage::Bengali),
            68 => Some(MacintoshLanguage::Assamese),
            69 => Some(MacintoshLanguage::Gujarati),
            70 => Some(MacintoshLanguage::Punjabi),
            71 => Some(MacintoshLanguage::Oriya),
            72 => Some(MacintoshLanguage::Malayalam),
            73 => Some(MacintoshLanguage::Kannada),
            74 => Some(MacintoshLanguage::Tamil),
            75 => Some(MacintoshLanguage::Telugu),
            76 => Some(MacintoshLanguage::Sinhalese),
            77 => Some(MacintoshLanguage::Burmese),
            78 => Some(MacintoshLanguage::Khmer),
            79 => Some(MacintoshLanguage::Lao),
            80 => Some(MacintoshLanguage::Vietnamese),
            81 => Some(MacintoshLanguage::Indonesian),
            82 => Some(MacintoshLanguage::Tagalog),
            83 => Some(MacintoshLanguage::MalayRoman),
            84 => Some(MacintoshLanguage::MalayArabic),
            85 => Some(MacintoshLanguage::Amharic),
            86 => Some(MacintoshLanguage::Tigrinya),
            87 => Some(MacintoshLanguage::Galla),
            88 => Some(MacintoshLanguage::Somali),
            89 => Some(MacintoshLanguage::Swahili),
            90 => Some(MacintoshLanguage::Kinyarwanda),
            91 => Some(MacintoshLanguage::Rundi),
            92 => Some(MacintoshLanguage::Nyanja),
            93 => Some(MacintoshLanguage::Malagasy),
            94 => Some(MacintoshLanguage::Esperanto),
            128 => Some(MacintoshLanguage::Welsh),
            129 => Some(MacintoshLanguage::Basque),
            130 => Some(MacintoshLanguage::Catalan),
            131 => Some(MacintoshLanguage::Latin),
            132 => Some(MacintoshLanguage::Quechua),
            133 => Some(MacintoshLanguage::Guarani),
            134 => Some(MacintoshLanguage::Aymara),
            135 => Some(MacintoshLanguage::Tatar),
            136 => Some(MacintoshLanguage::Uighur),
            137 => Some(MacintoshLanguage::Dzongkha),
            138 => Some(MacintoshLanguage::Javanese),
            139 => Some(MacintoshLanguage::Sundanese),
            140 => Some(MacintoshLanguage::Galician),
            141 => Some(MacintoshLanguage::Afrikaans),
            142 => Some(MacintoshLanguage::Breton),
            143 => Some(MacintoshLanguage::Inuktitut),
            144 => Some(MacintoshLanguage::Scottish),
            145 => Some(MacintoshLanguage::Manx),
            146 => Some(MacintoshLanguage::IrishGaelicWithDotAbove),
            147 => Some(MacintoshLanguage::Tongan),
            148 => Some(MacintoshLanguage::GreekPolytonic),
            149 => Some(MacintoshLanguage::Greenlandic),
            150 => Some(MacintoshLanguage::AzerbaijaniRoman),
            _ => None,
        }
    }
}

/// Encodings of the ISO platform (deprecated).
#[allow(non_camel_case_types)]
#[derive(Debug, Clone, Copy, PartialEq, Eq, Hash, Structural)]
pub enum IsoEncoding {
    Ascii,
    Iso10646,
    Iso8859_1,
}

/// The value of `IsoEncoding` whose identifier is `v`, if any.
pub open spec fn spec_iso_encoding(v: u16) -> Option<IsoEncoding> {
    match v {
        0 => Some(IsoEncoding::Ascii),
        1 => Some(IsoEncoding::Iso10646),
        2 => Some(IsoEncoding::Iso8859_1),
        _ => None,
    }
}

impl IsoEncoding {
    /// The value whose identifier is `v`; `None` when it is unknown.
    pub fn from_u16(v: u16) -> (r: Option<IsoEncoding>)
        ensures
            r == spec_iso_encoding(v),
    {
        match v {
            0 => Some(IsoEncoding::Ascii),
            1 => Some(IsoEncoding::Iso10646),
            2 => Some(IsoEncoding::Iso8859_1),
            _ => None,
        }
    }
}

/// What a name record names.
#[derive(Debug, Clone, Copy, PartialEq, Eq, Hash, Structural)]
pub enum NameId {
    Copyright,
    FontFamilyName,
    FontSubfamilyName,
    UniqueFontIdentifier,
    FullFontName,
    VersionString,
    PostScript,
    Trademark,
    ManufacturerName,
    Designer,
    Description,
    URLVendor,
    URLDesigner,
    LicenseDescription,
    LicenseInfoURL,
    TypographicFamilyName,
    TypographicSubfamilyName,
    CompatibleFull,
    SampleText,
    PostScriptCIDFindfontName,
    WWSFamilyName,
    WWSSubfamilyName,
    LightBackgroundPalette,
    DarkBackgroundPalette,
    VariationsPostScriptNamePrefix,
    /// A name of the font's own, with identifier 256 to 32767.
    FontSpecificName(u16),
}

/// The name id whose identifier is `v`, if any.
pub open spec fn spec_name_id(v: u16) -> Option<NameId> {
    match v {
        0 => Some(NameId::Copyright),
        1 => Some(NameId::FontFamilyName),
        2 => Some(NameId::FontSubfamilyName),
        3 => Some(NameId::UniqueFontIdentifier),
        4 => Some(NameId::FullFontName),
        5 => Some(NameId::VersionString),
        6 => Some(NameId::PostScript),
        7 => Some(NameId::Trademark),
        8 => Some(NameId::ManufacturerName),
        9 => Some(NameId::Designer),
        10 => Some(NameId::Description),
        11 => Some(NameId::URLVendor),
        12 => Some(NameId::URLDesigner),
        13 => Some(NameId::LicenseDescription),
        14 => Some(NameId::LicenseInfoURL),
        16 => Some(NameId::TypographicFamilyName),
        17 => Some(NameId::TypographicSubfamilyName),
        18 => Some(NameId::CompatibleFull),
        19 => Some(NameId::SampleText),
        20 => Some(NameId::PostScriptCIDFindfontName),
        21 => Some(NameId::WWSFamilyName),
        22 => Some(NameId::WWSSubfamilyName),
        23 => Some(NameId::LightBackgroundPalette),
        24 => Some(NameId::DarkBackgroundPalette),
        25 => Some(NameId::VariationsPostScriptNamePrefix),
        _ => if 256 <= v <= 32767 {
            Some(NameId::FontSpecificName(v))
        } else {
            None
        },
    }
}

impl NameId {
    /// The name id whose identifier is `v`; `None` when it is unknown.
    pub fn from_u16(v: u16) -> (r: Option<NameId>)
        ensures
            r == spec_name_id(v),
    {
        match v {
            0 => Some(NameId::Copyright),
            1 => Some(NameId::FontFamilyName),
            2 => Some(NameId::FontSubfamilyName),
            3 => Some(NameId::UniqueFontIdentifier),
            4 => Some(NameId::FullFontName),
            5 => Some(NameId::VersionString),
            6 => Some(NameId::PostScript),
            7 => Some(NameId::Trademark),
            8 => Some(NameId::ManufacturerName),
            9 => Some(NameId::Designer),
            10 => Some(NameId::Description),
            11 => Some(NameId::URLVendor),
            12 => Some(NameId::URLDesigner),
            13 => Some(NameId::LicenseDescription),
            14 => Some(NameId::LicenseInfoURL),
            16 => Some(NameId::TypographicFamilyName),
            17 => Some(NameId::TypographicSubfamilyName),
            18 => Some(NameId::CompatibleFull),
            19 => Some(NameId::SampleText),
            20 => Some(NameId::PostScriptCIDFindfontName),
            21 => Some(NameId::WWSFamilyName),
            22 => Some(NameId::WWSSubfamilyName),
            23 => Some(NameId::LightBackgroundPalette),
            24 => Some(NameId::DarkBackgroundPalette),
            25 => Some(NameId::VariationsPostScriptNamePrefix),
            _ => if 256 <= v && v <= 32767 {
                Some(NameId::FontSpecificName(v))
            } else {
                None
            },
        }
    }
}

/// The platform of a name or of a character map, with its encoding and its
/// language when these are known.
#[allow(deprecated)]
#[derive(Debug, Clone, Copy, PartialEq, Eq, Hash, Structural)]
pub enum Platform {
    Unicode(UnicodeEncoding, Option<u16>),
    Macintosh(MacintoshEncoding, Option<MacintoshLanguage>),
    Iso(IsoEncoding, Option<u16>),
    Windows(WindowsEncoding, Option<WindowsLanguage>),
    Custom(u16, Option<u16>),
    UserDefined(u16, Option<u16>),
}

/// The platform that `platform_id` and `encoding_id` identify, with the
/// language `language_opt` where that language is known; `None` when the
/// platform or its encoding is unknown.
pub open spec fn spec_platform(platform_id: u16, encoding_id: u16, language_opt: Option<u16>) -> Option<Platform> {
    if platform_id == 0 {
        match spec_unicode_encoding(encoding_id) {
            Some(e) => Some(Platform::Unicode(e, language_opt)),
            None => None,
        }
    } else if platform_id == 1 {
        match spec_macintosh_encoding(encoding_id) {
            Some(e) => Some(
                Platform::Macintosh(
                    e,
                    match language_opt {
                        Some(l) => spec_macintosh_language(l),
                        None => None,
                    },
                ),
            ),
            None => None,
        }
    } else if platform_id == 2 {
        match spec_iso_encoding(encoding_id) {
            Some(e) => Some(Platform::Iso(e, language_opt)),
            None => None,
        }
    } else if platform_id == 3 {
        match spec_windows_encoding(encoding_id) {
            Some(e) => Some(
                Platform::Windows(
                    e,
                    match language_opt {
                        Some(l) => spec_windows_language(l),
                        None => None,
                    },
                ),
            ),
            None => None,
        }
    } else if platform_id == 4 {
        Some(Platform::Custom(encoding_id, language_opt))
    } else if 240 <= platform_id <= 255 {
        Some(Platform::UserDefined(encoding_id, language_opt))
    } else {
        None
    }
}

impl Platform {
    /// Identifies a platform, its encoding and its language.
    pub fn new(platform_id: u16, encoding_id: u16, language_opt: Option<u16>) -> (r: Option<Platform>)
        ensures
            r == spec_platform(platform_id, encoding_id, language_opt),
    {
        if platform_id == 0 {
            match UnicodeEncoding::from_u16(encoding_id) {
                Some(e) => Some(Platform::Unicode(e, language_opt)),
                None => None,
            }
        } else if platform_id == 1 {
            match MacintoshEncoding::from_u16(encoding_id) {
                Some(e) => {
                    let language = match language_opt {
                        Some(l) => MacintoshLanguage::from_u16(l),
                        None => None,
                    };
                    Some(Platform::Macintosh(e, language))
                },
                None => None,
            }
        } else if platform_id == 2 {
            match IsoEncoding::from_u16(encoding_id) {
                Some(e) => Some(Platform::Iso(e, language_opt)),
                None => None,
            }
        } else if platform_id == 3 {
            match WindowsEncoding::from_u16(encoding_id) {
                Some(e) => {
                    let language = match language_opt {
                        Some(l) => WindowsLanguage::from_u16(l),
                        None => None,
                    };
                    Some(Platform::Windows(e, language))
                },
                None => None,
            }
        } else if platform_id == 4 {
            Some(Platform::Custom(encoding_id, language_opt))
        } else if 240 <= platform_id && platform_id <= 255 {
            Some(Platform::UserDefined(encoding_id, language_opt))
        } else {
            None
        }
    }
}

/// One name of the font: which name it is, for which platform, and where its
/// string lies in the string storage.
#[derive(Debug, Clone, Copy, PartialEq, Eq, Structural)]
pub struct NameRecord {
    pub platform: Platform,
    pub name_id: NameId,
    pub length: u16,
    pub offset: u16,
}

impl NameRecord {
    /// Platform, encoding and language of the string.
    pub fn platform(&self) -> (r: Platform)
        ensures
            r == self.platform,
    {
        self.platform
    }

    /// Which name the string is.
    pub fn name_id(&self) -> (r: NameId)
        ensures
            r == self.name_id,
    {
        self.name_id
    }

    /// Length of the string in bytes.
    pub fn length(&self) -> (r: u16)
        ensures
            r == self.length,
    {
        self.length
    }

    /// Offset of the string from the start of the string storage.
    pub fn offset(&self) -> (r: u16)
        ensures
            r == self.offset,
    {
        self.offset
    }
}

/// A language tag string of a format 1 table.
#[derive(Debug, Clone, Copy, PartialEq, Eq, Structural)]
pub struct LangTagRecord {
    pub length: u16,
    pub offset: u16,
}

impl LangTagRecord {
    /// Length of the tag string in bytes.
    pub fn length(&self) -> (r: u16)
        ensures
            r == self.length,
    {
        self.length
    }

    /// Offset of the tag string from the start of the string storage.
    pub fn offset(&self) -> (r: u16)
        ensures
            r == self.offset,
    {
        self.offset
    }
}

/// Wire format of a name record: platform, encoding and language ids, name
/// id, length and offset. An unknown platform or encoding is refused at byte
/// 0, an unknown name id at byte 6.
pub open spec fn spec_name_record(b: Seq<u8>) -> Result<(NameRecord, int), Error> {
    if b.len() < 6 {
        Err(Error::Truncated)
    } else if spec_platform(spec_u16(b, 0), spec_u16(b, 2), Some(spec_u16(b, 4))) is None {
        Err(Error::InvalidDiscriminant(0))
    } else if b.len() < 8 {
        Err(Error::Truncated)
    } else if spec_name_id(spec_u16(b, 6)) is None {
        Err(Error::InvalidDiscriminant(6))
    } else if b.len() < 12 {
        Err(Error::Truncated)
    } else {
        Ok(
            (
                NameRecord {
                    platform: spec_platform(spec_u16(b, 0), spec_u16(b, 2), Some(spec_u16(b, 4)))->Some_0,
                    name_id: spec_name_id(spec_u16(b, 6))->Some_0,
                    length: spec_u16(b, 8),
                    offset: spec_u16(b, 10),
                },
                12,
            ),
        )
    }
}

/// Decodes a name record from the front of `input`.
pub fn parse_name_record(input: &[u8]) -> (r: Result<(&[u8], NameRecord), Error>)
    ensures
        crate::codec::parsed(r, spec_name_record(input@), input@),
{
    if input.len() < 6 {
        return Err(Error::Truncated);
    }
    let platform = match Platform::new(u16_at(input, 0), u16_at(input, 2), Some(u16_at(input, 4))) {
        Some(p) => p,
        None => {
            return Err(Error::InvalidDiscriminant(0));
        },
    };
    if input.len() < 8 {
        return Err(Error::Truncated);
    }
    let name_id = match NameId::from_u16(u16_at(input, 6)) {
        Some(n) => n,
        None => {
            return Err(Error::InvalidDiscriminant(6));
        },
    };
    if input.len() < 12 {
        return Err(Error::Truncated);
    }
    let record = NameRecord { platform, name_id, length: u16_at(input, 8), offset: u16_at(input, 10) };
    Ok((slice_range(input, 12, input.len()), record))
}

/// The names of the font and, in format 1, its language tags.
#[derive(Debug, Clone, PartialEq, Eq)]
pub struct NamingTable {
    pub string_offset: u16,
    pub name_records: Vec<NameRecord>,
    pub lang_tag_records: Option<Vec<LangTagRecord>>,
}

/// The first language id that refers to a language tag record.
pub const FIRST_LANG_TAG_ID: u16 = 0x8000;

impl NamingTable {
    /// Offset of the string storage from the start of the table.
    pub fn string_offset(&self) -> (r: u16)
        ensures
            r == self.string_offset,
    {
        self.string_offset
    }

    /// The name records.
    pub fn name_records(&self) -> (r: &Vec<NameRecord>)
        ensures
            r@ == self.name_records@,
    {
        &self.name_records
    }

    /// The language tag records of a format 1 table.
    pub fn lang_tag_records(&self) -> (r: Option<&Vec<LangTagRecord>>)
        ensures
            match (r, self.lang_tag_records) {
                (Some(a), Some(b)) => a@ == b@,
                (None, None) => true,
                _ => false,
            },
    {
        self.lang_tag_records.as_ref()
    }

    /// The language tag record of language id `language_id`: the `n`-th
    /// record stands for id `0x8000 + n`. Ids below `0x8000`, ids past the
    /// last record, and every id of a format 0 table give `None`.
    pub fn lang_tag(&self, language_id: u16) -> (r: Option<LangTagRecord>)
        ensures
            r == match self.lang_tag_records {
                Some(v) => if language_id >= FIRST_LANG_TAG_ID && language_id - FIRST_LANG_TAG_ID < v@.len() {
                    Some(v@[language_id - FIRST_LANG_TAG_ID])
                } else {
                    None
                },
                None => None,
            },
    {
        match &self.lang_tag_records {
            Some(v) => if language_id >= FIRST_LANG_TAG_ID && ((language_id - FIRST_LANG_TAG_ID) as usize) < v.len() {
                Some(v[(language_id - FIRST_LANG_TAG_ID) as usize])
            } else {
                None
            },
            None => None,
        }
    }
}

/// The `n` language tag records that start at `b[i]`.
pub open spec fn spec_lang_tags(b: Seq<u8>, i: int, n: int) -> Seq<LangTagRecord> {
    Seq::new(n as nat, |k: int| LangTagRecord { length: spec_u16(b, i + 4 * k), offset: spec_u16(b, i + 4 * k + 2) })
}

/// The decoding of the `k`-th name record of the table `b`.
pub open spec fn spec_record_k(b: Seq<u8>, k: int) -> Result<(NameRecord, int), Error> {
    spec_name_record(b.subrange(6 + 12 * k, 6 + 12 * k + 12))
}

/// The error of a name record that cannot be identified, at its place in
/// the table `b`.
pub open spec fn spec_record_error(b: Seq<u8>, k: int) -> Error {
    match spec_record_k(b, k) {
        Err(Error::InvalidDiscriminant(o)) => Error::InvalidDiscriminant((6 + 12 * k + o) as usize),
        Err(e) => e,
        Ok(_) => Error::MalformedInvariant,
    }
}

/// `r` is the decoding of the naming table `b`: format 0 or 1, a record
/// count, the storage offset, the name records, and in format 1 the language
/// tag records. The first name record that cannot be identified fails the
/// table, with its offset in the table.
pub open spec fn spec_naming_agrees(r: Result<(&[u8], NamingTable), Error>, b: Seq<u8>) -> bool {
    let count = spec_u16(b, 2) as int;
    let p = 6 + 12 * count;
    if b.len() < 2 {
        r == Err::<(&[u8], NamingTable), Error>(Error::Truncated)
    } else if spec_u16(b, 0) != 0 && spec_u16(b, 0) != 1 {
        r == Err::<(&[u8], NamingTable), Error>(Error::InvalidDiscriminant(0))
    } else if b.len() < 6 || b.len() < p {
        r == Err::<(&[u8], NamingTable), Error>(Error::Truncated)
    } else if exists|k: int| 0 <= k < count && spec_record_k(b, k) is Err {
        exists|k: int|
            0 <= k < count && spec_record_k(b, k) is Err && (forall|j: int| 0 <= j < k ==> spec_record_k(b, j) is Ok)
                && r == Err::<(&[u8], NamingTable), Error>(spec_record_error(b, k))
    } else if spec_u16(b, 0) == 1 && (b.len() < p + 2 || b.len() < p + 2 + 4 * spec_u16(b, p)) {
        r == Err::<(&[u8], NamingTable), Error>(Error::Truncated)
    } else {
        r matches Ok((rest, t)) && t.string_offset == spec_u16(b, 4) && t.name_records@.len() == count && (forall|k: int|
            0 <= k < count ==> spec_record_k(b, k) == Ok::<(NameRecord, int), Error>((t.name_records@[k], 12)))
            && if spec_u16(b, 0) == 0 {
            t.lang_tag_records is None && rest@ == b.subrange(p, b.len() as int)
        } else {
            t.lang_tag_records matches Some(v) && v@ == spec_lang_tags(b, p + 2, spec_u16(b, p) as int) && rest@
                == b.subrange(p + 2 + 4 * spec_u16(b, p), b.len() as int)
        }
    }
}

/// Decodes a naming table of format 0 or 1.
pub fn parse_naming_table(input: &[u8]) -> (r: Result<(&[u8], NamingTable), Error>)
    ensures
        spec_naming_agrees(r, input@),
{
    if input.len() < 2 {
        return Err(Error::Truncated);
    }
    let format = u16_at(input, 0);
    if format != 0 && format != 1 {
        return Err(Error::InvalidDiscriminant(0));
    }
    if input.len() < 6 {
        return Err(Error::Truncated);
    }
    let count = u16_at(input, 2) as usize;
    let string_offset = u16_at(input, 4);
    if input.len() < 6 + 12 * count {
        return Err(Error::Truncated);
    }
    let mut name_records: Vec<NameRecord> = Vec::new();
    let mut k: usize = 0;
    while k < count
        invariant
            k <= count,
            count == spec_u16(input@, 2),
            spec_u16(input@, 0) == 0 || spec_u16(input@, 0) == 1,
            6 + 12 * count <= input@.len(),
            name_records@.len() == k,
            forall|j: int|
                0 <= j < k ==> spec_record_k(input@, j) == Ok::<(NameRecord, int), Error>((name_records@[j], 12)),
        decreases count - k,
    {
        let start = 6 + 12 * k;
        let bytes = slice_range(input, start, start + 12);
        assert(bytes@ == input@.subrange(6 + 12 * k, 6 + 12 * k + 12));
        match parse_name_record(bytes) {
            Ok((_, record)) => {
                name_records.push(record);
            },
            Err(e) => {
                let err = match e {
                    Error::InvalidDiscriminant(o) => Error::InvalidDiscriminant(start + o),
                    other => other,
                };
                assert(spec_record_k(input@, k as int) is Err);
                assert(err == spec_record_error(input@, k as int));
                assert(forall|j: int| 0 <= j < k ==> spec_record_k(input@, j) is Ok);
                return Err(err);
            },
        }
        k = k + 1;
    }
    let p = 6 + 12 * count;
    if format == 0 {
        let table = NamingTable { string_offset, name_records, lang_tag_records: None };
        return Ok((slice_range(input, p, input.len()), table));
    }
    if input.len() < p + 2 {
        return Err(Error::Truncated);
    }
    let m = u16_at(input, p) as usize;
    if input.len() < p + 2 + 4 * m {
        return Err(Error::Truncated);
    }
    let mut tags: Vec<LangTagRecord> = Vec::new();
    let mut k: usize = 0;
    while k < m
        invariant
            k <= m,
            p + 2 + 4 * m <= input@.len() <= usize::MAX,
            tags@ == spec_lang_tags(input@, p + 2, k as int),
        decreases m - k,
    {
        tags.push(LangTagRecord { length: u16_at(input, p + 2 + 4 * k), offset: u16_at(input, p + 4 + 4 * k) });
        k = k + 1;
        assert(tags@ =~= spec_lang_tags(input@, p + 2, k as int));
    }
    let table = NamingTable { string_offset, name_records, lang_tag_records: Some(tags) };
    Ok((slice_range(input, p + 2 + 4 * m, input.len()), table))
}

impl NamingTable {
    /// Decodes a naming table, as `parse_naming_table`, dropping the bytes
    /// left over.
    pub fn parse(buf: &[u8]) -> (r: Result<NamingTable, Error>)
        ensures
            exists|p: Result<(&[u8], NamingTable), Error>|
                spec_naming_agrees(p, buf@) && match (p, r) {
                    (Ok((_, t)), Ok(u)) => t == u,
                    (Err(e), Err(f)) => e == f,
                    _ => false,
                },
    {
        let p = parse_naming_table(buf);
        match p {
            Ok((_, t)) => Ok(t),
            Err(e) => Err(e),
        }
    }
}

} // verus!
