//! The industry sector codes of the exchange: the 17-sector and the
//! 33-sector classifications.

use crate::domain::DomainError;
use vstd::prelude::*;

verus! {

/// Whether a code is one of the 17 sector codes.
pub open spec fn is_sector17code(code: i16) -> bool {
    code == 1 || code == 2 || code == 3 || code == 4 || code == 5 || code == 6 || code == 7 || code == 8 || code == 9 || code == 10 || code == 11 || code == 12 || code == 13 || code == 14 || code == 15 || code == 16 || code == 17
}

/// The label of a 17-sector code: the sector's name, "-" for no code, and a marker for
/// a code that is not one.
pub open spec fn sector17code_label(code: Option<i16>) -> Seq<char> {
    match code {
        Some(1) => "食品"@,
        Some(2) => "エネルギー資源"@,
        Some(3) => "建設・資材"@,
        Some(4) => "素材・化学"@,
        Some(5) => "医薬品"@,
        Some(6) => "自動車・輸送機"@,
        Some(7) => "鉄鋼・非鉄"@,
        Some(8) => "機械"@,
        Some(9) => "電機・精密"@,
        Some(10) => "情報通信・サービスその他"@,
        Some(11) => "電力・ガス"@,
        Some(12) => "運輸・物流"@,
        Some(13) => "商社・卸売"@,
        Some(14) => "小売"@,
        Some(15) => "銀行"@,
        Some(16) => "金融（除く銀行）"@,
        Some(17) => "不動産"@,
        Some(_) => "不明な業種"@,
        None => "-"@,
    }
}

/// A company's code in the 17-sector classification, when it has one.
#[derive(Debug, Clone, Copy, PartialEq, Eq, Default)]
pub struct Sector17Code(Option<i16>);

impl Sector17Code {
    pub closed spec fn value(&self) -> Option<i16> {
        self.0
    }

    /// A code from its value, when the value passes `validate`.
    pub fn parse(value: Option<i16>) -> (r: Result<Sector17Code, DomainError>)
        ensures
            match value {
                Some(code) if !is_sector17code(code) => r matches Err(DomainError::ValidationError(t))
                    && t@ == "Invalid sector17 code"@,
                _ => r matches Ok(c) && c.value() == value,
            },
    {
        let code = Sector17Code(value);
        match code.validate() {
            Ok(()) => Ok(code),
            Err(e) => Err(e),
        }
    }

    pub fn get(&self) -> (v: Option<i16>)
        ensures
            v == self.value(),
    {
        self.0
    }

    /// Accepts no code, or one of the 17 sector codes.
    pub fn validate(&self) -> (r: Result<(), DomainError>)
        ensures
            match self.value() {
                Some(code) if !is_sector17code(code) => r matches Err(DomainError::ValidationError(t))
                    && t@ == "Invalid sector17 code"@,
                _ => r is Ok,
            },
    {
        match self.0 {
            Some(code) => match code {
                1 | 2 | 3 | 4 | 5 | 6 | 7 | 8 | 9 | 10 | 11 | 12 | 13 | 14 | 15 | 16 | 17 => Ok(()),
                _ => Err(DomainError::ValidationError(String::from_str("Invalid sector17 code"))),
            },
            None => Ok(()),
        }
    }

    /// The sector's name; "-" without a code.
    pub fn label(&self) -> (s: String)
        ensures
            s@ == sector17code_label(self.value()),
    {
        match self.0 {
            Some(1) => String::from_str("食品"),
            Some(2) => String::from_str("エネルギー資源"),
            Some(3) => String::from_str("建設・資材"),
            Some(4) => String::from_str("素材・化学"),
            Some(5) => String::from_str("医薬品"),
            Some(6) => String::from_str("自動車・輸送機"),
            Some(7) => String::from_str("鉄鋼・非鉄"),
            Some(8) => String::from_str("機械"),
            Some(9) => String::from_str("電機・精密"),
            Some(10) => String::from_str("情報通信・サービスその他"),
            Some(11) => String::from_str("電力・ガス"),
            Some(12) => String::from_str("運輸・物流"),
            Some(13) => String::from_str("商社・卸売"),
            Some(14) => String::from_str("小売"),
            Some(15) => String::from_str("銀行"),
            Some(16) => String::from_str("金融（除く銀行）"),
            Some(17) => String::from_str("不動産"),
            Some(_) => String::from_str("不明な業種"),
            None => String::from_str("-"),
        }
    }
}

/// Whether a code is one of the 33 sector codes.
pub open spec fn is_sector33code(code: i16) -> bool {
    code == 50 || code == 1050 || code == 2050 || code == 3050 || code == 3100 || code == 3150 || code == 3200 || code == 3250 || code == 3300 || code == 3350 || code == 3400 || code == 3450 || code == 3500 || code == 3550 || code == 3600 || code == 3650 || code == 3700 || code == 3750 || code == 3800 || code == 4050 || code == 5050 || code == 5100 || code == 5150 || code == 5200 || code == 5250 || code == 6050 || code == 6100 || code == 7050 || code == 7100 || code == 7150 || code == 7200 || code == 8050 || code == 9050
}

/// The label of a 33-sector code: the sector's name, "-" for no code, and a marker for
/// a code that is not one.
pub open spec fn sector33code_label(code: Option<i16>) -> Seq<char> {
    match code {
        Some(50) => "水産・農林業"@,
        Some(1050) => "鉱業"@,
        Some(2050) => "建設業"@,
        Some(3050) => "食料品"@,
        Some(3100) => "繊維製品"@,
        Some(3150) => "パルプ・紙"@,
        Some(3200) => "化学"@,
        Some(3250) => "医薬品"@,
        Some(3300) => "石油・石炭製品"@,
        Some(3350) => "ゴム製品"@,
        Some(3400) => "ガラス・土石製品"@,
        Some(3450) => "鉄鋼"@,
        Some(3500) => "非鉄金属"@,
        Some(3550) => "金属製品"@,
        Some(3600) => "機械"@,
        Some(3650) => "電気機器"@,
        Some(3700) => "輸送用機器"@,
        Some(3750) => "精密機器"@,
        Some(3800) => "その他製品"@,
        Some(4050) => "電気・ガス業"@,
        Some(5050) => "陸運業"@,
        Some(5100) => "海運業"@,
        Some(5150) => "空運業"@,
        Some(5200) => "倉庫・運輸関連業"@,
        Some(5250) => "情報・通信業"@,
        Some(6050) => "卸売業"@,
        Some(6100) => "小売業"@,
        Some(7050) => "銀行業"@,
        Some(7100) => "証券・商品先物取引業"@,
        Some(7150) => "保険業"@,
        Some(7200) => "その他金融業"@,
        Some(8050) => "不動産業"@,
        Some(9050) => "サービス業"@,
        Some(_) => "不明な業種"@,
        None => "-"@,
    }
}

/// A company's code in the 33-sector classification, when it has one.
#[derive(Debug, Clone, Copy, PartialEq, Eq, Default)]
pub struct Sector33Code(Option<i16>);

impl Sector33Code {
    pub closed spec fn value(&self) -> Option<i16> {
        self.0
    }

    /// A code from its value, when the value passes `validate`.
    pub fn parse(value: Option<i16>) -> (r: Result<Sector33Code, DomainError>)
        ensures
            match value {
                Some(code) if !is_sector33code(code) => r matches Err(DomainError::ValidationError(t))
                    && t@ == "Invalid sector33 code"@,
                _ => r matches Ok(c) && c.value() == value,
            },
    {
        let code = Sector33Code(value);
        match code.validate() {
            Ok(()) => Ok(code),
            Err(e) => Err(e),
        }
    }

    pub fn get(&self) -> (v: Option<i16>)
        ensures
            v == self.value(),
    {
        self.0
    }

    /// Accepts no code, or one of the 33 sector codes.
    pub fn validate(&self) -> (r: Result<(), DomainError>)
        ensures
            match self.value() {
                Some(code) if !is_sector33code(code) => r matches Err(DomainError::ValidationError(t))
                    && t@ == "Invalid sector33 code"@,
                _ => r is Ok,
            },
    {
        match self.0 {
            Some(code) => match code {
                50 | 1050 | 2050 | 3050 | 3100 | 3150 | 3200 | 3250 | 3300 | 3350 | 3400 | 3450 | 3500 | 3550 | 3600 | 3650 | 3700 | 3750 | 3800 | 4050 | 5050 | 5100 | 5150 | 5200 | 5250 | 6050 | 6100 | 7050 | 7100 | 7150 | 7200 | 8050 | 9050 => Ok(()),
                _ => Err(DomainError::ValidationError(String::from_str("Invalid sector33 code"))),
            },
            None => Ok(()),
        }
    }

    /// The sector's name; "-" without a code.
    pub fn label(&self) -> (s: String)
        ensures
            s@ == sector33code_label(self.value()),
    {
        match self.0 {
            Some(50) => String::from_str("水産・農林業"),
            Some(1050) => String::from_str("鉱業"),
            Some(2050) => String::from_str("建設業"),
            Some(3050) => String::from_str("食料品"),
            Some(3100) => String::from_str("繊維製品"),
            Some(3150) => String::from_str("パルプ・紙"),
            Some(3200) => String::from_str("化学"),
            Some(3250) => String::from_str("医薬品"),
            Some(3300) => String::from_str("石油・石炭製品"),
            Some(3350) => String::from_str("ゴム製品"),
            Some(3400) => String::from_str("ガラス・土石製品"),
            Some(3450) => String::from_str("鉄鋼"),
            Some(3500) => String::from_str("非鉄金属"),
            Some(3550) => String::from_str("金属製品"),
            Some(3600) => String::from_str("機械"),
            Some(3650) => String::from_str("電気機器"),
            Some(3700) => String::from_str("輸送用機器"),
            Some(3750) => String::from_str("精密機器"),
            Some(3800) => String::from_str("その他製品"),
            Some(4050) => String::from_str("電気・ガス業"),
            Some(5050) => String::from_str("陸運業"),
            Some(5100) => String::from_str("海運業"),
            Some(5150) => String::from_str("空運業"),
            Some(5200) => String::from_str("倉庫・運輸関連業"),
            Some(5250) => String::from_str("情報・通信業"),
            Some(6050) => String::from_str("卸売業"),
            Some(6100) => String::from_str("小売業"),
            Some(7050) => String::from_str("銀行業"),
            Some(7100) => String::from_str("証券・商品先物取引業"),
            Some(7150) => String::from_str("保険業"),
            Some(7200) => String::from_str("その他金融業"),
            Some(8050) => String::from_str("不動産業"),
            Some(9050) => String::from_str("サービス業"),
            Some(_) => String::from_str("不明な業種"),
            None => String::from_str("-"),
        }
    }
}

} // verus!
