use ipc_gateway::connection::PoolSettings;
use ipc_gateway::domain::{DomainError, EnglishName, Id, JapaneseName, LocalCode, Section, SizeCode};
use ipc_gateway::record::{
    plan_import, CreatedAt, ImportAction, ImportFilesUseCase, Timestamp, TokyoStockExchange,
    TokyoStockExchangeAttributes, TokyoStockExchangeRow, UpdatedAt,
};
use ipc_gateway::sector::{Sector17Code, Sector33Code};

fn message(e: DomainError) -> String {
    let text = e.message();
    let converted: String = e.into();
    assert_eq!(converted, text);
    converted
}

#[test]
fn test_validate_local_code_success() {
    for code in ["1234", "123A"] {
        let local_code = LocalCode::parse(code.to_string());
        assert!(local_code.is_ok(), "{}", code);
        assert_eq!(local_code.unwrap().as_str(), code);
    }
}

#[test]
fn test_validate_local_code_error() {
    let cases = [
        ("", "Local code is empty"),
        ("123", "Local code must be 4 digits"),
        ("12345", "Local code must be 4 digits"),
        ("123$", "Local code must be alphanumeric"),
        ("1 23", "Local code must be alphanumeric"),
    ];
    for (code, expected) in cases {
        let local_code = LocalCode::parse(code.to_string());
        assert!(local_code.is_err(), "{}", code);
        assert_eq!(message(local_code.unwrap_err()), expected);
    }
}

#[test]
fn local_code_counts_bytes() {
    assert_eq!(
        message(LocalCode::parse("日本".to_string()).unwrap_err()),
        "Local code must be 4 digits"
    );
    assert_eq!(
        message(LocalCode::parse("ab\u{e9}".to_string()).unwrap_err()),
        "Local code must be alphanumeric"
    );
    assert_eq!(
        message(LocalCode::parse("日本語X".to_string()).unwrap_err()),
        "Local code must be 4 digits"
    );
}

#[test]
fn test_validate_sector17_code_success() {
    let mut codes: Vec<Option<i16>> = vec![None];
    for c in 1..=17 {
        codes.push(Some(c));
    }
    for code in codes {
        assert!(Sector17Code::parse(code).is_ok(), "{:?}", code);
    }
}

#[test]
fn test_validate_sector17_code_error() {
    for code in [Some(0), Some(1000), Some(9999), Some(3999), Some(18), Some(-1)] {
        let r = Sector17Code::parse(code);
        assert!(r.is_err(), "{:?}", code);
        assert_eq!(message(r.unwrap_err()), "Invalid sector17 code");
    }
}

#[test]
fn test_deref_sector17() {
    assert_eq!(Sector17Code::parse(None).unwrap().get(), None);
    assert_eq!(Sector17Code::parse(Some(1)).unwrap().get(), Some(1));
}

#[test]
fn test_display_sector17() {
    let cases = [
        (None, "-"),
        (Some(1), "食品"),
        (Some(2), "エネルギー資源"),
        (Some(3), "建設・資材"),
        (Some(4), "素材・化学"),
        (Some(5), "医薬品"),
        (Some(6), "自動車・輸送機"),
        (Some(7), "鉄鋼・非鉄"),
        (Some(8), "機械"),
        (Some(9), "電機・精密"),
        (Some(10), "情報通信・サービスその他"),
        (Some(11), "電力・ガス"),
        (Some(12), "運輸・物流"),
        (Some(13), "商社・卸売"),
        (Some(14), "小売"),
        (Some(15), "銀行"),
        (Some(16), "金融（除く銀行）"),
        (Some(17), "不動産"),
    ];
    for (input, expected) in cases {
        assert_eq!(Sector17Code::parse(input).unwrap().label(), expected);
    }
}

#[test]
fn test_validate_sector33_code_success() {
    let codes = [
        50, 1050, 2050, 3050, 3100, 3150, 3200, 3250, 3300, 3350, 3400, 3450, 3500, 3550, 3600,
        3650, 3700, 3750, 3800, 4050, 5050, 5100, 5150, 5200, 5250, 6050, 6100, 7050, 7100, 7150,
        7200, 8050, 9050,
    ];
    assert!(Sector33Code::parse(None).is_ok());
    for code in codes {
        assert!(Sector33Code::parse(Some(code)).is_ok(), "{}", code);
    }
}

#[test]
fn test_validate_sector33_code_error() {
    for code in [Some(0), Some(1000), Some(9999), Some(3999), Some(51)] {
        let r = Sector33Code::parse(code);
        assert!(r.is_err(), "{:?}", code);
        assert_eq!(message(r.unwrap_err()), "Invalid sector33 code");
    }
}

#[test]
fn test_deref_sector33() {
    assert_eq!(Sector33Code::parse(None).unwrap().get(), None);
    assert_eq!(Sector33Code::parse(Some(3050)).unwrap().get(), Some(3050));
}

#[test]
fn test_display_sector33() {
    let cases = [
        (None, "-"),
        (Some(3050), "食料品"),
        (Some(3100), "繊維製品"),
        (Some(3150), "パルプ・紙"),
        (Some(3200), "化学"),
        (Some(3250), "医薬品"),
        (Some(3300), "石油・石炭製品"),
        (Some(3350), "ゴム製品"),
        (Some(3400), "ガラス・土石製品"),
        (Some(3450), "鉄鋼"),
        (Some(3500), "非鉄金属"),
        (Some(3550), "金属製品"),
        (Some(3600), "機械"),
        (Some(3650), "電気機器"),
        (Some(3700), "輸送用機器"),
        (Some(3750), "精密機器"),
        (Some(3800), "その他製品"),
        (Some(4050), "電気・ガス業"),
        (Some(5050), "陸運業"),
        (Some(5100), "海運業"),
        (Some(5150), "空運業"),
        (Some(5200), "倉庫・運輸関連業"),
        (Some(5250), "情報・通信業"),
        (Some(6050), "卸売業"),
        (Some(6100), "小売業"),
        (Some(7050), "銀行業"),
        (Some(7100), "証券・商品先物取引業"),
        (Some(7150), "保険業"),
        (Some(7200), "その他金融業"),
        (Some(8050), "不動産業"),
        (Some(9050), "サービス業"),
        (Some(50), "水産・農林業"),
        (Some(1050), "鉱業"),
        (Some(2050), "建設業"),
    ];
    for (input, expected) in cases {
        assert_eq!(Sector33Code::parse(input).unwrap().label(), expected);
    }
}

#[test]
fn sector_validate_on_value() {
    let ok = Sector17Code::parse(Some(3)).unwrap();
    assert_eq!(ok.validate(), Ok(()));
    let ok33 = Sector33Code::parse(Some(9050)).unwrap();
    assert_eq!(ok33.validate(), Ok(()));
    assert_eq!(LocalCode::parse("AB12".to_string()).unwrap().validate(), Ok(()));
}

#[test]
fn plain_value_objects() {
    assert_eq!(Id::new(5).get(), 5);
    assert_eq!(EnglishName::new(Some("Toyota".to_string())).get(), &Some("Toyota".to_string()));
    assert_eq!(JapaneseName::new(None).get(), &None);
    assert_eq!(Section::parse("Prime".to_string()).unwrap().as_str(), "Prime");
    assert_eq!(SizeCode::parse(Some(-3)).unwrap().get(), Some(-3));
}

fn attributes(code: &str) -> TokyoStockExchangeAttributes {
    TokyoStockExchangeAttributes {
        local_code: LocalCode::parse(code.to_string()).unwrap(),
        english_name: EnglishName::new(None),
        japanese_name: JapaneseName::new(Some("名前".to_string())),
        section: Section::parse("Prime".to_string()).unwrap(),
        sector33_code: Sector33Code::parse(Some(3050)).unwrap(),
        sector17_code: Sector17Code::parse(Some(1)).unwrap(),
        size_code: SizeCode::parse(None).unwrap(),
    }
}

#[test]
fn plan_import_creates_or_saves() {
    let file = attributes("1301");
    assert_eq!(plan_import(None, file.clone()), ImportAction::Create(file.clone()));
    let t = Timestamp::new(1_700_000_000, 5, 32_400).unwrap();
    let stored = TokyoStockExchange {
        id: Some(Id::new(9)),
        local_code: file.local_code.clone(),
        english_name: file.english_name.clone(),
        japanese_name: file.japanese_name.clone(),
        section: file.section.clone(),
        sector33_code: file.sector33_code,
        sector17_code: file.sector17_code,
        size_code: file.size_code,
        created_at: CreatedAt::new(t),
        updated_at: UpdatedAt::new(t),
    };
    assert_eq!(plan_import(Some(stored.clone()), file), ImportAction::Save(stored));
}

#[test]
fn timestamps_check_their_ranges() {
    let t = Timestamp::new(0, 999_999_999, -86_399).unwrap();
    assert_eq!(CreatedAt::new(t).get(), t);
    assert_eq!(UpdatedAt::new(t).get().nanos, 999_999_999);
    assert_eq!(Timestamp::new(0, 1_000_000_000, 0), None);
    assert_eq!(Timestamp::new(0, 0, 86_400), None);
}

#[test]
fn import_use_case_holds_repositories() {
    let u = ImportFilesUseCase::new("files", 42u8);
    assert_eq!(*u.file_repository(), "files");
    assert_eq!(*u.repository(), 42u8);
}

#[test]
fn pool_settings_bounds() {
    let p = PoolSettings::standard();
    assert_eq!((p.max_connections, p.min_connections), (20, 5));
    assert_eq!(PoolSettings::new(3, 4), None);
    assert_eq!(PoolSettings::new(0, 0), None);
    assert_eq!(PoolSettings::new(4, 4), Some(PoolSettings { max_connections: 4, min_connections: 4 }));
}

fn row(local_code: &str, sector33: Option<i16>, sector17: Option<i16>) -> TokyoStockExchangeRow {
    let t = Timestamp::new(1_600_000_000, 0, 0).unwrap();
    TokyoStockExchangeRow {
        id: 3,
        local_code: local_code.to_string(),
        english_name: Some("Name".to_string()),
        japanese_name: None,
        section: "Standard".to_string(),
        sector33_code: sector33,
        sector17_code: sector17,
        size_code: Some(7),
        created_at: t,
        updated_at: t,
    }
}

#[test]
fn row_becomes_record() {
    let record = TokyoStockExchange::from_row(row("7203", Some(3700), Some(6))).unwrap();
    assert_eq!(record.id, Some(Id::new(3)));
    assert_eq!(record.local_code.as_str(), "7203");
    assert_eq!(record.english_name.get(), &Some("Name".to_string()));
    assert_eq!(record.section.as_str(), "Standard");
    assert_eq!(record.sector33_code.label(), "輸送用機器");
    assert_eq!(record.sector17_code.label(), "自動車・輸送機");
    assert_eq!(record.size_code.get(), Some(7));
    assert_eq!(record.created_at.get().seconds, 1_600_000_000);
}

#[test]
fn row_reports_first_broken_rule() {
    let e = TokyoStockExchange::from_row(row("72", Some(1), Some(99))).unwrap_err();
    assert_eq!(message(e), "Local code must be 4 digits");
    let e = TokyoStockExchange::from_row(row("7203", Some(1), Some(99))).unwrap_err();
    assert_eq!(message(e), "Invalid sector33 code");
    let e = TokyoStockExchange::from_row(row("7203", None, Some(99))).unwrap_err();
    assert_eq!(message(e), "Invalid sector17 code");
}
