use weather::abbreviations::{
    expand_abbreviations, parse_abbreviation_line, parse_abbreviation_table, AbbreviationTable,
};
use weather::announcements::{generate_weather_announcement, spell_out_icao, AnnouncementFormat};
use weather::numbers::{push_decimal_i32, u32_to_decimal_string};
use weather::{parse_wmo_codes, MetarData, TemperatureReading, WmoCode};

fn table(entries: &[(&str, &str)]) -> AbbreviationTable {
    let mut t = AbbreviationTable::new();
    for (a, b) in entries {
        t.add(a.to_string(), b.to_string());
    }
    t
}

#[test]
fn wmo_codes_and_descriptions() {
    assert_eq!(WmoCode::Rain.code(), "RA");
    assert_eq!(WmoCode::Rain.description(), "Rain");
    assert_eq!(WmoCode::Mist.code(), "BR");
    assert_eq!(WmoCode::Mist.description(), "Mist");
    assert_eq!(WmoCode::FunnelCloud.description(), "Funnel Cloud/Tornado/Waterspout");
    assert_eq!(WmoCode::DustDevils.code(), "PO");
}

#[test]
fn wmo_parsing_finds_codes_in_search_order() {
    assert_eq!(parse_wmo_codes("RA BR"), vec![WmoCode::Rain, WmoCode::Mist]);
    // "TSRA" holds both codes; the result follows the fixed search order,
    // not the order in the string.
    assert_eq!(parse_wmo_codes("TSRA"), vec![WmoCode::Rain, WmoCode::Thunderstorm]);
    assert_eq!(parse_wmo_codes(""), Vec::<WmoCode>::new());
    assert_eq!(parse_wmo_codes("CAVOK"), Vec::<WmoCode>::new());
}

#[test]
fn decimal_rendering() {
    assert_eq!(u32_to_decimal_string(0), "0");
    assert_eq!(u32_to_decimal_string(8000), "8000");
    assert_eq!(u32_to_decimal_string(22050), "22050");
    assert_eq!(u32_to_decimal_string(4294967295), "4294967295");
}

#[test]
fn signed_decimal_rendering() {
    let mut s = String::new();
    push_decimal_i32(&mut s, -12);
    assert_eq!(s, "-12");
    let mut s = String::new();
    push_decimal_i32(&mut s, 0);
    assert_eq!(s, "0");
    let mut s = String::new();
    push_decimal_i32(&mut s, -2147483648);
    assert_eq!(s, "-2147483648");
}

#[test]
fn icao_spelling() {
    assert_eq!(spell_out_icao("KJFK"), "K J F K");
    assert_eq!(spell_out_icao("K"), "K");
    assert_eq!(spell_out_icao(""), "");
}

#[test]
fn abbreviation_lines() {
    assert_eq!(
        parse_abbreviation_line("  INTL = International  "),
        Some(("INTL".to_string(), "International".to_string()))
    );
    assert_eq!(parse_abbreviation_line("# a comment"), None);
    assert_eq!(parse_abbreviation_line("   "), None);
    assert_eq!(parse_abbreviation_line("NOEQUALS"), None);
    // Only the segment up to the second "=" counts, as iterating the
    // "="-separated parts twice does.
    assert_eq!(parse_abbreviation_line("A=B=C"), Some(("A".to_string(), "B".to_string())));
}

#[test]
fn abbreviation_table_from_text() {
    let t = parse_abbreviation_table(
        "# airports\nINTL = International\n\nARPT=Airport\nST.=Saint\n",
    );
    assert_eq!(expand_abbreviations("SFO INTL ARPT", &t), "SFO International Airport");
    assert_eq!(expand_abbreviations("ST. LOUIS", &t), "Saint LOUIS");
}

#[test]
fn expansion_keeps_unknown_words_and_delimiters() {
    let t = table(&[("INTL", "International")]);
    assert_eq!(expand_abbreviations("", &t), "");
    assert_eq!(expand_abbreviations("A/B, C", &t), "A/B, C");
    assert_eq!(expand_abbreviations("INTL INTL", &t), "International International");
    // A word is a maximal run: "INTLX" is not the abbreviation "INTL".
    assert_eq!(expand_abbreviations("INTLX", &t), "INTLX");
    // Digits delimit words.
    assert_eq!(expand_abbreviations("INTL2INTL", &t), "International2International");
}

#[test]
fn later_duplicate_entries_win() {
    let t = table(&[("A", "first"), ("A", "second")]);
    assert_eq!(expand_abbreviations("A", &t), "second");
}

#[test]
fn speech_announcement_text() {
    let t = table(&[("INTL", "International")]);
    let metar = MetarData {
        icao_id: "KSFO".to_string(),
        raw_ob: "KSFO 000000Z".to_string(),
        temp: Some(TemperatureReading { fahrenheit: 64, celsius: 18 }),
        wx_string: Some("RA BR".to_string()),
        name: Some("SAN FRANCISCO INTL".to_string()),
    };
    let a = generate_weather_announcement(&metar, &AnnouncementFormat::Speech, &t);
    assert_eq!(
        a,
        "Weather for K S F O... SAN FRANCISCO International... \
         Temperature... 64 degrees fahrenheit... \
         Current conditions... Rain... Mist..."
    );
    let b = generate_weather_announcement(&metar, &AnnouncementFormat::Brief, &t);
    assert_eq!(a, b);
}

#[test]
fn speech_announcement_with_nothing_reported() {
    let t = AbbreviationTable::new();
    let metar = MetarData {
        icao_id: "EGLL".to_string(),
        raw_ob: "EGLL 000000Z".to_string(),
        temp: None,
        wx_string: None,
        name: None,
    };
    let a = generate_weather_announcement(&metar, &AnnouncementFormat::Speech, &t);
    assert_eq!(a, "Weather for E G L L... Clear conditions...");
}

#[test]
fn detailed_announcement_text() {
    let t = AbbreviationTable::new();
    let metar = MetarData {
        icao_id: "KJFK".to_string(),
        raw_ob: "KJFK 120151Z 18004KT".to_string(),
        temp: Some(TemperatureReading { fahrenheit: 90, celsius: 32 }),
        wx_string: Some("TSRA".to_string()),
        name: None,
    };
    let a = generate_weather_announcement(&metar, &AnnouncementFormat::Detailed, &t);
    assert_eq!(
        a,
        "Detailed weather report for K J F K... \
         Raw METAR... KJFK 120151Z 18004KT... \
         Temperature... 90 degrees fahrenheit... 32 degrees celsius... \
         Weather string... TSRA... \
         Weather codes found... Rain (RA)... Thunderstorm (TS)..."
    );
}

#[test]
fn detailed_announcement_without_temp_or_weather() {
    let t = AbbreviationTable::new();
    let metar = MetarData {
        icao_id: "KRHV".to_string(),
        raw_ob: "KRHV AUTO".to_string(),
        temp: None,
        wx_string: None,
        name: None,
    };
    let a = generate_weather_announcement(&metar, &AnnouncementFormat::Detailed, &t);
    assert_eq!(
        a,
        "Detailed weather report for K R H V... \
         Raw METAR... KRHV AUTO... \
         Temperature... not available... \
         Weather... clear or not reported... No weather codes found..."
    );
}

#[test]
fn aviation_announcement_text() {
    let t = AbbreviationTable::new();
    let metar = MetarData {
        icao_id: "KSFO".to_string(),
        raw_ob: "KSFO 000000Z".to_string(),
        temp: Some(TemperatureReading { fahrenheit: -5, celsius: -21 }),
        wx_string: Some("RA BR".to_string()),
        name: None,
    };
    let a = generate_weather_announcement(&metar, &AnnouncementFormat::Aviation, &t);
    assert_eq!(
        a,
        "K S F O weather... Temperature -5 degrees... Rain... Mist... End weather..."
    );
}

#[test]
fn aviation_announcement_clear() {
    let t = AbbreviationTable::new();
    let metar = MetarData {
        icao_id: "KSJC".to_string(),
        raw_ob: "KSJC".to_string(),
        temp: None,
        wx_string: Some("CAVOK".to_string()),
        name: None,
    };
    let a = generate_weather_announcement(&metar, &AnnouncementFormat::Aviation, &t);
    assert_eq!(a, "K S J C weather... Clear... End weather...");
}
