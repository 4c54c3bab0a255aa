use racoon_typper::error::DbError;
use racoon_typper::text_pack::{
    build_import_plan, build_text_pack_export, check_export_language, deduplicated_entries, normalize_name, resolve_import, sniff_source_format,
    valid_language_code, ExportableText, LibraryText, TextPackEntryV1, TextPackEnvelope, TextPackImportPolicy,
    TextPackPayloadV1, TextPackSourceFormat,
};

fn no_json() -> Result<TextPackEnvelope, String> {
    Err("not decoded".to_string())
}

fn validation_message(e: DbError) -> String {
    match e {
        DbError::Validation(m) => m,
        other => panic!("unexpected error {:?}", other),
    }
}

fn entry(name: &str, text: &str) -> TextPackEntryV1 {
    TextPackEntryV1 { name: name.to_string(), text: text.to_string() }
}

#[test]
fn blocks_mapping_names_multiline_blocks_and_autonames_single_lines() {
    let document = "Intro line\n\nTitle\nfirst\nsecond\n\njust one line";
    let payload = resolve_import(document.as_bytes(), Some(TextPackSourceFormat::Blocks), no_json())
        .unwrap()
        .0;
    assert_eq!(payload.texts.len(), 3);
    assert_eq!(payload.language, "en");
    assert_eq!(payload.texts[0].name, "Text 1");
    assert_eq!(payload.texts[0].text, "Intro line");
    assert_eq!(payload.texts[1].name, "Title");
    assert_eq!(payload.texts[1].text, "first\nsecond");
    assert_eq!(payload.texts[2].name, "Text 3");
}

#[test]
fn tsv_mapping_joins_extra_columns_into_the_text() {
    let document = "Deck note\tfront side\tback side\nsingle column only";
    let payload = resolve_import(document.as_bytes(), None, no_json()).unwrap();
    assert_eq!(payload.1, TextPackSourceFormat::Tsv);
    let texts = payload.0.texts;
    assert_eq!(texts[0].name, "Deck note");
    assert_eq!(texts[0].text, "front side back side");
    assert_eq!(texts[1].name, "Text 2");
    assert_eq!(texts[1].text, "single column only");
}

#[test]
fn csv_mapping_supports_quoted_commas_and_escaped_quotes() {
    let document = "\"Quote, comma\",\"say \"\"hi\"\" now\"\nplain,plain text";
    let payload = resolve_import(document.as_bytes(), Some(TextPackSourceFormat::Csv), no_json())
        .unwrap()
        .0;
    assert_eq!(payload.texts.len(), 2);
    assert_eq!(payload.texts[0].name, "Quote, comma");
    assert_eq!(payload.texts[0].text, "say \"hi\" now");
    assert_eq!(payload.texts[1].name, "plain");
    assert_eq!(payload.texts[1].text, "plain text");
}

#[test]
fn csv_unterminated_quote_is_rejected() {
    let broken = "name,\"never closed";
    assert!(resolve_import(broken.as_bytes(), Some(TextPackSourceFormat::Csv), no_json()).is_err());
}

#[test]
fn csv_blank_rows_are_dropped_and_crlf_is_accepted() {
    let document = "a,b\r\n , \r\n\r\nc,\"d\"\"e\"";
    let payload = resolve_import(document.as_bytes(), Some(TextPackSourceFormat::Csv), no_json())
        .unwrap()
        .0;
    assert_eq!(payload.texts.len(), 2);
    assert_eq!(payload.texts[0].name, "a");
    assert_eq!(payload.texts[0].text, "b");
    assert_eq!(payload.texts[1].name, "c");
    assert_eq!(payload.texts[1].text, "d\"e");
}

#[test]
fn invalid_utf8_is_rejected_with_its_message() {
    let e = resolve_import(&[0xFF, 0xFE, 0x00], Some(TextPackSourceFormat::Blocks), no_json())
        .unwrap_err();
    assert_eq!(validation_message(e), "Text pack is not valid UTF-8");
}

#[test]
fn json_sources_use_the_decoded_envelope() {
    let document = "{\"format\": \"racoon-typper-text-pack\"}";
    let envelope = TextPackEnvelope {
        format: "racoon-typper-text-pack".to_string(),
        schema_version: 1,
        payload: TextPackPayloadV1 { language: "ru".to_string(), texts: vec![entry("a", "b")] },
    };
    let (payload, format) = resolve_import(document.as_bytes(), None, Ok(envelope)).unwrap();
    assert_eq!(format, TextPackSourceFormat::Json);
    assert_eq!(payload.language, "ru");
    assert_eq!(payload.texts[0].name, "a");

    let wrong_version = TextPackEnvelope {
        format: "racoon-typper-text-pack".to_string(),
        schema_version: 99,
        payload: TextPackPayloadV1 { language: "en".to_string(), texts: vec![] },
    };
    let e = resolve_import(document.as_bytes(), None, Ok(wrong_version)).unwrap_err();
    assert_eq!(validation_message(e), "Unsupported text pack schema version: 99");

    let no_language = TextPackEnvelope {
        format: "racoon-typper-text-pack".to_string(),
        schema_version: 1,
        payload: TextPackPayloadV1 { language: String::new(), texts: vec![] },
    };
    let e = resolve_import(document.as_bytes(), None, Ok(no_language)).unwrap_err();
    assert_eq!(validation_message(e), "Text pack language is empty");

    let bad_language = TextPackEnvelope {
        format: "racoon-typper-text-pack".to_string(),
        schema_version: 1,
        payload: TextPackPayloadV1 { language: "RU".to_string(), texts: vec![] },
    };
    assert!(resolve_import(document.as_bytes(), None, Ok(bad_language)).is_err());

    let e = resolve_import(document.as_bytes(), None, Err("eof".to_string())).unwrap_err();
    assert_eq!(validation_message(e), "Invalid text pack document: eof");
}

#[test]
fn invalid_entries_are_rejected_with_the_entry_name() {
    let document = "Name\n";
    let envelope = TextPackEnvelope {
        format: "racoon-typper-text-pack".to_string(),
        schema_version: 1,
        payload: TextPackPayloadV1 {
            language: "en".to_string(),
            texts: vec![entry("ok", "fine"), entry("big", &"x".repeat(10_001))],
        },
    };
    let e = resolve_import(document.as_bytes(), Some(TextPackSourceFormat::Json), Ok(envelope))
        .unwrap_err();
    assert_eq!(
        validation_message(e),
        "Invalid pack entry 'big': Text too long (max 10000 chars)"
    );
}

#[test]
fn entry_count_limit_is_enforced_for_plain_sources() {
    let mut document = String::new();
    for index in 0..501 {
        document.push_str(&format!("entry {index}\n"));
    }
    let e = resolve_import(document.as_bytes(), Some(TextPackSourceFormat::Tsv), no_json()).unwrap_err();
    assert_eq!(validation_message(e), "Text pack exceeds the 500-entry limit");
}

#[test]
fn source_format_names_roundtrip() {
    for format in [
        TextPackSourceFormat::Json,
        TextPackSourceFormat::Blocks,
        TextPackSourceFormat::Tsv,
        TextPackSourceFormat::Csv,
    ] {
        assert_eq!(TextPackSourceFormat::parse(format.as_str()).unwrap(), format);
    }
    let e = TextPackSourceFormat::parse("xml").unwrap_err();
    assert_eq!(validation_message(e), "Unknown text pack source format: xml");
    let e = TextPackSourceFormat::parse("JSON").unwrap_err();
    assert_eq!(validation_message(e), "Unknown text pack source format: JSON");
}

#[test]
fn sniffing_and_language_codes() {
    assert_eq!(sniff_source_format("  {\"a\":1}"), TextPackSourceFormat::Json);
    assert_eq!(sniff_source_format("a\tb"), TextPackSourceFormat::Tsv);
    assert_eq!(sniff_source_format("plain\n\ntext"), TextPackSourceFormat::Blocks);
    assert!(valid_language_code("zh-hk"));
    assert!(!valid_language_code(""));
    assert!(!valid_language_code("RU"));
    assert!(!valid_language_code("abcdefghijklmnopq"));
}

#[test]
fn duplicates_inside_one_pack_are_counted_once() {
    let payload = TextPackPayloadV1 {
        language: "en".to_string(),
        texts: vec![entry("same", "one"), entry(" Same ", "two"), entry("other", "three")],
    };
    let unique = deduplicated_entries(&payload.texts);
    assert_eq!(unique.len(), 2);
    assert_eq!(unique[0].text, "one");
    assert_eq!(unique[1].text, "three");
    assert_eq!(normalize_name("  MiXeD  "), "mixed");

    let existing = vec![
        LibraryText { id: 1, name: "OTHER".to_string(), language: "en".to_string() },
        LibraryText { id: 2, name: "same".to_string(), language: "ru".to_string() },
    ];
    let plan = build_import_plan(&existing, &payload, TextPackSourceFormat::Json, TextPackImportPolicy::Merge);
    assert_eq!(plan.incoming, 3);
    assert_eq!(plan.duplicates_in_pack, 1);
    assert_eq!(plan.existing_in_language, 1);
    assert_eq!(plan.to_skip, 1);
    assert_eq!(plan.to_insert, 1);
    assert_eq!(plan.removed_by_replace, 0);

    let plan = build_import_plan(&existing, &payload, TextPackSourceFormat::Json, TextPackImportPolicy::Replace);
    assert_eq!(plan.to_skip, 0);
    assert_eq!(plan.to_insert, 2);
    assert_eq!(plan.removed_by_replace, 1);
}

fn lib_text(name: &str, text: &str, language: &str) -> ExportableText {
    ExportableText {
        name: name.to_string(),
        text: text.to_string(),
        language: language.to_string(),
    }
}

#[test]
fn export_takes_the_texts_of_one_language() {
    let texts = vec![
        lib_text("A", "alpha", "en"),
        lib_text("Б", "бета", "ru"),
        lib_text("C", "gamma", "en"),
    ];
    let pack = build_text_pack_export(&texts, Some("en"), "0.1.0", "2026-06-01T00:00:00Z").unwrap();
    assert_eq!(pack.format, "racoon-typper-text-pack");
    assert_eq!(pack.schema_version, 1);
    assert_eq!(pack.application_version, "0.1.0");
    assert_eq!(pack.exported_at, "2026-06-01T00:00:00Z");
    assert_eq!(pack.payload.language, "en");
    let names: Vec<&str> = pack.payload.texts.iter().map(|t| t.name.as_str()).collect();
    assert_eq!(names, vec!["A", "C"]);
    assert_eq!(pack.payload.texts[1].text, "gamma");
}

#[test]
fn export_without_a_language_needs_a_single_language_library() {
    let mixed = vec![lib_text("A", "alpha", "en"), lib_text("Б", "бета", "ru")];
    match build_text_pack_export(&mixed, None, "0.1.0", "now") {
        Err(DbError::Validation(m)) => assert_eq!(
            m,
            "Library mixes several languages; export requires one explicit language"
        ),
        other => panic!("unexpected {:?}", other.map(|_| ())),
    }
    let single = vec![lib_text("A", "alpha", "ru"), lib_text("B", "beta", "ru")];
    let pack = build_text_pack_export(&single, None, "0.1.0", "now").unwrap();
    assert_eq!(pack.payload.language, "ru");
    assert_eq!(pack.payload.texts.len(), 2);
}

#[test]
fn export_language_defaults() {
    let pack = build_text_pack_export(&[], None, "0.1.0", "now").unwrap();
    assert_eq!(pack.payload.language, "en");
    assert!(pack.payload.texts.is_empty());
    let texts = vec![lib_text("A", "alpha", "en")];
    let pack = build_text_pack_export(&texts, Some("de"), "0.1.0", "now").unwrap();
    assert_eq!(pack.payload.language, "de");
    assert!(pack.payload.texts.is_empty());
}

#[test]
fn export_rejects_an_invalid_language_code() {
    match build_text_pack_export(&[], Some("EN"), "0.1.0", "now") {
        Err(DbError::Validation(m)) => assert_eq!(m, "Text pack language is not a valid language code"),
        other => panic!("unexpected {:?}", other.map(|_| ())),
    }
    assert!(check_export_language(Some("pt-br")).is_ok());
    assert!(check_export_language(None).is_ok());
}

#[test]
fn merge_into_other_language_skips_nothing() {
    let payload = TextPackPayloadV1 {
        language: "en".to_string(),
        texts: vec![entry("A", "alpha"), entry("B", "beta"), entry(" a ", "again")],
    };
    let existing = vec![LibraryText { id: 1, name: "a".to_string(), language: "ru".to_string() }];
    let plan = build_import_plan(&existing, &payload, TextPackSourceFormat::Json, TextPackImportPolicy::Merge);
    assert_eq!(plan.to_skip, 0);
    assert_eq!(plan.duplicates_in_pack, 1);
    assert_eq!(plan.to_insert, 2);
}

#[test]
fn merging_the_same_names_again_inserts_nothing() {
    let payload = TextPackPayloadV1 {
        language: "en".to_string(),
        texts: vec![entry("Alpha", "one"), entry("beta", "two")],
    };
    let existing = vec![
        LibraryText { id: 1, name: "alpha ".to_string(), language: "en".to_string() },
        LibraryText { id: 2, name: "BETA".to_string(), language: "en".to_string() },
    ];
    let plan = build_import_plan(&existing, &payload, TextPackSourceFormat::Json, TextPackImportPolicy::Merge);
    assert_eq!(plan.to_insert, 0);
    assert_eq!(plan.to_skip, 2);
}

fn json_pack_document(language: &str, entries: &[(&str, &str)]) -> String {
    let texts: Vec<String> = entries
        .iter()
        .map(|(name, text)| format!("{{\"name\": {:?}, \"text\": {:?}}}", name, text))
        .collect();
    format!(
        "{{\n  \"format\": \"racoon-typper-text-pack\",\n  \"schema_version\": 1,\n  \"language\": {:?},\n  \"texts\": [{}]\n}}",
        language,
        texts.join(",")
    )
}

fn envelope(format: &str, version: u32, language: &str, entries: &[(&str, &str)]) -> TextPackEnvelope {
    TextPackEnvelope {
        format: format.to_string(),
        schema_version: version,
        payload: TextPackPayloadV1 {
            language: language.to_string(),
            texts: entries.iter().map(|(n, t)| entry(n, t)).collect(),
        },
    }
}

#[test]
fn json_sniffing_rejects_foreign_formats_and_versions() {
    let wrong_format = json_pack_document("en", &[("a", "b")]).replace("racoon-typper-text-pack", "other-pack");
    assert!(resolve_import(
        wrong_format.as_bytes(),
        None,
        Ok(envelope("other-pack", 1, "en", &[("a", "b")]))
    )
    .is_err());

    let wrong_version =
        json_pack_document("en", &[("a", "b")]).replace("\"schema_version\": 1", "\"schema_version\": 99");
    assert!(resolve_import(
        wrong_version.as_bytes(),
        None,
        Ok(envelope("racoon-typper-text-pack", 99, "en", &[("a", "b")]))
    )
    .is_err());

    let no_language = r#"{"format":"racoon-typper-text-pack","schema_version":1,"language":"","texts":[]}"#;
    assert!(resolve_import(
        no_language.as_bytes(),
        None,
        Ok(envelope("racoon-typper-text-pack", 1, "", &[]))
    )
    .is_err());

    let bad_language = json_pack_document("RU", &[("a", "b")]);
    assert!(resolve_import(
        bad_language.as_bytes(),
        None,
        Ok(envelope("racoon-typper-text-pack", 1, "RU", &[("a", "b")]))
    )
    .is_err());
}

#[test]
fn invalid_utf8_and_entry_bounds_are_rejected() {
    assert!(resolve_import(&[0xFF, 0xFE, 0x00], None, no_json()).is_err());

    let oversized_text = "x".repeat(10_000 + 1);
    let document = json_pack_document("en", &[("big", &oversized_text)]);
    assert!(resolve_import(
        document.as_bytes(),
        None,
        Ok(envelope("racoon-typper-text-pack", 1, "en", &[("big", &oversized_text)]))
    )
    .is_err());

    let oversized_name = "n".repeat(200 + 1);
    let document = json_pack_document("en", &[(&oversized_name, "ok")]);
    assert!(resolve_import(
        document.as_bytes(),
        None,
        Ok(envelope("racoon-typper-text-pack", 1, "en", &[(&oversized_name, "ok")]))
    )
    .is_err());
}

#[test]
fn entry_count_limit_is_enforced() {
    let entries: Vec<(String, String)> =
        (0..=500).map(|index| (format!("entry-{index}"), "body".to_string())).collect();
    let pairs: Vec<(&str, &str)> = entries.iter().map(|(n, t)| (n.as_str(), t.as_str())).collect();
    let document = json_pack_document("en", &pairs);
    assert!(resolve_import(
        document.as_bytes(),
        None,
        Ok(envelope("racoon-typper-text-pack", 1, "en", &pairs))
    )
    .is_err());
}

#[test]
fn exported_csv_reads_back_as_its_rows() {
    let rows = vec![
        vec!["Name, with comma".to_string(), "say \"hi\"\nthen go".to_string()],
        vec!["plain".to_string(), "text".to_string()],
    ];
    let csv = racoon_typper::analytics::export_csv(&rows);
    let payload = resolve_import(csv.as_bytes(), Some(TextPackSourceFormat::Csv), no_json())
        .unwrap()
        .0;
    assert_eq!(payload.texts.len(), 2);
    assert_eq!(payload.texts[0].name, "Name, with comma");
    assert_eq!(payload.texts[0].text, "say \"hi\"\nthen go");
    assert_eq!(payload.texts[1].name, "plain");
    assert_eq!(payload.texts[1].text, "text");
}

#[test]
fn csv_export_reads_back_through_the_csv_reader() {
    let rows: Vec<Vec<String>> = vec![
        vec!["name".to_string(), "text".to_string()],
        vec!["a, b".to_string(), "say \"hi\"".to_string()],
        vec!["two\nlines".to_string(), "".to_string()],
    ];
    let csv = racoon_typper::analytics::export_csv(&rows);
    let chars: Vec<char> = csv.chars().collect();
    let back = racoon_typper::text_pack::parse_csv_rows(&chars).unwrap();
    let expected: Vec<Vec<Vec<char>>> =
        rows.iter().map(|r| r.iter().map(|c| c.chars().collect()).collect()).collect();
    assert_eq!(back, expected);
    let open_quote: Vec<char> = "\"never closed".chars().collect();
    assert_eq!(racoon_typper::text_pack::parse_csv_rows(&open_quote), None);
}
