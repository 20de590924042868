use roster_ingest::config::{
    configure, uploads_step, Config, CorsPolicy, Setting, Settings, UploadsProbe, UploadsStep,
};
use roster_ingest::mapping::{select_mapping, Mapping, UNIVERSAL_REPORT};
use roster_ingest::schema::{universal_rule, Field, FieldKind, Rule, Sentinels, FIELD_COUNT};

fn settings(debug: &str) -> Settings {
    Settings {
        database_url: Some("postgres://db/roster".to_string()),
        bind_addr: Some("0.0.0.0:3000".to_string()),
        uploads_path: Some("/var/uploads".to_string()),
        debug: Some(debug.to_string()),
        cors_origin: Some("https://roster.example.org".to_string()),
    }
}

#[test]
fn debug_opens_the_service_to_any_origin() {
    let config = configure(settings("true")).unwrap();
    assert_eq!(
        config,
        Config {
            database_url: "postgres://db/roster".to_string(),
            bind_addr: "0.0.0.0:3000".to_string(),
            uploads_path: "/var/uploads".to_string(),
            cors: CorsPolicy::AnyOrigin,
        }
    );
    let mut without_origin = settings("true");
    without_origin.cors_origin = None;
    assert_eq!(configure(without_origin).unwrap().cors, CorsPolicy::AnyOrigin);
}

#[test]
fn anything_but_true_keeps_the_service_to_one_origin() {
    for debug in ["false", "", "TRUE", "1", "true "] {
        assert_eq!(
            configure(settings(debug)).unwrap().cors,
            CorsPolicy::Origin("https://roster.example.org".to_string())
        );
    }
    let mut without_origin = settings("false");
    without_origin.cors_origin = None;
    assert_eq!(configure(without_origin), Err(Setting::CorsOrigin));
}

#[test]
fn the_first_unset_setting_is_named() {
    let mut s = settings("false");
    s.debug = None;
    s.cors_origin = None;
    assert_eq!(configure(s.clone()), Err(Setting::Debug));
    s.uploads_path = None;
    assert_eq!(configure(s.clone()), Err(Setting::UploadsPath));
    s.bind_addr = None;
    assert_eq!(configure(s.clone()), Err(Setting::BindAddr));
    s.database_url = None;
    assert_eq!(configure(s), Err(Setting::DatabaseUrl));
}

#[test]
fn the_uploads_directory_is_made_only_when_the_look_fails() {
    assert_eq!(uploads_step(UploadsProbe::Present), UploadsStep::Proceed);
    assert_eq!(uploads_step(UploadsProbe::Broken), UploadsStep::GiveUp);
    assert_eq!(uploads_step(UploadsProbe::Unknown), UploadsStep::Create);
}

#[test]
fn fields_and_positions_correspond() {
    for index in 0..FIELD_COUNT {
        assert_eq!(Field::at(index).index(), index);
    }
    assert_eq!(Field::at(FIELD_COUNT), Field::RegisteredBy);
    assert_eq!(Field::at(usize::MAX), Field::RegisteredBy);
    assert_eq!(Field::Capid.index(), 0);
    assert_eq!(Field::Unit.index(), 5);
    assert_eq!(Field::RegisteredBy.index(), FIELD_COUNT - 1);
    assert_eq!(Field::Capid.name(), "capid");
    assert_eq!(Field::Capt117Part2.name(), "capt117_part2");
    assert_eq!(Field::HighestORide.name(), "highest_o_ride");
    assert_eq!(Field::Capid.kind(), FieldKind::Integer);
    assert_eq!(Field::IsPilot.kind(), FieldKind::Flag);
    assert_eq!(Field::FirstAid.kind(), FieldKind::Date);
    assert_eq!(Field::Email.kind(), FieldKind::Text);
    assert!(Field::Capid.required());
    assert!(Field::DateOfBirth.required());
    assert!(!Field::MiddleName.required());
    assert!(!Field::InvoiceId.required());
}

#[test]
fn the_universal_report_table_holds_the_rule_of_every_field() {
    let mapping = Mapping::universal_report();
    assert_eq!(mapping.version, UNIVERSAL_REPORT);
    assert_eq!(mapping.rules.len(), FIELD_COUNT);
    for index in 0..FIELD_COUNT {
        let field = Field::at(index);
        assert_eq!(mapping.rules[index], universal_rule(field));
        assert_eq!(mapping.rule(field), universal_rule(field));
        assert!(mapping.rules[index].suits(field));
    }
    assert_eq!(mapping.rule(Field::Capid), Rule::Integer { column: 1 });
    assert_eq!(mapping.rule(Field::Unit), Rule::UnitCode { region: 9, wing: 10, number: 11 });
    assert_eq!(
        mapping.rule(Field::ShirtSize),
        Rule::OptionalText { column: 19, sentinels: Sentinels::placeholders() }
    );
    assert_eq!(mapping.rule(Field::HighestORide), Rule::NumericText { column: 66 });
    assert_eq!(
        mapping.rule(Field::RegisteredBy),
        Rule::OptionalText { column: 87, sentinels: Sentinels::none() }
    );
}

#[test]
fn another_layout_is_a_table_of_fitting_rules() {
    let mut rules = Mapping::universal_report().rules;
    rules[Field::HighestORide.index()] = Rule::Omitted;
    rules[Field::Capid.index()] = Rule::Integer { column: 2 };
    let shifted = Mapping::new(2, rules.clone()).unwrap();
    assert_eq!(shifted.version, 2);
    assert_eq!(shifted.rules, rules);
    rules[Field::Capid.index()] = Rule::Omitted;
    assert_eq!(Mapping::new(3, rules.clone()), None);
    rules[Field::Capid.index()] = Rule::Text { column: 1 };
    assert_eq!(Mapping::new(3, rules.clone()), None);
    rules[Field::Capid.index()] = Rule::OptionalInteger { column: 1, zero_is_absent: false };
    assert_eq!(Mapping::new(3, rules.clone()), None);
    rules.pop();
    assert_eq!(Mapping::new(3, rules), None);
    let tables = vec![Mapping::universal_report(), shifted.clone(), shifted];
    assert_eq!(select_mapping(&tables, 1), Some(0));
    assert_eq!(select_mapping(&tables, 2), Some(1));
    assert_eq!(select_mapping(&tables, 3), None);
    assert_eq!(select_mapping(&Vec::new(), 1), None);
}
