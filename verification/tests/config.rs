use pv_hub::config::{
    parse_settings, parse_uint, CellTempModel, ConfigError, IntErrorKind, TranspositionModel,
    WordOrder,
};

fn env(pairs: &[(&str, &str)]) -> Vec<(String, String)> {
    let mut v = vec![
        ("PVHUB_LATITUDE".to_string(), "45.4642".to_string()),
        ("PVHUB_LONGITUDE".to_string(), "9.19".to_string()),
    ];
    for (k, val) in pairs {
        v.retain(|(key, _)| key != k);
        v.push((k.to_string(), val.to_string()));
    }
    v
}

#[test]
fn settings_defaults() {
    let c = parse_settings(&env(&[])).unwrap();
    assert_eq!(c.modbus_port, 502);
    assert_eq!(c.modbus_word_order, WordOrder::Abcd);
    assert!(c.modbus_holding_mirror);
    assert!(c.modbus_enable);
    assert_eq!(c.modbus_unit_id, 1);
    assert_eq!(c.transposition, TranspositionModel::HayDavies);
    assert_eq!(c.celltemp, CellTempModel::Faiman);
    assert_eq!(c.site_name, "pv-hub");
    assert_eq!(c.poll_interval_s, 600);
    assert_eq!(c.solar_interval_s, 60);
    assert_eq!(c.provider, "openmeteo");
    assert_eq!(c.openmeteo_base_url, "https://api.open-meteo.com/v1/forecast");
    assert!(c.openmeteo_api_key.is_none());
    assert_eq!(c.http_bind, "0.0.0.0");
    assert_eq!(c.http_port, 8080);
    assert_eq!(c.modbus_bind, "0.0.0.0");
    assert_eq!(c.default_theme, "auto");
    assert_eq!(c.log_level, "info");
}

#[test]
fn settings_overrides_are_applied() {
    let c = parse_settings(&env(&[
        ("PVHUB_MODBUS_WORD_ORDER", "cdab"),
        ("PVHUB_CELLTEMP", "noct"),
        ("PVHUB_TRANSPOSITION", "perez"),
        ("PVHUB_MODBUS_UNIT_ID", "+17"),
        ("PVHUB_MODBUS_ENABLE", "OFF"),
        ("PVHUB_MODBUS_HOLDING_MIRROR", "No"),
        ("PVHUB_OPENMETEO_API_KEY", "k"),
    ]))
    .unwrap();
    assert_eq!(c.modbus_word_order, WordOrder::Cdab);
    assert_eq!(c.celltemp, CellTempModel::Noct);
    assert_eq!(c.transposition, TranspositionModel::Perez);
    assert_eq!(c.modbus_unit_id, 17);
    assert!(!c.modbus_enable);
    assert!(!c.modbus_holding_mirror);
    assert_eq!(c.openmeteo_api_key.as_deref(), Some("k"));
}

#[test]
fn ha_defaults_and_overrides() {
    let c = parse_settings(&env(&[])).unwrap();
    assert!(!c.ha_enable);
    assert_eq!(c.ha_mqtt_host, "localhost");
    assert_eq!(c.ha_mqtt_port, 1883);
    assert_eq!(c.ha_mqtt_client_id, "pvhub");
    assert_eq!(c.ha_discovery_prefix, "homeassistant");
    assert_eq!(c.ha_node_id, "pvhub");
    assert_eq!(c.ha_publish_interval_s, 30);
    assert!(c.ha_mqtt_username.is_none());
    assert!(c.ha_mqtt_password.is_none());

    let m = env(&[
        ("PVHUB_HA_ENABLE", "true"),
        ("PVHUB_HA_MQTT_HOST", "broker.local"),
        ("PVHUB_HA_MQTT_PORT", "8883"),
        ("PVHUB_HA_MQTT_USERNAME", "user"),
        ("PVHUB_HA_MQTT_PASSWORD", "secret"),
        ("PVHUB_HA_NODE_ID", "roof"),
        ("PVHUB_HA_PUBLISH_INTERVAL_S", "15"),
    ]);
    let c = parse_settings(&m).unwrap();
    assert!(c.ha_enable);
    assert_eq!(c.ha_mqtt_host, "broker.local");
    assert_eq!(c.ha_mqtt_port, 8883);
    assert_eq!(c.ha_mqtt_username.as_deref(), Some("user"));
    assert_eq!(c.ha_mqtt_password.as_deref(), Some("secret"));
    assert_eq!(c.ha_node_id, "roof");
    assert_eq!(c.ha_publish_interval_s, 15);
}

#[test]
fn flags_accept_the_documented_spellings() {
    for v in ["1", "true", "TRUE", "Yes", "on", "On"] {
        assert!(parse_settings(&env(&[("PVHUB_HA_ENABLE", v)])).unwrap().ha_enable, "{v}");
    }
    for v in ["0", "false", "", "y", "enable", "tru"] {
        assert!(!parse_settings(&env(&[("PVHUB_HA_ENABLE", v)])).unwrap().ha_enable, "{v}");
    }
}

#[test]
fn invalid_choices_are_refused_in_order() {
    let e = parse_settings(&env(&[("PVHUB_CELLTEMP", "x"), ("PVHUB_TRANSPOSITION", "y")]))
        .unwrap_err();
    assert_eq!(e.message(), "PVHUB_TRANSPOSITION invalid: y");
    let e = parse_settings(&env(&[("PVHUB_CELLTEMP", "Faiman")])).unwrap_err();
    assert_eq!(e.message(), "PVHUB_CELLTEMP invalid: Faiman");
    let e = parse_settings(&env(&[("PVHUB_MODBUS_WORD_ORDER", "badc"), ("PVHUB_HTTP_PORT", "x")]))
        .unwrap_err();
    assert_eq!(e.message(), "PVHUB_MODBUS_WORD_ORDER invalid: badc");
}

#[test]
fn bad_integers_are_refused_with_std_text() {
    let e = parse_settings(&env(&[("PVHUB_HTTP_PORT", "70000")])).unwrap_err();
    assert!(matches!(e, ConfigError::BadInteger { key: "PVHUB_HTTP_PORT", kind: IntErrorKind::PosOverflow }));
    let std_err = "70000".parse::<u16>().unwrap_err();
    assert_eq!(e.message(), format!("PVHUB_HTTP_PORT: {std_err}"));
    let e = parse_settings(&env(&[("PVHUB_MODBUS_UNIT_ID", "")])).unwrap_err();
    let std_err = "".parse::<u8>().unwrap_err();
    assert_eq!(e.message(), format!("PVHUB_MODBUS_UNIT_ID: {std_err}"));
    let e = parse_settings(&env(&[
        ("PVHUB_HA_PUBLISH_INTERVAL_S", "x"),
        ("PVHUB_POLL_INTERVAL_S", "-1"),
    ]))
    .unwrap_err();
    let std_err = "-1".parse::<u64>().unwrap_err();
    assert_eq!(e.message(), format!("PVHUB_POLL_INTERVAL_S: {std_err}"));
}

#[test]
fn parse_uint_agrees_with_std() {
    let cases = [
        "", "+", "-", "0", "7", "+7", "-7", "007", "255", "256", "65535", "65536", "1_0", " 1",
        "1 ", "12a", "a12", "18446744073709551615", "18446744073709551616", "99999999999999999999x",
        "1x99999999999999999999", "+0", "++1", "²", "١٢",
    ];
    for s in cases {
        let want8 = s.parse::<u8>().map(u64::from).map_err(|e| e.to_string());
        let got8 = parse_uint(s, u8::MAX as u64).map_err(|k| kind_text(k).to_string());
        assert_eq!(got8, want8, "u8 {s:?}");
        let want16 = s.parse::<u16>().map(u64::from).map_err(|e| e.to_string());
        let got16 = parse_uint(s, u16::MAX as u64).map_err(|k| kind_text(k).to_string());
        assert_eq!(got16, want16, "u16 {s:?}");
        let want64 = s.parse::<u64>().map_err(|e| e.to_string());
        let got64 = parse_uint(s, u64::MAX).map_err(|k| kind_text(k).to_string());
        assert_eq!(got64, want64, "u64 {s:?}");
    }
}

fn kind_text(k: IntErrorKind) -> &'static str {
    match k {
        IntErrorKind::Empty => "cannot parse integer from empty string",
        IntErrorKind::InvalidDigit => "invalid digit found in string",
        IntErrorKind::PosOverflow => "number too large to fit in target type",
    }
}

#[test]
fn decimal_text_reads_back_and_one_past_max_overflows() {
    for n in 0u64..=70_000 {
        let text = n.to_string();
        if n <= u16::MAX as u64 {
            assert_eq!(parse_uint(&text, u16::MAX as u64), Ok(n));
        } else {
            assert_eq!(parse_uint(&text, u16::MAX as u64), Err(IntErrorKind::PosOverflow));
        }
    }
    assert_eq!(parse_uint("256", 255), Err(IntErrorKind::PosOverflow));
    assert_eq!(parse_uint("18446744073709551615", u64::MAX), Ok(u64::MAX));
}
