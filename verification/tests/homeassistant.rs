use std::collections::HashSet;

use pv_hub::catalog::{catalog, def_for};
use pv_hub::config::{parse_settings, Settings};
use pv_hub::model::Metric;
use pv_hub::sinks::homeassistant::discovery::{
    config_topic, discovery_payload, ha_meta, state_topic, status_topic,
};
use pv_hub::sinks::homeassistant::{ha_step, HaAction, MqttEvent, REQUEST_CAP};

fn cfg() -> Settings {
    let env = vec![
        ("PVHUB_LATITUDE".to_string(), "45.4642".to_string()),
        ("PVHUB_LONGITUDE".to_string(), "9.19".to_string()),
    ];
    parse_settings(&env).unwrap()
}

#[test]
fn topics_use_node_and_prefix() {
    assert_eq!(state_topic("pvhub"), "pvhub/pvhub/state");
    assert_eq!(status_topic("roof"), "pvhub/roof/status");
    assert_eq!(
        config_topic("homeassistant", "pvhub", "ghi"),
        "homeassistant/sensor/pvhub/ghi/config"
    );
}

#[test]
fn unit_mapping_normalizes_and_classes() {
    assert_eq!(ha_meta(&def_for(Metric::Ghi).unwrap()), (Some("W/m²"), Some("irradiance"), "measurement"));
    assert_eq!(ha_meta(&def_for(Metric::AmbientTemp).unwrap()), (Some("°C"), Some("temperature"), "measurement"));
    assert_eq!(ha_meta(&def_for(Metric::WindSpeed).unwrap()), (Some("m/s"), Some("wind_speed"), "measurement"));
    assert_eq!(ha_meta(&def_for(Metric::SurfacePressure).unwrap()), (Some("hPa"), Some("atmospheric_pressure"), "measurement"));
    assert_eq!(ha_meta(&def_for(Metric::Precipitation).unwrap()), (Some("mm"), Some("precipitation"), "measurement"));
    assert_eq!(ha_meta(&def_for(Metric::SunAzimuth).unwrap()), (Some("°"), None, "measurement"));
    assert_eq!(ha_meta(&def_for(Metric::DataAge).unwrap()), (Some("s"), Some("duration"), "measurement"));
}

#[test]
fn special_cases_by_id() {
    assert_eq!(ha_meta(&def_for(Metric::RelHumidity).unwrap()), (Some("%"), Some("humidity"), "measurement"));
    assert_eq!(ha_meta(&def_for(Metric::CloudCover).unwrap()), (Some("%"), None, "measurement"));
    assert_eq!(ha_meta(&def_for(Metric::PollErrorsTotal).unwrap()), (None, None, "total_increasing"));
    assert_eq!(ha_meta(&def_for(Metric::ProviderOk).unwrap()), (None, None, "measurement"));
    assert_eq!(ha_meta(&def_for(Metric::IsDaytime).unwrap()), (None, None, "measurement"));
    assert_eq!(ha_meta(&def_for(Metric::LastUpdateEpoch).unwrap()), (Some("s"), None, "measurement"));
}

#[test]
fn empty_unit_metric_has_no_unit() {
    // clearsky_index has an empty catalog unit
    assert_eq!(ha_meta(&def_for(Metric::ClearskyIndex).unwrap()), (None, None, "measurement"));
    let p = discovery_payload(&def_for(Metric::ClearskyIndex).unwrap(), &cfg());
    assert!(p.unit_of_measurement.is_none());
    assert!(p.device_class.is_none());
}

#[test]
fn one_entry_per_metric_with_unique_ids() {
    let cfg = cfg();
    let mut ids = HashSet::new();
    for d in catalog() {
        let uid = discovery_payload(&d, &cfg).unique_id;
        assert!(ids.insert(uid), "duplicate unique_id for {}", d.id);
    }
    assert_eq!(ids.len(), catalog().len());
}

#[test]
fn ghi_payload_shape() {
    let p = discovery_payload(&def_for(Metric::Ghi).unwrap(), &cfg());
    assert_eq!(p.state_topic, "pvhub/pvhub/state");
    assert_eq!(p.value_template, "{{ value_json.metrics.ghi.value }}");
    assert_eq!(p.unit_of_measurement.as_deref(), Some("W/m²"));
    assert_eq!(p.device_class.as_deref(), Some("irradiance"));
    assert_eq!(p.state_class, "measurement");
    assert_eq!(p.unique_id, "pvhub_pvhub_ghi");
    assert_eq!(p.object_id, "pvhub_ghi");
    assert_eq!(p.availability_topic, "pvhub/pvhub/status");
    assert_eq!(p.payload_not_available, "offline");
    assert_eq!(p.device.identifiers[0], "pvhub");
    assert_eq!(p.device.model, "Solarimetro");
    assert_eq!(p.device.manufacturer, "pv-hub");
}

#[test]
fn payload_names_and_device_follow_settings() {
    let env = vec![
        ("PVHUB_HA_NODE_ID".to_string(), "roof".to_string()),
        ("PVHUB_SITE_NAME".to_string(), "My plant".to_string()),
    ];
    let cfg = parse_settings(&env).unwrap();
    let p = discovery_payload(&def_for(Metric::ModuleTemp).unwrap(), &cfg);
    assert_eq!(p.name, "Module temp");
    assert_eq!(p.unique_id, "pvhub_roof_module_temp");
    assert_eq!(p.state_topic, "pvhub/roof/state");
    assert_eq!(p.availability_topic, "pvhub/roof/status");
    assert_eq!(p.payload_available, "online");
    assert_eq!(p.device.identifiers, vec!["roof".to_string()]);
    assert_eq!(p.device.name, "My plant");
    assert_eq!(p.unit_of_measurement.as_deref(), Some("°C"));
}

#[test]
fn device_class_always_has_a_unit() {
    for d in catalog() {
        let (unit, class, _) = ha_meta(&d);
        if class.is_some() {
            assert!(unit.is_some(), "{} has a class but no unit", d.id);
        }
    }
}

#[test]
fn connect_burst_fits_request_channel() {
    assert!(catalog().len() + 2 < REQUEST_CAP);
}

#[test]
fn reconnect_backoff_doubles_to_a_minute() {
    let mut backoff = 1u64;
    let mut sleeps = Vec::new();
    for _ in 0..8 {
        let (action, next) = ha_step(backoff, MqttEvent::Error);
        if let HaAction::Sleep(s) = action {
            sleeps.push(s);
        }
        backoff = next;
    }
    assert_eq!(sleeps, vec![1, 2, 4, 8, 16, 32, 60, 60]);
    assert_eq!(ha_step(backoff, MqttEvent::Other), (HaAction::Continue, 60));
    assert_eq!(ha_step(backoff, MqttEvent::ConnAck), (HaAction::Announce, 1));
}

#[test]
fn config_topics_are_distinct_per_metric() {
    let mut topics = HashSet::new();
    for d in catalog() {
        assert!(topics.insert(config_topic("homeassistant", "roof", d.id)));
    }
    assert_eq!(topics.len(), 32);
    assert!(topics.contains("homeassistant/sensor/roof/poll_errors_total/config"));
}
