//! Topics and MQTT-discovery documents for Home Assistant.
use vstd::prelude::*;

use crate::catalog::MetricDef;
use crate::config::Settings;
use crate::text::{concat2, concat3, str_eq};

verus! {

/// The state topic of a node.
pub open spec fn spec_state_topic(node: Seq<char>) -> Seq<char> {
    "pvhub/"@ + node + "/state"@
}

/// The availability topic of a node.
pub open spec fn spec_status_topic(node: Seq<char>) -> Seq<char> {
    "pvhub/"@ + node + "/status"@
}

/// The discovery config topic of one metric of a node.
pub open spec fn spec_config_topic(prefix: Seq<char>, node: Seq<char>, id: Seq<char>) -> Seq<char> {
    prefix + "/sensor/"@ + node + "/"@ + id + "/config"@
}

/// Single JSON state topic all sensors read via `value_template`.
pub fn state_topic(node: &str) -> (res: String)
    ensures
        res@ == spec_state_topic(node@),
{
    concat3("pvhub/", node, "/state")
}

/// Availability (last will) topic: `online` / `offline`.
pub fn status_topic(node: &str) -> (res: String)
    ensures
        res@ == spec_status_topic(node@),
{
    concat3("pvhub/", node, "/status")
}

/// HA MQTT-discovery config topic for one metric.
pub fn config_topic(prefix: &str, node: &str, id: &str) -> (res: String)
    ensures
        res@ == spec_config_topic(prefix@, node@, id@),
{
    let mut res = concat3(prefix, "/sensor/", node);
    res.append("/");
    res.append(id);
    res.append("/config");
    res
}

/// The character view of an optional string slice.
pub open spec fn opt_str_view(o: Option<&str>) -> Option<Seq<char>> {
    match o {
        Some(s) => Some(s@),
        None => None,
    }
}

/// Home Assistant metadata of a metric, from its `id` and catalog `unit`:
/// `(unit_of_measurement, device_class, state_class)`. A few ids are special
/// cases; otherwise units are normalized to HA-accepted units (`W/m2` ->
/// `W/m²`, `degC` -> `°C`, `deg` -> `°`) with the matching device class.
pub open spec fn spec_ha_meta(id: Seq<char>, unit: Seq<char>) -> (
    Option<Seq<char>>,
    Option<Seq<char>>,
    Seq<char>,
) {
    if id == "rel_humidity"@ {
        (Some("%"@), Some("humidity"@), "measurement"@)
    } else if id == "poll_errors_total"@ {
        (None, None, "total_increasing"@)
    } else if id == "provider_ok"@ || id == "is_daytime"@ {
        (None, None, "measurement"@)
    } else if id == "last_update_epoch"@ {
        (Some("s"@), None, "measurement"@)
    } else if unit == "W/m2"@ {
        (Some("W/m²"@), Some("irradiance"@), "measurement"@)
    } else if unit == "degC"@ {
        (Some("°C"@), Some("temperature"@), "measurement"@)
    } else if unit == "m/s"@ {
        (Some("m/s"@), Some("wind_speed"@), "measurement"@)
    } else if unit == "hPa"@ {
        (Some("hPa"@), Some("atmospheric_pressure"@), "measurement"@)
    } else if unit == "mm"@ {
        (Some("mm"@), Some("precipitation"@), "measurement"@)
    } else if unit == "%"@ {
        (Some("%"@), None, "measurement"@)
    } else if unit == "deg"@ {
        (Some("°"@), None, "measurement"@)
    } else if unit == "s"@ {
        (Some("s"@), Some("duration"@), "measurement"@)
    } else {
        (None, None, "measurement"@)
    }
}

/// Map a metric to Home Assistant metadata:
/// `(unit_of_measurement, device_class, state_class)`.
pub fn ha_meta(d: &MetricDef) -> (res: (Option<&'static str>, Option<&'static str>, &'static str))
    ensures
        (opt_str_view(res.0), opt_str_view(res.1), res.2@) == spec_ha_meta(d.id@, d.unit@),
{
    let id = d.id;
    if str_eq(id, "rel_humidity") {
        return (Some("%"), Some("humidity"), "measurement");
    }
    if str_eq(id, "poll_errors_total") {
        return (None, None, "total_increasing");
    }
    if str_eq(id, "provider_ok") || str_eq(id, "is_daytime") {
        return (None, None, "measurement");
    }
    if str_eq(id, "last_update_epoch") {
        return (Some("s"), None, "measurement");
    }
    let unit = d.unit;
    if str_eq(unit, "W/m2") {
        (Some("W/m²"), Some("irradiance"), "measurement")
    } else if str_eq(unit, "degC") {
        (Some("°C"), Some("temperature"), "measurement")
    } else if str_eq(unit, "m/s") {
        (Some("m/s"), Some("wind_speed"), "measurement")
    } else if str_eq(unit, "hPa") {
        (Some("hPa"), Some("atmospheric_pressure"), "measurement")
    } else if str_eq(unit, "mm") {
        (Some("mm"), Some("precipitation"), "measurement")
    } else if str_eq(unit, "%") {
        (Some("%"), None, "measurement")
    } else if str_eq(unit, "deg") {
        (Some("°"), None, "measurement")
    } else if str_eq(unit, "s") {
        (Some("s"), Some("duration"), "measurement")
    } else {
        (None, None, "measurement")
    }
}

/// The device block shared by every sensor, so that they group under one
/// Home Assistant device.
#[derive(Debug, Clone)]
pub struct DeviceInfo {
    pub identifiers: Vec<String>,
    pub name: String,
    pub manufacturer: String,
    pub model: String,
}

/// The MQTT-discovery config document of one sensor. Absent optional fields
/// are left out of the published document.
#[derive(Debug, Clone)]
pub struct DiscoveryConfig {
    pub name: String,
    pub unique_id: String,
    pub object_id: String,
    pub state_topic: String,
    pub value_template: String,
    pub unit_of_measurement: Option<String>,
    pub device_class: Option<String>,
    pub state_class: String,
    pub availability_topic: String,
    pub payload_available: String,
    pub payload_not_available: String,
    pub device: DeviceInfo,
}

/// The character view of an optional string.
pub open spec fn opt_string_view(o: Option<String>) -> Option<Seq<char>> {
    match o {
        Some(s) => Some(s@),
        None => None,
    }
}

fn opt_to_string(o: Option<&'static str>) -> (res: Option<String>)
    ensures
        opt_string_view(res) == opt_str_view(o),
{
    match o {
        Some(s) => Some(String::from_str(s)),
        None => None,
    }
}

/// Build the HA MQTT-discovery config document for one metric. The sensor
/// reads its value from the single state document, whose metric values sit
/// under a top-level `metrics` key.
pub fn discovery_payload(d: &MetricDef, cfg: &Settings) -> (p: DiscoveryConfig)
    ensures
        p.name@ == d.label@,
        p.unique_id@ == "pvhub_"@ + cfg.ha_node_id@ + "_"@ + d.id@,
        p.object_id@ == "pvhub_"@ + d.id@,
        p.state_topic@ == spec_state_topic(cfg.ha_node_id@),
        p.value_template@ == "{{ value_json.metrics."@ + d.id@ + ".value }}"@,
        opt_string_view(p.unit_of_measurement) == spec_ha_meta(d.id@, d.unit@).0,
        opt_string_view(p.device_class) == spec_ha_meta(d.id@, d.unit@).1,
        p.state_class@ == spec_ha_meta(d.id@, d.unit@).2,
        p.availability_topic@ == spec_status_topic(cfg.ha_node_id@),
        p.payload_available@ == "online"@,
        p.payload_not_available@ == "offline"@,
        p.device.identifiers@.len() == 1,
        p.device.identifiers@[0]@ == cfg.ha_node_id@,
        p.device.name@ == cfg.site_name@,
        p.device.manufacturer@ == "pv-hub"@,
        p.device.model@ == "Solarimetro"@,
{
    let node = cfg.ha_node_id.as_str();
    let (unit, device_class, state_class) = ha_meta(d);
    let mut unique_id = concat3("pvhub_", node, "_");
    unique_id.append(d.id);
    let mut identifiers: Vec<String> = Vec::new();
    identifiers.push(String::from_str(node));
    DiscoveryConfig {
        name: String::from_str(d.label),
        unique_id,
        object_id: concat2("pvhub_", d.id),
        state_topic: state_topic(node),
        value_template: concat3("{{ value_json.metrics.", d.id, ".value }}"),
        unit_of_measurement: opt_to_string(unit),
        device_class: opt_to_string(device_class),
        state_class: String::from_str(state_class),
        availability_topic: status_topic(node),
        payload_available: String::from_str("online"),
        payload_not_available: String::from_str("offline"),
        device: DeviceInfo {
            identifiers,
            name: cfg.site_name.clone(),
            manufacturer: String::from_str("pv-hub"),
            model: String::from_str("Solarimetro"),
        },
    }
}

/// A device class never comes without a unit of measurement (Home Assistant
/// ignores a device class whose unit it cannot check).
pub proof fn law_device_class_has_unit(id: Seq<char>, unit: Seq<char>)
    ensures
        spec_ha_meta(id, unit).1 is Some ==> spec_ha_meta(id, unit).0 is Some,
{
}

/// The sensors of two different catalog lines never share a `unique_id`,
/// whatever the node id.
pub proof fn law_unique_ids_distinct(node: Seq<char>, i: int, j: int)
    requires
        0 <= i < crate::catalog::catalog_len(),
        0 <= j < crate::catalog::catalog_len(),
        i != j,
    ensures
        "pvhub_"@ + node + "_"@ + crate::catalog::catalog_entry(i).id@ != "pvhub_"@ + node + "_"@
            + crate::catalog::catalog_entry(j).id@,
{
    let prefix = "pvhub_"@ + node + "_"@;
    let a = crate::catalog::catalog_entry(i).id@;
    let b = crate::catalog::catalog_entry(j).id@;
    crate::catalog::law_ids_unique(i, j);
    if prefix + a == prefix + b {
        assert((prefix + a).subrange(prefix.len() as int, (prefix + a).len() as int) =~= a);
        assert((prefix + b).subrange(prefix.len() as int, (prefix + b).len() as int) =~= b);
    }
}

/// Two different catalog lines get two different discovery config topics,
/// so no sensor's config overwrites another's.
pub proof fn law_config_topics_distinct(prefix: Seq<char>, node: Seq<char>, i: int, j: int)
    requires
        0 <= i < crate::catalog::catalog_len(),
        0 <= j < crate::catalog::catalog_len(),
        i != j,
    ensures
        spec_config_topic(prefix, node, crate::catalog::catalog_entry(i).id@) != spec_config_topic(
            prefix,
            node,
            crate::catalog::catalog_entry(j).id@,
        ),
{
    let head = prefix + "/sensor/"@ + node + "/"@;
    let tail = "/config"@;
    let a = crate::catalog::catalog_entry(i).id@;
    let b = crate::catalog::catalog_entry(j).id@;
    crate::catalog::law_ids_unique(i, j);
    let ta = head + a + tail;
    let tb = head + b + tail;
    if ta == tb {
        assert(ta.len() == tb.len());
        assert(ta.subrange(head.len() as int, (head.len() + a.len()) as int) =~= a);
        assert(tb.subrange(head.len() as int, (head.len() + b.len()) as int) =~= b);
    }
}

/// The Home Assistant metadata of a metric, by id and unit: `rel_humidity`
/// is the only humidity sensor; `poll_errors_total` is the only
/// `total_increasing` one and has no unit; `provider_ok` and `is_daytime`
/// have neither unit nor class; `last_update_epoch` is in seconds without a
/// class. Every other id follows its unit: `W/m2` -> `W/m²` irradiance,
/// `degC` -> `°C` temperature, `m/s` wind speed, `hPa` atmospheric pressure,
/// `mm` precipitation, `%` and `deg` (`°`) without class, `s` duration, and
/// any other unit gives no unit and no class.
pub proof fn law_ha_meta_table(id: Seq<char>, unit: Seq<char>)
    ensures
        ({
            let special = id == "rel_humidity"@ || id == "poll_errors_total"@ || id == "provider_ok"@
                || id == "is_daytime"@ || id == "last_update_epoch"@;
            &&& id == "rel_humidity"@ ==> spec_ha_meta(id, unit) == (Some("%"@), Some("humidity"@), "measurement"@)
            &&& id == "poll_errors_total"@ ==> spec_ha_meta(id, unit) == (None::<Seq<char>>, None::<Seq<char>>, "total_increasing"@)
            &&& (id == "provider_ok"@ || id == "is_daytime"@) ==> spec_ha_meta(id, unit) == (None::<Seq<char>>, None::<Seq<char>>, "measurement"@)
            &&& id == "last_update_epoch"@ ==> spec_ha_meta(id, unit) == (Some("s"@), None::<Seq<char>>, "measurement"@)
            &&& !special && unit == "W/m2"@ ==> spec_ha_meta(id, unit) == (Some("W/m²"@), Some("irradiance"@), "measurement"@)
            &&& !special && unit == "degC"@ ==> spec_ha_meta(id, unit) == (Some("°C"@), Some("temperature"@), "measurement"@)
            &&& !special && unit == "m/s"@ ==> spec_ha_meta(id, unit) == (Some("m/s"@), Some("wind_speed"@), "measurement"@)
            &&& !special && unit == "hPa"@ ==> spec_ha_meta(id, unit) == (Some("hPa"@), Some("atmospheric_pressure"@), "measurement"@)
            &&& !special && unit == "mm"@ ==> spec_ha_meta(id, unit) == (Some("mm"@), Some("precipitation"@), "measurement"@)
            &&& !special && unit == "%"@ ==> spec_ha_meta(id, unit) == (Some("%"@), None::<Seq<char>>, "measurement"@)
            &&& !special && unit == "deg"@ ==> spec_ha_meta(id, unit) == (Some("°"@), None::<Seq<char>>, "measurement"@)
            &&& !special && unit == "s"@ ==> spec_ha_meta(id, unit) == (Some("s"@), Some("duration"@), "measurement"@)
            &&& !special && unit != "W/m2"@ && unit != "degC"@ && unit != "m/s"@ && unit != "hPa"@ && unit != "mm"@ && unit != "%"@ && unit != "deg"@ && unit != "s"@ ==> spec_ha_meta(id, unit) == (None::<Seq<char>>, None::<Seq<char>>, "measurement"@)
            &&& spec_ha_meta(id, unit).1 == Some("humidity"@) <==> id == "rel_humidity"@
            &&& spec_ha_meta(id, unit).2 == "total_increasing"@ <==> id == "poll_errors_total"@
        }),
{
    reveal_strlit("%");
    reveal_strlit("W/m2");
    reveal_strlit("W/m²");
    reveal_strlit("atmospheric_pressure");
    reveal_strlit("deg");
    reveal_strlit("degC");
    reveal_strlit("duration");
    reveal_strlit("hPa");
    reveal_strlit("humidity");
    reveal_strlit("irradiance");
    reveal_strlit("is_daytime");
    reveal_strlit("last_update_epoch");
    reveal_strlit("m/s");
    reveal_strlit("measurement");
    reveal_strlit("mm");
    reveal_strlit("poll_errors_total");
    reveal_strlit("precipitation");
    reveal_strlit("provider_ok");
    reveal_strlit("rel_humidity");
    reveal_strlit("s");
    reveal_strlit("temperature");
    reveal_strlit("total_increasing");
    reveal_strlit("wind_speed");
    reveal_strlit("°");
    reveal_strlit("°C");
    assert("W/m2"@.len() == 4 && "W/m2"@[0] == 'W');
    assert("degC"@.len() == 4 && "degC"@[0] == 'd');
    assert("m/s"@.len() == 3 && "m/s"@[0] == 'm');
    assert("hPa"@.len() == 3 && "hPa"@[0] == 'h');
    assert("mm"@.len() == 2 && "mm"@[0] == 'm');
    assert("%"@.len() == 1 && "%"@[0] == '%');
    assert("deg"@.len() == 3 && "deg"@[0] == 'd');
    assert("s"@.len() == 1 && "s"@[0] == 's');
    assert("W/m²"@.len() == 4 && "W/m²"@[0] == 'W');
    assert("°C"@.len() == 2 && "°C"@[0] == '°');
    assert("°"@.len() == 1 && "°"@[0] == '°');
    assert("humidity"@.len() == 8 && "humidity"@[0] == 'h');
    assert("irradiance"@.len() == 10 && "irradiance"@[0] == 'i');
    assert("temperature"@.len() == 11 && "temperature"@[0] == 't');
    assert("wind_speed"@.len() == 10 && "wind_speed"@[0] == 'w');
    assert("atmospheric_pressure"@.len() == 20 && "atmospheric_pressure"@[0] == 'a');
    assert("precipitation"@.len() == 13 && "precipitation"@[0] == 'p');
    assert("duration"@.len() == 8 && "duration"@[0] == 'd');
    assert("measurement"@.len() == 11 && "measurement"@[0] == 'm');
    assert("total_increasing"@.len() == 16 && "total_increasing"@[0] == 't');
    assert("rel_humidity"@.len() == 12 && "rel_humidity"@[0] == 'r');
    assert("poll_errors_total"@.len() == 17 && "poll_errors_total"@[0] == 'p');
    assert("provider_ok"@.len() == 11 && "provider_ok"@[0] == 'p');
    assert("is_daytime"@.len() == 10 && "is_daytime"@[0] == 'i');
    assert("last_update_epoch"@.len() == 17 && "last_update_epoch"@[0] == 'l');
}

/// The topics of a node: state on `pvhub/<node>/state`, availability on
/// `pvhub/<node>/status`, each metric's discovery config on
/// `<prefix>/sensor/<node>/<id>/config`; the state and availability topics
/// of a node differ.
pub proof fn law_topics(prefix: Seq<char>, node: Seq<char>, id: Seq<char>)
    ensures
        spec_state_topic(node) == "pvhub/"@ + node + "/state"@,
        spec_status_topic(node) == "pvhub/"@ + node + "/status"@,
        spec_config_topic(prefix, node, id) == prefix + "/sensor/"@ + node + "/"@ + id + "/config"@,
        spec_state_topic(node) != spec_status_topic(node),
{
    reveal_strlit("/state");
    reveal_strlit("/status");
    reveal_strlit("pvhub/");
    assert(spec_state_topic(node).len() != spec_status_topic(node).len());
}

} // verus!
