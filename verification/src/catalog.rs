use vstd::prelude::*;

use crate::model::Metric;

verus! {

/// How a metric is encoded in its two Modbus registers.
#[derive(Debug, Clone, Copy, PartialEq, Eq, Structural)]
pub enum RegKind {
    F32,
    U32,
}

/// One catalog line: a metric's identity, presentation and Modbus placement.
#[derive(Debug, Clone, Copy)]
pub struct MetricDef {
    pub metric: Metric,
    pub id: &'static str,
    pub label: &'static str,
    pub unit: &'static str,
    pub category: &'static str,
    pub register: u16,
    pub kind: RegKind,
}

/// Number of lines in the catalog.
pub open spec fn catalog_len() -> nat {
    32
}

/// Line `i` of the catalog (meaningful for `0 <= i < catalog_len()`).
pub open spec fn catalog_entry(i: int) -> MetricDef {
    if i == 0 {
        MetricDef { metric: Metric::Ghi, id: "ghi", label: "GHI", unit: "W/m2", category: "irradiance", register: 0, kind: RegKind::F32 }
    } else if i == 1 {
        MetricDef { metric: Metric::Dni, id: "dni", label: "DNI", unit: "W/m2", category: "irradiance", register: 2, kind: RegKind::F32 }
    } else if i == 2 {
        MetricDef { metric: Metric::Dhi, id: "dhi", label: "DHI", unit: "W/m2", category: "irradiance", register: 4, kind: RegKind::F32 }
    } else if i == 3 {
        MetricDef { metric: Metric::PoaLocal, id: "poa_local", label: "POA local", unit: "W/m2", category: "irradiance", register: 6, kind: RegKind::F32 }
    } else if i == 4 {
        MetricDef { metric: Metric::PoaProvider, id: "poa_provider", label: "POA provider", unit: "W/m2", category: "irradiance", register: 8, kind: RegKind::F32 }
    } else if i == 5 {
        MetricDef { metric: Metric::PoaDeltaPct, id: "poa_delta_pct", label: "POA delta", unit: "%", category: "irradiance", register: 10, kind: RegKind::F32 }
    } else if i == 6 {
        MetricDef { metric: Metric::ClearskyGhi, id: "clearsky_ghi", label: "Clear-sky GHI", unit: "W/m2", category: "irradiance", register: 12, kind: RegKind::F32 }
    } else if i == 7 {
        MetricDef { metric: Metric::ClearskyIndex, id: "clearsky_index", label: "Clearness kt", unit: "", category: "irradiance", register: 14, kind: RegKind::F32 }
    } else if i == 8 {
        MetricDef { metric: Metric::Extraterrestrial, id: "extraterrestrial", label: "Extraterrestrial", unit: "W/m2", category: "irradiance", register: 16, kind: RegKind::F32 }
    } else if i == 9 {
        MetricDef { metric: Metric::SunElevation, id: "sun_elevation", label: "Sun elevation", unit: "deg", category: "geometry", register: 30, kind: RegKind::F32 }
    } else if i == 10 {
        MetricDef { metric: Metric::SunAzimuth, id: "sun_azimuth", label: "Sun azimuth", unit: "deg", category: "geometry", register: 32, kind: RegKind::F32 }
    } else if i == 11 {
        MetricDef { metric: Metric::SunZenith, id: "sun_zenith", label: "Sun zenith", unit: "deg", category: "geometry", register: 34, kind: RegKind::F32 }
    } else if i == 12 {
        MetricDef { metric: Metric::Aoi, id: "aoi", label: "AOI", unit: "deg", category: "geometry", register: 36, kind: RegKind::F32 }
    } else if i == 13 {
        MetricDef { metric: Metric::AirMass, id: "air_mass", label: "Air mass", unit: "", category: "geometry", register: 38, kind: RegKind::F32 }
    } else if i == 14 {
        MetricDef { metric: Metric::IsDaytime, id: "is_daytime", label: "Daytime", unit: "", category: "geometry", register: 40, kind: RegKind::F32 }
    } else if i == 15 {
        MetricDef { metric: Metric::AmbientTemp, id: "ambient_temp", label: "Ambient temp", unit: "degC", category: "temperature", register: 50, kind: RegKind::F32 }
    } else if i == 16 {
        MetricDef { metric: Metric::ModuleTemp, id: "module_temp", label: "Module temp", unit: "degC", category: "temperature", register: 52, kind: RegKind::F32 }
    } else if i == 17 {
        MetricDef { metric: Metric::WindSpeed, id: "wind_speed", label: "Wind speed", unit: "m/s", category: "meteo", register: 60, kind: RegKind::F32 }
    } else if i == 18 {
        MetricDef { metric: Metric::WindDirection, id: "wind_direction", label: "Wind dir", unit: "deg", category: "meteo", register: 62, kind: RegKind::F32 }
    } else if i == 19 {
        MetricDef { metric: Metric::RelHumidity, id: "rel_humidity", label: "Humidity", unit: "%", category: "meteo", register: 64, kind: RegKind::F32 }
    } else if i == 20 {
        MetricDef { metric: Metric::CloudCover, id: "cloud_cover", label: "Cloud cover", unit: "%", category: "meteo", register: 66, kind: RegKind::F32 }
    } else if i == 21 {
        MetricDef { metric: Metric::Precipitation, id: "precipitation", label: "Precipitation", unit: "mm", category: "meteo", register: 68, kind: RegKind::F32 }
    } else if i == 22 {
        MetricDef { metric: Metric::SurfacePressure, id: "surface_pressure", label: "Pressure", unit: "hPa", category: "meteo", register: 70, kind: RegKind::F32 }
    } else if i == 23 {
        MetricDef { metric: Metric::Latitude, id: "latitude", label: "Latitude", unit: "deg", category: "site", register: 90, kind: RegKind::F32 }
    } else if i == 24 {
        MetricDef { metric: Metric::Longitude, id: "longitude", label: "Longitude", unit: "deg", category: "site", register: 92, kind: RegKind::F32 }
    } else if i == 25 {
        MetricDef { metric: Metric::Tilt, id: "tilt", label: "Tilt", unit: "deg", category: "site", register: 94, kind: RegKind::F32 }
    } else if i == 26 {
        MetricDef { metric: Metric::Azimuth, id: "azimuth", label: "Azimuth", unit: "deg", category: "site", register: 96, kind: RegKind::F32 }
    } else if i == 27 {
        MetricDef { metric: Metric::Albedo, id: "albedo", label: "Albedo", unit: "", category: "site", register: 98, kind: RegKind::F32 }
    } else if i == 28 {
        MetricDef { metric: Metric::DataAge, id: "data_age", label: "Data age", unit: "s", category: "health", register: 110, kind: RegKind::F32 }
    } else if i == 29 {
        MetricDef { metric: Metric::LastUpdateEpoch, id: "last_update_epoch", label: "Last update", unit: "s", category: "health", register: 112, kind: RegKind::U32 }
    } else if i == 30 {
        MetricDef { metric: Metric::ProviderOk, id: "provider_ok", label: "Provider OK", unit: "", category: "health", register: 114, kind: RegKind::F32 }
    } else {
        MetricDef { metric: Metric::PollErrorsTotal, id: "poll_errors_total", label: "Poll errors", unit: "", category: "health", register: 116, kind: RegKind::F32 }
    }
}

/// The catalog as a sequence: the single source of truth for every metric.
pub open spec fn spec_catalog() -> Seq<MetricDef> {
    Seq::new(catalog_len(), |i: int| catalog_entry(i))
}

/// Single source of truth for every metric: label, unit, and Modbus placement.
pub fn catalog() -> (res: Vec<MetricDef>)
    ensures
        res@ == spec_catalog(),
{
    let res = vec![
MetricDef { metric: Metric::Ghi, id: "ghi", label: "GHI", unit: "W/m2", category: "irradiance", register: 0, kind: RegKind::F32 },
        MetricDef { metric: Metric::Dni, id: "dni", label: "DNI", unit: "W/m2", category: "irradiance", register: 2, kind: RegKind::F32 },
        MetricDef { metric: Metric::Dhi, id: "dhi", label: "DHI", unit: "W/m2", category: "irradiance", register: 4, kind: RegKind::F32 },
        MetricDef { metric: Metric::PoaLocal, id: "poa_local", label: "POA local", unit: "W/m2", category: "irradiance", register: 6, kind: RegKind::F32 },
        MetricDef { metric: Metric::PoaProvider, id: "poa_provider", label: "POA provider", unit: "W/m2", category: "irradiance", register: 8, kind: RegKind::F32 },
        MetricDef { metric: Metric::PoaDeltaPct, id: "poa_delta_pct", label: "POA delta", unit: "%", category: "irradiance", register: 10, kind: RegKind::F32 },
        MetricDef { metric: Metric::ClearskyGhi, id: "clearsky_ghi", label: "Clear-sky GHI", unit: "W/m2", category: "irradiance", register: 12, kind: RegKind::F32 },
        MetricDef { metric: Metric::ClearskyIndex, id: "clearsky_index", label: "Clearness kt", unit: "", category: "irradiance", register: 14, kind: RegKind::F32 },
        MetricDef { metric: Metric::Extraterrestrial, id: "extraterrestrial", label: "Extraterrestrial", unit: "W/m2", category: "irradiance", register: 16, kind: RegKind::F32 },
        MetricDef { metric: Metric::SunElevation, id: "sun_elevation", label: "Sun elevation", unit: "deg", category: "geometry", register: 30, kind: RegKind::F32 },
        MetricDef { metric: Metric::SunAzimuth, id: "sun_azimuth", label: "Sun azimuth", unit: "deg", category: "geometry", register: 32, kind: RegKind::F32 },
        MetricDef { metric: Metric::SunZenith, id: "sun_zenith", label: "Sun zenith", unit: "deg", category: "geometry", register: 34, kind: RegKind::F32 },
        MetricDef { metric: Metric::Aoi, id: "aoi", label: "AOI", unit: "deg", category: "geometry", register: 36, kind: RegKind::F32 },
        MetricDef { metric: Metric::AirMass, id: "air_mass", label: "Air mass", unit: "", category: "geometry", register: 38, kind: RegKind::F32 },
        MetricDef { metric: Metric::IsDaytime, id: "is_daytime", label: "Daytime", unit: "", category: "geometry", register: 40, kind: RegKind::F32 },
        MetricDef { metric: Metric::AmbientTemp, id: "ambient_temp", label: "Ambient temp", unit: "degC", category: "temperature", register: 50, kind: RegKind::F32 },
        MetricDef { metric: Metric::ModuleTemp, id: "module_temp", label: "Module temp", unit: "degC", category: "temperature", register: 52, kind: RegKind::F32 },
        MetricDef { metric: Metric::WindSpeed, id: "wind_speed", label: "Wind speed", unit: "m/s", category: "meteo", register: 60, kind: RegKind::F32 },
        MetricDef { metric: Metric::WindDirection, id: "wind_direction", label: "Wind dir", unit: "deg", category: "meteo", register: 62, kind: RegKind::F32 },
        MetricDef { metric: Metric::RelHumidity, id: "rel_humidity", label: "Humidity", unit: "%", category: "meteo", register: 64, kind: RegKind::F32 },
        MetricDef { metric: Metric::CloudCover, id: "cloud_cover", label: "Cloud cover", unit: "%", category: "meteo", register: 66, kind: RegKind::F32 },
        MetricDef { metric: Metric::Precipitation, id: "precipitation", label: "Precipitation", unit: "mm", category: "meteo", register: 68, kind: RegKind::F32 },
        MetricDef { metric: Metric::SurfacePressure, id: "surface_pressure", label: "Pressure", unit: "hPa", category: "meteo", register: 70, kind: RegKind::F32 },
        MetricDef { metric: Metric::Latitude, id: "latitude", label: "Latitude", unit: "deg", category: "site", register: 90, kind: RegKind::F32 },
        MetricDef { metric: Metric::Longitude, id: "longitude", label: "Longitude", unit: "deg", category: "site", register: 92, kind: RegKind::F32 },
        MetricDef { metric: Metric::Tilt, id: "tilt", label: "Tilt", unit: "deg", category: "site", register: 94, kind: RegKind::F32 },
        MetricDef { metric: Metric::Azimuth, id: "azimuth", label: "Azimuth", unit: "deg", category: "site", register: 96, kind: RegKind::F32 },
        MetricDef { metric: Metric::Albedo, id: "albedo", label: "Albedo", unit: "", category: "site", register: 98, kind: RegKind::F32 },
        MetricDef { metric: Metric::DataAge, id: "data_age", label: "Data age", unit: "s", category: "health", register: 110, kind: RegKind::F32 },
        MetricDef { metric: Metric::LastUpdateEpoch, id: "last_update_epoch", label: "Last update", unit: "s", category: "health", register: 112, kind: RegKind::U32 },
        MetricDef { metric: Metric::ProviderOk, id: "provider_ok", label: "Provider OK", unit: "", category: "health", register: 114, kind: RegKind::F32 },
        MetricDef { metric: Metric::PollErrorsTotal, id: "poll_errors_total", label: "Poll errors", unit: "", category: "health", register: 116, kind: RegKind::F32 },
    ];
    assert(res@ =~= spec_catalog());
    res
}

/// The catalog line that describes `m`.
pub open spec fn metric_index(m: Metric) -> int {
    match m {
        Metric::Ghi => 0,
        Metric::Dni => 1,
        Metric::Dhi => 2,
        Metric::PoaLocal => 3,
        Metric::PoaProvider => 4,
        Metric::PoaDeltaPct => 5,
        Metric::ClearskyGhi => 6,
        Metric::ClearskyIndex => 7,
        Metric::Extraterrestrial => 8,
        Metric::SunElevation => 9,
        Metric::SunAzimuth => 10,
        Metric::SunZenith => 11,
        Metric::Aoi => 12,
        Metric::AirMass => 13,
        Metric::IsDaytime => 14,
        Metric::AmbientTemp => 15,
        Metric::ModuleTemp => 16,
        Metric::WindSpeed => 17,
        Metric::WindDirection => 18,
        Metric::RelHumidity => 19,
        Metric::CloudCover => 20,
        Metric::Precipitation => 21,
        Metric::SurfacePressure => 22,
        Metric::Latitude => 23,
        Metric::Longitude => 24,
        Metric::Tilt => 25,
        Metric::Azimuth => 26,
        Metric::Albedo => 27,
        Metric::DataAge => 28,
        Metric::LastUpdateEpoch => 29,
        Metric::ProviderOk => 30,
        Metric::PollErrorsTotal => 31,
    }
}

/// One past the highest register word used by the first `n` catalog lines
/// (0 when `n == 0`).
pub open spec fn register_end(n: int) -> int
    decreases n,
{
    if n <= 0 {
        0
    } else {
        let prev = register_end(n - 1);
        let end = catalog_entry(n - 1).register + 2;
        if end > prev {
            end
        } else {
            prev
        }
    }
}

/// The catalog line that describes `metric`: always present, since every
/// variant of `Metric` has exactly one line.
pub fn def_for(metric: Metric) -> (res: Option<MetricDef>)
    ensures
        res == Some(catalog_entry(metric_index(metric))),
{
    let cat = catalog();
    let mut i: usize = 0;
    proof {
        lemma_metric_index(metric);
    }
    while i < cat.len()
        invariant
            cat@ == spec_catalog(),
            0 <= i <= cat.len(),
            0 <= metric_index(metric) < catalog_len(),
            catalog_entry(metric_index(metric)).metric == metric,
            forall|k: int| 0 <= k < i ==> catalog_entry(k).metric != metric,
        decreases cat.len() - i,
    {
        if cat[i].metric == metric {
            proof {
                lemma_metric_unique(i as int, metric);
            }
            return Some(cat[i]);
        }
        i = i + 1;
    }
    proof {
        assert(catalog_entry(metric_index(metric)).metric != metric);
    }
    None
}

/// Highest register word used, +1: the bank size needed to hold every metric.
pub fn bank_words() -> (res: usize)
    ensures
        res == register_end(catalog_len() as int),
{
    let cat = catalog();
    let mut best: usize = 0;
    let mut i: usize = 0;
    while i < cat.len()
        invariant
            cat@ == spec_catalog(),
            0 <= i <= cat.len(),
            best == register_end(i as int),
            best <= 65537,
        decreases cat.len() - i,
    {
        let end = cat[i].register as usize + 2;
        if end > best {
            best = end;
        }
        i = i + 1;
    }
    best
}

/// Catalog line `metric_index(m)` describes `m`.
pub proof fn lemma_metric_index(m: Metric)
    ensures
        0 <= metric_index(m) < catalog_len(),
        catalog_entry(metric_index(m)).metric == m,
{
}

/// No other catalog line describes the metric of line `i`.
pub proof fn lemma_metric_unique(i: int, m: Metric)
    requires
        0 <= i < catalog_len(),
        catalog_entry(i).metric == m,
    ensures
        i == metric_index(m),
{
}

/// Every variant of `Metric` has exactly one catalog line, and the lines
/// come in the order of `Metric::ALL`.
pub proof fn law_every_metric_has_one_def(m: Metric, i: int)
    requires
        0 <= i < catalog_len(),
    ensures
        0 <= metric_index(m) < catalog_len(),
        catalog_entry(metric_index(m)).metric == m,
        catalog_entry(i).metric == m ==> i == metric_index(m),
        catalog_entry(i).metric == Metric::ALL[i],
{
    lemma_metric_index(m);
    if catalog_entry(i).metric == m {
        lemma_metric_unique(i, m);
    }
}

/// Consecutive catalog lines leave at least two register words between
/// their base addresses.
proof fn lemma_registers_step(i: int)
    requires
        0 <= i < catalog_len() - 1,
    ensures
        catalog_entry(i).register + 2 <= catalog_entry(i + 1).register,
{
}

pub proof fn lemma_registers_gap(i: int, j: int)
    requires
        0 <= i <= j < catalog_len(),
    ensures
        catalog_entry(i).register + 2 * (j - i) <= catalog_entry(j).register,
    decreases j - i,
{
    if i < j {
        lemma_registers_gap(i, j - 1);
        lemma_registers_step(j - 1);
    }
}

/// No two metrics share a register word: the two words of line `i`
/// (`register` and `register + 1`) are disjoint from those of line `j`, and
/// every word lies inside the bank.
pub proof fn law_no_register_collisions(i: int, j: int)
    requires
        0 <= i < catalog_len(),
        0 <= j < catalog_len(),
        i != j,
    ensures
        catalog_entry(i).register + 1 < catalog_entry(j).register
            || catalog_entry(j).register + 1 < catalog_entry(i).register,
        catalog_entry(i).register + 2 <= register_end(catalog_len() as int),
{
    if i < j {
        lemma_registers_gap(i, j);
    } else {
        lemma_registers_gap(j, i);
    }
    lemma_register_end_bounds(catalog_len() as int, i);
}

pub proof fn lemma_register_end_bounds(n: int, i: int)
    requires
        0 <= i < n <= catalog_len(),
    ensures
        catalog_entry(i).register + 2 <= register_end(n),
    decreases n,
{
    if i < n - 1 {
        lemma_register_end_bounds(n - 1, i);
    }
}

/// The bank holds 118 register words.
pub proof fn law_bank_words()
    ensures
        register_end(catalog_len() as int) == 118,
{
    reveal_with_fuel(register_end, 33);
}


/// Length and first two characters of an id, packed into one number.
spec fn id_key(s: Seq<char>) -> int {
    s.len() * 1000000 + (s[0] as int) * 1000 + (s[1] as int)
}

spec fn expected_id_key(i: int) -> int {
    if i == 0 {
        3103104
    } else if i == 1 {
        3100110
    } else if i == 2 {
        3100104
    } else if i == 3 {
        9112111
    } else if i == 4 {
        12112111
    } else if i == 5 {
        13112111
    } else if i == 6 {
        12099108
    } else if i == 7 {
        14099108
    } else if i == 8 {
        16101120
    } else if i == 9 {
        13115117
    } else if i == 10 {
        11115117
    } else if i == 11 {
        10115117
    } else if i == 12 {
        3097111
    } else if i == 13 {
        8097105
    } else if i == 14 {
        10105115
    } else if i == 15 {
        12097109
    } else if i == 16 {
        11109111
    } else if i == 17 {
        10119105
    } else if i == 18 {
        14119105
    } else if i == 19 {
        12114101
    } else if i == 20 {
        11099108
    } else if i == 21 {
        13112114
    } else if i == 22 {
        16115117
    } else if i == 23 {
        8108097
    } else if i == 24 {
        9108111
    } else if i == 25 {
        4116105
    } else if i == 26 {
        7097122
    } else if i == 27 {
        6097108
    } else if i == 28 {
        8100097
    } else if i == 29 {
        17108097
    } else if i == 30 {
        11112114
    } else {
        17112111
    }
}

proof fn lemma_id_key(i: int)
    requires
        0 <= i < catalog_len(),
    ensures
        id_key(catalog_entry(i).id@) == expected_id_key(i),
{
    if i == 0 {
        reveal_strlit("ghi");
    }
    if i == 1 {
        reveal_strlit("dni");
    }
    if i == 2 {
        reveal_strlit("dhi");
    }
    if i == 3 {
        reveal_strlit("poa_local");
    }
    if i == 4 {
        reveal_strlit("poa_provider");
    }
    if i == 5 {
        reveal_strlit("poa_delta_pct");
    }
    if i == 6 {
        reveal_strlit("clearsky_ghi");
    }
    if i == 7 {
        reveal_strlit("clearsky_index");
    }
    if i == 8 {
        reveal_strlit("extraterrestrial");
    }
    if i == 9 {
        reveal_strlit("sun_elevation");
    }
    if i == 10 {
        reveal_strlit("sun_azimuth");
    }
    if i == 11 {
        reveal_strlit("sun_zenith");
    }
    if i == 12 {
        reveal_strlit("aoi");
    }
    if i == 13 {
        reveal_strlit("air_mass");
    }
    if i == 14 {
        reveal_strlit("is_daytime");
    }
    if i == 15 {
        reveal_strlit("ambient_temp");
    }
    if i == 16 {
        reveal_strlit("module_temp");
    }
    if i == 17 {
        reveal_strlit("wind_speed");
    }
    if i == 18 {
        reveal_strlit("wind_direction");
    }
    if i == 19 {
        reveal_strlit("rel_humidity");
    }
    if i == 20 {
        reveal_strlit("cloud_cover");
    }
    if i == 21 {
        reveal_strlit("precipitation");
    }
    if i == 22 {
        reveal_strlit("surface_pressure");
    }
    if i == 23 {
        reveal_strlit("latitude");
    }
    if i == 24 {
        reveal_strlit("longitude");
    }
    if i == 25 {
        reveal_strlit("tilt");
    }
    if i == 26 {
        reveal_strlit("azimuth");
    }
    if i == 27 {
        reveal_strlit("albedo");
    }
    if i == 28 {
        reveal_strlit("data_age");
    }
    if i == 29 {
        reveal_strlit("last_update_epoch");
    }
    if i == 30 {
        reveal_strlit("provider_ok");
    }
    if i == 31 {
        reveal_strlit("poll_errors_total");
    }
}

/// No two catalog lines share an `id`.
pub proof fn law_ids_unique(i: int, j: int)
    requires
        0 <= i < catalog_len(),
        0 <= j < catalog_len(),
        i != j,
    ensures
        catalog_entry(i).id@ != catalog_entry(j).id@,
{
    lemma_id_key(i);
    lemma_id_key(j);
}

/// The documented register map: every catalog line, in order, with its
/// metric, id, label, unit, category, base register and encoding
/// (ghi at 0, dni at 2, ..., surface_pressure at 70, latitude at 90, ...,
/// last_update_epoch at 112 as an unsigned integer, poll_errors_total at 116).
pub proof fn law_register_map()
    ensures
        catalog_entry(0) == (MetricDef {
            metric: Metric::Ghi,
            id: "ghi",
            label: "GHI",
            unit: "W/m2",
            category: "irradiance",
            register: 0,
            kind: RegKind::F32,
        }),
        catalog_entry(1) == (MetricDef {
            metric: Metric::Dni,
            id: "dni",
            label: "DNI",
            unit: "W/m2",
            category: "irradiance",
            register: 2,
            kind: RegKind::F32,
        }),
        catalog_entry(2) == (MetricDef {
            metric: Metric::Dhi,
            id: "dhi",
            label: "DHI",
            unit: "W/m2",
            category: "irradiance",
            register: 4,
            kind: RegKind::F32,
        }),
        catalog_entry(3) == (MetricDef {
            metric: Metric::PoaLocal,
            id: "poa_local",
            label: "POA local",
            unit: "W/m2",
            category: "irradiance",
            register: 6,
            kind: RegKind::F32,
        }),
        catalog_entry(4) == (MetricDef {
            metric: Metric::PoaProvider,
            id: "poa_provider",
            label: "POA provider",
            unit: "W/m2",
            category: "irradiance",
            register: 8,
            kind: RegKind::F32,
        }),
        catalog_entry(5) == (MetricDef {
            metric: Metric::PoaDeltaPct,
            id: "poa_delta_pct",
            label: "POA delta",
            unit: "%",
            category: "irradiance",
            register: 10,
            kind: RegKind::F32,
        }),
        catalog_entry(6) == (MetricDef {
            metric: Metric::ClearskyGhi,
            id: "clearsky_ghi",
            label: "Clear-sky GHI",
            unit: "W/m2",
            category: "irradiance",
            register: 12,
            kind: RegKind::F32,
        }),
        catalog_entry(7) == (MetricDef {
            metric: Metric::ClearskyIndex,
            id: "clearsky_index",
            label: "Clearness kt",
            unit: "",
            category: "irradiance",
            register: 14,
            kind: RegKind::F32,
        }),
        catalog_entry(8) == (MetricDef {
            metric: Metric::Extraterrestrial,
            id: "extraterrestrial",
            label: "Extraterrestrial",
            unit: "W/m2",
            category: "irradiance",
            register: 16,
            kind: RegKind::F32,
        }),
        catalog_entry(9) == (MetricDef {
            metric: Metric::SunElevation,
            id: "sun_elevation",
            label: "Sun elevation",
            unit: "deg",
            category: "geometry",
            register: 30,
            kind: RegKind::F32,
        }),
        catalog_entry(10) == (MetricDef {
            metric: Metric::SunAzimuth,
            id: "sun_azimuth",
            label: "Sun azimuth",
            unit: "deg",
            category: "geometry",
            register: 32,
            kind: RegKind::F32,
        }),
        catalog_entry(11) == (MetricDef {
            metric: Metric::SunZenith,
            id: "sun_zenith",
            label: "Sun zenith",
            unit: "deg",
            category: "geometry",
            register: 34,
            kind: RegKind::F32,
        }),
        catalog_entry(12) == (MetricDef {
            metric: Metric::Aoi,
            id: "aoi",
            label: "AOI",
            unit: "deg",
            category: "geometry",
            register: 36,
            kind: RegKind::F32,
        }),
        catalog_entry(13) == (MetricDef {
            metric: Metric::AirMass,
            id: "air_mass",
            label: "Air mass",
            unit: "",
            category: "geometry",
            register: 38,
            kind: RegKind::F32,
        }),
        catalog_entry(14) == (MetricDef {
            metric: Metric::IsDaytime,
            id: "is_daytime",
            label: "Daytime",
            unit: "",
            category: "geometry",
            register: 40,
            kind: RegKind::F32,
        }),
        catalog_entry(15) == (MetricDef {
            metric: Metric::AmbientTemp,
            id: "ambient_temp",
            label: "Ambient temp",
            unit: "degC",
            category: "temperature",
            register: 50,
            kind: RegKind::F32,
        }),
        catalog_entry(16) == (MetricDef {
            metric: Metric::ModuleTemp,
            id: "module_temp",
            label: "Module temp",
            unit: "degC",
            category: "temperature",
            register: 52,
            kind: RegKind::F32,
        }),
        catalog_entry(17) == (MetricDef {
            metric: Metric::WindSpeed,
            id: "wind_speed",
            label: "Wind speed",
            unit: "m/s",
            category: "meteo",
            register: 60,
            kind: RegKind::F32,
        }),
        catalog_entry(18) == (MetricDef {
            metric: Metric::WindDirection,
            id: "wind_direction",
            label: "Wind dir",
            unit: "deg",
            category: "meteo",
            register: 62,
            kind: RegKind::F32,
        }),
        catalog_entry(19) == (MetricDef {
            metric: Metric::RelHumidity,
            id: "rel_humidity",
            label: "Humidity",
            unit: "%",
            category: "meteo",
            register: 64,
            kind: RegKind::F32,
        }),
        catalog_entry(20) == (MetricDef {
            metric: Metric::CloudCover,
            id: "cloud_cover",
            label: "Cloud cover",
            unit: "%",
            category: "meteo",
            register: 66,
            kind: RegKind::F32,
        }),
        catalog_entry(21) == (MetricDef {
            metric: Metric::Precipitation,
            id: "precipitation",
            label: "Precipitation",
            unit: "mm",
            category: "meteo",
            register: 68,
            kind: RegKind::F32,
        }),
        catalog_entry(22) == (MetricDef {
            metric: Metric::SurfacePressure,
            id: "surface_pressure",
            label: "Pressure",
            unit: "hPa",
            category: "meteo",
            register: 70,
            kind: RegKind::F32,
        }),
        catalog_entry(23) == (MetricDef {
            metric: Metric::Latitude,
            id: "latitude",
            label: "Latitude",
            unit: "deg",
            category: "site",
            register: 90,
            kind: RegKind::F32,
        }),
        catalog_entry(24) == (MetricDef {
            metric: Metric::Longitude,
            id: "longitude",
            label: "Longitude",
            unit: "deg",
            category: "site",
            register: 92,
            kind: RegKind::F32,
        }),
        catalog_entry(25) == (MetricDef {
            metric: Metric::Tilt,
            id: "tilt",
            label: "Tilt",
            unit: "deg",
            category: "site",
            register: 94,
            kind: RegKind::F32,
        }),
        catalog_entry(26) == (MetricDef {
            metric: Metric::Azimuth,
            id: "azimuth",
            label: "Azimuth",
            unit: "deg",
            category: "site",
            register: 96,
            kind: RegKind::F32,
        }),
        catalog_entry(27) == (MetricDef {
            metric: Metric::Albedo,
            id: "albedo",
            label: "Albedo",
            unit: "",
            category: "site",
            register: 98,
            kind: RegKind::F32,
        }),
        catalog_entry(28) == (MetricDef {
            metric: Metric::DataAge,
            id: "data_age",
            label: "Data age",
            unit: "s",
            category: "health",
            register: 110,
            kind: RegKind::F32,
        }),
        catalog_entry(29) == (MetricDef {
            metric: Metric::LastUpdateEpoch,
            id: "last_update_epoch",
            label: "Last update",
            unit: "s",
            category: "health",
            register: 112,
            kind: RegKind::U32,
        }),
        catalog_entry(30) == (MetricDef {
            metric: Metric::ProviderOk,
            id: "provider_ok",
            label: "Provider OK",
            unit: "",
            category: "health",
            register: 114,
            kind: RegKind::F32,
        }),
        catalog_entry(31) == (MetricDef {
            metric: Metric::PollErrorsTotal,
            id: "poll_errors_total",
            label: "Poll errors",
            unit: "",
            category: "health",
            register: 116,
            kind: RegKind::F32,
        }),
{
}

} // verus!
