use vstd::prelude::*;

verus! {

/// Every quantity pv-hub tracks. A variant here plus a `MetricDef` in the
/// catalog is all a metric needs to reach every sink.
#[derive(Debug, Clone, Copy, PartialEq, Eq, Hash, Structural)]
pub enum Metric {
    Ghi,
    Dni,
    Dhi,
    PoaLocal,
    PoaProvider,
    PoaDeltaPct,
    ClearskyGhi,
    ClearskyIndex,
    Extraterrestrial,
    SunElevation,
    SunAzimuth,
    SunZenith,
    Aoi,
    AirMass,
    IsDaytime,
    AmbientTemp,
    ModuleTemp,
    WindSpeed,
    WindDirection,
    RelHumidity,
    CloudCover,
    Precipitation,
    SurfacePressure,
    Latitude,
    Longitude,
    Tilt,
    Azimuth,
    Albedo,
    DataAge,
    LastUpdateEpoch,
    ProviderOk,
    PollErrorsTotal,
}

impl Metric {
    /// All variants, in catalog order.
    pub const ALL: [Metric; 32] = [
        Metric::Ghi,
        Metric::Dni,
        Metric::Dhi,
        Metric::PoaLocal,
        Metric::PoaProvider,
        Metric::PoaDeltaPct,
        Metric::ClearskyGhi,
        Metric::ClearskyIndex,
        Metric::Extraterrestrial,
        Metric::SunElevation,
        Metric::SunAzimuth,
        Metric::SunZenith,
        Metric::Aoi,
        Metric::AirMass,
        Metric::IsDaytime,
        Metric::AmbientTemp,
        Metric::ModuleTemp,
        Metric::WindSpeed,
        Metric::WindDirection,
        Metric::RelHumidity,
        Metric::CloudCover,
        Metric::Precipitation,
        Metric::SurfacePressure,
        Metric::Latitude,
        Metric::Longitude,
        Metric::Tilt,
        Metric::Azimuth,
        Metric::Albedo,
        Metric::DataAge,
        Metric::LastUpdateEpoch,
        Metric::ProviderOk,
        Metric::PollErrorsTotal,
    ];
}

/// Provider health as the hub tracks it: whether the last poll succeeded,
/// and how many polls have failed.
#[derive(Debug, Clone, Copy, PartialEq, Eq, Structural)]
pub struct Health {
    pub provider_ok: bool,
    pub poll_errors_total: u64,
}

/// `h` after an optional provider status is applied.
pub open spec fn spec_apply(h: Health, provider_ok: Option<bool>) -> Health {
    match provider_ok {
        Some(ok) => Health { provider_ok: ok, ..h },
        None => h,
    }
}

/// `h` after one failed poll: one more error, provider down.
pub open spec fn spec_record_poll_error(h: Health) -> Health {
    Health { poll_errors_total: (h.poll_errors_total + 1) as u64, provider_ok: false }
}

impl Health {
    /// Provider not ok, no errors.
    pub fn new() -> (h: Health)
        ensures
            h == (Health { provider_ok: false, poll_errors_total: 0 }),
    {
        Health { provider_ok: false, poll_errors_total: 0 }
    }

    /// Optionally mark the provider status; `None` leaves it as it was.
    pub fn apply(&mut self, provider_ok: Option<bool>)
        ensures
            *final(self) == spec_apply(*old(self), provider_ok),
    {
        if let Some(ok) = provider_ok {
            self.provider_ok = ok;
        }
    }

    /// Count one failed poll and mark the provider down.
    pub fn record_poll_error(&mut self)
        requires
            old(self).poll_errors_total < u64::MAX,
        ensures
            *final(self) == spec_record_poll_error(*old(self)),
    {
        self.poll_errors_total = self.poll_errors_total + 1;
        self.provider_ok = false;
    }
}

/// A failed poll counts one error and marks the provider down whatever came
/// before; a later successful poll marks it up again and leaves the error
/// count as it was.
pub proof fn law_poll_error_then_recovery(h: Health)
    requires
        h.poll_errors_total < u64::MAX,
    ensures
        spec_record_poll_error(h).poll_errors_total == h.poll_errors_total + 1,
        !spec_record_poll_error(h).provider_ok,
        spec_apply(spec_record_poll_error(h), Some(true)) == (Health {
            provider_ok: true,
            poll_errors_total: (h.poll_errors_total + 1) as u64,
        }),
{
}

/// Applying no status changes nothing; applying one twice is the same as once.
pub proof fn law_apply_idempotent(h: Health, provider_ok: Option<bool>)
    ensures
        spec_apply(h, None) == h,
        spec_apply(spec_apply(h, provider_ok), provider_ok) == spec_apply(h, provider_ok),
{
}

} // verus!
