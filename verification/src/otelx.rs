//! Tracing configuration.
use vstd::prelude::*;

verus! {

/// Tracing configuration, read from `PREFIX`-prefixed environment variables.
/// The head-sampling ratio is held in parts per million.
///
/// | Variable                  | Default                 | Meaning                       |
/// | ------------------------- | ----------------------- | ----------------------------- |
/// | `TASKS_OTEL_ENABLED`      | `false`                 | export traces on/off          |
/// | `TASKS_OTEL_SERVICE_NAME` | `service`               | resource `service.name`       |
/// | `TASKS_OTEL_ENDPOINT`     | `http://localhost:4317` | OTLP/gRPC collector endpoint  |
/// | `TASKS_OTEL_SAMPLER_RATIO`| `1.0`                   | head sampling ratio [0.0–1.0] |
#[derive(Debug, Clone)]
pub struct Config {
    pub otel_enabled: bool,
    pub otel_service_name: String,
    pub otel_endpoint: String,
    pub otel_sampler_ratio_ppm: u32,
}

/// Default service name: `service`.
pub fn default_service() -> (r: String)
    ensures
        r@ == "service"@,
{
    String::from_str("service")
}

/// Default collector endpoint: `http://localhost:4317`.
pub fn default_endpoint() -> (r: String)
    ensures
        r@ == "http://localhost:4317"@,
{
    String::from_str("http://localhost:4317")
}

/// Default sampling ratio: every trace (1 000 000 parts per million).
pub fn default_ratio() -> (r: u32)
    ensures
        r == 1_000_000,
{
    1_000_000
}

impl Default for Config {
    fn default() -> (c: Self)
        ensures
            !c.otel_enabled,
            c.otel_service_name@ == "service"@,
            c.otel_endpoint@ == "http://localhost:4317"@,
            c.otel_sampler_ratio_ppm == 1_000_000,
    {
        Config {
            otel_enabled: false,
            otel_service_name: default_service(),
            otel_endpoint: default_endpoint(),
            otel_sampler_ratio_ppm: default_ratio(),
        }
    }
}

} // verus!
