use vstd::prelude::*;

use crate::detect::Thresholds;
use crate::extract::Field;
use crate::ieee::{is_nonnegative, is_finite, Binary64};
use crate::number::{first_visible_char_is, first_visible_is, has_prefix};

verus! {

/// Where and how to reach the device.
#[derive(Clone, Debug)]
pub struct HttpConfig {
    pub endpoint_url: String,
    /// Extra request headers, as name and value.
    pub headers: Option<Vec<(String, String)>>,
    pub timeout_secs: Option<u64>,
}

/// A `/`-separated pointer into the device's JSON for each field; optional
/// fields are read only where a pointer is set.
#[derive(Clone, Debug)]
pub struct JsonPointers {
    pub json_pointer_all_time: String,
    pub json_pointer_boot_best: String,
    pub json_pointer_uptime_secs: Option<String>,
    pub json_pointer_boot_id: Option<String>,
    pub json_pointer_hashrate_ths: Option<String>,
    pub json_pointer_efficiency_j_per_th: Option<String>,
    pub json_pointer_power_w: Option<String>,
    /// Factor that turns the reported hashrate into TH/s.
    pub hashrate_scale: Option<Binary64>,
}

/// Files the monitor writes.
#[derive(Clone, Debug)]
pub struct StorageConfig {
    pub events_path: String,
    pub state_path: String,
}

/// Minimum improvements, each optional.
#[derive(Clone, Copy, Debug, PartialEq, Eq, Structural)]
pub struct ThresholdsConfig {
    pub epsilon_hashrate_ths: Option<Binary64>,
    pub epsilon_efficiency_j_per_th: Option<Binary64>,
}

/// The whole configuration.
#[derive(Clone, Debug)]
pub struct AppConfig {
    pub http: HttpConfig,
    pub pointers: JsonPointers,
    pub poll_interval_secs: u64,
    pub storage: StorageConfig,
    pub thresholds: Option<ThresholdsConfig>,
}

/// The encoding of `0.01`, the threshold used where none is configured.
pub const DEFAULT_EPSILON_BITS: u64 = 0x3f84_7ae1_47ae_147b;

/// Why a configuration was refused.
#[derive(Clone, Debug)]
pub enum ConfigError {
    /// `poll_interval_secs` is 0.
    ZeroPollInterval,
    /// The endpoint starts with neither `http://` nor `https://`.
    BadEndpointScheme,
    /// These fields have a pointer that does not start with `/`, in order.
    BadPointers(Vec<Field>),
    /// The hashrate threshold is negative, NaN or infinite.
    BadHashrateEpsilon,
    /// The efficiency threshold is negative, NaN or infinite.
    BadEfficiencyEpsilon,
}

/// The syntax a configuration file is written in.
#[derive(Clone, Copy, Debug, PartialEq, Eq, Structural)]
pub enum ConfigFormat {
    Json,
    Toml,
}

/// JSON where the first character other than whitespace is `{`, else TOML.
pub fn config_format(text: &str) -> (r: ConfigFormat)
    ensures
        r == (if first_visible_is(text@, '{') { ConfigFormat::Json } else { ConfigFormat::Toml }),
{
    if first_visible_char_is(text, '{') {
        ConfigFormat::Json
    } else {
        ConfigFormat::Toml
    }
}

pub open spec fn is_pointer(p: Seq<char>) -> bool {
    p.len() > 0 && p[0] == '/'
}

pub open spec fn bad_if(f: Field, p: Option<String>) -> Seq<Field> {
    match p {
        Some(s) => if is_pointer(s@) { seq![] } else { seq![f] },
        None => seq![],
    }
}

/// The fields whose pointer is malformed, in declaration order.
pub open spec fn bad_pointers(p: JsonPointers) -> Seq<Field> {
    bad_if(Field::AllTime, Some(p.json_pointer_all_time)) + bad_if(
        Field::BootBest,
        Some(p.json_pointer_boot_best),
    ) + bad_if(Field::UptimeSecs, p.json_pointer_uptime_secs) + bad_if(
        Field::BootId,
        p.json_pointer_boot_id,
    ) + bad_if(Field::HashrateThs, p.json_pointer_hashrate_ths) + bad_if(
        Field::EfficiencyJPerTh,
        p.json_pointer_efficiency_j_per_th,
    ) + bad_if(Field::PowerW, p.json_pointer_power_w)
}

pub open spec fn good_epsilon(e: Option<Binary64>) -> bool {
    match e {
        Some(v) => is_finite(v.0) && is_nonnegative(v.0),
        None => true,
    }
}

pub open spec fn has_http_scheme(url: Seq<char>) -> bool {
    "http://"@.is_prefix_of(url) || "https://"@.is_prefix_of(url)
}

fn check_pointer(out: &mut Vec<Field>, f: Field, p: &Option<String>)
    ensures
        final(out)@ == old(out)@ + bad_if(f, *p),
{
    if let Some(s) = p {
        let ok = s.as_str().unicode_len() > 0 && s.as_str().get_char(0) == '/';
        if !ok {
            out.push(f);
        }
    }
    assert(final(out)@ =~= old(out)@ + bad_if(f, *p));
}

fn epsilon_ok(e: Option<Binary64>) -> (r: bool)
    ensures
        r == good_epsilon(e),
{
    match e {
        Some(v) => v.is_finite() && v.is_nonnegative(),
        None => true,
    }
}

/// Checks, in this order, the poll interval, the endpoint's scheme, every
/// pointer, and the thresholds; the first problem found is returned.
pub fn validate_config(cfg: &AppConfig) -> (r: Result<(), ConfigError>)
    ensures
        cfg.poll_interval_secs == 0 <==> r matches Err(ConfigError::ZeroPollInterval),
        cfg.poll_interval_secs != 0 && !has_http_scheme(cfg.http.endpoint_url@) <==> r matches Err(
            ConfigError::BadEndpointScheme,
        ),
        r matches Err(ConfigError::BadPointers(v)) ==> v@ == bad_pointers(cfg.pointers) && v@.len() > 0,
        cfg.poll_interval_secs != 0 && has_http_scheme(cfg.http.endpoint_url@) && bad_pointers(
            cfg.pointers,
        ).len() > 0 <==> r matches Err(ConfigError::BadPointers(_)),
        cfg.poll_interval_secs != 0 && has_http_scheme(cfg.http.endpoint_url@) && bad_pointers(
            cfg.pointers,
        ).len() == 0 && cfg.thresholds.is_some() && !good_epsilon(
            cfg.thresholds.unwrap().epsilon_hashrate_ths,
        ) <==> r matches Err(ConfigError::BadHashrateEpsilon),
        cfg.poll_interval_secs != 0 && has_http_scheme(cfg.http.endpoint_url@) && bad_pointers(
            cfg.pointers,
        ).len() == 0 && cfg.thresholds.is_some() && good_epsilon(
            cfg.thresholds.unwrap().epsilon_hashrate_ths,
        ) && !good_epsilon(cfg.thresholds.unwrap().epsilon_efficiency_j_per_th) <==> r matches Err(
            ConfigError::BadEfficiencyEpsilon,
        ),
{
    if cfg.poll_interval_secs == 0 {
        return Err(ConfigError::ZeroPollInterval);
    }
    let url = cfg.http.endpoint_url.as_str();
    let http = "http://";
    let https = "https://";
    if !has_prefix(url, http) && !has_prefix(url, https) {
        return Err(ConfigError::BadEndpointScheme);
    }
    let p = &cfg.pointers;
    let mut bad: Vec<Field> = Vec::new();
    let all_time = Some(p.json_pointer_all_time.clone());
    let boot_best = Some(p.json_pointer_boot_best.clone());
    check_pointer(&mut bad, Field::AllTime, &all_time);
    check_pointer(&mut bad, Field::BootBest, &boot_best);
    check_pointer(&mut bad, Field::UptimeSecs, &p.json_pointer_uptime_secs);
    check_pointer(&mut bad, Field::BootId, &p.json_pointer_boot_id);
    check_pointer(&mut bad, Field::HashrateThs, &p.json_pointer_hashrate_ths);
    check_pointer(&mut bad, Field::EfficiencyJPerTh, &p.json_pointer_efficiency_j_per_th);
    check_pointer(&mut bad, Field::PowerW, &p.json_pointer_power_w);
    assert(bad@ =~= bad_pointers(*p));
    if bad.len() > 0 {
        return Err(ConfigError::BadPointers(bad));
    }
    if let Some(t) = &cfg.thresholds {
        if !epsilon_ok(t.epsilon_hashrate_ths) {
            return Err(ConfigError::BadHashrateEpsilon);
        }
        if !epsilon_ok(t.epsilon_efficiency_j_per_th) {
            return Err(ConfigError::BadEfficiencyEpsilon);
        }
    }
    Ok(())
}

pub open spec fn epsilon_or_default(e: Option<Binary64>) -> Binary64 {
    match e {
        Some(v) => v,
        None => Binary64(DEFAULT_EPSILON_BITS),
    }
}

/// The thresholds in force: each configured one, else `0.01`.
pub fn thresholds_of(cfg: &AppConfig) -> (r: Thresholds)
    ensures
        match cfg.thresholds {
            Some(t) => r == (Thresholds {
                epsilon_hashrate_ths: epsilon_or_default(t.epsilon_hashrate_ths),
                epsilon_efficiency_j_per_th: epsilon_or_default(t.epsilon_efficiency_j_per_th),
            }),
            None => r == (Thresholds {
                epsilon_hashrate_ths: Binary64(DEFAULT_EPSILON_BITS),
                epsilon_efficiency_j_per_th: Binary64(DEFAULT_EPSILON_BITS),
            }),
        },
{
    let default = Binary64(DEFAULT_EPSILON_BITS);
    match cfg.thresholds {
        Some(t) => Thresholds {
            epsilon_hashrate_ths: match t.epsilon_hashrate_ths {
                Some(v) => v,
                None => default,
            },
            epsilon_efficiency_j_per_th: match t.epsilon_efficiency_j_per_th {
                Some(v) => v,
                None => default,
            },
        },
        None => Thresholds { epsilon_hashrate_ths: default, epsilon_efficiency_j_per_th: default },
    }
}

} // verus!
