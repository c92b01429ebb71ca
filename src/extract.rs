use vstd::prelude::*;

use crate::config::JsonPointers;
use crate::detect::opt_view;
use crate::ieee::{is_finite, is_positive, Binary64};
use crate::number::{parse_u64, u64_of_text, ParseError};

verus! {

/// The fields a reading is made of.
#[derive(Clone, Copy, Debug, PartialEq, Eq, Structural)]
pub enum Field {
    AllTime,
    BootBest,
    UptimeSecs,
    BootId,
    HashrateThs,
    EfficiencyJPerTh,
    PowerW,
}

/// Why a document gave no reading; each names the field whose pointer failed.
#[derive(Clone, Copy, Debug, PartialEq, Eq, Structural)]
pub enum ExtractionError {
    /// The pointer resolves to nothing in the document.
    PointerNotFound(Field),
    /// A float field holds neither a number nor a string.
    NonNumeric(Field),
    /// A JSON number that the field's type cannot hold.
    OutOfRange(Field),
    /// An integer field holds a string that is no unsigned integer.
    InvalidInteger(Field),
    /// An integer field holds neither a number nor a string.
    NonInteger(Field),
    /// A text field holds neither a string nor a number.
    NotText(Field),
    /// A required field read as NaN or an infinity.
    NonFinite(Field),
    /// A float field holds a string that the number parser refused.
    Unparsable(Field, ParseError),
}

/// What the extractor reads of a JSON number.
#[derive(Clone, Debug)]
pub struct JsonNumber {
    /// The number as an unsigned integer, where it is one.
    pub as_u64: Option<u64>,
    /// The number as a float, where it has one.
    pub as_f64: Option<Binary64>,
    /// The number's canonical text.
    pub text: String,
}

/// What the extractor reads of the JSON value a pointer resolved to.
#[derive(Debug)]
pub enum JsonScalar {
    Number(JsonNumber),
    /// A string, with what the number parser made of it.
    Text { text: String, number: Result<Binary64, ParseError> },
    /// An array, an object, a boolean or null.
    Other,
}

/// The value each pointer resolved to; `None` where it resolved to nothing
/// or is not configured.
#[derive(Debug)]
pub struct Lookups {
    pub all_time: Option<JsonScalar>,
    pub boot_best: Option<JsonScalar>,
    pub uptime_secs: Option<JsonScalar>,
    pub boot_id: Option<JsonScalar>,
    pub hashrate_ths: Option<JsonScalar>,
    pub efficiency_j_per_th: Option<JsonScalar>,
    pub power_w: Option<JsonScalar>,
}

/// A reading as extracted, before unit scaling and derived efficiency.
#[derive(Clone, Debug)]
pub struct ExtractedMetrics {
    pub displayed_all_time: Binary64,
    pub displayed_boot_best: Binary64,
    pub uptime_secs: Option<u64>,
    pub boot_id: Option<String>,
    pub hashrate_ths: Option<Binary64>,
    pub efficiency_j_per_th: Option<Binary64>,
}

pub struct ExtractedView {
    pub displayed_all_time: Binary64,
    pub displayed_boot_best: Binary64,
    pub uptime_secs: Option<u64>,
    pub boot_id: Option<Seq<char>>,
    pub hashrate_ths: Option<Binary64>,
    pub efficiency_j_per_th: Option<Binary64>,
}

impl View for ExtractedMetrics {
    type V = ExtractedView;

    open spec fn view(&self) -> ExtractedView {
        ExtractedView {
            displayed_all_time: self.displayed_all_time,
            displayed_boot_best: self.displayed_boot_best,
            uptime_secs: self.uptime_secs,
            boot_id: opt_view(self.boot_id),
            hashrate_ths: self.hashrate_ths,
            efficiency_j_per_th: self.efficiency_j_per_th,
        }
    }
}

/// A float field: a number as it is, a string through the number parser.
pub open spec fn float_field(f: Field, v: Option<JsonScalar>) -> Result<Binary64, ExtractionError> {
    match v {
        None => Err(ExtractionError::PointerNotFound(f)),
        Some(JsonScalar::Number(n)) => match n.as_f64 {
            Some(x) => Ok(x),
            None => Err(ExtractionError::OutOfRange(f)),
        },
        Some(JsonScalar::Text { text, number }) => match number {
            Ok(x) => Ok(x),
            Err(e) => Err(ExtractionError::Unparsable(f, e)),
        },
        Some(JsonScalar::Other) => Err(ExtractionError::NonNumeric(f)),
    }
}

/// An unsigned field: a number that is an unsigned integer, or its base-10 text.
pub open spec fn unsigned_field(f: Field, v: Option<JsonScalar>) -> Result<u64, ExtractionError> {
    match v {
        None => Err(ExtractionError::PointerNotFound(f)),
        Some(JsonScalar::Number(n)) => match n.as_u64 {
            Some(x) => Ok(x),
            None => Err(ExtractionError::OutOfRange(f)),
        },
        Some(JsonScalar::Text { text, number }) => match u64_of_text(text@) {
            Some(x) => Ok(x),
            None => Err(ExtractionError::InvalidInteger(f)),
        },
        Some(JsonScalar::Other) => Err(ExtractionError::NonInteger(f)),
    }
}

/// A text field: a string as it is, a number as its canonical text.
pub open spec fn text_field(f: Field, v: Option<JsonScalar>) -> Result<Seq<char>, ExtractionError> {
    match v {
        None => Err(ExtractionError::PointerNotFound(f)),
        Some(JsonScalar::Number(n)) => Ok(n.text@),
        Some(JsonScalar::Text { text, number }) => Ok(text@),
        Some(JsonScalar::Other) => Err(ExtractionError::NotText(f)),
    }
}

pub open spec fn optional<T>(configured: bool, r: Result<T, ExtractionError>) -> Result<
    Option<T>,
    ExtractionError,
> {
    if !configured {
        Ok(None)
    } else {
        match r {
            Ok(x) => Ok(Some(x)),
            Err(e) => Err(e),
        }
    }
}

/// The whole extraction, first failure wins: the two required floats, their
/// finiteness, then uptime, boot id, hashrate, efficiency, and power where no
/// efficiency is configured.
pub open spec fn extraction(p: JsonPointers, l: Lookups) -> Result<
    (ExtractedView, Option<Binary64>),
    ExtractionError,
> {
    match float_field(Field::AllTime, l.all_time) {
        Err(e) => Err(e),
        Ok(a) => match float_field(Field::BootBest, l.boot_best) {
            Err(e) => Err(e),
            Ok(b) => if !is_finite(a.0) {
                Err(ExtractionError::NonFinite(Field::AllTime))
            } else if !is_finite(b.0) {
                Err(ExtractionError::NonFinite(Field::BootBest))
            } else {
                match optional(
                    p.json_pointer_uptime_secs.is_some(),
                    unsigned_field(Field::UptimeSecs, l.uptime_secs),
                ) {
                    Err(e) => Err(e),
                    Ok(u) => match optional(
                        p.json_pointer_boot_id.is_some(),
                        text_field(Field::BootId, l.boot_id),
                    ) {
                        Err(e) => Err(e),
                        Ok(id) => match optional(
                            p.json_pointer_hashrate_ths.is_some(),
                            float_field(Field::HashrateThs, l.hashrate_ths),
                        ) {
                            Err(e) => Err(e),
                            Ok(h) => match optional(
                                p.json_pointer_efficiency_j_per_th.is_some(),
                                float_field(Field::EfficiencyJPerTh, l.efficiency_j_per_th),
                            ) {
                                Err(e) => Err(e),
                                Ok(eff) => match optional(
                                    eff.is_none() && p.json_pointer_power_w.is_some(),
                                    float_field(Field::PowerW, l.power_w),
                                ) {
                                    Err(e) => Err(e),
                                    Ok(pw) => Ok(
                                        (
                                            ExtractedView {
                                                displayed_all_time: a,
                                                displayed_boot_best: b,
                                                uptime_secs: u,
                                                boot_id: id,
                                                hashrate_ths: h,
                                                efficiency_j_per_th: eff,
                                            },
                                            pw,
                                        ),
                                    ),
                                },
                            },
                        },
                    },
                }
            },
        },
    }
}

pub fn read_float(f: Field, v: &Option<JsonScalar>) -> (r: Result<Binary64, ExtractionError>)
    ensures
        r == float_field(f, *v),
{
    match v {
        None => Err(ExtractionError::PointerNotFound(f)),
        Some(JsonScalar::Number(n)) => match n.as_f64 {
            Some(x) => Ok(x),
            None => Err(ExtractionError::OutOfRange(f)),
        },
        Some(JsonScalar::Text { text: _, number }) => match number {
            Ok(x) => Ok(*x),
            Err(e) => Err(ExtractionError::Unparsable(f, *e)),
        },
        Some(JsonScalar::Other) => Err(ExtractionError::NonNumeric(f)),
    }
}

pub fn read_unsigned(f: Field, v: &Option<JsonScalar>) -> (r: Result<u64, ExtractionError>)
    ensures
        r == unsigned_field(f, *v),
{
    match v {
        None => Err(ExtractionError::PointerNotFound(f)),
        Some(JsonScalar::Number(n)) => match n.as_u64 {
            Some(x) => Ok(x),
            None => Err(ExtractionError::OutOfRange(f)),
        },
        Some(JsonScalar::Text { text, number: _ }) => match parse_u64(text.as_str()) {
            Some(x) => Ok(x),
            None => Err(ExtractionError::InvalidInteger(f)),
        },
        Some(JsonScalar::Other) => Err(ExtractionError::NonInteger(f)),
    }
}

pub fn read_text(f: Field, v: &Option<JsonScalar>) -> (r: Result<String, ExtractionError>)
    ensures
        match (r, text_field(f, *v)) {
            (Ok(s), Ok(t)) => s@ == t,
            (Err(e), Err(d)) => e == d,
            _ => false,
        },
{
    match v {
        None => Err(ExtractionError::PointerNotFound(f)),
        Some(JsonScalar::Number(n)) => Ok(n.text.clone()),
        Some(JsonScalar::Text { text, number: _ }) => Ok(text.clone()),
        Some(JsonScalar::Other) => Err(ExtractionError::NotText(f)),
    }
}

/// Turns the resolved pointers into a reading, or the first failure; also
/// hands back the power reading, read only where no efficiency pointer is set.
pub fn extract_metrics(ptrs: &JsonPointers, lookups: &Lookups) -> (r: Result<
    (ExtractedMetrics, Option<Binary64>),
    ExtractionError,
>)
    ensures
        match (r, extraction(*ptrs, *lookups)) {
            (Ok((m, pw)), Ok((v, pv))) => m@ == v && pw == pv,
            (Err(e), Err(d)) => e == d,
            _ => false,
        },
{
    let a = match read_float(Field::AllTime, &lookups.all_time) {
        Ok(x) => x,
        Err(e) => return Err(e),
    };
    let b = match read_float(Field::BootBest, &lookups.boot_best) {
        Ok(x) => x,
        Err(e) => return Err(e),
    };
    if !a.is_finite() {
        return Err(ExtractionError::NonFinite(Field::AllTime));
    }
    if !b.is_finite() {
        return Err(ExtractionError::NonFinite(Field::BootBest));
    }
    let uptime_secs = if ptrs.json_pointer_uptime_secs.is_some() {
        match read_unsigned(Field::UptimeSecs, &lookups.uptime_secs) {
            Ok(x) => Some(x),
            Err(e) => return Err(e),
        }
    } else {
        None
    };
    let boot_id = if ptrs.json_pointer_boot_id.is_some() {
        match read_text(Field::BootId, &lookups.boot_id) {
            Ok(x) => Some(x),
            Err(e) => return Err(e),
        }
    } else {
        None
    };
    let hashrate_ths = if ptrs.json_pointer_hashrate_ths.is_some() {
        match read_float(Field::HashrateThs, &lookups.hashrate_ths) {
            Ok(x) => Some(x),
            Err(e) => return Err(e),
        }
    } else {
        None
    };
    let efficiency_j_per_th = if ptrs.json_pointer_efficiency_j_per_th.is_some() {
        match read_float(Field::EfficiencyJPerTh, &lookups.efficiency_j_per_th) {
            Ok(x) => Some(x),
            Err(e) => return Err(e),
        }
    } else {
        None
    };
    let power_w = if efficiency_j_per_th.is_none() && ptrs.json_pointer_power_w.is_some() {
        match read_float(Field::PowerW, &lookups.power_w) {
            Ok(x) => Some(x),
            Err(e) => return Err(e),
        }
    } else {
        None
    };
    let m = ExtractedMetrics {
        displayed_all_time: a,
        displayed_boot_best: b,
        uptime_secs,
        boot_id,
        hashrate_ths,
        efficiency_j_per_th,
    };
    Ok((m, power_w))
}

/// Where a reading's efficiency comes from.
#[derive(Clone, Copy, Debug, PartialEq, Eq, Structural)]
pub enum EfficiencySource {
    /// The device reports it.
    Reported(Binary64),
    /// To be computed as `power_w / hashrate_ths`.
    FromPower { power_w: Binary64, hashrate_ths: Binary64 },
    /// It stays absent.
    Absent,
}

/// A reported efficiency wins; else power over hashrate where power is
/// finite and hashrate finite and strictly positive; else none.
pub open spec fn efficiency_plan(
    reported: Option<Binary64>,
    power_w: Option<Binary64>,
    hashrate_ths: Option<Binary64>,
) -> EfficiencySource {
    match (reported, power_w, hashrate_ths) {
        (Some(e), _, _) => EfficiencySource::Reported(e),
        (None, Some(p), Some(h)) => if is_finite(p.0) && is_finite(h.0) && is_positive(h.0) {
            EfficiencySource::FromPower { power_w: p, hashrate_ths: h }
        } else {
            EfficiencySource::Absent
        },
        _ => EfficiencySource::Absent,
    }
}

pub fn efficiency_source(
    reported: Option<Binary64>,
    power_w: Option<Binary64>,
    hashrate_ths: Option<Binary64>,
) -> (r: EfficiencySource)
    ensures
        r == efficiency_plan(reported, power_w, hashrate_ths),
{
    match (reported, power_w, hashrate_ths) {
        (Some(e), _, _) => EfficiencySource::Reported(e),
        (None, Some(p), Some(h)) => if p.is_finite() && h.is_finite() && h.is_positive() {
            EfficiencySource::FromPower { power_w: p, hashrate_ths: h }
        } else {
            EfficiencySource::Absent
        },
        _ => EfficiencySource::Absent,
    }
}

/// A required pointer that resolves to nothing fails the extraction with
/// `PointerNotFound` for that field.
pub proof fn lemma_missing_required_pointer(p: JsonPointers, l: Lookups)
    ensures
        l.all_time.is_none() ==> extraction(p, l) == Err::<(ExtractedView, Option<Binary64>), ExtractionError>(
            ExtractionError::PointerNotFound(Field::AllTime),
        ),
        float_field(Field::AllTime, l.all_time) is Ok && l.boot_best.is_none() ==> extraction(p, l)
            == Err::<(ExtractedView, Option<Binary64>), ExtractionError>(
            ExtractionError::PointerNotFound(Field::BootBest),
        ),
{
}

/// A required field that reads as NaN or an infinity fails the extraction
/// with `NonFinite` for that field.
pub proof fn lemma_non_finite_required(p: JsonPointers, l: Lookups)
    requires
        float_field(Field::AllTime, l.all_time) is Ok,
        float_field(Field::BootBest, l.boot_best) is Ok,
    ensures
        !is_finite(float_field(Field::AllTime, l.all_time)->Ok_0.0) ==> extraction(p, l)
            == Err::<(ExtractedView, Option<Binary64>), ExtractionError>(
            ExtractionError::NonFinite(Field::AllTime),
        ),
        is_finite(float_field(Field::AllTime, l.all_time)->Ok_0.0) && !is_finite(
            float_field(Field::BootBest, l.boot_best)->Ok_0.0,
        ) ==> extraction(p, l) == Err::<(ExtractedView, Option<Binary64>), ExtractionError>(
            ExtractionError::NonFinite(Field::BootBest),
        ),
        extraction(p, l) is Ok ==> is_finite(extraction(p, l)->Ok_0.0.displayed_all_time.0)
            && is_finite(extraction(p, l)->Ok_0.0.displayed_boot_best.0),
{
}

} // verus!
