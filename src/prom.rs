//! The parts of the prometheus crate that the library uses, with what the
//! library relies on of each.
use vstd::prelude::*;

verus! {

/// A prometheus integer gauge. Verus cannot be told of the gauge type itself
/// (its parameter is bound by an outside trait), so it is held here, out of
/// Verus's sight; what the library knows of it is `gauge_value` and
/// `gauge_desc`.
#[verifier::external_body]
pub struct IntGauge {
    gauge: prometheus::IntGauge,
}

#[verifier::external_type_specification]
#[verifier::external_body]
pub struct ExMetricFamily(prometheus::proto::MetricFamily);

#[verifier::external_type_specification]
#[verifier::external_body]
pub struct ExError(prometheus::Error);

/// The value that an integer gauge holds. No gauge is cloned here, so the
/// handle is the only one that reads or sets it.
pub uninterp spec fn gauge_value(g: IntGauge) -> i64;

/// The name and help string that a gauge was created with.
pub uninterp spec fn gauge_desc(g: IntGauge) -> (Seq<char>, Seq<char>);

/// The text that the text encoder writes for one metric family, or `None`
/// where it does not write the family in full (it refuses the family, or
/// panics on it).
pub uninterp spec fn family_block(f: prometheus::proto::MetricFamily) -> Option<Seq<char>>;

/// The text of a sample value: `(v as f64).to_string()`.
pub uninterp spec fn sample_text(v: i64) -> Seq<char>;

/// `[a-zA-Z_:]`
pub open spec fn is_name_start(c: char) -> bool {
    ('a' <= c && c <= 'z') || ('A' <= c && c <= 'Z') || c == '_' || c == ':'
}

/// A metric name: `[a-zA-Z_:][a-zA-Z0-9_:]*`.
pub open spec fn valid_metric_name(s: Seq<char>) -> bool {
    &&& s.len() > 0
    &&& is_name_start(s[0])
    &&& forall|i: int| 1 <= i < s.len() ==> is_name_start(#[trigger] s[i]) || ('0' <= s[i] && s[i] <= '9')
}

/// A help string that the encoder writes unescaped: no backslash, no newline.
pub open spec fn plain_help(s: Seq<char>) -> bool {
    forall|i: int| 0 <= i < s.len() ==> #[trigger] s[i] != '\\' && s[i] != '\n'
}

/// Integers that an `f64` holds exactly, and that its `to_string` writes as
/// plain decimal digits.
pub open spec fn exact_in_f64(v: int) -> bool {
    -0x20000000000000 < v && v < 0x20000000000000
}

pub open spec fn digit(d: nat) -> char {
    if d == 0 { '0' } else if d == 1 { '1' } else if d == 2 { '2' } else if d == 3 { '3' }
    else if d == 4 { '4' } else if d == 5 { '5' } else if d == 6 { '6' } else if d == 7 { '7' }
    else if d == 8 { '8' } else { '9' }
}

/// The decimal digits of `n`, without leading zeros.
pub open spec fn decimal(n: nat) -> Seq<char>
    decreases n,
{
    if n < 10 {
        seq![digit(n)]
    } else {
        decimal(n / 10) + seq![digit(n % 10)]
    }
}

/// `v` in decimal, with a leading `-` when negative.
pub open spec fn int_text(v: int) -> Seq<char> {
    if v < 0 {
        seq!['-'] + decimal((-v) as nat)
    } else {
        decimal(v as nat)
    }
}

/// The exposition of one gauge: its help line, its type line, and its sample
/// line, each ended by a newline.
pub open spec fn gauge_block(name: Seq<char>, help: Seq<char>, sample: Seq<char>) -> Seq<char> {
    seq!['#', ' ', 'H', 'E', 'L', 'P', ' '] + name + seq![' '] + help + seq!['\n']
        + seq!['#', ' ', 'T', 'Y', 'P', 'E', ' '] + name + seq![' ', 'g', 'a', 'u', 'g', 'e', '\n']
        + name + seq![' '] + sample + seq!['\n']
}

/// The text of several families, one after another.
pub open spec fn blocks_text(fs: Seq<prometheus::proto::MetricFamily>) -> Seq<char>
    decreases fs.len(),
{
    if fs.len() == 0 {
        Seq::empty()
    } else {
        blocks_text(fs.drop_last()) + family_block(fs.last())->Some_0
    }
}

/// Relies on prometheus's `IntGauge::new`: a gauge that it creates starts at 0
/// with the name and help given; it succeeds where the help is not empty and
/// the name is a valid metric name.
#[verifier::external_body]
pub(crate) fn new_int_gauge(name: &str, help: &str) -> (r: Result<IntGauge, prometheus::Error>)
    ensures
        help@.len() > 0 && valid_metric_name(name@) ==> r is Ok,
        r is Ok ==> gauge_value(r->Ok_0) == 0 && gauge_desc(r->Ok_0) == (name@, help@),
{
    prometheus::IntGauge::new(name, help).map(|gauge| IntGauge { gauge })
}

/// Relies on prometheus's `IntGauge::set`: the gauge holds the value given.
#[verifier::external_body]
pub(crate) fn set_gauge(g: &mut IntGauge, v: i64)
    ensures
        gauge_value(*final(g)) == v,
        gauge_desc(*final(g)) == gauge_desc(*old(g)),
{
    g.gauge.set(v)
}

/// Relies on prometheus's `IntGauge::get`: it returns the value that the gauge holds.
#[verifier::external_body]
pub(crate) fn get_gauge(g: &IntGauge) -> (r: i64)
    ensures
        r == gauge_value(*g),
{
    g.gauge.get()
}

/// Relies on prometheus's `Collector::collect` for a gauge: one family with
/// the gauge's name, help, gauge type and one unlabelled sample of its value
/// as `f64`, which the text encoder accepts and writes as `gauge_block`: a
/// non-empty help string gives the help line, a plain one is written
/// unescaped, and an integer that `f64` holds exactly is written in plain
/// decimal.
#[verifier::external_body]
pub(crate) fn collect_gauge(g: &IntGauge) -> (r: Vec<prometheus::proto::MetricFamily>)
    ensures
        r@.len() == 1,
        family_block(r@[0]) is Some,
        gauge_desc(*g).1.len() > 0 && plain_help(gauge_desc(*g).1) ==> family_block(r@[0]) == Some(
            gauge_block(gauge_desc(*g).0, gauge_desc(*g).1, sample_text(gauge_value(*g))),
        ),
        gauge_desc(*g).1.len() > 0 && plain_help(gauge_desc(*g).1) && exact_in_f64(
            gauge_value(*g) as int,
        ) ==> family_block(r@[0])
            == Some(gauge_block(gauge_desc(*g).0, gauge_desc(*g).1, int_text(gauge_value(*g) as int))),
{
    prometheus::core::Collector::collect(&g.gauge)
}

/// Relies on prometheus's `TextEncoder::encode_to_string`: on families that
/// it writes in full, it succeeds with the text of each in turn.
#[verifier::external_body]
pub(crate) fn encode_text(families: &Vec<prometheus::proto::MetricFamily>) -> (r: Result<String, prometheus::Error>)
    requires
        forall|i: int| 0 <= i < families@.len() ==> (#[trigger] family_block(families@[i])) is Some,
    ensures
        r is Ok,
        r->Ok_0@ == blocks_text(families@),
{
    prometheus::TextEncoder::new().encode_to_string(families)
}

} // verus!
