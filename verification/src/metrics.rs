//! What the server reports to the metrics recorder.
//!
//! Each function describes one update: the metric, its labels and what is
//! done to it. The host applies the update to the recorder.

use vstd::prelude::*;

verus! {

/// What is done to a metric.
#[derive(Clone, Copy, Debug, PartialEq, Eq, Structural)]
pub enum MetricChange {
    /// A counter grows by this much.
    Increment(u64),
    /// A gauge is set to this value.
    Gauge(u64),
}

/// A label of a metric.
#[derive(Debug)]
pub struct Label {
    pub name: String,
    pub value: String,
}

/// One update of one metric.
#[derive(Debug)]
pub struct MetricUpdate {
    pub metric: String,
    pub labels: Vec<Label>,
    pub change: MetricChange,
}

/// What the contracts say of a list of labels: names and values, in order.
pub open spec fn label_pairs(labels: Seq<Label>) -> Seq<(Seq<char>, Seq<char>)> {
    labels.map_values(|l: Label| (l.name@, l.value@))
}

/// What the contracts say of an update.
pub struct UpdateView {
    pub metric: Seq<char>,
    pub labels: Seq<(Seq<char>, Seq<char>)>,
    pub change: MetricChange,
}

impl View for MetricUpdate {
    type V = UpdateView;

    open spec fn view(&self) -> UpdateView {
        UpdateView {
            metric: self.metric@,
            labels: label_pairs(self.labels@),
            change: self.change,
        }
    }
}

fn label(name: &str, value: &str) -> (out: Label)
    ensures
        out.name@ == name@,
        out.value@ == value@,
{
    Label { name: String::from_str(name), value: String::from_str(value) }
}

fn update2(metric: &str, a: Label, b: Label, change: MetricChange) -> (out: MetricUpdate)
    ensures
        out@ == (UpdateView {
            metric: metric@,
            labels: seq![(a.name@, a.value@), (b.name@, b.value@)],
            change,
        }),
{
    let mut labels: Vec<Label> = Vec::new();
    labels.push(a);
    labels.push(b);
    assert(label_pairs(labels@) == seq![(a.name@, a.value@), (b.name@, b.value@)]);
    MetricUpdate { metric: String::from_str(metric), labels, change }
}

/// The server makes itself known: the gauge `sorai_server_info` is set to
/// one under its version and build.
pub fn record_server_info(version: &str, build: &str) -> (out: MetricUpdate)
    ensures
        out@ == (UpdateView {
            metric: "sorai_server_info"@,
            labels: seq![("version"@, version@), ("build"@, build@)],
            change: MetricChange::Gauge(1),
        }),
{
    update2(
        "sorai_server_info",
        label("version", version),
        label("build", build),
        MetricChange::Gauge(1),
    )
}

/// The state of a provider's connection pool: one gauge for the active
/// connections, one for the idle ones.
pub fn record_pool_metrics(provider: &str, active: u64, idle: u64) -> (out: (
    MetricUpdate,
    MetricUpdate,
))
    ensures
        out.0@ == (UpdateView {
            metric: "sorai_connection_pool_active"@,
            labels: seq![("provider"@, provider@)],
            change: MetricChange::Gauge(active),
        }),
        out.1@ == (UpdateView {
            metric: "sorai_connection_pool_idle"@,
            labels: seq![("provider"@, provider@)],
            change: MetricChange::Gauge(idle),
        }),
{
    let mut first: Vec<Label> = Vec::new();
    first.push(label("provider", provider));
    assert(label_pairs(first@) == seq![("provider"@, provider@)]);
    let mut second: Vec<Label> = Vec::new();
    second.push(label("provider", provider));
    assert(label_pairs(second@) == seq![("provider"@, provider@)]);
    (
        MetricUpdate {
            metric: String::from_str("sorai_connection_pool_active"),
            labels: first,
            change: MetricChange::Gauge(active),
        },
        MetricUpdate {
            metric: String::from_str("sorai_connection_pool_idle"),
            labels: second,
            change: MetricChange::Gauge(idle),
        },
    )
}

/// Tokens were used: the counter `sorai_tokens_total` grows by `count`.
pub fn record_token_usage(provider: &str, model: &str, token_type: &str, count: u64) -> (out:
    MetricUpdate)
    ensures
        out@ == (UpdateView {
            metric: "sorai_tokens_total"@,
            labels: seq![("provider"@, provider@), ("model"@, model@), ("type"@, token_type@)],
            change: MetricChange::Increment(count),
        }),
{
    let mut labels: Vec<Label> = Vec::new();
    labels.push(label("provider", provider));
    labels.push(label("model", model));
    labels.push(label("type", token_type));
    assert(label_pairs(labels@) == seq![
        ("provider"@, provider@),
        ("model"@, model@),
        ("type"@, token_type@),
    ]);
    MetricUpdate {
        metric: String::from_str("sorai_tokens_total"),
        labels,
        change: MetricChange::Increment(count),
    }
}

/// A provider failed: the counter `sorai_errors_total` grows by one.
pub fn record_error(provider: &str, error_type: &str) -> (out: MetricUpdate)
    ensures
        out@ == (UpdateView {
            metric: "sorai_errors_total"@,
            labels: seq![("provider"@, provider@), ("error_type"@, error_type@)],
            change: MetricChange::Increment(1),
        }),
{
    update2(
        "sorai_errors_total",
        label("provider", provider),
        label("error_type", error_type),
        MetricChange::Increment(1),
    )
}

/// A fallback provider stood in: the counter `sorai_fallback_usage_total`
/// grows by one.
pub fn record_fallback_usage(primary_provider: &str, fallback_provider: &str) -> (out:
    MetricUpdate)
    ensures
        out@ == (UpdateView {
            metric: "sorai_fallback_usage_total"@,
            labels: seq![
                ("primary_provider"@, primary_provider@),
                ("fallback_provider"@, fallback_provider@),
            ],
            change: MetricChange::Increment(1),
        }),
{
    update2(
        "sorai_fallback_usage_total",
        label("primary_provider", primary_provider),
        label("fallback_provider", fallback_provider),
        MetricChange::Increment(1),
    )
}

/// The labels under which a request is counted and timed.
pub fn request_labels(method: &str, path: &str, status: u16) -> (labels: Vec<Label>)
    ensures
        label_pairs(labels@) == seq![
            ("method"@, method@),
            ("path"@, path@),
            ("status"@, crate::text::decimal(status as nat)),
        ],
{
    let mut labels: Vec<Label> = Vec::new();
    labels.push(label("method", method));
    labels.push(label("path", path));
    let status_text = crate::text::decimal_string(status as u64);
    labels.push(label("status", status_text.as_str()));
    assert(label_pairs(labels@) == seq![
        ("method"@, method@),
        ("path"@, path@),
        ("status"@, crate::text::decimal(status as nat)),
    ]);
    labels
}

} // verus!
