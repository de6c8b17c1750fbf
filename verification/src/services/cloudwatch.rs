//! CloudWatch alarms, dashboards, metrics, insight rules and anomaly detectors as JSON, and which metrics are listed.
use crate::json::{array_of, opt_bool_json, opt_int_json, opt_str_json, text_value, with_opt, opt_text, JsonObject, JsonValue, JsonView};
use crate::timestamp::{opt_ts_json, ts_json, Timestamp};
use crate::json::{double_json, double_value};
use crate::order::{sort_strings, text_order};
use crate::text::{concat_text, decimal, decimal_text, has_prefix, join, joined, starts_with, texts};
use std::sync::Arc;
use vstd::prelude::*;

verus! {

/// The metric that a query of an alarm reads, when its statistic names one.
pub struct AlarmMetricQuery {
    pub namespace: Option<String>,
    pub metric_name: Option<String>,
}

/// A metric alarm; enumerations hold their AWS names.
pub struct MetricAlarm {
    pub alarm_name: Option<String>,
    pub alarm_arn: Option<String>,
    pub alarm_description: Option<String>,
    pub alarm_configuration_updated_timestamp: Option<Timestamp>,
    pub actions_enabled: Option<bool>,
    pub state_value: Option<String>,
    pub state_reason: Option<String>,
    pub state_updated_timestamp: Option<Timestamp>,
    pub metric_name: Option<String>,
    pub namespace: Option<String>,
    pub statistic: Option<String>,
    pub comparison_operator: Option<String>,
    /// The threshold, as the bits of its double.
    pub threshold: Option<u64>,
    pub period: Option<i64>,
    pub evaluation_periods: Option<i64>,
    /// The metrics that the alarm's queries read.
    pub metrics: Option<Vec<AlarmMetricQuery>>,
}

/// A dashboard as `ListDashboards` reports it.
pub struct DashboardEntry {
    pub dashboard_name: Option<String>,
    pub dashboard_arn: Option<String>,
    pub last_modified: Option<Timestamp>,
    pub size: Option<i64>,
}

/// What `GetDashboard` reports.
pub struct GetDashboardOutput {
    pub dashboard_name: Option<String>,
    pub dashboard_arn: Option<String>,
    pub dashboard_body: Option<String>,
}

/// A composite alarm.
pub struct CompositeAlarm {
    pub alarm_name: Option<String>,
    pub alarm_arn: Option<String>,
    pub alarm_rule: Option<String>,
    pub state_value: Option<String>,
    pub state_reason: Option<String>,
    pub state_updated_timestamp: Option<Timestamp>,
}

/// A Contributor Insights rule.
pub struct InsightRule {
    pub name: Option<String>,
    pub state: Option<String>,
    pub schema: Option<String>,
    pub definition: Option<String>,
    pub managed_rule: Option<bool>,
}

/// A dimension of a metric.
pub struct Dimension {
    pub name: Option<String>,
    pub value: Option<String>,
}

/// A metric.
pub struct Metric {
    pub namespace: Option<String>,
    pub metric_name: Option<String>,
    pub dimensions: Option<Vec<Dimension>>,
}

/// A detector that watches one metric.
pub struct SingleMetricAnomalyDetector {
    pub metric_name: Option<String>,
    pub namespace: Option<String>,
    pub stat: Option<String>,
    pub dimensions: Option<Vec<Dimension>>,
}

/// A query of a metric-math detector.
pub struct MetricDataQuery {
    pub id: Option<String>,
    pub label: Option<String>,
    pub expression: Option<String>,
}

/// An anomaly detector.
pub struct AnomalyDetector {
    pub single_metric_anomaly_detector: Option<SingleMetricAnomalyDetector>,
    /// The queries of a metric-math detector, when it has a query list.
    pub metric_math_queries: Option<Vec<MetricDataQuery>>,
    /// Whether the detector is a metric-math one.
    pub is_metric_math: bool,
    pub state_value: Option<String>,
}

/// Reads CloudWatch alarms, dashboards, metrics, insight rules and anomaly detectors through a credential coordinator `C`.
pub struct CloudWatchService<C> {
    credential_coordinator: Arc<C>,
}

/// The JSON object of a metric alarm; a threshold that is not finite is written as 0.
pub open spec fn alarm_json(alarm: MetricAlarm) -> JsonView {
    let m = Map::<Seq<char>, JsonView>::empty();
    let m = with_opt(m, "AlarmName"@, opt_str_json(alarm.alarm_name));
    let m = with_opt(m, "Name"@, opt_str_json(alarm.alarm_name));
    let m = with_opt(m, "AlarmArn"@, opt_str_json(alarm.alarm_arn));
    let m = with_opt(m, "AlarmDescription"@, opt_str_json(alarm.alarm_description));
    let m = with_opt(m, "AlarmConfigurationUpdatedTimestamp"@, opt_ts_json(alarm.alarm_configuration_updated_timestamp));
    let m = with_opt(m, "ActionsEnabled"@, opt_bool_json(alarm.actions_enabled));
    let m = with_opt(m, "StateValue"@, opt_str_json(alarm.state_value));
    let m = with_opt(m, "Status"@, opt_str_json(alarm.state_value));
    let m = with_opt(m, "StateReason"@, opt_str_json(alarm.state_reason));
    let m = with_opt(m, "StateUpdatedTimestamp"@, opt_ts_json(alarm.state_updated_timestamp));
    let m = with_opt(m, "MetricName"@, opt_str_json(alarm.metric_name));
    let m = with_opt(m, "Namespace"@, opt_str_json(alarm.namespace));
    let m = with_opt(m, "Statistic"@, opt_str_json(alarm.statistic));
    let m = with_opt(m, "ComparisonOperator"@, opt_str_json(alarm.comparison_operator));
    let m = match alarm.threshold { Some(b) => m.insert("Threshold"@, double_json(b)), None => m };
    let m = with_opt(m, "Period"@, opt_int_json(alarm.period));
    let m = with_opt(m, "EvaluationPeriods"@, opt_int_json(alarm.evaluation_periods));
    JsonView::Object(m)
}

/// The JSON object of a dashboard, with status `Available`.
pub open spec fn dashboard_json(dashboard: DashboardEntry) -> JsonView {
    let m = Map::<Seq<char>, JsonView>::empty();
    let m = with_opt(m, "DashboardName"@, opt_str_json(dashboard.dashboard_name));
    let m = with_opt(m, "Name"@, opt_str_json(dashboard.dashboard_name));
    let m = with_opt(m, "DashboardArn"@, opt_str_json(dashboard.dashboard_arn));
    let m = with_opt(m, "LastModified"@, opt_ts_json(dashboard.last_modified));
    let m = with_opt(m, "Size"@, opt_int_json(dashboard.size));
    let m = m.insert("Status"@, JsonView::Str("Available"@));
    JsonView::Object(m)
}

/// The JSON object of a dashboard's details.
pub open spec fn dashboard_details_json(response: GetDashboardOutput) -> JsonView {
    let m = Map::<Seq<char>, JsonView>::empty();
    let m = with_opt(m, "DashboardName"@, opt_str_json(response.dashboard_name));
    let m = with_opt(m, "DashboardArn"@, opt_str_json(response.dashboard_arn));
    let m = with_opt(m, "DashboardBody"@, opt_str_json(response.dashboard_body));
    JsonView::Object(m)
}

/// The JSON object of a composite alarm.
pub open spec fn composite_alarm_json(alarm: CompositeAlarm) -> JsonView {
    let m = Map::<Seq<char>, JsonView>::empty();
    let m = with_opt(m, "AlarmName"@, opt_str_json(alarm.alarm_name));
    let m = with_opt(m, "Name"@, opt_str_json(alarm.alarm_name));
    let m = with_opt(m, "AlarmArn"@, opt_str_json(alarm.alarm_arn));
    let m = with_opt(m, "AlarmRule"@, opt_str_json(alarm.alarm_rule));
    let m = with_opt(m, "StateValue"@, opt_str_json(alarm.state_value));
    let m = with_opt(m, "Status"@, opt_str_json(alarm.state_value));
    let m = with_opt(m, "StateReason"@, opt_str_json(alarm.state_reason));
    let m = with_opt(m, "StateUpdatedTimestamp"@, opt_ts_json(alarm.state_updated_timestamp));
    JsonView::Object(m)
}

/// The JSON object of an insight rule.
pub open spec fn insight_rule_json(rule: InsightRule) -> JsonView {
    let m = Map::<Seq<char>, JsonView>::empty();
    let m = with_opt(m, "RuleName"@, opt_str_json(rule.name));
    let m = with_opt(m, "Name"@, opt_str_json(rule.name));
    let m = with_opt(m, "State"@, opt_str_json(rule.state));
    let m = with_opt(m, "Status"@, opt_str_json(rule.state));
    let m = with_opt(m, "Schema"@, opt_str_json(rule.schema));
    let m = with_opt(m, "Definition"@, opt_str_json(rule.definition));
    let m = with_opt(m, "ManagedRule"@, opt_bool_json(rule.managed_rule));
    JsonView::Object(m)
}

/// The JSON object of a `Dimension`.
pub open spec fn dimension_json(x: Dimension) -> JsonView {
    let m = Map::<Seq<char>, JsonView>::empty();
    let m = with_opt(m, "Name"@, opt_str_json(x.name));
    let m = with_opt(m, "Value"@, opt_str_json(x.value));
    JsonView::Object(m)
}

fn dimension_to_json(x: &Dimension) -> (v: JsonValue)
    ensures
        v.view() == dimension_json(*x),
{
    let mut json = JsonObject::new();
    json.insert_opt_str("Name", &x.name);
    json.insert_opt_str("Value", &x.value);
    JsonValue::Object(json)
}

impl<C> CloudWatchService<C> {
    /// The coordinator that the service was made with.
    pub closed spec fn coordinator(&self) -> Arc<C> {
        self.credential_coordinator
    }

    /// A service that obtains its AWS configurations from `credential_coordinator`.
    pub fn new(credential_coordinator: Arc<C>) -> (s: Self)
        ensures
            s.coordinator() == credential_coordinator,
    {
        Self { credential_coordinator }
    }

    /// The coordinator that the service was made with.
    pub fn credential_coordinator(&self) -> (c: &Arc<C>)
        ensures
            *c == self.coordinator(),
    {
        &self.credential_coordinator
    }

    /// The JSON object of a metric alarm; a threshold that is not finite is written as 0.
    pub fn alarm_to_json(&self, alarm: &MetricAlarm) -> (v: JsonValue)
        ensures
            v.view() == alarm_json(*alarm),
    {
        let mut json = JsonObject::new();
        json.insert_opt_str("AlarmName", &alarm.alarm_name);
        json.insert_opt_str("Name", &alarm.alarm_name);
        json.insert_opt_str("AlarmArn", &alarm.alarm_arn);
        json.insert_opt_str("AlarmDescription", &alarm.alarm_description);
        json.insert_opt_ts("AlarmConfigurationUpdatedTimestamp", &alarm.alarm_configuration_updated_timestamp);
        json.insert_opt_bool("ActionsEnabled", alarm.actions_enabled);
        json.insert_opt_str("StateValue", &alarm.state_value);
        json.insert_opt_str("Status", &alarm.state_value);
        json.insert_opt_str("StateReason", &alarm.state_reason);
        json.insert_opt_ts("StateUpdatedTimestamp", &alarm.state_updated_timestamp);
        json.insert_opt_str("MetricName", &alarm.metric_name);
        json.insert_opt_str("Namespace", &alarm.namespace);
        json.insert_opt_str("Statistic", &alarm.statistic);
        json.insert_opt_str("ComparisonOperator", &alarm.comparison_operator);
        if let Some(b) = alarm.threshold {
            json.insert("Threshold", double_value(b));
        }
        json.insert_opt_int("Period", alarm.period);
        json.insert_opt_int("EvaluationPeriods", alarm.evaluation_periods);
        JsonValue::Object(json)
    }

    /// The JSON object of a dashboard, with status `Available`.
    pub fn dashboard_to_json(&self, dashboard: &DashboardEntry) -> (v: JsonValue)
        ensures
            v.view() == dashboard_json(*dashboard),
    {
        let mut json = JsonObject::new();
        json.insert_opt_str("DashboardName", &dashboard.dashboard_name);
        json.insert_opt_str("Name", &dashboard.dashboard_name);
        json.insert_opt_str("DashboardArn", &dashboard.dashboard_arn);
        json.insert_opt_ts("LastModified", &dashboard.last_modified);
        json.insert_opt_int("Size", dashboard.size);
        json.insert("Status", text_value("Available"));
        JsonValue::Object(json)
    }

    /// The JSON object of a dashboard's details.
    pub fn dashboard_details_to_json(&self, response: &GetDashboardOutput) -> (v: JsonValue)
        ensures
            v.view() == dashboard_details_json(*response),
    {
        let mut json = JsonObject::new();
        json.insert_opt_str("DashboardName", &response.dashboard_name);
        json.insert_opt_str("DashboardArn", &response.dashboard_arn);
        json.insert_opt_str("DashboardBody", &response.dashboard_body);
        JsonValue::Object(json)
    }

    /// The JSON object of a composite alarm.
    pub fn composite_alarm_to_json(&self, alarm: &CompositeAlarm) -> (v: JsonValue)
        ensures
            v.view() == composite_alarm_json(*alarm),
    {
        let mut json = JsonObject::new();
        json.insert_opt_str("AlarmName", &alarm.alarm_name);
        json.insert_opt_str("Name", &alarm.alarm_name);
        json.insert_opt_str("AlarmArn", &alarm.alarm_arn);
        json.insert_opt_str("AlarmRule", &alarm.alarm_rule);
        json.insert_opt_str("StateValue", &alarm.state_value);
        json.insert_opt_str("Status", &alarm.state_value);
        json.insert_opt_str("StateReason", &alarm.state_reason);
        json.insert_opt_ts("StateUpdatedTimestamp", &alarm.state_updated_timestamp);
        JsonValue::Object(json)
    }

    /// The JSON object of an insight rule.
    pub fn insight_rule_to_json(&self, rule: &InsightRule) -> (v: JsonValue)
        ensures
            v.view() == insight_rule_json(*rule),
    {
        let mut json = JsonObject::new();
        json.insert_opt_str("RuleName", &rule.name);
        json.insert_opt_str("Name", &rule.name);
        json.insert_opt_str("State", &rule.state);
        json.insert_opt_str("Status", &rule.state);
        json.insert_opt_str("Schema", &rule.schema);
        json.insert_opt_str("Definition", &rule.definition);
        json.insert_opt_bool("ManagedRule", rule.managed_rule);
        JsonValue::Object(json)
    }

}

// ----- metric identifiers -----

/// The `name=value` texts of the dimensions that have both, in order.
pub open spec fn dimension_parts(dims: Seq<Dimension>) -> Seq<Seq<char>>
    decreases dims.len(),
{
    if dims.len() == 0 {
        Seq::empty()
    } else {
        let rest = dimension_parts(dims.drop_last());
        let d = dims.last();
        match (d.name, d.value) {
            (Some(n), Some(v)) => rest.push(n@ + "="@ + v@),
            _ => rest,
        }
    }
}

/// The dimensions' `name=value` texts sorted and joined by commas, when
/// there are dimensions; `None` when the list is missing or empty.
pub open spec fn dimension_suffix(dims: Option<Vec<Dimension>>) -> Option<Seq<char>> {
    match dims {
        Some(d) => if d@.len() > 0 {
            Some(joined(dimension_parts(d@).sort_by(text_order()), ","@))
        } else {
            None
        },
        None => None,
    }
}

/// The text, or the empty text when there is none.
pub open spec fn text_or_empty(o: Option<String>) -> Seq<char> {
    match o {
        Some(s) => s@,
        None => Seq::empty(),
    }
}

/// A metric's identifier: `namespace/name`, followed by `:` and its sorted
/// dimensions when it has some.
pub open spec fn metric_identifier(m: Metric) -> Seq<char> {
    let base = text_or_empty(m.namespace) + "/"@ + text_or_empty(m.metric_name);
    match dimension_suffix(m.dimensions) {
        Some(s) => base + ":"@ + s,
        None => base,
    }
}

/// The JSON object of a metric: its name and namespace (empty when
/// missing), its dimensions, and its identifier as `MetricId` and `Name`.
pub open spec fn metric_json(metric: Metric) -> JsonView {
    let m = Map::<Seq<char>, JsonView>::empty();
    let m = m.insert("MetricName"@, JsonView::Str(text_or_empty(metric.metric_name)));
    let m = m.insert("Namespace"@, JsonView::Str(text_or_empty(metric.namespace)));
    let m = match metric.dimensions {
        Some(v) => m.insert("Dimensions"@, JsonView::Array(v@.map_values(|e: Dimension| dimension_json(e)))),
        None => m,
    };
    let m = m.insert("MetricId"@, JsonView::Str(metric_identifier(metric)));
    let m = m.insert("Name"@, JsonView::Str(metric_identifier(metric)));
    JsonView::Object(m.insert("Status"@, JsonView::Str("Available"@)))
}

/// The `name=value` texts of the dimensions that have both.
fn dimension_parts_of(dims: &Vec<Dimension>) -> (r: Vec<String>)
    ensures
        texts(r@) == dimension_parts(dims@),
{
    let mut out: Vec<String> = Vec::new();
    let mut i: usize = 0;
    while i < dims.len()
        invariant
            i <= dims@.len(),
            texts(out@) == dimension_parts(dims@.take(i as int)),
        decreases dims@.len() - i,
    {
        assert(dims@.take(i + 1).drop_last() =~= dims@.take(i as int));
        let d = &dims[i];
        if let (Some(n), Some(v)) = (&d.name, &d.value) {
            let mut part = n.clone();
            part.append("=");
            part.append(v.as_str());
            let ghost before = out@;
            out.push(part);
            assert(texts(out@) =~= texts(before).push(part@));
        }
        i = i + 1;
    }
    assert(dims@.take(dims@.len() as int) =~= dims@);
    out
}

fn dimension_suffix_of(dims: &Option<Vec<Dimension>>) -> (r: Option<String>)
    ensures
        opt_text(r) == dimension_suffix(*dims),
{
    match dims {
        Some(d) => if d.len() > 0 {
            let parts = sort_strings(dimension_parts_of(d));
            Some(join(&parts, ","))
        } else {
            None
        },
        None => None,
    }
}

fn text_or_empty_of(o: &Option<String>) -> (s: String)
    ensures
        s@ == text_or_empty(*o),
{
    match o {
        Some(s) => s.clone(),
        None => String::new(),
    }
}

// ----- anomaly detectors -----

/// The kind of a detector.
pub open spec fn detector_type(d: AnomalyDetector) -> Seq<char> {
    if d.single_metric_anomaly_detector is Some {
        "SingleMetric"@
    } else if d.is_metric_math {
        "MetricMath"@
    } else {
        "Unknown"@
    }
}

/// What names a query: its id, else its label, else its expression, else
/// `query-<index>`.
pub open spec fn query_label(q: MetricDataQuery, index: nat) -> Seq<char> {
    match q.id {
        Some(i) => i@,
        None => match q.label {
            Some(l) => l@,
            None => match q.expression {
                Some(e) => e@,
                None => "query-"@ + decimal_text(index),
            },
        },
    }
}

/// The names of the queries, in order.
pub open spec fn query_labels(queries: Seq<MetricDataQuery>) -> Seq<Seq<char>> {
    Seq::new(queries.len(), |i: int| query_label(queries[i], i as nat))
}

/// A detector's identifier: `metric-math:` and its query names joined by `|`
/// for a metric-math detector; `anomaly-detector:<kind>` when it names neither
/// metric nor namespace; otherwise `namespace/metric` followed by the
/// statistic and the sorted dimensions that are present, each after a `:`.
pub open spec fn detector_identifier(d: AnomalyDetector) -> Seq<char> {
    let (name, namespace, stat, dims) = match d.single_metric_anomaly_detector {
        Some(s) => (text_or_empty(s.metric_name), text_or_empty(s.namespace), text_or_empty(s.stat), s.dimensions),
        None => (Seq::empty(), Seq::empty(), Seq::empty(), None),
    };
    let suffix = match dimension_suffix(dims) {
        Some(s) => s,
        None => Seq::empty(),
    };
    if d.single_metric_anomaly_detector is None && d.is_metric_math {
        let queries = match d.metric_math_queries {
            Some(q) => q@,
            None => Seq::empty(),
        };
        "metric-math:"@ + joined(query_labels(queries), "|"@)
    } else if name.len() == 0 && namespace.len() == 0 {
        "anomaly-detector:"@ + detector_type(d)
    } else if suffix.len() == 0 && stat.len() == 0 {
        namespace + "/"@ + name
    } else if suffix.len() == 0 {
        namespace + "/"@ + name + ":"@ + stat
    } else if stat.len() == 0 {
        namespace + "/"@ + name + ":"@ + suffix
    } else {
        namespace + "/"@ + name + ":"@ + stat + ":"@ + suffix
    }
}

/// The JSON object of an anomaly detector: for a metric-math detector, the
/// number of its queries; its kind; the metric, namespace, statistic and
/// dimensions of a single-metric detector; its state; and its identifier as
/// `DetectorId` and `Name`.
pub open spec fn anomaly_detector_json(d: AnomalyDetector) -> JsonView {
    let m = Map::<Seq<char>, JsonView>::empty();
    let m = if d.single_metric_anomaly_detector is None && d.is_metric_math {
        m.insert(
            "MetricDataQueryCount"@,
            JsonView::Number(
                match d.metric_math_queries {
                    Some(q) => q@.len() as int,
                    None => 0,
                },
            ),
        )
    } else {
        m
    };
    let m = m.insert("DetectorType"@, JsonView::Str(detector_type(d)));
    let m = match d.single_metric_anomaly_detector {
        Some(s) => {
            let m = with_opt(m, "MetricName"@, opt_str_json(s.metric_name));
            let m = with_opt(m, "Namespace"@, opt_str_json(s.namespace));
            with_opt(m, "Stat"@, opt_str_json(s.stat))
        },
        None => m,
    };
    let m = with_opt(m, "StateValue"@, opt_str_json(d.state_value));
    let m = with_opt(m, "Status"@, opt_str_json(d.state_value));
    let m = match d.single_metric_anomaly_detector {
        Some(s) => match s.dimensions {
            Some(v) => m.insert("Dimensions"@, JsonView::Array(v@.map_values(|e: Dimension| dimension_json(e)))),
            None => m,
        },
        None => m,
    };
    let m = m.insert("DetectorId"@, JsonView::Str(detector_identifier(d)));
    JsonView::Object(m.insert("Name"@, JsonView::Str(detector_identifier(d))))
}

fn query_labels_of(queries: &Vec<MetricDataQuery>) -> (r: Vec<String>)
    ensures
        texts(r@) == query_labels(queries@),
{
    let mut out: Vec<String> = Vec::new();
    let mut i: usize = 0;
    while i < queries.len()
        invariant
            i <= queries@.len(),
            texts(out@) =~= query_labels(queries@).take(i as int),
        decreases queries@.len() - i,
    {
        let q = &queries[i];
        let label = match &q.id {
            Some(id) => id.clone(),
            None => match &q.label {
                Some(l) => l.clone(),
                None => match &q.expression {
                    Some(e) => e.clone(),
                    None => {
                        let mut s = "query-".to_owned();
                        s.append(decimal(i).as_str());
                        s
                    },
                },
            },
        };
        let ghost before = out@;
        out.push(label);
        assert(texts(out@) =~= texts(before).push(label@));
        assert(query_labels(queries@).take(i + 1) =~= query_labels(queries@).take(i as int).push(
            query_label(queries@[i as int], i as nat),
        ));
        i = i + 1;
    }
    out
}

// ----- which metrics are listed -----

/// The (namespace, metric name) pairs held in a list.
pub open spec fn key_set(keys: Seq<(String, String)>) -> Set<(Seq<char>, Seq<char>)> {
    Set::new(|p: (Seq<char>, Seq<char>)| exists|i: int| 0 <= i < keys.len() && (keys[i].0@, keys[i].1@) == p)
}

/// The pair of a namespace and a metric name, when both are given.
pub open spec fn opt_key(namespace: Option<String>, metric_name: Option<String>) -> Set<(Seq<char>, Seq<char>)> {
    match (namespace, metric_name) {
        (Some(n), Some(m)) => set![(n@, m@)],
        _ => Set::empty(),
    }
}

/// The metrics that some queries read.
pub open spec fn query_keys(queries: Seq<AlarmMetricQuery>) -> Set<(Seq<char>, Seq<char>)>
    decreases queries.len(),
{
    if queries.len() == 0 {
        Set::empty()
    } else {
        query_keys(queries.drop_last()) + opt_key(queries.last().namespace, queries.last().metric_name)
    }
}

/// The metrics that an alarm watches: its own metric, and those of its
/// queries.
pub open spec fn alarm_keys(a: MetricAlarm) -> Set<(Seq<char>, Seq<char>)> {
    opt_key(a.namespace, a.metric_name) + match a.metrics {
        Some(q) => query_keys(q@),
        None => Set::empty(),
    }
}

/// The metrics that some alarms watch.
pub open spec fn alarms_keys(alarms: Seq<MetricAlarm>) -> Set<(Seq<char>, Seq<char>)>
    decreases alarms.len(),
{
    if alarms.len() == 0 {
        Set::empty()
    } else {
        alarms_keys(alarms.drop_last()) + alarm_keys(alarms.last())
    }
}

/// Whether a metric is listed: it needs a namespace and a name; custom
/// metrics (outside `AWS/`) are all listed, and AWS metrics only when an alarm
/// watches them.
pub open spec fn metric_included(metric: Metric, keys: Set<(Seq<char>, Seq<char>)>) -> bool {
    let namespace = text_or_empty(metric.namespace);
    let name = text_or_empty(metric.metric_name);
    if namespace.len() == 0 || name.len() == 0 {
        false
    } else if !has_prefix(namespace, "AWS/"@) {
        true
    } else {
        keys.contains((namespace, name))
    }
}

fn add_key(keys: &mut Vec<(String, String)>, namespace: &Option<String>, metric_name: &Option<String>)
    ensures
        key_set(final(keys)@) == key_set(old(keys)@) + opt_key(*namespace, *metric_name),
{
    let ghost before = keys@;
    if let (Some(n), Some(m)) = (namespace, metric_name) {
        let pair = (n.clone(), m.clone());
        keys.push(pair);
        assert forall|p: (Seq<char>, Seq<char>)| #[trigger] key_set(keys@).contains(p) <==> key_set(before).contains(p)
            || p == (n@, m@) by {
            if key_set(before).contains(p) {
                let i = choose|i: int| 0 <= i < before.len() && (before[i].0@, before[i].1@) == p;
                assert(keys@[i] == before[i]);
            }
            if p == (n@, m@) {
                assert(keys@[before.len() as int] == pair);
            }
        }
    } else {
        assert(opt_key(*namespace, *metric_name) =~= Set::empty());
    }
    assert(key_set(keys@) =~= key_set(before) + opt_key(*namespace, *metric_name));
}

impl<C> CloudWatchService<C> {
    /// The JSON object of a metric.
    pub fn metric_to_json(&self, metric: &Metric) -> (v: JsonValue)
        ensures
            v.view() == metric_json(*metric),
    {
        let mut json = JsonObject::new();
        let metric_name = text_or_empty_of(&metric.metric_name);
        let namespace = text_or_empty_of(&metric.namespace);
        json.insert_str("MetricName", &metric_name);
        json.insert_str("Namespace", &namespace);
        if let Some(v) = &metric.dimensions {
            json.insert("Dimensions", array_of(v, dimension_to_json, Ghost(|e: Dimension| dimension_json(e))));
        }
        let mut identifier = namespace;
        identifier.append("/");
        identifier.append(metric_name.as_str());
        if let Some(suffix) = dimension_suffix_of(&metric.dimensions) {
            identifier.append(":");
            identifier.append(suffix.as_str());
        }
        assert(identifier@ =~= metric_identifier(*metric));
        json.insert_str("MetricId", &identifier);
        json.insert("Name", JsonValue::Str(identifier));
        json.insert("Status", text_value("Available"));
        JsonValue::Object(json)
    }

    /// The JSON object of an anomaly detector.
    pub fn anomaly_detector_to_json(&self, detector: &AnomalyDetector) -> (v: JsonValue)
        ensures
            v.view() == anomaly_detector_json(*detector),
    {
        let mut json = JsonObject::new();
        let single = &detector.single_metric_anomaly_detector;
        let is_math = single.is_none() && detector.is_metric_math;
        if is_math {
            let count: usize = match &detector.metric_math_queries {
                Some(q) => q.len(),
                None => 0,
            };
            json.insert("MetricDataQueryCount", JsonValue::Number(count as i128));
        }
        let detector_type = if single.is_some() {
            "SingleMetric"
        } else if detector.is_metric_math {
            "MetricMath"
        } else {
            "Unknown"
        };
        json.insert("DetectorType", text_value(detector_type));
        if let Some(s) = single {
            json.insert_opt_str("MetricName", &s.metric_name);
            json.insert_opt_str("Namespace", &s.namespace);
            json.insert_opt_str("Stat", &s.stat);
        }
        json.insert_opt_str("StateValue", &detector.state_value);
        json.insert_opt_str("Status", &detector.state_value);
        if let Some(s) = single {
            if let Some(v) = &s.dimensions {
                json.insert("Dimensions", array_of(v, dimension_to_json, Ghost(|e: Dimension| dimension_json(e))));
            }
        }
        let identifier = self.detector_identifier_of(detector);
        json.insert_str("DetectorId", &identifier);
        json.insert("Name", JsonValue::Str(identifier));
        JsonValue::Object(json)
    }

    fn detector_identifier_of(&self, d: &AnomalyDetector) -> (r: String)
        ensures
            r@ == detector_identifier(*d),
    {
        let (name, namespace, stat, suffix) = match &d.single_metric_anomaly_detector {
            Some(s) => (
                text_or_empty_of(&s.metric_name),
                text_or_empty_of(&s.namespace),
                text_or_empty_of(&s.stat),
                match dimension_suffix_of(&s.dimensions) {
                    Some(x) => x,
                    None => String::new(),
                },
            ),
            None => (String::new(), String::new(), String::new(), String::new()),
        };
        if d.single_metric_anomaly_detector.is_none() && d.is_metric_math {
            let labels = match &d.metric_math_queries {
                Some(q) => query_labels_of(q),
                None => Vec::new(),
            };
            proof {
                if d.metric_math_queries is None {
                    assert(texts(labels@) =~= query_labels(Seq::<MetricDataQuery>::empty()));
                }
            }
            let mut r = "metric-math:".to_owned();
            r.append(join(&labels, "|").as_str());
            r
        } else if name.as_str().is_empty() && namespace.as_str().is_empty() {
            let mut r = "anomaly-detector:".to_owned();
            r.append(
                if d.single_metric_anomaly_detector.is_some() {
                    "SingleMetric"
                } else if d.is_metric_math {
                    "MetricMath"
                } else {
                    "Unknown"
                },
            );
            r
        } else {
            let mut r = namespace;
            r.append("/");
            r.append(name.as_str());
            if !stat.as_str().is_empty() {
                r.append(":");
                r.append(stat.as_str());
            }
            if !suffix.as_str().is_empty() {
                r.append(":");
                r.append(suffix.as_str());
            }
            r
        }
    }

    /// Adds to `keys` the metrics that `alarms` watch.
    pub fn collect_alarm_metric_keys(&self, keys: &mut Vec<(String, String)>, alarms: &Vec<MetricAlarm>)
        ensures
            key_set(final(keys)@) == key_set(old(keys)@) + alarms_keys(alarms@),
    {
        let mut i: usize = 0;
        while i < alarms.len()
            invariant
                i <= alarms@.len(),
                key_set(keys@) == key_set(old(keys)@) + alarms_keys(alarms@.take(i as int)),
            decreases alarms@.len() - i,
        {
            let ghost start = key_set(keys@);
            let alarm = &alarms[i];
            add_key(keys, &alarm.namespace, &alarm.metric_name);
            if let Some(queries) = &alarm.metrics {
                let mut j: usize = 0;
                while j < queries.len()
                    invariant
                        j <= queries@.len(),
                        key_set(keys@) == start + opt_key(alarm.namespace, alarm.metric_name) + query_keys(
                            queries@.take(j as int),
                        ),
                    decreases queries@.len() - j,
                {
                    let ghost mid = key_set(keys@);
                    add_key(keys, &queries[j].namespace, &queries[j].metric_name);
                    assert(queries@.take(j + 1).drop_last() =~= queries@.take(j as int));
                    assert(key_set(keys@) =~= start + opt_key(alarm.namespace, alarm.metric_name) + query_keys(
                        queries@.take(j + 1),
                    ));
                    j = j + 1;
                }
                assert(queries@.take(queries@.len() as int) =~= queries@);
            }
            assert(alarms@.take(i + 1).drop_last() =~= alarms@.take(i as int));
            assert(key_set(keys@) =~= key_set(old(keys)@) + alarms_keys(alarms@.take(i + 1)));
            i = i + 1;
        }
        assert(alarms@.take(alarms@.len() as int) =~= alarms@);
    }

    /// Whether `metric` is listed, given the metrics that alarms watch.
    pub fn should_include_metric(&self, metric: &Metric, alarm_metrics: &Vec<(String, String)>) -> (b: bool)
        ensures
            b == metric_included(*metric, key_set(alarm_metrics@)),
    {
        let namespace = text_or_empty_of(&metric.namespace);
        let name = text_or_empty_of(&metric.metric_name);
        if namespace.as_str().is_empty() || name.as_str().is_empty() {
            return false;
        }
        if !starts_with(namespace.as_str(), "AWS/") {
            return true;
        }
        let mut i: usize = 0;
        while i < alarm_metrics.len()
            invariant
                i <= alarm_metrics@.len(),
                namespace@ == text_or_empty(metric.namespace),
                name@ == text_or_empty(metric.metric_name),
                namespace@.len() > 0 && name@.len() > 0,
                has_prefix(namespace@, "AWS/"@),
                forall|k: int| 0 <= k < i ==> (alarm_metrics@[k].0@, alarm_metrics@[k].1@) != (namespace@, name@),
            decreases alarm_metrics@.len() - i,
        {
            if alarm_metrics[i].0 == namespace && alarm_metrics[i].1 == name {
                assert(key_set(alarm_metrics@).contains((namespace@, name@)));
                return true;
            }
            i = i + 1;
        }
        assert(!key_set(alarm_metrics@).contains((namespace@, name@)));
        false
    }
}

/// The metrics that an alarm watches are among those that a list of alarms
/// holding it watches.
proof fn lemma_alarm_keys_within(alarms: Seq<MetricAlarm>, i: int)
    requires
        0 <= i < alarms.len(),
    ensures
        alarm_keys(alarms[i]).subset_of(alarms_keys(alarms)),
    decreases alarms.len(),
{
    if i < alarms.len() - 1 {
        lemma_alarm_keys_within(alarms.drop_last(), i);
    }
}

/// A metric that one of the alarms watches, under a namespace and a name that
/// are not empty, is listed once the alarms' metrics have been collected.
pub proof fn law_watched_metric_is_listed(alarms: Seq<MetricAlarm>, i: int, metric: Metric, collected: Set<(Seq<char>, Seq<char>)>)
    requires
        0 <= i < alarms.len(),
        alarms[i].namespace == metric.namespace,
        alarms[i].metric_name == metric.metric_name,
        text_or_empty(metric.namespace).len() > 0,
        text_or_empty(metric.metric_name).len() > 0,
    ensures
        metric_included(metric, collected + alarms_keys(alarms)),
{
    lemma_alarm_keys_within(alarms, i);
    let key = (text_or_empty(metric.namespace), text_or_empty(metric.metric_name));
    assert(opt_key(metric.namespace, metric.metric_name).contains(key));
    assert(alarm_keys(alarms[i]).contains(key));
}

/// A metric outside the `AWS/` namespaces is listed whatever the alarms watch,
/// when its namespace and name are not empty; one inside them that no alarm
/// watches is not.
pub proof fn law_custom_metrics_listed_aws_metrics_only_when_watched(metric: Metric, keys: Set<(Seq<char>, Seq<char>)>)
    requires
        text_or_empty(metric.namespace).len() > 0,
        text_or_empty(metric.metric_name).len() > 0,
    ensures
        !has_prefix(text_or_empty(metric.namespace), "AWS/"@) ==> metric_included(metric, keys),
        has_prefix(text_or_empty(metric.namespace), "AWS/"@) && !keys.contains(
            (text_or_empty(metric.namespace), text_or_empty(metric.metric_name)),
        ) ==> !metric_included(metric, keys),
{
}

impl<C> CloudWatchService<C> {
    /// The alarm `alarm_name`: the first of those that `DescribeAlarms` answered for it, or the
    /// error that names it.
    pub fn describe_alarm(&self, alarms: &Option<Vec<MetricAlarm>>, alarm_name: &str) -> (r: Result<JsonValue, String>)
        ensures
            match *alarms {
                Some(v) => if v@.len() > 0 {
                    r matches Ok(j) && j.view() == alarm_json(v@[0])
                } else {
                    r matches Err(e) && e@ == "Alarm "@ + alarm_name@ + " not found"@
                },
                None => r matches Err(e) && e@ == "Alarm "@ + alarm_name@ + " not found"@,
            },
    {
        if let Some(list) = alarms {
            if list.len() > 0 {
                return Ok(self.alarm_to_json(&list[0]));
            }
        }
        let mut text = concat_text("Alarm ", alarm_name);
        text.append(" not found");
        Err(text)
    }
}

// ----- laws of the alarms' metrics -----

/// Whether an alarm watches the metric `p`: its own namespace and metric
/// name, or those of one of its queries, both given.
pub open spec fn watches(a: MetricAlarm, p: (Seq<char>, Seq<char>)) -> bool {
    ||| names_metric(a.namespace, a.metric_name, p)
    ||| exists|q: int|
        0 <= q < query_seq(a.metrics).len() && #[trigger] query_names_metric(query_seq(a.metrics)[q], p)
}

/// Whether a namespace and a metric name, both given, are those of `p`.
pub open spec fn names_metric(namespace: Option<String>, metric_name: Option<String>, p: (Seq<char>, Seq<char>)) -> bool {
    match (namespace, metric_name) {
        (Some(n), Some(m)) => p == (n@, m@),
        _ => false,
    }
}

/// Whether a query reads the metric `p`.
pub open spec fn query_names_metric(q: AlarmMetricQuery, p: (Seq<char>, Seq<char>)) -> bool {
    names_metric(q.namespace, q.metric_name, p)
}

/// The queries of an alarm as a sequence, none when there is no list.
pub open spec fn query_seq(o: Option<Vec<AlarmMetricQuery>>) -> Seq<AlarmMetricQuery> {
    match o {
        Some(v) => v@,
        None => Seq::empty(),
    }
}

/// The metrics collected over pages of alarms, one page after the other, as
/// `collect_alarm_metric_keys` gathers them.
pub open spec fn pages_keys(pages: Seq<Seq<MetricAlarm>>) -> Set<(Seq<char>, Seq<char>)>
    decreases pages.len(),
{
    if pages.len() == 0 {
        Set::empty()
    } else {
        pages_keys(pages.drop_last()) + alarms_keys(pages.last())
    }
}

proof fn lemma_query_keys_member(queries: Seq<AlarmMetricQuery>, p: (Seq<char>, Seq<char>))
    ensures
        query_keys(queries).contains(p) <==> exists|q: int|
            0 <= q < queries.len() && #[trigger] query_names_metric(queries[q], p),
    decreases queries.len(),
{
    if queries.len() > 0 {
        let rest = queries.drop_last();
        let last = queries.last();
        lemma_query_keys_member(rest, p);
        assert(opt_key(last.namespace, last.metric_name).contains(p) <==> query_names_metric(last, p));
        if query_keys(queries).contains(p) {
            if query_keys(rest).contains(p) {
                let q = choose|q: int| 0 <= q < rest.len() && #[trigger] query_names_metric(rest[q], p);
                assert(queries[q] == rest[q]);
                assert(query_names_metric(queries[q], p));
            } else {
                assert(queries[queries.len() - 1] == last);
                assert(query_names_metric(queries[queries.len() - 1], p));
            }
        }
        if exists|q: int| 0 <= q < queries.len() && #[trigger] query_names_metric(queries[q], p) {
            let q = choose|q: int| 0 <= q < queries.len() && #[trigger] query_names_metric(queries[q], p);
            if q < queries.len() - 1 {
                assert(rest[q] == queries[q]);
                assert(query_names_metric(rest[q], p));
            }
        }
    }
}

proof fn lemma_alarms_keys_member(alarms: Seq<MetricAlarm>, p: (Seq<char>, Seq<char>))
    ensures
        alarms_keys(alarms).contains(p) <==> exists|k: int| 0 <= k < alarms.len() && watches(#[trigger] alarms[k], p),
    decreases alarms.len(),
{
    if alarms.len() > 0 {
        let rest = alarms.drop_last();
        let last = alarms.last();
        lemma_alarms_keys_member(rest, p);
        lemma_query_keys_member(query_seq(last.metrics), p);
        assert(opt_key(last.namespace, last.metric_name).contains(p) <==> names_metric(last.namespace, last.metric_name, p));
        assert(alarm_keys(last).contains(p) <==> watches(last, p));
        if alarms_keys(alarms).contains(p) {
            if alarms_keys(rest).contains(p) {
                let k = choose|k: int| 0 <= k < rest.len() && watches(#[trigger] rest[k], p);
                assert(alarms[k] == rest[k]);
            } else {
                assert(alarms[alarms.len() - 1] == last);
            }
        }
        if exists|k: int| 0 <= k < alarms.len() && watches(#[trigger] alarms[k], p) {
            let k = choose|k: int| 0 <= k < alarms.len() && watches(#[trigger] alarms[k], p);
            if k < alarms.len() - 1 {
                assert(rest[k] == alarms[k]);
            }
        }
    }
}

/// The metrics gathered from the alarms of every page are exactly those that
/// some alarm of some page watches: its own metric or the metric of one of
/// its queries, with both namespace and name given.
pub proof fn law_alarm_metric_keys(pages: Seq<Seq<MetricAlarm>>, p: (Seq<char>, Seq<char>))
    ensures
        pages_keys(pages).contains(p) <==> exists|i: int, k: int|
            0 <= i < pages.len() && 0 <= k < pages[i].len() && watches(#[trigger] pages[i][k], p),
    decreases pages.len(),
{
    if pages.len() > 0 {
        let rest = pages.drop_last();
        let last = pages.last();
        law_alarm_metric_keys(rest, p);
        lemma_alarms_keys_member(last, p);
        if pages_keys(pages).contains(p) {
            if pages_keys(rest).contains(p) {
                let (i, k) = choose|i: int, k: int|
                    0 <= i < rest.len() && 0 <= k < rest[i].len() && watches(#[trigger] rest[i][k], p);
                assert(pages[i] == rest[i]);
            } else {
                let k = choose|k: int| 0 <= k < last.len() && watches(#[trigger] last[k], p);
                assert(pages[pages.len() - 1] == last);
                assert(watches(pages[pages.len() - 1][k], p));
            }
        }
        if exists|i: int, k: int| 0 <= i < pages.len() && 0 <= k < pages[i].len() && watches(#[trigger] pages[i][k], p) {
            let (i, k) = choose|i: int, k: int|
                0 <= i < pages.len() && 0 <= k < pages[i].len() && watches(#[trigger] pages[i][k], p);
            if i < pages.len() - 1 {
                assert(rest[i] == pages[i]);
                assert(watches(rest[i][k], p));
            } else {
                assert(pages[i] == last);
                assert(watches(last[k], p));
            }
        }
    }
}

/// The keys of a metric-math detector's object differ from each other and from those of a single-metric one.
proof fn lemma_detector_keys_differ()
    ensures
        "MetricDataQueryCount"@ != "DetectorType"@,
        "MetricDataQueryCount"@ != "StateValue"@,
        "MetricDataQueryCount"@ != "Status"@,
        "MetricDataQueryCount"@ != "DetectorId"@,
        "MetricDataQueryCount"@ != "Name"@,
        "DetectorType"@ != "StateValue"@,
        "DetectorType"@ != "Status"@,
        "DetectorType"@ != "DetectorId"@,
        "DetectorType"@ != "Name"@,
        "StateValue"@ != "Status"@,
        "StateValue"@ != "DetectorId"@,
        "StateValue"@ != "Name"@,
        "Status"@ != "DetectorId"@,
        "Status"@ != "Name"@,
        "DetectorId"@ != "Name"@,
        "MetricName"@ != "MetricDataQueryCount"@,
        "MetricName"@ != "DetectorType"@,
        "MetricName"@ != "StateValue"@,
        "MetricName"@ != "Status"@,
        "MetricName"@ != "DetectorId"@,
        "MetricName"@ != "Name"@,
        "Namespace"@ != "MetricDataQueryCount"@,
        "Namespace"@ != "DetectorType"@,
        "Namespace"@ != "StateValue"@,
        "Namespace"@ != "Status"@,
        "Namespace"@ != "DetectorId"@,
        "Namespace"@ != "Name"@,
        "Stat"@ != "MetricDataQueryCount"@,
        "Stat"@ != "DetectorType"@,
        "Stat"@ != "StateValue"@,
        "Stat"@ != "Status"@,
        "Stat"@ != "DetectorId"@,
        "Stat"@ != "Name"@,
        "Dimensions"@ != "MetricDataQueryCount"@,
        "Dimensions"@ != "DetectorType"@,
        "Dimensions"@ != "StateValue"@,
        "Dimensions"@ != "Status"@,
        "Dimensions"@ != "DetectorId"@,
        "Dimensions"@ != "Name"@,
{
    assert("MetricDataQueryCount"@ != "DetectorType"@) by {
        reveal_strlit("MetricDataQueryCount");
        reveal_strlit("DetectorType");
        assert("MetricDataQueryCount"@.len() != "DetectorType"@.len());
    }
    assert("MetricDataQueryCount"@ != "StateValue"@) by {
        reveal_strlit("MetricDataQueryCount");
        reveal_strlit("StateValue");
        assert("MetricDataQueryCount"@.len() != "StateValue"@.len());
    }
    assert("MetricDataQueryCount"@ != "Status"@) by {
        reveal_strlit("MetricDataQueryCount");
        reveal_strlit("Status");
        assert("MetricDataQueryCount"@.len() != "Status"@.len());
    }
    assert("MetricDataQueryCount"@ != "DetectorId"@) by {
        reveal_strlit("MetricDataQueryCount");
        reveal_strlit("DetectorId");
        assert("MetricDataQueryCount"@.len() != "DetectorId"@.len());
    }
    assert("MetricDataQueryCount"@ != "Name"@) by {
        reveal_strlit("MetricDataQueryCount");
        reveal_strlit("Name");
        assert("MetricDataQueryCount"@.len() != "Name"@.len());
    }
    assert("DetectorType"@ != "StateValue"@) by {
        reveal_strlit("DetectorType");
        reveal_strlit("StateValue");
        assert("DetectorType"@.len() != "StateValue"@.len());
    }
    assert("DetectorType"@ != "Status"@) by {
        reveal_strlit("DetectorType");
        reveal_strlit("Status");
        assert("DetectorType"@.len() != "Status"@.len());
    }
    assert("DetectorType"@ != "DetectorId"@) by {
        reveal_strlit("DetectorType");
        reveal_strlit("DetectorId");
        assert("DetectorType"@.len() != "DetectorId"@.len());
    }
    assert("DetectorType"@ != "Name"@) by {
        reveal_strlit("DetectorType");
        reveal_strlit("Name");
        assert("DetectorType"@.len() != "Name"@.len());
    }
    assert("StateValue"@ != "Status"@) by {
        reveal_strlit("StateValue");
        reveal_strlit("Status");
        assert("StateValue"@.len() != "Status"@.len());
    }
    assert("StateValue"@ != "DetectorId"@) by {
        reveal_strlit("StateValue");
        reveal_strlit("DetectorId");
        assert("StateValue"@[0] != "DetectorId"@[0]);
    }
    assert("StateValue"@ != "Name"@) by {
        reveal_strlit("StateValue");
        reveal_strlit("Name");
        assert("StateValue"@.len() != "Name"@.len());
    }
    assert("Status"@ != "DetectorId"@) by {
        reveal_strlit("Status");
        reveal_strlit("DetectorId");
        assert("Status"@.len() != "DetectorId"@.len());
    }
    assert("Status"@ != "Name"@) by {
        reveal_strlit("Status");
        reveal_strlit("Name");
        assert("Status"@.len() != "Name"@.len());
    }
    assert("DetectorId"@ != "Name"@) by {
        reveal_strlit("DetectorId");
        reveal_strlit("Name");
        assert("DetectorId"@.len() != "Name"@.len());
    }
    assert("MetricName"@ != "MetricDataQueryCount"@) by {
        reveal_strlit("MetricName");
        reveal_strlit("MetricDataQueryCount");
        assert("MetricName"@.len() != "MetricDataQueryCount"@.len());
    }
    assert("MetricName"@ != "DetectorType"@) by {
        reveal_strlit("MetricName");
        reveal_strlit("DetectorType");
        assert("MetricName"@.len() != "DetectorType"@.len());
    }
    assert("MetricName"@ != "StateValue"@) by {
        reveal_strlit("MetricName");
        reveal_strlit("StateValue");
        assert("MetricName"@[0] != "StateValue"@[0]);
    }
    assert("MetricName"@ != "Status"@) by {
        reveal_strlit("MetricName");
        reveal_strlit("Status");
        assert("MetricName"@.len() != "Status"@.len());
    }
    assert("MetricName"@ != "DetectorId"@) by {
        reveal_strlit("MetricName");
        reveal_strlit("DetectorId");
        assert("MetricName"@[0] != "DetectorId"@[0]);
    }
    assert("MetricName"@ != "Name"@) by {
        reveal_strlit("MetricName");
        reveal_strlit("Name");
        assert("MetricName"@.len() != "Name"@.len());
    }
    assert("Namespace"@ != "MetricDataQueryCount"@) by {
        reveal_strlit("Namespace");
        reveal_strlit("MetricDataQueryCount");
        assert("Namespace"@.len() != "MetricDataQueryCount"@.len());
    }
    assert("Namespace"@ != "DetectorType"@) by {
        reveal_strlit("Namespace");
        reveal_strlit("DetectorType");
        assert("Namespace"@.len() != "DetectorType"@.len());
    }
    assert("Namespace"@ != "StateValue"@) by {
        reveal_strlit("Namespace");
        reveal_strlit("StateValue");
        assert("Namespace"@.len() != "StateValue"@.len());
    }
    assert("Namespace"@ != "Status"@) by {
        reveal_strlit("Namespace");
        reveal_strlit("Status");
        assert("Namespace"@.len() != "Status"@.len());
    }
    assert("Namespace"@ != "DetectorId"@) by {
        reveal_strlit("Namespace");
        reveal_strlit("DetectorId");
        assert("Namespace"@.len() != "DetectorId"@.len());
    }
    assert("Namespace"@ != "Name"@) by {
        reveal_strlit("Namespace");
        reveal_strlit("Name");
        assert("Namespace"@.len() != "Name"@.len());
    }
    assert("Stat"@ != "MetricDataQueryCount"@) by {
        reveal_strlit("Stat");
        reveal_strlit("MetricDataQueryCount");
        assert("Stat"@.len() != "MetricDataQueryCount"@.len());
    }
    assert("Stat"@ != "DetectorType"@) by {
        reveal_strlit("Stat");
        reveal_strlit("DetectorType");
        assert("Stat"@.len() != "DetectorType"@.len());
    }
    assert("Stat"@ != "StateValue"@) by {
        reveal_strlit("Stat");
        reveal_strlit("StateValue");
        assert("Stat"@.len() != "StateValue"@.len());
    }
    assert("Stat"@ != "Status"@) by {
        reveal_strlit("Stat");
        reveal_strlit("Status");
        assert("Stat"@.len() != "Status"@.len());
    }
    assert("Stat"@ != "DetectorId"@) by {
        reveal_strlit("Stat");
        reveal_strlit("DetectorId");
        assert("Stat"@.len() != "DetectorId"@.len());
    }
    assert("Stat"@ != "Name"@) by {
        reveal_strlit("Stat");
        reveal_strlit("Name");
        assert("Stat"@[0] != "Name"@[0]);
    }
    assert("Dimensions"@ != "MetricDataQueryCount"@) by {
        reveal_strlit("Dimensions");
        reveal_strlit("MetricDataQueryCount");
        assert("Dimensions"@.len() != "MetricDataQueryCount"@.len());
    }
    assert("Dimensions"@ != "DetectorType"@) by {
        reveal_strlit("Dimensions");
        reveal_strlit("DetectorType");
        assert("Dimensions"@.len() != "DetectorType"@.len());
    }
    assert("Dimensions"@ != "StateValue"@) by {
        reveal_strlit("Dimensions");
        reveal_strlit("StateValue");
        assert("Dimensions"@[0] != "StateValue"@[0]);
    }
    assert("Dimensions"@ != "Status"@) by {
        reveal_strlit("Dimensions");
        reveal_strlit("Status");
        assert("Dimensions"@.len() != "Status"@.len());
    }
    assert("Dimensions"@ != "DetectorId"@) by {
        reveal_strlit("Dimensions");
        reveal_strlit("DetectorId");
        assert("Dimensions"@[1] != "DetectorId"@[1]);
    }
    assert("Dimensions"@ != "Name"@) by {
        reveal_strlit("Dimensions");
        reveal_strlit("Name");
        assert("Dimensions"@.len() != "Name"@.len());
    }
}

/// The identifier keys of a metric's object differ from each other and from its status.
proof fn lemma_metric_keys_differ()
    ensures
        "MetricId"@ != "Name"@,
        "MetricId"@ != "Status"@,
        "Name"@ != "Status"@,
{
    assert("MetricId"@ != "Name"@) by {
        reveal_strlit("MetricId");
        reveal_strlit("Name");
        assert("MetricId"@.len() != "Name"@.len());
    }
    assert("MetricId"@ != "Status"@) by {
        reveal_strlit("MetricId");
        reveal_strlit("Status");
        assert("MetricId"@.len() != "Status"@.len());
    }
    assert("Name"@ != "Status"@) by {
        reveal_strlit("Name");
        reveal_strlit("Status");
        assert("Name"@.len() != "Status"@.len());
    }
}

/// A metric-math detector (one without a single metric) is of the kind
/// `MetricMath`, counts its queries, has no metric, namespace, statistic or
/// dimensions, and is identified, under `DetectorId` and `Name` alike, by
/// `metric-math:` followed by its queries' names joined by `|`; a query is
/// named by its id, else its label, else its expression, else `query-<index>`.
pub proof fn law_metric_math_detector(d: AnomalyDetector)
    requires
        d.single_metric_anomaly_detector is None,
        d.is_metric_math,
    ensures
        anomaly_detector_json(d) is Object,
        ({
            let m = anomaly_detector_json(d)->Object_0;
            let queries = match d.metric_math_queries {
                Some(q) => q@,
                None => Seq::<MetricDataQuery>::empty(),
            };
            let id = "metric-math:"@ + joined(query_labels(queries), "|"@);
            &&& m["DetectorType"@] == JsonView::Str("MetricMath"@)
            &&& m["MetricDataQueryCount"@] == JsonView::Number(queries.len() as int)
            &&& m["DetectorId"@] == JsonView::Str(id)
            &&& m["Name"@] == JsonView::Str(id)
            &&& query_labels(queries).len() == queries.len()
            &&& forall|i: int| 0 <= i < queries.len() ==> #[trigger] query_labels(queries)[i] == query_label(queries[i], i as nat)
            &&& !m.contains_key("MetricName"@) && !m.contains_key("Namespace"@)
            &&& !m.contains_key("Stat"@) && !m.contains_key("Dimensions"@)
        }),
{
    lemma_detector_keys_differ();
}

/// A metric's object carries its identifier under `MetricId` and `Name`
/// alike, and the identifier begins with `namespace/name`, each empty when
/// missing.
pub proof fn law_metric_identifier_names_it(metric: Metric)
    ensures
        metric_json(metric) is Object,
        metric_json(metric)->Object_0["MetricId"@] == JsonView::Str(metric_identifier(metric)),
        metric_json(metric)->Object_0["Name"@] == JsonView::Str(metric_identifier(metric)),
        ({
            let base = text_or_empty(metric.namespace) + "/"@ + text_or_empty(metric.metric_name);
            metric_identifier(metric).take(base.len() as int) == base
        }),
{
    lemma_metric_keys_differ();
    let base = text_or_empty(metric.namespace) + "/"@ + text_or_empty(metric.metric_name);
    match dimension_suffix(metric.dimensions) {
        Some(s) => {
            assert((base + ":"@ + s).take(base.len() as int) =~= base);
        },
        None => {
            assert(base.take(base.len() as int) =~= base);
        },
    }
}


/// The `name=value` text of a dimension that has both, as a sequence of at
/// most one text.
pub open spec fn dimension_part(d: Dimension) -> Seq<Seq<char>> {
    match (d.name, d.value) {
        (Some(n), Some(v)) => seq![n@ + "="@ + v@],
        _ => Seq::empty(),
    }
}

proof fn lemma_dimension_parts_concat(a: Seq<Dimension>, b: Seq<Dimension>)
    ensures
        dimension_parts(a + b) == dimension_parts(a) + dimension_parts(b),
    decreases b.len(),
{
    if b.len() == 0 {
        assert(a + b =~= a);
        assert(dimension_parts(a) + dimension_parts(b) =~= dimension_parts(a));
    } else {
        lemma_dimension_parts_concat(a, b.drop_last());
        assert((a + b).drop_last() =~= a + b.drop_last());
        assert((a + b).last() == b.last());
        let x = b.last();
        match (x.name, x.value) {
            (Some(n), Some(v)) => {
                assert(dimension_parts(a) + dimension_parts(b) =~= (dimension_parts(a) + dimension_parts(b.drop_last())).push(
                    n@ + "="@ + v@,
                ));
            },
            _ => {},
        }
    }
}

/// Dimensions that are the same up to order give the same `name=value`
/// texts, each as often.
proof fn lemma_dimension_parts_permutation(a: Seq<Dimension>, b: Seq<Dimension>)
    requires
        a.to_multiset() == b.to_multiset(),
    ensures
        dimension_parts(a).to_multiset() == dimension_parts(b).to_multiset(),
    decreases a.len(),
{
    broadcast use vstd::seq_lib::group_to_multiset_ensures, vstd::multiset::group_multiset_axioms;

    if a.len() == 0 {
        assert(b.len() == a.to_multiset().len());
        assert(b =~= a);
    } else {
        let x = a.last();
        let rest = a.drop_last();
        assert(a[a.len() - 1] == x);
        assert(a.contains(x));
        assert(b.to_multiset().count(x) > 0);
        assert(b.contains(x));
        let i = choose|i: int| 0 <= i < b.len() && b[i] == x;
        let b2 = b.remove(i);
        assert(rest.push(x) =~= a);
        assert(rest.to_multiset() =~= b2.to_multiset());
        lemma_dimension_parts_permutation(rest, b2);
        let left = b.take(i);
        let right = b.skip(i + 1);
        assert(b =~= left + seq![x] + right);
        assert(b2 =~= left + right);
        lemma_dimension_parts_concat(left + seq![x], right);
        lemma_dimension_parts_concat(left, seq![x]);
        lemma_dimension_parts_concat(left, right);
        lemma_dimension_parts_concat(rest, seq![x]);
        assert(dimension_parts(seq![x]) =~= dimension_part(x)) by {
            assert(seq![x].drop_last() =~= Seq::<Dimension>::empty());
            assert(seq![x].last() == x);
            assert(dimension_parts(Seq::<Dimension>::empty()) =~= Seq::<Seq<char>>::empty());
            assert(dimension_parts(seq![x]) == dimension_parts(seq![x].drop_last()) + dimension_part(x)) by {
                match (x.name, x.value) {
                    (Some(n), Some(v)) => {
                        assert(dimension_parts(seq![x].drop_last()).push(n@ + "="@ + v@) =~= dimension_parts(
                            seq![x].drop_last(),
                        ) + seq![n@ + "="@ + v@]);
                    },
                    _ => {
                        assert(dimension_parts(seq![x].drop_last()) + dimension_part(x) =~= dimension_parts(
                            seq![x].drop_last(),
                        ));
                    },
                }
            }
        }
        vstd::seq_lib::lemma_multiset_commutative(dimension_parts(left) + dimension_part(x), dimension_parts(right));
        vstd::seq_lib::lemma_multiset_commutative(dimension_parts(left), dimension_part(x));
        vstd::seq_lib::lemma_multiset_commutative(dimension_parts(left), dimension_parts(right));
        vstd::seq_lib::lemma_multiset_commutative(dimension_parts(rest), dimension_part(x));
        assert(dimension_parts(a).to_multiset() =~= dimension_parts(b).to_multiset());
    }
}

/// A metric's identifier does not depend on the order of its dimensions:
/// two metrics with the same namespace and name whose dimension lists hold
/// the same dimensions, each as often, have the same `MetricId` and `Name`.
pub proof fn law_metric_id_ignores_dimension_order(m1: Metric, m2: Metric)
    requires
        m1.namespace == m2.namespace,
        m1.metric_name == m2.metric_name,
        match (m1.dimensions, m2.dimensions) {
            (Some(a), Some(b)) => a@.to_multiset() == b@.to_multiset(),
            (None, None) => true,
            _ => false,
        },
    ensures
        metric_identifier(m1) == metric_identifier(m2),
        metric_json(m1)->Object_0["MetricId"@] == metric_json(m2)->Object_0["MetricId"@],
        metric_json(m1)->Object_0["Name"@] == metric_json(m2)->Object_0["Name"@],
{
    broadcast use vstd::seq_lib::group_to_multiset_ensures;

    lemma_metric_keys_differ();
    match (m1.dimensions, m2.dimensions) {
        (Some(a), Some(b)) => {
            assert(a@.len() == a@.to_multiset().len());
            assert(b@.len() == b@.to_multiset().len());
            lemma_dimension_parts_permutation(a@, b@);
            let x = dimension_parts(a@);
            let y = dimension_parts(b@);
            crate::order::lemma_text_order_total();
            x.lemma_sort_by_ensures(text_order());
            y.lemma_sort_by_ensures(text_order());
            vstd::seq_lib::lemma_sorted_unique(x.sort_by(text_order()), y.sort_by(text_order()), text_order());
        },
        _ => {},
    }
}

/// What tells the keys of `alarm_json` apart: their lengths, and a letter where two have the same length.
proof fn lemma_alarm_json_keys_differ()
    ensures
        "ActionsEnabled"@.len() == 14,
        "AlarmArn"@.len() == 8,
        "AlarmConfigurationUpdatedTimestamp"@.len() == 34,
        "AlarmDescription"@.len() == 16,
        "AlarmName"@.len() == 9 && "AlarmName"@[0] == 'A',
        "ComparisonOperator"@.len() == 18,
        "EvaluationPeriods"@.len() == 17,
        "MetricName"@.len() == 10 && "MetricName"@[0] == 'M',
        "Name"@.len() == 4,
        "Namespace"@.len() == 9 && "Namespace"@[0] == 'N',
        "Period"@.len() == 6 && "Period"@[0] == 'P',
        "StateReason"@.len() == 11,
        "StateUpdatedTimestamp"@.len() == 21,
        "StateValue"@.len() == 10 && "StateValue"@[0] == 'S',
        "Statistic"@.len() == 9 && "Statistic"@[0] == 'S',
        "Status"@.len() == 6 && "Status"@[0] == 'S',
        "Threshold"@.len() == 9 && "Threshold"@[0] == 'T',
{
    reveal_strlit("ActionsEnabled");
    reveal_strlit("AlarmArn");
    reveal_strlit("AlarmConfigurationUpdatedTimestamp");
    reveal_strlit("AlarmDescription");
    reveal_strlit("AlarmName");
    reveal_strlit("ComparisonOperator");
    reveal_strlit("EvaluationPeriods");
    reveal_strlit("MetricName");
    reveal_strlit("Name");
    reveal_strlit("Namespace");
    reveal_strlit("Period");
    reveal_strlit("StateReason");
    reveal_strlit("StateUpdatedTimestamp");
    reveal_strlit("StateValue");
    reveal_strlit("Statistic");
    reveal_strlit("Status");
    reveal_strlit("Threshold");
}

#[verifier::spinoff_prover]
#[verifier::rlimit(30)]
proof fn lemma_alarm_json_fields_0(alarm: MetricAlarm)
    ensures
        alarm_json(alarm) is Object,
        ({
            let m = alarm_json(alarm)->Object_0;
            &&& alarm.alarm_arn is None ==> !m.contains_key("AlarmArn"@)
            &&& alarm.alarm_arn is Some ==> m.contains_key("AlarmArn"@) && m["AlarmArn"@] == JsonView::Str(alarm.alarm_arn->0@)
            &&& alarm.alarm_name is None ==> !m.contains_key("AlarmName"@)
            &&& alarm.alarm_name is Some ==> m.contains_key("AlarmName"@) && m["AlarmName"@] == JsonView::Str(alarm.alarm_name->0@)
            &&& alarm.alarm_name is None ==> !m.contains_key("Name"@)
            &&& alarm.alarm_name is Some ==> m.contains_key("Name"@) && m["Name"@] == JsonView::Str(alarm.alarm_name->0@)
        }),
{
    lemma_alarm_json_keys_differ();
}

#[verifier::spinoff_prover]
#[verifier::rlimit(30)]
proof fn lemma_alarm_json_fields_1(alarm: MetricAlarm)
    ensures
        alarm_json(alarm) is Object,
        ({
            let m = alarm_json(alarm)->Object_0;
            &&& alarm.actions_enabled is None ==> !m.contains_key("ActionsEnabled"@)
            &&& alarm.actions_enabled is Some ==> m.contains_key("ActionsEnabled"@) && m["ActionsEnabled"@] == JsonView::Bool(alarm.actions_enabled->0)
            &&& alarm.alarm_configuration_updated_timestamp is None ==> !m.contains_key("AlarmConfigurationUpdatedTimestamp"@)
            &&& alarm.alarm_configuration_updated_timestamp is Some ==> m.contains_key("AlarmConfigurationUpdatedTimestamp"@) && m["AlarmConfigurationUpdatedTimestamp"@] == ts_json(alarm.alarm_configuration_updated_timestamp->0)
            &&& alarm.alarm_description is None ==> !m.contains_key("AlarmDescription"@)
            &&& alarm.alarm_description is Some ==> m.contains_key("AlarmDescription"@) && m["AlarmDescription"@] == JsonView::Str(alarm.alarm_description->0@)
        }),
{
    lemma_alarm_json_keys_differ();
}

#[verifier::spinoff_prover]
#[verifier::rlimit(30)]
proof fn lemma_alarm_json_fields_2(alarm: MetricAlarm)
    ensures
        alarm_json(alarm) is Object,
        ({
            let m = alarm_json(alarm)->Object_0;
            &&& alarm.state_reason is None ==> !m.contains_key("StateReason"@)
            &&& alarm.state_reason is Some ==> m.contains_key("StateReason"@) && m["StateReason"@] == JsonView::Str(alarm.state_reason->0@)
            &&& alarm.state_value is None ==> !m.contains_key("StateValue"@)
            &&& alarm.state_value is Some ==> m.contains_key("StateValue"@) && m["StateValue"@] == JsonView::Str(alarm.state_value->0@)
            &&& alarm.state_value is None ==> !m.contains_key("Status"@)
            &&& alarm.state_value is Some ==> m.contains_key("Status"@) && m["Status"@] == JsonView::Str(alarm.state_value->0@)
        }),
{
    lemma_alarm_json_keys_differ();
}

#[verifier::spinoff_prover]
#[verifier::rlimit(30)]
proof fn lemma_alarm_json_fields_3(alarm: MetricAlarm)
    ensures
        alarm_json(alarm) is Object,
        ({
            let m = alarm_json(alarm)->Object_0;
            &&& alarm.metric_name is None ==> !m.contains_key("MetricName"@)
            &&& alarm.metric_name is Some ==> m.contains_key("MetricName"@) && m["MetricName"@] == JsonView::Str(alarm.metric_name->0@)
            &&& alarm.namespace is None ==> !m.contains_key("Namespace"@)
            &&& alarm.namespace is Some ==> m.contains_key("Namespace"@) && m["Namespace"@] == JsonView::Str(alarm.namespace->0@)
            &&& alarm.state_updated_timestamp is None ==> !m.contains_key("StateUpdatedTimestamp"@)
            &&& alarm.state_updated_timestamp is Some ==> m.contains_key("StateUpdatedTimestamp"@) && m["StateUpdatedTimestamp"@] == ts_json(alarm.state_updated_timestamp->0)
        }),
{
    lemma_alarm_json_keys_differ();
}

#[verifier::spinoff_prover]
#[verifier::rlimit(30)]
proof fn lemma_alarm_json_fields_4(alarm: MetricAlarm)
    ensures
        alarm_json(alarm) is Object,
        ({
            let m = alarm_json(alarm)->Object_0;
            &&& alarm.comparison_operator is None ==> !m.contains_key("ComparisonOperator"@)
            &&& alarm.comparison_operator is Some ==> m.contains_key("ComparisonOperator"@) && m["ComparisonOperator"@] == JsonView::Str(alarm.comparison_operator->0@)
            &&& alarm.period is None ==> !m.contains_key("Period"@)
            &&& alarm.period is Some ==> m.contains_key("Period"@) && m["Period"@] == JsonView::Number(alarm.period->0 as int)
            &&& alarm.statistic is None ==> !m.contains_key("Statistic"@)
            &&& alarm.statistic is Some ==> m.contains_key("Statistic"@) && m["Statistic"@] == JsonView::Str(alarm.statistic->0@)
        }),
{
    lemma_alarm_json_keys_differ();
}

#[verifier::spinoff_prover]
#[verifier::rlimit(30)]
proof fn lemma_alarm_json_fields_5(alarm: MetricAlarm)
    ensures
        alarm_json(alarm) is Object,
        ({
            let m = alarm_json(alarm)->Object_0;
            &&& alarm.evaluation_periods is None ==> !m.contains_key("EvaluationPeriods"@)
            &&& alarm.evaluation_periods is Some ==> m.contains_key("EvaluationPeriods"@) && m["EvaluationPeriods"@] == JsonView::Number(alarm.evaluation_periods->0 as int)
        }),
{
    lemma_alarm_json_keys_differ();
}

/// An alarm's object holds each reported field under its own key (its namespace under `Namespace`, its metric name under `MetricName`, its name under `AlarmName` and `Name`, ...), and a key is missing exactly when AWS did not report its field.
pub proof fn law_alarm_fields(alarm: MetricAlarm)
    ensures
        alarm_json(alarm) is Object,
        ({
            let m = alarm_json(alarm)->Object_0;
            &&& alarm.actions_enabled is None ==> !m.contains_key("ActionsEnabled"@)
            &&& alarm.actions_enabled is Some ==> m.contains_key("ActionsEnabled"@) && m["ActionsEnabled"@] == JsonView::Bool(alarm.actions_enabled->0)
            &&& alarm.alarm_arn is None ==> !m.contains_key("AlarmArn"@)
            &&& alarm.alarm_arn is Some ==> m.contains_key("AlarmArn"@) && m["AlarmArn"@] == JsonView::Str(alarm.alarm_arn->0@)
            &&& alarm.alarm_configuration_updated_timestamp is None ==> !m.contains_key("AlarmConfigurationUpdatedTimestamp"@)
            &&& alarm.alarm_configuration_updated_timestamp is Some ==> m.contains_key("AlarmConfigurationUpdatedTimestamp"@) && m["AlarmConfigurationUpdatedTimestamp"@] == ts_json(alarm.alarm_configuration_updated_timestamp->0)
            &&& alarm.alarm_description is None ==> !m.contains_key("AlarmDescription"@)
            &&& alarm.alarm_description is Some ==> m.contains_key("AlarmDescription"@) && m["AlarmDescription"@] == JsonView::Str(alarm.alarm_description->0@)
            &&& alarm.alarm_name is None ==> !m.contains_key("AlarmName"@)
            &&& alarm.alarm_name is Some ==> m.contains_key("AlarmName"@) && m["AlarmName"@] == JsonView::Str(alarm.alarm_name->0@)
            &&& alarm.comparison_operator is None ==> !m.contains_key("ComparisonOperator"@)
            &&& alarm.comparison_operator is Some ==> m.contains_key("ComparisonOperator"@) && m["ComparisonOperator"@] == JsonView::Str(alarm.comparison_operator->0@)
            &&& alarm.evaluation_periods is None ==> !m.contains_key("EvaluationPeriods"@)
            &&& alarm.evaluation_periods is Some ==> m.contains_key("EvaluationPeriods"@) && m["EvaluationPeriods"@] == JsonView::Number(alarm.evaluation_periods->0 as int)
            &&& alarm.metric_name is None ==> !m.contains_key("MetricName"@)
            &&& alarm.metric_name is Some ==> m.contains_key("MetricName"@) && m["MetricName"@] == JsonView::Str(alarm.metric_name->0@)
            &&& alarm.alarm_name is None ==> !m.contains_key("Name"@)
            &&& alarm.alarm_name is Some ==> m.contains_key("Name"@) && m["Name"@] == JsonView::Str(alarm.alarm_name->0@)
            &&& alarm.namespace is None ==> !m.contains_key("Namespace"@)
            &&& alarm.namespace is Some ==> m.contains_key("Namespace"@) && m["Namespace"@] == JsonView::Str(alarm.namespace->0@)
            &&& alarm.period is None ==> !m.contains_key("Period"@)
            &&& alarm.period is Some ==> m.contains_key("Period"@) && m["Period"@] == JsonView::Number(alarm.period->0 as int)
            &&& alarm.state_reason is None ==> !m.contains_key("StateReason"@)
            &&& alarm.state_reason is Some ==> m.contains_key("StateReason"@) && m["StateReason"@] == JsonView::Str(alarm.state_reason->0@)
            &&& alarm.state_updated_timestamp is None ==> !m.contains_key("StateUpdatedTimestamp"@)
            &&& alarm.state_updated_timestamp is Some ==> m.contains_key("StateUpdatedTimestamp"@) && m["StateUpdatedTimestamp"@] == ts_json(alarm.state_updated_timestamp->0)
            &&& alarm.state_value is None ==> !m.contains_key("StateValue"@)
            &&& alarm.state_value is Some ==> m.contains_key("StateValue"@) && m["StateValue"@] == JsonView::Str(alarm.state_value->0@)
            &&& alarm.statistic is None ==> !m.contains_key("Statistic"@)
            &&& alarm.statistic is Some ==> m.contains_key("Statistic"@) && m["Statistic"@] == JsonView::Str(alarm.statistic->0@)
            &&& alarm.state_value is None ==> !m.contains_key("Status"@)
            &&& alarm.state_value is Some ==> m.contains_key("Status"@) && m["Status"@] == JsonView::Str(alarm.state_value->0@)
        }),
{
    lemma_alarm_json_fields_0(alarm);
    lemma_alarm_json_fields_1(alarm);
    lemma_alarm_json_fields_2(alarm);
    lemma_alarm_json_fields_3(alarm);
    lemma_alarm_json_fields_4(alarm);
    lemma_alarm_json_fields_5(alarm);
}


// ----- each reported field under its own key -----

/// What tells the keys of `dashboard_json` apart: their lengths, and a letter where two have the same length.
proof fn lemma_dashboard_json_keys_differ()
    ensures
        "Available"@.len() == 9,
        "DashboardArn"@.len() == 12 && "DashboardArn"@[0] == 'D',
        "DashboardName"@.len() == 13,
        "LastModified"@.len() == 12 && "LastModified"@[0] == 'L',
        "Name"@.len() == 4 && "Name"@[0] == 'N',
        "Size"@.len() == 4 && "Size"@[0] == 'S',
        "Status"@.len() == 6,
{
    reveal_strlit("Available");
    reveal_strlit("DashboardArn");
    reveal_strlit("DashboardName");
    reveal_strlit("LastModified");
    reveal_strlit("Name");
    reveal_strlit("Size");
    reveal_strlit("Status");
}

#[verifier::spinoff_prover]
#[verifier::rlimit(30)]
proof fn lemma_dashboard_json_fields_0(dashboard: DashboardEntry)
    ensures
        dashboard_json(dashboard) is Object,
        ({
            let m = dashboard_json(dashboard)->Object_0;
            &&& dashboard.dashboard_arn is None ==> !m.contains_key("DashboardArn"@)
            &&& dashboard.dashboard_arn is Some ==> m.contains_key("DashboardArn"@) && m["DashboardArn"@] == JsonView::Str(dashboard.dashboard_arn->0@)
            &&& dashboard.dashboard_name is None ==> !m.contains_key("DashboardName"@)
            &&& dashboard.dashboard_name is Some ==> m.contains_key("DashboardName"@) && m["DashboardName"@] == JsonView::Str(dashboard.dashboard_name->0@)
            &&& dashboard.last_modified is None ==> !m.contains_key("LastModified"@)
            &&& dashboard.last_modified is Some ==> m.contains_key("LastModified"@) && m["LastModified"@] == ts_json(dashboard.last_modified->0)
        }),
{
    lemma_dashboard_json_keys_differ();
}

#[verifier::spinoff_prover]
#[verifier::rlimit(30)]
proof fn lemma_dashboard_json_fields_1(dashboard: DashboardEntry)
    ensures
        dashboard_json(dashboard) is Object,
        ({
            let m = dashboard_json(dashboard)->Object_0;
            &&& dashboard.dashboard_name is None ==> !m.contains_key("Name"@)
            &&& dashboard.dashboard_name is Some ==> m.contains_key("Name"@) && m["Name"@] == JsonView::Str(dashboard.dashboard_name->0@)
            &&& dashboard.size is None ==> !m.contains_key("Size"@)
            &&& dashboard.size is Some ==> m.contains_key("Size"@) && m["Size"@] == JsonView::Number(dashboard.size->0 as int)
        }),
{
    lemma_dashboard_json_keys_differ();
}

/// The object of a dashboard entry holds each reported field of it under its own key, and such a key is missing exactly when AWS did not report the field.
pub proof fn law_dashboard_fields(dashboard: DashboardEntry)
    ensures
        dashboard_json(dashboard) is Object,
        ({
            let m = dashboard_json(dashboard)->Object_0;
            &&& dashboard.dashboard_arn is None ==> !m.contains_key("DashboardArn"@)
            &&& dashboard.dashboard_arn is Some ==> m.contains_key("DashboardArn"@) && m["DashboardArn"@] == JsonView::Str(dashboard.dashboard_arn->0@)
            &&& dashboard.dashboard_name is None ==> !m.contains_key("DashboardName"@)
            &&& dashboard.dashboard_name is Some ==> m.contains_key("DashboardName"@) && m["DashboardName"@] == JsonView::Str(dashboard.dashboard_name->0@)
            &&& dashboard.last_modified is None ==> !m.contains_key("LastModified"@)
            &&& dashboard.last_modified is Some ==> m.contains_key("LastModified"@) && m["LastModified"@] == ts_json(dashboard.last_modified->0)
            &&& dashboard.dashboard_name is None ==> !m.contains_key("Name"@)
            &&& dashboard.dashboard_name is Some ==> m.contains_key("Name"@) && m["Name"@] == JsonView::Str(dashboard.dashboard_name->0@)
            &&& dashboard.size is None ==> !m.contains_key("Size"@)
            &&& dashboard.size is Some ==> m.contains_key("Size"@) && m["Size"@] == JsonView::Number(dashboard.size->0 as int)
        }),
{
    lemma_dashboard_json_fields_0(dashboard);
    lemma_dashboard_json_fields_1(dashboard);
}

/// What tells the keys of `dashboard_details_json` apart: their lengths, and a letter where two have the same length.
proof fn lemma_dashboard_details_json_keys_differ()
    ensures
        "DashboardArn"@.len() == 12,
        "DashboardBody"@.len() == 13 && "DashboardBody"@[9] == 'B',
        "DashboardName"@.len() == 13 && "DashboardName"@[9] == 'N',
{
    reveal_strlit("DashboardArn");
    reveal_strlit("DashboardBody");
    reveal_strlit("DashboardName");
}

#[verifier::spinoff_prover]
#[verifier::rlimit(30)]
proof fn lemma_dashboard_details_json_fields_0(response: GetDashboardOutput)
    ensures
        dashboard_details_json(response) is Object,
        ({
            let m = dashboard_details_json(response)->Object_0;
            &&& response.dashboard_arn is None ==> !m.contains_key("DashboardArn"@)
            &&& response.dashboard_arn is Some ==> m.contains_key("DashboardArn"@) && m["DashboardArn"@] == JsonView::Str(response.dashboard_arn->0@)
            &&& response.dashboard_body is None ==> !m.contains_key("DashboardBody"@)
            &&& response.dashboard_body is Some ==> m.contains_key("DashboardBody"@) && m["DashboardBody"@] == JsonView::Str(response.dashboard_body->0@)
            &&& response.dashboard_name is None ==> !m.contains_key("DashboardName"@)
            &&& response.dashboard_name is Some ==> m.contains_key("DashboardName"@) && m["DashboardName"@] == JsonView::Str(response.dashboard_name->0@)
        }),
{
    lemma_dashboard_details_json_keys_differ();
}

/// The object of a get dashboard output holds each reported field of it under its own key, and such a key is missing exactly when AWS did not report the field.
pub proof fn law_dashboard_details_fields(response: GetDashboardOutput)
    ensures
        dashboard_details_json(response) is Object,
        ({
            let m = dashboard_details_json(response)->Object_0;
            &&& response.dashboard_arn is None ==> !m.contains_key("DashboardArn"@)
            &&& response.dashboard_arn is Some ==> m.contains_key("DashboardArn"@) && m["DashboardArn"@] == JsonView::Str(response.dashboard_arn->0@)
            &&& response.dashboard_body is None ==> !m.contains_key("DashboardBody"@)
            &&& response.dashboard_body is Some ==> m.contains_key("DashboardBody"@) && m["DashboardBody"@] == JsonView::Str(response.dashboard_body->0@)
            &&& response.dashboard_name is None ==> !m.contains_key("DashboardName"@)
            &&& response.dashboard_name is Some ==> m.contains_key("DashboardName"@) && m["DashboardName"@] == JsonView::Str(response.dashboard_name->0@)
        }),
{
    lemma_dashboard_details_json_fields_0(response);
}

/// What tells the keys of `composite_alarm_json` apart: their lengths, and a letter where two have the same length.
proof fn lemma_composite_alarm_json_keys_differ()
    ensures
        "AlarmArn"@.len() == 8,
        "AlarmName"@.len() == 9 && "AlarmName"@[5] == 'N',
        "AlarmRule"@.len() == 9 && "AlarmRule"@[5] == 'R',
        "Name"@.len() == 4,
        "StateReason"@.len() == 11,
        "StateUpdatedTimestamp"@.len() == 21,
        "StateValue"@.len() == 10,
        "Status"@.len() == 6,
{
    reveal_strlit("AlarmArn");
    reveal_strlit("AlarmName");
    reveal_strlit("AlarmRule");
    reveal_strlit("Name");
    reveal_strlit("StateReason");
    reveal_strlit("StateUpdatedTimestamp");
    reveal_strlit("StateValue");
    reveal_strlit("Status");
}

#[verifier::spinoff_prover]
#[verifier::rlimit(30)]
proof fn lemma_composite_alarm_json_fields_0(alarm: CompositeAlarm)
    ensures
        composite_alarm_json(alarm) is Object,
        ({
            let m = composite_alarm_json(alarm)->Object_0;
            &&& alarm.alarm_arn is None ==> !m.contains_key("AlarmArn"@)
            &&& alarm.alarm_arn is Some ==> m.contains_key("AlarmArn"@) && m["AlarmArn"@] == JsonView::Str(alarm.alarm_arn->0@)
            &&& alarm.alarm_name is None ==> !m.contains_key("AlarmName"@)
            &&& alarm.alarm_name is Some ==> m.contains_key("AlarmName"@) && m["AlarmName"@] == JsonView::Str(alarm.alarm_name->0@)
            &&& alarm.alarm_rule is None ==> !m.contains_key("AlarmRule"@)
            &&& alarm.alarm_rule is Some ==> m.contains_key("AlarmRule"@) && m["AlarmRule"@] == JsonView::Str(alarm.alarm_rule->0@)
        }),
{
    lemma_composite_alarm_json_keys_differ();
}

#[verifier::spinoff_prover]
#[verifier::rlimit(30)]
proof fn lemma_composite_alarm_json_fields_1(alarm: CompositeAlarm)
    ensures
        composite_alarm_json(alarm) is Object,
        ({
            let m = composite_alarm_json(alarm)->Object_0;
            &&& alarm.alarm_name is None ==> !m.contains_key("Name"@)
            &&& alarm.alarm_name is Some ==> m.contains_key("Name"@) && m["Name"@] == JsonView::Str(alarm.alarm_name->0@)
            &&& alarm.state_reason is None ==> !m.contains_key("StateReason"@)
            &&& alarm.state_reason is Some ==> m.contains_key("StateReason"@) && m["StateReason"@] == JsonView::Str(alarm.state_reason->0@)
            &&& alarm.state_updated_timestamp is None ==> !m.contains_key("StateUpdatedTimestamp"@)
            &&& alarm.state_updated_timestamp is Some ==> m.contains_key("StateUpdatedTimestamp"@) && m["StateUpdatedTimestamp"@] == ts_json(alarm.state_updated_timestamp->0)
        }),
{
    lemma_composite_alarm_json_keys_differ();
}

#[verifier::spinoff_prover]
#[verifier::rlimit(30)]
proof fn lemma_composite_alarm_json_fields_2(alarm: CompositeAlarm)
    ensures
        composite_alarm_json(alarm) is Object,
        ({
            let m = composite_alarm_json(alarm)->Object_0;
            &&& alarm.state_value is None ==> !m.contains_key("StateValue"@)
            &&& alarm.state_value is Some ==> m.contains_key("StateValue"@) && m["StateValue"@] == JsonView::Str(alarm.state_value->0@)
            &&& alarm.state_value is None ==> !m.contains_key("Status"@)
            &&& alarm.state_value is Some ==> m.contains_key("Status"@) && m["Status"@] == JsonView::Str(alarm.state_value->0@)
        }),
{
    lemma_composite_alarm_json_keys_differ();
}

/// The object of a composite alarm holds each reported field of it under its own key, and such a key is missing exactly when AWS did not report the field.
pub proof fn law_composite_alarm_fields(alarm: CompositeAlarm)
    ensures
        composite_alarm_json(alarm) is Object,
        ({
            let m = composite_alarm_json(alarm)->Object_0;
            &&& alarm.alarm_arn is None ==> !m.contains_key("AlarmArn"@)
            &&& alarm.alarm_arn is Some ==> m.contains_key("AlarmArn"@) && m["AlarmArn"@] == JsonView::Str(alarm.alarm_arn->0@)
            &&& alarm.alarm_name is None ==> !m.contains_key("AlarmName"@)
            &&& alarm.alarm_name is Some ==> m.contains_key("AlarmName"@) && m["AlarmName"@] == JsonView::Str(alarm.alarm_name->0@)
            &&& alarm.alarm_rule is None ==> !m.contains_key("AlarmRule"@)
            &&& alarm.alarm_rule is Some ==> m.contains_key("AlarmRule"@) && m["AlarmRule"@] == JsonView::Str(alarm.alarm_rule->0@)
            &&& alarm.alarm_name is None ==> !m.contains_key("Name"@)
            &&& alarm.alarm_name is Some ==> m.contains_key("Name"@) && m["Name"@] == JsonView::Str(alarm.alarm_name->0@)
            &&& alarm.state_reason is None ==> !m.contains_key("StateReason"@)
            &&& alarm.state_reason is Some ==> m.contains_key("StateReason"@) && m["StateReason"@] == JsonView::Str(alarm.state_reason->0@)
            &&& alarm.state_updated_timestamp is None ==> !m.contains_key("StateUpdatedTimestamp"@)
            &&& alarm.state_updated_timestamp is Some ==> m.contains_key("StateUpdatedTimestamp"@) && m["StateUpdatedTimestamp"@] == ts_json(alarm.state_updated_timestamp->0)
            &&& alarm.state_value is None ==> !m.contains_key("StateValue"@)
            &&& alarm.state_value is Some ==> m.contains_key("StateValue"@) && m["StateValue"@] == JsonView::Str(alarm.state_value->0@)
            &&& alarm.state_value is None ==> !m.contains_key("Status"@)
            &&& alarm.state_value is Some ==> m.contains_key("Status"@) && m["Status"@] == JsonView::Str(alarm.state_value->0@)
        }),
{
    lemma_composite_alarm_json_fields_0(alarm);
    lemma_composite_alarm_json_fields_1(alarm);
    lemma_composite_alarm_json_fields_2(alarm);
}

/// What tells the keys of `insight_rule_json` apart: their lengths, and a letter where two have the same length.
proof fn lemma_insight_rule_json_keys_differ()
    ensures
        "Definition"@.len() == 10,
        "ManagedRule"@.len() == 11,
        "Name"@.len() == 4,
        "RuleName"@.len() == 8,
        "Schema"@.len() == 6 && "Schema"@[1] == 'c',
        "State"@.len() == 5,
        "Status"@.len() == 6 && "Status"@[1] == 't',
{
    reveal_strlit("Definition");
    reveal_strlit("ManagedRule");
    reveal_strlit("Name");
    reveal_strlit("RuleName");
    reveal_strlit("Schema");
    reveal_strlit("State");
    reveal_strlit("Status");
}

#[verifier::spinoff_prover]
#[verifier::rlimit(30)]
proof fn lemma_insight_rule_json_fields_0(rule: InsightRule)
    ensures
        insight_rule_json(rule) is Object,
        ({
            let m = insight_rule_json(rule)->Object_0;
            &&& rule.definition is None ==> !m.contains_key("Definition"@)
            &&& rule.definition is Some ==> m.contains_key("Definition"@) && m["Definition"@] == JsonView::Str(rule.definition->0@)
            &&& rule.managed_rule is None ==> !m.contains_key("ManagedRule"@)
            &&& rule.managed_rule is Some ==> m.contains_key("ManagedRule"@) && m["ManagedRule"@] == JsonView::Bool(rule.managed_rule->0)
            &&& rule.name is None ==> !m.contains_key("Name"@)
            &&& rule.name is Some ==> m.contains_key("Name"@) && m["Name"@] == JsonView::Str(rule.name->0@)
        }),
{
    lemma_insight_rule_json_keys_differ();
}

#[verifier::spinoff_prover]
#[verifier::rlimit(30)]
proof fn lemma_insight_rule_json_fields_1(rule: InsightRule)
    ensures
        insight_rule_json(rule) is Object,
        ({
            let m = insight_rule_json(rule)->Object_0;
            &&& rule.name is None ==> !m.contains_key("RuleName"@)
            &&& rule.name is Some ==> m.contains_key("RuleName"@) && m["RuleName"@] == JsonView::Str(rule.name->0@)
            &&& rule.schema is None ==> !m.contains_key("Schema"@)
            &&& rule.schema is Some ==> m.contains_key("Schema"@) && m["Schema"@] == JsonView::Str(rule.schema->0@)
            &&& rule.state is None ==> !m.contains_key("State"@)
            &&& rule.state is Some ==> m.contains_key("State"@) && m["State"@] == JsonView::Str(rule.state->0@)
        }),
{
    lemma_insight_rule_json_keys_differ();
}

#[verifier::spinoff_prover]
#[verifier::rlimit(30)]
proof fn lemma_insight_rule_json_fields_2(rule: InsightRule)
    ensures
        insight_rule_json(rule) is Object,
        ({
            let m = insight_rule_json(rule)->Object_0;
            &&& rule.state is None ==> !m.contains_key("Status"@)
            &&& rule.state is Some ==> m.contains_key("Status"@) && m["Status"@] == JsonView::Str(rule.state->0@)
        }),
{
    lemma_insight_rule_json_keys_differ();
}

/// The object of a insight rule holds each reported field of it under its own key, and such a key is missing exactly when AWS did not report the field.
pub proof fn law_insight_rule_fields(rule: InsightRule)
    ensures
        insight_rule_json(rule) is Object,
        ({
            let m = insight_rule_json(rule)->Object_0;
            &&& rule.definition is None ==> !m.contains_key("Definition"@)
            &&& rule.definition is Some ==> m.contains_key("Definition"@) && m["Definition"@] == JsonView::Str(rule.definition->0@)
            &&& rule.managed_rule is None ==> !m.contains_key("ManagedRule"@)
            &&& rule.managed_rule is Some ==> m.contains_key("ManagedRule"@) && m["ManagedRule"@] == JsonView::Bool(rule.managed_rule->0)
            &&& rule.name is None ==> !m.contains_key("Name"@)
            &&& rule.name is Some ==> m.contains_key("Name"@) && m["Name"@] == JsonView::Str(rule.name->0@)
            &&& rule.name is None ==> !m.contains_key("RuleName"@)
            &&& rule.name is Some ==> m.contains_key("RuleName"@) && m["RuleName"@] == JsonView::Str(rule.name->0@)
            &&& rule.schema is None ==> !m.contains_key("Schema"@)
            &&& rule.schema is Some ==> m.contains_key("Schema"@) && m["Schema"@] == JsonView::Str(rule.schema->0@)
            &&& rule.state is None ==> !m.contains_key("State"@)
            &&& rule.state is Some ==> m.contains_key("State"@) && m["State"@] == JsonView::Str(rule.state->0@)
            &&& rule.state is None ==> !m.contains_key("Status"@)
            &&& rule.state is Some ==> m.contains_key("Status"@) && m["Status"@] == JsonView::Str(rule.state->0@)
        }),
{
    lemma_insight_rule_json_fields_0(rule);
    lemma_insight_rule_json_fields_1(rule);
    lemma_insight_rule_json_fields_2(rule);
}

/// What tells the keys of `dimension_json` apart: their lengths, and a letter where two have the same length.
proof fn lemma_dimension_json_keys_differ()
    ensures
        "Name"@.len() == 4,
        "Value"@.len() == 5,
{
    reveal_strlit("Name");
    reveal_strlit("Value");
}

#[verifier::spinoff_prover]
#[verifier::rlimit(30)]
proof fn lemma_dimension_json_fields_0(x: Dimension)
    ensures
        dimension_json(x) is Object,
        ({
            let m = dimension_json(x)->Object_0;
            &&& x.name is None ==> !m.contains_key("Name"@)
            &&& x.name is Some ==> m.contains_key("Name"@) && m["Name"@] == JsonView::Str(x.name->0@)
            &&& x.value is None ==> !m.contains_key("Value"@)
            &&& x.value is Some ==> m.contains_key("Value"@) && m["Value"@] == JsonView::Str(x.value->0@)
        }),
{
    lemma_dimension_json_keys_differ();
}

/// The object of a dimension holds each reported field of it under its own key, and such a key is missing exactly when AWS did not report the field.
pub proof fn law_dimension_fields(x: Dimension)
    ensures
        dimension_json(x) is Object,
        ({
            let m = dimension_json(x)->Object_0;
            &&& x.name is None ==> !m.contains_key("Name"@)
            &&& x.name is Some ==> m.contains_key("Name"@) && m["Name"@] == JsonView::Str(x.name->0@)
            &&& x.value is None ==> !m.contains_key("Value"@)
            &&& x.value is Some ==> m.contains_key("Value"@) && m["Value"@] == JsonView::Str(x.value->0@)
        }),
{
    lemma_dimension_json_fields_0(x);
}

/// What tells the keys of `anomaly_detector_json` apart: their lengths, and a letter where two have the same length.
proof fn lemma_anomaly_detector_json_keys_differ()
    ensures
        "DetectorId"@.len() == 10 && "DetectorId"@[1] == 'e' && "DetectorId"@[0] == 'D',
        "DetectorType"@.len() == 12,
        "Dimensions"@.len() == 10 && "Dimensions"@[1] == 'i' && "Dimensions"@[0] == 'D',
        "MetricDataQueryCount"@.len() == 20,
        "MetricName"@.len() == 10 && "MetricName"@[0] == 'M',
        "Name"@.len() == 4 && "Name"@[0] == 'N',
        "Namespace"@.len() == 9,
        "Stat"@.len() == 4 && "Stat"@[0] == 'S',
        "StateValue"@.len() == 10 && "StateValue"@[0] == 'S',
        "Status"@.len() == 6,
{
    reveal_strlit("DetectorId");
    reveal_strlit("DetectorType");
    reveal_strlit("Dimensions");
    reveal_strlit("MetricDataQueryCount");
    reveal_strlit("MetricName");
    reveal_strlit("Name");
    reveal_strlit("Namespace");
    reveal_strlit("Stat");
    reveal_strlit("StateValue");
    reveal_strlit("Status");
}

#[verifier::spinoff_prover]
#[verifier::rlimit(30)]
proof fn lemma_anomaly_detector_json_fields_0(d: AnomalyDetector)
    ensures
        anomaly_detector_json(d) is Object,
        ({
            let m = anomaly_detector_json(d)->Object_0;
            &&& d.state_value is None ==> !m.contains_key("StateValue"@)
            &&& d.state_value is Some ==> m.contains_key("StateValue"@) && m["StateValue"@] == JsonView::Str(d.state_value->0@)
            &&& d.state_value is None ==> !m.contains_key("Status"@)
            &&& d.state_value is Some ==> m.contains_key("Status"@) && m["Status"@] == JsonView::Str(d.state_value->0@)
        }),
{
    lemma_anomaly_detector_json_keys_differ();
}

/// The object of a anomaly detector holds each reported field of it under its own key, and such a key is missing exactly when AWS did not report the field.
pub proof fn law_anomaly_detector_fields(d: AnomalyDetector)
    ensures
        anomaly_detector_json(d) is Object,
        ({
            let m = anomaly_detector_json(d)->Object_0;
            &&& d.state_value is None ==> !m.contains_key("StateValue"@)
            &&& d.state_value is Some ==> m.contains_key("StateValue"@) && m["StateValue"@] == JsonView::Str(d.state_value->0@)
            &&& d.state_value is None ==> !m.contains_key("Status"@)
            &&& d.state_value is Some ==> m.contains_key("Status"@) && m["Status"@] == JsonView::Str(d.state_value->0@)
        }),
{
    lemma_anomaly_detector_json_fields_0(d);
}

} // verus!
