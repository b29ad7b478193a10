//! The metrics of the registered tunnels, for Prometheus to read.

use crate::error::{ErrorKind, Failure, PunchError};
use crate::number::{decimal, show};
use crate::text::{concat2, concat3, outcome};
use crate::types::{LocalProtocol, RecordView, TunnelRecord, TunnelStatus};
use prometheus::{IntGauge, IntGaugeVec, Opts, Registry, TextEncoder};
use vstd::prelude::*;
use vstd::string::*;
use vstd::utf8::*;

verus! {

/// The values of the labels of a sample.
pub type Labels = Seq<Seq<char>>;

/// A family of samples as it is read: what it is about, the names of its labels, and its samples.
pub type Family = (Seq<char>, Seq<Seq<char>>, Set<(Labels, int)>);

/// `prometheus::Registry`.
#[verifier::external_type_specification]
#[verifier::external_body]
pub struct ExRegistry(Registry);

/// `prometheus::Error`.
#[verifier::external_type_specification]
#[verifier::external_body]
pub struct ExPrometheusError(prometheus::Error);

/// A `prometheus::IntGaugeVec` with two labels. The type of the builder in it is private to that
/// crate, so the whole is opaque.
#[verifier::external_body]
pub struct GaugeFamily {
    family: IntGaugeVec,
}

/// The families that a registry holds, by their names.
pub uninterp spec fn registered(registry: Registry) -> Map<Seq<char>, Family>;

/// The name of a family, what it is about, and the names of its labels.
pub uninterp spec fn family_head(family: GaugeFamily) -> (Seq<char>, Seq<char>, Seq<Seq<char>>);

/// The samples of a family, by the keys under which they are kept.
pub uninterp spec fn family_samples(family: GaugeFamily) -> Map<u64, (Labels, int)>;

/// One step of the hash of Fowler, Noll and Vo in its second form: the byte is mixed in, and the
/// product with the prime is cut to 64 bits.
pub open spec fn hash_step(hash: u64, byte: u8) -> u64 {
    ((hash ^ (byte as u64)) * 0x100_0000_01b3u64) as u64
}

/// The hash of the first `count` of `bytes`.
pub open spec fn hash_of(bytes: Seq<u8>, count: nat) -> u64
    decreases count,
{
    if count == 0 {
        0xcbf2_9ce4_8422_2325
    } else {
        hash_step(hash_of(bytes, (count - 1) as nat), bytes[count - 1])
    }
}

/// The key under which a family keeps the sample with the given values of its two labels: the
/// hash of the two texts in a row.
pub open spec fn label_key(values: Labels) -> u64 {
    let bytes = encode_utf8(values[0]) + encode_utf8(values[1]);
    hash_of(bytes, bytes.len())
}

/// The number by which a registry knows a metric without constant labels, from its name: the
/// `id` of its `prometheus::core::Desc`, which is the hash of the name and a separator.
pub open spec fn descriptor_id(name: Seq<char>) -> u64 {
    let bytes = encode_utf8(name).push(0xff);
    hash_of(bytes, bytes.len())
}

/// The families `families` in the text format of Prometheus.
pub uninterp spec fn exposition(families: Map<Seq<char>, Family>) -> Seq<char>;

/// No family.
pub open spec fn no_families() -> Map<Seq<char>, Family> {
    Map::empty()
}

/// No sample.
pub open spec fn no_samples() -> Map<u64, (Labels, int)> {
    Map::empty()
}

/// `c` may stand in the name of a label, in the first place.
pub open spec fn starts_label(c: char) -> bool {
    'a' <= c <= 'z' || 'A' <= c <= 'Z' || c == '_'
}

/// `name` can be the name of a metric: letters, digits, underscores and colons, the first one no
/// digit.
pub open spec fn valid_metric_name(name: Seq<char>) -> bool {
    &&& name.len() > 0
    &&& starts_label(name[0]) || name[0] == ':'
    &&& forall|i: int|
        0 <= i < name.len() ==> starts_label(#[trigger] name[i]) || name[i] == ':' || '0' <= name[i]
            <= '9'
}

/// `name` can be the name of a label: letters, digits and underscores, the first one no digit.
pub open spec fn valid_label_name(name: Seq<char>) -> bool {
    &&& name.len() > 0
    &&& starts_label(name[0])
    &&& forall|i: int|
        0 <= i < name.len() ==> starts_label(#[trigger] name[i]) || '0' <= name[i] <= '9'
}

/// `prometheus::Registry::new`: a registry that holds nothing.
pub assume_specification[ Registry::new ]() -> (registry: Registry)
    ensures
        registered(registry) == no_families(),
;

/// `prometheus::IntGauge::new`, `set` on it, and `prometheus::Registry::register` with it: the
/// gauge is added with its value, where the name is that of a metric, something is said about it,
/// and no metric with the same number is registered.
#[verifier::external_body]
fn add_gauge(registry: &mut Registry, name: &str, about: &str, value: i64) -> (done: Result<
    (),
    prometheus::Error,
>)
    ensures
        done is Ok == (valid_metric_name(name@) && about@.len() != 0 && forall|other: Seq<char>|
            #[trigger]
            registered(*old(registry)).contains_key(other) ==> descriptor_id(other)
                != descriptor_id(name@)),
        registered(*final(registry)) == (if done is Ok {
            registered(*old(registry)).insert(name@, lone_sample(about@, value as int))
        } else {
            registered(*old(registry))
        }),
{
    let gauge = IntGauge::new(name, about)?;
    gauge.set(value);
    registry.register(Box::new(gauge))
}

/// `prometheus::IntGaugeVec::new` with two labels: a family without samples, where the names are
/// those of a metric and of two different labels, and something is said about it.
#[verifier::external_body]
fn new_family(name: &str, about: &str, first: &str, second: &str) -> (family: Result<
    GaugeFamily,
    prometheus::Error,
>)
    ensures
        family is Ok == (valid_metric_name(name@) && about@.len() != 0 && valid_label_name(first@)
            && valid_label_name(second@) && first@ != second@),
        family is Ok ==> family_head(family->Ok_0) == (name@, about@, seq![first@, second@]),
        family is Ok ==> family_samples(family->Ok_0) == no_samples(),
{
    match IntGaugeVec::new(Opts::new(name, about), &[first, second]) {
        Ok(family) => Ok(GaugeFamily { family }),
        Err(error) => Err(error),
    }
}

/// `prometheus::IntGaugeVec::with_label_values` with two values, and `set` on the gauge that it
/// gives: the sample under the key of the values gets the value. A sample that is there already
/// keeps its labels. As many values are given as the family has labels, so nothing can fail.
#[verifier::external_body]
fn set_sample(family: &mut GaugeFamily, first: &str, second: &str, value: i64)
    ensures
        family_head(*final(family)) == family_head(*old(family)),
        family_samples(*final(family)) == family_samples(*old(family)).insert(
            label_key(seq![first@, second@]),
            (
                if family_samples(*old(family)).contains_key(label_key(seq![first@, second@])) {
                    family_samples(*old(family))[label_key(seq![first@, second@])].0
                } else {
                    seq![first@, second@]
                },
                value as int,
            ),
        ),
{
    family.family.with_label_values(&[first, second]).set(value)
}

/// `prometheus::Registry::register` with a family: it is added, unless a metric with the same
/// number is registered.
#[verifier::external_body]
fn register_family(registry: &mut Registry, family: GaugeFamily) -> (done: Result<
    (),
    prometheus::Error,
>)
    ensures
        done is Ok <==> forall|other: Seq<char>| #[trigger]
            registered(*old(registry)).contains_key(other) ==> descriptor_id(other)
                != descriptor_id(family_head(family).0),
        registered(*final(registry)) == (if done is Ok {
            registered(*old(registry)).insert(family_head(family).0, family_of(family))
        } else {
            registered(*old(registry))
        }),
{
    registry.register(Box::new(family.family))
}

/// `prometheus::Registry::gather` and `prometheus::TextEncoder::encode_to_string`: the families
/// of the registry as a text. Families and samples are sorted, so the text is a function of what
/// is registered. It is written to memory, where nothing can fail.
#[verifier::external_body]
fn expose(registry: &Registry) -> (text: Result<String, prometheus::Error>)
    ensures
        text is Ok,
        text->Ok_0@ == exposition(registered(*registry)),
{
    TextEncoder::new().encode_to_string(&registry.gather())
}

/// What a `prometheus::Error` says. The contract says nothing of the text.
#[verifier::external_body]
fn error_message(error: &prometheus::Error) -> (message: String) {
    error.to_string()
}

/// The samples `samples` after the one with the labels `labels` was set to `value`.
pub open spec fn with_sample(
    samples: Map<u64, (Labels, int)>,
    labels: Labels,
    value: int,
) -> Map<u64, (Labels, int)> {
    let key = label_key(labels);
    samples.insert(
        key,
        (
            if samples.contains_key(key) {
                samples[key].0
            } else {
                labels
            },
            value,
        ),
    )
}

/// A gauge as a family of one sample without labels.
pub open spec fn lone_sample(about: Seq<char>, value: int) -> Family {
    (about, Seq::empty(), set![(Seq::empty(), value)])
}

/// The samples `samples` as they are read.
pub open spec fn sample_set(samples: Map<u64, (Labels, int)>) -> Set<(Labels, int)> {
    samples.values()
}

/// A family as it is read.
pub open spec fn family_of(family: GaugeFamily) -> Family {
    let (_, about, labels) = family_head(family);
    (about, labels, sample_set(family_samples(family)))
}

/// The error of Prometheus as one of the library.
fn from_prometheus(error: prometheus::Error) -> (mapped: PunchError)
    ensures
        mapped@.kind is Outside,
        mapped@.causes.len() == 0,
{
    PunchError::new(ErrorKind::Outside(error_message(&error)))
}

/// The labels of the samples of a tunnel: its domain, and what the local service speaks.
pub open spec fn labels_of(record: RecordView) -> Labels {
    seq![record.domain, record.local_protocol.name()]
}

/// 1 for a tunnel that runs, 0 for another.
pub open spec fn up_value(record: RecordView) -> int {
    if record.status == TunnelStatus::Running {
        1
    } else {
        0
    }
}

/// How many of `records` run.
pub open spec fn running_count(records: Seq<RecordView>) -> int
    decreases records.len(),
{
    if records.len() == 0 {
        0
    } else {
        running_count(records.drop_last()) + up_value(records.last())
    }
}

/// For each tunnel whether it runs.
pub open spec fn up_samples(records: Seq<RecordView>) -> Map<u64, (Labels, int)>
    decreases records.len(),
{
    if records.len() == 0 {
        no_samples()
    } else {
        with_sample(
            up_samples(records.drop_last()),
            labels_of(records.last()),
            up_value(records.last()),
        )
    }
}

/// For each tunnel its local port.
pub open spec fn port_samples(records: Seq<RecordView>) -> Map<u64, (Labels, int)>
    decreases records.len(),
{
    if records.len() == 0 {
        no_samples()
    } else {
        with_sample(
            port_samples(records.drop_last()),
            labels_of(records.last()),
            records.last().local_port as int,
        )
    }
}

/// The names of the metrics, in the order in which they are registered.
pub open spec fn metric_names() -> Seq<Seq<char>> {
    seq![
        "punch_active_tunnels"@,
        "punch_total_tunnels"@,
        "punch_tunnel_up"@,
        "punch_tunnel_port"@,
    ]
}

/// The metrics of `records`: how many run, how many there are, and of each one whether it runs
/// and on which port.
pub open spec fn metrics_of(records: Seq<RecordView>) -> Map<Seq<char>, Family> {
    let labels = seq!["domain"@, "protocol"@];
    no_families().insert(
        "punch_active_tunnels"@,
        lone_sample("当前活跃隧道数量"@, (running_count(records) as i64) as int),
    ).insert(
        "punch_total_tunnels"@,
        lone_sample("记录中的隧道总数"@, (records.len() as i64) as int),
    ).insert("punch_tunnel_up"@, ("隧道是否存活"@, labels, sample_set(up_samples(records)))).insert(
        "punch_tunnel_port"@,
        ("本地端口"@, labels, sample_set(port_samples(records))),
    )
}

/// The metrics of `records` as a text.
pub fn render_metrics(records: &Vec<TunnelRecord>) -> (text: Result<String, PunchError>)
    ensures
        text matches Ok(t) && t@ == exposition(metrics_of(records.deep_view())),
{
    proof {
        lemma_names();
        metrics_are_told_apart();
    }
    let ghost all = records.deep_view();
    let mut up = match new_family("punch_tunnel_up", "隧道是否存活", "domain", "protocol") {
        Ok(family) => family,
        Err(error) => return Err(from_prometheus(error)),
    };
    let mut port = match new_family("punch_tunnel_port", "本地端口", "domain", "protocol") {
        Ok(family) => family,
        Err(error) => return Err(from_prometheus(error)),
    };
    let mut running: usize = 0;
    let mut i: usize = 0;
    proof {
        assert(all.take(0) =~= Seq::<RecordView>::empty());
    }
    while i < records.len()
        invariant
            all == records.deep_view(),
            i <= records@.len(),
            running <= i,
            running == running_count(all.take(i as int)),
            family_head(up) == ("punch_tunnel_up"@, "隧道是否存活"@, seq!["domain"@, "protocol"@]),
            family_head(port) == ("punch_tunnel_port"@, "本地端口"@, seq![
                "domain"@,
                "protocol"@,
            ]),
            family_samples(up) == up_samples(all.take(i as int)),
            family_samples(port) == port_samples(all.take(i as int)),
        decreases records@.len() - i,
    {
        let record = &records[i];
        let protocol = record.local_protocol.scheme();
        let is_up = record.status == TunnelStatus::Running;
        proof {
            assert(all.take(i + 1).drop_last() =~= all.take(i as int));
            assert(all.take(i + 1).last() == record@);
        }
        set_sample(&mut up, record.domain.as_str(), protocol, if is_up { 1 } else { 0 });
        set_sample(&mut port, record.domain.as_str(), protocol, record.local_port as i64);
        if is_up {
            running = running + 1;
        }
        i = i + 1;
    }
    proof {
        assert(all.take(i as int) =~= all);
    }
    let mut registry = Registry::new();
    if let Err(error) = add_gauge(
        &mut registry,
        "punch_active_tunnels",
        "当前活跃隧道数量",
        running as i64,
    ) {
        return Err(from_prometheus(error));
    }
    proof {
        assert(metric_names()[0] == "punch_active_tunnels"@);
        assert(metric_names()[1] == "punch_total_tunnels"@);
        assert(registered(registry).contains_key(metric_names()[0]));
    }
    if let Err(error) = add_gauge(
        &mut registry,
        "punch_total_tunnels",
        "记录中的隧道总数",
        records.len() as i64,
    ) {
        return Err(from_prometheus(error));
    }
    proof {
        assert(metric_names()[2] == "punch_tunnel_up"@);
        assert(registered(registry).contains_key(metric_names()[0]));
        assert(registered(registry).contains_key(metric_names()[1]));
    }
    if let Err(error) = register_family(&mut registry, up) {
        return Err(from_prometheus(error));
    }
    proof {
        assert(metric_names()[3] == "punch_tunnel_port"@);
        assert(registered(registry).contains_key(metric_names()[0]));
        assert(registered(registry).contains_key(metric_names()[1]));
        assert(registered(registry).contains_key(metric_names()[2]));
    }
    if let Err(error) = register_family(&mut registry, port) {
        return Err(from_prometheus(error));
    }
    match expose(&registry) {
        Ok(text) => Ok(text),
        Err(error) => Err(from_prometheus(error)),
    }
}

/// The hash of the bytes of an ASCII text and a separator, byte by byte.
proof fn lemma_descriptor(name: Seq<char>)
    requires
        is_ascii_chars(name),
    ensures
        descriptor_id(name) == hash_step(name_hash(name, name.len()), 0xff),
{
    let bytes = encode_utf8(name).push(0xff);
    is_ascii_chars_encode_utf8(name);
    lemma_name_hash(name, bytes, name.len());
}

/// The hash of the first `count` characters of an ASCII text.
spec fn name_hash(name: Seq<char>, count: nat) -> u64
    decreases count,
{
    if count == 0 {
        0xcbf2_9ce4_8422_2325
    } else {
        hash_step(name_hash(name, (count - 1) as nat), name[count - 1] as u8)
    }
}

/// The hash of characters is that of the bytes that they are.
proof fn lemma_name_hash(name: Seq<char>, bytes: Seq<u8>, count: nat)
    requires
        count <= name.len(),
        count <= bytes.len(),
        forall|i: int| 0 <= i < count ==> name[i] as u8 == #[trigger] bytes[i],
    ensures
        hash_of(bytes, count) == name_hash(name, count),
    decreases count,
{
    if count > 0 {
        lemma_name_hash(name, bytes, (count - 1) as nat);
        assert(bytes[count - 1] == name[count - 1] as u8);
    }
}

/// Four steps of the hash.
spec fn hash_four(hash: u64, a: u8, b: u8, c: u8, d: u8) -> u64 {
    hash_step(hash_step(hash_step(hash_step(hash, a), b), c), d)
}

/// The registry can tell the metrics apart: no two have the same number.
pub proof fn metrics_are_told_apart()
    ensures
        forall|i: int, j: int|
            0 <= i < j < metric_names().len() ==> descriptor_id(#[trigger] metric_names()[i])
                != descriptor_id(#[trigger] metric_names()[j]),
{
    lemma_active_tunnels_id();
    lemma_total_tunnels_id();
    lemma_tunnel_up_id();
    lemma_tunnel_port_id();
}

/// The number of the metric, worked out.
proof fn lemma_active_tunnels_id()
    ensures
        descriptor_id("punch_active_tunnels"@) == 0xc655_32bd_5d54_1d0fu64,
{
    reveal_strlit("punch_active_tunnels");
    lemma_descriptor("punch_active_tunnels"@);
    reveal_with_fuel(name_hash, 21);
    assert({
        let h: u64 = 0xcbf2_9ce4_8422_2325u64;
        // punc
        let h: u64 = hash_four(h, 0x70, 0x75, 0x6e, 0x63);
        // h_ac
        let h: u64 = hash_four(h, 0x68, 0x5f, 0x61, 0x63);
        // tive
        let h: u64 = hash_four(h, 0x74, 0x69, 0x76, 0x65);
        // _tun
        let h: u64 = hash_four(h, 0x5f, 0x74, 0x75, 0x6e);
        // nels
        let h: u64 = hash_four(h, 0x6e, 0x65, 0x6c, 0x73);
        // the separator
        let h: u64 = hash_step(h, 0xff);
        h == 0xc655_32bd_5d54_1d0fu64
    }) by (bit_vector);
}

/// The number of the metric, worked out.
proof fn lemma_total_tunnels_id()
    ensures
        descriptor_id("punch_total_tunnels"@) == 0x1b2f_a549_67cd_2fafu64,
{
    reveal_strlit("punch_total_tunnels");
    lemma_descriptor("punch_total_tunnels"@);
    reveal_with_fuel(name_hash, 20);
    assert({
        let h: u64 = 0xcbf2_9ce4_8422_2325u64;
        // punc
        let h: u64 = hash_four(h, 0x70, 0x75, 0x6e, 0x63);
        // h_to
        let h: u64 = hash_four(h, 0x68, 0x5f, 0x74, 0x6f);
        // tal_
        let h: u64 = hash_four(h, 0x74, 0x61, 0x6c, 0x5f);
        // tunn
        let h: u64 = hash_four(h, 0x74, 0x75, 0x6e, 0x6e);
        // els
        let h: u64 = hash_four(h, 0x65, 0x6c, 0x73, 0xff);
        h == 0x1b2f_a549_67cd_2fafu64
    }) by (bit_vector);
}

/// The number of the metric, worked out.
proof fn lemma_tunnel_up_id()
    ensures
        descriptor_id("punch_tunnel_up"@) == 0x448e_487d_71ca_3a5bu64,
{
    reveal_strlit("punch_tunnel_up");
    lemma_descriptor("punch_tunnel_up"@);
    reveal_with_fuel(name_hash, 16);
    assert({
        let h: u64 = 0xcbf2_9ce4_8422_2325u64;
        // punc
        let h: u64 = hash_four(h, 0x70, 0x75, 0x6e, 0x63);
        // h_tu
        let h: u64 = hash_four(h, 0x68, 0x5f, 0x74, 0x75);
        // nnel
        let h: u64 = hash_four(h, 0x6e, 0x6e, 0x65, 0x6c);
        // _up
        let h: u64 = hash_four(h, 0x5f, 0x75, 0x70, 0xff);
        h == 0x448e_487d_71ca_3a5bu64
    }) by (bit_vector);
}

/// The number of the metric, worked out.
proof fn lemma_tunnel_port_id()
    ensures
        descriptor_id("punch_tunnel_port"@) == 0x9998_4a93_2253_04a9u64,
{
    reveal_strlit("punch_tunnel_port");
    lemma_descriptor("punch_tunnel_port"@);
    reveal_with_fuel(name_hash, 18);
    assert({
        let h: u64 = 0xcbf2_9ce4_8422_2325u64;
        // punc
        let h: u64 = hash_four(h, 0x70, 0x75, 0x6e, 0x63);
        // h_tu
        let h: u64 = hash_four(h, 0x68, 0x5f, 0x74, 0x75);
        // nnel
        let h: u64 = hash_four(h, 0x6e, 0x6e, 0x65, 0x6c);
        // _por
        let h: u64 = hash_four(h, 0x5f, 0x70, 0x6f, 0x72);
        // t
        let h: u64 = hash_step(h, 0x74);
        // the separator
        let h: u64 = hash_step(h, 0xff);
        h == 0x9998_4a93_2253_04a9u64
    }) by (bit_vector);
}

/// The names of the metrics and of the labels are in order, and something is said about each
/// metric.
proof fn lemma_names()
    ensures
        valid_metric_name("punch_active_tunnels"@),
        valid_metric_name("punch_total_tunnels"@),
        valid_metric_name("punch_tunnel_up"@),
        valid_metric_name("punch_tunnel_port"@),
        valid_label_name("domain"@),
        valid_label_name("protocol"@),
        "domain"@ != "protocol"@,
        "当前活跃隧道数量"@.len() > 0,
        "记录中的隧道总数"@.len() > 0,
        "隧道是否存活"@.len() > 0,
        "本地端口"@.len() > 0,
{
    reveal_strlit("punch_active_tunnels");
    reveal_strlit("punch_total_tunnels");
    reveal_strlit("punch_tunnel_up");
    reveal_strlit("punch_tunnel_port");
    reveal_strlit("domain");
    reveal_strlit("protocol");
    reveal_strlit("当前活跃隧道数量");
    reveal_strlit("记录中的隧道总数");
    reveal_strlit("隧道是否存活");
    reveal_strlit("本地端口");
    assert("domain"@.len() == 6);
    assert("protocol"@.len() == 8);
}

/// What is answered to who reads the metrics: the status and the body.
pub open spec fn metrics_answer(text: Result<Seq<char>, Failure>) -> (u16, Seq<char>) {
    match text {
        Ok(body) => (200, body),
        Err(error) => (500, "render metrics failed: "@ + error.line()),
    }
}

/// What is answered to who reads the metrics: the status and the body.
pub fn metrics_handler(text: Result<String, PunchError>) -> (answer: (u16, String))
    ensures
        (answer.0, answer.1@) == metrics_answer(outcome(text)),
{
    match text {
        Ok(body) => (200, body),
        Err(error) => (500, concat2("render metrics failed: ", error.line().as_str())),
    }
}

/// What the user is told when the metrics are served.
pub fn serving_line(port: u16) -> (line: String)
    ensures
        line@ == "✓ Prometheus 指标已暴露: http://127.0.0.1:"@ + decimal(port as nat)
            + "/metrics"@,
{
    concat3(
        "✓ Prometheus 指标已暴露: http://127.0.0.1:",
        show(port as u64).as_str(),
        "/metrics",
    )
}

/// No more tunnels run than there are, and no fewer than none.
pub proof fn running_are_counted(records: Seq<RecordView>)
    ensures
        0 <= running_count(records) <= records.len(),
    decreases records.len(),
{
    if records.len() > 0 {
        running_are_counted(records.drop_last());
    }
}

/// A tunnel whose labels share a key with those of no other has its own sample: whether it runs,
/// and its port.
pub proof fn tunnel_has_its_sample(records: Seq<RecordView>, i: int)
    requires
        0 <= i < records.len(),
        forall|j: int|
            0 <= j < records.len() && j != i ==> label_key(labels_of(#[trigger] records[j]))
                != label_key(labels_of(records[i])),
    ensures
        sample_set(up_samples(records)).contains((labels_of(records[i]), up_value(records[i]))),
        sample_set(port_samples(records)).contains(
            (labels_of(records[i]), records[i].local_port as int),
        ),
    decreases records.len(),
{
    lemma_sample(records, i);
    let key = label_key(labels_of(records[i]));
    assert(up_samples(records)[key] == (labels_of(records[i]), up_value(records[i])));
}

/// The sample under the key of a tunnel that no other shares.
proof fn lemma_sample(records: Seq<RecordView>, i: int)
    requires
        0 <= i < records.len(),
        forall|j: int|
            0 <= j < records.len() && j != i ==> label_key(labels_of(#[trigger] records[j]))
                != label_key(labels_of(records[i])),
    ensures
        up_samples(records).contains_key(label_key(labels_of(records[i]))),
        up_samples(records)[label_key(labels_of(records[i]))] == (
            labels_of(records[i]),
            up_value(records[i]),
        ),
        port_samples(records).contains_key(label_key(labels_of(records[i]))),
        port_samples(records)[label_key(labels_of(records[i]))] == (
            labels_of(records[i]),
            records[i].local_port as int,
        ),
    decreases records.len(),
{
    let before = records.drop_last();
    let key = label_key(labels_of(records[i]));
    if i == records.len() - 1 {
        assert forall|j: int| 0 <= j < before.len() implies label_key(
            labels_of(#[trigger] before[j]),
        ) != key by {
            assert(before[j] == records[j]);
        }
        lemma_no_sample(before, key);
    } else {
        assert forall|j: int| 0 <= j < before.len() && j != i implies label_key(
            labels_of(#[trigger] before[j]),
        ) != label_key(labels_of(before[i])) by {
            assert(before[j] == records[j]);
        }
        lemma_sample(before, i);
        assert(records.last() == records[records.len() - 1]);
    }
}

/// No sample stands under a key that is that of no tunnel.
proof fn lemma_no_sample(records: Seq<RecordView>, key: u64)
    requires
        forall|j: int| 0 <= j < records.len() ==> label_key(labels_of(#[trigger] records[j])) != key,
    ensures
        !up_samples(records).contains_key(key),
        !port_samples(records).contains_key(key),
    decreases records.len(),
{
    if records.len() > 0 {
        let before = records.drop_last();
        assert forall|j: int| 0 <= j < before.len() implies label_key(
            labels_of(#[trigger] before[j]),
        ) != key by {
            assert(before[j] == records[j]);
        }
        assert(records.last() == records[records.len() - 1]);
        lemma_no_sample(before, key);
    }
}

/// Each tunnel that runs counts as one, and no other counts.
pub proof fn each_running_tunnel_counts_once(
    records: Seq<RecordView>,
    record: RecordView,
)
    ensures
        running_count(Seq::empty()) == 0,
        record.status == TunnelStatus::Running ==> running_count(records.push(record))
            == running_count(records) + 1,
        record.status != TunnelStatus::Running ==> running_count(records.push(record))
            == running_count(records),
{
    assert(records.push(record).drop_last() =~= records);
}

/// The metrics are four: how many tunnels run, how many there are, and of each tunnel, by its
/// domain and protocol, whether it runs and on which port.
pub proof fn metrics_hold_what_they_say(records: Seq<RecordView>)
    requires
        records.len() <= i64::MAX,
    ensures
        metrics_of(records).contains_key("punch_active_tunnels"@),
        metrics_of(records)["punch_active_tunnels"@] == (
            "当前活跃隧道数量"@,
            Seq::<Seq<char>>::empty(),
            set![(Seq::<Seq<char>>::empty(), running_count(records))],
        ),
        metrics_of(records).contains_key("punch_total_tunnels"@),
        metrics_of(records)["punch_total_tunnels"@] == (
            "记录中的隧道总数"@,
            Seq::<Seq<char>>::empty(),
            set![(Seq::<Seq<char>>::empty(), records.len() as int)],
        ),
        metrics_of(records).contains_key("punch_tunnel_up"@),
        metrics_of(records)["punch_tunnel_up"@].0 == "隧道是否存活"@,
        metrics_of(records)["punch_tunnel_up"@].1 == seq!["domain"@, "protocol"@],
        metrics_of(records)["punch_tunnel_up"@].2 == up_samples(records).values(),
        metrics_of(records).contains_key("punch_tunnel_port"@),
        metrics_of(records)["punch_tunnel_port"@].0 == "本地端口"@,
        metrics_of(records)["punch_tunnel_port"@].1 == seq!["domain"@, "protocol"@],
        metrics_of(records)["punch_tunnel_port"@].2 == port_samples(records).values(),
        metrics_of(records).dom() == set![
            "punch_active_tunnels"@,
            "punch_total_tunnels"@,
            "punch_tunnel_up"@,
            "punch_tunnel_port"@,
        ],
{
    running_are_counted(records);
    reveal_strlit("punch_active_tunnels");
    reveal_strlit("punch_total_tunnels");
    reveal_strlit("punch_tunnel_up");
    reveal_strlit("punch_tunnel_port");
    assert("punch_active_tunnels"@.len() == 20);
    assert("punch_total_tunnels"@.len() == 19);
    assert("punch_tunnel_up"@.len() == 15);
    assert("punch_tunnel_port"@.len() == 17);
    assert(metrics_of(records).dom() =~= set![
        "punch_active_tunnels"@,
        "punch_total_tunnels"@,
        "punch_tunnel_up"@,
        "punch_tunnel_port"@,
    ]);
}

/// A tunnel more sets the samples under its domain and protocol: one where it runs and zero where
/// it does not, and its port. The samples of tunnels with other keys stay.
pub proof fn each_tunnel_sets_its_samples(
    records: Seq<RecordView>,
    record: RecordView,
    key: u64,
)
    ensures
        ({
            let labels = seq![
                record.domain,
                match record.local_protocol {
                    LocalProtocol::Http => "http"@,
                    LocalProtocol::Https => "https"@,
                    LocalProtocol::Tcp => "tcp"@,
                },
            ];
            let more = records.push(record);
            &&& up_samples(more).contains_key(label_key(labels))
            &&& up_samples(more)[label_key(labels)].1 == (if record.status
                == TunnelStatus::Running {
                1int
            } else {
                0int
            })
            &&& !up_samples(records).contains_key(label_key(labels)) ==> up_samples(
                more,
            )[label_key(labels)].0 == labels
            &&& port_samples(more).contains_key(label_key(labels))
            &&& port_samples(more)[label_key(labels)].1 == record.local_port
            &&& !port_samples(records).contains_key(label_key(labels)) ==> port_samples(
                more,
            )[label_key(labels)].0 == labels
            &&& key != label_key(labels) ==> (up_samples(more).contains_key(key) <==> up_samples(
                records,
            ).contains_key(key)) && (port_samples(more).contains_key(key) <==> port_samples(
                records,
            ).contains_key(key))
            &&& key != label_key(labels) && up_samples(records).contains_key(key) ==> up_samples(
                more,
            )[key] == up_samples(records)[key]
            &&& key != label_key(labels) && port_samples(records).contains_key(key)
                ==> port_samples(more)[key] == port_samples(records)[key]
        }),
        up_samples(Seq::empty()).dom().is_empty(),
        port_samples(Seq::empty()).dom().is_empty(),
{
    let more = records.push(record);
    assert(more.drop_last() =~= records);
    assert(labels_of(record) =~= seq![
        record.domain,
        match record.local_protocol {
            LocalProtocol::Http => "http"@,
            LocalProtocol::Https => "https"@,
            LocalProtocol::Tcp => "tcp"@,
        },
    ]);
    assert(up_samples(Seq::<RecordView>::empty()) =~= Map::<u64, (Labels, int)>::empty());
    assert(port_samples(Seq::<RecordView>::empty()) =~= Map::<u64, (Labels, int)>::empty());
    assert(Map::<u64, (Labels, int)>::empty().dom() =~= Set::<u64>::empty());
}

/// Metrics that could be rendered are answered as they are, and a failure as an error of the
/// server that says what went wrong.
pub proof fn failures_are_answered(text: Seq<char>, error: Failure)
    ensures
        metrics_answer(Ok(text)) == (200u16, text),
        metrics_answer(Err(error)) == (500u16, "render metrics failed: "@ + error.line()),
{
}

} // verus!
