//! The counter of served requests, kept in a `prometheus` counter vector, and
//! the start-up that makes it and registers it for scraping.

use vstd::prelude::*;

verus! {

/// The label value under which answered inquiries are counted.
pub const QA_ENDPOINT: &'static str = "/qa";

/// The name of the counter.
pub const COUNTER_NAME: &'static str = "correct_http_requests";

/// The help text of the counter.
pub const COUNTER_HELP: &'static str = "Total HTTP requests that were processed correctly.";

/// The namespace that prefixes the counter's name.
pub const COUNTER_NAMESPACE: &'static str = "my_api";

/// The name of the counter's one label.
pub const COUNTER_LABEL: &'static str = "endpoint";

/// The namespace of the metrics that the middleware keeps by itself.
pub const METRICS_NAMESPACE: &'static str = "api";

/// The path under which the metrics are served.
pub const METRICS_ENDPOINT: &'static str = "/metrics";

/// `actix_web_prom::PrometheusMetrics`, the middleware that serves the
/// registered metrics. The library makes it and hands it on; what the
/// contracts say of it is given by [`served_path`] and, of its registry, by
/// [`registered_ids`], [`collector_ids`] and [`registered_dimensions`].
#[verifier::external_type_specification]
#[verifier::external_body]
pub struct ExPrometheusMetrics(actix_web_prom::PrometheusMetrics);

/// `prometheus::Error`, which the library maps to a [`SetupError`].
#[verifier::external_type_specification]
#[verifier::external_body]
pub struct ExPrometheusError(prometheus::Error);

/// The counter of served requests: a `prometheus::IntCounterVec` of one
/// label, which holds a count for each label value.
///
/// The vector keeps one child per 64-bit key of the label value
/// ([`label_key`]); two label values with one key share a child and count
/// together.
///
/// The contracts speak of the counts as the calls on this handle move them,
/// one after the other. The handle cannot be cloned and every call that
/// counts borrows it exclusively, so nothing else moves the counts between
/// the start and the end of a call; a server with many workers shares the
/// handle behind a lock. The registry that serves the counts holds the
/// vector too, and only reads it.
///
/// The type is opaque to the verifier: what it holds is given by
/// [`child_values`] and, of its descriptor, by [`family_name`],
/// [`help_text`], [`label_names`], [`descriptor_id`] and
/// [`dimension_hash`]; only the functions of this module touch the vector.
#[verifier::external_body]
pub struct EndpointCounter {
    inner: prometheus::IntCounterVec,
}

/// The value at which each child of the vector stands, by the key under
/// which the vector keeps it, and 0 under a key that has no child yet.
pub uninterp spec fn child_values(counter: EndpointCounter) -> Map<u64, u64>;

/// The full name under which the vector's counts are served: the
/// `fq_name` of its descriptor.
pub uninterp spec fn family_name(counter: EndpointCounter) -> Seq<char>;

/// The help text of the vector's descriptor.
pub uninterp spec fn help_text(counter: EndpointCounter) -> Seq<char>;

/// The names of the labels that the vector was made with, in their order:
/// the `variable_labels` of its descriptor.
pub uninterp spec fn label_names(counter: EndpointCounter) -> Seq<Seq<char>>;

/// The id of the vector's descriptor, by which a registry knows the vector:
/// `prometheus` hashes the vector's full name into it when the vector is
/// made (`Desc::new`).
pub uninterp spec fn descriptor_id(counter: EndpointCounter) -> u64;

/// The hash of the vector's help text and label names, by which a registry
/// holds metrics of one full name to one shape: the `dim_hash` of its
/// descriptor.
pub uninterp spec fn dimension_hash(counter: EndpointCounter) -> u64;

/// Whether `actix_web_prom` builds a middleware of this namespace and path.
/// The builder starts from a registry of its own and from its default
/// settings, so these two decide.
pub uninterp spec fn middleware_is_built(namespace: Seq<char>, endpoint: Seq<char>) -> bool;

/// One step of the FNV-1a hash of 64 bits: the byte is folded into the hash,
/// and the hash multiplied by the FNV prime, with wrap-around.
pub open spec fn fnv_step(hash: u64, byte: u8) -> u64 {
    (((hash ^ (byte as u64)) as int * 0x100000001b3) % 0x1_0000_0000_0000_0000) as u64
}

/// The FNV-1a hash of 64 bits of the bytes, from the FNV offset basis.
pub open spec fn fnv_hash(bytes: Seq<u8>) -> u64
    decreases bytes.len(),
{
    if bytes.len() == 0 {
        0xcbf29ce484222325
    } else {
        fnv_step(fnv_hash(bytes.drop_last()), bytes.last())
    }
}

/// The key under which a vector of one label keeps the child of a label
/// value. `prometheus` keeps the children of a vector in a map from `u64`,
/// and finds the child of a list of label values under the FNV-1a hash of
/// their bytes (`hash_label_values`); this is that hash for a list of one:
/// the hash of the value's bytes in UTF-8.
pub open spec fn label_key(label: Seq<char>) -> u64 {
    fnv_hash(vstd::utf8::encode_utf8(label))
}

/// The id that `prometheus` gives the descriptor of a metric without
/// constant labels: the FNV-1a hash of the bytes of its full name and of one
/// byte `0xff` behind them (`Desc::new`).
pub open spec fn descriptor_id_of(family: Seq<char>) -> u64 {
    fnv_hash(vstd::utf8::encode_utf8(family).push(0xff))
}

/// What a counter is known by where its counts are served: its full name,
/// its help text, the names of its labels, and the id and the dimension
/// hash of its descriptor. Counting changes none of them.
pub struct CounterDescription {
    pub family: Seq<char>,
    pub help: Seq<char>,
    pub labels: Seq<Seq<char>>,
    pub id: u64,
    pub dimension: u64,
}

/// The ids of the descriptors that the registry of the middleware holds
/// (its `desc_ids`): those of the collectors whose metrics the middleware
/// serves.
pub uninterp spec fn registered_ids(metrics: actix_web_prom::PrometheusMetrics) -> Set<u64>;

/// The ids under which the registry of the middleware holds its collectors
/// (the keys of its `collectors_by_id`). A collector of one descriptor
/// stands under the id of that descriptor.
pub uninterp spec fn collector_ids(metrics: actix_web_prom::PrometheusMetrics) -> Set<u64>;

/// The dimension hash that the registry of the middleware has noted for
/// each full name that it was asked to register (its `dim_hashes_by_name`).
pub uninterp spec fn registered_dimensions(metrics: actix_web_prom::PrometheusMetrics) -> Map<
    Seq<char>,
    u64,
>;

/// The path under which the middleware answers a `GET` with the metrics of
/// its registry.
pub uninterp spec fn served_path(metrics: actix_web_prom::PrometheusMetrics) -> Seq<char>;

/// Whether a character can stand in a Prometheus name: a letter of ASCII or
/// `_`, and in the name of a metric also `:`.
pub open spec fn is_name_char(c: char, colon: bool) -> bool {
    ('a' <= c && c <= 'z') || ('A' <= c && c <= 'Z') || c == '_' || (colon && c == ':')
}

/// Whether a text is a Prometheus name: it is not empty, it starts with a
/// name character, and name characters and digits follow. `colon` tells the
/// name of a metric, which may hold `:`, from that of a label.
pub open spec fn is_identifier(text: Seq<char>, colon: bool) -> bool {
    &&& text.len() > 0
    &&& is_name_char(text[0], colon)
    &&& forall|i: int|
        0 < i < text.len() ==> is_name_char(#[trigger] text[i], colon) || ('0' <= text[i]
            && text[i] <= '9')
}

/// The full name of a metric: nothing where the name is empty, else the
/// name behind the namespace and `_`, or the name alone where the namespace
/// is empty.
pub open spec fn full_name(namespace: Seq<char>, name: Seq<char>) -> Seq<char> {
    if name.len() == 0 {
        Seq::empty()
    } else if namespace.len() > 0 {
        namespace + seq!['_'] + name
    } else {
        name
    }
}

/// Whether `prometheus` makes a counter vector of these: the help text is
/// not empty, the full name is the name of a metric and the label name is
/// the name of a label.
pub open spec fn counter_is_accepted(
    name: Seq<char>,
    help: Seq<char>,
    namespace: Seq<char>,
    label_name: Seq<char>,
) -> bool {
    &&& help.len() > 0
    &&& is_identifier(full_name(namespace, name), true)
    &&& is_identifier(label_name, false)
}

/// The full names of the two metrics that the middleware keeps by itself,
/// under its namespace.
pub open spec fn own_names(namespace: Seq<char>) -> Set<Seq<char>> {
    set![
        full_name(namespace, "http_requests_total"@),
        full_name(namespace, "http_requests_duration_seconds"@),
    ]
}

/// The ids of the descriptors of those two metrics.
pub open spec fn own_ids(namespace: Seq<char>) -> Set<u64> {
    set![
        descriptor_id_of(full_name(namespace, "http_requests_total"@)),
        descriptor_id_of(full_name(namespace, "http_requests_duration_seconds"@)),
    ]
}

/// Whether the registry knows the counter's descriptor already.
pub open spec fn is_known(metrics: actix_web_prom::PrometheusMetrics, counter: EndpointCounter) -> bool {
    registered_ids(metrics).contains(descriptor_id(counter))
}

/// Whether the registry has noted another dimension hash under the
/// counter's full name: metrics of one name must have one help text and the
/// same label names.
pub open spec fn clashes(metrics: actix_web_prom::PrometheusMetrics, counter: EndpointCounter) -> bool {
    &&& registered_dimensions(metrics).dom().contains(family_name(counter))
    &&& registered_dimensions(metrics)[family_name(counter)] != dimension_hash(counter)
}

/// Whether the registry of the middleware, as it stands, takes the counter
/// when it is asked to register it: it does not know the counter's
/// descriptor, it has noted no other dimension hash under the counter's
/// full name, and no collector stands under the descriptor's id.
pub open spec fn registry_takes(
    metrics: actix_web_prom::PrometheusMetrics,
    counter: EndpointCounter,
) -> bool {
    &&& !is_known(metrics, counter)
    &&& !clashes(metrics, counter)
    &&& !collector_ids(metrics).contains(descriptor_id(counter))
}

/// Whether the registry of a middleware that was just built of the
/// namespace takes a counter of the full name, made without constant
/// labels: it does unless the id of the counter's descriptor is that of one
/// of the middleware's own two.
pub open spec fn fresh_registry_takes(namespace: Seq<char>, family: Seq<char>) -> bool {
    !own_ids(namespace).contains(descriptor_id_of(family))
}

/// Whether the registry of the middleware holds the counter.
pub open spec fn is_registered(
    metrics: actix_web_prom::PrometheusMetrics,
    counter: EndpointCounter,
) -> bool {
    registered_ids(metrics).contains(descriptor_id(counter))
}

/// The value of a child after one more increment: one more, and 0 after the
/// greatest `u64`.
pub open spec fn next_count(count: u64) -> u64 {
    if count == u64::MAX {
        0
    } else {
        (count + 1) as u64
    }
}

/// The children of a vector that has counted nothing.
pub open spec fn no_counts() -> Map<u64, u64> {
    Map::total(|key: u64| 0u64)
}

/// Calls `prometheus::IntCounterVec::new` with options of the given name,
/// help and namespace and with one label name. Claimed: the vector is made
/// exactly where [`counter_is_accepted`] holds, which is what `Desc::new`
/// tests of a vector without constant labels (an empty help text, a full
/// name that is no metric name and a label name that is no label name are
/// its three refusals); a vector that was made has the full name of the
/// namespace and name, the help text and the one label name that it was
/// given, the descriptor id of that full name, and no child, so every count
/// is 0.
#[verifier::external_body]
fn new_counter_vec(name: &str, help: &str, namespace: &str, label_name: &str) -> (made: Result<
    EndpointCounter,
    prometheus::Error,
>)
    ensures
        made is Ok <==> counter_is_accepted(name@, help@, namespace@, label_name@),
        made matches Ok(counter) ==> {
            &&& family_name(counter) == full_name(namespace@, name@)
            &&& help_text(counter) == help@
            &&& label_names(counter) == seq![label_name@]
            &&& descriptor_id(counter) == descriptor_id_of(full_name(namespace@, name@))
            &&& child_values(counter) == no_counts()
        },
{
    let opts = prometheus::Opts::new(name, help).namespace(namespace);
    let inner = prometheus::IntCounterVec::new(opts, &[label_name])?;
    Ok(EndpointCounter { inner })
}

/// Calls `with_label_values` on the vector with the one label value, and
/// `inc` on the child that comes back. `with_label_values` panics unless the
/// vector has as many labels as it is given values, hence the `requires`.
/// Claimed: the child under the value's key stands one higher (the addition
/// wraps, as `AtomicU64::fetch_add` does), every other child is as before,
/// and the vector has the descriptor it had.
#[verifier::external_body]
fn increment_child(counter: &mut EndpointCounter, label: &str)
    requires
        label_names(*old(counter)).len() == 1,
    ensures
        family_name(*final(counter)) == family_name(*old(counter)),
        help_text(*final(counter)) == help_text(*old(counter)),
        label_names(*final(counter)) == label_names(*old(counter)),
        descriptor_id(*final(counter)) == descriptor_id(*old(counter)),
        dimension_hash(*final(counter)) == dimension_hash(*old(counter)),
        child_values(*final(counter)) == child_values(*old(counter)).insert(
            label_key(label@),
            next_count(child_values(*old(counter))[label_key(label@)]),
        ),
{
    counter.inner.with_label_values(&[label]).inc()
}

/// Calls `with_label_values` on the vector with the one label value, and
/// `get` on the child that comes back. Claimed: the result is the value of
/// the child under the value's key. (Where there was no child, the call
/// makes one that stands at 0, which is the value that [`child_values`]
/// gives for its key already.)
#[verifier::external_body]
fn read_child(counter: &EndpointCounter, label: &str) -> (value: u64)
    requires
        label_names(*counter).len() == 1,
    ensures
        value == child_values(*counter)[label_key(label@)],
{
    counter.inner.with_label_values(&[label]).get()
}

/// Calls `register` on the registry of the middleware, with a clone of the
/// vector (which shares its children and has its descriptor). Claimed, as
/// `RegistryCore::register` goes for a collector of one descriptor: the
/// registry refuses the vector where it knows the descriptor's id, else
/// where it has noted another dimension hash under the vector's full name,
/// else where a collector stands under the id, and takes it in every other
/// case. Where it takes the vector it holds the id and a collector under
/// the id afterwards, with those it held; where it refuses, it holds the
/// ids and collectors it held. It notes the vector's dimension hash under
/// the full name as soon as the first two tests are passed, also where the
/// third then refuses. The path of the middleware stays.
#[verifier::external_body]
fn register_collector(
    metrics: &mut actix_web_prom::PrometheusMetrics,
    counter: &EndpointCounter,
) -> (done: Result<(), prometheus::Error>)
    ensures
        done is Ok <==> {
            &&& !registered_ids(*old(metrics)).contains(descriptor_id(*counter))
            &&& !(registered_dimensions(*old(metrics)).dom().contains(family_name(*counter))
                && registered_dimensions(*old(metrics))[family_name(*counter)] != dimension_hash(
                *counter,
            ))
            &&& !collector_ids(*old(metrics)).contains(descriptor_id(*counter))
        },
        registered_ids(*final(metrics)) == if done is Ok {
            registered_ids(*old(metrics)).insert(descriptor_id(*counter))
        } else {
            registered_ids(*old(metrics))
        },
        collector_ids(*final(metrics)) == if done is Ok {
            collector_ids(*old(metrics)).insert(descriptor_id(*counter))
        } else {
            collector_ids(*old(metrics))
        },
        registered_dimensions(*final(metrics)) == if !registered_ids(*old(metrics)).contains(
            descriptor_id(*counter),
        ) && !(registered_dimensions(*old(metrics)).dom().contains(family_name(*counter))
            && registered_dimensions(*old(metrics))[family_name(*counter)] != dimension_hash(
            *counter,
        )) {
            registered_dimensions(*old(metrics)).insert(
                family_name(*counter),
                dimension_hash(*counter),
            )
        } else {
            registered_dimensions(*old(metrics))
        },
        served_path(*final(metrics)) == served_path(*old(metrics)),
{
    metrics.registry.register(Box::new(counter.inner.clone()))
}

/// Calls `actix_web_prom::PrometheusMetricsBuilder::new` with the namespace,
/// `endpoint` with the path and `build`. Claimed: whether the middleware
/// is built is a matter of the namespace and the path alone, and has the
/// name [`middleware_is_built`]; a middleware that was built answers under
/// the path it was given, and its registry, which the builder made new,
/// holds the descriptors and collectors of the middleware's own two metrics
/// and nothing else, and has noted their two full names; and none is built
/// with a namespace that is not empty and is no metric name, since the full
/// names of the middleware's own metrics start with it. A failure comes
/// back as the text of the builder's error.
#[verifier::external_body]
fn build_metrics(namespace: &str, endpoint: &str) -> (built: Result<
    actix_web_prom::PrometheusMetrics,
    String,
>)
    ensures
        built is Ok <==> middleware_is_built(namespace@, endpoint@),
        built matches Ok(metrics) ==> {
            &&& served_path(metrics) == endpoint@
            &&& registered_ids(metrics) == own_ids(namespace@)
            &&& collector_ids(metrics) == own_ids(namespace@)
            &&& registered_dimensions(metrics).dom() == own_names(namespace@)
        },
        namespace@.len() > 0 && !is_identifier(namespace@, true) ==> built is Err,
{
    match actix_web_prom::PrometheusMetricsBuilder::new(namespace).endpoint(endpoint).build() {
        Ok(metrics) => Ok(metrics),
        Err(error) => Err(error.to_string()),
    }
}

/// The step of the start-up that failed.
#[derive(Clone, Copy, Debug, PartialEq, Eq, Structural)]
pub enum SetupError {
    /// The metrics middleware could not be built.
    BuildMetrics,
    /// The counter could not be made.
    CreateCounter,
    /// The counter could not be registered.
    RegisterCounter,
}

/// The text that tells of each failed step.
pub open spec fn setup_message(error: SetupError) -> Seq<char> {
    match error {
        SetupError::BuildMetrics => "Failed to build Prometheus metrics"@,
        SetupError::CreateCounter => "Failed to create counter"@,
        SetupError::RegisterCounter => "Failed to register counter"@,
    }
}

impl SetupError {
    /// The text that tells of the failed step.
    pub fn message(&self) -> (text: String)
        ensures
            text@ == setup_message(*self),
    {
        match self {
            SetupError::BuildMetrics => "Failed to build Prometheus metrics".to_owned(),
            SetupError::CreateCounter => "Failed to create counter".to_owned(),
            SetupError::RegisterCounter => "Failed to register counter".to_owned(),
        }
    }
}

/// What a step of the start-up hands on: the value that the outside call
/// made, or the step's own error in place of whatever the call failed with.
pub fn step_result<T, E>(outcome: Result<T, E>, step: SetupError) -> (result: Result<T, SetupError>)
    ensures
        match outcome {
            Ok(value) => result == Ok::<T, SetupError>(value),
            Err(_) => result == Err::<T, SetupError>(step),
        },
{
    match outcome {
        Ok(value) => Ok(value),
        Err(_) => Err(step),
    }
}

impl View for EndpointCounter {
    type V = Map<u64, u64>;

    /// The value of each child, by its key.
    open spec fn view(&self) -> Map<u64, u64> {
        child_values(*self)
    }
}

impl EndpointCounter {
    /// Every counter is made with one label name, and no call changes that:
    /// `increment` and `get` rest on it when they hand the vector one label
    /// value.
    #[verifier::type_invariant]
    spec fn has_one_label(self) -> bool {
        label_names(self).len() == 1
    }

    /// What the counter is known by where its counts are served.
    pub open spec fn description(&self) -> CounterDescription {
        CounterDescription {
            family: family_name(*self),
            help: help_text(*self),
            labels: label_names(*self),
            id: descriptor_id(*self),
            dimension: dimension_hash(*self),
        }
    }

    /// The count at which a label value stands.
    pub open spec fn count(&self, label: Seq<char>) -> u64 {
        self@[label_key(label)]
    }

    /// A counter that has counted nothing, of the given name, help text,
    /// namespace and label name: its counts are served under the full name
    /// of namespace and name, with the help text and the one label. It is
    /// made exactly where [`counter_is_accepted`] holds, and fails with
    /// [`SetupError::CreateCounter`] elsewhere.
    pub fn new(name: &str, help: &str, namespace: &str, label_name: &str) -> (made: Result<
        EndpointCounter,
        SetupError,
    >)
        ensures
            made is Ok <==> counter_is_accepted(name@, help@, namespace@, label_name@),
            made matches Ok(counter) ==> {
                &&& counter@ == no_counts()
                &&& counter.description().family == full_name(namespace@, name@)
                &&& counter.description().help == help@
                &&& counter.description().labels == seq![label_name@]
                &&& counter.description().id == descriptor_id_of(full_name(namespace@, name@))
            },
            made matches Err(error) ==> error == SetupError::CreateCounter,
    {
        step_result(new_counter_vec(name, help, namespace, label_name), SetupError::CreateCounter)
    }

    /// Counts once under the label value. Every other child stays as it is,
    /// and the counter is known by what it was known by.
    pub fn increment(&mut self, label: &str)
        ensures
            final(self)@ == old(self)@.insert(label_key(label@), next_count(old(self).count(label@))),
            final(self).description() == old(self).description(),
    {
        proof {
            use_type_invariant(&*self);
        }
        increment_child(self, label);
    }

    /// The count at which the label value stands.
    pub fn get(&self, label: &str) -> (value: u64)
        ensures
            value == self.count(label@),
    {
        proof {
            use_type_invariant(self);
        }
        read_child(self, label)
    }

    /// Registers the counter with the middleware, so that the metrics it
    /// serves hold the counts.
    ///
    /// The call succeeds exactly where the registry of the middleware, as
    /// it stands, takes the counter ([`registry_takes`]); so a counter is
    /// registered once, and the call fails where the middleware holds it
    /// already. Where the call succeeds the middleware holds the counter
    /// afterwards, with all it held; where it fails, with
    /// [`SetupError::RegisterCounter`], the middleware holds what it held.
    /// The path of the middleware stays.
    pub fn register(&self, metrics: &mut actix_web_prom::PrometheusMetrics) -> (done: Result<
        (),
        SetupError,
    >)
        ensures
            done is Ok <==> registry_takes(*old(metrics), *self),
            done matches Err(error) ==> error == SetupError::RegisterCounter,
            registered_ids(*final(metrics)) == if done is Ok {
                registered_ids(*old(metrics)).insert(descriptor_id(*self))
            } else {
                registered_ids(*old(metrics))
            },
            collector_ids(*final(metrics)) == if done is Ok {
                collector_ids(*old(metrics)).insert(descriptor_id(*self))
            } else {
                collector_ids(*old(metrics))
            },
            registered_dimensions(*final(metrics)) == if !is_known(*old(metrics), *self)
                && !clashes(*old(metrics), *self) {
                registered_dimensions(*old(metrics)).insert(
                    family_name(*self),
                    dimension_hash(*self),
                )
            } else {
                registered_dimensions(*old(metrics))
            },
            served_path(*final(metrics)) == served_path(*old(metrics)),
            is_registered(*old(metrics), *self) ==> done is Err,
    {
        step_result(register_collector(metrics, self), SetupError::RegisterCounter)
    }
}

/// The middleware that serves the metrics under `endpoint`, its own metrics
/// named under `namespace`.
///
/// The middleware is built exactly where `actix_web_prom` builds one of
/// this namespace and path ([`middleware_is_built`]). One that was built
/// answers under `endpoint`, and its registry holds its own two metrics and
/// nothing else. None is built with a namespace that is not empty and is no
/// metric name; every failure is [`SetupError::BuildMetrics`].
pub fn metrics_middleware(namespace: &str, endpoint: &str) -> (built: Result<
    actix_web_prom::PrometheusMetrics,
    SetupError,
>)
    ensures
        built is Ok <==> middleware_is_built(namespace@, endpoint@),
        built matches Ok(metrics) ==> {
            &&& served_path(metrics) == endpoint@
            &&& registered_ids(metrics) == own_ids(namespace@)
            &&& collector_ids(metrics) == own_ids(namespace@)
            &&& registered_dimensions(metrics).dom() == own_names(namespace@)
        },
        built matches Err(error) ==> error == SetupError::BuildMetrics,
        namespace@.len() > 0 && !is_identifier(namespace@, true) ==> built is Err,
{
    step_result(build_metrics(namespace, endpoint), SetupError::BuildMetrics)
}

/// The names of the counter of served requests are such that `prometheus`
/// makes it.
pub proof fn lemma_counter_names_are_accepted()
    ensures
        counter_is_accepted(COUNTER_NAME@, COUNTER_HELP@, COUNTER_NAMESPACE@, COUNTER_LABEL@),
{
    reveal_strlit("correct_http_requests");
    reveal_strlit("Total HTTP requests that were processed correctly.");
    reveal_strlit("my_api");
    reveal_strlit("endpoint");
}

/// The registry of a middleware that holds its own two metrics and nothing
/// else takes a counter made without constant labels exactly where
/// [`fresh_registry_takes`] says: a full name that the registry has noted
/// is one of the two, whose id it knows.
pub proof fn lemma_fresh_registry_decides(
    metrics: actix_web_prom::PrometheusMetrics,
    counter: EndpointCounter,
    namespace: Seq<char>,
)
    requires
        registered_ids(metrics) == own_ids(namespace),
        collector_ids(metrics) == own_ids(namespace),
        registered_dimensions(metrics).dom() == own_names(namespace),
        descriptor_id(counter) == descriptor_id_of(family_name(counter)),
    ensures
        registry_takes(metrics, counter) <==> fresh_registry_takes(namespace, family_name(counter)),
{
}

/// Whether the counter is the counter of served requests as the start-up
/// makes it: known by its fixed names, and with nothing counted.
pub open spec fn is_fresh_request_counter(counter: EndpointCounter) -> bool {
    &&& counter.description().family == full_name(COUNTER_NAMESPACE@, COUNTER_NAME@)
    &&& counter.description().help == COUNTER_HELP@
    &&& counter.description().labels == seq![COUNTER_LABEL@]
    &&& counter@ == no_counts()
}

/// The full name of the counter of served requests.
pub open spec fn request_counter_name() -> Seq<char> {
    full_name(COUNTER_NAMESPACE@, COUNTER_NAME@)
}

/// The start-up of the metrics: builds the middleware of
/// [`METRICS_NAMESPACE`] and [`METRICS_ENDPOINT`], makes the counter of
/// served requests and registers it with the middleware, in this order, and
/// stops at the first step that fails.
///
/// It succeeds exactly where `actix_web_prom` builds the middleware and the
/// registry of the middleware, just built, takes the counter. The
/// middleware then answers under [`METRICS_ENDPOINT`], and its registry
/// holds its own two metrics and the counter, which is known by its fixed
/// names and has counted nothing. Where the start-up fails, the error is
/// [`SetupError::BuildMetrics`] exactly where no middleware is built, and
/// [`SetupError::RegisterCounter`] else. Making the counter never fails.
pub fn setup_prometheus_metrics() -> (made: Result<
    (actix_web_prom::PrometheusMetrics, EndpointCounter),
    SetupError,
>)
    ensures
        made is Ok <==> middleware_is_built(METRICS_NAMESPACE@, METRICS_ENDPOINT@)
            && fresh_registry_takes(METRICS_NAMESPACE@, request_counter_name()),
        match made {
            Ok((metrics, counter)) => {
                &&& served_path(metrics) == METRICS_ENDPOINT@
                &&& is_fresh_request_counter(counter)
                &&& descriptor_id(counter) == descriptor_id_of(request_counter_name())
                &&& registered_ids(metrics) == own_ids(METRICS_NAMESPACE@).insert(
                    descriptor_id(counter),
                )
                &&& collector_ids(metrics) == own_ids(METRICS_NAMESPACE@).insert(
                    descriptor_id(counter),
                )
                &&& is_registered(metrics, counter)
            },
            Err(error) => {
                &&& error == SetupError::BuildMetrics || error == SetupError::RegisterCounter
                &&& error == SetupError::BuildMetrics <==> !middleware_is_built(
                    METRICS_NAMESPACE@,
                    METRICS_ENDPOINT@,
                )
            },
        },
{
    let mut metrics = match metrics_middleware(METRICS_NAMESPACE, METRICS_ENDPOINT) {
        Ok(metrics) => metrics,
        Err(error) => {
            return Err(error);
        },
    };
    proof {
        lemma_counter_names_are_accepted();
    }
    let counter = match EndpointCounter::new(
        COUNTER_NAME,
        COUNTER_HELP,
        COUNTER_NAMESPACE,
        COUNTER_LABEL,
    ) {
        Ok(counter) => counter,
        Err(error) => {
            return Err(error);
        },
    };
    proof {
        lemma_fresh_registry_decides(metrics, counter, METRICS_NAMESPACE@);
    }
    match counter.register(&mut metrics) {
        Ok(_) => Ok((metrics, counter)),
        Err(error) => Err(error),
    }
}

} // verus!
