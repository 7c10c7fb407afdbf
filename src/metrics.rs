//! Handles of the native metrics API: metric families, construction
//! arguments, metrics and formatted metric snapshots.
//!
//! The native calls are made by the caller's binding layer and handed in as
//! closures over plain values: an address in, a status and a result out. This
//! module decides what is called with what, and what each outcome becomes.
use crate::adapter::{status_error, status_result, NativeStatus};
use crate::error::{Error, ErrorCode};
use crate::handle::SharedHandle;
use crate::text::{c_bytes, to_cstring, INTERIOR_NUL_MESSAGE};
use vstd::prelude::*;
use vstd::string::StringSliceAdditionalSpecFns;

verus! {

/// Types of metrics recognized by the native runtime.
#[derive(Clone, Copy, Debug, PartialEq, Eq, Structural, Hash)]
pub enum MetricKind {
    Counter,
    Gauge,
    Histogram,
}

/// Diagnostic of a kind code that the native runtime does not define.
pub const UNKNOWN_KIND_MESSAGE: &'static str = "unknown metric kind code";

/// The native code of a metric kind.
pub open spec fn kind_code(k: MetricKind) -> u32 {
    match k {
        MetricKind::Counter => 0,
        MetricKind::Gauge => 1,
        MetricKind::Histogram => 2,
    }
}

/// The metric kind that a native code stands for, if any.
pub open spec fn kind_of_code(raw: u32) -> Option<MetricKind> {
    if raw == 0 {
        Some(MetricKind::Counter)
    } else if raw == 1 {
        Some(MetricKind::Gauge)
    } else if raw == 2 {
        Some(MetricKind::Histogram)
    } else {
        None
    }
}

impl MetricKind {
    /// Reads a native kind code; an undefined code is an internal error.
    pub fn from_native(raw: u32) -> (r: Result<MetricKind, Error>)
        ensures
            match kind_of_code(raw) {
                Some(k) => r == Ok::<MetricKind, Error>(k),
                None => r is Err && r->Err_0.code == ErrorCode::Internal,
            },
    {
        match raw {
            0 => Ok(MetricKind::Counter),
            1 => Ok(MetricKind::Gauge),
            2 => Ok(MetricKind::Histogram),
            _ => Err(Error::new(ErrorCode::Internal, UNKNOWN_KIND_MESSAGE)),
        }
    }

    /// The native code of this kind.
    pub fn to_native(self) -> (r: u32)
        ensures
            r == kind_code(self),
    {
        match self {
            MetricKind::Counter => 0,
            MetricKind::Gauge => 1,
            MetricKind::Histogram => 2,
        }
    }
}

/// `r` is what a native constructor's outcome `out` (its status and the
/// address it wrote) becomes: the adopted address, or the reported failure.
pub open spec fn is_created<H: View<V = usize>>(out: (Option<NativeStatus>, usize), r: Result<H, Error>) -> bool {
    match out.0 {
        None => r is Ok && r->Ok_0@ == out.1,
        Some(s) => r == Err::<H, Error>(status_error(s)),
    }
}

/// `r` is what a native kind query's outcome `out` becomes.
pub open spec fn is_kind_read(out: (Option<NativeStatus>, u32), r: Result<MetricKind, Error>) -> bool {
    match out.0 {
        Some(s) => r == Err::<MetricKind, Error>(status_error(s)),
        None => match kind_of_code(out.1) {
            Some(k) => r == Ok::<MetricKind, Error>(k),
            None => r is Err && r->Err_0.code == ErrorCode::Internal,
        },
    }
}

/// Adopts the address that a native constructor wrote, unless its status
/// reports a failure.
fn adopt_created(status: Option<NativeStatus>, addr: usize) -> (r: Result<SharedHandle, Error>)
    ensures
        is_created((status, addr), r),
{
    match status_result(status, addr) {
        Ok(a) => Ok(SharedHandle::adopt(a)),
        Err(e) => Err(e),
    }
}

/// Maps the outcome of a native kind query.
fn read_kind(status: Option<NativeStatus>, raw: u32) -> (r: Result<MetricKind, Error>)
    ensures
        is_kind_read((status, raw), r),
{
    match status_result(status, raw) {
        Ok(code) => MetricKind::from_native(code),
        Err(e) => Err(e),
    }
}

/// Prometheus metrics snapshot object.
pub struct PrometheusMetrics {
    handle: SharedHandle,
}

impl View for PrometheusMetrics {
    type V = usize;

    closed spec fn view(&self) -> usize {
        self.handle@
    }
}

impl PrometheusMetrics {
    /// Adopts the snapshot that a native call returned: `status` is its
    /// failure, if any, and `addr` the address it wrote.
    pub fn from_native(status: Option<NativeStatus>, addr: usize) -> (r: Result<PrometheusMetrics, Error>)
        ensures
            is_created((status, addr), r),
    {
        match adopt_created(status, addr) {
            Ok(handle) => Ok(PrometheusMetrics { handle }),
            Err(e) => Err(e),
        }
    }

    /// The native address of the snapshot.
    pub fn address(&self) -> (r: usize)
        ensures
            r == self@,
    {
        self.handle.address()
    }

    /// The snapshot as text in the Prometheus exposition format. `query` is the
    /// native format call on the snapshot's address.
    pub fn formatted<Q>(&self, query: Q) -> (r: Result<Vec<u8>, Error>) where
        Q: FnOnce(usize) -> (Option<NativeStatus>, Vec<u8>),

        requires
            query.requires((self@,)),
        ensures
            exists|out: (Option<NativeStatus>, Vec<u8>)|
                query.ensures((self@,), out) && r == status_outcome_of(out),
    {
        let out = query(self.handle.address());
        let ghost seen = out;
        let (status, bytes) = out;
        let r = status_result(status, bytes);
        assert(query.ensures((self@,), seen) && r == status_outcome_of(seen));
        r
    }

    /// Gives up this owner; returns the address to delete when it was the last.
    pub fn release(self) -> (r: Option<usize>)
        ensures
            r matches Some(a) ==> a == self@ && a != 0,
    {
        self.handle.release()
    }
}

/// The outcome of a status-returning call that hands back `out.1` on success.
pub open spec fn status_outcome_of<T>(out: (Option<NativeStatus>, T)) -> Result<T, Error> {
    crate::adapter::status_outcome(out.0, out.1)
}

impl Clone for PrometheusMetrics {
    /// Adds an owner of the same snapshot.
    fn clone(&self) -> (r: PrometheusMetrics)
        ensures
            r@ == self@,
    {
        PrometheusMetrics { handle: self.handle.clone() }
    }
}

/// Family of metrics: groups metrics of one kind under a name and a description.
pub struct MetricFamily {
    handle: SharedHandle,
}

impl View for MetricFamily {
    type V = usize;

    closed spec fn view(&self) -> usize {
        self.handle@
    }
}

impl MetricFamily {
    /// Creates a metric family of `kind` named `name`, with `description`.
    /// Both texts are encoded as nul-terminated byte strings; text that holds a
    /// nul byte is rejected before any native call. `create` is the native
    /// constructor, given the kind's code and the two encoded texts.
    pub fn new<C>(kind: MetricKind, name: &str, description: &str, create: C) -> (r: Result<
        MetricFamily,
        Error,
    >) where C: FnOnce(u32, Vec<u8>, Vec<u8>) -> (Option<NativeStatus>, usize)
        requires
            forall|k: u32, n: Vec<u8>, d: Vec<u8>| create.requires((k, n, d)),
        ensures
            name.spec_bytes().contains(0u8) || description.spec_bytes().contains(0u8) ==> r is Err
                && r->Err_0.code == ErrorCode::InvalidArg && r->Err_0.message@
                == INTERIOR_NUL_MESSAGE@,
            !name.spec_bytes().contains(0u8) && !description.spec_bytes().contains(0u8) ==> exists|
                n: Vec<u8>,
                d: Vec<u8>,
                out: (Option<NativeStatus>, usize),
            |
                {
                    &&& n@ == c_bytes(name)
                    &&& d@ == c_bytes(description)
                    &&& create.ensures((kind_code(kind), n, d), out)
                    &&& is_created(out, r)
                },
    {
        let c_name = match to_cstring(name) {
            Ok(v) => v,
            Err(e) => return Err(e),
        };
        let c_descr = match to_cstring(description) {
            Ok(v) => v,
            Err(e) => return Err(e),
        };
        let ghost (n, d) = (c_name, c_descr);
        let out = create(kind.to_native(), c_name, c_descr);
        let ghost seen = out;
        let (status, addr) = out;
        let r = match adopt_created(status, addr) {
            Ok(handle) => Ok(MetricFamily { handle }),
            Err(e) => Err(e),
        };
        assert(create.ensures((kind_code(kind), n, d), seen) && is_created(seen, r));
        r
    }

    /// The native address of the family.
    pub fn address(&self) -> (r: usize)
        ensures
            r == self@,
    {
        self.handle.address()
    }

    /// The kind of the family, as the native kind query `query` reports it.
    pub fn kind<Q>(&self, query: Q) -> (r: Result<MetricKind, Error>) where
        Q: FnOnce(usize) -> (Option<NativeStatus>, u32),

        requires
            query.requires((self@,)),
        ensures
            exists|out: (Option<NativeStatus>, u32)|
                query.ensures((self@,), out) && is_kind_read(out, r),
    {
        let (status, raw) = query(self.handle.address());
        read_kind(status, raw)
    }

    /// Gives up this owner; returns the address to delete when it was the last.
    pub fn release(self) -> (r: Option<usize>)
        ensures
            r matches Some(a) ==> a == self@ && a != 0,
    {
        self.handle.release()
    }
}

impl Clone for MetricFamily {
    /// Adds an owner of the same family.
    fn clone(&self) -> (r: MetricFamily)
        ensures
            r@ == self@,
    {
        MetricFamily { handle: self.handle.clone() }
    }
}

/// Arguments for constructing a metric of a particular type, such as the
/// bucket boundaries of a histogram.
pub struct MetricArgs {
    handle: SharedHandle,
}

impl View for MetricArgs {
    type V = usize;

    closed spec fn view(&self) -> usize {
        self.handle@
    }
}

impl MetricArgs {
    /// Creates an empty set of metric arguments; `create` is the native constructor.
    pub fn new<C>(create: C) -> (r: Result<MetricArgs, Error>) where
        C: FnOnce() -> (Option<NativeStatus>, usize),

        requires
            create.requires(()),
        ensures
            exists|out: (Option<NativeStatus>, usize)|
                create.ensures((), out) && is_created(out, r),
    {
        let out = create();
        let ghost seen = out;
        let (status, addr) = out;
        let r = match adopt_created(status, addr) {
            Ok(handle) => Ok(MetricArgs { handle }),
            Err(e) => Err(e),
        };
        assert(create.ensures((), seen) && is_created(seen, r));
        r
    }

    /// The native address of the arguments.
    pub fn address(&self) -> (r: usize)
        ensures
            r == self@,
    {
        self.handle.address()
    }

    /// Gives up this owner; returns the address to delete when it was the last.
    pub fn release(self) -> (r: Option<usize>)
        ensures
            r matches Some(a) ==> a == self@ && a != 0,
    {
        self.handle.release()
    }
}

impl Clone for MetricArgs {
    /// Adds an owner of the same arguments.
    fn clone(&self) -> (r: MetricArgs)
        ensures
            r@ == self@,
    {
        MetricArgs { handle: self.handle.clone() }
    }
}

/// A counter, gauge or histogram. It holds an owner of its family, which
/// therefore lives at least as long as the metric.
pub struct Metric {
    handle: SharedHandle,
    family: MetricFamily,
}

impl View for Metric {
    /// The metric's address and its family's address.
    type V = (usize, usize);

    closed spec fn view(&self) -> (usize, usize) {
        (self.handle@, self.family@)
    }
}

/// `r` is what a native metric constructor's outcome `out` becomes for a
/// metric of the family at `family`.
pub open spec fn is_metric_created(
    out: (Option<NativeStatus>, usize),
    family: usize,
    r: Result<Metric, Error>,
) -> bool {
    match out.0 {
        None => r is Ok && r->Ok_0@ == (out.1, family),
        Some(s) => r == Err::<Metric, Error>(status_error(s)),
    }
}

/// Copies the label addresses handed to a native metric constructor.
fn label_list(labels: &[usize]) -> (r: Vec<usize>)
    ensures
        r@ == labels@,
{
    let mut out: Vec<usize> = Vec::new();
    let mut i: usize = 0;
    while i < labels.len()
        invariant
            i <= labels@.len(),
            out@ == labels@.subrange(0, i as int),
        decreases labels@.len() - i,
    {
        out.push(labels[i]);
        i = i + 1;
        assert(out@ =~= labels@.subrange(0, i as int));
    }
    assert(out@ =~= labels@);
    out
}

impl Metric {
    /// Creates a metric in `family` with the labels at the native addresses
    /// `labels`; `create` is the native constructor, given the family's address
    /// and the labels.
    pub fn new<C>(family: &MetricFamily, labels: &[usize], create: C) -> (r: Result<Metric, Error>) where
        C: FnOnce(usize, Vec<usize>) -> (Option<NativeStatus>, usize),

        requires
            forall|f: usize, l: Vec<usize>| create.requires((f, l)),
        ensures
            exists|l: Vec<usize>, out: (Option<NativeStatus>, usize)|
                {
                    &&& l@ == labels@
                    &&& create.ensures((family@, l), out)
                    &&& is_metric_created(out, family@, r)
                },
    {
        let list = label_list(labels);
        let ghost l = list;
        let out = create(family.address(), list);
        let ghost seen = out;
        let (status, addr) = out;
        let r = match adopt_created(status, addr) {
            Ok(handle) => Ok(Metric { handle, family: family.clone() }),
            Err(e) => Err(e),
        };
        assert(create.ensures((family@, l), seen) && is_metric_created(seen, family@, r));
        r
    }

    /// Creates a metric in `family` with the labels at `labels` and the
    /// construction arguments `args`; `create` is the native constructor, given
    /// the family's address, the labels and the arguments' address.
    pub fn new_with_args<C>(family: &MetricFamily, labels: &[usize], args: &MetricArgs, create: C) -> (r:
        Result<Metric, Error>) where C: FnOnce(usize, Vec<usize>, usize) -> (Option<NativeStatus>, usize)
        requires
            forall|f: usize, l: Vec<usize>, a: usize| create.requires((f, l, a)),
        ensures
            exists|l: Vec<usize>, out: (Option<NativeStatus>, usize)|
                {
                    &&& l@ == labels@
                    &&& create.ensures((family@, l, args@), out)
                    &&& is_metric_created(out, family@, r)
                },
    {
        let list = label_list(labels);
        let ghost l = list;
        let out = create(family.address(), list, args.address());
        let ghost seen = out;
        let (status, addr) = out;
        let r = match adopt_created(status, addr) {
            Ok(handle) => Ok(Metric { handle, family: family.clone() }),
            Err(e) => Err(e),
        };
        assert(create.ensures((family@, l, args@), seen) && is_metric_created(seen, family@, r));
        r
    }

    /// The native address of the metric.
    pub fn address(&self) -> (r: usize)
        ensures
            r == self@.0,
    {
        self.handle.address()
    }

    /// The family the metric belongs to.
    pub fn family(&self) -> (r: &MetricFamily)
        ensures
            r@ == self@.1,
    {
        &self.family
    }

    /// The kind of the metric's family, as the native kind query `query` reports it.
    pub fn kind<Q>(&self, query: Q) -> (r: Result<MetricKind, Error>) where
        Q: FnOnce(usize) -> (Option<NativeStatus>, u32),

        requires
            query.requires((self@.0,)),
        ensures
            exists|out: (Option<NativeStatus>, u32)|
                query.ensures((self@.0,), out) && is_kind_read(out, r),
    {
        let (status, raw) = query(self.handle.address());
        read_kind(status, raw)
    }

    /// Gives up this owner of the metric and the owner of its family that it
    /// holds. Returns the addresses to delete, the metric's first, each only
    /// when its owner was the last.
    pub fn release(self) -> (r: (Option<usize>, Option<usize>))
        ensures
            r.0 matches Some(a) ==> a == self@.0 && a != 0,
            r.1 matches Some(a) ==> a == self@.1 && a != 0,
    {
        let metric = self.handle.release();
        let family = self.family.release();
        (metric, family)
    }
}

impl Clone for Metric {
    /// Adds an owner of the same metric, and of its family.
    fn clone(&self) -> (r: Metric)
        ensures
            r@ == self@,
    {
        Metric { handle: self.handle.clone(), family: self.family.clone() }
    }
}

} // verus!
