//! The poll-time histogram of a task: an HDR histogram of nanosecond samples
//! kept to two significant figures.
use hdrhistogram::Histogram;
use hdrhistogram::serialization::Serializer;
use hdrhistogram::serialization::V2SerializeError;
use hdrhistogram::serialization::V2Serializer;
use vstd::multiset::Multiset;
use vstd::prelude::*;

verus! {

/// An auto-resizing `hdrhistogram::Histogram<u64>` with two significant
/// figures. The field is private and only `PollHistogram::new` makes one, so
/// every value of this type has that configuration.
#[verifier::external_body]
pub struct PollHistogram {
    inner: Histogram<u64>,
}

/// `hdrhistogram::serialization::V2SerializeError`: why a histogram could not
/// be written in the V2 format.
#[verifier::external_type_specification]
#[verifier::external_body]
pub struct ExV2SerializeError(V2SerializeError);

/// The samples that have been recorded into a histogram. The histogram itself
/// counts each of them at its own precision.
pub uninterp spec fn recorded_samples(h: PollHistogram) -> Multiset<u64>;

/// What comes of writing a histogram that holds the given samples in the V2
/// binary format: the bytes, or `None` where such a histogram cannot be
/// written.
pub uninterp spec fn v2_encoding(samples: Multiset<u64>) -> Option<Seq<u8>>;

/// The bytes of a histogram field, if it holds any.
pub open spec fn bytes_of(field: Option<Vec<u8>>) -> Option<Seq<u8>> {
    match field {
        Some(bytes) => Some(bytes@),
        None => None,
    }
}

impl PollHistogram {
    /// `Histogram::<u64>::new(2)`: an empty histogram. The parameters are
    /// fixed and valid, so the construction cannot fail.
    #[verifier::external_body]
    pub(crate) fn new() -> (h: PollHistogram)
        ensures
            recorded_samples(h) == Multiset::<u64>::empty(),
    {
        PollHistogram { inner: Histogram::<u64>::new(2).unwrap() }
    }

    /// `Histogram::record`: counts one more sample. An auto-resizing histogram
    /// grows to hold any `u64`, so the call succeeds; its counters saturate at
    /// `u64::MAX`, which the bound on the number of samples keeps out.
    #[verifier::external_body]
    pub(crate) fn record(&mut self, value: u64)
        requires
            recorded_samples(*old(self)).len() < u64::MAX,
        ensures
            recorded_samples(*final(self)) == recorded_samples(*old(self)).insert(value),
    {
        self.inner.record(value).unwrap()
    }

    /// `Histogram::len`: the number of samples recorded, saturating at
    /// `u64::MAX`.
    #[verifier::external_body]
    pub(crate) fn total_count(&self) -> (n: u64)
        ensures
            n == if recorded_samples(*self).len() <= u64::MAX {
                recorded_samples(*self).len()
            } else {
                u64::MAX as nat
            },
    {
        self.inner.len()
    }

    /// `V2Serializer::serialize` into a fresh buffer. The serializer reads
    /// nothing but the histogram, and the samples determine what the
    /// histogram holds, so they determine the outcome: whether it can be
    /// written, and the bytes if it can. Nothing is claimed of when it can.
    #[verifier::external_body]
    pub(crate) fn serialize_v2(&self) -> (r: Result<Vec<u8>, V2SerializeError>)
        ensures
            match r {
                Ok(bytes) => v2_encoding(recorded_samples(*self)) == Some(bytes@),
                Err(_) => v2_encoding(recorded_samples(*self)) is None,
            },
    {
        let mut buf: Vec<u8> = Vec::new();
        V2Serializer::new().serialize(&self.inner, &mut buf).map(|_| buf)
    }
}

/// What a details message carries for a serialization outcome: the bytes, or
/// nothing where the histogram could not be written.
pub fn histogram_field(outcome: Result<Vec<u8>, V2SerializeError>) -> (field: Option<Vec<u8>>)
    ensures
        field == match outcome {
            Ok(bytes) => Some(bytes),
            Err(_) => None,
        },
{
    match outcome {
        Ok(bytes) => Some(bytes),
        Err(_) => None,
    }
}

/// The canonical binary form of a histogram: the V2 bytes of its samples. A
/// histogram that cannot be written yields `None`.
pub fn serialize_histogram(histogram: &PollHistogram) -> (field: Option<Vec<u8>>)
    ensures
        bytes_of(field) == v2_encoding(recorded_samples(*histogram)),
{
    histogram_field(histogram.serialize_v2())
}

} // verus!
