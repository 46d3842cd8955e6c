use vstd::prelude::*;

use qwt::{HWT, WT};

use crate::artifact::{access_of, single_symbol, Indexed};
use crate::variants::{
    Hqwt256, Hqwt256Pfs, Hqwt512, Hqwt512Pfs, Qwt256, Qwt256Pfs, Qwt512, Qwt512Pfs,
};
use crate::timing::TimingQueries;
use vstd::arithmetic::div_mod::{lemma_add_mod_noop, lemma_small_mod};

verus! {

/// The position that the benchmark reads from each freshly built artifact,
/// so that the construction cannot be optimized away.
pub const PROBE: usize = 123;

/// The nanoseconds in a millisecond.
pub const NANOS_PER_MILLI: u64 = 1_000_000;

/// `floor(log2(n))`, and 0 for 0.
pub open spec fn floor_log2(n: nat) -> nat
    decreases n,
{
    if n <= 1 {
        0
    } else {
        1 + floor_log2(n / 2)
    }
}

/// Relies on qwt::utils::msb: the position of the most significant set bit,
/// 0 for 0.
#[verifier::external_body]
fn msb_of(n: usize) -> (r: u32)
    ensures
        r as nat == floor_log2(n as nat),
{
    qwt::utils::msb(n)
}

/// The representations that the benchmark compares, in report order.
#[derive(Clone, Copy, Debug, PartialEq, Eq)]
pub enum Variant {
    /// A quad wavelet tree with 256-symbol blocks.
    Qwt256,
    /// A quad wavelet tree with 256-symbol blocks and prefetching support.
    Qwt256Pfs,
    /// A quad wavelet tree with 512-symbol blocks.
    Qwt512,
    /// A quad wavelet tree with 512-symbol blocks and prefetching support.
    Qwt512Pfs,
    /// A Huffman-shaped quad wavelet tree with 256-symbol blocks.
    Hqwt256,
    /// A Huffman-shaped quad wavelet tree with 256-symbol blocks and prefetching support.
    Hqwt256Pfs,
    /// A Huffman-shaped quad wavelet tree with 512-symbol blocks.
    Hqwt512,
    /// A Huffman-shaped quad wavelet tree with 512-symbol blocks and prefetching support.
    Hqwt512Pfs,
    /// A plain binary wavelet tree.
    Wt,
    /// A Huffman-shaped binary wavelet tree.
    Hwt,
}

impl Variant {
    /// The identifier printed in the report.
    pub fn id(&self) -> (r: &'static str)
        ensures
            *self == Variant::Qwt256 ==> r@ == "QWT256"@,
            *self == Variant::Qwt256Pfs ==> r@ == "QWT256Pfs"@,
            *self == Variant::Qwt512 ==> r@ == "QWT512"@,
            *self == Variant::Qwt512Pfs ==> r@ == "QWT512Pfs"@,
            *self == Variant::Hqwt256 ==> r@ == "HQWT256"@,
            *self == Variant::Hqwt256Pfs ==> r@ == "HQWT256Pfs"@,
            *self == Variant::Hqwt512 ==> r@ == "HQWT512"@,
            *self == Variant::Hqwt512Pfs ==> r@ == "HQWT512Pfs"@,
            *self == Variant::Wt ==> r@ == "WT"@,
            *self == Variant::Hwt ==> r@ == "HWT"@,
    {
        match self {
            Variant::Qwt256 => "QWT256",
            Variant::Qwt256Pfs => "QWT256Pfs",
            Variant::Qwt512 => "QWT512",
            Variant::Qwt512Pfs => "QWT512Pfs",
            Variant::Hqwt256 => "HQWT256",
            Variant::Hqwt256Pfs => "HQWT256Pfs",
            Variant::Hqwt512 => "HQWT512",
            Variant::Hqwt512Pfs => "HQWT512Pfs",
            Variant::Wt => "WT",
            Variant::Hwt => "HWT",
        }
    }

    /// The suffix of the cache file of this variant.
    pub fn suffix(&self) -> (r: &'static str)
        ensures
            *self == Variant::Qwt256 ==> r@ == ".qwt256"@,
            *self == Variant::Qwt256Pfs ==> r@ == ".qwt256pfs"@,
            *self == Variant::Qwt512 ==> r@ == ".qwt512"@,
            *self == Variant::Qwt512Pfs ==> r@ == ".qwt512pfs"@,
            *self == Variant::Hqwt256 ==> r@ == ".hqwt256"@,
            *self == Variant::Hqwt256Pfs ==> r@ == ".hqwt256pfs"@,
            *self == Variant::Hqwt512 ==> r@ == ".hqwt512"@,
            *self == Variant::Hqwt512Pfs ==> r@ == ".hqwt512pfs"@,
            *self == Variant::Wt ==> r@ == ".wt"@,
            *self == Variant::Hwt ==> r@ == ".hwt"@,
    {
        match self {
            Variant::Qwt256 => ".qwt256",
            Variant::Qwt256Pfs => ".qwt256pfs",
            Variant::Qwt512 => ".qwt512",
            Variant::Qwt512Pfs => ".qwt512pfs",
            Variant::Hqwt256 => ".hqwt256",
            Variant::Hqwt256Pfs => ".hqwt256pfs",
            Variant::Hqwt512 => ".hqwt512",
            Variant::Hqwt512Pfs => ".hqwt512pfs",
            Variant::Wt => ".wt",
            Variant::Hwt => ".hwt",
        }
    }
}

/// The variants to benchmark, in order.
pub fn registry() -> (r: Vec<Variant>)
    ensures
        r@ == seq![
            Variant::Qwt256,
            Variant::Qwt256Pfs,
            Variant::Qwt512,
            Variant::Qwt512Pfs,
            Variant::Hqwt256,
            Variant::Hqwt256Pfs,
            Variant::Hqwt512,
            Variant::Hqwt512Pfs,
            Variant::Wt,
            Variant::Hwt,
        ],
{
    vec![
        Variant::Qwt256,
        Variant::Qwt256Pfs,
        Variant::Qwt512,
        Variant::Qwt512Pfs,
        Variant::Hqwt256,
        Variant::Hqwt256Pfs,
        Variant::Hqwt512,
        Variant::Hqwt512Pfs,
        Variant::Wt,
        Variant::Hwt,
    ]
}

/// One record of the benchmark report.
#[derive(Clone, Debug, PartialEq, Eq)]
pub struct BenchmarkResult {
    pub variant: Variant,
    pub input: String,
    pub n: usize,
    pub log_n: u32,
    pub min_ms: u64,
    pub max_ms: u64,
    pub avg_ms: u64,
    pub runs: usize,
}

/// The sink value after `k` constructions over `text`: each adds the
/// symbol at `PROBE`, if there is one, modulo 256.
pub open spec fn sink_after(text: Seq<u8>, k: nat) -> u8 {
    match access_of(text, PROBE as int) {
        Some(x) => ((k * x) % 256) as u8,
        None => 0,
    }
}

/// Folds the symbol at `probe` of `a`, if there is one, into `acc`.
pub fn consume<A: Indexed>(acc: u8, a: &A, probe: usize) -> (r: u8)
    requires
        a.wf(),
    ensures
        r == (match access_of(a.symbols(), probe as int) {
            Some(x) => ((acc + x) % 256) as u8,
            None => acc,
        }),
{
    match a.access(probe) {
        Some(x) => ((acc as u16 + x as u16) % 256) as u16 as u8,
        None => acc,
    }
}

/// Builds `A` over `text` `runs` times, timing each construction, and
/// returns the minimum, maximum and average time in nanoseconds with the
/// value that the constructions fed into the sink.
pub fn time_construction<A: Indexed>(text: &Vec<u8>, runs: usize) -> (r: ((u64, u64, u64), u8))
    requires
        runs >= 1,
        A::buildable(text@),
    ensures
        r.0.0 <= r.0.2 <= r.0.1,
        r.1 == sink_after(text@, runs as nat),
{
    let mut t = TimingQueries::new(runs, 0);
    let mut sink: u8 = 0;
    let mut k: usize = 0;
    while k < runs
        invariant
            t.wf(),
            t.runs() == runs,
            t.warmup() == 0,
            t.recorded().len() == k,
            !t.running(),
            k <= runs,
            sink == sink_after(text@, k as nat),
            A::buildable(text@),
        decreases runs - k,
    {
        t.start();
        let a = A::build(text);
        sink = consume(sink, &a, PROBE);
        proof {
            if let Some(x) = access_of(text@, PROBE as int) {
                lemma_add_mod_noop((k * x) as int, x as int, 256);
                lemma_small_mod(x as nat, 256);
                assert((k * x) as int + x as int == ((k + 1) * x) as int) by (nonlinear_arith);
            }
        }
        t.stop();
        k = k + 1;
    }
    (t.get(), sink)
}

/// The report record of `variant` for nanosecond timings `times` over
/// `runs` constructions of a sequence of length `n`.
pub fn summarize(variant: Variant, input: String, n: usize, runs: usize, times: (u64, u64, u64)) -> (r:
    BenchmarkResult)
    ensures
        r.variant == variant,
        r.input == input,
        r.n == n,
        r.log_n == floor_log2(n as nat),
        r.min_ms == times.0 / NANOS_PER_MILLI,
        r.max_ms == times.1 / NANOS_PER_MILLI,
        r.avg_ms == times.2 / NANOS_PER_MILLI,
        r.runs == runs,
{
    BenchmarkResult {
        variant,
        input,
        n,
        log_n: msb_of(n),
        min_ms: times.0 / NANOS_PER_MILLI,
        max_ms: times.1 / NANOS_PER_MILLI,
        avg_ms: times.2 / NANOS_PER_MILLI,
        runs,
    }
}

/// Whether `variant` can be built over `text`: the Huffman-shaped binary
/// tree needs more than one distinct symbol.
pub open spec fn variant_buildable(variant: Variant, text: Seq<u8>) -> bool {
    variant == Variant::Hwt ==> !single_symbol(text)
}

/// Times `runs` constructions of `A` over `text`, when `A` can be built
/// over it.
pub fn time_if_buildable<A: Indexed>(text: &Vec<u8>, runs: usize) -> (r: Option<((u64, u64, u64), u8)>)
    requires
        runs >= 1,
    ensures
        r is Some <==> A::buildable(text@),
        r matches Some(x) ==> x.0.0 <= x.0.2 <= x.0.1,
        r matches Some(x) ==> x.1 == sink_after(text@, runs as nat),
{
    if A::can_build(text) {
        Some(time_construction::<A>(text, runs))
    } else {
        None
    }
}

/// Times `runs` constructions of `variant` over `text` and returns its
/// report record with the sink value; `None` where the variant cannot be
/// built over `text`.
pub fn run_benchmark(variant: Variant, input: String, text: &Vec<u8>, runs: usize) -> (r: Option<(
    BenchmarkResult,
    u8,
)>)
    requires
        runs >= 1,
    ensures
        r is Some <==> variant_buildable(variant, text@),
        r matches Some(x) ==> x.0.variant == variant && x.0.input == input,
        r matches Some(x) ==> x.0.n == text@.len() && x.0.log_n == floor_log2(text@.len()),
        r matches Some(x) ==> x.0.runs == runs && x.0.min_ms <= x.0.avg_ms <= x.0.max_ms,
        r matches Some(x) ==> x.1 == sink_after(text@, runs as nat),
{
    let timed = match variant {
        Variant::Qwt256 => time_if_buildable::<Qwt256>(text, runs),
        Variant::Qwt256Pfs => time_if_buildable::<Qwt256Pfs>(text, runs),
        Variant::Qwt512 => time_if_buildable::<Qwt512>(text, runs),
        Variant::Qwt512Pfs => time_if_buildable::<Qwt512Pfs>(text, runs),
        Variant::Hqwt256 => time_if_buildable::<Hqwt256>(text, runs),
        Variant::Hqwt256Pfs => time_if_buildable::<Hqwt256Pfs>(text, runs),
        Variant::Hqwt512 => time_if_buildable::<Hqwt512>(text, runs),
        Variant::Hqwt512Pfs => time_if_buildable::<Hqwt512Pfs>(text, runs),
        Variant::Wt => time_if_buildable::<WT<u8>>(text, runs),
        Variant::Hwt => time_if_buildable::<HWT<u8>>(text, runs),
    };
    match timed {
        Some((times, sink)) => {
            assert(times.0 / NANOS_PER_MILLI <= times.2 / NANOS_PER_MILLI) by (nonlinear_arith)
                requires
                    times.0 <= times.2,
            ;
            assert(times.2 / NANOS_PER_MILLI <= times.1 / NANOS_PER_MILLI) by (nonlinear_arith)
                requires
                    times.2 <= times.1,
            ;
            Some((summarize(variant, input, text.len(), runs, times), sink))
        },
        None => None,
    }
}

} // verus!
