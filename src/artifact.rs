use vstd::prelude::*;

use qwt::{AccessUnsigned, RankUnsigned, HWT, WT};

verus! {

#[verifier::external_type_specification]
#[verifier::external_body]
#[verifier::reject_recursive_types(T)]
#[verifier::reject_recursive_types(BRS)]
pub struct ExWaveletTree<T, BRS, const COMPRESSED: bool>(qwt::WaveletTree<T, BRS, COMPRESSED>);

#[verifier::external_type_specification]
#[verifier::external_body]
pub struct ExRSWide(qwt::RSWide);

#[verifier::external_type_specification]
#[verifier::external_body]
pub struct ExBincodeErrorKind(bincode::ErrorKind);

/// The number of occurrences of `x` in `s`.
pub open spec fn count_of(s: Seq<u8>, x: u8) -> nat
    decreases s.len(),
{
    if s.len() == 0 {
        0
    } else {
        count_of(s.drop_last(), x) + if s.last() == x {
            1nat
        } else {
            0nat
        }
    }
}

/// `rank(x, i)`: the occurrences of `x` among the positions `[0, i)` of `s`.
pub open spec fn rank_of(s: Seq<u8>, x: u8, i: int) -> nat {
    count_of(s.take(i), x)
}

/// `access(i)`: the symbol at position `i` of `s`, if there is one.
pub open spec fn access_of(s: Seq<u8>, i: int) -> Option<u8> {
    if 0 <= i < s.len() {
        Some(s[i])
    } else {
        None
    }
}

/// Whether `s` is non-empty and holds one distinct symbol only.
pub open spec fn single_symbol(s: Seq<u8>) -> bool {
    s.len() > 0 && forall|i: int| 0 <= i < s.len() ==> #[trigger] s[i] == s[0]
}

/// Tells whether `text` is non-empty and holds one distinct symbol only.
pub fn has_single_symbol(text: &Vec<u8>) -> (r: bool)
    ensures
        r == single_symbol(text@),
{
    if text.len() == 0 {
        return false;
    }
    let first = text[0];
    let mut i: usize = 1;
    while i < text.len()
        invariant
            1 <= i <= text@.len(),
            first == text@[0],
            forall|j: int| 0 <= j < i ==> #[trigger] text@[j] == first,
        decreases text@.len() - i,
    {
        if text[i] != first {
            return false;
        }
        i = i + 1;
    }
    true
}

/// Why bytes could not be turned into an artifact.
#[derive(Clone, Copy, Debug, PartialEq, Eq)]
pub enum CodecError {
    /// The bytes are not an encoding of the artifact type.
    Decode,
}

/// An immutable index over a symbol sequence that answers `access`.
pub trait Indexed: Sized {
    /// The sequence that the index represents.
    spec fn symbols(&self) -> Seq<u8>;

    /// Whether the index is consistent, so that its queries answer as
    /// `symbols` says.
    spec fn wf(&self) -> bool;

    /// Whether the index can be built over `text`.
    spec fn buildable(text: Seq<u8>) -> bool;

    /// Tells whether the index can be built over `text`.
    fn can_build(text: &Vec<u8>) -> (r: bool)
        ensures
            r == Self::buildable(text@),
    ;

    /// Builds the index over `text`.
    fn build(text: &Vec<u8>) -> (r: Self)
        requires
            Self::buildable(text@),
        ensures
            r.wf(),
            r.symbols() == text@,
    ;

    /// The symbol at position `i`, or `None` past the end.
    fn access(&self, i: usize) -> (r: Option<u8>)
        requires
            self.wf(),
        ensures
            r == access_of(self.symbols(), i as int),
    ;
}

/// An index that also answers `rank` queries and converts to bytes and back
/// without loss.
pub trait Artifact: Indexed {
    /// The symbols of the artifact that `bytes` decode to, if they decode.
    spec fn decoded(bytes: Seq<u8>) -> Option<Seq<u8>>;

    /// Whether `bytes` are what `encode` gives for a consistent artifact.
    spec fn written(bytes: Seq<u8>) -> bool;

    /// The occurrences of `symbol` before position `i`. `None` past the end,
    /// and possibly for a symbol that the sequence does not hold.
    fn rank(&self, symbol: u8, i: usize) -> (r: Option<usize>)
        requires
            self.wf(),
            self.symbols().len() > 0,
        ensures
            r matches Some(c) ==> i <= self.symbols().len() && c == rank_of(
                self.symbols(),
                symbol,
                i as int,
            ),
            i <= self.symbols().len() && self.symbols().contains(symbol) ==> r is Some,
    ;

    /// The artifact as bytes.
    fn encode(&self) -> (r: Vec<u8>)
        ensures
            Self::decoded(r@) == Some(self.symbols()),
            self.wf() ==> Self::written(r@),
    ;

    /// The artifact that `bytes` hold.
    fn decode(bytes: &Vec<u8>) -> (r: Result<Self, CodecError>)
        ensures
            r matches Ok(a) ==> Self::decoded(bytes@) == Some(a.symbols()),
            r is Err ==> Self::decoded(bytes@) is None,
            Self::written(bytes@) ==> r is Ok,
            r matches Ok(a) ==> (Self::written(bytes@) ==> a.wf()),
    ;
}

/// What a plain wavelet tree holds.
pub uninterp spec fn wt_symbols(w: WT<u8>) -> Seq<u8>;

/// Whether a plain wavelet tree is consistent: its level vectors, lengths and symbol
/// tables agree, as construction leaves them.
pub uninterp spec fn wt_wf(w: WT<u8>) -> bool;

/// The symbols of the plain wavelet tree that bincode decodes from `b`.
pub uninterp spec fn wt_decoded(b: Seq<u8>) -> Option<Seq<u8>>;

/// Whether `b` is what bincode writes for a consistent plain wavelet tree.
pub uninterp spec fn wt_written(b: Seq<u8>) -> bool;

/// Relies on qwt's `From<Vec<T>>` for WaveletTree: the tree indexes the
/// given sequence.
#[verifier::external_body]
fn wt_from(text: &Vec<u8>) -> (r: WT<u8>)
    ensures
        wt_wf(r),
        wt_symbols(r) == text@,
{
    WT::from(text.clone())
}

/// Relies on qwt's AccessUnsigned::get for WaveletTree: on a consistent
/// tree, the symbol at `i`, `None` when `i >= len`.
#[verifier::external_body]
fn wt_get(w: &WT<u8>, i: usize) -> (r: Option<u8>)
    requires
        wt_wf(*w),
    ensures
        r == access_of(wt_symbols(*w), i as int),
{
    w.get(i)
}

/// Relies on qwt's RankUnsigned::rank for WaveletTree: on a consistent,
/// non-empty tree, `None` when
/// `i > len` or the symbol exceeds the largest one held, else the count of
/// the symbol in `[0, i)`.
#[verifier::external_body]
fn wt_rank(w: &WT<u8>, symbol: u8, i: usize) -> (r: Option<usize>)
    requires
        wt_wf(*w),
        wt_symbols(*w).len() > 0,
    ensures
        r matches Some(c) ==> i <= wt_symbols(*w).len() && c == rank_of(
            wt_symbols(*w),
            symbol,
            i as int,
        ),
        i <= wt_symbols(*w).len() && wt_symbols(*w).contains(symbol) ==> r is Some,
{
    RankUnsigned::rank(w, symbol, i)
}

/// Relies on bincode::serialize with its default options (no size limit)
/// and qwt's derived Serialize, whose fields all have known lengths: it
/// succeeds, and the bytes decode to a tree with the same symbols.
#[verifier::external_body]
fn wt_serialize(w: &WT<u8>) -> (r: Result<Vec<u8>, Box<bincode::ErrorKind>>)
    ensures
        r is Ok,
        r matches Ok(b) ==> wt_decoded(b@) == Some(wt_symbols(*w)),
        r matches Ok(b) ==> (wt_wf(*w) ==> wt_written(b@)),
{
    bincode::serialize(w)
}

/// Relies on bincode::deserialize and qwt's derived Deserialize: bytes
/// that bincode wrote for a consistent tree give that tree back.
#[verifier::external_body]
fn wt_deserialize(b: &Vec<u8>) -> (r: Result<WT<u8>, Box<bincode::ErrorKind>>)
    ensures
        r matches Ok(w) ==> wt_decoded(b@) == Some(wt_symbols(w)),
        r is Err ==> wt_decoded(b@) is None,
        wt_written(b@) ==> r is Ok,
        r matches Ok(w) ==> (wt_written(b@) ==> wt_wf(w)),
{
    bincode::deserialize::<WT<u8>>(b)
}

/// What a Huffman-shaped wavelet tree holds.
pub uninterp spec fn hwt_symbols(w: HWT<u8>) -> Seq<u8>;

/// Whether a Huffman-shaped wavelet tree is consistent: its level vectors, lengths and symbol
/// tables agree, as construction leaves them.
pub uninterp spec fn hwt_wf(w: HWT<u8>) -> bool;

/// The symbols of the Huffman-shaped wavelet tree that bincode decodes from `b`.
pub uninterp spec fn hwt_decoded(b: Seq<u8>) -> Option<Seq<u8>>;

/// Whether `b` is what bincode writes for a consistent Huffman-shaped wavelet tree.
pub uninterp spec fn hwt_written(b: Seq<u8>) -> bool;

/// Relies on qwt's `From<Vec<T>>` for the Huffman-shaped WaveletTree: the
/// tree indexes the given sequence. Codes are laid out in a buffer with one
/// slot per distinct symbol; a single distinct symbol gets a one-bit code
/// whose layout writes past that buffer and panics, so such a sequence is
/// left out.
#[verifier::external_body]
fn hwt_from(text: &Vec<u8>) -> (r: HWT<u8>)
    requires
        !single_symbol(text@),
    ensures
        hwt_wf(r),
        hwt_symbols(r) == text@,
{
    HWT::from(text.clone())
}

/// Relies on qwt's AccessUnsigned::get for the Huffman-shaped WaveletTree:
/// on a consistent tree, the symbol at `i`, `None` when `i >= len`.
#[verifier::external_body]
fn hwt_get(w: &HWT<u8>, i: usize) -> (r: Option<u8>)
    requires
        hwt_wf(*w),
    ensures
        r == access_of(hwt_symbols(*w), i as int),
{
    w.get(i)
}

/// Relies on qwt's RankUnsigned::rank for the Huffman-shaped WaveletTree:
/// on a consistent, non-empty tree, `None` when
/// `i > len` or the symbol has no code, else the count of the symbol in
/// `[0, i)`.
#[verifier::external_body]
fn hwt_rank(w: &HWT<u8>, symbol: u8, i: usize) -> (r: Option<usize>)
    requires
        hwt_wf(*w),
        hwt_symbols(*w).len() > 0,
    ensures
        r matches Some(c) ==> i <= hwt_symbols(*w).len() && c == rank_of(
            hwt_symbols(*w),
            symbol,
            i as int,
        ),
        i <= hwt_symbols(*w).len() && hwt_symbols(*w).contains(symbol) ==> r is Some,
{
    RankUnsigned::rank(w, symbol, i)
}

/// Relies on bincode::serialize with its default options (no size limit)
/// and qwt's derived Serialize, whose fields all have known lengths: it
/// succeeds, and the bytes decode to a tree with the same symbols.
#[verifier::external_body]
fn hwt_serialize(w: &HWT<u8>) -> (r: Result<Vec<u8>, Box<bincode::ErrorKind>>)
    ensures
        r is Ok,
        r matches Ok(b) ==> hwt_decoded(b@) == Some(hwt_symbols(*w)),
        r matches Ok(b) ==> (hwt_wf(*w) ==> hwt_written(b@)),
{
    bincode::serialize(w)
}

/// Relies on bincode::deserialize and qwt's derived Deserialize: bytes
/// that bincode wrote for a consistent tree give that tree back.
#[verifier::external_body]
fn hwt_deserialize(b: &Vec<u8>) -> (r: Result<HWT<u8>, Box<bincode::ErrorKind>>)
    ensures
        r matches Ok(w) ==> hwt_decoded(b@) == Some(hwt_symbols(w)),
        r is Err ==> hwt_decoded(b@) is None,
        hwt_written(b@) ==> r is Ok,
        r matches Ok(w) ==> (hwt_written(b@) ==> hwt_wf(w)),
{
    bincode::deserialize::<HWT<u8>>(b)
}

impl Indexed for WT<u8> {
    open spec fn symbols(&self) -> Seq<u8> {
        wt_symbols(*self)
    }

    open spec fn wf(&self) -> bool {
        wt_wf(*self)
    }

    open spec fn buildable(text: Seq<u8>) -> bool {
        true
    }

    fn can_build(text: &Vec<u8>) -> (r: bool) {
        true
    }

    fn build(text: &Vec<u8>) -> (r: Self) {
        wt_from(text)
    }

    fn access(&self, i: usize) -> (r: Option<u8>) {
        wt_get(self, i)
    }
}

impl Artifact for WT<u8> {
    open spec fn decoded(bytes: Seq<u8>) -> Option<Seq<u8>> {
        wt_decoded(bytes)
    }

    open spec fn written(bytes: Seq<u8>) -> bool {
        wt_written(bytes)
    }

    fn rank(&self, symbol: u8, i: usize) -> (r: Option<usize>) {
        wt_rank(self, symbol, i)
    }

    fn encode(&self) -> (r: Vec<u8>) {
        match wt_serialize(self) {
            Ok(b) => b,
            Err(_) => Vec::new(),
        }
    }

    fn decode(bytes: &Vec<u8>) -> (r: Result<Self, CodecError>) {
        match wt_deserialize(bytes) {
            Ok(w) => Ok(w),
            Err(_) => Err(CodecError::Decode),
        }
    }
}

impl Indexed for HWT<u8> {
    open spec fn symbols(&self) -> Seq<u8> {
        hwt_symbols(*self)
    }

    open spec fn wf(&self) -> bool {
        hwt_wf(*self)
    }

    open spec fn buildable(text: Seq<u8>) -> bool {
        !single_symbol(text)
    }

    fn can_build(text: &Vec<u8>) -> (r: bool) {
        !has_single_symbol(text)
    }

    fn build(text: &Vec<u8>) -> (r: Self) {
        hwt_from(text)
    }

    fn access(&self, i: usize) -> (r: Option<u8>) {
        hwt_get(self, i)
    }
}

impl Artifact for HWT<u8> {
    open spec fn decoded(bytes: Seq<u8>) -> Option<Seq<u8>> {
        hwt_decoded(bytes)
    }

    open spec fn written(bytes: Seq<u8>) -> bool {
        hwt_written(bytes)
    }

    fn rank(&self, symbol: u8, i: usize) -> (r: Option<usize>) {
        hwt_rank(self, symbol, i)
    }

    fn encode(&self) -> (r: Vec<u8>) {
        match hwt_serialize(self) {
            Ok(b) => b,
            Err(_) => Vec::new(),
        }
    }

    fn decode(bytes: &Vec<u8>) -> (r: Result<Self, CodecError>) {
        match hwt_deserialize(bytes) {
            Ok(w) => Ok(w),
            Err(_) => Err(CodecError::Decode),
        }
    }
}

} // verus!
