use vstd::prelude::*;

use crate::artifact::{access_of, Artifact, CodecError};
use crate::driver::NANOS_PER_MILLI;
use crate::timing::TimingQueries;

verus! {

/// Why the cache could not hand out an artifact.
#[derive(Clone, Copy, Debug, PartialEq, Eq)]
pub enum CacheError {
    /// The cached bytes are not an encoding of the artifact type.
    Deserialization,
    /// The artifact type cannot be built over the text.
    Construction,
}

/// What the cache hands back: the artifact and, when it was built here,
/// the bytes that the caller stores and the construction time.
pub struct Loaded<A> {
    pub artifact: A,
    /// Whether the artifact was constructed (rather than decoded).
    pub built: bool,
    /// The measured construction time in nanoseconds, when it was built.
    pub construction_ns: Option<u64>,
    /// The construction time in whole milliseconds, when it was built.
    pub construction_ms: Option<u64>,
    /// The bytes to store at the cache path, when it was built.
    pub to_write: Option<Vec<u8>>,
}

/// Whether cached bytes can be trusted as they are: they either do not
/// decode at all or are what this library wrote for an artifact. Nothing
/// ties them to the text they were built from; the caller keeps one path
/// per input and variant.
pub open spec fn cache_trusted<A: Artifact>(bytes: Seq<u8>) -> bool {
    A::decoded(bytes) is None || A::written(bytes)
}

/// Returns the artifact for `text`. When the cache path held `cached`, the
/// artifact is decoded from it and nothing is built, whatever `text` holds.
/// Otherwise the artifact is built once, timed, and encoded for the caller
/// to store.
pub fn load_or_build_and_save_qwt<A: Artifact>(cached: Option<Vec<u8>>, text: &Vec<u8>) -> (r:
    Result<Loaded<A>, CacheError>)
    requires
        cached matches Some(b) ==> cache_trusted::<A>(b@),
    ensures
        r matches Ok(o) ==> o.artifact.wf(),
        cached matches Some(b) ==> (r is Ok <==> A::decoded(b@) is Some),
        cached matches Some(b) ==> (r matches Ok(o) ==> (Some(o.artifact.symbols()) == A::decoded(
            b@,
        ) && !o.built && o.construction_ns is None && o.construction_ms is None
            && o.to_write is None)),
        cached matches Some(b) ==> (r matches Err(e) ==> e == CacheError::Deserialization),
        cached is None ==> (r is Ok <==> A::buildable(text@)),
        cached is None ==> (r matches Ok(o) ==> o.artifact.symbols() == text@ && o.built),
        cached is None ==> (r matches Ok(o) ==> (o.construction_ns matches Some(ns)
            && o.construction_ms == Some(ns / NANOS_PER_MILLI))),
        cached is None ==> (r matches Ok(o) ==> (o.to_write matches Some(w) && A::decoded(w@)
            == Some(text@) && A::written(w@))),
        cached is None ==> (r matches Err(e) ==> e == CacheError::Construction),
{
    match cached {
        Some(bytes) => {
            match A::decode(&bytes) {
                Ok(a) => Ok(
                    Loaded {
                        artifact: a,
                        built: false,
                        construction_ns: None,
                        construction_ms: None,
                        to_write: None,
                    },
                ),
                Err(_) => Err(CacheError::Deserialization),
            }
        },
        None => {
            if !A::can_build(text) {
                return Err(CacheError::Construction);
            }
            let mut t = TimingQueries::new(1, 0);
            t.start();
            let a = A::build(text);
            t.stop();
            let (t_min, _, _) = t.get();
            let b = a.encode();
            Ok(
                Loaded {
                    artifact: a,
                    built: true,
                    construction_ns: Some(t_min),
                    construction_ms: Some(t_min / NANOS_PER_MILLI),
                    to_write: Some(b),
                },
            )
        },
    }
}

/// Encodes `a` and decodes the bytes again. The artifact that comes back
/// is consistent and represents the same sequence.
pub fn reload<A: Artifact>(a: &A) -> (r: Result<A, CodecError>)
    requires
        a.wf(),
    ensures
        r is Ok,
        r matches Ok(b) ==> b.wf() && b.symbols() == a.symbols(),
{
    let bytes = a.encode();
    A::decode(&bytes)
}

/// Serialization round trip: an artifact decoded from the bytes that
/// encode another answers every `access` query as the original does.
pub proof fn lemma_round_trip<A: Artifact>(original: A, bytes: Seq<u8>, restored: A)
    requires
        A::decoded(bytes) == Some(original.symbols()),
        A::decoded(bytes) == Some(restored.symbols()),
    ensures
        forall|i: int| #[trigger]
            access_of(restored.symbols(), i) == access_of(original.symbols(), i),
{
}

} // verus!
