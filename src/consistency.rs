use vstd::prelude::*;

use crate::artifact::{rank_of, Artifact};
use crate::cache::{cache_trusted, load_or_build_and_save_qwt, CacheError, Loaded};

verus! {

/// Whether two sequences give the same `rank(text[i], i)` at every position
/// of `text`.
pub open spec fn ranks_agree(x: Seq<u8>, y: Seq<u8>, text: Seq<u8>) -> bool {
    forall|i: int|
        0 <= i < text.len() ==> #[trigger] rank_of(x, text[i], i) == rank_of(y, text[i], i)
}

/// Whether `rank(text[i], i)` is the same on `x` and `y` at every position
/// `i < k` of `text`.
pub open spec fn ranks_agree_below(x: Seq<u8>, y: Seq<u8>, text: Seq<u8>, k: int) -> bool {
    forall|i: int| 0 <= i < k ==> #[trigger] rank_of(x, text[i], i) == rank_of(y, text[i], i)
}

/// Whether both sequences reach position `i`, hold `text[i]`, and give
/// the same `rank(text[i], i)`: what two artifacts answering alike there
/// show.
pub open spec fn rank_answered_alike(x: Seq<u8>, y: Seq<u8>, text: Seq<u8>, i: int) -> bool {
    &&& i <= x.len()
    &&& i <= y.len()
    &&& x.contains(text[i])
    &&& y.contains(text[i])
    &&& rank_of(x, text[i], i) == rank_of(y, text[i], i)
}

/// Compares `a.rank(text[i], i)` with `b.rank(text[i], i)` for every
/// position `i` of `text`, and returns the first position where they
/// differ or where one of them has no answer. Two artifacts built over
/// `text` agree everywhere.
pub fn check_rank_consistency<A: Artifact, B: Artifact>(a: &A, b: &B, text: &Vec<u8>) -> (r:
    Result<(), usize>)
    requires
        a.wf(),
        b.wf(),
    ensures
        a.symbols() == text@ && b.symbols() == text@ ==> r is Ok,
        r is Ok ==> ranks_agree(a.symbols(), b.symbols(), text@),
        r matches Err(i) ==> i < text@.len() && ranks_agree_below(
            a.symbols(),
            b.symbols(),
            text@,
            i as int,
        ),
        r matches Err(i) ==> !rank_answered_alike(a.symbols(), b.symbols(), text@, i as int),
{
    let n = text.len();
    if n == 0 {
        return Ok(());
    }
    if a.access(0).is_none() || b.access(0).is_none() {
        return Err(0);
    }
    let mut i: usize = 0;
    while i < n
        invariant
            n == text@.len(),
            a.wf(),
            b.wf(),
            a.symbols().len() > 0,
            b.symbols().len() > 0,
            i <= n,
            ranks_agree_below(a.symbols(), b.symbols(), text@, i as int),
        decreases n - i,
    {
        let s = text[i];
        proof {
            if a.symbols() == text@ {
                assert(a.symbols()[i as int] == s);
            }
            if b.symbols() == text@ {
                assert(b.symbols()[i as int] == s);
            }
        }
        let r1 = a.rank(s, i);
        let r2 = b.rank(s, i);
        match (r1, r2) {
            (Some(c1), Some(c2)) => {
                if c1 != c2 {
                    return Err(i);
                }
            },
            _ => {
                return Err(i);
            },
        }
        i = i + 1;
    }
    Ok(())
}

/// Two artifacts handed out by the cache for one text, with the outcome of
/// checking their ranks against each other.
pub struct Compared<A, B> {
    pub first: Loaded<A>,
    pub second: Loaded<B>,
    pub check: Result<(), usize>,
}

/// Whether a cache entry stands for `text`: the path was empty, or it holds
/// bytes that decode to `text`.
pub open spec fn cached_for<A: Artifact>(cached: Option<Vec<u8>>, text: Seq<u8>) -> bool {
    match cached {
        Some(b) => A::decoded(b@) == Some(text),
        None => true,
    }
}

/// Loads or builds both artifacts for `text` through the cache, then checks
/// that they answer `rank(text[i], i)` alike at every position. Where both
/// cache entries stand for `text` and both types can be built over it, the
/// loads succeed and the check passes.
pub fn compare_cached<A: Artifact, B: Artifact>(
    cached_first: Option<Vec<u8>>,
    cached_second: Option<Vec<u8>>,
    text: &Vec<u8>,
) -> (r: Result<Compared<A, B>, CacheError>)
    requires
        cached_first matches Some(b) ==> cache_trusted::<A>(b@),
        cached_second matches Some(b) ==> cache_trusted::<B>(b@),
    ensures
        r matches Ok(c) ==> (c.check is Ok ==> ranks_agree(
            c.first.artifact.symbols(),
            c.second.artifact.symbols(),
            text@,
        )),
        cached_for::<A>(cached_first, text@) && cached_for::<B>(cached_second, text@) && (
        cached_first is None ==> A::buildable(text@)) && (cached_second is None
            ==> B::buildable(text@)) ==> (r matches Ok(c) && c.check is Ok && c.first.artifact.symbols()
            == text@ && c.second.artifact.symbols() == text@),
{
    let first = match load_or_build_and_save_qwt::<A>(cached_first, text) {
        Ok(l) => l,
        Err(e) => {
            return Err(e);
        },
    };
    let second = match load_or_build_and_save_qwt::<B>(cached_second, text) {
        Ok(l) => l,
        Err(e) => {
            return Err(e);
        },
    };
    let check = check_rank_consistency(&first.artifact, &second.artifact, text);
    Ok(Compared { first, second, check })
}

} // verus!
