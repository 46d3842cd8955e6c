use vstd::prelude::*;

verus! {

/// The number of distinct symbols of `s` that are smaller than `c`: the
/// code of `c` in the dense alphabet of `s`.
pub open spec fn dense_code(s: Seq<u8>, c: u8) -> nat {
    s.to_set().filter(|x: u8| x < c).len()
}

/// Relies on qwt::utils::text_remap: it replaces each symbol by the number
/// of distinct symbols of the input below it, and returns the number of
/// distinct symbols.
#[verifier::external_body]
fn text_remap_of(text: &mut Vec<u8>) -> (r: usize)
    ensures
        final(text)@.len() == old(text)@.len(),
        forall|i: int|
            0 <= i < old(text)@.len() ==> #[trigger] final(text)@[i] == dense_code(old(text)@, old(text)@[i]),
        r == old(text)@.to_set().len(),
{
    qwt::utils::text_remap(text)
}

/// Maps the symbols of `text` onto the dense alphabet `0..sigma`, keeping
/// their relative order, and returns `sigma`, the number of distinct
/// symbols.
pub fn remap_text(text: &mut Vec<u8>) -> (sigma: usize)
    ensures
        final(text)@.len() == old(text)@.len(),
        forall|i: int|
            0 <= i < old(text)@.len() ==> #[trigger] final(text)@[i] == dense_code(old(text)@, old(text)@[i]),
        sigma == old(text)@.to_set().len(),
{
    text_remap_of(text)
}

} // verus!
