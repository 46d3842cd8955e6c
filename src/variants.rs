use vstd::prelude::*;

use crate::artifact::{access_of, Indexed};

verus! {

// Each quad wavelet tree of qwt is parameterized by a rank/select support
// type that qwt keeps in a private module, so the tree cannot be declared
// to Verus as it stands: each one is held in the private field of a struct
// that Verus treats as opaque.

/// A quad wavelet tree with 256-symbol blocks (qwt's `QWT256`) over bytes.
#[verifier::external_body]
pub struct Qwt256 {
    inner: qwt::QWT256<u8>,
}

/// What a `Qwt256` holds.
pub uninterp spec fn qwt256_symbols(w: Qwt256) -> Seq<u8>;

/// Relies on qwt's `From<Vec<T>>` for `QWT256`: the tree indexes the given
/// sequence.
#[verifier::external_body]
fn qwt256_from(text: &Vec<u8>) -> (r: Qwt256)
    ensures
        qwt256_symbols(r) == text@,
{
    Qwt256 { inner: qwt::QWT256::from(text.clone()) }
}

/// Relies on qwt's AccessUnsigned::get for `QWT256`: the symbol at `i`,
/// `None` when `i >= len`.
#[verifier::external_body]
fn qwt256_get(w: &Qwt256, i: usize) -> (r: Option<u8>)
    ensures
        r == access_of(qwt256_symbols(*w), i as int),
{
    qwt::AccessUnsigned::get(&w.inner, i)
}

impl Indexed for Qwt256 {
    open spec fn symbols(&self) -> Seq<u8> {
        qwt256_symbols(*self)
    }

    open spec fn wf(&self) -> bool {
        true
    }

    open spec fn buildable(text: Seq<u8>) -> bool {
        true
    }

    fn can_build(text: &Vec<u8>) -> (r: bool) {
        true
    }

    fn build(text: &Vec<u8>) -> (r: Self) {
        qwt256_from(text)
    }

    fn access(&self, i: usize) -> (r: Option<u8>) {
        qwt256_get(self, i)
    }
}

/// A quad wavelet tree with 256-symbol blocks and prefetching support (qwt's `QWT256Pfs`) over bytes.
#[verifier::external_body]
pub struct Qwt256Pfs {
    inner: qwt::QWT256Pfs<u8>,
}

/// What a `Qwt256Pfs` holds.
pub uninterp spec fn qwt256_pfs_symbols(w: Qwt256Pfs) -> Seq<u8>;

/// Relies on qwt's `From<Vec<T>>` for `QWT256Pfs`: the tree indexes the given
/// sequence.
#[verifier::external_body]
fn qwt256_pfs_from(text: &Vec<u8>) -> (r: Qwt256Pfs)
    ensures
        qwt256_pfs_symbols(r) == text@,
{
    Qwt256Pfs { inner: qwt::QWT256Pfs::from(text.clone()) }
}

/// Relies on qwt's AccessUnsigned::get for `QWT256Pfs`: the symbol at `i`,
/// `None` when `i >= len`.
#[verifier::external_body]
fn qwt256_pfs_get(w: &Qwt256Pfs, i: usize) -> (r: Option<u8>)
    ensures
        r == access_of(qwt256_pfs_symbols(*w), i as int),
{
    qwt::AccessUnsigned::get(&w.inner, i)
}

impl Indexed for Qwt256Pfs {
    open spec fn symbols(&self) -> Seq<u8> {
        qwt256_pfs_symbols(*self)
    }

    open spec fn wf(&self) -> bool {
        true
    }

    open spec fn buildable(text: Seq<u8>) -> bool {
        true
    }

    fn can_build(text: &Vec<u8>) -> (r: bool) {
        true
    }

    fn build(text: &Vec<u8>) -> (r: Self) {
        qwt256_pfs_from(text)
    }

    fn access(&self, i: usize) -> (r: Option<u8>) {
        qwt256_pfs_get(self, i)
    }
}

/// A quad wavelet tree with 512-symbol blocks (qwt's `QWT512`) over bytes.
#[verifier::external_body]
pub struct Qwt512 {
    inner: qwt::QWT512<u8>,
}

/// What a `Qwt512` holds.
pub uninterp spec fn qwt512_symbols(w: Qwt512) -> Seq<u8>;

/// Relies on qwt's `From<Vec<T>>` for `QWT512`: the tree indexes the given
/// sequence.
#[verifier::external_body]
fn qwt512_from(text: &Vec<u8>) -> (r: Qwt512)
    ensures
        qwt512_symbols(r) == text@,
{
    Qwt512 { inner: qwt::QWT512::from(text.clone()) }
}

/// Relies on qwt's AccessUnsigned::get for `QWT512`: the symbol at `i`,
/// `None` when `i >= len`.
#[verifier::external_body]
fn qwt512_get(w: &Qwt512, i: usize) -> (r: Option<u8>)
    ensures
        r == access_of(qwt512_symbols(*w), i as int),
{
    qwt::AccessUnsigned::get(&w.inner, i)
}

impl Indexed for Qwt512 {
    open spec fn symbols(&self) -> Seq<u8> {
        qwt512_symbols(*self)
    }

    open spec fn wf(&self) -> bool {
        true
    }

    open spec fn buildable(text: Seq<u8>) -> bool {
        true
    }

    fn can_build(text: &Vec<u8>) -> (r: bool) {
        true
    }

    fn build(text: &Vec<u8>) -> (r: Self) {
        qwt512_from(text)
    }

    fn access(&self, i: usize) -> (r: Option<u8>) {
        qwt512_get(self, i)
    }
}

/// A quad wavelet tree with 512-symbol blocks and prefetching support (qwt's `QWT512Pfs`) over bytes.
#[verifier::external_body]
pub struct Qwt512Pfs {
    inner: qwt::QWT512Pfs<u8>,
}

/// What a `Qwt512Pfs` holds.
pub uninterp spec fn qwt512_pfs_symbols(w: Qwt512Pfs) -> Seq<u8>;

/// Relies on qwt's `From<Vec<T>>` for `QWT512Pfs`: the tree indexes the given
/// sequence.
#[verifier::external_body]
fn qwt512_pfs_from(text: &Vec<u8>) -> (r: Qwt512Pfs)
    ensures
        qwt512_pfs_symbols(r) == text@,
{
    Qwt512Pfs { inner: qwt::QWT512Pfs::from(text.clone()) }
}

/// Relies on qwt's AccessUnsigned::get for `QWT512Pfs`: the symbol at `i`,
/// `None` when `i >= len`.
#[verifier::external_body]
fn qwt512_pfs_get(w: &Qwt512Pfs, i: usize) -> (r: Option<u8>)
    ensures
        r == access_of(qwt512_pfs_symbols(*w), i as int),
{
    qwt::AccessUnsigned::get(&w.inner, i)
}

impl Indexed for Qwt512Pfs {
    open spec fn symbols(&self) -> Seq<u8> {
        qwt512_pfs_symbols(*self)
    }

    open spec fn wf(&self) -> bool {
        true
    }

    open spec fn buildable(text: Seq<u8>) -> bool {
        true
    }

    fn can_build(text: &Vec<u8>) -> (r: bool) {
        true
    }

    fn build(text: &Vec<u8>) -> (r: Self) {
        qwt512_pfs_from(text)
    }

    fn access(&self, i: usize) -> (r: Option<u8>) {
        qwt512_pfs_get(self, i)
    }
}

/// A Huffman-shaped quad wavelet tree with 256-symbol blocks (qwt's `HQWT256`) over bytes.
#[verifier::external_body]
pub struct Hqwt256 {
    inner: qwt::HQWT256<u8>,
}

/// What a `Hqwt256` holds.
pub uninterp spec fn hqwt256_symbols(w: Hqwt256) -> Seq<u8>;

/// Relies on qwt's `From<Vec<T>>` for `HQWT256`: the tree indexes the given
/// sequence.
#[verifier::external_body]
fn hqwt256_from(text: &Vec<u8>) -> (r: Hqwt256)
    ensures
        hqwt256_symbols(r) == text@,
{
    Hqwt256 { inner: qwt::HQWT256::from(text.clone()) }
}

/// Relies on qwt's AccessUnsigned::get for `HQWT256`: the symbol at `i`,
/// `None` when `i >= len`.
#[verifier::external_body]
fn hqwt256_get(w: &Hqwt256, i: usize) -> (r: Option<u8>)
    ensures
        r == access_of(hqwt256_symbols(*w), i as int),
{
    qwt::AccessUnsigned::get(&w.inner, i)
}

impl Indexed for Hqwt256 {
    open spec fn symbols(&self) -> Seq<u8> {
        hqwt256_symbols(*self)
    }

    open spec fn wf(&self) -> bool {
        true
    }

    open spec fn buildable(text: Seq<u8>) -> bool {
        true
    }

    fn can_build(text: &Vec<u8>) -> (r: bool) {
        true
    }

    fn build(text: &Vec<u8>) -> (r: Self) {
        hqwt256_from(text)
    }

    fn access(&self, i: usize) -> (r: Option<u8>) {
        hqwt256_get(self, i)
    }
}

/// A Huffman-shaped quad wavelet tree with 256-symbol blocks and prefetching support (qwt's `HQWT256Pfs`) over bytes.
#[verifier::external_body]
pub struct Hqwt256Pfs {
    inner: qwt::HQWT256Pfs<u8>,
}

/// What a `Hqwt256Pfs` holds.
pub uninterp spec fn hqwt256_pfs_symbols(w: Hqwt256Pfs) -> Seq<u8>;

/// Relies on qwt's `From<Vec<T>>` for `HQWT256Pfs`: the tree indexes the given
/// sequence.
#[verifier::external_body]
fn hqwt256_pfs_from(text: &Vec<u8>) -> (r: Hqwt256Pfs)
    ensures
        hqwt256_pfs_symbols(r) == text@,
{
    Hqwt256Pfs { inner: qwt::HQWT256Pfs::from(text.clone()) }
}

/// Relies on qwt's AccessUnsigned::get for `HQWT256Pfs`: the symbol at `i`,
/// `None` when `i >= len`.
#[verifier::external_body]
fn hqwt256_pfs_get(w: &Hqwt256Pfs, i: usize) -> (r: Option<u8>)
    ensures
        r == access_of(hqwt256_pfs_symbols(*w), i as int),
{
    qwt::AccessUnsigned::get(&w.inner, i)
}

impl Indexed for Hqwt256Pfs {
    open spec fn symbols(&self) -> Seq<u8> {
        hqwt256_pfs_symbols(*self)
    }

    open spec fn wf(&self) -> bool {
        true
    }

    open spec fn buildable(text: Seq<u8>) -> bool {
        true
    }

    fn can_build(text: &Vec<u8>) -> (r: bool) {
        true
    }

    fn build(text: &Vec<u8>) -> (r: Self) {
        hqwt256_pfs_from(text)
    }

    fn access(&self, i: usize) -> (r: Option<u8>) {
        hqwt256_pfs_get(self, i)
    }
}

/// A Huffman-shaped quad wavelet tree with 512-symbol blocks (qwt's `HQWT512`) over bytes.
#[verifier::external_body]
pub struct Hqwt512 {
    inner: qwt::HQWT512<u8>,
}

/// What a `Hqwt512` holds.
pub uninterp spec fn hqwt512_symbols(w: Hqwt512) -> Seq<u8>;

/// Relies on qwt's `From<Vec<T>>` for `HQWT512`: the tree indexes the given
/// sequence.
#[verifier::external_body]
fn hqwt512_from(text: &Vec<u8>) -> (r: Hqwt512)
    ensures
        hqwt512_symbols(r) == text@,
{
    Hqwt512 { inner: qwt::HQWT512::from(text.clone()) }
}

/// Relies on qwt's AccessUnsigned::get for `HQWT512`: the symbol at `i`,
/// `None` when `i >= len`.
#[verifier::external_body]
fn hqwt512_get(w: &Hqwt512, i: usize) -> (r: Option<u8>)
    ensures
        r == access_of(hqwt512_symbols(*w), i as int),
{
    qwt::AccessUnsigned::get(&w.inner, i)
}

impl Indexed for Hqwt512 {
    open spec fn symbols(&self) -> Seq<u8> {
        hqwt512_symbols(*self)
    }

    open spec fn wf(&self) -> bool {
        true
    }

    open spec fn buildable(text: Seq<u8>) -> bool {
        true
    }

    fn can_build(text: &Vec<u8>) -> (r: bool) {
        true
    }

    fn build(text: &Vec<u8>) -> (r: Self) {
        hqwt512_from(text)
    }

    fn access(&self, i: usize) -> (r: Option<u8>) {
        hqwt512_get(self, i)
    }
}

/// A Huffman-shaped quad wavelet tree with 512-symbol blocks and prefetching support (qwt's `HQWT512Pfs`) over bytes.
#[verifier::external_body]
pub struct Hqwt512Pfs {
    inner: qwt::HQWT512Pfs<u8>,
}

/// What a `Hqwt512Pfs` holds.
pub uninterp spec fn hqwt512_pfs_symbols(w: Hqwt512Pfs) -> Seq<u8>;

/// Relies on qwt's `From<Vec<T>>` for `HQWT512Pfs`: the tree indexes the given
/// sequence.
#[verifier::external_body]
fn hqwt512_pfs_from(text: &Vec<u8>) -> (r: Hqwt512Pfs)
    ensures
        hqwt512_pfs_symbols(r) == text@,
{
    Hqwt512Pfs { inner: qwt::HQWT512Pfs::from(text.clone()) }
}

/// Relies on qwt's AccessUnsigned::get for `HQWT512Pfs`: the symbol at `i`,
/// `None` when `i >= len`.
#[verifier::external_body]
fn hqwt512_pfs_get(w: &Hqwt512Pfs, i: usize) -> (r: Option<u8>)
    ensures
        r == access_of(hqwt512_pfs_symbols(*w), i as int),
{
    qwt::AccessUnsigned::get(&w.inner, i)
}

impl Indexed for Hqwt512Pfs {
    open spec fn symbols(&self) -> Seq<u8> {
        hqwt512_pfs_symbols(*self)
    }

    open spec fn wf(&self) -> bool {
        true
    }

    open spec fn buildable(text: Seq<u8>) -> bool {
        true
    }

    fn can_build(text: &Vec<u8>) -> (r: bool) {
        true
    }

    fn build(text: &Vec<u8>) -> (r: Self) {
        hqwt512_pfs_from(text)
    }

    fn access(&self, i: usize) -> (r: Option<u8>) {
        hqwt512_pfs_get(self, i)
    }
}

} // verus!
