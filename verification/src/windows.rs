//! Window function library: stateless generators of tapering coefficient
//! vectors, selected by name.
//!
//! Each coefficient is carried as the raw bit pattern of an IEEE 754
//! double-precision value.  The rectangular window is generated here and is
//! exactly the all-ones vector; the shaped windows come from the `apodize`
//! crate and their values are named, not restated.

use vstd::prelude::*;
use vstd::string::StringSliceAdditionalSpecFns;

use crate::Error;

verus! {

/// Bit pattern of the double-precision value one, the weight that leaves a
/// sample untouched.
pub const UNIT_COEFF: u64 = 0x3FF0_0000_0000_0000;

/// The closed set of window shapes the library knows by name.
#[derive(Clone, Copy, Debug, PartialEq, Eq, Structural)]
pub enum WindowKind {
    Rectangular,
    Blackman,
    Hamming,
    Hanning,
    Nuttall,
    Sine,
    Triangular,
}

/// Coefficients of the Blackman window of the given size, as produced by
/// `apodize::blackman_iter`.
pub uninterp spec fn blackman_bits(size: int) -> Seq<u64>;

/// Coefficients of the Hamming window of the given size, as produced by
/// `apodize::hamming_iter`.
pub uninterp spec fn hamming_bits(size: int) -> Seq<u64>;

/// Coefficients of the Hann window of the given size, as produced by
/// `apodize::hanning_iter`.
pub uninterp spec fn hanning_bits(size: int) -> Seq<u64>;

/// Coefficients of the Nuttall window of the given size, as produced by
/// `apodize::nuttall_iter`.
pub uninterp spec fn nuttall_bits(size: int) -> Seq<u64>;

/// Coefficients of the triangular window of the given size, as produced by
/// `apodize::triangular_iter`.
pub uninterp spec fn triangular_bits(size: int) -> Seq<u64>;

/// Coefficients of the half-sine window of the given size.
pub uninterp spec fn sine_bits(size: int) -> Seq<u64>;

/// Relies on `apodize::blackman_iter`: yields exactly `size` values, a
/// function of `size` alone; panics unless `size > 1`.
#[verifier::external_body]
fn blackman_raw(size: usize) -> (r: Vec<u64>)
    requires
        size >= 2,
    ensures
        r@ == blackman_bits(size as int),
        r@.len() == size,
{
    apodize::blackman_iter(size).map(|c| c.to_bits()).collect()
}

/// Relies on `apodize::hamming_iter`: yields exactly `size` values, a
/// function of `size` alone; panics unless `size > 1`.
#[verifier::external_body]
fn hamming_raw(size: usize) -> (r: Vec<u64>)
    requires
        size >= 2,
    ensures
        r@ == hamming_bits(size as int),
        r@.len() == size,
{
    apodize::hamming_iter(size).map(|c| c.to_bits()).collect()
}

/// Relies on `apodize::hanning_iter`: yields exactly `size` values, a
/// function of `size` alone; panics unless `size > 1`.
#[verifier::external_body]
fn hanning_raw(size: usize) -> (r: Vec<u64>)
    requires
        size >= 2,
    ensures
        r@ == hanning_bits(size as int),
        r@.len() == size,
{
    apodize::hanning_iter(size).map(|c| c.to_bits()).collect()
}

/// Relies on `apodize::nuttall_iter`: yields exactly `size` values, a
/// function of `size` alone; panics unless `size > 1`.
#[verifier::external_body]
fn nuttall_raw(size: usize) -> (r: Vec<u64>)
    requires
        size >= 2,
    ensures
        r@ == nuttall_bits(size as int),
        r@.len() == size,
{
    apodize::nuttall_iter(size).map(|c| c.to_bits()).collect()
}

/// Relies on `apodize::triangular_iter`: yields exactly `size` values, a
/// function of `size` alone; panics unless `size > 0`.
#[verifier::external_body]
fn triangular_raw(size: usize) -> (r: Vec<u64>)
    requires
        size >= 1,
    ensures
        r@ == triangular_bits(size as int),
        r@.len() == size,
{
    apodize::triangular_iter(size).map(|c| c.to_bits()).collect()
}

/// Relies on `apodize::hanning_iter`: the half-sine window is the pointwise
/// square root of the Hann window, since the Hann coefficient at index `i`
/// is `sin(pi i / (size - 1))` squared and the sine is nonnegative over
/// that range.  Yields exactly `size` values, a function of `size` alone;
/// panics unless `size > 1`.
#[verifier::external_body]
fn sine_raw(size: usize) -> (r: Vec<u64>)
    requires
        size >= 2,
    ensures
        r@ == sine_bits(size as int),
        r@.len() == size,
{
    apodize::hanning_iter(size).map(|c| c.sqrt().to_bits()).collect()
}

/// The coefficient vector of a window shape at a given size.  A shaped
/// window of size one degenerates to the single weight one.
pub open spec fn coeffs_of(kind: WindowKind, size: int) -> Seq<u64> {
    if size == 1 && kind != WindowKind::Triangular {
        seq![UNIT_COEFF]
    } else {
        match kind {
            WindowKind::Rectangular => Seq::new(size as nat, |i: int| UNIT_COEFF),
            WindowKind::Blackman => blackman_bits(size),
            WindowKind::Hamming => hamming_bits(size),
            WindowKind::Hanning => hanning_bits(size),
            WindowKind::Nuttall => nuttall_bits(size),
            WindowKind::Sine => sine_bits(size),
            WindowKind::Triangular => triangular_bits(size),
        }
    }
}

/// Rectangular window: every coefficient is the weight one.
pub fn none(size: usize) -> (r: Vec<u64>)
    requires
        size >= 1,
    ensures
        r@ == coeffs_of(WindowKind::Rectangular, size as int),
        r@.len() == size,
        forall|i: int| 0 <= i < size ==> r@[i] == UNIT_COEFF,
{
    let mut r: Vec<u64> = Vec::new();
    while r.len() < size
        invariant
            r@.len() <= size,
            forall|i: int| 0 <= i < r@.len() ==> r@[i] == UNIT_COEFF,
        decreases size - r@.len(),
    {
        r.push(UNIT_COEFF);
    }
    proof {
        assert(r@ =~= coeffs_of(WindowKind::Rectangular, size as int));
    }
    r
}

/// Blackman window.
pub fn blackman(size: usize) -> (r: Vec<u64>)
    requires
        size >= 1,
    ensures
        r@ == coeffs_of(WindowKind::Blackman, size as int),
        r@.len() == size,
{
    if size == 1 {
        one_coeff()
    } else {
        blackman_raw(size)
    }
}

/// Hamming window.
pub fn hamming(size: usize) -> (r: Vec<u64>)
    requires
        size >= 1,
    ensures
        r@ == coeffs_of(WindowKind::Hamming, size as int),
        r@.len() == size,
{
    if size == 1 {
        one_coeff()
    } else {
        hamming_raw(size)
    }
}

/// Hann window.
pub fn hanning(size: usize) -> (r: Vec<u64>)
    requires
        size >= 1,
    ensures
        r@ == coeffs_of(WindowKind::Hanning, size as int),
        r@.len() == size,
{
    if size == 1 {
        one_coeff()
    } else {
        hanning_raw(size)
    }
}

/// Nuttall window.
pub fn nuttall(size: usize) -> (r: Vec<u64>)
    requires
        size >= 1,
    ensures
        r@ == coeffs_of(WindowKind::Nuttall, size as int),
        r@.len() == size,
{
    if size == 1 {
        one_coeff()
    } else {
        nuttall_raw(size)
    }
}

/// Half-sine window.
pub fn sine(size: usize) -> (r: Vec<u64>)
    requires
        size >= 1,
    ensures
        r@ == coeffs_of(WindowKind::Sine, size as int),
        r@.len() == size,
{
    if size == 1 {
        one_coeff()
    } else {
        sine_raw(size)
    }
}

/// Triangular window.
pub fn triangular(size: usize) -> (r: Vec<u64>)
    requires
        size >= 1,
    ensures
        r@ == coeffs_of(WindowKind::Triangular, size as int),
        r@.len() == size,
{
    triangular_raw(size)
}

/// The one-element coefficient vector a shaped window degenerates to.
fn one_coeff() -> (r: Vec<u64>)
    ensures
        r@ =~= seq![UNIT_COEFF],
{
    let mut r: Vec<u64> = Vec::new();
    r.push(UNIT_COEFF);
    r
}

/// Generate the coefficients of a window shape.
pub fn generate_kind(kind: WindowKind, size: usize) -> (r: Vec<u64>)
    requires
        size >= 1,
    ensures
        r@ == coeffs_of(kind, size as int),
        r@.len() == size,
{
    match kind {
        WindowKind::Rectangular => none(size),
        WindowKind::Blackman => blackman(size),
        WindowKind::Hamming => hamming(size),
        WindowKind::Hanning => hanning(size),
        WindowKind::Nuttall => nuttall(size),
        WindowKind::Sine => sine(size),
        WindowKind::Triangular => triangular(size),
    }
}

/// The window shape a name denotes, if any; the name-to-generator lookup
/// table, stated over the byte encoding of the name.
pub open spec fn kind_of_name(name: &str) -> Option<WindowKind> {
    if name.spec_bytes() == "none".spec_bytes() {
        Some(WindowKind::Rectangular)
    } else if name.spec_bytes() == "blackman".spec_bytes() {
        Some(WindowKind::Blackman)
    } else if name.spec_bytes() == "hamming".spec_bytes() {
        Some(WindowKind::Hamming)
    } else if name.spec_bytes() == "hanning".spec_bytes() {
        Some(WindowKind::Hanning)
    } else if name.spec_bytes() == "nuttall".spec_bytes() {
        Some(WindowKind::Nuttall)
    } else if name.spec_bytes() == "sine".spec_bytes() {
        Some(WindowKind::Sine)
    } else if name.spec_bytes() == "triangular".spec_bytes() {
        Some(WindowKind::Triangular)
    } else {
        None
    }
}

/// Look a window shape up by name.
pub fn from_str(name: &str) -> (r: Option<WindowKind>)
    ensures
        r == kind_of_name(name),
{
    if str_matches(name, "none") {
        Some(WindowKind::Rectangular)
    } else if str_matches(name, "blackman") {
        Some(WindowKind::Blackman)
    } else if str_matches(name, "hamming") {
        Some(WindowKind::Hamming)
    } else if str_matches(name, "hanning") {
        Some(WindowKind::Hanning)
    } else if str_matches(name, "nuttall") {
        Some(WindowKind::Nuttall)
    } else if str_matches(name, "sine") {
        Some(WindowKind::Sine)
    } else if str_matches(name, "triangular") {
        Some(WindowKind::Triangular)
    } else {
        None
    }
}

/// Generate the coefficients of the window a name denotes, or report that
/// the name is not registered.
pub fn generate(name: &str, size: usize) -> (r: Result<Vec<u64>, Error>)
    requires
        size >= 1,
    ensures
        match kind_of_name(name) {
            Some(kind) => r matches Ok(v) && v@ == coeffs_of(kind, size as int) && v@.len()
                == size,
            None => r matches Err(e) && e == Error::NameNotFound,
        },
{
    match from_str(name) {
        Some(kind) => Ok(generate_kind(kind, size)),
        None => Err(Error::NameNotFound),
    }
}

/// Whether two string slices hold the same bytes.
fn str_matches(a: &str, b: &str) -> (r: bool)
    ensures
        r <==> a.spec_bytes() == b.spec_bytes(),
{
    let ab = a.as_bytes();
    let bb = b.as_bytes();
    if ab.len() != bb.len() {
        proof {
            assert(a.spec_bytes().len() != b.spec_bytes().len());
        }
        return false;
    }
    let n = ab.len();
    let mut i: usize = 0;
    while i < n
        invariant
            n == ab@.len() == bb@.len(),
            ab@ == a.spec_bytes(),
            bb@ == b.spec_bytes(),
            i <= n,
            forall|j: int| 0 <= j < i ==> ab@[j] == bb@[j],
        decreases n - i,
    {
        if ab[i] != bb[i] {
            return false;
        }
        i += 1;
    }
    proof {
        assert(a.spec_bytes() =~= b.spec_bytes());
    }
    true
}

} // verus!
