//! The library's view of a tensor: its shape, its element type, the device
//! its data lives on, and its elements as bit patterns (a 32-bit float by
//! its IEEE bits, an integer by its two's-complement bits). A tensor made
//! by `zeros` holds its elements implicitly, as all-zero bits.
use vstd::prelude::*;

verus! {

/// The device that holds a tensor's data.
#[derive(Clone, Copy, Debug, PartialEq, Eq, Structural)]
pub enum Device {
    CPU,
    CUDA(usize),
}

/// Element type of a tensor.
#[derive(Clone, Copy, Debug, PartialEq, Eq, Structural)]
pub enum DataType {
    Float32,
    Int64,
}

/// The elements of a tensor, in row-major order.
#[derive(Debug)]
pub enum TensorData {
    /// Every element is zero; their number follows from the shape.
    Zeros,
    /// The elements' bit patterns.
    Values(Vec<u64>),
}

/// A tensor: shape, element type, device and elements.
#[derive(Debug)]
pub struct Tensor {
    pub shape: Vec<usize>,
    pub dtype: DataType,
    pub device: Device,
    pub data: TensorData,
}

/// The number of elements of a tensor of this shape: the product of its
/// dimensions.
pub open spec fn numel(shape: Seq<usize>) -> nat
    decreases shape.len(),
{
    if shape.len() == 0 {
        1
    } else {
        numel(shape.drop_last()) * (shape.last() as nat)
    }
}

impl Tensor {
    /// The tensor's elements, in row-major order.
    pub open spec fn elements(&self) -> Seq<u64> {
        match self.data {
            TensorData::Zeros => Seq::new(numel(self.shape@), |_k: int| 0u64),
            TensorData::Values(_) => self.data.values(),
        }
    }

    /// The tensor holds as many elements as its shape asks for.
    pub open spec fn wf(&self) -> bool {
        self.elements().len() == numel(self.shape@)
    }

    /// The tensor has exactly this shape, holds 32-bit zeros and lives on `device`.
    pub open spec fn is_f32(&self, shape: Seq<usize>, device: Device) -> bool {
        &&& self.shape@ == shape
        &&& self.dtype == DataType::Float32
        &&& self.device == device
        &&& self.data is Zeros
    }

    /// `self` has the shape, element type and elements of `from` and lives
    /// on `device`.
    pub open spec fn is_placed(&self, from: Tensor, device: Device) -> bool {
        &&& self.shape@ == from.shape@
        &&& self.dtype == from.dtype
        &&& self.device == device
        &&& self.elements() == from.elements()
    }

    /// `self` has the shape, element type, device and elements of `other`.
    pub open spec fn same(&self, other: Tensor) -> bool {
        self.is_placed(other, other.device)
    }

    /// The dimensions of the tensor.
    pub fn shape(&self) -> (r: &[usize])
        ensures
            r@ == self.shape@,
    {
        self.shape.as_slice()
    }

    /// A copy of this tensor on `device`.
    pub fn to_device(&self, device: &Device) -> (r: Tensor)
        ensures
            r.is_placed(*self, *device),
            self.wf() ==> r.wf(),
    {
        Tensor { shape: copy_dims(&self.shape), dtype: self.dtype, device: *device, data: self.data.duplicate() }
    }

    /// A copy of this tensor.
    pub fn duplicate(&self) -> (r: Tensor)
        ensures
            r.same(*self),
            self.wf() ==> r.wf(),
    {
        Tensor { shape: copy_dims(&self.shape), dtype: self.dtype, device: self.device, data: self.data.duplicate() }
    }

    /// The tensor of this shape, element type and device whose elements are
    /// `values`, when there are as many of them as the shape asks for.
    pub fn from_values(shape: &[usize], dtype: DataType, device: &Device, values: Vec<u64>) -> (r: Option<Tensor>)
        ensures
            r is Some <==> values@.len() == numel(shape@),
            r matches Some(t) ==> t.shape@ == shape@ && t.dtype == dtype && t.device == *device
                && t.elements() == values@ && t.wf(),
    {
        if holds_count(shape, values.len()) {
            Some(Tensor { shape: copy_dims(shape), dtype, device: *device, data: TensorData::Values(values) })
        } else {
            None
        }
    }
}

impl TensorData {
    /// The bit patterns held, when they are held one by one.
    pub open spec fn values(&self) -> Seq<u64> {
        match self {
            TensorData::Zeros => Seq::empty(),
            TensorData::Values(v) => v@,
        }
    }

    /// A copy of these elements.
    pub fn duplicate(&self) -> (r: TensorData)
        ensures
            r is Zeros <==> self is Zeros,
            r.values() == self.values(),
    {
        match self {
            TensorData::Zeros => TensorData::Zeros,
            TensorData::Values(v) => TensorData::Values(copy_values(v.as_slice())),
        }
    }
}

/// A copy of a list of bit patterns.
pub fn copy_values(values: &[u64]) -> (r: Vec<u64>)
    ensures
        r@ == values@,
{
    let mut r: Vec<u64> = Vec::with_capacity(values.len());
    let mut i: usize = 0;
    while i < values.len()
        invariant
            i <= values.len(),
            r@ == values@.subrange(0, i as int),
        decreases values.len() - i,
    {
        r.push(values[i]);
        i += 1;
        assert(r@ =~= values@.subrange(0, i as int));
    }
    assert(r@ =~= values@);
    r
}

/// A dimension of size zero leaves no elements.
proof fn lemma_numel_zero(shape: Seq<usize>, i: int)
    requires
        0 <= i < shape.len(),
        shape[i] == 0,
    ensures
        numel(shape) == 0,
    decreases shape.len(),
{
    let x = numel(shape.drop_last());
    let y = shape.last() as nat;
    if i < shape.len() - 1 {
        assert(shape.drop_last()[i] == shape[i]);
        lemma_numel_zero(shape.drop_last(), i);
        assert(x * y == 0) by (nonlinear_arith)
            requires
                x == 0,
        ;
    } else {
        assert(x * y == 0) by (nonlinear_arith)
            requires
                y == 0,
        ;
    }
}

/// The first `j + 1` dimensions hold the elements of the first `j`, times
/// dimension `j`.
proof fn lemma_numel_take(shape: Seq<usize>, j: int)
    requires
        0 <= j < shape.len(),
    ensures
        numel(shape.take(j + 1)) == numel(shape.take(j)) * (shape[j] as nat),
{
    assert(shape.take(j + 1).drop_last() =~= shape.take(j));
}

/// With no dimension of size zero, a prefix of the dimensions holds no more
/// elements than all of them.
proof fn lemma_numel_prefix_le(shape: Seq<usize>, j: int)
    requires
        0 <= j <= shape.len(),
        forall|i: int| 0 <= i < shape.len() ==> shape[i] >= 1,
    ensures
        numel(shape.take(j)) <= numel(shape),
    decreases shape.len(),
{
    if j == shape.len() {
        assert(shape.take(j) =~= shape);
    } else {
        let d = shape.drop_last();
        lemma_numel_prefix_le(d, j);
        assert(d.take(j) =~= shape.take(j));
        let x = numel(d);
        let y = shape.last() as nat;
        assert(x <= x * y) by (nonlinear_arith)
            requires
                y >= 1,
        ;
    }
}

/// Whether a tensor of this shape holds exactly `n` elements.
pub fn holds_count(shape: &[usize], n: usize) -> (r: bool)
    ensures
        r == (numel(shape@) == n),
{
    let mut i: usize = 0;
    while i < shape.len()
        invariant
            i <= shape.len(),
            forall|j: int| 0 <= j < i ==> shape@[j] >= 1,
        decreases shape.len() - i,
    {
        if shape[i] == 0 {
            proof {
                lemma_numel_zero(shape@, i as int);
            }
            return n == 0;
        }
        i += 1;
    }
    let mut acc: usize = 1;
    let mut k: usize = 0;
    assert(shape@.take(0) =~= Seq::<usize>::empty());
    while k < shape.len()
        invariant
            k <= shape.len(),
            forall|j: int| 0 <= j < shape.len() ==> shape@[j] >= 1,
            acc == numel(shape@.take(k as int)),
        decreases shape.len() - k,
    {
        proof {
            lemma_numel_take(shape@, k as int);
        }
        match acc.checked_mul(shape[k]) {
            Some(p) => {
                acc = p;
            },
            None => {
                proof {
                    lemma_numel_prefix_le(shape@, k + 1);
                }
                return false;
            },
        }
        k += 1;
    }
    assert(shape@.take(shape.len() as int) =~= shape@);
    acc == n
}

/// A copy of a list of dimensions.
pub fn copy_dims(dims: &[usize]) -> (r: Vec<usize>)
    ensures
        r@ == dims@,
{
    let mut r: Vec<usize> = Vec::with_capacity(dims.len());
    let mut i: usize = 0;
    while i < dims.len()
        invariant
            i <= dims.len(),
            r@ == dims@.subrange(0, i as int),
        decreases dims.len() - i,
    {
        r.push(dims[i]);
        i += 1;
        assert(r@ =~= dims@.subrange(0, i as int));
    }
    assert(r@ =~= dims@);
    r
}

/// A zero-filled tensor of the given shape, element type and device.
pub fn zeros(shape: &[usize], dtype: DataType, device: &Device) -> (r: Tensor)
    ensures
        r.shape@ == shape@,
        r.dtype == dtype,
        r.device == *device,
        r.data is Zeros,
{
    Tensor { shape: copy_dims(shape), dtype, device: *device, data: TensorData::Zeros }
}

/// A zero-filled vector of 32-bit floats of length `n` on `device`.
pub fn zeros1(n: usize, device: &Device) -> (r: Tensor)
    ensures
        r.is_f32(seq![n], *device),
{
    let mut shape: Vec<usize> = Vec::with_capacity(1);
    shape.push(n);
    assert(shape@ =~= seq![n]);
    zeros(shape.as_slice(), DataType::Float32, device)
}

/// A zero-filled `rows` by `cols` matrix of 32-bit floats on `device`.
pub fn zeros2(rows: usize, cols: usize, device: &Device) -> (r: Tensor)
    ensures
        r.is_f32(seq![rows, cols], *device),
{
    let mut shape: Vec<usize> = Vec::with_capacity(2);
    shape.push(rows);
    shape.push(cols);
    assert(shape@ =~= seq![rows, cols]);
    zeros(shape.as_slice(), DataType::Float32, device)
}

/// A zero-filled three-dimensional tensor of 32-bit floats on `device`.
pub fn zeros3(a: usize, b: usize, c: usize, device: &Device) -> (r: Tensor)
    ensures
        r.is_f32(seq![a, b, c], *device),
{
    let mut shape: Vec<usize> = Vec::with_capacity(3);
    shape.push(a);
    shape.push(b);
    shape.push(c);
    assert(shape@ =~= seq![a, b, c]);
    zeros(shape.as_slice(), DataType::Float32, device)
}

/// A zero-filled four-dimensional tensor of 32-bit floats on `device`.
pub fn zeros4(a: usize, b: usize, c: usize, d: usize, device: &Device) -> (r: Tensor)
    ensures
        r.is_f32(seq![a, b, c, d], *device),
{
    let mut shape: Vec<usize> = Vec::with_capacity(4);
    shape.push(a);
    shape.push(b);
    shape.push(c);
    shape.push(d);
    assert(shape@ =~= seq![a, b, c, d]);
    zeros(shape.as_slice(), DataType::Float32, device)
}

/// A shape with its two last dimensions exchanged.
pub open spec fn transposed_shape(s: Seq<usize>) -> Seq<usize> {
    s.update(s.len() - 2, s[s.len() - 1]).update(s.len() - 1, s[s.len() - 2])
}

/// Where element `k` of the transpose of a tensor whose two last
/// dimensions are `a` by `b` comes from: it stays in its block of `a * b`
/// elements, and the entry at row `j`, column `i` of the `b` by `a` result
/// is read at row `i`, column `j` of the `a` by `b` source.
pub open spec fn transpose_source(k: int, a: int, b: int) -> int {
    let m = a * b;
    let r = k % m;
    (k / m) * m + (r % a) * b + r / a
}

/// The elements of the transpose of a tensor whose two last dimensions are
/// `a` by `b`, given its elements `e` in row-major order.
pub open spec fn transposed_elements(e: Seq<u64>, a: int, b: int) -> Seq<u64> {
    Seq::new(e.len(), |k: int| e[transpose_source(k, a, b)])
}

impl Tensor {
    /// `self` is the transpose of `t`: its two last dimensions exchanged,
    /// the elements moved with them, with the same element type and device.
    pub open spec fn is_transpose_of(&self, t: Tensor) -> bool {
        let n = t.shape@.len();
        &&& self.shape@ == transposed_shape(t.shape@)
        &&& self.dtype == t.dtype
        &&& self.device == t.device
        &&& self.elements() == transposed_elements(
            t.elements(),
            t.shape@[n - 2] as int,
            t.shape@[n - 1] as int,
        )
    }

    /// `self` is `t` with its second dimension, of size 1, dropped: the same
    /// elements, element type and device.
    pub open spec fn is_squeeze_of(&self, t: Tensor) -> bool {
        &&& self.shape@ == t.shape@.remove(1)
        &&& self.dtype == t.dtype
        &&& self.device == t.device
        &&& self.elements() == t.elements()
    }
}

/// A tensor of rank two or more holds the elements of its leading
/// dimensions times those of its two last ones, and so does its transpose.
proof fn lemma_numel_last_two(s: Seq<usize>)
    requires
        s.len() >= 2,
    ensures
        numel(s) == numel(s.subrange(0, s.len() - 2)) * ((s[s.len() - 2] as nat) * (s[s.len() - 1] as nat)),
        numel(transposed_shape(s)) == numel(s),
{
    let n = s.len();
    let lead = s.subrange(0, n - 2);
    let t = transposed_shape(s);
    assert(s.drop_last().drop_last() =~= lead);
    assert(t.drop_last().drop_last() =~= lead);
    assert(s.drop_last().last() == s[n - 2]);
    assert(t.drop_last().last() == s[n - 1]);
    let x = numel(lead);
    let a = s[n - 2] as nat;
    let b = s[n - 1] as nat;
    assert(numel(s) == numel(s.drop_last()) * b);
    assert(numel(s.drop_last()) == x * a);
    assert(numel(t) == numel(t.drop_last()) * a);
    assert(numel(t.drop_last()) == x * b);
    assert((x * a) * b == x * (a * b) && (x * b) * a == x * (a * b)) by (nonlinear_arith);
}

/// The element that lands at `k` in the transpose comes from inside the
/// tensor, and the sums that locate it stay below the element count.
proof fn lemma_transpose_source(k: int, a: int, b: int, lead: int)
    requires
        a >= 1,
        b >= 1,
        lead >= 0,
        0 <= k < lead * (a * b),
    ensures
        (k / (a * b)) * (a * b) <= k,
        ((k % (a * b)) % a) * b + (k % (a * b)) / a < a * b,
        0 <= transpose_source(k, a, b) < lead * (a * b),
{
    let m = a * b;
    assert(m >= 1) by (nonlinear_arith)
        requires
            a >= 1,
            b >= 1,
            m == a * b,
    ;
    let q = k / m;
    let r = k % m;
    assert(k == q * m + r && 0 <= r < m) by (nonlinear_arith)
        requires
            m >= 1,
            k >= 0,
            q == k / m,
            r == k % m,
    ;
    assert(q < lead && q >= 0) by (nonlinear_arith)
        requires
            k == q * m + r,
            0 <= r < m,
            k < lead * m,
            m >= 1,
            k >= 0,
    ;
    let i = r % a;
    let j = r / a;
    assert(r == j * a + i && 0 <= i < a && 0 <= j) by (nonlinear_arith)
        requires
            a >= 1,
            r >= 0,
            i == r % a,
            j == r / a,
    ;
    assert(j < b) by (nonlinear_arith)
        requires
            r == j * a + i,
            0 <= i,
            r < a * b,
            a >= 1,
    ;
    assert(i * b + j < m && i * b + j >= 0) by (nonlinear_arith)
        requires
            0 <= i < a,
            0 <= j < b,
            m == a * b,
    ;
    assert(q * m + i * b + j < lead * m) by (nonlinear_arith)
        requires
            0 <= q < lead,
            i * b + j < m,
            m >= 1,
    ;
    assert(q * m >= 0) by (nonlinear_arith)
        requires
            q >= 0,
            m >= 1,
    ;
}

/// Within a block of `a * b` elements, reading the transpose of the
/// transpose at `k` reads the source at `k` itself.
proof fn lemma_transpose_source_twice(k: int, a: int, b: int, lead: int)
    requires
        a >= 1,
        b >= 1,
        lead >= 0,
        0 <= k < lead * (a * b),
    ensures
        transpose_source(transpose_source(k, b, a), a, b) == k,
{
    let m = a * b;
    assert(b * a == m && m >= 1) by (nonlinear_arith)
        requires
            a >= 1,
            b >= 1,
            m == a * b,
    ;
    lemma_transpose_source(k, a, b, lead);
    let q = k / m;
    let r = k % m;
    vstd::arithmetic::div_mod::lemma_fundamental_div_mod(k, m);
    vstd::arithmetic::div_mod::lemma_mod_pos_bound(k, m);
    let i = r % b;
    let j = r / b;
    vstd::arithmetic::div_mod::lemma_fundamental_div_mod(r, b);
    vstd::arithmetic::div_mod::lemma_mod_pos_bound(r, b);
    assert(0 <= j < a) by (nonlinear_arith)
        requires
            r == b * j + i,
            0 <= i < b,
            0 <= r < a * b,
            b >= 1,
    ;
    let r2 = i * a + j;
    assert(0 <= r2 < m) by (nonlinear_arith)
        requires
            r2 == i * a + j,
            0 <= i < b,
            0 <= j < a,
            m == a * b,
    ;
    assert(q >= 0) by (nonlinear_arith)
        requires
            k >= 0,
            m >= 1,
            q == k / m,
    ;
    let s1 = q * m + r2;
    assert(transpose_source(k, b, a) == s1);
    vstd::arithmetic::div_mod::lemma_fundamental_div_mod_converse(s1, m, q, r2);
    vstd::arithmetic::div_mod::lemma_fundamental_div_mod_converse(r2, a, i, j);
    assert(transpose_source(s1, a, b) == q * m + j * b + i);
    assert(j * b + i == r) by (nonlinear_arith)
        requires
            r == b * j + i,
    ;
}

/// Transposing a tensor twice gives back its shape, element type, device and
/// elements.
pub proof fn lemma_transpose_twice(t: Tensor, u: Tensor, v: Tensor)
    requires
        t.wf(),
        t.shape@.len() >= 2,
        u.is_transpose_of(t),
        v.is_transpose_of(u),
    ensures
        v.same(t),
{
    let s = t.shape@;
    let n = s.len();
    assert(transposed_shape(transposed_shape(s)) =~= s);
    lemma_numel_last_two(s);
    let a = s[n - 2] as int;
    let b = s[n - 1] as int;
    let lead = numel(s.subrange(0, n - 2)) as int;
    let e = t.elements();
    assert forall|k: int| 0 <= k < e.len() implies #[trigger] v.elements()[k] == e[k] by {
        assert(a >= 1 && b >= 1) by (nonlinear_arith)
            requires
                k < lead * (a * b),
                lead >= 0,
                0 <= k,
                a >= 0,
                b >= 0,
        ;
        assert(b * a == a * b) by (nonlinear_arith);
        lemma_transpose_source(k, b, a, lead);
        lemma_transpose_source_twice(k, a, b, lead);
    }
    assert(v.elements() =~= e);
}

/// The transpose of a tensor: its two last dimensions exchanged, and its
/// elements moved with them.
pub fn transpose(t: &Tensor) -> (r: Tensor)
    requires
        t.shape@.len() >= 2,
        t.wf(),
    ensures
        r.is_transpose_of(*t),
        r.wf(),
{
    let mut shape = copy_dims(&t.shape);
    let n = shape.len();
    let a = shape[n - 2];
    let b = shape[n - 1];
    shape.set(n - 2, b);
    shape.set(n - 1, a);
    proof {
        lemma_numel_last_two(t.shape@);
        assert(shape@ == transposed_shape(t.shape@));
    }
    let ghost lead = numel(t.shape@.subrange(0, n - 2)) as int;
    let ghost e = t.elements();
    let data = match &t.data {
        TensorData::Zeros => {
            proof {
                assert forall|k: int| 0 <= k < e.len() implies #[trigger] transposed_elements(e, a as int, b as int)[k]
                    == 0u64 by {
                    assert(a >= 1 && b >= 1) by (nonlinear_arith)
                        requires
                            k < lead * (a * b),
                            lead >= 0,
                            0 <= k,
                    ;
                    lemma_transpose_source(k, a as int, b as int, lead);
                }
            }
            TensorData::Zeros
        },
        TensorData::Values(v) => {
            let len = v.len();
            let mut out: Vec<u64> = Vec::with_capacity(len);
            if len > 0 {
                assert(a >= 1 && b >= 1 && a * b <= len) by (nonlinear_arith)
                    requires
                        len == lead * (a * b),
                        lead >= 0,
                        len > 0,
                ;
                let m = a * b;
                let mut k: usize = 0;
                while k < len
                    invariant
                        k <= len,
                        len == v@.len(),
                        v@ == e,
                        a >= 1,
                        b >= 1,
                        m == a * b,
                        lead >= 0,
                        len == lead * (a * b),
                        out@ == transposed_elements(e, a as int, b as int).subrange(0, k as int),
                    decreases len - k,
                {
                    proof {
                        lemma_transpose_source(k as int, a as int, b as int, lead);
                    }
                    let q = k / m;
                    let rem = k % m;
                    let src = q * m + (rem % a) * b + rem / a;
                    out.push(v[src]);
                    k += 1;
                    assert(out@ =~= transposed_elements(e, a as int, b as int).subrange(0, k as int));
                }
            }
            assert(out@ =~= transposed_elements(e, a as int, b as int));
            TensorData::Values(out)
        },
    };
    let r = Tensor { shape, dtype: t.dtype, device: t.device, data };
    proof {
        assert(r.elements() =~= transposed_elements(e, a as int, b as int));
    }
    r
}

/// The tensor without its second dimension, which has size 1.
pub fn squeeze_second(t: &Tensor) -> (r: Tensor)
    requires
        t.shape@.len() == 3,
        t.shape@[1] == 1,
    ensures
        r.is_squeeze_of(*t),
        t.wf() ==> r.wf(),
{
    let mut shape = copy_dims(&t.shape);
    shape.remove(1);
    proof {
        let s = t.shape@;
        assert(shape@ =~= seq![s[0], s[2]]);
        assert(s.drop_last() =~= seq![s[0], s[1]]);
        assert(s.drop_last().drop_last() =~= seq![s[0]]);
        assert(seq![s[0], s[2]].drop_last() =~= seq![s[0]]);
        assert(seq![s[0]].drop_last() =~= Seq::<usize>::empty());
        reveal_with_fuel(numel, 2);
        assert(numel(Seq::<usize>::empty()) == 1);
        assert(numel(seq![s[0]]) == numel(Seq::<usize>::empty()) * (s[0] as nat));
        assert(numel(seq![s[0]]) == s[0]);
        assert(numel(seq![s[0], s[1]]) == numel(seq![s[0]]) * (s[1] as nat));
        assert(numel(seq![s[0], s[1]]) == s[0]);
        assert(numel(s) == numel(seq![s[0], s[1]]) * (s[2] as nat));
        assert(numel(shape@) == numel(seq![s[0]]) * (s[2] as nat));
        assert(numel(shape@) == numel(s));
    }
    let r = Tensor { shape, dtype: t.dtype, device: t.device, data: t.data.duplicate() };
    proof {
        assert(r.elements() =~= t.elements());
    }
    r
}

/// The transpose of an `a` by `b` matrix is the `b` by `a` matrix whose
/// entry at row `c`, column `r` is the source's entry at row `r`, column
/// `c`, on the same device and with the same element type.
pub proof fn lemma_matrix_transpose_entries(t: Tensor, u: Tensor, r: int, c: int)
    requires
        t.wf(),
        t.shape@.len() == 2,
        u.is_transpose_of(t),
        0 <= r < t.shape@[0],
        0 <= c < t.shape@[1],
    ensures
        u.shape@ == seq![t.shape@[1], t.shape@[0]],
        u.dtype == t.dtype,
        u.device == t.device,
        u.elements().len() == t.elements().len(),
        u.elements()[c * t.shape@[0] + r] == t.elements()[r * t.shape@[1] + c],
{
    let a = t.shape@[0] as int;
    let b = t.shape@[1] as int;
    assert(transposed_shape(t.shape@) =~= seq![t.shape@[1], t.shape@[0]]);
    lemma_numel_last_two(t.shape@);
    assert(t.shape@.subrange(0, 0) =~= Seq::<usize>::empty());
    assert(numel(Seq::<usize>::empty()) == 1);
    assert(numel(t.shape@) == 1 * (a * b));
    assert(numel(t.shape@) == a * b);
    let m = a * b;
    let k = c * a + r;
    assert(0 <= k < m && 0 <= r * b + c < m) by (nonlinear_arith)
        requires
            0 <= r < a,
            0 <= c < b,
            k == c * a + r,
            m == a * b,
    ;
    vstd::arithmetic::div_mod::lemma_fundamental_div_mod_converse(k, m, 0, k);
    vstd::arithmetic::div_mod::lemma_fundamental_div_mod_converse(k, a, c, r);
    assert(transpose_source(k, a, b) == r * b + c);
}

/// A tensor moved to `device` lies there with the shape, element type and
/// elements it had.
pub proof fn lemma_move_keeps_contents(t: Tensor, from: Tensor, device: Device)
    requires
        t.is_placed(from, device),
    ensures
        t.device == device,
        t.shape@ == from.shape@,
        t.dtype == from.dtype,
        t.elements() == from.elements(),
{
}

} // verus!
