//! Named tensors of a checkpoint, the names under which models look them
//! up, and the rules by which a model's weight takes a named tensor: as it
//! is, or transposed for a matrix product. A weight takes the checkpoint
//! tensor's shape, element type, device and elements.
use vstd::prelude::*;
use crate::common::ModelError;
use crate::tensor::{squeeze_second, transpose, Tensor};

verus! {

/// Named tensors read from a checkpoint. Storing under a name replaces
/// what that name held.
pub struct ModelWeights {
    entries: Vec<(String, Tensor)>,
}

/// The tensor most recently stored under `name` among `entries`.
pub open spec fn latest(entries: Seq<(String, Tensor)>, name: Seq<char>) -> Option<Tensor>
    decreases entries.len(),
{
    if entries.len() == 0 {
        None
    } else if entries.last().0@ == name {
        Some(entries.last().1)
    } else {
        latest(entries.drop_last(), name)
    }
}

impl ModelWeights {
    /// Every stored tensor holds as many elements as its shape asks for.
    #[verifier::type_invariant]
    spec fn stored_well_formed(self) -> bool {
        forall|i: int| 0 <= i < self.entries@.len() ==> (#[trigger] self.entries@[i]).1.wf()
    }

    /// The tensor stored under `name`, if any.
    pub closed spec fn lookup(&self, name: Seq<char>) -> Option<Tensor> {
        latest(self.entries@, name)
    }

    /// No tensors.
    pub fn new() -> (r: Self)
        ensures
            forall|name: Seq<char>| #[trigger] r.lookup(name) is None,
    {
        ModelWeights { entries: Vec::new() }
    }

    /// Stores `tensor` under `name`, replacing what `name` held.
    pub fn insert(&mut self, name: String, tensor: Tensor)
        requires
            tensor.wf(),
        ensures
            final(self).lookup(name@) == Some(tensor),
            forall|other: Seq<char>| other != name@ ==> #[trigger] final(self).lookup(other) == old(self).lookup(other),
    {
        proof {
            use_type_invariant(&*self);
        }
        let ghost before = self.entries@;
        let mut entries: Vec<(String, Tensor)> = Vec::new();
        std::mem::swap(&mut entries, &mut self.entries);
        entries.push((name, tensor));
        assert(entries@.drop_last() =~= before);
        self.entries = entries;
    }

    /// The tensor stored under `name`, if any.
    pub fn get(&self, name: &str) -> (r: Option<&Tensor>)
        ensures
            match r {
                Some(t) => self.lookup(name@) == Some(*t) && t.wf(),
                None => self.lookup(name@) is None,
            },
    {
        proof {
            use_type_invariant(self);
        }
        let key = String::from_str(name);
        let mut i = self.entries.len();
        assert(self.entries@.subrange(0, i as int) =~= self.entries@);
        while i > 0
            invariant
                i <= self.entries@.len(),
                key@ == name@,
                forall|j: int| 0 <= j < self.entries@.len() ==> (#[trigger] self.entries@[j]).1.wf(),
                latest(self.entries@, name@) == latest(self.entries@.subrange(0, i as int), name@),
            decreases i,
        {
            let ghost prefix = self.entries@.subrange(0, i as int);
            assert(prefix.drop_last() =~= self.entries@.subrange(0, i - 1));
            if self.entries[i - 1].0 == key {
                return Some(&self.entries[i - 1].1);
            }
            i -= 1;
        }
        assert(self.entries@.subrange(0, 0) =~= Seq::<(String, Tensor)>::empty());
        None
    }
}

/// The decimal digit `d`.
pub open spec fn digit(d: nat) -> char {
    if d == 0 { '0' } else if d == 1 { '1' } else if d == 2 { '2' } else if d == 3 { '3' } else if d == 4 {
        '4'
    } else if d == 5 { '5' } else if d == 6 { '6' } else if d == 7 { '7' } else if d == 8 { '8' } else { '9' }
}

/// The decimal numeral of `n`, without leading zeros.
pub open spec fn decimal(n: nat) -> Seq<char>
    decreases n,
{
    if n < 10 {
        seq![digit(n)]
    } else {
        decimal(n / 10).push(digit(n % 10))
    }
}

fn digit_str(d: usize) -> (r: &'static str)
    requires
        d < 10,
    ensures
        r@ == seq![digit(d as nat)],
{
    proof {
        reveal_strlit("0");
        reveal_strlit("1");
        reveal_strlit("2");
        reveal_strlit("3");
        reveal_strlit("4");
        reveal_strlit("5");
        reveal_strlit("6");
        reveal_strlit("7");
        reveal_strlit("8");
        reveal_strlit("9");
    }
    if d == 0 { "0" } else if d == 1 { "1" } else if d == 2 { "2" } else if d == 3 { "3" } else if d == 4 {
        "4"
    } else if d == 5 { "5" } else if d == 6 { "6" } else if d == 7 { "7" } else if d == 8 { "8" } else { "9" }
}

/// The decimal numeral of `n`.
pub fn decimal_string(n: usize) -> (r: String)
    ensures
        r@ == decimal(n as nat),
    decreases n,
{
    if n < 10 {
        String::from_str(digit_str(n))
    } else {
        let mut s = decimal_string(n / 10);
        s.append(digit_str(n % 10));
        proof {
            assert(seq![digit((n % 10) as nat)] =~= Seq::<char>::empty().push(digit((n % 10) as nat)));
            assert(decimal((n / 10) as nat) + seq![digit((n % 10) as nat)] =~= decimal((n / 10) as nat).push(
                digit((n % 10) as nat),
            ));
        }
        s
    }
}

/// The name `head`, then the numeral of `idx`, then `tail`.
pub open spec fn indexed(head: Seq<char>, idx: int, tail: Seq<char>) -> Seq<char> {
    head + decimal(idx as nat) + tail
}

/// The name `head`, the numeral of `i`, `middle`, the numeral of `j`, then
/// `tail`.
pub open spec fn twice_indexed(head: Seq<char>, i: int, middle: Seq<char>, j: int, tail: Seq<char>) -> Seq<char> {
    head + decimal(i as nat) + middle + decimal(j as nat) + tail
}

/// The name `prefix` followed by `tail`.
pub open spec fn joined(prefix: Seq<char>, tail: Seq<char>) -> Seq<char> {
    prefix + tail
}

/// The name `head`, then the numeral of `idx`, then `tail`.
pub fn indexed_name(head: &str, idx: usize, tail: &str) -> (r: String)
    ensures
        r@ == indexed(head@, idx as int, tail@),
{
    let mut s = String::from_str(head);
    s.append(decimal_string(idx).as_str());
    s.append(tail);
    s
}

/// The name `head`, the numeral of `i`, `middle`, the numeral of `j`, then
/// `tail`.
pub fn twice_indexed_name(head: &str, i: usize, middle: &str, j: usize, tail: &str) -> (r: String)
    ensures
        r@ == twice_indexed(head@, i as int, middle@, j as int, tail@),
{
    let mut s = String::from_str(head);
    s.append(decimal_string(i).as_str());
    s.append(middle);
    s.append(decimal_string(j).as_str());
    s.append(tail);
    s
}

/// The name `prefix` followed by `tail`.
pub fn joined_name(prefix: &str, tail: &str) -> (r: String)
    ensures
        r@ == joined(prefix@, tail@),
{
    let mut s = String::from_str(prefix);
    s.append(tail);
    s
}

/// The first of `names` that `weights` holds, with its tensor.
pub open spec fn first_found(weights: ModelWeights, names: Seq<Seq<char>>) -> Option<Tensor>
    decreases names.len(),
{
    if names.len() == 0 {
        None
    } else {
        match weights.lookup(names[0]) {
            Some(t) => Some(t),
            None => first_found(weights, names.drop_first()),
        }
    }
}

/// A weight that held `old` holds `t` after taking `found`, when there is
/// one: `t` has its shape, element type, device and elements; otherwise `t`
/// is `old`.
pub open spec fn copied(t: Tensor, old: Tensor, found: Option<Tensor>) -> bool {
    match found {
        Some(w) => t.same(w),
        None => t == old,
    }
}

/// An optional weight that held `old` holds `t` after taking `found`, when
/// there is one: a tensor with its shape, element type, device and elements;
/// otherwise `t` is `old`.
pub open spec fn copied_opt(t: Option<Tensor>, old: Option<Tensor>, found: Option<Tensor>) -> bool {
    match found {
        Some(w) => t matches Some(x) && x.same(w),
        None => t == old,
    }
}

/// `found`, if any, can be transposed: it has at least two dimensions.
pub open spec fn transposable(found: Option<Tensor>) -> bool {
    match found {
        Some(w) => w.shape@.len() >= 2,
        None => true,
    }
}

/// A weight that held `old` holds `t` after taking the transpose of
/// `found`, when there is one: `found`'s shape with its two last dimensions
/// exchanged and its elements moved with them, its element type and device;
/// otherwise `t` is `old`.
pub open spec fn transposed(t: Tensor, old: Tensor, found: Option<Tensor>) -> bool {
    match found {
        Some(w) => t.is_transpose_of(w),
        None => t == old,
    }
}

/// An optional weight that held `old` holds `t` after taking the transpose
/// of `found`, when there is one, as `transposed` says; otherwise `t` is
/// `old`.
pub open spec fn transposed_opt(t: Option<Tensor>, old: Option<Tensor>, found: Option<Tensor>) -> bool {
    match found {
        Some(w) => t matches Some(x) && x.is_transpose_of(w),
        None => t == old,
    }
}

/// A convolution weight that held `old` holds `t` after taking `found`,
/// when there is one: `[channels, 1, width]` loses its middle dimension,
/// any other shape is kept; elements, element type and device are kept
/// either way.
pub open spec fn conv_loaded(t: Tensor, old: Tensor, found: Option<Tensor>) -> bool {
    match found {
        Some(w) => if w.shape@.len() == 3 && w.shape@[1] == 1 {
            t.is_squeeze_of(w)
        } else {
            t.same(w)
        },
        None => t == old,
    }
}

/// The error of a weight that must be transposed but has fewer than two
/// dimensions.
pub open spec fn transpose_error_message() -> Seq<char> {
    "a weight to transpose has fewer than two dimensions"@
}

/// `e` is the error of a weight that must be transposed but has fewer than
/// two dimensions.
pub open spec fn is_transpose_error(e: ModelError) -> bool {
    e matches ModelError::InvalidWeights(m) && m@ == transpose_error_message()
}

fn transpose_error() -> (r: ModelError)
    ensures
        is_transpose_error(r),
{
    ModelError::InvalidWeights(String::from_str("a weight to transpose has fewer than two dimensions"))
}

/// Copies the tensor named `name` into `slot`, when `weights` holds one.
pub fn load_copy(slot: &mut Tensor, weights: &ModelWeights, name: &str)
    ensures
        copied(*final(slot), *old(slot), weights.lookup(name@)),
{
    match weights.get(name) {
        Some(w) => {
            *slot = w.duplicate();
        },
        None => {},
    }
}

/// Copies the tensor named `name` into the optional `slot`, when `weights`
/// holds one.
pub fn load_copy_opt(slot: &mut Option<Tensor>, weights: &ModelWeights, name: &str)
    ensures
        copied_opt(*final(slot), *old(slot), weights.lookup(name@)),
{
    match weights.get(name) {
        Some(w) => {
            *slot = Some(w.duplicate());
        },
        None => {},
    }
}

/// Puts the transpose of `found`, when there is one, into `slot`; refuses a
/// tensor of fewer than two dimensions and leaves `slot` as it was.
pub fn take_transposed(slot: &mut Tensor, found: Option<&Tensor>) -> (r: Result<(), ModelError>)
    requires
        match found {
            Some(w) => w.wf(),
            None => true,
        },
    ensures
        r is Ok <==> transposable(match found { Some(w) => Some(*w), None => None }),
        r is Ok ==> transposed(*final(slot), *old(slot), match found { Some(w) => Some(*w), None => None }),
        r matches Err(e) ==> *final(slot) == *old(slot) && is_transpose_error(e),
{
    match found {
        Some(w) => {
            if w.shape.len() < 2 {
                return Err(transpose_error());
            }
            *slot = transpose(w);
            Ok(())
        },
        None => Ok(()),
    }
}

/// Puts the transpose of the tensor named `name`, when `weights` holds one,
/// into `slot`; refuses a tensor of fewer than two dimensions.
pub fn load_transposed(slot: &mut Tensor, weights: &ModelWeights, name: &str) -> (r: Result<(), ModelError>)
    ensures
        r is Ok <==> transposable(weights.lookup(name@)),
        r is Ok ==> transposed(*final(slot), *old(slot), weights.lookup(name@)),
        r matches Err(e) ==> *final(slot) == *old(slot) && is_transpose_error(e),
{
    take_transposed(slot, weights.get(name))
}

/// Puts the transpose of the tensor named `name`, when `weights` holds one,
/// into the optional `slot`; refuses a tensor of fewer than two dimensions.
pub fn load_transposed_opt(slot: &mut Option<Tensor>, weights: &ModelWeights, name: &str) -> (r: Result<
    (),
    ModelError,
>)
    ensures
        r is Ok <==> transposable(weights.lookup(name@)),
        r is Ok ==> transposed_opt(*final(slot), *old(slot), weights.lookup(name@)),
        r matches Err(e) ==> *final(slot) == *old(slot) && is_transpose_error(e),
{
    match weights.get(name) {
        Some(w) => {
            if w.shape.len() < 2 {
                return Err(transpose_error());
            }
            *slot = Some(transpose(w));
            Ok(())
        },
        None => Ok(()),
    }
}

/// Takes the tensor named `name`, when `weights` holds one, as a
/// convolution weight: `[channels, 1, width]` loses its middle dimension,
/// any other shape is copied.
pub fn load_conv(slot: &mut Tensor, weights: &ModelWeights, name: &str)
    ensures
        conv_loaded(*final(slot), *old(slot), weights.lookup(name@)),
{
    match weights.get(name) {
        Some(w) => {
            if w.shape.len() == 3 && w.shape[1] == 1 {
                *slot = squeeze_second(w);
            } else {
                *slot = w.duplicate();
            }
        },
        None => {},
    }
}

/// The first of two names that `weights` holds, with its tensor.
pub fn get_first2<'a>(weights: &'a ModelWeights, a: &str, b: &str) -> (r: Option<&'a Tensor>)
    ensures
        match r {
            Some(t) => first_found(*weights, seq![a@, b@]) == Some(*t) && t.wf(),
            None => first_found(*weights, seq![a@, b@]) is None,
        },
{
    proof {
        reveal_with_fuel(first_found, 3);
    }
    match weights.get(a) {
        Some(t) => Some(t),
        None => weights.get(b),
    }
}

/// The first of three names that `weights` holds, with its tensor.
pub fn get_first3<'a>(weights: &'a ModelWeights, a: &str, b: &str, c: &str) -> (r: Option<&'a Tensor>)
    ensures
        match r {
            Some(t) => first_found(*weights, seq![a@, b@, c@]) == Some(*t) && t.wf(),
            None => first_found(*weights, seq![a@, b@, c@]) is None,
        },
{
    proof {
        reveal_with_fuel(first_found, 4);
        assert(seq![a@, b@, c@].drop_first() =~= seq![b@, c@]);
        assert(seq![b@, c@].drop_first() =~= seq![c@]);
        assert(seq![c@].drop_first() =~= Seq::<Seq<char>>::empty());
    }
    match weights.get(a) {
        Some(t) => Some(t),
        None => match weights.get(b) {
            Some(t) => Some(t),
            None => weights.get(c),
        },
    }
}

/// Copies `found`, when there is one, into `slot`.
pub fn take_copy(slot: &mut Tensor, found: Option<&Tensor>)
    ensures
        copied(*final(slot), *old(slot), match found { Some(w) => Some(*w), None => None }),
{
    match found {
        Some(w) => {
            *slot = w.duplicate();
        },
        None => {},
    }
}

/// Copies `found`, when there is one, into the optional `slot`.
pub fn take_copy_opt(slot: &mut Option<Tensor>, found: Option<&Tensor>)
    ensures
        copied_opt(*final(slot), *old(slot), match found { Some(w) => Some(*w), None => None }),
{
    match found {
        Some(w) => {
            *slot = Some(w.duplicate());
        },
        None => {},
    }
}

/// A weight that takes a found tensor as it is holds that tensor's shape,
/// element type, device and elements; with nothing found it is unchanged.
pub proof fn lemma_copy_takes_the_found_tensor(t: Tensor, old: Tensor, found: Option<Tensor>)
    requires
        copied(t, old, found),
    ensures
        found matches Some(w) ==> t.shape@ == w.shape@ && t.dtype == w.dtype && t.device == w.device
            && t.elements() == w.elements(),
        found is None ==> t == old,
{
}

/// A weight that takes the transpose of a found `a` by `b` matrix holds at
/// row `c`, column `r` the found entry at row `r`, column `c`; with nothing
/// found it is unchanged.
pub proof fn lemma_transposed_weight_entries(t: Tensor, old: Tensor, w: Tensor, r: int, c: int)
    requires
        transposed(t, old, Some(w)),
        w.wf(),
        w.shape@.len() == 2,
        0 <= r < w.shape@[0],
        0 <= c < w.shape@[1],
    ensures
        t.shape@ == seq![w.shape@[1], w.shape@[0]],
        t.device == w.device,
        t.elements()[c * w.shape@[0] + r] == w.elements()[r * w.shape@[1] + c],
{
    crate::tensor::lemma_matrix_transpose_entries(w, t, r, c);
}

/// A weight left without a found tensor keeps what it held.
pub proof fn lemma_absent_name_keeps_weight(t: Tensor, old: Tensor)
    requires
        transposed(t, old, None) || copied(t, old, None) || conv_loaded(t, old, None),
    ensures
        t == old,
{
}

/// A convolution weight found as `[channels, 1, width]` is taken as
/// `[channels, width]` with the same elements; any other found shape is
/// taken as it is.
pub proof fn lemma_conv_weight_drops_unit_dimension(t: Tensor, old: Tensor, w: Tensor)
    requires
        conv_loaded(t, old, Some(w)),
    ensures
        t.elements() == w.elements(),
        t.device == w.device,
        t.dtype == w.dtype,
        w.shape@.len() == 3 && w.shape@[1] == 1 ==> t.shape@ == seq![w.shape@[0], w.shape@[2]],
        !(w.shape@.len() == 3 && w.shape@[1] == 1) ==> t.shape@ == w.shape@,
{
    if w.shape@.len() == 3 && w.shape@[1] == 1 {
        assert(w.shape@.remove(1) =~= seq![w.shape@[0], w.shape@[2]]);
    }
}

} // verus!
