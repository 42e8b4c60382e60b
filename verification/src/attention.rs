//! The integer decisions of an attention layer's forward pass, shared by the
//! decoders: how the hidden states' shape is read, where queries, keys and
//! values lie in a packed projection, how many query heads share one
//! key-value head, how far a cached pass is offset, and which positions each
//! new token may attend to.
use vstd::prelude::*;
use crate::common::ModelError;

verus! {

/// Batch size, number of new positions and width of hidden states.
#[derive(Clone, Copy, Debug, PartialEq, Eq, Structural)]
pub struct HiddenDims {
    pub batch_size: usize,
    pub seq_len: usize,
    pub hidden_size: usize,
}

/// How hidden states of this shape are read: `[batch, seq, hidden]` as it
/// is, `[seq, hidden]` as a batch of one; other ranks are refused.
pub open spec fn hidden_dims_of(shape: Seq<usize>) -> Option<HiddenDims> {
    if shape.len() == 3 {
        Some(HiddenDims { batch_size: shape[0], seq_len: shape[1], hidden_size: shape[2] })
    } else if shape.len() == 2 {
        Some(HiddenDims { batch_size: 1, seq_len: shape[0], hidden_size: shape[1] })
    } else {
        None
    }
}

/// The error of hidden states that are neither two- nor three-dimensional.
pub open spec fn is_hidden_shape_error(e: ModelError) -> bool {
    e matches ModelError::InvalidInput(m) && m@ == "hidden states must have two or three dimensions"@
}

/// Reads the batch size, number of positions and width from the shape of
/// hidden states.
pub fn hidden_dims(shape: &[usize]) -> (r: Result<HiddenDims, ModelError>)
    ensures
        r is Ok <==> hidden_dims_of(shape@) is Some,
        r matches Ok(d) ==> hidden_dims_of(shape@) == Some(d),
        r matches Err(e) ==> is_hidden_shape_error(e),
{
    if shape.len() == 3 {
        Ok(HiddenDims { batch_size: shape[0], seq_len: shape[1], hidden_size: shape[2] })
    } else if shape.len() == 2 {
        Ok(HiddenDims { batch_size: 1, seq_len: shape[0], hidden_size: shape[1] })
    } else {
        proof {
            reveal_strlit("hidden states must have two or three dimensions");
        }
        Err(ModelError::InvalidInput(String::from_str("hidden states must have two or three dimensions")))
    }
}

/// Where queries, keys and values lie along the last dimension of a packed
/// projection: each as a start and a length.
#[derive(Clone, Copy, Debug, PartialEq, Eq, Structural)]
pub struct PackedQkv {
    pub q_start: usize,
    pub q_len: usize,
    pub k_start: usize,
    pub k_len: usize,
    pub v_start: usize,
    pub v_len: usize,
}

/// The layout of a packed projection: `num_heads` query heads, then
/// `num_kv_heads` key heads, then as many value heads, each `head_dim` wide.
pub open spec fn packed_qkv_of(num_heads: nat, num_kv_heads: nat, head_dim: nat) -> PackedQkv {
    let q = num_heads * head_dim;
    let kv = num_kv_heads * head_dim;
    PackedQkv {
        q_start: 0,
        q_len: q as usize,
        k_start: q as usize,
        k_len: kv as usize,
        v_start: (q + kv) as usize,
        v_len: kv as usize,
    }
}

/// The layout of a packed projection; the three parts follow one another
/// and fill its width `(num_heads + 2 * num_kv_heads) * head_dim`.
pub fn packed_qkv(num_heads: usize, num_kv_heads: usize, head_dim: usize) -> (r: PackedQkv)
    requires
        (num_heads + 2 * num_kv_heads) * head_dim <= usize::MAX,
    ensures
        r == packed_qkv_of(num_heads as nat, num_kv_heads as nat, head_dim as nat),
        r.v_start + r.v_len == (num_heads + 2 * num_kv_heads) * head_dim,
{
    proof {
        let (h, k, d) = (num_heads as int, num_kv_heads as int, head_dim as int);
        assert((h + 2 * k) * d == h * d + k * d + k * d && h * d >= 0 && k * d >= 0) by (nonlinear_arith)
            requires
                h >= 0,
                k >= 0,
                d >= 0,
        ;
    }
    let q = num_heads * head_dim;
    let kv = num_kv_heads * head_dim;
    PackedQkv { q_start: 0, q_len: q, k_start: q, k_len: kv, v_start: q + kv, v_len: kv }
}

/// How the query heads use the key-value heads: each key-value head serves
/// `num_groups` query heads, and is repeated when that is more than one.
#[derive(Clone, Copy, Debug, PartialEq, Eq, Structural)]
pub struct HeadGroups {
    pub num_groups: usize,
    pub repeat_kv: bool,
}

/// How `num_heads` query heads share `num_kv_heads` key-value heads.
pub fn head_groups(num_heads: usize, num_kv_heads: usize) -> (r: HeadGroups)
    requires
        num_kv_heads > 0,
    ensures
        r.num_groups == num_heads / num_kv_heads,
        r.repeat_kv == (num_heads / num_kv_heads > 1),
{
    let num_groups = num_heads / num_kv_heads;
    HeadGroups { num_groups, repeat_kv: num_groups > 1 }
}

/// The positions a cached pass works with: the new tokens sit from
/// `position_offset` on, keys span `total_len` positions, and the cache
/// holds `next_cache_len` positions afterwards.
#[derive(Clone, Copy, Debug, PartialEq, Eq, Structural)]
pub struct CachePositions {
    pub position_offset: usize,
    pub total_len: usize,
    pub next_cache_len: usize,
}

/// The positions of a pass over `new_len` tokens: with a cache that holds
/// `cached` positions the new tokens follow them and attend to all of them;
/// without one they start at zero and attend to themselves.
pub open spec fn cache_positions_of(new_len: nat, cached: Option<usize>) -> CachePositions {
    match cached {
        Some(c) => CachePositions {
            position_offset: c,
            total_len: (c + new_len) as usize,
            next_cache_len: (c + new_len) as usize,
        },
        None => CachePositions { position_offset: 0, total_len: new_len as usize, next_cache_len: new_len as usize },
    }
}

/// The positions of a pass over `new_len` tokens, with or without a cache.
pub fn cache_positions(new_len: usize, cached: Option<usize>) -> (r: CachePositions)
    requires
        cached matches Some(c) ==> c + new_len <= usize::MAX,
    ensures
        r == cache_positions_of(new_len as nat, cached),
{
    match cached {
        Some(c) => CachePositions { position_offset: c, total_len: c + new_len, next_cache_len: c + new_len },
        None => CachePositions { position_offset: 0, total_len: new_len, next_cache_len: new_len },
    }
}

/// Whether the new token at row `i` may attend to the key at position `j`:
/// the token sits at `offset + i` and sees no later position.
pub open spec fn visible(offset: int, i: int, j: int) -> bool {
    j <= offset + i
}

/// The causal mask of `new_len` new tokens over `total_len` key positions,
/// row by row: entry `p` is row `p / total_len`, column `p % total_len`.
pub open spec fn causal_mask_of(new_len: nat, total_len: nat, offset: nat) -> Seq<bool> {
    Seq::new(new_len * total_len, |p: int| visible(offset as int, p / (total_len as int), p % (total_len as int)))
}

/// Entry `i * total + j` of a row-by-row table is row `i`, column `j`, and
/// lies before the table's end.
proof fn lemma_row_major(i: int, j: int, rows: int, total: int)
    requires
        0 <= i < rows,
        0 <= j < total,
    ensures
        (i * total + j) / total == i,
        (i * total + j) % total == j,
        0 <= i * total + j < rows * total,
        i * total + j + 1 <= rows * total,
{
    vstd::arithmetic::div_mod::lemma_fundamental_div_mod_converse(i * total + j, total, i, j);
    assert(0 <= i * total + j < rows * total) by (nonlinear_arith)
        requires
            0 <= i < rows,
            0 <= j < total,
    ;
}

/// The causal mask of a pass: `true` where a new token may attend to a key
/// position, `false` where the key lies in its future.
pub fn causal_mask(new_len: usize, total_len: usize, offset: usize) -> (r: Vec<bool>)
    requires
        new_len * total_len <= usize::MAX,
    ensures
        r@ == causal_mask_of(new_len as nat, total_len as nat, offset as nat),
        forall|i: int, j: int|
            0 <= i < new_len && 0 <= j < total_len ==> #[trigger] r@[i * total_len + j] == visible(
                offset as int,
                i,
                j,
            ),
{
    let ghost spec_mask = causal_mask_of(new_len as nat, total_len as nat, offset as nat);
    let mut r: Vec<bool> = Vec::new();
    let mut i: usize = 0;
    assert(0 * total_len == 0) by (nonlinear_arith);
    while i < new_len
        invariant
            i <= new_len,
            new_len * total_len <= usize::MAX,
            spec_mask == causal_mask_of(new_len as nat, total_len as nat, offset as nat),
            r@.len() == i * total_len,
            forall|p: int| 0 <= p < r@.len() ==> r@[p] == spec_mask[p],
        decreases new_len - i,
    {
        let mut j: usize = 0;
        while j < total_len
            invariant
                i < new_len,
                j <= total_len,
                new_len * total_len <= usize::MAX,
                spec_mask == causal_mask_of(new_len as nat, total_len as nat, offset as nat),
                r@.len() == i * total_len + j,
                forall|p: int| 0 <= p < r@.len() ==> r@[p] == spec_mask[p],
            decreases total_len - j,
        {
            proof {
                lemma_row_major(i as int, j as int, new_len as int, total_len as int);
            }
            let seen = (j as u128) <= (offset as u128) + (i as u128);
            r.push(seen);
            j += 1;
        }
        proof {
            assert((i + 1) * total_len == i * total_len + total_len) by (nonlinear_arith);
        }
        i += 1;
    }
    proof {
        assert(r@.len() == spec_mask.len());
        assert(r@ =~= spec_mask);
        assert forall|i: int, j: int| 0 <= i < new_len && 0 <= j < total_len implies #[trigger] r@[i * total_len
            + j] == visible(offset as int, i, j) by {
            lemma_row_major(i, j, new_len as int, total_len as int);
        }
    }
    r
}

/// The integer decisions of one attention pass over hidden states.
#[derive(Debug)]
pub struct AttentionPlan {
    pub dims: HiddenDims,
    pub groups: HeadGroups,
    pub positions: CachePositions,
    /// Row by row, whether each new token may attend to each key position.
    pub mask: Vec<bool>,
}

/// The new positions of hidden states of this shape; none when the shape is
/// refused.
pub open spec fn new_positions(shape: Seq<usize>) -> nat {
    match hidden_dims_of(shape) {
        Some(d) => d.seq_len as nat,
        None => 0,
    }
}

/// Plans a pass of an attention layer with `num_heads` query heads and
/// `num_kv_heads` key-value heads over hidden states of shape
/// `hidden_shape`, with a cache holding `cached` positions or without one:
/// refuses a shape of another rank than two or three, and otherwise reads
/// the dimensions, shares the heads, places the new tokens after the cached
/// ones and masks every key in a token's future.
pub fn plan_attention(hidden_shape: &[usize], num_heads: usize, num_kv_heads: usize, cached: Option<usize>) -> (r:
    Result<AttentionPlan, ModelError>)
    requires
        num_kv_heads > 0,
        cached matches Some(c) ==> c + new_positions(hidden_shape@) <= usize::MAX,
        new_positions(hidden_shape@) * cache_positions_of(new_positions(hidden_shape@), cached).total_len
            <= usize::MAX,
    ensures
        r is Ok <==> hidden_dims_of(hidden_shape@) is Some,
        r matches Err(e) ==> is_hidden_shape_error(e),
        r matches Ok(p) ==> {
            &&& hidden_dims_of(hidden_shape@) == Some(p.dims)
            &&& p.groups.num_groups == num_heads / num_kv_heads
            &&& p.groups.repeat_kv == (num_heads / num_kv_heads > 1)
            &&& p.positions == cache_positions_of(p.dims.seq_len as nat, cached)
            &&& p.mask@ == causal_mask_of(
                p.dims.seq_len as nat,
                p.positions.total_len as nat,
                p.positions.position_offset as nat,
            )
        },
{
    let dims = match hidden_dims(hidden_shape) {
        Ok(d) => d,
        Err(e) => {
            return Err(e);
        },
    };
    let groups = head_groups(num_heads, num_kv_heads);
    let positions = cache_positions(dims.seq_len, cached);
    let mask = causal_mask(dims.seq_len, positions.total_len, positions.position_offset);
    Ok(AttentionPlan { dims, groups, positions, mask })
}

/// A new token sees its own position and every earlier one, and nothing
/// after it: the position `offset + i` of row `i` is visible, the next one is
/// not, and visibility only shrinks toward later keys and only grows toward
/// later rows.
pub proof fn lemma_mask_sees_exactly_the_past(offset: int, i: int, j: int)
    requires
        offset >= 0,
        i >= 0,
        j >= 1,
    ensures
        visible(offset, i, offset + i),
        !visible(offset, i, offset + i + 1),
        visible(offset, i, j) ==> visible(offset, i, j - 1),
        !visible(offset, i, j - 1) ==> !visible(offset, i, j),
        visible(offset, i, j) ==> visible(offset, i + 1, j),
{
}

/// Accepted hidden states are read from their two last dimensions, the
/// batch from a leading third one or as one, and the three sizes account for
/// every element.
pub proof fn lemma_hidden_dims_cover_the_shape(shape: Seq<usize>)
    requires
        hidden_dims_of(shape) is Some,
    ensures
        shape.len() == 2 || shape.len() == 3,
        hidden_dims_of(shape)->0.seq_len == shape[shape.len() - 2],
        hidden_dims_of(shape)->0.hidden_size == shape[shape.len() - 1],
        shape.len() == 3 ==> hidden_dims_of(shape)->0.batch_size == shape[0],
        shape.len() == 2 ==> hidden_dims_of(shape)->0.batch_size == 1,
{
}

/// The three parts of a packed projection lie one after another, queries
/// `num_heads * head_dim` wide, keys and values `num_kv_heads * head_dim`
/// each.
pub proof fn lemma_packed_parts_are_consecutive(num_heads: nat, num_kv_heads: nat, head_dim: nat)
    requires
        (num_heads + 2 * num_kv_heads) * head_dim <= usize::MAX,
    ensures
        packed_qkv_of(num_heads, num_kv_heads, head_dim).q_start == 0,
        packed_qkv_of(num_heads, num_kv_heads, head_dim).q_len == num_heads * head_dim,
        packed_qkv_of(num_heads, num_kv_heads, head_dim).k_start == packed_qkv_of(num_heads, num_kv_heads, head_dim).q_len,
        packed_qkv_of(num_heads, num_kv_heads, head_dim).k_len == num_kv_heads * head_dim,
        packed_qkv_of(num_heads, num_kv_heads, head_dim).v_start == packed_qkv_of(num_heads, num_kv_heads, head_dim).k_start
            + packed_qkv_of(num_heads, num_kv_heads, head_dim).k_len,
        packed_qkv_of(num_heads, num_kv_heads, head_dim).v_len == num_kv_heads * head_dim,
{
    let (h, k, d) = (num_heads as int, num_kv_heads as int, head_dim as int);
    assert((h + 2 * k) * d == h * d + k * d + k * d && h * d >= 0 && k * d >= 0) by (nonlinear_arith)
        requires
            h >= 0,
            k >= 0,
            d >= 0,
    ;
}

/// New tokens are placed right after the cached ones (at zero without a
/// cache), attend to every cached position and to themselves, and leave the
/// cache holding both.
pub proof fn lemma_cache_positions_follow_the_cache(new_len: nat, cached: Option<usize>)
    requires
        cached matches Some(c) ==> c + new_len <= usize::MAX,
        new_len <= usize::MAX,
    ensures
        cache_positions_of(new_len, cached).position_offset == (match cached {
            Some(c) => c,
            None => 0usize,
        }),
        cache_positions_of(new_len, cached).total_len == cache_positions_of(new_len, cached).position_offset + new_len,
        cache_positions_of(new_len, cached).next_cache_len == cache_positions_of(new_len, cached).total_len,
{
}

} // verus!
