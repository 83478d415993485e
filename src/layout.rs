//! The model's input tensor: its shape, and how a resized RGB image is laid
//! out in it.
//!
//! The model takes a `[1, 3, 224, 224]` tensor of 32-bit floats in
//! channel-first order. Each element is the normalised intensity of one
//! channel of one pixel. Since an intensity is one of 256 levels, the
//! normalisation is a table of `3 * 256` float bit patterns, indexed by
//! `channel * 256 + level`; the tensor is then a gather from that table.
use vstd::prelude::*;

verus! {

pub const INPUT_BATCH: usize = 1;

pub const INPUT_CHANNELS: usize = 3;

pub const INPUT_HEIGHT: usize = 224;

pub const INPUT_WIDTH: usize = 224;

/// Number of pixels of one channel plane.
pub const PLANE_LEN: usize = 50176;

/// Number of elements of the input tensor.
pub const TENSOR_LEN: usize = 150528;

/// Number of intensity levels of an 8-bit channel.
pub const LEVELS: usize = 256;

/// Number of entries of a normalisation table.
pub const TABLE_LEN: usize = 768;

pub open spec fn input_shape_spec() -> Seq<usize> {
    seq![INPUT_BATCH, INPUT_CHANNELS, INPUT_HEIGHT, INPUT_WIDTH]
}

/// Product of the dimensions of a shape.
pub open spec fn element_count(shape: Seq<usize>) -> int
    decreases shape.len(),
{
    if shape.len() == 0 {
        1
    } else {
        shape[0] * element_count(shape.drop_first())
    }
}

/// Byte offset of channel `c` of pixel `p` in a row-major RGB buffer.
pub open spec fn rgb_offset(p: int, c: int) -> int {
    p * INPUT_CHANNELS + c
}

/// Offset of channel `c` of the pixel at row `y`, column `x` in the
/// channel-first tensor.
pub open spec fn tensor_offset(c: int, y: int, x: int) -> int {
    c * PLANE_LEN + y * INPUT_WIDTH + x
}

/// Element `k` of the tensor: the table entry for the channel of plane
/// `k / PLANE_LEN` of pixel `k % PLANE_LEN`.
pub open spec fn tensor_value(pixels: Seq<u8>, table: Seq<u32>, k: int) -> u32 {
    let c = k / PLANE_LEN as int;
    let p = k % PLANE_LEN as int;
    table[c * LEVELS + pixels[rgb_offset(p, c)] as int]
}

pub open spec fn input_tensor(pixels: Seq<u8>, table: Seq<u32>) -> Seq<u32> {
    Seq::new(TENSOR_LEN as nat, |k: int| tensor_value(pixels, table, k))
}

/// The shape the model is bound to: batch, channels, height, width.
pub fn input_shape() -> (r: Vec<usize>)
    ensures
        r@ == input_shape_spec(),
{
    let r = vec![INPUT_BATCH, INPUT_CHANNELS, INPUT_HEIGHT, INPUT_WIDTH];
    assert(r@ =~= input_shape_spec());
    r
}

/// Lays a resized image out as the model's input tensor, each intensity
/// replaced by its entry of the normalisation table.
pub fn build_input_tensor(pixels: &Vec<u8>, table: &Vec<u32>) -> (r: Vec<u32>)
    requires
        pixels@.len() == PLANE_LEN * INPUT_CHANNELS,
        table@.len() == TABLE_LEN,
    ensures
        r@ == input_tensor(pixels@, table@),
        r@.len() == element_count(input_shape_spec()),
{
    let mut out: Vec<u32> = Vec::with_capacity(TENSOR_LEN);
    let mut k: usize = 0;
    while k < TENSOR_LEN
        invariant
            pixels@.len() == PLANE_LEN * INPUT_CHANNELS,
            table@.len() == TABLE_LEN,
            k <= TENSOR_LEN,
            out@.len() == k,
            forall|j: int| 0 <= j < k ==> #[trigger] out@[j] == tensor_value(pixels@, table@, j),
        decreases TENSOR_LEN - k,
    {
        let c: usize = k / PLANE_LEN;
        let p: usize = k % PLANE_LEN;
        let level: u8 = pixels[p * INPUT_CHANNELS + c];
        out.push(table[c * LEVELS + level as usize]);
        k += 1;
    }
    assert(out@ =~= input_tensor(pixels@, table@));
    proof {
        lemma_input_shape_count();
    }
    out
}

/// The input shape holds exactly `TENSOR_LEN` elements.
pub proof fn lemma_input_shape_count()
    ensures
        element_count(input_shape_spec()) == TENSOR_LEN,
{
    let s = input_shape_spec();
    assert(s.drop_first().drop_first().drop_first().drop_first().len() == 0);
    reveal_with_fuel(element_count, 5);
}

/// Every element of the tensor is found where the channel-first layout puts
/// it: channel `c` of the pixel at row `y`, column `x` is at
/// `tensor_offset(c, y, x)`, and is that channel's table entry for that
/// pixel's intensity.
pub proof fn lemma_channel_first_layout(pixels: Seq<u8>, table: Seq<u32>, c: int, y: int, x: int)
    requires
        0 <= c < INPUT_CHANNELS,
        0 <= y < INPUT_HEIGHT,
        0 <= x < INPUT_WIDTH,
    ensures
        0 <= tensor_offset(c, y, x) < TENSOR_LEN,
        input_tensor(pixels, table)[tensor_offset(c, y, x)] == table[c * LEVELS
            + pixels[rgb_offset(y * INPUT_WIDTH + x, c)] as int],
{
    let p = y * INPUT_WIDTH + x;
    assert(0 <= p < PLANE_LEN) by (nonlinear_arith)
        requires
            0 <= y < 224,
            0 <= x < 224,
            p == y * 224 + x,
    ;
    let k = tensor_offset(c, y, x);
    assert(k / PLANE_LEN as int == c && k % PLANE_LEN as int == p) by (nonlinear_arith)
        requires
            0 <= c < 3,
            0 <= p < 50176,
            k == c * 50176 + p,
    ;
}

} // verus!
