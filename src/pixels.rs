use vstd::prelude::*;

verus! {

/// Byte `k` of the RGB image made from `rgba`: pixel `k / 3`, channel
/// `k % 3`; a pixel whose alpha byte is zero becomes opaque white, any
/// other keeps its colour and loses its alpha.
pub open spec fn flat_byte(rgba: Seq<u8>, k: int) -> u8 {
    if rgba[4 * (k / 3) + 3] == 0 {
        255
    } else {
        rgba[4 * (k / 3) + k % 3]
    }
}

/// The RGB bytes that `rgba` flattens to, three for each four.
pub open spec fn flattened(rgba: Seq<u8>) -> Seq<u8> {
    Seq::new((3 * (rgba.len() / 4)) as nat, |k: int| flat_byte(rgba, k))
}

/// The bytes handed to the encoder for `format`: RGBA as it is where the
/// format keeps alpha, else the flattened RGB.
pub open spec fn normalized(rgba: Seq<u8>, keeps_alpha: bool) -> Seq<u8> {
    if keeps_alpha { rgba } else { flattened(rgba) }
}

proof fn lemma_byte_of_pixel(x: int, j: int)
    requires
        0 <= x,
        0 <= j < 3,
    ensures
        (3 * x + j) / 3 == x,
        (3 * x + j) % 3 == j,
{
    assert((3 * x + j) / 3 == x && (3 * x + j) % 3 == j) by (nonlinear_arith)
        requires 0 <= x, 0 <= j < 3;
}

/// Drops the alpha channel of RGBA pixels, turning fully transparent ones
/// white. Partial transparency is not blended.
pub fn flatten_alpha(rgba: &[u8]) -> (r: Vec<u8>)
    requires
        rgba@.len() % 4 == 0,
    ensures
        r@ == flattened(rgba@),
{
    let n = rgba.len();
    let pixels = n / 4;
    let mut rgb: Vec<u8> = Vec::new();
    let mut x: usize = 0;
    while x < pixels
        invariant
            pixels == rgba@.len() / 4,
            n == rgba@.len(),
            rgba@.len() % 4 == 0,
            x <= pixels,
            rgb@.len() == 3 * x,
            forall|k: int| 0 <= k < rgb@.len() ==> #[trigger] rgb@[k] == flat_byte(rgba@, k),
        decreases pixels - x,
    {
        proof {
            lemma_byte_of_pixel(x as int, 0);
            lemma_byte_of_pixel(x as int, 1);
            lemma_byte_of_pixel(x as int, 2);
            assert(4 * x + 3 < rgba@.len()) by (nonlinear_arith)
                requires x < pixels, pixels == rgba@.len() / 4, rgba@.len() % 4 == 0;
        }
        let a = rgba[x * 4 + 3];
        if a == 0 {
            rgb.push(255);
            rgb.push(255);
            rgb.push(255);
        } else {
            rgb.push(rgba[x * 4]);
            rgb.push(rgba[x * 4 + 1]);
            rgb.push(rgba[x * 4 + 2]);
        }
        x = x + 1;
    }
    assert(rgb@ =~= flattened(rgba@));
    rgb
}

/// A pixel with alpha zero flattens to white; any other pixel to its own
/// red, green and blue, whatever its alpha.
pub proof fn law_flatten_pixel(rgba: Seq<u8>, i: int)
    requires
        rgba.len() % 4 == 0,
        0 <= i < rgba.len() / 4,
    ensures
        flattened(rgba).subrange(3 * i, 3 * i + 3) == (if rgba[4 * i + 3] == 0 {
            seq![255u8, 255u8, 255u8]
        } else {
            seq![rgba[4 * i], rgba[4 * i + 1], rgba[4 * i + 2]]
        }),
{
    lemma_byte_of_pixel(i, 0);
    lemma_byte_of_pixel(i, 1);
    lemma_byte_of_pixel(i, 2);
    assert(3 * i + 3 <= 3 * (rgba.len() / 4)) by (nonlinear_arith)
        requires i < rgba.len() / 4;
    let s = flattened(rgba).subrange(3 * i, 3 * i + 3);
    if rgba[4 * i + 3] == 0 {
        assert(s =~= seq![255u8, 255u8, 255u8]);
    } else {
        assert(s =~= seq![rgba[4 * i], rgba[4 * i + 1], rgba[4 * i + 2]]);
    }
}

/// Where the format keeps alpha, the pixels go to the encoder unchanged.
pub proof fn law_alpha_kept(rgba: Seq<u8>)
    ensures
        normalized(rgba, true) == rgba,
{
}

} // verus!
