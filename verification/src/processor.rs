//! Turning captured images into GIF frames.
use vstd::prelude::*;
use crate::record::{Bgr8, Image, Frame, gifFrame};

verus! {

/// The bytes of `pixels` in red-green-blue order, three per pixel, pixels
/// kept in their order.
pub open spec fn rgb_bytes(pixels: Seq<Bgr8>) -> Seq<u8>
    decreases pixels.len(),
{
    if pixels.len() == 0 {
        Seq::empty()
    } else {
        rgb_bytes(pixels.drop_last()) + seq![
            pixels.last().r,
            pixels.last().g,
            pixels.last().b,
        ]
    }
}

/// `rgb_bytes` has three bytes per pixel, and the bytes of pixel `i` are
/// its red, green and blue values at positions `3 * i`, `3 * i + 1` and
/// `3 * i + 2`.
pub proof fn lemma_rgb_bytes_layout(pixels: Seq<Bgr8>)
    ensures
        rgb_bytes(pixels).len() == 3 * pixels.len(),
        forall|i: int|
            #![trigger pixels[i]]
            0 <= i < pixels.len() ==> {
                &&& rgb_bytes(pixels)[3 * i] == pixels[i].r
                &&& rgb_bytes(pixels)[3 * i + 1] == pixels[i].g
                &&& rgb_bytes(pixels)[3 * i + 2] == pixels[i].b
            },
    decreases pixels.len(),
{
    if pixels.len() > 0 {
        let init = pixels.drop_last();
        lemma_rgb_bytes_layout(init);
        assert forall|i: int| #![trigger pixels[i]] 0 <= i < pixels.len() implies {
            &&& rgb_bytes(pixels)[3 * i] == pixels[i].r
            &&& rgb_bytes(pixels)[3 * i + 1] == pixels[i].g
            &&& rgb_bytes(pixels)[3 * i + 2] == pixels[i].b
        } by {
            if i < init.len() {
                assert(init[i] == pixels[i]);
            }
        }
    }
}

/// Lays the pixels out as RGB bytes, the input that the GIF encoder's RGB
/// constructor takes.
pub fn convert(s: &[Bgr8]) -> (v: Vec<u8>)
    ensures
        v@ == rgb_bytes(s@),
        v@.len() == 3 * s@.len(),
        forall|i: int|
            #![trigger s@[i]]
            0 <= i < s@.len() ==> {
                &&& v@[3 * i] == s@[i].r
                &&& v@[3 * i + 1] == s@[i].g
                &&& v@[3 * i + 2] == s@[i].b
            },
{
    let mut v: Vec<u8> = Vec::with_capacity(s.len());
    let n: usize = s.len();
    for i in 0..n
        invariant
            n == s@.len(),
            v@ == rgb_bytes(s@.take(i as int)),
    {
        let p = s[i];
        v.push(p.r);
        v.push(p.g);
        v.push(p.b);
        assert(s@.take(i + 1).drop_last() =~= s@.take(i as int));
    }
    assert(s@.take(n as int) =~= s@);
    proof {
        lemma_rgb_bytes_layout(s@);
    }
    v
}

/// The colour of pixel `i` of RGB bytes laid out three per pixel.
pub open spec fn rgb_at(bytes: Seq<u8>, i: int) -> (u8, u8, u8) {
    (bytes[3 * i], bytes[3 * i + 1], bytes[3 * i + 2])
}

/// The distinct colours among the pixels of RGB bytes.
pub open spec fn rgb_colours(bytes: Seq<u8>) -> Set<(u8, u8, u8)> {
    Set::new(|c: (u8, u8, u8)| exists|i: int| 0 <= i < bytes.len() / 3 && rgb_at(bytes, i) == c)
}

/// The colour of a captured pixel as (red, green, blue).
pub open spec fn pixel_colour(p: Bgr8) -> (u8, u8, u8) {
    (p.r, p.g, p.b)
}

/// The distinct colours among the pixels.
pub open spec fn image_colours(pixels: Seq<Bgr8>) -> Set<(u8, u8, u8)> {
    Set::new(|c: (u8, u8, u8)| exists|i: int| 0 <= i < pixels.len() && pixel_colour(pixels[i]) == c)
}

/// Entry `k` of a palette of RGB triples.
pub open spec fn palette_colour(palette: Seq<u8>, k: int) -> (u8, u8, u8) {
    (palette[3 * k], palette[3 * k + 1], palette[3 * k + 2])
}

/// The frame's indices show the pixels exactly: pixel `i` (in row-major
/// order) indexes an entry of the palette, and that entry is the pixel's
/// colour.
pub open spec fn shows_pixels(buffer: Seq<u8>, palette: Seq<u8>, pixels: Seq<Bgr8>) -> bool {
    &&& buffer.len() == pixels.len()
    &&& forall|i: int|
        #![trigger buffer[i]]
        0 <= i < pixels.len() ==> {
            &&& 3 * buffer[i] + 3 <= palette.len()
            &&& palette_colour(palette, buffer[i] as int) == pixel_colour(pixels[i])
        }
}

/// The colour indices and the palette that the GIF encoder's RGB
/// constructor computes for an image of the given size with these RGB
/// bytes (an exact palette for at most 256 colours, NeuQuant otherwise).
pub uninterp spec fn rgb_quantization(width: u16, height: u16, pixels: Seq<u8>) -> (Seq<u8>, Seq<u8>);

/// Calls `gif::Frame::from_rgb`, which panics unless there are exactly three
/// bytes per pixel. Its source shows that the frame keeps the given size,
/// holds one palette index per pixel in the pixels' order, always has a
/// local palette and (all pixels being opaque) no transparent index. The
/// index of a pixel depends on its colour alone (a lookup by colour, or
/// NeuQuant's `index_of`). With at most 256 distinct colours the palette is
/// exact: a pixel's index points at an entry holding its own colour. With
/// more, NeuQuant picks a near colour, which is not stated; the indices and
/// the palette themselves are named by `rgb_quantization`.
#[verifier::external_body]
fn frame_from_rgb(width: u16, height: u16, pixels: &[u8]) -> (f: Frame)
    requires
        pixels@.len() == width * height * 3,
    ensures
        f.width == width,
        f.height == height,
        f.transparent is None,
        f.buffer@.len() == width * height,
        f.palette is Some,
        (f.buffer@, f.palette.unwrap()@) == rgb_quantization(width, height, pixels@),
        forall|i: int, j: int|
            #![trigger f.buffer@[i], f.buffer@[j]]
            0 <= i < width * height && 0 <= j < width * height && rgb_at(pixels@, i) == rgb_at(
                pixels@,
                j,
            ) ==> f.buffer@[i] == f.buffer@[j],
        rgb_colours(pixels@).len() <= 256 ==> forall|i: int|
            #![trigger f.buffer@[i]]
            0 <= i < width * height ==> {
                &&& 3 * f.buffer@[i] + 3 <= f.palette.unwrap()@.len()
                &&& palette_colour(f.palette.unwrap()@, f.buffer@[i] as int) == rgb_at(pixels@, i)
            },
{
    let g = gif::Frame::from_rgb(width, height, pixels);
    Frame {
        width: g.width,
        height: g.height,
        transparent: g.transparent,
        palette: g.palette,
        buffer: g.buffer.into_owned(),
    }
}

/// Encodes one captured image as a GIF frame, keeping its sequence number.
///
/// Pixels of the same colour get the same index; when the image has at most
/// 256 colours, the frame shows every pixel, in its place, in its own
/// colour.
pub fn work(v: Image) -> (res: gifFrame)
    requires
        v.wf(),
    ensures
        res.id == v.id,
        res.frame.width == v.width,
        res.frame.height == v.height,
        res.frame.transparent is None,
        res.frame.buffer@.len() == v.width * v.height,
        res.frame.palette is Some,
        (res.frame.buffer@, res.frame.palette.unwrap()@) == rgb_quantization(
            v.width,
            v.height,
            rgb_bytes(v.Image@),
        ),
        forall|i: int, j: int|
            #![trigger res.frame.buffer@[i], res.frame.buffer@[j]]
            0 <= i < v.Image@.len() && 0 <= j < v.Image@.len() && pixel_colour(v.Image@[i])
                == pixel_colour(v.Image@[j]) ==> res.frame.buffer@[i] == res.frame.buffer@[j],
        image_colours(v.Image@).len() <= 256 ==> shows_pixels(
            res.frame.buffer@,
            res.frame.palette.unwrap()@,
            v.Image@,
        ),
{
    let bytes = convert(v.Image.as_slice());
    assert(bytes@.len() == v.width * v.height * 3) by (nonlinear_arith)
        requires
            bytes@.len() == 3 * v.Image@.len(),
            v.Image@.len() == v.width * v.height,
    ;
    let frame = frame_from_rgb(v.width, v.height, bytes.as_slice());
    proof {
        let px = v.Image@;
        let n = px.len() as int;
        assert forall|i: int| 0 <= i < n implies rgb_at(bytes@, i) == pixel_colour(
            #[trigger] px[i],
        ) by {}
        assert(bytes@.len() / 3 == n);
        assert(image_colours(px) =~= rgb_colours(bytes@)) by {
            assert forall|c: (u8, u8, u8)| image_colours(px).contains(c) implies rgb_colours(
                bytes@,
            ).contains(c) by {
                let i = choose|i: int| 0 <= i < n && pixel_colour(px[i]) == c;
                assert(rgb_at(bytes@, i) == c);
            }
            assert forall|c: (u8, u8, u8)| rgb_colours(bytes@).contains(c) implies image_colours(
                px,
            ).contains(c) by {
                let i = choose|i: int| 0 <= i < bytes@.len() / 3 && rgb_at(bytes@, i) == c;
                assert(pixel_colour(px[i]) == c);
            }
        }
        assert forall|i: int, j: int|
            0 <= i < n && 0 <= j < n && pixel_colour(px[i]) == pixel_colour(
                px[j],
            ) implies #[trigger] frame.buffer@[i] == #[trigger] frame.buffer@[j] by {
            assert(rgb_at(bytes@, i) == pixel_colour(px[i]));
            assert(rgb_at(bytes@, j) == pixel_colour(px[j]));
        }
        if image_colours(px).len() <= 256 {
            assert forall|i: int| 0 <= i < n implies {
                &&& 3 * #[trigger] frame.buffer@[i] + 3 <= frame.palette.unwrap()@.len()
                &&& palette_colour(frame.palette.unwrap()@, frame.buffer@[i] as int)
                    == pixel_colour(px[i])
            } by {
                assert(rgb_at(bytes@, i) == pixel_colour(px[i]));
            }
        }
    }
    gifFrame { frame, id: v.id }
}

/// In a frame that shows its image's pixels, two pixels share an index
/// exactly when they share a colour: the frame neither merges nor splits
/// colours, and every pixel keeps its place.
pub proof fn law_shown_pixels_share_index_iff_colour(
    buffer: Seq<u8>,
    palette: Seq<u8>,
    pixels: Seq<Bgr8>,
    i: int,
    j: int,
)
    requires
        shows_pixels(buffer, palette, pixels),
        0 <= i < pixels.len(),
        0 <= j < pixels.len(),
        forall|a: int, b: int|
            #![trigger buffer[a], buffer[b]]
            0 <= a < pixels.len() && 0 <= b < pixels.len() && pixel_colour(pixels[a])
                == pixel_colour(pixels[b]) ==> buffer[a] == buffer[b],
    ensures
        (buffer[i] == buffer[j]) <==> (pixels[i].r == pixels[j].r && pixels[i].g == pixels[j].g
            && pixels[i].b == pixels[j].b),
{
    assert(palette_colour(palette, buffer[i] as int) == pixel_colour(pixels[i]));
    assert(palette_colour(palette, buffer[j] as int) == pixel_colour(pixels[j]));
    if pixel_colour(pixels[i]) == pixel_colour(pixels[j]) {
        assert(buffer[i] == buffer[j]);
    }
}

} // verus!
