//! Lays the two fixed overlays over a rendered raster and encodes the result.
//!
//! A raster is a plain buffer of RGBA bytes, row by row. The PNG encoding is
//! the `image` crate's and is not proved here.

use image::ColorType;
use image::ImageError;
use image::ImageOutputFormat;
use std::io::Cursor;
use vstd::prelude::*;

verus! {

/// `image::ImageError`, carried through verified code as an opaque value.
#[verifier::external_type_specification]
#[verifier::external_body]
pub struct ExImageError(image::ImageError);

/// What comes of asking the `image` crate to write an RGBA raster of the
/// given size as a PNG file into memory: the file, or nothing where the
/// encoder refuses the raster, as it does one without pixels.
pub uninterp spec fn png_of(width: u32, height: u32, pixels: Seq<u8>) -> Option<Seq<u8>>;

/// Calls `image::write_buffer_with_format` with the RGBA colour type and the
/// PNG format, writing into memory. That function panics unless the buffer
/// holds four bytes for every pixel. It writes nowhere but into memory, so
/// whether it succeeds and what it writes depend on the size and the pixels
/// alone: both are named, neither is described.
#[verifier::external_body]
fn write_png(width: u32, height: u32, pixels: &Vec<u8>) -> (written: Result<Vec<u8>, ImageError>)
    requires
        pixels@.len() == 4 * (width * height),
    ensures
        written is Ok <==> png_of(width, height, pixels@) is Some,
        written is Ok ==> written->Ok_0@ == png_of(width, height, pixels@)->0,
{
    let mut buffer = Cursor::new(Vec::new());
    image::write_buffer_with_format(
        &mut buffer,
        pixels,
        width,
        height,
        ColorType::Rgba8,
        ImageOutputFormat::Png,
    )?;
    Ok(buffer.into_inner())
}

/// An image of `width` by `height` pixels, four bytes to a pixel: red, green,
/// blue, alpha.
#[derive(Debug)]
pub struct Raster {
    pub width: u32,
    pub height: u32,
    pub pixels: Vec<u8>,
}

/// Why a raster could not be turned into an image.
#[derive(Clone, Copy, Debug, PartialEq, Eq, Structural)]
pub enum ComposeError {
    /// The raster or an overlay does not hold four bytes for every pixel.
    BadRaster,
    /// An overlay is not of the raster's size.
    SizeMismatch,
    /// The encoder refused the image.
    Encoding,
}

/// A channel under a multiply blend: the product, scaled back to a byte.
pub open spec fn multiplied(base: u8, overlay: u8) -> u8 {
    ((base * overlay) / 255) as u8
}

/// A channel under an overlay of opacity `alpha`: the overlay where it is
/// opaque, the base where it is clear, and a mix in between.
pub open spec fn replaced(base: u8, overlay: u8, alpha: u8) -> u8 {
    ((base * (255 - alpha) + overlay * alpha) / 255) as u8
}

/// Whether byte `k` of a raster is an alpha byte.
pub open spec fn is_alpha(k: int) -> bool {
    k % 4 == 3
}

/// `base` multiplied by one overlay. Alpha bytes are kept.
pub open spec fn multiply_layer(base: Seq<u8>, overlay: Seq<u8>) -> Seq<u8> {
    Seq::new(
        base.len(),
        |k: int|
            if is_alpha(k) {
                base[k]
            } else {
                multiplied(base[k], overlay[k])
            },
    )
}

/// `base` under one overlay, mixed by the overlay's alpha. Alpha bytes of the
/// base are kept.
pub open spec fn replace_layer(base: Seq<u8>, overlay: Seq<u8>) -> Seq<u8> {
    Seq::new(
        base.len(),
        |k: int|
            if is_alpha(k) {
                base[k]
            } else {
                replaced(base[k], overlay[k], overlay[k - k % 4 + 3])
            },
    )
}

/// `base` multiplied by each overlay in turn.
pub open spec fn multiply_layers(base: Seq<u8>, overlays: Seq<&Raster>) -> Seq<u8>
    decreases overlays.len(),
{
    if overlays.len() == 0 {
        base
    } else {
        multiply_layer(multiply_layers(base, overlays.drop_last()), overlays.last().pixels@)
    }
}

/// `base` under each overlay in turn.
pub open spec fn replace_layers(base: Seq<u8>, overlays: Seq<&Raster>) -> Seq<u8>
    decreases overlays.len(),
{
    if overlays.len() == 0 {
        base
    } else {
        replace_layer(replace_layers(base, overlays.drop_last()), overlays.last().pixels@)
    }
}

/// The finished picture: the raster multiplied by the texture, then put
/// under the lockup.
pub open spec fn composed(base: Seq<u8>, texture: Seq<u8>, lockup: Seq<u8>) -> Seq<u8> {
    replace_layer(multiply_layer(base, texture), lockup)
}

/// A result of the multiply blend is never brighter than the base.
pub proof fn lemma_multiplied_darkens(base: u8, overlay: u8)
    ensures
        multiplied(base, overlay) <= base,
        overlay == 255 ==> multiplied(base, overlay) == base,
        overlay == 0 ==> multiplied(base, overlay) == 0,
{
    let b = base as int;
    let o = overlay as int;
    assert(0 <= b * o <= b * 255) by (nonlinear_arith)
        requires
            0 <= b,
            0 <= o <= 255,
    ;
    if overlay == 0 {
        assert(b * o == 0) by (nonlinear_arith)
            requires
                o == 0,
        ;
    }
}

/// An opaque overlay replaces the base; a clear one leaves it.
pub proof fn lemma_replaced_ends(base: u8, overlay: u8)
    ensures
        replaced(base, overlay, 255) == overlay,
        replaced(base, overlay, 0) == base,
{
}

/// A channel under an overlay lies between the base and the overlay.
pub proof fn lemma_replaced_between(base: u8, overlay: u8, alpha: u8)
    ensures
        base <= overlay ==> base <= replaced(base, overlay, alpha) <= overlay,
        overlay <= base ==> overlay <= replaced(base, overlay, alpha) <= base,
{
    let b = base as int;
    let o = overlay as int;
    let a = alpha as int;
    let sum = b * (255 - a) + o * a;
    if b <= o {
        assert(b * 255 <= sum <= o * 255) by (nonlinear_arith)
            requires
                b <= o,
                0 <= a <= 255,
                sum == b * (255 - a) + o * a,
        ;
    }
    if o <= b {
        assert(o * 255 <= sum <= b * 255) by (nonlinear_arith)
            requires
                o <= b,
                0 <= a <= 255,
                sum == b * (255 - a) + o * a,
        ;
    }
}

fn multiply_channel(base: u8, overlay: u8) -> (out: u8)
    ensures
        out == multiplied(base, overlay),
{
    proof {
        lemma_multiplied_darkens(base, overlay);
    }
    assert((base as u16) * (overlay as u16) <= 255 * 255) by (nonlinear_arith)
        requires
            base <= 255,
            overlay <= 255,
    ;
    let product: u16 = (base as u16) * (overlay as u16);
    (product / 255) as u8
}

fn replace_channel(base: u8, overlay: u8, alpha: u8) -> (out: u8)
    ensures
        out == replaced(base, overlay, alpha),
{
    proof {
        lemma_replaced_between(base, overlay, alpha);
    }
    let base_val: u16 = base as u16;
    let overlay_val: u16 = overlay as u16;
    let alpha_val: u16 = alpha as u16;
    assert(base_val * (255 - alpha_val) + overlay_val * alpha_val <= 255 * 255)
        by (nonlinear_arith)
        requires
            0 <= base_val <= 255,
            0 <= overlay_val <= 255,
            0 <= alpha_val <= 255,
    ;
    ((base_val * (255 - alpha_val) + overlay_val * alpha_val) / 255) as u8
}

impl Raster {
    /// Whether the buffer holds four bytes for every pixel.
    pub open spec fn wf(&self) -> bool {
        self.pixels@.len() == 4 * (self.width * self.height)
    }

    /// Whether `other` is well formed and of this raster's size.
    pub open spec fn same_size(&self, other: &Raster) -> bool {
        other.wf() && other.width == self.width && other.height == self.height
    }

    /// Whether the buffer holds four bytes for every pixel.
    pub fn is_valid(&self) -> (valid: bool)
        ensures
            valid == self.wf(),
    {
        assert(self.width as u128 * self.height as u128 <= 0xffff_ffff * 0xffff_ffff)
            by (nonlinear_arith)
            requires
                self.width <= 0xffff_ffff,
                self.height <= 0xffff_ffff,
        ;
        let expected: u128 = 4 * ((self.width as u128) * (self.height as u128));
        self.pixels.len() as u128 == expected
    }

    /// The raster as a PNG file. A raster that does not hold four bytes for
    /// every pixel is refused here; any other gets the encoder's answer, the
    /// file or its refusal.
    pub fn encode(&self) -> (encoded: Result<Vec<u8>, ComposeError>)
        ensures
            !self.wf() ==> encoded == Err::<Vec<u8>, ComposeError>(ComposeError::BadRaster),
            self.wf() ==> (encoded is Ok <==> png_of(
                self.width,
                self.height,
                self.pixels@,
            ) is Some),
            self.wf() && encoded is Err ==> encoded->Err_0 == ComposeError::Encoding,
            encoded is Ok ==> encoded->Ok_0@ == png_of(self.width, self.height, self.pixels@)->0,
    {
        if !self.is_valid() {
            return Err(ComposeError::BadRaster);
        }
        image_or_error(write_png(self.width, self.height, &self.pixels))
    }
}

/// What the pipeline makes of the encoder's answer: the file it wrote, or
/// the one error that stands for every refusal.
pub fn image_or_error(written: Result<Vec<u8>, ImageError>) -> (image: Result<
    Vec<u8>,
    ComposeError,
>)
    ensures
        written is Ok ==> image == Ok::<Vec<u8>, ComposeError>(written->Ok_0),
        written is Err ==> image == Err::<Vec<u8>, ComposeError>(ComposeError::Encoding),
{
    match written {
        Ok(bytes) => Ok(bytes),
        Err(_) => Err(ComposeError::Encoding),
    }
}

/// Multiplies every colour channel of `base_image` by the same channel of
/// each image in turn, scaled back by 255. Alpha is left as it is.
pub fn blend_images_multiply(base_image: &mut Raster, images: Vec<&Raster>)
    requires
        old(base_image).wf(),
        forall|j: int| 0 <= j < images@.len() ==> old(base_image).same_size(#[trigger] images@[j]),
    ensures
        final(base_image).width == old(base_image).width,
        final(base_image).height == old(base_image).height,
        final(base_image).pixels@ == multiply_layers(old(base_image).pixels@, images@),
{
    let ghost start = base_image.pixels@;
    let len = base_image.pixels.len();
    let mut j: usize = 0;
    assert(images@.take(0) =~= Seq::empty());
    while j < images.len()
        invariant
            j <= images@.len(),
            len == start.len(),
            base_image.width == old(base_image).width,
            base_image.height == old(base_image).height,
            forall|k: int| 0 <= k < images@.len() ==> (#[trigger] images@[k]).pixels@.len() == len,
            base_image.pixels@.len() == len,
            base_image.pixels@ == multiply_layers(start, images@.take(j as int)),
        decreases images@.len() - j,
    {
        let ghost before = base_image.pixels@;
        let overlay = images[j];
        let mut k: usize = 0;
        while k < len
            invariant
                k <= len,
                len == before.len(),
                overlay.pixels@.len() == len,
                base_image.pixels@.len() == len,
                base_image.width == old(base_image).width,
                base_image.height == old(base_image).height,
                forall|m: int|
                    0 <= m < k ==> #[trigger] base_image.pixels@[m] == multiply_layer(
                        before,
                        overlay.pixels@,
                    )[m],
                forall|m: int| k <= m < len ==> #[trigger] base_image.pixels@[m] == before[m],
            decreases len - k,
        {
            if k % 4 != 3 {
                let value = multiply_channel(base_image.pixels[k], overlay.pixels[k]);
                base_image.pixels.set(k, value);
            }
            k += 1;
        }
        proof {
            assert(base_image.pixels@ =~= multiply_layer(before, overlay.pixels@));
            let next = images@.take(j as int + 1);
            assert(next.drop_last() =~= images@.take(j as int));
            assert(next.last() == images@[j as int]);
        }
        j += 1;
    }
    assert(images@.take(j as int) =~= images@);
}

/// Puts each image in turn over `base_image`: every colour channel becomes
/// the mix of base and overlay by the overlay's alpha. Alpha of the base is
/// left as it is.
pub fn blend_images_replace(base_image: &mut Raster, images: Vec<&Raster>)
    requires
        old(base_image).wf(),
        forall|j: int| 0 <= j < images@.len() ==> old(base_image).same_size(#[trigger] images@[j]),
    ensures
        final(base_image).width == old(base_image).width,
        final(base_image).height == old(base_image).height,
        final(base_image).pixels@ == replace_layers(old(base_image).pixels@, images@),
{
    let ghost start = base_image.pixels@;
    let len = base_image.pixels.len();
    let mut j: usize = 0;
    assert(images@.take(0) =~= Seq::empty());
    while j < images.len()
        invariant
            j <= images@.len(),
            len == start.len(),
            len % 4 == 0,
            base_image.width == old(base_image).width,
            base_image.height == old(base_image).height,
            forall|k: int| 0 <= k < images@.len() ==> (#[trigger] images@[k]).pixels@.len() == len,
            base_image.pixels@.len() == len,
            base_image.pixels@ == replace_layers(start, images@.take(j as int)),
        decreases images@.len() - j,
    {
        let ghost before = base_image.pixels@;
        let overlay = images[j];
        let mut k: usize = 0;
        while k < len
            invariant
                k <= len,
                len == before.len(),
                len % 4 == 0,
                overlay.pixels@.len() == len,
                base_image.pixels@.len() == len,
                base_image.width == old(base_image).width,
                base_image.height == old(base_image).height,
                forall|m: int|
                    0 <= m < k ==> #[trigger] base_image.pixels@[m] == replace_layer(
                        before,
                        overlay.pixels@,
                    )[m],
                forall|m: int| k <= m < len ==> #[trigger] base_image.pixels@[m] == before[m],
            decreases len - k,
        {
            if k % 4 != 3 {
                let alpha = overlay.pixels[k - k % 4 + 3];
                let value = replace_channel(base_image.pixels[k], overlay.pixels[k], alpha);
                base_image.pixels.set(k, value);
            }
            k += 1;
        }
        proof {
            assert(base_image.pixels@ =~= replace_layer(before, overlay.pixels@));
            let next = images@.take(j as int + 1);
            assert(next.drop_last() =~= images@.take(j as int));
            assert(next.last() == images@[j as int]);
        }
        j += 1;
    }
    assert(images@.take(j as int) =~= images@);
}

impl Raster {
    /// Whether `other` is a well-formed raster of this raster's size.
    pub fn matches(&self, other: &Raster) -> (same: bool)
        ensures
            same == self.same_size(other),
    {
        other.is_valid() && other.width == self.width && other.height == self.height
    }
}

/// Finishes a rendered raster: multiplies it by the texture, puts the lockup
/// over it, in that order, and encodes the result as a PNG file.
///
/// A raster that does not hold four bytes for every pixel is refused, and so
/// is an overlay that is not a raster of the same size. Otherwise the result
/// is the encoder's answer for the composed picture: its file, or
/// `Encoding` exactly where it refuses that picture.
pub fn compose(image: Raster, texture: &Raster, lockup: &Raster) -> (file: Result<
    Vec<u8>,
    ComposeError,
>)
    ensures
        !image.wf() ==> file == Err::<Vec<u8>, ComposeError>(ComposeError::BadRaster),
        image.wf() && !(image.same_size(texture) && image.same_size(lockup)) ==> file == Err::<
            Vec<u8>,
            ComposeError,
        >(ComposeError::SizeMismatch),
        image.wf() && image.same_size(texture) && image.same_size(lockup) ==> {
            let png = png_of(
                image.width,
                image.height,
                composed(image.pixels@, texture.pixels@, lockup.pixels@),
            );
            &&& file is Ok <==> png is Some
            &&& file is Ok ==> file->Ok_0@ == png->0
            &&& file is Err ==> file->Err_0 == ComposeError::Encoding
        },
{
    if !image.is_valid() {
        return Err(ComposeError::BadRaster);
    }
    if !(image.matches(texture) && image.matches(lockup)) {
        return Err(ComposeError::SizeMismatch);
    }
    let mut image = image;
    let ghost start = image.pixels@;
    let textures: Vec<&Raster> = vec![texture];
    let lockups: Vec<&Raster> = vec![lockup];
    proof {
        assert(textures@.drop_last() =~= Seq::empty());
        assert(lockups@.drop_last() =~= Seq::empty());
        assert(multiply_layers(start, textures@.drop_last()) == start);
        assert(multiply_layers(start, textures@) == multiply_layer(start, texture.pixels@));
        let mid = multiply_layer(start, texture.pixels@);
        assert(replace_layers(mid, lockups@.drop_last()) == mid);
        assert(replace_layers(mid, lockups@) == replace_layer(mid, lockup.pixels@));
    }
    blend_images_multiply(&mut image, textures);
    blend_images_replace(&mut image, lockups);
    image_or_error(write_png(image.width, image.height, &image.pixels))
}

} // verus!
