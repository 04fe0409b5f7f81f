use crate::color::{channel_byte, Color};
use crate::error::{error_of, A2DError, ErrorKind};
use std::rc::Rc;
use vstd::prelude::*;

verus! {

#[verifier::external_type_specification]
#[verifier::external_body]
pub struct ExImageError(image::ImageError);

/// What `image::load_from_memory_with_format` with the built-in PNG
/// decoder, followed by conversion to 8-bit RGBA, yields for the given
/// bytes: `(width, height, pixels)`, or `None` when the bytes are not a
/// decodable PNG image.
pub uninterp spec fn decoded_rgba(bytes: Seq<u8>) -> Option<(u32, u32, Seq<u8>)>;

/// Relies on `image::load_from_memory_with_format` with `ImageFormat::Png`
/// (the built-in decoder, no registered hooks) and `DynamicImage::to_rgba8`:
/// decodes the bytes into RGBA pixels.
#[verifier::external_body]
fn decode_rgba(bytes: &[u8]) -> (r: Result<(u32, u32, Vec<u8>), image::ImageError>)
    ensures
        match r {
            Ok((w, h, p)) => decoded_rgba(bytes@) == Some((w, h, p@)),
            Err(_) => decoded_rgba(bytes@) is None,
        },
{
    let img = image::load_from_memory_with_format(bytes, image::ImageFormat::Png)?.to_rgba8();
    let (w, h) = img.dimensions();
    Ok((w, h, img.into_raw()))
}

/// Relies on the `Debug` impl of `image::ImageError`: the decoder's
/// diagnostic as text.
#[verifier::external_body]
fn image_error_text(e: &image::ImageError) -> (r: String) {
    format!("{:?}", e)
}

/// Relies on `image::RgbaImage::from_raw` and `ImageBuffer::into_raw`: an
/// RGBA image of `width` by `height` accepts the buffer exactly when
/// `4 * width` and then `4 * width * height` fit in `usize` and the buffer
/// holds at least `4 * width * height` bytes, and hands the buffer back
/// unchanged.
#[verifier::external_body]
fn rgba_image_buffer(width: u32, height: u32, bytes: Vec<u8>) -> (r: Option<Vec<u8>>)
    ensures
        r is Some <==> (4 * width <= usize::MAX && 4 * width * height <= usize::MAX && 4 * width * height
            <= bytes@.len()),
        r is Some ==> r->0@ == bytes@,
{
    image::RgbaImage::from_raw(width, height, bytes).map(|img| img.into_raw())
}

/// The bytes of a row-major list of colors, four per color.
pub open spec fn color_bytes(colors: Seq<Color>) -> Seq<u8>
    decreases colors.len(),
{
    if colors.len() == 0 {
        seq![]
    } else {
        let c = colors.last();
        color_bytes(colors.drop_last()) + seq![
            channel_byte(c@[0]@) as u8,
            channel_byte(c@[1]@) as u8,
            channel_byte(c@[2]@) as u8,
            channel_byte(c@[3]@) as u8,
        ]
    }
}

/// An immutable RGBA image ready to be used as the texture of sprite
/// batches; shared between batches through `Rc`.
#[derive(Debug)]
pub struct SpriteSheet {
    width: u32,
    height: u32,
    pixels: Vec<u8>,
}

impl SpriteSheet {
    #[verifier::type_invariant]
    spec fn inv(self) -> bool {
        self.pixels@.len() == 4 * self.width * self.height
    }

    pub closed spec fn width_spec(&self) -> u32 {
        self.width
    }

    pub closed spec fn height_spec(&self) -> u32 {
        self.height
    }

    pub closed spec fn pixels_spec(&self) -> Seq<u8> {
        self.pixels@
    }

    /// Whether the row size `4 * width` and the buffer size
    /// `4 * width * height` of an RGBA image can be addressed. Always true
    /// with a 64-bit `usize`.
    pub open spec fn addressable(width: u32, height: u32) -> bool {
        4 * width <= usize::MAX && 4 * width * height <= usize::MAX
    }

    /// Whether `from_rgba_bytes` accepts a buffer of `len` bytes for an
    /// image of `width` by `height`.
    pub open spec fn fits(width: u32, height: u32, len: int) -> bool {
        len == 4 * width * height && SpriteSheet::addressable(width, height)
    }

    /// Whether `from_bytes` makes a sheet from these bytes.
    pub open spec fn decodes(bytes: Seq<u8>) -> bool {
        match decoded_rgba(bytes) {
            Some((w, h, p)) => SpriteSheet::fits(w, h, p.len() as int),
            None => false,
        }
    }

    /// A sheet from raw RGBA bytes, row-major, four bytes per pixel; a
    /// `Format` error when the length is not `4 * width * height` (or the
    /// image could not be addressed at all).
    pub fn from_rgba_bytes(width: u32, height: u32, bytes: Vec<u8>) -> (r: Result<
        Rc<SpriteSheet>,
        A2DError,
    >)
        ensures
            r is Ok <==> SpriteSheet::fits(width, height, bytes@.len() as int),
            r is Ok ==> r->Ok_0.width_spec() == width && r->Ok_0.height_spec() == height
                && r->Ok_0.pixels_spec() == bytes@,
            r is Err ==> r->Err_0.kind_spec() == ErrorKind::Format,
    {
        let len = bytes.len();
        proof {
            assert(0 <= 4 * (width as int) * (height as int) <= 4 * 0xffff_ffff * 0xffff_ffff)
                by (nonlinear_arith);
        }
        let need = 4 * (width as u128) * (height as u128);
        if need != len as u128 {
            return Err(error_of(ErrorKind::Format, "pixel buffer does not match the sheet dimensions"));
        }
        match rgba_image_buffer(width, height, bytes) {
            Some(pixels) => Ok(Rc::new(SpriteSheet { width, height, pixels })),
            None => Err(error_of(ErrorKind::Format, "the sheet dimensions cannot be addressed")),
        }
    }

    /// A sheet of `width` by `height` pixels from row-major colors; a
    /// `Format` error when there are not `width * height` colors.
    pub fn from_colors(width: u32, height: u32, colors: Vec<Color>) -> (r: Result<Rc<SpriteSheet>, A2DError>)
        ensures
            r is Ok <==> colors@.len() == width * height && SpriteSheet::addressable(width, height),
            r is Ok ==> r->Ok_0.width_spec() == width && r->Ok_0.height_spec() == height
                && r->Ok_0.pixels_spec() == color_bytes(colors@),
            r is Err ==> r->Err_0.kind_spec() == ErrorKind::Format,
    {
        proof {
            assert(0 <= (width as int) * (height as int) <= 0xffff_ffff * 0xffff_ffff) by (nonlinear_arith);
        }
        if colors.len() as u128 != (width as u128) * (height as u128) {
            return Err(error_of(ErrorKind::Format, "the number of colors does not match the sheet dimensions"));
        }
        proof {
            assert(colors@.len() <= usize::MAX);
            assert(4 * width * height == 4 * colors@.len()) by (nonlinear_arith)
                requires colors@.len() == width * height;
        }
        let mut pixels: Vec<u8> = Vec::new();
        let mut i: usize = 0;
        while i < colors.len()
            invariant
                i <= colors@.len(),
                pixels@ == color_bytes(colors@.subrange(0, i as int)),
                pixels@.len() == 4 * i,
            decreases colors@.len() - i,
        {
            let b = colors[i].to_u8_array();
            pixels.push(b[0]);
            pixels.push(b[1]);
            pixels.push(b[2]);
            pixels.push(b[3]);
            proof {
                let next = colors@.subrange(0, i + 1);
                assert(next.drop_last() =~= colors@.subrange(0, i as int));
                assert(next.last() == colors@[i as int]);
                assert(pixels@ =~= color_bytes(next));
            }
            i = i + 1;
        }
        proof {
            assert(colors@.subrange(0, colors@.len() as int) =~= colors@);
        }
        SpriteSheet::from_rgba_bytes(width, height, pixels)
    }

    /// A one-pixel sheet of a single color.
    pub fn from_color(color: Color) -> (r: Rc<SpriteSheet>)
        ensures
            r.width_spec() == 1,
            r.height_spec() == 1,
            r.pixels_spec() == color_bytes(seq![color]),
    {
        let colors = vec![color];
        assert(colors@ =~= seq![color]);
        match SpriteSheet::from_colors(1, 1, colors) {
            Ok(sheet) => sheet,
            Err(_) => {
                proof {
                    assert(false);
                }
                Rc::new(SpriteSheet { width: 0, height: 0, pixels: Vec::new() })
            },
        }
    }

    /// A sheet from PNG bytes: a `Decode` error carrying the decoder's
    /// diagnostic when they cannot be decoded.
    pub fn from_bytes(bytes: &[u8]) -> (r: Result<Rc<SpriteSheet>, A2DError>)
        ensures
            r is Ok <==> SpriteSheet::decodes(bytes@),
            match decoded_rgba(bytes@) {
                None => r is Err && r->Err_0.kind_spec() == ErrorKind::Decode,
                Some((w, h, p)) => if SpriteSheet::fits(w, h, p.len() as int) {
                    r is Ok && r->Ok_0.width_spec() == w && r->Ok_0.height_spec() == h
                        && r->Ok_0.pixels_spec() == p
                } else {
                    r is Err && r->Err_0.kind_spec() == ErrorKind::Format
                },
            },
    {
        match decode_rgba(bytes) {
            Ok((w, h, p)) => SpriteSheet::from_rgba_bytes(w, h, p),
            Err(e) => Err(
                A2DError::new(ErrorKind::Decode, "image bytes could not be decoded".to_owned(), Some(image_error_text(&e))),
            ),
        }
    }

    pub fn width(&self) -> (r: u32)
        ensures
            r == self.width_spec(),
    {
        self.width
    }

    pub fn height(&self) -> (r: u32)
        ensures
            r == self.height_spec(),
    {
        self.height
    }

    /// The pixels, row-major, four bytes (RGBA) per pixel.
    pub fn pixels(&self) -> (r: &[u8])
        ensures
            r@ == self.pixels_spec(),
            r@.len() == 4 * self.width_spec() * self.height_spec(),
    {
        proof {
            use_type_invariant(self);
        }
        self.pixels.as_slice()
    }
}

} // verus!
