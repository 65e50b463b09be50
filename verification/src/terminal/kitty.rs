//! The kitty terminal.
//!
//! kitty is a fast, featureful, GPU based terminal emulator.  It shows images
//! that are sent to it in base64, in pieces of at most 4096 characters, each in
//! an escape sequence of its own.

use crate::terminal::encoding::{base64_encoded, base64_fits, encode};
use crate::terminal::size::PixelSize;
use crate::text::{decimal, push_decimal};
use image::DynamicImage;
use vstd::prelude::*;
use vstd::string::StrSliceExecFns;
use vstd::string::StringExecFns;

verus! {

/// A decoded image of the `image` crate.  Nothing of it is visible here.
#[verifier::external_type_specification]
#[verifier::external_body]
pub struct ExDynamicImage(DynamicImage);

/// How the pixels of an image are stored.
#[derive(Clone, Copy, Debug, PartialEq, Eq, Structural)]
pub enum ColorType {
    L8,
    La8,
    Rgb8,
    Rgba8,
    L16,
    La16,
    Rgb16,
    Rgba16,
    Bgr8,
    Bgra8,
    /// A way to store pixels that has no name here.
    Other,
}

/// What can be told of an image without looking at its pixels.
#[derive(Clone, Copy, Debug, PartialEq, Eq, Structural)]
pub struct ImageHeader {
    /// How the pixels are stored.
    pub color: ColorType,
    /// The width in pixels.
    pub width: u32,
    /// The height in pixels.
    pub height: u32,
}

impl ImageHeader {
    /// The size of the image.
    pub open spec fn size(self) -> PixelSize {
        PixelSize { x: self.width as usize, y: self.height as usize }
    }

    /// Whether the image is at most as wide and as high as `limit`.
    pub open spec fn fits(self, limit: PixelSize) -> bool {
        self.size().within(limit)
    }
}

/// Whether the pixels of an image of `width` by `height` pixels can be held
/// in memory with four values to the pixel.
pub open spec fn pixels_fit(width: int, height: int) -> bool {
    width * height * 4 <= usize::MAX
}

/// The greatest width or height that scaling to the limit `limit` gives: the
/// limit, and one pixel at least.
pub open spec fn scaled_limit(limit: u32) -> int {
    if limit == 0 {
        1
    } else {
        limit as int
    }
}

/// Whether an image with the header `header` can be scaled to fit within
/// `max_width` by `max_height` pixels: it has pixels, and neither the image
/// at its old width and new height nor the scaled image is too large for
/// memory.
pub open spec fn can_scale(header: ImageHeader, max_width: u32, max_height: u32) -> bool {
    &&& header.width > 0
    &&& header.height > 0
    &&& pixels_fit(header.width as int, scaled_limit(max_height))
    &&& pixels_fit(scaled_limit(max_width), scaled_limit(max_height))
}

/// Whether an image with the header `header` can be sent to a terminal of
/// `terminal_size` pixels as pixels: as it is where it fits, and scaled down
/// where it does not.
pub open spec fn can_send(header: ImageHeader, terminal_size: PixelSize) -> bool {
    if header.fits(terminal_size) {
        pixels_fit(header.width as int, header.height as int)
    } else {
        can_scale(header, terminal_size.x as u32, terminal_size.y as u32)
    }
}

/// An image that was decoded, with what the rules for kitty read of it.  Its
/// view is its header.
pub struct DecodedImage {
    header: ImageHeader,
    pixels: DynamicImage,
}

impl View for DecodedImage {
    type V = ImageHeader;

    closed spec fn view(&self) -> ImageHeader {
        self.header
    }
}

impl DecodedImage {
    /// Decode the image file `contents`; none where it holds no image that
    /// can be decoded.
    pub fn from_memory(contents: &[u8]) -> (r: Option<DecodedImage>)
        ensures
            match r {
                Some(image) => decoded_header(contents@) == Some(image@),
                None => decoded_header(contents@) is None,
            },
    {
        decode(contents)
    }

    /// What the decoder told of the image.
    pub fn header(&self) -> (r: ImageHeader)
        ensures
            r == self@,
    {
        self.header
    }
}

/// The header of the image that `image::load_from_memory` decodes from `data`;
/// none where it decodes no image.
pub uninterp spec fn decoded_header(data: Seq<u8>) -> Option<ImageHeader>;

/// `n`, and one at least.
pub open spec fn at_least_one(n: int) -> int {
    if n < 1 {
        1
    } else {
        n
    }
}

/// The width and height that `DynamicImage::resize` gives an image of `width`
/// by `height` pixels that is to fit within `max_width` by `max_height`, as
/// the `image` crate works them out: the side whose limit binds gets its
/// limit, and the other side what keeps the proportion, rounded down to whole
/// pixels but to one pixel at least.  A side that would leave the range of
/// 32 bits gets the greatest number of that range, and the other side less
/// in proportion.
pub open spec fn resized_dimensions(width: u32, height: u32, max_width: u32, max_height: u32) -> (
    u32,
    u32,
) {
    let width_binds = max_width as int * height as int <= width as int * max_height as int;
    let other = at_least_one(
        if width_binds {
            height as int * max_width as int / width as int
        } else {
            width as int * max_height as int / height as int
        },
    );
    if width_binds {
        if other <= u32::MAX {
            (max_width, other as u32)
        } else {
            ((max_width as int * u32::MAX as int / other) as u32, u32::MAX)
        }
    } else if other <= u32::MAX {
        (other as u32, max_height)
    } else {
        (u32::MAX, (max_height as int * u32::MAX as int / other) as u32)
    }
}

/// Whether `scaled` keeps the proportion of an image of `width` by `height`
/// pixels within `max_width` by `max_height`: one side has its limit, and the
/// other is what the proportion gives for that limit, rounded down to whole
/// pixels, but one pixel at least.
pub open spec fn keeps_proportion(
    width: u32,
    height: u32,
    max_width: u32,
    max_height: u32,
    scaled: (u32, u32),
) -> bool {
    ||| scaled.0 == max_width && scaled.1 == at_least_one(
        height as int * max_width as int / width as int,
    )
    ||| scaled.1 == max_height && scaled.0 == at_least_one(
        width as int * max_height as int / height as int,
    )
}

/// What scaling does to the dimensions of an image that has pixels: neither
/// side exceeds its limit, but that neither is less than one pixel; the
/// proportion is kept; and an image that exceeds a limit is scaled down on
/// both sides, never up.
pub proof fn lemma_resized_dimensions(width: u32, height: u32, max_width: u32, max_height: u32)
    requires
        width > 0,
        height > 0,
    ensures
        ({
            let scaled = resized_dimensions(width, height, max_width, max_height);
            &&& scaled.0 <= scaled_limit(max_width)
            &&& scaled.1 <= scaled_limit(max_height)
            &&& keeps_proportion(width, height, max_width, max_height, scaled)
            &&& width > max_width || height > max_height ==> scaled.0 <= width && scaled.1
                <= height
        }),
{
    let w = width as int;
    let h = height as int;
    let a = max_width as int;
    let b = max_height as int;
    let exceeds = w > a || h > b;
    if a * h <= w * b {
        let other = h * a / w;
        assert(other <= b) by {
            vstd::arithmetic::div_mod::lemma_div_is_ordered(h * a, w * b, w);
            vstd::arithmetic::div_mod::lemma_div_multiples_vanish(b, w);
            assert(h * a == a * h) by (nonlinear_arith);
        }
        assert(0 <= other) by (nonlinear_arith)
            requires
                other == h * a / w,
                h > 0,
                a >= 0,
                w > 0,
        {
        }
        if exceeds {
            assert(a <= w) by (nonlinear_arith)
                requires
                    a * h <= w * b,
                    w > a || h > b,
                    w > 0,
                    h > 0,
                    a >= 0,
                    b >= 0,
            {
            }
            assert(other <= h) by {
                assert(h * a <= w * h) by (nonlinear_arith)
                    requires
                        a <= w,
                        h > 0,
                {
                }
                vstd::arithmetic::div_mod::lemma_div_is_ordered(h * a, w * h, w);
                vstd::arithmetic::div_mod::lemma_div_multiples_vanish(h, w);
            }
        }
    } else {
        let other = w * b / h;
        assert(other <= a) by {
            vstd::arithmetic::div_mod::lemma_div_is_ordered(w * b, h * a, h);
            vstd::arithmetic::div_mod::lemma_div_multiples_vanish(a, h);
            assert(h * a == a * h) by (nonlinear_arith);
        }
        assert(0 <= other) by (nonlinear_arith)
            requires
                other == w * b / h,
                h > 0,
                b >= 0,
                w > 0,
        {
        }
        if exceeds {
            assert(b <= h) by (nonlinear_arith)
                requires
                    a * h > w * b,
                    w > a || h > b,
                    w > 0,
                    h > 0,
                    a >= 0,
                    b >= 0,
            {
            }
            assert(other <= w) by {
                assert(w * b <= h * w) by (nonlinear_arith)
                    requires
                        b <= h,
                        w > 0,
                {
                }
                vstd::arithmetic::div_mod::lemma_div_is_ordered(w * b, h * w, h);
                vstd::arithmetic::div_mod::lemma_div_multiples_vanish(w, h);
            }
        }
    }
}

/// The header of `pixels`: the color type from `DynamicImage::color`, each
/// variant as the variant of the same name here, and the dimensions from
/// `GenericImageView::dimensions`.  Nothing is claimed of it.
#[verifier::external_body]
fn header_of(pixels: &DynamicImage) -> ImageHeader {
    let (width, height) = image::GenericImageView::dimensions(pixels);
    let color = match pixels.color() {
        image::ColorType::L8 => ColorType::L8, image::ColorType::La8 => ColorType::La8,
        image::ColorType::Rgb8 => ColorType::Rgb8, image::ColorType::Rgba8 => ColorType::Rgba8,
        image::ColorType::L16 => ColorType::L16, image::ColorType::La16 => ColorType::La16,
        image::ColorType::Rgb16 => ColorType::Rgb16, image::ColorType::Rgba16 => ColorType::Rgba16,
        image::ColorType::Bgr8 => ColorType::Bgr8, image::ColorType::Bgra8 => ColorType::Bgra8,
        _ => ColorType::Other,
    };
    ImageHeader { color, width, height }
}

/// Decodes the image file `data` with `image::load_from_memory`, and keeps
/// the header of what comes back beside it; none where decoding fails.  The
/// contract names the header and claims nothing else.
#[verifier::external_body]
fn decode(data: &[u8]) -> (r: Option<DecodedImage>)
    ensures
        match r {
            Some(image) => decoded_header(data@) == Some(image@),
            None => decoded_header(data@) is None,
        },
{
    match image::load_from_memory(data) {
        Ok(pixels) => Some(DecodedImage { header: header_of(&pixels), pixels }),
        Err(_) => None,
    }
}

/// Scales `image` with `DynamicImage::resize` and the nearest-neighbour
/// filter, to fit within `max_width` by `max_height` pixels.
///
/// `resize` divides by the width and by the height of the image, and it
/// panics where the number of values in a buffer it makes overflows `usize`;
/// the precondition leaves both out.  The contract claims that the color
/// type stays what it was, and that the new dimensions are those that
/// `resized_dimensions` works out as the `image` crate does.  It is not
/// proved.
#[verifier::external_body]
fn resize(image: DecodedImage, max_width: u32, max_height: u32) -> (r: DecodedImage)
    requires
        can_scale(image@, max_width, max_height),
    ensures
        r@.color == image@.color,
        (r@.width, r@.height) == resized_dimensions(
            image@.width,
            image@.height,
            max_width,
            max_height,
        ),
{
    let pixels = image.pixels.resize(max_width, max_height, image::imageops::FilterType::Nearest);
    DecodedImage { header: header_of(&pixels), pixels }
}

/// The pixels of `image` as bytes of red, green and blue, row by row, from
/// `DynamicImage::into_rgb8`.  The conversion panics where the number of
/// bytes overflows `usize`; the precondition leaves that out.  The contract
/// claims that there are three bytes to the pixel, as the buffers of the
/// `image` crate have; of the bytes themselves nothing is claimed.
#[verifier::external_body]
fn rgb_pixels(image: DecodedImage) -> (r: Vec<u8>)
    requires
        pixels_fit(image@.width as int, image@.height as int),
    ensures
        r@.len() == image@.width * image@.height * 3,
{
    image.pixels.into_rgb8().into_raw()
}

/// The pixels of `image` as bytes of red, green, blue and alpha, row by row,
/// from `DynamicImage::into_rgba8`.  The conversion panics where the number
/// of bytes overflows `usize`; the precondition leaves that out.  The
/// contract claims that there are four bytes to the pixel, as the buffers of
/// the `image` crate have; of the bytes themselves nothing is claimed.
#[verifier::external_body]
fn rgba_pixels(image: DecodedImage) -> (r: Vec<u8>)
    requires
        pixels_fit(image@.width as int, image@.height as int),
    ensures
        r@.len() == image@.width * image@.height * 4,
{
    image.pixels.into_rgba8().into_raw()
}

/// Whether the pixels of an image of `width` by `height` pixels can be held
/// in memory.
fn fit_in_memory(width: u32, height: u32) -> (r: bool)
    ensures
        r == pixels_fit(width as int, height as int),
{
    assert(width as int * height as int <= u64::MAX) by (nonlinear_arith)
        requires
            0 <= width <= u32::MAX,
            0 <= height <= u32::MAX,
    {
    }
    let pixels: u64 = (width as u64) * (height as u64);
    pixels <= (usize::MAX / 4) as u64
}

/// The greatest width or height that scaling to the limit `limit` gives.
fn limit_of(limit: u32) -> (r: u32)
    ensures
        r == scaled_limit(limit),
{
    if limit == 0 {
        1
    } else {
        limit
    }
}

/// Whether a terminal that calls itself `term` is kitty.
pub fn is_kitty(term: Option<&str>) -> (r: bool)
    ensures
        r == (term matches Some(name) && name@ == "xterm-kitty"@),
{
    match term {
        Some(name) => String::from_str(name) == String::from_str("xterm-kitty"),
        None => false,
    }
}

/// The image format (PNG, RGB or RGBA) of the image bytes.
#[derive(Clone, Copy, Debug, PartialEq, Eq, Structural)]
pub enum KittyFormat {
    PNG,
    RGB,
    RGBA,
}

impl KittyFormat {
    /// The value that names this format in the control data of a command.
    pub open spec fn control_data(self) -> Seq<char> {
        match self {
            KittyFormat::PNG => "100"@,
            KittyFormat::RGB => "24"@,
            KittyFormat::RGBA => "32"@,
        }
    }

    /// The format to send the pixels of an image in: with three bytes to the
    /// pixel where the image has neither alpha channel nor a color type
    /// unknown here, with four otherwise.
    pub open spec fn of_color(color: ColorType) -> KittyFormat {
        match color {
            ColorType::L8 | ColorType::Rgb8 | ColorType::L16 | ColorType::Rgb16 | ColorType::Bgr8 => {
                KittyFormat::RGB
            },
            _ => KittyFormat::RGBA,
        }
    }

    /// The number of bytes that one pixel takes in this format: three of
    /// red, green and blue, or four with alpha.  A PNG file has no such
    /// number; none is given for it.
    pub open spec fn bytes_per_pixel(self) -> Option<nat> {
        match self {
            KittyFormat::PNG => None,
            KittyFormat::RGB => Some(3),
            KittyFormat::RGBA => Some(4),
        }
    }

    /// Return the control data value of the image format.
    pub fn control_data_value(&self) -> (r: &str)
        ensures
            r@ == self.control_data(),
    {
        match *self {
            KittyFormat::PNG => "100",
            KittyFormat::RGB => "24",
            KittyFormat::RGBA => "32",
        }
    }

    /// The format to send the pixels of an image of the color type `color`
    /// in.
    pub fn for_color(color: ColorType) -> (r: KittyFormat)
        ensures
            r == KittyFormat::of_color(color),
    {
        match color {
            ColorType::L8 | ColorType::Rgb8 | ColorType::L16 | ColorType::Rgb16 | ColorType::Bgr8 => {
                KittyFormat::RGB
            },
            _ => KittyFormat::RGBA,
        }
    }
}

/// Holds the image bytes with its image format and dimensions.
#[derive(Debug, PartialEq, Eq)]
pub struct KittyImage {
    /// The bytes to send: a PNG file, or pixels.
    pub contents: Vec<u8>,
    /// What `contents` holds.
    pub format: KittyFormat,
    /// The dimensions of the image, where `contents` holds pixels.
    pub size: Option<PixelSize>,
}

/// The greatest number of characters of image data in one command.
pub open spec fn chunk_len() -> int {
    4096
}

/// The command with the control data `control` and the payload `payload`.
pub open spec fn graphics_command(control: Seq<char>, payload: Seq<char>) -> Seq<char> {
    "\x1b_G"@ + control + ";"@ + payload + "\x1b\\"@
}

/// The key that tells whether more data follows this command.
pub open spec fn more_key(more: bool) -> Seq<char> {
    if more {
        "m=1"@
    } else {
        "m=0"@
    }
}

/// The control data that open the transfer of an image: the action (transmit
/// and display), the medium (direct), the format, and the width and height in
/// pixels where there are any; then the comma before the next key.
pub open spec fn transfer_keys(format: KittyFormat, size: Option<PixelSize>) -> Seq<char> {
    let dimensions = match size {
        Some(size) => ",s="@ + decimal(size.x as nat) + ",v="@ + decimal(size.y as nat),
        None => Seq::empty(),
    };
    "a=T,t=d,f="@ + format.control_data() + dimensions + ","@
}

/// The commands that send `data` in pieces of at most 4096 characters.  The
/// control data of the first command start with `keys`; every command but the
/// last says that more follows.  For no data there is no command.
pub open spec fn chunked_commands(keys: Seq<char>, data: Seq<char>) -> Seq<char>
    decreases data.len(),
{
    if data.len() == 0 {
        Seq::empty()
    } else if data.len() <= chunk_len() {
        graphics_command(keys + more_key(false), data)
    } else {
        graphics_command(keys + more_key(true), data.take(chunk_len())) + chunked_commands(
            Seq::empty(),
            data.skip(chunk_len()),
        )
    }
}

/// The commands that make kitty show `image`.
pub open spec fn image_commands(image: KittyImage) -> Seq<char> {
    chunked_commands(transfer_keys(image.format, image.size), base64_encoded(image.contents@))
}

/// The size that an image with the header `header` is sent in to a terminal
/// of `terminal_size` pixels: its own where it fits, else the one that
/// scaling it down to the terminal gives.
pub open spec fn sent_size(header: ImageHeader, terminal_size: PixelSize) -> PixelSize {
    if header.fits(terminal_size) {
        header.size()
    } else {
        let (width, height) = resized_dimensions(
            header.width,
            header.height,
            terminal_size.x as u32,
            terminal_size.y as u32,
        );
        PixelSize { x: width as usize, y: height as usize }
    }
}

/// Whether `image` holds the pixels of an image with the header `header` for
/// a terminal of `terminal_size` pixels: in the format that the color type
/// asks for, in the size that the image is sent in, and with as many bytes as
/// that size and format take.
pub open spec fn holds_pixels(image: KittyImage, header: ImageHeader, terminal_size: PixelSize) -> bool {
    let size = sent_size(header, terminal_size);
    &&& image.format == KittyFormat::of_color(header.color)
    &&& image.size == Some(size)
    &&& image.format.bytes_per_pixel() matches Some(bytes) && image.contents@.len() == size.x
        * size.y * bytes
}

/// Whether `size` is within the terminal of `terminal_size` pixels, but that
/// no side need be less than one pixel.
pub open spec fn within_terminal(size: PixelSize, terminal_size: PixelSize) -> bool {
    size.x <= at_least_one(terminal_size.x as int) && size.y <= at_least_one(
        terminal_size.y as int,
    )
}

/// The size that an image is sent in is within the terminal, but that no
/// side need be less than one pixel, and within the image itself: an image
/// is scaled down, never up.  Where it is scaled, its proportion is kept.
pub proof fn lemma_sent_size(header: ImageHeader, terminal_size: PixelSize)
    requires
        header.fits(terminal_size) || (header.width > 0 && header.height > 0),
    ensures
        within_terminal(sent_size(header, terminal_size), terminal_size),
        sent_size(header, terminal_size).x <= header.width,
        sent_size(header, terminal_size).y <= header.height,
        !header.fits(terminal_size) ==> keeps_proportion(
            header.width,
            header.height,
            terminal_size.x as u32,
            terminal_size.y as u32,
            resized_dimensions(
                header.width,
                header.height,
                terminal_size.x as u32,
                terminal_size.y as u32,
            ),
        ),
{
    if !header.fits(terminal_size) {
        lemma_resized_dimensions(
            header.width,
            header.height,
            terminal_size.x as u32,
            terminal_size.y as u32,
        );
    }
}

/// Provides access to printing images for kitty.
#[derive(Clone, Copy, Debug, PartialEq, Eq, Structural)]
pub struct KittyImages;

impl KittyImages {
    /// Write an inline image for kitty.
    pub fn write_inline_image(self, out: &mut String, image: KittyImage)
        requires
            base64_fits(image.contents@.len()),
        ensures
            final(out)@ == old(out)@ + image_commands(image),
    {
        let mut keys = String::from_str("a=T,t=d,f=");
        keys.append(image.format.control_data_value());
        match image.size {
            Some(size) => {
                keys.append(",s=");
                push_decimal(&mut keys, size.x as u64);
                keys.append(",v=");
                push_decimal(&mut keys, size.y as u64);
            },
            None => {},
        }
        keys.append(",");
        assert(keys@ =~= transfer_keys(image.format, image.size));
        let encoded = encode(image.contents.as_slice());
        self.write_chunked(out, keys, encoded.as_str());
    }

    /// Write the commands that send `data` in pieces of at most 4096
    /// characters, the first with the control data `keys` in front of its
    /// own.
    pub fn write_chunked(self, out: &mut String, keys: String, data: &str)
        requires
            data.is_ascii(),
        ensures
            final(out)@ == old(out)@ + chunked_commands(keys@, data@),
    {
        let ghost first_keys = keys@;
        let mut keys = keys;
        let total = data.unicode_len();
        let mut start: usize = 0;
        assert(data@.skip(0) =~= data@);
        while start < total
            invariant
                start <= total,
                total == data@.len(),
                data.is_ascii(),
                out@ + chunked_commands(keys@, data@.skip(start as int)) == old(out)@
                    + chunked_commands(first_keys, data@),
            decreases total - start,
        {
            let ghost rest = data@.skip(start as int);
            let ghost before = out@;
            let last = total - start <= 4096;
            let end = if last {
                total
            } else {
                start + 4096
            };
            let chunk = data.substring_ascii(start, end);
            out.append("\x1b_G");
            out.append(keys.as_str());
            out.append(
                if last {
                    "m=0"
                } else {
                    "m=1"
                },
            );
            out.append(";");
            out.append(chunk);
            out.append("\x1b\\");
            proof {
                assert(chunk@ =~= rest.take(end - start));
                assert(data@.skip(end as int) =~= rest.skip(end - start));
                if last {
                    assert(rest.take(end - start) =~= rest);
                    assert(chunked_commands(Seq::empty(), data@.skip(end as int)) =~= Seq::<
                        char,
                    >::empty());
                }
                assert(out@ =~= before + graphics_command(keys@ + more_key(!last), chunk@));
            }
            keys = String::new();
            start = end;
        }
        assert(chunked_commands(keys@, data@.skip(start as int)) =~= Seq::<char>::empty());
    }

    /// Make an image for kitty of the image file `contents`.
    ///
    /// `is_png` tells whether `contents` is a PNG file, which kitty reads
    /// itself: such a file is sent as it is where the image fits the
    /// terminal.  Any other image is sent as pixels, and one that exceeds
    /// `terminal_size` in either dimension is scaled down to it first.
    ///
    /// There is no image where `contents` cannot be decoded, nor where an
    /// image cannot be sent as pixels: see `can_send`.
    pub fn read_and_render(self, contents: Vec<u8>, is_png: bool, terminal_size: PixelSize) -> (r:
        Option<KittyImage>)
        ensures
            match decoded_header(contents@) {
                None => r is None,
                Some(header) => if is_png && header.fits(terminal_size) {
                    r == Some(
                        KittyImage { contents: contents, format: KittyFormat::PNG, size: None },
                    )
                } else if can_send(header, terminal_size) {
                    r matches Some(image) && holds_pixels(image, header, terminal_size)
                        && within_terminal(sent_size(header, terminal_size), terminal_size)
                        && sent_size(header, terminal_size).x <= header.width && sent_size(
                        header,
                        terminal_size,
                    ).y <= header.height
                } else {
                    r is None
                },
            },
    {
        match decode(contents.as_slice()) {
            None => None,
            Some(image) => {
                let header = image.header();
                let fits = PixelSize::from_xy((header.width, header.height)).fits_within(
                    terminal_size,
                );
                if is_png && fits {
                    Some(self.render_as_png(contents))
                } else if self.can_render(&image, terminal_size) {
                    Some(self.render_as_rgb_or_rgba(image, terminal_size))
                } else {
                    None
                }
            },
        }
    }

    /// Whether `image` can be sent to a terminal of `terminal_size` pixels as
    /// pixels.
    pub fn can_render(self, image: &DecodedImage, terminal_size: PixelSize) -> (r: bool)
        ensures
            r == can_send(image@, terminal_size),
    {
        let header = image.header();
        if PixelSize::from_xy((header.width, header.height)).fits_within(terminal_size) {
            fit_in_memory(header.width, header.height)
        } else {
            let max_width = limit_of(
                #[verifier::truncate]
                (terminal_size.x as u32),
            );
            let max_height = limit_of(
                #[verifier::truncate]
                (terminal_size.y as u32),
            );
            header.width > 0 && header.height > 0 && fit_in_memory(header.width, max_height)
                && fit_in_memory(max_width, max_height)
        }
    }

    /// Wrap the image bytes as PNG format in `KittyImage`.
    pub fn render_as_png(self, contents: Vec<u8>) -> (r: KittyImage)
        ensures
            r == (KittyImage { contents: contents, format: KittyFormat::PNG, size: None }),
    {
        KittyImage { contents, format: KittyFormat::PNG, size: None }
    }

    /// Render the image as RGB/RGBA format and wrap the image bytes in
    /// `KittyImage`.
    ///
    /// If the image size exceeds `terminal_size` in either dimension scale the
    /// image down to `terminal_size` (preserving aspect ratio).
    pub fn render_as_rgb_or_rgba(self, image: DecodedImage, terminal_size: PixelSize) -> (r:
        KittyImage)
        requires
            can_send(image@, terminal_size),
        ensures
            holds_pixels(r, image@, terminal_size),
            within_terminal(sent_size(image@, terminal_size), terminal_size),
            sent_size(image@, terminal_size).x <= image@.width,
            sent_size(image@, terminal_size).y <= image@.height,
    {
        let ghost header = image@;
        proof {
            lemma_sent_size(header, terminal_size);
        }
        let format = KittyFormat::for_color(image.header.color);
        let fits = PixelSize::from_xy((image.header.width, image.header.height)).fits_within(
            terminal_size,
        );
        let image = if fits {
            image
        } else {
            let max_width = #[verifier::truncate]
            (terminal_size.x as u32);
            let max_height = #[verifier::truncate]
            (terminal_size.y as u32);
            proof {
                lemma_resized_dimensions(header.width, header.height, max_width, max_height);
            }
            let scaled = resize(image, max_width, max_height);
            assert(pixels_fit(scaled@.width as int, scaled@.height as int)) by (nonlinear_arith)
                requires
                    0 <= scaled@.width <= scaled_limit(max_width),
                    0 <= scaled@.height <= scaled_limit(max_height),
                    pixels_fit(scaled_limit(max_width), scaled_limit(max_height)),
            {
            }
            scaled
        };
        let size = PixelSize::from_xy((image.header.width, image.header.height));
        let contents = match format {
            KittyFormat::RGB => rgb_pixels(image),
            _ => rgba_pixels(image),
        };
        KittyImage { contents, format, size: Some(size) }
    }
}

} // verus!
