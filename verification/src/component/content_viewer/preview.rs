//! Pictures and their previews: a decoded picture is sampled down to a grid
//! of at most 256 columns, which the content panel draws as coloured tiles.

use vstd::prelude::*;

verus! {

/// A decoded picture: 8-bit RGB, rows from top to bottom, three bytes for each
/// pixel. The buffer may be longer than the picture needs.
#[derive(Debug)]
pub struct RgbImage {
    width: u32,
    height: u32,
    data: Vec<u8>,
}

/// What a decoded picture holds, as plain values.
pub struct RgbImageView {
    pub width: nat,
    pub height: nat,
    pub data: Seq<u8>,
}

impl RgbImageView {
    /// The buffer holds every pixel of the picture.
    pub open spec fn wf(self) -> bool {
        3 * self.width * self.height <= self.data.len()
    }

    /// The pixel in column `x` of row `y`.
    pub open spec fn pixel(self, x: nat, y: nat) -> (u8, u8, u8) {
        let at = ((y * self.width + x) * 3) as int;
        (self.data[at], self.data[at + 1], self.data[at + 2])
    }
}

impl View for RgbImage {
    type V = RgbImageView;

    closed spec fn view(&self) -> RgbImageView {
        RgbImageView {
            width: self.width as nat,
            height: self.height as nat,
            data: self.data@,
        }
    }
}

/// The most columns that a preview has.
pub const MAX_COLUMNS: u32 = 256;

/// The number of columns of the preview of a picture `width` pixels wide.
pub open spec fn target_columns(width: nat) -> nat {
    if width < MAX_COLUMNS {
        width
    } else {
        MAX_COLUMNS as nat
    }
}

/// The factor by which a picture `width` pixels wide is reduced, as a
/// fraction (numerator, denominator): the width over the number of columns,
/// and 1 for a picture without columns. It is never below 1.
pub open spec fn scale(width: nat) -> (nat, nat) {
    if width == 0 {
        (1, 1)
    } else {
        (width, target_columns(width))
    }
}

/// The number of rows of the preview: the height divided by the scale,
/// rounded to the nearest whole number, halves upwards.
pub open spec fn target_rows(width: nat, height: nat) -> nat {
    let (n, d) = scale(width);
    ((2 * height * d + n) / (2 * n)) as nat
}

/// The row of the picture that row `row` of the preview is taken from: the
/// row times the scale, rounded down, and at most the last row.
pub open spec fn source_row(width: nat, height: nat, row: nat) -> nat {
    let (n, d) = scale(width);
    let at = (row * n) / d;
    if at < height {
        at as nat
    } else {
        (height - 1) as nat
    }
}

/// The column of the picture that column `column` of the preview is taken
/// from: the column times the scale, rounded down, and at most the last
/// column.
pub open spec fn source_column(width: nat, column: nat) -> nat {
    let (n, d) = scale(width);
    let at = (column * n) / d;
    if at < width {
        at as nat
    } else {
        (width - 1) as nat
    }
}

/// The preview of a picture, for rendering as a grid of coloured tiles.
#[derive(Debug)]
pub struct ImageGrid {
    columns: usize,
    rows: usize,
    pixels: Vec<Vec<(u8, u8, u8)>>,
}

/// What a preview holds, as plain values.
pub struct GridView {
    pub columns: nat,
    pub rows: nat,
    pub pixels: Seq<Seq<(u8, u8, u8)>>,
}

impl GridView {
    /// The grid has `rows` rows of `columns` pixels each.
    pub open spec fn wf(self) -> bool {
        &&& self.pixels.len() == self.rows
        &&& forall|r: int| 0 <= r < self.rows ==> (#[trigger] self.pixels[r]).len() == self.columns
    }
}

impl View for ImageGrid {
    type V = GridView;

    closed spec fn view(&self) -> GridView {
        GridView {
            columns: self.columns as nat,
            rows: self.rows as nat,
            pixels: Seq::new(self.pixels@.len(), |r: int| self.pixels@[r]@),
        }
    }
}

/// The preview of `image`: nearest-neighbour samples, never an average.
pub open spec fn downsampled(image: RgbImageView) -> GridView {
    let columns = target_columns(image.width);
    let rows = target_rows(image.width, image.height);
    GridView {
        columns,
        rows,
        pixels: Seq::new(
            rows,
            |r: int|
                Seq::new(
                    columns,
                    |c: int|
                        image.pixel(
                            source_column(image.width, c as nat),
                            source_row(image.width, image.height, r as nat),
                        ),
                ),
        ),
    }
}

/// A preview has as many rows and columns as it says, at most 256 columns,
/// and no more rows or columns than its picture.
pub proof fn lemma_downsampled_wf(image: RgbImageView)
    ensures
        downsampled(image).wf(),
        downsampled(image).columns <= MAX_COLUMNS,
        downsampled(image).columns <= image.width,
        downsampled(image).rows <= image.height,
{
    let (n, d) = scale(image.width);
    assert((2 * image.height * d + n) / (2 * n) <= image.height) by (nonlinear_arith)
        requires
            0 < d <= n,
    ;
}

/// The top left pixel of a preview is the top left pixel of the picture.
pub proof fn lemma_downsampled_origin(image: RgbImageView)
    requires
        downsampled(image).rows > 0,
        downsampled(image).columns > 0,
    ensures
        downsampled(image).pixels[0][0] == image.pixel(0, 0),
{
    let (n, d) = scale(image.width);
    assert((0 * n) / d == 0) by (nonlinear_arith)
        requires
            d > 0,
    ;
    assert(image.height > 0) by (nonlinear_arith)
        requires
            ((2 * image.height * d + n) / (2 * n)) > 0,
            0 < d <= n,
    ;
}

/// A picture no wider than the widest preview is previewed as it is.
pub proof fn lemma_downsampled_small(image: RgbImageView, x: nat, y: nat)
    requires
        image.width <= MAX_COLUMNS,
        x < image.width,
        y < image.height,
    ensures
        downsampled(image).columns == image.width,
        downsampled(image).rows == image.height,
        downsampled(image).pixels[y as int][x as int] == image.pixel(x, y),
{
    let w = image.width;
    let h = image.height;
    assert((2 * h * w + w) / (2 * w) == h) by (nonlinear_arith)
        requires
            w > 0,
    ;
    assert((y * w) / w == y) by (nonlinear_arith)
        requires
            w > 0,
    ;
    assert((x * w) / w == x) by (nonlinear_arith)
        requires
            w > 0,
    ;
}

impl RgbImage {
    /// The buffer holds every pixel of the picture.
    #[verifier::type_invariant]
    spec fn holds_every_pixel(self) -> bool {
        3 * self.width * self.height <= self.data@.len()
    }

    /// A picture of the given size over `data`, where `data` holds all its
    /// pixels.
    pub fn new(width: u32, height: u32, data: Vec<u8>) -> (image: Option<RgbImage>)
        ensures
            image is Some <==> 3 * width * height <= data@.len(),
            image matches Some(image) ==> image@ == (RgbImageView {
                width: width as nat,
                height: height as nat,
                data: data@,
            }),
    {
        assert(3 * width * height <= 3 * 0xffff_ffff * 0xffff_ffff) by (nonlinear_arith)
            requires
                width <= 0xffff_ffff,
                height <= 0xffff_ffff,
        ;
        let needed: u128 = 3 * (width as u128) * (height as u128);
        if needed <= data.len() as u128 {
            Some(RgbImage { width, height, data })
        } else {
            None
        }
    }

    /// The width in pixels. Every picture holds all its pixels.
    pub fn width(&self) -> (width: u32)
        ensures
            width == self@.width,
            self@.wf(),
    {
        proof {
            use_type_invariant(self);
        }
        self.width
    }

    /// The height in pixels.
    pub fn height(&self) -> (height: u32)
        ensures
            height == self@.height,
    {
        self.height
    }

    /// The pixel in column `x` of row `y`.
    pub fn pixel(&self, x: u32, y: u32) -> (pixel: (u8, u8, u8))
        requires
            x < self@.width,
            y < self@.height,
        ensures
            pixel == self@.pixel(x as nat, y as nat),
    {
        let length = self.data.len();
        proof {
            use_type_invariant(self);
            lemma_pixel_in_bounds(self@, x as nat, y as nat);
            let start = y as int * self.width as int;
            assert(0 <= start) by (nonlinear_arith)
                requires
                    start == y as int * self.width as int,
            ;
            assert((start + x) * 3 + 2 < length);
        }
        let at: usize = (y as usize * self.width as usize + x as usize) * 3;
        (self.data[at], self.data[at + 1], self.data[at + 2])
    }
}

/// The number of rows of a preview is at most the picture's height, and the
/// products that lead to it stay small.
proof fn lemma_rows_bounded(height: int, n: int, d: int)
    requires
        0 <= height <= 0xffff_ffff,
        0 < d <= n,
        d <= MAX_COLUMNS,
        n <= 0xffff_ffff,
    ensures
        0 <= 2 * height * d <= 0x200_0000_0000,
        0 <= (2 * height * d + n) / (2 * n) <= height,
{
    assert(0 <= 2 * height * d <= 0x200_0000_0000) by (nonlinear_arith)
        requires
            0 <= height <= 0xffff_ffff,
            0 < d <= 256,
    ;
    assert(0 <= (2 * height * d + n) / (2 * n) <= height) by (nonlinear_arith)
        requires
            0 <= height,
            0 < d <= n,
    ;
}

/// The factor by which a picture `width` pixels wide is reduced, as a
/// fraction (numerator, denominator).
pub fn scale_of(width: u32) -> (ratio: (u32, u32))
    ensures
        (ratio.0 as nat, ratio.1 as nat) == scale(width as nat),
{
    if width == 0 {
        (1, 1)
    } else if width < MAX_COLUMNS {
        (width, width)
    } else {
        (width, MAX_COLUMNS)
    }
}

/// The preview of `image`.
pub fn downsample(image: &RgbImage) -> (grid: ImageGrid)
    ensures
        grid@ == downsampled(image@),
{
    proof {
        use_type_invariant(image);
    }
    let width: u64 = image.width as u64;
    let height: u64 = image.height as u64;
    let columns: u64 = if width < MAX_COLUMNS as u64 {
        width
    } else {
        MAX_COLUMNS as u64
    };
    let ratio: (u32, u32) = scale_of(image.width);
    let n: u64 = ratio.0 as u64;
    let d: u64 = ratio.1 as u64;
    proof {
        lemma_rows_bounded(height as int, n as int, d as int);
    }
    let rows: u64 = (2 * height * d + n) / (2 * n);
    let ghost goal = downsampled(image@);
    let mut pixels: Vec<Vec<(u8, u8, u8)>> = Vec::new();
    let mut row: u64 = 0;
    while row < rows
        invariant
            image@.wf(),
            width == image@.width,
            height == image@.height,
            columns == target_columns(image@.width),
            (n as nat, d as nat) == scale(image@.width),
            0 < d <= n <= 0xffff_ffff,
            d <= MAX_COLUMNS,
            rows == target_rows(image@.width, image@.height),
            rows <= height <= 0xffff_ffff,
            goal == downsampled(image@),
            row <= rows,
            pixels@.len() == row,
            forall|r: int| 0 <= r < row ==> (#[trigger] pixels@[r])@ == goal.pixels[r],
        decreases rows - row,
    {
        assert(0 <= row * n <= 0xffff_ffff * 0xffff_ffff) by (nonlinear_arith)
            requires
                0 <= row <= 0xffff_ffff,
                0 <= n <= 0xffff_ffff,
        ;
        let down: u64 = row * n / d;
        let y: u64 = if down < height {
            down
        } else {
            height - 1
        };
        assert(y == source_row(image@.width, image@.height, row as nat));
        let mut line: Vec<(u8, u8, u8)> = Vec::new();
        let mut column: u64 = 0;
        while column < columns
            invariant
                image@.wf(),
                width == image@.width,
                height == image@.height,
                columns == target_columns(image@.width),
                (n as nat, d as nat) == scale(image@.width),
                0 < d <= n <= 0xffff_ffff,
                y < height,
                y == source_row(image@.width, image@.height, row as nat),
                column <= columns <= MAX_COLUMNS,
                line@.len() == column,
                forall|c: int|
                    0 <= c < column ==> #[trigger] line@[c] == image@.pixel(
                        source_column(image@.width, c as nat),
                        y as nat,
                    ),
            decreases columns - column,
        {
            assert(0 <= column * n <= 256 * 0xffff_ffff) by (nonlinear_arith)
                requires
                    0 <= column <= 256,
                    0 <= n <= 0xffff_ffff,
            ;
            let across: u64 = column * n / d;
            let x: u64 = if across < width {
                across
            } else {
                width - 1
            };
            assert(x == source_column(image@.width, column as nat));
            line.push(image.pixel(x as u32, y as u32));
            column += 1;
        }
        assert(line@ =~= goal.pixels[row as int]);
        pixels.push(line);
        row += 1;
    }
    let grid = ImageGrid { columns: columns as usize, rows: rows as usize, pixels };
    assert(grid@.pixels =~= goal.pixels);
    grid
}

/// The three bytes of a pixel inside the picture lie inside its buffer.
proof fn lemma_pixel_in_bounds(image: RgbImageView, x: nat, y: nat)
    requires
        image.wf(),
        x < image.width,
        y < image.height,
    ensures
        y * image.width <= y * image.width + x,
        (y * image.width + x) * 3 + 2 < image.data.len(),
{
    let w = image.width;
    let h = image.height;
    assert(y * w + x < w * h) by (nonlinear_arith)
        requires
            x < w,
            y < h,
    ;
    assert(3 * w * h == (w * h) * 3) by (nonlinear_arith);
}

impl ImageGrid {
    /// The grid has `rows` rows of `columns` pixels each.
    #[verifier::type_invariant]
    spec fn is_rectangular(self) -> bool {
        &&& self.pixels@.len() == self.rows
        &&& forall|r: int|
            0 <= r < self.pixels@.len() ==> (#[trigger] self.pixels@[r])@.len() == self.columns
    }

    /// The number of columns. Every preview has as many rows and columns as
    /// it says.
    pub fn columns(&self) -> (columns: usize)
        ensures
            columns == self@.columns,
            self@.wf(),
    {
        proof {
            use_type_invariant(self);
        }
        self.columns
    }

    pub fn rows(&self) -> (rows: usize)
        ensures
            rows == self@.rows,
    {
        self.rows
    }

    /// The rows of the preview, from top to bottom.
    pub fn pixels(&self) -> (pixels: &Vec<Vec<(u8, u8, u8)>>)
        ensures
            pixels@.len() == self@.pixels.len(),
            forall|r: int| 0 <= r < pixels@.len() ==> (#[trigger] pixels@[r])@ == self@.pixels[r],
    {
        &self.pixels
    }

    /// The pixel in column `column` of row `row`.
    pub fn pixel(&self, row: usize, column: usize) -> (pixel: (u8, u8, u8))
        requires
            row < self@.rows,
            column < self@.columns,
        ensures
            pixel == self@.pixels[row as int][column as int],
    {
        proof {
            use_type_invariant(self);
        }
        self.pixels[row][column]
    }
}

/// The colour of a pixel as one number: red, green and blue from the highest
/// byte down.
pub open spec fn colour_code(pixel: (u8, u8, u8)) -> u32 {
    (pixel.0 * 0x1_0000 + pixel.1 * 0x100 + pixel.2) as u32
}

/// The colour of a pixel as one number.
pub fn rgb_code(pixel: (u8, u8, u8)) -> (code: u32)
    ensures
        code == colour_code(pixel),
{
    let red: u32 = pixel.0 as u32;
    let green: u32 = pixel.1 as u32;
    let blue: u32 = pixel.2 as u32;
    assert(((red << 16) | (green << 8) | blue) == red * 0x1_0000 + green * 0x100 + blue)
        by (bit_vector)
        requires
            red < 256,
            green < 256,
            blue < 256,
    ;
    (red << 16) | (green << 8) | blue
}

/// The decoder's name for a file format; carried through as it is.
#[verifier::external_type_specification]
#[verifier::external_body]
pub struct ExImageFormat(image::ImageFormat);

/// A picture as the decoder hands it out; carried through as it is.
#[verifier::external_type_specification]
#[verifier::external_body]
pub struct ExDynamicImage(image::DynamicImage);

/// The decoder's error; only its message is read.
#[verifier::external_type_specification]
#[verifier::external_body]
pub struct ExImageError(image::ImageError);

/// The format that the decoder tells from the extension of a path, or its
/// error where the path has no extension that it knows.
pub uninterp spec fn format_named(path: Seq<char>) -> Result<image::ImageFormat, image::ImageError>;

/// The picture that the decoder reads from bytes in a format, or its error.
pub uninterp spec fn decoded(bytes: Seq<u8>, format: image::ImageFormat) -> Result<
    image::DynamicImage,
    image::ImageError,
>;

/// A decoded picture converted to 8-bit RGB.
pub uninterp spec fn rgb8(picture: image::DynamicImage) -> RgbImageView;

/// The message that the decoder writes for an error.
pub uninterp spec fn message(error: image::ImageError) -> Seq<char>;

/// The format that the extension of `path` stands for, as
/// `image::ImageFormat::from_path` tells it, or its error where the path has
/// no extension that the decoder knows. Believed of it: the outcome depends
/// on the path alone.
#[verifier::external_body]
fn format_of(path: &str) -> (format: Result<image::ImageFormat, image::ImageError>)
    ensures
        format == format_named(path@),
{
    image::ImageFormat::from_path(path)
}

/// The picture that `bytes` hold in the given format, as
/// `image::load_from_memory_with_format` decodes it, or the decoder's error.
/// Believed of it: the outcome depends on the bytes and the format alone.
#[verifier::external_body]
fn decode_as(bytes: &[u8], format: image::ImageFormat) -> (picture: Result<
    image::DynamicImage,
    image::ImageError,
>)
    ensures
        picture == decoded(bytes@, format),
{
    image::load_from_memory_with_format(bytes, format)
}

/// The picture in 8-bit RGB, as `image::DynamicImage::to_rgb8` converts it,
/// with its width, height and raw buffer. Believed of it: the outcome
/// depends on the picture alone, and the buffer holds three bytes for every
/// pixel.
#[verifier::external_body]
fn rgb8_of(picture: &image::DynamicImage) -> (image: RgbImage)
    ensures
        image@ == rgb8(*picture),
        image@.wf(),
{
    let rgb = picture.to_rgb8();
    RgbImage { width: rgb.width(), height: rgb.height(), data: rgb.into_raw() }
}

/// The message of a decoder's error, as its `Display` writes it. Believed of
/// it: the message depends on the error alone.
#[verifier::external_body]
fn message_of(error: &image::ImageError) -> (text: String)
    ensures
        text@ == message(*error),
{
    error.to_string()
}

/// The outcome of a picture load, as plain values.
pub open spec fn loaded_view(loaded: Result<ImageGrid, String>) -> Result<GridView, Seq<char>> {
    match loaded {
        Ok(grid) => Ok(grid@),
        Err(message) => Err(message@),
    }
}

/// What loading the picture in `bytes`, the contents of the file at `path`,
/// comes to: the format is told from the extension of the path, the bytes
/// are decoded in that format, the picture is converted to 8-bit RGB and
/// sampled down. Where the format is not known or the bytes do not decode,
/// the decoder's message comes back.
pub open spec fn load_outcome(path: Seq<char>, bytes: Seq<u8>) -> Result<GridView, Seq<char>> {
    match format_named(path) {
        Ok(format) => match decoded(bytes, format) {
            Ok(picture) => Ok(downsampled(rgb8(picture))),
            Err(error) => Err(message(error)),
        },
        Err(error) => Err(message(error)),
    }
}

/// The preview of the picture that `bytes`, the contents of the file at
/// `path`, hold, or the decoder's message.
pub fn load_image(path: &str, bytes: &[u8]) -> (loaded: Result<ImageGrid, String>)
    ensures
        loaded_view(loaded) == load_outcome(path@, bytes@),
{
    let format = match format_of(path) {
        Ok(format) => format,
        Err(error) => {
            return Err(message_of(&error));
        },
    };
    let picture = match decode_as(bytes, format) {
        Ok(picture) => picture,
        Err(error) => {
            return Err(message_of(&error));
        },
    };
    let image = rgb8_of(&picture);
    Ok(downsample(&image))
}

} // verus!
