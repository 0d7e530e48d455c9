//! Pictures as plain RGBA bytes, and how creatures and collections are
//! drawn from them. Blending and encoding are done by the image crate.

use vstd::prelude::*;
use crate::layout::{
    Grid, MAX_GRID_CELLS, cell_origin, column_pitch, grid_for, grid_of, row_pitch,
};
use crate::text::{file_name_of, file_stem_of, get_file_stem, names_file, push_text};

verus! {

/// The error type of the image crate.
#[verifier::external_type_specification]
#[verifier::external_body]
pub struct ExImageError(image::ImageError);

/// The RGBA bytes of the picture that `image::imageops::overlay` leaves in
/// `bottom`, of the given width and height, after laying `top` over it with
/// the upper left corner of `top` at column `x` and row `y` of `bottom`.
pub uninterp spec fn overlaid(
    bottom: Seq<u8>,
    bottom_width: int,
    bottom_height: int,
    top: Seq<u8>,
    top_width: int,
    top_height: int,
    x: int,
    y: int,
) -> Seq<u8>;

/// What the image crate makes of writing the RGBA picture of the given
/// bytes, width and height as a PNG file into memory: the bytes of the
/// file, or `None` where it reports an error.
pub uninterp spec fn png_of(pixels: Seq<u8>, width: int, height: int) -> Option<Seq<u8>>;

/// Calls image: `imageops::overlay`, on buffers that `ImageBuffer::from_raw`
/// wraps and `ImageBuffer::into_raw` hands back. The contract claims that
/// the bytes that come back are a function of the two pictures and the
/// offset, and as many as went in. `from_raw` counts the bytes of a row
/// before those of the picture, so both counts must fit.
#[verifier::external_body]
fn overlay_rgba(
    bottom: Vec<u8>,
    bottom_width: u32,
    bottom_height: u32,
    top: &Vec<u8>,
    top_width: u32,
    top_height: u32,
    x: i64,
    y: i64,
) -> (out: Vec<u8>)
    requires
        bottom.len() == 4 * bottom_width * bottom_height,
        4 * bottom_width <= usize::MAX,
        top.len() == 4 * top_width * top_height,
        4 * top_width <= usize::MAX,
    ensures
        out@ == overlaid(
            bottom@,
            bottom_width as int,
            bottom_height as int,
            top@,
            top_width as int,
            top_height as int,
            x as int,
            y as int,
        ),
        out.len() == bottom.len(),
{
    let mut canvas = image::RgbaImage::from_raw(bottom_width, bottom_height, bottom).unwrap();
    let layer = image::ImageBuffer::<image::Rgba<u8>, &[u8]>::from_raw(
        top_width,
        top_height,
        top.as_slice(),
    ).unwrap();
    image::imageops::overlay(&mut canvas, &layer, x, y);
    canvas.into_raw()
}

/// Calls image: `ImageBuffer::write_to` with `ImageOutputFormat::Png`, into
/// a buffer in memory. The contract claims that whether the crate reports
/// an error, and otherwise the bytes written, are a function of the
/// picture. It does not claim for which pictures a file is written.
#[verifier::external_body]
fn encode_rgba_png(pixels: &Vec<u8>, width: u32, height: u32) -> (result: Result<
    Vec<u8>,
    image::ImageError,
>)
    requires
        pixels.len() == 4 * width * height,
        4 * width <= usize::MAX,
    ensures
        match result {
            Ok(bytes) => png_of(pixels@, width as int, height as int) == Some(bytes@),
            Err(_) => png_of(pixels@, width as int, height as int) is None,
        },
{
    let mut bytes: Vec<u8> = Vec::new();
    let picture = image::ImageBuffer::<image::Rgba<u8>, &[u8]>::from_raw(
        width,
        height,
        pixels.as_slice(),
    ).unwrap();
    picture.write_to(&mut std::io::Cursor::new(&mut bytes), image::ImageOutputFormat::Png)?;
    Ok(bytes)
}

/// The number of bytes of a picture of the given size.
fn byte_count(width: u32, height: u32) -> (count: u128)
    ensures
        count == 4 * width * height,
{
    assert(width * height <= 0xffff_ffff * 0xffff_ffff) by (nonlinear_arith)
        requires
            0 <= width <= 0xffff_ffff,
            0 <= height <= 0xffff_ffff,
    ;
    let area: u64 = (width as u64) * (height as u64);
    assert(4 * (width * height) == 4 * width * height) by (nonlinear_arith);
    4 * (area as u128)
}

/// A picture as the contracts see it.
pub struct PictureView {
    pub width: int,
    pub height: int,
    pub pixels: Seq<u8>,
}

impl PictureView {
    /// Four bytes for each pixel, and no more in a row than can be counted.
    pub open spec fn wf(self) -> bool {
        &&& 0 <= self.width <= u32::MAX
        &&& 0 <= self.height <= u32::MAX
        &&& 4 * self.width <= usize::MAX
        &&& self.pixels.len() == 4 * self.width * self.height
    }

    /// This picture with `top` laid over it at column `x` and row `y`.
    pub open spec fn under(self, top: PictureView, x: int, y: int) -> PictureView {
        PictureView {
            pixels: overlaid(
                self.pixels,
                self.width,
                self.height,
                top.pixels,
                top.width,
                top.height,
                x,
                y,
            ),
            ..self
        }
    }

    /// The picture of the given size whose every byte is zero: transparent
    /// all over.
    pub open spec fn blank(width: int, height: int) -> PictureView {
        PictureView { width, height, pixels: Seq::new((4 * width * height) as nat, |i: int| 0u8) }
    }
}

/// A picture: its width and height in pixels, and four bytes for each
/// pixel, row by row: red, green, blue and alpha.
pub struct Picture {
    width: u32,
    height: u32,
    pixels: Vec<u8>,
}

impl View for Picture {
    type V = PictureView;

    closed spec fn view(&self) -> PictureView {
        PictureView { width: self.width as int, height: self.height as int, pixels: self.pixels@ }
    }
}

impl DeepView for Picture {
    type V = PictureView;

    open spec fn deep_view(&self) -> PictureView {
        self@
    }
}

impl Picture {
    #[verifier::type_invariant]
    spec fn sized(&self) -> bool {
        self.pixels.len() == 4 * self.width * self.height && 4 * self.width <= usize::MAX
    }

    /// The picture of the given size and bytes: `None` unless there are
    /// four bytes for each pixel, and the bytes of a row can be counted.
    pub fn from_rgba(width: u32, height: u32, pixels: Vec<u8>) -> (picture: Option<Picture>)
        ensures
            picture is Some <==> pixels.len() == 4 * width * height && 4 * width <= usize::MAX,
            picture matches Some(p) ==> p@ == (PictureView {
                width: width as int,
                height: height as int,
                pixels: pixels@,
            }) && p@.wf(),
    {
        let wanted: u128 = byte_count(width, height);
        if pixels.len() as u128 == wanted && 4 * (width as u128) <= usize::MAX as u128 {
            Some(Picture { width, height, pixels })
        } else {
            None
        }
    }

    /// The transparent picture of the given size: `None` where its bytes,
    /// or those of one row, are more than can be counted.
    pub fn blank(width: u32, height: u32) -> (picture: Option<Picture>)
        ensures
            picture is Some <==> 4 * width * height <= usize::MAX && 4 * width <= usize::MAX,
            picture matches Some(p) ==> p@ == PictureView::blank(width as int, height as int)
                && p@.wf(),
    {
        let wanted: u128 = byte_count(width, height);
        if wanted > usize::MAX as u128 || 4 * (width as u128) > usize::MAX as u128 {
            return None;
        }
        let pixels: Vec<u8> = vec![0u8; wanted as usize];
        assert(pixels@ =~= PictureView::blank(width as int, height as int).pixels);
        Some(Picture { width, height, pixels })
    }

    /// The width in pixels.
    pub fn width(&self) -> (width: u32)
        ensures
            width == self@.width,
    {
        self.width
    }

    /// The height in pixels.
    pub fn height(&self) -> (height: u32)
        ensures
            height == self@.height,
    {
        self.height
    }

    /// The bytes of the pixels.
    pub fn pixels(&self) -> (pixels: &Vec<u8>)
        ensures
            pixels@ == self@.pixels,
            self@.wf(),
    {
        proof {
            use_type_invariant(self);
        }
        &self.pixels
    }

    /// Lays `top` over this picture, with the upper left corner of `top` at
    /// column `x` and row `y`.
    pub fn overlay(self, top: &Picture, x: i64, y: i64) -> (out: Picture)
        ensures
            out@ == self@.under(top@, x as int, y as int),
            out@.wf(),
    {
        proof {
            use_type_invariant(&self);
            use_type_invariant(top);
        }
        let width = self.width;
        let height = self.height;
        let pixels = overlay_rgba(
            self.pixels,
            width,
            height,
            &top.pixels,
            top.width,
            top.height,
            x,
            y,
        );
        Picture { width, height, pixels }
    }

    /// A copy of the picture.
    pub fn duplicate(&self) -> (copy: Picture)
        ensures
            copy@ == self@,
    {
        proof {
            use_type_invariant(self);
        }
        let mut pixels: Vec<u8> = Vec::new();
        let mut i: usize = 0;
        while i < self.pixels.len()
            invariant
                i <= self.pixels.len(),
                pixels@ == self.pixels@.take(i as int),
            decreases self.pixels.len() - i,
        {
            pixels.push(self.pixels[i]);
            i += 1;
        }
        assert(pixels@ =~= self.pixels@);
        Picture { width: self.width, height: self.height, pixels }
    }

    /// The picture as a PNG file: what the image crate writes for it, or
    /// an error where that crate reports one.
    pub fn to_png(&self) -> (file: Result<Vec<u8>, EncodingFailed>)
        ensures
            match file {
                Ok(bytes) => png_of(self@.pixels, self@.width, self@.height) == Some(bytes@),
                Err(_) => png_of(self@.pixels, self@.width, self@.height) is None,
            },
    {
        proof {
            use_type_invariant(self);
        }
        match encode_rgba_png(&self.pixels, self.width, self.height) {
            Ok(bytes) => Ok(bytes),
            Err(_) => Err(EncodingFailed),
        }
    }
}

/// The image crate could not write the picture.
#[derive(Debug, Clone, Copy, PartialEq, Eq, Structural)]
pub struct EncodingFailed;

/// Why a collection has no picture.
#[derive(Debug, Clone, Copy, PartialEq, Eq, Structural)]
pub enum CollectionImageError {
    /// There is nothing to show.
    Empty,
    /// The canvas would be larger than can be held.
    TooLarge,
    /// The image crate could not write the picture.
    Encoding,
}

/// The picture of a creature: the body with the mouth laid over it, and
/// the eyes over both, none of them shifted.
pub open spec fn dino_picture(body: PictureView, mouth: PictureView, eyes: PictureView)
    -> PictureView {
    body.under(mouth, 0, 0).under(eyes, 0, 0)
}

/// The canvas of `grid` with the first `upto` of the `cells` laid on it,
/// each at the origin of its place.
pub open spec fn collage(cells: Seq<PictureView>, grid: Grid, upto: int) -> PictureView
    decreases upto,
{
    if upto <= 0 {
        PictureView::blank(grid.width as int, grid.height as int)
    } else {
        collage(cells, grid, upto - 1).under(
            cells[upto - 1],
            grid.column_of(upto - 1) * column_pitch(),
            grid.row_of(upto - 1) * row_pitch(),
        )
    }
}

/// Whether the canvas for `n` cells can be held in memory.
pub open spec fn canvas_fits(n: int) -> bool {
    &&& 1 <= n <= MAX_GRID_CELLS
    &&& 4 * grid_of(n).width * grid_of(n).height <= usize::MAX
    &&& 4 * grid_of(n).width <= usize::MAX
}

/// The canvas for the `cells`, with every one of them laid on it.
pub open spec fn canvas_of(cells: Seq<PictureView>) -> PictureView {
    collage(cells, grid_of(cells.len() as int), cells.len() as int)
}

/// The file name of the picture of the creature called `name`: the name
/// with `png` for its extension.
pub open spec fn image_file_name_of(name: Seq<char>) -> Seq<char> {
    file_stem_of(file_name_of(name)) + ".png"@
}

/// The file name under which the picture of the creature called `name` is
/// kept.
pub fn image_file_name(name: &str) -> (file_name: String)
    requires
        names_file(name@),
    ensures
        file_name@ == image_file_name_of(name@),
{
    let mut file_name = get_file_stem(name);
    push_text(&mut file_name, ".png");
    file_name
}

/// Draws a creature from the pictures of its three parts: the mouth over
/// the body, the eyes over both. The picture has the size of the body.
pub fn generate_dino_image(body: &Picture, mouth: &Picture, eyes: &Picture) -> (dino: Picture)
    ensures
        dino@ == dino_picture(body@, mouth@, eyes@),
        dino@.wf(),
{
    body.duplicate().overlay(mouth, 0, 0).overlay(eyes, 0, 0)
}

/// Draws the pictures of a collection onto one canvas, cell by cell and
/// row by row, and writes it as a PNG file.
pub fn generate_dino_collection_image(collection: &Vec<Picture>) -> (result: Result<
    Vec<u8>,
    CollectionImageError,
>)
    ensures
        match result {
            Ok(bytes) => canvas_fits(collection.len() as int) && png_of(
                canvas_of(collection.deep_view()).pixels,
                grid_of(collection.len() as int).width as int,
                grid_of(collection.len() as int).height as int,
            ) == Some(bytes@),
            Err(CollectionImageError::Empty) => collection.len() == 0,
            Err(CollectionImageError::TooLarge) => collection.len() > 0 && !canvas_fits(
                collection.len() as int,
            ),
            Err(CollectionImageError::Encoding) => canvas_fits(collection.len() as int) && png_of(
                canvas_of(collection.deep_view()).pixels,
                grid_of(collection.len() as int).width as int,
                grid_of(collection.len() as int).height as int,
            ) is None,
        },
{
    let n: usize = collection.len();
    if n == 0 {
        return Err(CollectionImageError::Empty);
    }
    let Some(grid) = grid_for(n) else {
        return Err(CollectionImageError::TooLarge);
    };
    let Some(blank) = Picture::blank(grid.width, grid.height) else {
        return Err(CollectionImageError::TooLarge);
    };
    let ghost cells = collection.deep_view();
    let mut canvas = blank;
    let mut i: usize = 0;
    while i < n
        invariant
            i <= n,
            n == collection.len(),
            n <= MAX_GRID_CELLS,
            grid.fits(n as int),
            cells == collection.deep_view(),
            canvas@ == collage(cells, grid, i as int),
            canvas@.width == grid.width,
            canvas@.height == grid.height,
        decreases n - i,
    {
        let (x, y) = cell_origin(&grid, i, n);
        assert(cells[i as int] == collection[i as int]@);
        canvas = canvas.overlay(&collection[i], x as i64, y as i64);
        i += 1;
    }
    match canvas.to_png() {
        Ok(bytes) => Ok(bytes),
        Err(_) => Err(CollectionImageError::Encoding),
    }
}

} // verus!
