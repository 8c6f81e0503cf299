//! The skybox: six faces oriented and stacked into one cubemap texture.

use vstd::prelude::*;
use vstd::arithmetic::div_mod::lemma_fundamental_div_mod_converse;
use crate::error::AssetError;
use crate::resource::{
    fragment_stage, BindingEntry, BindingKind, Extent3d, FilterMode, ImageDataLayout,
    SamplerSettings, ShaderStages, TextureDimension, TextureFormat, TextureSettings,
    TextureUsages, ViewDimension,
};

verus! {

/// A decoded image: `height` rows of `width` pixels, four bytes (red, green,
/// blue, alpha) per pixel, rows from top to bottom.
#[derive(Clone, Debug, PartialEq, Eq)]
pub struct FaceImage {
    pub width: u32,
    pub height: u32,
    pub pixels: Vec<u8>,
}

impl FaceImage {
    /// The image holds exactly four bytes for each of its pixels.
    pub open spec fn wf(&self) -> bool {
        self.pixels@.len() == 4 * self.width * self.height
    }

    /// Whether the image holds exactly four bytes for each of its pixels.
    pub fn is_well_formed(&self) -> (b: bool)
        ensures
            b == self.wf(),
    {
        let w: u128 = self.width as u128;
        let h: u128 = self.height as u128;
        assert(w * h <= 0xffff_ffff * 0xffff_ffff) by (nonlinear_arith)
            requires
                w <= 0xffff_ffff,
                h <= 0xffff_ffff,
        ;
        assert(4 * self.width * self.height == 4 * (w * h)) by (nonlinear_arith)
            requires
                w == self.width,
                h == self.height,
        ;
        self.pixels.len() as u128 == 4 * (w * h)
    }
}

/// A clockwise turn applied to a face before it is stacked.
#[derive(Clone, Copy, Debug, PartialEq, Eq)]
pub enum Turn {
    /// The face is used as it is.
    Upright,
    /// The face is turned by 90 degrees.
    Quarter,
    /// The face is turned by 270 degrees.
    ThreeQuarter,
}

/// The pixels of an image of `width` by `height` pixels after a clockwise turn
/// by 90 degrees. The result is `height` pixels wide; its pixel in column `x`
/// of row `y` is the source's pixel in column `y` of row `height - 1 - x`.
pub open spec fn quarter_turn(width: nat, height: nat, pixels: Seq<u8>) -> Seq<u8> {
    Seq::new(
        pixels.len(),
        |i: int|
            {
                let x = (i / 4) % (height as int);
                let y = (i / 4) / (height as int);
                pixels[4 * ((height - 1 - x) * width + y) + i % 4]
            },
    )
}

/// The pixels of an image of `width` by `height` pixels after a clockwise turn
/// by 270 degrees. The result is `height` pixels wide; its pixel in column `x`
/// of row `y` is the source's pixel in column `width - 1 - y` of row `x`.
pub open spec fn three_quarter_turn(width: nat, height: nat, pixels: Seq<u8>) -> Seq<u8> {
    Seq::new(
        pixels.len(),
        |i: int|
            {
                let x = (i / 4) % (height as int);
                let y = (i / 4) / (height as int);
                pixels[4 * (x * width + (width - 1 - y)) + i % 4]
            },
    )
}

/// Turns `face` clockwise by 90 degrees.
///
/// Calls `DynamicImage::rotate90` of the `image` crate on an RGBA8 image made
/// of the face's pixels. The contract claims what the crate's loop does: the
/// result has the source's height as its width and the source's width as its
/// height, and the source's pixel at `(x, y)` lies at `(height - 1 - y, x)`.
/// The crate computes the length of a buffer as four times its width times
/// its height, in this order, and panics when a step overflows: the face and
/// its turned image must each have a row that fits in `usize`.
#[verifier::external_body]
pub(crate) fn rotate90(face: &FaceImage) -> (out: FaceImage)
    requires
        face.wf(),
        4 * face.width <= usize::MAX,
        4 * face.height <= usize::MAX,
    ensures
        out.width == face.height,
        out.height == face.width,
        out.pixels@ == quarter_turn(face.width as nat, face.height as nat, face.pixels@),
{
    let source = image::RgbaImage::from_raw(face.width, face.height, face.pixels.clone()).unwrap();
    let turned = image::DynamicImage::ImageRgba8(source).rotate90().into_rgba8();
    FaceImage { width: turned.width(), height: turned.height(), pixels: turned.into_raw() }
}

/// Turns `face` clockwise by 270 degrees.
///
/// Calls `DynamicImage::rotate270` of the `image` crate on an RGBA8 image made
/// of the face's pixels. The contract claims what the crate's loop does: the
/// result has the source's height as its width and the source's width as its
/// height, and the source's pixel at `(x, y)` lies at `(y, width - 1 - x)`.
/// The crate computes the length of a buffer as four times its width times
/// its height, in this order, and panics when a step overflows: the face and
/// its turned image must each have a row that fits in `usize`.
#[verifier::external_body]
pub(crate) fn rotate270(face: &FaceImage) -> (out: FaceImage)
    requires
        face.wf(),
        4 * face.width <= usize::MAX,
        4 * face.height <= usize::MAX,
    ensures
        out.width == face.height,
        out.height == face.width,
        out.pixels@ == three_quarter_turn(face.width as nat, face.height as nat, face.pixels@),
{
    let source = image::RgbaImage::from_raw(face.width, face.height, face.pixels.clone()).unwrap();
    let turned = image::DynamicImage::ImageRgba8(source).rotate270().into_rgba8();
    FaceImage { width: turned.width(), height: turned.height(), pixels: turned.into_raw() }
}

/// The six faces of the cube, in the order in which they are stacked.
#[derive(Clone, Copy, Debug, PartialEq, Eq)]
pub enum CubeFace {
    Left,
    Right,
    Up,
    Down,
    Front,
    Back,
}

/// The number of faces of a cube.
pub const FACE_COUNT: usize = 6;

/// The turn applied to the face in layer `layer`: the up face (layer 2) is
/// turned by 90 degrees, the down face (layer 3) by 270 degrees, the others
/// are not turned.
pub open spec fn layer_turn(layer: int) -> Turn {
    if layer == 2 {
        Turn::Quarter
    } else if layer == 3 {
        Turn::ThreeQuarter
    } else {
        Turn::Upright
    }
}

impl CubeFace {
    /// The layer of the texture that holds this face.
    pub open spec fn layer(self) -> int {
        match self {
            CubeFace::Left => 0,
            CubeFace::Right => 1,
            CubeFace::Up => 2,
            CubeFace::Down => 3,
            CubeFace::Front => 4,
            CubeFace::Back => 5,
        }
    }

    /// The layer of the texture that holds this face.
    pub fn index(self) -> (i: usize)
        ensures
            i == self.layer(),
            i < FACE_COUNT,
    {
        match self {
            CubeFace::Left => 0,
            CubeFace::Right => 1,
            CubeFace::Up => 2,
            CubeFace::Down => 3,
            CubeFace::Front => 4,
            CubeFace::Back => 5,
        }
    }

    /// The face held in layer `i`, if `i` is one of the six layers.
    pub fn from_index(i: usize) -> (face: Option<CubeFace>)
        ensures
            i < FACE_COUNT <==> face is Some,
            face matches Some(f) ==> f.layer() == i,
    {
        if i == 0 {
            Some(CubeFace::Left)
        } else if i == 1 {
            Some(CubeFace::Right)
        } else if i == 2 {
            Some(CubeFace::Up)
        } else if i == 3 {
            Some(CubeFace::Down)
        } else if i == 4 {
            Some(CubeFace::Front)
        } else if i == 5 {
            Some(CubeFace::Back)
        } else {
            None
        }
    }

    /// The turn applied to this face before it is stacked.
    pub fn turn(self) -> (t: Turn)
        ensures
            t == layer_turn(self.layer()),
            t == Turn::Quarter <==> self == CubeFace::Up,
            t == Turn::ThreeQuarter <==> self == CubeFace::Down,
    {
        match self {
            CubeFace::Up => Turn::Quarter,
            CubeFace::Down => Turn::ThreeQuarter,
            _ => Turn::Upright,
        }
    }

    /// The name of the file that holds this face.
    pub open spec fn spec_file_name(self) -> Seq<char> {
        match self {
            CubeFace::Left => "yellowcloud_lf.jpg"@,
            CubeFace::Right => "yellowcloud_rt.jpg"@,
            CubeFace::Up => "yellowcloud_up.jpg"@,
            CubeFace::Down => "yellowcloud_dn.jpg"@,
            CubeFace::Front => "yellowcloud_ft.jpg"@,
            CubeFace::Back => "yellowcloud_bk.jpg"@,
        }
    }

    /// The name of the file that holds this face.
    pub fn file_name(self) -> (name: &'static str)
        ensures
            name@ == self.spec_file_name(),
    {
        match self {
            CubeFace::Left => "yellowcloud_lf.jpg",
            CubeFace::Right => "yellowcloud_rt.jpg",
            CubeFace::Up => "yellowcloud_up.jpg",
            CubeFace::Down => "yellowcloud_dn.jpg",
            CubeFace::Front => "yellowcloud_ft.jpg",
            CubeFace::Back => "yellowcloud_bk.jpg",
        }
    }
}

/// The width of `face` after `turn`.
pub open spec fn oriented_width(face: FaceImage, turn: Turn) -> u32 {
    match turn {
        Turn::Upright => face.width,
        _ => face.height,
    }
}

/// The height of `face` after `turn`.
pub open spec fn oriented_height(face: FaceImage, turn: Turn) -> u32 {
    match turn {
        Turn::Upright => face.height,
        _ => face.width,
    }
}

/// The pixels of `face` after `turn`.
pub open spec fn oriented_pixels(face: FaceImage, turn: Turn) -> Seq<u8> {
    match turn {
        Turn::Upright => face.pixels@,
        Turn::Quarter => quarter_turn(face.width as nat, face.height as nat, face.pixels@),
        Turn::ThreeQuarter => three_quarter_turn(
            face.width as nat,
            face.height as nat,
            face.pixels@,
        ),
    }
}

/// The first `count` faces, each oriented for its layer, one after another.
pub open spec fn stacked(faces: Seq<FaceImage>, count: nat) -> Seq<u8>
    decreases count,
{
    if count == 0 {
        Seq::empty()
    } else {
        stacked(faces, (count - 1) as nat) + oriented_pixels(
            faces[count - 1],
            layer_turn(count - 1),
        )
    }
}

/// Face `i`, once oriented, has the dimensions of the first face.
pub open spec fn fits_first(faces: Seq<FaceImage>, i: int) -> bool {
    &&& oriented_width(faces[i], layer_turn(i)) == faces[0].width
    &&& oriented_height(faces[i], layer_turn(i)) == faces[0].height
}

/// Why no cubemap can be made of `faces`, if none can: a face does not hold
/// four bytes per pixel; or else a face, once oriented, differs in width or
/// height from the first; or else a row is too long for an upload; or else a
/// column, which is a row of the turned faces, is too long for this machine.
pub open spec fn cubemap_error(faces: Seq<FaceImage>) -> Option<AssetError> {
    if exists|i: int| 0 <= i < FACE_COUNT && !(#[trigger] faces[i]).wf() {
        Some(AssetError::BadPixelCount)
    } else if exists|i: int| 0 <= i < FACE_COUNT && !#[trigger] fits_first(faces, i) {
        Some(AssetError::SizeMismatch)
    } else if 4 * faces[0].width > u32::MAX {
        Some(AssetError::RowTooWide)
    } else if 4 * faces[0].height > usize::MAX {
        Some(AssetError::ColumnTooTall)
    } else {
        None
    }
}

/// Why no cubemap can be made of `faces`, if none can.
pub fn check_faces(faces: &[FaceImage; 6]) -> (error: Option<AssetError>)
    ensures
        error == cubemap_error(faces@),
{
    let mut i: usize = 0;
    while i < FACE_COUNT
        invariant
            i <= FACE_COUNT,
            forall|j: int| 0 <= j < i ==> (#[trigger] faces@[j]).wf(),
        decreases FACE_COUNT - i,
    {
        if !faces[i].is_well_formed() {
            assert(!faces@[i as int].wf());
            return Some(AssetError::BadPixelCount);
        }
        i = i + 1;
    }
    let width: u32 = faces[0].width;
    let height: u32 = faces[0].height;
    let mut k: usize = 0;
    while k < FACE_COUNT
        invariant
            k <= FACE_COUNT,
            width == faces@[0].width,
            height == faces@[0].height,
            forall|j: int| 0 <= j < FACE_COUNT ==> (#[trigger] faces@[j]).wf(),
            forall|j: int| 0 <= j < k ==> #[trigger] fits_first(faces@, j),
        decreases FACE_COUNT - k,
    {
        let face = &faces[k];
        let fits = if k == 2 || k == 3 {
            face.height == width && face.width == height
        } else {
            face.width == width && face.height == height
        };
        assert(fits == fits_first(faces@, k as int));
        if !fits {
            return Some(AssetError::SizeMismatch);
        }
        k = k + 1;
    }
    if width > u32::MAX / 4 {
        return Some(AssetError::RowTooWide);
    }
    if height as usize > usize::MAX / 4 {
        return Some(AssetError::ColumnTooTall);
    }
    None
}

/// Appends the bytes of `part` to `out`.
pub(crate) fn append_bytes(out: &mut Vec<u8>, part: &Vec<u8>)
    ensures
        final(out)@ == old(out)@ + part@,
{
    let mut k: usize = 0;
    while k < part.len()
        invariant
            k <= part.len(),
            out@ == old(out)@ + part@.subrange(0, k as int),
        decreases part.len() - k,
    {
        out.push(part[k]);
        k = k + 1;
    }
    assert(part@.subrange(0, part.len() as int) == part@);
}

/// The skybox texture: six layers of one size, the bytes to upload into them,
/// and the sampler and bindings through which the shader reads them.
#[derive(Clone, Debug, PartialEq, Eq)]
pub struct CubeMap {
    pub texture: TextureSettings,
    pub view_dimension: ViewDimension,
    pub sampler: SamplerSettings,
    pub data: Vec<u8>,
    pub data_layout: ImageDataLayout,
    pub bind_group_layout: Vec<BindingEntry>,
}

/// The creation parameters of a cubemap texture of six `width` by `height` layers.
pub open spec fn cubemap_texture(width: u32, height: u32) -> TextureSettings {
    TextureSettings {
        size: Extent3d { width, height, depth_or_array_layers: 6 },
        mip_level_count: 1,
        sample_count: 1,
        dimension: TextureDimension::D2,
        format: TextureFormat::Rgba8UnormSrgb,
        usage: TextureUsages { texture_binding: true, copy_dst: true, render_attachment: false },
    }
}

/// The bindings of the skybox group: the cube view at binding 0 and the
/// sampler at binding 1, both visible to the fragment stage only.
pub open spec fn cubemap_bindings() -> Seq<BindingEntry> {
    seq![
        BindingEntry { binding: 0, visibility: fragment_stage(), kind: BindingKind::CubeTexture },
        BindingEntry {
            binding: 1,
            visibility: fragment_stage(),
            kind: BindingKind::FilteringSampler,
        },
    ]
}

impl CubeMap {
    /// The texture has six layers, the upload fills them exactly, row by
    /// row, and the sampler and the bindings are those of the skybox group.
    pub open spec fn wf(&self) -> bool {
        &&& self.texture == cubemap_texture(self.texture.size.width, self.texture.size.height)
        &&& self.view_dimension == ViewDimension::Cube
        &&& self.sampler == SamplerSettings {
            mag_filter: FilterMode::Linear,
            min_filter: FilterMode::Linear,
        }
        &&& self.data_layout.offset == 0
        &&& self.data_layout.bytes_per_row == 4 * self.texture.size.width
        &&& self.data_layout.rows_per_image == self.texture.size.height
        &&& self.data@.len() == 6 * (self.data_layout.bytes_per_row
            * self.data_layout.rows_per_image)
        &&& self.bind_group_layout@ == cubemap_bindings()
    }

    /// The cubemap made of `faces`: what `CubeMap::new` returns on success.
    pub open spec fn describes(&self, faces: Seq<FaceImage>) -> bool {
        &&& self.texture == cubemap_texture(faces[0].width, faces[0].height)
        &&& self.view_dimension == ViewDimension::Cube
        &&& self.sampler == SamplerSettings {
            mag_filter: FilterMode::Linear,
            min_filter: FilterMode::Linear,
        }
        &&& self.data@ == stacked(faces, FACE_COUNT as nat)
        &&& self.data_layout == ImageDataLayout {
            offset: 0,
            bytes_per_row: (4 * faces[0].width) as u32,
            rows_per_image: faces[0].height,
        }
        &&& self.bind_group_layout@ == cubemap_bindings()
    }

    /// Assembles the cubemap from its six faces, given in the order left,
    /// right, up, down, front, back.
    ///
    /// The up face is turned by 90 degrees and the down face by 270 degrees;
    /// the faces are then stacked in the order given. Fails, before any face
    /// is turned, when a face does not hold four bytes per pixel, when an
    /// oriented face differs in size from the first, when a row does not fit
    /// an upload, or when a column does not fit this machine's addresses.
    pub fn new(faces: &[FaceImage; 6]) -> (r: Result<CubeMap, AssetError>)
        ensures
            match r {
                Ok(map) => cubemap_error(faces@) is None && map.describes(faces@) && map.wf(),
                Err(e) => cubemap_error(faces@) == Some(e),
            },
    {
        match check_faces(faces) {
            Some(e) => {
                return Err(e);
            },
            None => {},
        }
        let width: u32 = faces[0].width;
        let height: u32 = faces[0].height;
        let mut data: Vec<u8> = Vec::new();
        let mut k: usize = 0;
        while k < FACE_COUNT
            invariant
                k <= FACE_COUNT,
                forall|j: int| 0 <= j < FACE_COUNT ==> (#[trigger] faces@[j]).wf(),
                forall|j: int| 0 <= j < FACE_COUNT ==> #[trigger] fits_first(faces@, j),
                4 * faces@[0].width <= usize::MAX,
                4 * faces@[0].height <= usize::MAX,
                data@ == stacked(faces@, k as nat),
            decreases FACE_COUNT - k,
        {
            let face = &faces[k];
            assert(faces@[k as int].wf());
            assert(fits_first(faces@, k as int));
            if k == 2 {
                let turned = rotate90(face);
                append_bytes(&mut data, &turned.pixels);
            } else if k == 3 {
                let turned = rotate270(face);
                append_bytes(&mut data, &turned.pixels);
            } else {
                append_bytes(&mut data, &face.pixels);
            }
            k = k + 1;
        }
        let mut bind_group_layout: Vec<BindingEntry> = Vec::new();
        let fragment = ShaderStages { vertex: false, fragment: true, compute: false };
        bind_group_layout.push(
            BindingEntry { binding: 0, visibility: fragment, kind: BindingKind::CubeTexture },
        );
        bind_group_layout.push(
            BindingEntry { binding: 1, visibility: fragment, kind: BindingKind::FilteringSampler },
        );
        assert(bind_group_layout@ =~= cubemap_bindings());
        proof {
            assert(faces@.len() == FACE_COUNT);
            lemma_stacked_len(faces@, FACE_COUNT as nat);
            assert(4 * width * height == (4 * width) * height) by (nonlinear_arith);
        }
        Ok(
            CubeMap {
                texture: TextureSettings {
                    size: Extent3d { width, height, depth_or_array_layers: 6 },
                    mip_level_count: 1,
                    sample_count: 1,
                    dimension: TextureDimension::D2,
                    format: TextureFormat::Rgba8UnormSrgb,
                    usage: TextureUsages {
                        texture_binding: true,
                        copy_dst: true,
                        render_attachment: false,
                    },
                },
                view_dimension: ViewDimension::Cube,
                sampler: SamplerSettings {
                    mag_filter: FilterMode::Linear,
                    min_filter: FilterMode::Linear,
                },
                data,
                data_layout: ImageDataLayout {
                    offset: 0,
                    bytes_per_row: width * 4,
                    rows_per_image: height,
                },
                bind_group_layout,
            },
        )
    }
}

/// A turn by 90 degrees moves the source's pixel in column `x` of row `y` to
/// column `height - 1 - y` of row `x`: what was the top-left corner becomes
/// the top-right corner.
pub proof fn lemma_quarter_turn_pixel(
    width: nat,
    height: nat,
    pixels: Seq<u8>,
    x: int,
    y: int,
    c: int,
)
    requires
        pixels.len() == 4 * width * height,
        0 <= x < width,
        0 <= y < height,
        0 <= c < 4,
    ensures
        0 <= 4 * (x * height + (height - 1 - y)) + c < pixels.len(),
        0 <= 4 * (y * width + x) + c < pixels.len(),
        quarter_turn(width, height, pixels)[4 * (x * height + (height - 1 - y)) + c]
            == pixels[4 * (y * width + x) + c],
{
    let p = x * height + (height - 1 - y);
    let i = 4 * p + c;
    lemma_fundamental_div_mod_converse(p, height as int, x, height - 1 - y);
    lemma_pixel_in_bounds(height, width, height - 1 - y, x, c);
    lemma_pixel_in_bounds(width, height, x, y, c);
    assert(4 * height * width == 4 * width * height) by (nonlinear_arith);
    assert(i / 4 == p && i % 4 == c);
}

/// A turn by 270 degrees moves the source's pixel in column `x` of row `y` to
/// column `y` of row `width - 1 - x`: what was the top-left corner becomes
/// the bottom-left corner.
pub proof fn lemma_three_quarter_turn_pixel(
    width: nat,
    height: nat,
    pixels: Seq<u8>,
    x: int,
    y: int,
    c: int,
)
    requires
        pixels.len() == 4 * width * height,
        0 <= x < width,
        0 <= y < height,
        0 <= c < 4,
    ensures
        0 <= 4 * ((width - 1 - x) * height + y) + c < pixels.len(),
        0 <= 4 * (y * width + x) + c < pixels.len(),
        three_quarter_turn(width, height, pixels)[4 * ((width - 1 - x) * height + y) + c]
            == pixels[4 * (y * width + x) + c],
{
    let p = (width - 1 - x) * height + y;
    let i = 4 * p + c;
    lemma_fundamental_div_mod_converse(p, height as int, width - 1 - x, y);
    lemma_pixel_in_bounds(height, width, y, width - 1 - x, c);
    lemma_pixel_in_bounds(width, height, x, y, c);
    assert(4 * height * width == 4 * width * height) by (nonlinear_arith);
    assert(i / 4 == p && i % 4 == c);
    assert(width - 1 - (width - 1 - x) == x);
}

/// Channel `c` of the pixel in column `x` of row `y` lies inside an image of
/// `width` by `height` pixels.
pub proof fn lemma_pixel_in_bounds(width: nat, height: nat, x: int, y: int, c: int)
    requires
        0 <= x < width,
        0 <= y < height,
        0 <= c < 4,
    ensures
        0 <= 4 * (y * width + x) + c < 4 * width * height,
{
    assert(y * width + x < width * height) by (nonlinear_arith)
        requires
            0 <= x < width,
            0 <= y < height,
    ;
    assert(0 <= y * width + x) by (nonlinear_arith)
        requires
            0 <= x < width,
            0 <= y < height,
    ;
    assert(4 * (width * height) == 4 * width * height) by (nonlinear_arith);
}

/// All six faces hold four bytes per pixel and, once oriented, have the
/// dimensions of the first.
pub open spec fn faces_agree(faces: Seq<FaceImage>) -> bool {
    &&& faces.len() == FACE_COUNT
    &&& forall|i: int| 0 <= i < FACE_COUNT ==> (#[trigger] faces[i]).wf()
    &&& forall|i: int| 0 <= i < FACE_COUNT ==> #[trigger] fits_first(faces, i)
}

/// The number of bytes in one layer of the cubemap made of `faces`.
pub open spec fn layer_bytes(faces: Seq<FaceImage>) -> nat {
    (4 * faces[0].width * faces[0].height) as nat
}

/// Every oriented face fills exactly one layer.
pub proof fn lemma_oriented_len(faces: Seq<FaceImage>, i: int)
    requires
        faces_agree(faces),
        0 <= i < FACE_COUNT,
    ensures
        oriented_pixels(faces[i], layer_turn(i)).len() == layer_bytes(faces),
{
    let f = faces[i];
    assert(f.wf());
    assert(fits_first(faces, i));
    assert(4 * f.width * f.height == 4 * f.height * f.width) by (nonlinear_arith);
}

/// The first `count` layers are `count` layers long.
pub proof fn lemma_stacked_len(faces: Seq<FaceImage>, count: nat)
    requires
        faces_agree(faces),
        count <= FACE_COUNT,
    ensures
        stacked(faces, count).len() == count * layer_bytes(faces),
    decreases count,
{
    if count > 0 {
        lemma_stacked_len(faces, (count - 1) as nat);
        lemma_oriented_len(faces, count - 1);
        assert((count - 1) * layer_bytes(faces) + layer_bytes(faces) == count * layer_bytes(
            faces,
        )) by (nonlinear_arith);
    } else {
        assert(stacked(faces, count) =~= Seq::<u8>::empty());
        assert(count * layer_bytes(faces) == 0) by (nonlinear_arith)
            requires
                count == 0,
        ;
    }
}

/// In the assembled cubemap, layer `i` holds face `i` in its orientation: the
/// up face turned by 90 degrees, the down face by 270 degrees, the other four
/// as they were given.
pub proof fn lemma_layer_holds_face(faces: Seq<FaceImage>, count: nat, i: int)
    requires
        faces_agree(faces),
        0 <= i < count <= FACE_COUNT,
    ensures
        (i + 1) * layer_bytes(faces) <= stacked(faces, count).len(),
        stacked(faces, count).subrange(i * layer_bytes(faces), (i + 1) * layer_bytes(faces))
            == oriented_pixels(faces[i], layer_turn(i)),
    decreases count,
{
    let size = layer_bytes(faces);
    lemma_stacked_len(faces, count);
    lemma_stacked_len(faces, (count - 1) as nat);
    lemma_oriented_len(faces, count - 1);
    assert((i + 1) * size == i * size + size) by (nonlinear_arith);
    assert(i * size <= (count - 1) * size) by (nonlinear_arith)
        requires
            0 <= i <= count - 1,
            0 <= size,
    ;
    assert((count - 1) * size + size == count * size) by (nonlinear_arith);
    let below = stacked(faces, (count - 1) as nat);
    let top = oriented_pixels(faces[count - 1], layer_turn(count - 1));
    assert(stacked(faces, count) == below + top);
    if i == count - 1 {
        assert((below + top).subrange(i * size, (i + 1) * size) =~= top);
    } else {
        lemma_layer_holds_face(faces, (count - 1) as nat, i);
        assert((i + 1) * size <= (count - 1) * size) by (nonlinear_arith)
            requires
                i + 1 <= count - 1,
                0 <= size,
        ;
        assert((below + top).subrange(i * size, (i + 1) * size) =~= below.subrange(
            i * size,
            (i + 1) * size,
        ));
    }
}

} // verus!
