//! Camera frames and how they reach the GPU.

use std::sync::Arc;
use vstd::prelude::*;
use crate::words::{buffer_bytes, in_memory};

verus! {

/// Layout of a frame's pixels.
#[derive(Clone, Copy, Debug, PartialEq, Eq, Structural)]
pub enum PixelFormat {
    RGBA,
    /// Luma plane, then one plane of interleaved chroma.
    NV12,
    NV21,
    /// Luma plane, then one plane per chroma channel.
    I420,
    /// Packed: four bytes carry two pixels.
    YUYV,
    UYVY,
    YVYU,
    VYUY,
    Gray8,
    RGB24,
    ABGR,
    BGRA,
    /// Sensor mosaics, which a debayer pass has to turn into colour first.
    BayerRGGB,
    BayerBGGR,
    BayerGRBG,
    BayerGBRG,
}

impl PixelFormat {
    /// Four bytes carry two pixels.
    pub open spec fn packed(self) -> bool {
        self is YUYV || self is UYVY || self is YVYU || self is VYUY
    }

    /// A sensor mosaic.
    pub open spec fn bayer(self) -> bool {
        self is BayerRGGB || self is BayerBGGR || self is BayerGRBG || self is BayerGBRG
    }

    /// The chroma samples of two neighbouring rows and columns are shared, and
    /// stand in planes of their own.
    pub open spec fn planar(self) -> bool {
        self is NV12 || self is NV21 || self is I420
    }

    /// Whether four bytes carry two pixels.
    pub fn is_packed(self) -> (answer: bool)
        ensures
            answer == self.packed(),
    {
        matches!(self, PixelFormat::YUYV | PixelFormat::UYVY | PixelFormat::YVYU | PixelFormat::VYUY)
    }

    /// Whether pixels of this format pass through a conversion on the GPU
    /// before they can be drawn.
    pub fn needs_gpu_conversion(self) -> (answer: bool)
        ensures
            answer == !(self is RGBA),
    {
        !matches!(self, PixelFormat::RGBA)
    }
}

/// Where the planes of a frame lie in its buffer.
#[derive(Clone, Copy, Debug, PartialEq, Eq, Structural)]
pub struct YuvPlanes {
    pub y_offset: usize,
    pub y_size: usize,
    pub uv_offset: usize,
    pub uv_size: usize,
    pub uv_stride: u32,
    pub v_offset: usize,
    pub v_size: usize,
    pub v_stride: u32,
    pub uv_width: u32,
    pub uv_height: u32,
}

/// A frame for upload to the GPU.
#[derive(Debug)]
pub struct VideoFrame {
    pub id: u64,
    pub width: u32,
    pub height: u32,
    /// RGBA pixels, packed pixels, or all planes one after the other.
    pub data: Arc<Vec<u8>>,
    pub format: PixelFormat,
    /// Bytes from one row to the next, padding among them.
    pub stride: u32,
    /// Set for formats with planes.
    pub yuv_planes: Option<YuvPlanes>,
}

impl Clone for VideoFrame {
    fn clone(&self) -> (copy: Self)
        ensures
            copy == *self,
    {
        VideoFrame {
            id: self.id,
            width: self.width,
            height: self.height,
            data: self.data.clone(),
            format: self.format,
            stride: self.stride,
            yuv_planes: self.yuv_planes,
        }
    }
}

impl VideoFrame {
    /// All bytes of the frame.
    pub fn data_slice(&self) -> (bytes: &[u8])
        ensures
            bytes@ == self.data@,
    {
        self.data.as_slice()
    }

    /// The pixels of an RGBA frame. Frames of other formats hold no RGBA pixels
    /// before they are converted.
    pub fn rgba_data(&self) -> (bytes: &[u8])
        requires
            self.format is RGBA,
        ensures
            bytes@ == self.data@,
    {
        self.data.as_slice()
    }

    /// Whether the frame passes through a conversion on the GPU before it can be
    /// drawn.
    pub fn needs_gpu_conversion(&self) -> (answer: bool)
        ensures
            answer == !(self.format is RGBA),
    {
        self.format.needs_gpu_conversion()
    }
}

/// Chroma size of a frame that does not tell where its planes lie.
pub open spec fn default_uv_extent(format: PixelFormat, width: u32, height: u32) -> (u32, u32) {
    if format.planar() {
        (width / 2, height / 2)
    } else if format.packed() {
        (width / 2, height)
    } else {
        (1, 1)
    }
}

/// Chroma size of a frame that does not tell where its planes lie.
pub fn default_uv_size(format: PixelFormat, width: u32, height: u32) -> (size: (u32, u32))
    ensures
        size == default_uv_extent(format, width, height),
{
    match format {
        PixelFormat::NV12 | PixelFormat::NV21 | PixelFormat::I420 => (width / 2, height / 2),
        PixelFormat::YUYV | PixelFormat::UYVY | PixelFormat::YVYU | PixelFormat::VYUY => {
            (width / 2, height)
        },
        _ => (1, 1),
    }
}

/// What the plane textures of a source are made for.
#[derive(Clone, Copy, Debug, PartialEq, Eq, Structural)]
pub struct PlaneShape {
    pub width: u32,
    pub height: u32,
    pub uv_width: u32,
    pub uv_height: u32,
    pub format: PixelFormat,
}

/// Texel layout of a plane texture.
#[derive(Clone, Copy, Debug, PartialEq, Eq, Structural)]
pub enum TexelFormat {
    R8Unorm,
    Rg8Unorm,
    Rgba8Unorm,
}

/// A texture to create.
#[derive(Clone, Copy, Debug, PartialEq, Eq, Structural)]
pub struct TextureSpec {
    pub width: u32,
    pub height: u32,
    pub texel: TexelFormat,
}

/// The three plane textures of a source. All three exist for every format, so
/// that one bind group layout serves them all.
#[derive(Clone, Copy, Debug, PartialEq, Eq, Structural)]
pub struct PlaneTextures {
    pub y: TextureSpec,
    pub uv: TextureSpec,
    pub v: TextureSpec,
}

/// The larger of `n` and one.
pub open spec fn at_least_one(n: u32) -> u32 {
    if n == 0 {
        1
    } else {
        n
    }
}

impl PlaneShape {
    /// What the plane textures for `frame` are made for: the chroma size that
    /// the frame tells, or else the default for its format.
    pub open spec fn of(frame: VideoFrame) -> PlaneShape {
        let (uv_width, uv_height) = match frame.yuv_planes {
            Some(planes) => (planes.uv_width, planes.uv_height),
            None => default_uv_extent(frame.format, frame.width, frame.height),
        };
        PlaneShape {
            width: frame.width,
            height: frame.height,
            uv_width,
            uv_height,
            format: frame.format,
        }
    }

    /// The textures made for this shape. A packed texel carries two pixels, so
    /// packed formats take half the width; a chroma texture is never empty.
    pub open spec fn planes(self) -> PlaneTextures {
        let uv_width = at_least_one(self.uv_width);
        let uv_height = at_least_one(self.uv_height);
        PlaneTextures {
            y: TextureSpec {
                width: if self.format.packed() {
                    self.width / 2
                } else {
                    self.width
                },
                height: self.height,
                texel: if self.format.planar() || self.format is Gray8 || self.format.bayer() {
                    TexelFormat::R8Unorm
                } else {
                    TexelFormat::Rgba8Unorm
                },
            },
            uv: TextureSpec {
                width: uv_width,
                height: uv_height,
                texel: if self.format is NV12 || self.format is NV21 {
                    TexelFormat::Rg8Unorm
                } else {
                    TexelFormat::R8Unorm
                },
            },
            v: TextureSpec { width: uv_width, height: uv_height, texel: TexelFormat::R8Unorm },
        }
    }

    /// What the plane textures for `frame` are made for.
    pub fn for_frame(frame: &VideoFrame) -> (shape: PlaneShape)
        ensures
            shape == PlaneShape::of(*frame),
    {
        let (uv_width, uv_height) = match frame.yuv_planes {
            Some(planes) => (planes.uv_width, planes.uv_height),
            None => default_uv_size(frame.format, frame.width, frame.height),
        };
        PlaneShape {
            width: frame.width,
            height: frame.height,
            uv_width,
            uv_height,
            format: frame.format,
        }
    }

    /// The textures made for this shape.
    pub fn textures(self) -> (textures: PlaneTextures)
        ensures
            textures == self.planes(),
    {
        let y_texel = match self.format {
            PixelFormat::YUYV | PixelFormat::UYVY | PixelFormat::YVYU | PixelFormat::VYUY => {
                TexelFormat::Rgba8Unorm
            },
            PixelFormat::RGBA | PixelFormat::RGB24 | PixelFormat::ABGR | PixelFormat::BGRA => {
                TexelFormat::Rgba8Unorm
            },
            _ => TexelFormat::R8Unorm,
        };
        let uv_texel = match self.format {
            PixelFormat::NV12 | PixelFormat::NV21 => TexelFormat::Rg8Unorm,
            _ => TexelFormat::R8Unorm,
        };
        let y_width: u32 = if self.format.is_packed() { self.width / 2 } else { self.width };
        let uv_width: u32 = if self.uv_width == 0 { 1 } else { self.uv_width };
        let uv_height: u32 = if self.uv_height == 0 { 1 } else { self.uv_height };
        PlaneTextures {
            y: TextureSpec { width: y_width, height: self.height, texel: y_texel },
            uv: TextureSpec { width: uv_width, height: uv_height, texel: uv_texel },
            v: TextureSpec { width: uv_width, height: uv_height, texel: TexelFormat::R8Unorm },
        }
    }
}

/// One of the plane textures.
#[derive(Clone, Copy, Debug, PartialEq, Eq, Structural)]
pub enum Plane {
    Y,
    UV,
    V,
}

/// A copy of the frame bytes `start..end` into the top left corner of a plane
/// texture.
#[derive(Clone, Copy, Debug, PartialEq, Eq, Structural)]
pub struct PlaneWrite {
    pub plane: Plane,
    pub start: usize,
    pub end: usize,
    pub bytes_per_row: u32,
    pub width: u32,
    pub height: u32,
}

/// Why a frame cannot be converted.
#[derive(Clone, Copy, Debug, PartialEq, Eq, Structural)]
pub enum ConversionRefusal {
    /// RGBA frames are uploaded as they are.
    Rgba,
    /// The capture pipeline should have turned these into RGBA.
    Rgb24,
    /// Sensor mosaics take the debayer pass.
    Bayer,
}

/// Arguments of the conversion shader.
#[derive(Clone, Copy, Debug, PartialEq, Eq, Structural)]
pub struct YuvConvertParams {
    pub width: u32,
    pub height: u32,
    /// The format as the shader numbers it.
    pub format: u32,
    pub y_stride: u32,
    pub uv_stride: u32,
    pub v_stride: u32,
}

impl YuvConvertParams {
    /// The arguments in the order of the shader's struct, padded to eight words.
    pub open spec fn layout(self) -> Seq<u32> {
        seq![
            self.width,
            self.height,
            self.format,
            self.y_stride,
            self.uv_stride,
            self.v_stride,
            0,
            0,
        ]
    }

    /// The arguments as the shader's uniform buffer takes them.
    pub fn to_bytes(&self) -> (bytes: Vec<u8>)
        ensures
            in_memory(self.layout(), bytes@),
            bytes@.len() == 32,
    {
        let words: [u32; 8] = [
            self.width,
            self.height,
            self.format,
            self.y_stride,
            self.uv_stride,
            self.v_stride,
            0,
            0,
        ];
        assert(words@ =~= self.layout());
        buffer_bytes(words.as_slice())
    }
}

/// All that the conversion of one frame takes.
#[derive(Debug)]
pub struct ConversionPlan {
    pub writes: Vec<PlaneWrite>,
    pub params: YuvConvertParams,
    /// Work groups of the dispatch; each covers 16 by 16 pixels.
    pub groups: (u32, u32),
}

/// Pixels along one side of a work group of the conversion shader.
pub const WORKGROUP_SIDE: u32 = 16;

/// Work groups that cover `n` pixels.
pub open spec fn groups_over(n: u32) -> u32 {
    ((n + WORKGROUP_SIDE - 1) / WORKGROUP_SIDE as int) as u32
}

fn group_count(n: u32) -> (count: u32)
    ensures
        count == groups_over(n),
{
    let whole: u32 = n / WORKGROUP_SIDE;
    if n % WORKGROUP_SIDE == 0 {
        whole
    } else {
        whole + 1
    }
}

impl VideoFrame {
    /// The copy of the whole buffer into the luma texture, `width` texels wide.
    pub open spec fn whole_write(self, width: u32) -> PlaneWrite {
        PlaneWrite {
            plane: Plane::Y,
            start: 0,
            end: self.data@.len() as usize,
            bytes_per_row: self.stride,
            width,
            height: self.height,
        }
    }

    /// The copy of the luma plane.
    pub open spec fn luma_write(self, planes: YuvPlanes) -> PlaneWrite {
        PlaneWrite {
            plane: Plane::Y,
            start: planes.y_offset,
            end: (planes.y_offset + planes.y_size) as usize,
            bytes_per_row: self.stride,
            width: self.width,
            height: self.height,
        }
    }

    /// The copy of the first chroma plane, `width` by `height` texels.
    pub open spec fn chroma_write(self, planes: YuvPlanes, width: u32, height: u32) -> PlaneWrite {
        PlaneWrite {
            plane: Plane::UV,
            start: planes.uv_offset,
            end: (planes.uv_offset + planes.uv_size) as usize,
            bytes_per_row: planes.uv_stride,
            width,
            height,
        }
    }

    /// The copy of the second chroma plane of a fully planar frame.
    pub open spec fn second_chroma_write(self, planes: YuvPlanes) -> PlaneWrite {
        PlaneWrite {
            plane: Plane::V,
            start: planes.v_offset,
            end: (planes.v_offset + planes.v_size) as usize,
            bytes_per_row: planes.v_stride,
            width: planes.uv_width,
            height: planes.uv_height,
        }
    }

    /// Why the frame cannot be converted, if it cannot.
    pub open spec fn refusal(self) -> Option<ConversionRefusal> {
        if self.format is RGBA {
            Some(ConversionRefusal::Rgba)
        } else if self.format is RGB24 {
            Some(ConversionRefusal::Rgb24)
        } else if self.format.bayer() {
            Some(ConversionRefusal::Bayer)
        } else {
            None
        }
    }

    /// The copies that bring the frame into the plane textures. A format with
    /// planes whose places are unknown copies nothing.
    pub open spec fn plane_writes(self) -> Seq<PlaneWrite> {
        if self.format.packed() {
            seq![self.whole_write(self.width / 2)]
        } else if self.format.planar() {
            match self.yuv_planes {
                None => seq![],
                Some(planes) => if self.format is I420 {
                    let two = seq![
                        self.luma_write(planes),
                        self.chroma_write(planes, planes.uv_width, planes.uv_height),
                    ];
                    if planes.v_size > 0 {
                        two.push(self.second_chroma_write(planes))
                    } else {
                        two
                    }
                } else {
                    seq![
                        self.luma_write(planes),
                        self.chroma_write(planes, self.width / 2, self.height / 2),
                    ]
                },
            }
        } else {
            seq![self.whole_write(self.width)]
        }
    }

    /// Every plane that the conversion reads lies inside the buffer.
    pub open spec fn planes_in_bounds(self) -> bool {
        self.format.planar() ==> (self.yuv_planes matches Some(planes) ==> {
            &&& planes.y_offset + planes.y_size <= self.data@.len()
            &&& planes.uv_offset + planes.uv_size <= self.data@.len()
            &&& self.format is I420 && planes.v_size > 0 ==> planes.v_offset + planes.v_size
                <= self.data@.len()
        })
    }

    /// The shader arguments for the frame.
    pub open spec fn convert_params(self, format_code: u32) -> YuvConvertParams {
        YuvConvertParams {
            width: self.width,
            height: self.height,
            format: format_code,
            y_stride: self.stride,
            uv_stride: match self.yuv_planes {
                Some(planes) => planes.uv_stride,
                None => 0,
            },
            v_stride: match self.yuv_planes {
                Some(planes) => planes.v_stride,
                None => 0,
            },
        }
    }

    /// Whether every plane that the conversion reads lies inside the buffer.
    pub fn planes_fit(&self) -> (answer: bool)
        ensures
            answer == self.planes_in_bounds(),
    {
        match (self.format, self.yuv_planes) {
            (PixelFormat::NV12 | PixelFormat::NV21, Some(planes)) => {
                span_fits(planes.y_offset, planes.y_size, self.data.len())
                    && span_fits(planes.uv_offset, planes.uv_size, self.data.len())
            },
            (PixelFormat::I420, Some(planes)) => {
                span_fits(planes.y_offset, planes.y_size, self.data.len())
                    && span_fits(planes.uv_offset, planes.uv_size, self.data.len())
                    && (planes.v_size == 0 || span_fits(
                    planes.v_offset,
                    planes.v_size,
                    self.data.len(),
                ))
            },
            _ => true,
        }
    }

    /// Plans the conversion of the frame; `format_code` is the number that the
    /// shader knows the format by.
    pub fn upload_yuv_and_convert(&self, format_code: u32) -> (plan: Result<
        ConversionPlan,
        ConversionRefusal,
    >)
        requires
            self.planes_in_bounds(),
        ensures
            plan is Err <==> self.refusal() is Some,
            plan matches Err(refusal) ==> self.refusal() == Some(refusal),
            plan matches Ok(plan) ==> {
                &&& plan.writes@ == self.plane_writes()
                &&& plan.params == self.convert_params(format_code)
                &&& plan.groups == (groups_over(self.width), groups_over(self.height))
            },
    {
        let len: usize = self.data.len();
        let mut writes: Vec<PlaneWrite> = Vec::new();
        match self.format {
            PixelFormat::YUYV | PixelFormat::UYVY | PixelFormat::YVYU | PixelFormat::VYUY => {
                writes.push(
                    PlaneWrite {
                        plane: Plane::Y,
                        start: 0,
                        end: len,
                        bytes_per_row: self.stride,
                        width: self.width / 2,
                        height: self.height,
                    },
                );
            },
            PixelFormat::NV12 | PixelFormat::NV21 => {
                if let Some(planes) = self.yuv_planes {
                    writes.push(self.luma(planes));
                    writes.push(
                        PlaneWrite {
                            plane: Plane::UV,
                            start: planes.uv_offset,
                            end: planes.uv_offset + planes.uv_size,
                            bytes_per_row: planes.uv_stride,
                            width: self.width / 2,
                            height: self.height / 2,
                        },
                    );
                }
            },
            PixelFormat::I420 => {
                if let Some(planes) = self.yuv_planes {
                    writes.push(self.luma(planes));
                    writes.push(
                        PlaneWrite {
                            plane: Plane::UV,
                            start: planes.uv_offset,
                            end: planes.uv_offset + planes.uv_size,
                            bytes_per_row: planes.uv_stride,
                            width: planes.uv_width,
                            height: planes.uv_height,
                        },
                    );
                    if planes.v_size > 0 {
                        writes.push(
                            PlaneWrite {
                                plane: Plane::V,
                                start: planes.v_offset,
                                end: planes.v_offset + planes.v_size,
                                bytes_per_row: planes.v_stride,
                                width: planes.uv_width,
                                height: planes.uv_height,
                            },
                        );
                    }
                }
            },
            PixelFormat::Gray8 | PixelFormat::ABGR | PixelFormat::BGRA => {
                writes.push(
                    PlaneWrite {
                        plane: Plane::Y,
                        start: 0,
                        end: len,
                        bytes_per_row: self.stride,
                        width: self.width,
                        height: self.height,
                    },
                );
            },
            PixelFormat::RGB24 => {
                return Err(ConversionRefusal::Rgb24);
            },
            PixelFormat::RGBA => {
                return Err(ConversionRefusal::Rgba);
            },
            PixelFormat::BayerRGGB
            | PixelFormat::BayerBGGR
            | PixelFormat::BayerGRBG
            | PixelFormat::BayerGBRG => {
                return Err(ConversionRefusal::Bayer);
            },
        }
        assert(writes@ =~= self.plane_writes());
        let (uv_stride, v_stride) = match self.yuv_planes {
            Some(planes) => (planes.uv_stride, planes.v_stride),
            None => (0, 0),
        };
        Ok(
            ConversionPlan {
                writes,
                params: YuvConvertParams {
                    width: self.width,
                    height: self.height,
                    format: format_code,
                    y_stride: self.stride,
                    uv_stride,
                    v_stride,
                },
                groups: (group_count(self.width), group_count(self.height)),
            },
        )
    }

    fn luma(&self, planes: YuvPlanes) -> (write: PlaneWrite)
        requires
            planes.y_offset + planes.y_size <= self.data@.len() <= usize::MAX,
        ensures
            write == self.luma_write(planes),
    {
        PlaneWrite {
            plane: Plane::Y,
            start: planes.y_offset,
            end: planes.y_offset + planes.y_size,
            bytes_per_row: self.stride,
            width: self.width,
            height: self.height,
        }
    }
}

/// Whether `size` bytes from `offset` lie inside a buffer of `len` bytes.
fn span_fits(offset: usize, size: usize, len: usize) -> (answer: bool)
    ensures
        answer == (offset + size <= len),
{
    offset <= len && size <= len - offset
}

/// Every copy of a conversion reads bytes that the frame has.
pub proof fn law_writes_stay_in_the_buffer(frame: VideoFrame, k: int)
    requires
        frame.data@.len() <= usize::MAX,
        frame.planes_in_bounds(),
        0 <= k < frame.plane_writes().len(),
    ensures
        frame.plane_writes()[k].start <= frame.plane_writes()[k].end,
        frame.plane_writes()[k].end <= frame.data@.len(),
{
}

/// The plane textures of a frame hold every copy: none reaches past the edge of
/// the texture that it goes to. Of a frame with interleaved chroma this holds
/// where the chroma size that it tells is half its own.
pub proof fn law_writes_fit_their_textures(frame: VideoFrame, k: int)
    requires
        frame.refusal() is None,
        frame.yuv_planes matches Some(planes) ==> frame.format is I420 || (planes.uv_width
            == frame.width / 2 && planes.uv_height == frame.height / 2),
        0 <= k < frame.plane_writes().len(),
    ensures
        ({
            let write = frame.plane_writes()[k];
            let textures = PlaneShape::of(frame).planes();
            let target = match write.plane {
                Plane::Y => textures.y,
                Plane::UV => textures.uv,
                Plane::V => textures.v,
            };
            write.width <= target.width && write.height <= target.height
        }),
{
}

/// The work groups of a dispatch cover every pixel, and none lies wholly beyond
/// the edge.
pub proof fn law_groups_cover_the_frame(n: u32)
    ensures
        groups_over(n) * WORKGROUP_SIDE >= n,
        n > 0 ==> (groups_over(n) - 1) * WORKGROUP_SIDE < n,
{
}

/// Bytes of one texel.
pub open spec fn texel_bytes(texel: TexelFormat) -> int {
    match texel {
        TexelFormat::R8Unorm => 1,
        TexelFormat::Rg8Unorm => 2,
        TexelFormat::Rgba8Unorm => 4,
    }
}

/// The buffer is read row by row at the stride that the frame tells: a row of luma
/// or of whole pixels every `stride` bytes, a row of chroma every so many bytes as
/// its plane tells. The shader is handed the same strides.
pub proof fn law_rows_follow_the_stride(frame: VideoFrame, k: int, format_code: u32)
    requires
        0 <= k < frame.plane_writes().len(),
    ensures
        ({
            let write = frame.plane_writes()[k];
            let words = frame.convert_params(format_code).layout();
            &&& words[0] == frame.width && words[1] == frame.height && words[2] == format_code
            &&& write.plane is Y ==> {
                &&& write.bytes_per_row == frame.stride
                &&& words[3] == frame.stride
                &&& write.height == frame.height
            }
            &&& !(write.plane is Y) ==> {
                &&& frame.yuv_planes matches Some(planes)
                &&& write.plane is UV ==> {
                    &&& write.bytes_per_row == planes.uv_stride
                    &&& words[4] == planes.uv_stride
                }
                &&& write.plane is V ==> {
                    &&& write.bytes_per_row == planes.v_stride
                    &&& words[5] == planes.v_stride
                }
            }
        }),
{
}

/// A row of texels is a row of pixels: the luma texture takes, for every pixel, one
/// byte of a format with planes, without colour or of a mosaic, two bytes of a packed one, whose
/// texels hold two pixels each, and four of any other. So where the stride covers a
/// row of pixels it covers a row of every copy.
#[verifier::spinoff_prover]
pub proof fn law_rows_are_whole(frame: VideoFrame, k: int)
    requires
        0 <= k < frame.plane_writes().len(),
    ensures
        ({
            let write = frame.plane_writes()[k];
            let textures = PlaneShape::of(frame).planes();
            let row = write.width * texel_bytes(textures.y.texel);
            &&& write.plane is Y ==> match frame.format {
                PixelFormat::NV12
                | PixelFormat::NV21
                | PixelFormat::I420
                | PixelFormat::Gray8
                | PixelFormat::BayerRGGB
                | PixelFormat::BayerBGGR
                | PixelFormat::BayerGRBG
                | PixelFormat::BayerGBRG => row == frame.width,
                PixelFormat::YUYV | PixelFormat::UYVY | PixelFormat::YVYU | PixelFormat::VYUY => {
                    2 * frame.width - 2 <= row <= 2 * frame.width && row % 4 == 0
                },
                _ => row == 4 * frame.width,
            }
            &&& write.plane is Y ==> textures.y.width == write.width && textures.y.height
                == write.height
            &&& write.plane is UV ==> match frame.format {
                PixelFormat::NV12 | PixelFormat::NV21 => {
                    &&& texel_bytes(textures.uv.texel) == 2
                    &&& write.width == frame.width / 2
                    &&& write.height == frame.height / 2
                },
                _ => {
                    &&& texel_bytes(textures.uv.texel) == 1
                    &&& write.width == frame.yuv_planes->0.uv_width
                    &&& write.height == frame.yuv_planes->0.uv_height
                },
            }
            &&& write.plane is V ==> {
                &&& texel_bytes(textures.v.texel) == 1
                &&& write.width == frame.yuv_planes->0.uv_width
                &&& write.height == frame.yuv_planes->0.uv_height
            }
        }),
{
}

/// Every byte range is copied from where it lies: a frame without planes as one
/// buffer from its first byte to its last, a plane from its own offset on.
pub proof fn law_planes_come_from_their_places(frame: VideoFrame, k: int)
    requires
        frame.data@.len() <= usize::MAX,
        frame.planes_in_bounds(),
        0 <= k < frame.plane_writes().len(),
    ensures
        ({
            let write = frame.plane_writes()[k];
            match frame.format {
                PixelFormat::NV12 | PixelFormat::NV21 | PixelFormat::I420 => {
                    &&& frame.yuv_planes matches Some(planes)
                    &&& match write.plane {
                        Plane::Y => write.start == planes.y_offset && write.end - write.start
                            == planes.y_size,
                        Plane::UV => write.start == planes.uv_offset && write.end - write.start
                            == planes.uv_size,
                        Plane::V => write.start == planes.v_offset && write.end - write.start
                            == planes.v_size,
                    }
                },
                _ => write.plane is Y && write.start == 0 && write.end == frame.data@.len(),
            }
        }),
{
}

/// A frame that is converted is copied plane by plane, each plane once: the luma
/// first, then the chroma where the format has planes for it, then the second
/// chroma where the frame has one. Nothing is copied of planes whose places are
/// unknown.
pub proof fn law_every_plane_is_copied_once(frame: VideoFrame)
    ensures
        ({
            let writes = frame.plane_writes();
            let count: int = match frame.format {
                PixelFormat::NV12 | PixelFormat::NV21 => if frame.yuv_planes is Some {
                    2
                } else {
                    0
                },
                PixelFormat::I420 => match frame.yuv_planes {
                    Some(planes) => if planes.v_size > 0 {
                        3
                    } else {
                        2
                    },
                    None => 0,
                },
                _ => 1,
            };
            &&& writes.len() == count
            &&& count > 0 ==> writes[0].plane is Y
            &&& count > 1 ==> writes[1].plane is UV
            &&& count > 2 ==> writes[2].plane is V
        }),
{
}

/// What cannot be converted is refused with its own reason, and nothing else is
/// refused: pixels that need no conversion, pixels that should have been RGBA, and
/// sensor mosaics.
pub proof fn law_refusals_name_the_format(frame: VideoFrame)
    ensures
        match frame.format {
            PixelFormat::RGBA => frame.refusal() == Some(ConversionRefusal::Rgba),
            PixelFormat::RGB24 => frame.refusal() == Some(ConversionRefusal::Rgb24),
            PixelFormat::BayerRGGB
            | PixelFormat::BayerBGGR
            | PixelFormat::BayerGRBG
            | PixelFormat::BayerGBRG => frame.refusal() == Some(ConversionRefusal::Bayer),
            PixelFormat::NV12
            | PixelFormat::NV21
            | PixelFormat::I420
            | PixelFormat::YUYV
            | PixelFormat::UYVY
            | PixelFormat::YVYU
            | PixelFormat::VYUY
            | PixelFormat::Gray8
            | PixelFormat::ABGR
            | PixelFormat::BGRA => frame.refusal() is None,
        },
{
}

/// The plane textures follow the frame: its own size, and the chroma size that it
/// tells, of at least a texel; where it tells none, half as wide, and half as high
/// too where rows share their chroma.
pub proof fn law_textures_follow_the_frame(frame: VideoFrame)
    ensures
        ({
            let textures = PlaneShape::of(frame).planes();
            let two_channels = frame.format is NV12 || frame.format is NV21;
            &&& PlaneShape::of(frame).format == frame.format
            &&& PlaneShape::of(frame).width == frame.width
            &&& textures.y.height == frame.height
            &&& textures.uv.width == textures.v.width && textures.uv.height == textures.v.height
            &&& textures.uv.width >= 1 && textures.uv.height >= 1
            &&& textures.uv.texel is Rg8Unorm <==> two_channels
            &&& textures.uv.texel is R8Unorm <==> !two_channels
            &&& textures.v.texel is R8Unorm
            &&& match frame.yuv_planes {
                Some(planes) => {
                    &&& planes.uv_width >= 1 ==> textures.uv.width == planes.uv_width
                    &&& planes.uv_height >= 1 ==> textures.uv.height == planes.uv_height
                    &&& planes.uv_width == 0 ==> textures.uv.width == 1
                    &&& planes.uv_height == 0 ==> textures.uv.height == 1
                },
                None => match frame.format {
                    PixelFormat::NV12 | PixelFormat::NV21 | PixelFormat::I420 => {
                        &&& frame.width >= 2 ==> textures.uv.width == frame.width / 2
                        &&& frame.height >= 2 ==> textures.uv.height == frame.height / 2
                    },
                    PixelFormat::YUYV
                    | PixelFormat::UYVY
                    | PixelFormat::YVYU
                    | PixelFormat::VYUY => {
                        &&& frame.width >= 2 ==> textures.uv.width == frame.width / 2
                        &&& frame.height >= 1 ==> textures.uv.height == frame.height
                    },
                    _ => textures.uv.width == 1 && textures.uv.height == 1,
                },
            }
        }),
{
}

/// The planes lie inside the buffer just where none that is copied reaches past
/// its end; what is not copied may lie anywhere.
pub proof fn law_bounds_are_those_of_the_copies(frame: VideoFrame)
    ensures
        !(frame.format is NV12 || frame.format is NV21 || frame.format is I420)
            || frame.yuv_planes is None ==> frame.planes_in_bounds(),
        frame.yuv_planes matches Some(planes) ==> {
            let luma = planes.y_offset + planes.y_size <= frame.data@.len();
            let chroma = planes.uv_offset + planes.uv_size <= frame.data@.len();
            let second = planes.v_offset + planes.v_size <= frame.data@.len();
            &&& frame.format is NV12 || frame.format is NV21 ==> (frame.planes_in_bounds() <==> luma
                && chroma)
            &&& frame.format is I420 && planes.v_size == 0 ==> (frame.planes_in_bounds() <==> luma
                && chroma)
            &&& frame.format is I420 && planes.v_size > 0 ==> (frame.planes_in_bounds() <==> luma
                && chroma && second)
        },
{
}

} // verus!
