use vstd::prelude::*;

use crate::direction::{resolved_direction, Direction, DirectionSetting, InlineAlignment};
use crate::pixels::{bytes_per_pixel, PixelFormat, PixelImage, PixelImageView};
use crate::semantics::{opt_view, plain, quiet_state, SemanticRole, SemanticState, Semantics};
use crate::text_util::{is_blank, is_blank_seq};

verus! {

/// How an image's intrinsic size maps into its box.
#[derive(Clone, Copy, Debug, PartialEq, Eq, Structural, Hash)]
pub enum ImageFit {
    Contain,
    Cover,
    Fill,
    /// Keep the intrinsic size, unscaled.
    Unscaled,
}

/// Alignment along the block axis, which does not mirror with direction.
#[derive(Clone, Copy, Debug, PartialEq, Eq, Structural, Hash)]
pub enum BlockAlignment {
    Start,
    Center,
    End,
}

/// Where fitted content sits inside its box.
#[derive(Clone, Copy, Debug, PartialEq, Eq, Structural, Hash)]
pub struct ImageAlignment {
    pub inline: InlineAlignment,
    pub block: BlockAlignment,
}

impl Default for ImageAlignment {
    /// Centred on both axes.
    fn default() -> (alignment: Self)
        ensures
            alignment == (ImageAlignment {
                inline: InlineAlignment::Center,
                block: BlockAlignment::Center,
            }),
    {
        ImageAlignment { inline: InlineAlignment::Center, block: BlockAlignment::Center }
    }
}

/// Alternative text as kept: a text that is blank after trimming counts as none.
pub open spec fn kept_alternative(text: Option<String>) -> Option<Seq<char>> {
    match text {
        Some(t) => kept_text(t@),
        None => None,
    }
}

/// A text as kept for alternative text: none when blank.
pub open spec fn kept_text(t: Seq<char>) -> Option<Seq<char>> {
    if is_blank_seq(t) {
        None
    } else {
        Some(t)
    }
}

/// An image with alternative text is named by it; one without is decorative and hidden.
pub open spec fn image_semantics(s: Semantics, alternative: Option<Seq<char>>) -> bool {
    plain(
        s,
        SemanticRole::Image,
        alternative,
        None,
        SemanticState { hidden: alternative is None, ..quiet_state() },
        seq![],
    )
}

/// Keeps `text` unless it is blank.
pub fn keep_alternative(text: Option<String>) -> (kept: Option<String>)
    ensures
        opt_view(kept) == kept_alternative(text),
{
    match text {
        Some(t) => if is_blank(t.as_str()) {
            None
        } else {
            Some(t)
        },
        None => None,
    }
}

/// Builds the semantics of an image with the given kept alternative text.
pub fn image_semantics_for(alternative: &Option<String>) -> (s: Semantics)
    ensures
        image_semantics(s, opt_view(*alternative)),
{
    let mut semantics = Semantics::new(SemanticRole::Image);
    match alternative {
        Some(text) => semantics.set_name(text.clone()),
        None => semantics.state.hidden = true,
    }
    semantics
}

/// A decorative image of the source: contained, centred, inheriting its direction,
/// not mirrored.
pub open spec fn fresh_image(source: PixelImage) -> ImageView {
    ImageView {
        source,
        fit: ImageFit::Contain,
        alignment: ImageAlignment { inline: InlineAlignment::Center, block: BlockAlignment::Center },
        direction: DirectionSetting::Inherit,
        mirror_in_rtl: false,
        alternative_text: None,
    }
}

/// The direction an image is laid out in, and whether it is drawn mirrored.
#[derive(Clone, Copy, Debug, PartialEq, Eq, Structural, Hash)]
pub struct ImageLayout {
    pub direction: Direction,
    pub mirrored: bool,
}

/// A raster image with fit, alignment, direction and alternative text.
#[derive(Clone, Debug, PartialEq)]
pub struct Image {
    pub source: PixelImage,
    pub fit: ImageFit,
    pub alignment: ImageAlignment,
    pub direction: DirectionSetting,
    pub mirror_in_rtl: bool,
    pub(crate) alternative_text: Option<String>,
}

/// The state of an image as contracts see it.
pub struct ImageView {
    pub source: PixelImage,
    pub fit: ImageFit,
    pub alignment: ImageAlignment,
    pub direction: DirectionSetting,
    pub mirror_in_rtl: bool,
    pub alternative_text: Option<Seq<char>>,
}

impl View for Image {
    type V = ImageView;

    closed spec fn view(&self) -> ImageView {
        ImageView {
            source: self.source,
            fit: self.fit,
            alignment: self.alignment,
            direction: self.direction,
            mirror_in_rtl: self.mirror_in_rtl,
            alternative_text: opt_view(self.alternative_text),
        }
    }
}

impl Image {
    /// A decorative image: contained, centred, inheriting direction, not mirrored.
    pub fn new(source: PixelImage) -> (image: Self)
        ensures
            image@ == fresh_image(source),
    {
        Image {
            source,
            fit: ImageFit::Contain,
            alignment: ImageAlignment::default(),
            direction: DirectionSetting::Inherit,
            mirror_in_rtl: false,
            alternative_text: None,
        }
    }

    /// The same image with another fit.
    pub(crate) fn with_fit(self, fit: ImageFit) -> (image: Self)
        ensures
            image@ == (ImageView { fit, ..self@ }),
    {
        let mut image = self;
        image.fit = fit;
        image
    }

    pub fn with_alternative_text(self, text: &str) -> (image: Self)
        ensures
            image@ == (ImageView { alternative_text: kept_text(text@), ..self@ }),
    {
        let mut image = self;
        image.set_alternative_text(Some(text.to_owned()));
        image
    }

    pub fn alternative_text(&self) -> (text: Option<&str>)
        ensures
            match text {
                Some(t) => self@.alternative_text == Some(t@),
                None => self@.alternative_text is None,
            },
    {
        match &self.alternative_text {
            Some(t) => Some(t.as_str()),
            None => None,
        }
    }

    /// Sets the alternative text; blank text makes the image decorative.
    pub fn set_alternative_text(&mut self, text: Option<String>)
        ensures
            final(self)@ == (ImageView { alternative_text: kept_alternative(text), ..old(self)@ }),
    {
        self.alternative_text = keep_alternative(text);
    }

    /// Named by its alternative text, or hidden when it has none.
    pub fn semantics(&self) -> (s: Semantics)
        ensures
            image_semantics(s, self@.alternative_text),
    {
        image_semantics_for(&self.alternative_text)
    }

    /// The direction the image takes under an inherited one, and whether it is
    /// mirrored: only when it opts in and lies right to left.
    pub fn layout(&self, inherited_direction: Direction) -> (layout: ImageLayout)
        ensures
            layout.direction == resolved_direction(self@.direction, inherited_direction),
            layout.mirrored == (self@.mirror_in_rtl && layout.direction == Direction::Rtl),
    {
        let direction = self.direction.resolve(inherited_direction);
        let mirrored = self.mirror_in_rtl && match direction {
            Direction::Rtl => true,
            Direction::Ltr => false,
        };
        ImageLayout { direction, mirrored }
    }
}


/// The outline an avatar-style mask keeps visible.
#[derive(Clone, Copy, Debug, PartialEq, Eq, Structural, Hash)]
pub enum MaskShape {
    Circle,
    Rounded,
}

impl Default for MaskShape {
    fn default() -> (shape: Self)
        ensures
            shape == MaskShape::Circle,
    {
        MaskShape::Circle
    }
}

impl Image {
    /// Sets `source`; nothing else changes.
    pub fn set_source(&mut self, source: PixelImage)
        ensures
            final(self)@ == (ImageView { source: source, ..old(self)@ }),
    {
        self.source = source;
    }

    /// Sets `fit`; nothing else changes.
    pub fn set_fit(&mut self, fit: ImageFit)
        ensures
            final(self)@ == (ImageView { fit: fit, ..old(self)@ }),
    {
        self.fit = fit;
    }

    /// Sets `alignment`; nothing else changes.
    pub fn set_alignment(&mut self, alignment: ImageAlignment)
        ensures
            final(self)@ == (ImageView { alignment: alignment, ..old(self)@ }),
    {
        self.alignment = alignment;
    }

    /// Sets `direction`; nothing else changes.
    pub fn set_direction(&mut self, direction: DirectionSetting)
        ensures
            final(self)@ == (ImageView { direction: direction, ..old(self)@ }),
    {
        self.direction = direction;
    }

    /// Sets `mirror_in_rtl`; nothing else changes.
    pub fn set_mirror_in_rtl(&mut self, mirror_in_rtl: bool)
        ensures
            final(self)@ == (ImageView { mirror_in_rtl: mirror_in_rtl, ..old(self)@ }),
    {
        self.mirror_in_rtl = mirror_in_rtl;
    }

    /// Whether `mirror_in_rtl` is set.
    pub fn mirrors_in_rtl(&self) -> (r: bool)
        ensures
            r == self@.mirror_in_rtl,
    {
        self.mirror_in_rtl
    }
}

/// The four bytes of pixel `p` once masked: the source's colour (white for a coverage
/// image) and its alpha where the pixel is visible, no alpha where it is not.
pub open spec fn masked_pixel(source: PixelImageView, visible: Seq<bool>, p: int) -> Seq<u8> {
    let alpha: u8 = if visible[p] {
        match source.format {
            PixelFormat::Rgba8 => source.data[4 * p + 3],
            PixelFormat::Alpha8 => source.data[p],
        }
    } else {
        0
    };
    match source.format {
        PixelFormat::Rgba8 => seq![source.data[4 * p], source.data[4 * p + 1], source.data[4 * p + 2], alpha],
        PixelFormat::Alpha8 => seq![255u8, 255u8, 255u8, alpha],
    }
}

/// The masked bytes of the first `n` pixels, row by row.
pub open spec fn masked_data(source: PixelImageView, visible: Seq<bool>, n: int) -> Seq<u8>
    decreases n,
{
    if n <= 0 {
        seq![]
    } else {
        masked_data(source, visible, n - 1) + masked_pixel(source, visible, n - 1)
    }
}

/// An image cut to a shape, as avatars are: the pixels outside the shape keep their
/// colour and lose their alpha.
#[derive(Clone, Debug, PartialEq)]
pub struct Mask {
    image: Image,
    pub shape: MaskShape,
}

/// The state of a mask as contracts see it.
pub struct MaskView {
    pub image: ImageView,
    pub shape: MaskShape,
}

impl View for Mask {
    type V = MaskView;

    closed spec fn view(&self) -> MaskView {
        MaskView { image: self.image@, shape: self.shape }
    }
}

impl Mask {
    /// Masks `source` to `shape`, given which pixels, row by row, lie inside the shape:
    /// the result is a decorative RGBA image of the same size whose pixels carry the
    /// source's colour, and its alpha only where visible.
    pub fn new(source: PixelImage, shape: MaskShape, visible: &Vec<bool>) -> (mask: Self)
        requires
            source@.data.len() == source@.width * source@.height * bytes_per_pixel(source@.format),
            visible@.len() == source@.width * source@.height,
            source@.width * source@.height * 4 <= usize::MAX,
        ensures
            mask@.shape == shape,
            mask@.image == fresh_image(mask@.image.source),
            mask@.image.source@ == (PixelImageView {
                width: source@.width,
                height: source@.height,
                format: PixelFormat::Rgba8,
                data: masked_data(source@, visible@, visible@.len() as int),
            }),
    {
        let width = source.width();
        let height = source.height();
        let format = source.format();
        let bytes = source.data();
        let ghost src = source@;
        proof {
            assert(width as nat * height as nat <= width as nat * height as nat * 4) by (nonlinear_arith);
        }
        let n: usize = (width as usize) * (height as usize);
        let mut data: Vec<u8> = Vec::new();
        let mut p: usize = 0;
        while p < n
            invariant
                src == source@,
                bytes@ == src.data,
                format == src.format,
                n == src.width * src.height,
                visible@.len() == n,
                src.data.len() == n * bytes_per_pixel(src.format),
                n * 4 <= usize::MAX,
                p <= n,
                data@ == masked_data(src, visible@, p as int),
                data@.len() == 4 * p,
            decreases n - p,
        {
            let (red, green, blue, alpha) = match format {
                PixelFormat::Rgba8 => {
                    assert(4 * p + 3 < n * 4) by (nonlinear_arith)
                        requires
                            p < n,
                    ;
                    let offset = 4 * p;
                    (bytes[offset], bytes[offset + 1], bytes[offset + 2], bytes[offset + 3])
                },
                PixelFormat::Alpha8 => (255u8, 255u8, 255u8, bytes[p]),
            };
            let shown = if visible[p] {
                alpha
            } else {
                0u8
            };
            let ghost before = data@;
            data.push(red);
            data.push(green);
            data.push(blue);
            data.push(shown);
            assert(data@ =~= before + masked_pixel(src, visible@, p as int));
            p = p + 1;
        }
        let masked = PixelImage::rgba8(width, height, data);
        Mask { image: Image::new(masked), shape }
    }

    pub fn image(&self) -> (image: &Image)
        ensures
            image@ == self@.image,
    {
        &self.image
    }

    /// The same mask with alternative text, kept unless blank.
    pub fn with_alternative_text(self, text: &str) -> (mask: Self)
        ensures
            mask@ == (MaskView { image: ImageView { alternative_text: kept_text(text@), ..self@.image }, ..self@ }),
    {
        Mask { image: self.image.with_alternative_text(text), shape: self.shape }
    }

    /// What the masked image reports: named by its alternative text, else hidden.
    pub fn semantics(&self) -> (s: Semantics)
        ensures
            image_semantics(s, self@.image.alternative_text),
    {
        self.image.semantics()
    }

    /// Sets `shape`; nothing else changes.
    pub fn set_shape(&mut self, shape: MaskShape)
        ensures
            final(self)@ == (MaskView { shape: shape, ..old(self)@ }),
    {
        self.shape = shape;
    }
}

} // verus!
