use vstd::prelude::*;

use crate::direction::{DirectionSetting, InlineAlignment};
use crate::pixels::{PixelFormat, PixelImage};
use crate::semantics::{opt_view, Semantics};
use crate::style::SemanticColorToken;
use crate::widgets::image::{
    image_semantics, image_semantics_for, keep_alternative, kept_alternative, kept_text,
    BlockAlignment, ImageAlignment, ImageFit,
};

verus! {

/// Why an image cannot serve as an icon.
#[derive(Clone, Copy, Debug, PartialEq, Eq, Structural, Hash)]
pub enum IconError {
    /// Icons are alpha masks tinted at paint time; other formats are refused.
    UnsupportedPixelFormat(PixelFormat),
}

/// An alpha-mask image tinted with a theme colour.
#[derive(Clone, Debug, PartialEq)]
pub struct Icon {
    pub source: PixelImage,
    pub fit: ImageFit,
    pub alignment: ImageAlignment,
    pub direction: DirectionSetting,
    pub mirror_in_rtl: bool,
    pub color: SemanticColorToken,
    alternative_text: Option<String>,
}

/// The state of an icon as contracts see it.
pub struct IconView {
    pub source: PixelImage,
    pub fit: ImageFit,
    pub alignment: ImageAlignment,
    pub direction: DirectionSetting,
    pub mirror_in_rtl: bool,
    pub color: SemanticColorToken,
    pub alternative_text: Option<Seq<char>>,
}

impl View for Icon {
    type V = IconView;

    closed spec fn view(&self) -> IconView {
        IconView {
            source: self.source,
            fit: self.fit,
            alignment: self.alignment,
            direction: self.direction,
            mirror_in_rtl: self.mirror_in_rtl,
            color: self.color,
            alternative_text: opt_view(self.alternative_text),
        }
    }
}

/// A decorative icon of the source: contained, centred, inheriting its direction, not
/// mirrored, tinted with the text colour.
pub open spec fn fresh_icon(source: PixelImage) -> IconView {
    IconView {
        source,
        fit: ImageFit::Contain,
        alignment: ImageAlignment { inline: InlineAlignment::Center, block: BlockAlignment::Center },
        direction: DirectionSetting::Inherit,
        mirror_in_rtl: false,
        color: SemanticColorToken::Text,
        alternative_text: None,
    }
}

impl Icon {
    /// A decorative icon tinted with the text colour; refuses anything but an alpha mask.
    pub fn new(source: PixelImage) -> (result: Result<Self, IconError>)
        ensures
            result is Ok <==> source@.format == PixelFormat::Alpha8,
            result matches Err(e) ==> e == IconError::UnsupportedPixelFormat(source@.format),
            result matches Ok(icon) ==> icon@ == fresh_icon(source),
    {
        let format = source.format();
        if format != PixelFormat::Alpha8 {
            return Err(IconError::UnsupportedPixelFormat(format));
        }
        Ok(
            Icon {
                source,
                fit: ImageFit::Contain,
                alignment: ImageAlignment::default(),
                direction: DirectionSetting::Inherit,
                mirror_in_rtl: false,
                color: SemanticColorToken::Text,
                alternative_text: None,
            },
        )
    }

    pub fn with_alternative_text(self, text: &str) -> (icon: Self)
        ensures
            icon@ == (IconView { alternative_text: kept_text(text@), ..self@ }),
    {
        let mut icon = self;
        icon.set_alternative_text(Some(text.to_owned()));
        icon
    }

    pub fn alternative_text(&self) -> (text: Option<&str>)
        ensures
            match text {
                Some(t) => self@.alternative_text == Some(t@),
                None => self@.alternative_text is None,
            },
    {
        match &self.alternative_text {
            Some(t) => Some(t.as_str()),
            None => None,
        }
    }

    /// Sets the alternative text; blank text makes the icon decorative.
    pub fn set_alternative_text(&mut self, text: Option<String>)
        ensures
            final(self)@ == (IconView { alternative_text: kept_alternative(text), ..old(self)@ }),
    {
        self.alternative_text = keep_alternative(text);
    }

    /// Named by its alternative text, or hidden when it has none.
    pub fn semantics(&self) -> (s: Semantics)
        ensures
            image_semantics(s, self@.alternative_text),
    {
        image_semantics_for(&self.alternative_text)
    }
}


/// The name of a pixel format as it is printed.
pub open spec fn format_name(format: PixelFormat) -> Seq<char> {
    match format {
        PixelFormat::Rgba8 => "Rgba8"@,
        PixelFormat::Alpha8 => "Alpha8"@,
    }
}

impl IconError {
    /// Names the format that was refused.
    pub fn message(&self) -> (text: String)
        ensures
            match *self {
                IconError::UnsupportedPixelFormat(format) => text@
                    == "icons require Alpha8 pixel data, received "@ + format_name(format),
            },
    {
        match self {
            IconError::UnsupportedPixelFormat(format) => {
                let mut text = crate::text_util::owned("icons require Alpha8 pixel data, received ");
                match format {
                    PixelFormat::Rgba8 => text.append("Rgba8"),
                    PixelFormat::Alpha8 => text.append("Alpha8"),
                }
                text
            },
        }
    }
}

impl Icon {
    /// Sets `source`; nothing else changes.
    pub fn set_source(&mut self, source: PixelImage)
        ensures
            final(self)@ == (IconView { source: source, ..old(self)@ }),
    {
        self.source = source;
    }

    /// Sets `fit`; nothing else changes.
    pub fn set_fit(&mut self, fit: ImageFit)
        ensures
            final(self)@ == (IconView { fit: fit, ..old(self)@ }),
    {
        self.fit = fit;
    }

    /// Sets `alignment`; nothing else changes.
    pub fn set_alignment(&mut self, alignment: ImageAlignment)
        ensures
            final(self)@ == (IconView { alignment: alignment, ..old(self)@ }),
    {
        self.alignment = alignment;
    }

    /// Sets `direction`; nothing else changes.
    pub fn set_direction(&mut self, direction: DirectionSetting)
        ensures
            final(self)@ == (IconView { direction: direction, ..old(self)@ }),
    {
        self.direction = direction;
    }

    /// Sets `mirror_in_rtl`; nothing else changes.
    pub fn set_mirror_in_rtl(&mut self, mirror_in_rtl: bool)
        ensures
            final(self)@ == (IconView { mirror_in_rtl: mirror_in_rtl, ..old(self)@ }),
    {
        self.mirror_in_rtl = mirror_in_rtl;
    }

    /// Whether `mirror_in_rtl` is set.
    pub fn mirrors_in_rtl(&self) -> (r: bool)
        ensures
            r == self@.mirror_in_rtl,
    {
        self.mirror_in_rtl
    }

    /// Sets `color`; nothing else changes.
    pub fn set_color(&mut self, color: SemanticColorToken)
        ensures
            final(self)@ == (IconView { color: color, ..old(self)@ }),
    {
        self.color = color;
    }
}

} // verus!
