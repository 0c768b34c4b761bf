use vstd::prelude::*;
use crate::error::Error;

pub mod filter;
pub mod kind;
pub mod units;
pub mod wrap;

pub use filter::TextureFilterParam;
pub use kind::TextureType;
pub use units::TextureUnit;
pub use wrap::TextureWrapParam;

verus! {

/// A native texture object: its id, the target it binds to, and the path of
/// the image it was built from (kept for diagnostics only).
#[derive(Debug)]
pub struct Texture {
    pub gl_object_id: u32,
    pub kind: TextureType,
    pub src: String,
}

/// One texture parameter the builder was asked to set, in the order the
/// native calls are issued.  Parameters that were never set do not appear:
/// native state that nobody asked to touch is left alone.
#[derive(Debug, Copy, Clone, PartialEq, Eq, Structural)]
pub enum TextureParamSetting {
    SWrap(TextureWrapParam),
    TWrap(TextureWrapParam),
    RWrap(TextureWrapParam),
    MinFilter(TextureFilterParam),
    MagFilter(TextureFilterParam),
}

/// Builds a [`Texture`] from decoded RGBA pixel bytes plus dimensions,
/// with optional wrap and filter parameters per axis.  Decoding image
/// files is a collaborator's job; the builder only validates and describes
/// the upload.
#[derive(Debug)]
pub struct TextureBuilder {
    pub kind: TextureType,
    pub src: String,
    pub data: Vec<u8>,
    pub width: u32,
    pub height: u32,
    pub s_wrap: Option<TextureWrapParam>,
    pub t_wrap: Option<TextureWrapParam>,
    pub r_wrap: Option<TextureWrapParam>,
    pub min_filter: Option<TextureFilterParam>,
    pub mag_filter: Option<TextureFilterParam>,
}

impl TextureBuilder {
    /// The parameter settings the native upload must apply, in order:
    /// wrap S, wrap T, wrap R, minification filter, magnification filter,
    /// each only when it was set.
    pub open spec fn param_settings_spec(self) -> Seq<TextureParamSetting> {
        (match self.s_wrap {
            Some(w) => seq![TextureParamSetting::SWrap(w)],
            None => Seq::<TextureParamSetting>::empty(),
        }) + (match self.t_wrap {
            Some(w) => seq![TextureParamSetting::TWrap(w)],
            None => Seq::<TextureParamSetting>::empty(),
        }) + (match self.r_wrap {
            Some(w) => seq![TextureParamSetting::RWrap(w)],
            None => Seq::<TextureParamSetting>::empty(),
        }) + (match self.min_filter {
            Some(f) => seq![TextureParamSetting::MinFilter(f)],
            None => Seq::<TextureParamSetting>::empty(),
        }) + (match self.mag_filter {
            Some(f) => seq![TextureParamSetting::MagFilter(f)],
            None => Seq::<TextureParamSetting>::empty(),
        })
    }

    /// Starts a two-dimensional RGBA texture from decoded pixel bytes.
    /// The byte count must be exactly four per pixel.
    pub fn new_2d_rgba8(src: String, data: Vec<u8>, width: u32, height: u32) -> (r: Result<
        TextureBuilder,
        Error,
    >)
        ensures
            match r {
                Ok(b) => {
                    &&& data@.len() == 4 * (width as int) * (height as int)
                    &&& b.kind == TextureType::Texture2D
                    &&& b.src@ == src@
                    &&& b.data@ == data@
                    &&& b.width == width
                    &&& b.height == height
                    &&& b.s_wrap is None && b.t_wrap is None && b.r_wrap is None
                    &&& b.min_filter is None && b.mag_filter is None
                },
                Err(e) => {
                    &&& data@.len() != 4 * (width as int) * (height as int)
                    &&& e matches Error::Misc(_)
                },
            },
    {
        proof {
            assert((width as int) * (height as int) < 0x10000000000000000) by (nonlinear_arith)
                requires
                    width <= 0xffffffffu32,
                    height <= 0xffffffffu32,
            ;
        }
        let pixels: u128 = (width as u128) * (height as u128);
        proof {
            assert(4 * ((width as int) * (height as int)) == 4 * (width as int) * (
            height as int)) by (nonlinear_arith);
        }
        if (data.len() as u128) != 4u128 * pixels {
            return Err(
                Error::Misc("texture byte count does not match its dimensions".to_owned()),
            );
        }
        Ok(
            TextureBuilder {
                kind: TextureType::Texture2D,
                src,
                data,
                width,
                height,
                s_wrap: None,
                t_wrap: None,
                r_wrap: None,
                min_filter: None,
                mag_filter: None,
            },
        )
    }

    pub fn s_wrap(self, param: TextureWrapParam) -> (r: Self)
        ensures
            r == (TextureBuilder { s_wrap: Some(param), ..self }),
    {
        TextureBuilder { s_wrap: Some(param), ..self }
    }

    pub fn t_wrap(self, param: TextureWrapParam) -> (r: Self)
        ensures
            r == (TextureBuilder { t_wrap: Some(param), ..self }),
    {
        TextureBuilder { t_wrap: Some(param), ..self }
    }

    pub fn r_wrap(self, param: TextureWrapParam) -> (r: Self)
        ensures
            r == (TextureBuilder { r_wrap: Some(param), ..self }),
    {
        TextureBuilder { r_wrap: Some(param), ..self }
    }

    pub fn min_filter(self, param: TextureFilterParam) -> (r: Self)
        ensures
            r == (TextureBuilder { min_filter: Some(param), ..self }),
    {
        TextureBuilder { min_filter: Some(param), ..self }
    }

    pub fn mag_filter(self, param: TextureFilterParam) -> (r: Self)
        ensures
            r == (TextureBuilder { mag_filter: Some(param), ..self }),
    {
        TextureBuilder { mag_filter: Some(param), ..self }
    }

    /// The parameter settings to apply, as executable values.
    pub fn param_settings(&self) -> (r: Vec<TextureParamSetting>)
        ensures
            r@ == self.param_settings_spec(),
    {
        let mut settings: Vec<TextureParamSetting> = Vec::new();
        match self.s_wrap {
            Some(w) => settings.push(TextureParamSetting::SWrap(w)),
            None => {},
        }
        match self.t_wrap {
            Some(w) => settings.push(TextureParamSetting::TWrap(w)),
            None => {},
        }
        match self.r_wrap {
            Some(w) => settings.push(TextureParamSetting::RWrap(w)),
            None => {},
        }
        match self.min_filter {
            Some(f) => settings.push(TextureParamSetting::MinFilter(f)),
            None => {},
        }
        match self.mag_filter {
            Some(f) => settings.push(TextureParamSetting::MagFilter(f)),
            None => {},
        }
        proof {
            assert(settings@ =~= self.param_settings_spec());
        }
        settings
    }

    /// Finishes the builder into a texture, adopting the native id the
    /// shell allocated for the uploaded image.
    pub fn into_texture(self, gl_object_id: u32) -> (r: Texture)
        ensures
            r.gl_object_id == gl_object_id,
            r.kind == self.kind,
            r.src@ == self.src@,
    {
        Texture { gl_object_id, kind: self.kind, src: self.src }
    }
}

} // verus!
