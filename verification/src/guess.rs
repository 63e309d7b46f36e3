//! Guessing what a file is from its name and, for images, its dimensions.
use vstd::prelude::*;

use arrayvec::ArrayVec;
use crate::import_types::{is_animated_skin, AnimatedOptions, OtherSkinType, SkinType};
use crate::paths::{extension_of, path_extension};
use crate::text::str_equals;

verus! {

/// A broad category of content based on a file extension.
#[derive(Debug, Clone, Copy, PartialEq, Eq, Structural, Hash)]
pub enum FileType {
    Zip,
    TPSE,
    Image,
    Video,
    Audio,
}

/// The extension a guess is based on: the file name's extension, or the whole name when it has none.
pub open spec fn effective_extension(filename: Seq<char>) -> Seq<char> {
    match path_extension(filename) {
        Some(e) => e,
        None => filename,
    }
}

/// Reads the effective extension of a file name.
pub fn effective_extension_of(filename: &str) -> (r: String)
    ensures
        r@ == effective_extension(filename@),
{
    match extension_of(filename) {
        Some(e) => e,
        None => String::from_str(filename),
    }
}

impl FileType {
    /// The broad category that an extension stands for.
    pub open spec fn spec_from_ext(ext: Seq<char>) -> Option<FileType> {
        if ext == "zip"@ {
            Some(FileType::Zip)
        } else if ext == "tpse"@ {
            Some(FileType::TPSE)
        } else if ext == "svg"@ || ext == "png"@ || ext == "jpg"@ || ext == "jpeg"@ || ext == "gif"@
            || ext == "webp"@ {
            Some(FileType::Image)
        } else if ext == "mp4"@ || ext == "webm"@ {
            Some(FileType::Video)
        } else if ext == "ogg"@ || ext == "mp3"@ || ext == "flac"@ {
            Some(FileType::Audio)
        } else {
            None
        }
    }

    /// Maps an extension to its broad category.
    pub fn from_ext(ext: &str) -> (r: Option<FileType>)
        ensures
            r == FileType::spec_from_ext(ext@),
    {
        if str_equals(ext, "zip") {
            Some(FileType::Zip)
        } else if str_equals(ext, "tpse") {
            Some(FileType::TPSE)
        } else if str_equals(ext, "svg") || str_equals(ext, "png") || str_equals(ext, "jpg")
            || str_equals(ext, "jpeg") || str_equals(ext, "gif") || str_equals(ext, "webp") {
            Some(FileType::Image)
        } else if str_equals(ext, "mp4") || str_equals(ext, "webm") {
            Some(FileType::Video)
        } else if str_equals(ext, "ogg") || str_equals(ext, "mp3") || str_equals(ext, "flac") {
            Some(FileType::Audio)
        } else {
            None
        }
    }

    /// Guesses the broad category of a file from its name.
    pub fn from_extension(filename: &str) -> (r: Option<FileType>)
        ensures
            r == FileType::spec_from_ext(effective_extension(filename@)),
    {
        let ext = effective_extension_of(filename);
        FileType::from_ext(ext.as_str())
    }
}

/// Whether an image's aspect ratio `width / height` lies within 0.1 of each
/// ratio that a skin layout has. The ratios are measured on floating point numbers
/// by the caller.
#[derive(Debug, Clone, Copy, PartialEq, Eq, Structural, Hash, Default)]
pub struct AspectRatios {
    /// Within 0.1 of 12.4, the old tetrio layout.
    pub near_12_4: bool,
    /// Within 0.1 of 9.0, the jstris layout.
    pub near_9: bool,
    /// Within 0.1 of 9.0 / 20.0, the jstris connected layout.
    pub near_9_20: bool,
}

/// What `guess_skin` gives for an extension, dimensions, animation hint and aspect ratios.
pub open spec fn spec_guess_skin(
    ext: Option<Seq<char>>,
    width: u32,
    height: u32,
    likely_animated: bool,
    test_2x: bool,
    opts: AnimatedOptions,
    ratios: AspectRatios,
) -> Option<SkinType> {
    let svg = ext == Some("svg"@);
    if width == 1024 && height == 1024 && likely_animated {
        Some(SkinType::Tetrio61ConnectedAnimated { opts })
    } else if width == 1024 && height == 1024 {
        Some(SkinType::Tetrio61Connected)
    } else if width == 512 && height == 512 && likely_animated {
        Some(SkinType::Tetrio61ConnectedGhostAnimated { opts })
    } else if width == 512 && height == 512 {
        Some(SkinType::Tetrio61ConnectedGhost)
    } else if test_2x {
        None
    } else if width == 256 && height == 256 {
        Some(SkinType::Tetrio61)
    } else if width == 128 && height == 128 {
        Some(SkinType::Tetrio61Ghost)
    } else if width == 372 && height == 30 && likely_animated {
        Some(SkinType::TetrioAnimated { opts })
    } else if width == 372 && height == 30 && svg {
        Some(SkinType::TetrioSVG)
    } else if width == 372 && height == 30 {
        Some(SkinType::TetrioRaster)
    } else if width == 288 && height == 640 {
        Some(SkinType::JstrisConnected)
    } else if width == 216 && height == 480 {
        Some(SkinType::JstrisConnected)
    } else if likely_animated && ratios.near_12_4 {
        Some(SkinType::TetrioAnimated { opts })
    } else if svg && ratios.near_12_4 {
        Some(SkinType::TetrioSVG)
    } else if ratios.near_12_4 {
        Some(SkinType::TetrioRaster)
    } else if likely_animated && ratios.near_9 {
        Some(SkinType::JstrisAnimated { opts })
    } else if ratios.near_9 {
        Some(SkinType::JstrisConnected)
    } else if ratios.near_9_20 {
        Some(SkinType::JstrisConnected)
    } else {
        None
    }
}

fn is_svg(ext: &Option<String>) -> (r: bool)
    ensures
        r == (match ext {
            Some(e) => Some(e@),
            None => None::<Seq<char>>,
        } == Some("svg"@)),
{
    match ext {
        Some(e) => str_equals(e.as_str(), "svg"),
        None => false,
    }
}

/// The view of an optional string.
pub open spec fn opt_view(s: Option<String>) -> Option<Seq<char>> {
    match s {
        Some(e) => Some(e@),
        None => None,
    }
}

/// Guesses a block skin format from an extension, the image dimensions and aspect ratios.
/// With `test_2x` only the double resolution formats are considered.
pub fn guess_skin(
    ext: &Option<String>,
    width: u32,
    height: u32,
    likely_animated: bool,
    test_2x: bool,
    opts: AnimatedOptions,
    ratios: AspectRatios,
) -> (r: Option<SkinType>)
    ensures
        r == spec_guess_skin(opt_view(*ext), width, height, likely_animated, test_2x, opts, ratios),
{
    let svg = is_svg(ext);
    if width == 1024 && height == 1024 && likely_animated {
        Some(SkinType::Tetrio61ConnectedAnimated { opts })
    } else if width == 1024 && height == 1024 {
        Some(SkinType::Tetrio61Connected)
    } else if width == 512 && height == 512 && likely_animated {
        Some(SkinType::Tetrio61ConnectedGhostAnimated { opts })
    } else if width == 512 && height == 512 {
        Some(SkinType::Tetrio61ConnectedGhost)
    } else if test_2x {
        None
    } else if width == 256 && height == 256 {
        Some(SkinType::Tetrio61)
    } else if width == 128 && height == 128 {
        Some(SkinType::Tetrio61Ghost)
    } else if width == 372 && height == 30 && likely_animated {
        Some(SkinType::TetrioAnimated { opts })
    } else if width == 372 && height == 30 && svg {
        Some(SkinType::TetrioSVG)
    } else if width == 372 && height == 30 {
        Some(SkinType::TetrioRaster)
    } else if width == 288 && height == 640 {
        Some(SkinType::JstrisConnected)
    } else if width == 216 && height == 480 {
        Some(SkinType::JstrisConnected)
    } else if likely_animated && ratios.near_12_4 {
        Some(SkinType::TetrioAnimated { opts })
    } else if svg && ratios.near_12_4 {
        Some(SkinType::TetrioSVG)
    } else if ratios.near_12_4 {
        Some(SkinType::TetrioRaster)
    } else if likely_animated && ratios.near_9 {
        Some(SkinType::JstrisAnimated { opts })
    } else if ratios.near_9 {
        Some(SkinType::JstrisConnected)
    } else if ratios.near_9_20 {
        Some(SkinType::JstrisConnected)
    } else {
        None
    }
}

/// Whether a skin format is recognised by its aspect ratio rather than by its exact size.
pub open spec fn guessed_by_ratio(s: SkinType) -> bool {
    s is TetrioRaster || s is TetrioSVG || s is TetrioAnimated
}

/// A skin format guessed for an image, where the format has a fixed texture size and is
/// not one recognised by its aspect ratio, has the image's size as that size. An
/// animated format is guessed only for an image that is likely animated, and carries the
/// options given; the SVG format only for an image with the `svg` extension.
pub proof fn lemma_guessed_skin_has_image_size(
    ext: Option<Seq<char>>,
    width: u32,
    height: u32,
    likely_animated: bool,
    test_2x: bool,
    opts: AnimatedOptions,
    ratios: AspectRatios,
)
    ensures
        ({
            let g = spec_guess_skin(ext, width, height, likely_animated, test_2x, opts, ratios);
            g is Some && !guessed_by_ratio(g->0) && g->0.spec_canonical_tex_size() is Some
                ==> g->0.spec_canonical_tex_size() == Some((width, height))
        }),
        ({
            let g = spec_guess_skin(ext, width, height, likely_animated, test_2x, opts, ratios);
            &&& g is Some && is_animated_skin(g->0) ==> likely_animated && g->0.spec_anim_options() == Some(opts)
            &&& g == Some(SkinType::TetrioSVG) ==> ext == Some("svg"@)
        }),
{
}

/// An image of exactly the texture size of a TETR.IO 6.1 skin format is guessed as a
/// format of that size that carries the same of minos and ghost; at doubled size only
/// the connected formats are looked for.
pub proof fn lemma_canonical_size_is_recognised(
    ext: Option<Seq<char>>,
    s: SkinType,
    likely_animated: bool,
    test_2x: bool,
    opts: AnimatedOptions,
    ratios: AspectRatios,
)
    requires
        s is Tetrio61 || s is Tetrio61Ghost || s is Tetrio61Connected || s is Tetrio61ConnectedGhost,
        !test_2x || s is Tetrio61Connected || s is Tetrio61ConnectedGhost,
    ensures
        ({
            let size = s.spec_canonical_tex_size()->0;
            let g = spec_guess_skin(ext, size.0, size.1, likely_animated, test_2x, opts, ratios);
            &&& g is Some
            &&& g->0.spec_canonical_tex_size() == s.spec_canonical_tex_size()
            &&& g->0.spec_has_minos_and_ghost() == s.spec_has_minos_and_ghost()
        }),
{
}

/// What `guess_other` gives for image dimensions.
pub open spec fn spec_guess_other(width: u32, height: u32) -> Option<OtherSkinType> {
    if width == 512 && height == 512 {
        Some(OtherSkinType::Board)
    } else if width == 1024 && height == 1024 {
        Some(OtherSkinType::Grid)
    } else if width == 12 && height == 2 {
        Some(OtherSkinType::ParticleBeam)
    } else if width == 300 && height == 3 {
        Some(OtherSkinType::ParticleBigBox)
    } else if width == 30 && height == 3 {
        Some(OtherSkinType::ParticleBox)
    } else if width == 32 && height == 3 {
        Some(OtherSkinType::ParticleChip)
    } else if width == 128 && height == 1 {
        Some(OtherSkinType::ParticleDust)
    } else if width == 64 && height == 6 {
        Some(OtherSkinType::ParticleFire)
    } else if width == 92 && height == 9 {
        Some(OtherSkinType::ParticleFBox)
    } else if width == 44 && height == 4 {
        Some(OtherSkinType::ParticleParticle)
    } else if width == 133 && height == 4 {
        Some(OtherSkinType::ParticleBeamsBeam)
    } else {
        None
    }
}

/// Guesses a texture other than a block skin from its dimensions.
pub fn guess_other(width: u32, height: u32) -> (r: Option<OtherSkinType>)
    ensures
        r == spec_guess_other(width, height),
{
    if width == 512 && height == 512 {
        Some(OtherSkinType::Board)
    } else if width == 1024 && height == 1024 {
        Some(OtherSkinType::Grid)
    } else if width == 12 && height == 2 {
        Some(OtherSkinType::ParticleBeam)
    } else if width == 300 && height == 3 {
        Some(OtherSkinType::ParticleBigBox)
    } else if width == 30 && height == 3 {
        Some(OtherSkinType::ParticleBox)
    } else if width == 32 && height == 3 {
        Some(OtherSkinType::ParticleChip)
    } else if width == 128 && height == 1 {
        Some(OtherSkinType::ParticleDust)
    } else if width == 64 && height == 6 {
        Some(OtherSkinType::ParticleFire)
    } else if width == 92 && height == 9 {
        Some(OtherSkinType::ParticleFBox)
    } else if width == 44 && height == 4 {
        Some(OtherSkinType::ParticleParticle)
    } else if width == 133 && height == 4 {
        Some(OtherSkinType::ParticleBeamsBeam)
    } else {
        None
    }
}

/// What a texture guess names: a block skin or another texture.
#[derive(Debug, Clone, Copy, PartialEq, Eq, Structural, Hash)]
pub enum TextureGuessKind {
    Skin(SkinType),
    Other(OtherSkinType),
}

/// A guess at what an image of the given dimensions is.
#[derive(Debug, Clone, Copy, PartialEq, Eq, Structural, Hash)]
pub struct TextureGuess {
    pub width: u32,
    pub height: u32,
    pub kind: TextureGuessKind,
}

impl TextureGuess {
    /// The dimensions of the guessed image as `[width, height]`.
    pub fn dim(&self) -> (r: [u32; 2])
        ensures
            r@ == seq![self.width, self.height],
    {
        [self.width, self.height]
    }
}

/// The largest number of guesses `guess_texture_format` makes.
pub const MAX_POSSIBLE_TEXTURE_GUESSES: usize = 3;

#[verifier::external_type_specification]
#[verifier::external_body]
#[verifier::reject_recursive_types(T)]
pub struct ExArrayVec<T, const CAP: usize>(ArrayVec<T, CAP>);

/// The guesses held in a list of texture guesses, in order.
pub uninterp spec fn guess_list(v: ArrayVec<TextureGuess, 3>) -> Seq<TextureGuess>;

/// Calls `ArrayVec::new`: the list starts empty.
#[verifier::external_body]
fn guesses_new() -> (r: ArrayVec<TextureGuess, 3>)
    ensures
        guess_list(r) == Seq::<TextureGuess>::empty(),
{
    ArrayVec::new()
}

/// Calls `ArrayVec::push`, which appends the guess; it panics on a full list, so the
/// list must have room.
#[verifier::external_body]
fn guesses_push(v: &mut ArrayVec<TextureGuess, 3>, g: TextureGuess)
    requires
        guess_list(*old(v)).len() < 3,
    ensures
        guess_list(*final(v)) == guess_list(*old(v)).push(g),
{
    v.push(g)
}

/// Calls `ArrayVec::as_slice`: the slice holds the guesses in order, and a list never
/// holds more than its capacity.
#[verifier::external_body]
pub(crate) fn guesses_as_slice(v: &ArrayVec<TextureGuess, 3>) -> (r: &[TextureGuess])
    ensures
        r@ == guess_list(*v),
        r@.len() <= 3,
{
    v.as_slice()
}

/// The sequence holding the value of an option, if any.
pub open spec fn opt_seq<A>(o: Option<A>) -> Seq<A> {
    match o {
        Some(a) => seq![a],
        None => Seq::empty(),
    }
}

/// The guesses for an image: a block skin at its size, a block skin at double its size,
/// and another texture, each where one applies.
pub open spec fn spec_texture_guesses(
    ext: Option<Seq<char>>,
    width: u32,
    height: u32,
    opts: AnimatedOptions,
    ratios: AspectRatios,
) -> Seq<TextureGuess> {
    let likely_animated = ext == Some("gif"@) || opts.delay is Some || opts.combine is Some;
    let skin = spec_guess_skin(ext, width, height, likely_animated, false, opts, ratios);
    let skin2x = spec_guess_skin(ext, (width * 2) as u32, (height * 2) as u32, likely_animated, true, opts, ratios);
    let other = spec_guess_other(width, height);
    let kind = |k: TextureGuessKind| TextureGuess { width, height, kind: k };
    opt_seq(match skin { Some(s) => Some(kind(TextureGuessKind::Skin(s))), None => None })
        + opt_seq(match skin2x { Some(s) => Some(kind(TextureGuessKind::Skin(s))), None => None })
        + opt_seq(match other { Some(o) => Some(kind(TextureGuessKind::Other(o))), None => None })
}

fn is_gif(ext: &Option<String>) -> (r: bool)
    ensures
        r == (opt_view(*ext) == Some("gif"@)),
{
    match ext {
        Some(e) => str_equals(e.as_str(), "gif"),
        None => false,
    }
}

/// Guesses what textures an image of the given name and dimensions could be.
/// `ratios` are the aspect ratio checks of the image.
pub fn guess_texture_format(filename: &str, width: u32, height: u32, ratios: AspectRatios) -> (r:
    ArrayVec<TextureGuess, 3>)
    requires
        width <= u32::MAX / 2,
        height <= u32::MAX / 2,
    ensures
        guess_list(r) == spec_texture_guesses(
            path_extension(filename@),
            width,
            height,
            AnimatedOptions::spec_from_filename(filename@),
            ratios,
        ),
{
    let ext = extension_of(filename);
    let opts = AnimatedOptions::from_filename(filename);
    let likely_animated = is_gif(&ext) || opts.has_fields();
    let mut guesses = guesses_new();
    if let Some(s) = guess_skin(&ext, width, height, likely_animated, false, opts, ratios) {
        guesses_push(&mut guesses, TextureGuess { width, height, kind: TextureGuessKind::Skin(s) });
    }
    if let Some(s) = guess_skin(&ext, width * 2, height * 2, likely_animated, true, opts, ratios) {
        guesses_push(&mut guesses, TextureGuess { width, height, kind: TextureGuessKind::Skin(s) });
    }
    if let Some(o) = guess_other(width, height) {
        guesses_push(&mut guesses, TextureGuess { width, height, kind: TextureGuessKind::Other(o) });
    }
    proof {
        let ghost e = opt_view(ext);
        assert(guess_list(guesses) =~= spec_texture_guesses(
            e,
            width,
            height,
            opts,
            ratios,
        ));
    }
    guesses
}

/// What `SkinType::guess_format` gives; `None` where no format applies.
pub open spec fn spec_guess_format(
    ext: Seq<char>,
    width: u32,
    height: u32,
    opts: AnimatedOptions,
    ratios: AspectRatios,
) -> Option<SkinType> {
    let likely_animated = ext == "gif"@ || opts.delay is Some || opts.combine is Some;
    let svg = ext == "svg"@;
    if width == 256 && height == 256 && likely_animated {
        Some(SkinType::Tetrio61ConnectedAnimated { opts })
    } else if width == 256 && height == 256 {
        Some(SkinType::Tetrio61Connected)
    } else if width == 128 && height == 128 && likely_animated {
        Some(SkinType::Tetrio61ConnectedGhostAnimated { opts })
    } else if width == 128 && height == 128 {
        Some(SkinType::Tetrio61ConnectedGhost)
    } else if width == 372 && height == 30 && likely_animated {
        Some(SkinType::TetrioAnimated { opts })
    } else if width == 372 && height == 30 && svg {
        Some(SkinType::TetrioSVG)
    } else if width == 372 && height == 30 {
        Some(SkinType::TetrioRaster)
    } else if width == 288 && height == 640 {
        Some(SkinType::JstrisConnected)
    } else if width == 216 && height == 480 {
        Some(SkinType::JstrisConnected)
    } else if likely_animated && ratios.near_12_4 {
        Some(SkinType::TetrioAnimated { opts })
    } else if svg && ratios.near_12_4 {
        Some(SkinType::TetrioSVG)
    } else if ratios.near_12_4 {
        Some(SkinType::TetrioRaster)
    } else if likely_animated && ratios.near_9 {
        Some(SkinType::JstrisAnimated { opts })
    } else if ratios.near_9 {
        Some(SkinType::JstrisConnected)
    } else if ratios.near_9_20 {
        Some(SkinType::JstrisConnected)
    } else {
        None
    }
}

/// Whether an image fits one of the known block skin layouts, by its dimensions or its
/// aspect ratio.
pub open spec fn fits_skin_layout(width: u32, height: u32, ratios: AspectRatios) -> bool {
    ||| width == 256 && height == 256
    ||| width == 128 && height == 128
    ||| width == 372 && height == 30
    ||| width == 288 && height == 640
    ||| width == 216 && height == 480
    ||| ratios.near_12_4
    ||| ratios.near_9
    ||| ratios.near_9_20
}

/// An image fits a known block skin layout exactly when a format is guessed for it,
/// whatever its name.
pub proof fn lemma_guess_format_some(ext: Seq<char>, width: u32, height: u32, opts: AnimatedOptions, ratios: AspectRatios)
    ensures
        spec_guess_format(ext, width, height, opts, ratios) is Some <==> fits_skin_layout(width, height, ratios),
{
}

impl SkinType {
    /// Guesses a block skin format from a file name, the image dimensions and its aspect
    /// ratios. The image must fit one of the known layouts.
    pub fn guess_format(filename: &str, width: u32, height: u32, ratios: AspectRatios) -> (r: Option<SkinType>)
        requires
            fits_skin_layout(width, height, ratios),
        ensures
            r == spec_guess_format(
                effective_extension(filename@),
                width,
                height,
                AnimatedOptions::spec_from_filename(filename@),
                ratios,
            ),
    {
        let ext = effective_extension_of(filename);
        let opts = AnimatedOptions::from_filename(filename);
        let likely_animated = str_equals(ext.as_str(), "gif") || opts.has_fields();
        let svg = str_equals(ext.as_str(), "svg");
        if width == 256 && height == 256 && likely_animated {
            Some(SkinType::Tetrio61ConnectedAnimated { opts })
        } else if width == 256 && height == 256 {
            Some(SkinType::Tetrio61Connected)
        } else if width == 128 && height == 128 && likely_animated {
            Some(SkinType::Tetrio61ConnectedGhostAnimated { opts })
        } else if width == 128 && height == 128 {
            Some(SkinType::Tetrio61ConnectedGhost)
        } else if width == 372 && height == 30 && likely_animated {
            Some(SkinType::TetrioAnimated { opts })
        } else if width == 372 && height == 30 && svg {
            Some(SkinType::TetrioSVG)
        } else if width == 372 && height == 30 {
            Some(SkinType::TetrioRaster)
        } else if width == 288 && height == 640 {
            Some(SkinType::JstrisConnected)
        } else if width == 216 && height == 480 {
            Some(SkinType::JstrisConnected)
        } else if likely_animated && ratios.near_12_4 {
            Some(SkinType::TetrioAnimated { opts })
        } else if svg && ratios.near_12_4 {
            Some(SkinType::TetrioSVG)
        } else if ratios.near_12_4 {
            Some(SkinType::TetrioRaster)
        } else if likely_animated && ratios.near_9 {
            Some(SkinType::JstrisAnimated { opts })
        } else if ratios.near_9 {
            Some(SkinType::JstrisConnected)
        } else {
            Some(SkinType::JstrisConnected)
        }
    }
}

} // verus!
