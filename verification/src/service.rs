//! What the banner service computes for each of its requests, file contents
//! in and file contents out.

use vstd::prelude::*;
use crate::atlas::{all_banner_sized, StencilAtlas};
use crate::banner::{decode, Banner};
use crate::bitmap::{blank, BitmapView};
use crate::codec::{bitmap_of, decode_image, encode_png, png_of, ImageFault};
use crate::error::{ParseError, ParseFailure};
use crate::pattern::Pattern;
use crate::render::{render, rendering};
use crate::text::{stem, stem_of};

verus! {

/// Why a request could not be served.
#[derive(Debug, Clone, PartialEq, Eq)]
pub enum ServiceError {
    /// The banner code was refused.
    Parse(ParseError),
    /// No pattern has the name kept here.
    UnknownPattern(String),
    /// An image could not be written or read.
    Image(ImageFault),
    /// The stencil files leave a pattern without a stencil of a banner's
    /// dimensions.
    IncompleteAtlas,
}

/// A stencil file as it lies in storage: the name of its pattern, the
/// extension of the file's name (empty if it has none) and what the file
/// holds.
#[derive(Debug, Clone, PartialEq, Eq)]
pub struct StencilFile {
    pub name: String,
    pub extension: String,
    pub contents: Vec<u8>,
}

/// A [`ServiceError`] with its text as a sequence of characters and without
/// the wording of an image fault.
pub ghost enum ServiceFailure {
    Parse(ParseFailure),
    UnknownPattern(Seq<char>),
    Image,
    IncompleteAtlas,
}

impl View for ServiceError {
    type V = ServiceFailure;

    open spec fn view(&self) -> ServiceFailure {
        match self {
            ServiceError::Parse(e) => ServiceFailure::Parse(e@),
            ServiceError::UnknownPattern(name) => ServiceFailure::UnknownPattern(name@),
            ServiceError::Image(_) => ServiceFailure::Image,
            ServiceError::IncompleteAtlas => ServiceFailure::IncompleteAtlas,
        }
    }
}

/// The PNG file of a bitmap, or the failure to write one.
pub open spec fn file_of(bitmap: BitmapView) -> Result<Seq<u8>, ServiceFailure> {
    match png_of(bitmap.width as u32, bitmap.height as u32, bitmap.bytes()) {
        Some(file) => Ok(file),
        None => Err(ServiceFailure::Image),
    }
}

/// The answer to a request for a banner: the name is cut at its first full
/// stop, the rest is decoded as a banner code, and the banner is rendered
/// and written as a PNG file.
pub open spec fn generated(name: Seq<char>, atlas: Seq<BitmapView>) -> Result<
    Seq<u8>,
    ServiceFailure,
> {
    match decode(stem_of(name)) {
        Err(e) => Err(ServiceFailure::Parse(e)),
        Ok(banner) => file_of(rendering(banner, atlas)),
    }
}

/// The answer to a request for a pattern's stencil: the name is cut at its
/// first full stop, the rest names the pattern, and the pattern's stencil is
/// written as a PNG file.
pub open spec fn pattern_file(name: Seq<char>, atlas: Seq<BitmapView>) -> Result<
    Seq<u8>,
    ServiceFailure,
> {
    match Pattern::named(stem_of(name)) {
        None => Err(ServiceFailure::UnknownPattern(stem_of(name))),
        Some(p) => file_of(atlas[p.spec_ordinal()]),
    }
}

/// The atlas after the first `k` stencil files have been put in: each file
/// is read as an image and put in the place of the pattern that its name
/// names.  The first file that cannot be read, or whose name names no
/// pattern, decides the failure; of one file the reading is tried first.
pub open spec fn filled(files: Seq<StencilFile>, k: nat) -> Result<Seq<BitmapView>, ServiceFailure>
    decreases k,
{
    if k == 0 {
        Ok(Seq::new(43, |i: int| blank(0, 0)))
    } else {
        match filled(files, (k - 1) as nat) {
            Err(e) => Err(e),
            Ok(atlas) => match bitmap_of(files[k - 1].extension@, files[k - 1].contents@) {
                None => Err(ServiceFailure::Image),
                Some(stencil) => match Pattern::named(files[k - 1].name@) {
                    None => Err(ServiceFailure::UnknownPattern(files[k - 1].name@)),
                    Some(p) => Ok(atlas.update(p.spec_ordinal(), stencil)),
                },
            },
        }
    }
}

/// The atlas that the stencil files give: all of them put in, and then every
/// pattern, `Base` included, must have a stencil of a banner's dimensions.
pub open spec fn loaded(files: Seq<StencilFile>) -> Result<Seq<BitmapView>, ServiceFailure> {
    match filled(files, files.len()) {
        Err(e) => Err(e),
        Ok(atlas) => if all_banner_sized(atlas) {
            Ok(atlas)
        } else {
            Err(ServiceFailure::IncompleteAtlas)
        },
    }
}

/// Once a file fails, putting in further files gives that same failure.
pub proof fn lemma_filled_fails(files: Seq<StencilFile>, k: nat, n: nat)
    requires
        k <= n,
        filled(files, k) is Err,
    ensures
        filled(files, n) == filled(files, k),
    decreases n,
{
    if n > k {
        lemma_filled_fails(files, k, (n - 1) as nat);
    }
}

/// Renders the banner whose code a request names and writes it as a PNG file.
pub fn generate(banner_string: &str, atlas: &StencilAtlas) -> (r: Result<Vec<u8>, ServiceError>)
    requires
        atlas.wf(),
        atlas.complete(),
    ensures
        match r {
            Ok(file) => generated(banner_string@, atlas@) == Ok::<Seq<u8>, ServiceFailure>(file@),
            Err(e) => generated(banner_string@, atlas@) == Err::<Seq<u8>, ServiceFailure>(e@),
        },
{
    let banner_without_extension = stem(banner_string);
    let banner = match Banner::parse_banner(banner_without_extension) {
        Ok(banner) => banner,
        Err(e) => {
            return Err(ServiceError::Parse(e));
        },
    };
    let image = render(&banner, atlas);
    match encode_png(&image) {
        Ok(file) => Ok(file),
        Err(e) => Err(ServiceError::Image(e)),
    }
}

/// Writes the stencil of the pattern that a request names as a PNG file.
pub fn pattern(pattern_name: &str, atlas: &StencilAtlas) -> (r: Result<Vec<u8>, ServiceError>)
    requires
        atlas.wf(),
    ensures
        match r {
            Ok(file) => pattern_file(pattern_name@, atlas@) == Ok::<Seq<u8>, ServiceFailure>(file@),
            Err(e) => pattern_file(pattern_name@, atlas@) == Err::<Seq<u8>, ServiceFailure>(e@),
        },
{
    let pattern_without_extension = stem(pattern_name);
    let pattern = match Pattern::from_name(pattern_without_extension) {
        Some(pattern) => pattern,
        None => {
            return Err(ServiceError::UnknownPattern(pattern_without_extension.to_owned()));
        },
    };
    match encode_png(atlas.get(pattern)) {
        Ok(file) => Ok(file),
        Err(e) => Err(ServiceError::Image(e)),
    }
}

/// Builds the atlas from the stencil files, and makes sure that it can serve
/// every rendering.
pub fn load_patterns(files: &Vec<StencilFile>) -> (r: Result<StencilAtlas, ServiceError>)
    ensures
        match r {
            Ok(atlas) => loaded(files@) == Ok::<Seq<BitmapView>, ServiceFailure>(atlas@),
            Err(e) => loaded(files@) == Err::<Seq<BitmapView>, ServiceFailure>(e@),
        },
        r matches Ok(atlas) ==> atlas.wf() && atlas.complete(),
{
    let mut patterns = StencilAtlas::new();
    let mut k: usize = 0;
    while k < files.len()
        invariant
            k <= files@.len(),
            patterns.wf(),
            filled(files@, k as nat) == Ok::<Seq<BitmapView>, ServiceFailure>(patterns@),
        decreases files@.len() - k,
    {
        let file = &files[k];
        let image = match decode_image(file.contents.as_slice(), file.extension.as_str()) {
            Ok(image) => image,
            Err(e) => {
                proof {
                    lemma_filled_fails(files@, (k + 1) as nat, files@.len());
                }
                return Err(ServiceError::Image(e));
            },
        };
        let pattern = match Pattern::from_name(file.name.as_str()) {
            Some(pattern) => pattern,
            None => {
                proof {
                    lemma_filled_fails(files@, (k + 1) as nat, files@.len());
                }
                return Err(ServiceError::UnknownPattern(file.name.clone()));
            },
        };
        patterns.set(pattern, image);
        k += 1;
    }
    if !patterns.is_complete() {
        return Err(ServiceError::IncompleteAtlas);
    }
    Ok(patterns)
}

} // verus!
