//! Rendering a banner: the ground first, then each layer in order.

use vstd::prelude::*;
use crate::atlas::{StencilAtlas, HEIGHT, WIDTH};
use crate::banner::{Banner, BannerView};
use crate::bitmap::{blank, Bitmap, BitmapView};
use crate::compositor::{apply_pattern, composite};
use crate::pattern::Pattern;

verus! {

/// The banner after its ground and its first `k` layers have been laid: the
/// stencil of `Base` in the banner's colour on a transparent bitmap, then
/// each layer's stencil in the layer's colour, the lowest first.
pub open spec fn rendered(banner: BannerView, atlas: Seq<BitmapView>, k: nat) -> BitmapView
    decreases k,
{
    if k == 0 {
        composite(blank(20, 40), atlas[Pattern::Base.spec_ordinal()], banner.color.spec_to_rgb())
    } else {
        let layer = banner.patterns[k - 1];
        composite(
            rendered(banner, atlas, (k - 1) as nat),
            atlas[layer.pattern.spec_ordinal()],
            layer.color.spec_to_rgb(),
        )
    }
}

/// The bitmap of a banner, all its layers laid.
pub open spec fn rendering(banner: BannerView, atlas: Seq<BitmapView>) -> BitmapView {
    rendered(banner, atlas, banner.patterns.len())
}

/// Whatever has been laid, the bitmap keeps the dimensions of a banner.
pub proof fn lemma_rendered_size(banner: BannerView, atlas: Seq<BitmapView>, k: nat)
    ensures
        rendered(banner, atlas, k).width == 20,
        rendered(banner, atlas, k).height == 40,
        rendered(banner, atlas, k).pixels.len() == 800,
    decreases k,
{
    if k > 0 {
        lemma_rendered_size(banner, atlas, (k - 1) as nat);
    }
}

/// Renders a banner with the stencils of an atlas.
pub fn render(banner: &Banner, atlas: &StencilAtlas) -> (image: Bitmap)
    requires
        atlas.wf(),
        atlas.complete(),
    ensures
        image.wf(),
        image@ == rendering(banner@, atlas@),
        image@.width == 20,
        image@.height == 40,
{
    proof {
        atlas.lemma_len();
        Pattern::Base.lemma_ordinal();
    }
    let mut image = Bitmap::new(WIDTH, HEIGHT);
    apply_pattern(&mut image, atlas.get(Pattern::Base), banner.color.to_rgb());
    let mut k: usize = 0;
    while k < banner.patterns.len()
        invariant
            k <= banner.patterns@.len(),
            atlas.wf(),
            atlas.complete(),
            atlas@.len() == 43,
            image.wf(),
            image@ == rendered(banner@, atlas@, k as nat),
        decreases banner.patterns@.len() - k,
    {
        let layer = banner.patterns[k];
        proof {
            layer.pattern.lemma_ordinal();
            lemma_rendered_size(banner@, atlas@, k as nat);
        }
        apply_pattern(&mut image, atlas.get(layer.pattern), layer.color.to_rgb());
        k += 1;
    }
    proof {
        lemma_rendered_size(banner@, atlas@, banner@.patterns.len());
    }
    image
}

} // verus!
