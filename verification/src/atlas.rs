//! The stencil atlas: one bitmap for each pattern of the catalogue.

use vstd::prelude::*;
use crate::bitmap::{blank, Bitmap, BitmapView};
use crate::pattern::Pattern;

verus! {

/// The width of a banner and of every stencil, in pixels.
pub const WIDTH: u32 = 20;

/// The height of a banner and of every stencil, in pixels.
pub const HEIGHT: u32 = 40;

/// The stencils of all patterns, `Base` included, found by pattern.
#[derive(Debug, Clone, PartialEq, Eq)]
pub struct StencilAtlas {
    stencils: Vec<Bitmap>,
}

impl View for StencilAtlas {
    type V = Seq<BitmapView>;

    /// The stencils in the order of the catalogue.
    closed spec fn view(&self) -> Seq<BitmapView> {
        Seq::new(self.stencils@.len(), |k: int| self.stencils@[k]@)
    }
}

/// Whether a bitmap has the dimensions of a banner.
pub open spec fn banner_sized(b: BitmapView) -> bool {
    b.wf() && b.width == 20 && b.height == 40
}

/// Whether each of the forty-three stencils has the dimensions of a banner.
pub open spec fn all_banner_sized(stencils: Seq<BitmapView>) -> bool {
    forall|k: int| 0 <= k < 43 ==> banner_sized(#[trigger] stencils[k])
}

impl StencilAtlas {
    /// The atlas holds one well-formed stencil for each pattern.
    pub closed spec fn wf(&self) -> bool {
        &&& self.stencils@.len() == 43
        &&& forall|k: int| 0 <= k < 43 ==> (#[trigger] self.stencils@[k]).wf()
    }

    /// Every stencil has the dimensions of a banner, so that the atlas can
    /// serve a rendering.
    pub open spec fn complete(&self) -> bool {
        all_banner_sized(self@)
    }

    /// An atlas has forty-three stencils.
    pub proof fn lemma_len(&self)
        requires
            self.wf(),
        ensures
            self@.len() == 43,
    {
    }

    /// An atlas whose stencils are all empty, to be filled with `set`.
    pub fn new() -> (r: StencilAtlas)
        ensures
            r.wf(),
            r@ == Seq::new(43, |k: int| blank(0, 0)),
    {
        let mut stencils: Vec<Bitmap> = Vec::new();
        let mut i: usize = 0;
        while i < 43
            invariant
                i <= 43,
                stencils@.len() == i,
                forall|k: int| 0 <= k < i ==> (#[trigger] stencils@[k]).wf() && stencils@[k]@ == blank(0, 0),
            decreases 43 - i,
        {
            stencils.push(Bitmap::new(0, 0));
            i += 1;
        }
        let r = StencilAtlas { stencils };
        assert(r@ =~= Seq::new(43, |k: int| blank(0, 0)));
        r
    }

    /// Puts `stencil` in the place of the pattern's stencil.
    pub fn set(&mut self, pattern: Pattern, stencil: Bitmap)
        requires
            old(self).wf(),
            stencil.wf(),
        ensures
            final(self).wf(),
            final(self)@ == old(self)@.update(pattern.spec_ordinal(), stencil@),
    {
        proof {
            pattern.lemma_ordinal();
        }
        let i = pattern.ordinal() as usize;
        self.stencils.set(i, stencil);
        assert(self@ =~= old(self)@.update(pattern.spec_ordinal(), stencil@));
    }

    /// The stencil of the pattern.
    pub fn get(&self, pattern: Pattern) -> (r: &Bitmap)
        requires
            self.wf(),
        ensures
            r.wf(),
            r@ == self@[pattern.spec_ordinal()],
    {
        proof {
            pattern.lemma_ordinal();
        }
        &self.stencils[pattern.ordinal() as usize]
    }

    /// Whether every stencil has the dimensions of a banner.
    pub fn is_complete(&self) -> (r: bool)
        requires
            self.wf(),
        ensures
            r == self.complete(),
    {
        let mut i: usize = 0;
        while i < 43
            invariant
                i <= 43,
                self.wf(),
                forall|k: int| 0 <= k < i ==> banner_sized(#[trigger] self@[k]),
            decreases 43 - i,
        {
            let stencil = &self.stencils[i];
            if stencil.width() != WIDTH || stencil.height() != HEIGHT {
                assert(!banner_sized(self@[i as int]));
                return false;
            }
            assert(banner_sized(self@[i as int]));
            i += 1;
        }
        true
    }
}

} // verus!
