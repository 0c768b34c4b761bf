use vstd::prelude::*;
use super::call::GlCall;
use super::GLContext;

verus! {

/// What a clear should wipe: the colour buffer, with the colour to write
/// (four `f32` bit patterns, RGBA), or the depth buffer.
#[derive(Debug, Copy, Clone, PartialEq, Eq, Structural)]
pub enum ClearMask {
    /// RGBA clear colour, each channel an `f32` bit pattern.
    Color(u32, u32, u32, u32),
    DepthBuffer,
}

impl GLContext {
    /// The colour-setting calls a clear issues: one per colour mask, in
    /// mask order.
    pub open spec fn clear_color_calls(masks: Seq<ClearMask>) -> Seq<GlCall>
        decreases masks.len(),
    {
        if masks.len() == 0 {
            Seq::empty()
        } else {
            Self::clear_color_calls(masks.drop_last()) + (match masks.last() {
                ClearMask::Color(r, g, b, a) => seq![
                    GlCall::ClearColor { red: r, green: g, blue: b, alpha: a },
                ],
                ClearMask::DepthBuffer => Seq::<GlCall>::empty(),
            })
        }
    }

    /// Some mask asks for the colour buffer.
    pub open spec fn has_color_mask(masks: Seq<ClearMask>) -> bool {
        exists|j: int| 0 <= j < masks.len() && (#[trigger] masks[j]) is Color
    }

    /// Some mask asks for the depth buffer.
    pub open spec fn has_depth_mask(masks: Seq<ClearMask>) -> bool {
        exists|j: int| 0 <= j < masks.len() && (#[trigger] masks[j]) is DepthBuffer
    }

    /// Records the calls that clear the selected buffers: the clear colour
    /// is set for each colour mask in order, then one clear call wipes the
    /// union of the selected buffers.  An empty mask list records nothing.
    pub fn clear(&mut self, masks: &[ClearMask])
        requires
            old(self).wf(),
        ensures
            final(self).wf(),
            final(self).registry() == old(self).registry(),
            Self::same_binding_state(*old(self), *final(self)),
            final(self).calls() == if masks@.len() == 0 {
                old(self).calls()
            } else {
                old(self).calls() + Self::clear_color_calls(masks@) + seq![
                    GlCall::Clear {
                        color: Self::has_color_mask(masks@),
                        depth: Self::has_depth_mask(masks@),
                    },
                ]
            },
    {
        let n = masks.len();
        if n == 0 {
            return ;
        }
        let mut any_color = false;
        let mut any_depth = false;
        let mut i: usize = 0;
        while i < n
            invariant
                i <= n,
                n == masks@.len(),
                self.registry() == old(self).registry(),
                Self::same_binding_state(*old(self), *self),
                self.calls() == old(self).calls() + Self::clear_color_calls(
                    masks@.take(i as int),
                ),
                any_color == Self::has_color_mask(masks@.take(i as int)),
                any_depth == Self::has_depth_mask(masks@.take(i as int)),
            decreases n - i,
        {
            proof {
                assert(masks@.take(i as int + 1).drop_last() =~= masks@.take(i as int));
                assert(masks@.take(i as int + 1).last() == masks@[i as int]);
            }
            match masks[i] {
                ClearMask::Color(red, green, blue, alpha) => {
                    self.pending_calls.push(GlCall::ClearColor { red, green, blue, alpha });
                    any_color = true;
                    proof {
                        assert(masks@.take(i as int + 1)[i as int] is Color);
                        assert(Self::has_color_mask(masks@.take(i as int + 1)));
                        if Self::has_depth_mask(masks@.take(i as int + 1)) {
                            let j = choose|j: int|
                                0 <= j < masks@.take(i as int + 1).len() && (#[trigger] masks@.take(
                                    i as int + 1,
                                )[j]) is DepthBuffer;
                            assert(masks@.take(i as int)[j] is DepthBuffer);
                        }
                        assert(self.calls() =~= old(self).calls() + Self::clear_color_calls(
                            masks@.take(i as int + 1),
                        ));
                    }
                },
                ClearMask::DepthBuffer => {
                    any_depth = true;
                    proof {
                        assert(masks@.take(i as int + 1)[i as int] is DepthBuffer);
                        assert(Self::has_depth_mask(masks@.take(i as int + 1)));
                        if Self::has_color_mask(masks@.take(i as int + 1)) {
                            let j = choose|j: int|
                                0 <= j < masks@.take(i as int + 1).len() && (#[trigger] masks@.take(
                                    i as int + 1,
                                )[j]) is Color;
                            assert(masks@.take(i as int)[j] is Color);
                        }
                        assert(self.calls() =~= old(self).calls() + Self::clear_color_calls(
                            masks@.take(i as int + 1),
                        ));
                    }
                },
            }
            i = i + 1;
        }
        proof {
            assert(masks@.take(n as int) =~= masks@);
        }
        self.pending_calls.push(GlCall::Clear { color: any_color, depth: any_depth });
        proof {
            assert(self.calls() =~= old(self).calls() + Self::clear_color_calls(masks@) + seq![
                GlCall::Clear {
                    color: Self::has_color_mask(masks@),
                    depth: Self::has_depth_mask(masks@),
                },
            ]);
        }
    }
}

} // verus!
