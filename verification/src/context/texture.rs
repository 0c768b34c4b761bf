use vstd::prelude::*;
use super::call::GlCall;
use super::GLContext;
use crate::error::Error;
use crate::object::descriptor::GLObjectDescriptor;
use crate::texture::units::{TextureUnit, NUM_TEXTURE_UNITS};
use crate::texture::Texture;

verus! {

impl GLContext {
    /// The native calls a fresh activation issues: select the unit, bind
    /// the texture there, and optionally regenerate its mipmaps.
    pub open spec fn activate_calls(tex: Texture, unit: TextureUnit, generate_mipmap: bool) -> Seq<
        GlCall,
    > {
        if generate_mipmap {
            seq![
                GlCall::ActiveTexture(unit),
                GlCall::BindTexture { target: tex.kind, id: tex.gl_object_id },
                GlCall::GenerateMipmap(tex.kind),
            ]
        } else {
            seq![
                GlCall::ActiveTexture(unit),
                GlCall::BindTexture { target: tex.kind, id: tex.gl_object_id },
            ]
        }
    }

    /// The native calls that free a unit this texture occupied: select the
    /// unit and unbind its target there.
    pub open spec fn deactivate_calls(tex: Texture, unit: TextureUnit) -> Seq<GlCall> {
        seq![
            GlCall::ActiveTexture(unit),
            GlCall::BindTexture { target: tex.kind, id: 0 },
        ]
    }

    /// Finds the lowest unit occupied by the handle; when there is none,
    /// the whole occupancy vector has been scanned.
    fn find_unit_of(&self, obj_desc: GLObjectDescriptor) -> (r: Option<usize>)
        ensures
            match r {
                Some(u) => self.is_first_unit_of(obj_desc, u as int),
                None => !self.has_unit(obj_desc),
            },
    {
        let n = self.active_textures.len();
        let mut found: Option<usize> = None;
        let mut i: usize = 0;
        while i < n
            invariant
                i <= n,
                n as int == self.texture_units().len(),
                match found {
                    Some(u) => u < i && self.is_first_unit_of(obj_desc, u as int),
                    None => forall|v: int|
                        0 <= v < i ==> (#[trigger] self.texture_units()[v]) != Some(obj_desc),
                },
            decreases n - i,
        {
            if found.is_none() {
                match &self.active_textures[i] {
                    Some(d) => {
                        if *d == obj_desc {
                            found = Some(i);
                        }
                    },
                    None => {},
                }
            }
            i = i + 1;
        }
        proof {
            if found is None && self.has_unit(obj_desc) {
                let u = choose|u: int| #[trigger] self.unit_occupied_by(u, obj_desc);
                assert(self.texture_units()[u] == Some(obj_desc));
            }
        }
        found
    }

    /// Finds the lowest free unit; when there is none, every unit is
    /// occupied.
    fn find_free_unit(&self) -> (r: Option<usize>)
        ensures
            match r {
                Some(u) => self.is_first_free_unit(u as int),
                None => !self.has_free_unit(),
            },
    {
        let n = self.active_textures.len();
        let mut found: Option<usize> = None;
        let mut i: usize = 0;
        while i < n
            invariant
                i <= n,
                n as int == self.texture_units().len(),
                match found {
                    Some(u) => u < i && self.is_first_free_unit(u as int),
                    None => forall|v: int|
                        0 <= v < i ==> (#[trigger] self.texture_units()[v]) is Some,
                },
            decreases n - i,
        {
            if found.is_none() && self.active_textures[i].is_none() {
                found = Some(i);
            }
            i = i + 1;
        }
        found
    }

    /// Activates a texture on a unit and returns that unit.
    ///
    /// When the handle already occupies a unit, that unit is returned again
    /// and nothing changes: activation is idempotent and never consumes a
    /// second unit.  Otherwise the handle must resolve to a texture, the
    /// lowest free unit is taken (`MaxActiveTextures` when none is free,
    /// `InvalidTextureUnit` when the free unit lies past the units this
    /// library can name), the occupancy is recorded and the native select,
    /// bind and optional mipmap calls are queued.
    pub fn activate_texture(&mut self, obj_desc: GLObjectDescriptor, generate_mipmap: bool) -> (r:
        Result<TextureUnit, Error>)
        requires
            old(self).wf(),
        ensures
            final(self).wf(),
            final(self).registry() == old(self).registry(),
            final(self).current_program() == old(self).current_program(),
            final(self).current_vertex_object() == old(self).current_vertex_object(),
            match r {
                Ok(unit) => {
                    if old(self).has_unit(obj_desc) {
                        &&& old(self).is_first_unit_of(obj_desc, unit.index())
                        &&& *final(self) == *old(self)
                    } else {
                        &&& old(self).registry().get_texture_spec(obj_desc) is Ok
                        &&& old(self).is_first_free_unit(unit.index())
                        &&& final(self).texture_units() == old(self).texture_units().update(
                            unit.index(),
                            Some(obj_desc),
                        )
                        &&& final(self).calls() == old(self).calls() + Self::activate_calls(
                            old(self).registry().get_texture_spec(obj_desc)->Ok_0,
                            unit,
                            generate_mipmap,
                        )
                    }
                },
                Err(e) => {
                    &&& *final(self) == *old(self)
                    &&& match e {
                        Error::InvalidTextureUnit(u) => {
                            &&& u >= NUM_TEXTURE_UNITS
                            &&& {
                                ||| old(self).is_first_unit_of(obj_desc, u as int)
                                ||| (!old(self).has_unit(obj_desc) && old(
                                    self,
                                ).registry().get_texture_spec(obj_desc) is Ok && old(
                                    self,
                                ).is_first_free_unit(u as int))
                            }
                        },
                        Error::MaxActiveTextures => {
                            &&& !old(self).has_unit(obj_desc)
                            &&& old(self).registry().get_texture_spec(obj_desc) is Ok
                            &&& !old(self).has_free_unit()
                        },
                        _ => {
                            &&& !old(self).has_unit(obj_desc)
                            &&& old(self).registry().get_texture_spec(obj_desc) == Err::<
                                Texture,
                                Error,
                            >(e)
                        },
                    }
                },
            },
    {
        // the texture may already occupy a unit: activation is idempotent
        match self.find_unit_of(obj_desc) {
            Some(idx) => {
                return TextureUnit::try_from(idx);
            },
            None => {},
        }

        let texture = self.object_registry.get_texture(obj_desc)?;
        let target = texture.kind;
        let id = texture.gl_object_id;

        let idx = match self.find_free_unit() {
            Some(idx) => idx,
            None => {
                return Err(Error::MaxActiveTextures);
            },
        };
        let unit = TextureUnit::try_from(idx)?;

        self.active_textures.set(idx, Some(obj_desc));
        self.pending_calls.push(GlCall::ActiveTexture(unit));
        self.pending_calls.push(GlCall::BindTexture { target, id });
        if generate_mipmap {
            self.pending_calls.push(GlCall::GenerateMipmap(target));
        }

        proof {
            assert(unit.index() == idx as int) by {
                assert(TextureUnit::spec_from_index(idx as int) == Some(unit));
            }
            assert(self.calls() =~= old(self).calls() + Self::activate_calls(
                old(self).registry().get_texture_spec(obj_desc)->Ok_0,
                unit,
                generate_mipmap,
            ));
            // no other unit holds this handle, so distinctness is kept
            assert forall|u: int, v: int|
                #![trigger self.texture_units()[u], self.texture_units()[v]]
                0 <= u < self.texture_units().len() && 0 <= v < self.texture_units().len() && u != v
                    && self.texture_units()[u] is Some implies self.texture_units()[u]
                != self.texture_units()[v] by {
                if u != idx as int && v != idx as int {
                    assert(self.texture_units()[u] == old(self).texture_units()[u]);
                    assert(self.texture_units()[v] == old(self).texture_units()[v]);
                } else if u == idx as int {
                    assert(!old(self).unit_occupied_by(v, obj_desc));
                    assert(old(self).texture_units()[v] != Some(obj_desc));
                    assert(self.texture_units()[v] == old(self).texture_units()[v]);
                } else {
                    assert(!old(self).unit_occupied_by(u, obj_desc));
                    assert(old(self).texture_units()[u] != Some(obj_desc));
                    assert(self.texture_units()[u] == old(self).texture_units()[u]);
                }
            }
        }
        Ok(unit)
    }

    /// Frees the unit this texture occupies, recording the native select
    /// and unbind calls; a no-op returning nothing when the handle occupies
    /// no unit.  When the handle no longer resolves, or its unit lies past
    /// the units this library can name, the unit is still freed but no
    /// native call is recorded and nothing is returned.
    pub fn deactivate_texture(&mut self, obj_desc: GLObjectDescriptor) -> (r: Option<
        GLObjectDescriptor,
    >)
        requires
            old(self).wf(),
        ensures
            final(self).wf(),
            final(self).registry() == old(self).registry(),
            final(self).current_program() == old(self).current_program(),
            final(self).current_vertex_object() == old(self).current_vertex_object(),
            !final(self).has_unit(obj_desc),
            match old(self).current_unit_view(obj_desc) {
                None => r is None && *final(self) == *old(self),
                Some(u) => {
                    &&& old(self).is_first_unit_of(obj_desc, u)
                    &&& final(self).texture_units() == old(self).texture_units().update(u, None)
                    &&& match old(self).registry().get_texture_spec(obj_desc) {
                        Ok(tex) => {
                            if u < NUM_TEXTURE_UNITS {
                                r == Some(obj_desc) && final(self).calls() == old(self).calls()
                                    + Self::deactivate_calls(
                                    tex,
                                    TextureUnit::spec_from_index(u)->Some_0,
                                )
                            } else {
                                r is None && final(self).calls() == old(self).calls()
                            }
                        },
                        Err(_) => r is None && final(self).calls() == old(self).calls(),
                    }
                },
            },
    {
        let idx = match self.find_unit_of(obj_desc) {
            Some(idx) => idx,
            None => {
                proof {
                    lemma_first_unit_unique_none(*self, obj_desc);
                }
                return None;
            },
        };
        self.active_textures.set(idx, None);
        proof {
            lemma_unit_removal_clears(*old(self), *self, obj_desc, idx as int);
        }
        let texture = match self.object_registry.get_texture(obj_desc) {
            Ok(texture) => texture,
            Err(_) => {
                return None;
            },
        };
        let target = texture.kind;
        let unit = match TextureUnit::try_from(idx) {
            Ok(unit) => unit,
            Err(_) => {
                return None;
            },
        };
        self.pending_calls.push(GlCall::ActiveTexture(unit));
        self.pending_calls.push(GlCall::BindTexture { target, id: 0 });
        proof {
            assert(unit.index() == idx as int) by {
                assert(TextureUnit::spec_from_index(idx as int) == Some(unit));
            }
            assert(self.calls() =~= old(self).calls() + Self::deactivate_calls(
                old(self).registry().get_texture_spec(obj_desc)->Ok_0,
                unit,
            ));
        }
        Some(obj_desc)
    }

    /// The lowest unit the handle occupies, if any.
    pub open spec fn current_unit_view(self, d: GLObjectDescriptor) -> Option<int> {
        if self.has_unit(d) {
            Some(choose|u: int| #[trigger] self.is_first_unit_of(d, u))
        } else {
            None
        }
    }
}

/// When a handle occupies no unit, `current_unit_view` reports nothing.
proof fn lemma_first_unit_unique_none(s: GLContext, d: GLObjectDescriptor)
    requires
        !s.has_unit(d),
    ensures
        s.current_unit_view(d) is None,
{
}

/// Emptying the lowest unit a handle occupies leaves the handle with no
/// unit at all, provided no handle occupies two units.
proof fn lemma_unit_removal_clears(pre: GLContext, post: GLContext, d: GLObjectDescriptor, u: int)
    requires
        pre.wf(),
        pre.is_first_unit_of(d, u),
        post.texture_units() == pre.texture_units().update(u, None),
    ensures
        !post.has_unit(d),
        pre.current_unit_view(d) == Some(u),
        forall|v: int, w: int|
            #![trigger post.texture_units()[v], post.texture_units()[w]]
            0 <= v < post.texture_units().len() && 0 <= w < post.texture_units().len() && v != w
                && post.texture_units()[v] is Some ==> post.texture_units()[v]
                != post.texture_units()[w],
{
    assert(pre.unit_occupied_by(u, d));
    assert(pre.has_unit(d));
    let first = choose|x: int| #[trigger] pre.is_first_unit_of(d, x);
    if first != u {
        if first < u {
            assert(pre.texture_units()[first] != Some(d));
        } else {
            assert(pre.texture_units()[u] != Some(d));
        }
        assert(false);
    }
    if post.has_unit(d) {
        let v = choose|v: int| #[trigger] post.unit_occupied_by(v, d);
        assert(v != u);
        assert(pre.texture_units()[v] == Some(d));
        assert(pre.unit_occupied_by(u, d) && pre.unit_occupied_by(v, d));
        assert(pre.texture_units()[u] == pre.texture_units()[v]);
        assert(false);
    }
    assert forall|v: int, w: int|
        #![trigger post.texture_units()[v], post.texture_units()[w]]
        0 <= v < post.texture_units().len() && 0 <= w < post.texture_units().len() && v != w
            && post.texture_units()[v] is Some implies post.texture_units()[v]
        != post.texture_units()[w] by {
        if v != u && w != u {
            assert(post.texture_units()[v] == pre.texture_units()[v]);
            assert(post.texture_units()[w] == pre.texture_units()[w]);
        }
    }
}

/// Law: activation is idempotent.  A fresh activation that placed a handle
/// on unit `u` makes `u` the handle's lowest unit, so a second activation
/// without an intervening deactivation returns the same unit and, by
/// `activate_texture`'s contract, changes nothing and consumes no second
/// unit.
pub proof fn lemma_activate_texture_idempotent(
    pre: GLContext,
    post: GLContext,
    d: GLObjectDescriptor,
    unit: TextureUnit,
)
    requires
        pre.wf(),
        !pre.has_unit(d),
        pre.is_first_free_unit(unit.index()),
        post.texture_units() == pre.texture_units().update(unit.index(), Some(d)),
    ensures
        post.has_unit(d),
        post.is_first_unit_of(d, unit.index()),
{
    let u = unit.index();
    assert(post.texture_units()[u] == Some(d));
    assert(post.unit_occupied_by(u, d));
    assert forall|v: int| 0 <= v < u implies (#[trigger] post.texture_units()[v]) != Some(d) by {
        assert(pre.texture_units()[v] is Some);
        if pre.texture_units()[v] == Some(d) {
            assert(pre.unit_occupied_by(v, d));
            assert(pre.has_unit(d));
        }
        assert(post.texture_units()[v] == pre.texture_units()[v]);
    }
}

/// Law: when every unit is occupied and none of them by this handle, a
/// further activation has no free unit left; by `activate_texture`'s
/// contract it then fails with `MaxActiveTextures` and changes nothing.
pub proof fn lemma_activate_texture_capacity(s: GLContext, d: GLObjectDescriptor)
    requires
        forall|u: int|
            0 <= u < s.texture_units().len() ==> (#[trigger] s.texture_units()[u]) is Some,
    ensures
        !s.has_free_unit(),
{
}

/// Helper for the capacity law: characterizes the occupancy after `k`
/// fresh, successful activations starting from a context whose units are
/// all free.
proof fn lemma_activate_run_invariant(
    states: Seq<GLContext>,
    descs: Seq<GLObjectDescriptor>,
    units: Seq<TextureUnit>,
    k: int,
)
    requires
        states.len() == descs.len() + 1,
        units.len() == descs.len(),
        descs.len() <= states[0].texture_units().len(),
        forall|u: int|
            0 <= u < states[0].texture_units().len() ==> (
            #[trigger] states[0].texture_units()[u]) is None,
        forall|m: int|
            0 <= m < descs.len() ==> !(#[trigger] states[m].has_unit(descs[m])) && states[m]
                .is_first_free_unit(units[m].index()) && states[m + 1].texture_units() == states[m]
                .texture_units().update(units[m].index(), Some(descs[m])),
        0 <= k <= descs.len(),
    ensures
        states[k].texture_units().len() == states[0].texture_units().len(),
        forall|u: int|
            0 <= u < k ==> (#[trigger] states[k].texture_units()[u]) == Some(descs[u]),
        forall|u: int|
            k <= u < states[0].texture_units().len() ==> (
            #[trigger] states[k].texture_units()[u]) is None,
        forall|m: int| 0 <= m < k ==> (#[trigger] units[m].index()) == m,
    decreases k,
{
    if k > 0 {
        lemma_activate_run_invariant(states, descs, units, k - 1);
        assert(!states[k - 1].has_unit(descs[k - 1]));
        assert(states[k - 1].is_first_free_unit(units[k - 1].index()));
        assert(states[(k - 1) + 1].texture_units() == states[k - 1].texture_units().update(
            units[k - 1].index(),
            Some(descs[k - 1]),
        ));
        assert(states[(k - 1) + 1] == states[k]);
        // the lowest free unit of the previous state is exactly k - 1
        let f = units[k - 1].index();
        assert(states[k - 1].texture_units()[f] is None);
        if f < k - 1 {
            assert(states[k - 1].texture_units()[f] == Some(descs[f]));
            assert(false);
        }
        if f > k - 1 {
            assert(states[k - 1].texture_units()[k - 1] is None);
            assert(false);
        }
        assert(f == k - 1);
    }
}

/// Law: starting from a context whose `N` texture units are all free, `N`
/// activations of textures that each occupied no unit yet fill units `0`
/// to `N - 1` in order; after them every unit is occupied, so by
/// `activate_texture`'s contract a further activation of a handle that
/// occupies no unit fails with `MaxActiveTextures` and changes nothing.
pub proof fn lemma_activate_texture_run_capacity(
    states: Seq<GLContext>,
    descs: Seq<GLObjectDescriptor>,
    units: Seq<TextureUnit>,
    extra: GLObjectDescriptor,
)
    requires
        states.len() == descs.len() + 1,
        units.len() == descs.len(),
        descs.len() == states[0].texture_units().len(),
        forall|u: int|
            0 <= u < states[0].texture_units().len() ==> (
            #[trigger] states[0].texture_units()[u]) is None,
        forall|m: int|
            0 <= m < descs.len() ==> !(#[trigger] states[m].has_unit(descs[m])) && states[m]
                .is_first_free_unit(units[m].index()) && states[m + 1].texture_units() == states[m]
                .texture_units().update(units[m].index(), Some(descs[m])),
        forall|m: int| 0 <= m < descs.len() ==> (#[trigger] descs[m]) != extra,
    ensures
        forall|m: int| 0 <= m < descs.len() ==> (#[trigger] units[m].index()) == m,
        !states[descs.len() as int].has_free_unit(),
        !states[descs.len() as int].has_unit(extra),
{
    let n = descs.len() as int;
    lemma_activate_run_invariant(states, descs, units, n);
    if states[n].has_free_unit() {
        let u = choose|u: int|
            0 <= u < states[n].texture_units().len() && (
            #[trigger] states[n].texture_units()[u]) is None;
        assert(states[n].texture_units()[u] == Some(descs[u]));
    }
    if states[n].has_unit(extra) {
        let u = choose|u: int| #[trigger] states[n].unit_occupied_by(u, extra);
        assert(states[n].texture_units()[u] == Some(descs[u]));
    }
}

} // verus!
