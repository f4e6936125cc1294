//! The triangle entity: object-space vertices, their derived view-space and
//! screen-space counterparts, per-vertex texture coordinates and colors, and
//! a render-mode tag.
//!
//! The derived vertex arrays always hold exactly three entries aligned by
//! index with the object-space vertices; the well-formedness predicate
//! [`Triangle::wf`] states that invariant, constructors establish it and the
//! setters preserve it.

use vstd::prelude::*;
use crate::fx::FX_ONE;
use crate::vector::{Color3, Vector2, Vector4};

verus! {

/// The shading strategy of a triangle.
#[derive(Clone, Copy, Debug, PartialEq, Eq, Structural)]
pub enum RenderType {
    /// Interpolated vertex color, unlit.
    Color,
    /// Sampled texture color, unlit.
    Texture,
    /// Interpolated vertex color under per-pixel Phong lighting.
    ColorLight,
    /// Sampled texture color under per-pixel Phong lighting.
    TextureLight,
}

/// Whether a render mode samples the texture for its base color.
pub open spec fn uses_texture(rt: RenderType) -> bool {
    rt == RenderType::Texture || rt == RenderType::TextureLight
}

/// Whether a render mode evaluates Phong lighting.
pub open spec fn uses_light(rt: RenderType) -> bool {
    rt == RenderType::ColorLight || rt == RenderType::TextureLight
}

/// A per-frame triangle with object-space, view-space and screen-space
/// vertices, texture coordinates, vertex colors and a render mode.
#[derive(Clone, Debug)]
pub struct Triangle {
    /// Object-space vertices, the frame's input.
    pub origin_vertexs: Vec<Vector4>,
    /// Screen-space vertices, derived by the transform stage.
    pub vertexs: Vec<Vector4>,
    /// View-space vertices, derived by the transform stage.
    pub tvertexs: Vec<Vector4>,
    /// Per-vertex texture coordinates.
    pub tex_coords: Vec<Vector2>,
    /// Per-vertex colors.
    pub colors: Vec<Color3>,
    /// The shading strategy.
    pub render_type: RenderType,
}

impl Triangle {
    /// Every vertex-aligned array holds exactly three entries.
    pub open spec fn wf(self) -> bool {
        &&& self.origin_vertexs@.len() == 3
        &&& self.vertexs@.len() == 3
        &&& self.tvertexs@.len() == 3
        &&& self.tex_coords@.len() == 3
        &&& self.colors@.len() == 3
    }

    /// A fresh triangle: zero vertices, white vertex colors, flat color
    /// shading.
    pub fn new() -> (r: Triangle)
        ensures
            r.wf(),
            r.render_type == RenderType::Color,
            forall|i: int| 0 <= i < 3 ==> r.origin_vertexs@[i] == (Vector4 { x: 0, y: 0, z: 0, w: 0 }),
            forall|i: int| 0 <= i < 3 ==> r.vertexs@[i] == (Vector4 { x: 0, y: 0, z: 0, w: 0 }),
            forall|i: int| 0 <= i < 3 ==> r.tvertexs@[i] == (Vector4 { x: 0, y: 0, z: 0, w: 0 }),
            forall|i: int| 0 <= i < 3 ==> r.tex_coords@[i] == (Vector2 { x: 0, y: 0 }),
            forall|i: int| 0 <= i < 3 ==> r.colors@[i] == (Color3 { r: FX_ONE, g: FX_ONE, b: FX_ONE }),
    {
        let z = Vector4 { x: 0, y: 0, z: 0, w: 0 };
        let t = Vector2 { x: 0, y: 0 };
        let white = Color3 { r: FX_ONE, g: FX_ONE, b: FX_ONE };
        Triangle {
            origin_vertexs: vec![z, z, z],
            vertexs: vec![z, z, z],
            tvertexs: vec![z, z, z],
            tex_coords: vec![t, t, t],
            colors: vec![white, white, white],
            render_type: RenderType::Color,
        }
    }

    /// Replace the object-space vertices.
    pub fn set_origin_vertexs(&mut self, v: Vec<Vector4>)
        requires
            v@.len() == 3,
        ensures
            final(self).origin_vertexs@ == v@,
            final(self).vertexs == old(self).vertexs,
            final(self).tvertexs == old(self).tvertexs,
            final(self).tex_coords == old(self).tex_coords,
            final(self).colors == old(self).colors,
            final(self).render_type == old(self).render_type,
    {
        self.origin_vertexs = v;
    }

    /// Replace the screen-space vertices.
    pub fn set_vertexs(&mut self, v: Vec<Vector4>)
        requires
            v@.len() == 3,
        ensures
            final(self).vertexs@ == v@,
            final(self).origin_vertexs == old(self).origin_vertexs,
            final(self).tvertexs == old(self).tvertexs,
            final(self).tex_coords == old(self).tex_coords,
            final(self).colors == old(self).colors,
            final(self).render_type == old(self).render_type,
    {
        self.vertexs = v;
    }

    /// Replace the view-space vertices.
    pub fn set_tvetexs(&mut self, v: Vec<Vector4>)
        requires
            v@.len() == 3,
        ensures
            final(self).tvertexs@ == v@,
            final(self).origin_vertexs == old(self).origin_vertexs,
            final(self).vertexs == old(self).vertexs,
            final(self).tex_coords == old(self).tex_coords,
            final(self).colors == old(self).colors,
            final(self).render_type == old(self).render_type,
    {
        self.tvertexs = v;
    }

    /// Replace the texture coordinates.
    pub fn set_tex_coords(&mut self, v: Vec<Vector2>)
        requires
            v@.len() == 3,
        ensures
            final(self).tex_coords@ == v@,
            final(self).origin_vertexs == old(self).origin_vertexs,
            final(self).vertexs == old(self).vertexs,
            final(self).tvertexs == old(self).tvertexs,
            final(self).colors == old(self).colors,
            final(self).render_type == old(self).render_type,
    {
        self.tex_coords = v;
    }

    /// Replace the vertex colors.
    pub fn set_colors(&mut self, v: Vec<Color3>)
        requires
            v@.len() == 3,
        ensures
            final(self).colors@ == v@,
            final(self).origin_vertexs == old(self).origin_vertexs,
            final(self).vertexs == old(self).vertexs,
            final(self).tvertexs == old(self).tvertexs,
            final(self).tex_coords == old(self).tex_coords,
            final(self).render_type == old(self).render_type,
    {
        self.colors = v;
    }

    /// Select the shading strategy.
    pub fn set_render_type(&mut self, rt: RenderType)
        ensures
            final(self).render_type == rt,
            final(self).origin_vertexs == old(self).origin_vertexs,
            final(self).vertexs == old(self).vertexs,
            final(self).tvertexs == old(self).tvertexs,
            final(self).tex_coords == old(self).tex_coords,
            final(self).colors == old(self).colors,
    {
        self.render_type = rt;
    }
}

} // verus!
