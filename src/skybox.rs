use vstd::prelude::*;

verus! {

/// The GPU objects of a cubemap skybox: its vertex array, its vertex buffer
/// and its cubemap texture.
///
/// The skybox is drawn with the depth test relaxed to less-or-equal and with
/// the translation stripped from the camera's view matrix, so that it always
/// stands infinitely far away.
pub struct SkyBox {
    vao: u32,
    vbo: u32,
    texture: u32,
}

impl SkyBox {
    pub closed spec fn spec_vao(&self) -> u32 {
        self.vao
    }

    pub closed spec fn spec_vbo(&self) -> u32 {
        self.vbo
    }

    pub closed spec fn spec_texture(&self) -> u32 {
        self.texture
    }

    /// A skybox over GPU objects that the caller has created and filled.
    pub fn new(vao: u32, vbo: u32, texture: u32) -> (s: SkyBox)
        ensures
            s.spec_vao() == vao,
            s.spec_vbo() == vbo,
            s.spec_texture() == texture,
    {
        SkyBox { vao, vbo, texture }
    }

    pub fn vao(&self) -> (r: u32)
        ensures
            r == self.spec_vao(),
    {
        self.vao
    }

    pub fn vbo(&self) -> (r: u32)
        ensures
            r == self.spec_vbo(),
    {
        self.vbo
    }

    pub fn texture(&self) -> (r: u32)
        ensures
            r == self.spec_texture(),
    {
        self.texture
    }
}

} // verus!
