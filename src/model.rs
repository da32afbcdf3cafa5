use vstd::prelude::*;

verus! {

/// The directory part of a file path, as `std::path::Path::parent` gives it.
pub uninterp spec fn parent_dir_of(path: Seq<char>) -> Seq<char>;

/// Relies on `std::path::Path::parent`: the path without its final component,
/// or the empty string where it has none. The result depends on the text of
/// `path` alone.
#[verifier::external_body]
fn parent_directory(path: &str) -> (r: String)
    ensures
        r@ == parent_dir_of(path@),
{
    match std::path::Path::new(path).parent() {
        Some(dir) => dir.to_string_lossy().into_owned(),
        None => String::new(),
    }
}

/// Relies on `format!` with two `{}` of `str`: each argument is written as it
/// is, here with a `/` between them.
#[verifier::external_body]
fn join_path(directory: &str, file: &str) -> (r: String)
    ensures
        r@ == directory@ + seq!['/'] + file@,
{
    format!("{}/{}", directory, file)
}

/// A texture on the GPU: its object id, the sampler prefix it binds to
/// (`texture_diffuse`, ...) and the path it was loaded from, relative to the
/// model's directory.
#[derive(Debug)]
pub struct Texture {
    pub id: u32,
    pub type_: String,
    pub path: String,
}

/// The kinds of texture map that a material can name, in the order in which
/// a mesh binds them.
#[derive(PartialEq, Eq, Structural, Clone, Copy, Debug)]
pub enum TextureKind {
    Diffuse,
    Specular,
    Normal,
}

impl TextureKind {
    pub open spec fn spec_sampler(self) -> Seq<char> {
        match self {
            TextureKind::Diffuse => "texture_diffuse"@,
            TextureKind::Specular => "texture_specular"@,
            TextureKind::Normal => "texture_normal"@,
        }
    }

    /// The sampler prefix under which a texture of this kind is bound.
    pub fn sampler(self) -> (r: &'static str)
        ensures
            r@ == self.spec_sampler(),
    {
        match self {
            TextureKind::Diffuse => "texture_diffuse",
            TextureKind::Specular => "texture_specular",
            TextureKind::Normal => "texture_normal",
        }
    }
}

/// The texture maps that a material with these map names gives a mesh: each
/// one whose name is not empty, diffuse first, then specular, then normal.
pub open spec fn material_kinds(diffuse: Seq<char>, specular: Seq<char>, normal: Seq<char>) -> Seq<
    TextureKind,
> {
    let d = if diffuse.len() > 0 { seq![TextureKind::Diffuse] } else { Seq::empty() };
    let s = if specular.len() > 0 { seq![TextureKind::Specular] } else { Seq::empty() };
    let n = if normal.len() > 0 { seq![TextureKind::Normal] } else { Seq::empty() };
    d + s + n
}

/// The texture maps to load for a material with these map names.
pub fn material_textures(diffuse: &str, specular: &str, normal: &str) -> (kinds: Vec<TextureKind>)
    ensures
        kinds@ == material_kinds(diffuse@, specular@, normal@),
{
    let mut kinds: Vec<TextureKind> = Vec::new();
    if !diffuse.is_empty() {
        kinds.push(TextureKind::Diffuse);
    }
    if !specular.is_empty() {
        kinds.push(TextureKind::Specular);
    }
    if !normal.is_empty() {
        kinds.push(TextureKind::Normal);
    }
    assert(kinds@ =~= material_kinds(diffuse@, specular@, normal@));
    kinds
}

/// `i` is the first texture of `textures` loaded from `path`.
pub open spec fn first_with_path(textures: Seq<Texture>, path: Seq<char>, i: int) -> bool {
    &&& 0 <= i < textures.len()
    &&& textures[i].path@ == path
    &&& forall|j: int| 0 <= j < i ==> (#[trigger] textures[j].path@) != path
}

pub open spec fn has_path(textures: Seq<Texture>, path: Seq<char>) -> bool {
    exists|i: int| 0 <= i < textures.len() && (#[trigger] textures[i].path@) == path
}

/// A loaded model: its meshes, of type `H`, the directory its files are read
/// from, and the textures loaded so far, so that a texture that several
/// materials name is loaded once.
pub struct Model<H> {
    pub meshes: Vec<H>,
    pub texture_loaded: Vec<Texture>,
    pub directory: String,
}

impl<H> Model<H> {
    /// No texture is cached twice under one path.
    pub open spec fn wf(&self) -> bool {
        forall|i: int, j: int|
            0 <= i < j < self.texture_loaded@.len() ==> (#[trigger] self.texture_loaded@[i].path@)
                != (#[trigger] self.texture_loaded@[j].path@)
    }

    /// A model for the mesh file at `path`, with no meshes and no textures
    /// loaded yet; the files it names are looked up in the directory of `path`.
    pub fn new(path: &str) -> (m: Self)
        ensures
            m.meshes@.len() == 0,
            m.texture_loaded@.len() == 0,
            m.directory@ == parent_dir_of(path@),
            m.wf(),
    {
        Model { meshes: Vec::new(), texture_loaded: Vec::new(), directory: parent_directory(path) }
    }

    /// The file that a texture path of one of the model's materials names:
    /// the path under the model's directory.
    pub fn texture_file(&self, path: &str) -> (r: String)
        ensures
            r@ == self.directory@ + seq!['/'] + path@,
    {
        join_path(self.directory.as_str(), path)
    }

    /// The texture already loaded from `path`, if any.
    pub fn loaded_texture(&self, path: &str) -> (r: Option<Texture>)
        ensures
            r is None <==> !has_path(self.texture_loaded@, path@),
            r matches Some(t) ==> exists|i: int|
                first_with_path(self.texture_loaded@, path@, i) && t == self.texture_loaded@[i],
    {
        let key: String = path.to_owned();
        let n: usize = self.texture_loaded.len();
        let mut i: usize = 0;
        while i < n
            invariant
                key@ == path@,
                n == self.texture_loaded@.len(),
                i <= n,
                forall|j: int| 0 <= j < i ==> (#[trigger] self.texture_loaded@[j].path@) != path@,
            decreases n - i,
        {
            let t = &self.texture_loaded[i];
            if t.path == key {
                let found = Texture { id: t.id, type_: t.type_.clone(), path: t.path.clone() };
                assert(first_with_path(self.texture_loaded@, path@, i as int));
                return Some(found);
            }
            i = i + 1;
        }
        None
    }

    /// The texture for `path`: the one already loaded from it if there is
    /// one, and the model is left as it was; otherwise a texture with the
    /// freshly loaded object `id` and the sampler prefix `sampler`, which
    /// is added to the loaded textures.
    pub fn cache_texture(&mut self, path: &str, sampler: &str, id: u32) -> (r: Texture)
        ensures
            final(self).meshes == old(self).meshes,
            final(self).directory == old(self).directory,
            has_path(old(self).texture_loaded@, path@) ==> {
                &&& final(self).texture_loaded@ == old(self).texture_loaded@
                &&& exists|i: int|
                    first_with_path(old(self).texture_loaded@, path@, i) && r
                        == old(self).texture_loaded@[i]
            },
            !has_path(old(self).texture_loaded@, path@) ==> {
                &&& r.id == id
                &&& r.type_@ == sampler@
                &&& r.path@ == path@
                &&& final(self).texture_loaded@ == old(self).texture_loaded@.push(r)
            },
            old(self).wf() ==> final(self).wf(),
    {
        match self.loaded_texture(path) {
            Some(t) => t,
            None => {
                let cached = Texture { id, type_: sampler.to_owned(), path: path.to_owned() };
                let t = Texture { id, type_: cached.type_.clone(), path: cached.path.clone() };
                self.texture_loaded.push(cached);
                t
            },
        }
    }
}

} // verus!
