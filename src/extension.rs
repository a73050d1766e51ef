use vstd::prelude::*;

verus! {

/// What an entity spawned for a dropped file displays.
#[derive(Clone, Copy, Debug, PartialEq, Eq, Structural)]
pub enum AssetKind {
    /// A glTF scene, loaded from the file's first scene.
    Scene,
    /// A static mesh.
    Mesh,
    /// A 2D sprite textured with the image.
    Sprite,
}

/// Index of the last `c` in `s`, or -1 when `s` holds none.
pub open spec fn last_index_of(s: Seq<char>, c: char) -> int
    decreases s.len(),
{
    if s.len() == 0 {
        -1
    } else if s.last() == c {
        s.len() - 1
    } else {
        last_index_of(s.drop_last(), c)
    }
}

/// The text after the last `.` of a path; the whole path when it has no `.`.
pub open spec fn extension_spec(path: Seq<char>) -> Seq<char> {
    path.subrange(last_index_of(path, '.') + 1, path.len() as int)
}

/// A character with ASCII upper case folded to lower case, as a code point.
pub open spec fn fold_char(c: char) -> u32 {
    if 65 <= (c as u32) && (c as u32) <= 90 {
        (c as u32 + 32) as u32
    } else {
        c as u32
    }
}

/// `s` equals the lower-case word `w` once ASCII letters are folded to lower case.
pub open spec fn folds_to(s: Seq<char>, w: Seq<char>) -> bool {
    &&& s.len() == w.len()
    &&& forall|i: int| 0 <= i < s.len() ==> fold_char(#[trigger] s[i]) == w[i] as u32
}

/// The kind of asset an extension is loaded as, ignoring ASCII case.
pub open spec fn route_spec(ext: Seq<char>) -> Option<AssetKind> {
    if folds_to(ext, "glb"@) || folds_to(ext, "gltf"@) {
        Some(AssetKind::Scene)
    } else if folds_to(ext, "stl"@) || folds_to(ext, "obj"@) {
        Some(AssetKind::Mesh)
    } else if folds_to(ext, "svg"@) || folds_to(ext, "png"@) || folds_to(ext, "jpg"@)
        || folds_to(ext, "jpeg"@) || folds_to(ext, "bmp"@) || folds_to(ext, "gif"@)
        || folds_to(ext, "tga"@) || folds_to(ext, "hdr"@) || folds_to(ext, "pic"@)
        || folds_to(ext, "psd"@) || folds_to(ext, "tiff"@) || folds_to(ext, "webp"@)
        || folds_to(ext, "ico"@) {
        Some(AssetKind::Sprite)
    } else {
        None
    }
}

proof fn lemma_last_index_of(s: Seq<char>, c: char, i: int)
    requires
        0 <= i <= s.len(),
        i == 0 || s[i - 1] == c,
        forall|j: int| i <= j < s.len() ==> s[j] != c,
    ensures
        last_index_of(s, c) == i - 1,
    decreases s.len(),
{
    if s.len() > 0 && i < s.len() {
        assert(s.last() != c);
        lemma_last_index_of(s.drop_last(), c, i);
    }
}

/// The extension of `path`: what follows its last `.`, or all of it when it has none.
pub fn extension_of(path: &str) -> (r: &str)
    ensures
        r@ == extension_spec(path@),
{
    let n = path.unicode_len();
    let mut i: usize = n;
    while i > 0 && path.get_char(i - 1) != '.'
        invariant
            i <= n,
            n == path@.len(),
            forall|j: int| i <= j < n ==> path@[j] != '.',
        decreases i,
    {
        i = i - 1;
    }
    proof {
        lemma_last_index_of(path@, '.', i as int);
    }
    path.substring_char(i, n)
}

/// Whether `s` equals the lower-case word `w` once ASCII letters are folded.
fn eq_folded(s: &str, w: &str) -> (r: bool)
    ensures
        r == folds_to(s@, w@),
{
    let n = s.unicode_len();
    if n != w.unicode_len() {
        return false;
    }
    let mut i: usize = 0;
    while i < n
        invariant
            n == s@.len(),
            n == w@.len(),
            i <= n,
            forall|j: int| 0 <= j < i ==> fold_char(#[trigger] s@[j]) == w@[j] as u32,
        decreases n - i,
    {
        let c = s.get_char(i) as u32;
        let f: u32 = if 65 <= c && c <= 90 {
            c + 32
        } else {
            c
        };
        if f != w.get_char(i) as u32 {
            return false;
        }
        i = i + 1;
    }
    true
}

/// The kind of asset a file with extension `ext` is loaded as, ignoring ASCII
/// case; `None` for a type the editor does not open.
pub fn route_extension(ext: &str) -> (r: Option<AssetKind>)
    ensures
        r == route_spec(ext@),
{
    if eq_folded(ext, "glb") || eq_folded(ext, "gltf") {
        Some(AssetKind::Scene)
    } else if eq_folded(ext, "stl") || eq_folded(ext, "obj") {
        Some(AssetKind::Mesh)
    } else if eq_folded(ext, "svg") || eq_folded(ext, "png") || eq_folded(ext, "jpg")
        || eq_folded(ext, "jpeg") || eq_folded(ext, "bmp") || eq_folded(ext, "gif")
        || eq_folded(ext, "tga") || eq_folded(ext, "hdr") || eq_folded(ext, "pic")
        || eq_folded(ext, "psd") || eq_folded(ext, "tiff") || eq_folded(ext, "webp")
        || eq_folded(ext, "ico") {
        Some(AssetKind::Sprite)
    } else {
        None
    }
}

/// The kind of asset the file at `path` is loaded as, by its extension.
pub fn route_path(path: &str) -> (r: Option<AssetKind>)
    ensures
        r == route_spec(extension_spec(path@)),
{
    route_extension(extension_of(path))
}

} // verus!
