//! The asset registry: shaders and mesh objects looked up by name.
//!
//! Both stores keep their entries in insertion order with unique names.
//! Reading shader sources from disk and compiling them is the platform
//! layer's work; the registry only decides what is stored under which name.

use vstd::prelude::*;

use crate::mesh::Mesh;
use crate::shader::Shader;

verus! {

/// The entries of a named store, each name by its characters.
pub open spec fn entries_view<V>(entries: Seq<(String, V)>) -> Seq<(Seq<char>, V)> {
    Seq::new(entries.len(), |i: int| (entries[i].0@, entries[i].1))
}

/// Whether a key occurs among the entries.
pub open spec fn has_key<V>(entries: Seq<(Seq<char>, V)>, key: Seq<char>) -> bool {
    exists|i: int| 0 <= i < entries.len() && (#[trigger] entries[i]).0 == key
}

/// Whether every entry's key occurs exactly once.
pub open spec fn unique_keys<V>(entries: Seq<(Seq<char>, V)>) -> bool {
    forall|i: int, j: int|
        0 <= i < j < entries.len() ==> (#[trigger] entries[i]).0 != (#[trigger] entries[j]).0
}

/// The index of the entry holding `name`, if any.
fn find_entry<V>(entries: &Vec<(String, V)>, name: &str) -> (r: Option<usize>)
    ensures
        match r {
            Some(i) => i < entries@.len() && entries_view(entries@)[i as int].0 == name@,
            None => !has_key(entries_view(entries@), name@),
        },
{
    let key: String = name.to_string();
    let n = entries.len();
    let mut i: usize = 0;
    while i < n
        invariant
            n == entries@.len(),
            i <= n,
            key@ == name@,
            forall|j: int| 0 <= j < i ==> (#[trigger] entries_view(entries@)[j]).0 != name@,
        decreases n - i,
    {
        if entries[i].0 == key {
            proof {
                assert(entries_view(entries@)[i as int].0 == name@);
            }
            return Some(i);
        }
        proof {
            assert(entries_view(entries@)[i as int].0 == entries@[i as int].0@);
        }
        i = i + 1;
    }
    None
}

/// Stores `value` under `name`, replacing any previous holder of the name;
/// keys stay unique and all other entries are untouched.
fn put_entry<V>(entries: &mut Vec<(String, V)>, name: &str, value: V)
    requires
        unique_keys(entries_view(old(entries)@)),
    ensures
        unique_keys(entries_view(final(entries)@)),
        has_key(entries_view(final(entries)@), name@),
        !has_key(entries_view(old(entries)@), name@) ==> entries_view(final(entries)@)
            == entries_view(old(entries)@).push((name@, value)),
        has_key(entries_view(old(entries)@), name@) ==> exists|i: int|
            {
                &&& 0 <= i < old(entries)@.len()
                &&& (#[trigger] entries_view(old(entries)@)[i]).0 == name@
                &&& entries_view(final(entries)@) == entries_view(old(entries)@).update(
                    i,
                    (name@, value),
                )
            },
{
    let at = find_entry(entries, name);
    match at {
        Some(i) => {
            let ghost pre = entries_view(entries@);
            let key: String = name.to_string();
            let entry = &mut entries[i];
            *entry = (key, value);
            proof {
                assert(entries_view(entries@) =~= pre.update(i as int, (name@, value)));
                lemma_update_same_key_unique(pre, i as int, (name@, value));
                assert(entries_view(entries@)[i as int].0 == name@);
            }
        }
        None => {
            let ghost pre = entries_view(entries@);
            let key: String = name.to_string();
            entries.push((key, value));
            proof {
                assert(entries_view(entries@) =~= pre.push((name@, value)));
                lemma_push_fresh_key_unique(pre, (name@, value));
                assert(entries_view(entries@)[pre.len() as int].0 == name@);
            }
        }
    }
}

/// Replacing an entry with one holding the same key keeps keys unique.
proof fn lemma_update_same_key_unique<V>(entries: Seq<(Seq<char>, V)>, at: int, e: (Seq<char>, V))
    requires
        unique_keys(entries),
        0 <= at < entries.len(),
        entries[at].0 == e.0,
    ensures
        unique_keys(entries.update(at, e)),
{
    let post = entries.update(at, e);
    assert forall|i: int, j: int|
        0 <= i < j < post.len() implies (#[trigger] post[i]).0 != (#[trigger] post[j]).0 by {
        assert(entries[i].0 != entries[j].0);
    }
}

/// Appending an entry whose key is absent keeps keys unique.
proof fn lemma_push_fresh_key_unique<V>(entries: Seq<(Seq<char>, V)>, e: (Seq<char>, V))
    requires
        unique_keys(entries),
        !has_key(entries, e.0),
    ensures
        unique_keys(entries.push(e)),
{
    let post = entries.push(e);
    assert forall|i: int, j: int|
        0 <= i < j < post.len() implies (#[trigger] post[i]).0 != (#[trigger] post[j]).0 by {
        if j == entries.len() {
            assert(post[i] == entries[i]);
            assert(entries[i].0 != e.0);
        } else {
            assert(entries[i].0 != entries[j].0);
        }
    }
}

/// The named stores of shaders and mesh objects.
pub struct AssetsManager {
    assets_root: &'static str,
    shaders: Vec<(String, Shader)>,
    objects: Vec<(String, Mesh)>,
}

impl AssetsManager {
    /// The shader entries in insertion order.
    pub closed spec fn shaders_view(&self) -> Seq<(Seq<char>, Shader)> {
        entries_view(self.shaders@)
    }

    /// The mesh entries in insertion order.
    pub closed spec fn objects_view(&self) -> Seq<(Seq<char>, Mesh)> {
        entries_view(self.objects@)
    }

    /// Names are unique in both stores.
    pub open spec fn wf(&self) -> bool {
        unique_keys(self.shaders_view()) && unique_keys(self.objects_view())
    }

    /// Whether a shader is registered under `name`.
    pub open spec fn has_shader(&self, name: Seq<char>) -> bool {
        has_key(self.shaders_view(), name)
    }

    /// Whether a mesh object is registered under `name`.
    pub open spec fn has_object(&self, name: Seq<char>) -> bool {
        has_key(self.objects_view(), name)
    }

    /// The mesh object stored under `name`; meaningful when the name is
    /// registered and names are unique.
    pub open spec fn object_named(&self, name: Seq<char>) -> Mesh {
        self.objects_view()[choose|i: int|
            0 <= i < self.objects_view().len() && (#[trigger] self.objects_view()[i]).0 == name].1
    }

    /// The directory asset files are loaded from.
    pub closed spec fn assets_root_spec(&self) -> Seq<char> {
        self.assets_root@
    }

    /// An empty registry rooted at the directory the platform layer loads
    /// asset files from.
    pub fn new(assets_root: &'static str) -> (r: AssetsManager)
        ensures
            r.wf(),
            r.shaders_view().len() == 0,
            r.objects_view().len() == 0,
            r.assets_root_spec() == assets_root@,
    {
        let r = AssetsManager { assets_root, shaders: Vec::new(), objects: Vec::new() };
        proof {
            assert(r.shaders_view() =~= Seq::<(Seq<char>, Shader)>::empty());
            assert(r.objects_view() =~= Seq::<(Seq<char>, Mesh)>::empty());
        }
        r
    }

    /// The root directory handed out for the platform layer's file loading.
    pub fn assets_root(&self) -> (r: &'static str)
        ensures
            r@ == self.assets_root_spec(),
    {
        self.assets_root
    }

    /// Registers a compiled shader under `name` unless the name is taken:
    /// the result reports whether it was stored.  Compiling the shader from
    /// its source files is the caller's work and happens before this.
    pub fn load_shader(&mut self, name: &str, shader: Shader) -> (added: bool)
        requires
            old(self).wf(),
        ensures
            final(self).wf(),
            added == !old(self).has_shader(name@),
            old(self).has_shader(name@) ==> *final(self) == *old(self),
            !old(self).has_shader(name@) ==> final(self).shaders_view() == old(
                self,
            ).shaders_view().push((name@, shader)),
            final(self).objects_view() == old(self).objects_view(),
            final(self).assets_root_spec() == old(self).assets_root_spec(),
    {
        if find_entry(&self.shaders, name).is_some() {
            return false;
        }
        self.put_shader(name, shader);
        true
    }

    /// Stores a shader under `name`, replacing any previous holder of the
    /// name.
    pub fn put_shader(&mut self, name: &str, shader: Shader)
        requires
            old(self).wf(),
        ensures
            final(self).wf(),
            final(self).has_shader(name@),
            !old(self).has_shader(name@) ==> final(self).shaders_view() == old(
                self,
            ).shaders_view().push((name@, shader)),
            old(self).has_shader(name@) ==> exists|i: int|
                {
                    &&& 0 <= i < old(self).shaders_view().len()
                    &&& (#[trigger] old(self).shaders_view()[i]).0 == name@
                    &&& final(self).shaders_view() == old(self).shaders_view().update(
                        i,
                        (name@, shader),
                    )
                },
            final(self).objects_view() == old(self).objects_view(),
            final(self).assets_root_spec() == old(self).assets_root_spec(),
    {
        put_entry(&mut self.shaders, name, shader);
    }

    /// Looks a shader up by name.
    pub fn get_shader(&self, name: &str) -> (r: Option<&Shader>)
        ensures
            match r {
                Some(shader) => exists|i: int|
                    0 <= i < self.shaders_view().len() && #[trigger] self.shaders_view()[i] == (
                        name@,
                        *shader,
                    ),
                None => !self.has_shader(name@),
            },
    {
        match find_entry(&self.shaders, name) {
            Some(i) => {
                proof {
                    assert(self.shaders_view()[i as int] == (name@, self.shaders@[i as int].1));
                }
                Some(&self.shaders[i].1)
            }
            None => None,
        }
    }

    /// Stores a mesh object under `name`, replacing any previous holder of
    /// the name.
    pub fn put_object(&mut self, name: &str, object: Mesh)
        requires
            old(self).wf(),
        ensures
            final(self).wf(),
            final(self).has_object(name@),
            !old(self).has_object(name@) ==> final(self).objects_view() == old(
                self,
            ).objects_view().push((name@, object)),
            old(self).has_object(name@) ==> exists|i: int|
                {
                    &&& 0 <= i < old(self).objects_view().len()
                    &&& (#[trigger] old(self).objects_view()[i]).0 == name@
                    &&& final(self).objects_view() == old(self).objects_view().update(
                        i,
                        (name@, object),
                    )
                },
            final(self).shaders_view() == old(self).shaders_view(),
            final(self).assets_root_spec() == old(self).assets_root_spec(),
    {
        put_entry(&mut self.objects, name, object);
    }

    /// Looks a mesh object up by name.
    pub fn get_object(&self, name: &str) -> (r: Option<&Mesh>)
        ensures
            match r {
                Some(object) => exists|i: int|
                    0 <= i < self.objects_view().len() && #[trigger] self.objects_view()[i] == (
                        name@,
                        *object,
                    ),
                None => !self.has_object(name@),
            },
            self.wf() && r is Some ==> *r.unwrap() == self.object_named(name@),
    {
        match find_entry(&self.objects, name) {
            Some(i) => {
                proof {
                    assert(self.objects_view()[i as int] == (name@, self.objects@[i as int].1));
                    if self.wf() {
                        let j = choose|j: int|
                            0 <= j < self.objects_view().len() && (
                            #[trigger] self.objects_view()[j]).0 == name@;
                        assert(self.objects_view()[j].0 == name@);
                        assert(j == i as int);
                    }
                }
                Some(&self.objects[i].1)
            }
            None => None,
        }
    }

    /// Records the GPU buffer handles for the mesh object named `name`; the
    /// result reports whether such an object exists.
    pub fn init_object(&mut self, name: &str, vao: u32, vbo: u32, ebo: u32) -> (r: bool)
        requires
            old(self).wf(),
        ensures
            final(self).wf(),
            r == old(self).has_object(name@),
            !r ==> *final(self) == *old(self),
            r ==> exists|i: int|
                {
                    &&& 0 <= i < old(self).objects_view().len()
                    &&& (#[trigger] old(self).objects_view()[i]).0 == name@
                    &&& final(self).objects_view() == old(self).objects_view().update(
                        i,
                        (name@, Mesh { vao, vbo, ebo, ..old(self).objects_view()[i].1 }),
                    )
                },
            final(self).shaders_view() == old(self).shaders_view(),
            final(self).assets_root_spec() == old(self).assets_root_spec(),
    {
        match find_entry(&self.objects, name) {
            Some(i) => {
                let ghost pre = self.objects_view();
                let entry = &mut self.objects[i];
                entry.1.init(vao, vbo, ebo);
                proof {
                    assert(self.objects_view() =~= pre.update(
                        i as int,
                        (name@, self.objects@[i as int].1),
                    ));
                    lemma_update_same_key_unique(
                        pre,
                        i as int,
                        (name@, self.objects@[i as int].1),
                    );
                    assert(self.objects@[i as int].1 == Mesh {
                        vao,
                        vbo,
                        ebo,
                        ..pre[i as int].1
                    });
                }
                true
            }
            None => false,
        }
    }
}

} // verus!
