//! Texture ids: the GUI's own ids, and ids handed out for images the host registers.
use std::collections::HashMap;
use vstd::prelude::*;

verus! {

broadcast use vstd::std_specs::hash::group_hash_axioms;

/// The GUI library's texture id: `Managed` for textures it allocated itself,
/// `User` for textures the host registered.
#[verifier::external_type_specification]
pub struct ExTextureId(egui::TextureId);

/// Key of a host image, as the host's asset id folded into 128 bits.
pub type ImageKey = u128;

/// A texture as the renderer tracks it: a GUI-managed texture belongs to one
/// render target entity; a user texture is shared by all of them.
#[derive(Debug, Clone, Copy, PartialEq, Eq, Hash, Structural)]
pub enum EguiTextureId {
    /// Allocated by the GUI for the context of the given entity.
    Managed(u64, u64),
    /// Registered by the host.
    User(u64),
}

impl EguiTextureId {
    /// The renderer's id for a texture id that a mesh of `entity`'s context refers to.
    pub open spec fn of(entity: u64, id: egui::TextureId) -> EguiTextureId {
        match id {
            egui::TextureId::Managed(t) => EguiTextureId::Managed(entity, t),
            egui::TextureId::User(t) => EguiTextureId::User(t),
        }
    }

    /// The renderer's id for a texture id that a mesh of `entity`'s context refers to.
    pub fn from_egui(entity: u64, id: egui::TextureId) -> (r: EguiTextureId)
        ensures
            r == EguiTextureId::of(entity, id),
    {
        match id {
            egui::TextureId::Managed(t) => EguiTextureId::Managed(entity, t),
            egui::TextureId::User(t) => EguiTextureId::User(t),
        }
    }
}

/// Ids of the images that the host registered with the GUI.
///
/// Each registered image has a `User` texture id of its own. Ids of removed
/// images are reused, most recently freed first; otherwise the smallest id
/// never handed out is taken.
#[derive(Clone)]
pub struct EguiUserTextures {
    textures: HashMap<ImageKey, u64>,
    /// Ids ready to be handed out. The first entry is the smallest id never
    /// handed out; the others were freed, the last one most recently.
    free_list: Vec<u64>,
}

impl View for EguiUserTextures {
    type V = Map<ImageKey, u64>;

    closed spec fn view(&self) -> Map<ImageKey, u64> {
        self.textures@
    }
}

impl EguiUserTextures {
    /// The ids ready to be handed out; the last is the next one.
    pub closed spec fn free_ids(&self) -> Seq<u64> {
        self.free_list@
    }

    /// The smallest id never handed out.
    pub open spec fn fresh_id(&self) -> u64 {
        self.free_ids()[0]
    }

    /// The id that the next new image gets.
    pub open spec fn next_id(&self) -> u64 {
        self.free_ids().last()
    }

    /// Whether `id` is the id of some registered image.
    pub open spec fn id_in_use(&self, id: u64) -> bool {
        exists|k: ImageKey| #[trigger] self@.contains_key(k) && self@[k] == id
    }

    /// The free list is never empty; ids in use and free ids are all below
    /// the fresh one, pairwise distinct, and no id is both in use and free.
    pub closed spec fn wf(&self) -> bool {
        &&& self.free_list@.len() >= 1
        &&& forall|i: int| 1 <= i < self.free_list@.len() ==> #[trigger] self.free_list@[i] < self.free_list@[0]
        &&& forall|i: int, j: int|
            0 <= i < j < self.free_list@.len() ==> #[trigger] self.free_list@[i] != #[trigger] self.free_list@[j]
        &&& forall|k: ImageKey| #[trigger] self.textures@.contains_key(k) ==> self.textures@[k] < self.free_list@[0]
        &&& forall|k: ImageKey, i: int|
            #[trigger] self.textures@.contains_key(k) && 0 <= i < self.free_list@.len()
                ==> self.textures@[k] != #[trigger] self.free_list@[i]
        &&& forall|k1: ImageKey, k2: ImageKey|
            #[trigger] self.textures@.contains_key(k1) && #[trigger] self.textures@.contains_key(k2) && k1 != k2
                ==> self.textures@[k1] != self.textures@[k2]
    }

    /// Two different registered images never share a texture id.
    pub proof fn lemma_ids_distinct(&self, a: ImageKey, b: ImageKey)
        requires
            self.wf(),
            self@.contains_key(a),
            self@.contains_key(b),
            a != b,
        ensures
            self@[a] != self@[b],
    {
    }

    /// The id that the next new image gets is not the id of a registered image.
    pub proof fn lemma_next_id_free(&self)
        requires
            self.wf(),
        ensures
            !self.id_in_use(self.next_id()),
    {
        assert forall|k: ImageKey| #[trigger] self@.contains_key(k) implies self@[k] != self.next_id() by {
            assert(self.free_list@[self.free_list@.len() - 1] == self.next_id());
        }
    }

    /// No image registered; the first id handed out is 0.
    pub fn new() -> (r: EguiUserTextures)
        ensures
            r.wf(),
            r@ == Map::<ImageKey, u64>::empty(),
            r.free_ids() == seq![0u64],
    {
        let r = EguiUserTextures { textures: HashMap::new(), free_list: vec![0] };
        assert(r.free_list@ == seq![0u64]);
        r
    }

    /// Whether registering `image` can go ahead without running out of ids.
    pub open spec fn can_add(&self, image: ImageKey) -> bool {
        self@.contains_key(image) || self.free_ids().len() > 1 || self.fresh_id() < u64::MAX
    }

    /// Registers an image and returns its texture id; an image registered
    /// already keeps its id.
    pub fn add_image(&mut self, image: ImageKey) -> (r: egui::TextureId)
        requires
            old(self).wf(),
            old(self).can_add(image),
        ensures
            final(self).wf(),
            old(self)@.contains_key(image) ==> {
                &&& r == egui::TextureId::User(old(self)@[image])
                &&& final(self)@ == old(self)@
                &&& final(self).free_ids() == old(self).free_ids()
            },
            !old(self)@.contains_key(image) ==> {
                &&& r == egui::TextureId::User(old(self).next_id())
                &&& !old(self).id_in_use(old(self).next_id())
                &&& final(self)@ == old(self)@.insert(image, old(self).next_id())
                &&& final(self).free_ids() == if old(self).free_ids().len() > 1 {
                    old(self).free_ids().drop_last()
                } else {
                    seq![(old(self).fresh_id() + 1) as u64]
                }
            },
    {
        if let Some(id) = self.textures.get(&image) {
            return egui::TextureId::User(*id);
        }
        let ghost old_list = self.free_list@;
        let ghost old_map = self.textures@;
        let id = self.free_list.pop().unwrap();
        if self.free_list.len() == 0 {
            self.free_list.push(id + 1);
        }
        self.textures.insert(image, id);
        proof {
            assert forall|k: ImageKey| #[trigger] old_map.contains_key(k) implies old_map[k] != id by {
                assert(old_list[old_list.len() - 1] == id);
            }
            if old_list.len() > 1 {
                assert(self.free_list@ =~= old_list.drop_last());
                assert forall|i: int| 0 <= i < self.free_list@.len() implies #[trigger] self.free_list@[i] != id by {
                    assert(self.free_list@[i] == old_list[i]);
                }
            } else {
                assert(self.free_list@ =~= seq![(id + 1) as u64]);
            }
        }
        egui::TextureId::User(id)
    }

    /// Unregisters an image and frees its id, which the next new image gets.
    pub fn remove_image(&mut self, image: &ImageKey) -> (r: Option<egui::TextureId>)
        requires
            old(self).wf(),
        ensures
            final(self).wf(),
            final(self)@ == old(self)@.remove(*image),
            old(self)@.contains_key(*image) ==> {
                &&& r == Some(egui::TextureId::User(old(self)@[*image]))
                &&& final(self).free_ids() == old(self).free_ids().push(old(self)@[*image])
            },
            !old(self)@.contains_key(*image) ==> {
                &&& r == None::<egui::TextureId>
                &&& final(self).free_ids() == old(self).free_ids()
            },
    {
        let ghost old_list = self.free_list@;
        let ghost old_map = self.textures@;
        let removed = self.textures.remove(image);
        match removed {
            Some(id) => {
                self.free_list.push(id);
                proof {
                    assert(old_map.contains_key(*image));
                    assert forall|i: int| 0 <= i < old_list.len() implies #[trigger] old_list[i] != id by {}
                    assert(self.free_list@[old_list.len() as int] == id);
                    assert forall|i: int| 0 <= i < old_list.len() implies #[trigger] self.free_list@[i] == old_list[i] by {}
                }
                Some(egui::TextureId::User(id))
            },
            None => None,
        }
    }

    /// The texture id of a registered image.
    pub fn image_id(&self, image: &ImageKey) -> (r: Option<egui::TextureId>)
        ensures
            r == (if self@.contains_key(*image) {
                Some(egui::TextureId::User(self@[*image]))
            } else {
                None::<egui::TextureId>
            }),
    {
        match self.textures.get(image) {
            Some(id) => Some(egui::TextureId::User(*id)),
            None => None,
        }
    }
}

impl Default for EguiUserTextures {
    fn default() -> (r: EguiUserTextures)
        ensures
            r.wf(),
            r@ == Map::<ImageKey, u64>::empty(),
            r.free_ids() == seq![0u64],
    {
        EguiUserTextures::new()
    }
}

} // verus!
