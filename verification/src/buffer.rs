//! The scene's entity storage and its id counter.

use vstd::prelude::*;

use crate::entity::{Entity, EntityError};
use crate::light::Light;

verus! {

/// Owns the scene's entities, at most one light, and the counter that
/// issues entity ids.
pub struct EntityBuffer {
    pub entities: Vec<Entity>,
    pub light: Option<Light>,
    /// The last id issued; ids start at one.
    pub last_id: u32,
}

impl EntityBuffer {
    pub fn new() -> (r: EntityBuffer)
        ensures
            r.entities@.len() == 0,
            r.light is None,
            r.last_id == 0,
    {
        EntityBuffer { entities: Vec::new(), light: None, last_id: 0 }
    }

    /// Issues the next entity id.
    pub fn get_id(&mut self) -> (r: u32)
        requires
            old(self).last_id < u32::MAX,
        ensures
            r == old(self).last_id + 1,
            final(self).last_id == old(self).last_id + 1,
            final(self).entities == old(self).entities,
            final(self).light == old(self).light,
    {
        self.last_id = self.last_id + 1;
        self.last_id
    }

    /// Adds an entity to the scene.
    pub fn add_entity(&mut self, entity: Entity)
        ensures
            final(self).entities@ == old(self).entities@.push(entity),
            final(self).light == old(self).light,
            final(self).last_id == old(self).last_id,
    {
        self.entities.push(entity);
    }

    /// Installs the scene's light, replacing any previous one.
    pub fn add_light(&mut self, light: Light)
        ensures
            final(self).light == Some(light),
            final(self).entities == old(self).entities,
            final(self).last_id == old(self).last_id,
    {
        self.light = Some(light);
    }

    /// The first entity with the given id, if any.
    pub fn get_entity(&self, id: u32) -> (r: Option<&Entity>)
        ensures
            match r {
                Some(e) => exists|i: int|
                    {
                        &&& 0 <= i < self.entities@.len()
                        &&& *e == self.entities@[i]
                        &&& (#[trigger] self.entities@[i]).id == id
                        &&& forall|j: int| 0 <= j < i ==> (#[trigger] self.entities@[j]).id != id
                    },
                None => forall|i: int|
                    0 <= i < self.entities@.len() ==> (#[trigger] self.entities@[i]).id != id,
            },
    {
        match self.find_entity(id) {
            Some(i) => Some(&self.entities[i]),
            None => None,
        }
    }

    /// The position of the first entity with the given id, if any.
    fn find_entity(&self, id: u32) -> (r: Option<usize>)
        ensures
            match r {
                Some(i) => {
                    &&& i < self.entities@.len()
                    &&& self.entities@[i as int].id == id
                    &&& forall|j: int| 0 <= j < i ==> (#[trigger] self.entities@[j]).id != id
                },
                None => forall|i: int|
                    0 <= i < self.entities@.len() ==> (#[trigger] self.entities@[i]).id != id,
            },
    {
        let n = self.entities.len();
        let mut i: usize = 0;
        while i < n
            invariant
                n == self.entities@.len(),
                i <= n,
                forall|j: int| 0 <= j < i ==> (#[trigger] self.entities@[j]).id != id,
            decreases n - i,
        {
            if self.entities[i].get_id() == id {
                return Some(i);
            }
            i = i + 1;
        }
        None
    }

    /// Removes the first entity with the given id; an absent id is the
    /// typed error and alters nothing.
    pub fn remove_entity(&mut self, id: u32) -> (r: Result<(), EntityError>)
        ensures
            match r {
                Ok(()) => exists|i: int|
                    {
                        &&& 0 <= i < old(self).entities@.len()
                        &&& (#[trigger] old(self).entities@[i]).id == id
                        &&& forall|j: int|
                            0 <= j < i ==> (#[trigger] old(self).entities@[j]).id != id
                        &&& final(self).entities@ == old(self).entities@.remove(i)
                    },
                Err(e) => {
                    &&& e == EntityError::EntityNotFound
                    &&& *final(self) == *old(self)
                    &&& forall|i: int|
                        0 <= i < old(self).entities@.len() ==> (#[trigger] old(
                            self,
                        ).entities@[i]).id != id
                },
            },
            final(self).light == old(self).light,
            final(self).last_id == old(self).last_id,
    {
        match self.find_entity(id) {
            Some(i) => {
                self.entities.remove(i);
                Ok(())
            }
            None => Err(EntityError::EntityNotFound),
        }
    }
}

} // verus!
