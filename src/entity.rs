use vstd::prelude::*;

verus! {

/// Identifies one entity: the dataset it belongs to, its type and its id.
#[derive(Clone, Debug)]
pub struct StoreKey {
    pub subgraph: String,
    pub entity: String,
    pub id: String,
}

impl StoreKey {
    pub fn new(subgraph: String, entity: String, id: String) -> (r: StoreKey)
        ensures
            r.subgraph == subgraph,
            r.entity == entity,
            r.id == id,
    {
        StoreKey { subgraph, entity, id }
    }
}

/// The value of one attribute of an entity.
#[derive(Debug)]
pub enum Value {
    String(String),
    Int(i64),
    Bool(bool),
    Bytes(Vec<u8>),
    Reference(StoreKey),
    List(Vec<Value>),
}

/// A record of named attribute values; the order of the attributes carries
/// no meaning, and each name occurs at most once.
#[derive(Debug)]
pub struct Entity {
    attributes: Vec<(String, Value)>,
}

impl Entity {
    /// No attribute name occurs twice.
    #[verifier::type_invariant]
    spec fn wf(&self) -> bool {
        forall|i: int, j: int|
            0 <= i < j < self.attributes@.len() ==> #[trigger] self.attributes@[i].0@
                != #[trigger] self.attributes@[j].0@
    }

    pub closed spec fn has_attribute(&self, name: Seq<char>) -> bool {
        exists|i: int| 0 <= i < self.attributes@.len() && #[trigger] self.attributes@[i].0@ == name
    }

    /// The value stored under `name`, if any.
    pub closed spec fn attribute(&self, name: Seq<char>) -> Option<Value> {
        if self.has_attribute(name) {
            let i = choose|i: int|
                0 <= i < self.attributes@.len() && #[trigger] self.attributes@[i].0@ == name;
            Some(self.attributes@[i].1)
        } else {
            None
        }
    }

    /// The number of attributes.
    pub closed spec fn size(&self) -> nat {
        self.attributes@.len()
    }

    pub fn new() -> (r: Entity)
        ensures
            r.size() == 0,
            forall|name: Seq<char>| r.attribute(name) is None,
    {
        Entity { attributes: Vec::new() }
    }

    /// The number of attributes.
    pub fn len(&self) -> (r: usize)
        ensures
            r == self.size(),
    {
        self.attributes.len()
    }

    fn position(&self, name: &String) -> (r: Option<usize>)
        ensures
            r is None <==> !self.has_attribute(name@),
            r is Some ==> r->Some_0 < self.attributes@.len() && self.attributes@[r->Some_0 as int].0@
                == name@,
    {
        let mut i: usize = 0;
        while i < self.attributes.len()
            invariant
                i <= self.attributes@.len(),
                forall|j: int| 0 <= j < i ==> #[trigger] self.attributes@[j].0@ != name@,
            decreases self.attributes@.len() - i,
        {
            if self.attributes[i].0 == *name {
                return Some(i);
            }
            i = i + 1;
        }
        None
    }

    /// The value stored under `name`, if any.
    pub fn get(&self, name: &String) -> (r: Option<&Value>)
        ensures
            r is None <==> self.attribute(name@) is None,
            r is Some ==> self.attribute(name@) == Some(*r->Some_0),
    {
        proof {
            use_type_invariant(self);
        }
        match self.position(name) {
            Some(i) => Some(&self.attributes[i].1),
            None => None,
        }
    }

    /// Stores `value` under `name`, in place of any earlier value of that name.
    pub fn set(&mut self, name: String, value: Value)
        ensures
            final(self).attribute(name@) == Some(value),
            forall|other: Seq<char>|
                other != name@ ==> #[trigger] final(self).attribute(other) == old(self).attribute(
                    other,
                ),
    {
        proof {
            use_type_invariant(&*self);
        }
        let ghost old_self = *self;
        let ghost key = name@;
        let found = self.position(&name);
        let mut taken = Entity::new();
        std::mem::swap(self, &mut taken);
        let Entity { attributes: mut attributes } = taken;
        assert(attributes@ == old_self.attributes@);
        match found {
            Some(i) => {
                attributes.set(i, (name, value));
            },
            None => {
                attributes.push((name, value));
            },
        }
        let ghost slot: int = match found {
            Some(i) => i as int,
            None => old_self.attributes@.len() as int,
        };
        assert(attributes@[slot].0@ == key);
        let updated = Entity { attributes };
        assert forall|other: Seq<char>| other != key implies #[trigger] updated.attribute(other)
            == old_self.attribute(other) by {
            if old_self.has_attribute(other) {
                let j = choose|j: int|
                    0 <= j < old_self.attributes@.len() && #[trigger] old_self.attributes@[j].0@
                        == other;
                assert(updated.attributes@[j].0@ == other);
            }
            if updated.has_attribute(other) {
                let j = choose|j: int|
                    0 <= j < updated.attributes@.len() && #[trigger] updated.attributes@[j].0@
                        == other;
                assert(old_self.attributes@[j].0@ == other);
            }
        }
        *self = updated;
    }
}

/// Events emitted by a runtime host.
#[derive(Debug)]
pub enum RuntimeHostEvent {
    /// An entity should be created or fully overwritten.
    EntitySet(StoreKey, Entity),
    /// An entity should be removed.
    EntityRemoved(StoreKey),
}

impl RuntimeHostEvent {
    /// The key of the entity that the event is about.
    pub fn key(&self) -> (r: &StoreKey)
        ensures
            r == match self {
                RuntimeHostEvent::EntitySet(k, _) => k,
                RuntimeHostEvent::EntityRemoved(k) => k,
            },
    {
        match self {
            RuntimeHostEvent::EntitySet(k, _) => k,
            RuntimeHostEvent::EntityRemoved(k) => k,
        }
    }
}

} // verus!
