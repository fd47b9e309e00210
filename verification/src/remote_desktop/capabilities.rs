//! Sets of device capabilities, as a libei client binds them.

use vstd::prelude::*;

verus! {

/// What an emulated input device can do.
#[derive(Debug, Clone, Copy, PartialEq, Eq, Structural)]
pub enum DeviceCapability {
    Pointer,
    PointerAbsolute,
    Keyboard,
    Touch,
    Scroll,
    Button,
    Text,
}

/// A set of device capabilities.
#[derive(Debug, Clone, Copy, PartialEq, Eq, Structural)]
pub struct Capabilities {
    pub pointer: bool,
    pub pointer_absolute: bool,
    pub keyboard: bool,
    pub touch: bool,
    pub scroll: bool,
    pub button: bool,
    pub text: bool,
}

impl Capabilities {
    /// Whether a capability is in the set.
    pub open spec fn has(self, capability: DeviceCapability) -> bool {
        match capability {
            DeviceCapability::Pointer => self.pointer,
            DeviceCapability::PointerAbsolute => self.pointer_absolute,
            DeviceCapability::Keyboard => self.keyboard,
            DeviceCapability::Touch => self.touch,
            DeviceCapability::Scroll => self.scroll,
            DeviceCapability::Button => self.button,
            DeviceCapability::Text => self.text,
        }
    }
}

impl View for Capabilities {
    type V = Set<DeviceCapability>;

    open spec fn view(&self) -> Set<DeviceCapability> {
        Set::new(|capability: DeviceCapability| self.has(capability))
    }
}

/// A set is known by what it contains.
pub proof fn lemma_capabilities_equal(a: Capabilities, b: Capabilities)
    requires
        a@ == b@,
    ensures
        a == b,
{
    assert forall|capability: DeviceCapability| #[trigger]
        a.has(capability) == b.has(capability) by {
        assert(a@.contains(capability) == a.has(capability));
        assert(b@.contains(capability) == b.has(capability));
    }
    assert(a.has(DeviceCapability::Pointer) == b.has(DeviceCapability::Pointer));
    assert(a.has(DeviceCapability::PointerAbsolute) == b.has(DeviceCapability::PointerAbsolute));
    assert(a.has(DeviceCapability::Keyboard) == b.has(DeviceCapability::Keyboard));
    assert(a.has(DeviceCapability::Touch) == b.has(DeviceCapability::Touch));
    assert(a.has(DeviceCapability::Scroll) == b.has(DeviceCapability::Scroll));
    assert(a.has(DeviceCapability::Button) == b.has(DeviceCapability::Button));
    assert(a.has(DeviceCapability::Text) == b.has(DeviceCapability::Text));
}

impl Capabilities {
    /// The set that contains nothing, in contracts.
    pub open spec fn none() -> Capabilities {
        Capabilities {
            pointer: false,
            pointer_absolute: false,
            keyboard: false,
            touch: false,
            scroll: false,
            button: false,
            text: false,
        }
    }

    /// The set that contains nothing.
    pub fn empty() -> (set: Self)
        ensures
            set == Capabilities::none(),
            set@ == Set::<DeviceCapability>::empty(),
    {
        let set = Capabilities {
            pointer: false,
            pointer_absolute: false,
            keyboard: false,
            touch: false,
            scroll: false,
            button: false,
            text: false,
        };
        assert(set@ =~= Set::<DeviceCapability>::empty());
        set
    }

    /// Whether the set contains nothing.
    pub fn is_empty(self) -> (empty: bool)
        ensures
            empty == (self == Capabilities::none()),
            empty == (self@ == Set::<DeviceCapability>::empty()),
    {
        let empty = !self.pointer && !self.pointer_absolute && !self.keyboard && !self.touch
            && !self.scroll && !self.button && !self.text;
        proof {
            if empty {
                assert(self@ =~= Set::<DeviceCapability>::empty());
            } else if self@ == Set::<DeviceCapability>::empty() {
                assert(Capabilities::none()@ =~= Set::<DeviceCapability>::empty());
                lemma_capabilities_equal(self, Capabilities::none());
            }
        }
        empty
    }

    /// Whether a capability is in the set.
    pub fn contains(self, capability: DeviceCapability) -> (found: bool)
        ensures
            found == self.has(capability),
            found == self@.contains(capability),
    {
        match capability {
            DeviceCapability::Pointer => self.pointer,
            DeviceCapability::PointerAbsolute => self.pointer_absolute,
            DeviceCapability::Keyboard => self.keyboard,
            DeviceCapability::Touch => self.touch,
            DeviceCapability::Scroll => self.scroll,
            DeviceCapability::Button => self.button,
            DeviceCapability::Text => self.text,
        }
    }

    /// The set with one capability more.
    pub fn with(self, capability: DeviceCapability) -> (set: Self)
        ensures
            set@ == self@.insert(capability),
    {
        let mut set = self;
        match capability {
            DeviceCapability::Pointer => {
                set.pointer = true;
            },
            DeviceCapability::PointerAbsolute => {
                set.pointer_absolute = true;
            },
            DeviceCapability::Keyboard => {
                set.keyboard = true;
            },
            DeviceCapability::Touch => {
                set.touch = true;
            },
            DeviceCapability::Scroll => {
                set.scroll = true;
            },
            DeviceCapability::Button => {
                set.button = true;
            },
            DeviceCapability::Text => {
                set.text = true;
            },
        }
        assert(set@ =~= self@.insert(capability));
        set
    }

    /// What is in either set, in contracts.
    pub open spec fn or(self, other: Capabilities) -> Capabilities {
        Capabilities {
            pointer: self.pointer || other.pointer,
            pointer_absolute: self.pointer_absolute || other.pointer_absolute,
            keyboard: self.keyboard || other.keyboard,
            touch: self.touch || other.touch,
            scroll: self.scroll || other.scroll,
            button: self.button || other.button,
            text: self.text || other.text,
        }
    }

    /// What is in either set.
    pub fn union(self, other: Self) -> (set: Self)
        ensures
            set == self.or(other),
            set@ == self@.union(other@),
    {
        let set = Capabilities {
            pointer: self.pointer || other.pointer,
            pointer_absolute: self.pointer_absolute || other.pointer_absolute,
            keyboard: self.keyboard || other.keyboard,
            touch: self.touch || other.touch,
            scroll: self.scroll || other.scroll,
            button: self.button || other.button,
            text: self.text || other.text,
        };
        assert(set@ =~= self@.union(other@));
        set
    }

    /// What is in both sets.
    pub fn intersection(self, other: Self) -> (set: Self)
        ensures
            set@ == self@.intersect(other@),
    {
        let set = Capabilities {
            pointer: self.pointer && other.pointer,
            pointer_absolute: self.pointer_absolute && other.pointer_absolute,
            keyboard: self.keyboard && other.keyboard,
            touch: self.touch && other.touch,
            scroll: self.scroll && other.scroll,
            button: self.button && other.button,
            text: self.text && other.text,
        };
        assert(set@ =~= self@.intersect(other@));
        set
    }

    /// What is in this set and not in the other.
    pub fn difference(self, other: Self) -> (set: Self)
        ensures
            set@ == self@.difference(other@),
    {
        let set = Capabilities {
            pointer: self.pointer && !other.pointer,
            pointer_absolute: self.pointer_absolute && !other.pointer_absolute,
            keyboard: self.keyboard && !other.keyboard,
            touch: self.touch && !other.touch,
            scroll: self.scroll && !other.scroll,
            button: self.button && !other.button,
            text: self.text && !other.text,
        };
        assert(set@ =~= self@.difference(other@));
        set
    }

    /// Whether something is in both sets.
    pub fn intersects(self, other: Self) -> (common: bool)
        ensures
            common == !self@.disjoint(other@),
    {
        let common = self.intersection(other);
        let found = !common.is_empty();
        proof {
            if found {
                let capability = choose|capability: DeviceCapability|
                    #[trigger] common@.contains(capability);
                assert(exists|capability: DeviceCapability| #[trigger]
                    common@.contains(capability)) by {
                    if forall|capability: DeviceCapability| !#[trigger] common@.contains(capability) {
                        assert(common@ =~= Set::<DeviceCapability>::empty());
                    }
                }
                assert(self@.contains(capability) && other@.contains(capability));
            } else {
                assert forall|capability: DeviceCapability|
                    #[trigger] self@.contains(capability) implies !other@.contains(capability) by {
                    assert(!common@.contains(capability));
                }
            }
        }
        found
    }
}

} // verus!
