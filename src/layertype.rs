//! Layer type ids, layer types and the registry that binds ids to them.
use std::collections::HashMap;
use vstd::prelude::*;

verus! {

broadcast use vstd::std_specs::hash::group_hash_axioms;

/// Identifies a kind of layer; unique per layer kind.
pub type LayerTypeID = usize;

/// Ids below this bound are held in the registry's dense table, the others
/// in its overflow map; layer classes use the same bound.
pub const MAX_LAYER_TYPE: usize = 2000;

/// The layer type ids that the core reserves.
#[derive(Debug, Clone, Copy, PartialEq, Eq, Structural)]
pub enum LayerTypes {
    /// Returned by `next_layer_type` to mean "stop decoding".
    LayerTypeZero,
    LayerTypeDecodeFailure,
    LayerTypePayload,
    LayerTypeFragment,
}

impl LayerTypes {
    pub open spec fn spec_id(self) -> LayerTypeID {
        match self {
            LayerTypes::LayerTypeZero => 0,
            LayerTypes::LayerTypeDecodeFailure => 1,
            LayerTypes::LayerTypePayload => 2,
            LayerTypes::LayerTypeFragment => 3,
        }
    }

    /// The numeric id of the reserved layer type.
    pub fn id(self) -> (r: LayerTypeID)
        ensures
            r == self.spec_id(),
    {
        match self {
            LayerTypes::LayerTypeZero => 0,
            LayerTypes::LayerTypeDecodeFailure => 1,
            LayerTypes::LayerTypePayload => 2,
            LayerTypes::LayerTypeFragment => 3,
        }
    }
}

/// The decode functions that the core provides.
#[derive(Debug, Clone, Copy, PartialEq, Eq, Structural)]
pub enum DecodeFunc {
    /// Always fails: the layer type cannot be decoded.
    Unknown,
    /// Decodes all bytes as one application payload layer.
    Payload,
    /// Decodes all bytes as one fragment layer.
    Fragment,
}

/// A kind of layer: its id, its name and the function that decodes it.
/// Two layer types are equal when their ids are.
#[derive(Debug, Clone)]
pub struct LayerType {
    pub id: LayerTypeID,
    /// The name of the layer, as its string form shows it.
    pub name: String,
    /// The decoder to use for the layer type.
    pub decoder: DecodeFunc,
}

impl PartialEq for LayerType {
    fn eq(&self, o: &LayerType) -> (r: bool) {
        self.id == o.id
    }
}

impl vstd::std_specs::cmp::PartialEqSpecImpl for LayerType {
    open spec fn obeys_eq_spec() -> bool {
        true
    }

    open spec fn eq_spec(&self, o: &LayerType) -> bool {
        self.id == o.id
    }
}

impl LayerType {
    /// A layer type with the given fields.
    pub fn new(id: LayerTypeID, name: &str, decoder: DecodeFunc) -> (r: LayerType)
        ensures
            r.id == id,
            r.name@ == name@,
            r.decoder == decoder,
    {
        LayerType { id, name: name.to_owned(), decoder }
    }

    /// A copy of this layer type, field by field.
    pub fn copy(&self) -> (r: LayerType)
        ensures
            r.id == self.id,
            r.name@ == self.name@,
            r.decoder == self.decoder,
    {
        LayerType { id: self.id, name: self.name.clone(), decoder: self.decoder }
    }
}

/// Why the registry refused a request.
#[derive(Debug, Clone, Copy, PartialEq, Eq, Structural)]
pub enum RegistryError {
    /// The requested id is bound already.
    AlreadyRegistered(LayerTypeID),
    /// No layer type is bound to the id.
    UnknownLayerType(LayerTypeID),
}

/// Binds layer type ids to layer types: ids below `MAX_LAYER_TYPE` in a
/// dense table, the others in an overflow map.
pub struct LayerRegistry {
    lt_meta: Vec<Option<LayerType>>,
    lt_meta_map: HashMap<LayerTypeID, LayerType>,
}

/// The key under which `register_layer` files a requested number.
pub open spec fn registry_key(num: isize) -> LayerTypeID {
    num as LayerTypeID
}

impl LayerRegistry {
    pub closed spec fn wf(&self) -> bool {
        self.lt_meta@.len() == MAX_LAYER_TYPE
    }

    /// The layer type bound to `id`, if any.
    pub closed spec fn lookup(&self, id: LayerTypeID) -> Option<LayerType> {
        if id < MAX_LAYER_TYPE {
            self.lt_meta@[id as int]
        } else if self.lt_meta_map@.contains_key(id) {
            Some(self.lt_meta_map@[id])
        } else {
            None
        }
    }

    /// A registry in which the four reserved ids are bound: `Zero` and
    /// `DecodeFailure` to the failing decoder, `Payload` and `Fragment` to
    /// theirs.
    pub fn new() -> (r: Self)
        ensures
            r.wf(),
            forall|id: LayerTypeID| 4 <= id ==> r.lookup(id) is None,
            r.lookup(0) matches Some(t) && t.id == 0 && t.decoder == DecodeFunc::Unknown,
            r.lookup(1) matches Some(t) && t.id == 1 && t.decoder == DecodeFunc::Unknown,
            r.lookup(2) matches Some(t) && t.id == 2 && t.decoder == DecodeFunc::Payload,
            r.lookup(3) matches Some(t) && t.id == 3 && t.decoder == DecodeFunc::Fragment,
    {
        let mut lt_meta: Vec<Option<LayerType>> = Vec::new();
        let mut i: usize = 0;
        while i < MAX_LAYER_TYPE
            invariant
                i <= MAX_LAYER_TYPE,
                lt_meta@.len() == i,
                forall|j: int| 0 <= j < i ==> lt_meta@[j] is None,
            decreases MAX_LAYER_TYPE - i,
        {
            lt_meta.push(None);
            i = i + 1;
        }
        let mut reg = LayerRegistry { lt_meta, lt_meta_map: HashMap::new() };
        reg.override_layer_type(0, &LayerType::new(0, "Unknown", DecodeFunc::Unknown));
        reg.override_layer_type(1, &LayerType::new(1, "DecodeFailure", DecodeFunc::Unknown));
        reg.override_layer_type(2, &LayerType::new(2, "Payload", DecodeFunc::Payload));
        reg.override_layer_type(3, &LayerType::new(3, "DecodeFragment", DecodeFunc::Fragment));
        reg
    }

    /// Binds `meta` to the id `num`; refuses an id that is bound already.
    pub fn register_layer(&mut self, meta: &LayerType, num: isize) -> (r: Result<
        LayerTypeID,
        RegistryError,
    >)
        requires
            old(self).wf(),
        ensures
            final(self).wf(),
            old(self).lookup(registry_key(num)) is Some ==> r == Err::<LayerTypeID, RegistryError>(
                RegistryError::AlreadyRegistered(registry_key(num)),
            ) && final(self).lookup_all_eq(old(self)),
            old(self).lookup(registry_key(num)) is None ==> r == Ok::<LayerTypeID, RegistryError>(
                registry_key(num),
            ) && final(self).binds(old(self), registry_key(num), meta),
    {
        let key = num as LayerTypeID;
        if key < MAX_LAYER_TYPE {
            if self.lt_meta[key].is_some() {
                return Err(RegistryError::AlreadyRegistered(key));
            }
        } else if self.lt_meta_map.contains_key(&key) {
            return Err(RegistryError::AlreadyRegistered(key));
        }
        Ok(self.override_layer_type(num, meta))
    }

    /// Every id is bound in `self` as in `other`.
    pub open spec fn lookup_all_eq(&self, other: &LayerRegistry) -> bool {
        forall|id: LayerTypeID| #[trigger] self.lookup(id) == other.lookup(id)
    }

    /// `self` is `before` with `key` bound to a copy of `meta`.
    pub open spec fn binds(&self, before: &LayerRegistry, key: LayerTypeID, meta: &LayerType) -> bool {
        &&& self.lookup(key) matches Some(t) && t.id == meta.id && t.name@ == meta.name@
            && t.decoder == meta.decoder
        &&& forall|id: LayerTypeID| id != key ==> #[trigger] self.lookup(id) == before.lookup(id)
    }

    fn override_layer_type(&mut self, num: isize, meta: &LayerType) -> (r: LayerTypeID)
        requires
            old(self).wf(),
        ensures
            final(self).wf(),
            r == registry_key(num),
            final(self).binds(old(self), r, meta),
    {
        let key = num as LayerTypeID;
        if key < MAX_LAYER_TYPE {
            self.lt_meta.set(key, Some(meta.copy()));
        } else {
            self.lt_meta_map.insert(key, meta.copy());
        }
        key
    }

    /// The decode function bound to `id`.
    pub fn decoder_for(&self, id: LayerTypeID) -> (r: Result<DecodeFunc, RegistryError>)
        requires
            self.wf(),
        ensures
            self.lookup(id) matches Some(t) ==> r == Ok::<DecodeFunc, RegistryError>(t.decoder),
            self.lookup(id) is None ==> r == Err::<DecodeFunc, RegistryError>(
                RegistryError::UnknownLayerType(id),
            ),
    {
        if id < MAX_LAYER_TYPE {
            match &self.lt_meta[id] {
                Some(t) => Ok(t.decoder),
                None => Err(RegistryError::UnknownLayerType(id)),
            }
        } else {
            match self.lt_meta_map.get(&id) {
                Some(t) => Ok(t.decoder),
                None => Err(RegistryError::UnknownLayerType(id)),
            }
        }
    }
}

} // verus!
