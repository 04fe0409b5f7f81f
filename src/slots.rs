use crate::error::{error_of, A2DError, ErrorKind};
use vstd::prelude::*;

verus! {

/// The number of sprite sheet slots and of sprite batch slots.
pub const SLOT_LIMIT: usize = 16;

/// The id of a sprite sheet slot, always below `SLOT_LIMIT`.
#[derive(Clone, Copy, Debug, PartialEq, Eq, Hash)]
pub struct SpriteSheetId(u16);

impl SpriteSheetId {
    #[verifier::type_invariant]
    spec fn inv(self) -> bool {
        (self.0 as int) < SLOT_LIMIT
    }

    pub closed spec fn id_spec(&self) -> u16 {
        self.0
    }

    /// The id `id`; a `Config` error when it is not below `SLOT_LIMIT`.
    pub fn new(id: u16) -> (r: Result<SpriteSheetId, A2DError>)
        ensures
            r is Ok <==> (id as int) < SLOT_LIMIT,
            r is Ok ==> r->Ok_0.id_spec() == id,
            r is Err ==> r->Err_0.kind_spec() == ErrorKind::Config,
    {
        if id as usize >= SLOT_LIMIT {
            Err(error_of(ErrorKind::Config, "invalid sprite sheet id"))
        } else {
            Ok(SpriteSheetId(id))
        }
    }

    pub fn get(&self) -> (r: u16)
        ensures
            r == self.id_spec(),
            (r as int) < SLOT_LIMIT,
    {
        proof {
            use_type_invariant(self);
        }
        self.0
    }
}

/// The id of a sprite batch slot, always below `SLOT_LIMIT`.
#[derive(Clone, Copy, Debug, PartialEq, Eq, Hash)]
pub struct SpriteBatchId(u16);

impl SpriteBatchId {
    #[verifier::type_invariant]
    spec fn inv(self) -> bool {
        (self.0 as int) < SLOT_LIMIT
    }

    pub closed spec fn id_spec(&self) -> u16 {
        self.0
    }

    /// The id `id`; a `Config` error when it is not below `SLOT_LIMIT`.
    pub fn new(id: u16) -> (r: Result<SpriteBatchId, A2DError>)
        ensures
            r is Ok <==> (id as int) < SLOT_LIMIT,
            r is Ok ==> r->Ok_0.id_spec() == id,
            r is Err ==> r->Err_0.kind_spec() == ErrorKind::Config,
    {
        if id as usize >= SLOT_LIMIT {
            Err(error_of(ErrorKind::Config, "invalid sprite batch id"))
        } else {
            Ok(SpriteBatchId(id))
        }
    }

    pub fn get(&self) -> (r: u16)
        ensures
            r == self.id_spec(),
            (r as int) < SLOT_LIMIT,
    {
        proof {
            use_type_invariant(self);
        }
        self.0
    }
}

/// What to put in a batch slot.
#[derive(Clone, Copy, Debug)]
pub enum SpriteBatchDesc {
    /// Empty the slot.
    Clear,
    /// A new, empty batch drawing from the sheet in the given slot.
    Sheet(SpriteSheetId),
}

impl SpriteBatchDesc {
    /// `None` clears the slot; `Some(i)` names sheet slot `i`, which must be
    /// a valid id.
    pub fn from_slot(slot: Option<u16>) -> (r: Result<SpriteBatchDesc, A2DError>)
        ensures
            slot is None ==> r matches Ok(SpriteBatchDesc::Clear),
            slot is Some ==> (r is Ok <==> (slot->0 as int) < SLOT_LIMIT),
            r matches Ok(SpriteBatchDesc::Sheet(id)) ==> slot == Some(id.id_spec()),
            r is Err ==> r->Err_0.kind_spec() == ErrorKind::Config,
    {
        match slot {
            None => Ok(SpriteBatchDesc::Clear),
            Some(i) => match SpriteSheetId::new(i) {
                Ok(id) => Ok(SpriteBatchDesc::Sheet(id)),
                Err(e) => Err(e),
            },
        }
    }
}

} // verus!
