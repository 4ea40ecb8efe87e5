//! Channel manager: hands out channel identifiers from a pool of ten.
//!
//! Identifier `0x00000000` is never valid and `0xFFFFFFFF` is the broadcast
//! channel, on which a client asks for a channel of its own. The pool holds
//! the identifiers `0x1000` to `0x1009`.

use crate::fido2_internal_error::FIDO2InternalError;
use crate::fido2_parser::FIDO2PacketCommand;
use vstd::prelude::*;

verus! {

/// The identifier that is never valid.
pub const FIDO2_CHANNEL_NULL: u32 = 0x00000000;

/// The broadcast channel.
pub const FIDO2_CHANNEL_BROADCAST: u32 = 0xffffffff;

/// The lowest identifier of the pool.
pub const FIDO2_CHANNEL_FIRST: u32 = 0x00001000;

/// The number of identifiers in the pool.
pub const FIDO2_CHANNEL_COUNT: usize = 10;

/// Whether the identifier belongs to the pool.
pub open spec fn in_pool(id: u32) -> bool {
    FIDO2_CHANNEL_FIRST <= id < FIDO2_CHANNEL_FIRST + FIDO2_CHANNEL_COUNT
}

/// Why a command may not begin on a channel, if it may not.
///
/// The null identifier is reserved, and so is the broadcast channel for
/// every command but INIT. Any other channel has to be allocated.
pub open spec fn admission_error(
    allocated: Set<u32>,
    id: u32,
    command: FIDO2PacketCommand,
) -> Option<FIDO2InternalError> {
    if id == FIDO2_CHANNEL_NULL {
        Some(FIDO2InternalError::ReversedChannelError)
    } else if id == FIDO2_CHANNEL_BROADCAST {
        if command == FIDO2PacketCommand::CtapHIDInit {
            None
        } else {
            Some(FIDO2InternalError::ReversedChannelError)
        }
    } else if allocated.contains(id) {
        None
    } else {
        Some(FIDO2InternalError::UnknownChannelError)
    }
}

/// The lowest identifier of the pool, from `from` on, that is not in
/// `allocated`.
pub open spec fn next_free(allocated: Set<u32>, from: u32) -> Option<u32>
    decreases FIDO2_CHANNEL_FIRST + FIDO2_CHANNEL_COUNT - from,
{
    if from >= FIDO2_CHANNEL_FIRST + FIDO2_CHANNEL_COUNT {
        None
    } else if !allocated.contains(from) {
        Some(from)
    } else {
        next_free(allocated, (from + 1) as u32)
    }
}

/// The lowest identifier of the pool that is not in `allocated`.
pub open spec fn lowest_free(allocated: Set<u32>) -> Option<u32> {
    next_free(allocated, FIDO2_CHANNEL_FIRST)
}

/// `next_free` finds the lowest free identifier from `from` on, and finds
/// none exactly when there is none.
pub proof fn lemma_next_free(allocated: Set<u32>, from: u32)
    requires
        FIDO2_CHANNEL_FIRST <= from <= FIDO2_CHANNEL_FIRST + FIDO2_CHANNEL_COUNT,
    ensures
        match next_free(allocated, from) {
            Some(id) => {
                &&& from <= id
                &&& in_pool(id)
                &&& !allocated.contains(id)
                &&& forall|lower: u32| from <= lower < id ==> allocated.contains(lower)
            },
            None => forall|id: u32| from <= id && in_pool(id) ==> allocated.contains(id),
        },
    decreases FIDO2_CHANNEL_FIRST + FIDO2_CHANNEL_COUNT - from,
{
    if from < FIDO2_CHANNEL_FIRST + FIDO2_CHANNEL_COUNT && allocated.contains(from) {
        lemma_next_free(allocated, (from + 1) as u32);
    }
}

/// The pool is exhausted exactly when all ten identifiers are allocated;
/// otherwise the lowest free one is next.
pub proof fn lemma_lowest_free(allocated: Set<u32>)
    ensures
        match lowest_free(allocated) {
            Some(id) => {
                &&& in_pool(id)
                &&& !allocated.contains(id)
                &&& forall|lower: u32| in_pool(lower) && lower < id ==> allocated.contains(lower)
            },
            None => forall|id: u32| in_pool(id) ==> allocated.contains(id),
        },
{
    lemma_next_free(allocated, FIDO2_CHANNEL_FIRST);
}

/// When every identifier of the pool is allocated, releasing one and
/// allocating again hands out the one that was released.
pub proof fn lemma_release_then_allocate(allocated: Set<u32>, id: u32)
    requires
        forall|other: u32| in_pool(other) ==> allocated.contains(other),
        in_pool(id),
    ensures
        lowest_free(allocated) is None,
        lowest_free(allocated.remove(id)) == Some(id),
{
    lemma_lowest_free(allocated);
    lemma_lowest_free(allocated.remove(id));
}

/// Releasing an identifier below every free one and allocating again hands
/// out the one that was released.
pub proof fn lemma_release_lowest_then_allocate(allocated: Set<u32>, id: u32)
    requires
        in_pool(id),
        forall|lower: u32| in_pool(lower) && lower < id ==> allocated.contains(lower),
    ensures
        lowest_free(allocated.remove(id)) == Some(id),
{
    lemma_lowest_free(allocated.remove(id));
}

/// The allocation state of the pool.
#[derive(Debug, Clone, Copy)]
pub struct FIDO2ChannelManager {
    used: [bool; 10],
}

impl View for FIDO2ChannelManager {
    type V = Set<u32>;

    /// The identifiers that are allocated. All of them belong to the pool.
    closed spec fn view(&self) -> Set<u32> {
        Set::new(|id: u32| in_pool(id) && self.used@[id - FIDO2_CHANNEL_FIRST])
    }
}

impl FIDO2ChannelManager {
    /// Only identifiers of the pool are ever allocated.
    pub proof fn lemma_allocated_in_pool(&self)
        ensures
            forall|id: u32| self@.contains(id) ==> in_pool(id),
            !self@.contains(FIDO2_CHANNEL_NULL),
            !self@.contains(FIDO2_CHANNEL_BROADCAST),
    {
    }

    /// A manager with nothing allocated.
    pub fn new() -> (manager: FIDO2ChannelManager)
        ensures
            manager@ == Set::<u32>::empty(),
    {
        let manager = FIDO2ChannelManager { used: [false; 10] };
        assert(manager@ =~= Set::<u32>::empty());
        manager
    }

    /// Allocates the lowest free identifier of the pool and returns it, or
    /// returns `None`, and changes nothing, when all ten are allocated.
    pub fn allocate(&mut self) -> (r: Option<u32>)
        ensures
            r == lowest_free(old(self)@),
            final(self)@ == match r {
                Some(id) => old(self)@.insert(id),
                None => old(self)@,
            },
    {
        let mut k: usize = 0;
        while k < FIDO2_CHANNEL_COUNT
            invariant
                k <= FIDO2_CHANNEL_COUNT,
                *self == *old(self),
                next_free(self@, (FIDO2_CHANNEL_FIRST + k) as u32) == lowest_free(self@),
            decreases FIDO2_CHANNEL_COUNT - k,
        {
            if !self.used[k] {
                self.used[k] = true;
                let id: u32 = k as u32 + FIDO2_CHANNEL_FIRST;
                assert(self@ =~= old(self)@.insert(id));
                return Some(id);
            }
            assert(self@.contains((FIDO2_CHANNEL_FIRST + k) as u32));
            k += 1;
        }
        None
    }

    /// Frees the identifier if it is allocated; does nothing otherwise, in
    /// particular for an identifier outside the pool.
    pub fn release(&mut self, id: u32)
        ensures
            final(self)@ == old(self)@.remove(id),
    {
        if id >= FIDO2_CHANNEL_FIRST && id - FIDO2_CHANNEL_FIRST < FIDO2_CHANNEL_COUNT as u32 {
            self.used[(id - FIDO2_CHANNEL_FIRST) as usize] = false;
        }
        assert(self@ =~= old(self)@.remove(id));
    }

    /// Whether the identifier is currently allocated. No identifier outside
    /// the pool ever is.
    pub fn channel_exists(&self, id: u32) -> (allocated: bool)
        ensures
            allocated == self@.contains(id),
    {
        if id < FIDO2_CHANNEL_FIRST || id - FIDO2_CHANNEL_FIRST >= FIDO2_CHANNEL_COUNT as u32 {
            false
        } else {
            self.used[(id - FIDO2_CHANNEL_FIRST) as usize]
        }
    }

    /// Checks that a command may begin on a channel, and says why if not:
    /// `ReversedChannelError` on the null identifier and, unless the
    /// command is INIT, on the broadcast channel; `UnknownChannelError` on
    /// any other channel that is not allocated.
    pub fn validate(&self, id: u32, command: FIDO2PacketCommand) -> (r: Result<(), FIDO2InternalError>)
        ensures
            match r {
                Ok(_) => admission_error(self@, id, command) is None,
                Err(e) => admission_error(self@, id, command) == Some(e),
            },
    {
        if id == FIDO2_CHANNEL_NULL {
            return Err(FIDO2InternalError::ReversedChannelError);
        }
        if id == FIDO2_CHANNEL_BROADCAST {
            return match command {
                FIDO2PacketCommand::CtapHIDInit => Ok(()),
                _ => Err(FIDO2InternalError::ReversedChannelError),
            };
        }
        if self.channel_exists(id) {
            Ok(())
        } else {
            Err(FIDO2InternalError::UnknownChannelError)
        }
    }

    /// Whether the identifier is one that the protocol reserves: the null
    /// identifier or the broadcast channel.
    pub fn is_reserved(id: u32) -> (reserved: bool)
        ensures
            reserved == (id == FIDO2_CHANNEL_NULL || id == FIDO2_CHANNEL_BROADCAST),
    {
        id == FIDO2_CHANNEL_NULL || id == FIDO2_CHANNEL_BROADCAST
    }
}

} // verus!
