//! The registry of parameter areas: regions that the image declares ahead and
//! that later directives fill with values known only at load time.

use crate::bytes::{write_at, write_into};
use crate::error::{Error, Failure, Violation};
use std::collections::HashMap;
use vstd::pervasive::unreached;
use vstd::prelude::*;

verus! {

/// A reference to a place in a parameter area.
#[derive(Debug, Clone, Copy, PartialEq, Eq, Structural)]
pub struct Parameter {
    /// The index of the parameter area.
    pub parameter_area_index: u32,
    /// The offset in the area at which the parameter is deposited.
    pub byte_offset: u32,
}

/// The state of one parameter area.
#[derive(Debug, Clone, PartialEq, Eq)]
pub enum ParameterAreaState {
    /// The area has been declared; `data` is what was written to it so far.
    Allocated { data: Vec<u8>, max_size: u64 },
    /// The area has been inserted into the guest and cannot be used again.
    Inserted,
}

/// What a parameter area is, as a value.
pub enum AreaModel {
    Allocated { data: Seq<u8>, max_size: u64 },
    Inserted,
}

impl View for ParameterAreaState {
    type V = AreaModel;

    open spec fn view(&self) -> AreaModel {
        match self {
            ParameterAreaState::Allocated { data, max_size } => AreaModel::Allocated {
                data: data@,
                max_size: *max_size,
            },
            ParameterAreaState::Inserted => AreaModel::Inserted,
        }
    }
}

/// The registry after `declare`, or why the declaration is refused.
pub open spec fn declared(
    areas: Map<u32, AreaModel>,
    index: u32,
    max_size: u64,
    initial: Seq<u8>,
) -> Result<Map<u32, AreaModel>, Violation> {
    if areas.contains_key(index) {
        Err(Violation::DuplicateParameterArea)
    } else {
        Ok(areas.insert(index, AreaModel::Allocated { data: initial, max_size }))
    }
}

/// Whether a write of `len` bytes at `offset` stays within `max_size` bytes
/// and within what a buffer can hold on this machine.
pub open spec fn fits(offset: u32, len: nat, max_size: u64) -> bool {
    offset + len <= max_size && offset + len <= usize::MAX
}

/// The registry after `fill`, or why the fill is refused.
pub open spec fn filled(areas: Map<u32, AreaModel>, index: u32, offset: u32, bytes: Seq<u8>) -> Result<
    Map<u32, AreaModel>,
    Failure,
> {
    if !areas.contains_key(index) {
        Err(Failure::Fatal(Violation::UnknownParameterArea))
    } else {
        match areas[index] {
            AreaModel::Inserted => Err(Failure::Fatal(Violation::ParameterAreaInserted)),
            AreaModel::Allocated { data, max_size } => if fits(offset, bytes.len(), max_size) {
                Ok(
                    areas.insert(
                        index,
                        AreaModel::Allocated {
                            data: write_at(data, offset as nat, bytes),
                            max_size,
                        },
                    ),
                )
            } else {
                Err(Failure::Error(Error::ParameterTooLarge))
            },
        }
    }
}

/// The registry after `take_for_insert` with the buffer and the size of the
/// area that was taken, or why the insertion is refused.
pub open spec fn taken(areas: Map<u32, AreaModel>, index: u32) -> Result<
    (Map<u32, AreaModel>, Seq<u8>, u64),
    Violation,
> {
    if !areas.contains_key(index) {
        Err(Violation::UnknownParameterArea)
    } else {
        match areas[index] {
            AreaModel::Inserted => Err(Violation::ParameterAreaInserted),
            AreaModel::Allocated { data, max_size } => Ok(
                (areas.insert(index, AreaModel::Inserted), data, max_size),
            ),
        }
    }
}

/// The parameter areas of one image, by index.
pub struct ParameterAreas {
    areas: HashMap<u32, ParameterAreaState>,
}

impl View for ParameterAreas {
    type V = Map<u32, AreaModel>;

    closed spec fn view(&self) -> Map<u32, AreaModel> {
        self.areas@.map_values(|state: ParameterAreaState| state@)
    }
}

impl ParameterAreas {
    /// A registry without any area.
    pub fn new() -> (registry: Self)
        ensures
            registry@ == Map::<u32, AreaModel>::empty(),
    {
        let registry = ParameterAreas { areas: HashMap::new() };
        assert(registry@ =~= Map::<u32, AreaModel>::empty());
        registry
    }

    /// The state of the area `index`, if it was declared.
    pub fn state(&self, index: u32) -> (state: Option<&ParameterAreaState>)
        ensures
            match state {
                Some(state) => self@.contains_key(index) && self@[index] == state@,
                None => !self@.contains_key(index),
            },
    {
        self.areas.get(&index)
    }

    /// Declares the area `index` of at most `max_size` bytes, which starts out
    /// holding `initial`. An index can be declared once only.
    pub fn declare(&mut self, index: u32, max_size: u64, initial: Vec<u8>) -> (result: Result<
        (),
        Violation,
    >)
        ensures
            match result {
                Ok(()) => declared(old(self)@, index, max_size, initial@) == Ok::<
                    Map<u32, AreaModel>,
                    Violation,
                >(final(self)@),
                Err(violation) => declared(old(self)@, index, max_size, initial@) == Err::<
                    Map<u32, AreaModel>,
                    Violation,
                >(violation) && final(self)@ == old(self)@,
            },
    {
        if self.areas.contains_key(&index) {
            return Err(Violation::DuplicateParameterArea);
        }
        let state = ParameterAreaState::Allocated { data: initial, max_size };
        self.areas.insert(index, state);
        assert(self@ =~= old(self)@.insert(
            index,
            AreaModel::Allocated { data: initial@, max_size },
        ));
        Ok(())
    }

    /// Writes `bytes` at `byte_offset` into the area `index`. The area grows,
    /// filled with zeros, as far as the write reaches, but never beyond its
    /// declared size: a write that would is refused as too large.
    pub fn fill(&mut self, index: u32, byte_offset: u32, bytes: &[u8]) -> (result: Result<
        (),
        Failure,
    >)
        ensures
            match result {
                Ok(()) => filled(old(self)@, index, byte_offset, bytes@) == Ok::<
                    Map<u32, AreaModel>,
                    Failure,
                >(final(self)@),
                Err(failure) => filled(old(self)@, index, byte_offset, bytes@) == Err::<
                    Map<u32, AreaModel>,
                    Failure,
                >(failure) && final(self)@ == old(self)@,
            },
    {
        match self.areas.get(&index) {
            None => {
                return Err(Failure::Fatal(Violation::UnknownParameterArea));
            },
            Some(ParameterAreaState::Inserted) => {
                return Err(Failure::Fatal(Violation::ParameterAreaInserted));
            },
            Some(ParameterAreaState::Allocated { data, max_size }) => {
                let end: u128 = byte_offset as u128 + bytes.len() as u128;
                if end > *max_size as u128 || end > usize::MAX as u128 {
                    return Err(Failure::Error(Error::ParameterTooLarge));
                }
            },
        }
        match self.areas.remove(&index) {
            Some(ParameterAreaState::Allocated { data, max_size }) => {
                let mut data = data;
                write_into(&mut data, byte_offset as usize, bytes);
                self.areas.insert(index, ParameterAreaState::Allocated { data, max_size });
                assert(self@ =~= old(self)@.insert(
                    index,
                    AreaModel::Allocated {
                        data: write_at(old(self)@[index]->data, byte_offset as nat, bytes@),
                        max_size,
                    },
                ));
                Ok(())
            },
            _ => unreached(),
        }
    }

    /// Takes the area `index` out for insertion into the guest: hands out its
    /// buffer and its declared size, and leaves the area unusable.
    pub fn take_for_insert(&mut self, index: u32) -> (result: Result<(Vec<u8>, u64), Violation>)
        ensures
            match result {
                Ok((data, max_size)) => taken(old(self)@, index) == Ok::<
                    (Map<u32, AreaModel>, Seq<u8>, u64),
                    Violation,
                >((final(self)@, data@, max_size)),
                Err(violation) => taken(old(self)@, index) == Err::<
                    (Map<u32, AreaModel>, Seq<u8>, u64),
                    Violation,
                >(violation) && final(self)@ == old(self)@,
            },
    {
        match self.areas.get(&index) {
            None => {
                return Err(Violation::UnknownParameterArea);
            },
            Some(ParameterAreaState::Inserted) => {
                return Err(Violation::ParameterAreaInserted);
            },
            Some(ParameterAreaState::Allocated { .. }) => {},
        }
        match self.areas.insert(index, ParameterAreaState::Inserted) {
            Some(ParameterAreaState::Allocated { data, max_size }) => {
                assert(self@ =~= old(self)@.insert(index, AreaModel::Inserted));
                Ok((data, max_size))
            },
            _ => unreached(),
        }
    }
}

/// One write into a parameter area.
pub struct Write {
    pub offset: u32,
    pub bytes: Seq<u8>,
}

impl Write {
    /// Whether the write reaches the byte at `position`.
    pub open spec fn covers(self, position: int) -> bool {
        self.offset <= position < self.offset + self.bytes.len()
    }
}

/// The registry after the area `index` has been filled with each of `writes`,
/// one after the other, or the failure of the first of them that fails.
pub open spec fn filled_all(areas: Map<u32, AreaModel>, index: u32, writes: Seq<Write>) -> Result<
    Map<u32, AreaModel>,
    Failure,
>
    decreases writes.len(),
{
    if writes.len() == 0 {
        Ok(areas)
    } else {
        match filled_all(areas, index, writes.drop_last()) {
            Ok(before) => filled(before, index, writes.last().offset, writes.last().bytes),
            Err(failure) => Err(failure),
        }
    }
}

/// Whether the area `index` is declared and not yet inserted.
pub open spec fn allocated(areas: Map<u32, AreaModel>, index: u32) -> bool {
    areas.contains_key(index) && areas[index] is Allocated
}

/// What the area `index` holds.
pub open spec fn buffer(areas: Map<u32, AreaModel>, index: u32) -> Seq<u8>
    recommends
        allocated(areas, index),
{
    areas[index]->data
}

/// The declared size of the area `index`.
pub open spec fn size(areas: Map<u32, AreaModel>, index: u32) -> u64
    recommends
        allocated(areas, index),
{
    areas[index]->max_size
}

/// Whether each of `writes` fits into `max_size` bytes.
pub open spec fn all_fit(writes: Seq<Write>, max_size: u64) -> bool {
    forall|j: int|
        0 <= j < writes.len() ==> fits((#[trigger] writes[j]).offset, writes[j].bytes.len(), max_size)
}

/// Fills that fit all succeed: the area stays allocated with its size, and
/// its buffer neither shrinks nor grows beyond that size.
pub proof fn lemma_fills_succeed(areas: Map<u32, AreaModel>, index: u32, writes: Seq<Write>)
    requires
        allocated(areas, index),
        buffer(areas, index).len() <= size(areas, index),
        all_fit(writes, size(areas, index)),
    ensures
        filled_all(areas, index, writes) is Ok,
        ({
            let after = filled_all(areas, index, writes)->Ok_0;
            &&& allocated(after, index)
            &&& size(after, index) == size(areas, index)
            &&& buffer(areas, index).len() <= buffer(after, index).len() <= size(areas, index)
        }),
    decreases writes.len(),
{
    if writes.len() > 0 {
        lemma_fills_succeed(areas, index, writes.drop_last());
        assert(fits(writes.last().offset, writes.last().bytes.len(), size(areas, index)));
    }
}

/// After any fills that fit, the area holds at each place what the last write
/// that reached the place wrote there, and its buffer does not exceed the
/// area's size.
///
/// Here `writes[k]` is the last write that covers the byte `i` of its own
/// range: no later write covers that place.
pub proof fn lemma_fills_keep_last_write(
    areas: Map<u32, AreaModel>,
    index: u32,
    writes: Seq<Write>,
    k: int,
    i: int,
)
    requires
        allocated(areas, index),
        buffer(areas, index).len() <= size(areas, index),
        all_fit(writes, size(areas, index)),
        0 <= k < writes.len(),
        0 <= i < writes[k].bytes.len(),
        forall|j: int| k < j < writes.len() ==> !(#[trigger] writes[j]).covers(writes[k].offset + i),
    ensures
        filled_all(areas, index, writes) is Ok,
        ({
            let after = filled_all(areas, index, writes)->Ok_0;
            &&& allocated(after, index)
            &&& buffer(after, index).len() <= size(areas, index)
            &&& writes[k].offset + i < buffer(after, index).len()
            &&& buffer(after, index)[writes[k].offset + i] == writes[k].bytes[i]
        }),
    decreases writes.len(),
{
    let before = writes.drop_last();
    lemma_fills_succeed(areas, index, before);
    lemma_fills_succeed(areas, index, writes);
    assert(fits(writes.last().offset, writes.last().bytes.len(), size(areas, index)));
    if k < writes.len() - 1 {
        assert(before[k] == writes[k]);
        assert forall|j: int| k < j < before.len() implies !(#[trigger] before[j]).covers(
            writes[k].offset + i,
        ) by {
            assert(before[j] == writes[j]);
        }
        lemma_fills_keep_last_write(areas, index, before, k, i);
        assert(!writes.last().covers(writes[k].offset + i));
    }
}

/// A place that no write reaches keeps the byte that the area held before, or
/// holds zero where the area has grown over it.
pub proof fn lemma_fills_keep_the_rest(
    areas: Map<u32, AreaModel>,
    index: u32,
    writes: Seq<Write>,
    position: int,
)
    requires
        allocated(areas, index),
        buffer(areas, index).len() <= size(areas, index),
        all_fit(writes, size(areas, index)),
        forall|j: int| 0 <= j < writes.len() ==> !(#[trigger] writes[j]).covers(position),
        0 <= position,
    ensures
        filled_all(areas, index, writes) is Ok,
        ({
            let after = filled_all(areas, index, writes)->Ok_0;
            &&& allocated(after, index)
            &&& position < buffer(after, index).len() ==> buffer(after, index)[position] == (if position
                < buffer(areas, index).len() {
                buffer(areas, index)[position]
            } else {
                0u8
            })
        }),
    decreases writes.len(),
{
    lemma_fills_succeed(areas, index, writes);
    if writes.len() > 0 {
        let before = writes.drop_last();
        lemma_fills_succeed(areas, index, before);
        assert forall|j: int| 0 <= j < before.len() implies !(#[trigger] before[j]).covers(
            position,
        ) by {
            assert(before[j] == writes[j]);
        }
        lemma_fills_keep_the_rest(areas, index, before, position);
        assert(!writes.last().covers(position));
        assert(fits(writes.last().offset, writes.last().bytes.len(), size(areas, index)));
    }
}

/// A fill that would reach beyond the area's size is refused as too large,
/// whatever the area holds.
pub proof fn lemma_oversized_fill_is_refused(
    areas: Map<u32, AreaModel>,
    index: u32,
    offset: u32,
    bytes: Seq<u8>,
)
    requires
        allocated(areas, index),
        offset + bytes.len() > size(areas, index),
    ensures
        filled(areas, index, offset, bytes) == Err::<Map<u32, AreaModel>, Failure>(
            Failure::Error(Error::ParameterTooLarge),
        ),
{
}

/// Once an area is taken for insertion it is of no further use: to take it
/// again, to fill it and to declare it again are violations.
pub proof fn lemma_inserted_area_is_spent(
    areas: Map<u32, AreaModel>,
    index: u32,
    offset: u32,
    bytes: Seq<u8>,
    max_size: u64,
)
    requires
        taken(areas, index) is Ok,
    ensures
        ({
            let after = taken(areas, index)->Ok_0.0;
            &&& taken(after, index) == Err::<(Map<u32, AreaModel>, Seq<u8>, u64), Violation>(
                Violation::ParameterAreaInserted,
            )
            &&& filled(after, index, offset, bytes) == Err::<Map<u32, AreaModel>, Failure>(
                Failure::Fatal(Violation::ParameterAreaInserted),
            )
            &&& declared(after, index, max_size, bytes) == Err::<Map<u32, AreaModel>, Violation>(
                Violation::DuplicateParameterArea,
            )
        }),
{
}

} // verus!
