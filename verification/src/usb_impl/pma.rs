//! The packet memory area: 256 logical slots of 16 bits over wider storage, with
//! bounds-checked reads, writes and bulk writes.

use vstd::prelude::*;

verus! {

/// Number of logical 16-bit slots in the packet memory area.
pub const PMA_SLOTS: usize = 256;

/// Why an access to the packet memory area was turned down.
#[derive(Clone, Copy, Debug, PartialEq, Eq, Structural)]
pub enum PmaError {
    /// The slot, or the end of the range, is not below `PMA_SLOTS`.
    OutOfBounds,
}

/// The logical value a storage cell carries: its low half.
pub open spec fn low_half(cell: u32) -> u16 {
    (cell & 0x0000_ffff) as u16
}

/// The half of a storage cell that carries no data: its high half.
pub open spec fn high_half(cell: u32) -> u16 {
    (cell >> 16) as u16
}

/// The cell after `value` has been stored in it: the low half is replaced,
/// the high half stays.
pub open spec fn merge(cell: u32, value: u16) -> u32 {
    (cell & 0xffff_0000) | (value as u32)
}

/// What every slot of the storage reads as.
pub open spec fn logical(cells: Seq<u32>) -> Seq<u16> {
    Seq::new(cells.len(), |i: int| low_half(cells[i]))
}

/// The storage seen as cells of 16 bits, twice as many as there are slots: the
/// even cells hold the slots, the odd cells between them are reserved.
pub open spec fn gapped(cells: Seq<u32>) -> Seq<u16> {
    Seq::new(
        2 * cells.len(),
        |k: int|
            if k % 2 == 0 {
                low_half(cells[k / 2])
            } else {
                high_half(cells[k / 2])
            },
    )
}

/// The storage after one slot has been written.
pub open spec fn write_slot(cells: Seq<u32>, index: int, value: u16) -> Seq<u32> {
    cells.update(index, merge(cells[index], value))
}

/// The storage after `values` have been written to consecutive slots from `start`.
pub open spec fn write_slots(cells: Seq<u32>, start: int, values: Seq<u16>) -> Seq<u32> {
    Seq::new(
        cells.len(),
        |i: int|
            if start <= i < start + values.len() {
                merge(cells[i], values[i - start])
            } else {
                cells[i]
            },
    )
}

/// The slots after `values` have replaced the run of slots that starts at `start`.
pub open spec fn replaced(slots: Seq<u16>, start: int, values: Seq<u16>) -> Seq<u16> {
    Seq::new(
        slots.len(),
        |i: int|
            if start <= i < start + values.len() {
                values[i - start]
            } else {
                slots[i]
            },
    )
}

/// The storage after the first `count` of `values` have been written one by one,
/// `values[k]` to slot `start + k`.
pub open spec fn write_in_turn(cells: Seq<u32>, start: int, values: Seq<u16>, count: nat) -> Seq<u32>
    decreases count,
{
    if count == 0 {
        cells
    } else {
        write_slot(
            write_in_turn(cells, start, values, (count - 1) as nat),
            start + count - 1,
            values[count - 1],
        )
    }
}

/// Storing a value in a cell makes the cell read as that value and keeps its high half.
pub proof fn lemma_merge(cell: u32, value: u16)
    ensures
        low_half(merge(cell, value)) == value,
        merge(cell, value) & 0xffff_0000 == cell & 0xffff_0000,
{
    assert(((cell & 0xffff_0000) | (value as u32)) & 0x0000_ffff == value as u32) by (bit_vector);
    assert(((cell & 0xffff_0000) | (value as u32)) & 0xffff_0000 == cell & 0xffff_0000)
        by (bit_vector);
}

/// A cell put together from two halves has these halves.
pub proof fn lemma_halves(low: u16, high: u16)
    ensures
        low_half(((high as u32) << 16) | (low as u32)) == low,
        high_half(((high as u32) << 16) | (low as u32)) == high,
{
    assert((((high as u32) << 16) | (low as u32)) & 0x0000_ffff == low as u32) by (bit_vector);
    assert((((high as u32) << 16) | (low as u32)) >> 16 == high as u32) by (bit_vector);
}

/// Seen as cells of 16 bits, a write to slot `index` changes the even cell
/// `2 * index` and no other cell: the reserved cells are never written.
pub proof fn lemma_write_gapped(cells: Seq<u32>, index: int, value: u16)
    requires
        0 <= index < cells.len(),
    ensures
        gapped(write_slot(cells, index, value)) == gapped(cells).update(2 * index, value),
{
    let cell = cells[index];
    lemma_merge(cell, value);
    assert(((cell & 0xffff_0000) | (value as u32)) >> 16 == cell >> 16) by (bit_vector);
    assert(gapped(write_slot(cells, index, value)) =~= gapped(cells).update(2 * index, value));
}

/// A slot that was written reads back as the value written, and every other slot,
/// its two neighbours among them, reads as before.
pub proof fn lemma_write_then_read(cells: Seq<u32>, index: int, value: u16)
    requires
        0 <= index < cells.len(),
    ensures
        logical(write_slot(cells, index, value)) == logical(cells).update(index, value),
        logical(write_slot(cells, index, value))[index] == value,
        forall|j: int|
            0 <= j < cells.len() && j != index ==> logical(write_slot(cells, index, value))[j]
                == logical(cells)[j],
        index + 1 < cells.len() ==> logical(write_slot(cells, index, value))[index + 1]
            == logical(cells)[index + 1],
        index >= 1 ==> logical(write_slot(cells, index, value))[index - 1]
            == logical(cells)[index - 1],
{
    lemma_merge(cells[index], value);
    assert(logical(write_slot(cells, index, value)) =~= logical(cells).update(index, value));
}

/// After a run of values has been written, the slots of the run read as the values
/// and every other slot reads as before.
pub proof fn lemma_write_slots_then_read(cells: Seq<u32>, start: int, values: Seq<u16>)
    requires
        0 <= start,
        start + values.len() <= cells.len(),
    ensures
        logical(write_slots(cells, start, values)) == replaced(logical(cells), start, values),
{
    assert forall|i: int| 0 <= i < cells.len() implies #[trigger] logical(
        write_slots(cells, start, values),
    )[i] == replaced(logical(cells), start, values)[i] by {
        if start <= i < start + values.len() {
            lemma_merge(cells[i], values[i - start]);
        }
    }
    assert(logical(write_slots(cells, start, values)) =~= replaced(logical(cells), start, values));
}

/// Writing a run of values at once leaves the storage as writing them one by one does.
pub proof fn lemma_bulk_is_sequential(cells: Seq<u32>, start: int, values: Seq<u16>)
    requires
        0 <= start,
        start + values.len() <= cells.len(),
    ensures
        write_slots(cells, start, values) == write_in_turn(cells, start, values, values.len()),
{
    lemma_write_in_turn(cells, start, values, values.len());
}

proof fn lemma_write_in_turn(cells: Seq<u32>, start: int, values: Seq<u16>, count: nat)
    requires
        0 <= start,
        start + values.len() <= cells.len(),
        count <= values.len(),
    ensures
        write_in_turn(cells, start, values, count)
            == write_slots(cells, start, values.take(count as int)),
    decreases count,
{
    if count == 0 {
        assert(write_slots(cells, start, values.take(0)) =~= cells);
    } else {
        lemma_write_in_turn(cells, start, values, (count - 1) as nat);
        assert(write_in_turn(cells, start, values, count) =~= write_slots(
            cells,
            start,
            values.take(count as int),
        ));
    }
    if count == values.len() {
        assert(values.take(count as int) =~= values);
    }
}

/// Whether `index` names a slot of the area.
pub fn holds(index: usize) -> (inside: bool)
    ensures
        inside == (index < PMA_SLOTS),
{
    index < PMA_SLOTS
}

/// Whether `count` slots from `start` can be written: the first slot and the slot
/// after the last must both lie inside the area.
pub fn holds_run(start: usize, count: usize) -> (inside: bool)
    ensures
        inside == (start + count < PMA_SLOTS),
{
    start < PMA_SLOTS && count < PMA_SLOTS - start
}

/// Reads the logical value out of a storage cell.
pub fn low_half_of(cell: u32) -> (value: u16)
    ensures
        value == low_half(cell),
{
    let low = cell & 0x0000_ffff;
    assert(low <= 0xffff) by (bit_vector)
        requires
            low == cell & 0x0000_ffff,
    ;
    low as u16
}

/// The cell to store so that it carries `value` and keeps its high half.
pub fn merged(cell: u32, value: u16) -> (stored: u32)
    ensures
        stored == merge(cell, value),
{
    (cell & 0xffff_0000) | value as u32
}

/// The packet memory area: 256 storage cells of 32 bits, each carrying one
/// logical 16-bit slot in its low half. The same storage can be given and taken
/// back as 512 cells of 16 bits, of which the even ones carry the slots.
pub struct PmaMemory {
    fields: [u32; 256],
}

impl View for PmaMemory {
    type V = Seq<u16>;

    /// The 256 logical slots.
    open spec fn view(&self) -> Seq<u16> {
        logical(self.cells())
    }
}

impl PmaMemory {
    /// The 256 storage cells, high halves included.
    pub closed spec fn cells(&self) -> Seq<u32> {
        self.fields@
    }

    /// The storage always has one cell per slot.
    pub proof fn lemma_size(&self)
        ensures
            self.cells().len() == PMA_SLOTS,
            self@.len() == PMA_SLOTS,
    {
    }

    /// A packet memory area over the given storage cells.
    pub fn new(fields: [u32; 256]) -> (mem: PmaMemory)
        ensures
            mem.cells() == fields@,
    {
        PmaMemory { fields }
    }

    /// A packet memory area over storage given as 512 cells of 16 bits, of which
    /// the even ones hold the slots.
    pub fn from_gapped(cells: &[u16; 512]) -> (mem: PmaMemory)
        ensures
            gapped(mem.cells()) == cells@,
            forall|i: int| 0 <= i < PMA_SLOTS ==> mem@[i] == cells@[2 * i],
    {
        let mut fields: [u32; 256] = [0; 256];
        let mut i: usize = 0;
        while i < 256
            invariant
                i <= 256,
                forall|j: int|
                    0 <= j < i ==> low_half(#[trigger] fields@[j]) == cells@[2 * j] && high_half(
                        fields@[j],
                    ) == cells@[2 * j + 1],
            decreases 256 - i,
        {
            let low = cells[2 * i];
            let high = cells[2 * i + 1];
            proof {
                lemma_halves(low, high);
            }
            fields[i] = ((high as u32) << 16) | (low as u32);
            i += 1;
        }
        let mem = PmaMemory { fields };
        assert(gapped(mem.cells()) =~= cells@);
        mem
    }

    /// The storage as 512 cells of 16 bits: slots in the even cells, the reserved
    /// halves in the odd ones.
    pub fn to_gapped(&self) -> (cells: [u16; 512])
        ensures
            cells@ == gapped(self.cells()),
    {
        let mut cells: [u16; 512] = [0; 512];
        let mut i: usize = 0;
        while i < 256
            invariant
                i <= 256,
                forall|k: int| 0 <= k < 2 * i ==> #[trigger] cells@[k] == gapped(self.cells())[k],
            decreases 256 - i,
        {
            let cell = self.fields[i];
            let low = cell & 0x0000_ffff;
            let high = cell >> 16;
            assert(low <= 0xffff && high <= 0xffff) by (bit_vector)
                requires
                    low == cell & 0x0000_ffff,
                    high == cell >> 16,
            ;
            cells[2 * i] = low as u16;
            cells[2 * i + 1] = high as u16;
            i += 1;
        }
        assert(cells@ =~= gapped(self.cells()));
        cells
    }

    /// The storage cells as they stand.
    pub fn fields(&self) -> (fields: &[u32; 256])
        ensures
            fields@ == self.cells(),
    {
        &self.fields
    }

    /// Stores `value` in slot `index`, keeping the high half of the cell.
    /// An index outside the area is turned down and nothing is written.
    pub fn set_memory(&mut self, index: usize, value: u16) -> (res: Result<(), PmaError>)
        ensures
            index < PMA_SLOTS ==> res == Ok::<(), PmaError>(()) && final(self).cells() == write_slot(
                old(self).cells(),
                index as int,
                value,
            ) && final(self)@ == old(self)@.update(index as int, value),
            index >= PMA_SLOTS ==> res == Err::<(), PmaError>(PmaError::OutOfBounds) && *final(self)
                == *old(self),
    {
        if !holds(index) {
            return Err(PmaError::OutOfBounds);
        }
        let previous_value = self.fields[index];
        let new_value = merged(previous_value, value);
        self.fields[index] = new_value;
        proof {
            lemma_write_then_read(old(self).cells(), index as int, value);
            assert(self.cells() =~= write_slot(old(self).cells(), index as int, value));
        }
        Ok(())
    }

    /// Reads slot `index`; an index outside the area is turned down.
    pub fn get_memory(&self, index: usize) -> (res: Result<u16, PmaError>)
        ensures
            index < PMA_SLOTS ==> res == Ok::<u16, PmaError>(self@[index as int]),
            index >= PMA_SLOTS ==> res == Err::<u16, PmaError>(PmaError::OutOfBounds),
    {
        if !holds(index) {
            return Err(PmaError::OutOfBounds);
        }
        Ok(low_half_of(self.fields[index]))
    }

    /// Stores `values` in consecutive slots from `start_index`. The first slot and the
    /// slot after the last must both lie inside the area; otherwise the call is
    /// turned down and nothing is written.
    pub fn set_from_buffer(&mut self, start_index: usize, values: &[u16]) -> (res: Result<
        (),
        PmaError,
    >)
        ensures
            start_index + values@.len() < PMA_SLOTS ==> res == Ok::<(), PmaError>(())
                && final(self).cells() == write_slots(old(self).cells(), start_index as int, values@)
                && final(self)@ == replaced(old(self)@, start_index as int, values@),
            start_index + values@.len() >= PMA_SLOTS ==> res == Err::<(), PmaError>(
                PmaError::OutOfBounds,
            ) && *final(self) == *old(self),
    {
        if !holds_run(start_index, values.len()) {
            return Err(PmaError::OutOfBounds);
        }
        let mut offset: usize = 0;
        while offset < values.len()
            invariant
                offset <= values@.len(),
                start_index + values@.len() < PMA_SLOTS,
                self.cells() == write_in_turn(
                    old(self).cells(),
                    start_index as int,
                    values@,
                    offset as nat,
                ),
            decreases values@.len() - offset,
        {
            let _ = self.set_memory(start_index + offset, values[offset]);
            offset += 1;
        }
        proof {
            lemma_bulk_is_sequential(old(self).cells(), start_index as int, values@);
            lemma_write_slots_then_read(old(self).cells(), start_index as int, values@);
        }
        Ok(())
    }
}

} // verus!
