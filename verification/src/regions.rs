//! The fixed offset table of the flat sequence and the extraction of its
//! regions. Every region has a published start and length; a sequence shorter
//! than `start + length` makes that region unextractable, which is a fatal
//! error naming the region — never a silent truncation.

use vstd::prelude::*;

use crate::loadout::{get_loadout, loadout_matches, Loadout};
use crate::slots::{inv_slot_of, single_of, to_inventory_slot, to_single_slot, InventorySlot,
    ItemSlot, SingleItemSlot};

verus! {

/// The named windows of the flat slot sequence. The coin window overlaps the
/// final main-bag cell at index 49 by published design, and the three stash
/// windows span 50 slots of which only the first four rows are retained.
#[derive(Clone, Copy, Debug, PartialEq, Eq, Structural)]
pub enum Region {
    MainBag,
    Coins,
    Ammo,
    Loadout1,
    Pet,
    LightPet,
    Minecart,
    Mount,
    Hook,
    PiggyBank,
    Safe,
    DefendersForge,
    Loadout2,
    Loadout3,
}

/// A required scalar column of the source row.
#[derive(Clone, Copy, Debug, PartialEq, Eq, Structural)]
pub enum RequiredField {
    Name,
    Life,
    MaxLife,
    Mana,
    MaxMana,
}

/// A structural failure of the assembly: the flat sequence is too short for a
/// region, or a required scalar is absent. Both are fatal for the player and
/// always surfaced; token-level failures never reach this type.
#[derive(Clone, Copy, Debug, PartialEq, Eq, Structural)]
pub enum AssembleError {
    RegionOutOfRange(Region),
    MissingRequiredField(RequiredField),
}

/// The published start offset of each region.
pub open spec fn region_start(r: Region) -> int {
    match r {
        Region::MainBag => 0,
        Region::Coins => 49,
        Region::Ammo => 54,
        Region::Loadout1 => 59,
        Region::Pet => 89,
        Region::LightPet => 90,
        Region::Minecart => 91,
        Region::Mount => 92,
        Region::Hook => 93,
        Region::PiggyBank => 99,
        Region::Safe => 139,
        Region::DefendersForge => 199,
        Region::Loadout2 => 290,
        Region::Loadout3 => 320,
    }
}

/// The published length of each region in the flat sequence.
pub open spec fn region_len(r: Region) -> int {
    match r {
        Region::MainBag => 50,
        Region::Coins => 4,
        Region::Ammo => 4,
        Region::Loadout1 => 20,
        Region::Pet => 1,
        Region::LightPet => 1,
        Region::Minecart => 1,
        Region::Mount => 1,
        Region::Hook => 1,
        Region::PiggyBank => 50,
        Region::Safe => 50,
        Region::DefendersForge => 50,
        Region::Loadout2 => 20,
        Region::Loadout3 => 20,
    }
}

/// The first index past a region: a flat sequence of fewer elements cannot
/// supply it.
pub open spec fn region_end(r: Region) -> int {
    region_start(r) + region_len(r)
}

/// The start and length of `r`, as `region_start` and `region_len` say.
pub fn region_bounds(r: Region) -> (b: (usize, usize))
    ensures
        b.0 == region_start(r),
        b.1 == region_len(r),
{
    match r {
        Region::MainBag => (0, 50),
        Region::Coins => (49, 4),
        Region::Ammo => (54, 4),
        Region::Loadout1 => (59, 20),
        Region::Pet => (89, 1),
        Region::LightPet => (90, 1),
        Region::Minecart => (91, 1),
        Region::Mount => (92, 1),
        Region::Hook => (93, 1),
        Region::PiggyBank => (99, 50),
        Region::Safe => (139, 50),
        Region::DefendersForge => (199, 50),
        Region::Loadout2 => (290, 20),
        Region::Loadout3 => (320, 20),
    }
}

/// A row-major grid of plain stash slots drawn from the window at `start`.
pub open spec fn item_grid_matches(
    g: Vec<Vec<Option<ItemSlot>>>,
    d: Seq<Option<ItemSlot>>,
    start: int,
    rows: int,
) -> bool {
    &&& g@.len() == rows
    &&& forall|r: int| 0 <= r < rows ==> (#[trigger] g@[r])@.len() == 10
    &&& forall|r: int, c: int|
        0 <= r < rows && 0 <= c < 10 ==> #[trigger] g@[r]@[c] == d[start + r * 10 + c]
}

/// A row-major grid of carried slots drawn from the window at `start`.
pub open spec fn inv_grid_matches(
    g: Vec<Vec<Option<InventorySlot>>>,
    d: Seq<Option<ItemSlot>>,
    start: int,
    rows: int,
) -> bool {
    &&& g@.len() == rows
    &&& forall|r: int| 0 <= r < rows ==> (#[trigger] g@[r])@.len() == 10
    &&& forall|r: int, c: int|
        0 <= r < rows && 0 <= c < 10 ==> #[trigger] g@[r]@[c] == inv_slot_of(d[start + r * 10 + c])
}

/// A single row of carried slots drawn from the window at `start`.
pub open spec fn inv_row_matches(
    v: Vec<Option<InventorySlot>>,
    d: Seq<Option<ItemSlot>>,
    start: int,
    len: int,
) -> bool {
    &&& v@.len() == len
    &&& forall|k: int| 0 <= k < len ==> #[trigger] v@[k] == inv_slot_of(d[start + k])
}

fn chunk_item_rows(flat: &Vec<Option<ItemSlot>>, start: usize, rows: usize) -> (g: Vec<
    Vec<Option<ItemSlot>>,
>)
    requires
        start + rows * 10 <= flat@.len(),
    ensures
        item_grid_matches(g, flat@, start as int, rows as int),
{
    let n = flat.len();
    let mut g: Vec<Vec<Option<ItemSlot>>> = Vec::new();
    let mut r: usize = 0;
    while r < rows
        invariant
            r <= rows,
            n == flat@.len(),
            start + rows * 10 <= flat@.len(),
            g@.len() == r,
            forall|i: int| 0 <= i < r ==> (#[trigger] g@[i])@.len() == 10,
            forall|i: int, c: int|
                0 <= i < r && 0 <= c < 10 ==> #[trigger] g@[i]@[c] == flat@[start + i * 10 + c],
        decreases rows - r,
    {
        let mut row: Vec<Option<ItemSlot>> = Vec::new();
        let mut c: usize = 0;
        while c < 10
            invariant
                c <= 10,
                r < rows,
                n == flat@.len(),
                start + rows * 10 <= flat@.len(),
                row@.len() == c,
                forall|j: int| 0 <= j < c ==> #[trigger] row@[j] == flat@[start + r * 10 + j],
            decreases 10 - c,
        {
            assert(start + r * 10 + c < flat@.len()) by {
                assert(r * 10 + 10 <= rows * 10) by (nonlinear_arith)
                    requires r < rows;
            }
            row.push(flat[start + r * 10 + c]);
            c = c + 1;
        }
        g.push(row);
        r = r + 1;
    }
    g
}

fn chunk_inv_rows(flat: &Vec<Option<ItemSlot>>, start: usize, rows: usize) -> (g: Vec<
    Vec<Option<InventorySlot>>,
>)
    requires
        start + rows * 10 <= flat@.len(),
    ensures
        inv_grid_matches(g, flat@, start as int, rows as int),
{
    let n = flat.len();
    let mut g: Vec<Vec<Option<InventorySlot>>> = Vec::new();
    let mut r: usize = 0;
    while r < rows
        invariant
            r <= rows,
            n == flat@.len(),
            start + rows * 10 <= flat@.len(),
            g@.len() == r,
            forall|i: int| 0 <= i < r ==> (#[trigger] g@[i])@.len() == 10,
            forall|i: int, c: int|
                0 <= i < r && 0 <= c < 10 ==> #[trigger] g@[i]@[c] == inv_slot_of(
                    flat@[start + i * 10 + c],
                ),
        decreases rows - r,
    {
        let mut row: Vec<Option<InventorySlot>> = Vec::new();
        let mut c: usize = 0;
        while c < 10
            invariant
                c <= 10,
                r < rows,
                n == flat@.len(),
                start + rows * 10 <= flat@.len(),
                row@.len() == c,
                forall|j: int|
                    0 <= j < c ==> #[trigger] row@[j] == inv_slot_of(flat@[start + r * 10 + j]),
            decreases 10 - c,
        {
            assert(start + r * 10 + c < flat@.len()) by {
                assert(r * 10 + 10 <= rows * 10) by (nonlinear_arith)
                    requires r < rows;
            }
            row.push(to_inventory_slot(flat[start + r * 10 + c]));
            c = c + 1;
        }
        g.push(row);
        r = r + 1;
    }
    g
}

/// Extracts the 5-by-10 main carried bag, or fails naming the region when the
/// sequence is shorter than the bag requires.
pub fn extract_main_bag(flat: &Vec<Option<ItemSlot>>) -> (r: Result<
    Vec<Vec<Option<InventorySlot>>>,
    AssembleError,
>)
    ensures
        flat@.len() >= 50 ==> (r matches Ok(g) && inv_grid_matches(g, flat@, 0, 5)),
        flat@.len() < 50 ==> r == Err::<Vec<Vec<Option<InventorySlot>>>, AssembleError>(
            AssembleError::RegionOutOfRange(Region::MainBag),
        ),
{
    if flat.len() < 50 {
        return Err(AssembleError::RegionOutOfRange(Region::MainBag));
    }
    Ok(chunk_inv_rows(flat, 0, 5))
}

pub open spec fn is_stash_region(r: Region) -> bool {
    r == Region::PiggyBank || r == Region::Safe || r == Region::DefendersForge
}

/// Extracts one stash container. Its window spans five rows; the fifth is
/// decoded and then deliberately discarded, so the grid keeps rows 0..=3.
/// Fails naming the region when the sequence is shorter than all five rows.
pub fn extract_stash(flat: &Vec<Option<ItemSlot>>, which: Region) -> (r: Result<
    Vec<Vec<Option<ItemSlot>>>,
    AssembleError,
>)
    requires
        is_stash_region(which),
    ensures
        flat@.len() >= region_end(which) ==> (r matches Ok(g) && item_grid_matches(
            g,
            flat@,
            region_start(which),
            4,
        )),
        flat@.len() < region_end(which) ==> r == Err::<Vec<Vec<Option<ItemSlot>>>, AssembleError>(
            AssembleError::RegionOutOfRange(which),
        ),
{
    let (start, len) = region_bounds(which);
    if flat.len() < start + len {
        return Err(AssembleError::RegionOutOfRange(which));
    }
    let mut g = chunk_item_rows(flat, start, 5);
    g.truncate(4);
    Ok(g)
}

pub open spec fn is_loadout_region(r: Region) -> bool {
    r == Region::Loadout1 || r == Region::Loadout2 || r == Region::Loadout3
}

/// Extracts one equipment loadout from its 20-slot window, or fails naming
/// the region when the sequence is shorter than the window.
pub fn extract_loadout(flat: &Vec<Option<ItemSlot>>, which: Region) -> (r: Result<
    Loadout,
    AssembleError,
>)
    requires
        is_loadout_region(which),
    ensures
        flat@.len() >= region_end(which) ==> (r matches Ok(l) && loadout_matches(
            l,
            flat@,
            region_start(which),
        )),
        flat@.len() < region_end(which) ==> r == Err::<Loadout, AssembleError>(
            AssembleError::RegionOutOfRange(which),
        ),
{
    let (start, len) = region_bounds(which);
    if flat.len() < start + len {
        return Err(AssembleError::RegionOutOfRange(which));
    }
    Ok(get_loadout(flat, start))
}

pub open spec fn is_single_region(r: Region) -> bool {
    ||| r == Region::Pet
    ||| r == Region::LightPet
    ||| r == Region::Minecart
    ||| r == Region::Mount
    ||| r == Region::Hook
}

/// Extracts one scalar equip slot, or fails naming the region when the
/// sequence does not reach its index.
pub fn extract_single(flat: &Vec<Option<ItemSlot>>, which: Region) -> (r: Result<
    Option<SingleItemSlot>,
    AssembleError,
>)
    requires
        is_single_region(which),
    ensures
        flat@.len() >= region_end(which) ==> r == Ok::<Option<SingleItemSlot>, AssembleError>(
            single_of(flat@[region_start(which)]),
        ),
        flat@.len() < region_end(which) ==> r == Err::<Option<SingleItemSlot>, AssembleError>(
            AssembleError::RegionOutOfRange(which),
        ),
{
    let (start, len) = region_bounds(which);
    if flat.len() < start + len {
        return Err(AssembleError::RegionOutOfRange(which));
    }
    Ok(to_single_slot(flat[start]))
}

/// Extracts the four-slot coin or ammunition row, or fails naming the region
/// when the sequence is shorter than the row requires.
pub fn extract_inventory_row(flat: &Vec<Option<ItemSlot>>, which: Region) -> (r: Result<
    Vec<Option<InventorySlot>>,
    AssembleError,
>)
    requires
        which == Region::Coins || which == Region::Ammo,
    ensures
        flat@.len() >= region_end(which) ==> (r matches Ok(v) && inv_row_matches(
            v,
            flat@,
            region_start(which),
            4,
        )),
        flat@.len() < region_end(which) ==> r == Err::<Vec<Option<InventorySlot>>, AssembleError>(
            AssembleError::RegionOutOfRange(which),
        ),
{
    let (start, len) = region_bounds(which);
    if flat.len() < start + len {
        return Err(AssembleError::RegionOutOfRange(which));
    }
    let mut v: Vec<Option<InventorySlot>> = Vec::new();
    let mut k: usize = 0;
    while k < 4
        invariant
            k <= 4,
            start + 4 <= flat@.len(),
            flat@.len() <= usize::MAX,
            v@.len() == k,
            forall|j: int| 0 <= j < k ==> #[trigger] v@[j] == inv_slot_of(flat@[start + j]),
        decreases 4 - k,
    {
        v.push(to_inventory_slot(flat[start + k]));
        k = k + 1;
    }
    Ok(v)
}

} // verus!
