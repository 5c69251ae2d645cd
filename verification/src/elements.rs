use vstd::prelude::*;

verus! {

/// A candidate metal: its element symbol and atomic number.
#[derive(Debug)]
pub struct MetalElement {
    pub symbol: String,
    pub atomic_number: u8,
}

/// The alternate numerical method is applied only when the metal's atomic
/// number falls in the fixed lanthanide range 57 to 71 and the run asked for
/// it.
pub open spec fn edft_applies(atomic_number: u8, edft: bool) -> bool {
    edft && 57 <= atomic_number && atomic_number <= 71
}

/// Whether one metal's calculations use the alternate numerical method.
pub fn use_edft_for(atomic_number: u8, edft: bool) -> (r: bool)
    ensures
        r == edft_applies(atomic_number, edft),
{
    edft && atomic_number >= 57 && atomic_number <= 71
}

/// The element symbol held at one slot of the periodic-table catalogue.
pub uninterp spec fn table_symbol(i: int) -> Seq<char>;

/// The atomic number held at one slot of the periodic-table catalogue.
pub uninterp spec fn table_atomic_number(i: int) -> u8;

/// Relies on castep_periodic_table's ELEMENT_TABLE, a fixed 103-entry
/// catalogue: entry `i` holds one element, whose symbol and atomic number
/// this returns as plain values.
#[verifier::external_body]
fn element_table_entry(i: usize) -> (r: MetalElement)
    requires
        i < 103,
    ensures
        r.symbol@ == table_symbol(i as int),
        r.atomic_number == table_atomic_number(i as int),
{
    let e = &castep_periodic_table::data::ELEMENT_TABLE[i];
    MetalElement { symbol: e.symbol_to_string(), atomic_number: e.atomic_number() }
}

/// The catalogue slot the `k`-th candidate metal is drawn from: three
/// contiguous windows of the periodic table covering the d-block rows.
pub open spec fn metal_table_index(k: int) -> int {
    if k < 10 {
        20 + k
    } else if k < 20 {
        28 + k
    } else {
        36 + k
    }
}

/// The ordered candidate-metal catalogue: the three d-block windows of the
/// periodic table (slots 20 to 29, 38 to 47 and 56 to 79), concatenated,
/// 44 metals in all.
pub fn available_metals() -> (r: Vec<MetalElement>)
    ensures
        r@.len() == 44,
        forall|k: int|
            0 <= k < 44 ==> (#[trigger] r@[k]).symbol@ == table_symbol(metal_table_index(k))
                && r@[k].atomic_number == table_atomic_number(metal_table_index(k)),
{
    let mut r: Vec<MetalElement> = Vec::new();
    let mut i: usize = 20;
    while i < 30
        invariant
            20 <= i <= 30,
            r@.len() == i - 20,
            forall|k: int|
                0 <= k < r@.len() ==> (#[trigger] r@[k]).symbol@ == table_symbol(
                    metal_table_index(k),
                ) && r@[k].atomic_number == table_atomic_number(metal_table_index(k)),
        decreases 30 - i,
    {
        r.push(element_table_entry(i));
        i = i + 1;
    }
    let mut i: usize = 38;
    while i < 48
        invariant
            38 <= i <= 48,
            r@.len() == 10 + (i - 38),
            forall|k: int|
                0 <= k < r@.len() ==> (#[trigger] r@[k]).symbol@ == table_symbol(
                    metal_table_index(k),
                ) && r@[k].atomic_number == table_atomic_number(metal_table_index(k)),
        decreases 48 - i,
    {
        r.push(element_table_entry(i));
        i = i + 1;
    }
    let mut i: usize = 56;
    while i < 80
        invariant
            56 <= i <= 80,
            r@.len() == 20 + (i - 56),
            forall|k: int|
                0 <= k < r@.len() ==> (#[trigger] r@[k]).symbol@ == table_symbol(
                    metal_table_index(k),
                ) && r@[k].atomic_number == table_atomic_number(metal_table_index(k)),
        decreases 80 - i,
    {
        r.push(element_table_entry(i));
        i = i + 1;
    }
    r
}

} // verus!
