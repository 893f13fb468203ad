use vstd::prelude::*;

verus! {

/// The kind of a building element, as the building description records it.
#[derive(PartialEq, Eq, Structural, Clone, Copy, Debug)]
pub enum ElementSign {
    /// A room.
    Room,
    /// A staircase.
    Staircase,
    /// A door way without a door leaf.
    DoorWay,
    /// An inner door connecting two elements of the building.
    DoorWayIn,
    /// An evacuation exit.
    DoorWayOut,
    /// The zone outside the building.
    Outside,
    /// An element whose kind is not known.
    Undefined,
}

/// What the model reads of a zone or transit besides its numbers: its
/// numeric identifier, its uuid in the building description, and its kind.
#[derive(Clone, Debug)]
pub struct Element {
    pub id: u64,
    pub uuid: String,
    pub sign: ElementSign,
}

/// The answer of the identity callback: `1` when both elements carry the
/// same identifier, `0` otherwise.
pub open spec fn id_eq_code(a: Element, b: Element) -> int {
    if a.id == b.id { 1 } else { 0 }
}

/// Identity callback used by the zone lists: `1` when the two elements have
/// the same identifier, `0` otherwise.
pub fn element_id_eq_callback_rust(value1: &Element, value2: &Element) -> (r: libc::c_int)
    ensures
        r == id_eq_code(*value1, *value2),
        r == 1 <==> value1.id == value2.id,
        r == 0 <==> value1.id != value2.id,
{
    if value1.id == value2.id {
        1
    } else {
        0
    }
}

/// The identity callback answers exactly whether the identifiers agree: `1`
/// when they are equal, `0` when they differ, and nothing else.
pub proof fn lemma_id_eq_code_exact(a: Element, b: Element)
    ensures
        id_eq_code(a, b) == 1 <==> a.id == b.id,
        id_eq_code(a, b) == 0 <==> a.id != b.id,
        id_eq_code(a, b) == 0 || id_eq_code(a, b) == 1,
{
}

/// The identity callback is an equivalence: every element is equal to
/// itself, and the answer does not depend on the order of the arguments.
pub proof fn lemma_id_eq_code_is_equivalence(a: Element, b: Element, c: Element)
    ensures
        id_eq_code(a, a) == 1,
        id_eq_code(a, b) == id_eq_code(b, a),
        id_eq_code(a, b) == 1 && id_eq_code(b, c) == 1 ==> id_eq_code(a, c) == 1,
{
}

} // verus!
