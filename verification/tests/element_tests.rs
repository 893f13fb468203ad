use bim_evac::element::{element_id_eq_callback_rust, Element, ElementSign};

fn element(id: u64, uuid: &str, sign: ElementSign) -> Element {
    Element { id, uuid: String::from(uuid), sign }
}

#[test]
fn id_eq_callback_same_id_gives_one() {
    let a = element(7, "{a}", ElementSign::Room);
    let b = element(7, "{b}", ElementSign::Staircase);
    assert_eq!(element_id_eq_callback_rust(&a, &b), 1);
}

#[test]
fn id_eq_callback_different_ids_give_zero() {
    let a = element(7, "{a}", ElementSign::Room);
    let b = element(8, "{a}", ElementSign::Room);
    assert_eq!(element_id_eq_callback_rust(&a, &b), 0);
}

#[test]
fn id_eq_callback_is_reflexive_and_symmetric() {
    let a = element(3, "{a}", ElementSign::Outside);
    let b = element(4, "{b}", ElementSign::Outside);
    assert_eq!(element_id_eq_callback_rust(&a, &a), 1);
    assert_eq!(
        element_id_eq_callback_rust(&a, &b),
        element_id_eq_callback_rust(&b, &a)
    );
}
