//! Packed tagged-index round-trips and sort decoding.

use ifcgen::index::{DeclIndex, TypeIndex, NameIndex, ExprIndex, LitIndex, FormIndex};
use ifcgen::sorts::{TypeSort, DeclSort, NameSort, TypeBasis};

#[test]
fn tagged_index_round_trips() {
    // packing a tag and a row index gives both back exactly
    for &(tag, index) in &[(0u32, 0u32), (5, 1), (31, 7), (6, 0x07ff_ffff)] {
        let d = DeclIndex::new(tag, index);
        assert_eq!(d.tag(), tag);
        assert_eq!(d.index(), index);
        let t = TypeIndex::new(tag, index);
        assert_eq!(t.tag(), tag);
        assert_eq!(t.index(), index);
    }
    let n = NameIndex::new(3, 77);
    assert_eq!((n.tag(), n.index()), (3, 77));
    let e = ExprIndex::new(63, 12);
    assert_eq!((e.tag(), e.index()), (63, 12));
    let l = LitIndex::new(1, 900);
    assert_eq!((l.tag(), l.index()), (1, 900));
    let f = FormIndex::new(13, 44);
    assert_eq!((f.tag(), f.index()), (13, 44));
}

#[test]
fn null_type_reference() {
    assert!(TypeIndex(0).is_null());
    assert!(!TypeIndex(1).is_null());
}

#[test]
fn sorts_decode_from_raw_tags() {
    assert_eq!(TypeSort::from_u32(0x0E), Some(TypeSort::QUALIFIED));
    assert_eq!(TypeSort::from_u32(0x12), Some(TypeSort::TUPLE));
    assert_eq!(TypeSort::from_u32(99), None);
    assert_eq!(DeclSort::from_u32(0x06), Some(DeclSort::SCOPE));
    assert_eq!(DeclSort::from_u32(0x0F), Some(DeclSort::FUNCTION));
    assert_eq!(NameSort::from_u32(0), Some(NameSort::IDENTIFIER));
    assert_eq!(TypeBasis::from_u32(15), Some(TypeBasis::NAMESPACE));
}
