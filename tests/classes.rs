use rtpacket::layerclass::{new_layer_class, new_layer_class_map, AnyLayerClass, LayerClass};
use rtpacket::layertype::{DecodeFunc, LayerType, MAX_LAYER_TYPE};

#[test]
fn test_new_layer_class_with_map() {
    let types = vec![MAX_LAYER_TYPE + 1, MAX_LAYER_TYPE + 2];
    let layer_class = new_layer_class(&types);
    assert!(layer_class.contains(types[0]));
    assert!(layer_class.contains(types[1]));
}

#[test]
fn test_new_layer_class_with_slice() {
    let types = vec![1, 2, 3];
    let layer_class = new_layer_class(&types);
    assert!(layer_class.contains(types[0]));
    assert!(layer_class.contains(types[1]));
    assert!(layer_class.contains(types[2]));
}

#[test]
fn storage_follows_the_threshold() {
    assert!(matches!(new_layer_class(&[MAX_LAYER_TYPE - 1]), AnyLayerClass::Dense(_)));
    assert!(matches!(new_layer_class(&[MAX_LAYER_TYPE]), AnyLayerClass::Sparse(_)));
    assert!(matches!(new_layer_class(&[1, MAX_LAYER_TYPE + 5]), AnyLayerClass::Sparse(_)));
    assert!(matches!(new_layer_class(&[]), AnyLayerClass::Dense(_)));
}

#[test]
fn non_members_are_not_contained() {
    let near = new_layer_class(&[4, 9]);
    assert!(!near.contains(5));
    assert!(!near.contains(10));
    assert!(!near.contains(MAX_LAYER_TYPE * 3));
    let far = new_layer_class(&[4, MAX_LAYER_TYPE + 9]);
    assert!(far.contains(4));
    assert!(!far.contains(5));
    assert!(!far.contains(MAX_LAYER_TYPE + 8));
    let map = new_layer_class_map(&[7]);
    assert!(map.contains(7) && !map.contains(8));
}

#[test]
fn layer_type_is_a_class_of_one() {
    let t = LayerType::new(12, "Twelve", DecodeFunc::Unknown);
    assert!(t.contains(12));
    assert!(!t.contains(13));
    assert_eq!(t.layer_types(), vec![12]);
}

#[test]
fn dense_class_lists_its_ids_in_order() {
    match new_layer_class(&[9, 2, 5, 2]) {
        AnyLayerClass::Dense(s) => assert_eq!(s.layer_types(), vec![2, 5, 9]),
        AnyLayerClass::Sparse(_) => panic!("expected a dense class"),
    }
}

#[test]
fn sparse_class_lists_each_id_once() {
    let class = new_layer_class(&[MAX_LAYER_TYPE + 3, 4, MAX_LAYER_TYPE + 3]);
    let mut ids = class.layer_types();
    ids.sort();
    assert_eq!(ids, vec![4, MAX_LAYER_TYPE + 3]);
}
