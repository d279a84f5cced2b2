use candle_moe::embed::KERNEL_NAMES;
use candle_moe::kernels::{module_index, Id, Module, ALL_IDS};

#[test]
fn modules_are_numbered_in_order() {
    assert_eq!(module_index(Id::Affine), 0);
    assert_eq!(module_index(Id::Quantized), 6);
    assert_eq!(module_index(Id::Unary), 10);
    for (i, id) in ALL_IDS.iter().enumerate() {
        assert_eq!(module_index(*id), i);
    }
}

#[test]
fn modules_keep_their_code() {
    let module = Module::new(Id::Sort, ".version 8.0");
    assert_eq!(module.index(), 8);
    assert_eq!(module.ptx(), ".version 8.0");
    assert_eq!(ALL_IDS[module.index()], Id::Sort);
}

#[test]
fn modules_have_names() {
    assert_eq!(KERNEL_NAMES[module_index(Id::Affine)], "affine");
    assert_eq!(KERNEL_NAMES[module_index(Id::Indexing)], "indexing");
    assert_eq!(KERNEL_NAMES[module_index(Id::Unary)], "unary");
}
