use ir_model::types::{
    array, bfloat, double, float, fp128, function, half, integer, label, metadata, opaque,
    pointer, ppc_fp128, structure, token, vector, void, x86_amx, x86_fp80, x86_mmx, FloatType,
    IntegerType, OpaqueStructType, PointerType, StructType, Type, TypeError, VectorType,
};
use ir_model::IRElement;

#[test]
fn keyword_types_render_their_fixed_keywords() {
    assert_eq!(void().render(), "void");
    assert_eq!(label().render(), "label");
    assert_eq!(token().render(), "token");
    assert_eq!(metadata().render(), "metadata");
    assert_eq!(opaque().render(), "opaque");
    assert_eq!(x86_amx().render(), "x86_amx");
    assert_eq!(x86_mmx().render(), "x86_mmx");
}

#[test]
fn float_kinds_render_their_fixed_keywords() {
    assert_eq!(half().render(), "half");
    assert_eq!(bfloat().render(), "bfloat");
    assert_eq!(float().render(), "float");
    assert_eq!(double().render(), "double");
    assert_eq!(fp128().render(), "fp128");
    assert_eq!(x86_fp80().render(), "x86_fp80");
    assert_eq!(ppc_fp128().render(), "ppc_fp128");
}

#[test]
fn integer_types_render_their_width_in_decimal() {
    assert_eq!(integer(1).render(), "i1");
    assert_eq!(integer(32).render(), "i32");
    assert_eq!(integer(0).render(), "i0");
    assert_eq!(integer(1023).render(), "i1023");
    assert_eq!(integer(usize::MAX).render(), format!("i{}", usize::MAX));
}

#[test]
fn pointer_rendering_branches_on_opacity() {
    assert_eq!(pointer(opaque(), None).render(), "ptr");
    assert_eq!(pointer(integer(32), Some(1)).render(), "i32 addrspace(1)*");
    assert_eq!(pointer(integer(8), None).render(), "i8*");
    assert_eq!(pointer(opaque(), Some(5)).render(), "ptr addrspace(5)");
    assert_eq!(pointer(opaque(), Some(0)).render(), "ptr");
}

#[test]
fn vector_rendering_honors_the_scalable_flag() {
    assert_eq!(vector(4, integer(32), true).unwrap().render(), "<vscale x 4 x i32>");
    assert_eq!(vector(4, integer(32), false).unwrap().render(), "<4 x i32>");
    assert_eq!(vector(2, double(), false).unwrap().render(), "<2 x double>");
}

#[test]
fn array_rendering_pads_its_brackets() {
    assert_eq!(array(4, integer(32)).unwrap().render(), "[ 4 x i32 ]");
    assert_eq!(
        array(3, pointer(integer(8), None)).unwrap().render(),
        "[ 3 x i8* ]"
    );
}

#[test]
fn struct_rendering_wraps_packed_structs() {
    assert_eq!(structure(vec![integer(32), integer(1)], false).unwrap().render(), "{ i32, i1 }");
    assert_eq!(structure(vec![integer(32), integer(1)], true).unwrap().render(), "<{ i32, i1 }>");
    assert_eq!(structure(vec![], false).unwrap().render(), "{  }");
}

#[test]
fn struct_type_definitions_carry_the_type_keyword() {
    let st = StructType::new(vec![integer(8)]).unwrap();
    assert_eq!(st.render_definition(), "type { i8 }");
    assert_eq!(OpaqueStructType.render_definition(), "type opaque");
}

#[test]
fn function_types_render_return_then_arguments() {
    assert_eq!(function(void(), vec![integer(32), integer(8)]).render(), "void ( i32, i8 )");
    assert_eq!(function(integer(1), vec![]).render(), "i1 (  )");
}

#[test]
fn nested_types_render_recursively() {
    let inner = structure(vec![integer(8), float()], false).unwrap();
    let arr = array(2, inner).unwrap();
    assert_eq!(arr.render(), "[ 2 x { i8, float } ]");
    let vec_of_ptr = vector(4, pointer(integer(64), None), false).unwrap();
    assert_eq!(vec_of_ptr.render(), "<4 x i64*>");
}

#[test]
fn structural_equality_is_reflexive_on_samples() {
    let samples = vec![
        void(),
        integer(32),
        half(),
        pointer(opaque(), Some(3)),
        vector(4, integer(32), true).unwrap(),
        array(2, integer(8)).unwrap(),
        structure(vec![integer(1), integer(8)], true).unwrap(),
        function(void(), vec![integer(32)]),
    ];
    for t in &samples {
        assert!(t.equals(t));
    }
}

#[test]
fn structural_equality_is_symmetric_and_value_based() {
    let a = structure(vec![integer(32), integer(1)], false).unwrap();
    let b = structure(vec![integer(32), integer(1)], false).unwrap();
    assert!(a.equals(&b));
    assert!(b.equals(&a));
    assert!(a == b);
}

#[test]
fn struct_field_order_matters() {
    let a = structure(vec![integer(32), integer(1)], false).unwrap();
    let b = structure(vec![integer(1), integer(32)], false).unwrap();
    assert!(!a.equals(&b));
    assert!(a != b);
}

#[test]
fn equality_distinguishes_every_component() {
    assert!(!integer(32).equals(&integer(64)));
    assert!(!half().equals(&bfloat()));
    assert!(!pointer(integer(32), None).equals(&pointer(integer(32), Some(1))));
    let flat = vector(4, integer(32), false).unwrap();
    let scal = vector(4, integer(32), true).unwrap();
    assert!(!flat.equals(&scal));
    let packed = structure(vec![integer(8)], true).unwrap();
    let loose = structure(vec![integer(8)], false).unwrap();
    assert!(!packed.equals(&loose));
    assert!(!array(2, integer(8)).unwrap().equals(&array(3, integer(8)).unwrap()));
    assert!(!void().equals(&token()));
}

#[test]
fn equality_is_structural_not_by_identity() {
    let a = pointer(structure(vec![integer(8)], false).unwrap(), Some(2));
    let b = pointer(structure(vec![integer(8)], false).unwrap(), Some(2));
    assert!(a.equals(&b));
}

#[test]
fn metadata_may_not_stand_inside_aggregates() {
    assert_eq!(array(4, metadata()).unwrap_err(), TypeError::DisallowedElementType);
    assert_eq!(
        structure(vec![integer(8), metadata()], false).unwrap_err(),
        TypeError::DisallowedElementType
    );
    assert_eq!(vector(4, metadata(), false).unwrap_err(), TypeError::DisallowedElementType);
}

#[test]
fn aggregates_hold_first_class_types_only() {
    assert_eq!(array(1, void()).unwrap_err(), TypeError::DisallowedElementType);
    assert_eq!(
        structure(vec![function(void(), vec![])], false).unwrap_err(),
        TypeError::DisallowedElementType
    );
}

#[test]
fn vectors_hold_single_value_types_only() {
    assert_eq!(vector(4, label(), false).unwrap_err(), TypeError::DisallowedElementType);
    let st = structure(vec![integer(8)], false).unwrap();
    assert_eq!(vector(4, st, false).unwrap_err(), TypeError::DisallowedElementType);
    assert!(vector(4, pointer(opaque(), None), false).is_ok());
}

#[test]
fn type_classification_follows_the_glossary() {
    assert!(!void().is_first_class());
    assert!(!function(void(), vec![]).is_first_class());
    assert!(integer(1).is_first_class());
    assert!(label().is_first_class());
    assert!(metadata().is_first_class());
    assert!(integer(1).is_single_value());
    assert!(!label().is_single_value());
    assert!(!array(1, integer(8)).unwrap().is_single_value());
}

#[test]
fn conversions_wrap_component_types() {
    assert_eq!(Type::from(IntegerType(32)).render(), "i32");
    assert_eq!(Type::from(FloatType::Double).render(), "double");
    let pt = PointerType::new(integer(8));
    assert_eq!(Type::from(pt).render(), "i8*");
    let vt = VectorType::new_scalable(8, integer(1)).unwrap();
    assert_eq!(Type::from(vt).render(), "<vscale x 8 x i1>");
}

#[test]
fn cloned_types_stay_structurally_equal() {
    let t = structure(vec![integer(32), pointer(opaque(), None)], true).unwrap();
    let c = t.clone();
    assert!(t.equals(&c));
    assert_eq!(c.render(), t.render());
}
