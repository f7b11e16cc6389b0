use ir_model::constant::{
    new_array, new_struct, new_vector, new_zero_initializer, ArrayConstant, BooleanConstant,
    ComplexConstant, ComplexConstantCreationError, Constant, FloatConstant, IntegerConstant,
    NullPointerConstant, SimpleConstant, StructConstant, TokenConstant, VectorConstant,
    ZeroInitializionConstant,
};
use ir_model::types::{
    array, double, integer, metadata, opaque, pointer, structure, token, vector, void, FloatType,
    IntegerType, PointerType, ReturnType, Type, VectorType,
};
use ir_model::IRElement;

fn int_constant(text: &str, width: usize) -> Constant {
    Constant::from(IntegerConstant::new(IntegerType(width), text.to_string()))
}

#[test]
fn booleans_render_keywords_and_have_type_i1() {
    let t = BooleanConstant(true);
    let f = BooleanConstant(false);
    assert_eq!(t.render(), "true");
    assert_eq!(f.render(), "false");
    assert!(t.return_type().equals(&integer(1)));
    assert!(f.return_type().equals(&integer(1)));
}

#[test]
fn integer_constants_keep_their_literal_text_verbatim() {
    let c = IntegerConstant::new(IntegerType(8), "65".to_string());
    assert_eq!(c.render(), "65");
    assert!(c.return_type().equals(&integer(8)));
    let odd = IntegerConstant::new(IntegerType(32), "0x2a".to_string());
    assert_eq!(odd.render(), "0x2a");
}

#[test]
fn float_constants_keep_their_literal_text_verbatim() {
    let c = FloatConstant::new(FloatType::Double, "1.5e3".to_string());
    assert_eq!(c.render(), "1.5e3");
    assert!(c.return_type().equals(&double()));
}

#[test]
fn null_pointers_render_null_and_keep_their_pointer_type() {
    let c = NullPointerConstant::new(PointerType::new_with_address_space(integer(8), 2));
    assert_eq!(c.render(), "null");
    assert!(c.return_type().equals(&pointer(integer(8), Some(2))));
}

#[test]
fn token_constants_render_none_and_have_token_type() {
    let c = TokenConstant;
    assert_eq!(c.render(), "none");
    assert!(c.return_type().equals(&token()));
}

#[test]
fn mismatched_array_elements_are_rejected_with_their_index() {
    let r = new_array(integer(32), vec![int_constant("1", 32), int_constant("2", 64)]);
    assert_eq!(r.unwrap_err(), ComplexConstantCreationError::TypeMismatch { index: 1 });
}

#[test]
fn valid_aggregates_are_accepted_and_render_field_pairs() {
    let c = new_struct(
        vec![
            (integer(1), Constant::from(BooleanConstant(true))),
            (integer(8), int_constant("65", 8)),
        ],
        false,
    )
    .unwrap();
    assert_eq!(c.render(), "{ i1 true, i8 65 }");
}

#[test]
fn struct_constants_derive_the_struct_of_their_field_types() {
    let c = new_struct(
        vec![
            (integer(1), Constant::from(BooleanConstant(false))),
            (integer(8), int_constant("7", 8)),
        ],
        true,
    )
    .unwrap();
    let expected = structure(vec![integer(1), integer(8)], true).unwrap();
    assert!(c.return_type().equals(&expected));
}

#[test]
fn mismatched_struct_fields_are_rejected_with_their_index() {
    let r = new_struct(vec![(integer(8), Constant::from(BooleanConstant(true)))], false);
    assert_eq!(r.unwrap_err(), ComplexConstantCreationError::TypeMismatch { index: 0 });
}

#[test]
fn struct_fields_of_metadata_type_are_rejected() {
    let zero = Constant::from(new_zero_initializer(metadata()));
    let r = new_struct(vec![(metadata(), zero)], false);
    assert_eq!(r.unwrap_err(), ComplexConstantCreationError::DisallowedElementType);
}

#[test]
fn arrays_render_the_element_type_before_every_element() {
    let c = new_array(integer(32), vec![int_constant("1", 32), int_constant("2", 32)]).unwrap();
    assert_eq!(c.render(), "[ i32 1, i32 2 ]");
    assert!(c.return_type().equals(&array(2, integer(32)).unwrap()));
}

#[test]
fn empty_arrays_are_legal_because_the_element_type_is_supplied() {
    let c = new_array(integer(32), vec![]).unwrap();
    assert_eq!(c.render(), "[  ]");
    assert!(c.return_type().equals(&array(0, integer(32)).unwrap()));
}

#[test]
fn arrays_of_metadata_are_rejected() {
    let r = new_array(metadata(), vec![]);
    assert_eq!(r.unwrap_err(), ComplexConstantCreationError::DisallowedElementType);
}

#[test]
fn vectors_check_their_length_and_render_space_padded() {
    let vt = VectorType::new(2, integer(32)).unwrap();
    let c = new_vector(vt, vec![int_constant("1", 32), int_constant("2", 32)]).unwrap();
    assert_eq!(c.render(), "< i32 1, i32 2 >");
    assert!(c.return_type().equals(&vector(2, integer(32), false).unwrap()));

    let vt = VectorType::new(2, integer(32)).unwrap();
    let r = new_vector(vt, vec![int_constant("1", 32)]);
    assert_eq!(
        r.unwrap_err(),
        ComplexConstantCreationError::LengthMismatch { expected: 2, found: 1 }
    );
}

#[test]
fn mismatched_vector_elements_are_rejected_with_their_index() {
    let vt = VectorType::new(2, integer(32)).unwrap();
    let r = new_vector(vt, vec![int_constant("1", 16), int_constant("2", 32)]);
    assert_eq!(r.unwrap_err(), ComplexConstantCreationError::TypeMismatch { index: 0 });
}

#[test]
fn the_zero_initializer_is_universal() {
    let samples = vec![
        void(),
        integer(32),
        double(),
        pointer(opaque(), None),
        structure(vec![integer(1), integer(8)], true).unwrap(),
        array(3, integer(8)).unwrap(),
        vector(4, integer(32), true).unwrap(),
        token(),
        metadata(),
    ];
    for t in samples {
        let z = new_zero_initializer(t.clone());
        assert!(z.return_type().equals(&t));
        assert_eq!(z.render(), "zeroinitializer");
    }
}

#[test]
fn zero_initializers_nest_inside_validated_aggregates() {
    let z = Constant::from(ZeroInitializionConstant::new(integer(16)));
    let c = new_array(integer(16), vec![z, int_constant("3", 16)]).unwrap();
    assert_eq!(c.render(), "[ i16 zeroinitializer, i16 3 ]");
}

#[test]
fn nested_aggregates_render_recursively() {
    let inner = new_struct(vec![(integer(1), Constant::from(BooleanConstant(true)))], false)
        .unwrap();
    let inner_type = structure(vec![integer(1)], false).unwrap();
    let c = new_array(inner_type, vec![Constant::from(inner)]).unwrap();
    assert_eq!(c.render(), "[ { i1 } { i1 true } ]");
}

#[test]
fn conversions_wrap_constants_of_every_family() {
    assert_eq!(Constant::from(BooleanConstant(true)).render(), "true");
    assert_eq!(Constant::from(TokenConstant).render(), "none");
    let simple = SimpleConstant::Boolean(BooleanConstant(false));
    assert_eq!(Constant::from(simple).render(), "false");
    let zero = ComplexConstant::ZeroInitializion(ZeroInitializionConstant::new(void()));
    assert_eq!(Constant::from(zero).render(), "zeroinitializer");
    let arr: ArrayConstant = new_array(integer(8), vec![]).unwrap();
    assert_eq!(Constant::from(arr).render(), "[  ]");
    let st: StructConstant = new_struct(vec![], false).unwrap();
    assert_eq!(Constant::from(st).render(), "{  }");
    let vt = VectorType::new(0, integer(8)).unwrap();
    let vc: VectorConstant = new_vector(vt, vec![]).unwrap();
    assert_eq!(Constant::from(vc).render(), "<  >");
    assert_eq!(BooleanConstant::from(true).render(), "true");
    let np = NullPointerConstant::new(PointerType::new(integer(8)));
    assert_eq!(Constant::from(np).render(), "null");
    let fc = FloatConstant::new(FloatType::Half, "0.5".to_string());
    assert_eq!(Constant::from(fc).render(), "0.5");
    let ic = IntegerConstant::new(IntegerType(4), "9".to_string());
    assert_eq!(Constant::from(ic).render(), "9");
}

#[test]
fn enum_dispatch_matches_direct_calls() {
    let c = Constant::from(IntegerConstant::new(IntegerType(8), "65".to_string()));
    assert_eq!(c.render(), "65");
    assert!(c.return_type().equals(&integer(8)));
    match &c {
        Constant::Simple(s) => {
            assert_eq!(s.render(), "65");
            assert!(s.return_type().equals(&integer(8)));
        },
        Constant::Complex(_) => panic!("an integer literal is a simple constant"),
    }
}
