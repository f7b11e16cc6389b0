use std::rc::Rc;

use ir_model::constant::{BooleanConstant, Constant, IntegerConstant};
use ir_model::identifier::{parse_global, Identifiable, Identifier};
use ir_model::reference::{Argument, GlobalVariable, InstructionBlock, Reference, Referencable, Value};
use ir_model::types::{integer, label, pointer, IntegerType, ReturnType};
use ir_model::IRElement;

fn argument(name: &str, width: usize) -> Referencable {
    Referencable::FunctionArgument(Argument::new(
        integer(width),
        Identifier::parse(name).unwrap(),
    ))
}

#[test]
fn references_render_the_identifier_of_their_entity() {
    let entity = Rc::new(argument("%x", 32));
    let r = Reference::to(entity);
    assert_eq!(r.render(), "%x");
    assert_eq!(r.id().render(), "%x");
}

#[test]
fn references_delegate_their_return_type_to_the_entity() {
    let entity = Rc::new(argument("%x", 32));
    let r = Reference::to(entity);
    assert!(r.return_type().equals(&integer(32)));

    let global = Rc::new(Referencable::GlobalVariable(GlobalVariable::new(
        pointer(integer(8), None),
        parse_global("@g").unwrap(),
    )));
    let r = Reference::to(global);
    assert_eq!(r.render(), "@g");
    assert!(r.return_type().equals(&pointer(integer(8), None)));
}

#[test]
fn references_to_labels_always_have_label_type() {
    let block = Rc::new(Referencable::Label(InstructionBlock::new(
        parse_global("@entry").unwrap(),
    )));
    let r = Reference::to(block);
    assert!(r.return_type().equals(&label()));
    assert_eq!(r.render(), "@entry");
}

#[test]
fn one_entity_backs_many_references() {
    let entity = Rc::new(argument("%shared", 64));
    let a = Reference::to(entity.clone());
    let b = Reference::to(entity);
    assert_eq!(a.render(), b.render());
    assert!(a.return_type().equals(&b.return_type()));
}

#[test]
fn constant_values_render_type_then_form() {
    let c = Constant::from(IntegerConstant::new(IntegerType(32), "42".to_string()));
    let v = Value::from(c);
    assert_eq!(v.render(), "i32 42");
    assert!(v.return_type().equals(&integer(32)));
}

#[test]
fn boolean_values_render_their_i1_type() {
    let v = Value::from(Constant::from(BooleanConstant(true)));
    assert_eq!(v.render(), "i1 true");
}

#[test]
fn reference_values_render_type_then_name() {
    let entity = Rc::new(argument("%x", 32));
    let v = Value::from(Reference::to(entity));
    assert_eq!(v.render(), "i32 %x");
    assert!(v.return_type().equals(&integer(32)));
}

#[test]
fn label_values_render_their_fixed_type() {
    let block = Rc::new(Referencable::Label(InstructionBlock::new(
        parse_global("@loop.head").unwrap(),
    )));
    let v = Value::Reference(Reference::to(block));
    assert_eq!(v.render(), "label @loop.head");
}

#[test]
fn referencable_entities_expose_their_identity_directly() {
    let g = Referencable::GlobalVariable(GlobalVariable::new(
        integer(8),
        parse_global("@answer").unwrap(),
    ));
    assert_eq!(g.id().render(), "@answer");
    assert!(g.return_type().equals(&integer(8)));
}
