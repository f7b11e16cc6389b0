//! The constant model: literal and composite constant values whose
//! construction is validated against declared types.
//!
//! Every constant derives exactly one type (its return type) from its own
//! structure. Aggregate constructors reject, at construction time, any
//! element whose derived type does not structurally equal the declared type
//! for its position, so a malformed tree can never exist; deep consistency
//! follows by induction, because every child was validated when it was built.

use vstd::prelude::*;

use crate::types::{
    allowed_aggregate_element, is_single_value, render_type, type_view, ArrayType, FloatType,
    IntegerType, PointerType, ReturnType, StructType, Type, TypeView, VectorType,
};
use crate::IRElement;

verus! {

broadcast use vstd::seq::group_seq_axioms, vstd::std_specs::vec::group_vec_axioms;

/// The mathematical image of a `Constant`.
pub enum ConstantView {
    Boolean { value: bool },
    Integer { text: Seq<char>, width: nat },
    Float { text: Seq<char>, kind: FloatType },
    NullPointer { pointee: Box<TypeView>, address_space: nat },
    Token,
    Struct { fields: Seq<(TypeView, ConstantView)>, packed: bool },
    Array { element_type: Box<TypeView>, elements: Seq<ConstantView> },
    Vector {
        element_count: nat,
        element_type: Box<TypeView>,
        scalable: bool,
        elements: Seq<ConstantView>,
    },
    ZeroInitializer { target: Box<TypeView> },
}

/// The one type every constant derives from its own structure.
pub open spec fn constant_return_type(c: ConstantView) -> TypeView {
    match c {
        ConstantView::Boolean { .. } => TypeView::Integer { bits: 1 },
        ConstantView::Integer { text: _, width } => TypeView::Integer { bits: width },
        ConstantView::Float { text: _, kind } => TypeView::Float { kind },
        ConstantView::NullPointer { pointee, address_space } => TypeView::Pointer {
            pointee,
            address_space,
        },
        ConstantView::Token => TypeView::Token,
        ConstantView::Struct { fields, packed } => TypeView::Struct {
            field_types: fields.map_values(|f: (TypeView, ConstantView)| f.0),
            packed,
        },
        ConstantView::Array { element_type, elements } => TypeView::Array {
            length: elements.len(),
            element_type,
        },
        ConstantView::Vector { element_count, element_type, scalable, elements: _ } =>
            TypeView::Vector { element_count, element_type, scalable },
        ConstantView::ZeroInitializer { target } => *target,
    }
}

/// Each immediate child of an aggregate constant has exactly the declared
/// type for its position, and the declared element types are legal. Every
/// constructor of this module establishes this; since children were
/// themselves validated at their own construction, consistency holds at every
/// depth of a tree built through the constructors.
pub open spec fn constant_locally_consistent(c: ConstantView) -> bool {
    match c {
        ConstantView::Struct { fields, packed: _ } => forall|i: int|
            0 <= i < fields.len() ==> {
                &&& allowed_aggregate_element((#[trigger] fields[i]).0)
                &&& constant_return_type(fields[i].1) == fields[i].0
            },
        ConstantView::Array { element_type, elements } => {
            &&& allowed_aggregate_element(*element_type)
            &&& forall|i: int|
                0 <= i < elements.len() ==> constant_return_type(#[trigger] elements[i])
                    == *element_type
        },
        ConstantView::Vector { element_count, element_type, scalable: _, elements } => {
            &&& is_single_value(*element_type)
            &&& elements.len() == element_count
            &&& forall|i: int|
                0 <= i < elements.len() ==> constant_return_type(#[trigger] elements[i])
                    == *element_type
        },
        _ => true,
    }
}

/// A constant value: either a simple (scalar) constant or a composite one.
/// The split is for clarity, not behavior.
#[derive(Debug)]
pub enum Constant {
    Simple(SimpleConstant),
    Complex(ComplexConstant),
}

/// The scalar constants.
#[derive(Debug)]
pub enum SimpleConstant {
    Boolean(BooleanConstant),
    Integer(IntegerConstant),
    Float(FloatConstant),
    NullPointer(NullPointerConstant),
    Token(TokenConstant),
}

/// The composite constants.
#[derive(Debug)]
pub enum ComplexConstant {
    Struct(StructConstant),
    Array(ArrayConstant),
    Vector(VectorConstant),
    ZeroInitializion(ZeroInitializionConstant),
}

/// `true` or `false`; its type is always `i1`.
#[derive(Debug)]
pub struct BooleanConstant(pub bool);

/// An integer literal: the text is kept verbatim, never parsed.
#[derive(Debug)]
pub struct IntegerConstant(pub String, pub IntegerType);

/// A floating-point literal: the text is kept verbatim, never parsed.
#[derive(Debug)]
pub struct FloatConstant(pub String, pub FloatType);

/// The null pointer of a given pointer type; renders as `null`.
#[derive(Debug)]
pub struct NullPointerConstant(pub PointerType);

/// The empty token constant; renders as `none`.
#[derive(Debug)]
pub struct TokenConstant;

/// A struct constant: declared field types paired with field values. Built
/// only through `new`, which validates every pair.
#[derive(Debug)]
pub struct StructConstant(Vec<(Type, Constant)>, bool);

/// An array constant: one declared element type and the element values. Built
/// only through `new`, which validates every element. An empty element list
/// is legal exactly because the element type is supplied independently; the
/// array's length is always the number of elements.
#[derive(Debug)]
pub struct ArrayConstant(Type, Vec<Constant>);

/// A vector constant: a declared vector type and the element values. Built
/// only through `new`, which validates the count and every element.
#[derive(Debug)]
pub struct VectorConstant(VectorType, Vec<Constant>);

/// The all-bits-zero constant of a target type; renders as `zeroinitializer`.
#[derive(Debug)]
pub struct ZeroInitializionConstant(pub Type);

/// The mathematical image of a scalar constant.
pub open spec fn simple_constant_view(c: SimpleConstant) -> ConstantView {
    match c {
        SimpleConstant::Boolean(b) => ConstantView::Boolean { value: b.0 },
        SimpleConstant::Integer(i) => ConstantView::Integer {
            text: i.0@,
            width: i.1.0 as nat,
        },
        SimpleConstant::Float(f) => ConstantView::Float { text: f.0@, kind: f.1 },
        SimpleConstant::NullPointer(n) => ConstantView::NullPointer {
            pointee: Box::new(type_view(*n.0.pointee)),
            address_space: n.0.address_space as nat,
        },
        SimpleConstant::Token(_) => ConstantView::Token,
    }
}

/// The mathematical image of a composite constant.
pub closed spec fn complex_constant_view(c: ComplexConstant) -> ConstantView
    decreases c,
{
    match c {
        ComplexConstant::Struct(s) => ConstantView::Struct {
            fields: field_views(s.0@),
            packed: s.1,
        },
        ComplexConstant::Array(a) => ConstantView::Array {
            element_type: Box::new(type_view(a.0)),
            elements: constant_views(a.1@),
        },
        ComplexConstant::Vector(v) => ConstantView::Vector {
            element_count: v.0.factor as nat,
            element_type: Box::new(type_view(*v.0.element_type)),
            scalable: v.0.scalable,
            elements: constant_views(v.1@),
        },
        ComplexConstant::ZeroInitializion(z) => ConstantView::ZeroInitializer {
            target: Box::new(type_view(z.0)),
        },
    }
}

/// The mathematical image of a constant tree.
pub open spec fn constant_view(c: Constant) -> ConstantView
    decreases c,
{
    match c {
        Constant::Simple(s) => simple_constant_view(s),
        Constant::Complex(x) => complex_constant_view(x),
    }
}

/// The views of a sequence of constants, in order.
pub open spec fn constant_views(cs: Seq<Constant>) -> Seq<ConstantView>
    decreases cs,
{
    if cs.len() == 0 {
        Seq::empty()
    } else {
        constant_views(cs.drop_last()).push(constant_view(cs.last()))
    }
}

/// The views of a sequence of declared-type/value pairs, in order.
pub open spec fn field_views(fs: Seq<(Type, Constant)>) -> Seq<(TypeView, ConstantView)>
    decreases fs,
{
    if fs.len() == 0 {
        Seq::empty()
    } else {
        field_views(fs.drop_last()).push(
            (type_view(fs.last().0), constant_view(fs.last().1)),
        )
    }
}

/// `constant_views` maps the view over the sequence, element by element.
pub proof fn lemma_constant_views(cs: Seq<Constant>)
    ensures
        constant_views(cs).len() == cs.len(),
        forall|i: int| 0 <= i < cs.len() ==> constant_views(cs)[i] == constant_view(cs[i]),
    decreases cs,
{
    if cs.len() > 0 {
        lemma_constant_views(cs.drop_last());
    }
}

/// `field_views` maps the views over the sequence, element by element.
pub proof fn lemma_field_views(fs: Seq<(Type, Constant)>)
    ensures
        field_views(fs).len() == fs.len(),
        forall|i: int|
            0 <= i < fs.len() ==> field_views(fs)[i] == (
            type_view(fs[i].0),
            constant_view(fs[i].1),
            ),
    decreases fs,
{
    if fs.len() > 0 {
        lemma_field_views(fs.drop_last());
    }
}

impl View for Constant {
    type V = ConstantView;

    open spec fn view(&self) -> ConstantView {
        constant_view(*self)
    }
}

impl View for SimpleConstant {
    type V = ConstantView;

    open spec fn view(&self) -> ConstantView {
        simple_constant_view(*self)
    }
}

impl View for ComplexConstant {
    type V = ConstantView;

    open spec fn view(&self) -> ConstantView {
        complex_constant_view(*self)
    }
}

impl View for BooleanConstant {
    type V = ConstantView;

    open spec fn view(&self) -> ConstantView {
        ConstantView::Boolean { value: self.0 }
    }
}

impl View for IntegerConstant {
    type V = ConstantView;

    open spec fn view(&self) -> ConstantView {
        ConstantView::Integer { text: self.0@, width: self.1.0 as nat }
    }
}

impl View for FloatConstant {
    type V = ConstantView;

    open spec fn view(&self) -> ConstantView {
        ConstantView::Float { text: self.0@, kind: self.1 }
    }
}

impl View for NullPointerConstant {
    type V = ConstantView;

    open spec fn view(&self) -> ConstantView {
        ConstantView::NullPointer {
            pointee: Box::new(type_view(*self.0.pointee)),
            address_space: self.0.address_space as nat,
        }
    }
}

impl View for TokenConstant {
    type V = ConstantView;

    open spec fn view(&self) -> ConstantView {
        ConstantView::Token
    }
}

impl View for StructConstant {
    type V = ConstantView;

    closed spec fn view(&self) -> ConstantView {
        ConstantView::Struct { fields: field_views(self.0@), packed: self.1 }
    }
}

impl View for ArrayConstant {
    type V = ConstantView;

    closed spec fn view(&self) -> ConstantView {
        ConstantView::Array {
            element_type: Box::new(type_view(self.0)),
            elements: constant_views(self.1@),
        }
    }
}

impl View for VectorConstant {
    type V = ConstantView;

    closed spec fn view(&self) -> ConstantView {
        ConstantView::Vector {
            element_count: self.0.factor as nat,
            element_type: Box::new(type_view(*self.0.element_type)),
            scalable: self.0.scalable,
            elements: constant_views(self.1@),
        }
    }
}

impl View for ZeroInitializionConstant {
    type V = ConstantView;

    open spec fn view(&self) -> ConstantView {
        ConstantView::ZeroInitializer { target: Box::new(type_view(self.0)) }
    }
}

/// The canonical textual form of a constant. A scalar renders its literal
/// text or fixed keyword; a composite renders each child as a
/// `<type> <value>` pair, comma-separated, between the brackets of its
/// variant.
pub open spec fn render_constant(c: ConstantView) -> Seq<char>
    decreases c,
{
    match c {
        ConstantView::Boolean { value } => if value {
            "true"@
        } else {
            "false"@
        },
        ConstantView::Integer { text, .. } => text,
        ConstantView::Float { text, .. } => text,
        ConstantView::NullPointer { .. } => "null"@,
        ConstantView::Token => "none"@,
        ConstantView::Struct { fields, packed: _ } => "{ "@ + render_field_list(fields) + " }"@,
        ConstantView::Array { element_type, elements } => "[ "@ + render_element_list(
            *element_type,
            elements,
        ) + " ]"@,
        ConstantView::Vector { element_count: _, element_type, scalable: _, elements } => "< "@
            + render_element_list(*element_type, elements) + " >"@,
        ConstantView::ZeroInitializer { .. } => "zeroinitializer"@,
    }
}

/// A comma-separated list of `<declared type> <value>` pairs.
pub open spec fn render_field_list(fs: Seq<(TypeView, ConstantView)>) -> Seq<char>
    decreases fs,
{
    if fs.len() == 0 {
        Seq::empty()
    } else if fs.len() == 1 {
        render_type(fs[0].0) + " "@ + render_constant(fs[0].1)
    } else {
        render_type(fs[0].0) + " "@ + render_constant(fs[0].1) + ", "@ + render_field_list(
            fs.drop_first(),
        )
    }
}

/// A comma-separated list of elements, each prefixed by the one declared
/// element type.
pub open spec fn render_element_list(t: TypeView, es: Seq<ConstantView>) -> Seq<char>
    decreases es,
{
    if es.len() == 0 {
        Seq::empty()
    } else if es.len() == 1 {
        render_type(t) + " "@ + render_constant(es[0])
    } else {
        render_type(t) + " "@ + render_constant(es[0]) + ", "@ + render_element_list(
            t,
            es.drop_first(),
        )
    }
}

/// Renders one constant tree.
fn render_constant_exec(c: &Constant) -> (r: String)
    ensures
        r@ == render_constant(c@),
    decreases c,
{
    match c {
        Constant::Simple(s) => match s {
            SimpleConstant::Boolean(b) => {
                if b.0 {
                    String::from_str("true")
                } else {
                    String::from_str("false")
                }
            },
            SimpleConstant::Integer(i) => i.0.clone(),
            SimpleConstant::Float(f) => f.0.clone(),
            SimpleConstant::NullPointer(_) => String::from_str("null"),
            SimpleConstant::Token(_) => String::from_str("none"),
        },
        Constant::Complex(x) => match x {
            ComplexConstant::Struct(st) => {
                let mut s = String::from_str("{ ");
                let fields = render_field_list_exec(&st.0, 0);
                s.append(fields.as_str());
                s.append(" }");
                proof {
                    assert(field_views(st.0@).skip(0) =~= field_views(st.0@));
                }
                s
            },
            ComplexConstant::Array(a) => {
                let mut s = String::from_str("[ ");
                let elems = render_element_list_exec(&a.0, &a.1, 0);
                s.append(elems.as_str());
                s.append(" ]");
                proof {
                    assert(constant_views(a.1@).skip(0) =~= constant_views(a.1@));
                }
                s
            },
            ComplexConstant::Vector(v) => {
                let mut s = String::from_str("< ");
                let elems = render_element_list_exec(&v.0.element_type, &v.1, 0);
                s.append(elems.as_str());
                s.append(" >");
                proof {
                    assert(constant_views(v.1@).skip(0) =~= constant_views(v.1@));
                }
                s
            },
            ComplexConstant::ZeroInitializion(_) => String::from_str("zeroinitializer"),
        },
    }
}

/// Renders the declared-type/value pairs from index `i` on.
fn render_field_list_exec(fs: &Vec<(Type, Constant)>, i: usize) -> (r: String)
    requires
        i <= fs.len(),
    ensures
        r@ == render_field_list(field_views(fs@).skip(i as int)),
    decreases fs, fs.len() - i,
{
    proof {
        lemma_field_views(fs@);
    }
    if i == fs.len() {
        proof {
            assert(field_views(fs@).skip(i as int) =~= Seq::<(TypeView, ConstantView)>::empty());
        }
        String::new()
    } else {
        let ghost vs = field_views(fs@).skip(i as int);
        let mut s = fs[i].0.render();
        s.append(" ");
        let value = render_constant_exec(&fs[i].1);
        s.append(value.as_str());
        proof {
            assert(vs[0] == (type_view(fs@[i as int].0), constant_view(fs@[i as int].1)));
        }
        if i + 1 < fs.len() {
            s.append(", ");
            let rest = render_field_list_exec(fs, i + 1);
            s.append(rest.as_str());
            proof {
                assert(vs.drop_first() =~= field_views(fs@).skip(i as int + 1));
                assert(vs.len() > 1);
            }
        } else {
            proof {
                assert(vs.len() == 1);
            }
        }
        s
    }
}

/// Renders the elements from index `i` on, each prefixed by the declared
/// element type.
fn render_element_list_exec(t: &Type, es: &Vec<Constant>, i: usize) -> (r: String)
    requires
        i <= es.len(),
    ensures
        r@ == render_element_list(t@, constant_views(es@).skip(i as int)),
    decreases es, es.len() - i,
{
    proof {
        lemma_constant_views(es@);
    }
    if i == es.len() {
        proof {
            assert(constant_views(es@).skip(i as int) =~= Seq::<ConstantView>::empty());
        }
        String::new()
    } else {
        let ghost vs = constant_views(es@).skip(i as int);
        let mut s = t.render();
        s.append(" ");
        let value = render_constant_exec(&es[i]);
        s.append(value.as_str());
        proof {
            assert(vs[0] == constant_view(es@[i as int]));
        }
        if i + 1 < es.len() {
            s.append(", ");
            let rest = render_element_list_exec(t, es, i + 1);
            s.append(rest.as_str());
            proof {
                assert(vs.drop_first() =~= constant_views(es@).skip(i as int + 1));
                assert(vs.len() > 1);
            }
        } else {
            proof {
                assert(vs.len() == 1);
            }
        }
        s
    }
}

impl ReturnType for Constant {
    open spec fn spec_return_type(&self) -> TypeView {
        constant_return_type(self@)
    }

    fn return_type(&self) -> (t: Type) {
        match self {
            Constant::Simple(c) => c.return_type(),
            Constant::Complex(c) => c.return_type(),
        }
    }
}

impl ReturnType for SimpleConstant {
    open spec fn spec_return_type(&self) -> TypeView {
        constant_return_type(self@)
    }

    fn return_type(&self) -> (t: Type) {
        match self {
            SimpleConstant::Boolean(c) => c.return_type(),
            SimpleConstant::Integer(c) => c.return_type(),
            SimpleConstant::Float(c) => c.return_type(),
            SimpleConstant::NullPointer(c) => c.return_type(),
            SimpleConstant::Token(c) => c.return_type(),
        }
    }
}

impl ReturnType for ComplexConstant {
    open spec fn spec_return_type(&self) -> TypeView {
        constant_return_type(self@)
    }

    fn return_type(&self) -> (t: Type) {
        match self {
            ComplexConstant::Struct(c) => c.return_type(),
            ComplexConstant::Array(c) => c.return_type(),
            ComplexConstant::Vector(c) => c.return_type(),
            ComplexConstant::ZeroInitializion(c) => c.return_type(),
        }
    }
}

impl ReturnType for BooleanConstant {
    open spec fn spec_return_type(&self) -> TypeView {
        TypeView::Integer { bits: 1 }
    }

    fn return_type(&self) -> (t: Type) {
        Type::Integer(IntegerType(1))
    }
}

impl ReturnType for IntegerConstant {
    open spec fn spec_return_type(&self) -> TypeView {
        TypeView::Integer { bits: self.1.0 as nat }
    }

    fn return_type(&self) -> (t: Type) {
        Type::Integer(self.1)
    }
}

impl ReturnType for FloatConstant {
    open spec fn spec_return_type(&self) -> TypeView {
        TypeView::Float { kind: self.1 }
    }

    fn return_type(&self) -> (t: Type) {
        Type::Float(self.1)
    }
}

impl ReturnType for NullPointerConstant {
    open spec fn spec_return_type(&self) -> TypeView {
        constant_return_type(self@)
    }

    fn return_type(&self) -> (t: Type) {
        Type::Pointer(self.0.clone())
    }
}

impl ReturnType for TokenConstant {
    open spec fn spec_return_type(&self) -> TypeView {
        TypeView::Token
    }

    fn return_type(&self) -> (t: Type) {
        Type::Token(crate::types::TokenType)
    }
}

impl ReturnType for StructConstant {
    open spec fn spec_return_type(&self) -> TypeView {
        constant_return_type(self@)
    }

    #[verifier::loop_isolation(false)]
    fn return_type(&self) -> (t: Type) {
        proof {
            lemma_field_views(self.0@);
        }
        let mut field_types: Vec<Type> = Vec::new();
        let mut i: usize = 0;
        while i < self.0.len()
            invariant
                i <= self.0.len(),
                field_types@.len() == i,
                forall|j: int| 0 <= j < i ==> #[trigger] field_types@[j]@ == self.0@[j].0@,
            decreases self.0.len() - i,
        {
            let c = self.0[i].0.clone();
            field_types.push(c);
            i += 1;
        }
        let ghost expected = field_views(self.0@).map_values(|f: (TypeView, ConstantView)| f.0);
        proof {
            crate::types::lemma_type_views(field_types@);
            assert forall|j: int|
                0 <= j < field_types@.len() implies crate::types::type_views(field_types@)[j]
                == expected[j] by {
                assert(field_types@[j]@ == self.0@[j].0@);
                assert(field_views(self.0@)[j] == (
                    type_view(self.0@[j].0),
                    constant_view(self.0@[j].1),
                ));
            }
            assert(crate::types::type_views(field_types@) =~= expected);
        }
        Type::Struct(StructType { field_types, packed: self.1 })
    }
}

impl ReturnType for ArrayConstant {
    open spec fn spec_return_type(&self) -> TypeView {
        constant_return_type(self@)
    }

    fn return_type(&self) -> (t: Type) {
        proof {
            lemma_constant_views(self.1@);
        }
        Type::Array(ArrayType { size: self.1.len(), element_type: Box::new(self.0.clone()) })
    }
}

impl ReturnType for VectorConstant {
    open spec fn spec_return_type(&self) -> TypeView {
        constant_return_type(self@)
    }

    fn return_type(&self) -> (t: Type) {
        Type::Vector(self.0.clone())
    }
}

impl ReturnType for ZeroInitializionConstant {
    open spec fn spec_return_type(&self) -> TypeView {
        type_view(self.0)
    }

    fn return_type(&self) -> (t: Type) {
        self.0.clone()
    }
}

impl IRElement for Constant {
    open spec fn spec_render(&self) -> Seq<char> {
        render_constant(self@)
    }

    fn render(&self) -> (s: String) {
        render_constant_exec(self)
    }
}

impl IRElement for SimpleConstant {
    open spec fn spec_render(&self) -> Seq<char> {
        render_constant(self@)
    }

    fn render(&self) -> (s: String) {
        match self {
            SimpleConstant::Boolean(c) => c.render(),
            SimpleConstant::Integer(c) => c.render(),
            SimpleConstant::Float(c) => c.render(),
            SimpleConstant::NullPointer(c) => c.render(),
            SimpleConstant::Token(c) => c.render(),
        }
    }
}

impl IRElement for BooleanConstant {
    open spec fn spec_render(&self) -> Seq<char> {
        render_constant(self@)
    }

    fn render(&self) -> (s: String) {
        if self.0 {
            String::from_str("true")
        } else {
            String::from_str("false")
        }
    }
}

impl IRElement for IntegerConstant {
    open spec fn spec_render(&self) -> Seq<char> {
        self.0@
    }

    fn render(&self) -> (s: String) {
        self.0.clone()
    }
}

impl IRElement for FloatConstant {
    open spec fn spec_render(&self) -> Seq<char> {
        self.0@
    }

    fn render(&self) -> (s: String) {
        self.0.clone()
    }
}

impl IRElement for NullPointerConstant {
    open spec fn spec_render(&self) -> Seq<char> {
        "null"@
    }

    fn render(&self) -> (s: String) {
        String::from_str("null")
    }
}

impl IRElement for TokenConstant {
    open spec fn spec_render(&self) -> Seq<char> {
        "none"@
    }

    fn render(&self) -> (s: String) {
        String::from_str("none")
    }
}

impl IRElement for ComplexConstant {
    open spec fn spec_render(&self) -> Seq<char> {
        render_constant(self@)
    }

    fn render(&self) -> (s: String) {
        match self {
            ComplexConstant::Struct(c) => c.render(),
            ComplexConstant::Array(c) => c.render(),
            ComplexConstant::Vector(c) => c.render(),
            ComplexConstant::ZeroInitializion(c) => c.render(),
        }
    }
}

impl IRElement for StructConstant {
    open spec fn spec_render(&self) -> Seq<char> {
        render_constant(self@)
    }

    fn render(&self) -> (s: String) {
        let mut s = String::from_str("{ ");
        let fields = render_field_list_exec(&self.0, 0);
        s.append(fields.as_str());
        s.append(" }");
        proof {
            assert(field_views(self.0@).skip(0) =~= field_views(self.0@));
        }
        s
    }
}

impl IRElement for ArrayConstant {
    open spec fn spec_render(&self) -> Seq<char> {
        render_constant(self@)
    }

    fn render(&self) -> (s: String) {
        let mut s = String::from_str("[ ");
        let elems = render_element_list_exec(&self.0, &self.1, 0);
        s.append(elems.as_str());
        s.append(" ]");
        proof {
            assert(constant_views(self.1@).skip(0) =~= constant_views(self.1@));
        }
        s
    }
}

impl IRElement for VectorConstant {
    open spec fn spec_render(&self) -> Seq<char> {
        render_constant(self@)
    }

    fn render(&self) -> (s: String) {
        let mut s = String::from_str("< ");
        let elems = render_element_list_exec(&self.0.element_type, &self.1, 0);
        s.append(elems.as_str());
        s.append(" >");
        proof {
            assert(constant_views(self.1@).skip(0) =~= constant_views(self.1@));
        }
        s
    }
}

impl IRElement for ZeroInitializionConstant {
    open spec fn spec_render(&self) -> Seq<char> {
        "zeroinitializer"@
    }

    fn render(&self) -> (s: String) {
        String::from_str("zeroinitializer")
    }
}

/// The one modeled failure of aggregate-constant construction. It is raised
/// at construction time and identifies what disagreed; a malformed constant
/// can therefore never exist.
#[derive(Debug, Clone, Copy, PartialEq, Eq, Structural)]
pub enum ComplexConstantCreationError {
    /// The element or field at this index has a derived type that is not
    /// structurally equal to the declared type for its position.
    TypeMismatch { index: usize },
    /// A vector constant was given a number of elements other than the
    /// declared element count.
    LengthMismatch { expected: usize, found: usize },
    /// A declared element or field type may not stand inside an aggregate.
    DisallowedElementType,
}

/// The first index at or after `i` whose element's derived type is not the
/// expected one.
pub open spec fn first_element_mismatch(cs: Seq<ConstantView>, expected: TypeView, i: int) -> Option<
    int,
>
    decreases cs.len() - i,
{
    if i < 0 || i >= cs.len() {
        None
    } else if constant_return_type(cs[i]) != expected {
        Some(i)
    } else {
        first_element_mismatch(cs, expected, i + 1)
    }
}

/// The first index at or after `i` whose field value's derived type is not
/// the field's declared type.
pub open spec fn first_field_mismatch(fs: Seq<(TypeView, ConstantView)>, i: int) -> Option<int>
    decreases fs.len() - i,
{
    if i < 0 || i >= fs.len() {
        None
    } else if constant_return_type(fs[i].1) != fs[i].0 {
        Some(i)
    } else {
        first_field_mismatch(fs, i + 1)
    }
}

/// Every declared field type of `fs` may stand inside an aggregate.
pub open spec fn all_field_types_allowed(fs: Seq<(TypeView, ConstantView)>) -> bool {
    forall|i: int| 0 <= i < fs.len() ==> allowed_aggregate_element((#[trigger] fs[i]).0)
}

/// What building a struct constant returns, for every input: the declared
/// field types must be legal aggregate elements, and each field value must
/// derive exactly its declared type.
pub open spec fn spec_new_struct(fs: Seq<(TypeView, ConstantView)>, packed: bool) -> Result<
    ConstantView,
    ComplexConstantCreationError,
> {
    if !all_field_types_allowed(fs) {
        Err(ComplexConstantCreationError::DisallowedElementType)
    } else {
        match first_field_mismatch(fs, 0) {
            Some(i) => Err(ComplexConstantCreationError::TypeMismatch { index: i as usize }),
            None => Ok(ConstantView::Struct { fields: fs, packed }),
        }
    }
}

/// What building an array constant returns, for every input: the declared
/// element type must be a legal aggregate element, and each element must
/// derive exactly that type.
pub open spec fn spec_new_array(element_type: TypeView, cs: Seq<ConstantView>) -> Result<
    ConstantView,
    ComplexConstantCreationError,
> {
    if !allowed_aggregate_element(element_type) {
        Err(ComplexConstantCreationError::DisallowedElementType)
    } else {
        match first_element_mismatch(cs, element_type, 0) {
            Some(i) => Err(ComplexConstantCreationError::TypeMismatch { index: i as usize }),
            None => Ok(ConstantView::Array {
                element_type: Box::new(element_type),
                elements: cs,
            }),
        }
    }
}

/// What building a vector constant returns, for every input: the declared
/// element type must be single-value, the number of elements must equal the
/// declared count, and each element must derive exactly the element type.
pub open spec fn spec_new_vector(
    element_count: nat,
    element_type: TypeView,
    scalable: bool,
    cs: Seq<ConstantView>,
) -> Result<ConstantView, ComplexConstantCreationError> {
    if !is_single_value(element_type) {
        Err(ComplexConstantCreationError::DisallowedElementType)
    } else if cs.len() != element_count {
        Err(ComplexConstantCreationError::LengthMismatch {
            expected: element_count as usize,
            found: cs.len() as usize,
        })
    } else {
        match first_element_mismatch(cs, element_type, 0) {
            Some(i) => Err(ComplexConstantCreationError::TypeMismatch { index: i as usize }),
            None => Ok(ConstantView::Vector {
                element_count,
                element_type: Box::new(element_type),
                scalable,
                elements: cs,
            }),
        }
    }
}

impl StructConstant {
    /// Builds a struct constant, validating each declared type/value pair;
    /// the first disagreeing pair is reported by index. A constant that comes
    /// back `Ok` is internally type-consistent.
    #[verifier::loop_isolation(false)]
    pub fn new(fields: Vec<(Type, Constant)>, packed: bool) -> (r: Result<
        StructConstant,
        ComplexConstantCreationError,
    >)
        ensures
            match r {
                Ok(c) => {
                    &&& spec_new_struct(field_views(fields@), packed) == Ok::<
                        ConstantView,
                        ComplexConstantCreationError,
                    >(c@)
                    &&& constant_locally_consistent(c@)
                },
                Err(e) => spec_new_struct(field_views(fields@), packed) == Err::<
                    ConstantView,
                    ComplexConstantCreationError,
                >(e),
            },
    {
        proof {
            lemma_field_views(fields@);
        }
        let ghost fvs = field_views(fields@);
        let mut i: usize = 0;
        while i < fields.len()
            invariant
                i <= fields.len(),
                forall|j: int| 0 <= j < i ==> allowed_aggregate_element((#[trigger] fvs[j]).0),
            decreases fields.len() - i,
        {
            if !fields[i].0.is_allowed_aggregate_element() {
                proof {
                    assert(fvs[i as int] == (
                        type_view(fields@[i as int].0),
                        constant_view(fields@[i as int].1),
                    ));
                    assert(!all_field_types_allowed(fvs));
                }
                return Err(ComplexConstantCreationError::DisallowedElementType);
            }
            i += 1;
        }
        let mut i: usize = 0;
        while i < fields.len()
            invariant
                i <= fields.len(),
                first_field_mismatch(fvs, 0) == first_field_mismatch(fvs, i as int),
                forall|j: int|
                    0 <= j < i ==> constant_return_type((#[trigger] fvs[j]).1) == fvs[j].0,
            decreases fields.len() - i,
        {
            let derived = fields[i].1.return_type();
            if !derived.equals(&fields[i].0) {
                proof {
                    assert(first_field_mismatch(fvs, i as int) == Some(i as int));
                }
                return Err(ComplexConstantCreationError::TypeMismatch { index: i });
            }
            i += 1;
        }
        Ok(StructConstant(fields, packed))
    }
}

impl ArrayConstant {
    /// Builds an array constant, validating every element against the one
    /// declared element type; the first disagreeing element is reported by
    /// index. A constant that comes back `Ok` is internally type-consistent.
    #[verifier::loop_isolation(false)]
    pub fn new(element_type: Type, constants: Vec<Constant>) -> (r: Result<
        ArrayConstant,
        ComplexConstantCreationError,
    >)
        ensures
            match r {
                Ok(c) => {
                    &&& spec_new_array(element_type@, constant_views(constants@)) == Ok::<
                        ConstantView,
                        ComplexConstantCreationError,
                    >(c@)
                    &&& constant_locally_consistent(c@)
                },
                Err(e) => spec_new_array(element_type@, constant_views(constants@)) == Err::<
                    ConstantView,
                    ComplexConstantCreationError,
                >(e),
            },
    {
        proof {
            lemma_constant_views(constants@);
        }
        let ghost cvs = constant_views(constants@);
        if !element_type.is_allowed_aggregate_element() {
            return Err(ComplexConstantCreationError::DisallowedElementType);
        }
        let mut i: usize = 0;
        while i < constants.len()
            invariant
                i <= constants.len(),
                first_element_mismatch(cvs, element_type@, 0) == first_element_mismatch(
                    cvs,
                    element_type@,
                    i as int,
                ),
                forall|j: int|
                    0 <= j < i ==> constant_return_type(#[trigger] cvs[j]) == element_type@,
            decreases constants.len() - i,
        {
            let derived = constants[i].return_type();
            if !derived.equals(&element_type) {
                proof {
                    assert(first_element_mismatch(cvs, element_type@, i as int) == Some(i as int));
                }
                return Err(ComplexConstantCreationError::TypeMismatch { index: i });
            }
            i += 1;
        }
        Ok(ArrayConstant(element_type, constants))
    }
}

impl VectorConstant {
    /// Builds a vector constant, validating the element count and every
    /// element against the declared vector type; the first disagreeing
    /// element is reported by index. A constant that comes back `Ok` is
    /// internally type-consistent.
    #[verifier::loop_isolation(false)]
    pub fn new(vector_type: VectorType, constants: Vec<Constant>) -> (r: Result<
        VectorConstant,
        ComplexConstantCreationError,
    >)
        ensures
            match r {
                Ok(c) => {
                    &&& spec_new_vector(
                        vector_type.factor as nat,
                        vector_type.element_type@,
                        vector_type.scalable,
                        constant_views(constants@),
                    ) == Ok::<ConstantView, ComplexConstantCreationError>(c@)
                    &&& constant_locally_consistent(c@)
                },
                Err(e) => spec_new_vector(
                    vector_type.factor as nat,
                    vector_type.element_type@,
                    vector_type.scalable,
                    constant_views(constants@),
                ) == Err::<ConstantView, ComplexConstantCreationError>(e),
            },
    {
        proof {
            lemma_constant_views(constants@);
        }
        let ghost cvs = constant_views(constants@);
        if !vector_type.element_type.is_single_value() {
            return Err(ComplexConstantCreationError::DisallowedElementType);
        }
        if constants.len() != vector_type.factor {
            return Err(ComplexConstantCreationError::LengthMismatch {
                expected: vector_type.factor,
                found: constants.len(),
            });
        }
        let mut i: usize = 0;
        while i < constants.len()
            invariant
                i <= constants.len(),
                first_element_mismatch(cvs, vector_type.element_type@, 0)
                    == first_element_mismatch(cvs, vector_type.element_type@, i as int),
                forall|j: int|
                    0 <= j < i ==> constant_return_type(#[trigger] cvs[j])
                        == vector_type.element_type@,
            decreases constants.len() - i,
        {
            let derived = constants[i].return_type();
            if !derived.equals(&vector_type.element_type) {
                proof {
                    assert(first_element_mismatch(cvs, vector_type.element_type@, i as int)
                        == Some(i as int));
                }
                return Err(ComplexConstantCreationError::TypeMismatch { index: i });
            }
            i += 1;
        }
        Ok(VectorConstant(vector_type, constants))
    }
}

impl ZeroInitializionConstant {
    /// Builds the all-bits-zero constant of `target`. It exists for every
    /// type in this model, and its derived type is exactly `target`.
    pub fn new(target: Type) -> (r: ZeroInitializionConstant)
        ensures
            r@ == (ConstantView::ZeroInitializer { target: Box::new(target@) }),
            constant_return_type(r@) == target@,
    {
        ZeroInitializionConstant(target)
    }
}

/// Builds a struct constant; see `StructConstant::new`.
pub fn new_struct(fields: Vec<(Type, Constant)>, packed: bool) -> (r: Result<
    StructConstant,
    ComplexConstantCreationError,
>)
    ensures
        match r {
            Ok(c) => {
                &&& spec_new_struct(field_views(fields@), packed) == Ok::<
                    ConstantView,
                    ComplexConstantCreationError,
                >(c@)
                &&& constant_locally_consistent(c@)
            },
            Err(e) => spec_new_struct(field_views(fields@), packed) == Err::<
                ConstantView,
                ComplexConstantCreationError,
            >(e),
        },
{
    StructConstant::new(fields, packed)
}

/// Builds an array constant; see `ArrayConstant::new`.
pub fn new_array(element_type: Type, elements: Vec<Constant>) -> (r: Result<
    ArrayConstant,
    ComplexConstantCreationError,
>)
    ensures
        match r {
            Ok(c) => {
                &&& spec_new_array(element_type@, constant_views(elements@)) == Ok::<
                    ConstantView,
                    ComplexConstantCreationError,
                >(c@)
                &&& constant_locally_consistent(c@)
            },
            Err(e) => spec_new_array(element_type@, constant_views(elements@)) == Err::<
                ConstantView,
                ComplexConstantCreationError,
            >(e),
        },
{
    ArrayConstant::new(element_type, elements)
}

/// Builds a vector constant; see `VectorConstant::new`.
pub fn new_vector(vector_type: VectorType, elements: Vec<Constant>) -> (r: Result<
    VectorConstant,
    ComplexConstantCreationError,
>)
    ensures
        match r {
            Ok(c) => {
                &&& spec_new_vector(
                    vector_type.factor as nat,
                    vector_type.element_type@,
                    vector_type.scalable,
                    constant_views(elements@),
                ) == Ok::<ConstantView, ComplexConstantCreationError>(c@)
                &&& constant_locally_consistent(c@)
            },
            Err(e) => spec_new_vector(
                vector_type.factor as nat,
                vector_type.element_type@,
                vector_type.scalable,
                constant_views(elements@),
            ) == Err::<ConstantView, ComplexConstantCreationError>(e),
        },
{
    VectorConstant::new(vector_type, elements)
}

/// Builds the all-bits-zero constant of `target`; it always succeeds.
pub fn new_zero_initializer(target: Type) -> (r: ZeroInitializionConstant)
    ensures
        r@ == (ConstantView::ZeroInitializer { target: Box::new(target@) }),
        constant_return_type(r@) == target@,
{
    ZeroInitializionConstant::new(target)
}

/// The zero initializer is universal: for every type, the derived type of its
/// zero initializer is exactly that type.
pub proof fn lemma_zero_initializer_universal(t: TypeView)
    ensures
        constant_return_type(ConstantView::ZeroInitializer { target: Box::new(t) }) == t,
{
}

impl IntegerConstant {
    /// Wraps an integer literal; the text is kept verbatim.
    pub fn new(width: IntegerType, value: String) -> (r: IntegerConstant)
        ensures
            r@ == (ConstantView::Integer { text: value@, width: width.0 as nat }),
    {
        IntegerConstant(value, width)
    }
}

impl FloatConstant {
    /// Wraps a floating-point literal; the text is kept verbatim.
    pub fn new(kind: FloatType, value: String) -> (r: FloatConstant)
        ensures
            r@ == (ConstantView::Float { text: value@, kind: kind }),
    {
        FloatConstant(value, kind)
    }
}

impl NullPointerConstant {
    /// The null pointer of the given pointer type.
    pub fn new(pointer_type: PointerType) -> (r: NullPointerConstant)
        ensures
            r@ == (ConstantView::NullPointer {
                pointee: Box::new(pointer_type.pointee@),
                address_space: pointer_type.address_space as nat,
            }),
    {
        NullPointerConstant(pointer_type)
    }
}

impl From<bool> for BooleanConstant {
    fn from(value: bool) -> (r: BooleanConstant) {
        BooleanConstant(value)
    }
}

impl vstd::std_specs::convert::FromSpecImpl<bool> for BooleanConstant {
    open spec fn obeys_from_spec() -> bool {
        true
    }

    open spec fn from_spec(value: bool) -> BooleanConstant {
        BooleanConstant(value)
    }
}

impl From<SimpleConstant> for Constant {
    fn from(c: SimpleConstant) -> (r: Constant) {
        Constant::Simple(c)
    }
}

impl vstd::std_specs::convert::FromSpecImpl<SimpleConstant> for Constant {
    open spec fn obeys_from_spec() -> bool {
        true
    }

    open spec fn from_spec(c: SimpleConstant) -> Constant {
        Constant::Simple(c)
    }
}

impl From<ComplexConstant> for Constant {
    fn from(c: ComplexConstant) -> (r: Constant) {
        Constant::Complex(c)
    }
}

impl vstd::std_specs::convert::FromSpecImpl<ComplexConstant> for Constant {
    open spec fn obeys_from_spec() -> bool {
        true
    }

    open spec fn from_spec(c: ComplexConstant) -> Constant {
        Constant::Complex(c)
    }
}

impl From<BooleanConstant> for Constant {
    fn from(c: BooleanConstant) -> (r: Constant) {
        Constant::Simple(SimpleConstant::Boolean(c))
    }
}

impl vstd::std_specs::convert::FromSpecImpl<BooleanConstant> for Constant {
    open spec fn obeys_from_spec() -> bool {
        true
    }

    open spec fn from_spec(c: BooleanConstant) -> Constant {
        Constant::Simple(SimpleConstant::Boolean(c))
    }
}

impl From<IntegerConstant> for Constant {
    fn from(c: IntegerConstant) -> (r: Constant) {
        Constant::Simple(SimpleConstant::Integer(c))
    }
}

impl vstd::std_specs::convert::FromSpecImpl<IntegerConstant> for Constant {
    open spec fn obeys_from_spec() -> bool {
        true
    }

    open spec fn from_spec(c: IntegerConstant) -> Constant {
        Constant::Simple(SimpleConstant::Integer(c))
    }
}

impl From<FloatConstant> for Constant {
    fn from(c: FloatConstant) -> (r: Constant) {
        Constant::Simple(SimpleConstant::Float(c))
    }
}

impl vstd::std_specs::convert::FromSpecImpl<FloatConstant> for Constant {
    open spec fn obeys_from_spec() -> bool {
        true
    }

    open spec fn from_spec(c: FloatConstant) -> Constant {
        Constant::Simple(SimpleConstant::Float(c))
    }
}

impl From<NullPointerConstant> for Constant {
    fn from(c: NullPointerConstant) -> (r: Constant) {
        Constant::Simple(SimpleConstant::NullPointer(c))
    }
}

impl vstd::std_specs::convert::FromSpecImpl<NullPointerConstant> for Constant {
    open spec fn obeys_from_spec() -> bool {
        true
    }

    open spec fn from_spec(c: NullPointerConstant) -> Constant {
        Constant::Simple(SimpleConstant::NullPointer(c))
    }
}

impl From<TokenConstant> for Constant {
    fn from(c: TokenConstant) -> (r: Constant) {
        Constant::Simple(SimpleConstant::Token(c))
    }
}

impl vstd::std_specs::convert::FromSpecImpl<TokenConstant> for Constant {
    open spec fn obeys_from_spec() -> bool {
        true
    }

    open spec fn from_spec(c: TokenConstant) -> Constant {
        Constant::Simple(SimpleConstant::Token(c))
    }
}

impl From<StructConstant> for Constant {
    fn from(c: StructConstant) -> (r: Constant) {
        Constant::Complex(ComplexConstant::Struct(c))
    }
}

impl vstd::std_specs::convert::FromSpecImpl<StructConstant> for Constant {
    open spec fn obeys_from_spec() -> bool {
        true
    }

    open spec fn from_spec(c: StructConstant) -> Constant {
        Constant::Complex(ComplexConstant::Struct(c))
    }
}

impl From<ArrayConstant> for Constant {
    fn from(c: ArrayConstant) -> (r: Constant) {
        Constant::Complex(ComplexConstant::Array(c))
    }
}

impl vstd::std_specs::convert::FromSpecImpl<ArrayConstant> for Constant {
    open spec fn obeys_from_spec() -> bool {
        true
    }

    open spec fn from_spec(c: ArrayConstant) -> Constant {
        Constant::Complex(ComplexConstant::Array(c))
    }
}

impl From<VectorConstant> for Constant {
    fn from(c: VectorConstant) -> (r: Constant) {
        Constant::Complex(ComplexConstant::Vector(c))
    }
}

impl vstd::std_specs::convert::FromSpecImpl<VectorConstant> for Constant {
    open spec fn obeys_from_spec() -> bool {
        true
    }

    open spec fn from_spec(c: VectorConstant) -> Constant {
        Constant::Complex(ComplexConstant::Vector(c))
    }
}

impl From<ZeroInitializionConstant> for Constant {
    fn from(c: ZeroInitializionConstant) -> (r: Constant) {
        Constant::Complex(ComplexConstant::ZeroInitializion(c))
    }
}

impl vstd::std_specs::convert::FromSpecImpl<ZeroInitializionConstant> for Constant {
    open spec fn obeys_from_spec() -> bool {
        true
    }

    open spec fn from_spec(c: ZeroInitializionConstant) -> Constant {
        Constant::Complex(ComplexConstant::ZeroInitializion(c))
    }
}

} // verus!
