//! The type model: a closed, recursive algebra of first-class and aggregate
//! types with structural equality and a canonical textual rendering.
//!
//! `Type` is the executable tree; `TypeView` is its mathematical image, used
//! by every contract. Two types are equal exactly when their views are equal,
//! which is structural (deep) equality.

use vstd::prelude::*;

use crate::text::{dec_str, usize_to_string};
use crate::IRElement;

verus! {

broadcast use vstd::seq::group_seq_axioms, vstd::std_specs::vec::group_vec_axioms;

/// The mathematical image of a `Type`: the same tree with mathematical
/// integers and sequences in place of machine integers and vectors.
pub enum TypeView {
    Void,
    Function { return_type: Box<TypeView>, argument_types: Seq<TypeView> },
    Integer { bits: nat },
    Float { kind: FloatType },
    X86AMX,
    X86MMX,
    Pointer { pointee: Box<TypeView>, address_space: nat },
    Vector { element_count: nat, element_type: Box<TypeView>, scalable: bool },
    Label,
    Token,
    Metadata,
    Array { length: nat, element_type: Box<TypeView> },
    Struct { field_types: Seq<TypeView>, packed: bool },
    OpaqueStruct,
}

/// A first-class type is one a value can have: everything except `void` and
/// function signatures.
pub open spec fn is_first_class(t: TypeView) -> bool {
    !(t is Void || t is Function)
}

/// A single-value type occupies one register-like slot.
pub open spec fn is_single_value(t: TypeView) -> bool {
    t is Integer || t is Float || t is X86AMX || t is X86MMX || t is Pointer || t is Vector
}

/// A type that may stand as the element type of an array or the field type of
/// a struct: first-class, and never `metadata`.
pub open spec fn allowed_aggregate_element(t: TypeView) -> bool {
    is_first_class(t) && !(t is Metadata)
}

/// A closed, immutable, structurally-comparable type tree.
#[derive(Debug)]
pub enum Type {
    Void,
    Function(FunctionType),
    Integer(IntegerType),
    Float(FloatType),
    X86AMX(X86AMXType),
    X86MMX(X86MMXType),
    Pointer(PointerType),
    Vector(VectorType),
    Label(LabelType),
    Token(TokenType),
    Metadata(MetadataType),
    Array(ArrayType),
    Struct(StructType),
    OpaqueStruct(OpaqueStructType),
}

/// A callable signature: not itself a value type.
#[derive(Debug)]
pub struct FunctionType {
    pub return_type: Box<Type>,
    pub argument_types: Vec<Type>,
}

/// An integer type of the given bit width; renders as `i<width>`.
#[derive(Debug, Clone, Copy, PartialEq, Eq, Structural)]
pub struct IntegerType(pub usize);

/// The floating-point kinds, each with a fixed keyword.
#[derive(Debug, Clone, Copy, PartialEq, Eq, Structural)]
pub enum FloatType {
    Half,
    BFloat,
    Float,
    Double,
    FP128,
    X86FP80,
    PPCFP128,
}

/// The x86 AMX tile type.
#[derive(Debug, Clone, Copy, PartialEq, Eq, Structural)]
pub struct X86AMXType;

/// The x86 MMX register type.
#[derive(Debug, Clone, Copy, PartialEq, Eq, Structural)]
pub struct X86MMXType;

/// A pointer into the given address space. A pointer to an opaque struct
/// renders as the bare `ptr` form; every other pointee keeps the typed
/// `<pointee>*` form.
#[derive(Debug)]
pub struct PointerType {
    pub pointee: Box<Type>,
    pub address_space: usize,
}

/// A vector of `factor` elements of a single-value type, possibly scalable.
#[derive(Debug)]
pub struct VectorType {
    pub factor: usize,
    pub element_type: Box<Type>,
    pub scalable: bool,
}

/// The basic-block label type.
#[derive(Debug, Clone, Copy, PartialEq, Eq, Structural)]
pub struct LabelType;

/// The token type.
#[derive(Debug, Clone, Copy, PartialEq, Eq, Structural)]
pub struct TokenType;

/// The metadata type. It may never appear as the element type of an array,
/// struct or vector.
#[derive(Debug, Clone, Copy, PartialEq, Eq, Structural)]
pub struct MetadataType;

/// An array of `size` elements of one element type.
#[derive(Debug)]
pub struct ArrayType {
    pub size: usize,
    pub element_type: Box<Type>,
}

/// A struct over an ordered list of field types, optionally packed.
#[derive(Debug)]
pub struct StructType {
    pub field_types: Vec<Type>,
    pub packed: bool,
}

/// An incomplete (opaque) struct with unknown layout.
#[derive(Debug, Clone, Copy, PartialEq, Eq, Structural)]
pub struct OpaqueStructType;

/// The mathematical image of a type tree.
pub open spec fn type_view(t: Type) -> TypeView
    decreases t,
{
    match t {
        Type::Void => TypeView::Void,
        Type::Function(ft) => TypeView::Function {
            return_type: Box::new(type_view(*ft.return_type)),
            argument_types: type_views(ft.argument_types@),
        },
        Type::Integer(it) => TypeView::Integer { bits: it.0 as nat },
        Type::Float(kind) => TypeView::Float { kind },
        Type::X86AMX(_) => TypeView::X86AMX,
        Type::X86MMX(_) => TypeView::X86MMX,
        Type::Pointer(p) => TypeView::Pointer {
            pointee: Box::new(type_view(*p.pointee)),
            address_space: p.address_space as nat,
        },
        Type::Vector(v) => TypeView::Vector {
            element_count: v.factor as nat,
            element_type: Box::new(type_view(*v.element_type)),
            scalable: v.scalable,
        },
        Type::Label(_) => TypeView::Label,
        Type::Token(_) => TypeView::Token,
        Type::Metadata(_) => TypeView::Metadata,
        Type::Array(a) => TypeView::Array {
            length: a.size as nat,
            element_type: Box::new(type_view(*a.element_type)),
        },
        Type::Struct(s) => TypeView::Struct {
            field_types: type_views(s.field_types@),
            packed: s.packed,
        },
        Type::OpaqueStruct(_) => TypeView::OpaqueStruct,
    }
}

/// The views of a sequence of types, in order.
pub open spec fn type_views(ts: Seq<Type>) -> Seq<TypeView>
    decreases ts,
{
    if ts.len() == 0 {
        Seq::empty()
    } else {
        type_views(ts.drop_last()).push(type_view(ts.last()))
    }
}

/// `type_views` maps the view over the sequence, element by element.
pub proof fn lemma_type_views(ts: Seq<Type>)
    ensures
        type_views(ts).len() == ts.len(),
        forall|i: int| 0 <= i < ts.len() ==> type_views(ts)[i] == type_view(ts[i]),
    decreases ts,
{
    if ts.len() > 0 {
        lemma_type_views(ts.drop_last());
    }
}

impl View for Type {
    type V = TypeView;

    open spec fn view(&self) -> TypeView {
        type_view(*self)
    }
}

impl View for FunctionType {
    type V = TypeView;

    open spec fn view(&self) -> TypeView {
        TypeView::Function {
            return_type: Box::new(type_view(*self.return_type)),
            argument_types: type_views(self.argument_types@),
        }
    }
}

impl View for IntegerType {
    type V = TypeView;

    open spec fn view(&self) -> TypeView {
        TypeView::Integer { bits: self.0 as nat }
    }
}

impl View for PointerType {
    type V = TypeView;

    open spec fn view(&self) -> TypeView {
        TypeView::Pointer {
            pointee: Box::new(type_view(*self.pointee)),
            address_space: self.address_space as nat,
        }
    }
}

impl View for VectorType {
    type V = TypeView;

    open spec fn view(&self) -> TypeView {
        TypeView::Vector {
            element_count: self.factor as nat,
            element_type: Box::new(type_view(*self.element_type)),
            scalable: self.scalable,
        }
    }
}

impl View for ArrayType {
    type V = TypeView;

    open spec fn view(&self) -> TypeView {
        TypeView::Array {
            length: self.size as nat,
            element_type: Box::new(type_view(*self.element_type)),
        }
    }
}

impl View for StructType {
    type V = TypeView;

    open spec fn view(&self) -> TypeView {
        TypeView::Struct { field_types: type_views(self.field_types@), packed: self.packed }
    }
}

/// The canonical textual form of a type.
pub open spec fn render_type(t: TypeView) -> Seq<char>
    decreases t,
{
    match t {
        TypeView::Void => "void"@,
        TypeView::Function { return_type, argument_types } => render_type(*return_type) + " ( "@
            + render_type_list(argument_types) + " )"@,
        TypeView::Integer { bits } => "i"@ + dec_str(bits),
        TypeView::Float { kind } => render_float_kind(kind),
        TypeView::X86AMX => "x86_amx"@,
        TypeView::X86MMX => "x86_mmx"@,
        TypeView::Pointer { pointee, address_space } => {
            if *pointee is OpaqueStruct {
                if address_space == 0 {
                    "ptr"@
                } else {
                    "ptr addrspace("@ + dec_str(address_space) + ")"@
                }
            } else {
                if address_space == 0 {
                    render_type(*pointee) + "*"@
                } else {
                    render_type(*pointee) + " addrspace("@ + dec_str(address_space) + ")*"@
                }
            }
        },
        TypeView::Vector { element_count, element_type, scalable } => {
            if scalable {
                "<vscale x "@ + dec_str(element_count) + " x "@ + render_type(*element_type)
                    + ">"@
            } else {
                "<"@ + dec_str(element_count) + " x "@ + render_type(*element_type) + ">"@
            }
        },
        TypeView::Label => "label"@,
        TypeView::Token => "token"@,
        TypeView::Metadata => "metadata"@,
        TypeView::Array { length, element_type } => "[ "@ + dec_str(length) + " x "@
            + render_type(*element_type) + " ]"@,
        TypeView::Struct { field_types, packed } => {
            if packed {
                "<"@ + "{ "@ + render_type_list(field_types) + " }"@ + ">"@
            } else {
                "{ "@ + render_type_list(field_types) + " }"@
            }
        },
        TypeView::OpaqueStruct => "opaque"@,
    }
}

/// The fixed keyword of each floating-point kind.
pub open spec fn render_float_kind(kind: FloatType) -> Seq<char> {
    match kind {
        FloatType::Half => "half"@,
        FloatType::BFloat => "bfloat"@,
        FloatType::Float => "float"@,
        FloatType::Double => "double"@,
        FloatType::FP128 => "fp128"@,
        FloatType::X86FP80 => "x86_fp80"@,
        FloatType::PPCFP128 => "ppc_fp128"@,
    }
}

/// A comma-separated list of rendered types.
pub open spec fn render_type_list(ts: Seq<TypeView>) -> Seq<char>
    decreases ts,
{
    if ts.len() == 0 {
        Seq::empty()
    } else if ts.len() == 1 {
        render_type(ts[0])
    } else {
        render_type(ts[0]) + ", "@ + render_type_list(ts.drop_first())
    }
}

/// Renders one type tree.
fn render_type_exec(t: &Type) -> (r: String)
    ensures
        r@ == render_type(t@),
    decreases t,
{
    match t {
        Type::Void => String::from_str("void"),
        Type::Function(ft) => render_function_type_exec(ft),
        Type::Integer(it) => {
            let mut s = String::from_str("i");
            let num = usize_to_string(it.0);
            s.append(num.as_str());
            s
        },
        Type::Float(kind) => render_float_kind_exec(kind),
        Type::X86AMX(_) => String::from_str("x86_amx"),
        Type::X86MMX(_) => String::from_str("x86_mmx"),
        Type::Pointer(p) => render_pointer_type_exec(p),
        Type::Vector(v) => render_vector_type_exec(v),
        Type::Label(_) => String::from_str("label"),
        Type::Token(_) => String::from_str("token"),
        Type::Metadata(_) => String::from_str("metadata"),
        Type::Array(a) => render_array_type_exec(a),
        Type::Struct(st) => render_struct_type_exec(st),
        Type::OpaqueStruct(_) => String::from_str("opaque"),
    }
}

/// Renders the fixed keyword of a floating-point kind.
fn render_float_kind_exec(kind: &FloatType) -> (r: String)
    ensures
        r@ == render_float_kind(*kind),
{
    match kind {
        FloatType::Half => String::from_str("half"),
        FloatType::BFloat => String::from_str("bfloat"),
        FloatType::Float => String::from_str("float"),
        FloatType::Double => String::from_str("double"),
        FloatType::FP128 => String::from_str("fp128"),
        FloatType::X86FP80 => String::from_str("x86_fp80"),
        FloatType::PPCFP128 => String::from_str("ppc_fp128"),
    }
}

/// Renders a function signature: `<return> ( <arg0>, <arg1>, ... )`.
fn render_function_type_exec(ft: &FunctionType) -> (r: String)
    ensures
        r@ == render_type(ft@),
    decreases ft,
{
    let mut s = render_type_exec(&ft.return_type);
    s.append(" ( ");
    let args = render_type_list_exec(&ft.argument_types, 0);
    s.append(args.as_str());
    s.append(" )");
    proof {
        assert(type_views(ft.argument_types@).skip(0) =~= type_views(ft.argument_types@));
    }
    s
}

/// Renders a pointer type, branching on the opacity of the pointee.
fn render_pointer_type_exec(p: &PointerType) -> (r: String)
    ensures
        r@ == render_type(p@),
    decreases p,
{
    let opaque_pointee = matches!(&*p.pointee, Type::OpaqueStruct(_));
    if opaque_pointee {
        if p.address_space == 0 {
            String::from_str("ptr")
        } else {
            let mut s = String::from_str("ptr addrspace(");
            let num = usize_to_string(p.address_space);
            s.append(num.as_str());
            s.append(")");
            s
        }
    } else {
        let mut s = render_type_exec(&p.pointee);
        if p.address_space == 0 {
            s.append("*");
        } else {
            s.append(" addrspace(");
            let num = usize_to_string(p.address_space);
            s.append(num.as_str());
            s.append(")*");
        }
        s
    }
}

/// Renders a vector type: `<<n> x <elem>>`, with `vscale x ` when scalable.
fn render_vector_type_exec(v: &VectorType) -> (r: String)
    ensures
        r@ == render_type(v@),
    decreases v,
{
    let mut s = if v.scalable {
        String::from_str("<vscale x ")
    } else {
        String::from_str("<")
    };
    let num = usize_to_string(v.factor);
    s.append(num.as_str());
    s.append(" x ");
    let elem = render_type_exec(&v.element_type);
    s.append(elem.as_str());
    s.append(">");
    s
}

/// Renders an array type: `[ <n> x <elem> ]`.
fn render_array_type_exec(a: &ArrayType) -> (r: String)
    ensures
        r@ == render_type(a@),
    decreases a,
{
    let mut s = String::from_str("[ ");
    let num = usize_to_string(a.size);
    s.append(num.as_str());
    s.append(" x ");
    let elem = render_type_exec(&a.element_type);
    s.append(elem.as_str());
    s.append(" ]");
    s
}

/// Renders a struct type in value position: `{ <f0>, <f1>, ... }`, wrapped in
/// `<` `>` when packed.
fn render_struct_type_exec(st: &StructType) -> (r: String)
    ensures
        r@ == render_type(st@),
    decreases st,
{
    let mut s = if st.packed {
        String::from_str("<")
    } else {
        String::new()
    };
    s.append("{ ");
    let fields = render_type_list_exec(&st.field_types, 0);
    s.append(fields.as_str());
    s.append(" }");
    if st.packed {
        s.append(">");
    }
    proof {
        assert(type_views(st.field_types@).skip(0) =~= type_views(st.field_types@));
    }
    s
}

/// Renders the types from index `i` on, comma-separated.
fn render_type_list_exec(ts: &Vec<Type>, i: usize) -> (r: String)
    requires
        i <= ts.len(),
    ensures
        r@ == render_type_list(type_views(ts@).skip(i as int)),
    decreases ts, ts.len() - i,
{
    proof {
        lemma_type_views(ts@);
    }
    if i == ts.len() {
        proof {
            assert(type_views(ts@).skip(i as int) =~= Seq::<TypeView>::empty());
        }
        String::new()
    } else {
        let mut s = render_type_exec(&ts[i]);
        let ghost vs = type_views(ts@).skip(i as int);
        proof {
            assert(vs[0] == type_view(ts@[i as int]));
        }
        if i + 1 < ts.len() {
            s.append(", ");
            let rest = render_type_list_exec(ts, i + 1);
            s.append(rest.as_str());
            proof {
                assert(vs.drop_first() =~= type_views(ts@).skip(i as int + 1));
                assert(vs.len() > 1);
            }
        } else {
            proof {
                assert(vs.len() == 1);
            }
        }
        s
    }
}

impl IRElement for Type {
    open spec fn spec_render(&self) -> Seq<char> {
        render_type(self@)
    }

    fn render(&self) -> (s: String) {
        render_type_exec(self)
    }
}

impl IRElement for FunctionType {
    open spec fn spec_render(&self) -> Seq<char> {
        render_type(self@)
    }

    fn render(&self) -> (s: String) {
        render_function_type_exec(self)
    }
}

impl IRElement for IntegerType {
    open spec fn spec_render(&self) -> Seq<char> {
        render_type(self@)
    }

    fn render(&self) -> (s: String) {
        let mut s = String::from_str("i");
        let num = usize_to_string(self.0);
        s.append(num.as_str());
        s
    }
}

impl IRElement for FloatType {
    open spec fn spec_render(&self) -> Seq<char> {
        render_float_kind(*self)
    }

    fn render(&self) -> (s: String) {
        render_float_kind_exec(self)
    }
}

impl IRElement for X86AMXType {
    open spec fn spec_render(&self) -> Seq<char> {
        "x86_amx"@
    }

    fn render(&self) -> (s: String) {
        String::from_str("x86_amx")
    }
}

impl IRElement for X86MMXType {
    open spec fn spec_render(&self) -> Seq<char> {
        "x86_mmx"@
    }

    fn render(&self) -> (s: String) {
        String::from_str("x86_mmx")
    }
}

impl IRElement for PointerType {
    open spec fn spec_render(&self) -> Seq<char> {
        render_type(self@)
    }

    fn render(&self) -> (s: String) {
        render_pointer_type_exec(self)
    }
}

impl IRElement for VectorType {
    open spec fn spec_render(&self) -> Seq<char> {
        render_type(self@)
    }

    fn render(&self) -> (s: String) {
        render_vector_type_exec(self)
    }
}

impl IRElement for LabelType {
    open spec fn spec_render(&self) -> Seq<char> {
        "label"@
    }

    fn render(&self) -> (s: String) {
        String::from_str("label")
    }
}

impl IRElement for TokenType {
    open spec fn spec_render(&self) -> Seq<char> {
        "token"@
    }

    fn render(&self) -> (s: String) {
        String::from_str("token")
    }
}

impl IRElement for MetadataType {
    open spec fn spec_render(&self) -> Seq<char> {
        "metadata"@
    }

    fn render(&self) -> (s: String) {
        String::from_str("metadata")
    }
}

impl IRElement for ArrayType {
    open spec fn spec_render(&self) -> Seq<char> {
        render_type(self@)
    }

    fn render(&self) -> (s: String) {
        render_array_type_exec(self)
    }
}

impl IRElement for StructType {
    open spec fn spec_render(&self) -> Seq<char> {
        render_type(self@)
    }

    fn render(&self) -> (s: String) {
        render_struct_type_exec(self)
    }
}

impl IRElement for OpaqueStructType {
    open spec fn spec_render(&self) -> Seq<char> {
        "opaque"@
    }

    fn render(&self) -> (s: String) {
        String::from_str("opaque")
    }
}

/// The one failure of type construction: a container type was asked to hold
/// a structurally illegal element type (for example `metadata` inside an
/// array). The type model itself is a pure algebra and never fails; the
/// constructor that would create the illegal combination rejects it.
#[derive(Debug, Clone, Copy, PartialEq, Eq, Structural)]
pub enum TypeError {
    DisallowedElementType,
}

/// Every type in a sequence may stand as an aggregate element.
pub open spec fn all_allowed_aggregate_elements(ts: Seq<TypeView>) -> bool {
    forall|i: int| 0 <= i < ts.len() ==> allowed_aggregate_element(#[trigger] ts[i])
}

impl Type {
    /// Whether a value can have this type: everything except `void` and
    /// function signatures.
    pub fn is_first_class(&self) -> (r: bool)
        ensures
            r == is_first_class(self@),
    {
        match self {
            Type::Void => false,
            Type::Function(_) => false,
            _ => true,
        }
    }

    /// Whether this type occupies a single register-like slot.
    pub fn is_single_value(&self) -> (r: bool)
        ensures
            r == is_single_value(self@),
    {
        match self {
            Type::Integer(_) => true,
            Type::Float(_) => true,
            Type::X86AMX(_) => true,
            Type::X86MMX(_) => true,
            Type::Pointer(_) => true,
            Type::Vector(_) => true,
            _ => false,
        }
    }

    /// Whether this type may stand as the element type of an array or the
    /// field type of a struct.
    pub fn is_allowed_aggregate_element(&self) -> (r: bool)
        ensures
            r == allowed_aggregate_element(self@),
    {
        self.is_first_class() && !matches!(self, Type::Metadata(_))
    }

    /// Structural deep equality: true exactly when the two type trees have
    /// the same shape and the same leaves. This is the sole type-compatibility
    /// check of the constant model; no implicit widening or coercion exists.
    pub fn equals(&self, other: &Type) -> (r: bool)
        ensures
            r == (self@ == other@),
    {
        type_eq(self, other)
    }
}

/// Structural equality of two type trees.
fn type_eq(a: &Type, b: &Type) -> (r: bool)
    ensures
        r == (a@ == b@),
    decreases a,
{
    match (a, b) {
        (Type::Void, Type::Void) => true,
        (Type::Function(x), Type::Function(y)) => {
            let ret_eq = type_eq(&x.return_type, &y.return_type);
            ret_eq && type_vecs_eq(&x.argument_types, &y.argument_types)
        },
        (Type::Integer(x), Type::Integer(y)) => x.0 == y.0,
        (Type::Float(x), Type::Float(y)) => x == y,
        (Type::X86AMX(_), Type::X86AMX(_)) => true,
        (Type::X86MMX(_), Type::X86MMX(_)) => true,
        (Type::Pointer(x), Type::Pointer(y)) => {
            let pointee_eq = type_eq(&x.pointee, &y.pointee);
            pointee_eq && x.address_space == y.address_space
        },
        (Type::Vector(x), Type::Vector(y)) => {
            let elem_eq = type_eq(&x.element_type, &y.element_type);
            elem_eq && x.factor == y.factor && x.scalable == y.scalable
        },
        (Type::Label(_), Type::Label(_)) => true,
        (Type::Token(_), Type::Token(_)) => true,
        (Type::Metadata(_), Type::Metadata(_)) => true,
        (Type::Array(x), Type::Array(y)) => {
            let elem_eq = type_eq(&x.element_type, &y.element_type);
            elem_eq && x.size == y.size
        },
        (Type::Struct(x), Type::Struct(y)) => {
            let fields_eq = type_vecs_eq(&x.field_types, &y.field_types);
            fields_eq && x.packed == y.packed
        },
        (Type::OpaqueStruct(_), Type::OpaqueStruct(_)) => true,
        _ => false,
    }
}

/// Structural equality of two sequences of types, element by element.
#[verifier::loop_isolation(false)]
fn type_vecs_eq(x: &Vec<Type>, y: &Vec<Type>) -> (r: bool)
    ensures
        r == (type_views(x@) == type_views(y@)),
    decreases x,
{
    proof {
        lemma_type_views(x@);
        lemma_type_views(y@);
    }
    if x.len() != y.len() {
        return false;
    }
    let mut i: usize = 0;
    while i < x.len()
        invariant
            i <= x.len(),
            forall|j: int| 0 <= j < i ==> type_views(x@)[j] == type_views(y@)[j],
        decreases x.len() - i,
    {
        if !type_eq(&x[i], &y[i]) {
            proof {
                assert(type_views(x@)[i as int] == type_view(x@[i as int]));
                assert(type_views(y@)[i as int] == type_view(y@[i as int]));
            }
            return false;
        }
        i += 1;
    }
    proof {
        assert(type_views(x@) =~= type_views(y@));
    }
    true
}

impl PartialEq for Type {
    fn eq(&self, other: &Self) -> (r: bool) {
        type_eq(self, other)
    }
}

impl vstd::std_specs::cmp::PartialEqSpecImpl for Type {
    open spec fn obeys_eq_spec() -> bool {
        true
    }

    open spec fn eq_spec(&self, other: &Self) -> bool {
        self@ == other@
    }
}

/// Clones one type tree; the copy has the same view.
fn clone_type(t: &Type) -> (r: Type)
    ensures
        r@ == t@,
    decreases t,
{
    match t {
        Type::Void => Type::Void,
        Type::Function(ft) => Type::Function(
            FunctionType {
                return_type: Box::new(clone_type(&ft.return_type)),
                argument_types: clone_types(&ft.argument_types),
            },
        ),
        Type::Integer(it) => Type::Integer(*it),
        Type::Float(kind) => Type::Float(*kind),
        Type::X86AMX(x) => Type::X86AMX(*x),
        Type::X86MMX(x) => Type::X86MMX(*x),
        Type::Pointer(p) => Type::Pointer(
            PointerType {
                pointee: Box::new(clone_type(&p.pointee)),
                address_space: p.address_space,
            },
        ),
        Type::Vector(v) => Type::Vector(
            VectorType {
                factor: v.factor,
                element_type: Box::new(clone_type(&v.element_type)),
                scalable: v.scalable,
            },
        ),
        Type::Label(x) => Type::Label(*x),
        Type::Token(x) => Type::Token(*x),
        Type::Metadata(x) => Type::Metadata(*x),
        Type::Array(a) => Type::Array(
            ArrayType { size: a.size, element_type: Box::new(clone_type(&a.element_type)) },
        ),
        Type::Struct(st) => Type::Struct(
            StructType { field_types: clone_types(&st.field_types), packed: st.packed },
        ),
        Type::OpaqueStruct(x) => Type::OpaqueStruct(*x),
    }
}

/// Clones a vector of types; the copy has the same sequence of views.
#[verifier::loop_isolation(false)]
fn clone_types(v: &Vec<Type>) -> (r: Vec<Type>)
    ensures
        type_views(r@) == type_views(v@),
    decreases v,
{
    let mut out: Vec<Type> = Vec::new();
    let mut i: usize = 0;
    while i < v.len()
        invariant
            i <= v.len(),
            out@.len() == i,
            forall|j: int| 0 <= j < i ==> #[trigger] out@[j]@ == v@[j]@,
        decreases v.len() - i,
    {
        let c = clone_type(&v[i]);
        out.push(c);
        i += 1;
    }
    proof {
        lemma_type_views(out@);
        lemma_type_views(v@);
        assert forall|j: int| 0 <= j < v@.len() implies type_views(out@)[j] == type_views(
            v@,
        )[j] by {
            assert(out@[j]@ == v@[j]@);
        }
        assert(type_views(out@) =~= type_views(v@));
    }
    out
}

impl Clone for Type {
    fn clone(&self) -> (r: Self)
        ensures
            r@ == self@,
    {
        clone_type(self)
    }
}

impl Clone for FunctionType {
    fn clone(&self) -> (r: Self)
        ensures
            r@ == self@,
    {
        FunctionType {
            return_type: Box::new(clone_type(&self.return_type)),
            argument_types: clone_types(&self.argument_types),
        }
    }
}

impl Clone for PointerType {
    fn clone(&self) -> (r: Self)
        ensures
            r@ == self@,
    {
        PointerType {
            pointee: Box::new(clone_type(&self.pointee)),
            address_space: self.address_space,
        }
    }
}

impl Clone for VectorType {
    fn clone(&self) -> (r: Self)
        ensures
            r@ == self@,
    {
        VectorType {
            factor: self.factor,
            element_type: Box::new(clone_type(&self.element_type)),
            scalable: self.scalable,
        }
    }
}

impl Clone for ArrayType {
    fn clone(&self) -> (r: Self)
        ensures
            r@ == self@,
    {
        ArrayType { size: self.size, element_type: Box::new(clone_type(&self.element_type)) }
    }
}

impl Clone for StructType {
    fn clone(&self) -> (r: Self)
        ensures
            r@ == self@,
    {
        StructType { field_types: clone_types(&self.field_types), packed: self.packed }
    }
}

impl FunctionType {
    /// Builds a function signature type from a return type and argument
    /// types. The type model itself never fails.
    pub fn new(return_type: Type, argument_types: Vec<Type>) -> (r: FunctionType)
        ensures
            r@ == (TypeView::Function {
                return_type: Box::new(return_type@),
                argument_types: type_views(argument_types@),
            }),
    {
        FunctionType { return_type: Box::new(return_type), argument_types }
    }
}

impl PointerType {
    /// Builds a pointer type in the default address space.
    pub fn new(pointee: Type) -> (r: PointerType)
        ensures
            r@ == (TypeView::Pointer { pointee: Box::new(pointee@), address_space: 0 }),
    {
        PointerType { pointee: Box::new(pointee), address_space: 0 }
    }

    /// Builds a pointer type in the given address space.
    pub fn new_with_address_space(pointee: Type, address_space: usize) -> (r: PointerType)
        ensures
            r@ == (TypeView::Pointer {
                pointee: Box::new(pointee@),
                address_space: address_space as nat,
            }),
    {
        PointerType { pointee: Box::new(pointee), address_space }
    }
}

impl VectorType {
    /// Builds a fixed-count vector type. The element must be a single-value
    /// type; any other element is rejected.
    pub fn new(factor: usize, element_type: Type) -> (r: Result<VectorType, TypeError>)
        ensures
            match r {
                Ok(v) => is_single_value(element_type@) && v@ == (TypeView::Vector {
                    element_count: factor as nat,
                    element_type: Box::new(element_type@),
                    scalable: false,
                }),
                Err(e) => !is_single_value(element_type@) && e
                    == TypeError::DisallowedElementType,
            },
    {
        if element_type.is_single_value() {
            Ok(VectorType { factor, element_type: Box::new(element_type), scalable: false })
        } else {
            Err(TypeError::DisallowedElementType)
        }
    }

    /// Builds a scalable vector type, under the same element restriction.
    pub fn new_scalable(factor: usize, element_type: Type) -> (r: Result<VectorType, TypeError>)
        ensures
            match r {
                Ok(v) => is_single_value(element_type@) && v@ == (TypeView::Vector {
                    element_count: factor as nat,
                    element_type: Box::new(element_type@),
                    scalable: true,
                }),
                Err(e) => !is_single_value(element_type@) && e
                    == TypeError::DisallowedElementType,
            },
    {
        if element_type.is_single_value() {
            Ok(VectorType { factor, element_type: Box::new(element_type), scalable: true })
        } else {
            Err(TypeError::DisallowedElementType)
        }
    }
}

impl ArrayType {
    /// Builds an array type. The element must be first-class and must not be
    /// `metadata`; any other element is rejected.
    pub fn new(size: usize, element_type: Type) -> (r: Result<ArrayType, TypeError>)
        ensures
            match r {
                Ok(a) => allowed_aggregate_element(element_type@) && a@ == (TypeView::Array {
                    length: size as nat,
                    element_type: Box::new(element_type@),
                }),
                Err(e) => !allowed_aggregate_element(element_type@) && e
                    == TypeError::DisallowedElementType,
            },
    {
        if element_type.is_allowed_aggregate_element() {
            Ok(ArrayType { size, element_type: Box::new(element_type) })
        } else {
            Err(TypeError::DisallowedElementType)
        }
    }
}

/// Every type of `v` may stand as an aggregate element.
#[verifier::loop_isolation(false)]
fn all_allowed_aggregate_elements_exec(v: &Vec<Type>) -> (r: bool)
    ensures
        r == all_allowed_aggregate_elements(type_views(v@)),
{
    proof {
        lemma_type_views(v@);
    }
    let mut i: usize = 0;
    while i < v.len()
        invariant
            i <= v.len(),
            forall|j: int| 0 <= j < i ==> allowed_aggregate_element(
                #[trigger] type_views(v@)[j],
            ),
        decreases v.len() - i,
    {
        if !v[i].is_allowed_aggregate_element() {
            proof {
                assert(type_views(v@)[i as int] == type_view(v@[i as int]));
            }
            return false;
        }
        i += 1;
    }
    true
}

impl StructType {
    /// Builds an unpacked struct type. Every field must be first-class and
    /// must not be `metadata`; any other field is rejected.
    pub fn new(field_types: Vec<Type>) -> (r: Result<StructType, TypeError>)
        ensures
            match r {
                Ok(s) => all_allowed_aggregate_elements(type_views(field_types@)) && s@ == (
                TypeView::Struct { field_types: type_views(field_types@), packed: false }),
                Err(e) => !all_allowed_aggregate_elements(type_views(field_types@)) && e
                    == TypeError::DisallowedElementType,
            },
    {
        if all_allowed_aggregate_elements_exec(&field_types) {
            Ok(StructType { field_types, packed: false })
        } else {
            Err(TypeError::DisallowedElementType)
        }
    }

    /// Builds a packed struct type, under the same field restriction.
    pub fn new_packed(field_types: Vec<Type>) -> (r: Result<StructType, TypeError>)
        ensures
            match r {
                Ok(s) => all_allowed_aggregate_elements(type_views(field_types@)) && s@ == (
                TypeView::Struct { field_types: type_views(field_types@), packed: true }),
                Err(e) => !all_allowed_aggregate_elements(type_views(field_types@)) && e
                    == TypeError::DisallowedElementType,
            },
    {
        if all_allowed_aggregate_elements_exec(&field_types) {
            Ok(StructType { field_types, packed: true })
        } else {
            Err(TypeError::DisallowedElementType)
        }
    }

    /// The standalone type-definition form: the `type ` keyword before the
    /// value-position form. Only type definitions use it; a type annotation
    /// next to a value never does.
    pub fn render_definition(&self) -> (s: String)
        ensures
            s@ == "type "@ + render_type(self@),
    {
        let mut s = String::from_str("type ");
        let body = render_struct_type_exec(self);
        s.append(body.as_str());
        s
    }
}

impl OpaqueStructType {
    /// The standalone type-definition form of an opaque struct.
    pub fn render_definition(&self) -> (s: String)
        ensures
            s@ == "type "@ + "opaque"@,
    {
        let mut s = String::from_str("type ");
        s.append("opaque");
        s
    }
}

/// Any value-like entity (a constant, a reference, a named variable) can
/// derive its own type.
pub trait ReturnType {
    /// The type of this entity, as a mathematical value.
    spec fn spec_return_type(&self) -> TypeView;

    /// Derives the type of this entity.
    fn return_type(&self) -> (t: Type)
        ensures
            t@ == self.spec_return_type(),
    ;
}

/// The `void` type.
pub fn void() -> (t: Type)
    ensures
        t@ == TypeView::Void,
{
    Type::Void
}

/// A function signature type.
pub fn function(return_type: Type, argument_types: Vec<Type>) -> (t: Type)
    ensures
        t@ == (TypeView::Function {
            return_type: Box::new(return_type@),
            argument_types: type_views(argument_types@),
        }),
{
    Type::Function(FunctionType::new(return_type, argument_types))
}

/// An integer type of the given bit width.
pub fn integer(bits: usize) -> (t: Type)
    ensures
        t@ == (TypeView::Integer { bits: bits as nat }),
{
    Type::Integer(IntegerType(bits))
}

/// The 16-bit floating-point type.
pub fn half() -> (t: Type)
    ensures
        t@ == (TypeView::Float { kind: FloatType::Half }),
{
    Type::Float(FloatType::Half)
}

/// The brain floating-point type.
pub fn bfloat() -> (t: Type)
    ensures
        t@ == (TypeView::Float { kind: FloatType::BFloat }),
{
    Type::Float(FloatType::BFloat)
}

/// The 32-bit floating-point type.
pub fn float() -> (t: Type)
    ensures
        t@ == (TypeView::Float { kind: FloatType::Float }),
{
    Type::Float(FloatType::Float)
}

/// The 64-bit floating-point type.
pub fn double() -> (t: Type)
    ensures
        t@ == (TypeView::Float { kind: FloatType::Double }),
{
    Type::Float(FloatType::Double)
}

/// The 128-bit floating-point type.
pub fn fp128() -> (t: Type)
    ensures
        t@ == (TypeView::Float { kind: FloatType::FP128 }),
{
    Type::Float(FloatType::FP128)
}

/// The x86 80-bit floating-point type.
pub fn x86_fp80() -> (t: Type)
    ensures
        t@ == (TypeView::Float { kind: FloatType::X86FP80 }),
{
    Type::Float(FloatType::X86FP80)
}

/// The PowerPC 128-bit floating-point type.
pub fn ppc_fp128() -> (t: Type)
    ensures
        t@ == (TypeView::Float { kind: FloatType::PPCFP128 }),
{
    Type::Float(FloatType::PPCFP128)
}

/// The x86 AMX tile type.
pub fn x86_amx() -> (t: Type)
    ensures
        t@ == TypeView::X86AMX,
{
    Type::X86AMX(X86AMXType)
}

/// The x86 MMX register type.
pub fn x86_mmx() -> (t: Type)
    ensures
        t@ == TypeView::X86MMX,
{
    Type::X86MMX(X86MMXType)
}

/// A pointer type; `None` means the default address space.
pub fn pointer(pointee: Type, address_space: Option<usize>) -> (t: Type)
    ensures
        t@ == (TypeView::Pointer {
            pointee: Box::new(pointee@),
            address_space: match address_space {
                Option::None => 0,
                Option::Some(n) => n as nat,
            },
        }),
{
    match address_space {
        Option::None => Type::Pointer(PointerType::new(pointee)),
        Option::Some(n) => Type::Pointer(PointerType::new_with_address_space(pointee, n)),
    }
}

/// A vector type over a single-value element type.
pub fn vector(factor: usize, element_type: Type, scalable: bool) -> (r: Result<Type, TypeError>)
    ensures
        match r {
            Ok(t) => is_single_value(element_type@) && t@ == (TypeView::Vector {
                element_count: factor as nat,
                element_type: Box::new(element_type@),
                scalable: scalable,
            }),
            Err(e) => !is_single_value(element_type@) && e == TypeError::DisallowedElementType,
        },
{
    let vt = if scalable {
        VectorType::new_scalable(factor, element_type)
    } else {
        VectorType::new(factor, element_type)
    };
    match vt {
        Ok(v) => Ok(Type::Vector(v)),
        Err(e) => Err(e),
    }
}

/// The basic-block label type.
pub fn label() -> (t: Type)
    ensures
        t@ == TypeView::Label,
{
    Type::Label(LabelType)
}

/// The token type.
pub fn token() -> (t: Type)
    ensures
        t@ == TypeView::Token,
{
    Type::Token(TokenType)
}

/// The metadata type.
pub fn metadata() -> (t: Type)
    ensures
        t@ == TypeView::Metadata,
{
    Type::Metadata(MetadataType)
}

/// An array type over a legal element type.
pub fn array(size: usize, element_type: Type) -> (r: Result<Type, TypeError>)
    ensures
        match r {
            Ok(t) => allowed_aggregate_element(element_type@) && t@ == (TypeView::Array {
                length: size as nat,
                element_type: Box::new(element_type@),
            }),
            Err(e) => !allowed_aggregate_element(element_type@) && e
                == TypeError::DisallowedElementType,
        },
{
    match ArrayType::new(size, element_type) {
        Ok(a) => Ok(Type::Array(a)),
        Err(e) => Err(e),
    }
}

/// A struct type over legal field types.
pub fn structure(field_types: Vec<Type>, packed: bool) -> (r: Result<Type, TypeError>)
    ensures
        match r {
            Ok(t) => all_allowed_aggregate_elements(type_views(field_types@)) && t@ == (
            TypeView::Struct { field_types: type_views(field_types@), packed: packed }),
            Err(e) => !all_allowed_aggregate_elements(type_views(field_types@)) && e
                == TypeError::DisallowedElementType,
        },
{
    let st = if packed {
        StructType::new_packed(field_types)
    } else {
        StructType::new(field_types)
    };
    match st {
        Ok(t) => Ok(Type::Struct(t)),
        Err(e) => Err(e),
    }
}

/// The opaque (incomplete) struct type.
pub fn opaque() -> (t: Type)
    ensures
        t@ == TypeView::OpaqueStruct,
{
    Type::OpaqueStruct(OpaqueStructType)
}

impl From<FunctionType> for Type {
    fn from(t: FunctionType) -> (r: Type) {
        Type::Function(t)
    }
}

impl vstd::std_specs::convert::FromSpecImpl<FunctionType> for Type {
    open spec fn obeys_from_spec() -> bool {
        true
    }

    open spec fn from_spec(t: FunctionType) -> Type {
        Type::Function(t)
    }
}

impl From<IntegerType> for Type {
    fn from(t: IntegerType) -> (r: Type) {
        Type::Integer(t)
    }
}

impl vstd::std_specs::convert::FromSpecImpl<IntegerType> for Type {
    open spec fn obeys_from_spec() -> bool {
        true
    }

    open spec fn from_spec(t: IntegerType) -> Type {
        Type::Integer(t)
    }
}

impl From<FloatType> for Type {
    fn from(t: FloatType) -> (r: Type) {
        Type::Float(t)
    }
}

impl vstd::std_specs::convert::FromSpecImpl<FloatType> for Type {
    open spec fn obeys_from_spec() -> bool {
        true
    }

    open spec fn from_spec(t: FloatType) -> Type {
        Type::Float(t)
    }
}

impl From<X86AMXType> for Type {
    fn from(t: X86AMXType) -> (r: Type) {
        Type::X86AMX(t)
    }
}

impl vstd::std_specs::convert::FromSpecImpl<X86AMXType> for Type {
    open spec fn obeys_from_spec() -> bool {
        true
    }

    open spec fn from_spec(t: X86AMXType) -> Type {
        Type::X86AMX(t)
    }
}

impl From<X86MMXType> for Type {
    fn from(t: X86MMXType) -> (r: Type) {
        Type::X86MMX(t)
    }
}

impl vstd::std_specs::convert::FromSpecImpl<X86MMXType> for Type {
    open spec fn obeys_from_spec() -> bool {
        true
    }

    open spec fn from_spec(t: X86MMXType) -> Type {
        Type::X86MMX(t)
    }
}

impl From<PointerType> for Type {
    fn from(t: PointerType) -> (r: Type) {
        Type::Pointer(t)
    }
}

impl vstd::std_specs::convert::FromSpecImpl<PointerType> for Type {
    open spec fn obeys_from_spec() -> bool {
        true
    }

    open spec fn from_spec(t: PointerType) -> Type {
        Type::Pointer(t)
    }
}

impl From<VectorType> for Type {
    fn from(t: VectorType) -> (r: Type) {
        Type::Vector(t)
    }
}

impl vstd::std_specs::convert::FromSpecImpl<VectorType> for Type {
    open spec fn obeys_from_spec() -> bool {
        true
    }

    open spec fn from_spec(t: VectorType) -> Type {
        Type::Vector(t)
    }
}

impl From<LabelType> for Type {
    fn from(t: LabelType) -> (r: Type) {
        Type::Label(t)
    }
}

impl vstd::std_specs::convert::FromSpecImpl<LabelType> for Type {
    open spec fn obeys_from_spec() -> bool {
        true
    }

    open spec fn from_spec(t: LabelType) -> Type {
        Type::Label(t)
    }
}

impl From<TokenType> for Type {
    fn from(t: TokenType) -> (r: Type) {
        Type::Token(t)
    }
}

impl vstd::std_specs::convert::FromSpecImpl<TokenType> for Type {
    open spec fn obeys_from_spec() -> bool {
        true
    }

    open spec fn from_spec(t: TokenType) -> Type {
        Type::Token(t)
    }
}

impl From<MetadataType> for Type {
    fn from(t: MetadataType) -> (r: Type) {
        Type::Metadata(t)
    }
}

impl vstd::std_specs::convert::FromSpecImpl<MetadataType> for Type {
    open spec fn obeys_from_spec() -> bool {
        true
    }

    open spec fn from_spec(t: MetadataType) -> Type {
        Type::Metadata(t)
    }
}

impl From<ArrayType> for Type {
    fn from(t: ArrayType) -> (r: Type) {
        Type::Array(t)
    }
}

impl vstd::std_specs::convert::FromSpecImpl<ArrayType> for Type {
    open spec fn obeys_from_spec() -> bool {
        true
    }

    open spec fn from_spec(t: ArrayType) -> Type {
        Type::Array(t)
    }
}

impl From<StructType> for Type {
    fn from(t: StructType) -> (r: Type) {
        Type::Struct(t)
    }
}

impl vstd::std_specs::convert::FromSpecImpl<StructType> for Type {
    open spec fn obeys_from_spec() -> bool {
        true
    }

    open spec fn from_spec(t: StructType) -> Type {
        Type::Struct(t)
    }
}

impl From<OpaqueStructType> for Type {
    fn from(t: OpaqueStructType) -> (r: Type) {
        Type::OpaqueStruct(t)
    }
}

impl vstd::std_specs::convert::FromSpecImpl<OpaqueStructType> for Type {
    open spec fn obeys_from_spec() -> bool {
        true
    }

    open spec fn from_spec(t: OpaqueStructType) -> Type {
        Type::OpaqueStruct(t)
    }
}

/// Structural equality is reflexive.
pub proof fn lemma_type_eq_reflexive(t: TypeView)
    ensures
        t == t,
{
}

/// Structural equality is symmetric.
pub proof fn lemma_type_eq_symmetric(a: TypeView, b: TypeView)
    ensures
        (a == b) == (b == a),
{
}

/// Two struct types are equal exactly when the packed flags agree and the
/// field lists agree pairwise, in order: the same fields in another order are
/// a different type.
pub proof fn lemma_struct_type_equality(a: Seq<TypeView>, p: bool, b: Seq<TypeView>, q: bool)
    ensures
        ((TypeView::Struct { field_types: a, packed: p }) == (TypeView::Struct {
            field_types: b,
            packed: q,
        })) <==> (p == q && a.len() == b.len() && (forall|i: int| 0 <= i < a.len() ==> a[i]
            == b[i])),
{
    if p == q && a.len() == b.len() && (forall|i: int| 0 <= i < a.len() ==> a[i] == b[i]) {
        assert(a =~= b);
    }
}

/// Two function types are equal exactly when their return types and their
/// argument lists agree pairwise, in order.
pub proof fn lemma_function_type_equality(
    r1: TypeView,
    a1: Seq<TypeView>,
    r2: TypeView,
    a2: Seq<TypeView>,
)
    ensures
        ((TypeView::Function { return_type: Box::new(r1), argument_types: a1 })
            == (TypeView::Function { return_type: Box::new(r2), argument_types: a2 })) <==> (r1
            == r2 && a1.len() == a2.len() && (forall|i: int| 0 <= i < a1.len() ==> a1[i]
            == a2[i])),
{
    if r1 == r2 && a1.len() == a2.len() && (forall|i: int| 0 <= i < a1.len() ==> a1[i] == a2[i]) {
        assert(a1 =~= a2);
    }
}

/// Two array types are equal exactly when both components agree.
pub proof fn lemma_array_type_equality(l1: nat, e1: TypeView, l2: nat, e2: TypeView)
    ensures
        ((TypeView::Array { length: l1, element_type: Box::new(e1) }) == (TypeView::Array {
            length: l2,
            element_type: Box::new(e2),
        })) <==> (l1 == l2 && e1 == e2),
{
}

/// Two pointer types are equal exactly when both components agree.
pub proof fn lemma_pointer_type_equality(p1: TypeView, s1: nat, p2: TypeView, s2: nat)
    ensures
        ((TypeView::Pointer { pointee: Box::new(p1), address_space: s1 }) == (TypeView::Pointer {
            pointee: Box::new(p2),
            address_space: s2,
        })) <==> (p1 == p2 && s1 == s2),
{
}

/// Two vector types are equal exactly when all three components agree.
pub proof fn lemma_vector_type_equality(
    c1: nat,
    e1: TypeView,
    b1: bool,
    c2: nat,
    e2: TypeView,
    b2: bool,
)
    ensures
        ((TypeView::Vector { element_count: c1, element_type: Box::new(e1), scalable: b1 })
            == (TypeView::Vector {
            element_count: c2,
            element_type: Box::new(e2),
            scalable: b2,
        })) <==> (c1 == c2 && e1 == e2 && b1 == b2),
{
}

} // verus!
