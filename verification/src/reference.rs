//! The reference and value model: the closed set of named entities that other
//! nodes may cite by identifier, the shared-ownership reference to such an
//! entity, and the `Value` union that lets any operand be either an immediate
//! constant or a reference.
//!
//! Entities referenced from several sites are shared through
//! reference-counted handles and are immutable once published, so no
//! reference ever observes a partially built entity and back-references never
//! imply ownership.

use std::rc::Rc;

use vstd::prelude::*;

use crate::constant::{constant_return_type, render_constant, Constant};
use crate::identifier::{
    render_identifier_view, GlobalIdentifier, Identifiable, Identifier, IdentifierView,
};
use crate::types::{render_type, LabelType, ReturnType, Type, TypeView};
use crate::IRElement;

verus! {

/// A function argument, as the reference model sees it: its declared type and
/// its name.
#[derive(Debug)]
pub struct Argument {
    pub return_type: Type,
    pub identifier: Identifier,
}

impl Argument {
    /// Pairs a declared type with a name.
    pub fn new(return_type: Type, identifier: Identifier) -> (r: Argument)
        ensures
            r.return_type@ == return_type@,
            r.identifier@ == identifier@,
    {
        Argument { return_type, identifier }
    }
}

impl ReturnType for Argument {
    open spec fn spec_return_type(&self) -> TypeView {
        self.return_type@
    }

    fn return_type(&self) -> (t: Type) {
        self.return_type.clone()
    }
}

impl Identifiable for Argument {
    open spec fn spec_id(&self) -> IdentifierView {
        self.identifier@
    }

    fn id(&self) -> (i: Identifier) {
        self.identifier.clone()
    }
}

/// A basic block, as the reference model sees it: its label name. A reference
/// to a block is only ever cited as a branch target, so only the name
/// matters here.
#[derive(Debug)]
pub struct InstructionBlock {
    pub identifier: GlobalIdentifier,
}

impl InstructionBlock {
    /// Names a basic block.
    pub fn new(identifier: GlobalIdentifier) -> (r: InstructionBlock)
        ensures
            r.identifier@ == identifier@,
    {
        InstructionBlock { identifier }
    }
}

impl Identifiable for InstructionBlock {
    open spec fn spec_id(&self) -> IdentifierView {
        IdentifierView::Global(self.identifier@)
    }

    fn id(&self) -> (i: Identifier) {
        Identifier::Global(self.identifier.clone())
    }
}

/// A global variable, as the reference model sees it: its declared type and
/// its global name.
#[derive(Debug)]
pub struct GlobalVariable {
    pub return_type: Type,
    pub identifier: GlobalIdentifier,
}

impl GlobalVariable {
    /// Pairs a declared type with a global name.
    pub fn new(return_type: Type, identifier: GlobalIdentifier) -> (r: GlobalVariable)
        ensures
            r.return_type@ == return_type@,
            r.identifier@ == identifier@,
    {
        GlobalVariable { return_type, identifier }
    }
}

impl ReturnType for GlobalVariable {
    open spec fn spec_return_type(&self) -> TypeView {
        self.return_type@
    }

    fn return_type(&self) -> (t: Type) {
        self.return_type.clone()
    }
}

impl Identifiable for GlobalVariable {
    open spec fn spec_id(&self) -> IdentifierView {
        IdentifierView::Global(self.identifier@)
    }

    fn id(&self) -> (i: Identifier) {
        Identifier::Global(self.identifier.clone())
    }
}

/// The closed set of entities that may be the target of a named reference.
#[derive(Debug)]
pub enum Referencable {
    FunctionArgument(Argument),
    Label(InstructionBlock),
    GlobalVariable(GlobalVariable),
}

impl ReturnType for Referencable {
    /// A label entity always has type `label`, whatever it stores: labels are
    /// not first-class values. Every other entity delegates.
    open spec fn spec_return_type(&self) -> TypeView {
        match *self {
            Referencable::FunctionArgument(ref a) => a.spec_return_type(),
            Referencable::Label(_) => TypeView::Label,
            Referencable::GlobalVariable(ref g) => g.spec_return_type(),
        }
    }

    fn return_type(&self) -> (t: Type) {
        match self {
            Referencable::FunctionArgument(a) => a.return_type(),
            Referencable::Label(_) => Type::Label(LabelType),
            Referencable::GlobalVariable(g) => g.return_type(),
        }
    }
}

impl Identifiable for Referencable {
    open spec fn spec_id(&self) -> IdentifierView {
        match *self {
            Referencable::FunctionArgument(ref a) => a.spec_id(),
            Referencable::Label(ref b) => b.spec_id(),
            Referencable::GlobalVariable(ref g) => g.spec_id(),
        }
    }

    fn id(&self) -> (i: Identifier) {
        match self {
            Referencable::FunctionArgument(a) => a.id(),
            Referencable::Label(b) => b.id(),
            Referencable::GlobalVariable(g) => g.id(),
        }
    }
}

/// A shared-ownership reference to a named entity. Rendering a reference
/// yields the entity's identifier text; its return type delegates to the
/// entity.
pub struct Reference(Rc<Referencable>);

impl Reference {
    /// Cites an already-declared entity through a shared handle; the entity
    /// keeps living behind every reference to it.
    pub fn to(entity: Rc<Referencable>) -> (r: Reference)
        ensures
            r.spec_return_type() == (*entity).spec_return_type(),
            r.spec_id() == (*entity).spec_id(),
    {
        Reference(entity)
    }
}

impl ReturnType for Reference {
    closed spec fn spec_return_type(&self) -> TypeView {
        (*self.0).spec_return_type()
    }

    fn return_type(&self) -> (t: Type) {
        let inner: &Referencable = &self.0;
        inner.return_type()
    }
}

impl Identifiable for Reference {
    closed spec fn spec_id(&self) -> IdentifierView {
        (*self.0).spec_id()
    }

    fn id(&self) -> (i: Identifier) {
        let inner: &Referencable = &self.0;
        inner.id()
    }
}

impl IRElement for Reference {
    open spec fn spec_render(&self) -> Seq<char> {
        render_identifier_view(self.spec_id())
    }

    fn render(&self) -> (s: String) {
        self.id().render()
    }
}

/// Any instruction operand: an immediate constant, or a reference to a named
/// entity.
pub enum Value {
    Constant(Constant),
    Reference(Reference),
}

impl ReturnType for Value {
    open spec fn spec_return_type(&self) -> TypeView {
        match *self {
            Value::Constant(ref c) => constant_return_type(c@),
            Value::Reference(ref r) => r.spec_return_type(),
        }
    }

    fn return_type(&self) -> (t: Type) {
        match self {
            Value::Constant(c) => c.return_type(),
            Value::Reference(r) => r.return_type(),
        }
    }
}

impl IRElement for Value {
    /// A value always renders as its type, one space, and its textual form.
    open spec fn spec_render(&self) -> Seq<char> {
        render_type(self.spec_return_type()) + " "@ + match *self {
            Value::Constant(ref c) => render_constant(c@),
            Value::Reference(ref r) => r.spec_render(),
        }
    }

    fn render(&self) -> (s: String) {
        let mut s = self.return_type().render();
        s.append(" ");
        let form = match self {
            Value::Constant(c) => c.render(),
            Value::Reference(r) => r.render(),
        };
        s.append(form.as_str());
        s
    }
}

impl From<Constant> for Value {
    fn from(c: Constant) -> (r: Value) {
        Value::Constant(c)
    }
}

impl vstd::std_specs::convert::FromSpecImpl<Constant> for Value {
    open spec fn obeys_from_spec() -> bool {
        true
    }

    open spec fn from_spec(c: Constant) -> Value {
        Value::Constant(c)
    }
}

impl From<Reference> for Value {
    fn from(r: Reference) -> (v: Value) {
        Value::Reference(r)
    }
}

impl vstd::std_specs::convert::FromSpecImpl<Reference> for Value {
    open spec fn obeys_from_spec() -> bool {
        true
    }

    open spec fn from_spec(r: Reference) -> Value {
        Value::Reference(r)
    }
}

} // verus!
