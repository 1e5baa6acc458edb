//! Mirroring across one axis plane.
use vstd::prelude::*;
use crate::ext::boolean_tree;
use crate::primitive::set::{Difference, Union};
use crate::object::{call_args_view, node_rendered, wrapped_tree, CallNode, Callee, CalleeView, IntoObject, Node, NodeView, Object, Operator, Wrapped};
use crate::scad::{Assignment, AssignmentView, Formatter, FormatterView, Import, Scad};
use crate::types::{opt_to_value, opt_value, Value};

verus! {

/// Mirrors children around the X axis
#[derive(Clone, Copy, Debug, PartialEq)]
pub struct MirrorX<const D: usize> {
}

impl<const D: usize> Default for MirrorX<D> {
    fn default() -> (r: Self)
        ensures
            r == (MirrorX::<D> {}),
    {
        MirrorX::<D> {}
    }
}

/// Mirrors children around the X axis
pub fn mirror_x<const D: usize>() -> (r: MirrorX<D>)
    ensures
        r == (MirrorX::<D> {  }),
{
    MirrorX::<D>::default()
}

impl<const D: usize> MirrorX<D> {
    /// The call this value renders as.
    pub open spec fn spec_node(&self) -> NodeView {
        NodeView::Call {
            imports: seq![],
            callee: CalleeView::Template("() { mirror([1, 0, 0]) children(); }"@),
            args: seq![],
            operator: true,
        }
    }

    /// The node of the call this value renders as.
    pub fn to_node(&self) -> (r: Node)
        ensures
            r@ == self.spec_node(),
    {
        let imports: Vec<Import> = Vec::new();
        let args: Vec<(String, Option<Value>)> = Vec::new();
        let ghost iv = imports@;
        let ghost av = args@;
        let callee = Callee::Template(String::from_str("() { mirror([1, 0, 0]) children(); }"));
        let r = Node::Call(CallNode { imports, callee, args, operator: true });
        assert(iv.map_values(|i: Import| i@) =~= seq![]);
        assert(call_args_view(av) =~= seq![]);
        r
    }
}

impl<const D: usize> Scad for MirrorX<D> {
    open spec fn rendered(&self, s: FormatterView) -> (FormatterView, AssignmentView) {
        node_rendered(s, self.spec_node())
    }

    fn assign(&self, f: &mut Formatter) -> (r: Assignment) {
        self.to_node().assign_node(f)
    }
}

impl<const D: usize> IntoObject<D> for MirrorX<D> {
    open spec fn tree(&self) -> NodeView {
        self.spec_node()
    }

    fn into_object(self) -> (r: Object<D>) {
        Object::new(self.to_node())
    }
}

impl<T: IntoObject<D>, const D: usize> core::ops::Add<T> for MirrorX<D> {
    type Output = Object<D>;

    fn add(self, other: T) -> (r: Object<D>)
        ensures
            r@ == boolean_tree((Union::<D> {}).spec_node(), self.spec_node(), other.tree()),
    {
        self.into_object().union(other)
    }
}

impl<T: IntoObject<D>, const D: usize> vstd::std_specs::ops::AddSpecImpl<T> for MirrorX<D> {
    /// No value is stated here: the operator's own contract states the tree
    /// of its result.
    open spec fn obeys_add_spec() -> bool {
        false
    }

    open spec fn add_req(self, rhs: T) -> bool {
        true
    }

    open spec fn add_spec(self, rhs: T) -> Object<D> {
        arbitrary()
    }
}

impl<T: IntoObject<D>, const D: usize> core::ops::BitOr<T> for MirrorX<D> {
    type Output = Object<D>;

    fn bitor(self, other: T) -> (r: Object<D>)
        ensures
            r@ == boolean_tree((Union::<D> {}).spec_node(), self.spec_node(), other.tree()),
    {
        self.into_object().union(other)
    }
}

impl<T: IntoObject<D>, const D: usize> vstd::std_specs::ops::BitOrSpecImpl<T> for MirrorX<D> {
    /// No value is stated here: the operator's own contract states the tree
    /// of its result.
    open spec fn obeys_bitor_spec() -> bool {
        false
    }

    open spec fn bitor_req(self, rhs: T) -> bool {
        true
    }

    open spec fn bitor_spec(self, rhs: T) -> Object<D> {
        arbitrary()
    }
}

impl<T: IntoObject<D>, const D: usize> core::ops::Sub<T> for MirrorX<D> {
    type Output = Object<D>;

    fn sub(self, other: T) -> (r: Object<D>)
        ensures
            r@ == boolean_tree((Difference::<D> {}).spec_node(), self.spec_node(), other.tree()),
    {
        self.into_object().difference(other)
    }
}

impl<T: IntoObject<D>, const D: usize> vstd::std_specs::ops::SubSpecImpl<T> for MirrorX<D> {
    /// No value is stated here: the operator's own contract states the tree
    /// of its result.
    open spec fn obeys_sub_spec() -> bool {
        false
    }

    open spec fn sub_req(self, rhs: T) -> bool {
        true
    }

    open spec fn sub_spec(self, rhs: T) -> Object<D> {
        arbitrary()
    }
}

impl<F: Operator<D>, const D: usize> core::ops::Shr<F> for MirrorX<D> {
    type Output = F::Output;

    fn shr(self, f: F) -> (r: F::Output)
        ensures
            f.applied(self.spec_node(), r),
    {
        self.into_object().pipe(f)
    }
}

impl<F: Operator<D>, const D: usize> vstd::std_specs::ops::ShrSpecImpl<F> for MirrorX<D> {
    /// No value is stated here: the operator's own contract states the tree
    /// of its result.
    open spec fn obeys_shr_spec() -> bool {
        false
    }

    open spec fn shr_req(self, rhs: F) -> bool {
        true
    }

    open spec fn shr_spec(self, rhs: F) -> F::Output {
        arbitrary()
    }
}

impl<const D: usize> From<MirrorX<D>> for Object<D> {
    fn from(value: MirrorX<D>) -> (r: Object<D>)
        ensures
            r@ == value.spec_node(),
    {
        value.into_object()
    }
}

impl<const D: usize> vstd::std_specs::convert::FromSpecImpl<MirrorX<D>> for Object<D> {
    /// No value is stated here: the conversion's own contract states the
    /// tree of its result.
    open spec fn obeys_from_spec() -> bool {
        false
    }

    open spec fn from_spec(value: MirrorX<D>) -> Object<D> {
        arbitrary()
    }
}

impl<const D: usize> Operator<D> for MirrorX<D> {
    type Output = Object<D>;

    open spec fn applied(&self, child: NodeView, out: Object<D>) -> bool {
        out@ == wrapped_tree(self.spec_node(), child)
    }

    fn apply(self, object: Object<D>) -> (r: Object<D>) {
        let w: Wrapped<D, D> = Wrapped { parent: self.into_object(), child: object };
        w.into_object()
    }
}

/// Mirrors children around the Y axis
#[derive(Clone, Copy, Debug, PartialEq)]
pub struct MirrorY<const D: usize> {
}

impl<const D: usize> Default for MirrorY<D> {
    fn default() -> (r: Self)
        ensures
            r == (MirrorY::<D> {}),
    {
        MirrorY::<D> {}
    }
}

/// Mirrors children around the Y axis
pub fn mirror_y<const D: usize>() -> (r: MirrorY<D>)
    ensures
        r == (MirrorY::<D> {  }),
{
    MirrorY::<D>::default()
}

impl<const D: usize> MirrorY<D> {
    /// The call this value renders as.
    pub open spec fn spec_node(&self) -> NodeView {
        NodeView::Call {
            imports: seq![],
            callee: CalleeView::Template("() { mirror([0, 1, 0]) children(); }"@),
            args: seq![],
            operator: true,
        }
    }

    /// The node of the call this value renders as.
    pub fn to_node(&self) -> (r: Node)
        ensures
            r@ == self.spec_node(),
    {
        let imports: Vec<Import> = Vec::new();
        let args: Vec<(String, Option<Value>)> = Vec::new();
        let ghost iv = imports@;
        let ghost av = args@;
        let callee = Callee::Template(String::from_str("() { mirror([0, 1, 0]) children(); }"));
        let r = Node::Call(CallNode { imports, callee, args, operator: true });
        assert(iv.map_values(|i: Import| i@) =~= seq![]);
        assert(call_args_view(av) =~= seq![]);
        r
    }
}

impl<const D: usize> Scad for MirrorY<D> {
    open spec fn rendered(&self, s: FormatterView) -> (FormatterView, AssignmentView) {
        node_rendered(s, self.spec_node())
    }

    fn assign(&self, f: &mut Formatter) -> (r: Assignment) {
        self.to_node().assign_node(f)
    }
}

impl<const D: usize> IntoObject<D> for MirrorY<D> {
    open spec fn tree(&self) -> NodeView {
        self.spec_node()
    }

    fn into_object(self) -> (r: Object<D>) {
        Object::new(self.to_node())
    }
}

impl<T: IntoObject<D>, const D: usize> core::ops::Add<T> for MirrorY<D> {
    type Output = Object<D>;

    fn add(self, other: T) -> (r: Object<D>)
        ensures
            r@ == boolean_tree((Union::<D> {}).spec_node(), self.spec_node(), other.tree()),
    {
        self.into_object().union(other)
    }
}

impl<T: IntoObject<D>, const D: usize> vstd::std_specs::ops::AddSpecImpl<T> for MirrorY<D> {
    /// No value is stated here: the operator's own contract states the tree
    /// of its result.
    open spec fn obeys_add_spec() -> bool {
        false
    }

    open spec fn add_req(self, rhs: T) -> bool {
        true
    }

    open spec fn add_spec(self, rhs: T) -> Object<D> {
        arbitrary()
    }
}

impl<T: IntoObject<D>, const D: usize> core::ops::BitOr<T> for MirrorY<D> {
    type Output = Object<D>;

    fn bitor(self, other: T) -> (r: Object<D>)
        ensures
            r@ == boolean_tree((Union::<D> {}).spec_node(), self.spec_node(), other.tree()),
    {
        self.into_object().union(other)
    }
}

impl<T: IntoObject<D>, const D: usize> vstd::std_specs::ops::BitOrSpecImpl<T> for MirrorY<D> {
    /// No value is stated here: the operator's own contract states the tree
    /// of its result.
    open spec fn obeys_bitor_spec() -> bool {
        false
    }

    open spec fn bitor_req(self, rhs: T) -> bool {
        true
    }

    open spec fn bitor_spec(self, rhs: T) -> Object<D> {
        arbitrary()
    }
}

impl<T: IntoObject<D>, const D: usize> core::ops::Sub<T> for MirrorY<D> {
    type Output = Object<D>;

    fn sub(self, other: T) -> (r: Object<D>)
        ensures
            r@ == boolean_tree((Difference::<D> {}).spec_node(), self.spec_node(), other.tree()),
    {
        self.into_object().difference(other)
    }
}

impl<T: IntoObject<D>, const D: usize> vstd::std_specs::ops::SubSpecImpl<T> for MirrorY<D> {
    /// No value is stated here: the operator's own contract states the tree
    /// of its result.
    open spec fn obeys_sub_spec() -> bool {
        false
    }

    open spec fn sub_req(self, rhs: T) -> bool {
        true
    }

    open spec fn sub_spec(self, rhs: T) -> Object<D> {
        arbitrary()
    }
}

impl<F: Operator<D>, const D: usize> core::ops::Shr<F> for MirrorY<D> {
    type Output = F::Output;

    fn shr(self, f: F) -> (r: F::Output)
        ensures
            f.applied(self.spec_node(), r),
    {
        self.into_object().pipe(f)
    }
}

impl<F: Operator<D>, const D: usize> vstd::std_specs::ops::ShrSpecImpl<F> for MirrorY<D> {
    /// No value is stated here: the operator's own contract states the tree
    /// of its result.
    open spec fn obeys_shr_spec() -> bool {
        false
    }

    open spec fn shr_req(self, rhs: F) -> bool {
        true
    }

    open spec fn shr_spec(self, rhs: F) -> F::Output {
        arbitrary()
    }
}

impl<const D: usize> From<MirrorY<D>> for Object<D> {
    fn from(value: MirrorY<D>) -> (r: Object<D>)
        ensures
            r@ == value.spec_node(),
    {
        value.into_object()
    }
}

impl<const D: usize> vstd::std_specs::convert::FromSpecImpl<MirrorY<D>> for Object<D> {
    /// No value is stated here: the conversion's own contract states the
    /// tree of its result.
    open spec fn obeys_from_spec() -> bool {
        false
    }

    open spec fn from_spec(value: MirrorY<D>) -> Object<D> {
        arbitrary()
    }
}

impl<const D: usize> Operator<D> for MirrorY<D> {
    type Output = Object<D>;

    open spec fn applied(&self, child: NodeView, out: Object<D>) -> bool {
        out@ == wrapped_tree(self.spec_node(), child)
    }

    fn apply(self, object: Object<D>) -> (r: Object<D>) {
        let w: Wrapped<D, D> = Wrapped { parent: self.into_object(), child: object };
        w.into_object()
    }
}

/// Mirrors children around the Z axis
#[derive(Clone, Copy, Debug, PartialEq)]
pub struct MirrorZ<const D: usize> {
}

impl<const D: usize> Default for MirrorZ<D> {
    fn default() -> (r: Self)
        ensures
            r == (MirrorZ::<D> {}),
    {
        MirrorZ::<D> {}
    }
}

/// Mirrors children around the Z axis
pub fn mirror_z<const D: usize>() -> (r: MirrorZ<D>)
    ensures
        r == (MirrorZ::<D> {  }),
{
    MirrorZ::<D>::default()
}

impl<const D: usize> MirrorZ<D> {
    /// The call this value renders as.
    pub open spec fn spec_node(&self) -> NodeView {
        NodeView::Call {
            imports: seq![],
            callee: CalleeView::Template("() { mirror([0, 0, 1]) children(); }"@),
            args: seq![],
            operator: true,
        }
    }

    /// The node of the call this value renders as.
    pub fn to_node(&self) -> (r: Node)
        ensures
            r@ == self.spec_node(),
    {
        let imports: Vec<Import> = Vec::new();
        let args: Vec<(String, Option<Value>)> = Vec::new();
        let ghost iv = imports@;
        let ghost av = args@;
        let callee = Callee::Template(String::from_str("() { mirror([0, 0, 1]) children(); }"));
        let r = Node::Call(CallNode { imports, callee, args, operator: true });
        assert(iv.map_values(|i: Import| i@) =~= seq![]);
        assert(call_args_view(av) =~= seq![]);
        r
    }
}

impl<const D: usize> Scad for MirrorZ<D> {
    open spec fn rendered(&self, s: FormatterView) -> (FormatterView, AssignmentView) {
        node_rendered(s, self.spec_node())
    }

    fn assign(&self, f: &mut Formatter) -> (r: Assignment) {
        self.to_node().assign_node(f)
    }
}

impl<const D: usize> IntoObject<D> for MirrorZ<D> {
    open spec fn tree(&self) -> NodeView {
        self.spec_node()
    }

    fn into_object(self) -> (r: Object<D>) {
        Object::new(self.to_node())
    }
}

impl<T: IntoObject<D>, const D: usize> core::ops::Add<T> for MirrorZ<D> {
    type Output = Object<D>;

    fn add(self, other: T) -> (r: Object<D>)
        ensures
            r@ == boolean_tree((Union::<D> {}).spec_node(), self.spec_node(), other.tree()),
    {
        self.into_object().union(other)
    }
}

impl<T: IntoObject<D>, const D: usize> vstd::std_specs::ops::AddSpecImpl<T> for MirrorZ<D> {
    /// No value is stated here: the operator's own contract states the tree
    /// of its result.
    open spec fn obeys_add_spec() -> bool {
        false
    }

    open spec fn add_req(self, rhs: T) -> bool {
        true
    }

    open spec fn add_spec(self, rhs: T) -> Object<D> {
        arbitrary()
    }
}

impl<T: IntoObject<D>, const D: usize> core::ops::BitOr<T> for MirrorZ<D> {
    type Output = Object<D>;

    fn bitor(self, other: T) -> (r: Object<D>)
        ensures
            r@ == boolean_tree((Union::<D> {}).spec_node(), self.spec_node(), other.tree()),
    {
        self.into_object().union(other)
    }
}

impl<T: IntoObject<D>, const D: usize> vstd::std_specs::ops::BitOrSpecImpl<T> for MirrorZ<D> {
    /// No value is stated here: the operator's own contract states the tree
    /// of its result.
    open spec fn obeys_bitor_spec() -> bool {
        false
    }

    open spec fn bitor_req(self, rhs: T) -> bool {
        true
    }

    open spec fn bitor_spec(self, rhs: T) -> Object<D> {
        arbitrary()
    }
}

impl<T: IntoObject<D>, const D: usize> core::ops::Sub<T> for MirrorZ<D> {
    type Output = Object<D>;

    fn sub(self, other: T) -> (r: Object<D>)
        ensures
            r@ == boolean_tree((Difference::<D> {}).spec_node(), self.spec_node(), other.tree()),
    {
        self.into_object().difference(other)
    }
}

impl<T: IntoObject<D>, const D: usize> vstd::std_specs::ops::SubSpecImpl<T> for MirrorZ<D> {
    /// No value is stated here: the operator's own contract states the tree
    /// of its result.
    open spec fn obeys_sub_spec() -> bool {
        false
    }

    open spec fn sub_req(self, rhs: T) -> bool {
        true
    }

    open spec fn sub_spec(self, rhs: T) -> Object<D> {
        arbitrary()
    }
}

impl<F: Operator<D>, const D: usize> core::ops::Shr<F> for MirrorZ<D> {
    type Output = F::Output;

    fn shr(self, f: F) -> (r: F::Output)
        ensures
            f.applied(self.spec_node(), r),
    {
        self.into_object().pipe(f)
    }
}

impl<F: Operator<D>, const D: usize> vstd::std_specs::ops::ShrSpecImpl<F> for MirrorZ<D> {
    /// No value is stated here: the operator's own contract states the tree
    /// of its result.
    open spec fn obeys_shr_spec() -> bool {
        false
    }

    open spec fn shr_req(self, rhs: F) -> bool {
        true
    }

    open spec fn shr_spec(self, rhs: F) -> F::Output {
        arbitrary()
    }
}

impl<const D: usize> From<MirrorZ<D>> for Object<D> {
    fn from(value: MirrorZ<D>) -> (r: Object<D>)
        ensures
            r@ == value.spec_node(),
    {
        value.into_object()
    }
}

impl<const D: usize> vstd::std_specs::convert::FromSpecImpl<MirrorZ<D>> for Object<D> {
    /// No value is stated here: the conversion's own contract states the
    /// tree of its result.
    open spec fn obeys_from_spec() -> bool {
        false
    }

    open spec fn from_spec(value: MirrorZ<D>) -> Object<D> {
        arbitrary()
    }
}

impl<const D: usize> Operator<D> for MirrorZ<D> {
    type Output = Object<D>;

    open spec fn applied(&self, child: NodeView, out: Object<D>) -> bool {
        out@ == wrapped_tree(self.spec_node(), child)
    }

    fn apply(self, object: Object<D>) -> (r: Object<D>) {
        let w: Wrapped<D, D> = Wrapped { parent: self.into_object(), child: object };
        w.into_object()
    }
}

} // verus!
