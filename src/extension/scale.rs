//! Scaling along one axis.
use vstd::prelude::*;
use crate::ext::boolean_tree;
use crate::primitive::set::{Difference, Union};
use crate::object::{call_args_view, node_rendered, wrapped_tree, CallNode, Callee, CalleeView, IntoObject, Node, NodeView, Object, Operator, Wrapped};
use crate::scad::{Assignment, AssignmentView, Formatter, FormatterView, Import, Scad};
use crate::types::{opt_to_value, opt_value, Scalar};

verus! {

/// Scales children by the given factor on the X axis.
#[derive(Clone, Copy, Debug, PartialEq)]
pub struct ScaleX<const D: usize> {
    pub x: Option<Scalar>,
}

impl<const D: usize> Default for ScaleX<D> {
    fn default() -> (r: Self)
        ensures
            r == (ScaleX::<D> { x: None }),
    {
        ScaleX::<D> { x: None }
    }
}

/// Scales children by the given factor on the X axis.
pub fn scale_x<const D: usize>(x: Scalar) -> (r: ScaleX<D>)
    ensures
        r == (ScaleX::<D> { x: Some(x) }),
{
    ScaleX::<D>::default().x(x)
}

impl<const D: usize> ScaleX<D> {
    pub fn x(self, x: Scalar) -> (r: Self)
        ensures
            r == (ScaleX::<D> { x: Some(x), ..self }),
    {
        ScaleX::<D> { x: Some(x), ..self }
    }

    /// The call this value renders as.
    pub open spec fn spec_node(&self) -> NodeView {
        NodeView::Call {
            imports: seq![],
            callee: CalleeView::Template("(x=undef) { scale([x, 1, 1]) children(); }"@),
            args: seq![("x"@, opt_value(self.x))],
            operator: true,
        }
    }

    /// The node of the call this value renders as.
    pub fn to_node(&self) -> (r: Node)
        ensures
            r@ == self.spec_node(),
    {
        let imports: Vec<Import> = Vec::new();
        let args = vec![(String::from_str("x"), opt_to_value(&self.x))];
        let ghost iv = imports@;
        let ghost av = args@;
        let callee = Callee::Template(String::from_str("(x=undef) { scale([x, 1, 1]) children(); }"));
        let r = Node::Call(CallNode { imports, callee, args, operator: true });
        assert(iv.map_values(|i: Import| i@) =~= seq![]);
        assert(call_args_view(av) =~= seq![("x"@, opt_value(self.x))]);
        r
    }
}

impl<const D: usize> Scad for ScaleX<D> {
    open spec fn rendered(&self, s: FormatterView) -> (FormatterView, AssignmentView) {
        node_rendered(s, self.spec_node())
    }

    fn assign(&self, f: &mut Formatter) -> (r: Assignment) {
        self.to_node().assign_node(f)
    }
}

impl<const D: usize> IntoObject<D> for ScaleX<D> {
    open spec fn tree(&self) -> NodeView {
        self.spec_node()
    }

    fn into_object(self) -> (r: Object<D>) {
        Object::new(self.to_node())
    }
}

impl<T: IntoObject<D>, const D: usize> core::ops::Add<T> for ScaleX<D> {
    type Output = Object<D>;

    fn add(self, other: T) -> (r: Object<D>)
        ensures
            r@ == boolean_tree((Union::<D> {}).spec_node(), self.spec_node(), other.tree()),
    {
        self.into_object().union(other)
    }
}

impl<T: IntoObject<D>, const D: usize> vstd::std_specs::ops::AddSpecImpl<T> for ScaleX<D> {
    /// No value is stated here: the operator's own contract states the tree
    /// of its result.
    open spec fn obeys_add_spec() -> bool {
        false
    }

    open spec fn add_req(self, rhs: T) -> bool {
        true
    }

    open spec fn add_spec(self, rhs: T) -> Object<D> {
        arbitrary()
    }
}

impl<T: IntoObject<D>, const D: usize> core::ops::BitOr<T> for ScaleX<D> {
    type Output = Object<D>;

    fn bitor(self, other: T) -> (r: Object<D>)
        ensures
            r@ == boolean_tree((Union::<D> {}).spec_node(), self.spec_node(), other.tree()),
    {
        self.into_object().union(other)
    }
}

impl<T: IntoObject<D>, const D: usize> vstd::std_specs::ops::BitOrSpecImpl<T> for ScaleX<D> {
    /// No value is stated here: the operator's own contract states the tree
    /// of its result.
    open spec fn obeys_bitor_spec() -> bool {
        false
    }

    open spec fn bitor_req(self, rhs: T) -> bool {
        true
    }

    open spec fn bitor_spec(self, rhs: T) -> Object<D> {
        arbitrary()
    }
}

impl<T: IntoObject<D>, const D: usize> core::ops::Sub<T> for ScaleX<D> {
    type Output = Object<D>;

    fn sub(self, other: T) -> (r: Object<D>)
        ensures
            r@ == boolean_tree((Difference::<D> {}).spec_node(), self.spec_node(), other.tree()),
    {
        self.into_object().difference(other)
    }
}

impl<T: IntoObject<D>, const D: usize> vstd::std_specs::ops::SubSpecImpl<T> for ScaleX<D> {
    /// No value is stated here: the operator's own contract states the tree
    /// of its result.
    open spec fn obeys_sub_spec() -> bool {
        false
    }

    open spec fn sub_req(self, rhs: T) -> bool {
        true
    }

    open spec fn sub_spec(self, rhs: T) -> Object<D> {
        arbitrary()
    }
}

impl<F: Operator<D>, const D: usize> core::ops::Shr<F> for ScaleX<D> {
    type Output = F::Output;

    fn shr(self, f: F) -> (r: F::Output)
        ensures
            f.applied(self.spec_node(), r),
    {
        self.into_object().pipe(f)
    }
}

impl<F: Operator<D>, const D: usize> vstd::std_specs::ops::ShrSpecImpl<F> for ScaleX<D> {
    /// No value is stated here: the operator's own contract states the tree
    /// of its result.
    open spec fn obeys_shr_spec() -> bool {
        false
    }

    open spec fn shr_req(self, rhs: F) -> bool {
        true
    }

    open spec fn shr_spec(self, rhs: F) -> F::Output {
        arbitrary()
    }
}

impl<const D: usize> From<ScaleX<D>> for Object<D> {
    fn from(value: ScaleX<D>) -> (r: Object<D>)
        ensures
            r@ == value.spec_node(),
    {
        value.into_object()
    }
}

impl<const D: usize> vstd::std_specs::convert::FromSpecImpl<ScaleX<D>> for Object<D> {
    /// No value is stated here: the conversion's own contract states the
    /// tree of its result.
    open spec fn obeys_from_spec() -> bool {
        false
    }

    open spec fn from_spec(value: ScaleX<D>) -> Object<D> {
        arbitrary()
    }
}

impl<const D: usize> Operator<D> for ScaleX<D> {
    type Output = Object<D>;

    open spec fn applied(&self, child: NodeView, out: Object<D>) -> bool {
        out@ == wrapped_tree(self.spec_node(), child)
    }

    fn apply(self, object: Object<D>) -> (r: Object<D>) {
        let w: Wrapped<D, D> = Wrapped { parent: self.into_object(), child: object };
        w.into_object()
    }
}

/// Scales children by the given factor on the Y axis.
#[derive(Clone, Copy, Debug, PartialEq)]
pub struct ScaleY<const D: usize> {
    pub y: Option<Scalar>,
}

impl<const D: usize> Default for ScaleY<D> {
    fn default() -> (r: Self)
        ensures
            r == (ScaleY::<D> { y: None }),
    {
        ScaleY::<D> { y: None }
    }
}

/// Scales children by the given factor on the Y axis.
pub fn scale_y<const D: usize>(y: Scalar) -> (r: ScaleY<D>)
    ensures
        r == (ScaleY::<D> { y: Some(y) }),
{
    ScaleY::<D>::default().y(y)
}

impl<const D: usize> ScaleY<D> {
    pub fn y(self, y: Scalar) -> (r: Self)
        ensures
            r == (ScaleY::<D> { y: Some(y), ..self }),
    {
        ScaleY::<D> { y: Some(y), ..self }
    }

    /// The call this value renders as.
    pub open spec fn spec_node(&self) -> NodeView {
        NodeView::Call {
            imports: seq![],
            callee: CalleeView::Template("(y=undef) { scale([1, y, 1]) children(); }"@),
            args: seq![("y"@, opt_value(self.y))],
            operator: true,
        }
    }

    /// The node of the call this value renders as.
    pub fn to_node(&self) -> (r: Node)
        ensures
            r@ == self.spec_node(),
    {
        let imports: Vec<Import> = Vec::new();
        let args = vec![(String::from_str("y"), opt_to_value(&self.y))];
        let ghost iv = imports@;
        let ghost av = args@;
        let callee = Callee::Template(String::from_str("(y=undef) { scale([1, y, 1]) children(); }"));
        let r = Node::Call(CallNode { imports, callee, args, operator: true });
        assert(iv.map_values(|i: Import| i@) =~= seq![]);
        assert(call_args_view(av) =~= seq![("y"@, opt_value(self.y))]);
        r
    }
}

impl<const D: usize> Scad for ScaleY<D> {
    open spec fn rendered(&self, s: FormatterView) -> (FormatterView, AssignmentView) {
        node_rendered(s, self.spec_node())
    }

    fn assign(&self, f: &mut Formatter) -> (r: Assignment) {
        self.to_node().assign_node(f)
    }
}

impl<const D: usize> IntoObject<D> for ScaleY<D> {
    open spec fn tree(&self) -> NodeView {
        self.spec_node()
    }

    fn into_object(self) -> (r: Object<D>) {
        Object::new(self.to_node())
    }
}

impl<T: IntoObject<D>, const D: usize> core::ops::Add<T> for ScaleY<D> {
    type Output = Object<D>;

    fn add(self, other: T) -> (r: Object<D>)
        ensures
            r@ == boolean_tree((Union::<D> {}).spec_node(), self.spec_node(), other.tree()),
    {
        self.into_object().union(other)
    }
}

impl<T: IntoObject<D>, const D: usize> vstd::std_specs::ops::AddSpecImpl<T> for ScaleY<D> {
    /// No value is stated here: the operator's own contract states the tree
    /// of its result.
    open spec fn obeys_add_spec() -> bool {
        false
    }

    open spec fn add_req(self, rhs: T) -> bool {
        true
    }

    open spec fn add_spec(self, rhs: T) -> Object<D> {
        arbitrary()
    }
}

impl<T: IntoObject<D>, const D: usize> core::ops::BitOr<T> for ScaleY<D> {
    type Output = Object<D>;

    fn bitor(self, other: T) -> (r: Object<D>)
        ensures
            r@ == boolean_tree((Union::<D> {}).spec_node(), self.spec_node(), other.tree()),
    {
        self.into_object().union(other)
    }
}

impl<T: IntoObject<D>, const D: usize> vstd::std_specs::ops::BitOrSpecImpl<T> for ScaleY<D> {
    /// No value is stated here: the operator's own contract states the tree
    /// of its result.
    open spec fn obeys_bitor_spec() -> bool {
        false
    }

    open spec fn bitor_req(self, rhs: T) -> bool {
        true
    }

    open spec fn bitor_spec(self, rhs: T) -> Object<D> {
        arbitrary()
    }
}

impl<T: IntoObject<D>, const D: usize> core::ops::Sub<T> for ScaleY<D> {
    type Output = Object<D>;

    fn sub(self, other: T) -> (r: Object<D>)
        ensures
            r@ == boolean_tree((Difference::<D> {}).spec_node(), self.spec_node(), other.tree()),
    {
        self.into_object().difference(other)
    }
}

impl<T: IntoObject<D>, const D: usize> vstd::std_specs::ops::SubSpecImpl<T> for ScaleY<D> {
    /// No value is stated here: the operator's own contract states the tree
    /// of its result.
    open spec fn obeys_sub_spec() -> bool {
        false
    }

    open spec fn sub_req(self, rhs: T) -> bool {
        true
    }

    open spec fn sub_spec(self, rhs: T) -> Object<D> {
        arbitrary()
    }
}

impl<F: Operator<D>, const D: usize> core::ops::Shr<F> for ScaleY<D> {
    type Output = F::Output;

    fn shr(self, f: F) -> (r: F::Output)
        ensures
            f.applied(self.spec_node(), r),
    {
        self.into_object().pipe(f)
    }
}

impl<F: Operator<D>, const D: usize> vstd::std_specs::ops::ShrSpecImpl<F> for ScaleY<D> {
    /// No value is stated here: the operator's own contract states the tree
    /// of its result.
    open spec fn obeys_shr_spec() -> bool {
        false
    }

    open spec fn shr_req(self, rhs: F) -> bool {
        true
    }

    open spec fn shr_spec(self, rhs: F) -> F::Output {
        arbitrary()
    }
}

impl<const D: usize> From<ScaleY<D>> for Object<D> {
    fn from(value: ScaleY<D>) -> (r: Object<D>)
        ensures
            r@ == value.spec_node(),
    {
        value.into_object()
    }
}

impl<const D: usize> vstd::std_specs::convert::FromSpecImpl<ScaleY<D>> for Object<D> {
    /// No value is stated here: the conversion's own contract states the
    /// tree of its result.
    open spec fn obeys_from_spec() -> bool {
        false
    }

    open spec fn from_spec(value: ScaleY<D>) -> Object<D> {
        arbitrary()
    }
}

impl<const D: usize> Operator<D> for ScaleY<D> {
    type Output = Object<D>;

    open spec fn applied(&self, child: NodeView, out: Object<D>) -> bool {
        out@ == wrapped_tree(self.spec_node(), child)
    }

    fn apply(self, object: Object<D>) -> (r: Object<D>) {
        let w: Wrapped<D, D> = Wrapped { parent: self.into_object(), child: object };
        w.into_object()
    }
}

/// Scales children by the given factor on the Z axis.
#[derive(Clone, Copy, Debug, PartialEq)]
pub struct ScaleZ<const D: usize> {
    pub z: Option<Scalar>,
}

impl<const D: usize> Default for ScaleZ<D> {
    fn default() -> (r: Self)
        ensures
            r == (ScaleZ::<D> { z: None }),
    {
        ScaleZ::<D> { z: None }
    }
}

/// Scales children by the given factor on the Z axis.
pub fn scale_z<const D: usize>(z: Scalar) -> (r: ScaleZ<D>)
    ensures
        r == (ScaleZ::<D> { z: Some(z) }),
{
    ScaleZ::<D>::default().z(z)
}

impl<const D: usize> ScaleZ<D> {
    pub fn z(self, z: Scalar) -> (r: Self)
        ensures
            r == (ScaleZ::<D> { z: Some(z), ..self }),
    {
        ScaleZ::<D> { z: Some(z), ..self }
    }

    /// The call this value renders as.
    pub open spec fn spec_node(&self) -> NodeView {
        NodeView::Call {
            imports: seq![],
            callee: CalleeView::Template("(z=undef) { scale([1, 1, z]) children(); }"@),
            args: seq![("z"@, opt_value(self.z))],
            operator: true,
        }
    }

    /// The node of the call this value renders as.
    pub fn to_node(&self) -> (r: Node)
        ensures
            r@ == self.spec_node(),
    {
        let imports: Vec<Import> = Vec::new();
        let args = vec![(String::from_str("z"), opt_to_value(&self.z))];
        let ghost iv = imports@;
        let ghost av = args@;
        let callee = Callee::Template(String::from_str("(z=undef) { scale([1, 1, z]) children(); }"));
        let r = Node::Call(CallNode { imports, callee, args, operator: true });
        assert(iv.map_values(|i: Import| i@) =~= seq![]);
        assert(call_args_view(av) =~= seq![("z"@, opt_value(self.z))]);
        r
    }
}

impl<const D: usize> Scad for ScaleZ<D> {
    open spec fn rendered(&self, s: FormatterView) -> (FormatterView, AssignmentView) {
        node_rendered(s, self.spec_node())
    }

    fn assign(&self, f: &mut Formatter) -> (r: Assignment) {
        self.to_node().assign_node(f)
    }
}

impl<const D: usize> IntoObject<D> for ScaleZ<D> {
    open spec fn tree(&self) -> NodeView {
        self.spec_node()
    }

    fn into_object(self) -> (r: Object<D>) {
        Object::new(self.to_node())
    }
}

impl<T: IntoObject<D>, const D: usize> core::ops::Add<T> for ScaleZ<D> {
    type Output = Object<D>;

    fn add(self, other: T) -> (r: Object<D>)
        ensures
            r@ == boolean_tree((Union::<D> {}).spec_node(), self.spec_node(), other.tree()),
    {
        self.into_object().union(other)
    }
}

impl<T: IntoObject<D>, const D: usize> vstd::std_specs::ops::AddSpecImpl<T> for ScaleZ<D> {
    /// No value is stated here: the operator's own contract states the tree
    /// of its result.
    open spec fn obeys_add_spec() -> bool {
        false
    }

    open spec fn add_req(self, rhs: T) -> bool {
        true
    }

    open spec fn add_spec(self, rhs: T) -> Object<D> {
        arbitrary()
    }
}

impl<T: IntoObject<D>, const D: usize> core::ops::BitOr<T> for ScaleZ<D> {
    type Output = Object<D>;

    fn bitor(self, other: T) -> (r: Object<D>)
        ensures
            r@ == boolean_tree((Union::<D> {}).spec_node(), self.spec_node(), other.tree()),
    {
        self.into_object().union(other)
    }
}

impl<T: IntoObject<D>, const D: usize> vstd::std_specs::ops::BitOrSpecImpl<T> for ScaleZ<D> {
    /// No value is stated here: the operator's own contract states the tree
    /// of its result.
    open spec fn obeys_bitor_spec() -> bool {
        false
    }

    open spec fn bitor_req(self, rhs: T) -> bool {
        true
    }

    open spec fn bitor_spec(self, rhs: T) -> Object<D> {
        arbitrary()
    }
}

impl<T: IntoObject<D>, const D: usize> core::ops::Sub<T> for ScaleZ<D> {
    type Output = Object<D>;

    fn sub(self, other: T) -> (r: Object<D>)
        ensures
            r@ == boolean_tree((Difference::<D> {}).spec_node(), self.spec_node(), other.tree()),
    {
        self.into_object().difference(other)
    }
}

impl<T: IntoObject<D>, const D: usize> vstd::std_specs::ops::SubSpecImpl<T> for ScaleZ<D> {
    /// No value is stated here: the operator's own contract states the tree
    /// of its result.
    open spec fn obeys_sub_spec() -> bool {
        false
    }

    open spec fn sub_req(self, rhs: T) -> bool {
        true
    }

    open spec fn sub_spec(self, rhs: T) -> Object<D> {
        arbitrary()
    }
}

impl<F: Operator<D>, const D: usize> core::ops::Shr<F> for ScaleZ<D> {
    type Output = F::Output;

    fn shr(self, f: F) -> (r: F::Output)
        ensures
            f.applied(self.spec_node(), r),
    {
        self.into_object().pipe(f)
    }
}

impl<F: Operator<D>, const D: usize> vstd::std_specs::ops::ShrSpecImpl<F> for ScaleZ<D> {
    /// No value is stated here: the operator's own contract states the tree
    /// of its result.
    open spec fn obeys_shr_spec() -> bool {
        false
    }

    open spec fn shr_req(self, rhs: F) -> bool {
        true
    }

    open spec fn shr_spec(self, rhs: F) -> F::Output {
        arbitrary()
    }
}

impl<const D: usize> From<ScaleZ<D>> for Object<D> {
    fn from(value: ScaleZ<D>) -> (r: Object<D>)
        ensures
            r@ == value.spec_node(),
    {
        value.into_object()
    }
}

impl<const D: usize> vstd::std_specs::convert::FromSpecImpl<ScaleZ<D>> for Object<D> {
    /// No value is stated here: the conversion's own contract states the
    /// tree of its result.
    open spec fn obeys_from_spec() -> bool {
        false
    }

    open spec fn from_spec(value: ScaleZ<D>) -> Object<D> {
        arbitrary()
    }
}

impl<const D: usize> Operator<D> for ScaleZ<D> {
    type Output = Object<D>;

    open spec fn applied(&self, child: NodeView, out: Object<D>) -> bool {
        out@ == wrapped_tree(self.spec_node(), child)
    }

    fn apply(self, object: Object<D>) -> (r: Object<D>) {
        let w: Wrapped<D, D> = Wrapped { parent: self.into_object(), child: object };
        w.into_object()
    }
}

} // verus!
