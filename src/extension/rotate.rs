//! Rotation about one axis, optionally around a point.
use vstd::prelude::*;
use crate::ext::boolean_tree;
use crate::primitive::set::{Difference, Union};
use crate::object::{call_args_view, node_rendered, wrapped_tree, CallNode, Callee, CalleeView, IntoObject, Node, NodeView, Object, Operator, Wrapped};
use crate::scad::{Assignment, AssignmentView, Formatter, FormatterView, Import, Scad};
use crate::types::{opt_to_value, opt_value, Angle, Length3};

verus! {

/// Rotates children around the X axis by the given number of degrees.
#[derive(Clone, Copy, Debug, PartialEq)]
pub struct RotateX<const D: usize> {
    pub angle: Option<Angle>,
}

impl<const D: usize> Default for RotateX<D> {
    fn default() -> (r: Self)
        ensures
            r == (RotateX::<D> { angle: None }),
    {
        RotateX::<D> { angle: None }
    }
}

/// Rotates children around the X axis by the given number of degrees.
pub fn rotate_x<const D: usize>(angle: Angle) -> (r: RotateX<D>)
    ensures
        r == (RotateX::<D> { angle: Some(angle) }),
{
    RotateX::<D>::default().angle(angle)
}

impl<const D: usize> RotateX<D> {
    pub fn angle(self, angle: Angle) -> (r: Self)
        ensures
            r == (RotateX::<D> { angle: Some(angle), ..self }),
    {
        RotateX::<D> { angle: Some(angle), ..self }
    }

    /// The call this value renders as.
    pub open spec fn spec_node(&self) -> NodeView {
        NodeView::Call {
            imports: seq![],
            callee: CalleeView::Template("(a=0) { rotate([a, 0, 0]) children(); }"@),
            args: seq![("a"@, opt_value(self.angle))],
            operator: true,
        }
    }

    /// The node of the call this value renders as.
    pub fn to_node(&self) -> (r: Node)
        ensures
            r@ == self.spec_node(),
    {
        let imports: Vec<Import> = Vec::new();
        let args = vec![(String::from_str("a"), opt_to_value(&self.angle))];
        let ghost iv = imports@;
        let ghost av = args@;
        let callee = Callee::Template(String::from_str("(a=0) { rotate([a, 0, 0]) children(); }"));
        let r = Node::Call(CallNode { imports, callee, args, operator: true });
        assert(iv.map_values(|i: Import| i@) =~= seq![]);
        assert(call_args_view(av) =~= seq![("a"@, opt_value(self.angle))]);
        r
    }
}

impl<const D: usize> Scad for RotateX<D> {
    open spec fn rendered(&self, s: FormatterView) -> (FormatterView, AssignmentView) {
        node_rendered(s, self.spec_node())
    }

    fn assign(&self, f: &mut Formatter) -> (r: Assignment) {
        self.to_node().assign_node(f)
    }
}

impl<const D: usize> IntoObject<D> for RotateX<D> {
    open spec fn tree(&self) -> NodeView {
        self.spec_node()
    }

    fn into_object(self) -> (r: Object<D>) {
        Object::new(self.to_node())
    }
}

impl<T: IntoObject<D>, const D: usize> core::ops::Add<T> for RotateX<D> {
    type Output = Object<D>;

    fn add(self, other: T) -> (r: Object<D>)
        ensures
            r@ == boolean_tree((Union::<D> {}).spec_node(), self.spec_node(), other.tree()),
    {
        self.into_object().union(other)
    }
}

impl<T: IntoObject<D>, const D: usize> vstd::std_specs::ops::AddSpecImpl<T> for RotateX<D> {
    /// No value is stated here: the operator's own contract states the tree
    /// of its result.
    open spec fn obeys_add_spec() -> bool {
        false
    }

    open spec fn add_req(self, rhs: T) -> bool {
        true
    }

    open spec fn add_spec(self, rhs: T) -> Object<D> {
        arbitrary()
    }
}

impl<T: IntoObject<D>, const D: usize> core::ops::BitOr<T> for RotateX<D> {
    type Output = Object<D>;

    fn bitor(self, other: T) -> (r: Object<D>)
        ensures
            r@ == boolean_tree((Union::<D> {}).spec_node(), self.spec_node(), other.tree()),
    {
        self.into_object().union(other)
    }
}

impl<T: IntoObject<D>, const D: usize> vstd::std_specs::ops::BitOrSpecImpl<T> for RotateX<D> {
    /// No value is stated here: the operator's own contract states the tree
    /// of its result.
    open spec fn obeys_bitor_spec() -> bool {
        false
    }

    open spec fn bitor_req(self, rhs: T) -> bool {
        true
    }

    open spec fn bitor_spec(self, rhs: T) -> Object<D> {
        arbitrary()
    }
}

impl<T: IntoObject<D>, const D: usize> core::ops::Sub<T> for RotateX<D> {
    type Output = Object<D>;

    fn sub(self, other: T) -> (r: Object<D>)
        ensures
            r@ == boolean_tree((Difference::<D> {}).spec_node(), self.spec_node(), other.tree()),
    {
        self.into_object().difference(other)
    }
}

impl<T: IntoObject<D>, const D: usize> vstd::std_specs::ops::SubSpecImpl<T> for RotateX<D> {
    /// No value is stated here: the operator's own contract states the tree
    /// of its result.
    open spec fn obeys_sub_spec() -> bool {
        false
    }

    open spec fn sub_req(self, rhs: T) -> bool {
        true
    }

    open spec fn sub_spec(self, rhs: T) -> Object<D> {
        arbitrary()
    }
}

impl<F: Operator<D>, const D: usize> core::ops::Shr<F> for RotateX<D> {
    type Output = F::Output;

    fn shr(self, f: F) -> (r: F::Output)
        ensures
            f.applied(self.spec_node(), r),
    {
        self.into_object().pipe(f)
    }
}

impl<F: Operator<D>, const D: usize> vstd::std_specs::ops::ShrSpecImpl<F> for RotateX<D> {
    /// No value is stated here: the operator's own contract states the tree
    /// of its result.
    open spec fn obeys_shr_spec() -> bool {
        false
    }

    open spec fn shr_req(self, rhs: F) -> bool {
        true
    }

    open spec fn shr_spec(self, rhs: F) -> F::Output {
        arbitrary()
    }
}

impl<const D: usize> From<RotateX<D>> for Object<D> {
    fn from(value: RotateX<D>) -> (r: Object<D>)
        ensures
            r@ == value.spec_node(),
    {
        value.into_object()
    }
}

impl<const D: usize> vstd::std_specs::convert::FromSpecImpl<RotateX<D>> for Object<D> {
    /// No value is stated here: the conversion's own contract states the
    /// tree of its result.
    open spec fn obeys_from_spec() -> bool {
        false
    }

    open spec fn from_spec(value: RotateX<D>) -> Object<D> {
        arbitrary()
    }
}

impl<const D: usize> Operator<D> for RotateX<D> {
    type Output = Object<D>;

    open spec fn applied(&self, child: NodeView, out: Object<D>) -> bool {
        out@ == wrapped_tree(self.spec_node(), child)
    }

    fn apply(self, object: Object<D>) -> (r: Object<D>) {
        let w: Wrapped<D, D> = Wrapped { parent: self.into_object(), child: object };
        w.into_object()
    }
}

/// Rotates children around the X axis by the given number of degrees at a centerpoint.
#[derive(Clone, Copy, Debug, PartialEq)]
pub struct RotateXAround<const D: usize> {
    pub angle: Option<Angle>,
    pub centerpoint: Option<Length3>,
}

impl<const D: usize> Default for RotateXAround<D> {
    fn default() -> (r: Self)
        ensures
            r == (RotateXAround::<D> { angle: None, centerpoint: None }),
    {
        RotateXAround::<D> { angle: None, centerpoint: None }
    }
}

pub fn rotate_x_around<const D: usize>(angle: Angle) -> (r: RotateXAround<D>)
    ensures
        r == (RotateXAround::<D> { angle: Some(angle), centerpoint: None }),
{
    RotateXAround::<D>::default().angle(angle)
}

impl<const D: usize> RotateXAround<D> {
    pub fn angle(self, angle: Angle) -> (r: Self)
        ensures
            r == (RotateXAround::<D> { angle: Some(angle), ..self }),
    {
        RotateXAround::<D> { angle: Some(angle), ..self }
    }

    pub fn centerpoint(self, centerpoint: Length3) -> (r: Self)
        ensures
            r == (RotateXAround::<D> { centerpoint: Some(centerpoint), ..self }),
    {
        RotateXAround::<D> { centerpoint: Some(centerpoint), ..self }
    }

    /// The call this value renders as.
    pub open spec fn spec_node(&self) -> NodeView {
        NodeView::Call {
            imports: seq![],
            callee: CalleeView::Template("(a=0, cp=undef) { if (!is_undef(cp)) { translate(cp) rotate([a, 0, 0]) translate(-cp) children(); } else { rotate([a, 0, 0]) children(); } }"@),
            args: seq![("a"@, opt_value(self.angle)), ("cp"@, opt_value(self.centerpoint))],
            operator: true,
        }
    }

    /// The node of the call this value renders as.
    pub fn to_node(&self) -> (r: Node)
        ensures
            r@ == self.spec_node(),
    {
        let imports: Vec<Import> = Vec::new();
        let args = vec![(String::from_str("a"), opt_to_value(&self.angle)), (String::from_str("cp"), opt_to_value(&self.centerpoint))];
        let ghost iv = imports@;
        let ghost av = args@;
        let callee = Callee::Template(String::from_str("(a=0, cp=undef) { if (!is_undef(cp)) { translate(cp) rotate([a, 0, 0]) translate(-cp) children(); } else { rotate([a, 0, 0]) children(); } }"));
        let r = Node::Call(CallNode { imports, callee, args, operator: true });
        assert(iv.map_values(|i: Import| i@) =~= seq![]);
        assert(call_args_view(av) =~= seq![("a"@, opt_value(self.angle)), ("cp"@, opt_value(self.centerpoint))]);
        r
    }
}

impl<const D: usize> Scad for RotateXAround<D> {
    open spec fn rendered(&self, s: FormatterView) -> (FormatterView, AssignmentView) {
        node_rendered(s, self.spec_node())
    }

    fn assign(&self, f: &mut Formatter) -> (r: Assignment) {
        self.to_node().assign_node(f)
    }
}

impl<const D: usize> IntoObject<D> for RotateXAround<D> {
    open spec fn tree(&self) -> NodeView {
        self.spec_node()
    }

    fn into_object(self) -> (r: Object<D>) {
        Object::new(self.to_node())
    }
}

impl<T: IntoObject<D>, const D: usize> core::ops::Add<T> for RotateXAround<D> {
    type Output = Object<D>;

    fn add(self, other: T) -> (r: Object<D>)
        ensures
            r@ == boolean_tree((Union::<D> {}).spec_node(), self.spec_node(), other.tree()),
    {
        self.into_object().union(other)
    }
}

impl<T: IntoObject<D>, const D: usize> vstd::std_specs::ops::AddSpecImpl<T> for RotateXAround<D> {
    /// No value is stated here: the operator's own contract states the tree
    /// of its result.
    open spec fn obeys_add_spec() -> bool {
        false
    }

    open spec fn add_req(self, rhs: T) -> bool {
        true
    }

    open spec fn add_spec(self, rhs: T) -> Object<D> {
        arbitrary()
    }
}

impl<T: IntoObject<D>, const D: usize> core::ops::BitOr<T> for RotateXAround<D> {
    type Output = Object<D>;

    fn bitor(self, other: T) -> (r: Object<D>)
        ensures
            r@ == boolean_tree((Union::<D> {}).spec_node(), self.spec_node(), other.tree()),
    {
        self.into_object().union(other)
    }
}

impl<T: IntoObject<D>, const D: usize> vstd::std_specs::ops::BitOrSpecImpl<T> for RotateXAround<D> {
    /// No value is stated here: the operator's own contract states the tree
    /// of its result.
    open spec fn obeys_bitor_spec() -> bool {
        false
    }

    open spec fn bitor_req(self, rhs: T) -> bool {
        true
    }

    open spec fn bitor_spec(self, rhs: T) -> Object<D> {
        arbitrary()
    }
}

impl<T: IntoObject<D>, const D: usize> core::ops::Sub<T> for RotateXAround<D> {
    type Output = Object<D>;

    fn sub(self, other: T) -> (r: Object<D>)
        ensures
            r@ == boolean_tree((Difference::<D> {}).spec_node(), self.spec_node(), other.tree()),
    {
        self.into_object().difference(other)
    }
}

impl<T: IntoObject<D>, const D: usize> vstd::std_specs::ops::SubSpecImpl<T> for RotateXAround<D> {
    /// No value is stated here: the operator's own contract states the tree
    /// of its result.
    open spec fn obeys_sub_spec() -> bool {
        false
    }

    open spec fn sub_req(self, rhs: T) -> bool {
        true
    }

    open spec fn sub_spec(self, rhs: T) -> Object<D> {
        arbitrary()
    }
}

impl<F: Operator<D>, const D: usize> core::ops::Shr<F> for RotateXAround<D> {
    type Output = F::Output;

    fn shr(self, f: F) -> (r: F::Output)
        ensures
            f.applied(self.spec_node(), r),
    {
        self.into_object().pipe(f)
    }
}

impl<F: Operator<D>, const D: usize> vstd::std_specs::ops::ShrSpecImpl<F> for RotateXAround<D> {
    /// No value is stated here: the operator's own contract states the tree
    /// of its result.
    open spec fn obeys_shr_spec() -> bool {
        false
    }

    open spec fn shr_req(self, rhs: F) -> bool {
        true
    }

    open spec fn shr_spec(self, rhs: F) -> F::Output {
        arbitrary()
    }
}

impl<const D: usize> From<RotateXAround<D>> for Object<D> {
    fn from(value: RotateXAround<D>) -> (r: Object<D>)
        ensures
            r@ == value.spec_node(),
    {
        value.into_object()
    }
}

impl<const D: usize> vstd::std_specs::convert::FromSpecImpl<RotateXAround<D>> for Object<D> {
    /// No value is stated here: the conversion's own contract states the
    /// tree of its result.
    open spec fn obeys_from_spec() -> bool {
        false
    }

    open spec fn from_spec(value: RotateXAround<D>) -> Object<D> {
        arbitrary()
    }
}

impl<const D: usize> Operator<D> for RotateXAround<D> {
    type Output = Object<D>;

    open spec fn applied(&self, child: NodeView, out: Object<D>) -> bool {
        out@ == wrapped_tree(self.spec_node(), child)
    }

    fn apply(self, object: Object<D>) -> (r: Object<D>) {
        let w: Wrapped<D, D> = Wrapped { parent: self.into_object(), child: object };
        w.into_object()
    }
}

/// Rotates children around the Y axis by the given number of degrees.
#[derive(Clone, Copy, Debug, PartialEq)]
pub struct RotateY<const D: usize> {
    pub angle: Option<Angle>,
}

impl<const D: usize> Default for RotateY<D> {
    fn default() -> (r: Self)
        ensures
            r == (RotateY::<D> { angle: None }),
    {
        RotateY::<D> { angle: None }
    }
}

/// Rotates children around the Y axis by the given number of degrees.
pub fn rotate_y<const D: usize>(angle: Angle) -> (r: RotateY<D>)
    ensures
        r == (RotateY::<D> { angle: Some(angle) }),
{
    RotateY::<D>::default().angle(angle)
}

impl<const D: usize> RotateY<D> {
    pub fn angle(self, angle: Angle) -> (r: Self)
        ensures
            r == (RotateY::<D> { angle: Some(angle), ..self }),
    {
        RotateY::<D> { angle: Some(angle), ..self }
    }

    /// The call this value renders as.
    pub open spec fn spec_node(&self) -> NodeView {
        NodeView::Call {
            imports: seq![],
            callee: CalleeView::Template("(a=0) { rotate([0, a, 0]) children(); }"@),
            args: seq![("a"@, opt_value(self.angle))],
            operator: true,
        }
    }

    /// The node of the call this value renders as.
    pub fn to_node(&self) -> (r: Node)
        ensures
            r@ == self.spec_node(),
    {
        let imports: Vec<Import> = Vec::new();
        let args = vec![(String::from_str("a"), opt_to_value(&self.angle))];
        let ghost iv = imports@;
        let ghost av = args@;
        let callee = Callee::Template(String::from_str("(a=0) { rotate([0, a, 0]) children(); }"));
        let r = Node::Call(CallNode { imports, callee, args, operator: true });
        assert(iv.map_values(|i: Import| i@) =~= seq![]);
        assert(call_args_view(av) =~= seq![("a"@, opt_value(self.angle))]);
        r
    }
}

impl<const D: usize> Scad for RotateY<D> {
    open spec fn rendered(&self, s: FormatterView) -> (FormatterView, AssignmentView) {
        node_rendered(s, self.spec_node())
    }

    fn assign(&self, f: &mut Formatter) -> (r: Assignment) {
        self.to_node().assign_node(f)
    }
}

impl<const D: usize> IntoObject<D> for RotateY<D> {
    open spec fn tree(&self) -> NodeView {
        self.spec_node()
    }

    fn into_object(self) -> (r: Object<D>) {
        Object::new(self.to_node())
    }
}

impl<T: IntoObject<D>, const D: usize> core::ops::Add<T> for RotateY<D> {
    type Output = Object<D>;

    fn add(self, other: T) -> (r: Object<D>)
        ensures
            r@ == boolean_tree((Union::<D> {}).spec_node(), self.spec_node(), other.tree()),
    {
        self.into_object().union(other)
    }
}

impl<T: IntoObject<D>, const D: usize> vstd::std_specs::ops::AddSpecImpl<T> for RotateY<D> {
    /// No value is stated here: the operator's own contract states the tree
    /// of its result.
    open spec fn obeys_add_spec() -> bool {
        false
    }

    open spec fn add_req(self, rhs: T) -> bool {
        true
    }

    open spec fn add_spec(self, rhs: T) -> Object<D> {
        arbitrary()
    }
}

impl<T: IntoObject<D>, const D: usize> core::ops::BitOr<T> for RotateY<D> {
    type Output = Object<D>;

    fn bitor(self, other: T) -> (r: Object<D>)
        ensures
            r@ == boolean_tree((Union::<D> {}).spec_node(), self.spec_node(), other.tree()),
    {
        self.into_object().union(other)
    }
}

impl<T: IntoObject<D>, const D: usize> vstd::std_specs::ops::BitOrSpecImpl<T> for RotateY<D> {
    /// No value is stated here: the operator's own contract states the tree
    /// of its result.
    open spec fn obeys_bitor_spec() -> bool {
        false
    }

    open spec fn bitor_req(self, rhs: T) -> bool {
        true
    }

    open spec fn bitor_spec(self, rhs: T) -> Object<D> {
        arbitrary()
    }
}

impl<T: IntoObject<D>, const D: usize> core::ops::Sub<T> for RotateY<D> {
    type Output = Object<D>;

    fn sub(self, other: T) -> (r: Object<D>)
        ensures
            r@ == boolean_tree((Difference::<D> {}).spec_node(), self.spec_node(), other.tree()),
    {
        self.into_object().difference(other)
    }
}

impl<T: IntoObject<D>, const D: usize> vstd::std_specs::ops::SubSpecImpl<T> for RotateY<D> {
    /// No value is stated here: the operator's own contract states the tree
    /// of its result.
    open spec fn obeys_sub_spec() -> bool {
        false
    }

    open spec fn sub_req(self, rhs: T) -> bool {
        true
    }

    open spec fn sub_spec(self, rhs: T) -> Object<D> {
        arbitrary()
    }
}

impl<F: Operator<D>, const D: usize> core::ops::Shr<F> for RotateY<D> {
    type Output = F::Output;

    fn shr(self, f: F) -> (r: F::Output)
        ensures
            f.applied(self.spec_node(), r),
    {
        self.into_object().pipe(f)
    }
}

impl<F: Operator<D>, const D: usize> vstd::std_specs::ops::ShrSpecImpl<F> for RotateY<D> {
    /// No value is stated here: the operator's own contract states the tree
    /// of its result.
    open spec fn obeys_shr_spec() -> bool {
        false
    }

    open spec fn shr_req(self, rhs: F) -> bool {
        true
    }

    open spec fn shr_spec(self, rhs: F) -> F::Output {
        arbitrary()
    }
}

impl<const D: usize> From<RotateY<D>> for Object<D> {
    fn from(value: RotateY<D>) -> (r: Object<D>)
        ensures
            r@ == value.spec_node(),
    {
        value.into_object()
    }
}

impl<const D: usize> vstd::std_specs::convert::FromSpecImpl<RotateY<D>> for Object<D> {
    /// No value is stated here: the conversion's own contract states the
    /// tree of its result.
    open spec fn obeys_from_spec() -> bool {
        false
    }

    open spec fn from_spec(value: RotateY<D>) -> Object<D> {
        arbitrary()
    }
}

impl<const D: usize> Operator<D> for RotateY<D> {
    type Output = Object<D>;

    open spec fn applied(&self, child: NodeView, out: Object<D>) -> bool {
        out@ == wrapped_tree(self.spec_node(), child)
    }

    fn apply(self, object: Object<D>) -> (r: Object<D>) {
        let w: Wrapped<D, D> = Wrapped { parent: self.into_object(), child: object };
        w.into_object()
    }
}

/// Rotates children around the Y axis by the given number of degrees at a centerpoint.
#[derive(Clone, Copy, Debug, PartialEq)]
pub struct RotateYAround<const D: usize> {
    pub angle: Option<Angle>,
    pub centerpoint: Option<Length3>,
}

impl<const D: usize> Default for RotateYAround<D> {
    fn default() -> (r: Self)
        ensures
            r == (RotateYAround::<D> { angle: None, centerpoint: None }),
    {
        RotateYAround::<D> { angle: None, centerpoint: None }
    }
}

pub fn rotate_y_around<const D: usize>(angle: Angle) -> (r: RotateYAround<D>)
    ensures
        r == (RotateYAround::<D> { angle: Some(angle), centerpoint: None }),
{
    RotateYAround::<D>::default().angle(angle)
}

impl<const D: usize> RotateYAround<D> {
    pub fn angle(self, angle: Angle) -> (r: Self)
        ensures
            r == (RotateYAround::<D> { angle: Some(angle), ..self }),
    {
        RotateYAround::<D> { angle: Some(angle), ..self }
    }

    pub fn centerpoint(self, centerpoint: Length3) -> (r: Self)
        ensures
            r == (RotateYAround::<D> { centerpoint: Some(centerpoint), ..self }),
    {
        RotateYAround::<D> { centerpoint: Some(centerpoint), ..self }
    }

    /// The call this value renders as.
    pub open spec fn spec_node(&self) -> NodeView {
        NodeView::Call {
            imports: seq![],
            callee: CalleeView::Template("(a=0, cp=undef) { if (!is_undef(cp)) { translate(cp) rotate([0, a, 0]) translate(-cp) children(); } else { rotate([0, a, 0]) children(); } }"@),
            args: seq![("a"@, opt_value(self.angle)), ("cp"@, opt_value(self.centerpoint))],
            operator: true,
        }
    }

    /// The node of the call this value renders as.
    pub fn to_node(&self) -> (r: Node)
        ensures
            r@ == self.spec_node(),
    {
        let imports: Vec<Import> = Vec::new();
        let args = vec![(String::from_str("a"), opt_to_value(&self.angle)), (String::from_str("cp"), opt_to_value(&self.centerpoint))];
        let ghost iv = imports@;
        let ghost av = args@;
        let callee = Callee::Template(String::from_str("(a=0, cp=undef) { if (!is_undef(cp)) { translate(cp) rotate([0, a, 0]) translate(-cp) children(); } else { rotate([0, a, 0]) children(); } }"));
        let r = Node::Call(CallNode { imports, callee, args, operator: true });
        assert(iv.map_values(|i: Import| i@) =~= seq![]);
        assert(call_args_view(av) =~= seq![("a"@, opt_value(self.angle)), ("cp"@, opt_value(self.centerpoint))]);
        r
    }
}

impl<const D: usize> Scad for RotateYAround<D> {
    open spec fn rendered(&self, s: FormatterView) -> (FormatterView, AssignmentView) {
        node_rendered(s, self.spec_node())
    }

    fn assign(&self, f: &mut Formatter) -> (r: Assignment) {
        self.to_node().assign_node(f)
    }
}

impl<const D: usize> IntoObject<D> for RotateYAround<D> {
    open spec fn tree(&self) -> NodeView {
        self.spec_node()
    }

    fn into_object(self) -> (r: Object<D>) {
        Object::new(self.to_node())
    }
}

impl<T: IntoObject<D>, const D: usize> core::ops::Add<T> for RotateYAround<D> {
    type Output = Object<D>;

    fn add(self, other: T) -> (r: Object<D>)
        ensures
            r@ == boolean_tree((Union::<D> {}).spec_node(), self.spec_node(), other.tree()),
    {
        self.into_object().union(other)
    }
}

impl<T: IntoObject<D>, const D: usize> vstd::std_specs::ops::AddSpecImpl<T> for RotateYAround<D> {
    /// No value is stated here: the operator's own contract states the tree
    /// of its result.
    open spec fn obeys_add_spec() -> bool {
        false
    }

    open spec fn add_req(self, rhs: T) -> bool {
        true
    }

    open spec fn add_spec(self, rhs: T) -> Object<D> {
        arbitrary()
    }
}

impl<T: IntoObject<D>, const D: usize> core::ops::BitOr<T> for RotateYAround<D> {
    type Output = Object<D>;

    fn bitor(self, other: T) -> (r: Object<D>)
        ensures
            r@ == boolean_tree((Union::<D> {}).spec_node(), self.spec_node(), other.tree()),
    {
        self.into_object().union(other)
    }
}

impl<T: IntoObject<D>, const D: usize> vstd::std_specs::ops::BitOrSpecImpl<T> for RotateYAround<D> {
    /// No value is stated here: the operator's own contract states the tree
    /// of its result.
    open spec fn obeys_bitor_spec() -> bool {
        false
    }

    open spec fn bitor_req(self, rhs: T) -> bool {
        true
    }

    open spec fn bitor_spec(self, rhs: T) -> Object<D> {
        arbitrary()
    }
}

impl<T: IntoObject<D>, const D: usize> core::ops::Sub<T> for RotateYAround<D> {
    type Output = Object<D>;

    fn sub(self, other: T) -> (r: Object<D>)
        ensures
            r@ == boolean_tree((Difference::<D> {}).spec_node(), self.spec_node(), other.tree()),
    {
        self.into_object().difference(other)
    }
}

impl<T: IntoObject<D>, const D: usize> vstd::std_specs::ops::SubSpecImpl<T> for RotateYAround<D> {
    /// No value is stated here: the operator's own contract states the tree
    /// of its result.
    open spec fn obeys_sub_spec() -> bool {
        false
    }

    open spec fn sub_req(self, rhs: T) -> bool {
        true
    }

    open spec fn sub_spec(self, rhs: T) -> Object<D> {
        arbitrary()
    }
}

impl<F: Operator<D>, const D: usize> core::ops::Shr<F> for RotateYAround<D> {
    type Output = F::Output;

    fn shr(self, f: F) -> (r: F::Output)
        ensures
            f.applied(self.spec_node(), r),
    {
        self.into_object().pipe(f)
    }
}

impl<F: Operator<D>, const D: usize> vstd::std_specs::ops::ShrSpecImpl<F> for RotateYAround<D> {
    /// No value is stated here: the operator's own contract states the tree
    /// of its result.
    open spec fn obeys_shr_spec() -> bool {
        false
    }

    open spec fn shr_req(self, rhs: F) -> bool {
        true
    }

    open spec fn shr_spec(self, rhs: F) -> F::Output {
        arbitrary()
    }
}

impl<const D: usize> From<RotateYAround<D>> for Object<D> {
    fn from(value: RotateYAround<D>) -> (r: Object<D>)
        ensures
            r@ == value.spec_node(),
    {
        value.into_object()
    }
}

impl<const D: usize> vstd::std_specs::convert::FromSpecImpl<RotateYAround<D>> for Object<D> {
    /// No value is stated here: the conversion's own contract states the
    /// tree of its result.
    open spec fn obeys_from_spec() -> bool {
        false
    }

    open spec fn from_spec(value: RotateYAround<D>) -> Object<D> {
        arbitrary()
    }
}

impl<const D: usize> Operator<D> for RotateYAround<D> {
    type Output = Object<D>;

    open spec fn applied(&self, child: NodeView, out: Object<D>) -> bool {
        out@ == wrapped_tree(self.spec_node(), child)
    }

    fn apply(self, object: Object<D>) -> (r: Object<D>) {
        let w: Wrapped<D, D> = Wrapped { parent: self.into_object(), child: object };
        w.into_object()
    }
}

/// Rotates children around the Z axis by the given number of degrees.
#[derive(Clone, Copy, Debug, PartialEq)]
pub struct RotateZ<const D: usize> {
    pub angle: Option<Angle>,
}

impl<const D: usize> Default for RotateZ<D> {
    fn default() -> (r: Self)
        ensures
            r == (RotateZ::<D> { angle: None }),
    {
        RotateZ::<D> { angle: None }
    }
}

/// Rotates children around the Z axis by the given number of degrees.
pub fn rotate_z<const D: usize>(angle: Angle) -> (r: RotateZ<D>)
    ensures
        r == (RotateZ::<D> { angle: Some(angle) }),
{
    RotateZ::<D>::default().angle(angle)
}

impl<const D: usize> RotateZ<D> {
    pub fn angle(self, angle: Angle) -> (r: Self)
        ensures
            r == (RotateZ::<D> { angle: Some(angle), ..self }),
    {
        RotateZ::<D> { angle: Some(angle), ..self }
    }

    /// The call this value renders as.
    pub open spec fn spec_node(&self) -> NodeView {
        NodeView::Call {
            imports: seq![],
            callee: CalleeView::Template("(a=0) { rotate([0, 0, a]) children(); }"@),
            args: seq![("a"@, opt_value(self.angle))],
            operator: true,
        }
    }

    /// The node of the call this value renders as.
    pub fn to_node(&self) -> (r: Node)
        ensures
            r@ == self.spec_node(),
    {
        let imports: Vec<Import> = Vec::new();
        let args = vec![(String::from_str("a"), opt_to_value(&self.angle))];
        let ghost iv = imports@;
        let ghost av = args@;
        let callee = Callee::Template(String::from_str("(a=0) { rotate([0, 0, a]) children(); }"));
        let r = Node::Call(CallNode { imports, callee, args, operator: true });
        assert(iv.map_values(|i: Import| i@) =~= seq![]);
        assert(call_args_view(av) =~= seq![("a"@, opt_value(self.angle))]);
        r
    }
}

impl<const D: usize> Scad for RotateZ<D> {
    open spec fn rendered(&self, s: FormatterView) -> (FormatterView, AssignmentView) {
        node_rendered(s, self.spec_node())
    }

    fn assign(&self, f: &mut Formatter) -> (r: Assignment) {
        self.to_node().assign_node(f)
    }
}

impl<const D: usize> IntoObject<D> for RotateZ<D> {
    open spec fn tree(&self) -> NodeView {
        self.spec_node()
    }

    fn into_object(self) -> (r: Object<D>) {
        Object::new(self.to_node())
    }
}

impl<T: IntoObject<D>, const D: usize> core::ops::Add<T> for RotateZ<D> {
    type Output = Object<D>;

    fn add(self, other: T) -> (r: Object<D>)
        ensures
            r@ == boolean_tree((Union::<D> {}).spec_node(), self.spec_node(), other.tree()),
    {
        self.into_object().union(other)
    }
}

impl<T: IntoObject<D>, const D: usize> vstd::std_specs::ops::AddSpecImpl<T> for RotateZ<D> {
    /// No value is stated here: the operator's own contract states the tree
    /// of its result.
    open spec fn obeys_add_spec() -> bool {
        false
    }

    open spec fn add_req(self, rhs: T) -> bool {
        true
    }

    open spec fn add_spec(self, rhs: T) -> Object<D> {
        arbitrary()
    }
}

impl<T: IntoObject<D>, const D: usize> core::ops::BitOr<T> for RotateZ<D> {
    type Output = Object<D>;

    fn bitor(self, other: T) -> (r: Object<D>)
        ensures
            r@ == boolean_tree((Union::<D> {}).spec_node(), self.spec_node(), other.tree()),
    {
        self.into_object().union(other)
    }
}

impl<T: IntoObject<D>, const D: usize> vstd::std_specs::ops::BitOrSpecImpl<T> for RotateZ<D> {
    /// No value is stated here: the operator's own contract states the tree
    /// of its result.
    open spec fn obeys_bitor_spec() -> bool {
        false
    }

    open spec fn bitor_req(self, rhs: T) -> bool {
        true
    }

    open spec fn bitor_spec(self, rhs: T) -> Object<D> {
        arbitrary()
    }
}

impl<T: IntoObject<D>, const D: usize> core::ops::Sub<T> for RotateZ<D> {
    type Output = Object<D>;

    fn sub(self, other: T) -> (r: Object<D>)
        ensures
            r@ == boolean_tree((Difference::<D> {}).spec_node(), self.spec_node(), other.tree()),
    {
        self.into_object().difference(other)
    }
}

impl<T: IntoObject<D>, const D: usize> vstd::std_specs::ops::SubSpecImpl<T> for RotateZ<D> {
    /// No value is stated here: the operator's own contract states the tree
    /// of its result.
    open spec fn obeys_sub_spec() -> bool {
        false
    }

    open spec fn sub_req(self, rhs: T) -> bool {
        true
    }

    open spec fn sub_spec(self, rhs: T) -> Object<D> {
        arbitrary()
    }
}

impl<F: Operator<D>, const D: usize> core::ops::Shr<F> for RotateZ<D> {
    type Output = F::Output;

    fn shr(self, f: F) -> (r: F::Output)
        ensures
            f.applied(self.spec_node(), r),
    {
        self.into_object().pipe(f)
    }
}

impl<F: Operator<D>, const D: usize> vstd::std_specs::ops::ShrSpecImpl<F> for RotateZ<D> {
    /// No value is stated here: the operator's own contract states the tree
    /// of its result.
    open spec fn obeys_shr_spec() -> bool {
        false
    }

    open spec fn shr_req(self, rhs: F) -> bool {
        true
    }

    open spec fn shr_spec(self, rhs: F) -> F::Output {
        arbitrary()
    }
}

impl<const D: usize> From<RotateZ<D>> for Object<D> {
    fn from(value: RotateZ<D>) -> (r: Object<D>)
        ensures
            r@ == value.spec_node(),
    {
        value.into_object()
    }
}

impl<const D: usize> vstd::std_specs::convert::FromSpecImpl<RotateZ<D>> for Object<D> {
    /// No value is stated here: the conversion's own contract states the
    /// tree of its result.
    open spec fn obeys_from_spec() -> bool {
        false
    }

    open spec fn from_spec(value: RotateZ<D>) -> Object<D> {
        arbitrary()
    }
}

impl<const D: usize> Operator<D> for RotateZ<D> {
    type Output = Object<D>;

    open spec fn applied(&self, child: NodeView, out: Object<D>) -> bool {
        out@ == wrapped_tree(self.spec_node(), child)
    }

    fn apply(self, object: Object<D>) -> (r: Object<D>) {
        let w: Wrapped<D, D> = Wrapped { parent: self.into_object(), child: object };
        w.into_object()
    }
}

/// Rotates children around the Z axis by the given number of degrees at a centerpoint.
#[derive(Clone, Copy, Debug, PartialEq)]
pub struct RotateZAround<const D: usize> {
    pub angle: Option<Angle>,
    pub centerpoint: Option<Length3>,
}

impl<const D: usize> Default for RotateZAround<D> {
    fn default() -> (r: Self)
        ensures
            r == (RotateZAround::<D> { angle: None, centerpoint: None }),
    {
        RotateZAround::<D> { angle: None, centerpoint: None }
    }
}

pub fn rotate_z_around<const D: usize>(angle: Angle) -> (r: RotateZAround<D>)
    ensures
        r == (RotateZAround::<D> { angle: Some(angle), centerpoint: None }),
{
    RotateZAround::<D>::default().angle(angle)
}

impl<const D: usize> RotateZAround<D> {
    pub fn angle(self, angle: Angle) -> (r: Self)
        ensures
            r == (RotateZAround::<D> { angle: Some(angle), ..self }),
    {
        RotateZAround::<D> { angle: Some(angle), ..self }
    }

    pub fn centerpoint(self, centerpoint: Length3) -> (r: Self)
        ensures
            r == (RotateZAround::<D> { centerpoint: Some(centerpoint), ..self }),
    {
        RotateZAround::<D> { centerpoint: Some(centerpoint), ..self }
    }

    /// The call this value renders as.
    pub open spec fn spec_node(&self) -> NodeView {
        NodeView::Call {
            imports: seq![],
            callee: CalleeView::Template("(a=0, cp=undef) { if (!is_undef(cp)) { translate(cp) rotate([0, 0, a]) translate(-cp) children(); } else { rotate([0, 0, a]) children(); } }"@),
            args: seq![("a"@, opt_value(self.angle)), ("cp"@, opt_value(self.centerpoint))],
            operator: true,
        }
    }

    /// The node of the call this value renders as.
    pub fn to_node(&self) -> (r: Node)
        ensures
            r@ == self.spec_node(),
    {
        let imports: Vec<Import> = Vec::new();
        let args = vec![(String::from_str("a"), opt_to_value(&self.angle)), (String::from_str("cp"), opt_to_value(&self.centerpoint))];
        let ghost iv = imports@;
        let ghost av = args@;
        let callee = Callee::Template(String::from_str("(a=0, cp=undef) { if (!is_undef(cp)) { translate(cp) rotate([0, 0, a]) translate(-cp) children(); } else { rotate([0, 0, a]) children(); } }"));
        let r = Node::Call(CallNode { imports, callee, args, operator: true });
        assert(iv.map_values(|i: Import| i@) =~= seq![]);
        assert(call_args_view(av) =~= seq![("a"@, opt_value(self.angle)), ("cp"@, opt_value(self.centerpoint))]);
        r
    }
}

impl<const D: usize> Scad for RotateZAround<D> {
    open spec fn rendered(&self, s: FormatterView) -> (FormatterView, AssignmentView) {
        node_rendered(s, self.spec_node())
    }

    fn assign(&self, f: &mut Formatter) -> (r: Assignment) {
        self.to_node().assign_node(f)
    }
}

impl<const D: usize> IntoObject<D> for RotateZAround<D> {
    open spec fn tree(&self) -> NodeView {
        self.spec_node()
    }

    fn into_object(self) -> (r: Object<D>) {
        Object::new(self.to_node())
    }
}

impl<T: IntoObject<D>, const D: usize> core::ops::Add<T> for RotateZAround<D> {
    type Output = Object<D>;

    fn add(self, other: T) -> (r: Object<D>)
        ensures
            r@ == boolean_tree((Union::<D> {}).spec_node(), self.spec_node(), other.tree()),
    {
        self.into_object().union(other)
    }
}

impl<T: IntoObject<D>, const D: usize> vstd::std_specs::ops::AddSpecImpl<T> for RotateZAround<D> {
    /// No value is stated here: the operator's own contract states the tree
    /// of its result.
    open spec fn obeys_add_spec() -> bool {
        false
    }

    open spec fn add_req(self, rhs: T) -> bool {
        true
    }

    open spec fn add_spec(self, rhs: T) -> Object<D> {
        arbitrary()
    }
}

impl<T: IntoObject<D>, const D: usize> core::ops::BitOr<T> for RotateZAround<D> {
    type Output = Object<D>;

    fn bitor(self, other: T) -> (r: Object<D>)
        ensures
            r@ == boolean_tree((Union::<D> {}).spec_node(), self.spec_node(), other.tree()),
    {
        self.into_object().union(other)
    }
}

impl<T: IntoObject<D>, const D: usize> vstd::std_specs::ops::BitOrSpecImpl<T> for RotateZAround<D> {
    /// No value is stated here: the operator's own contract states the tree
    /// of its result.
    open spec fn obeys_bitor_spec() -> bool {
        false
    }

    open spec fn bitor_req(self, rhs: T) -> bool {
        true
    }

    open spec fn bitor_spec(self, rhs: T) -> Object<D> {
        arbitrary()
    }
}

impl<T: IntoObject<D>, const D: usize> core::ops::Sub<T> for RotateZAround<D> {
    type Output = Object<D>;

    fn sub(self, other: T) -> (r: Object<D>)
        ensures
            r@ == boolean_tree((Difference::<D> {}).spec_node(), self.spec_node(), other.tree()),
    {
        self.into_object().difference(other)
    }
}

impl<T: IntoObject<D>, const D: usize> vstd::std_specs::ops::SubSpecImpl<T> for RotateZAround<D> {
    /// No value is stated here: the operator's own contract states the tree
    /// of its result.
    open spec fn obeys_sub_spec() -> bool {
        false
    }

    open spec fn sub_req(self, rhs: T) -> bool {
        true
    }

    open spec fn sub_spec(self, rhs: T) -> Object<D> {
        arbitrary()
    }
}

impl<F: Operator<D>, const D: usize> core::ops::Shr<F> for RotateZAround<D> {
    type Output = F::Output;

    fn shr(self, f: F) -> (r: F::Output)
        ensures
            f.applied(self.spec_node(), r),
    {
        self.into_object().pipe(f)
    }
}

impl<F: Operator<D>, const D: usize> vstd::std_specs::ops::ShrSpecImpl<F> for RotateZAround<D> {
    /// No value is stated here: the operator's own contract states the tree
    /// of its result.
    open spec fn obeys_shr_spec() -> bool {
        false
    }

    open spec fn shr_req(self, rhs: F) -> bool {
        true
    }

    open spec fn shr_spec(self, rhs: F) -> F::Output {
        arbitrary()
    }
}

impl<const D: usize> From<RotateZAround<D>> for Object<D> {
    fn from(value: RotateZAround<D>) -> (r: Object<D>)
        ensures
            r@ == value.spec_node(),
    {
        value.into_object()
    }
}

impl<const D: usize> vstd::std_specs::convert::FromSpecImpl<RotateZAround<D>> for Object<D> {
    /// No value is stated here: the conversion's own contract states the
    /// tree of its result.
    open spec fn obeys_from_spec() -> bool {
        false
    }

    open spec fn from_spec(value: RotateZAround<D>) -> Object<D> {
        arbitrary()
    }
}

impl<const D: usize> Operator<D> for RotateZAround<D> {
    type Output = Object<D>;

    open spec fn applied(&self, child: NodeView, out: Object<D>) -> bool {
        out@ == wrapped_tree(self.spec_node(), child)
    }

    fn apply(self, object: Object<D>) -> (r: Object<D>) {
        let w: Wrapped<D, D> = Wrapped { parent: self.into_object(), child: object };
        w.into_object()
    }
}

} // verus!
