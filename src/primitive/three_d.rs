//! Solids: cube, cylinder or cone, sphere.
use vstd::prelude::*;
use crate::ext::boolean_tree;
use crate::primitive::set::{Difference, Union};
use crate::object::{call_args_view, node_rendered, CallNode, Callee, CalleeView, IntoObject, Node, NodeView, Object, Operator};
use crate::scad::{Assignment, AssignmentView, Formatter, FormatterView, Import, Scad};
use crate::types::{opt_to_value, opt_value, Angle, FragmentResolution, Length, Length3};

verus! {

/// Creates a cube or rectangular prism (i.e., a "box") in the first octant.
#[derive(Clone, Copy, Debug, PartialEq)]
pub struct Cube {
    /// When center is true, the cube is centered on the origin.
    pub center: Option<bool>,
    /// When a single value is provided, the cube's sides will all be this length.
    /// When a coordinate is provided, a rectangular prism with dimensions x, y and z will be created.
    pub size: Option<Length3>,
}

impl Default for Cube {
    fn default() -> (r: Self)
        ensures
            r == (Cube { center: None, size: None }),
    {
        Cube { center: None, size: None }
    }
}

pub fn cube(size: Length3) -> (r: Cube)
    ensures
        r == (Cube { center: None, size: Some(size) }),
{
    Cube::default().size(size)
}

impl Cube {
    /// When center is true, the cube is centered on the origin.
    pub fn center(self, center: bool) -> (r: Self)
        ensures
            r == (Cube { center: Some(center), ..self }),
    {
        Cube { center: Some(center), ..self }
    }

    /// When a single value is provided, the cube's sides will all be this length.
    /// When a coordinate is provided, a rectangular prism with dimensions x, y and z will be created.
    pub fn size(self, size: Length3) -> (r: Self)
        ensures
            r == (Cube { size: Some(size), ..self }),
    {
        Cube { size: Some(size), ..self }
    }

    /// The call this value renders as.
    pub open spec fn spec_node(&self) -> NodeView {
        NodeView::Call {
            imports: seq![],
            callee: CalleeView::Named("cube"@),
            args: seq![("center"@, opt_value(self.center)), ("size"@, opt_value(self.size))],
            operator: false,
        }
    }

    /// The node of the call this value renders as.
    pub fn to_node(&self) -> (r: Node)
        ensures
            r@ == self.spec_node(),
    {
        let imports: Vec<Import> = Vec::new();
        let args = vec![(String::from_str("center"), opt_to_value(&self.center)), (String::from_str("size"), opt_to_value(&self.size))];
        let ghost iv = imports@;
        let ghost av = args@;
        let callee = Callee::Named(String::from_str("cube"));
        let r = Node::Call(CallNode { imports, callee, args, operator: false });
        assert(iv.map_values(|i: Import| i@) =~= seq![]);
        assert(call_args_view(av) =~= seq![("center"@, opt_value(self.center)), ("size"@, opt_value(self.size))]);
        r
    }
}

impl Scad for Cube {
    open spec fn rendered(&self, s: FormatterView) -> (FormatterView, AssignmentView) {
        node_rendered(s, self.spec_node())
    }

    fn assign(&self, f: &mut Formatter) -> (r: Assignment) {
        self.to_node().assign_node(f)
    }
}

impl IntoObject<3> for Cube {
    open spec fn tree(&self) -> NodeView {
        self.spec_node()
    }

    fn into_object(self) -> (r: Object<3>) {
        Object::new(self.to_node())
    }
}

impl<T: IntoObject<3>> core::ops::Add<T> for Cube {
    type Output = Object<3>;

    fn add(self, other: T) -> (r: Object<3>)
        ensures
            r@ == boolean_tree((Union::<3> {}).spec_node(), self.spec_node(), other.tree()),
    {
        self.into_object().union(other)
    }
}

impl<T: IntoObject<3>> vstd::std_specs::ops::AddSpecImpl<T> for Cube {
    /// No value is stated here: the operator's own contract states the tree
    /// of its result.
    open spec fn obeys_add_spec() -> bool {
        false
    }

    open spec fn add_req(self, rhs: T) -> bool {
        true
    }

    open spec fn add_spec(self, rhs: T) -> Object<3> {
        arbitrary()
    }
}

impl<T: IntoObject<3>> core::ops::BitOr<T> for Cube {
    type Output = Object<3>;

    fn bitor(self, other: T) -> (r: Object<3>)
        ensures
            r@ == boolean_tree((Union::<3> {}).spec_node(), self.spec_node(), other.tree()),
    {
        self.into_object().union(other)
    }
}

impl<T: IntoObject<3>> vstd::std_specs::ops::BitOrSpecImpl<T> for Cube {
    /// No value is stated here: the operator's own contract states the tree
    /// of its result.
    open spec fn obeys_bitor_spec() -> bool {
        false
    }

    open spec fn bitor_req(self, rhs: T) -> bool {
        true
    }

    open spec fn bitor_spec(self, rhs: T) -> Object<3> {
        arbitrary()
    }
}

impl<T: IntoObject<3>> core::ops::Sub<T> for Cube {
    type Output = Object<3>;

    fn sub(self, other: T) -> (r: Object<3>)
        ensures
            r@ == boolean_tree((Difference::<3> {}).spec_node(), self.spec_node(), other.tree()),
    {
        self.into_object().difference(other)
    }
}

impl<T: IntoObject<3>> vstd::std_specs::ops::SubSpecImpl<T> for Cube {
    /// No value is stated here: the operator's own contract states the tree
    /// of its result.
    open spec fn obeys_sub_spec() -> bool {
        false
    }

    open spec fn sub_req(self, rhs: T) -> bool {
        true
    }

    open spec fn sub_spec(self, rhs: T) -> Object<3> {
        arbitrary()
    }
}

impl<F: Operator<3>> core::ops::Shr<F> for Cube {
    type Output = F::Output;

    fn shr(self, f: F) -> (r: F::Output)
        ensures
            f.applied(self.spec_node(), r),
    {
        self.into_object().pipe(f)
    }
}

impl<F: Operator<3>> vstd::std_specs::ops::ShrSpecImpl<F> for Cube {
    /// No value is stated here: the operator's own contract states the tree
    /// of its result.
    open spec fn obeys_shr_spec() -> bool {
        false
    }

    open spec fn shr_req(self, rhs: F) -> bool {
        true
    }

    open spec fn shr_spec(self, rhs: F) -> F::Output {
        arbitrary()
    }
}

impl From<Cube> for Object<3> {
    fn from(value: Cube) -> (r: Object<3>)
        ensures
            r@ == value.spec_node(),
    {
        value.into_object()
    }
}

impl vstd::std_specs::convert::FromSpecImpl<Cube> for Object<3> {
    /// No value is stated here: the conversion's own contract states the
    /// tree of its result.
    open spec fn obeys_from_spec() -> bool {
        false
    }

    open spec fn from_spec(value: Cube) -> Object<3> {
        arbitrary()
    }
}

/// Creates a cylinder or cone centered about the z axis.
#[derive(Clone, Copy, Debug, PartialEq)]
pub struct Cylinder {
    /// If false (default), z ranges from 0 to h. If true, z ranges from -h/2 to +h/2.
    pub center: Option<bool>,
    /// Height of the cylinder or cone
    pub height: Option<Length>,
    /// Radius of the cylinder
    pub radius: Option<Length>,
    /// Radius of bottom cone
    pub radius_bottom: Option<Length>,
    /// Radius of top cone
    pub radius_top: Option<Length>,
}

impl Default for Cylinder {
    fn default() -> (r: Self)
        ensures
            r == (Cylinder { center: None, height: None, radius: None, radius_bottom: None, radius_top: None }),
    {
        Cylinder { center: None, height: None, radius: None, radius_bottom: None, radius_top: None }
    }
}

pub fn cylinder(height: Length, radius: Length) -> (r: Cylinder)
    ensures
        r == (Cylinder { center: None, height: Some(height), radius: Some(radius), radius_bottom: None, radius_top: None }),
{
    Cylinder::default().height(height).radius(radius)
}

pub fn cone(height: Length, radius_bottom: Length, radius_top: Length) -> (r: Cylinder)
    ensures
        r == (Cylinder { center: None, height: Some(height), radius: None, radius_bottom: Some(radius_bottom), radius_top: Some(radius_top) }),
{
    Cylinder::default().height(height).radius_bottom(radius_bottom).radius_top(radius_top)
}

impl Cylinder {
    /// If false (default), z ranges from 0 to h. If true, z ranges from -h/2 to +h/2.
    pub fn center(self, center: bool) -> (r: Self)
        ensures
            r == (Cylinder { center: Some(center), ..self }),
    {
        Cylinder { center: Some(center), ..self }
    }

    /// Height of the cylinder or cone
    pub fn height(self, height: Length) -> (r: Self)
        ensures
            r == (Cylinder { height: Some(height), ..self }),
    {
        Cylinder { height: Some(height), ..self }
    }

    /// Radius of the cylinder
    pub fn radius(self, radius: Length) -> (r: Self)
        ensures
            r == (Cylinder { radius: Some(radius), ..self }),
    {
        Cylinder { radius: Some(radius), ..self }
    }

    /// Radius of bottom cone
    pub fn radius_bottom(self, radius_bottom: Length) -> (r: Self)
        ensures
            r == (Cylinder { radius_bottom: Some(radius_bottom), ..self }),
    {
        Cylinder { radius_bottom: Some(radius_bottom), ..self }
    }

    /// Radius of top cone
    pub fn radius_top(self, radius_top: Length) -> (r: Self)
        ensures
            r == (Cylinder { radius_top: Some(radius_top), ..self }),
    {
        Cylinder { radius_top: Some(radius_top), ..self }
    }

    /// The call this value renders as.
    pub open spec fn spec_node(&self) -> NodeView {
        NodeView::Call {
            imports: seq![],
            callee: CalleeView::Named("cylinder"@),
            args: seq![("center"@, opt_value(self.center)), ("h"@, opt_value(self.height)), ("r"@, opt_value(self.radius)), ("r1"@, opt_value(self.radius_bottom)), ("r2"@, opt_value(self.radius_top))],
            operator: false,
        }
    }

    /// The node of the call this value renders as.
    pub fn to_node(&self) -> (r: Node)
        ensures
            r@ == self.spec_node(),
    {
        let imports: Vec<Import> = Vec::new();
        let args = vec![(String::from_str("center"), opt_to_value(&self.center)), (String::from_str("h"), opt_to_value(&self.height)), (String::from_str("r"), opt_to_value(&self.radius)), (String::from_str("r1"), opt_to_value(&self.radius_bottom)), (String::from_str("r2"), opt_to_value(&self.radius_top))];
        let ghost iv = imports@;
        let ghost av = args@;
        let callee = Callee::Named(String::from_str("cylinder"));
        let r = Node::Call(CallNode { imports, callee, args, operator: false });
        assert(iv.map_values(|i: Import| i@) =~= seq![]);
        assert(call_args_view(av) =~= seq![("center"@, opt_value(self.center)), ("h"@, opt_value(self.height)), ("r"@, opt_value(self.radius)), ("r1"@, opt_value(self.radius_bottom)), ("r2"@, opt_value(self.radius_top))]);
        r
    }
}

impl Scad for Cylinder {
    open spec fn rendered(&self, s: FormatterView) -> (FormatterView, AssignmentView) {
        node_rendered(s, self.spec_node())
    }

    fn assign(&self, f: &mut Formatter) -> (r: Assignment) {
        self.to_node().assign_node(f)
    }
}

impl IntoObject<3> for Cylinder {
    open spec fn tree(&self) -> NodeView {
        self.spec_node()
    }

    fn into_object(self) -> (r: Object<3>) {
        Object::new(self.to_node())
    }
}

impl<T: IntoObject<3>> core::ops::Add<T> for Cylinder {
    type Output = Object<3>;

    fn add(self, other: T) -> (r: Object<3>)
        ensures
            r@ == boolean_tree((Union::<3> {}).spec_node(), self.spec_node(), other.tree()),
    {
        self.into_object().union(other)
    }
}

impl<T: IntoObject<3>> vstd::std_specs::ops::AddSpecImpl<T> for Cylinder {
    /// No value is stated here: the operator's own contract states the tree
    /// of its result.
    open spec fn obeys_add_spec() -> bool {
        false
    }

    open spec fn add_req(self, rhs: T) -> bool {
        true
    }

    open spec fn add_spec(self, rhs: T) -> Object<3> {
        arbitrary()
    }
}

impl<T: IntoObject<3>> core::ops::BitOr<T> for Cylinder {
    type Output = Object<3>;

    fn bitor(self, other: T) -> (r: Object<3>)
        ensures
            r@ == boolean_tree((Union::<3> {}).spec_node(), self.spec_node(), other.tree()),
    {
        self.into_object().union(other)
    }
}

impl<T: IntoObject<3>> vstd::std_specs::ops::BitOrSpecImpl<T> for Cylinder {
    /// No value is stated here: the operator's own contract states the tree
    /// of its result.
    open spec fn obeys_bitor_spec() -> bool {
        false
    }

    open spec fn bitor_req(self, rhs: T) -> bool {
        true
    }

    open spec fn bitor_spec(self, rhs: T) -> Object<3> {
        arbitrary()
    }
}

impl<T: IntoObject<3>> core::ops::Sub<T> for Cylinder {
    type Output = Object<3>;

    fn sub(self, other: T) -> (r: Object<3>)
        ensures
            r@ == boolean_tree((Difference::<3> {}).spec_node(), self.spec_node(), other.tree()),
    {
        self.into_object().difference(other)
    }
}

impl<T: IntoObject<3>> vstd::std_specs::ops::SubSpecImpl<T> for Cylinder {
    /// No value is stated here: the operator's own contract states the tree
    /// of its result.
    open spec fn obeys_sub_spec() -> bool {
        false
    }

    open spec fn sub_req(self, rhs: T) -> bool {
        true
    }

    open spec fn sub_spec(self, rhs: T) -> Object<3> {
        arbitrary()
    }
}

impl<F: Operator<3>> core::ops::Shr<F> for Cylinder {
    type Output = F::Output;

    fn shr(self, f: F) -> (r: F::Output)
        ensures
            f.applied(self.spec_node(), r),
    {
        self.into_object().pipe(f)
    }
}

impl<F: Operator<3>> vstd::std_specs::ops::ShrSpecImpl<F> for Cylinder {
    /// No value is stated here: the operator's own contract states the tree
    /// of its result.
    open spec fn obeys_shr_spec() -> bool {
        false
    }

    open spec fn shr_req(self, rhs: F) -> bool {
        true
    }

    open spec fn shr_spec(self, rhs: F) -> F::Output {
        arbitrary()
    }
}

impl From<Cylinder> for Object<3> {
    fn from(value: Cylinder) -> (r: Object<3>)
        ensures
            r@ == value.spec_node(),
    {
        value.into_object()
    }
}

impl vstd::std_specs::convert::FromSpecImpl<Cylinder> for Object<3> {
    /// No value is stated here: the conversion's own contract states the
    /// tree of its result.
    open spec fn obeys_from_spec() -> bool {
        false
    }

    open spec fn from_spec(value: Cylinder) -> Object<3> {
        arbitrary()
    }
}

/// Creates a sphere at the origin of the coordinate system.
#[derive(Clone, Copy, Debug, PartialEq)]
pub struct Sphere {
    /// Fragment angle in degrees
    pub fragment_angle: Option<Angle>,
    /// Fragment resolution
    pub fragment_resolution: Option<FragmentResolution>,
    /// Fragment size in mm
    pub fragment_size: Option<Length>,
    /// This is the radius of the sphere. The resolution of the sphere is based on the size of the sphere and the $fa, $fs and $fn variables.
    pub radius: Option<Length>,
}

impl Default for Sphere {
    fn default() -> (r: Self)
        ensures
            r == (Sphere { fragment_angle: None, fragment_resolution: None, fragment_size: None, radius: None }),
    {
        Sphere { fragment_angle: None, fragment_resolution: None, fragment_size: None, radius: None }
    }
}

pub fn sphere(radius: Length) -> (r: Sphere)
    ensures
        r == (Sphere { fragment_angle: None, fragment_resolution: None, fragment_size: None, radius: Some(radius) }),
{
    Sphere::default().radius(radius)
}

impl Sphere {
    /// Fragment angle in degrees
    pub fn fragment_angle(self, fragment_angle: Angle) -> (r: Self)
        ensures
            r == (Sphere { fragment_angle: Some(fragment_angle), ..self }),
    {
        Sphere { fragment_angle: Some(fragment_angle), ..self }
    }

    /// Fragment resolution
    pub fn fragment_resolution(self, fragment_resolution: FragmentResolution) -> (r: Self)
        ensures
            r == (Sphere { fragment_resolution: Some(fragment_resolution), ..self }),
    {
        Sphere { fragment_resolution: Some(fragment_resolution), ..self }
    }

    /// Fragment size in mm
    pub fn fragment_size(self, fragment_size: Length) -> (r: Self)
        ensures
            r == (Sphere { fragment_size: Some(fragment_size), ..self }),
    {
        Sphere { fragment_size: Some(fragment_size), ..self }
    }

    /// This is the radius of the sphere. The resolution of the sphere is based on the size of the sphere and the $fa, $fs and $fn variables.
    pub fn radius(self, radius: Length) -> (r: Self)
        ensures
            r == (Sphere { radius: Some(radius), ..self }),
    {
        Sphere { radius: Some(radius), ..self }
    }

    /// The call this value renders as.
    pub open spec fn spec_node(&self) -> NodeView {
        NodeView::Call {
            imports: seq![],
            callee: CalleeView::Named("sphere"@),
            args: seq![("$fa"@, opt_value(self.fragment_angle)), ("$fn"@, opt_value(self.fragment_resolution)), ("$fs"@, opt_value(self.fragment_size)), ("r"@, opt_value(self.radius))],
            operator: false,
        }
    }

    /// The node of the call this value renders as.
    pub fn to_node(&self) -> (r: Node)
        ensures
            r@ == self.spec_node(),
    {
        let imports: Vec<Import> = Vec::new();
        let args = vec![(String::from_str("$fa"), opt_to_value(&self.fragment_angle)), (String::from_str("$fn"), opt_to_value(&self.fragment_resolution)), (String::from_str("$fs"), opt_to_value(&self.fragment_size)), (String::from_str("r"), opt_to_value(&self.radius))];
        let ghost iv = imports@;
        let ghost av = args@;
        let callee = Callee::Named(String::from_str("sphere"));
        let r = Node::Call(CallNode { imports, callee, args, operator: false });
        assert(iv.map_values(|i: Import| i@) =~= seq![]);
        assert(call_args_view(av) =~= seq![("$fa"@, opt_value(self.fragment_angle)), ("$fn"@, opt_value(self.fragment_resolution)), ("$fs"@, opt_value(self.fragment_size)), ("r"@, opt_value(self.radius))]);
        r
    }
}

impl Scad for Sphere {
    open spec fn rendered(&self, s: FormatterView) -> (FormatterView, AssignmentView) {
        node_rendered(s, self.spec_node())
    }

    fn assign(&self, f: &mut Formatter) -> (r: Assignment) {
        self.to_node().assign_node(f)
    }
}

impl IntoObject<3> for Sphere {
    open spec fn tree(&self) -> NodeView {
        self.spec_node()
    }

    fn into_object(self) -> (r: Object<3>) {
        Object::new(self.to_node())
    }
}

impl<T: IntoObject<3>> core::ops::Add<T> for Sphere {
    type Output = Object<3>;

    fn add(self, other: T) -> (r: Object<3>)
        ensures
            r@ == boolean_tree((Union::<3> {}).spec_node(), self.spec_node(), other.tree()),
    {
        self.into_object().union(other)
    }
}

impl<T: IntoObject<3>> vstd::std_specs::ops::AddSpecImpl<T> for Sphere {
    /// No value is stated here: the operator's own contract states the tree
    /// of its result.
    open spec fn obeys_add_spec() -> bool {
        false
    }

    open spec fn add_req(self, rhs: T) -> bool {
        true
    }

    open spec fn add_spec(self, rhs: T) -> Object<3> {
        arbitrary()
    }
}

impl<T: IntoObject<3>> core::ops::BitOr<T> for Sphere {
    type Output = Object<3>;

    fn bitor(self, other: T) -> (r: Object<3>)
        ensures
            r@ == boolean_tree((Union::<3> {}).spec_node(), self.spec_node(), other.tree()),
    {
        self.into_object().union(other)
    }
}

impl<T: IntoObject<3>> vstd::std_specs::ops::BitOrSpecImpl<T> for Sphere {
    /// No value is stated here: the operator's own contract states the tree
    /// of its result.
    open spec fn obeys_bitor_spec() -> bool {
        false
    }

    open spec fn bitor_req(self, rhs: T) -> bool {
        true
    }

    open spec fn bitor_spec(self, rhs: T) -> Object<3> {
        arbitrary()
    }
}

impl<T: IntoObject<3>> core::ops::Sub<T> for Sphere {
    type Output = Object<3>;

    fn sub(self, other: T) -> (r: Object<3>)
        ensures
            r@ == boolean_tree((Difference::<3> {}).spec_node(), self.spec_node(), other.tree()),
    {
        self.into_object().difference(other)
    }
}

impl<T: IntoObject<3>> vstd::std_specs::ops::SubSpecImpl<T> for Sphere {
    /// No value is stated here: the operator's own contract states the tree
    /// of its result.
    open spec fn obeys_sub_spec() -> bool {
        false
    }

    open spec fn sub_req(self, rhs: T) -> bool {
        true
    }

    open spec fn sub_spec(self, rhs: T) -> Object<3> {
        arbitrary()
    }
}

impl<F: Operator<3>> core::ops::Shr<F> for Sphere {
    type Output = F::Output;

    fn shr(self, f: F) -> (r: F::Output)
        ensures
            f.applied(self.spec_node(), r),
    {
        self.into_object().pipe(f)
    }
}

impl<F: Operator<3>> vstd::std_specs::ops::ShrSpecImpl<F> for Sphere {
    /// No value is stated here: the operator's own contract states the tree
    /// of its result.
    open spec fn obeys_shr_spec() -> bool {
        false
    }

    open spec fn shr_req(self, rhs: F) -> bool {
        true
    }

    open spec fn shr_spec(self, rhs: F) -> F::Output {
        arbitrary()
    }
}

impl From<Sphere> for Object<3> {
    fn from(value: Sphere) -> (r: Object<3>)
        ensures
            r@ == value.spec_node(),
    {
        value.into_object()
    }
}

impl vstd::std_specs::convert::FromSpecImpl<Sphere> for Object<3> {
    /// No value is stated here: the conversion's own contract states the
    /// tree of its result.
    open spec fn obeys_from_spec() -> bool {
        false
    }

    open spec fn from_spec(value: Sphere) -> Object<3> {
        arbitrary()
    }
}

} // verus!
