//! Operators that lift flat shapes into solids.
use vstd::prelude::*;
use crate::ext::boolean_tree;
use crate::primitive::set::{Difference, Union};
use crate::object::{call_args_view, node_rendered, wrapped_tree, CallNode, Callee, CalleeView, IntoObject, Node, NodeView, Object, Operator, Wrapped};
use crate::scad::{Assignment, AssignmentView, Formatter, FormatterView, Import, Scad};
use crate::types::{opt_to_value, opt_value, Angle, FragmentResolution, Length, Length3, Scalar};

verus! {

/// Linear Extrusion is an operation that takes a 2D object as input and generates a 3D object as a result.
///
/// Extrusion follows the V vector which defaults to the Z axis, for specifying a custom value a version > 2021.01 is needed.
///
/// In OpenSCAD Extrusion is always performed on the projection (shadow) of the 2d object xy plane; so if you rotate or apply other transformations to the 2d object before extrusion, its shadow shape is what is extruded.
///
/// Although the extrusion is linear along the V vector, a twist parameter is available that causes the object to be rotated around the V vector as it is extruding upward. This can be used to rotate the object at its center, as if it is a spiral pillar, or produce a helical extrusion around the V vector, like a pig's tail.
///
/// A scale parameter is also included so that the object can be expanded or contracted over the extent of the extrusion, allowing extrusions to be flared inward or outward.
#[derive(Clone, Copy, Debug, PartialEq)]
pub struct LinearExtrude {
    pub center: Option<bool>,
    pub convexity: Option<Scalar>,
    pub height: Option<Length>,
    pub vector: Option<Length3>,
}

impl Default for LinearExtrude {
    fn default() -> (r: Self)
        ensures
            r == (LinearExtrude { center: None, convexity: None, height: None, vector: None }),
    {
        LinearExtrude { center: None, convexity: None, height: None, vector: None }
    }
}

pub fn linear_extrude(height: Length) -> (r: LinearExtrude)
    ensures
        r == (LinearExtrude { center: None, convexity: None, height: Some(height), vector: None }),
{
    LinearExtrude::default().height(height)
}

impl LinearExtrude {
    pub fn center(self, center: bool) -> (r: Self)
        ensures
            r == (LinearExtrude { center: Some(center), ..self }),
    {
        LinearExtrude { center: Some(center), ..self }
    }

    pub fn convexity(self, convexity: Scalar) -> (r: Self)
        ensures
            r == (LinearExtrude { convexity: Some(convexity), ..self }),
    {
        LinearExtrude { convexity: Some(convexity), ..self }
    }

    pub fn height(self, height: Length) -> (r: Self)
        ensures
            r == (LinearExtrude { height: Some(height), ..self }),
    {
        LinearExtrude { height: Some(height), ..self }
    }

    pub fn vector(self, vector: Length3) -> (r: Self)
        ensures
            r == (LinearExtrude { vector: Some(vector), ..self }),
    {
        LinearExtrude { vector: Some(vector), ..self }
    }

    /// The call this value renders as.
    pub open spec fn spec_node(&self) -> NodeView {
        NodeView::Call {
            imports: seq![],
            callee: CalleeView::Named("linear_extrude"@),
            args: seq![("center"@, opt_value(self.center)), ("convexity"@, opt_value(self.convexity)), ("height"@, opt_value(self.height)), ("v"@, opt_value(self.vector))],
            operator: true,
        }
    }

    /// The node of the call this value renders as.
    pub fn to_node(&self) -> (r: Node)
        ensures
            r@ == self.spec_node(),
    {
        let imports: Vec<Import> = Vec::new();
        let args = vec![(String::from_str("center"), opt_to_value(&self.center)), (String::from_str("convexity"), opt_to_value(&self.convexity)), (String::from_str("height"), opt_to_value(&self.height)), (String::from_str("v"), opt_to_value(&self.vector))];
        let ghost iv = imports@;
        let ghost av = args@;
        let callee = Callee::Named(String::from_str("linear_extrude"));
        let r = Node::Call(CallNode { imports, callee, args, operator: true });
        assert(iv.map_values(|i: Import| i@) =~= seq![]);
        assert(call_args_view(av) =~= seq![("center"@, opt_value(self.center)), ("convexity"@, opt_value(self.convexity)), ("height"@, opt_value(self.height)), ("v"@, opt_value(self.vector))]);
        r
    }
}

impl Scad for LinearExtrude {
    open spec fn rendered(&self, s: FormatterView) -> (FormatterView, AssignmentView) {
        node_rendered(s, self.spec_node())
    }

    fn assign(&self, f: &mut Formatter) -> (r: Assignment) {
        self.to_node().assign_node(f)
    }
}

impl IntoObject<3> for LinearExtrude {
    open spec fn tree(&self) -> NodeView {
        self.spec_node()
    }

    fn into_object(self) -> (r: Object<3>) {
        Object::new(self.to_node())
    }
}

impl<T: IntoObject<3>> core::ops::Add<T> for LinearExtrude {
    type Output = Object<3>;

    fn add(self, other: T) -> (r: Object<3>)
        ensures
            r@ == boolean_tree((Union::<3> {}).spec_node(), self.spec_node(), other.tree()),
    {
        self.into_object().union(other)
    }
}

impl<T: IntoObject<3>> vstd::std_specs::ops::AddSpecImpl<T> for LinearExtrude {
    /// No value is stated here: the operator's own contract states the tree
    /// of its result.
    open spec fn obeys_add_spec() -> bool {
        false
    }

    open spec fn add_req(self, rhs: T) -> bool {
        true
    }

    open spec fn add_spec(self, rhs: T) -> Object<3> {
        arbitrary()
    }
}

impl<T: IntoObject<3>> core::ops::BitOr<T> for LinearExtrude {
    type Output = Object<3>;

    fn bitor(self, other: T) -> (r: Object<3>)
        ensures
            r@ == boolean_tree((Union::<3> {}).spec_node(), self.spec_node(), other.tree()),
    {
        self.into_object().union(other)
    }
}

impl<T: IntoObject<3>> vstd::std_specs::ops::BitOrSpecImpl<T> for LinearExtrude {
    /// No value is stated here: the operator's own contract states the tree
    /// of its result.
    open spec fn obeys_bitor_spec() -> bool {
        false
    }

    open spec fn bitor_req(self, rhs: T) -> bool {
        true
    }

    open spec fn bitor_spec(self, rhs: T) -> Object<3> {
        arbitrary()
    }
}

impl<T: IntoObject<3>> core::ops::Sub<T> for LinearExtrude {
    type Output = Object<3>;

    fn sub(self, other: T) -> (r: Object<3>)
        ensures
            r@ == boolean_tree((Difference::<3> {}).spec_node(), self.spec_node(), other.tree()),
    {
        self.into_object().difference(other)
    }
}

impl<T: IntoObject<3>> vstd::std_specs::ops::SubSpecImpl<T> for LinearExtrude {
    /// No value is stated here: the operator's own contract states the tree
    /// of its result.
    open spec fn obeys_sub_spec() -> bool {
        false
    }

    open spec fn sub_req(self, rhs: T) -> bool {
        true
    }

    open spec fn sub_spec(self, rhs: T) -> Object<3> {
        arbitrary()
    }
}

impl<F: Operator<3>> core::ops::Shr<F> for LinearExtrude {
    type Output = F::Output;

    fn shr(self, f: F) -> (r: F::Output)
        ensures
            f.applied(self.spec_node(), r),
    {
        self.into_object().pipe(f)
    }
}

impl<F: Operator<3>> vstd::std_specs::ops::ShrSpecImpl<F> for LinearExtrude {
    /// No value is stated here: the operator's own contract states the tree
    /// of its result.
    open spec fn obeys_shr_spec() -> bool {
        false
    }

    open spec fn shr_req(self, rhs: F) -> bool {
        true
    }

    open spec fn shr_spec(self, rhs: F) -> F::Output {
        arbitrary()
    }
}

impl From<LinearExtrude> for Object<3> {
    fn from(value: LinearExtrude) -> (r: Object<3>)
        ensures
            r@ == value.spec_node(),
    {
        value.into_object()
    }
}

impl vstd::std_specs::convert::FromSpecImpl<LinearExtrude> for Object<3> {
    /// No value is stated here: the conversion's own contract states the
    /// tree of its result.
    open spec fn obeys_from_spec() -> bool {
        false
    }

    open spec fn from_spec(value: LinearExtrude) -> Object<3> {
        arbitrary()
    }
}

impl Operator<2> for LinearExtrude {
    type Output = Object<3>;

    open spec fn applied(&self, child: NodeView, out: Object<3>) -> bool {
        out@ == wrapped_tree(self.spec_node(), child)
    }

    fn apply(self, object: Object<2>) -> (r: Object<3>) {
        let w: Wrapped<2, 3> = Wrapped { parent: self.into_object(), child: object };
        w.into_object()
    }
}

/// Rotational extrusion spins a 2D shape around the Z-axis to form a solid which has rotational symmetry. One way to think of this operation is to imagine a Potter's wheel placed on the X-Y plane with its axis of rotation pointing up towards +Z. Then place the to-be-made object on this virtual Potter's wheel (possibly extending down below the X-Y plane towards -Z). The to-be-made object is the cross-section of the object on the X-Y plane (keeping only the right half, X >= 0). That is the 2D shape that will be fed to rotate_extrude() as the child in order to generate this solid. Note that the object started on the X-Y plane but is tilted up (rotated +90 degrees about the X-axis) to extrude.
///
/// Since a 2D shape is rendered by OpenSCAD on the X-Y plane, an alternative way to think of this operation is as follows: spins a 2D shape around the Y-axis to form a solid. The resultant solid is placed so that its axis of rotation lies along the Z-axis.
///
/// Just like the [`linear_extrude`], the extrusion is always performed on the projection of the 2D polygon to the XY plane. Transformations like rotate, translate, etc. applied to the 2D polygon before extrusion modify the projection of the 2D polygon to the XY plane and therefore also modify the appearance of the final 3D object.
///
/// * A translation in Z of the 2D polygon has no effect on the result (as also the projection is not affected).
/// * A translation in X increases the diameter of the final object.
/// * A translation in Y results in a shift of the final object in Z direction.
/// * A rotation about the X or Y axis distorts the cross section of the final object, as also the projection to the XY plane is distorted.
///
/// Don't get confused, as OpenSCAD renders 2D polygons with a certain height in the Z direction, so the 2D object (with its height) appears to have a bigger projection to the XY plane. But for the projection to the XY plane and also for the later extrusion only the base polygon without height is used.
///
/// It can not be used to produce a helix or screw threads. (These things can be done with [`linear_extrude`] using the twist parameter.)
///
/// The 2D shape must lie completely on either the right (recommended) or the left side of the Y-axis. More precisely speaking, every vertex of the shape must have either x >= 0 or x <= 0. If the shape spans the X axis a warning appears in the console windows and the rotate_extrude() is ignored. If the 2D shape touches the Y axis, i.e. at x=0, it must be a line that touches, not a point, as a point results in a zero thickness 3D object, which is invalid and results in a CGAL error. For OpenSCAD versions prior to 2016.xxxx, if the shape is in the negative axis the resulting faces are oriented inside-out, which may cause undesired effects.
#[derive(Clone, Copy, Debug, PartialEq)]
pub struct RotateExtrude {
    /// Defaults to 360. Specifies the number of degrees to sweep, starting at the positive X axis. The direction of the sweep follows the Right Hand Rule, hence a negative angle sweeps clockwise.
    pub angle: Option<Angle>,
    /// If the extrusion fails for a non-trival 2D shape, try setting the convexity parameter (the default is not 10, but 10 is a "good" value to try). See explanation further down.
    pub convexity: Option<Scalar>,
    /// Fragment angle in degrees
    pub fragment_angle: Option<Angle>,
    /// Fragment resolution
    pub fragment_resolution: Option<FragmentResolution>,
    /// Fragment size in mm
    pub fragment_size: Option<Length>,
}

impl Default for RotateExtrude {
    fn default() -> (r: Self)
        ensures
            r == (RotateExtrude { angle: None, convexity: None, fragment_angle: None, fragment_resolution: None, fragment_size: None }),
    {
        RotateExtrude { angle: None, convexity: None, fragment_angle: None, fragment_resolution: None, fragment_size: None }
    }
}

pub fn rotate_extrude() -> (r: RotateExtrude)
    ensures
        r == (RotateExtrude { angle: None, convexity: None, fragment_angle: None, fragment_resolution: None, fragment_size: None }),
{
    RotateExtrude::default()
}

impl RotateExtrude {
    /// Defaults to 360. Specifies the number of degrees to sweep, starting at the positive X axis. The direction of the sweep follows the Right Hand Rule, hence a negative angle sweeps clockwise.
    pub fn angle(self, angle: Angle) -> (r: Self)
        ensures
            r == (RotateExtrude { angle: Some(angle), ..self }),
    {
        RotateExtrude { angle: Some(angle), ..self }
    }

    /// If the extrusion fails for a non-trival 2D shape, try setting the convexity parameter (the default is not 10, but 10 is a "good" value to try). See explanation further down.
    pub fn convexity(self, convexity: Scalar) -> (r: Self)
        ensures
            r == (RotateExtrude { convexity: Some(convexity), ..self }),
    {
        RotateExtrude { convexity: Some(convexity), ..self }
    }

    /// Fragment angle in degrees
    pub fn fragment_angle(self, fragment_angle: Angle) -> (r: Self)
        ensures
            r == (RotateExtrude { fragment_angle: Some(fragment_angle), ..self }),
    {
        RotateExtrude { fragment_angle: Some(fragment_angle), ..self }
    }

    /// Fragment resolution
    pub fn fragment_resolution(self, fragment_resolution: FragmentResolution) -> (r: Self)
        ensures
            r == (RotateExtrude { fragment_resolution: Some(fragment_resolution), ..self }),
    {
        RotateExtrude { fragment_resolution: Some(fragment_resolution), ..self }
    }

    /// Fragment size in mm
    pub fn fragment_size(self, fragment_size: Length) -> (r: Self)
        ensures
            r == (RotateExtrude { fragment_size: Some(fragment_size), ..self }),
    {
        RotateExtrude { fragment_size: Some(fragment_size), ..self }
    }

    /// The call this value renders as.
    pub open spec fn spec_node(&self) -> NodeView {
        NodeView::Call {
            imports: seq![],
            callee: CalleeView::Named("rotate_extrude"@),
            args: seq![("angle"@, opt_value(self.angle)), ("convexity"@, opt_value(self.convexity)), ("$fa"@, opt_value(self.fragment_angle)), ("$fn"@, opt_value(self.fragment_resolution)), ("$fs"@, opt_value(self.fragment_size))],
            operator: true,
        }
    }

    /// The node of the call this value renders as.
    pub fn to_node(&self) -> (r: Node)
        ensures
            r@ == self.spec_node(),
    {
        let imports: Vec<Import> = Vec::new();
        let args = vec![(String::from_str("angle"), opt_to_value(&self.angle)), (String::from_str("convexity"), opt_to_value(&self.convexity)), (String::from_str("$fa"), opt_to_value(&self.fragment_angle)), (String::from_str("$fn"), opt_to_value(&self.fragment_resolution)), (String::from_str("$fs"), opt_to_value(&self.fragment_size))];
        let ghost iv = imports@;
        let ghost av = args@;
        let callee = Callee::Named(String::from_str("rotate_extrude"));
        let r = Node::Call(CallNode { imports, callee, args, operator: true });
        assert(iv.map_values(|i: Import| i@) =~= seq![]);
        assert(call_args_view(av) =~= seq![("angle"@, opt_value(self.angle)), ("convexity"@, opt_value(self.convexity)), ("$fa"@, opt_value(self.fragment_angle)), ("$fn"@, opt_value(self.fragment_resolution)), ("$fs"@, opt_value(self.fragment_size))]);
        r
    }
}

impl Scad for RotateExtrude {
    open spec fn rendered(&self, s: FormatterView) -> (FormatterView, AssignmentView) {
        node_rendered(s, self.spec_node())
    }

    fn assign(&self, f: &mut Formatter) -> (r: Assignment) {
        self.to_node().assign_node(f)
    }
}

impl IntoObject<3> for RotateExtrude {
    open spec fn tree(&self) -> NodeView {
        self.spec_node()
    }

    fn into_object(self) -> (r: Object<3>) {
        Object::new(self.to_node())
    }
}

impl<T: IntoObject<3>> core::ops::Add<T> for RotateExtrude {
    type Output = Object<3>;

    fn add(self, other: T) -> (r: Object<3>)
        ensures
            r@ == boolean_tree((Union::<3> {}).spec_node(), self.spec_node(), other.tree()),
    {
        self.into_object().union(other)
    }
}

impl<T: IntoObject<3>> vstd::std_specs::ops::AddSpecImpl<T> for RotateExtrude {
    /// No value is stated here: the operator's own contract states the tree
    /// of its result.
    open spec fn obeys_add_spec() -> bool {
        false
    }

    open spec fn add_req(self, rhs: T) -> bool {
        true
    }

    open spec fn add_spec(self, rhs: T) -> Object<3> {
        arbitrary()
    }
}

impl<T: IntoObject<3>> core::ops::BitOr<T> for RotateExtrude {
    type Output = Object<3>;

    fn bitor(self, other: T) -> (r: Object<3>)
        ensures
            r@ == boolean_tree((Union::<3> {}).spec_node(), self.spec_node(), other.tree()),
    {
        self.into_object().union(other)
    }
}

impl<T: IntoObject<3>> vstd::std_specs::ops::BitOrSpecImpl<T> for RotateExtrude {
    /// No value is stated here: the operator's own contract states the tree
    /// of its result.
    open spec fn obeys_bitor_spec() -> bool {
        false
    }

    open spec fn bitor_req(self, rhs: T) -> bool {
        true
    }

    open spec fn bitor_spec(self, rhs: T) -> Object<3> {
        arbitrary()
    }
}

impl<T: IntoObject<3>> core::ops::Sub<T> for RotateExtrude {
    type Output = Object<3>;

    fn sub(self, other: T) -> (r: Object<3>)
        ensures
            r@ == boolean_tree((Difference::<3> {}).spec_node(), self.spec_node(), other.tree()),
    {
        self.into_object().difference(other)
    }
}

impl<T: IntoObject<3>> vstd::std_specs::ops::SubSpecImpl<T> for RotateExtrude {
    /// No value is stated here: the operator's own contract states the tree
    /// of its result.
    open spec fn obeys_sub_spec() -> bool {
        false
    }

    open spec fn sub_req(self, rhs: T) -> bool {
        true
    }

    open spec fn sub_spec(self, rhs: T) -> Object<3> {
        arbitrary()
    }
}

impl<F: Operator<3>> core::ops::Shr<F> for RotateExtrude {
    type Output = F::Output;

    fn shr(self, f: F) -> (r: F::Output)
        ensures
            f.applied(self.spec_node(), r),
    {
        self.into_object().pipe(f)
    }
}

impl<F: Operator<3>> vstd::std_specs::ops::ShrSpecImpl<F> for RotateExtrude {
    /// No value is stated here: the operator's own contract states the tree
    /// of its result.
    open spec fn obeys_shr_spec() -> bool {
        false
    }

    open spec fn shr_req(self, rhs: F) -> bool {
        true
    }

    open spec fn shr_spec(self, rhs: F) -> F::Output {
        arbitrary()
    }
}

impl From<RotateExtrude> for Object<3> {
    fn from(value: RotateExtrude) -> (r: Object<3>)
        ensures
            r@ == value.spec_node(),
    {
        value.into_object()
    }
}

impl vstd::std_specs::convert::FromSpecImpl<RotateExtrude> for Object<3> {
    /// No value is stated here: the conversion's own contract states the
    /// tree of its result.
    open spec fn obeys_from_spec() -> bool {
        false
    }

    open spec fn from_spec(value: RotateExtrude) -> Object<3> {
        arbitrary()
    }
}

impl Operator<2> for RotateExtrude {
    type Output = Object<3>;

    open spec fn applied(&self, child: NodeView, out: Object<3>) -> bool {
        out@ == wrapped_tree(self.spec_node(), child)
    }

    fn apply(self, object: Object<2>) -> (r: Object<3>) {
        let w: Wrapped<2, 3> = Wrapped { parent: self.into_object(), child: object };
        w.into_object()
    }
}

} // verus!
