//! Flat shapes: circle, polygon, square, text.
use vstd::prelude::*;
use crate::ext::boolean_tree;
use crate::primitive::set::{Difference, Union};
use crate::object::{call_args_view, node_rendered, CallNode, Callee, CalleeView, IntoObject, Node, NodeView, Object, Operator};
use crate::scad::{Assignment, AssignmentView, Formatter, FormatterView, Import, Scad};
use crate::types::{opt_to_value, opt_value, Angle, FragmentResolution, Length, Length2, Scalar, VecLength2};

verus! {

/// Creates a circle at the origin.
#[derive(Clone, Copy, Debug, PartialEq)]
pub struct Circle {
    /// Fragment angle in degrees
    pub fragment_angle: Option<Angle>,
    /// Fragment resolution
    pub fragment_resolution: Option<FragmentResolution>,
    /// Fragment size in mm
    pub fragment_size: Option<Length>,
    /// circle radius
    pub radius: Option<Length>,
}

impl Default for Circle {
    fn default() -> (r: Self)
        ensures
            r == (Circle { fragment_angle: None, fragment_resolution: None, fragment_size: None, radius: None }),
    {
        Circle { fragment_angle: None, fragment_resolution: None, fragment_size: None, radius: None }
    }
}

pub fn circle(radius: Length) -> (r: Circle)
    ensures
        r == (Circle { fragment_angle: None, fragment_resolution: None, fragment_size: None, radius: Some(radius) }),
{
    Circle::default().radius(radius)
}

impl Circle {
    /// Fragment angle in degrees
    pub fn fragment_angle(self, fragment_angle: Angle) -> (r: Self)
        ensures
            r == (Circle { fragment_angle: Some(fragment_angle), ..self }),
    {
        Circle { fragment_angle: Some(fragment_angle), ..self }
    }

    /// Fragment resolution
    pub fn fragment_resolution(self, fragment_resolution: FragmentResolution) -> (r: Self)
        ensures
            r == (Circle { fragment_resolution: Some(fragment_resolution), ..self }),
    {
        Circle { fragment_resolution: Some(fragment_resolution), ..self }
    }

    /// Fragment size in mm
    pub fn fragment_size(self, fragment_size: Length) -> (r: Self)
        ensures
            r == (Circle { fragment_size: Some(fragment_size), ..self }),
    {
        Circle { fragment_size: Some(fragment_size), ..self }
    }

    /// circle radius
    pub fn radius(self, radius: Length) -> (r: Self)
        ensures
            r == (Circle { radius: Some(radius), ..self }),
    {
        Circle { radius: Some(radius), ..self }
    }

    /// The call this value renders as.
    pub open spec fn spec_node(&self) -> NodeView {
        NodeView::Call {
            imports: seq![],
            callee: CalleeView::Named("circle"@),
            args: seq![("$fa"@, opt_value(self.fragment_angle)), ("$fn"@, opt_value(self.fragment_resolution)), ("$fs"@, opt_value(self.fragment_size)), ("r"@, opt_value(self.radius))],
            operator: false,
        }
    }

    /// The node of the call this value renders as.
    pub fn to_node(&self) -> (r: Node)
        ensures
            r@ == self.spec_node(),
    {
        let imports: Vec<Import> = Vec::new();
        let args = vec![(String::from_str("$fa"), opt_to_value(&self.fragment_angle)), (String::from_str("$fn"), opt_to_value(&self.fragment_resolution)), (String::from_str("$fs"), opt_to_value(&self.fragment_size)), (String::from_str("r"), opt_to_value(&self.radius))];
        let ghost iv = imports@;
        let ghost av = args@;
        let callee = Callee::Named(String::from_str("circle"));
        let r = Node::Call(CallNode { imports, callee, args, operator: false });
        assert(iv.map_values(|i: Import| i@) =~= seq![]);
        assert(call_args_view(av) =~= seq![("$fa"@, opt_value(self.fragment_angle)), ("$fn"@, opt_value(self.fragment_resolution)), ("$fs"@, opt_value(self.fragment_size)), ("r"@, opt_value(self.radius))]);
        r
    }
}

impl Scad for Circle {
    open spec fn rendered(&self, s: FormatterView) -> (FormatterView, AssignmentView) {
        node_rendered(s, self.spec_node())
    }

    fn assign(&self, f: &mut Formatter) -> (r: Assignment) {
        self.to_node().assign_node(f)
    }
}

impl IntoObject<2> for Circle {
    open spec fn tree(&self) -> NodeView {
        self.spec_node()
    }

    fn into_object(self) -> (r: Object<2>) {
        Object::new(self.to_node())
    }
}

impl<T: IntoObject<2>> core::ops::Add<T> for Circle {
    type Output = Object<2>;

    fn add(self, other: T) -> (r: Object<2>)
        ensures
            r@ == boolean_tree((Union::<2> {}).spec_node(), self.spec_node(), other.tree()),
    {
        self.into_object().union(other)
    }
}

impl<T: IntoObject<2>> vstd::std_specs::ops::AddSpecImpl<T> for Circle {
    /// No value is stated here: the operator's own contract states the tree
    /// of its result.
    open spec fn obeys_add_spec() -> bool {
        false
    }

    open spec fn add_req(self, rhs: T) -> bool {
        true
    }

    open spec fn add_spec(self, rhs: T) -> Object<2> {
        arbitrary()
    }
}

impl<T: IntoObject<2>> core::ops::BitOr<T> for Circle {
    type Output = Object<2>;

    fn bitor(self, other: T) -> (r: Object<2>)
        ensures
            r@ == boolean_tree((Union::<2> {}).spec_node(), self.spec_node(), other.tree()),
    {
        self.into_object().union(other)
    }
}

impl<T: IntoObject<2>> vstd::std_specs::ops::BitOrSpecImpl<T> for Circle {
    /// No value is stated here: the operator's own contract states the tree
    /// of its result.
    open spec fn obeys_bitor_spec() -> bool {
        false
    }

    open spec fn bitor_req(self, rhs: T) -> bool {
        true
    }

    open spec fn bitor_spec(self, rhs: T) -> Object<2> {
        arbitrary()
    }
}

impl<T: IntoObject<2>> core::ops::Sub<T> for Circle {
    type Output = Object<2>;

    fn sub(self, other: T) -> (r: Object<2>)
        ensures
            r@ == boolean_tree((Difference::<2> {}).spec_node(), self.spec_node(), other.tree()),
    {
        self.into_object().difference(other)
    }
}

impl<T: IntoObject<2>> vstd::std_specs::ops::SubSpecImpl<T> for Circle {
    /// No value is stated here: the operator's own contract states the tree
    /// of its result.
    open spec fn obeys_sub_spec() -> bool {
        false
    }

    open spec fn sub_req(self, rhs: T) -> bool {
        true
    }

    open spec fn sub_spec(self, rhs: T) -> Object<2> {
        arbitrary()
    }
}

impl<F: Operator<2>> core::ops::Shr<F> for Circle {
    type Output = F::Output;

    fn shr(self, f: F) -> (r: F::Output)
        ensures
            f.applied(self.spec_node(), r),
    {
        self.into_object().pipe(f)
    }
}

impl<F: Operator<2>> vstd::std_specs::ops::ShrSpecImpl<F> for Circle {
    /// No value is stated here: the operator's own contract states the tree
    /// of its result.
    open spec fn obeys_shr_spec() -> bool {
        false
    }

    open spec fn shr_req(self, rhs: F) -> bool {
        true
    }

    open spec fn shr_spec(self, rhs: F) -> F::Output {
        arbitrary()
    }
}

impl From<Circle> for Object<2> {
    fn from(value: Circle) -> (r: Object<2>)
        ensures
            r@ == value.spec_node(),
    {
        value.into_object()
    }
}

impl vstd::std_specs::convert::FromSpecImpl<Circle> for Object<2> {
    /// No value is stated here: the conversion's own contract states the
    /// tree of its result.
    open spec fn obeys_from_spec() -> bool {
        false
    }

    open spec fn from_spec(value: Circle) -> Object<2> {
        arbitrary()
    }
}

/// The function polygon() creates a multiple sided shape from a list of x,y coordinates. A polygon is the most powerful 2D object. It can create anything that circle and squares can, as well as much more. This includes irregular shapes with both concave and convex edges. In addition it can place holes within that shape.
#[derive(Clone, Debug, PartialEq)]
pub struct Polygon {
    /// Integer number of "inward" curves, ie. expected path crossings of an arbitrary line through the polygon
    pub convexity: Option<Scalar>,
    /// A closed shape is created by returning from the last point specified to the first.
    ///
    /// ### Default
    /// If no path is specified, all points are used in the order listed.
    ///
    /// ### Single Vector
    /// The order to traverse the points. Uses indices from 0 to n-1. May be in a different order and use all or part, of the points listed.
    ///
    /// ### Multiple Vectors
    /// Creates primary and secondary shapes. Secondary shapes are subtracted from the primary shape (like difference()). Secondary shapes may be wholly or partially within the primary shape.
    pub paths: Option<VecLength2>,
    /// The list of x,y points of the polygon. : A vector of 2 element vectors.
    /// Note: points are indexed from 0 to n-1.
    pub points: Option<VecLength2>,
}

impl Default for Polygon {
    fn default() -> (r: Self)
        ensures
            r == (Polygon { convexity: None, paths: None, points: None }),
    {
        Polygon { convexity: None, paths: None, points: None }
    }
}

pub fn polygon(points: VecLength2) -> (r: Polygon)
    ensures
        r == (Polygon { convexity: None, paths: None, points: Some(points) }),
{
    Polygon::default().points(points)
}

impl Polygon {
    /// Integer number of "inward" curves, ie. expected path crossings of an arbitrary line through the polygon
    pub fn convexity(self, convexity: Scalar) -> (r: Self)
        ensures
            r == (Polygon { convexity: Some(convexity), ..self }),
    {
        Polygon { convexity: Some(convexity), ..self }
    }

    /// A closed shape is created by returning from the last point specified to the first.
    ///
    /// ### Default
    /// If no path is specified, all points are used in the order listed.
    ///
    /// ### Single Vector
    /// The order to traverse the points. Uses indices from 0 to n-1. May be in a different order and use all or part, of the points listed.
    ///
    /// ### Multiple Vectors
    /// Creates primary and secondary shapes. Secondary shapes are subtracted from the primary shape (like difference()). Secondary shapes may be wholly or partially within the primary shape.
    pub fn paths(self, paths: VecLength2) -> (r: Self)
        ensures
            r == (Polygon { paths: Some(paths), ..self }),
    {
        Polygon { paths: Some(paths), ..self }
    }

    /// The list of x,y points of the polygon. : A vector of 2 element vectors.
    /// Note: points are indexed from 0 to n-1.
    pub fn points(self, points: VecLength2) -> (r: Self)
        ensures
            r == (Polygon { points: Some(points), ..self }),
    {
        Polygon { points: Some(points), ..self }
    }

    /// The call this value renders as.
    pub open spec fn spec_node(&self) -> NodeView {
        NodeView::Call {
            imports: seq![],
            callee: CalleeView::Named("polygon"@),
            args: seq![("convexity"@, opt_value(self.convexity)), ("paths"@, opt_value(self.paths)), ("points"@, opt_value(self.points))],
            operator: false,
        }
    }

    /// The node of the call this value renders as.
    pub fn to_node(&self) -> (r: Node)
        ensures
            r@ == self.spec_node(),
    {
        let imports: Vec<Import> = Vec::new();
        let args = vec![(String::from_str("convexity"), opt_to_value(&self.convexity)), (String::from_str("paths"), opt_to_value(&self.paths)), (String::from_str("points"), opt_to_value(&self.points))];
        let ghost iv = imports@;
        let ghost av = args@;
        let callee = Callee::Named(String::from_str("polygon"));
        let r = Node::Call(CallNode { imports, callee, args, operator: false });
        assert(iv.map_values(|i: Import| i@) =~= seq![]);
        assert(call_args_view(av) =~= seq![("convexity"@, opt_value(self.convexity)), ("paths"@, opt_value(self.paths)), ("points"@, opt_value(self.points))]);
        r
    }
}

impl Scad for Polygon {
    open spec fn rendered(&self, s: FormatterView) -> (FormatterView, AssignmentView) {
        node_rendered(s, self.spec_node())
    }

    fn assign(&self, f: &mut Formatter) -> (r: Assignment) {
        self.to_node().assign_node(f)
    }
}

impl IntoObject<2> for Polygon {
    open spec fn tree(&self) -> NodeView {
        self.spec_node()
    }

    fn into_object(self) -> (r: Object<2>) {
        Object::new(self.to_node())
    }
}

impl<T: IntoObject<2>> core::ops::Add<T> for Polygon {
    type Output = Object<2>;

    fn add(self, other: T) -> (r: Object<2>)
        ensures
            r@ == boolean_tree((Union::<2> {}).spec_node(), self.spec_node(), other.tree()),
    {
        self.into_object().union(other)
    }
}

impl<T: IntoObject<2>> vstd::std_specs::ops::AddSpecImpl<T> for Polygon {
    /// No value is stated here: the operator's own contract states the tree
    /// of its result.
    open spec fn obeys_add_spec() -> bool {
        false
    }

    open spec fn add_req(self, rhs: T) -> bool {
        true
    }

    open spec fn add_spec(self, rhs: T) -> Object<2> {
        arbitrary()
    }
}

impl<T: IntoObject<2>> core::ops::BitOr<T> for Polygon {
    type Output = Object<2>;

    fn bitor(self, other: T) -> (r: Object<2>)
        ensures
            r@ == boolean_tree((Union::<2> {}).spec_node(), self.spec_node(), other.tree()),
    {
        self.into_object().union(other)
    }
}

impl<T: IntoObject<2>> vstd::std_specs::ops::BitOrSpecImpl<T> for Polygon {
    /// No value is stated here: the operator's own contract states the tree
    /// of its result.
    open spec fn obeys_bitor_spec() -> bool {
        false
    }

    open spec fn bitor_req(self, rhs: T) -> bool {
        true
    }

    open spec fn bitor_spec(self, rhs: T) -> Object<2> {
        arbitrary()
    }
}

impl<T: IntoObject<2>> core::ops::Sub<T> for Polygon {
    type Output = Object<2>;

    fn sub(self, other: T) -> (r: Object<2>)
        ensures
            r@ == boolean_tree((Difference::<2> {}).spec_node(), self.spec_node(), other.tree()),
    {
        self.into_object().difference(other)
    }
}

impl<T: IntoObject<2>> vstd::std_specs::ops::SubSpecImpl<T> for Polygon {
    /// No value is stated here: the operator's own contract states the tree
    /// of its result.
    open spec fn obeys_sub_spec() -> bool {
        false
    }

    open spec fn sub_req(self, rhs: T) -> bool {
        true
    }

    open spec fn sub_spec(self, rhs: T) -> Object<2> {
        arbitrary()
    }
}

impl<F: Operator<2>> core::ops::Shr<F> for Polygon {
    type Output = F::Output;

    fn shr(self, f: F) -> (r: F::Output)
        ensures
            f.applied(self.spec_node(), r),
    {
        self.into_object().pipe(f)
    }
}

impl<F: Operator<2>> vstd::std_specs::ops::ShrSpecImpl<F> for Polygon {
    /// No value is stated here: the operator's own contract states the tree
    /// of its result.
    open spec fn obeys_shr_spec() -> bool {
        false
    }

    open spec fn shr_req(self, rhs: F) -> bool {
        true
    }

    open spec fn shr_spec(self, rhs: F) -> F::Output {
        arbitrary()
    }
}

impl From<Polygon> for Object<2> {
    fn from(value: Polygon) -> (r: Object<2>)
        ensures
            r@ == value.spec_node(),
    {
        value.into_object()
    }
}

impl vstd::std_specs::convert::FromSpecImpl<Polygon> for Object<2> {
    /// No value is stated here: the conversion's own contract states the
    /// tree of its result.
    open spec fn obeys_from_spec() -> bool {
        false
    }

    open spec fn from_spec(value: Polygon) -> Object<2> {
        arbitrary()
    }
}

/// Creates a square or rectangle in the first quadrant.
#[derive(Clone, Copy, Debug, PartialEq)]
pub struct Square {
    /// false (default), 1st (positive) quadrant, one corner at (0,0)
    /// true, square is centered at (0,0)
    pub center: Option<bool>,
    /// single value, square with both sides this length
    /// 2 value array [x,y], rectangle with dimensions x and y
    pub size: Option<Length2>,
}

impl Default for Square {
    fn default() -> (r: Self)
        ensures
            r == (Square { center: None, size: None }),
    {
        Square { center: None, size: None }
    }
}

pub fn square(size: Length2) -> (r: Square)
    ensures
        r == (Square { center: None, size: Some(size) }),
{
    Square::default().size(size)
}

impl Square {
    /// false (default), 1st (positive) quadrant, one corner at (0,0)
    /// true, square is centered at (0,0)
    pub fn center(self, center: bool) -> (r: Self)
        ensures
            r == (Square { center: Some(center), ..self }),
    {
        Square { center: Some(center), ..self }
    }

    /// single value, square with both sides this length
    /// 2 value array [x,y], rectangle with dimensions x and y
    pub fn size(self, size: Length2) -> (r: Self)
        ensures
            r == (Square { size: Some(size), ..self }),
    {
        Square { size: Some(size), ..self }
    }

    /// The call this value renders as.
    pub open spec fn spec_node(&self) -> NodeView {
        NodeView::Call {
            imports: seq![],
            callee: CalleeView::Named("square"@),
            args: seq![("center"@, opt_value(self.center)), ("size"@, opt_value(self.size))],
            operator: false,
        }
    }

    /// The node of the call this value renders as.
    pub fn to_node(&self) -> (r: Node)
        ensures
            r@ == self.spec_node(),
    {
        let imports: Vec<Import> = Vec::new();
        let args = vec![(String::from_str("center"), opt_to_value(&self.center)), (String::from_str("size"), opt_to_value(&self.size))];
        let ghost iv = imports@;
        let ghost av = args@;
        let callee = Callee::Named(String::from_str("square"));
        let r = Node::Call(CallNode { imports, callee, args, operator: false });
        assert(iv.map_values(|i: Import| i@) =~= seq![]);
        assert(call_args_view(av) =~= seq![("center"@, opt_value(self.center)), ("size"@, opt_value(self.size))]);
        r
    }
}

impl Scad for Square {
    open spec fn rendered(&self, s: FormatterView) -> (FormatterView, AssignmentView) {
        node_rendered(s, self.spec_node())
    }

    fn assign(&self, f: &mut Formatter) -> (r: Assignment) {
        self.to_node().assign_node(f)
    }
}

impl IntoObject<2> for Square {
    open spec fn tree(&self) -> NodeView {
        self.spec_node()
    }

    fn into_object(self) -> (r: Object<2>) {
        Object::new(self.to_node())
    }
}

impl<T: IntoObject<2>> core::ops::Add<T> for Square {
    type Output = Object<2>;

    fn add(self, other: T) -> (r: Object<2>)
        ensures
            r@ == boolean_tree((Union::<2> {}).spec_node(), self.spec_node(), other.tree()),
    {
        self.into_object().union(other)
    }
}

impl<T: IntoObject<2>> vstd::std_specs::ops::AddSpecImpl<T> for Square {
    /// No value is stated here: the operator's own contract states the tree
    /// of its result.
    open spec fn obeys_add_spec() -> bool {
        false
    }

    open spec fn add_req(self, rhs: T) -> bool {
        true
    }

    open spec fn add_spec(self, rhs: T) -> Object<2> {
        arbitrary()
    }
}

impl<T: IntoObject<2>> core::ops::BitOr<T> for Square {
    type Output = Object<2>;

    fn bitor(self, other: T) -> (r: Object<2>)
        ensures
            r@ == boolean_tree((Union::<2> {}).spec_node(), self.spec_node(), other.tree()),
    {
        self.into_object().union(other)
    }
}

impl<T: IntoObject<2>> vstd::std_specs::ops::BitOrSpecImpl<T> for Square {
    /// No value is stated here: the operator's own contract states the tree
    /// of its result.
    open spec fn obeys_bitor_spec() -> bool {
        false
    }

    open spec fn bitor_req(self, rhs: T) -> bool {
        true
    }

    open spec fn bitor_spec(self, rhs: T) -> Object<2> {
        arbitrary()
    }
}

impl<T: IntoObject<2>> core::ops::Sub<T> for Square {
    type Output = Object<2>;

    fn sub(self, other: T) -> (r: Object<2>)
        ensures
            r@ == boolean_tree((Difference::<2> {}).spec_node(), self.spec_node(), other.tree()),
    {
        self.into_object().difference(other)
    }
}

impl<T: IntoObject<2>> vstd::std_specs::ops::SubSpecImpl<T> for Square {
    /// No value is stated here: the operator's own contract states the tree
    /// of its result.
    open spec fn obeys_sub_spec() -> bool {
        false
    }

    open spec fn sub_req(self, rhs: T) -> bool {
        true
    }

    open spec fn sub_spec(self, rhs: T) -> Object<2> {
        arbitrary()
    }
}

impl<F: Operator<2>> core::ops::Shr<F> for Square {
    type Output = F::Output;

    fn shr(self, f: F) -> (r: F::Output)
        ensures
            f.applied(self.spec_node(), r),
    {
        self.into_object().pipe(f)
    }
}

impl<F: Operator<2>> vstd::std_specs::ops::ShrSpecImpl<F> for Square {
    /// No value is stated here: the operator's own contract states the tree
    /// of its result.
    open spec fn obeys_shr_spec() -> bool {
        false
    }

    open spec fn shr_req(self, rhs: F) -> bool {
        true
    }

    open spec fn shr_spec(self, rhs: F) -> F::Output {
        arbitrary()
    }
}

impl From<Square> for Object<2> {
    fn from(value: Square) -> (r: Object<2>)
        ensures
            r@ == value.spec_node(),
    {
        value.into_object()
    }
}

impl vstd::std_specs::convert::FromSpecImpl<Square> for Object<2> {
    /// No value is stated here: the conversion's own contract states the
    /// tree of its result.
    open spec fn obeys_from_spec() -> bool {
        false
    }

    open spec fn from_spec(value: Square) -> Object<2> {
        arbitrary()
    }
}

///
#[derive(Clone, Debug, PartialEq)]
pub struct Text {
    /// The name of the font that should be used. This is not the name of the font file, but the logical font name (internally handled by the fontconfig library). This can also include a style parameter, see below. A list of installed fonts & styles can be obtained using the font list dialog (Help -> Font List).
    pub font: Option<String>,
    /// The horizontal alignment for the text. Possible values are "left", "center" and "right". Default is "left".
    pub halign: Option<String>,
    /// The generated text has an ascent (height above the baseline) of approximately the given value. Default is 10. Different fonts can vary somewhat and may not fill the size specified exactly, typically they render slightly smaller. On a metric system a size of 25.4 (1" imperial) will correspond to 100pt ⇒ a 12pt font size would be 12×0.254 for metric conversion or 0.12 in imperial.
    pub size: Option<Scalar>,
    /// The text to generate.
    pub text: Option<String>,
    /// The vertical alignment for the text. Possible values are "top", "center", "baseline" and "bottom". Default is "baseline".
    pub valign: Option<String>,
}

impl Default for Text {
    fn default() -> (r: Self)
        ensures
            r == (Text { font: None, halign: None, size: None, text: None, valign: None }),
    {
        Text { font: None, halign: None, size: None, text: None, valign: None }
    }
}

pub fn text(content: String) -> (r: Text)
    ensures
        r == (Text { font: None, halign: None, size: None, text: Some(content), valign: None }),
{
    Text::default().text(content)
}

impl Text {
    /// The name of the font that should be used. This is not the name of the font file, but the logical font name (internally handled by the fontconfig library). This can also include a style parameter, see below. A list of installed fonts & styles can be obtained using the font list dialog (Help -> Font List).
    pub fn font(self, font: String) -> (r: Self)
        ensures
            r == (Text { font: Some(font), ..self }),
    {
        Text { font: Some(font), ..self }
    }

    /// The horizontal alignment for the text. Possible values are "left", "center" and "right". Default is "left".
    pub fn halign(self, halign: String) -> (r: Self)
        ensures
            r == (Text { halign: Some(halign), ..self }),
    {
        Text { halign: Some(halign), ..self }
    }

    /// The generated text has an ascent (height above the baseline) of approximately the given value. Default is 10. Different fonts can vary somewhat and may not fill the size specified exactly, typically they render slightly smaller. On a metric system a size of 25.4 (1" imperial) will correspond to 100pt ⇒ a 12pt font size would be 12×0.254 for metric conversion or 0.12 in imperial.
    pub fn size(self, size: Scalar) -> (r: Self)
        ensures
            r == (Text { size: Some(size), ..self }),
    {
        Text { size: Some(size), ..self }
    }

    /// The text to generate.
    pub fn text(self, text: String) -> (r: Self)
        ensures
            r == (Text { text: Some(text), ..self }),
    {
        Text { text: Some(text), ..self }
    }

    /// The vertical alignment for the text. Possible values are "top", "center", "baseline" and "bottom". Default is "baseline".
    pub fn valign(self, valign: String) -> (r: Self)
        ensures
            r == (Text { valign: Some(valign), ..self }),
    {
        Text { valign: Some(valign), ..self }
    }

    /// The call this value renders as.
    pub open spec fn spec_node(&self) -> NodeView {
        NodeView::Call {
            imports: seq![],
            callee: CalleeView::Named("text"@),
            args: seq![("font"@, opt_value(self.font)), ("halign"@, opt_value(self.halign)), ("size"@, opt_value(self.size)), ("text"@, opt_value(self.text)), ("valign"@, opt_value(self.valign))],
            operator: false,
        }
    }

    /// The node of the call this value renders as.
    pub fn to_node(&self) -> (r: Node)
        ensures
            r@ == self.spec_node(),
    {
        let imports: Vec<Import> = Vec::new();
        let args = vec![(String::from_str("font"), opt_to_value(&self.font)), (String::from_str("halign"), opt_to_value(&self.halign)), (String::from_str("size"), opt_to_value(&self.size)), (String::from_str("text"), opt_to_value(&self.text)), (String::from_str("valign"), opt_to_value(&self.valign))];
        let ghost iv = imports@;
        let ghost av = args@;
        let callee = Callee::Named(String::from_str("text"));
        let r = Node::Call(CallNode { imports, callee, args, operator: false });
        assert(iv.map_values(|i: Import| i@) =~= seq![]);
        assert(call_args_view(av) =~= seq![("font"@, opt_value(self.font)), ("halign"@, opt_value(self.halign)), ("size"@, opt_value(self.size)), ("text"@, opt_value(self.text)), ("valign"@, opt_value(self.valign))]);
        r
    }
}

impl Scad for Text {
    open spec fn rendered(&self, s: FormatterView) -> (FormatterView, AssignmentView) {
        node_rendered(s, self.spec_node())
    }

    fn assign(&self, f: &mut Formatter) -> (r: Assignment) {
        self.to_node().assign_node(f)
    }
}

impl IntoObject<2> for Text {
    open spec fn tree(&self) -> NodeView {
        self.spec_node()
    }

    fn into_object(self) -> (r: Object<2>) {
        Object::new(self.to_node())
    }
}

impl<T: IntoObject<2>> core::ops::Add<T> for Text {
    type Output = Object<2>;

    fn add(self, other: T) -> (r: Object<2>)
        ensures
            r@ == boolean_tree((Union::<2> {}).spec_node(), self.spec_node(), other.tree()),
    {
        self.into_object().union(other)
    }
}

impl<T: IntoObject<2>> vstd::std_specs::ops::AddSpecImpl<T> for Text {
    /// No value is stated here: the operator's own contract states the tree
    /// of its result.
    open spec fn obeys_add_spec() -> bool {
        false
    }

    open spec fn add_req(self, rhs: T) -> bool {
        true
    }

    open spec fn add_spec(self, rhs: T) -> Object<2> {
        arbitrary()
    }
}

impl<T: IntoObject<2>> core::ops::BitOr<T> for Text {
    type Output = Object<2>;

    fn bitor(self, other: T) -> (r: Object<2>)
        ensures
            r@ == boolean_tree((Union::<2> {}).spec_node(), self.spec_node(), other.tree()),
    {
        self.into_object().union(other)
    }
}

impl<T: IntoObject<2>> vstd::std_specs::ops::BitOrSpecImpl<T> for Text {
    /// No value is stated here: the operator's own contract states the tree
    /// of its result.
    open spec fn obeys_bitor_spec() -> bool {
        false
    }

    open spec fn bitor_req(self, rhs: T) -> bool {
        true
    }

    open spec fn bitor_spec(self, rhs: T) -> Object<2> {
        arbitrary()
    }
}

impl<T: IntoObject<2>> core::ops::Sub<T> for Text {
    type Output = Object<2>;

    fn sub(self, other: T) -> (r: Object<2>)
        ensures
            r@ == boolean_tree((Difference::<2> {}).spec_node(), self.spec_node(), other.tree()),
    {
        self.into_object().difference(other)
    }
}

impl<T: IntoObject<2>> vstd::std_specs::ops::SubSpecImpl<T> for Text {
    /// No value is stated here: the operator's own contract states the tree
    /// of its result.
    open spec fn obeys_sub_spec() -> bool {
        false
    }

    open spec fn sub_req(self, rhs: T) -> bool {
        true
    }

    open spec fn sub_spec(self, rhs: T) -> Object<2> {
        arbitrary()
    }
}

impl<F: Operator<2>> core::ops::Shr<F> for Text {
    type Output = F::Output;

    fn shr(self, f: F) -> (r: F::Output)
        ensures
            f.applied(self.spec_node(), r),
    {
        self.into_object().pipe(f)
    }
}

impl<F: Operator<2>> vstd::std_specs::ops::ShrSpecImpl<F> for Text {
    /// No value is stated here: the operator's own contract states the tree
    /// of its result.
    open spec fn obeys_shr_spec() -> bool {
        false
    }

    open spec fn shr_req(self, rhs: F) -> bool {
        true
    }

    open spec fn shr_spec(self, rhs: F) -> F::Output {
        arbitrary()
    }
}

impl From<Text> for Object<2> {
    fn from(value: Text) -> (r: Object<2>)
        ensures
            r@ == value.spec_node(),
    {
        value.into_object()
    }
}

impl vstd::std_specs::convert::FromSpecImpl<Text> for Object<2> {
    /// No value is stated here: the conversion's own contract states the
    /// tree of its result.
    open spec fn obeys_from_spec() -> bool {
        false
    }

    open spec fn from_spec(value: Text) -> Object<2> {
        arbitrary()
    }
}

} // verus!
