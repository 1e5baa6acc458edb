use rsolid::bosl::metric_screws::screw;
use rsolid::extension::translate::up;
use rsolid::import::svg;
use rsolid::object::{IntoObject, Object};
use rsolid::primitive::three_d::{cube, cylinder, sphere};
use rsolid::primitive::transform::translate;
use rsolid::primitive::two_d::text;
use rsolid::scad::{Assignment, AssignmentType, Formatter, Scad};
use rsolid::types::{Length, Length2, Length3, Number, Value};
use rsolid::extension::rotate::rotate_z_around;
use rsolid::object::{Block, Wrapped};
use rsolid::primitive::extrude::linear_extrude;
use rsolid::primitive::two_d::square;
use rsolid::types::Angle;
use rsolid::helpers::{hexagon, pentagon};
use rsolid::primitive::three_d::cone;
use rsolid::extension::special_vars::fragment_angle;
use rsolid::var::preview;

fn len(v: i64) -> Length {
    Length::from(v)
}

fn vec3(x: i64, y: i64, z: i64) -> Length3 {
    Length3::from_ints([x, y, z])
}

fn count(haystack: &str, needle: &str) -> usize {
    haystack.matches(needle).count()
}

#[test]
fn cube_minus_moved_sphere() {
    let tree = cube(vec3(10, 20, 30)) - (sphere(len(10)) >> translate::<3>(vec3(0, 0, 5)));
    let expected = "function _v0() = 10;\n\
function _v1() = 20;\n\
function _v2() = 30;\n\
function _v3() = [_v0(), _v1(), _v2()];\n\
module _v4() { cube(size=_v3()); }\n\
module _v5() { sphere(r=_v0()); }\n\
function _v6() = 0;\n\
function _v7() = 5;\n\
function _v8() = [_v6(), _v6(), _v7()];\n\
module _v9() { translate(v=_v8()) children(); }\n\
module _v10() { _v9() _v5(); }\n\
module _v11() { difference() { _v4(); _v10(); }; }\n\
\n\
_v11();";
    assert_eq!(tree.to_scad(), expected);
}

#[test]
fn reused_cube_literal_defined_once() {
    let tree = cube(vec3(10, 20, 30)).into_object() - (sphere(len(10)).into_object() >> translate::<3>(vec3(0, 0, 5)));
    let bigger = tree + cube(vec3(10, 20, 30)) + sphere(len(10));
    let out = bigger.to_scad();
    assert_eq!(count(&out, "{ cube("), 1);
    assert_eq!(count(&out, "{ sphere("), 1);
    assert_eq!(count(&out, "difference()"), 1);
}

#[test]
fn one_template_for_three_moves() {
    let a = cube(vec3(1, 2, 3)) >> up::<3>(len(5));
    let b = sphere(len(4)) >> up::<3>(len(5));
    let c = cylinder(len(6), len(7)) >> up::<3>(len(5));
    let out = (a + b + c).to_scad();
    let expected = "function _v0() = 1;\n\
function _v1() = 2;\n\
function _v2() = 3;\n\
function _v3() = [_v0(), _v1(), _v2()];\n\
module _v4() { cube(size=_v3()); }\n\
module _v5 (z=undef) { translate([0, 0, z]) children(); }\n\
function _v6() = 5;\n\
module _v7() { _v5(z=_v6()) children(); }\n\
module _v8() { _v7() _v4(); }\n\
function _v9() = 4;\n\
module _v10() { sphere(r=_v9()); }\n\
module _v11() { _v7() _v10(); }\n\
module _v12() { union() { _v8(); _v11(); }; }\n\
function _v13() = 6;\n\
function _v14() = 7;\n\
module _v15() { cylinder(h=_v13(), r=_v14()); }\n\
module _v16() { _v7() _v15(); }\n\
module _v17() { union() { _v12(); _v16(); }; }\n\
\n\
_v17();";
    assert_eq!(out, expected);
    assert_eq!(count(&out, "translate([0, 0, z])"), 1);
    assert_eq!(count(&out, "_v7() _v"), 3);
}

#[test]
fn rendering_twice_gives_same_text() {
    let tree = cube(vec3(1, 2, 3)).into_object() - sphere(len(2)).into_object();
    let first = tree.to_scad();
    let second = tree.to_scad();
    assert_eq!(first, second);
    assert_eq!(tree.clone().to_scad(), first);
}

#[test]
fn independent_equal_subtrees_share_definition() {
    let a = cube(vec3(4, 5, 6)).center(true).into_object();
    let b = cube(vec3(4, 5, 6)).center(true).into_object();
    let out = a.union(b).to_scad();
    assert_eq!(count(&out, "{ cube("), 1);
    assert!(out.contains("union() { _v5(); _v5(); }"));
}

#[test]
fn clone_under_two_parents_defined_once() {
    let shared = sphere(len(3)).into_object();
    let left = shared.clone() >> up::<3>(len(1));
    let right = shared >> up::<3>(len(2));
    let out = (left + right).to_scad();
    assert_eq!(count(&out, "{ sphere("), 1);
    assert_eq!(count(&out, "translate([0, 0, z])"), 1);
}

#[test]
fn first_recorded_printed_first() {
    let mut f = Formatter::new();
    let b = f.emit("b()".to_string(), AssignmentType::Call);
    let a = f.emit("a()".to_string(), AssignmentType::Call);
    let again = f.emit("b()".to_string(), AssignmentType::Function);
    assert_eq!(again, b);
    assert_eq!(a, Assignment::Var { idx: 1, ty: AssignmentType::Call });
    assert_eq!(f.to_scad(), "module _v0() { b(); }\nmodule _v1() { a(); }\n");
}

#[test]
fn absent_argument_left_out() {
    let mut f = Formatter::new();
    let h = f.value("2".to_string());
    let r = f.call("cylinder", &[("center", None), ("h", Some(h.clone()))], false);
    assert_eq!(f.to_scad(), "function _v0() = 2;\nmodule _v1() { cylinder(h=_v0()); }\n");
    let t = f.value("true".to_string());
    let r2 = f.call("cylinder", &[("center", Some(t)), ("h", Some(h))], false);
    assert_ne!(r, r2);
    assert_eq!(
        f.to_scad(),
        "function _v0() = 2;\nmodule _v1() { cylinder(h=_v0()); }\nfunction _v2() = true;\nmodule _v3() { cylinder(center=_v2(), h=_v0()); }\n"
    );
}

#[test]
fn absent_field_not_rendered() {
    let plain = cylinder(len(2), len(1)).to_scad();
    assert!(!plain.contains("center"));
    let centred = cylinder(len(2), len(1)).center(true).to_scad();
    assert!(centred.contains("cylinder(center=_v0(), h=_v1(), r=_v2())"));
}

#[test]
fn call_without_arguments_is_inline() {
    let mut f = Formatter::new();
    let a = f.call("union", &[("x", None)], true);
    assert_eq!(a, Assignment::Inline { code: "union()".to_string() });
    let b = f.call("union", &[], true);
    assert_eq!(b, a);
    assert_eq!(f.to_scad(), "");
}

#[test]
fn operator_call_has_children_suffix() {
    let mut f = Formatter::new();
    let v = f.value("1".to_string());
    let plain = f.call("scale", &[("v", Some(v.clone()))], false);
    let op = f.call("scale", &[("v", Some(v))], true);
    assert_ne!(plain, op);
    assert_eq!(
        f.to_scad(),
        "function _v0() = 1;\nmodule _v1() { scale(v=_v0()); }\nmodule _v2() { scale(v=_v0()) children(); }\n"
    );
}

#[test]
fn module_reference_has_no_parentheses() {
    let mut f = Formatter::new();
    let m = f.module("() { children(); }".to_string());
    assert_eq!(m.to_scad(), "_v0");
    let v = f.value("3".to_string());
    assert_eq!(v.to_scad(), "_v1()");
    assert_eq!(Assignment::Inline { code: "x()".to_string() }.to_scad(), "x()");
    assert_eq!(f.to_scad(), "module _v0 () { children(); }\nfunction _v1() = 3;\n");
}

#[test]
fn directives_printed_once_each() {
    let mut f = Formatter::new();
    f.uses("<a.scad>".to_string());
    f.includes("<b.scad>".to_string());
    f.uses("<a.scad>".to_string());
    f.includes("<a.scad>".to_string());
    assert_eq!(f.to_scad(), "use <a.scad>;\ninclude <b.scad>;\ninclude <a.scad>;\n");
}

#[test]
fn output_names_are_accepted() {
    let mut f = Formatter::new();
    let v = f.value("1".to_string());
    f.output("main".to_string(), v.clone());
    f.output("main".to_string(), v);
    assert_eq!(f.to_scad(), "function _v0() = 1;\n");
}

#[test]
fn screw_brings_library_once() {
    let s = screw().len(len(10)).size(len(3)).into_object();
    let out = s.clone().union(s).to_scad();
    assert_eq!(
        out,
        "include <BOSL/constants.scad>;\nuse <BOSL/metric_screws.scad>;\nfunction _v0() = 10;\nfunction _v1() = 3;\nmodule _v2() { screw(screwlen=_v0(), screwsize=_v1()); }\nmodule _v3() { union() { _v2(); _v2(); }; }\n\n_v3();"
    );
}

#[test]
fn number_text() {
    assert_eq!(Number::from_int(100).to_text(), "100");
    assert_eq!(Number::from_int(-3).to_text(), "-3");
    assert_eq!(Number::from_int(0).to_text(), "0");
    assert_eq!(Number::decimal(5, 1).to_text(), "0.5");
    assert_eq!(Number::decimal(1, 2).to_text(), "0.01");
    assert_eq!(Number::decimal(250, 2).to_text(), "2.5");
    assert_eq!(Number::decimal(-1205, 3).to_text(), "-1.205");
    assert_eq!(Number::decimal(1000, 3).to_text(), "1");
    assert_eq!(Number::decimal(7, 25).to_text(), "0.0000000000000000000000007");
    assert_eq!(Number::from_int(i64::MIN).to_text(), "-9223372036854775808");
}

#[test]
fn number_arithmetic() {
    assert_eq!(Number::from_int(7).half().to_text(), "3.5");
    assert_eq!(Number::decimal(15, 1).double().to_text(), "3");
    assert_eq!(Number::from_int(3).max(Number::decimal(25, 1)), Number::from_int(3));
    assert_eq!(Number::decimal(-5, 1).max(Number::from_int(-1)), Number::decimal(-5, 1));
    assert_eq!((-Length::from(4)).to_text(), "-4");
}

#[test]
fn string_argument_is_quoted() {
    let out = text("a\"b".to_string()).to_scad();
    assert_eq!(out, "function _v0() = \"a\\\"b\";\nmodule _v1() { text(text=_v0()); }\n\n_v1();");
}

#[test]
fn file_import_is_a_call() {
    let out = svg("shape.svg".to_string()).to_scad();
    assert_eq!(out, "module _v0() { import(\"shape.svg\"); }\n\n_v0();");
}

#[test]
fn list_of_points_renders_rows() {
    let mut f = Formatter::new();
    let table = Value::Table(vec![vec![Number::from_int(1), Number::from_int(2)], vec![Number::from_int(1)]]);
    let a = table.assign(&mut f);
    assert_eq!(a.to_scad(), "_v4()");
    assert_eq!(
        f.to_scad(),
        "function _v0() = 1;\nfunction _v1() = 2;\nfunction _v2() = [_v0(), _v1()];\nfunction _v3() = [_v0()];\nfunction _v4() = [_v2(), _v3()];\n"
    );
    let p = Length2::from_ints([1, 2]);
    assert_eq!(p.to_scad(), "function _v0() = 1;\nfunction _v1() = 2;\nfunction _v2() = [_v0(), _v1()];\n\n_v2();");
}

#[test]
fn empty_object_tree_has_no_definitions() {
    let u: Object<3> = rsolid::primitive::set::union::<3>().into_object();
    assert_eq!(u.to_scad(), "\nunion();");
}

#[test]
fn compound_assignment_builds_booleans() {
    let mut tree: Object<3> = cube(vec3(1, 1, 1)).into();
    tree -= sphere(len(1));
    tree |= sphere(len(2));
    let out = tree.to_scad();
    assert!(out.contains("module _v4() { difference() { _v2(); _v3(); }; }"));
    assert!(out.ends_with("module _v7() { union() { _v4(); _v6(); }; }\n\n_v7();"));
}

#[test]
fn wrapped_and_block_render_like_their_trees() {
    let child = sphere(len(1)).into_object();
    let parent: Object<3> = translate::<3>(vec3(1, 0, 0)).into();
    let w = Wrapped { parent, child: child.clone() };
    assert_eq!(w.to_scad(), (child.clone() >> translate::<3>(vec3(1, 0, 0))).to_scad());
    let b = Block(child.clone(), child);
    assert_eq!(b.to_scad(), "function _v0() = 1;\nmodule _v1() { sphere(r=_v0()); }\n\n{ _v1(); _v1(); };");
}

#[test]
fn extrusion_lifts_flat_shape() {
    let solid: Object<3> = square(Length2::from_ints([2, 3])) >> linear_extrude(len(4));
    assert_eq!(
        solid.to_scad(),
        "function _v0() = 2;\nfunction _v1() = 3;\nfunction _v2() = [_v0(), _v1()];\nmodule _v3() { square(size=_v2()); }\nfunction _v4() = 4;\nmodule _v5() { linear_extrude(height=_v4()) children(); }\nmodule _v6() { _v5() _v3(); }\n\n_v6();"
    );
}

#[test]
fn rotation_around_a_point() {
    let out = (cube(vec3(1, 1, 1)) >> rotate_z_around::<3>(Angle::from(45)).centerpoint(vec3(1, 0, 0))).to_scad();
    assert!(out.contains("module _v3 (a=0, cp=undef) { if (!is_undef(cp)) { translate(cp) rotate([0, 0, a]) translate(-cp) children(); } else { rotate([0, 0, a]) children(); } }\n"));
    assert!(out.contains("module _v7() { _v3(a=_v4(), cp=_v6()) children(); }"));
}

#[test]
fn polygons_are_circles_with_few_fragments() {
    assert_eq!(pentagon(len(5)).to_scad(), "function _v0() = 5;\nmodule _v1() { circle($fn=_v0(), r=_v0()); }\n\n_v1();");
    assert_eq!(hexagon(len(2)).to_scad(), "function _v0() = 6;\nfunction _v1() = 2;\nmodule _v2() { circle($fn=_v0(), r=_v1()); }\n\n_v2();");
}

#[test]
fn cone_sets_both_radii() {
    assert_eq!(
        cone(len(3), len(2), len(1)).to_scad(),
        "function _v0() = 3;\nfunction _v1() = 2;\nfunction _v2() = 1;\nmodule _v3() { cylinder(h=_v0(), r1=_v1(), r2=_v2()); }\n\n_v3();"
    );
}

#[test]
fn fragment_angle_with_preview_value() {
    let out = (sphere(len(1)) >> fragment_angle::<3>(Angle::from(12)).preview(Angle::from(30))).to_scad();
    assert!(out.contains("module _v2 (v=12, p=undef) { $fa = ($preview && !is_undef(p)) ? p : v; children(); }\n"));
    assert!(out.contains("module _v5() { _v2(v=_v3(), p=_v4()) children(); }\n"));
}

#[test]
fn preview_variable_name() {
    assert_eq!(preview().name(), "$preview");
}

#[test]
fn default_formatter_prints_nothing() {
    let f = Formatter::default();
    assert_eq!(f.to_scad(), "");
}
