use rsolid::mask::face;
use rsolid::mask::{chamfer, edge, fillet};
use rsolid::scad::Scad;
use rsolid::shape::triangle;
use rsolid::types::{Angle, Length, Number};

/// The decimal spelling of `x`, as a number of the library.
fn number_of(x: f64) -> Number {
    let text = format!("{}", x);
    let negative = text.starts_with('-');
    let digits = text.trim_start_matches('-');
    let (whole, fraction) = match digits.split_once('.') {
        Some((w, f)) => (w, f),
        None => (digits, ""),
    };
    let magnitude: u64 = format!("{}{}", whole, fraction).parse().unwrap();
    Number { negative, magnitude, places: fraction.len() as u8 }
}

/// Fails with the first difference between the two texts.
fn assert_same_text(out: &str, expected: &str) {
    if out != expected {
        let at = out.bytes().zip(expected.bytes()).take_while(|(a, b)| a == b).count();
        let from = at.saturating_sub(120);
        panic!(
            "texts differ at byte {}:\n got: {:?}\n expected: {:?}",
            at,
            &out[from..(at + 120).min(out.len())],
            &expected[from..(at + 120).min(expected.len())]
        );
    }
}

/// The angle of the diagonal of a `width` by `height` rectangle, in degrees.
fn diagonal(width: f64, height: f64) -> Angle {
    Angle(number_of(height.atan2(width).to_degrees()))
}

#[test]
fn fillet_test() {
    let out = fillet(Length::from(100)).to_scad();
    assert_same_text(&out, FILLET);
}

#[test]
fn chamfer_test() {
    let out = chamfer(Length::from(50), Length::from(100), diagonal(50.0, 100.0)).to_scad();
    assert_same_text(&out, CHAMFER);
}

#[test]
fn edge_test() {
    let out = edge(Length::from(100), fillet(Length::from(10))).to_scad();
    assert_same_text(&out, EDGE);
}

#[test]
fn cylinder_test() {
    let out = face::cylinder(Length::from(100), fillet(Length::from(10))).to_scad();
    assert_same_text(&out, CYLINDER);
}

#[test]
fn cube_test() {
    let out = face::cube(Length::from(50), Length::from(100), fillet(Length::from(10))).to_scad();
    assert_same_text(&out, CUBE);
}

#[test]
fn right_test() {
    let out = triangle::right(Length::from(100), Length::from(200), diagonal(100.0, 200.0)).to_scad();
    assert_same_text(&out, RIGHT);
}

const FILLET: &str = "function _v0() = true;\nfunction _v1() = 100;\nfunction _v2() = [_v1(), _v1()];\nmodule _v3() { square(center=_v0(), size=_v2()); }\nmodule _v4() { circle(r=_v1()); }\nmodule _v5 (y=undef) { translate([0, -y, 0]) children(); }\nfunction _v6() = 50;\nmodule _v7() { _v5(y=_v6()) children(); }\nmodule _v8() { _v7() _v4(); }\nmodule _v9 (x=undef) { translate([-x, 0, 0]) children(); }\nmodule _v10() { _v9(x=_v6()) children(); }\nmodule _v11() { _v10() _v8(); }\nmodule _v12() { difference() { _v3(); _v11(); }; }\nfunction _v13() = 0.01;\nfunction _v14() = [_v1(), _v13()];\nmodule _v15() { square(center=_v0(), size=_v14()); }\nmodule _v16 (y=undef) { translate([0, y, 0]) children(); }\nmodule _v17() { _v16(y=_v6()) children(); }\nmodule _v18() { _v17() _v15(); }\nfunction _v19() = [_v13(), _v1()];\nmodule _v20() { square(center=_v0(), size=_v19()); }\nmodule _v21 (x=undef) { translate([x, 0, 0]) children(); }\nmodule _v22() { _v21(x=_v6()) children(); }\nmodule _v23() { _v22() _v20(); }\nmodule _v24() { union() { _v18(); _v23(); }; }\nmodule _v25 () { if($preview) { children(); } }\nmodule _v26() { _v25() _v24(); }\nmodule _v27() { union() { _v12(); _v26(); }; }\nmodule _v28() { _v7() _v27(); }\nmodule _v29() { _v10() _v28(); }\n\n_v29();";

const CHAMFER: &str = "function _v0() = 50;\nfunction _v1() = 100;\nfunction _v2() = [_v0(), _v1()];\nmodule _v3() { square(size=_v2()); }\nfunction _v4() = 200;\nfunction _v5() = [_v4(), _v4()];\nmodule _v6() { square(size=_v5()); }\nmodule _v7 (a=0) { rotate([0, 0, a]) children(); }\nfunction _v8() = 63.43494882292201;\nmodule _v9() { _v7(a=_v8()) children(); }\nmodule _v10() { _v9() _v6(); }\nmodule _v11() { difference() { _v3(); _v10(); }; }\nmodule _v12 (y=undef) { translate([0, -y, 0]) children(); }\nmodule _v13() { _v12(y=_v0()) children(); }\nmodule _v14() { _v13() _v11(); }\nmodule _v15 (x=undef) { translate([-x, 0, 0]) children(); }\nfunction _v16() = 25;\nmodule _v17() { _v15(x=_v16()) children(); }\nmodule _v18() { _v17() _v14(); }\nfunction _v19() = 1;\nfunction _v20() = 0;\nfunction _v21() = [_v19(), _v20(), _v20()];\nmodule _v22() { mirror(v=_v21()) children(); }\nmodule _v23() { _v22() _v18(); }\nfunction _v24() = 180;\nmodule _v25() { _v7(a=_v24()) children(); }\nmodule _v26() { _v25() _v23(); }\nfunction _v27() = true;\nfunction _v28() = 0.01;\nfunction _v29() = [_v0(), _v28()];\nmodule _v30() { square(center=_v27(), size=_v29()); }\nmodule _v31 (y=undef) { translate([0, y, 0]) children(); }\nmodule _v32() { _v31(y=_v0()) children(); }\nmodule _v33() { _v32() _v30(); }\nfunction _v34() = [_v28(), _v1()];\nmodule _v35() { square(center=_v27(), size=_v34()); }\nmodule _v36 (x=undef) { translate([x, 0, 0]) children(); }\nmodule _v37() { _v36(x=_v16()) children(); }\nmodule _v38() { _v37() _v35(); }\nmodule _v39() { union() { _v33(); _v38(); }; }\nmodule _v40 () { if($preview) { children(); } }\nmodule _v41() { _v40() _v39(); }\nmodule _v42() { union() { _v26(); _v41(); }; }\nmodule _v43() { _v13() _v42(); }\nmodule _v44() { _v17() _v43(); }\n\n_v44();";

const EDGE: &str = "function _v0() = true;\nfunction _v1() = 10;\nfunction _v2() = [_v1(), _v1()];\nmodule _v3() { square(center=_v0(), size=_v2()); }\nmodule _v4() { circle(r=_v1()); }\nmodule _v5 (y=undef) { translate([0, -y, 0]) children(); }\nfunction _v6() = 5;\nmodule _v7() { _v5(y=_v6()) children(); }\nmodule _v8() { _v7() _v4(); }\nmodule _v9 (x=undef) { translate([-x, 0, 0]) children(); }\nmodule _v10() { _v9(x=_v6()) children(); }\nmodule _v11() { _v10() _v8(); }\nmodule _v12() { difference() { _v3(); _v11(); }; }\nfunction _v13() = 0.01;\nfunction _v14() = [_v1(), _v13()];\nmodule _v15() { square(center=_v0(), size=_v14()); }\nmodule _v16 (y=undef) { translate([0, y, 0]) children(); }\nmodule _v17() { _v16(y=_v6()) children(); }\nmodule _v18() { _v17() _v15(); }\nfunction _v19() = [_v13(), _v1()];\nmodule _v20() { square(center=_v0(), size=_v19()); }\nmodule _v21 (x=undef) { translate([x, 0, 0]) children(); }\nmodule _v22() { _v21(x=_v6()) children(); }\nmodule _v23() { _v22() _v20(); }\nmodule _v24() { union() { _v18(); _v23(); }; }\nmodule _v25 () { if($preview) { children(); } }\nmodule _v26() { _v25() _v24(); }\nmodule _v27() { union() { _v12(); _v26(); }; }\nmodule _v28() { _v7() _v27(); }\nmodule _v29() { _v10() _v28(); }\nfunction _v30() = 100;\nmodule _v31() { linear_extrude(center=_v0(), height=_v30()) children(); }\nmodule _v32() { _v31() _v29(); }\n\n_v32();";

const CYLINDER: &str = "function _v0() = true;\nfunction _v1() = 10;\nfunction _v2() = [_v1(), _v1()];\nmodule _v3() { square(center=_v0(), size=_v2()); }\nmodule _v4() { circle(r=_v1()); }\nmodule _v5 (y=undef) { translate([0, -y, 0]) children(); }\nfunction _v6() = 5;\nmodule _v7() { _v5(y=_v6()) children(); }\nmodule _v8() { _v7() _v4(); }\nmodule _v9 (x=undef) { translate([-x, 0, 0]) children(); }\nmodule _v10() { _v9(x=_v6()) children(); }\nmodule _v11() { _v10() _v8(); }\nmodule _v12() { difference() { _v3(); _v11(); }; }\nfunction _v13() = 0.01;\nfunction _v14() = [_v1(), _v13()];\nmodule _v15() { square(center=_v0(), size=_v14()); }\nmodule _v16 (y=undef) { translate([0, y, 0]) children(); }\nmodule _v17() { _v16(y=_v6()) children(); }\nmodule _v18() { _v17() _v15(); }\nfunction _v19() = [_v13(), _v1()];\nmodule _v20() { square(center=_v0(), size=_v19()); }\nmodule _v21 (x=undef) { translate([x, 0, 0]) children(); }\nmodule _v22() { _v21(x=_v6()) children(); }\nmodule _v23() { _v22() _v20(); }\nmodule _v24() { union() { _v18(); _v23(); }; }\nmodule _v25 () { if($preview) { children(); } }\nmodule _v26() { _v25() _v24(); }\nmodule _v27() { union() { _v12(); _v26(); }; }\nmodule _v28() { _v7() _v27(); }\nmodule _v29() { _v10() _v28(); }\nfunction _v30() = 100;\nmodule _v31() { _v21(x=_v30()) children(); }\nmodule _v32() { _v31() _v29(); }\nmodule _v33() { rotate_extrude() _v32(); }\n\n_v33();";

const CUBE: &str = "function _v0() = true;\nfunction _v1() = 10;\nfunction _v2() = [_v1(), _v1()];\nmodule _v3() { square(center=_v0(), size=_v2()); }\nmodule _v4() { circle(r=_v1()); }\nmodule _v5 (y=undef) { translate([0, -y, 0]) children(); }\nfunction _v6() = 5;\nmodule _v7() { _v5(y=_v6()) children(); }\nmodule _v8() { _v7() _v4(); }\nmodule _v9 (x=undef) { translate([-x, 0, 0]) children(); }\nmodule _v10() { _v9(x=_v6()) children(); }\nmodule _v11() { _v10() _v8(); }\nmodule _v12() { difference() { _v3(); _v11(); }; }\nfunction _v13() = 0.01;\nfunction _v14() = [_v1(), _v13()];\nmodule _v15() { square(center=_v0(), size=_v14()); }\nmodule _v16 (y=undef) { translate([0, y, 0]) children(); }\nmodule _v17() { _v16(y=_v6()) children(); }\nmodule _v18() { _v17() _v15(); }\nfunction _v19() = [_v13(), _v1()];\nmodule _v20() { square(center=_v0(), size=_v19()); }\nmodule _v21 (x=undef) { translate([x, 0, 0]) children(); }\nmodule _v22() { _v21(x=_v6()) children(); }\nmodule _v23() { _v22() _v20(); }\nmodule _v24() { union() { _v18(); _v23(); }; }\nmodule _v25 () { if($preview) { children(); } }\nmodule _v26() { _v25() _v24(); }\nmodule _v27() { union() { _v12(); _v26(); }; }\nmodule _v28() { _v7() _v27(); }\nmodule _v29() { _v10() _v28(); }\nfunction _v30() = 100;\nmodule _v31() { linear_extrude(center=_v0(), height=_v30()) children(); }\nmodule _v32() { _v31() _v29(); }\nmodule _v33 (a=0) { rotate([a, 0, 0]) children(); }\nfunction _v34() = 90;\nmodule _v35() { _v33(a=_v34()) children(); }\nmodule _v36() { _v35() _v32(); }\nfunction _v37() = 25;\nmodule _v38() { _v21(x=_v37()) children(); }\nmodule _v39() { _v38() _v36(); }\nfunction _v40() = 1;\nfunction _v41() = 0;\nfunction _v42() = [_v40(), _v41(), _v41()];\nmodule _v43() { mirror(v=_v42()) children(); }\nmodule _v44() { _v43() _v39(); }\nmodule _v45() { union() { _v39(); _v44(); }; }\nfunction _v46() = 50;\nmodule _v47() { linear_extrude(center=_v0(), height=_v46()) children(); }\nmodule _v48() { _v47() _v29(); }\nfunction _v49() = [_v34(), _v41(), _v34()];\nmodule _v50() { rotate(a=_v49()) children(); }\nmodule _v51() { _v50() _v48(); }\nmodule _v52() { _v16(y=_v46()) children(); }\nmodule _v53() { _v52() _v51(); }\nmodule _v54() { union() { _v45(); _v53(); }; }\nfunction _v55() = [_v41(), _v40(), _v41()];\nmodule _v56() { mirror(v=_v55()) children(); }\nmodule _v57() { _v56() _v53(); }\nmodule _v58() { union() { _v54(); _v57(); }; }\n\n_v58();";

const RIGHT: &str = "function _v0() = 100;\nfunction _v1() = 200;\nfunction _v2() = [_v0(), _v1()];\nmodule _v3() { square(size=_v2()); }\nfunction _v4() = 400;\nfunction _v5() = [_v4(), _v4()];\nmodule _v6() { square(size=_v5()); }\nmodule _v7 (a=0) { rotate([0, 0, a]) children(); }\nfunction _v8() = 63.43494882292201;\nmodule _v9() { _v7(a=_v8()) children(); }\nmodule _v10() { _v9() _v6(); }\nmodule _v11() { difference() { _v3(); _v10(); }; }\nmodule _v12 (y=undef) { translate([0, -y, 0]) children(); }\nmodule _v13() { _v12(y=_v0()) children(); }\nmodule _v14() { _v13() _v11(); }\nmodule _v15 (x=undef) { translate([-x, 0, 0]) children(); }\nfunction _v16() = 50;\nmodule _v17() { _v15(x=_v16()) children(); }\nmodule _v18() { _v17() _v14(); }\nfunction _v19() = 1;\nfunction _v20() = 0;\nfunction _v21() = [_v19(), _v20(), _v20()];\nmodule _v22() { mirror(v=_v21()) children(); }\nmodule _v23() { _v22() _v18(); }\n\n_v23();";
