use colorspaces::alpha::Alpha;
use colorspaces::color::{Color, Components, ConversionError, FromColor};
use colorspaces::spaces::lab::{Lab, LAB};
use colorspaces::spaces::xyz::{Xyz, Xyza, XYZ};
use colorspaces::spaces::yxy::{Yxy, YXY};
use colorspaces::white_point::degree10::{D50Degree10, D55Degree10, D65Degree10, D75Degree10};
use colorspaces::white_point::{
    WhitePoint, TRISTIMULUS_SCALE, A, B, C, D50, D55, D65, D75, E, F11, F2, F7,
};

#[test]
fn d65_tristimulus_lookup() {
    assert_eq!(D65::tristimulus(), [95047, 100000, 108883]);
    let t = D65::tristimulus();
    let scale = TRISTIMULUS_SCALE as f64;
    let (x, y, z) = (t[0] as f64 / scale, t[1] as f64 / scale, t[2] as f64 / scale);
    assert!((x - 0.95047).abs() < 1e-12);
    assert!((y - 1.0).abs() < 1e-12);
    assert!((z - 1.08883).abs() < 1e-12);
}

#[test]
fn illuminant_table() {
    assert_eq!(A::tristimulus(), [109850, 100000, 35585]);
    assert_eq!(B::tristimulus(), [99072, 100000, 85223]);
    assert_eq!(C::tristimulus(), [98074, 100000, 118232]);
    assert_eq!(D50::tristimulus(), [96422, 100000, 82521]);
    assert_eq!(D55::tristimulus(), [95682, 100000, 92149]);
    assert_eq!(D75::tristimulus(), [94972, 100000, 122638]);
    assert_eq!(E::tristimulus(), [100000, 100000, 100000]);
    assert_eq!(F2::tristimulus(), [99186, 100000, 67393]);
    assert_eq!(F7::tristimulus(), [95041, 100000, 108747]);
    assert_eq!(F11::tristimulus(), [100962, 100000, 64350]);
    assert_eq!(D50Degree10::tristimulus(), [96720, 100000, 81430]);
    assert_eq!(D55Degree10::tristimulus(), [95800, 100000, 90930]);
    assert_eq!(D65Degree10::tristimulus(), [94810, 100000, 107300]);
    assert_eq!(D75Degree10::tristimulus(), [94416, 100000, 120640]);
}

#[test]
fn new_defaults_to_d65_and_keeps_order() {
    let c: Xyz<u8, D65> = Xyz::new(1, 2, 3);
    assert_eq!(*c.channels(), [1, 2, 3]);
    let d: Yxy<u16, D50> = Yxy::with_wp(4, 5, 6);
    assert_eq!(*d.channels(), [4, 5, 6]);
    assert_eq!(d.as_components(), YXY { x: 4, y: 5, luma: 6 });
}

#[test]
fn from_channels_round_trip() {
    let c: Xyz<i32, E> = Xyz::from_channels([-7, 0, 9]);
    assert_eq!(*c.channels(), [-7, 0, 9]);
}

#[test]
fn field_write_is_seen_by_container() {
    let mut c: Xyz<u32, D65> = Xyz::new(10, 20, 30);
    *c.x_mut() = 11;
    *c.y_mut() = 21;
    *c.z_mut() = 31;
    assert_eq!(*c.channels(), [11, 21, 31]);

    let mut l: Lab<i16, D50> = Lab::with_wp(50, -10, 20);
    *l.a_mut() = -128;
    assert_eq!(*l.channels(), [50, -128, 20]);
    *l.l_mut() = 100;
    *l.b_mut() = 127;
    assert_eq!(l.as_components(), LAB { l: 100, a: -128, b: 127 });

    let mut y: Yxy<u8, D65> = Yxy::new(1, 2, 3);
    *y.luma_mut() = 255;
    assert_eq!(y.channels()[2], 255);
}

#[test]
fn container_write_is_seen_by_view() {
    let mut c: Xyz<u64, D65> = Xyz::new(1, 2, 3);
    c.channels_mut()[1] = 99;
    assert_eq!(c.as_components(), XYZ { x: 1, y: 99, z: 3 });
}

#[test]
fn set_components_fills_container_in_order() {
    let mut c: Yxy<i64, D65> = Yxy::new(0, 0, 0);
    c.set_components(YXY { x: 3, y: 4, luma: 5 });
    assert_eq!(*c.channels(), [3, 4, 5]);
}

#[test]
fn from_components_struct() {
    let c: Xyz<u8, F2> = Xyz::from(XYZ { x: 7, y: 8, z: 9 });
    assert_eq!(*c.channels(), [7, 8, 9]);
}

#[test]
fn alpha_forwards_component_view() {
    let mut a: Xyza<u8, D65> = Alpha::new(1, 2, 3, 200);
    assert_eq!(a.alpha, 200);
    assert_eq!(a.as_components(), XYZ { x: 1, y: 2, z: 3 });
    a.set_components(XYZ { x: 4, y: 5, z: 6 });
    assert_eq!(*a.color.channels(), [4, 5, 6]);
    assert_eq!(a.alpha, 200);
    *a.color.z_mut() = 60;
    assert_eq!(a.as_components().z, 60);

    let b: Alpha<Lab<u16, D75>> = Alpha::with_wp(9, 8, 7, 6);
    assert_eq!(*b.color.channels(), [9, 8, 7]);
    assert_eq!(b.alpha, 6);

    let c = Alpha::from_color(Yxy::<u8, E>::with_wp(1, 1, 1), 0);
    assert_eq!(c.alpha, 0);
}

#[test]
fn map_channels_keeps_order() {
    let c: Xyz<u8, D65> = Xyz::new(1, 2, 250);
    let d: Xyz<u16, D65> = c.map_channels(|v: u8| v as u16 * 3);
    assert_eq!(*d.channels(), [3, 6, 750]);
}

#[test]
fn lab_conversions_are_unsupported() {
    let xyz: Xyz<u8, D65> = Xyz::new(1, 2, 3);
    let yxy: Yxy<u8, D65> = Yxy::new(1, 2, 3);
    assert_eq!(Lab::from_xyz(xyz).err(), Some(ConversionError::Unsupported));
    assert_eq!(Lab::from_yxy(yxy).err(), Some(ConversionError::Unsupported));
    assert_eq!(Lab::<u8, D65>::try_default().err(), Some(ConversionError::Unsupported));
}

#[test]
fn copies_are_independent() {
    let a: Xyz<u8, D65> = Xyz::new(1, 2, 3);
    let mut b = a;
    *b.x_mut() = 9;
    assert_eq!(*a.channels(), [1, 2, 3]);
    assert_eq!(*b.channels(), [9, 2, 3]);
}
