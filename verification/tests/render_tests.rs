use axial_coils::errors::AxialError;
use axial_coils::orientation::{Axis, from_intrinsic, to_intrinsic};
use axial_coils::scalar::scalar_hex;
use axial_coils::system::AxialSystem;

fn one(bits_of: f64) -> u64 {
    bits_of.to_bits()
}

#[test]
fn scalar_hex_renders_bit_patterns() {
    assert_eq!(scalar_hex(1.0f64.to_bits()), "0x3ff0000000000000");
    assert_eq!(scalar_hex(0.0f64.to_bits()), "0x0000000000000000");
    assert_eq!(scalar_hex((-1.0f64).to_bits()), "0xbff0000000000000");
    assert_eq!(scalar_hex(2.5f64.to_bits()), "0x4004000000000000");
    assert_eq!(scalar_hex(u64::MAX), "0xffffffffffffffff");
    assert_eq!(scalar_hex(0x0123456789abcdef), "0x0123456789abcdef");
}

#[test]
fn view_renders_loop_summary() {
    let mut sys = AxialSystem::new();
    assert_eq!(sys.add_loop("loop1".to_string(), one(1.0), one(0.0), one(1.0)), Ok(()));
    assert_eq!(
        sys.view("loop1").unwrap(),
        "Ideal Wire: id=loop1,radius=0x3ff0000000000000,axial position=0x0000000000000000,\
         current=0x3ff0000000000000 "
    );
}

#[test]
fn view_renders_each_kind() {
    let mut sys = AxialSystem::new();
    assert_eq!(sys.add_annular("a".to_string(), one(1.0), one(0.5), one(0.0), one(2.0)), Ok(()));
    assert_eq!(sys.add_solenoid("s".to_string(), one(1.0), one(4.0), one(0.0), one(2.0)), Ok(()));
    assert_eq!(
        sys.add_coil("c".to_string(), one(1.0), one(0.5), one(4.0), one(0.0), one(2.0)),
        Ok(())
    );
    assert!(sys.view("a").unwrap().starts_with("ThinAnnular: id=a,radius="));
    assert!(sys.view("s").unwrap().starts_with("ThinSolenoid: id=s,radius="));
    assert!(sys.view("c").unwrap().starts_with("CoilSolenoid: id=c,radius="));
    assert!(sys.view("a").unwrap().contains(",thickness=0x3fe0000000000000"));
    assert!(sys.view("s").unwrap().contains(",length=0x4010000000000000"));
    assert!(sys.view("c").unwrap().contains(",length=0x4010000000000000,thickness=0x3fe0000000000000"));
}

#[test]
fn describe_system_keeps_insertion_order() {
    let mut sys = AxialSystem::new();
    assert_eq!(sys.add_loop("first".to_string(), one(1.0), one(0.0), one(1.0)), Ok(()));
    assert_eq!(sys.add_solenoid("second".to_string(), one(1.0), one(4.0), one(0.0), one(1.0)), Ok(()));
    let text = sys.describe_system();
    let lines: Vec<&str> = text.lines().collect();
    assert_eq!(lines.len(), 2);
    assert!(lines[0].starts_with("Ideal Wire: id=first,"));
    assert!(lines[1].starts_with("ThinSolenoid: id=second,"));
    // a failed insert leaves the enumeration unchanged
    let r = sys.add_loop("first".to_string(), one(9.0), one(9.0), one(9.0));
    assert_eq!(r, Err(AxialError::KeyDuplicateError("first".to_string())));
    assert_eq!(sys.describe_system(), text);
}

#[test]
fn empty_system_describes_to_nothing() {
    let sys = AxialSystem::new();
    assert_eq!(sys.describe_system(), "");
    assert_eq!(sys.source_count(), 0);
}

#[test]
fn default_is_empty_and_z_aligned() {
    let sys = AxialSystem::default();
    assert_eq!(sys.source_count(), 0);
    assert_eq!(sys.orientation(), Axis::Z);
}

#[test]
fn transforms_set_absolute_alignment() {
    let mut sys = AxialSystem::new();
    assert_eq!(sys.orientation(), Axis::Z);
    sys.transform_x();
    assert_eq!(sys.orientation(), Axis::X);
    sys.transform_x();
    assert_eq!(sys.orientation(), Axis::X);
    sys.transform_y();
    assert_eq!(sys.orientation(), Axis::Y);
    sys.transform_z();
    assert_eq!(sys.orientation(), Axis::Z);
}

#[test]
fn intrinsic_mapping_permutes_and_round_trips() {
    let d = 3.25f64.to_bits();
    let a = 1.5f64.to_bits();
    let b = (-7.0f64).to_bits();
    // the aligned axis's coordinate comes first
    assert_eq!(to_intrinsic(Axis::X, (d, a, b)), (d, a, b));
    assert_eq!(to_intrinsic(Axis::Y, (a, d, b)), (d, b, a));
    assert_eq!(to_intrinsic(Axis::Z, (a, b, d)), (d, a, b));
    // a point on the aligned axis presents the same intrinsic query under
    // every alignment
    let zero = 0.0f64.to_bits();
    assert_eq!(
        to_intrinsic(Axis::Z, (zero, zero, d)),
        to_intrinsic(Axis::X, (d, zero, zero))
    );
    // the placement inverts the mapping
    for axis in [Axis::X, Axis::Y, Axis::Z] {
        assert_eq!(from_intrinsic(axis, to_intrinsic(axis, (a, b, d))), (a, b, d));
    }
}

#[test]
fn source_at_returns_entries_in_order() {
    let mut sys = AxialSystem::new();
    assert_eq!(sys.add_loop("one".to_string(), one(1.0), one(0.0), one(1.0)), Ok(()));
    assert_eq!(sys.add_coil("two".to_string(), one(1.0), one(0.5), one(4.0), one(0.0), one(1.0)), Ok(()));
    assert_eq!(sys.source_count(), 2);
    assert_eq!(sys.source_at(0).id, "one");
    assert_eq!(sys.source_at(1).id, "two");
    assert_eq!(sys.source_at(0).current, one(1.0));
}
