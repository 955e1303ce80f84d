use axial_coils::errors::AxialError;
use axial_coils::system::AxialSystem;

fn one(bits_of: f64) -> u64 {
    bits_of.to_bits()
}

#[test]
fn insert_then_duplicate_fails() {
    let mut sys = AxialSystem::new();
    let r1 = sys.add_loop("loop1".to_string(), one(1.0), one(0.0), one(1.0));
    assert_eq!(r1, Ok(()));
    let before = sys.view("loop1").unwrap();
    let r2 = sys.add_loop("loop1".to_string(), one(2.0), one(1.0), one(1.0));
    assert_eq!(r2, Err(AxialError::KeyDuplicateError("loop1".to_string())));
    // the first insert's source is unchanged
    assert_eq!(sys.view("loop1").unwrap(), before);
    assert_eq!(sys.source_count(), 1);
}

#[test]
fn duplicate_across_kinds_fails() {
    let mut sys = AxialSystem::new();
    assert_eq!(sys.add_annular("a".to_string(), one(1.0), one(0.1), one(0.0), one(1.0)), Ok(()));
    let r = sys.add_coil("a".to_string(), one(1.0), one(0.1), one(2.0), one(0.0), one(1.0));
    assert_eq!(r, Err(AxialError::KeyDuplicateError("a".to_string())));
}

#[test]
fn reserved_words_rejected_for_every_kind() {
    let mut sys = AxialSystem::new();
    for word in ["*", "COIL", "LOOP", "ANNULAR", "SOLENOID"] {
        let r = sys.add_loop(word.to_string(), one(1.0), one(0.0), one(1.0));
        assert_eq!(r, Err(AxialError::ReservedWordError(word.to_string())));
        let r = sys.add_annular(word.to_string(), one(1.0), one(0.1), one(0.0), one(1.0));
        assert_eq!(r, Err(AxialError::ReservedWordError(word.to_string())));
        let r = sys.add_solenoid(word.to_string(), one(1.0), one(5.0), one(0.0), one(1.0));
        assert_eq!(r, Err(AxialError::ReservedWordError(word.to_string())));
        let r = sys.add_coil(word.to_string(), one(1.0), one(0.1), one(5.0), one(0.0), one(1.0));
        assert_eq!(r, Err(AxialError::ReservedWordError(word.to_string())));
    }
    assert_eq!(sys.source_count(), 0);
}

#[test]
fn missing_key_on_modify_view_lookup() {
    let mut sys = AxialSystem::new();
    assert_eq!(sys.add_loop("here".to_string(), one(1.0), one(0.0), one(1.0)), Ok(()));
    let missing = Err(AxialError::KeyMissingError("gone".to_string()));
    assert_eq!(sys.modify_radius("gone", one(2.0)), missing);
    assert_eq!(sys.modify_current("gone", one(2.0)), missing);
    assert_eq!(sys.modify_thickness("gone", one(2.0)), missing);
    assert_eq!(sys.modify_length("gone", one(2.0)), missing);
    assert_eq!(sys.modify_position("gone", one(2.0)), missing);
    assert!(matches!(sys.view("gone"), Err(AxialError::KeyMissingError(_))));
    assert!(matches!(sys.lookup("gone"), Err(AxialError::KeyMissingError(_))));
}

#[test]
fn modify_on_reserved_id_is_missing() {
    // Reserved words can never key an entry, so a modification that names one
    // is a plain missing-key failure.
    let mut sys = AxialSystem::new();
    assert_eq!(sys.add_loop("l".to_string(), one(1.0), one(0.0), one(1.0)), Ok(()));
    assert_eq!(
        sys.modify_radius("LOOP", one(2.0)),
        Err(AxialError::KeyMissingError("LOOP".to_string()))
    );
    assert_eq!(
        sys.modify_radius("*", one(2.0)),
        Err(AxialError::KeyMissingError("*".to_string()))
    );
}

#[test]
fn thickness_incompatible_on_loop_and_solenoid() {
    let mut sys = AxialSystem::new();
    assert_eq!(sys.add_loop("l".to_string(), one(1.0), one(0.0), one(1.0)), Ok(()));
    assert_eq!(sys.add_solenoid("s".to_string(), one(1.0), one(5.0), one(0.0), one(1.0)), Ok(()));
    assert_eq!(
        sys.modify_thickness("l", one(0.5)),
        Err(AxialError::IncompatiblePrimitiveError("thickness".to_string(), "LOOP".to_string()))
    );
    assert_eq!(
        sys.modify_thickness("s", one(0.5)),
        Err(AxialError::IncompatiblePrimitiveError(
            "thickness".to_string(),
            "SOLENOID".to_string()
        ))
    );
}

#[test]
fn thickness_compatible_on_annular_and_coil() {
    let mut sys = AxialSystem::new();
    assert_eq!(sys.add_annular("a".to_string(), one(1.0), one(0.1), one(0.0), one(1.0)), Ok(()));
    assert_eq!(
        sys.add_coil("c".to_string(), one(1.0), one(0.1), one(5.0), one(0.0), one(1.0)),
        Ok(())
    );
    let before_a = sys.view("a").unwrap();
    assert_eq!(sys.modify_thickness("a", one(2.5)), Ok(()));
    assert_eq!(sys.modify_thickness("c", one(2.5)), Ok(()));
    let after_a = sys.view("a").unwrap();
    assert_ne!(before_a, after_a);
    // the new thickness's bit pattern appears in the rendered summary
    let hex = format!("0x{:016x}", 2.5f64.to_bits());
    assert!(after_a.contains(&hex));
    assert!(sys.view("c").unwrap().contains(&hex));
}

#[test]
fn length_incompatible_on_loop_and_annular() {
    let mut sys = AxialSystem::new();
    assert_eq!(sys.add_loop("l".to_string(), one(1.0), one(0.0), one(1.0)), Ok(()));
    assert_eq!(sys.add_annular("a".to_string(), one(1.0), one(0.1), one(0.0), one(1.0)), Ok(()));
    assert_eq!(
        sys.modify_length("l", one(2.0)),
        Err(AxialError::IncompatiblePrimitiveError("length".to_string(), "LOOP".to_string()))
    );
    assert_eq!(
        sys.modify_length("a", one(2.0)),
        Err(AxialError::IncompatiblePrimitiveError("length".to_string(), "ANNULAR".to_string()))
    );
}

#[test]
fn radius_current_position_modifiable_on_every_kind() {
    let mut sys = AxialSystem::new();
    assert_eq!(sys.add_loop("l".to_string(), one(1.0), one(0.0), one(1.0)), Ok(()));
    assert_eq!(sys.add_annular("a".to_string(), one(1.0), one(0.1), one(0.0), one(1.0)), Ok(()));
    assert_eq!(sys.add_solenoid("s".to_string(), one(1.0), one(5.0), one(0.0), one(1.0)), Ok(()));
    assert_eq!(
        sys.add_coil("c".to_string(), one(1.0), one(0.1), one(5.0), one(0.0), one(1.0)),
        Ok(())
    );
    for id in ["l", "a", "s", "c"] {
        assert_eq!(sys.modify_radius(id, one(3.0)), Ok(()));
        assert_eq!(sys.modify_current(id, one(-2.0)), Ok(()));
        assert_eq!(sys.modify_position(id, one(7.0)), Ok(()));
    }
    let hex = format!("0x{:016x}", (-2.0f64).to_bits());
    for id in ["l", "a", "s", "c"] {
        assert!(sys.view(id).unwrap().contains(&hex));
    }
}

#[test]
fn error_messages_render_exactly() {
    assert_eq!(
        AxialError::KeyDuplicateError("x".to_string()).message(),
        "Supplied already in objects: x."
    );
    assert_eq!(
        AxialError::KeyMissingError("x".to_string()).message(),
        "Could not find object ID: x."
    );
    assert_eq!(
        AxialError::ReservedWordError("COIL".to_string()).message(),
        "Supplied ID is a reserved keyword: COIL."
    );
    assert_eq!(
        AxialError::IncompatiblePrimitiveError("thickness".to_string(), "LOOP".to_string())
            .message(),
        "Can not perform modification thickness on primitive LOOP."
    );
}

#[test]
fn remove_frees_the_id_and_keeps_order() {
    let mut sys = AxialSystem::new();
    assert_eq!(sys.add_loop("a".to_string(), one(1.0), one(0.0), one(1.0)), Ok(()));
    assert_eq!(sys.add_loop("b".to_string(), one(2.0), one(0.0), one(1.0)), Ok(()));
    assert_eq!(sys.add_loop("c".to_string(), one(3.0), one(0.0), one(1.0)), Ok(()));
    assert_eq!(sys.remove("b"), Ok(()));
    assert_eq!(sys.source_count(), 2);
    assert_eq!(sys.source_at(0).id, "a");
    assert_eq!(sys.source_at(1).id, "c");
    assert_eq!(sys.remove("b"), Err(AxialError::KeyMissingError("b".to_string())));
    // the removed id can be used again
    assert_eq!(sys.add_loop("b".to_string(), one(9.0), one(0.0), one(1.0)), Ok(()));
    assert_eq!(sys.source_count(), 3);
}
