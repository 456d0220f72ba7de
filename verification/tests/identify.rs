use flashgate::identify::{
    DeviceFamily, IdentificationError, TargetSelector, device_family, resolve, STM32F1_IDCODE,
    STM32L4_IDCODE,
};

#[test]
fn resolve_f1_signature() {
    let r = resolve(0x1ba01477);
    assert_eq!(r, Ok(TargetSelector::Stm32F103Rc));
    let t = r.unwrap();
    assert_eq!(t.name(), "STM32F103RC");
    assert!(!t.needs_registration());
}

#[test]
fn resolve_l4_signature() {
    let r = resolve(0x2ba01477);
    assert_eq!(r, Ok(TargetSelector::Stm32L433RcTx));
    let t = r.unwrap();
    assert_eq!(t.name(), "STM32L433RCTx");
    assert!(t.needs_registration());
}

#[test]
fn resolve_matches_named_constants() {
    assert_eq!(resolve(STM32F1_IDCODE), Ok(TargetSelector::Stm32F103Rc));
    assert_eq!(resolve(STM32L4_IDCODE), Ok(TargetSelector::Stm32L433RcTx));
}

#[test]
fn resolve_rejects_everything_outside_the_table() {
    for id in [0u32, 1, 0x412, 0x1ba01478, 0x2ba01476, 0xdeadbeef, u32::MAX] {
        assert_eq!(resolve(id), Err(IdentificationError::Unrecognized(id)));
    }
}

#[test]
fn device_table_known_entries() {
    let expected: [(u32, DeviceFamily, &str); 9] = [
        (0x412, DeviceFamily::F10xLowDensity, "STM32F10xxx Low Density"),
        (0x410, DeviceFamily::F10xMediumDensity, "STM32F10xxx Medium Density"),
        (0x414, DeviceFamily::F10xHighDensity, "STM32F10xxx High Density"),
        (0x430, DeviceFamily::F10xXlDensity, "STM32F10xxx XL Density"),
        (0x418, DeviceFamily::F10xConnectivity, "STM32F10xxx Connectivity"),
        (0x411, DeviceFamily::F2x, "STM32F20xxx / STM32F21xxx"),
        (0x435, DeviceFamily::L43x, "STM32L43xxx / STM32L44xxx"),
        (0x462, DeviceFamily::L45x, "STM32L45xxx / STM32L46xxx"),
        (0x464, DeviceFamily::L41x, "STM32L41xxx / STM32L42xxx"),
    ];
    for (id, family, description) in expected {
        let got = device_family(id);
        assert_eq!(got, Some(family));
        assert_eq!(got.unwrap().description(), description);
    }
}

#[test]
fn device_table_unknown_entries() {
    for id in [0u32, 0x400, 0x413, 0x465, 0x1ba01477, u32::MAX] {
        assert_eq!(device_family(id), None);
    }
}
