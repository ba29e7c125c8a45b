use cargo_kubos::targets::{chosen_target, supported_targets, target_converter};

#[test]
fn resolves_x86_native() {
    assert_eq!(
        target_converter("x86-linux-native").ok(),
        Some(String::from("x86_64-unknown-linux-gnu"))
    );
}

#[test]
fn resolves_beaglebone() {
    assert_eq!(
        target_converter("kubos-linux-beaglebone-gcc").ok(),
        Some(String::from("arm-unknown-linux-gnueabihf"))
    );
}

#[test]
fn resolves_pumpkin_mbm2() {
    assert_eq!(
        target_converter("kubos-linux-pumpkin-mbm2-gcc").ok(),
        Some(String::from("arm-unknown-linux-gnueabihf"))
    );
}

#[test]
fn resolves_isis() {
    assert_eq!(
        target_converter("kubos-linux-isis-gcc").ok(),
        Some(String::from("armv5te-unknown-linux-gnueabi"))
    );
}

#[test]
fn unknown_target_is_rejected_with_listing() {
    let err = match target_converter("msp430") {
        Ok(_) => panic!("an unsupported target must not resolve"),
        Err(e) => e,
    };
    assert_eq!(err.requested, "msp430");
    let msg = err.message();
    assert_eq!(
        msg,
        "Target 'msp430' not supported for cargo/yotta builds\
         \nCurrently supported targets are:\
         \nx86-linux-native\
         \nkubos-linux-beaglebone-gcc\
         \nkubos-linux-pumpkin-mbm2-gcc\
         \nkubos-linux-isis-gcc"
    );
}

#[test]
fn empty_target_is_rejected() {
    assert!(target_converter("").is_err());
}

#[test]
fn near_miss_target_is_rejected() {
    assert!(target_converter("x86-linux-native ").is_err());
    assert!(target_converter("X86-LINUX-NATIVE").is_err());
}

#[test]
fn omitted_target_defaults_to_native_x86() {
    assert_eq!(chosen_target(None), "x86-linux-native");
    assert_eq!(
        target_converter(&chosen_target(None)).ok(),
        Some(String::from("x86_64-unknown-linux-gnu"))
    );
}

#[test]
fn requested_target_is_kept() {
    assert_eq!(
        chosen_target(Some(String::from("kubos-linux-isis-gcc"))),
        "kubos-linux-isis-gcc"
    );
}

#[test]
fn supported_listing_is_complete() {
    let listed = supported_targets();
    assert_eq!(
        listed,
        vec![
            String::from("x86-linux-native"),
            String::from("kubos-linux-beaglebone-gcc"),
            String::from("kubos-linux-pumpkin-mbm2-gcc"),
            String::from("kubos-linux-isis-gcc"),
        ]
    );
    for id in &listed {
        assert!(target_converter(id).is_ok());
    }
}
