use compositor_developer::experimental::{
    aggregate, bit_for, get, raw, unknown, ALLOW_DCC, FORCE_LINEAR, FORCE_MULTIPLANE, NO_PIN_WGPU_NODE,
};

#[test]
fn experimental_flags_aggregate() {
    let list = vec![
        "gpu_force_linear".to_string(),
        "gpu_bogus".to_string(),
        "gpu_no_pin_wgpu_node".to_string(),
        "GPU_FORCE_TILED".to_string(),
    ];
    let e = aggregate(list.clone());
    assert_eq!(get(&e).bits(), FORCE_LINEAR | NO_PIN_WGPU_NODE);
    assert_eq!(raw(&e), &list[..]);
    assert_eq!(unknown(&e), &["gpu_bogus".to_string(), "GPU_FORCE_TILED".to_string()][..]);
}

#[test]
fn experimental_multiplane_brings_dcc() {
    let e = aggregate(vec!["gpu_force_multiplane".to_string()]);
    assert_eq!(get(&e).bits(), FORCE_MULTIPLANE | ALLOW_DCC);
    let none = aggregate(vec![]);
    assert_eq!(get(&none).bits(), 0);
    assert!(unknown(&none).is_empty());
}

#[test]
fn experimental_bit_names() {
    assert_eq!(bit_for("gpu_allow_dcc").map(|b| b.bits()), Some(ALLOW_DCC));
    assert_eq!(bit_for("gpu_negotiate_formats").map(|b| b.bits()), Some(0x8));
    assert!(bit_for("gpu_allow_dcc ").is_none());
    assert!(bit_for("").is_none());
}
