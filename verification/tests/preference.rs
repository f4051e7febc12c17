use compositor_developer::preference::{
    normalize, output_active, set_active, set_default, set_layout, upsert_output, DefaultMode,
    Ime, KeyboardLayout, LayoutPlacement, LayoutSource, ModeRequest, OutputProfile, Preference,
    ONE_F64_BITS,
};

fn ident(p: &OutputProfile) -> Option<&str> {
    p.identity.as_deref()
}

#[test]
fn preference_defaults() {
    let p = Preference::default();
    assert_eq!(f64::from_bits(p.cursor_sensitivity_bits), 1.0);
    assert_eq!(p.cursor_sensitivity_bits, ONE_F64_BITS);
    assert!(p.input_natural_scroll);
    assert!(p.outputs.is_empty());
    assert_eq!(p.keyboard.source, LayoutSource::Env);
    assert_eq!(p.keyboard.layout, "us");
    let k = KeyboardLayout::default();
    assert_eq!(k.variant, "");
    let ime = Ime::default();
    assert_eq!(ime.program, "");
    assert!(ime.args.is_empty());
    let o = OutputProfile::default();
    assert!(o.identity.is_none() && o.mode.is_none() && o.active);
}

#[test]
fn normalize_clamps_low_refresh() {
    let mut p = Preference::default();
    p.outputs_default_mode = Some(DefaultMode { width: 1920, height: 1080, refresh_mhz: 60 });
    let n = normalize(p);
    assert_eq!(n.outputs_default_mode, Some(DefaultMode { width: 1920, height: 1080, refresh_mhz: 30_000 }));
    let mut q = Preference::default();
    q.outputs_default_mode = Some(DefaultMode { width: 800, height: 600, refresh_mhz: 20_000 });
    assert_eq!(normalize(q).outputs_default_mode.unwrap().refresh_mhz, 20_000);
    assert!(normalize(Preference::default()).outputs_default_mode.is_none());
}

#[test]
fn output_profiles_upsert_and_activity() {
    let mut v: Vec<OutputProfile> = Vec::new();
    assert!(output_active(&v, "Dell U2720Q 1"));
    upsert_output(&mut v, "Dell U2720Q 1", ModeRequest::Advertised { width: 3840, height: 2160, refresh_mhz: 60000 });
    assert_eq!(v.len(), 1);
    assert!(v[0].active);
    set_active(&mut v, "Dell U2720Q 1", false);
    assert!(!output_active(&v, "Dell U2720Q 1"));
    // The mode survives the activity change, and an upsert keeps the flag.
    assert!(matches!(v[0].mode, Some(ModeRequest::Advertised { width: 3840, .. })));
    upsert_output(&mut v, "Dell U2720Q 1", ModeRequest::Modeline("x".to_string()));
    assert!(!v[0].active);
    assert!(matches!(v[0].mode, Some(ModeRequest::Modeline(_))));
    set_active(&mut v, "LG 2", false);
    assert_eq!(v.len(), 2);
    assert_eq!(ident(&v[1]), Some("LG 2"));
    assert!(v[1].mode.is_none());
    assert!(output_active(&v, "Other"));
}

#[test]
fn set_default_moves_to_front() {
    let mut v: Vec<OutputProfile> = Vec::new();
    upsert_output(&mut v, "A", ModeRequest::Cvt { width: 10, height: 10, refresh_bits: 60.0f64.to_bits() });
    set_active(&mut v, "B", true);
    set_default(&mut v, "B");
    assert_eq!(v.iter().map(ident).collect::<Vec<_>>(), vec![Some("B"), Some("A")]);
    set_default(&mut v, "C");
    assert_eq!(v.iter().map(ident).collect::<Vec<_>>(), vec![Some("C"), Some("B"), Some("A")]);
    assert!(v[0].mode.is_none() && v[0].active);
    set_default(&mut v, "A");
    assert_eq!(v.iter().map(ident).collect::<Vec<_>>(), vec![Some("A"), Some("C"), Some("B")]);
    assert!(matches!(v[0].mode, Some(ModeRequest::Cvt { width: 10, .. })));
}

#[test]
fn set_layout_replaces() {
    let mut p = Preference::default();
    set_layout(&mut p, vec![LayoutPlacement {
        id: 1,
        identity: "A".to_string(),
        x_bits: 0f32.to_bits(),
        y_bits: 0f32.to_bits(),
        w_bits: 120f32.to_bits(),
        h_bits: 120f32.to_bits(),
    }]);
    assert_eq!(p.outputs_layout.len(), 1);
    set_layout(&mut p, vec![]);
    assert!(p.outputs_layout.is_empty());
}
