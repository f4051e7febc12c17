use compositor_developer::mode::{
    fold, ModeFlags, ModeToken, ALLOW_DCC, FORCE_LINEAR, FORCE_MULTIPLANE, FORCE_TILED, RENDER,
    SESSION_PRIMARY,
};

#[test]
fn fold_empty_is_empty() {
    assert_eq!(fold(&[]).bits(), 0);
    assert!(fold(&[]).is_empty());
    assert_eq!(ModeFlags::default().bits(), 0);
}

#[test]
fn fold_force_last_wins() {
    let a = fold(&[ModeToken::ForceLinear, ModeToken::ForceTiled]);
    assert_eq!(a.bits() & (FORCE_LINEAR | FORCE_TILED), FORCE_TILED);
    let b = fold(&[ModeToken::ForceTiled, ModeToken::Render, ModeToken::ForceLinear]);
    assert_eq!(b.bits() & (FORCE_LINEAR | FORCE_TILED), FORCE_LINEAR);
    assert_eq!(b.bits() & RENDER, RENDER);
    let c = fold(&[ModeToken::ForceLinear, ModeToken::ForceLinear]);
    assert_eq!(c.bits(), FORCE_LINEAR);
}

#[test]
fn fold_multiplane_implies_dcc() {
    let f = fold(&[ModeToken::ForceMultiplane]);
    assert_eq!(f.bits(), FORCE_MULTIPLANE | ALLOW_DCC);
    assert!(f.contains(ModeFlags::from_bits_retain(ALLOW_DCC)));
}

#[test]
fn token_flags_are_distinct_bits() {
    assert_eq!(ModeToken::SessionPrimary.flag().bits(), SESSION_PRIMARY);
    assert_eq!(ModeToken::BlitFallback.flag().bits(), 1 << 17);
    let all = [
        ModeToken::SessionPrimary, ModeToken::Render, ModeToken::NoNegotiateModifiers,
        ModeToken::ForceLinear, ModeToken::ForceTiled, ModeToken::AllowDcc,
        ModeToken::ForceMultiplane, ModeToken::ProbeModifiers, ModeToken::NoPinWgpu,
        ModeToken::NoDirectScanout, ModeToken::ScanoutBridge, ModeToken::UntileBlit,
        ModeToken::DmabufMainDevice, ModeToken::ZeroCopy, ModeToken::LocalRender,
        ModeToken::RenderDiscovery, ModeToken::ScanoutDiscovery, ModeToken::BlitFallback,
    ];
    let mut seen = 0u32;
    for (i, t) in all.iter().enumerate() {
        assert_eq!(t.flag().bits(), 1 << i);
        seen |= t.flag().bits();
    }
    assert_eq!(seen, (1 << 18) - 1);
}

#[test]
fn flags_insert_remove() {
    let mut f = ModeFlags::empty();
    f.insert(ModeFlags::from_bits_retain(RENDER | SESSION_PRIMARY));
    assert_eq!(f.bits(), RENDER | SESSION_PRIMARY);
    f.remove(ModeFlags::from_bits_retain(RENDER));
    assert_eq!(f.bits(), SESSION_PRIMARY);
    assert_eq!(f.union(ModeFlags::from_bits_retain(RENDER)).bits(), RENDER | SESSION_PRIMARY);
}

#[test]
fn fold_twice_over_is_fold() {
    let ts = [ModeToken::ForceTiled, ModeToken::ForceMultiplane, ModeToken::ForceLinear, ModeToken::Render];
    let twice: Vec<ModeToken> = ts.iter().chain(ts.iter()).copied().collect();
    assert_eq!(fold(&twice).bits(), fold(&ts).bits());
    let f = fold(&ts).bits() & (FORCE_LINEAR | FORCE_TILED);
    assert_ne!(f, FORCE_LINEAR | FORCE_TILED);
    assert_eq!(fold(&ts).bits() & ALLOW_DCC, ALLOW_DCC);
}

#[test]
fn fold_bits_against_the_plain_or() {
    let ts = [ModeToken::ForceMultiplane, ModeToken::ForceLinear, ModeToken::Render, ModeToken::ForceTiled];
    let r = fold(&ts).bits();
    let u: u32 = ts.iter().fold(0, |a, t| a | t.flag().bits());
    let mask = !(FORCE_LINEAR | FORCE_TILED | ALLOW_DCC);
    assert_eq!(r & mask, u & mask);
    assert_eq!(r & (FORCE_LINEAR | FORCE_TILED), FORCE_TILED);
    assert_eq!(r & ALLOW_DCC, ALLOW_DCC);
    assert_eq!(fold(&[ModeToken::Render]).bits() & ALLOW_DCC, 0);
    let _ = (FORCE_MULTIPLANE, SESSION_PRIMARY);
}
