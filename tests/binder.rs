use layer_shika::binder::{version_range, GlobalBinder};
use layer_shika::errors::{BindFailure, GlobalFailure, GlobalKind, LayerShikaError};

/// A registry that advertises some interfaces, each at a version.
struct Registry(Vec<(GlobalKind, u32)>);

impl Registry {
    fn full() -> Registry {
        Registry(vec![
            (GlobalKind::Compositor, 6),
            (GlobalKind::Output, 4),
            (GlobalKind::LayerShell, 4),
            (GlobalKind::Seat, 9),
        ])
    }

    fn without(kind: GlobalKind) -> Registry {
        let mut r = Registry::full();
        r.0.retain(|(k, _)| *k != kind);
        r
    }

    fn bind(&self, kind: GlobalKind) -> Result<(), BindFailure> {
        let (low, _) = version_range(kind);
        match self.0.iter().find(|(k, _)| *k == kind) {
            None => Err(BindFailure::NotPresent),
            Some((_, v)) if *v < low => Err(BindFailure::UnsupportedVersion),
            Some(_) => Ok(()),
        }
    }
}

fn run(registry: &Registry) -> Result<Vec<GlobalKind>, LayerShikaError> {
    let mut binder = GlobalBinder::new();
    let mut bound = Vec::new();
    while let Some(kind) = binder.next_required() {
        binder = binder.record(registry.bind(kind))?;
        bound.push(kind);
    }
    assert!(binder.is_complete());
    Ok(bound)
}

#[test]
fn all_globals_present_binds_all_in_order() {
    let bound = run(&Registry::full()).unwrap();
    assert_eq!(
        bound,
        vec![GlobalKind::Compositor, GlobalKind::Output, GlobalKind::LayerShell, GlobalKind::Seat]
    );
}

#[test]
fn each_missing_global_fails_initialization() {
    for kind in [GlobalKind::Compositor, GlobalKind::Output, GlobalKind::LayerShell, GlobalKind::Seat]
    {
        for _ in 0..2 {
            match run(&Registry::without(kind)) {
                Err(LayerShikaError::GlobalInitialization(GlobalFailure::Bind(k, f))) => {
                    assert_eq!(k, kind);
                    assert_eq!(f, BindFailure::NotPresent);
                }
                other => panic!("unexpected outcome {:?}", other),
            }
        }
    }
}

#[test]
fn first_missing_global_is_reported() {
    let registry = Registry(vec![(GlobalKind::Compositor, 1)]);
    match run(&registry) {
        Err(LayerShikaError::GlobalInitialization(GlobalFailure::Bind(k, _))) => {
            assert_eq!(k, GlobalKind::Output)
        }
        other => panic!("unexpected outcome {:?}", other),
    }
}

#[test]
fn too_old_global_fails_with_version_cause() {
    let mut registry = Registry::full();
    registry.0[3].1 = 0;
    match run(&registry) {
        Err(LayerShikaError::GlobalInitialization(GlobalFailure::Bind(k, f))) => {
            assert_eq!(k, GlobalKind::Seat);
            assert_eq!(f, BindFailure::UnsupportedVersion);
        }
        other => panic!("unexpected outcome {:?}", other),
    }
}

#[test]
fn every_global_is_bound_at_version_one() {
    for kind in [GlobalKind::Compositor, GlobalKind::Output, GlobalKind::LayerShell, GlobalKind::Seat]
    {
        assert_eq!(version_range(kind), (1, 1));
    }
}
