use layer_shika::egl_context::{select_config, EGLContext, EGLContextBuilder};
use layer_shika::errors::{EglFailure, EglStage, InputError, LayerShikaError};
use layer_shika::geometry::PhysicalSize;

fn complete() -> EGLContextBuilder {
    EGLContext::builder()
        .with_display_id(0x1000)
        .with_surface_id(0x2000)
        .with_size(PhysicalSize::new(1, 1))
}

fn input_error(b: EGLContextBuilder) -> InputError {
    match b.build() {
        Err(LayerShikaError::InvalidInput(e)) => e,
        Err(e) => panic!("unexpected error {:?}", e),
        Ok(_) => panic!("request accepted"),
    }
}

#[test]
fn missing_inputs_are_reported_in_order() {
    assert_eq!(input_error(EGLContextBuilder::new()), InputError::DisplayIdRequired);
    assert_eq!(
        input_error(EGLContextBuilder::new().with_display_id(1)),
        InputError::SurfaceIdRequired
    );
    assert_eq!(
        input_error(EGLContextBuilder::new().with_display_id(1).with_surface_id(2)),
        InputError::SizeRequired
    );
}

#[test]
fn null_handles_are_rejected() {
    assert_eq!(input_error(complete().with_display_id(0)), InputError::NullDisplayHandle);
    assert_eq!(input_error(complete().with_surface_id(0)), InputError::NullSurfaceHandle);
}

#[test]
fn zero_sizes_are_rejected() {
    assert_eq!(input_error(complete().with_size(PhysicalSize::new(0, 5))), InputError::ZeroWidth);
    assert_eq!(input_error(complete().with_size(PhysicalSize::new(5, 0))), InputError::ZeroHeight);
    assert_eq!(input_error(complete().with_size(PhysicalSize::new(0, 0))), InputError::ZeroWidth);
}

#[test]
fn valid_request_carries_inputs() {
    let q = complete().with_size(PhysicalSize::new(300, 30)).build().unwrap();
    assert_eq!(q.display_handle, 0x1000);
    assert_eq!(q.surface_handle, 0x2000);
    assert_eq!(q.size, PhysicalSize::new(300, 30));
    let ctx = EGLContext::activated(&q);
    assert!(!ctx.needs_activation());
    assert_eq!(ctx.drawable_size(), PhysicalSize::new(300, 30));
}

#[test]
fn first_config_is_selected() {
    assert_eq!(select_config(Some(3u8)).unwrap(), 3);
    assert!(matches!(
        select_config::<u8>(None),
        Err(LayerShikaError::EGLContextCreation(EglFailure::NoCompatibleConfig))
    ));
}

#[test]
fn resize_leaves_context_current_and_sized() {
    let q = complete().build().unwrap();
    let mut ctx = EGLContext::activated(&q);
    ctx.released();
    assert!(ctx.needs_activation());
    assert!(ctx.resize(640, 48, Ok(())).is_ok());
    assert!(!ctx.needs_activation());
    assert_eq!(ctx.drawable_size(), PhysicalSize::new(640, 48));
}

#[test]
fn resize_rejects_zero_and_keeps_state() {
    let q = complete().build().unwrap();
    let mut ctx = EGLContext::activated(&q);
    assert!(matches!(
        ctx.resize(0, 10, Ok(())),
        Err(LayerShikaError::InvalidInput(InputError::ZeroWidth))
    ));
    assert!(matches!(
        ctx.resize(10, 0, Ok(())),
        Err(LayerShikaError::InvalidInput(InputError::ZeroHeight))
    ));
    assert_eq!(ctx.drawable_size(), PhysicalSize::new(1, 1));
}

#[test]
fn failed_activation_fails_resize() {
    let q = complete().build().unwrap();
    let mut ctx = EGLContext::activated(&q);
    ctx.released();
    match ctx.resize(10, 10, Err("lost".to_string())) {
        Err(LayerShikaError::EGLContextCreation(EglFailure::Driver(stage, m))) => {
            assert_eq!(stage, EglStage::MakeCurrent);
            assert_eq!(m, "lost");
        }
        other => panic!("unexpected outcome {:?}", other),
    }
    assert!(ctx.needs_activation());
    assert_eq!(ctx.drawable_size(), PhysicalSize::new(1, 1));
}

#[test]
fn ensure_current_records_activation() {
    let q = complete().build().unwrap();
    let mut ctx = EGLContext::activated(&q);
    ctx.released();
    assert!(ctx.ensure_current(Ok(())).is_ok());
    assert!(!ctx.needs_activation());
}

#[test]
fn swap_failure_is_mapped() {
    let q = complete().build().unwrap();
    let ctx = EGLContext::activated(&q);
    assert!(ctx.swap_buffers(Ok(())).is_ok());
    assert!(matches!(
        ctx.swap_buffers(Err("bad surface".to_string())),
        Err(LayerShikaError::EGLContextCreation(EglFailure::Driver(EglStage::SwapBuffers, _)))
    ));
}
