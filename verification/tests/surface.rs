use vtk_bridge::command::Command;
use vtk_bridge::error::BridgeError;
use vtk_bridge::surface::{is_valid_size, GpuObjects, OffscreenSurface, FRAMEBUFFER_COMPLETE};

fn objects() -> GpuObjects {
    GpuObjects { framebuffer: 7, texture: 8, depth_renderbuffer: 9 }
}

#[test]
fn complete_status_is_the_gl_value() {
    assert_eq!(FRAMEBUFFER_COMPLETE, 0x8CD5);
    assert_eq!(FRAMEBUFFER_COMPLETE, 36053);
}

#[test]
fn complete_status_agrees_with_glow() {
    assert_eq!(FRAMEBUFFER_COMPLETE, eframe::glow::FRAMEBUFFER_COMPLETE);
}

#[test]
fn valid_sizes_are_positive_on_both_sides() {
    assert!(is_valid_size(1, 1));
    assert!(is_valid_size(300, 300));
    assert!(is_valid_size(i32::MAX, 1));
    assert!(!is_valid_size(0, 10));
    assert!(!is_valid_size(10, 0));
    assert!(!is_valid_size(-1, 10));
    assert!(!is_valid_size(10, i32::MIN));
    assert!(!is_valid_size(0, 0));
}

#[test]
fn create_keeps_names_and_size() {
    let surface = OffscreenSurface::create(640, 480, objects(), FRAMEBUFFER_COMPLETE);
    assert_eq!(
        surface,
        Ok(OffscreenSurface {
            framebuffer: 7,
            texture: 8,
            depth_renderbuffer: 9,
            width: 640,
            height: 480,
        })
    );
}

#[test]
fn create_succeeds_for_many_positive_sizes() {
    for (width, height) in [(1, 1), (1, 4096), (300, 300), (1920, 1080), (i32::MAX, i32::MAX)] {
        let surface = OffscreenSurface::create(width, height, objects(), FRAMEBUFFER_COMPLETE)
            .expect("a positive size with complete objects is accepted");
        assert_eq!((surface.width, surface.height), (width, height));
    }
}

#[test]
fn create_refuses_sizes_that_are_not_positive() {
    for (width, height) in [(0, 1), (1, 0), (0, 0), (-5, 10), (10, -5), (i32::MIN, i32::MIN)] {
        assert_eq!(
            OffscreenSurface::create(width, height, objects(), FRAMEBUFFER_COMPLETE),
            Err(BridgeError::InvalidSize)
        );
    }
}

#[test]
fn create_judges_size_before_anything_else() {
    let nothing = GpuObjects { framebuffer: 0, texture: 0, depth_renderbuffer: 0 };
    assert_eq!(OffscreenSurface::create(0, 0, nothing, 0), Err(BridgeError::InvalidSize));
}

#[test]
fn create_refuses_the_null_name() {
    let cases = [
        GpuObjects { framebuffer: 0, texture: 8, depth_renderbuffer: 9 },
        GpuObjects { framebuffer: 7, texture: 0, depth_renderbuffer: 9 },
        GpuObjects { framebuffer: 7, texture: 8, depth_renderbuffer: 0 },
    ];
    for objects in cases {
        assert_eq!(
            OffscreenSurface::create(10, 10, objects, FRAMEBUFFER_COMPLETE),
            Err(BridgeError::NullObject)
        );
    }
    let nothing = GpuObjects { framebuffer: 0, texture: 0, depth_renderbuffer: 0 };
    assert_eq!(OffscreenSurface::create(10, 10, nothing, 0), Err(BridgeError::NullObject));
}

#[test]
fn create_refuses_an_incomplete_framebuffer() {
    for status in [0u32, 0x8CD6, 0x8CD7, 0x8CDD, u32::MAX] {
        assert_eq!(
            OffscreenSurface::create(10, 10, objects(), status),
            Err(BridgeError::FramebufferIncomplete)
        );
    }
}

#[test]
fn release_deletes_all_three_objects_in_order() {
    let surface = OffscreenSurface::create(10, 20, objects(), FRAMEBUFFER_COMPLETE).unwrap();
    assert_eq!(
        surface.release(),
        vec![
            Command::DeleteFramebuffer { framebuffer: 7 },
            Command::DeleteTexture { texture: 8 },
            Command::DeleteRenderbuffer { renderbuffer: 9 },
        ]
    );
}

#[test]
fn surface_paint_binds_paints_and_unbinds() {
    let surface = OffscreenSurface::create(10, 20, objects(), FRAMEBUFFER_COMPLETE).unwrap();
    assert_eq!(
        surface.paint(),
        vec![
            Command::BindFramebuffer { framebuffer: 7 },
            Command::Paint,
            Command::UnbindFramebuffer,
        ]
    );
}
