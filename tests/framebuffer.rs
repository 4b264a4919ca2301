use sysgauge::framebuffer::{
    layout_for, FrameBuffer, FrameError, Geometry, Layout, Region, Sizing,
};

fn carry_out(fb: &mut FrameBuffer, w: u32, h: u32) -> Option<Region> {
    match fb.ensure_sized(w, h).unwrap() {
        Sizing::Reuse { .. } => None,
        Sizing::Allocate { layout } => fb.install(layout),
    }
}

#[test]
fn ensure_sized_twice_allocates_once() {
    let mut fb = FrameBuffer::new();
    assert!(matches!(fb.ensure_sized(800, 600), Ok(Sizing::Allocate { .. })));
    carry_out(&mut fb, 800, 600);
    assert_eq!(fb.allocations(), 1);
    let first = fb.ensure_sized(800, 600);
    let second = fb.ensure_sized(800, 600);
    assert_eq!(first, second);
    assert!(matches!(first, Ok(Sizing::Reuse { .. })));
    carry_out(&mut fb, 800, 600);
    carry_out(&mut fb, 800, 600);
    assert_eq!(fb.allocations(), 1);
}

#[test]
fn resize_allocates_new_region_and_releases_old_after() {
    let mut fb = FrameBuffer::new();
    carry_out(&mut fb, 800, 600);
    let old = fb.handle().unwrap();
    assert_eq!(old.size, 800 * 4 * 600);
    let sizing = fb.ensure_sized(1024, 768).unwrap();
    let layout = match sizing {
        Sizing::Allocate { layout } => layout,
        Sizing::Reuse { .. } => panic!("a larger frame must not reuse the region"),
    };
    assert_eq!(
        layout,
        Layout { width: 1024, height: 768, stride: 4096, size: 3145728 }
    );
    // until the new region is installed, the old one stays in place
    assert_eq!(fb.handle(), Some(old));
    let released = fb.install(layout);
    assert_eq!(released, Some(old));
    let new = fb.handle().unwrap();
    assert_eq!(new.size, 3145728);
    assert_ne!(new.id, old.id);
    assert_eq!(fb.allocations(), 2);
}

#[test]
fn same_size_other_shape_reuses_region() {
    let mut fb = FrameBuffer::new();
    carry_out(&mut fb, 800, 600);
    assert!(matches!(
        fb.ensure_sized(600, 800),
        Ok(Sizing::Reuse { layout: Layout { width: 600, height: 800, stride: 2400, .. }, .. })
    ));
}

#[test]
fn oversized_frames_are_refused() {
    assert_eq!(layout_for(0x2000_0000, 1), Err(FrameError::FatalAllocation));
    assert_eq!(layout_for(40000, 40000), Err(FrameError::FatalAllocation));
    assert_eq!(
        layout_for(0, 5),
        Ok(Layout { width: 0, height: 5, stride: 0, size: 0 })
    );
    let fb = FrameBuffer::new();
    assert_eq!(fb.ensure_sized(100000, 100000), Err(FrameError::FatalAllocation));
}

#[test]
fn physical_size_scales_and_checks() {
    let g = Geometry { width: 800, height: 600, scale: 2 };
    assert_eq!(g.physical_size(), Ok((1600, 1200)));
    let g = Geometry { width: 800, height: 600, scale: 0 };
    assert_eq!(g.physical_size(), Err(FrameError::FatalAllocation));
    let g = Geometry { width: u32::MAX, height: 1, scale: 1 };
    assert_eq!(g.physical_size(), Err(FrameError::FatalAllocation));
}

#[test]
fn write_needs_exact_length() {
    let mut fb = FrameBuffer::new();
    let mut backing = vec![0u8; 16];
    assert_eq!(fb.write(&mut backing, &[1u8; 16]), Err(FrameError::ContractViolation));
    carry_out(&mut fb, 2, 2);
    let pixels: Vec<u8> = (0..16u8).collect();
    assert_eq!(fb.write(&mut backing, &pixels[..15]), Err(FrameError::ContractViolation));
    assert_eq!(backing, vec![0u8; 16]);
    assert_eq!(fb.write(&mut backing, &pixels), Ok(()));
    assert_eq!(backing, pixels);
}
