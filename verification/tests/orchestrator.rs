use frame_pipeline::frame::{Frame, PassRecord};
use frame_pipeline::orchestrator::{Acquire, Orchestrator, RenderError, ResizeOutcome};
use frame_pipeline::pipeline::{AddressMode, FilterMode};
use frame_pipeline::texture::{PixelFormat, TexturePair};

fn start(width: u32, height: u32) -> Orchestrator {
    Orchestrator::new(width, height, true).expect("startup allocation was reported as successful")
}

fn submitted(result: Result<Option<Frame>, RenderError>) -> Frame {
    match result {
        Ok(Some(frame)) => frame,
        Ok(None) => panic!("orchestrator was closed"),
        Err(e) => panic!("frame was not produced: {:?}", e),
    }
}

#[test]
fn recreate_reports_exact_size() {
    let mut pair = TexturePair::create(640, 480);
    pair.recreate(320, 200);
    for tex in [&pair.default_tex, &pair.processed_tex] {
        assert_eq!(tex.width, 320);
        assert_eq!(tex.height, 200);
        assert_eq!(tex.format, PixelFormat::Bgra8UnormSrgb);
        assert!(tex.usage.render_attachment);
        assert!(tex.usage.storage);
        assert!(tex.usage.sampled);
        assert!(tex.usage.copy_src);
        assert!(tex.usage.copy_dst);
    }
}

#[test]
fn startup_first_frame() {
    let mut o = start(800, 600);
    let frame = submitted(o.on_redraw(Acquire::Image(7)));
    assert_eq!(frame.passes.len(), 3);
    match &frame.passes[0] {
        PassRecord::Raster { width, height, clear_to_black, vertex_count, instance_count, .. } => {
            assert_eq!((*width, *height), (800, 600));
            assert!(*clear_to_black);
            assert_eq!(*vertex_count, 6);
            assert_eq!(*instance_count, 1);
        }
        _ => panic!("first pass is not the rasterization pass"),
    }
    match &frame.passes[1] {
        PassRecord::Compute { bind, groups_x, groups_y, groups_z } => {
            assert_eq!((*groups_x, *groups_y, *groups_z), (123, 94, 1));
            assert_eq!((bind.tex_width, bind.tex_height), (800, 600));
        }
        _ => panic!("second pass is not the compute pass"),
    }
    match &frame.passes[2] {
        PassRecord::CopyToSurface { bind, image, clear_to_black, vertex_count, instance_count } => {
            assert_eq!(*image, 7);
            assert!(*clear_to_black);
            assert_eq!(*vertex_count, 6);
            assert_eq!(*instance_count, 1);
            assert_eq!((bind.tex_width, bind.tex_height), (800, 600));
            assert_eq!(bind.sampler.filter, FilterMode::Nearest);
            assert_eq!(bind.sampler.address, AddressMode::ClampToEdge);
        }
        _ => panic!("third pass is not the copy pass"),
    }
}

#[test]
fn resize_between_frames() {
    let mut o = start(800, 600);
    let _ = submitted(o.on_redraw(Acquire::Image(0)));
    assert_eq!(o.on_resize(1024, 768, true), ResizeOutcome::Applied);
    assert_eq!(o.textures.default_tex.width, 1024);
    assert_eq!(o.textures.processed_tex.height, 768);
    let frame = submitted(o.on_redraw(Acquire::Image(1)));
    match &frame.passes[0] {
        PassRecord::Raster { width, height, .. } => assert_eq!((*width, *height), (1024, 768)),
        _ => panic!("first pass is not the rasterization pass"),
    }
    match &frame.passes[1] {
        PassRecord::Compute { bind, groups_x, groups_y, groups_z } => {
            assert_eq!((bind.tex_width, bind.tex_height), (1024, 768));
            assert_eq!((*groups_x, *groups_y, *groups_z), (155, 118, 1));
        }
        _ => panic!("second pass is not the compute pass"),
    }
    match &frame.passes[2] {
        PassRecord::CopyToSurface { bind, .. } => {
            assert_eq!((bind.tex_width, bind.tex_height), (1024, 768));
        }
        _ => panic!("third pass is not the copy pass"),
    }
}

#[test]
fn surface_unavailable_skips_frame() {
    let mut o = start(800, 600);
    match o.on_redraw(Acquire::Unavailable) {
        Err(e) => assert_eq!(e, RenderError::SurfaceUnavailable),
        Ok(_) => panic!("an unavailable surface must skip the frame"),
    }
    // The orchestrator stays ready for the next trigger.
    let frame = submitted(o.on_redraw(Acquire::Image(2)));
    assert_eq!(frame.passes.len(), 3);
}

#[test]
fn device_lost_is_fatal_and_reported() {
    let mut o = start(800, 600);
    match o.on_redraw(Acquire::Lost) {
        Err(e) => assert_eq!(e, RenderError::DeviceLost),
        Ok(_) => panic!("a lost device must be reported"),
    }
}

#[test]
fn startup_allocation_failure_is_fatal() {
    match Orchestrator::new(800, 600, false) {
        Err(e) => assert_eq!(e, RenderError::ResourceCreationFailure),
        Ok(_) => panic!("a failed startup allocation must be reported"),
    }
}

#[test]
fn refused_resize_keeps_previous_resources() {
    let mut o = start(800, 600);
    assert_eq!(o.on_resize(1024, 768, false), ResizeOutcome::Refused);
    assert_eq!((o.surface.width, o.surface.height), (800, 600));
    assert_eq!(o.textures.default_tex.width, 800);
    assert_eq!(o.compute_bind.tex_width, 800);
    let frame = submitted(o.on_redraw(Acquire::Image(0)));
    match &frame.passes[0] {
        PassRecord::Raster { width, height, .. } => assert_eq!((*width, *height), (800, 600)),
        _ => panic!("first pass is not the rasterization pass"),
    }
}

#[test]
fn resize_twice_equivalent_to_once() {
    let mut once = start(800, 600);
    let mut twice = start(800, 600);
    assert_eq!(once.on_resize(512, 384, true), ResizeOutcome::Applied);
    assert_eq!(twice.on_resize(512, 384, true), ResizeOutcome::Applied);
    assert_eq!(twice.on_resize(512, 384, true), ResizeOutcome::Applied);
    assert_eq!(once.running, twice.running);
    assert_eq!(once.surface, twice.surface);
    assert_eq!(once.pipelines, twice.pipelines);
    for (a, b) in [
        (&once.textures.default_tex, &twice.textures.default_tex),
        (&once.textures.processed_tex, &twice.textures.processed_tex),
    ] {
        assert_eq!(a.width, b.width);
        assert_eq!(a.height, b.height);
        assert_eq!(a.format, b.format);
        assert_eq!(a.usage, b.usage);
    }
    assert_eq!(once.compute_bind.tex_width, twice.compute_bind.tex_width);
    assert_eq!(once.compute_bind.tex_height, twice.compute_bind.tex_height);
    assert_eq!(once.copy_bind.tex_width, twice.copy_bind.tex_width);
    assert_eq!(once.copy_bind.tex_height, twice.copy_bind.tex_height);
    assert_eq!(once.copy_bind.sampler, twice.copy_bind.sampler);
}

#[test]
fn pipelines_survive_resize_unchanged() {
    let mut o = start(800, 600);
    let before = o.pipelines;
    assert_eq!(o.on_resize(1024, 768, true), ResizeOutcome::Applied);
    assert_eq!(o.pipelines, before);
}

#[test]
fn close_stops_processing_and_releases_once() {
    let mut o = start(800, 600);
    assert!(o.on_close());
    match o.on_redraw(Acquire::Image(0)) {
        Ok(None) => {}
        _ => panic!("a closed orchestrator must not encode a frame"),
    }
    assert_eq!(o.on_resize(1024, 768, true), ResizeOutcome::Ignored);
    assert_eq!((o.surface.width, o.surface.height), (800, 600));
    // A second close request releases nothing further.
    assert!(!o.on_close());
}
