//! Frames, their uniforms, and the resources that draw them.

use camera::bits::F32;
use camera::blur::{kawase_chain, PingPong};
use camera::draw::{DrawPass, DrawRequest, PassArea, PassBinding, PassLoad, PassShader, PassTarget};
use camera::frame::{
    default_uv_size, ConversionRefusal, PixelFormat, Plane, PlaneShape, PlaneWrite, TexelFormat,
    TextureSpec, VideoFrame, YuvConvertParams, YuvPlanes,
};
use camera::insets::BarInsets;
use camera::pipeline::{
    get_gpu_frame_size, get_gpu_upload_time_us, source_texture_id, BindingOutcome, GpuMetrics,
    UploadAction, UploadWork, Verdict, VideoPipeline, VIDEO_ID_BLUR, VIDEO_ID_FILTER_PREVIEW,
    VIDEO_ID_FROSTED, VIDEO_ID_NORMAL,
};
use camera::primitive::{FilterType, Surroundings, VideoPrimitive};
use camera::setup::{
    compose_source, conversion_slots, pipeline_recipe, render_slots, Blend, Layout, ShaderPart,
    Slot,
};
use camera::uniform::{
    full_content_rect, step_uniform, CornerCut, ViewportUniform, VisiblePart, UNIFORM_BYTES,
    UNIFORM_WORDS,
};
use std::sync::Arc;

fn single(value: f32) -> F32 {
    F32 { bits: value.to_bits() }
}

fn value(single: F32) -> f32 {
    f32::from_bits(single.bits)
}

fn frame(id: u64, width: u32, height: u32, format: PixelFormat) -> VideoFrame {
    VideoFrame {
        id,
        width,
        height,
        data: Arc::new(vec![7; 64]),
        format,
        stride: width * 4,
        yuv_planes: None,
    }
}

fn planes() -> YuvPlanes {
    YuvPlanes {
        y_offset: 0,
        y_size: 32,
        uv_offset: 32,
        uv_size: 16,
        uv_stride: 8,
        v_offset: 48,
        v_size: 16,
        v_stride: 4,
        uv_width: 4,
        uv_height: 2,
    }
}

fn request(video_id: u64) -> DrawRequest {
    DrawRequest {
        video_id,
        filter_mode: 0,
        needs_preblur: false,
        passes: 2,
        clip_width: 10,
        clip_height: 10,
        own_composite: false,
        own_preblur: false,
    }
}

fn surroundings() -> Surroundings {
    Surroundings {
        bounds: (single(5.0), single(6.0), single(70.0), single(80.0)),
        visible: VisiblePart {
            uv_offset: (single(0.25), single(0.5)),
            uv_scale: (single(0.75), single(0.5)),
        },
        corners: CornerCut {
            panel_rect: (single(1.0), single(2.0), single(3.0), single(4.0)),
            corner_radius: single(9.0),
        },
        target: (200, 400),
        logical_target: (single(100.0), single(200.0)),
    }
}

/// Uploads a frame and reports its times.
fn offer(pipeline: &mut VideoPipeline, frame: &VideoFrame, ptr: usize, ms: u64) -> UploadAction {
    let action = pipeline.upload(frame, ptr, 0);
    if let UploadAction::Upload { id, .. } = action {
        pipeline.finish_upload(id, frame.data.len() as u64, ms * 1000, ms);
    }
    action
}

#[test]
fn viewport_uniform_layout_is_stable() {
    let mut uniform = ViewportUniform::default();
    let words = uniform.to_words();
    assert_eq!(words.len(), UNIFORM_WORDS);
    let mark = single(123.5);
    let mut at = |change: &dyn Fn(&mut ViewportUniform)| -> usize {
        uniform = ViewportUniform::default();
        change(&mut uniform);
        let marked = uniform.to_words();
        let places: Vec<usize> = (0..UNIFORM_WORDS).filter(|&i| marked[i] != words[i]).collect();
        assert_eq!(places.len(), 1);
        4 * places[0]
    };
    assert_eq!(at(&|u| u.viewport_size.0 = mark), 0);
    assert_eq!(at(&|u| u.content_fit_mode = mark), 8);
    assert_eq!(at(&|u| u.filter_mode = 5), 12);
    assert_eq!(at(&|u| u.corner_radius = mark), 16);
    assert_eq!(at(&|u| u.mirror_horizontal = 1), 20);
    assert_eq!(at(&|u| u.uv_offset.0 = mark), 24);
    assert_eq!(at(&|u| u.uv_scale.0 = mark), 32);
    assert_eq!(at(&|u| u.crop_uv_min.0 = mark), 40);
    assert_eq!(at(&|u| u.crop_uv_max.0 = mark), 48);
    assert_eq!(at(&|u| u.zoom_level = mark), 56);
    assert_eq!(at(&|u| u.rotation = 3), 60);
    assert_eq!(at(&|u| u.bar_top_height = mark), 64);
    assert_eq!(at(&|u| u.bar_bottom_height = mark), 68);
    assert_eq!(at(&|u| u.kawase_offset = mark), 72);
    assert_eq!(at(&|u| u.dim_factor = mark), 76);
    assert_eq!(at(&|u| u.letterbox_color.0 = mark), 80);
    assert_eq!(at(&|u| u.panel_rect.0 = mark), 96);
    assert_eq!(at(&|u| u.noise = mark), 112);
    assert_eq!(at(&|u| u.content_rect.0 = mark), 128);
    assert_eq!(at(&|u| u.bar_left_width = mark), 144);
    assert_eq!(at(&|u| u.bar_right_width = mark), 148);
    assert_eq!(UNIFORM_BYTES, 160);
    assert_eq!(UNIFORM_BYTES % 16, 0);
    let bytes = ViewportUniform::default().to_bytes();
    assert_eq!(bytes.len(), 160);
    assert_eq!(bytes[56..60], 1.0f32.to_ne_bytes());
    assert_eq!(bytes[76..80], 1.0f32.to_ne_bytes());
    assert_eq!(bytes[92..96], 1.0f32.to_ne_bytes());
}

#[test]
fn the_default_content_rect_cuts_nothing() {
    assert_eq!(ViewportUniform::default().content_rect, full_content_rect());
    let (min_x, min_y, max_x, max_y) = full_content_rect();
    assert_eq!([value(min_x), value(min_y), value(max_x), value(max_y)], [0.0, 0.0, 1.0, 1.0]);
}

#[test]
fn frames_hand_out_their_bytes() {
    let rgba = frame(0, 4, 4, PixelFormat::RGBA);
    assert_eq!(rgba.data_slice(), vec![7u8; 64]);
    assert_eq!(rgba.rgba_data(), rgba.data_slice());
    assert!(!rgba.needs_gpu_conversion());
    assert!(frame(0, 4, 4, PixelFormat::NV12).needs_gpu_conversion());
    assert!(frame(0, 4, 4, PixelFormat::BayerRGGB).needs_gpu_conversion());
    let copy = rgba.clone();
    assert!(Arc::ptr_eq(&copy.data, &rgba.data));
}

#[test]
fn chroma_is_half_as_fine_by_default() {
    assert_eq!(default_uv_size(PixelFormat::NV12, 641, 481), (320, 240));
    assert_eq!(default_uv_size(PixelFormat::I420, 640, 480), (320, 240));
    assert_eq!(default_uv_size(PixelFormat::UYVY, 640, 480), (320, 480));
    assert_eq!(default_uv_size(PixelFormat::Gray8, 640, 480), (1, 1));
    assert_eq!(default_uv_size(PixelFormat::BGRA, 640, 480), (1, 1));
}

#[test]
fn plane_textures_fit_their_formats() {
    let textures = |format| {
        PlaneShape { width: 8, height: 4, uv_width: 4, uv_height: 0, format }.textures()
    };
    let spec = |width, height, texel| TextureSpec { width, height, texel };
    let nv12 = textures(PixelFormat::NV12);
    assert_eq!(nv12.y, spec(8, 4, TexelFormat::R8Unorm));
    assert_eq!(nv12.uv, spec(4, 1, TexelFormat::Rg8Unorm));
    assert_eq!(nv12.v, spec(4, 1, TexelFormat::R8Unorm));
    assert_eq!(textures(PixelFormat::YUYV).y, spec(4, 4, TexelFormat::Rgba8Unorm));
    assert_eq!(textures(PixelFormat::I420).uv, spec(4, 1, TexelFormat::R8Unorm));
    assert_eq!(textures(PixelFormat::ABGR).y, spec(8, 4, TexelFormat::Rgba8Unorm));
    assert_eq!(textures(PixelFormat::Gray8).y, spec(8, 4, TexelFormat::R8Unorm));
}

#[test]
fn conversions_copy_plane_by_plane() {
    let mut planar = frame(0, 8, 4, PixelFormat::NV12);
    planar.stride = 8;
    planar.yuv_planes = Some(planes());
    assert!(planar.planes_fit());
    let luma = PlaneWrite {
        plane: Plane::Y,
        start: 0,
        end: 32,
        bytes_per_row: 8,
        width: 8,
        height: 4,
    };
    let chroma = PlaneWrite {
        plane: Plane::UV,
        start: 32,
        end: 48,
        bytes_per_row: 8,
        width: 4,
        height: 2,
    };
    let plan = planar.upload_yuv_and_convert(11).unwrap();
    assert_eq!(plan.writes, [luma, chroma]);
    assert_eq!(plan.groups, (1, 1));
    let params = YuvConvertParams {
        width: 8,
        height: 4,
        format: 11,
        y_stride: 8,
        uv_stride: 8,
        v_stride: 4,
    };
    assert_eq!(plan.params, params);
    let bytes = plan.params.to_bytes();
    let mut expected = Vec::new();
    for word in [8u32, 4, 11, 8, 8, 4, 0, 0] {
        expected.extend_from_slice(&word.to_ne_bytes());
    }
    assert_eq!(bytes, expected);

    planar.format = PixelFormat::I420;
    let second = PlaneWrite {
        plane: Plane::V,
        start: 48,
        end: 64,
        bytes_per_row: 4,
        width: 4,
        height: 2,
    };
    assert_eq!(planar.upload_yuv_and_convert(0).unwrap().writes, [luma, chroma, second]);
    planar.yuv_planes = Some(YuvPlanes { v_size: 0, ..planes() });
    assert_eq!(planar.upload_yuv_and_convert(0).unwrap().writes, [luma, chroma]);
    planar.yuv_planes = None;
    assert!(planar.upload_yuv_and_convert(0).unwrap().writes.is_empty());

    let packed = frame(0, 33, 17, PixelFormat::YVYU);
    let plan = packed.upload_yuv_and_convert(0).unwrap();
    assert_eq!(plan.writes.len(), 1);
    assert_eq!((plan.writes[0].width, plan.writes[0].height), (16, 17));
    assert_eq!((plan.writes[0].start, plan.writes[0].end), (0, 64));
    assert_eq!(plan.groups, (3, 2));
    let gray = frame(0, 33, 17, PixelFormat::Gray8).upload_yuv_and_convert(0).unwrap();
    assert_eq!(gray.writes[0].width, 33);
}

#[test]
fn some_formats_are_not_converted() {
    let refusal = |format| frame(0, 4, 4, format).upload_yuv_and_convert(0).unwrap_err();
    assert_eq!(refusal(PixelFormat::RGBA), ConversionRefusal::Rgba);
    assert_eq!(refusal(PixelFormat::RGB24), ConversionRefusal::Rgb24);
    for bayer in [
        PixelFormat::BayerRGGB,
        PixelFormat::BayerBGGR,
        PixelFormat::BayerGRBG,
        PixelFormat::BayerGBRG,
    ] {
        assert_eq!(refusal(bayer), ConversionRefusal::Bayer);
    }
}

#[test]
fn planes_outside_the_buffer_are_found() {
    let mut planar = frame(0, 8, 4, PixelFormat::NV12);
    planar.yuv_planes = Some(YuvPlanes { y_size: 65, ..planes() });
    assert!(!planar.planes_fit());
    planar.yuv_planes = Some(YuvPlanes { uv_offset: usize::MAX, ..planes() });
    assert!(!planar.planes_fit());
    planar.yuv_planes = Some(YuvPlanes { v_offset: 60, ..planes() });
    assert!(planar.planes_fit());
    planar.format = PixelFormat::I420;
    assert!(!planar.planes_fit());
    planar.format = PixelFormat::Gray8;
    assert!(planar.planes_fit());
}

#[test]
fn sources_share_the_previews_texture() {
    assert_eq!(source_texture_id(VIDEO_ID_NORMAL), VIDEO_ID_NORMAL);
    assert_eq!(source_texture_id(VIDEO_ID_FROSTED), VIDEO_ID_NORMAL);
    assert_eq!(source_texture_id(VIDEO_ID_FILTER_PREVIEW), VIDEO_ID_NORMAL);
    assert_eq!(source_texture_id(VIDEO_ID_BLUR), VIDEO_ID_BLUR);
    assert_eq!(source_texture_id(7), 7);
}

#[test]
fn a_frame_is_uploaded_once_for_all_its_sources() {
    let mut pipeline = VideoPipeline::new();
    let first = frame(VIDEO_ID_NORMAL, 4, 4, PixelFormat::RGBA);
    match offer(&mut pipeline, &first, 100, 1) {
        UploadAction::Upload { id: 0, create: true, work } => match work {
            UploadWork::Copy { bytes_per_row: 16, width: 4, height: 4 } => {}
            other => panic!("{other:?}"),
        },
        other => panic!("{other:?}"),
    }
    for id in [VIDEO_ID_NORMAL, VIDEO_ID_FROSTED, VIDEO_ID_FILTER_PREVIEW] {
        let twin = frame(id, 4, 4, PixelFormat::RGBA);
        assert!(matches!(offer(&mut pipeline, &twin, 100, 1), UploadAction::Duplicate));
    }
    let next = frame(VIDEO_ID_FROSTED, 4, 4, PixelFormat::RGBA);
    assert!(matches!(
        offer(&mut pipeline, &next, 200, 1),
        UploadAction::Upload { id: 0, create: false, .. }
    ));
    let frozen = frame(VIDEO_ID_BLUR, 4, 4, PixelFormat::RGBA);
    assert!(matches!(
        offer(&mut pipeline, &frozen, 200, 1),
        UploadAction::Upload { id: 1, create: true, .. }
    ));
    let empty = frame(VIDEO_ID_NORMAL, 0, 4, PixelFormat::RGBA);
    assert!(matches!(offer(&mut pipeline, &empty, 300, 1), UploadAction::Empty));
    let metrics: GpuMetrics = pipeline.metrics;
    assert_eq!(get_gpu_upload_time_us(&metrics), 1000);
    assert_eq!(get_gpu_frame_size(&metrics), 64);
}

#[test]
fn a_slow_upload_costs_the_next_frame_and_no_more() {
    let mut pipeline = VideoPipeline::new();
    let rgba = |id| frame(id, 4, 4, PixelFormat::RGBA);
    offer(&mut pipeline, &rgba(VIDEO_ID_NORMAL), 100, 33);
    match pipeline.upload(&rgba(VIDEO_ID_NORMAL), 200, 0) {
        UploadAction::Skipped { count: 1, last_upload_ms: 33, warn: true } => {}
        other => panic!("{other:?}"),
    }
    // The skip holds for the other sources of the same frame.
    assert!(matches!(
        pipeline.upload(&rgba(VIDEO_ID_FROSTED), 200, 0),
        UploadAction::Duplicate
    ));
    let action = pipeline.upload(&rgba(VIDEO_ID_NORMAL), 300, 0);
    assert!(matches!(action, UploadAction::Upload { create: false, .. }));
    assert_eq!(pipeline.finish_upload(0, 64, 10, 32), Some(1));
    assert_eq!(pipeline.finish_upload(0, 64, 10, 32), None);
    // Just at the limit nothing is skipped.
    let action = pipeline.upload(&rgba(VIDEO_ID_NORMAL), 400, 0);
    assert!(matches!(action, UploadAction::Upload { .. }));
}

#[test]
fn every_tenth_skip_in_a_row_warns() {
    let mut pipeline = VideoPipeline::new();
    let mut warnings = Vec::new();
    for round in 0..12u64 {
        // Slow sources of their own, so that every round is a skip.
        let id = 200 + round;
        offer(&mut pipeline, &frame(id, 4, 4, PixelFormat::RGBA), 1, 50);
    }
    for round in 0..12u64 {
        let id = 200 + round;
        let action = pipeline.upload(&frame(id, 4, 4, PixelFormat::RGBA), 2, 0);
        match action {
            UploadAction::Skipped { count, warn, .. } => {
                assert_eq!(u64::from(count), round + 1);
                if warn {
                    warnings.push(count);
                }
            }
            other => panic!("{other:?}"),
        }
    }
    assert_eq!(warnings, [1, 11]);
}

#[test]
fn a_new_texture_drops_the_bindings_over_the_old() {
    let mut pipeline = VideoPipeline::new();
    assert_eq!(pipeline.get_or_create_binding(VIDEO_ID_FROSTED, 2), BindingOutcome::NoTexture);
    offer(&mut pipeline, &frame(VIDEO_ID_NORMAL, 4, 4, PixelFormat::RGBA), 1, 1);
    offer(&mut pipeline, &frame(VIDEO_ID_BLUR, 4, 4, PixelFormat::RGBA), 2, 1);
    assert_eq!(pipeline.get_or_create_binding(VIDEO_ID_FROSTED, 2), BindingOutcome::Created);
    assert_eq!(pipeline.get_or_create_binding(VIDEO_ID_FROSTED, 2), BindingOutcome::Present);
    assert_eq!(pipeline.get_or_create_binding(VIDEO_ID_NORMAL, 0), BindingOutcome::Created);
    assert_eq!(pipeline.get_or_create_binding(VIDEO_ID_BLUR, 0), BindingOutcome::Created);
    offer(&mut pipeline, &frame(VIDEO_ID_NORMAL, 8, 4, PixelFormat::RGBA), 3, 1);
    assert!(!pipeline.has_binding(VIDEO_ID_FROSTED, 2));
    assert!(!pipeline.has_binding(VIDEO_ID_NORMAL, 0));
    assert!(pipeline.has_binding(VIDEO_ID_BLUR, 0));
}

#[test]
fn planes_are_made_and_bound_when_they_have_to_be() {
    let mut pipeline = VideoPipeline::new();
    let work = |pipeline: &mut VideoPipeline, width, ptr| {
        match pipeline.upload(&frame(VIDEO_ID_NORMAL, width, 4, PixelFormat::YUYV), ptr, 0) {
            UploadAction::Upload {
                work: UploadWork::Convert { create, bind, plan }, ..
            } => (create.is_some(), bind, plan.is_ok()),
            other => panic!("{other:?}"),
        }
    };
    assert_eq!(work(&mut pipeline, 8, 1), (true, true, true));
    assert_eq!(work(&mut pipeline, 8, 2), (false, false, true));
    assert_eq!(work(&mut pipeline, 16, 3), (true, true, true));
    // Another format makes other planes over the same output.
    match pipeline.upload(&frame(VIDEO_ID_NORMAL, 16, 4, PixelFormat::Gray8), 4, 0) {
        UploadAction::Upload {
            create: false,
            work: UploadWork::Convert { create: Some(_), bind: true, .. },
            ..
        } => {}
        other => panic!("{other:?}"),
    }
    // A frame that cannot be converted binds nothing.
    match pipeline.upload(&frame(VIDEO_ID_NORMAL, 16, 4, PixelFormat::RGB24), 5, 0) {
        UploadAction::Upload {
            work:
                UploadWork::Convert {
                    create: Some(_),
                    bind: false,
                    plan: Err(ConversionRefusal::Rgb24),
                },
            ..
        } => {}
        other => panic!("{other:?}"),
    }
    // An output that is made anew is bound anew, over the planes that are there.
    let mut pipeline = VideoPipeline::new();
    let square = |format| frame(VIDEO_ID_NORMAL, 8, 4, format);
    pipeline.upload(&square(PixelFormat::YUYV), 1, 0);
    pipeline.upload(&frame(VIDEO_ID_NORMAL, 4, 4, PixelFormat::RGBA), 2, 0);
    match pipeline.upload(&square(PixelFormat::YUYV), 3, 0) {
        UploadAction::Upload {
            create: true,
            work: UploadWork::Convert { create: None, bind: true, .. },
            ..
        } => {}
        other => panic!("{other:?}"),
    }
}

#[test]
fn a_blur_runs_once_for_each_frame_and_source() {
    let mut pipeline = VideoPipeline::new();
    for id in [VIDEO_ID_NORMAL, VIDEO_ID_BLUR] {
        offer(&mut pipeline, &frame(id, 4, 4, PixelFormat::RGBA), 1, 1);
    }
    for id in [VIDEO_ID_BLUR, VIDEO_ID_FROSTED] {
        pipeline.get_or_create_binding(id, 0);
    }
    let fallback = pipeline.render(&request(VIDEO_ID_BLUR));
    assert_eq!(fallback.len(), 1);
    assert_eq!(fallback[0].shader, PassShader::BlurTransform);
    assert_eq!(fallback[0].target, PassTarget::Screen);

    assert_eq!(pipeline.ensure_blur_targets(VIDEO_ID_BLUR, 100, 200), Some((100, 200)));
    assert_eq!(pipeline.ensure_blur_targets(VIDEO_ID_FROSTED, 0, 200), Some((1, 200)));
    assert_eq!(pipeline.ensure_blur_targets(VIDEO_ID_BLUR, 100, 200), None);
    let passes = pipeline.render(&request(VIDEO_ID_BLUR));
    let steps = kawase_chain(100, 200, 2);
    assert_eq!(passes.len(), steps.len() + 2);
    assert_eq!(passes[0].target, PassTarget::Blur(PingPong::A));
    assert_eq!(passes[0].load, PassLoad::Transparent);
    assert_eq!(
        passes[1],
        DrawPass {
            shader: PassShader::KawaseDown,
            target: PassTarget::Blur(PingPong::B),
            load: PassLoad::Transparent,
            area: PassArea::Corner(50, 100),
            binding: PassBinding::BlurStep(0),
        }
    );
    assert_eq!(passes[4].shader, PassShader::KawaseUp);
    assert_eq!(passes[4].area, PassArea::Corner(100, 200));
    assert_eq!(passes[5].binding, PassBinding::SharedComposite);

    let mut panel = request(VIDEO_ID_BLUR);
    panel.own_composite = true;
    let again = pipeline.render(&panel);
    assert_eq!(again.len(), 1);
    assert_eq!(again[0].binding, PassBinding::OwnComposite);
    assert!(!pipeline.blur_targets[&VIDEO_ID_FROSTED].cached);

    pipeline.render(&request(VIDEO_ID_FROSTED));
    pipeline.invalidate_blur_cache(VIDEO_ID_BLUR);
    assert!(pipeline.blur_targets[&VIDEO_ID_FROSTED].cached);
    assert_eq!(pipeline.render(&request(VIDEO_ID_BLUR)).len(), steps.len() + 2);
    // Another size starts cold.
    pipeline.ensure_blur_targets(VIDEO_ID_BLUR, 101, 200);
    assert!(!pipeline.blur_targets[&VIDEO_ID_BLUR].cached);
}

#[test]
fn other_sources_are_drawn_at_once_or_through_the_preblur() {
    let mut pipeline = VideoPipeline::new();
    assert!(pipeline.render(&request(VIDEO_ID_NORMAL)).is_empty());
    offer(&mut pipeline, &frame(VIDEO_ID_NORMAL, 4, 4, PixelFormat::RGBA), 1, 1);
    pipeline.get_or_create_binding(VIDEO_ID_NORMAL, 0);
    let direct = pipeline.render(&request(VIDEO_ID_NORMAL));
    assert_eq!(
        direct,
        [DrawPass {
            shader: PassShader::Rgba,
            target: PassTarget::Screen,
            load: PassLoad::Keep,
            area: PassArea::Widget,
            binding: PassBinding::Source,
        }]
    );
    let mut hidden = request(VIDEO_ID_NORMAL);
    hidden.clip_height = 0;
    assert!(pipeline.render(&hidden).is_empty());

    let mut pencil = request(VIDEO_ID_NORMAL);
    pencil.needs_preblur = true;
    assert!(pipeline.render(&pencil).is_empty());
    assert!(pipeline.ensure_filter_preblur_intermediate(4, 4));
    assert!(!pipeline.ensure_filter_preblur_intermediate(4, 4));
    assert!(pipeline.ensure_filter_preblur_intermediate(4, 5));
    let passes = pipeline.render(&pencil);
    assert_eq!(passes.len(), 2);
    assert_eq!(passes[0].shader, PassShader::Preblur);
    assert_eq!(passes[0].target, PassTarget::PreblurTexture);
    assert_eq!(passes[0].load, PassLoad::Black);
    assert_eq!(passes[1].binding, PassBinding::Source);
    pencil.own_preblur = true;
    assert_eq!(pipeline.render(&pencil)[1].binding, PassBinding::OwnPreblur);
}

#[test]
fn a_new_widget_shows_nothing_yet() {
    let widget = VideoPrimitive::new(7);
    assert_eq!(widget.video_id, 7);
    assert!(widget.data.frame.is_none());
    assert_eq!(widget.filter_type, FilterType::standard());
    assert_eq!(value(widget.zoom_level), 1.0);
    assert_eq!(widget.blur_params.passes, 4);
    assert_eq!(value(widget.data.visible.uv_scale.0), 1.0);
}

#[test]
fn dim_and_grain_by_source() {
    let blur = VideoPrimitive::new(VIDEO_ID_BLUR);
    let frosted = VideoPrimitive::new(VIDEO_ID_FROSTED);
    assert_eq!(value(blur.dim_factor()), 0.85f32 * 0.85 * 0.85);
    assert_eq!(value(blur.noise()), 0.0);
    assert_eq!(value(frosted.dim_factor()), 1.0);
    assert_eq!(value(frosted.noise()), 0.03);
}

#[test]
fn a_frosted_panel_is_prepared_over_the_whole_preview() {
    let around = surroundings();
    let mut pipeline = VideoPipeline::new();
    let mut panel = VideoPrimitive::new(VIDEO_ID_FROSTED);
    panel.zoom_level = single(2.0);
    panel.mirror_horizontal = true;
    panel.update_frame(frame(VIDEO_ID_FROSTED, 4, 4, PixelFormat::RGBA));
    let insets = BarInsets {
        top: single(1.0),
        right: single(2.0),
        bottom: single(3.0),
        left: single(4.0),
    };
    panel.update_viewport(single(33.0), single(44.0), single(0.5), insets);

    let stage = panel.prepare_frame(&mut pipeline, &around, 100, 0);
    assert_eq!(stage.create_targets, Some((200, 400)));
    assert_eq!(stage.create_preblur, None);
    let (taken, action) = stage.upload.unwrap();
    assert_eq!(taken.width, 4);
    assert!(matches!(action, UploadAction::Upload { id: 0, create: true, .. }));
    assert!(panel.data.frame.is_none());
    assert_eq!(panel.source_size(&pipeline), Some((4, 4)));

    let content = (single(0.1), single(0.2), single(0.9), single(0.8));
    let uniforms = panel.prepare_uniforms(&mut pipeline, &around, content);
    assert_eq!(uniforms.binding, BindingOutcome::Created);
    let source = uniforms.source.unwrap();
    assert_eq!(source.viewport_size, around.logical_target);
    assert_eq!(value(source.zoom_level), 2.0);
    assert_eq!(source.mirror_horizontal, 1);
    assert_eq!(value(source.bar_left_width), 4.0);
    assert_eq!(value(source.corner_radius), 0.0);
    assert!(uniforms.filter.is_none());
    let blur = uniforms.blur.unwrap();
    assert_eq!(blur.steps, kawase_chain(200, 400, 4));
    let dens: Vec<u64> = blur.offsets.iter().map(|offset| offset.den).collect();
    assert_eq!(dens, [1000, 2000, 4000, 8000, 16000, 8000, 4000, 2000]);
    assert!(blur.offsets.iter().all(|offset| offset.num == 3268));
    assert_eq!(blur.composite.content_rect, content);
    assert_eq!(value(blur.composite.zoom_level), 1.0);
    assert_eq!(value(blur.composite.corner_radius), 0.0);
    let own = blur.own_composite.unwrap();
    assert_eq!(value(own.corner_radius), 9.0);
    assert_eq!(own.panel_rect, around.corners.panel_rect);
    assert!(panel.data.frosted_final_binding);

    let clip = (0, 0, 1, 1);
    assert_eq!(
        panel.widget_bounds(clip),
        (single(0.0), single(0.0), single(200.0), single(400.0))
    );
    assert!(panel.render(5, 6).own_composite);

    // A second panel elsewhere asks for no other textures.
    let mut other = VideoPrimitive::new(VIDEO_ID_FROSTED);
    other.update_frame(frame(VIDEO_ID_FROSTED, 4, 4, PixelFormat::RGBA));
    let corner = (single(0.0), single(0.0), single(1.0), single(1.0));
    let elsewhere = Surroundings { bounds: corner, ..around };
    let stage = other.prepare_frame(&mut pipeline, &elsewhere, 100, 0);
    assert_eq!(stage.create_targets, None);
    assert!(matches!(stage.upload.unwrap().1, UploadAction::Duplicate));

    // A copy does not inherit what was put in place for one drawing.
    let copy = panel.clone();
    assert!(!copy.data.frosted_final_binding);
    assert_eq!(copy.data.frosted_full_physical, panel.data.frosted_full_physical);
}

#[test]
fn a_transition_blur_follows_its_widget_and_its_frame() {
    let around = surroundings();
    let mut pipeline = VideoPipeline::new();
    let mut widget = VideoPrimitive::new(VIDEO_ID_BLUR);
    let stage = widget.prepare_frame(&mut pipeline, &around, 0, 0);
    assert_eq!(stage.create_targets, Some((70, 80)));
    assert!(stage.upload.is_none());
    let uniforms = widget.prepare_uniforms(&mut pipeline, &around, full_content_rect());
    assert_eq!(uniforms.binding, BindingOutcome::NoTexture);
    assert!(uniforms.source.is_none() && uniforms.blur.is_none());

    widget.update_frame(frame(VIDEO_ID_BLUR, 4, 4, PixelFormat::RGBA));
    widget.prepare_frame(&mut pipeline, &around, 9, 0);
    let uniforms = widget.prepare_uniforms(&mut pipeline, &around, full_content_rect());
    let blur = uniforms.blur.unwrap();
    assert!(blur.own_composite.is_none());
    assert_eq!(blur.composite.dim_factor, widget.dim_factor());
    assert_eq!(widget.widget_bounds((1, 2, 3, 4)), around.bounds);
    pipeline.render(&widget.render(1, 1));
    assert!(pipeline.blur_targets[&VIDEO_ID_BLUR].cached);
    // The same frame again is a duplicate, and still makes the blur stale.
    widget.update_frame(frame(VIDEO_ID_BLUR, 4, 4, PixelFormat::RGBA));
    let stage = widget.prepare_frame(&mut pipeline, &around, 9, 0);
    assert!(matches!(stage.upload.unwrap().1, UploadAction::Duplicate));
    assert!(!pipeline.blur_targets[&VIDEO_ID_BLUR].cached);
}

#[test]
fn a_preblurred_filter_brings_its_own_arguments() {
    let around = surroundings();
    let mut pipeline = VideoPipeline::new();
    let mut widget = VideoPrimitive::new(VIDEO_ID_NORMAL);
    widget.filter_type = FilterType { gpu_code: 12, preblur: true };
    widget.crop_uv = Some((single(0.1), single(0.2), single(0.3), single(0.4)));
    widget.update_frame(frame(VIDEO_ID_NORMAL, 6, 4, PixelFormat::RGBA));
    let stage = widget.prepare_frame(&mut pipeline, &around, 1, 0);
    assert_eq!(stage.create_preblur, Some((6, 4)));
    assert_eq!(stage.create_targets, None);
    let uniforms = widget.prepare_uniforms(&mut pipeline, &around, full_content_rect());
    let source = uniforms.source.unwrap();
    assert_eq!(source.uv_offset, around.visible.uv_offset);
    assert_eq!(source.crop_uv_max, (single(0.3), single(0.4)));
    assert_eq!(value(source.corner_radius), 9.0);
    let filter = uniforms.filter.unwrap();
    assert_eq!(filter.viewport_size, (single(6.0), single(4.0)));
    assert_eq!(filter.filter_mode, 12);
    assert_eq!(value(filter.crop_uv_max.0), 1.0);
    assert_eq!(filter.panel_rect, around.corners.panel_rect);
    assert!(uniforms.blur.is_none());
    let passes = pipeline.render(&widget.render(5, 5));
    assert_eq!(passes[1].binding, PassBinding::OwnPreblur);
}

#[test]
fn a_widget_that_was_never_laid_out_is_drawn_over_its_visible_part() {
    let widget = VideoPrimitive::new(VIDEO_ID_NORMAL);
    let rect = widget.widget_bounds((3, 4, 16_777_217, u32::MAX));
    assert_eq!((value(rect.0), value(rect.1)), (3.0, 4.0));
    assert_eq!((value(rect.2), value(rect.3)), (16_777_216.0, 4_294_967_296.0));
}

#[test]
fn only_frames_that_are_uploaded_need_their_planes() {
    let mut pipeline = VideoPipeline::new();
    let mut broken = frame(VIDEO_ID_NORMAL, 8, 4, PixelFormat::NV12);
    broken.yuv_planes = Some(YuvPlanes { uv_size: 1000, ..planes() });
    assert!(!broken.planes_fit());
    assert_eq!(pipeline.judge(&broken, 5), Verdict::Upload { create: true });
    let empty = VideoFrame { width: 0, ..broken.clone() };
    assert_eq!(pipeline.judge(&empty, 5), Verdict::Empty);
    assert!(matches!(pipeline.upload(&empty, 5, 0), UploadAction::Empty));
    offer(&mut pipeline, &frame(VIDEO_ID_NORMAL, 8, 4, PixelFormat::RGBA), 5, 40);
    assert_eq!(pipeline.judge(&broken, 5), Verdict::Duplicate);
    assert!(matches!(pipeline.upload(&broken, 5, 0), UploadAction::Duplicate));
    assert_eq!(pipeline.judge(&broken, 6), Verdict::Skip);
    assert!(matches!(pipeline.upload(&broken, 6, 0), UploadAction::Skipped { .. }));
}

#[test]
fn step_arguments_carry_the_sampled_size() {
    let steps = kawase_chain(200, 400, 2);
    let scale = (single(0.5), single(0.5));
    let uniform = step_uniform(&steps[1], scale, single(1.25));
    assert_eq!(uniform.viewport_size, (single(100.0), single(200.0)));
    assert_eq!((uniform.uv_scale, uniform.kawase_offset), (scale, single(1.25)));
}

#[test]
fn pipelines_are_put_together_from_their_parts() {
    let rgba = pipeline_recipe(PassShader::Rgba);
    assert_eq!(
        rgba.parts,
        [
            ShaderPart::Filters,
            ShaderPart::TextureFilters,
            ShaderPart::Geometry,
            ShaderPart::VideoBody
        ]
    );
    assert_eq!((rgba.fragment_entry, rgba.blend), ("fs_main", Blend::Alpha));
    let down = pipeline_recipe(PassShader::KawaseDown);
    assert_eq!((down.fragment_entry, down.blend), ("fs_down", Blend::Replace));
    assert_eq!(pipeline_recipe(PassShader::KawaseUp).fragment_entry, "fs_up");
    assert_eq!(down.layout, Layout::Blur);
    let preblur = pipeline_recipe(PassShader::Preblur);
    assert_eq!((preblur.layout, preblur.blend), (Layout::Source, Blend::Replace));
    assert_eq!(
        pipeline_recipe(PassShader::FrostedComposite).parts,
        [ShaderPart::Geometry, ShaderPart::FrostedBody]
    );
    assert_eq!(pipeline_recipe(PassShader::BlurTransform).parts.len(), 3);
    assert_eq!(
        render_slots(),
        [Slot::Texture { filtered: true }, Slot::FilteringSampler, Slot::Uniform]
    );
    assert_eq!(conversion_slots().len(), 5);
    assert_eq!(conversion_slots()[3], Slot::Output);
    let parts = vec!["a".to_string(), "b".to_string(), String::new(), "c".to_string()];
    assert_eq!(compose_source(&parts), "a\nb\n\nc");
    assert_eq!(compose_source(&vec!["one".to_string()]), "one");
    assert_eq!(compose_source(&Vec::new()), "");
}

#[test]
fn the_transition_keeps_its_frame_while_the_preview_moves_on() {
    let mut pipeline = VideoPipeline::new();
    offer(&mut pipeline, &frame(VIDEO_ID_BLUR, 4, 4, PixelFormat::RGBA), 1, 1);
    pipeline.get_or_create_binding(VIDEO_ID_BLUR, 0);
    let frozen = pipeline.textures[&VIDEO_ID_BLUR];
    for (ptr, id) in [(2, VIDEO_ID_NORMAL), (3, VIDEO_ID_FROSTED), (4, VIDEO_ID_FILTER_PREVIEW)] {
        offer(&mut pipeline, &frame(id, 8, 8, PixelFormat::RGBA), ptr, 1);
    }
    assert_eq!(pipeline.textures[&VIDEO_ID_BLUR], frozen);
    assert!(pipeline.has_binding(VIDEO_ID_BLUR, 0));
}

#[test]
fn every_widget_with_a_frame_is_drawn() {
    let around = surroundings();
    let mut pipeline = VideoPipeline::new();
    let plain = FilterType { gpu_code: 0, preblur: false };
    let pencil = FilterType { gpu_code: 12, preblur: true };
    let mut drawn = |id: u64, filter: FilterType, ptr: usize| -> Vec<PassBinding> {
        let mut widget = VideoPrimitive::new(id);
        widget.filter_type = filter;
        widget.update_frame(frame(id, 6, 4, PixelFormat::RGBA));
        widget.prepare_frame(&mut pipeline, &around, ptr, 0);
        widget.prepare_uniforms(&mut pipeline, &around, full_content_rect());
        pipeline.render(&widget.render(5, 5)).iter().map(|pass| pass.binding).collect()
    };
    assert_eq!(drawn(VIDEO_ID_NORMAL, plain, 1), [PassBinding::Source]);
    assert_eq!(
        drawn(VIDEO_ID_FILTER_PREVIEW, pencil, 1),
        [PassBinding::Source, PassBinding::OwnPreblur]
    );
    let frosted = drawn(VIDEO_ID_FROSTED, plain, 1);
    assert_eq!(frosted.len(), 10);
    assert_eq!(frosted[1], PassBinding::BlurStep(0));
    assert_eq!(frosted[9], PassBinding::OwnComposite);
    assert_eq!(drawn(VIDEO_ID_BLUR, plain, 2).last(), Some(&PassBinding::SharedComposite));
}
