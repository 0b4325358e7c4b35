use vstd::prelude::*;
use vstd::std_specs::bits::u32_trailing_zeros;

use crate::phase_items::TransmissiveIsosurface;

verus! {

/// Pipeline key flag: the view renders to a high-dynamic-range target.
pub const KEY_HDR: u64 = 1 << 0;

/// Pipeline key flag: tone mapping runs in the shader.
pub const KEY_TONEMAP_IN_SHADER: u64 = 1 << 1;

/// Pipeline key flag: deband dithering is on.
pub const KEY_DEBAND_DITHER: u64 = 1 << 2;

/// Pipeline key flag: the view has a depth prepass.
pub const KEY_DEPTH_PREPASS: u64 = 1 << 3;

/// Pipeline key flag: the view has a normal prepass.
pub const KEY_NORMAL_PREPASS: u64 = 1 << 4;

/// Pipeline key flag: the view has a deferred prepass.
pub const KEY_DEFERRED_PREPASS: u64 = 1 << 5;

/// Pipeline key flag: the view has a motion-vector prepass.
pub const KEY_MOTION_VECTOR_PREPASS: u64 = 1 << 6;

/// Pipeline key flag: the fragment shader may discard, so early depth
/// testing is restricted.
pub const KEY_MAY_DISCARD: u64 = 1 << 7;

/// Pipeline key flag: the view has environment-map light probes.
pub const KEY_ENVIRONMENT_MAP: u64 = 1 << 8;

/// Pipeline key flag: screen-space ambient occlusion is on.
pub const KEY_SCREEN_SPACE_AMBIENT_OCCLUSION: u64 = 1 << 9;

/// Pipeline key flag: the view applies temporal jitter.
pub const KEY_TEMPORAL_JITTER: u64 = 1 << 11;

/// Pipeline key flag: the view has irradiance-volume light probes.
pub const KEY_IRRADIANCE_VOLUME: u64 = 1 << 14;

/// Pipeline key flag: order-independent transparency is on.
pub const KEY_OIT_ENABLED: u64 = 1 << 19;

/// The three bits starting here hold the log2 of the MSAA sample count.
pub const KEY_MSAA_SHIFT: u64 = 20;

/// The three bits starting at bit 23 hold the blend state.
pub const KEY_BLEND_RESERVED_BITS: u64 = 7 << 23;

pub const KEY_BLEND_OPAQUE: u64 = 0 << 23;

pub const KEY_BLEND_PREMULTIPLIED_ALPHA: u64 = 1 << 23;

pub const KEY_BLEND_MULTIPLY: u64 = 2 << 23;

pub const KEY_BLEND_ALPHA: u64 = 3 << 23;

pub const KEY_BLEND_ALPHA_TO_COVERAGE: u64 = 4 << 23;

/// The three bits starting at bit 26 hold the tone-mapping method.
pub const KEY_TONEMAP_METHOD_NONE: u64 = 0 << 26;

pub const KEY_TONEMAP_METHOD_REINHARD: u64 = 1 << 26;

pub const KEY_TONEMAP_METHOD_REINHARD_LUMINANCE: u64 = 2 << 26;

pub const KEY_TONEMAP_METHOD_ACES_FITTED: u64 = 3 << 26;

pub const KEY_TONEMAP_METHOD_AGX: u64 = 4 << 26;

pub const KEY_TONEMAP_METHOD_SOMEWHAT_BORING_DISPLAY_TRANSFORM: u64 = 5 << 26;

pub const KEY_TONEMAP_METHOD_TONY_MC_MAPFACE: u64 = 6 << 26;

pub const KEY_TONEMAP_METHOD_BLENDER_FILMIC: u64 = 7 << 26;

/// The two bits starting at bit 29 hold the shadow filtering method.
pub const KEY_SHADOW_FILTER_METHOD_HARDWARE_2X2: u64 = 0 << 29;

pub const KEY_SHADOW_FILTER_METHOD_GAUSSIAN: u64 = 1 << 29;

pub const KEY_SHADOW_FILTER_METHOD_TEMPORAL: u64 = 2 << 29;

/// The two bits starting at bit 31 hold the view projection class.
pub const KEY_VIEW_PROJECTION_PERSPECTIVE: u64 = 1 << 31;

pub const KEY_VIEW_PROJECTION_ORTHOGRAPHIC: u64 = 2 << 31;

/// The two bits starting at bit 33 hold the specular transmission
/// quality.
pub const KEY_SCREEN_SPACE_SPECULAR_TRANSMISSION_LOW: u64 = 0 << 33;

pub const KEY_SCREEN_SPACE_SPECULAR_TRANSMISSION_MEDIUM: u64 = 1 << 33;

pub const KEY_SCREEN_SPACE_SPECULAR_TRANSMISSION_HIGH: u64 = 2 << 33;

pub const KEY_SCREEN_SPACE_SPECULAR_TRANSMISSION_ULTRA: u64 = 3 << 33;

/// The view's projection class.
#[derive(Clone, Copy, Debug, PartialEq, Eq, Structural)]
pub enum ProjectionKind {
    Perspective,
    Orthographic,
}

/// How shadow maps are filtered.
#[derive(Clone, Copy, Debug, PartialEq, Eq, Structural)]
pub enum ShadowFilteringMethod {
    Hardware2x2,
    Gaussian,
    Temporal,
}

/// The tone-mapping curve applied in the shader; `Disabled` is the
/// method slot's zero value, no curve at all.
#[derive(Clone, Copy, Debug, PartialEq, Eq, Structural)]
pub enum Tonemapping {
    Disabled,
    Reinhard,
    ReinhardLuminance,
    AcesFitted,
    AgX,
    SomewhatBoringDisplayTransform,
    TonyMcMapface,
    BlenderFilmic,
}

/// Quality of the screen-space specular transmission blur.
#[derive(Clone, Copy, Debug, PartialEq, Eq, Structural)]
pub enum TransmissionQuality {
    Low,
    Medium,
    High,
    Ultra,
}

/// How a material blends, as far as the pipeline key cares.
#[derive(Clone, Copy, Debug, PartialEq, Eq, Structural)]
pub enum AlphaMode {
    Opaque,
    Mask,
    Blend,
    Premultiplied,
    Add,
    Multiply,
    AlphaToCoverage,
}

/// The key bits a material's alpha mode contributes.  Premultiplied and
/// additive blending share one key (the shader tells them apart), a mask
/// discards, and alpha-to-coverage falls back to discarding when MSAA is
/// off (one sample).
pub open spec fn spec_alpha_mode_pipeline_key(alpha_mode: AlphaMode, msaa_samples: u32) -> u64 {
    match alpha_mode {
        AlphaMode::Premultiplied | AlphaMode::Add => KEY_BLEND_PREMULTIPLIED_ALPHA,
        AlphaMode::Blend => KEY_BLEND_ALPHA,
        AlphaMode::Multiply => KEY_BLEND_MULTIPLY,
        AlphaMode::Mask => KEY_MAY_DISCARD,
        AlphaMode::AlphaToCoverage => if msaa_samples == 1 {
            KEY_MAY_DISCARD
        } else {
            KEY_BLEND_ALPHA_TO_COVERAGE
        },
        AlphaMode::Opaque => 0,
    }
}

pub fn alpha_mode_pipeline_key(alpha_mode: AlphaMode, msaa_samples: u32) -> (r: u64)
    ensures
        r == spec_alpha_mode_pipeline_key(alpha_mode, msaa_samples),
{
    match alpha_mode {
        AlphaMode::Premultiplied | AlphaMode::Add => KEY_BLEND_PREMULTIPLIED_ALPHA,
        AlphaMode::Blend => KEY_BLEND_ALPHA,
        AlphaMode::Multiply => KEY_BLEND_MULTIPLY,
        AlphaMode::Mask => KEY_MAY_DISCARD,
        AlphaMode::AlphaToCoverage => if msaa_samples == 1 {
            KEY_MAY_DISCARD
        } else {
            KEY_BLEND_ALPHA_TO_COVERAGE
        },
        AlphaMode::Opaque => 0,
    }
}

/// The key bits a tone-mapping method contributes.
pub open spec fn spec_tonemapping_pipeline_key(tonemapping: Tonemapping) -> u64 {
    match tonemapping {
        Tonemapping::Disabled => KEY_TONEMAP_METHOD_NONE,
        Tonemapping::Reinhard => KEY_TONEMAP_METHOD_REINHARD,
        Tonemapping::ReinhardLuminance => KEY_TONEMAP_METHOD_REINHARD_LUMINANCE,
        Tonemapping::AcesFitted => KEY_TONEMAP_METHOD_ACES_FITTED,
        Tonemapping::AgX => KEY_TONEMAP_METHOD_AGX,
        Tonemapping::SomewhatBoringDisplayTransform => KEY_TONEMAP_METHOD_SOMEWHAT_BORING_DISPLAY_TRANSFORM,
        Tonemapping::TonyMcMapface => KEY_TONEMAP_METHOD_TONY_MC_MAPFACE,
        Tonemapping::BlenderFilmic => KEY_TONEMAP_METHOD_BLENDER_FILMIC,
    }
}

pub fn tonemapping_pipeline_key(tonemapping: Tonemapping) -> (r: u64)
    ensures
        r == spec_tonemapping_pipeline_key(tonemapping),
{
    match tonemapping {
        Tonemapping::Disabled => KEY_TONEMAP_METHOD_NONE,
        Tonemapping::Reinhard => KEY_TONEMAP_METHOD_REINHARD,
        Tonemapping::ReinhardLuminance => KEY_TONEMAP_METHOD_REINHARD_LUMINANCE,
        Tonemapping::AcesFitted => KEY_TONEMAP_METHOD_ACES_FITTED,
        Tonemapping::AgX => KEY_TONEMAP_METHOD_AGX,
        Tonemapping::SomewhatBoringDisplayTransform => KEY_TONEMAP_METHOD_SOMEWHAT_BORING_DISPLAY_TRANSFORM,
        Tonemapping::TonyMcMapface => KEY_TONEMAP_METHOD_TONY_MC_MAPFACE,
        Tonemapping::BlenderFilmic => KEY_TONEMAP_METHOD_BLENDER_FILMIC,
    }
}

/// The key bits a transmission quality contributes.
pub open spec fn spec_transmission_pipeline_key(quality: TransmissionQuality) -> u64 {
    match quality {
        TransmissionQuality::Low => KEY_SCREEN_SPACE_SPECULAR_TRANSMISSION_LOW,
        TransmissionQuality::Medium => KEY_SCREEN_SPACE_SPECULAR_TRANSMISSION_MEDIUM,
        TransmissionQuality::High => KEY_SCREEN_SPACE_SPECULAR_TRANSMISSION_HIGH,
        TransmissionQuality::Ultra => KEY_SCREEN_SPACE_SPECULAR_TRANSMISSION_ULTRA,
    }
}

pub fn screen_space_specular_transmission_pipeline_key(quality: TransmissionQuality) -> (r: u64)
    ensures
        r == spec_transmission_pipeline_key(quality),
{
    match quality {
        TransmissionQuality::Low => KEY_SCREEN_SPACE_SPECULAR_TRANSMISSION_LOW,
        TransmissionQuality::Medium => KEY_SCREEN_SPACE_SPECULAR_TRANSMISSION_MEDIUM,
        TransmissionQuality::High => KEY_SCREEN_SPACE_SPECULAR_TRANSMISSION_HIGH,
        TransmissionQuality::Ultra => KEY_SCREEN_SPACE_SPECULAR_TRANSMISSION_ULTRA,
    }
}

/// Everything about the view that shapes the pipeline key, already
/// reduced to plain values by the host's view query.
#[derive(Clone, Copy, Debug, PartialEq)]
pub struct ViewKeyInputs {
    pub msaa_samples: u32,
    pub hdr: bool,
    pub normal_prepass: bool,
    pub depth_prepass: bool,
    pub motion_vector_prepass: bool,
    pub deferred_prepass: bool,
    pub temporal_jitter: bool,
    pub environment_maps: bool,
    pub irradiance_volumes: bool,
    pub oit_enabled: bool,
    pub projection: Option<ProjectionKind>,
    /// Absent means the view carries no explicit method; the default
    /// filter (Gaussian) applies.
    pub shadow_filter: Option<ShadowFilteringMethod>,
    pub tonemapping: Option<Tonemapping>,
    pub deband_dither: bool,
    pub ssao: bool,
    /// Absent when the view has no 3d camera settings.
    pub transmission_quality: Option<TransmissionQuality>,
}

/// The view-level half of the mesh pipeline key.
pub open spec fn spec_view_key(v: ViewKeyInputs) -> u64 {
    (((u32_trailing_zeros(v.msaa_samples) & 7) as u64) << KEY_MSAA_SHIFT) | (if v.hdr {
        KEY_HDR
    } else {
        0
    }) | (if v.normal_prepass {
        KEY_NORMAL_PREPASS
    } else {
        0
    }) | (if v.depth_prepass {
        KEY_DEPTH_PREPASS
    } else {
        0
    }) | (if v.motion_vector_prepass {
        KEY_MOTION_VECTOR_PREPASS
    } else {
        0
    }) | (if v.deferred_prepass {
        KEY_DEFERRED_PREPASS
    } else {
        0
    }) | (if v.temporal_jitter {
        KEY_TEMPORAL_JITTER
    } else {
        0
    }) | (if v.environment_maps {
        KEY_ENVIRONMENT_MAP
    } else {
        0
    }) | (if v.irradiance_volumes {
        KEY_IRRADIANCE_VOLUME
    } else {
        0
    }) | (if v.oit_enabled {
        KEY_OIT_ENABLED
    } else {
        0
    }) | (match v.projection {
        Some(ProjectionKind::Perspective) => KEY_VIEW_PROJECTION_PERSPECTIVE,
        Some(ProjectionKind::Orthographic) => KEY_VIEW_PROJECTION_ORTHOGRAPHIC,
        None => 0,
    }) | (match v.shadow_filter {
        Some(ShadowFilteringMethod::Hardware2x2) => KEY_SHADOW_FILTER_METHOD_HARDWARE_2X2,
        Some(ShadowFilteringMethod::Temporal) => KEY_SHADOW_FILTER_METHOD_TEMPORAL,
        Some(ShadowFilteringMethod::Gaussian) | None => KEY_SHADOW_FILTER_METHOD_GAUSSIAN,
    }) | (if !v.hdr {
        (match v.tonemapping {
            Some(t) => KEY_TONEMAP_IN_SHADER | spec_tonemapping_pipeline_key(t),
            None => 0,
        }) | (if v.deband_dither {
            KEY_DEBAND_DITHER
        } else {
            0
        })
    } else {
        0
    }) | (if v.ssao {
        KEY_SCREEN_SPACE_AMBIENT_OCCLUSION
    } else {
        0
    }) | (match v.transmission_quality {
        Some(q) => spec_transmission_pipeline_key(q),
        None => 0,
    })
}

/// Build the view-level half of the mesh pipeline key.
pub fn view_key_bits(v: &ViewKeyInputs) -> (r: u64)
    ensures
        r == spec_view_key(*v),
{
    (((v.msaa_samples.trailing_zeros() & 7) as u64) << KEY_MSAA_SHIFT) | (if v.hdr {
        KEY_HDR
    } else {
        0
    }) | (if v.normal_prepass {
        KEY_NORMAL_PREPASS
    } else {
        0
    }) | (if v.depth_prepass {
        KEY_DEPTH_PREPASS
    } else {
        0
    }) | (if v.motion_vector_prepass {
        KEY_MOTION_VECTOR_PREPASS
    } else {
        0
    }) | (if v.deferred_prepass {
        KEY_DEFERRED_PREPASS
    } else {
        0
    }) | (if v.temporal_jitter {
        KEY_TEMPORAL_JITTER
    } else {
        0
    }) | (if v.environment_maps {
        KEY_ENVIRONMENT_MAP
    } else {
        0
    }) | (if v.irradiance_volumes {
        KEY_IRRADIANCE_VOLUME
    } else {
        0
    }) | (if v.oit_enabled {
        KEY_OIT_ENABLED
    } else {
        0
    }) | (match v.projection {
        Some(ProjectionKind::Perspective) => KEY_VIEW_PROJECTION_PERSPECTIVE,
        Some(ProjectionKind::Orthographic) => KEY_VIEW_PROJECTION_ORTHOGRAPHIC,
        None => 0,
    }) | (match v.shadow_filter {
        Some(ShadowFilteringMethod::Hardware2x2) => KEY_SHADOW_FILTER_METHOD_HARDWARE_2X2,
        Some(ShadowFilteringMethod::Temporal) => KEY_SHADOW_FILTER_METHOD_TEMPORAL,
        Some(ShadowFilteringMethod::Gaussian) | None => KEY_SHADOW_FILTER_METHOD_GAUSSIAN,
    }) | (if !v.hdr {
        (match v.tonemapping {
            Some(t) => KEY_TONEMAP_IN_SHADER | tonemapping_pipeline_key(t),
            None => 0,
        }) | (if v.deband_dither {
            KEY_DEBAND_DITHER
        } else {
            0
        })
    } else {
        0
    }) | (if v.ssao {
        KEY_SCREEN_SPACE_AMBIENT_OCCLUSION
    } else {
        0
    }) | (match v.transmission_quality {
        Some(q) => screen_space_specular_transmission_pipeline_key(q),
        None => 0,
    })
}

/// The per-view ids of the four registered draw functions.
#[derive(Clone, Copy, Debug, PartialEq, Eq, Structural)]
pub struct DrawFunctionIds {
    pub opaque: u64,
    pub alpha_mask: u64,
    pub transmissive: u64,
    pub transparent: u64,
}

/// Everything the queue step reads about one visible instance once the
/// host has looked up its material, mesh data and specialized pipeline.
#[derive(Clone, Copy, Debug, PartialEq, Eq, Structural)]
pub struct CandidateData {
    pub mesh_asset_id: u64,
    pub material_bind_group_id: Option<u32>,
    pub alpha_mode: AlphaMode,
    pub mesh_pipeline_key_bits: u64,
    pub reads_view_transmission_texture: bool,
    /// The material renders through the forward path.
    pub render_method_forward: bool,
    /// The specialized pipeline id; absent when specialization failed
    /// (logged by the host, instance skipped).
    pub pipeline_id: Option<u64>,
    /// Monotone bit encoding of the view distance plus the material's
    /// depth bias; the host computes the floating-point value.
    pub distance_key: u32,
}

/// One visible instance of the view: the pair of render and main entity,
/// and the looked-up data if every lookup succeeded.
#[derive(Clone, Copy, Debug, PartialEq, Eq, Structural)]
pub struct QueueCandidate {
    pub render_entity: u64,
    pub visible_entity: u64,
    /// Absent when the material, mesh data or prepared material was not
    /// found; such an instance is skipped for the frame.
    pub lookup: Option<CandidateData>,
}

/// Bin key of an opaque phase entry.
#[derive(Clone, Copy, Debug, PartialEq, Eq, Structural)]
pub struct OpaqueBinKey {
    pub draw_function: u64,
    pub pipeline: u64,
    pub asset_id: u64,
    pub material_bind_group_id: Option<u32>,
    pub lightmap_image: Option<u64>,
}

/// Bin key of an alpha-mask phase entry.
#[derive(Clone, Copy, Debug, PartialEq, Eq, Structural)]
pub struct AlphaMaskBinKey {
    pub draw_function: u64,
    pub pipeline: u64,
    pub asset_id: u64,
    pub material_bind_group_id: Option<u32>,
}

/// Where one instance was queued this frame.
#[derive(Clone, Copy, Debug, PartialEq)]
pub enum QueuedPhaseItem {
    Opaque { key: OpaqueBinKey, render_entity: u64, visible_entity: u64 },
    AlphaMask { key: AlphaMaskBinKey, render_entity: u64, visible_entity: u64 },
    Transmissive { item: TransmissiveIsosurface },
    Transparent { item: TransmissiveIsosurface },
}

/// A sorted-phase item for one candidate.
pub open spec fn spec_sorted_item(
    c: QueueCandidate,
    d: CandidateData,
    pipeline_id: u64,
    draw_function: u64,
) -> TransmissiveIsosurface {
    TransmissiveIsosurface {
        distance_key: d.distance_key,
        pipeline: pipeline_id,
        entity: c.render_entity,
        draw_function,
        batch_range: (0, 1),
        dynamic_offset: None,
    }
}

/// Where one candidate lands, or nothing when a lookup or pipeline
/// specialization failed.  The blend bits of the full mesh key pick the
/// phase: opaque-like blending goes to the transmissive phase if the
/// material reads the transmission texture, else to the opaque bins of
/// the forward path; a discarding material likewise, into the alpha-mask
/// bins; everything else is transparent and sorted by distance.
pub open spec fn spec_queued_item(
    c: QueueCandidate,
    view_key: u64,
    fns: DrawFunctionIds,
    msaa_samples: u32,
) -> Option<QueuedPhaseItem> {
    match c.lookup {
        None => None,
        Some(d) => match d.pipeline_id {
            None => None,
            Some(pipeline_id) => {
                let mesh_key = view_key | d.mesh_pipeline_key_bits
                    | spec_alpha_mode_pipeline_key(d.alpha_mode, msaa_samples);
                let selector = mesh_key & (KEY_BLEND_RESERVED_BITS | KEY_MAY_DISCARD);
                if selector == KEY_BLEND_OPAQUE || selector == KEY_BLEND_ALPHA_TO_COVERAGE {
                    if d.reads_view_transmission_texture {
                        Some(
                            QueuedPhaseItem::Transmissive {
                                item: spec_sorted_item(c, d, pipeline_id, fns.transmissive),
                            },
                        )
                    } else if d.render_method_forward {
                        Some(
                            QueuedPhaseItem::Opaque {
                                key: OpaqueBinKey {
                                    draw_function: fns.opaque,
                                    pipeline: pipeline_id,
                                    asset_id: d.mesh_asset_id,
                                    material_bind_group_id: d.material_bind_group_id,
                                    lightmap_image: None,
                                },
                                render_entity: c.render_entity,
                                visible_entity: c.visible_entity,
                            },
                        )
                    } else {
                        None
                    }
                } else if selector == KEY_MAY_DISCARD {
                    if d.reads_view_transmission_texture {
                        Some(
                            QueuedPhaseItem::Transmissive {
                                item: spec_sorted_item(c, d, pipeline_id, fns.transmissive),
                            },
                        )
                    } else if d.render_method_forward {
                        Some(
                            QueuedPhaseItem::AlphaMask {
                                key: AlphaMaskBinKey {
                                    draw_function: fns.alpha_mask,
                                    pipeline: pipeline_id,
                                    asset_id: d.mesh_asset_id,
                                    material_bind_group_id: d.material_bind_group_id,
                                },
                                render_entity: c.render_entity,
                                visible_entity: c.visible_entity,
                            },
                        )
                    } else {
                        None
                    }
                } else {
                    Some(
                        QueuedPhaseItem::Transparent {
                            item: spec_sorted_item(c, d, pipeline_id, fns.transparent),
                        },
                    )
                }
            },
        },
    }
}

/// The whole view's queue: each candidate's phase entry, in query order,
/// skipped candidates dropped.
pub open spec fn spec_queue_plan(
    rows: Seq<QueueCandidate>,
    view_key: u64,
    fns: DrawFunctionIds,
    msaa_samples: u32,
) -> Seq<QueuedPhaseItem>
    decreases rows.len(),
{
    if rows.len() == 0 {
        Seq::empty()
    } else {
        spec_queue_plan(rows.drop_last(), view_key, fns, msaa_samples) + match spec_queued_item(
            rows.last(),
            view_key,
            fns,
            msaa_samples,
        ) {
            Some(item) => seq![item],
            None => Seq::empty(),
        }
    }
}

/// Resolve one candidate.
fn queued_item_for(
    c: &QueueCandidate,
    view_key: u64,
    fns: &DrawFunctionIds,
    msaa_samples: u32,
) -> (r: Option<QueuedPhaseItem>)
    ensures
        r == spec_queued_item(*c, view_key, *fns, msaa_samples),
{
    match c.lookup {
        None => None,
        Some(d) => match d.pipeline_id {
            None => None,
            Some(pipeline_id) => {
                let mesh_key = view_key | d.mesh_pipeline_key_bits | alpha_mode_pipeline_key(
                    d.alpha_mode,
                    msaa_samples,
                );
                let selector = mesh_key & (KEY_BLEND_RESERVED_BITS | KEY_MAY_DISCARD);
                let sorted_item = TransmissiveIsosurface {
                    distance_key: d.distance_key,
                    pipeline: pipeline_id,
                    entity: c.render_entity,
                    draw_function: fns.transmissive,
                    batch_range: (0, 1),
                    dynamic_offset: None,
                };
                if selector == KEY_BLEND_OPAQUE || selector == KEY_BLEND_ALPHA_TO_COVERAGE {
                    if d.reads_view_transmission_texture {
                        Some(QueuedPhaseItem::Transmissive { item: sorted_item })
                    } else if d.render_method_forward {
                        Some(
                            QueuedPhaseItem::Opaque {
                                key: OpaqueBinKey {
                                    draw_function: fns.opaque,
                                    pipeline: pipeline_id,
                                    asset_id: d.mesh_asset_id,
                                    material_bind_group_id: d.material_bind_group_id,
                                    lightmap_image: None,
                                },
                                render_entity: c.render_entity,
                                visible_entity: c.visible_entity,
                            },
                        )
                    } else {
                        None
                    }
                } else if selector == KEY_MAY_DISCARD {
                    if d.reads_view_transmission_texture {
                        Some(QueuedPhaseItem::Transmissive { item: sorted_item })
                    } else if d.render_method_forward {
                        Some(
                            QueuedPhaseItem::AlphaMask {
                                key: AlphaMaskBinKey {
                                    draw_function: fns.alpha_mask,
                                    pipeline: pipeline_id,
                                    asset_id: d.mesh_asset_id,
                                    material_bind_group_id: d.material_bind_group_id,
                                },
                                render_entity: c.render_entity,
                                visible_entity: c.visible_entity,
                            },
                        )
                    } else {
                        None
                    }
                } else {
                    let transparent_item = TransmissiveIsosurface {
                        draw_function: fns.transparent,
                        ..sorted_item
                    };
                    Some(QueuedPhaseItem::Transparent { item: transparent_item })
                }
            },
        },
    }
}

/// Queue every visible isosurface instance of one view into its render
/// phase.  The result lists one entry per candidate whose lookups and
/// pipeline specialization succeeded, in query order; the host feeds
/// each entry to the named phase.
pub fn queue_material_isosurfaces(
    view: &ViewKeyInputs,
    draw_functions: &DrawFunctionIds,
    candidates: &Vec<QueueCandidate>,
) -> (r: Vec<QueuedPhaseItem>)
    ensures
        r@ == spec_queue_plan(
            candidates@,
            spec_view_key(*view),
            *draw_functions,
            view.msaa_samples,
        ),
{
    let view_key = view_key_bits(view);
    let mut r: Vec<QueuedPhaseItem> = Vec::new();
    let n = candidates.len();
    let mut i: usize = 0;
    while i < n
        invariant
            n == candidates@.len(),
            i <= n,
            view_key == spec_view_key(*view),
            r@ == spec_queue_plan(
                candidates@.take(i as int),
                view_key,
                *draw_functions,
                view.msaa_samples,
            ),
        decreases n - i,
    {
        let ghost prefix = candidates@.take(i as int);
        match queued_item_for(&candidates[i], view_key, draw_functions, view.msaa_samples) {
            Some(item) => {
                r.push(item);
            },
            None => {},
        }
        proof {
            let next = candidates@.take(i + 1 as int);
            assert(next.drop_last() =~= prefix);
            assert(next.last() == candidates@[i as int]);
            assert(r@ =~= spec_queue_plan(next, view_key, *draw_functions, view.msaa_samples));
        }
        i = i + 1;
    }
    proof {
        assert(candidates@.take(n as int) =~= candidates@);
    }
    r
}

} // verus!
