//! The six compute passes: what each one creates, binds, hands on and pushes.
use vstd::prelude::*;

use crate::cfa::{shift_x, shift_y};
use crate::frame::{lemma_area_bound, output_bytes, FrameParams};

verus! {

/// One compute pass of the chain, in the order the chain runs them.
#[derive(Clone, Copy, Debug, PartialEq, Eq, Structural)]
pub enum StageKind {
    /// Shifts the mosaic so that its top-left tile is RGGB.
    ShiftBayer,
    /// Black-level subtraction, white balance and normalization to [0, 1].
    Normalize,
    /// Interpolates the missing Bayer samples into RGBA.
    Demosaic,
    /// Multiplies every pixel by the color-correction matrix, in place.
    ColorCorrection,
    /// Applies the display transfer curve, in place.
    GammaCorrection,
    /// Writes 8-bit unorm pixels and stages them for the host.
    Quantize,
}

/// Number of passes in the chain.
pub const STAGE_COUNT: usize = 6;

/// Pixel formats of the chain's storage images.
#[derive(Clone, Copy, Debug, PartialEq, Eq, Structural)]
pub enum ImageFormat {
    R16Uint,
    R16Sfloat,
    R16G16B16A16Sfloat,
    R8G8B8A8Unorm,
}

/// How an image may be used.
#[derive(Clone, Copy, Debug, PartialEq, Eq, Structural)]
pub struct ImageUsage {
    pub storage: bool,
    pub transfer_src: bool,
    pub transfer_dst: bool,
}

/// A device-local image a pass creates.
#[derive(Clone, Copy, Debug, PartialEq, Eq, Structural)]
pub struct ImageSpec {
    pub format: ImageFormat,
    pub width: u32,
    pub height: u32,
    pub depth: u32,
    pub usage: ImageUsage,
}

/// Where an image view comes from: the previous pass's output bundle, or
/// the images this pass creates, by position.
#[derive(Clone, Copy, Debug, PartialEq, Eq, Structural)]
pub enum ViewSource {
    Input(usize),
    Created(usize),
}

/// One storage-image binding of descriptor set 0; its binding number is its
/// position. `format` is the format the pass's shader declares there.
#[derive(Clone, Copy, Debug, PartialEq, Eq, Structural)]
pub struct Binding {
    pub source: ViewSource,
    pub format: ImageFormat,
}

/// Everything a pass needs provisioned and recorded.
///
/// `upload_len`: bytes of a host-visible, sequential-write staging buffer that
/// receives the raw mosaic and is copied into created image 0 in a submission
/// of its own, before the chain runs.
/// `readback_len`: bytes of a host-visible staging buffer that created image 0
/// is copied into, in a submission of its own, after the chain ran.
pub struct StagePlan {
    pub kind: StageKind,
    pub upload_len: Option<u64>,
    pub images: Vec<ImageSpec>,
    pub bindings: Vec<Binding>,
    pub outputs: Vec<ViewSource>,
    pub push_constants: Vec<u32>,
    pub readback_len: Option<u64>,
}

pub struct StagePlanView {
    pub kind: StageKind,
    pub upload_len: Option<u64>,
    pub images: Seq<ImageSpec>,
    pub bindings: Seq<Binding>,
    pub outputs: Seq<ViewSource>,
    pub push_constants: Seq<u32>,
    pub readback_len: Option<u64>,
}

impl View for StagePlan {
    type V = StagePlanView;

    open spec fn view(&self) -> StagePlanView {
        StagePlanView {
            kind: self.kind,
            upload_len: self.upload_len,
            images: self.images@,
            bindings: self.bindings@,
            outputs: self.outputs@,
            push_constants: self.push_constants@,
            readback_len: self.readback_len,
        }
    }
}

/// The pass at position `i` of the chain.
pub open spec fn kind_at(i: int) -> StageKind {
    if i == 0 {
        StageKind::ShiftBayer
    } else if i == 1 {
        StageKind::Normalize
    } else if i == 2 {
        StageKind::Demosaic
    } else if i == 3 {
        StageKind::ColorCorrection
    } else if i == 4 {
        StageKind::GammaCorrection
    } else {
        StageKind::Quantize
    }
}

pub open spec fn storage_only() -> ImageUsage {
    ImageUsage { storage: true, transfer_src: false, transfer_dst: false }
}

/// A frame-sized image.
pub open spec fn frame_image(p: FrameParams, format: ImageFormat, usage: ImageUsage) -> ImageSpec {
    ImageSpec { format, width: p.width, height: p.height, depth: 1, usage }
}

/// The images a pass creates.
pub open spec fn stage_images(k: StageKind, p: FrameParams) -> Seq<ImageSpec> {
    match k {
        StageKind::ShiftBayer => seq![
            frame_image(
                p,
                ImageFormat::R16Uint,
                ImageUsage { storage: true, transfer_src: false, transfer_dst: true },
            ),
            frame_image(p, ImageFormat::R16Uint, storage_only()),
        ],
        StageKind::Normalize => seq![frame_image(p, ImageFormat::R16Sfloat, storage_only())],
        StageKind::Demosaic => seq![frame_image(p, ImageFormat::R16G16B16A16Sfloat, storage_only())],
        StageKind::Quantize => seq![
            frame_image(
                p,
                ImageFormat::R8G8B8A8Unorm,
                ImageUsage { storage: true, transfer_src: true, transfer_dst: false },
            ),
        ],
        _ => seq![],
    }
}

pub open spec fn bind(source: ViewSource, format: ImageFormat) -> Binding {
    Binding { source, format }
}

/// The storage images a pass's shader binds, in binding order.
pub open spec fn stage_bindings(k: StageKind) -> Seq<Binding> {
    match k {
        StageKind::ShiftBayer => seq![
            bind(ViewSource::Created(0), ImageFormat::R16Uint),
            bind(ViewSource::Created(1), ImageFormat::R16Uint),
        ],
        StageKind::Normalize => seq![
            bind(ViewSource::Input(1), ImageFormat::R16Uint),
            bind(ViewSource::Created(0), ImageFormat::R16Sfloat),
        ],
        StageKind::Demosaic => seq![
            bind(ViewSource::Input(0), ImageFormat::R16Sfloat),
            bind(ViewSource::Created(0), ImageFormat::R16G16B16A16Sfloat),
        ],
        StageKind::ColorCorrection => seq![bind(ViewSource::Input(0), ImageFormat::R16G16B16A16Sfloat)],
        StageKind::GammaCorrection => seq![bind(ViewSource::Input(0), ImageFormat::R16G16B16A16Sfloat)],
        StageKind::Quantize => seq![
            bind(ViewSource::Input(0), ImageFormat::R16G16B16A16Sfloat),
            bind(ViewSource::Created(0), ImageFormat::R8G8B8A8Unorm),
        ],
    }
}

/// The views a pass hands on to the next one, in order.
pub open spec fn stage_outputs(k: StageKind) -> Seq<ViewSource> {
    match k {
        StageKind::ShiftBayer => seq![ViewSource::Created(0), ViewSource::Created(1)],
        StageKind::ColorCorrection | StageKind::GammaCorrection => seq![ViewSource::Input(0)],
        _ => seq![ViewSource::Created(0)],
    }
}

/// A 3x3 row-major matrix as three rows of four words, the fourth word of
/// each row a zero pad.
pub open spec fn padded_rows(m: [u32; 9]) -> Seq<u32> {
    seq![m[0], m[1], m[2], 0u32, m[3], m[4], m[5], 0u32, m[6], m[7], m[8], 0u32]
}

/// The push-constant block of a pass, as 32-bit words.
pub open spec fn stage_push_constants(k: StageKind, p: FrameParams) -> Seq<u32> {
    match k {
        StageKind::ShiftBayer => seq![shift_x(p.cfa) as u32, shift_y(p.cfa) as u32],
        StageKind::Normalize => seq![
            p.color_gains[0],
            p.color_gains[1],
            p.color_gains[2],
            p.color_gains[3],
            p.black_level[0] as u32,
            p.black_level[1] as u32,
            p.black_level[2] as u32,
            p.black_level[3] as u32,
            p.white_level as u32,
        ],
        StageKind::Demosaic => seq![p.width, p.height],
        StageKind::ColorCorrection => padded_rows(p.color_correction_transform),
        _ => seq![],
    }
}

/// The whole plan of one pass for one frame.
pub open spec fn stage_plan_spec(k: StageKind, p: FrameParams) -> StagePlanView {
    StagePlanView {
        kind: k,
        upload_len: if k == StageKind::ShiftBayer {
            Some(p.raw_len as u64)
        } else {
            None
        },
        images: stage_images(k, p),
        bindings: stage_bindings(k),
        outputs: stage_outputs(k),
        push_constants: stage_push_constants(k, p),
        readback_len: if k == StageKind::Quantize {
            Some(output_bytes(p.width as int, p.height as int) as u64)
        } else {
            None
        },
    }
}

impl StageKind {
    /// The pass at position `i` of the chain.
    pub fn at(i: usize) -> (r: StageKind)
        requires
            i < STAGE_COUNT,
        ensures
            r == kind_at(i as int),
    {
        match i {
            0 => StageKind::ShiftBayer,
            1 => StageKind::Normalize,
            2 => StageKind::Demosaic,
            3 => StageKind::ColorCorrection,
            4 => StageKind::GammaCorrection,
            _ => StageKind::Quantize,
        }
    }
}

fn new_frame_image(p: &FrameParams, format: ImageFormat, usage: ImageUsage) -> (r: ImageSpec)
    ensures
        r == frame_image(*p, format, usage),
{
    ImageSpec { format, width: p.width, height: p.height, depth: 1, usage }
}

/// The images pass `k` creates, all of the frame's extent.
pub fn images(k: StageKind, p: &FrameParams) -> (r: Vec<ImageSpec>)
    ensures
        r@ == stage_images(k, *p),
{
    let storage = ImageUsage { storage: true, transfer_src: false, transfer_dst: false };
    let r = match k {
        StageKind::ShiftBayer => vec![
            new_frame_image(
                p,
                ImageFormat::R16Uint,
                ImageUsage { storage: true, transfer_src: false, transfer_dst: true },
            ),
            new_frame_image(p, ImageFormat::R16Uint, storage),
        ],
        StageKind::Normalize => vec![new_frame_image(p, ImageFormat::R16Sfloat, storage)],
        StageKind::Demosaic => vec![new_frame_image(p, ImageFormat::R16G16B16A16Sfloat, storage)],
        StageKind::Quantize => vec![
            new_frame_image(
                p,
                ImageFormat::R8G8B8A8Unorm,
                ImageUsage { storage: true, transfer_src: true, transfer_dst: false },
            ),
        ],
        _ => vec![],
    };
    assert(r@ =~= stage_images(k, *p));
    r
}

/// The storage images pass `k` binds, in binding order, with the format
/// its shader declares at each.
pub fn bindings(k: StageKind) -> (r: Vec<Binding>)
    ensures
        r@ == stage_bindings(k),
{
    let rgba = ImageFormat::R16G16B16A16Sfloat;
    let r = match k {
        StageKind::ShiftBayer => vec![
            Binding { source: ViewSource::Created(0), format: ImageFormat::R16Uint },
            Binding { source: ViewSource::Created(1), format: ImageFormat::R16Uint },
        ],
        StageKind::Normalize => vec![
            Binding { source: ViewSource::Input(1), format: ImageFormat::R16Uint },
            Binding { source: ViewSource::Created(0), format: ImageFormat::R16Sfloat },
        ],
        StageKind::Demosaic => vec![
            Binding { source: ViewSource::Input(0), format: ImageFormat::R16Sfloat },
            Binding { source: ViewSource::Created(0), format: rgba },
        ],
        StageKind::ColorCorrection | StageKind::GammaCorrection => vec![
            Binding { source: ViewSource::Input(0), format: rgba },
        ],
        StageKind::Quantize => vec![
            Binding { source: ViewSource::Input(0), format: rgba },
            Binding { source: ViewSource::Created(0), format: ImageFormat::R8G8B8A8Unorm },
        ],
    };
    assert(r@ =~= stage_bindings(k));
    r
}

/// The views pass `k` hands on to the next pass, in order.
pub fn outputs(k: StageKind) -> (r: Vec<ViewSource>)
    ensures
        r@ == stage_outputs(k),
{
    let r = match k {
        StageKind::ShiftBayer => vec![ViewSource::Created(0), ViewSource::Created(1)],
        StageKind::ColorCorrection | StageKind::GammaCorrection => vec![ViewSource::Input(0)],
        _ => vec![ViewSource::Created(0)],
    };
    assert(r@ =~= stage_outputs(k));
    r
}

/// The push-constant block of pass `k`, as 32-bit words:
/// the shift vector; the gains, black levels and white level; the image
/// size; the color-correction matrix as three zero-padded rows of four;
/// nothing for the last two passes.
pub fn push_constants(k: StageKind, p: &FrameParams) -> (r: Vec<u32>)
    ensures
        r@ == stage_push_constants(k, *p),
{
    let r = match k {
        StageKind::ShiftBayer => {
            let shift = p.cfa.shift_vector();
            vec![shift[0] as u32, shift[1] as u32]
        },
        StageKind::Normalize => vec![
            p.color_gains[0],
            p.color_gains[1],
            p.color_gains[2],
            p.color_gains[3],
            p.black_level[0] as u32,
            p.black_level[1] as u32,
            p.black_level[2] as u32,
            p.black_level[3] as u32,
            p.white_level as u32,
        ],
        StageKind::Demosaic => vec![p.width, p.height],
        StageKind::ColorCorrection => {
            let m = &p.color_correction_transform;
            vec![m[0], m[1], m[2], 0, m[3], m[4], m[5], 0, m[6], m[7], m[8], 0]
        },
        _ => vec![],
    };
    assert(r@ =~= stage_push_constants(k, *p));
    r
}

/// Everything pass `k` needs for frame `p`.
pub fn stage_plan(k: StageKind, p: &FrameParams) -> (r: StagePlan)
    requires
        p.wf(),
    ensures
        r@ == stage_plan_spec(k, *p),
{
    let upload_len = match k {
        StageKind::ShiftBayer => Some(p.raw_len as u64),
        _ => None,
    };
    let readback_len = match k {
        StageKind::Quantize => Some(p.output_len()),
        _ => None,
    };
    StagePlan {
        kind: k,
        upload_len,
        images: images(k, p),
        bindings: bindings(k),
        outputs: outputs(k),
        push_constants: push_constants(k, p),
        readback_len,
    }
}

/// The plans of all passes of frame `p`, in chain order.
pub fn frame_plan(p: &FrameParams) -> (r: Vec<StagePlan>)
    requires
        p.wf(),
    ensures
        r.len() == STAGE_COUNT,
        forall|i: int| 0 <= i < STAGE_COUNT ==> (#[trigger] r[i])@ == stage_plan_spec(kind_at(i), *p),
{
    let mut r: Vec<StagePlan> = Vec::new();
    let mut i: usize = 0;
    while i < STAGE_COUNT
        invariant
            i <= STAGE_COUNT,
            p.wf(),
            r.len() == i,
            forall|j: int| 0 <= j < i ==> (#[trigger] r[j])@ == stage_plan_spec(kind_at(j), *p),
        decreases STAGE_COUNT - i,
    {
        r.push(stage_plan(StageKind::at(i), p));
        i = i + 1;
    }
    r
}

/// Whether a view source names an existing view, given how many views the
/// previous pass handed on and how many images this pass creates.
pub open spec fn source_in_range(s: ViewSource, n_inputs: int, n_created: int) -> bool {
    match s {
        ViewSource::Input(i) => i < n_inputs,
        ViewSource::Created(i) => i < n_created,
    }
}

/// The format of the view a source names.
pub open spec fn source_format(
    s: ViewSource,
    inputs: Seq<ImageFormat>,
    created: Seq<ImageSpec>,
) -> ImageFormat {
    match s {
        ViewSource::Input(i) => inputs[i as int],
        ViewSource::Created(i) => created[i as int].format,
    }
}

/// The formats of the views the pass at position `i` receives.
pub open spec fn received_formats(i: nat, p: FrameParams) -> Seq<ImageFormat>
    decreases i,
{
    if i == 0 {
        seq![]
    } else {
        let k = kind_at(i - 1);
        let inputs = received_formats((i - 1) as nat, p);
        stage_outputs(k).map_values(|s: ViewSource| source_format(s, inputs, stage_images(k, p)))
    }
}

/// Every image that any pass creates has the frame's extent `(width, height, 1)`.
pub proof fn lemma_images_have_frame_extent(k: StageKind, p: FrameParams, j: int)
    requires
        0 <= j < stage_images(k, p).len(),
    ensures
        stage_images(k, p)[j].width == p.width,
        stage_images(k, p)[j].height == p.height,
        stage_images(k, p)[j].depth == 1,
{
}

proof fn lemma_received_formats(p: FrameParams)
    ensures
        received_formats(0, p) == Seq::<ImageFormat>::empty(),
        received_formats(1, p) == seq![ImageFormat::R16Uint, ImageFormat::R16Uint],
        received_formats(2, p) == seq![ImageFormat::R16Sfloat],
        received_formats(3, p) == seq![ImageFormat::R16G16B16A16Sfloat],
        received_formats(4, p) == seq![ImageFormat::R16G16B16A16Sfloat],
        received_formats(5, p) == seq![ImageFormat::R16G16B16A16Sfloat],
        received_formats(6, p) == seq![ImageFormat::R8G8B8A8Unorm],
{
    reveal_with_fuel(received_formats, 2);
    assert(received_formats(0, p) =~= Seq::<ImageFormat>::empty());
    assert(received_formats(1, p) =~= seq![ImageFormat::R16Uint, ImageFormat::R16Uint]);
    assert(received_formats(2, p) =~= seq![ImageFormat::R16Sfloat]);
    assert(received_formats(3, p) =~= seq![ImageFormat::R16G16B16A16Sfloat]);
    assert(received_formats(4, p) =~= seq![ImageFormat::R16G16B16A16Sfloat]);
    assert(received_formats(5, p) =~= seq![ImageFormat::R16G16B16A16Sfloat]);
    assert(received_formats(6, p) =~= seq![ImageFormat::R8G8B8A8Unorm]);
}

/// The chain is well formed: at every pass, each bound view and each view
/// handed on exists, and each bound view has the format the pass's shader
/// declares at that binding. The first pass reads nothing handed on.
pub proof fn lemma_chain_formats_match(p: FrameParams, i: nat)
    requires
        i < STAGE_COUNT,
    ensures
        forall|b: int|
            0 <= b < stage_bindings(kind_at(i as int)).len() ==> {
                let bd = #[trigger] stage_bindings(kind_at(i as int))[b];
                &&& source_in_range(
                    bd.source,
                    received_formats(i, p).len() as int,
                    stage_images(kind_at(i as int), p).len() as int,
                )
                &&& source_format(
                    bd.source,
                    received_formats(i, p),
                    stage_images(kind_at(i as int), p),
                ) == bd.format
            },
        forall|o: int|
            0 <= o < stage_outputs(kind_at(i as int)).len() ==> source_in_range(
                #[trigger] stage_outputs(kind_at(i as int))[o],
                received_formats(i, p).len() as int,
                stage_images(kind_at(i as int), p).len() as int,
            ),
        i == 0 ==> received_formats(i, p).len() == 0,
{
    lemma_received_formats(p);
}

/// Only the first pass uploads, taking the whole raw region, and only the
/// last pass reads back, exactly `4 * width * height` bytes.
pub proof fn lemma_transfers(k: StageKind, p: FrameParams)
    requires
        p.wf(),
    ensures
        stage_plan_spec(k, p).upload_len == if k == StageKind::ShiftBayer {
            Some(p.raw_len as u64)
        } else {
            None
        },
        stage_plan_spec(k, p).readback_len is Some <==> k == StageKind::Quantize,
        k == StageKind::Quantize ==> stage_plan_spec(k, p).readback_len->0 == output_bytes(
            p.width as int,
            p.height as int,
        ),
{
    lemma_area_bound(p.width as int, p.height as int);
}

/// The plan of a frame depends on its parameters alone: equal parameters
/// give equal plans for every pass.
pub proof fn lemma_plan_deterministic(k: StageKind, p: FrameParams, q: FrameParams)
    requires
        p == q,
    ensures
        stage_plan_spec(k, p) == stage_plan_spec(k, q),
{
}

} // verus!
