//! Pipeline identifiers, their fixed configuration, and the pipeline cache.
//!
//! Building a pipeline object is device work done outside this crate; the
//! cache verifies the memoization: once a built pipeline is installed under
//! its identifier, `get` returns exactly that handle, every time.

use vstd::prelude::*;

use crate::shader_manager::ShaderId;
use crate::trace::RenderError;

verus! {

/// How many pipeline identifiers exist.
pub const PIPELINE_COUNT: usize = 2;

/// Face culling applied by a pipeline.
#[derive(Clone, Copy, Debug, PartialEq, Eq, Structural)]
pub enum CullMode {
    /// No culling; needed for UI geometry of either winding.
    Disabled,
    /// Cull back faces.
    Back,
}

/// Predefined pipeline types in the engine.
#[derive(Clone, Copy, Debug, PartialEq, Eq, Structural)]
pub enum PipelineId {
    /// Basic colored geometry rendering.
    BasicGeometry,
    /// UI rendering with alpha blending.
    UI,
}

/// Fixed configuration of one pipeline.
#[derive(Clone, Copy, Debug, PartialEq, Eq, Structural)]
pub struct PipelineMeta {
    pub vertex_shader: ShaderId,
    pub fragment_shader: ShaderId,
    pub blend_enabled: bool,
    pub cull_mode: CullMode,
}

impl PipelineId {
    /// Dense index of this identifier in the cache.
    pub open spec fn index_spec(self) -> int {
        match self {
            PipelineId::BasicGeometry => 0,
            PipelineId::UI => 1,
        }
    }

    /// Dense index of this identifier in the cache.
    pub fn index(&self) -> (r: usize)
        ensures
            r == self.index_spec(),
            r < PIPELINE_COUNT,
    {
        match self {
            PipelineId::BasicGeometry => 0,
            PipelineId::UI => 1,
        }
    }

    /// The fixed configuration this pipeline is built with.
    pub fn meta(&self) -> (r: PipelineMeta)
        ensures
            r == (match self {
                PipelineId::BasicGeometry => PipelineMeta {
                    vertex_shader: ShaderId::BasicVertex,
                    fragment_shader: ShaderId::BasicFragment,
                    blend_enabled: false,
                    cull_mode: CullMode::Back,
                },
                PipelineId::UI => PipelineMeta {
                    vertex_shader: ShaderId::BasicVertex,
                    fragment_shader: ShaderId::BasicFragment,
                    blend_enabled: true,
                    cull_mode: CullMode::Disabled,
                },
            }),
    {
        match self {
            PipelineId::BasicGeometry => PipelineMeta {
                vertex_shader: ShaderId::BasicVertex,
                fragment_shader: ShaderId::BasicFragment,
                blend_enabled: false,
                cull_mode: CullMode::Back,
            },
            PipelineId::UI => PipelineMeta {
                vertex_shader: ShaderId::BasicVertex,
                fragment_shader: ShaderId::BasicFragment,
                blend_enabled: true,
                cull_mode: CullMode::Disabled,
            },
        }
    }

    /// Every pipeline identifier, in declaration order.
    pub fn all() -> (r: Vec<PipelineId>)
        ensures
            r@ == seq![PipelineId::BasicGeometry, PipelineId::UI],
    {
        let mut v: Vec<PipelineId> = Vec::new();
        v.push(PipelineId::BasicGeometry);
        v.push(PipelineId::UI);
        proof {
            assert(v@ =~= seq![PipelineId::BasicGeometry, PipelineId::UI]);
        }
        v
    }
}

/// Cache of built pipeline objects and their layouts, by identifier.
///
/// Handles are opaque device object identifiers supplied by the caller that
/// built them.
pub struct PipelineManager {
    pub pipelines: Vec<Option<u64>>,
    pub layouts: Vec<Option<u64>>,
}

impl PipelineManager {
    pub open spec fn wf(&self) -> bool {
        &&& self.pipelines@.len() == PIPELINE_COUNT
        &&& self.layouts@.len() == PIPELINE_COUNT
    }

    /// The cached pipeline handle for an identifier, if built.
    pub open spec fn cached_pipeline(&self, id: PipelineId) -> Option<u64> {
        self.pipelines@[id.index_spec()]
    }

    /// The cached layout handle for an identifier, if built.
    pub open spec fn cached_layout(&self, id: PipelineId) -> Option<u64> {
        self.layouts@[id.index_spec()]
    }

    /// An empty cache.
    pub fn new() -> (r: PipelineManager)
        ensures
            r.wf(),
            r.pipelines@ == Seq::new(PIPELINE_COUNT as nat, |i: int| Option::<u64>::None),
            r.layouts@ == Seq::new(PIPELINE_COUNT as nat, |i: int| Option::<u64>::None),
    {
        let mut pipelines: Vec<Option<u64>> = Vec::new();
        pipelines.push(None);
        pipelines.push(None);
        let mut layouts: Vec<Option<u64>> = Vec::new();
        layouts.push(None);
        layouts.push(None);
        proof {
            assert(pipelines@ =~= Seq::new(PIPELINE_COUNT as nat, |i: int| Option::<u64>::None));
            assert(layouts@ =~= Seq::new(PIPELINE_COUNT as nat, |i: int| Option::<u64>::None));
        }
        PipelineManager { pipelines, layouts }
    }

    /// Cache a pipeline that was built for `id`, with its layout.
    pub fn install(&mut self, id: PipelineId, pipeline: u64, layout: u64)
        requires
            old(self).wf(),
        ensures
            final(self).wf(),
            final(self).pipelines@ == old(self).pipelines@.update(id.index_spec(), Some(pipeline)),
            final(self).layouts@ == old(self).layouts@.update(id.index_spec(), Some(layout)),
    {
        let k = id.index();
        self.pipelines.set(k, Some(pipeline));
        self.layouts.set(k, Some(layout));
    }

    /// The cached pipeline for `id`; an error if it has not been built yet.
    pub fn get(&self, id: PipelineId) -> (r: Result<u64, RenderError>)
        requires
            self.wf(),
        ensures
            (match self.cached_pipeline(id) {
                Some(h) => r == Ok::<u64, RenderError>(h),
                None => r == Err::<u64, RenderError>(RenderError::PipelineNotBuilt),
            }),
    {
        let k = id.index();
        match self.pipelines[k] {
            Some(h) => Ok(h),
            None => Err(RenderError::PipelineNotBuilt),
        }
    }

    /// The cached layout for `id`, if built.
    pub fn get_layout(&self, id: PipelineId) -> (r: Option<u64>)
        requires
            self.wf(),
        ensures
            r == self.cached_layout(id),
    {
        let k = id.index();
        self.layouts[k]
    }
}

} // verus!
