use vstd::prelude::*;

verus! {

/// The passes of one frame, in the order in which they run.
#[derive(Clone, Copy, Debug, PartialEq, Eq, Structural)]
pub enum FramePass {
    /// Scene geometry into the G-buffer's position, normal and albedo targets.
    Geometry,
    /// Depth of the shadow casters, seen from the light.
    Shadow,
    /// Lighting resolved from the G-buffer onto the screen.
    Lighting,
    /// The G-buffer's depth copied onto the screen's.
    DepthBlit,
    /// The sky box, behind everything drawn so far.
    Skybox,
}

/// Number of passes in a frame.
pub const PASSES_PER_FRAME: usize = 5;

/// Position of `p` in the frame.
pub open spec fn pass_rank(p: FramePass) -> int {
    match p {
        FramePass::Geometry => 0,
        FramePass::Shadow => 1,
        FramePass::Lighting => 2,
        FramePass::DepthBlit => 3,
        FramePass::Skybox => 4,
    }
}

/// The framebuffer a pass draws into.
#[derive(Clone, Copy, Debug, PartialEq, Eq, Structural)]
pub enum Target {
    GBuffer,
    ShadowMap,
    Screen,
}

/// Depth comparison of the depth test.
#[derive(Clone, Copy, Debug, PartialEq, Eq, Structural)]
pub enum DepthFunc {
    Less,
    LessEqual,
}

/// Which faces are culled.
#[derive(Clone, Copy, Debug, PartialEq, Eq, Structural)]
pub enum CullFace {
    Back,
    Front,
}

/// The GPU state that a pass sets before it draws.
#[derive(Clone, Copy, Debug, PartialEq, Eq, Structural)]
pub struct PassState {
    pub target: Target,
    pub clear_color: bool,
    pub clear_depth: bool,
    pub depth_test: bool,
    pub depth_func: DepthFunc,
    pub cull_face: CullFace,
}

/// State between frames: drawing to the screen, depth test `<`, back faces
/// culled.
pub open spec fn resting_state_spec() -> PassState {
    PassState {
        target: Target::Screen,
        clear_color: false,
        clear_depth: false,
        depth_test: false,
        depth_func: DepthFunc::Less,
        cull_face: CullFace::Back,
    }
}

/// The state of each pass. Geometry clears the G-buffer and tests depth;
/// the shadow pass clears only depth and culls front faces against
/// peter-panning; lighting clears the screen and draws without a depth test;
/// the depth blit draws nothing; the sky box tests with `<=` and culls front
/// faces, since the camera is inside its cube.
pub open spec fn pass_state_spec(p: FramePass) -> PassState {
    match p {
        FramePass::Geometry => PassState {
            target: Target::GBuffer,
            clear_color: true,
            clear_depth: true,
            depth_test: true,
            depth_func: DepthFunc::Less,
            cull_face: CullFace::Back,
        },
        FramePass::Shadow => PassState {
            target: Target::ShadowMap,
            clear_color: false,
            clear_depth: true,
            depth_test: true,
            depth_func: DepthFunc::Less,
            cull_face: CullFace::Front,
        },
        FramePass::Lighting => PassState {
            target: Target::Screen,
            clear_color: true,
            clear_depth: true,
            depth_test: false,
            depth_func: DepthFunc::Less,
            cull_face: CullFace::Back,
        },
        FramePass::DepthBlit => PassState {
            target: Target::Screen,
            clear_color: false,
            clear_depth: false,
            depth_test: false,
            depth_func: DepthFunc::Less,
            cull_face: CullFace::Back,
        },
        FramePass::Skybox => PassState {
            target: Target::Screen,
            clear_color: false,
            clear_depth: false,
            depth_test: true,
            depth_func: DepthFunc::LessEqual,
            cull_face: CullFace::Front,
        },
    }
}

/// The state that each pass sets before it draws.
pub fn pass_state(pass: FramePass) -> (r: PassState)
    ensures
        r == pass_state_spec(pass),
{
    match pass {
        FramePass::Geometry => PassState {
            target: Target::GBuffer,
            clear_color: true,
            clear_depth: true,
            depth_test: true,
            depth_func: DepthFunc::Less,
            cull_face: CullFace::Back,
        },
        FramePass::Shadow => PassState {
            target: Target::ShadowMap,
            clear_color: false,
            clear_depth: true,
            depth_test: true,
            depth_func: DepthFunc::Less,
            cull_face: CullFace::Front,
        },
        FramePass::Lighting => PassState {
            target: Target::Screen,
            clear_color: true,
            clear_depth: true,
            depth_test: false,
            depth_func: DepthFunc::Less,
            cull_face: CullFace::Back,
        },
        FramePass::DepthBlit => PassState {
            target: Target::Screen,
            clear_color: false,
            clear_depth: false,
            depth_test: false,
            depth_func: DepthFunc::Less,
            cull_face: CullFace::Back,
        },
        FramePass::Skybox => PassState {
            target: Target::Screen,
            clear_color: false,
            clear_depth: false,
            depth_test: true,
            depth_func: DepthFunc::LessEqual,
            cull_face: CullFace::Front,
        },
    }
}

/// The state restored after a pass that changed depth function, culling
/// or target, and kept between frames.
pub fn resting_state() -> (r: PassState)
    ensures
        r == resting_state_spec(),
{
    PassState {
        target: Target::Screen,
        clear_color: false,
        clear_depth: false,
        depth_test: false,
        depth_func: DepthFunc::Less,
        cull_face: CullFace::Back,
    }
}

/// Why a pass could not start or a frame could not end.
#[derive(Clone, Copy, Debug, PartialEq, Eq, Structural)]
pub enum PassOrderError {
    /// The pass is not the next one of the frame.
    OutOfOrder,
    /// The frame ended before its last pass.
    Unfinished,
}

/// Tracks the passes of the current frame, so that they run once each and
/// in order.
pub struct FrameSequence {
    done: usize,
}

impl FrameSequence {
    /// Number of passes of the current frame already begun.
    pub closed spec fn done_spec(&self) -> int {
        self.done as int
    }

    #[verifier::type_invariant]
    spec fn within_frame(self) -> bool {
        self.done <= PASSES_PER_FRAME
    }

    /// No more passes are begun than a frame has.
    pub open spec fn wf(&self) -> bool {
        0 <= self.done_spec() <= PASSES_PER_FRAME
    }

    pub fn new() -> (r: Self)
        ensures
            r.done_spec() == 0,
            r.wf(),
    {
        FrameSequence { done: 0 }
    }

    /// Starts `pass` if it is the next pass of the frame.
    pub fn begin(&mut self, pass: FramePass) -> (r: Result<(), PassOrderError>)
        ensures
            final(self).wf(),
            r is Ok <==> pass_rank(pass) == old(self).done_spec(),
            r is Ok ==> final(self).done_spec() == old(self).done_spec() + 1,
            r is Err ==> r == Err::<(), PassOrderError>(PassOrderError::OutOfOrder)
                && final(self).done_spec() == old(self).done_spec(),
    {
        let rank: usize = match pass {
            FramePass::Geometry => 0,
            FramePass::Shadow => 1,
            FramePass::Lighting => 2,
            FramePass::DepthBlit => 3,
            FramePass::Skybox => 4,
        };
        proof {
            use_type_invariant(&*self);
        }
        if rank == self.done {
            *self = FrameSequence { done: self.done + 1 };
            Ok(())
        } else {
            Err(PassOrderError::OutOfOrder)
        }
    }

    /// Ends the frame if all its passes have run, ready for the next one.
    pub fn finish(&mut self) -> (r: Result<(), PassOrderError>)
        ensures
            final(self).wf(),
            r is Ok <==> old(self).done_spec() == PASSES_PER_FRAME,
            r is Ok ==> final(self).done_spec() == 0,
            r is Err ==> r == Err::<(), PassOrderError>(PassOrderError::Unfinished)
                && final(self).done_spec() == old(self).done_spec(),
    {
        proof {
            use_type_invariant(&*self);
        }
        if self.done == PASSES_PER_FRAME {
            *self = FrameSequence { done: 0 };
            Ok(())
        } else {
            Err(PassOrderError::Unfinished)
        }
    }
}

} // verus!
