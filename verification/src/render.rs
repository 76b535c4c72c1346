//! The render pipeline: the frame of one render cycle and the commands that
//! take it from the interface's paint to the compositor.

use vstd::prelude::*;
use crate::geometry::{opaque_white, Extent, Rect, Rgba};

verus! {

/// The scale factor between logical and physical pixels.
pub const PANEL_SCALE: i32 = 1;

/// The steps of a render cycle, in the order they are taken.
#[derive(Clone, Copy, Debug, PartialEq, Eq)]
pub enum RenderStage {
    /// Reading the backend's physical size.
    Query,
    /// The interface paints itself into a texture.
    Paint,
    /// The rendering context is bound.
    Bind,
    /// A frame over the full physical size is begun.
    Begin,
    /// The frame is cleared to the background colour.
    Clear,
    /// The texture is drawn onto the frame.
    Composite,
    /// The finished frame goes to the compositor.
    Submit,
}

/// What the backend is asked to do next, with all it needs to do it.
#[derive(Clone, Copy, Debug, PartialEq, Eq)]
pub enum RenderCommand {
    /// Let the interface paint the logical region `area` at `scale`.
    Paint { area: Rect, scale: i32 },
    /// Bind the rendering context.
    Bind,
    /// Begin a frame of `size` physical pixels, not rotated or flipped.
    Begin { size: Extent },
    /// Fill `region` with `colour`.
    Clear { colour: Rgba, region: Rect },
    /// Draw the painted texture where the interface placed it, clipped to
    /// `clip`.
    Composite { clip: Rect },
    /// Hand the frame to the compositor.
    Submit,
}

/// The frame of the render cycle in flight.
#[derive(Clone, Copy, Debug, PartialEq, Eq)]
pub struct FrameDescriptor {
    /// The size of the frame in physical pixels.
    pub target: Extent,
    /// The scale factor the interface is painted at.
    pub scale: i32,
    /// The region handed to the interface, in logical pixels.
    pub area: Rect,
    /// The colour the frame is cleared to.
    pub background: Rgba,
    /// The full frame: cleared as a whole, and nothing is drawn outside it.
    pub clip: Rect,
    /// The step that is being taken.
    pub stage: RenderStage,
}

impl RenderStage {
    /// The place of a step in the cycle, counted from zero.
    pub open spec fn ordinal(self) -> nat {
        match self {
            RenderStage::Query => 0,
            RenderStage::Paint => 1,
            RenderStage::Bind => 2,
            RenderStage::Begin => 3,
            RenderStage::Clear => 4,
            RenderStage::Composite => 5,
            RenderStage::Submit => 6,
        }
    }

    /// The step that follows this one; nothing follows submission.
    pub open spec fn following(self) -> Option<RenderStage> {
        match self {
            RenderStage::Query => Some(RenderStage::Paint),
            RenderStage::Paint => Some(RenderStage::Bind),
            RenderStage::Bind => Some(RenderStage::Begin),
            RenderStage::Begin => Some(RenderStage::Clear),
            RenderStage::Clear => Some(RenderStage::Composite),
            RenderStage::Composite => Some(RenderStage::Submit),
            RenderStage::Submit => None,
        }
    }

    /// The step that follows this one; nothing follows submission.
    pub fn next(self) -> (next: Option<RenderStage>)
        ensures
            next == self.following(),
            next is Some ==> next.unwrap().ordinal() == self.ordinal() + 1,
            next is None <==> self == RenderStage::Submit,
    {
        match self {
            RenderStage::Query => Some(RenderStage::Paint),
            RenderStage::Paint => Some(RenderStage::Bind),
            RenderStage::Bind => Some(RenderStage::Begin),
            RenderStage::Begin => Some(RenderStage::Clear),
            RenderStage::Clear => Some(RenderStage::Composite),
            RenderStage::Composite => Some(RenderStage::Submit),
            RenderStage::Submit => None,
        }
    }
}

impl FrameDescriptor {
    /// The frame of a cycle that is about to paint onto `target` pixels: the
    /// interface gets the whole frame in logical units, and the whole frame
    /// is cleared to opaque white.
    pub open spec fn opening(target: Extent) -> FrameDescriptor {
        FrameDescriptor {
            target,
            scale: PANEL_SCALE,
            area: Rect::covering(target.logical(PANEL_SCALE as int)),
            background: opaque_white(),
            clip: Rect::covering(target),
            stage: RenderStage::Paint,
        }
    }

    /// A frame as a cycle holds it: something to draw on, every region
    /// derived from the target, and the backend's size read already.
    pub open spec fn wf(self) -> bool {
        &&& self.target.visible()
        &&& self == FrameDescriptor { stage: self.stage, ..FrameDescriptor::opening(self.target) }
        &&& self.stage != RenderStage::Query
    }

    /// The same frame, one step on.
    pub open spec fn at(self, stage: RenderStage) -> FrameDescriptor {
        FrameDescriptor { stage, ..self }
    }

    /// The interface has painted its texture.
    pub open spec fn painted(self) -> bool {
        self.stage.ordinal() > RenderStage::Paint.ordinal()
    }

    /// The rendering context is bound.
    pub open spec fn bound(self) -> bool {
        self.stage.ordinal() > RenderStage::Bind.ordinal()
    }

    /// The texture has been drawn onto the cleared frame.
    pub open spec fn composited(self) -> bool {
        self.stage.ordinal() > RenderStage::Composite.ordinal()
    }

    /// The command for the step the frame is at.
    pub open spec fn command(self) -> RenderCommand {
        match self.stage {
            RenderStage::Query | RenderStage::Paint => RenderCommand::Paint {
                area: self.area,
                scale: self.scale,
            },
            RenderStage::Bind => RenderCommand::Bind,
            RenderStage::Begin => RenderCommand::Begin { size: self.target },
            RenderStage::Clear => RenderCommand::Clear {
                colour: self.background,
                region: self.clip,
            },
            RenderStage::Composite => RenderCommand::Composite { clip: self.clip },
            RenderStage::Submit => RenderCommand::Submit,
        }
    }

    /// Opens the frame of a new cycle on `target` physical pixels.
    pub fn open(target: Extent) -> (frame: FrameDescriptor)
        requires
            target.w >= 0,
            target.h >= 0,
        ensures
            frame == FrameDescriptor::opening(target),
            target.visible() ==> frame.wf(),
    {
        FrameDescriptor {
            target,
            scale: PANEL_SCALE,
            area: Rect::from_size(target.to_logical(PANEL_SCALE)),
            background: Rgba::white(),
            clip: Rect::from_size(target),
            stage: RenderStage::Paint,
        }
    }

    /// The command for the step the frame is at.
    pub fn next_command(&self) -> (command: RenderCommand)
        ensures
            command == self.command(),
    {
        match self.stage {
            RenderStage::Query | RenderStage::Paint => RenderCommand::Paint {
                area: self.area,
                scale: self.scale,
            },
            RenderStage::Bind => RenderCommand::Bind,
            RenderStage::Begin => RenderCommand::Begin { size: self.target },
            RenderStage::Clear => RenderCommand::Clear {
                colour: self.background,
                region: self.clip,
            },
            RenderStage::Composite => RenderCommand::Composite { clip: self.clip },
            RenderStage::Submit => RenderCommand::Submit,
        }
    }
}

} // verus!
