//! The offscreen render target's lifecycle and the two-pass frame protocol.
//!
//! A `TargetStore` models the GPU's allocation table for color render
//! targets: every create and destroy the pipeline decides is recorded here,
//! and the host mirrors them one for one. The `Stage` owns exactly one live
//! target at any time; a resize destroys the old target strictly before it
//! creates the new one, and the composite pass only reads the target after
//! the GUI pass of the same frame has fully completed — enforced by the
//! phase machine, not by call order alone.

use vstd::prelude::*;

use crate::texture::spec_white;
use crate::texture::white;
use crate::texture::Rgba;

verus! {

/// A handle to one GPU color render target with its pixel dimensions. The
/// format is always 8-bit RGBA: the pipeline allocates no other.
#[derive(Clone, Copy, Debug, PartialEq, Eq, Structural)]
pub struct TargetHandle {
    pub id: u64,
    pub width: u32,
    pub height: u32,
}

/// The render-target allocation table: which targets are currently allocated.
/// Handles are never reused: each create hands out a fresh id.
pub struct TargetStore {
    next_id: u64,
    live: Vec<TargetHandle>,
}

impl TargetStore {
    /// The currently allocated targets, in allocation order.
    pub closed spec fn live_seq(self) -> Seq<TargetHandle> {
        self.live@
    }

    /// The next id to hand out.
    pub closed spec fn spec_next_id(self) -> u64 {
        self.next_id
    }

    /// Every live id was handed out before `next_id`, and no two live
    /// targets share an id.
    pub open spec fn wf(self) -> bool {
        &&& forall|i: int|
            0 <= i < self.live_seq().len() ==> (#[trigger] self.live_seq()[i]).id
                < self.spec_next_id()
        &&& forall|i: int, j: int|
            0 <= i < j < self.live_seq().len() ==> (#[trigger] self.live_seq()[i]).id != (
            #[trigger] self.live_seq()[j]).id
    }

    /// A target with this id is currently allocated.
    pub open spec fn is_live(self, id: u64) -> bool {
        exists|i: int| 0 <= i < self.live_seq().len() && (#[trigger] self.live_seq()[i]).id == id
    }

    /// An empty allocation table.
    pub fn new() -> (s: TargetStore)
        ensures
            s.wf(),
            s.live_seq() =~= Seq::<TargetHandle>::empty(),
            s.spec_next_id() == 0,
    {
        TargetStore { next_id: 0, live: Vec::new() }
    }

    /// The next id that `create` will hand out; ids below it are spent.
    pub fn next_id(&self) -> (n: u64)
        ensures
            n == self.spec_next_id(),
    {
        self.next_id
    }

    /// How many targets are currently allocated.
    pub fn live_count(&self) -> (n: usize)
        ensures
            n == self.live_seq().len(),
    {
        self.live.len()
    }

    /// Allocate a new target of the given pixel dimensions. The handle is
    /// fresh: it was not live before, and it is live afterwards.
    pub fn create(&mut self, width: u32, height: u32) -> (t: TargetHandle)
        requires
            old(self).wf(),
            old(self).spec_next_id() < u64::MAX,
        ensures
            final(self).wf(),
            t.id == old(self).spec_next_id(),
            t.width == width,
            t.height == height,
            !old(self).is_live(t.id),
            final(self).live_seq() =~= old(self).live_seq().push(t),
            final(self).spec_next_id() == old(self).spec_next_id() + 1,
            forall|x: u64| final(self).is_live(x) == (old(self).is_live(x) || x == t.id),
    {
        let t = TargetHandle { id: self.next_id, width, height };
        self.next_id = self.next_id + 1;
        self.live.push(t);
        proof {
            assert forall|x: u64| self.is_live(x) == (old(self).is_live(x) || x
                == t.id) by {
                if old(self).is_live(x) || x == t.id {
                    if x == t.id {
                        assert(self.live_seq()[self.live_seq().len() - 1].id == x);
                    } else {
                        let i = choose|i: int|
                            0 <= i < old(self).live_seq().len() && (#[trigger] old(
                                self,
                            ).live_seq()[i]).id == x;
                        assert(self.live_seq()[i].id == x);
                    }
                }
            }
        }
        t
    }

    /// Release the target with this id: afterwards it is no longer
    /// allocated, every other target is untouched, and nothing was created.
    pub fn destroy(&mut self, id: u64)
        requires
            old(self).wf(),
            old(self).is_live(id),
        ensures
            final(self).wf(),
            !final(self).is_live(id),
            final(self).live_seq().len() == old(self).live_seq().len() - 1,
            final(self).spec_next_id() == old(self).spec_next_id(),
            forall|x: u64| final(self).is_live(x) == (old(self).is_live(x) && x != id),
    {
        let n = self.live.len();
        let mut i: usize = 0;
        while i < n
            invariant
                *self == *old(self),
                n == self.live_seq().len(),
                i <= n,
                forall|k: int| 0 <= k < i ==> (#[trigger] self.live_seq()[k]).id != id,
                old(self).wf(),
                old(self).is_live(id),
            decreases n - i,
        {
            if self.live[i].id == id {
                let ghost pre = self.live@;
                self.live.remove(i);
                proof {
                    assert(self.live@ =~= pre.subrange(0, i as int) + pre.subrange(
                        i + 1,
                        pre.len() as int,
                    ));
                    // Every surviving entry is one of the old entries at an
                    // index other than i; distinctness carries over.
                    assert(forall|k: int|
                        0 <= k < self.live@.len() ==> #[trigger] self.live@[k] == (if k < i {
                            pre[k]
                        } else {
                            pre[k + 1]
                        }));
                    assert forall|x: u64| self.is_live(x) == (old(self).is_live(x) && x
                        != id) by {
                        if self.is_live(x) {
                            let k = choose|k: int|
                                0 <= k < self.live@.len() && (#[trigger] self.live@[k]).id == x;
                            if k < i {
                                assert(pre[k].id == x && pre[k].id != pre[i as int].id);
                            } else {
                                assert(pre[k + 1].id == x && pre[k + 1].id != pre[i as int].id);
                            }
                        }
                        if old(self).is_live(x) && x != id {
                            let k = choose|k: int|
                                0 <= k < pre.len() && (#[trigger] pre[k]).id == x;
                            if k < i {
                                assert(self.live@[k].id == x);
                            } else {
                                assert(k != i);
                                assert(self.live@[k - 1].id == x);
                            }
                        }
                    }
                }
                return ;
            }
            i = i + 1;
        }
        proof {
            let k = choose|k: int|
                0 <= k < old(self).live_seq().len() && (#[trigger] old(self).live_seq()[k]).id
                    == id;
            assert(self.live_seq()[k].id != id);
            assert(false);
        }
    }
}

/// The per-draw-call parameters of the composite pass: a compositing
/// translation (reserved; zero in ordinary use) and the framebuffer
/// resolution in pixels. They are recomputed from the live window size every
/// frame, never cached. The host converts them to the GPU's float uniform
/// block.
#[derive(Clone, Copy, Debug, PartialEq, Eq, Structural)]
pub struct Uniforms {
    pub offset_x: i32,
    pub offset_y: i32,
    pub res_x: u32,
    pub res_y: u32,
}

/// Everything the host needs for the composite draw, in order: bind the
/// default framebuffer and clear it to `clear`, bind the pipeline, bind
/// `texture` as the sampled image, upload `uniforms`, and draw `index_count`
/// indices as `instances` instance of the quad.
#[derive(Clone, Copy, Debug, PartialEq, Eq, Structural)]
pub struct CompositeParams {
    pub clear: Rgba,
    pub texture: TargetHandle,
    pub uniforms: Uniforms,
    pub index_count: u32,
    pub instances: u32,
}

/// Where the frame protocol stands. A frame runs Idle -> GuiOpen ->
/// GuiClosed -> GuiPassDone -> Composited -> Idle; the composite pass can
/// only be reached once the GUI pass has fully written the offscreen target.
#[derive(Clone, Copy, Debug, PartialEq, Eq, Structural)]
pub enum Phase {
    Idle,
    GuiOpen,
    GuiClosed,
    GuiPassDone,
    Composited,
}

/// The frame orchestrator: sole owner of the offscreen target, driver of the
/// two passes, handler of resize notifications.
pub struct Stage {
    pub phase: Phase,
    pub store: TargetStore,
    pub target: TargetHandle,
    pub width: u32,
    pub height: u32,
    pub offset_x: i32,
    pub offset_y: i32,
    pub frames: u64,
}

impl Stage {
    /// Exactly one target is allocated — the stage's own — and it is sized
    /// to the current window.
    pub open spec fn wf(self) -> bool {
        &&& self.store.wf()
        &&& self.store.live_seq() =~= seq![self.target]
        &&& self.target.width == self.width
        &&& self.target.height == self.height
        &&& 1 <= self.width <= 0x8000
        &&& 1 <= self.height <= 0x8000
    }

    /// Everything but the phase is the same in `a` and `b`: no resource was
    /// created, destroyed or resized.
    pub open spec fn same_resources(a: Stage, b: Stage) -> bool {
        &&& a.store.live_seq() =~= b.store.live_seq()
        &&& a.store.spec_next_id() == b.store.spec_next_id()
        &&& a.target == b.target
        &&& a.width == b.width
        &&& a.height == b.height
        &&& a.offset_x == b.offset_x
        &&& a.offset_y == b.offset_y
        &&& a.frames == b.frames
    }

    /// Start the pipeline for a window of the given pixel size: allocate the
    /// initial offscreen target at exactly that size.
    pub fn new(width: u32, height: u32) -> (s: Stage)
        requires
            1 <= width <= 0x8000,
            1 <= height <= 0x8000,
        ensures
            s.wf(),
            s.phase == Phase::Idle,
            s.width == width,
            s.height == height,
            s.offset_x == 0,
            s.offset_y == 0,
            s.frames == 0,
    {
        let mut store = TargetStore::new();
        let target = store.create(width, height);
        Stage {
            phase: Phase::Idle,
            store,
            target,
            width,
            height,
            offset_x: 0,
            offset_y: 0,
            frames: 0,
        }
    }

    /// Open the GUI frame: widget content is gathered from here until
    /// `end_gui_frame`.
    pub fn begin_gui_frame(&mut self)
        requires
            old(self).wf(),
            old(self).phase == Phase::Idle,
        ensures
            final(self).wf(),
            final(self).phase == Phase::GuiOpen,
            Stage::same_resources(*old(self), *final(self)),
    {
        self.phase = Phase::GuiOpen;
    }

    /// Close the GUI frame: all widget content for this frame is in.
    pub fn end_gui_frame(&mut self)
        requires
            old(self).wf(),
            old(self).phase == Phase::GuiOpen,
        ensures
            final(self).wf(),
            final(self).phase == Phase::GuiClosed,
            Stage::same_resources(*old(self), *final(self)),
    {
        self.phase = Phase::GuiClosed;
    }

    /// The GUI pass: the host must render the closed GUI frame into the
    /// returned target — the stage's one live offscreen target — and only
    /// then may the composite pass run.
    pub fn gui_pass(&mut self) -> (t: TargetHandle)
        requires
            old(self).wf(),
            old(self).phase == Phase::GuiClosed,
        ensures
            final(self).wf(),
            final(self).phase == Phase::GuiPassDone,
            Stage::same_resources(*old(self), *final(self)),
            t == old(self).target,
            final(self).store.is_live(t.id),
    {
        self.phase = Phase::GuiPassDone;
        proof {
            assert(self.store.live_seq()[0] == self.target);
        }
        self.target
    }

    /// The composite pass, reachable only after the GUI pass has fully
    /// written the offscreen target: clear the default framebuffer to opaque
    /// white, sample that same target, and draw the quad's six indices once,
    /// with the uniforms recomputed from the live window size.
    pub fn composite_pass(&mut self) -> (p: CompositeParams)
        requires
            old(self).wf(),
            old(self).phase == Phase::GuiPassDone,
        ensures
            final(self).wf(),
            final(self).phase == Phase::Composited,
            Stage::same_resources(*old(self), *final(self)),
            p.clear == spec_white(),
            p.texture == old(self).target,
            p.uniforms.offset_x == old(self).offset_x,
            p.uniforms.offset_y == old(self).offset_y,
            p.uniforms.res_x == old(self).width,
            p.uniforms.res_y == old(self).height,
            p.index_count == 6,
            p.instances == 1,
    {
        self.phase = Phase::Composited;
        CompositeParams {
            clear: white(),
            texture: self.target,
            uniforms: Uniforms {
                offset_x: self.offset_x,
                offset_y: self.offset_y,
                res_x: self.width,
                res_y: self.height,
            },
            index_count: 6,
            instances: 1,
        }
    }

    /// Choose the compositing translation for the frames to come. It is
    /// reserved for pan effects and zero in ordinary use; it is kept
    /// configurable rather than hard-wired.
    pub fn set_offset(&mut self, offset_x: i32, offset_y: i32)
        requires
            old(self).wf(),
            old(self).phase == Phase::Idle,
        ensures
            final(self).wf(),
            final(self).phase == Phase::Idle,
            final(self).offset_x == offset_x,
            final(self).offset_y == offset_y,
            final(self).store.live_seq() =~= old(self).store.live_seq(),
            final(self).target == old(self).target,
            final(self).width == old(self).width,
            final(self).height == old(self).height,
            final(self).frames == old(self).frames,
    {
        self.offset_x = offset_x;
        self.offset_y = offset_y;
    }

    /// Present the composited frame and return to idle.
    pub fn present(&mut self)
        requires
            old(self).wf(),
            old(self).phase == Phase::Composited,
            old(self).frames < u64::MAX,
        ensures
            final(self).wf(),
            final(self).phase == Phase::Idle,
            final(self).frames == old(self).frames + 1,
            final(self).store.live_seq() =~= old(self).store.live_seq(),
            final(self).target == old(self).target,
            final(self).width == old(self).width,
            final(self).height == old(self).height,
            final(self).offset_x == old(self).offset_x,
            final(self).offset_y == old(self).offset_y,
    {
        self.phase = Phase::Idle;
        self.frames = self.frames + 1;
    }

    /// A window resize between frames: destroy the current offscreen target
    /// strictly before creating its replacement at exactly the new pixel
    /// size. Afterwards the old handle is no longer allocated and exactly
    /// one target is live — repeated resizes never accumulate targets.
    pub fn resize_event(&mut self, width: u32, height: u32)
        requires
            old(self).wf(),
            old(self).phase == Phase::Idle,
            1 <= width <= 0x8000,
            1 <= height <= 0x8000,
            old(self).store.spec_next_id() < u64::MAX,
        ensures
            final(self).wf(),
            final(self).phase == Phase::Idle,
            final(self).width == width,
            final(self).height == height,
            final(self).target.width == width,
            final(self).target.height == height,
            !final(self).store.is_live(old(self).target.id),
            final(self).store.is_live(final(self).target.id),
            final(self).store.live_seq().len() == 1,
            final(self).target.id != old(self).target.id,
            final(self).frames == old(self).frames,
            final(self).offset_x == old(self).offset_x,
            final(self).offset_y == old(self).offset_y,
    {
        proof {
            assert(self.store.live_seq()[0] == self.target);
        }
        self.store.destroy(self.target.id);
        let t = self.store.create(width, height);
        self.target = t;
        self.width = width;
        self.height = height;
        proof {
            assert(self.store.live_seq() =~= seq![t]);
        }
    }
}

} // verus!
