use crate::clock::RenderClock;
use crate::pipeline::FragmentProgram;
use crate::pipeline::FragmentProgramView;
use crate::uniforms::spec_bindings;
use crate::uniforms::UniformBindings;
use vstd::prelude::*;

verus! {

/// Number of vertices of the full-screen triangle.
pub const TRIANGLE_VERTICES: u32 = 3;

/// Size of the presentable surface in pixels.
#[derive(Clone, Copy, Debug, PartialEq, Eq, Structural)]
pub struct SurfaceConfig {
    pub width: u32,
    pub height: u32,
}

/// Why the next surface image could not be acquired.
#[derive(Clone, Copy, Debug, PartialEq, Eq, Structural)]
pub enum SurfaceError {
    Timeout,
    Outdated,
    Lost,
    OutOfMemory,
    Other,
}

/// What a resize asks of the surface and of the queue.
#[derive(Clone, Copy, Debug, PartialEq, Eq, Structural)]
pub struct Resize {
    /// The configuration to configure the surface with.
    pub config: SurfaceConfig,
    /// Width to store, as a float, in the resolution uniform: that of the
    /// configured surface.
    pub width: u32,
    /// Height to store, as a float, in the resolution uniform: that of the
    /// configured surface.
    pub height: u32,
    /// Byte offset of the resolution uniform in the buffer.
    pub offset: u64,
}

/// A pending reload: the program that the pipeline builder settled on for
/// a source that arrived, and the clock reading taken when the source was
/// received.
#[derive(Clone, Debug, PartialEq, Eq)]
pub struct Reload {
    pub program: FragmentProgram,
    pub at: u64,
}

/// The one draw call of a frame and what follows it.
#[derive(Clone, Copy, Debug, PartialEq, Eq, Structural)]
pub struct Frame {
    pub first_vertex: u32,
    pub vertex_count: u32,
    pub first_instance: u32,
    pub instance_count: u32,
    /// Index at which the bind group is set.
    pub bind_group_index: u32,
    /// Whether the next redraw is requested once the image is presented.
    pub request_redraw: bool,
}

/// What the render loop owns, as plain values: the surface size, the
/// uniform resources, the program of the current pipeline and the clock.
#[derive(Clone, Debug, PartialEq, Eq)]
pub struct AppState {
    pub config: SurfaceConfig,
    pub bindings: UniformBindings,
    pub pipeline: FragmentProgram,
    pub clock: RenderClock,
}

pub struct AppStateView {
    pub config: SurfaceConfig,
    pub bindings: UniformBindings,
    pub pipeline: FragmentProgramView,
    pub clock: RenderClock,
}

impl View for AppState {
    type V = AppStateView;

    open spec fn view(&self) -> AppStateView {
        AppStateView {
            config: self.config,
            bindings: self.bindings,
            pipeline: self.pipeline@,
            clock: self.clock,
        }
    }
}

/// The larger of `x` and one.
pub open spec fn at_least_one(x: u32) -> u32 {
    if x == 0 {
        1
    } else {
        x
    }
}

/// The state after a resize to `width` by `height`.
pub open spec fn spec_resize(s: AppStateView, width: u32, height: u32) -> AppStateView {
    AppStateView {
        config: SurfaceConfig { width: at_least_one(width), height: at_least_one(height) },
        ..s
    }
}

/// What a resize to `width` by `height` asks for: the surface and the
/// resolution uniform both get the size with each dimension raised to at
/// least one.
pub open spec fn spec_resize_request(s: AppStateView, width: u32, height: u32) -> Resize {
    Resize {
        config: spec_resize(s, width, height).config,
        width: at_least_one(width),
        height: at_least_one(height),
        offset: s.bindings.resolution.offset,
    }
}

/// The state after an update with the given reload.
pub open spec fn spec_update(
    s: AppStateView,
    reload: Option<(FragmentProgramView, u64)>,
) -> AppStateView {
    match reload {
        Some((program, at)) => AppStateView {
            pipeline: program,
            clock: RenderClock { start: at },
            ..s
        },
        None => s,
    }
}

/// The draw call of every frame: one instance of one triangle.
pub open spec fn spec_frame() -> Frame {
    Frame {
        first_vertex: 0,
        vertex_count: TRIANGLE_VERTICES,
        first_instance: 0,
        instance_count: 1,
        bind_group_index: 0,
        request_redraw: true,
    }
}

/// A reload as a program view and a clock reading.
pub open spec fn reload_view(reload: Option<Reload>) -> Option<(FragmentProgramView, u64)> {
    match reload {
        Some(r) => Some((r.program@, r.at)),
        None => None,
    }
}

impl AppState {
    /// The state of a renderer that starts at `now` on a surface of
    /// `width` by `height`, on a device with the given uniform alignment,
    /// with the pipeline that was built first.
    pub fn new(
        width: u32,
        height: u32,
        alignment: u32,
        pipeline: FragmentProgram,
        now: u64,
    ) -> (s: AppState)
        ensures
            s@ == (AppStateView {
                config: SurfaceConfig { width, height },
                bindings: spec_bindings(alignment),
                pipeline: pipeline@,
                clock: RenderClock { start: now },
            }),
            s.clock.spec_elapsed(now) == 0,
    {
        AppState {
            config: SurfaceConfig { width, height },
            bindings: UniformBindings::create_bindings(alignment),
            pipeline,
            clock: RenderClock::started_at(now),
        }
    }

    /// Takes a new window size: the surface is configured with both
    /// dimensions raised to at least one, and the resolution uniform gets
    /// the size of the surface so configured. Pipeline, bindings and clock
    /// stay.
    pub fn resize(&mut self, width: u32, height: u32) -> (request: Resize)
        ensures
            final(self)@ == spec_resize(old(self)@, width, height),
            request == spec_resize_request(old(self)@, width, height),
            request.config == final(self).config,
            request.config.width >= 1 && request.config.height >= 1,
            request.width == request.config.width && request.height == request.config.height,
            final(self).pipeline == old(self).pipeline,
            final(self).bindings == old(self).bindings,
            final(self).clock == old(self).clock,
    {
        let config = SurfaceConfig {
            width: if width == 0 { 1 } else { width },
            height: if height == 0 { 1 } else { height },
        };
        self.config = config;
        Resize {
            config,
            width: config.width,
            height: config.height,
            offset: self.bindings.resolution.offset,
        }
    }

    /// The start of a frame. Where a source arrived and a pipeline was
    /// built for it, that pipeline replaces the current one and the clock
    /// restarts at the reading taken on arrival; else both stay. Returns
    /// the nanoseconds on the clock at `now`, for the time uniform.
    pub fn update(&mut self, reload: Option<Reload>, now: u64) -> (elapsed: u64)
        ensures
            final(self)@ == spec_update(old(self)@, reload_view(reload)),
            elapsed == final(self).clock.spec_elapsed(now),
            reload is None ==> *final(self) == *old(self),
            final(self).bindings == old(self).bindings,
            final(self).config == old(self).config,
            reload is Some && now >= reload->0.at ==> elapsed == now - reload->0.at,
    {
        match reload {
            Some(r) => {
                self.clock = RenderClock::started_at(r.at);
                self.pipeline = r.program;
            },
            None => {},
        }
        self.clock.elapsed(now)
    }

    /// The end of a frame, given how acquiring the surface image went. A
    /// failure is handed back and nothing is drawn or requested; else the
    /// frame draws one triangle with the current pipeline and bind group
    /// and asks for the next redraw.
    pub fn render(&self, acquired: Result<(), SurfaceError>) -> (frame: Result<Frame, SurfaceError>)
        ensures
            match acquired {
                Ok(_) => frame == Ok::<Frame, SurfaceError>(spec_frame()),
                Err(e) => frame == Err::<Frame, SurfaceError>(e),
            },
    {
        match acquired {
            Ok(_) => Ok(
                Frame {
                    first_vertex: 0,
                    vertex_count: TRIANGLE_VERTICES,
                    first_instance: 0,
                    instance_count: 1,
                    bind_group_index: 0,
                    request_redraw: true,
                },
            ),
            Err(e) => Err(e),
        }
    }
}

/// Resizing twice in a row to the same size gives the same state, the same
/// surface configuration and the same resolution to write as resizing once.
pub proof fn lemma_resize_idempotent(s: AppStateView, width: u32, height: u32)
    ensures
        spec_resize(spec_resize(s, width, height), width, height) == spec_resize(s, width, height),
        spec_resize_request(spec_resize(s, width, height), width, height) == spec_resize_request(
            s,
            width,
            height,
        ),
{
}

/// After a reload the clock shows exactly the time that has passed since
/// the source arrived, so the first value written is no more than the time
/// the rebuild and the frame took; the time shown at the reading itself is
/// zero.
pub proof fn lemma_clock_reset(s: AppStateView, program: FragmentProgramView, at: u64, now: u64)
    requires
        now >= at,
    ensures
        spec_update(s, Some((program, at))).clock.spec_elapsed(now) == now - at,
        spec_update(s, Some((program, at))).clock.spec_elapsed(at) == 0,
{
}

/// While no reload happens the clock keeps its start, and the time it
/// shows never decreases from one reading to a later one.
pub proof fn lemma_elapsed_monotonic(s: AppStateView, earlier: u64, later: u64)
    requires
        earlier <= later,
    ensures
        spec_update(s, None) == s,
        spec_update(s, None).clock.spec_elapsed(earlier) <= s.clock.spec_elapsed(later),
{
}

/// The state after the updates of several frames in a row, one reload or
/// none with each.
pub open spec fn spec_updates(
    s: AppStateView,
    reloads: Seq<Option<(FragmentProgramView, u64)>>,
) -> AppStateView
    decreases reloads.len(),
{
    if reloads.len() == 0 {
        s
    } else {
        spec_update(spec_updates(s, reloads.drop_last()), reloads.last())
    }
}

/// However many sources pile up and are taken one frame after another, the
/// pipeline and the clock in the end are those of the reload taken last;
/// surface size and uniform resources are untouched throughout.
pub proof fn lemma_latest_reload_wins(
    s: AppStateView,
    reloads: Seq<Option<(FragmentProgramView, u64)>>,
)
    ensures
        spec_updates(s, reloads).config == s.config,
        spec_updates(s, reloads).bindings == s.bindings,
        reloads.len() > 0 ==> (reloads.last() matches Some((program, at)) ==> spec_updates(
            s,
            reloads,
        ).pipeline == program && spec_updates(s, reloads).clock.start == at),
        (forall|i: int| 0 <= i < reloads.len() ==> reloads[i] is None) ==> spec_updates(s, reloads)
            == s,
    decreases reloads.len(),
{
    if reloads.len() > 0 {
        let earlier = reloads.drop_last();
        lemma_latest_reload_wins(s, earlier);
        assert forall|i: int| 0 <= i < earlier.len() implies earlier[i] == reloads[i] by {}
    }
}

} // verus!
