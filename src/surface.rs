use vstd::prelude::*;

verus! {

/// Number of vertices of the triangle that every frame draws.
pub const TRIANGLE_VERTEX_COUNT: u32 = 3;

/// Size in bytes of one `f32` vertex component.
pub const COMPONENT_BYTES: u64 = 4;

/// Width and height, in pixels, of a surface configuration.
#[derive(Clone, Copy, Debug, PartialEq, Eq, Structural)]
pub struct SurfaceSize {
    pub width: u32,
    pub height: u32,
}

/// The one draw call of a frame: a range of vertices and a range of instances.
#[derive(Clone, Copy, Debug, PartialEq, Eq, Structural)]
pub struct DrawCall {
    pub first_vertex: u32,
    pub vertex_count: u32,
    pub first_instance: u32,
    pub instance_count: u32,
}

/// What a call of `render` asks of the GPU layer. In both cases the window is
/// asked to redraw again.
#[derive(Clone, Copy, Debug, PartialEq, Eq, Structural)]
pub enum FramePlan {
    /// The surface was never configured: nothing is acquired or drawn.
    Skip,
    /// Acquire the next texture, clear it, issue this draw call, submit and present.
    Draw(DrawCall),
}

/// One attribute of the vertex layout: its byte offset and its shader location.
#[derive(Clone, Copy, Debug, PartialEq, Eq, Structural)]
pub struct VertexAttribute {
    pub offset: u64,
    pub shader_location: u32,
}

/// Layout of one vertex in the vertex buffer: a position and a color, three
/// `f32` components each, stepped once per vertex.
#[derive(Clone, Copy, Debug, PartialEq, Eq, Structural)]
pub struct VertexLayout {
    pub array_stride: u64,
    pub position: VertexAttribute,
    pub color: VertexAttribute,
}

/// The decision state of the render surface controller: the stored surface
/// configuration, the device's largest 2D texture dimension, and whether the
/// surface has been configured at least once.
#[derive(Clone, Copy, Debug, PartialEq, Eq, Structural)]
pub struct State {
    pub config: SurfaceSize,
    pub max_texture_dimension_2d: u32,
    pub is_surface_configured: bool,
}

/// One side of a requested size, as it will be stored: at most `max`, and at least 1.
pub open spec fn clamp_dimension(v: u32, max: u32) -> u32 {
    if v > max {
        if max == 0 { 1 } else { max }
    } else if v == 0 {
        1
    } else {
        v
    }
}

/// Whether a requested size has a zero side, which `resize` ignores.
pub open spec fn is_degenerate(width: u32, height: u32) -> bool {
    width == 0 || height == 0
}

/// The draw call of every frame: all vertices of the triangle, one instance.
pub open spec fn triangle_draw() -> DrawCall {
    DrawCall {
        first_vertex: 0,
        vertex_count: TRIANGLE_VERTEX_COUNT,
        first_instance: 0,
        instance_count: 1,
    }
}

/// Index of the first `true` in `flags`, if any.
pub open spec fn is_first_true(flags: Seq<bool>, i: int) -> bool {
    0 <= i < flags.len() && flags[i] && forall|j: int| 0 <= j < i ==> !flags[j]
}

/// The surface format to use among the supported ones, given whether each is
/// sRGB: the first sRGB one, else the first one; none when the list is empty.
pub open spec fn chosen_format(is_srgb: Seq<bool>) -> Option<int> {
    if is_srgb.len() == 0 {
        None
    } else if exists|i: int| 0 <= i < is_srgb.len() && is_srgb[i] {
        Some(choose|i: int| is_first_true(is_srgb, i))
    } else {
        Some(0)
    }
}

impl State {
    /// A controller for a window of the given size, not yet configured.
    pub open spec fn initial(width: u32, height: u32, max_texture_dimension_2d: u32) -> State {
        State {
            config: SurfaceSize { width, height },
            max_texture_dimension_2d,
            is_surface_configured: false,
        }
    }

    /// The state after `resize(width, height)`.
    pub open spec fn resized(self, width: u32, height: u32) -> State {
        if is_degenerate(width, height) {
            self
        } else {
            State {
                config: SurfaceSize {
                    width: clamp_dimension(width, self.max_texture_dimension_2d),
                    height: clamp_dimension(height, self.max_texture_dimension_2d),
                },
                max_texture_dimension_2d: self.max_texture_dimension_2d,
                is_surface_configured: true,
            }
        }
    }

    /// The state after resizing to each size of `sizes` in turn.
    pub open spec fn resized_all(self, sizes: Seq<(u32, u32)>) -> State
        decreases sizes.len(),
    {
        if sizes.len() == 0 {
            self
        } else {
            self.resized(sizes[0].0, sizes[0].1).resized_all(sizes.drop_first())
        }
    }

    /// What `render` asks for in this state.
    pub open spec fn frame_plan(self) -> FramePlan {
        if self.is_surface_configured {
            FramePlan::Draw(triangle_draw())
        } else {
            FramePlan::Skip
        }
    }

    /// Builds the controller state for a window whose current pixel size is
    /// `width` by `height`, on a device whose largest 2D texture side is
    /// `max_texture_dimension_2d`. The configuration holds the window size as
    /// it is; the surface is not configured yet.
    pub fn new(width: u32, height: u32, max_texture_dimension_2d: u32) -> (r: State)
        ensures
            r == State::initial(width, height, max_texture_dimension_2d),
            !r.is_surface_configured,
    {
        State {
            config: SurfaceSize { width, height },
            max_texture_dimension_2d,
            is_surface_configured: false,
        }
    }

    /// Resizes the stored configuration. A size with a zero side is ignored
    /// and `None` comes back. Otherwise each side is clamped to at most the
    /// device's largest 2D texture side (and at least 1), stored, the surface
    /// counts as configured, and the configuration to apply to the surface
    /// comes back.
    pub fn resize(&mut self, width: u32, height: u32) -> (r: Option<SurfaceSize>)
        ensures
            *final(self) == old(self).resized(width, height),
            is_degenerate(width, height) ==> r.is_none() && *final(self) == *old(self),
            !is_degenerate(width, height) ==> r == Some(final(self).config)
                && final(self).is_surface_configured,
            !is_degenerate(width, height) && width > old(self).max_texture_dimension_2d
                && old(self).max_texture_dimension_2d > 0
                ==> final(self).config.width == old(self).max_texture_dimension_2d,
            !is_degenerate(width, height) && height > old(self).max_texture_dimension_2d
                && old(self).max_texture_dimension_2d > 0
                ==> final(self).config.height == old(self).max_texture_dimension_2d,
            final(self).max_texture_dimension_2d == old(self).max_texture_dimension_2d,
    {
        if width == 0 || height == 0 {
            return None;
        }
        self.config = SurfaceSize {
            width: clamp_dimension_exec(width, self.max_texture_dimension_2d),
            height: clamp_dimension_exec(height, self.max_texture_dimension_2d),
        };
        self.is_surface_configured = true;
        Some(self.config)
    }

    /// Plans one frame: a skip while the surface was never configured, else
    /// the triangle's draw call.
    pub fn render(&self) -> (r: FramePlan)
        ensures
            r == self.frame_plan(),
            !self.is_surface_configured ==> r == FramePlan::Skip,
            self.is_surface_configured ==> r == FramePlan::Draw(triangle_draw()),
    {
        if !self.is_surface_configured {
            return FramePlan::Skip;
        }
        FramePlan::Draw(DrawCall {
            first_vertex: 0,
            vertex_count: TRIANGLE_VERTEX_COUNT,
            first_instance: 0,
            instance_count: 1,
        })
    }

    /// The stored surface configuration.
    pub fn config(&self) -> (r: SurfaceSize)
        ensures
            r == self.config,
    {
        self.config
    }

    /// Whether the surface has been configured at least once.
    pub fn is_surface_configured(&self) -> (r: bool)
        ensures
            r == self.is_surface_configured,
    {
        self.is_surface_configured
    }
}

/// Clamps one requested side to at most `max` and at least 1.
pub fn clamp_dimension_exec(v: u32, max: u32) -> (r: u32)
    ensures
        r == clamp_dimension(v, max),
        1 <= r,
        max > 0 ==> r <= max,
{
    let c: u32 = if v > max { max } else { v };
    if c == 0 { 1 } else { c }
}

/// Picks the surface format among the supported ones, given whether each is
/// sRGB: the index of the first sRGB format, else 0; `None` for an empty list.
pub fn choose_format(is_srgb: &Vec<bool>) -> (r: Option<usize>)
    ensures
        r.is_none() <==> is_srgb@.len() == 0,
        r matches Some(i) ==> chosen_format(is_srgb@) == Some(i as int),
        r matches Some(i) ==> i < is_srgb@.len(),
{
    if is_srgb.len() == 0 {
        return None;
    }
    let mut i: usize = 0;
    while i < is_srgb.len()
        invariant
            0 <= i <= is_srgb@.len(),
            forall|j: int| 0 <= j < i ==> !is_srgb@[j],
        decreases is_srgb@.len() - i,
    {
        if is_srgb[i] {
            proof {
                assert(is_first_true(is_srgb@, i as int));
                let k = choose|k: int| is_first_true(is_srgb@, k);
                assert(is_first_true(is_srgb@, k));
                if k < i {
                } else if k > i {
                    assert(!is_srgb@[i as int]);
                }
            }
            return Some(i);
        }
        i = i + 1;
    }
    Some(0)
}

/// The vertex buffer layout: stride of six `f32`s, the position at offset 0
/// (location 0) and the color after the position's three `f32`s (location 1).
pub fn vertex_layout() -> (r: VertexLayout)
    ensures
        r.array_stride == 6 * COMPONENT_BYTES,
        r.position.offset == 0 && r.position.shader_location == 0,
        r.color.offset == 3 * COMPONENT_BYTES && r.color.shader_location == 1,
{
    VertexLayout {
        array_stride: 6 * COMPONENT_BYTES,
        position: VertexAttribute { offset: 0, shader_location: 0 },
        color: VertexAttribute { offset: 3 * COMPONENT_BYTES, shader_location: 1 },
    }
}

/// Once a resize with both sides non-zero has happened, the surface counts as
/// configured and every later `render` acquires and draws a frame.
pub proof fn lemma_resize_enables_drawing(s: State, width: u32, height: u32)
    requires
        !is_degenerate(width, height),
    ensures
        s.resized(width, height).is_surface_configured,
        s.resized(width, height).frame_plan() == FramePlan::Draw(triangle_draw()),
{
}

/// A fresh controller that has only seen resizes with a zero side still
/// renders without acquiring a texture.
pub proof fn lemma_skips_until_first_resize(
    width: u32,
    height: u32,
    max_texture_dimension_2d: u32,
    sizes: Seq<(u32, u32)>,
)
    requires
        forall|i: int| 0 <= i < sizes.len() ==> is_degenerate(#[trigger] sizes[i].0, sizes[i].1),
    ensures
        State::initial(width, height, max_texture_dimension_2d).resized_all(sizes).frame_plan()
            == FramePlan::Skip,
{
    lemma_degenerate_resizes_keep_state(State::initial(width, height, max_texture_dimension_2d), sizes);
}

/// Resizes that all have a zero side leave the state as it was.
pub proof fn lemma_degenerate_resizes_keep_state(s: State, sizes: Seq<(u32, u32)>)
    requires
        forall|i: int| 0 <= i < sizes.len() ==> is_degenerate(#[trigger] sizes[i].0, sizes[i].1),
    ensures
        s.resized_all(sizes) == s,
    decreases sizes.len(),
{
    if sizes.len() > 0 {
        let rest = sizes.drop_first();
        assert forall|i: int| 0 <= i < rest.len() implies is_degenerate(#[trigger] rest[i].0, rest[i].1) by {
            assert(rest[i] == sizes[i + 1]);
        }
        assert(is_degenerate(sizes[0].0, sizes[0].1));
        lemma_degenerate_resizes_keep_state(s, rest);
    }
}

} // verus!
