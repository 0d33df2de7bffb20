//! Presentation state of the window surface and the frame-loop policy.
//!
//! [`State`] models everything the renderer decides with plain values: the
//! last known physical size of the window, the surface configuration
//! derived from it, and the translation applied to the drawn quad.  The
//! geometry itself is a fixed quad of four coloured vertices drawn through
//! a six-entry index list.  The unverified shell owns the native surface,
//! device and queue; it feeds platform events into [`State::handle_event`]
//! and carries out the [`Action`] it is handed back.
//!
//! Positions are in window pixel coordinates (origin top-left); the
//! shader normalizes them to clip space with a matrix derived from the
//! window-size uniform that every frame re-uploads.  Colour channels are
//! unit values (`0` or `1`) that the shell widens to the floating-point
//! channels the GPU expects.

use vstd::prelude::*;

verus! {

/// Edge length of the drawn quad, in pixels.
pub const QUAD_SIZE: i64 = 100;

/// Half the quad edge: a pointer-move centres the quad under the pointer
/// by offsetting the quad's top-left corner this far on each axis.
pub const QUAD_HALF: i64 = 50;

/// A physical window size in pixels.
#[derive(Clone, Copy, Debug, PartialEq, Eq, Structural)]
pub struct PhysicalSize {
    pub width: u32,
    pub height: u32,
}

/// The load-bearing part of the surface configuration: the extent the
/// surface is configured with.  Format, usage, presentation mode and
/// compositing mode are fixed at context creation and never change.
#[derive(Clone, Copy, Debug, PartialEq, Eq, Structural)]
pub struct SurfaceConfig {
    pub width: u32,
    pub height: u32,
}

/// The 2D translation currently applied to the quad's base geometry.
#[derive(Clone, Copy, Debug, PartialEq, Eq, Structural)]
pub struct Offset {
    pub x: i64,
    pub y: i64,
}

/// One vertex: a 3D position in window pixel coordinates and a colour
/// with unit channels.
#[derive(Clone, Copy, Debug, PartialEq, Eq, Structural)]
pub struct Vertex {
    pub x: i64,
    pub y: i64,
    pub z: i64,
    pub red: u8,
    pub green: u8,
    pub blue: u8,
}

/// The key of a keyboard event, reduced to the one distinction the loop
/// policy draws.
#[derive(Clone, Copy, Debug, PartialEq, Eq, Structural)]
pub enum Key {
    Escape,
    Other,
}

/// A platform-delivered event, as the frame loop sees it.
#[derive(Clone, Copy, Debug, PartialEq, Eq, Structural)]
pub enum LoopEvent {
    /// The platform asks for the window to be redrawn.
    RedrawRequested,
    /// All pending platform events have been handed out.
    MainEventsCleared,
    /// The user asked to close the window.
    CloseRequested,
    /// A key went down or up.
    KeyboardInput { key: Key, pressed: bool },
    /// The window was resized to this physical size.
    Resized { width: u32, height: u32 },
    /// The scale factor changed, leaving this new physical size.
    ScaleFactorChanged { width: u32, height: u32 },
    /// The pointer moved to these physical coordinates.
    CursorMoved { x: i64, y: i64 },
    /// Anything else; the loop ignores it.
    Other,
}

/// What the frame loop is to do next, decided by the verified policy and
/// carried out by the shell that owns the platform and GPU handles.
#[derive(Clone, Copy, Debug, PartialEq, Eq, Structural)]
pub enum Action {
    /// Run the per-frame update and render one frame.
    Render,
    /// Input was handled; ask the platform for a redraw.
    RequestRedraw,
    /// Re-apply the surface configuration to the surface.
    Reconfigure,
    /// Leave the event loop.
    Exit,
    /// Report the failure and drop the frame; the loop continues.
    Report,
    /// Nothing to do.
    Continue,
}

/// The ways acquiring the next presentable texture can fail, mirroring
/// the surface errors the graphics backend reports.
#[derive(Clone, Copy, Debug, PartialEq, Eq, Structural)]
pub enum SurfaceError {
    /// The acquisition timed out.
    Timeout,
    /// The surface no longer matches the window and needs configuring.
    Outdated,
    /// The surface was lost and needs configuring.
    Lost,
    /// The system is out of memory; rendering cannot continue.
    OutOfMemory,
}

/// The four quad vertices translated by `position`: the quad's top-left
/// corner sits at the offset, its edges are [`QUAD_SIZE`] long, and the
/// corners are coloured red, green, blue and yellow clockwise from
/// top-left.
pub open spec fn translated_quad(position: Offset) -> Seq<Vertex> {
    seq![
        (Vertex { x: position.x, y: position.y, z: 0, red: 1, green: 0, blue: 0 }),
        (Vertex {
            x: position.x,
            y: (position.y + QUAD_SIZE) as i64,
            z: 0,
            red: 0,
            green: 1,
            blue: 0,
        }),
        (Vertex {
            x: (position.x + QUAD_SIZE) as i64,
            y: (position.y + QUAD_SIZE) as i64,
            z: 0,
            red: 0,
            green: 0,
            blue: 1,
        }),
        (Vertex {
            x: (position.x + QUAD_SIZE) as i64,
            y: position.y,
            z: 0,
            red: 1,
            green: 1,
            blue: 0,
        }),
    ]
}

/// The fixed index topology: two triangles over the four quad vertices.
pub open spec fn index_topology() -> Seq<u16> {
    seq![0u16, 1u16, 2u16, 2u16, 3u16, 0u16]
}

/// Everything one frame uploads and draws: the translated vertices, the
/// window-size uniform the shader derives its normalization matrix from,
/// the viewport extent, and how many indices the one draw call covers.
/// The frame clears to opaque white before drawing.
pub struct Frame {
    pub vertices: Vec<Vertex>,
    pub uniform: PhysicalSize,
    pub viewport: PhysicalSize,
    pub index_count: u32,
}

/// Cursor coordinates stay far enough from the ends of `i64` that
/// centring the quad under them cannot overflow.
pub open spec fn cursor_in_range(event: LoopEvent) -> bool {
    match event {
        LoopEvent::CursorMoved { x, y } => {
            &&& i64::MIN + QUAD_HALF <= x <= i64::MAX - QUAD_HALF
            &&& i64::MIN + QUAD_HALF <= y <= i64::MAX - QUAD_HALF
        },
        _ => true,
    }
}

/// The presentation state of one window surface.
pub struct State {
    size: PhysicalSize,
    config: SurfaceConfig,
    position: Offset,
}

impl State {
    /// The quad's translation leaves room to add [`QUAD_SIZE`] without
    /// overflowing, so the frame geometry is always representable.
    pub open spec fn wf(&self) -> bool {
        &&& self.position().x <= i64::MAX - QUAD_SIZE
        &&& self.position().y <= i64::MAX - QUAD_SIZE
    }

    /// The last known physical size of the window.
    pub closed spec fn size(&self) -> PhysicalSize {
        self.size
    }

    /// The extent the surface is currently configured with.
    pub closed spec fn config(&self) -> SurfaceConfig {
        self.config
    }

    /// The translation currently applied to the quad.
    pub closed spec fn position(&self) -> Offset {
        self.position
    }

    /// A fresh context for a window of the given physical size: the
    /// surface is configured to that size and the quad sits at the
    /// origin.
    pub fn new(width: u32, height: u32) -> (state: State)
        ensures
            state.wf(),
            state.size() == (PhysicalSize { width, height }),
            state.config() == (SurfaceConfig { width, height }),
            state.position() == (Offset { x: 0, y: 0 }),
    {
        State {
            size: PhysicalSize { width, height },
            config: SurfaceConfig { width, height },
            position: Offset { x: 0, y: 0 },
        }
    }

    /// Adopt a new physical size.  A size with either dimension zero is
    /// rejected as a transient state: nothing changes and the surface is
    /// left as it was.  Otherwise both the stored size and the surface
    /// configuration take the new extent, and the caller must re-apply
    /// the configuration to the surface exactly when `reconfigured`.
    pub fn resize(&mut self, width: u32, height: u32) -> (reconfigured: bool)
        requires
            old(self).wf(),
        ensures
            final(self).wf(),
            reconfigured == (width > 0 && height > 0),
            reconfigured ==> final(self).size() == (PhysicalSize { width, height })
                && final(self).config() == (SurfaceConfig { width, height })
                && final(self).position() == old(self).position(),
            !reconfigured ==> *final(self) == *old(self),
    {
        if width == 0 || height == 0 {
            return false;
        }
        self.size = PhysicalSize { width, height };
        self.config = SurfaceConfig { width, height };
        true
    }

    /// Offer one event to the context.  A pointer move is handled: it
    /// centres the quad under the pointer, moving its top-left corner to
    /// the pointer minus [`QUAD_HALF`] on each axis, and the caller
    /// should request a redraw.  Every other event is left unhandled and
    /// changes nothing.
    pub fn input(&mut self, event: &LoopEvent) -> (handled: bool)
        requires
            old(self).wf(),
            cursor_in_range(*event),
        ensures
            final(self).wf(),
            handled == (*event is CursorMoved),
            match *event {
                LoopEvent::CursorMoved { x, y } => {
                    &&& final(self).position() == (Offset {
                        x: (x - QUAD_HALF) as i64,
                        y: (y - QUAD_HALF) as i64,
                    })
                    &&& final(self).size() == old(self).size()
                    &&& final(self).config() == old(self).config()
                },
                _ => *final(self) == *old(self),
            },
    {
        match *event {
            LoopEvent::CursorMoved { x, y } => {
                self.position = Offset { x: x - QUAD_HALF, y: y - QUAD_HALF };
                true
            },
            _ => false,
        }
    }

    /// The per-frame update hook.  Reserved for animation and state
    /// advancement; it currently changes nothing.
    pub fn update(&mut self)
        ensures
            *final(self) == *old(self),
    {
    }

    /// Lay out one frame: the quad translated to the current offset, the
    /// window-size uniform and viewport at the current size, and one
    /// indexed draw over the whole topology.
    pub fn frame(&self) -> (frame: Frame)
        requires
            self.wf(),
        ensures
            frame.vertices@ == translated_quad(self.position()),
            frame.vertices@.len() == 4,
            frame.uniform == self.size(),
            frame.viewport == self.size(),
            frame.index_count == index_topology().len(),
    {
        let mut vertices: Vec<Vertex> = Vec::new();
        let x = self.position.x;
        let y = self.position.y;
        vertices.push(Vertex { x, y, z: 0, red: 1, green: 0, blue: 0 });
        vertices.push(Vertex { x, y: y + QUAD_SIZE, z: 0, red: 0, green: 1, blue: 0 });
        vertices.push(
            Vertex { x: x + QUAD_SIZE, y: y + QUAD_SIZE, z: 0, red: 0, green: 0, blue: 1 },
        );
        vertices.push(Vertex { x: x + QUAD_SIZE, y, z: 0, red: 1, green: 1, blue: 0 });
        proof {
            assert(vertices@ =~= translated_quad(self.position()));
        }
        Frame {
            vertices,
            uniform: self.size,
            viewport: self.size,
            index_count: 6,
        }
    }

    /// Decide what the loop does with one platform event.
    ///
    /// The event is first offered to [`State::input`]; a handled event
    /// asks for a redraw.  Unhandled events fall to the built-in policy:
    /// a close request or a pressed escape key leaves the loop, a resize
    /// or scale-factor change adopts the new size (asking the shell to
    /// reconfigure the surface exactly when the size was accepted), a
    /// redraw request renders after the update hook, and everything else
    /// is ignored.
    pub fn handle_event(&mut self, event: &LoopEvent) -> (action: Action)
        requires
            old(self).wf(),
            cursor_in_range(*event),
        ensures
            final(self).wf(),
            match *event {
                LoopEvent::RedrawRequested => action == Action::Render && *final(self) == *old(
                    self,
                ),
                LoopEvent::CursorMoved { x, y } => {
                    &&& action == Action::RequestRedraw
                    &&& final(self).position() == (Offset {
                        x: (x - QUAD_HALF) as i64,
                        y: (y - QUAD_HALF) as i64,
                    })
                    &&& final(self).size() == old(self).size()
                    &&& final(self).config() == old(self).config()
                },
                LoopEvent::CloseRequested => action == Action::Exit && *final(self) == *old(self),
                LoopEvent::KeyboardInput { key, pressed } => {
                    &&& action == (if key == Key::Escape && pressed {
                        Action::Exit
                    } else {
                        Action::Continue
                    })
                    &&& *final(self) == *old(self)
                },
                LoopEvent::Resized { width, height } | LoopEvent::ScaleFactorChanged {
                    width,
                    height,
                } => {
                    &&& action == (if width > 0 && height > 0 {
                        Action::Reconfigure
                    } else {
                        Action::Continue
                    })
                    &&& (width > 0 && height > 0 ==> final(self).size() == (PhysicalSize {
                        width,
                        height,
                    }) && final(self).config() == (SurfaceConfig { width, height })
                        && final(self).position() == old(self).position())
                    &&& (!(width > 0 && height > 0) ==> *final(self) == *old(self))
                },
                LoopEvent::MainEventsCleared | LoopEvent::Other => action == Action::Continue
                    && *final(self) == *old(self),
            },
    {
        if self.input(event) {
            return Action::RequestRedraw;
        }
        match *event {
            LoopEvent::RedrawRequested => {
                self.update();
                Action::Render
            },
            LoopEvent::CloseRequested => Action::Exit,
            LoopEvent::KeyboardInput { key: Key::Escape, pressed: true } => Action::Exit,
            LoopEvent::Resized { width, height } | LoopEvent::ScaleFactorChanged {
                width,
                height,
            } => {
                if self.resize(width, height) {
                    Action::Reconfigure
                } else {
                    Action::Continue
                }
            },
            _ => Action::Continue,
        }
    }
}

/// The frame-failure policy: a lost surface is reconfigured with the
/// last-known size and the loop retries, running out of memory ends the
/// loop, and every other acquisition error is reported while the frame
/// is dropped.
pub fn render_failure_policy(error: &SurfaceError) -> (action: Action)
    ensures
        action == (match *error {
            SurfaceError::Lost => Action::Reconfigure,
            SurfaceError::OutOfMemory => Action::Exit,
            _ => Action::Report,
        }),
{
    match *error {
        SurfaceError::Lost => Action::Reconfigure,
        SurfaceError::OutOfMemory => Action::Exit,
        _ => Action::Report,
    }
}

/// Pick the surface format: the first format reported as gamma-encoded
/// (sRGB), or the first reported format when none is.  `srgb[i]` says
/// whether the `i`-th reported format is gamma-encoded.
pub fn select_surface_format(srgb: &Vec<bool>) -> (chosen: usize)
    requires
        srgb@.len() > 0,
    ensures
        chosen < srgb@.len(),
        (exists|i: int| 0 <= i < srgb@.len() && srgb@[i]) ==> srgb@[chosen as int] && (forall|
            j: int,
        |
            0 <= j < chosen ==> !srgb@[j]),
        (forall|i: int| 0 <= i < srgb@.len() ==> !srgb@[i]) ==> chosen == 0,
{
    let n = srgb.len();
    let mut i: usize = 0;
    while i < n
        invariant
            i <= n,
            n == srgb@.len(),
            forall|j: int| 0 <= j < i ==> !srgb@[j],
        decreases n - i,
    {
        if srgb[i] {
            return i;
        }
        i += 1;
    }
    0
}

/// The six quad indices, in draw order.
pub fn quad_indices() -> (indices: Vec<u16>)
    ensures
        indices@ == index_topology(),
{
    let mut indices: Vec<u16> = Vec::new();
    indices.push(0);
    indices.push(1);
    indices.push(2);
    indices.push(2);
    indices.push(3);
    indices.push(0);
    proof {
        assert(indices@ =~= index_topology());
    }
    indices
}

/// Relies on `bytemuck::cast_slice`: reinterpreting `&[u16]` as `&[u8]`
/// never fails and exposes each index as its two bytes in the machine's
/// own order.  For values under 256 one byte is the value and the other
/// is zero, the same way round for every element.
#[verifier::external_body]
fn cast_to_bytes(indices: &Vec<u16>) -> (bytes: Vec<u8>)
    requires
        forall|i: int| 0 <= i < indices@.len() ==> indices@[i] < 256,
    ensures
        bytes@.len() == 2 * indices@.len(),
        (forall|i: int|
            0 <= i < indices@.len() ==> bytes@[2 * i] == indices@[i] as u8 && bytes@[2 * i + 1]
                == 0) || (forall|i: int|
            0 <= i < indices@.len() ==> bytes@[2 * i] == 0 && bytes@[2 * i + 1] == indices@[i] as u8),
{
    bytemuck::cast_slice::<u16, u8>(indices.as_slice()).to_vec()
}

/// The index buffer as raw bytes, ready to upload: the fixed topology,
/// two bytes per 16-bit index, one of them the index and the other zero.
pub fn index_buffer_bytes() -> (bytes: Vec<u8>)
    ensures
        bytes@.len() == 2 * index_topology().len(),
        (forall|i: int|
            0 <= i < index_topology().len() ==> bytes@[2 * i] == index_topology()[i] as u8
                && bytes@[2 * i + 1] == 0) || (forall|i: int|
            0 <= i < index_topology().len() ==> bytes@[2 * i] == 0 && bytes@[2 * i + 1]
                == index_topology()[i] as u8),
{
    let indices = quad_indices();
    proof {
        law_index_topology();
    }
    cast_to_bytes(&indices)
}

/// Law: the index topology has six entries, references exactly the four
/// quad vertices, and — being a constant — is the same however many
/// times the geometry is re-uploaded.
pub proof fn law_index_topology()
    ensures
        index_topology().len() == 6,
        forall|i: int| 0 <= i < index_topology().len() ==> index_topology()[i] < 4,
        forall|v: u16| v < 4 ==> index_topology().contains(v),
{
    assert forall|v: u16| v < 4 implies index_topology().contains(v) by {
        if v == 0 {
            assert(index_topology()[0] == v);
        } else if v == 1 {
            assert(index_topology()[1] == v);
        } else if v == 2 {
            assert(index_topology()[2] == v);
        } else {
            assert(index_topology()[4] == v);
        }
    }
}

} // verus!
