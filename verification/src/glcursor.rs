//! The cursor that the compositor draws over the scene: where its quad
//! stands, which image it shows, and whether it is drawn at all.
//!
//! The graphics device is the caller's. The renderer keeps what the device
//! is to be given; every function says what the caller has to do on the
//! device afterwards.

use vstd::prelude::*;
use vstd::slice::*;

verus! {

/// The number of corners of the quad.
pub const QUAD_CORNERS: usize = 4;

/// A corner of the quad, in device pixels.
#[derive(Clone, Copy, Debug, PartialEq, Eq, Structural)]
pub struct Corner {
    pub x: i64,
    pub y: i64,
}

/// The four corners of a cursor at `(x, y)` of the given size: top left, top
/// right, bottom left, bottom right.
pub open spec fn quad_corners(x: i32, y: i32, width: i32, height: i32) -> Seq<Corner> {
    seq![
        Corner { x: x as i64, y: y as i64 },
        Corner { x: (x + width) as i64, y: y as i64 },
        Corner { x: x as i64, y: (y + height) as i64 },
        Corner { x: (x + width) as i64, y: (y + height) as i64 },
    ]
}

/// The two triangles of the quad, as indices into its corners.
pub open spec fn quad_indices() -> Seq<u32> {
    seq![0u32, 1u32, 2u32, 2u32, 1u32, 3u32]
}

/// The image that a caller hands over, if it hands one over that holds the
/// `size` bytes it speaks of: the first `size` bytes of the buffer.
pub open spec fn given_image(cursor_buffer: Option<Seq<u8>>, size: usize) -> Option<Seq<u8>> {
    match cursor_buffer {
        Some(buffer) => if size <= buffer.len() {
            Some(buffer.take(size as int))
        } else {
            None
        },
        None => None,
    }
}

/// What is to be drawn, and how.
#[derive(Clone, Copy, Debug, PartialEq, Eq, Structural)]
pub struct CursorPass {
    /// The width of the viewport; the projection spans `0` to the width.
    pub width: i32,
    /// The vertical coordinate at the bottom of the projection.
    pub bottom: i32,
    /// The vertical coordinate at the top of the projection.
    pub top: i32,
    /// Whether the quad is drawn.
    pub draw: bool,
    /// Whether the image is bound for the draw.
    pub bind_texture: bool,
    /// How many indices the draw takes.
    pub index_count: usize,
}

/// The cursor's renderer.
#[derive(Debug, PartialEq, Eq)]
pub struct GLCursorRenderer {
    glcursor_corners: Vec<Corner>,
    glcursor_indices: Vec<u32>,
    glcursor_texture: bool,
    glcursor_enable: bool,
    glcursor_x: i32,
    glcursor_y: i32,
    glcursor_width: i32,
    glcursor_height: i32,
    glcursor_buffer: Vec<u8>,
}

/// A renderer as values.
pub struct RendererView {
    pub corners: Seq<Corner>,
    pub indices: Seq<u32>,
    /// Whether the device holds a texture with the image.
    pub texture: bool,
    pub enable: bool,
    pub x: i32,
    pub y: i32,
    pub width: i32,
    pub height: i32,
    pub buffer: Seq<u8>,
}

impl View for GLCursorRenderer {
    type V = RendererView;

    closed spec fn view(&self) -> RendererView {
        RendererView {
            corners: self.glcursor_corners@,
            indices: self.glcursor_indices@,
            texture: self.glcursor_texture,
            enable: self.glcursor_enable,
            x: self.glcursor_x,
            y: self.glcursor_y,
            width: self.glcursor_width,
            height: self.glcursor_height,
            buffer: self.glcursor_buffer@,
        }
    }
}

/// A renderer that has been told nothing yet.
pub open spec fn fresh_renderer() -> RendererView {
    RendererView {
        corners: Seq::empty(),
        indices: Seq::empty(),
        texture: false,
        enable: false,
        x: -1i32,
        y: -1i32,
        width: 0,
        height: 0,
        buffer: Seq::empty(),
    }
}

/// The renderer after it was told where the cursor stands, and perhaps given
/// a new image.
pub open spec fn after_set(
    before: RendererView,
    enable: bool,
    x: i32,
    y: i32,
    width: i32,
    height: i32,
    image: Option<Seq<u8>>,
) -> RendererView {
    RendererView {
        corners: quad_corners(x, y, width, height),
        indices: quad_indices(),
        texture: before.texture || image is Some,
        enable,
        x,
        y,
        width,
        height,
        buffer: match image {
            Some(bytes) => bytes,
            None => before.buffer,
        },
    }
}

/// The pass that draws the cursor, if one is due: none while the cursor is
/// disabled, and none without a viewport.
pub open spec fn cursor_pass(
    renderer: RendererView,
    viewport_size: Option<(i32, i32)>,
    surface_origin_is_top_left: bool,
) -> Option<CursorPass> {
    match viewport_size {
        Some((width, height)) => if renderer.enable {
            Some(
                CursorPass {
                    width,
                    bottom: if surface_origin_is_top_left {
                        0
                    } else {
                        height
                    },
                    top: if surface_origin_is_top_left {
                        height
                    } else {
                        0
                    },
                    draw: renderer.corners.len() > 0,
                    bind_texture: renderer.corners.len() > 0 && renderer.texture,
                    index_count: if renderer.corners.len() > 0 {
                        renderer.indices.len() as usize
                    } else {
                        0
                    },
                },
            )
        } else {
            None
        },
        None => None,
    }
}

impl GLCursorRenderer {
    /// A renderer that has been told nothing yet: no quad, no image, the
    /// cursor disabled.
    pub fn new() -> (renderer: Self)
        ensures
            renderer@ == fresh_renderer(),
    {
        GLCursorRenderer {
            glcursor_corners: Vec::new(),
            glcursor_indices: Vec::new(),
            glcursor_texture: false,
            glcursor_enable: false,
            glcursor_x: -1,
            glcursor_y: -1,
            glcursor_width: 0,
            glcursor_height: 0,
            glcursor_buffer: Vec::new(),
        }
    }

    /// Gives the renderer up. The result says whether the device holds a
    /// texture to delete.
    pub fn deinit(self) -> (texture: bool)
        ensures
            texture == self@.texture,
    {
        self.glcursor_texture
    }

    /// The corners of the quad.
    pub fn corners(&self) -> (corners: &Vec<Corner>)
        ensures
            corners@ == self@.corners,
    {
        &self.glcursor_corners
    }

    /// The indices of the quad's triangles.
    pub fn indices(&self) -> (indices: &Vec<u32>)
        ensures
            indices@ == self@.indices,
    {
        &self.glcursor_indices
    }

    /// The image of the cursor.
    pub fn buffer(&self) -> (buffer: &Vec<u8>)
        ensures
            buffer@ == self@.buffer,
    {
        &self.glcursor_buffer
    }

    /// Tells the renderer where the cursor stands and whether it is shown.
    /// With a buffer that holds the `size` bytes spoken of, those bytes
    /// become the image; the result then says that the device's texture is
    /// to be made anew from the image. A buffer shorter than `size` is
    /// passed over, as if none had been given.
    pub fn set_glcursor(
        &mut self,
        enable: bool,
        x: i32,
        y: i32,
        width: i32,
        height: i32,
        cursor_buffer: Option<&[u8]>,
        size: usize,
    ) -> (upload: bool)
        ensures
            final(self)@ == after_set(
                old(self)@,
                enable,
                x,
                y,
                width,
                height,
                given_image(
                    match cursor_buffer {
                        Some(b) => Some(b@),
                        None => None,
                    },
                    size,
                ),
            ),
            upload == given_image(
                match cursor_buffer {
                    Some(b) => Some(b@),
                    None => None,
                },
                size,
            ) is Some,
    {
        let left = x as i64;
        let top = y as i64;
        let right = left + width as i64;
        let bottom = top + height as i64;
        let mut corners = Vec::new();
        corners.push(Corner { x: left, y: top });
        corners.push(Corner { x: right, y: top });
        corners.push(Corner { x: left, y: bottom });
        corners.push(Corner { x: right, y: bottom });
        assert(corners@ =~= quad_corners(x, y, width, height));
        self.glcursor_corners = corners;

        let mut indices = Vec::new();
        indices.push(0);
        indices.push(1);
        indices.push(2);
        indices.push(2);
        indices.push(1);
        indices.push(3);
        assert(indices@ =~= quad_indices());
        self.glcursor_indices = indices;

        let mut upload = false;
        match cursor_buffer {
            Some(buffer) => {
                if size <= buffer.len() {
                    self.glcursor_buffer = slice_to_vec(slice_subrange(buffer, 0, size));
                    self.glcursor_texture = true;
                    upload = true;
                }
            },
            None => {},
        }
        self.glcursor_enable = enable;
        self.glcursor_x = x;
        self.glcursor_y = y;
        self.glcursor_width = width;
        self.glcursor_height = height;
        upload
    }

    /// The pass that draws the cursor into a viewport of the given width and
    /// height, if one is due.
    pub fn render(
        &self,
        viewport_size: Option<(i32, i32)>,
        surface_origin_is_top_left: bool,
    ) -> (pass: Option<CursorPass>)
        ensures
            pass == cursor_pass(self@, viewport_size, surface_origin_is_top_left),
    {
        if !self.glcursor_enable {
            return None;
        }
        match viewport_size {
            Some((width, height)) => {
                let (bottom, top) = if surface_origin_is_top_left {
                    (0, height)
                } else {
                    (height, 0)
                };
                let draw = !self.glcursor_corners.is_empty();
                Some(
                    CursorPass {
                        width,
                        bottom,
                        top,
                        draw,
                        bind_texture: draw && self.glcursor_texture,
                        index_count: if draw {
                            self.glcursor_indices.len()
                        } else {
                            0
                        },
                    },
                )
            },
            None => None,
        }
    }
}

/// A cursor renderer that is made when the cursor is first shown.
#[derive(Debug, PartialEq, Eq)]
pub struct LazyInitializedGLCursorRenderer {
    glcursor_renderer: Option<GLCursorRenderer>,
    failed: bool,
    glcursor_enable: bool,
}

/// A lazily made renderer as values.
pub struct LazyView {
    pub renderer: Option<RendererView>,
    /// Whether making the renderer has failed.
    pub failed: bool,
    pub enable: bool,
}

impl View for LazyInitializedGLCursorRenderer {
    type V = LazyView;

    closed spec fn view(&self) -> LazyView {
        LazyView {
            renderer: match self.glcursor_renderer {
                Some(r) => Some(r@),
                None => None,
            },
            failed: self.failed,
            enable: self.glcursor_enable,
        }
    }
}

/// The state after an attempt to make the renderer: one that exists stays;
/// else a fresh one is there if the device was ready, and the failure is
/// recorded if it was not.
pub open spec fn after_create(before: LazyView, device_ready: bool) -> LazyView {
    if before.renderer is Some {
        before
    } else if device_ready {
        LazyView { renderer: Some(fresh_renderer()), ..before }
    } else {
        LazyView { failed: true, ..before }
    }
}

/// The state after the cursor was told where to stand. The renderer is made
/// first when the cursor goes from hidden to shown; if it cannot be made,
/// nothing else changes.
pub open spec fn lazy_after_set(
    before: LazyView,
    device_ready: bool,
    enable: bool,
    x: i32,
    y: i32,
    width: i32,
    height: i32,
    image: Option<Seq<u8>>,
) -> LazyView {
    let made = if enable && !before.enable {
        after_create(before, device_ready)
    } else {
        before
    };
    match made.renderer {
        Some(r) => LazyView {
            renderer: Some(after_set(r, enable, x, y, width, height, image)),
            enable,
            ..made
        },
        None => made,
    }
}

/// The state in which the renderer is handed out, or withheld: while the
/// cursor is shown and making the renderer has not failed, a missing renderer
/// is made first.
pub open spec fn before_get(before: LazyView, device_ready: bool) -> LazyView {
    if before.failed || !before.enable {
        before
    } else {
        after_create(before, device_ready)
    }
}

/// The renderer that is handed out, if one is: none while the cursor is
/// hidden, and none once making the renderer has failed.
pub open spec fn handed_out(before: LazyView, device_ready: bool) -> Option<RendererView> {
    if before.failed || !before.enable {
        None
    } else {
        before_get(before, device_ready).renderer
    }
}

impl LazyInitializedGLCursorRenderer {
    /// No renderer yet, no failure, the cursor disabled.
    pub fn new() -> (lazy: Self)
        ensures
            lazy@ == (LazyView { renderer: None, failed: false, enable: false }),
    {
        LazyInitializedGLCursorRenderer {
            glcursor_renderer: None,
            failed: false,
            glcursor_enable: false,
        }
    }

    /// Whether the cursor is shown.
    pub fn is_enabled(&self) -> (enabled: bool)
        ensures
            enabled == self@.enable,
    {
        self.glcursor_enable
    }

    /// Whether the device has to make ready for a renderer before
    /// `create_render` can make one.
    pub fn needs_renderer(&self) -> (needed: bool)
        ensures
            needed == (self@.renderer is None),
    {
        self.glcursor_renderer.is_none()
    }

    /// Makes the renderer unless it exists. `device_ready` says whether the
    /// device could make ready for it. The result says whether a renderer is
    /// there afterwards.
    pub fn create_render(&mut self, device_ready: bool) -> (created: bool)
        ensures
            final(self)@ == after_create(old(self)@, device_ready),
            created == (final(self)@.renderer is Some),
    {
        if self.glcursor_renderer.is_none() {
            if device_ready {
                self.glcursor_renderer = Some(GLCursorRenderer::new());
            } else {
                self.failed = true;
                return false;
            }
        }
        true
    }

    /// Tells the renderer where the cursor stands, making the renderer first
    /// when the cursor goes from hidden to shown. If the renderer cannot be
    /// made, nothing changes but the record of the failure. The result says
    /// whether the device's texture is to be made anew.
    pub fn set_glcursor(
        &mut self,
        device_ready: bool,
        enable: bool,
        x: i32,
        y: i32,
        width: i32,
        height: i32,
        cursor_buffer: Option<&[u8]>,
        size: usize,
    ) -> (upload: bool)
        requires
            old(self)@.renderer is Some || (enable && !old(self)@.enable),
        ensures
            final(self)@ == lazy_after_set(
                old(self)@,
                device_ready,
                enable,
                x,
                y,
                width,
                height,
                given_image(
                    match cursor_buffer {
                        Some(b) => Some(b@),
                        None => None,
                    },
                    size,
                ),
            ),
            upload == (final(self)@.renderer is Some && given_image(
                match cursor_buffer {
                    Some(b) => Some(b@),
                    None => None,
                },
                size,
            ) is Some),
    {
        if enable && !self.glcursor_enable {
            if !self.create_render(device_ready) {
                return false;
            }
        }
        self.glcursor_enable = enable;
        match &mut self.glcursor_renderer {
            Some(renderer) => renderer.set_glcursor(
                enable,
                x,
                y,
                width,
                height,
                cursor_buffer,
                size,
            ),
            None => false,
        }
    }

    /// The renderer, if the cursor is shown. It is made if it does not exist
    /// and making it has not failed before.
    pub fn get_mut(&mut self, device_ready: bool) -> (renderer: Option<&mut GLCursorRenderer>)
        ensures
            renderer matches Some(r) ==> Some(r@) == handed_out(old(self)@, device_ready),
            renderer matches Some(r) ==> final(self)@ == (LazyView {
                renderer: Some(final(r)@),
                ..before_get(old(self)@, device_ready)
            }),
            renderer is None ==> handed_out(old(self)@, device_ready) is None,
            renderer is None ==> final(self)@ == before_get(old(self)@, device_ready),
    {
        if self.failed || !self.glcursor_enable {
            return None;
        }
        if self.glcursor_renderer.is_none() {
            if device_ready {
                self.glcursor_renderer = Some(GLCursorRenderer::new());
            } else {
                self.failed = true;
            }
        }
        self.glcursor_renderer.as_mut()
    }

    /// The renderer, if it exists.
    pub fn try_get_mut(&mut self) -> (renderer: Option<&mut GLCursorRenderer>)
        ensures
            renderer matches Some(r) ==> Some(r@) == old(self)@.renderer,
            renderer matches Some(r) ==> final(self)@ == (LazyView {
                renderer: Some(final(r)@),
                ..old(self)@
            }),
            renderer is None ==> old(self)@.renderer is None,
            renderer is None ==> final(self)@ == old(self)@,
    {
        self.glcursor_renderer.as_mut()
    }

    /// Gives the renderer up, if there is one. The result then says whether
    /// the device holds a texture to delete.
    pub fn deinit(self) -> (texture: Option<bool>)
        ensures
            self@.renderer matches Some(r) ==> texture == Some(r.texture),
            self@.renderer is None ==> texture is None,
    {
        match self.glcursor_renderer {
            Some(renderer) => Some(renderer.deinit()),
            None => None,
        }
    }
}

} // verus!
