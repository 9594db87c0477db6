use vstd::prelude::*;

verus! {

/// The keys the renderer tells apart.
#[derive(Clone, Copy, Debug, PartialEq, Eq, Structural)]
pub enum Key {
    Escape,
    Other,
}

/// What to do after a key event.
#[derive(Clone, Copy, Debug, PartialEq, Eq, Structural)]
pub enum KeyAction {
    /// Leave the event loop.
    Exit,
    /// Nothing.
    Ignore,
}

/// The outcome of asking the surface for the texture of the next frame.
#[derive(Clone, Copy, Debug, PartialEq, Eq, Structural)]
pub enum TextureStatus {
    Success,
    Suboptimal,
    Timeout,
    Occluded,
    Outdated,
    Lost,
    Validation,
}

/// What to do with the current frame.
#[derive(Clone, Copy, Debug, PartialEq, Eq, Structural)]
pub enum FrameAction {
    /// Draw the indexed triangles `0 .. index_count` once and present.
    Draw { index_count: u32 },
    /// Draw nothing this frame.
    Skip,
    /// Configure the surface again and draw nothing this frame.
    Reconfigure,
}

/// Why a frame could not be rendered.
#[derive(Clone, Copy, Debug, PartialEq, Eq, Structural)]
pub enum RenderError {
    /// The surface has been lost.
    LostDevice,
}

/// The renderer's state that its decisions read: the size of the surface,
/// whether the surface has been configured, and how many indices are drawn.
#[derive(Clone, Copy, Debug, PartialEq, Eq, Structural)]
pub struct State {
    width: u32,
    height: u32,
    is_surface_configured: bool,
    num_indices: u32,
}

/// Picks the surface format among the formats the surface supports, given
/// for each whether it is an sRGB format: the first sRGB one, else the first.
pub fn select_surface_format(srgb: &Vec<bool>) -> (r: usize)
    requires
        srgb.len() > 0,
    ensures
        r < srgb.len(),
        (exists|j: int| 0 <= j < srgb.len() && srgb[j]) ==> srgb[r as int] && forall|k: int|
            0 <= k < r ==> !srgb[k],
        !(exists|j: int| 0 <= j < srgb.len() && srgb[j]) ==> r == 0,
{
    let mut i: usize = 0;
    while i < srgb.len()
        invariant
            i <= srgb.len(),
            forall|k: int| 0 <= k < i ==> !srgb[k],
        decreases srgb.len() - i,
    {
        if srgb[i] {
            return i;
        }
        i = i + 1;
    }
    0
}

impl State {
    pub closed spec fn spec_width(self) -> u32 {
        self.width
    }

    pub closed spec fn spec_height(self) -> u32 {
        self.height
    }

    pub closed spec fn spec_configured(self) -> bool {
        self.is_surface_configured
    }

    pub closed spec fn spec_num_indices(self) -> u32 {
        self.num_indices
    }

    /// Every state keeps this: a configured surface has no zero side.
    #[verifier::type_invariant]
    closed spec fn configured_size_positive(self) -> bool {
        self.is_surface_configured ==> self.width > 0 && self.height > 0
    }

    /// A configured surface has no zero side.
    pub open spec fn wf(self) -> bool {
        self.spec_configured() ==> self.spec_width() > 0 && self.spec_height() > 0
    }

    /// The state after a resize to `width` by `height`: a size with a zero
    /// side is ignored; any other becomes the surface size, and the surface
    /// is then configured.
    pub closed spec fn resized(self, width: u32, height: u32) -> State {
        if width > 0 && height > 0 {
            State { width, height, is_surface_configured: true, ..self }
        } else {
            self
        }
    }

    /// What rendering a frame does, given what the surface answered.
    pub open spec fn frame_result(self, status: TextureStatus) -> Result<FrameAction, RenderError> {
        if !self.spec_configured() {
            Ok(FrameAction::Skip)
        } else {
            match status {
                TextureStatus::Success | TextureStatus::Suboptimal => Ok(
                    FrameAction::Draw { index_count: self.spec_num_indices() },
                ),
                TextureStatus::Timeout | TextureStatus::Occluded | TextureStatus::Validation => Ok(
                    FrameAction::Skip,
                ),
                TextureStatus::Outdated => Ok(FrameAction::Reconfigure),
                TextureStatus::Lost => Err(RenderError::LostDevice),
            }
        }
    }

    /// The state of a renderer whose window is `width` by `height` and that
    /// draws the given index list; the surface is not configured yet.
    pub fn new(width: u32, height: u32, indices: &Vec<u16>) -> (s: State)
        ensures
            s.spec_width() == width,
            s.spec_height() == height,
            !s.spec_configured(),
            s.spec_num_indices() == indices@.len() as u32,
            s.wf(),
    {
        State { width, height, is_surface_configured: false, num_indices: indices.len() as u32 }
    }

    /// Takes a new window size. A size with a zero side changes nothing;
    /// any other becomes the surface size and marks the surface configured.
    /// Returns whether the surface must be configured with the new size.
    pub fn resize(&mut self, width: u32, height: u32) -> (reconfigure: bool)
        ensures
            *final(self) == old(self).resized(width, height),
            reconfigure == (width > 0 && height > 0),
            reconfigure ==> final(self).spec_width() == width && final(self).spec_height() == height
                && final(self).spec_configured() && final(self).spec_num_indices() == old(
                self,
            ).spec_num_indices(),
            !reconfigure ==> *final(self) == *old(self),
            final(self).wf(),
    {
        proof {
            use_type_invariant(&*self);
        }
        if width > 0 && height > 0 {
            self.width = width;
            self.height = height;
            self.is_surface_configured = true;
            true
        } else {
            false
        }
    }

    /// A pressed Escape key ends the program; every other key event is
    /// ignored.
    pub fn handle_key(&self, code: Key, is_pressed: bool) -> (a: KeyAction)
        ensures
            a == (if code == Key::Escape && is_pressed {
                KeyAction::Exit
            } else {
                KeyAction::Ignore
            }),
    {
        match (code, is_pressed) {
            (Key::Escape, true) => KeyAction::Exit,
            _ => KeyAction::Ignore,
        }
    }

    /// Advances the scene by one frame; the scene does not change.
    pub fn update(&mut self)
        ensures
            *final(self) == *old(self),
            final(self).wf(),
    {
        proof {
            use_type_invariant(&*self);
        }
    }

    /// Whether a frame can be started: the surface texture is only asked for
    /// once the surface is configured.
    pub fn render_begin(&self) -> (acquire: bool)
        ensures
            acquire == self.spec_configured(),
            self.wf(),
    {
        proof {
            use_type_invariant(self);
        }
        self.is_surface_configured
    }

    /// Decides what to do with a frame given the surface's answer: draw all
    /// indices on a usable texture, skip on a timeout, an occluded window or
    /// a validation error, configure again on an outdated surface, and fail
    /// when the surface is lost. Nothing is drawn before the surface is
    /// configured.
    pub fn render(&self, status: TextureStatus) -> (r: Result<FrameAction, RenderError>)
        ensures
            r == self.frame_result(status),
            self.wf(),
            !self.spec_configured() ==> r == Ok::<FrameAction, RenderError>(FrameAction::Skip),
            self.spec_configured() && (status == TextureStatus::Success || status
                == TextureStatus::Suboptimal) ==> r == Ok::<FrameAction, RenderError>(
                FrameAction::Draw { index_count: self.spec_num_indices() },
            ),
            self.spec_configured() && (status == TextureStatus::Timeout || status
                == TextureStatus::Occluded || status == TextureStatus::Validation) ==> r == Ok::<
                FrameAction,
                RenderError,
            >(FrameAction::Skip),
            self.spec_configured() && status == TextureStatus::Outdated ==> r == Ok::<
                FrameAction,
                RenderError,
            >(FrameAction::Reconfigure),
            self.spec_configured() && status == TextureStatus::Lost ==> r == Err::<
                FrameAction,
                RenderError,
            >(RenderError::LostDevice),
    {
        proof {
            use_type_invariant(self);
        }
        if !self.is_surface_configured {
            return Ok(FrameAction::Skip);
        }
        match status {
            TextureStatus::Success | TextureStatus::Suboptimal => Ok(
                FrameAction::Draw { index_count: self.num_indices },
            ),
            TextureStatus::Timeout | TextureStatus::Occluded | TextureStatus::Validation => Ok(
                FrameAction::Skip,
            ),
            TextureStatus::Outdated => Ok(FrameAction::Reconfigure),
            TextureStatus::Lost => Err(RenderError::LostDevice),
        }
    }

    /// The surface width.
    pub fn width(&self) -> (w: u32)
        ensures
            w == self.spec_width(),
    {
        self.width
    }

    /// The surface height.
    pub fn height(&self) -> (h: u32)
        ensures
            h == self.spec_height(),
    {
        self.height
    }

    /// Whether the surface has been configured.
    pub fn is_surface_configured(&self) -> (c: bool)
        ensures
            c == self.spec_configured(),
            self.wf(),
    {
        proof {
            use_type_invariant(self);
        }
        self.is_surface_configured
    }
}

/// Once the surface is configured, no resize unconfigures it.
pub proof fn lemma_configured_persists(s: State, width: u32, height: u32)
    requires
        s.spec_configured(),
    ensures
        s.resized(width, height).spec_configured(),
{
}

/// A resize keeps a configured surface free of zero sides: it is either
/// ignored or stores a size with no zero side.
pub proof fn lemma_resize_keeps_positive_size(s: State, width: u32, height: u32)
    requires
        s.wf(),
    ensures
        s.resized(width, height).wf(),
{
}

/// What a frame does depends only on whether the surface is configured, on
/// the number of indices and on the surface's answer, never on the size of
/// the surface.
pub proof fn lemma_frame_ignores_size(s1: State, s2: State, status: TextureStatus)
    requires
        s1.spec_configured() == s2.spec_configured(),
        s1.spec_num_indices() == s2.spec_num_indices(),
    ensures
        s1.frame_result(status) == s2.frame_result(status),
{
}

/// On a configured surface: a usable texture draws all indices, a timeout,
/// an occluded window or a validation error skips the frame, an outdated
/// surface is configured again, and a lost surface is an error.
pub proof fn lemma_configured_frame(s: State, status: TextureStatus)
    requires
        s.spec_configured(),
    ensures
        (status == TextureStatus::Success || status == TextureStatus::Suboptimal) ==> s.frame_result(status)
            == Ok::<FrameAction, RenderError>(FrameAction::Draw { index_count: s.spec_num_indices() }),
        (status == TextureStatus::Timeout || status == TextureStatus::Occluded || status
            == TextureStatus::Validation) ==> s.frame_result(status) == Ok::<FrameAction, RenderError>(
            FrameAction::Skip,
        ),
        status == TextureStatus::Outdated ==> s.frame_result(status) == Ok::<FrameAction, RenderError>(
            FrameAction::Reconfigure,
        ),
        status == TextureStatus::Lost ==> s.frame_result(status) == Err::<FrameAction, RenderError>(
            RenderError::LostDevice,
        ),
{
}

/// After any resize to a size with no zero side, a usable texture draws all
/// the indices, however large the surface is.
pub proof fn lemma_resized_surface_draws(s: State, width: u32, height: u32, status: TextureStatus)
    requires
        width > 0,
        height > 0,
        status == TextureStatus::Success || status == TextureStatus::Suboptimal,
    ensures
        s.resized(width, height).frame_result(status) == Ok::<FrameAction, RenderError>(
            FrameAction::Draw { index_count: s.spec_num_indices() },
        ),
{
}

/// Resizing twice to the same size is the same as resizing once.
pub proof fn lemma_resize_idempotent(s: State, width: u32, height: u32)
    ensures
        s.resized(width, height).resized(width, height) == s.resized(width, height),
{
}

/// A resize to a size with no zero side overrides every earlier resize.
pub proof fn lemma_last_resize_wins(s: State, w1: u32, h1: u32, w2: u32, h2: u32)
    requires
        w2 > 0,
        h2 > 0,
    ensures
        s.resized(w1, h1).resized(w2, h2) == s.resized(w2, h2),
{
}

/// Resizing never changes how many indices are drawn.
pub proof fn lemma_resize_keeps_indices(s: State, width: u32, height: u32)
    ensures
        s.resized(width, height).spec_num_indices() == s.spec_num_indices(),
{
}

/// Nothing is drawn, reconfigured or failed before the surface is
/// configured, and a drawn frame draws all the indices.
pub proof fn lemma_frame_draws_all_indices(s: State, status: TextureStatus)
    ensures
        !s.spec_configured() ==> s.frame_result(status) == Ok::<FrameAction, RenderError>(FrameAction::Skip),
        s.frame_result(status) matches Ok(FrameAction::Draw { index_count }) ==> index_count
            == s.spec_num_indices() && s.spec_configured(),
{
}

} // verus!
