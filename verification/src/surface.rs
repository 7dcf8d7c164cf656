//! The surface manager's configuration logic: choosing a format and a
//! present mode from the capabilities the platform reports, and keeping the
//! stored configuration consistent with the window size across resizes.

use vstd::prelude::*;

verus! {

/// A display format as the platform layer reports it: an identifier assigned
/// by that layer, and whether the format encodes colors in sRGB.
#[derive(Clone, Copy, Debug, PartialEq, Eq, Structural)]
pub struct SurfaceFormat {
    pub id: u32,
    pub is_srgb: bool,
}

/// The queuing discipline used when handing finished frames to the display.
#[derive(Clone, Copy, Debug, PartialEq, Eq, Structural)]
pub enum PresentMode {
    AutoVsync,
    AutoNoVsync,
    Fifo,
    FifoRelaxed,
    Immediate,
    Mailbox,
}

/// A window size in physical pixels.
#[derive(Clone, Copy, Debug, PartialEq, Eq, Structural)]
pub struct WindowSize {
    pub width: u32,
    pub height: u32,
}

impl WindowSize {
    /// Both dimensions are positive; a size with a zero dimension is a
    /// transient artifact of minimization and never reaches the surface.
    pub open spec fn is_valid(self) -> bool {
        self.width > 0 && self.height > 0
    }
}

/// The negotiated contract between the application and its presentable
/// surface. The alpha mode is carried as the identifier the platform layer
/// assigned to it.
#[derive(Clone, Copy, Debug, PartialEq, Eq, Structural)]
pub struct SurfaceConfig {
    pub format: SurfaceFormat,
    pub width: u32,
    pub height: u32,
    pub present_mode: PresentMode,
    pub alpha_mode: u32,
}

/// The first sRGB-capable format of the sequence, if any.
pub open spec fn first_srgb(formats: Seq<SurfaceFormat>) -> Option<SurfaceFormat>
    decreases formats.len(),
{
    if formats.len() == 0 {
        None
    } else if formats[0].is_srgb {
        Some(formats[0])
    } else {
        first_srgb(formats.drop_first())
    }
}

/// The format the surface is configured with: the first sRGB-capable format
/// of the reported set, or the first reported format if none is sRGB.
pub open spec fn chosen_format(formats: Seq<SurfaceFormat>) -> SurfaceFormat
    recommends
        formats.len() > 0,
{
    match first_srgb(formats) {
        Some(f) => f,
        None => formats[0],
    }
}

/// The present mode the surface is configured with: low-latency Mailbox when
/// the platform supports it, the universally supported Fifo otherwise.
pub open spec fn chosen_present_mode(modes: Seq<PresentMode>) -> PresentMode {
    if modes.contains(PresentMode::Mailbox) {
        PresentMode::Mailbox
    } else {
        PresentMode::Fifo
    }
}

/// Dropping a prefix with no sRGB format does not change which format
/// `first_srgb` finds.
proof fn lemma_first_srgb_skip(formats: Seq<SurfaceFormat>, i: int)
    requires
        0 <= i <= formats.len(),
        forall|j: int| 0 <= j < i ==> !formats[j].is_srgb,
    ensures
        first_srgb(formats) == first_srgb(formats.skip(i)),
    decreases i,
{
    if i > 0 {
        assert(formats.drop_first().skip(i - 1) =~= formats.skip(i));
        lemma_first_srgb_skip(formats.drop_first(), i - 1);
    } else {
        assert(formats.skip(0) =~= formats);
    }
}

/// Select the surface format from the reported capabilities: the first
/// sRGB-capable one, or the first overall as a fallback.
pub fn choose_format(formats: &Vec<SurfaceFormat>) -> (r: SurfaceFormat)
    requires
        formats@.len() > 0,
    ensures
        r == chosen_format(formats@),
{
    let n = formats.len();
    let mut i: usize = 0;
    while i < n
        invariant
            n == formats@.len(),
            0 <= i <= n,
            forall|j: int| 0 <= j < i ==> !formats@[j].is_srgb,
        decreases n - i,
    {
        if formats[i].is_srgb {
            proof {
                lemma_first_srgb_skip(formats@, i as int);
                assert(formats@.skip(i as int)[0] == formats@[i as int]);
            }
            return formats[i];
        }
        i += 1;
    }
    proof {
        lemma_first_srgb_skip(formats@, n as int);
        assert(formats@.skip(n as int).len() == 0);
    }
    formats[0]
}

/// Select the present mode from the reported capabilities: Mailbox when
/// available, Fifo otherwise.
pub fn choose_present_mode(modes: &Vec<PresentMode>) -> (r: PresentMode)
    ensures
        r == chosen_present_mode(modes@),
{
    let n = modes.len();
    let mut i: usize = 0;
    while i < n
        invariant
            n == modes@.len(),
            0 <= i <= n,
            forall|j: int| 0 <= j < i ==> modes@[j] != PresentMode::Mailbox,
        decreases n - i,
    {
        if modes[i] == PresentMode::Mailbox {
            assert(modes@.contains(PresentMode::Mailbox));
            return PresentMode::Mailbox;
        }
        i += 1;
    }
    assert(!modes@.contains(PresentMode::Mailbox));
    PresentMode::Fifo
}

/// The surface manager's view of its presentation surface: the negotiated
/// configuration and the window size it was last configured for. The GPU
/// handles themselves (surface, device, queue) are owned by the platform
/// layer, which applies this configuration whenever it is told to.
#[derive(Clone, Copy, Debug, PartialEq, Eq, Structural)]
pub struct SurfaceState {
    pub config: SurfaceConfig,
    pub size: WindowSize,
}

impl SurfaceState {
    /// Once initialized, the configuration's dimensions are positive and
    /// agree with the stored size.
    pub open spec fn wf(self) -> bool {
        &&& self.config.width == self.size.width
        &&& self.config.height == self.size.height
        &&& self.size.is_valid()
    }

    /// What a resize request does to the state: a size with a zero dimension
    /// is ignored; a valid size is stored and written into the configuration.
    pub open spec fn resize_spec(self, new_size: WindowSize) -> SurfaceState {
        if new_size.is_valid() {
            SurfaceState {
                config: SurfaceConfig { width: new_size.width, height: new_size.height, ..self.config },
                size: new_size,
            }
        } else {
            self
        }
    }

    /// Build the initial state for a window of the given size from the
    /// capabilities the platform reports: the first sRGB-capable format (or
    /// the first format), Mailbox if supported (else Fifo), and the first
    /// supported alpha mode.
    pub fn new(
        formats: &Vec<SurfaceFormat>,
        present_modes: &Vec<PresentMode>,
        alpha_modes: &Vec<u32>,
        size: WindowSize,
    ) -> (s: SurfaceState)
        requires
            formats@.len() > 0,
            alpha_modes@.len() > 0,
            size.is_valid(),
        ensures
            s.wf(),
            s.config.format == chosen_format(formats@),
            s.config.present_mode == chosen_present_mode(present_modes@),
            s.config.alpha_mode == alpha_modes@[0],
            s.config.width == size.width,
            s.config.height == size.height,
            s.size == size,
    {
        let format = choose_format(formats);
        let present_mode = choose_present_mode(present_modes);
        SurfaceState {
            config: SurfaceConfig {
                format,
                width: size.width,
                height: size.height,
                present_mode,
                alpha_mode: alpha_modes[0],
            },
            size,
        }
    }

    /// Apply a resize request. Returns whether the surface must be
    /// reconfigured: true exactly when both dimensions are positive. A
    /// degenerate size (either dimension zero) leaves the state untouched.
    pub fn resize(&mut self, new_size: WindowSize) -> (reconfigured: bool)
        ensures
            *final(self) == old(self).resize_spec(new_size),
            reconfigured == new_size.is_valid(),
            !new_size.is_valid() ==> *final(self) == *old(self),
            new_size.is_valid() ==> (final(self).size == new_size
                && final(self).config.width == new_size.width
                && final(self).config.height == new_size.height
                && final(self).config.format == old(self).config.format
                && final(self).config.present_mode == old(self).config.present_mode
                && final(self).config.alpha_mode == old(self).config.alpha_mode),
            old(self).wf() ==> final(self).wf(),
    {
        if new_size.width > 0 && new_size.height > 0 {
            self.size = new_size;
            self.config.width = new_size.width;
            self.config.height = new_size.height;
            true
        } else {
            false
        }
    }
}

/// The state after a whole sequence of resize requests has been applied.
pub open spec fn apply_resizes(s: SurfaceState, events: Seq<WindowSize>) -> SurfaceState
    decreases events.len(),
{
    if events.len() == 0 {
        s
    } else {
        apply_resizes(s.resize_spec(events[0]), events.drop_first())
    }
}

/// A resize request never breaks well-formedness.
pub proof fn lemma_resize_preserves_wf(s: SurfaceState, new_size: WindowSize)
    requires
        s.wf(),
    ensures
        s.resize_spec(new_size).wf(),
{
}

/// For any sequence of valid resize requests, the final configuration's
/// dimensions are exactly those of the last request: the last resize wins.
pub proof fn lemma_valid_resizes_last_wins(s: SurfaceState, events: Seq<WindowSize>)
    requires
        events.len() > 0,
        forall|i: int| 0 <= i < events.len() ==> events[i].is_valid(),
    ensures
        apply_resizes(s, events).size == events[events.len() - 1],
        apply_resizes(s, events).config.width == events[events.len() - 1].width,
        apply_resizes(s, events).config.height == events[events.len() - 1].height,
    decreases events.len(),
{
    if events.len() > 1 {
        lemma_valid_resizes_last_wins(s.resize_spec(events[0]), events.drop_first());
        assert(events.drop_first()[events.len() - 2] == events[events.len() - 1]);
    } else {
        assert(events.drop_first().len() == 0);
        assert(apply_resizes(s.resize_spec(events[0]), events.drop_first())
            == s.resize_spec(events[0]));
    }
}

/// A resize request with a zero dimension is a no-op, however often it is
/// repeated: appending any sequence of degenerate requests changes nothing.
pub proof fn lemma_degenerate_resizes_noop(s: SurfaceState, events: Seq<WindowSize>)
    requires
        forall|i: int| 0 <= i < events.len() ==> !events[i].is_valid(),
    ensures
        apply_resizes(s, events) == s,
    decreases events.len(),
{
    if events.len() > 0 {
        lemma_degenerate_resizes_noop(s, events.drop_first());
    }
}

} // verus!

