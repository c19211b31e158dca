//! What a frontend keeps between the core's callbacks: the last frame's
//! geometry, the pixel format, the joypad state and the audio of one step.

use vstd::prelude::*;
use crate::buttons::Buttons;
use crate::error::RetroRsError;
use crate::format::{PixelFormat, depth_of, format_numbered, image_depth, pixel_format_from_uint};
use crate::framebuffer::{copy_fits, copy_pixels, frame_copied};

verus! {

/// What the frontend answers when the core asks for the state of an input.
#[derive(Clone, Copy, Debug, PartialEq, Eq, Structural)]
pub enum InputReply {
    /// A port, device or index other than the first joypad: answered with 0.
    Unsupported,
    /// A button id beyond those of a joypad: answered with 0, and worth a message.
    UnexpectedId(u32),
    /// The value of a joypad button.
    Value(i16),
}

impl InputReply {
    /// The number handed back to the core.
    pub open spec fn spec_value(self) -> i16 {
        match self {
            InputReply::Value(v) => v,
            _ => 0,
        }
    }

    /// The number handed back to the core.
    pub fn value(&self) -> (v: i16)
        ensures
            v == self.spec_value(),
    {
        match self {
            InputReply::Value(v) => *v,
            _ => 0,
        }
    }
}

/// The state of an [`EmulatorContext`] as a mathematical value.
pub struct ContextState {
    pub audio_sample: Seq<i16>,
    pub buttons: Buttons,
    pub has_frame: bool,
    pub frame_pitch: usize,
    pub frame_width: u32,
    pub frame_height: u32,
    pub pixfmt: PixelFormat,
    pub image_depth: usize,
}

/// The highest button id that the core may ask about.
pub const MAX_BUTTON_ID: u32 = 16;

impl ContextState {
    /// The state before the core has called back at all.
    pub open spec fn initial() -> ContextState {
        ContextState {
            audio_sample: Seq::empty(),
            buttons: Buttons::released(),
            has_frame: false,
            frame_pitch: 0,
            frame_width: 0,
            frame_height: 0,
            pixfmt: PixelFormat::ARGB1555,
            image_depth: 0,
        }
    }

    /// The recorded depth is unset or that of the recorded format.
    pub open spec fn depth_consistent(self) -> bool {
        self.image_depth == 0 || self.image_depth == depth_of(self.pixfmt)
    }

    /// Before a step: the audio of the last step dropped, the step's inputs recorded.
    pub open spec fn after_begin_run(self, inputs: Buttons) -> ContextState {
        ContextState { audio_sample: Seq::empty(), buttons: inputs, ..self }
    }

    /// On reset: audio dropped, every button released, the frame forgotten.
    pub open spec fn after_reset(self) -> ContextState {
        ContextState {
            audio_sample: Seq::empty(),
            buttons: Buttons::released(),
            has_frame: false,
            ..self
        }
    }

    /// The core asks for the format numbered `value`: a known one is recorded
    /// with its depth, an unknown one changes nothing.
    pub open spec fn after_set_pixel_format(self, value: u32) -> ContextState {
        match format_numbered(value) {
            Some(f) => ContextState { pixfmt: f, image_depth: depth_of(f), ..self },
            None => self,
        }
    }

    /// The core hands over a frame; without data (a duplicated frame) nothing changes.
    pub open spec fn after_video_refresh(
        self,
        has_data: bool,
        width: u32,
        height: u32,
        pitch: usize,
    ) -> ContextState {
        if has_data {
            ContextState {
                has_frame: true,
                frame_pitch: pitch,
                frame_width: width,
                frame_height: height,
                ..self
            }
        } else {
            self
        }
    }

    /// One stereo sample appended, left then right.
    pub open spec fn after_audio_sample(self, left: i16, right: i16) -> ContextState {
        ContextState { audio_sample: self.audio_sample.push(left).push(right), ..self }
    }

    /// A batch of interleaved samples replaces whatever audio was recorded.
    pub open spec fn after_audio_sample_batch(self, samples: Seq<i16>) -> ContextState {
        ContextState { audio_sample: samples, ..self }
    }

    /// The answer to the core's question about an input.
    pub open spec fn input_reply(self, port: u32, device: u32, index: u32, id: u32) -> InputReply {
        if port != 0 || device != 0 || index != 0 {
            InputReply::Unsupported
        } else if id > MAX_BUTTON_ID {
            InputReply::UnexpectedId(id)
        } else {
            InputReply::Value(self.buttons.value(id as int))
        }
    }

    /// The size in bytes that the frontend takes the current frame to have:
    /// width times height times pitch, computed in 32 bits.
    pub open spec fn frame_len(self) -> Option<int> {
        if self.has_frame {
            Some(self.frame_width * self.frame_height * (self.frame_pitch as u32))
        } else {
            None
        }
    }

    /// The number of pixels of the current frame.
    pub open spec fn pixels(self) -> int {
        self.frame_width * self.frame_height
    }
}

/// A callback the core may make while it runs a step, with what it hands over.
pub enum Callback {
    /// The core names a pixel format by number.
    SetPixelFormat(u32),
    /// Any other environment request; the record is left as it is.
    OtherEnvironmentRequest,
    /// A frame, with or without data, and its width, height and pitch.
    VideoRefresh(bool, u32, u32, usize),
    /// One stereo sample.
    AudioSample(i16, i16),
    /// A batch of interleaved samples.
    AudioSampleBatch(Seq<i16>),
    /// A question about an input, on port, device, index and id.
    InputState(u32, u32, u32, u32),
}

impl ContextState {
    /// The record after one callback.
    pub open spec fn after_callback(self, callback: Callback) -> ContextState {
        match callback {
            Callback::SetPixelFormat(value) => self.after_set_pixel_format(value),
            Callback::OtherEnvironmentRequest => self,
            Callback::VideoRefresh(has_data, width, height, pitch) => self.after_video_refresh(
                has_data,
                width,
                height,
                pitch,
            ),
            Callback::AudioSample(left, right) => self.after_audio_sample(left, right),
            Callback::AudioSampleBatch(samples) => self.after_audio_sample_batch(samples),
            Callback::InputState(_, _, _, _) => self,
        }
    }

    /// The record after the callbacks `callbacks`, in order.
    pub open spec fn after_callbacks(self, callbacks: Seq<Callback>) -> ContextState
        decreases callbacks.len(),
    {
        if callbacks.len() == 0 {
            self
        } else {
            self.after_callback(callbacks[0]).after_callbacks(callbacks.drop_first())
        }
    }
}

/// The frontend's record of what the core has told it, and of the inputs for
/// the current step.
pub struct EmulatorContext {
    audio_sample: Vec<i16>,
    buttons: Buttons,
    has_frame: bool,
    frame_pitch: usize,
    frame_width: u32,
    frame_height: u32,
    pixfmt: PixelFormat,
    image_depth: usize,
}

impl View for EmulatorContext {
    type V = ContextState;

    closed spec fn view(&self) -> ContextState {
        ContextState {
            audio_sample: self.audio_sample@,
            buttons: self.buttons,
            has_frame: self.has_frame,
            frame_pitch: self.frame_pitch,
            frame_width: self.frame_width,
            frame_height: self.frame_height,
            pixfmt: self.pixfmt,
            image_depth: self.image_depth,
        }
    }
}

impl EmulatorContext {
    /// The state before the core has called back at all.
    pub fn new() -> (ctx: EmulatorContext)
        ensures
            ctx@ == ContextState::initial(),
    {
        EmulatorContext {
            audio_sample: Vec::new(),
            buttons: Buttons::new(),
            has_frame: false,
            frame_pitch: 0,
            frame_width: 0,
            frame_height: 0,
            pixfmt: PixelFormat::ARGB1555,
            image_depth: 0,
        }
    }

    /// Prepares a step of the core: drops the last step's audio and records the inputs.
    pub fn begin_run(&mut self, inputs: Buttons)
        ensures
            final(self)@ == old(self)@.after_begin_run(inputs),
    {
        self.audio_sample.clear();
        self.buttons = inputs;
    }

    /// Forgets the audio, the inputs and the frame, as a reset of the core does.
    pub fn reset(&mut self)
        ensures
            final(self)@ == old(self)@.after_reset(),
    {
        self.audio_sample.clear();
        self.buttons = Buttons::new();
        self.has_frame = false;
    }

    /// Answers the core's request for the pixel format numbered `value`:
    /// `true` and recorded when the format is known, `false` and no change otherwise.
    pub fn set_pixel_format(&mut self, value: u32) -> (accepted: bool)
        ensures
            accepted == (format_numbered(value) is Some),
            final(self)@ == old(self)@.after_set_pixel_format(value),
    {
        match pixel_format_from_uint(value) {
            None => false,
            Some(pixfmt) => {
                self.image_depth = image_depth(pixfmt);
                self.pixfmt = pixfmt;
                true
            },
        }
    }

    /// Records a frame handed over by the core; `has_data` is false when the
    /// core duplicates the previous frame, which leaves everything as it was.
    pub fn video_refresh(&mut self, has_data: bool, width: u32, height: u32, pitch: usize)
        ensures
            final(self)@ == old(self)@.after_video_refresh(has_data, width, height, pitch),
    {
        if has_data {
            self.frame_pitch = pitch;
            self.frame_width = width;
            self.frame_height = height;
            self.has_frame = true;
        }
    }

    /// Appends one stereo sample.
    pub fn audio_sample(&mut self, left: i16, right: i16)
        ensures
            final(self)@ == old(self)@.after_audio_sample(left, right),
    {
        self.audio_sample.push(left);
        self.audio_sample.push(right);
    }

    /// Replaces the recorded audio with `frames` interleaved stereo samples and
    /// returns how many frames were taken.
    pub fn audio_sample_batch(&mut self, samples: &[i16], frames: usize) -> (taken: usize)
        requires
            samples@.len() == 2 * frames,
        ensures
            taken == frames,
            final(self)@ == old(self)@.after_audio_sample_batch(samples@),
    {
        self.audio_sample.clear();
        self.audio_sample.extend_from_slice(samples);
        assert(self.audio_sample@ =~= samples@);
        frames
    }

    /// Answers the core's question about input `id` of device `device`, index
    /// `index` on port `port`; only the first joypad is supported.
    pub fn input_state(&self, port: u32, device: u32, index: u32, id: u32) -> (reply: InputReply)
        ensures
            reply == self@.input_reply(port, device, index, id),
    {
        if port != 0 || device != 0 || index != 0 {
            return InputReply::Unsupported;
        }
        if id > MAX_BUTTON_ID {
            return InputReply::UnexpectedId(id);
        }
        InputReply::Value(self.buttons.get(id as usize))
    }

    /// The format the core asked for last.
    pub fn pixel_format(&self) -> (format: PixelFormat)
        ensures
            format == self@.pixfmt,
    {
        self.pixfmt
    }

    /// Width and height of the last frame.
    pub fn framebuffer_size(&self) -> (size: (usize, usize))
        ensures
            size == (self@.frame_width as usize, self@.frame_height as usize),
    {
        (self.frame_width as usize, self.frame_height as usize)
    }

    /// Bytes per row of the last frame.
    pub fn framebuffer_pitch(&self) -> (pitch: usize)
        ensures
            pitch == self@.frame_pitch,
    {
        self.frame_pitch
    }

    /// The colour depth recorded with the pixel format (0 until the core sets one).
    pub fn image_depth(&self) -> (depth: usize)
        ensures
            depth == self@.image_depth,
    {
        self.image_depth
    }

    /// The audio recorded during the current step, interleaved left and right.
    pub fn audio_samples(&self) -> (samples: &[i16])
        ensures
            samples@ == self@.audio_sample,
    {
        self.audio_sample.as_slice()
    }

    /// The inputs recorded for the current step.
    pub fn buttons(&self) -> (inputs: Buttons)
        ensures
            inputs == self@.buttons,
    {
        self.buttons
    }

    /// Whether the core has handed over a frame since the start or the last reset.
    pub fn has_frame(&self) -> (present: bool)
        ensures
            present == self@.has_frame,
    {
        self.has_frame
    }

    /// The number of bytes to view at the frame's address, or `None` when
    /// there is no frame.
    pub fn framebuffer_len(&self) -> (len: Option<usize>)
        requires
            self@.has_frame ==> self@.pixels() <= u32::MAX,
            self@.has_frame ==> self@.pixels() * (self@.frame_pitch as u32) <= u32::MAX,
        ensures
            len matches Some(n) ==> self@.frame_len() == Some(n as int),
            len is None ==> self@.frame_len() is None,
    {
        if !self.has_frame {
            return None;
        }
        let pitch = self.frame_pitch as u32;
        Some((self.frame_width * self.frame_height * pitch) as usize)
    }

    /// Copies the current frame, whose bytes `fb` holds as the frontend views
    /// them (`None` when there is no frame), into `slice` as 8-bit red, green
    /// and blue; fails exactly when there is no frame.
    pub fn copy_framebuffer(&self, fb: Option<&[u8]>, slice: &mut [u8]) -> (r: Result<(), RetroRsError>)
        requires
            fb is Some <==> self@.has_frame,
            fb matches Some(f) ==> self@.frame_len() == Some(f@.len() as int),
            fb matches Some(f) ==> copy_fits(self@.pixfmt, self@.pixels(), f@.len() as int, old(slice)@.len() as int),
        ensures
            r is Err <==> !self@.has_frame,
            fb is None ==> r == Err::<(), RetroRsError>(RetroRsError::NoFramebufferError)
                && final(slice)@ == old(slice)@,
            fb matches Some(f) ==> r is Ok && frame_copied(self@.pixfmt, self@.pixels(), f@, old(slice)@, final(slice)@),
    {
        let (w, h) = self.framebuffer_size();
        let fmt = self.pixel_format();
        let fb = match fb {
            Some(fb) => fb,
            None => return Err(RetroRsError::NoFramebufferError),
        };
        copy_pixels(fb, w, h, fmt, slice);
        Ok(())
    }
}

/// What the core reads back for a joypad button during a step is what the
/// frontend recorded for that button when it began the step.
pub proof fn lemma_run_inputs_read_back(s: ContextState, inputs: Buttons, id: u32)
    requires
        id <= MAX_BUTTON_ID,
    ensures
        s.after_begin_run(inputs).input_reply(0, 0, 0, id) == InputReply::Value(inputs.value(id as int)),
        s.after_begin_run(inputs).input_reply(0, 0, 0, id).spec_value() == inputs.value(id as int),
{
}

/// Any input but a button of the first joypad reads as 0.
pub proof fn lemma_other_inputs_read_zero(s: ContextState, port: u32, device: u32, index: u32, id: u32)
    requires
        port != 0 || device != 0 || index != 0 || id > MAX_BUTTON_ID,
    ensures
        s.input_reply(port, device, index, id).spec_value() == 0,
{
}

/// A reset forgets the frame, the audio and the inputs, and keeps the pixel
/// format and the last frame's geometry.
pub proof fn lemma_reset_forgets(s: ContextState, id: u32)
    ensures
        s.after_reset().frame_len() is None,
        s.after_reset().audio_sample.len() == 0,
        !s.after_reset().buttons.is_pressed(id as int),
        s.after_reset().input_reply(0, 0, 0, id).spec_value() == 0,
        s.after_reset().pixfmt == s.pixfmt,
        s.after_reset().image_depth == s.image_depth,
        s.after_reset().frame_width == s.frame_width,
        s.after_reset().frame_height == s.frame_height,
        s.after_reset().frame_pitch == s.frame_pitch,
{
    Buttons::lemma_released_holds_nothing();
    assert(!Buttons::released().is_pressed(id as int));
}

/// A known pixel format requested by the core is the one read back, with its depth.
pub proof fn lemma_pixel_format_read_back(s: ContextState, value: u32)
    requires
        value <= 2,
    ensures
        format_numbered(value) is Some,
        s.after_set_pixel_format(value).pixfmt == format_numbered(value).unwrap(),
        s.after_set_pixel_format(value).image_depth == depth_of(format_numbered(value).unwrap()),
{
}

/// The geometry of a frame handed over with data is the one read back, and
/// the frame is then present.
pub proof fn lemma_frame_read_back(s: ContextState, width: u32, height: u32, pitch: usize)
    ensures
        s.after_video_refresh(true, width, height, pitch).has_frame,
        s.after_video_refresh(true, width, height, pitch).frame_width == width,
        s.after_video_refresh(true, width, height, pitch).frame_height == height,
        s.after_video_refresh(true, width, height, pitch).frame_pitch == pitch,
        s.after_video_refresh(true, width, height, pitch).pixfmt == s.pixfmt,
{
}

/// A frame handed over without data changes nothing.
pub proof fn lemma_duplicate_frame_changes_nothing(s: ContextState, width: u32, height: u32, pitch: usize)
    ensures
        s.after_video_refresh(false, width, height, pitch) == s,
{
}

/// A request for an unknown pixel format changes nothing.
pub proof fn lemma_unknown_format_changes_nothing(s: ContextState, value: u32)
    requires
        value > 2,
    ensures
        format_numbered(value) is None,
        s.after_set_pixel_format(value) == s,
{
}

/// A step's audio starts empty, single samples append, and a batch replaces
/// everything recorded before it.
pub proof fn lemma_audio_accumulation(
    s: ContextState,
    inputs: Buttons,
    left: i16,
    right: i16,
    samples: Seq<i16>,
)
    ensures
        s.after_begin_run(inputs).audio_sample.len() == 0,
        s.after_audio_sample(left, right).audio_sample == s.audio_sample + seq![left, right],
        s.after_audio_sample(left, right).after_audio_sample_batch(samples).audio_sample == samples,
{
    assert(s.audio_sample.push(left).push(right) =~= s.audio_sample + seq![left, right]);
}

/// Every change of state keeps the recorded depth unset or that of the
/// recorded format, as it is at the start.
pub proof fn lemma_depth_stays_consistent(
    s: ContextState,
    inputs: Buttons,
    value: u32,
    has_data: bool,
    width: u32,
    height: u32,
    pitch: usize,
    left: i16,
    right: i16,
    samples: Seq<i16>,
)
    requires
        s.depth_consistent(),
    ensures
        ContextState::initial().depth_consistent(),
        s.after_begin_run(inputs).depth_consistent(),
        s.after_reset().depth_consistent(),
        s.after_set_pixel_format(value).depth_consistent(),
        s.after_video_refresh(has_data, width, height, pitch).depth_consistent(),
        s.after_audio_sample(left, right).depth_consistent(),
        s.after_audio_sample_batch(samples).depth_consistent(),
{
}

/// No callback of the core changes the inputs recorded for the step.
pub proof fn lemma_callbacks_keep_inputs(s: ContextState, callbacks: Seq<Callback>)
    ensures
        s.after_callbacks(callbacks).buttons == s.buttons,
    decreases callbacks.len(),
{
    if callbacks.len() > 0 {
        lemma_callbacks_keep_inputs(s.after_callback(callbacks[0]), callbacks.drop_first());
    }
}

/// Whatever callbacks the core makes during a step, every joypad button it
/// asks about reads as the frontend recorded it when the step began.
pub proof fn lemma_step_inputs_read_back(
    s: ContextState,
    inputs: Buttons,
    callbacks: Seq<Callback>,
    id: u32,
)
    requires
        id <= MAX_BUTTON_ID,
    ensures
        s.after_begin_run(inputs).after_callbacks(callbacks).input_reply(0, 0, 0, id)
            == InputReply::Value(inputs.value(id as int)),
{
    lemma_callbacks_keep_inputs(s.after_begin_run(inputs), callbacks);
}

/// Beginning a step empties the audio and records the inputs, and keeps the
/// frame, its geometry, the pixel format and the depth.
pub proof fn lemma_begin_run_keeps_frame(s: ContextState, inputs: Buttons)
    ensures
        s.after_begin_run(inputs).audio_sample.len() == 0,
        s.after_begin_run(inputs).buttons == inputs,
        s.after_begin_run(inputs).has_frame == s.has_frame,
        s.after_begin_run(inputs).frame_width == s.frame_width,
        s.after_begin_run(inputs).frame_height == s.frame_height,
        s.after_begin_run(inputs).frame_pitch == s.frame_pitch,
        s.after_begin_run(inputs).pixfmt == s.pixfmt,
        s.after_begin_run(inputs).image_depth == s.image_depth,
        s.after_begin_run(inputs).frame_len() == s.frame_len(),
{
}

/// A frame handed over changes nothing but the frame: the audio, the inputs,
/// the pixel format and the depth stay as they were.
pub proof fn lemma_video_refresh_keeps_the_rest(
    s: ContextState,
    has_data: bool,
    width: u32,
    height: u32,
    pitch: usize,
)
    ensures
        s.after_video_refresh(has_data, width, height, pitch).audio_sample == s.audio_sample,
        s.after_video_refresh(has_data, width, height, pitch).buttons == s.buttons,
        s.after_video_refresh(has_data, width, height, pitch).pixfmt == s.pixfmt,
        s.after_video_refresh(has_data, width, height, pitch).image_depth == s.image_depth,
        has_data ==> s.after_video_refresh(has_data, width, height, pitch).frame_len() == Some(
            width * height * (pitch as u32) as int,
        ),
{
}

/// A batch of samples becomes the whole recorded audio, whatever was recorded
/// before, and nothing else changes; a single sample adds exactly two values
/// at the end.
pub proof fn lemma_audio_batch_is_the_whole_audio(
    s: ContextState,
    samples: Seq<i16>,
    left: i16,
    right: i16,
)
    ensures
        s.after_audio_sample_batch(samples).audio_sample == samples,
        s.after_audio_sample_batch(samples).audio_sample.len() == samples.len(),
        s.after_audio_sample_batch(samples).buttons == s.buttons,
        s.after_audio_sample_batch(samples).has_frame == s.has_frame,
        s.after_audio_sample_batch(samples).frame_len() == s.frame_len(),
        s.after_audio_sample_batch(samples).pixfmt == s.pixfmt,
        s.after_audio_sample(left, right).audio_sample.len() == s.audio_sample.len() + 2,
        s.after_audio_sample(left, right).audio_sample.subrange(0, s.audio_sample.len() as int)
            == s.audio_sample,
        s.after_audio_sample(left, right).audio_sample[s.audio_sample.len() as int] == left,
        s.after_audio_sample(left, right).audio_sample[s.audio_sample.len() + 1int] == right,
        s.after_audio_sample(left, right).has_frame == s.has_frame,
        s.after_audio_sample(left, right).buttons == s.buttons,
{
    assert(s.after_audio_sample(left, right).audio_sample.subrange(0, s.audio_sample.len() as int)
        =~= s.audio_sample);
}

/// A known pixel format, numbered 0, 1 or 2, is ARGB1555 (depth 15), ARGB8888
/// (depth 32) or RGB565 (depth 16); a request changes nothing but the format
/// and the depth.
pub proof fn lemma_pixel_format_numbers(s: ContextState, value: u32)
    ensures
        value == 0 ==> s.after_set_pixel_format(value).pixfmt == PixelFormat::ARGB1555
            && s.after_set_pixel_format(value).image_depth == 15,
        value == 1 ==> s.after_set_pixel_format(value).pixfmt == PixelFormat::ARGB8888
            && s.after_set_pixel_format(value).image_depth == 32,
        value == 2 ==> s.after_set_pixel_format(value).pixfmt == PixelFormat::RGB565
            && s.after_set_pixel_format(value).image_depth == 16,
        s.after_set_pixel_format(value).audio_sample == s.audio_sample,
        s.after_set_pixel_format(value).buttons == s.buttons,
        s.after_set_pixel_format(value).frame_len() == s.frame_len(),
{
}

} // verus!
