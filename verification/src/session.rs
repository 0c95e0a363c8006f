//! The capture session: which device is chosen, whether it streams, and what
//! the device backend is to be asked next.
//!
//! The session never touches a device. Each operation returns the command
//! that its caller is to carry out on the backend, and the two operations
//! that can fail there, opening and reconfiguring, are closed by a report of
//! how they went. Between a command and its report the session is in a
//! phase of waiting, in which it shows as not running.

use vstd::prelude::*;
use nokhwa::utils::RequestedFormatType;
use crate::catalog::{catalog_of, enumerate};
use crate::convert::{bytes_view, image_is, renderable_bytes, renderable_image};
use crate::device::DeviceDescriptor;
use crate::frame::{PixelFormat, RawFrame, Resolution, RgbImage};

verus! {

/// nokhwa's `RequestedFormatType`, the policy by which a device picks its
/// format when it is opened. The session passes it on and never looks
/// inside.
#[verifier::external_type_specification]
#[verifier::external_body]
pub struct ExRequestedFormatType(RequestedFormatType);

/// Where a session stands.
#[derive(Clone, Copy, Debug, PartialEq, Eq, Structural)]
pub enum Phase {
    /// No device is chosen.
    Idle,
    /// A device is chosen and no handle to it is open.
    Selected,
    /// The backend was asked to open the chosen device and has not answered.
    Opening,
    /// The chosen device is open and streams.
    Running,
    /// The backend was asked to stop the stream, change one setting and
    /// start the stream again, and has not answered.
    Reconfiguring,
}

/// One setting of a stream.
#[derive(Clone, Copy, Debug, PartialEq, Eq)]
pub enum Setting {
    Resolution(Resolution),
    FrameRate(u32),
    PixelFormat(PixelFormat),
}

/// The settings asked for so far. What was never asked for is left to the
/// device.
#[derive(Clone, Copy, Debug, PartialEq, Eq)]
pub struct StreamSettings {
    pub resolution: Option<Resolution>,
    pub frame_rate: Option<u32>,
    pub pixel_format: Option<PixelFormat>,
}

/// What the caller is to do on the device backend.
#[derive(Debug, PartialEq, Eq)]
pub enum DeviceCommand {
    /// Stop the stream, if it runs, and give the handle up.
    Close,
    /// Open the device by the given policy, apply the settings and start
    /// the stream; then report with `open_finished`.
    Open { device: DeviceDescriptor, format: RequestedFormatType, settings: StreamSettings },
    /// Stop the stream, apply the change and start the stream again, in
    /// this order; then report with `reconfigure_finished`.
    Reconfigure { change: Setting },
}

/// The state of a session.
pub struct SessionState {
    pub phase: Phase,
    pub selected: Option<DeviceDescriptor>,
    pub settings: StreamSettings,
}

impl StreamSettings {
    /// No setting asked for.
    pub open spec fn unset() -> StreamSettings {
        StreamSettings { resolution: None, frame_rate: None, pixel_format: None }
    }

    /// The settings with one of them changed.
    pub open spec fn with(self, change: Setting) -> StreamSettings {
        match change {
            Setting::Resolution(resolution) => StreamSettings {
                resolution: Some(resolution),
                ..self
            },
            Setting::FrameRate(frame_rate) => StreamSettings { frame_rate: Some(frame_rate), ..self },
            Setting::PixelFormat(pixel_format) => StreamSettings {
                pixel_format: Some(pixel_format),
                ..self
            },
        }
    }
}

impl SessionState {
    /// A device is chosen in every phase but `Idle`.
    pub open spec fn well_formed(self) -> bool {
        self.phase == Phase::Idle <==> self.selected is None
    }

    /// The session knows of an open handle.
    pub open spec fn holds_handle(self) -> bool {
        self.phase == Phase::Running || self.phase == Phase::Reconfiguring
    }

    /// The session before anything was chosen.
    pub open spec fn initial() -> SessionState {
        SessionState { phase: Phase::Idle, selected: None, settings: StreamSettings::unset() }
    }

    /// Choosing `camera` would choose the device that streams already.
    pub open spec fn reselects(self, camera: Option<DeviceDescriptor>) -> bool {
        &&& self.phase == Phase::Running
        &&& camera is Some
        &&& self.selected is Some
        &&& camera->0.identity() == self.selected->0.identity()
    }

    /// The command that gives up the handle, if the session holds one.
    pub open spec fn teardown(self) -> Option<DeviceCommand> {
        if self.holds_handle() {
            Some(DeviceCommand::Close)
        } else {
            None
        }
    }

    /// Choosing a device, or none. The device that streams already stays as
    /// it is. Otherwise an open handle is given up first, and the settings
    /// asked of the earlier device are forgotten.
    pub open spec fn select(self, camera: Option<DeviceDescriptor>) -> (
        SessionState,
        Option<DeviceCommand>,
    ) {
        if self.reselects(camera) {
            (self, None)
        } else {
            (
                SessionState {
                    phase: if camera is Some {
                        Phase::Selected
                    } else {
                        Phase::Idle
                    },
                    selected: camera,
                    settings: StreamSettings::unset(),
                },
                self.teardown(),
            )
        }
    }

    /// Stopping: the handle is given up and nothing stays chosen.
    pub open spec fn stop(self) -> (SessionState, Option<DeviceCommand>) {
        (SessionState::initial(), self.teardown())
    }

    /// Starting the capture: only a chosen device that is not open is
    /// opened.
    pub open spec fn start(self, format: RequestedFormatType) -> (
        SessionState,
        Option<DeviceCommand>,
    ) {
        if self.phase == Phase::Selected && self.selected is Some {
            (
                SessionState { phase: Phase::Opening, ..self },
                Some(
                    DeviceCommand::Open {
                        device: self.selected->0,
                        format,
                        settings: self.settings,
                    },
                ),
            )
        } else {
            (self, None)
        }
    }

    /// The backend's answer to `Open`. A failure leaves the device chosen
    /// and closed. A handle that nobody waits for is given up at once.
    pub open spec fn open_finished(self, opened: bool) -> (SessionState, Option<DeviceCommand>) {
        if self.phase == Phase::Opening {
            (
                SessionState {
                    phase: if opened {
                        Phase::Running
                    } else {
                        Phase::Selected
                    },
                    ..self
                },
                None,
            )
        } else if opened {
            (self, Some(DeviceCommand::Close))
        } else {
            (self, None)
        }
    }

    /// Changing one setting. A closed device takes it at its next start; a
    /// streaming one is stopped, changed and started again.
    pub open spec fn reconfigure(self, change: Setting) -> (SessionState, Option<DeviceCommand>) {
        if self.phase == Phase::Running {
            (
                SessionState {
                    phase: Phase::Reconfiguring,
                    settings: self.settings.with(change),
                    ..self
                },
                Some(DeviceCommand::Reconfigure { change }),
            )
        } else if self.phase == Phase::Selected {
            (SessionState { settings: self.settings.with(change), ..self }, None)
        } else {
            (self, None)
        }
    }

    /// The backend's answer to `Reconfigure`. After a failure the handle is
    /// given up and the device stays chosen.
    pub open spec fn reconfigure_finished(self, restarted: bool) -> (
        SessionState,
        Option<DeviceCommand>,
    ) {
        if self.phase == Phase::Reconfiguring {
            if restarted {
                (SessionState { phase: Phase::Running, ..self }, None)
            } else {
                (SessionState { phase: Phase::Selected, ..self }, Some(DeviceCommand::Close))
            }
        } else {
            (self, None)
        }
    }
}

/// Whether a handle is held once `command` is carried out, if one was held
/// or not before. Only `Close` gives a handle up; what `Open` brings is
/// known when its report comes.
pub open spec fn held_after(held: bool, command: Option<DeviceCommand>) -> bool {
    match command {
        Some(DeviceCommand::Close) => false,
        _ => held,
    }
}

/// Every operation leaves a device chosen in every phase but `Idle`.
pub proof fn lemma_steps_keep_well_formed(
    state: SessionState,
    camera: Option<DeviceDescriptor>,
    format: RequestedFormatType,
    change: Setting,
    answer: bool,
)
    requires
        state.well_formed(),
    ensures
        state.select(camera).0.well_formed(),
        state.stop().0.well_formed(),
        state.start(format).0.well_formed(),
        state.open_finished(answer).0.well_formed(),
        state.reconfigure(change).0.well_formed(),
        state.reconfigure_finished(answer).0.well_formed(),
{
}

/// Choosing another device while one streams gives the open handle up, by
/// the one command that the choice returns, and leaves the session without
/// a handle. The new device is opened only by the start that follows, and
/// only if a device was chosen.
pub proof fn lemma_select_closes_before_open(
    state: SessionState,
    camera: Option<DeviceDescriptor>,
    format: RequestedFormatType,
)
    requires
        state.well_formed(),
        state.phase == Phase::Running,
        !state.reselects(camera),
    ensures
        state.select(camera).1 == Some(DeviceCommand::Close),
        !state.select(camera).0.holds_handle(),
        state.select(camera).0.selected == camera,
        state.select(camera).0.phase == (if camera is Some {
            Phase::Selected
        } else {
            Phase::Idle
        }),
        camera is Some ==> state.select(camera).0.start(format).1 == Some(
            DeviceCommand::Open { device: camera->0, format, settings: StreamSettings::unset() },
        ),
        camera is None ==> state.select(camera).0.start(format).1 is None,
{
}

/// No second handle is ever opened: `Open` is returned only by a start in a
/// state without a handle, a handle is taken as held only on the report of
/// that `Open`, and is counted as gone exactly where `Close` is returned. A
/// handle that a report brings when none is waited for is closed at once.
pub proof fn lemma_at_most_one_handle(
    state: SessionState,
    camera: Option<DeviceDescriptor>,
    format: RequestedFormatType,
    change: Setting,
    answer: bool,
)
    requires
        state.well_formed(),
    ensures
        state.start(format).1 is Some ==> !state.holds_handle() && state.start(format).0.phase
            == Phase::Opening,
        !(state.select(camera).1 matches Some(DeviceCommand::Open { .. })),
        !(state.stop().1 matches Some(DeviceCommand::Open { .. })),
        !(state.reconfigure(change).1 matches Some(DeviceCommand::Open { .. })),
        !(state.open_finished(answer).1 matches Some(DeviceCommand::Open { .. })),
        !(state.reconfigure_finished(answer).1 matches Some(DeviceCommand::Open { .. })),
        state.select(camera).0.holds_handle() == held_after(
            state.holds_handle(),
            state.select(camera).1,
        ),
        state.stop().0.holds_handle() == held_after(state.holds_handle(), state.stop().1),
        state.start(format).0.holds_handle() == state.holds_handle(),
        state.reconfigure(change).0.holds_handle() == held_after(
            state.holds_handle(),
            state.reconfigure(change).1,
        ),
        state.reconfigure_finished(answer).0.holds_handle() == held_after(
            state.holds_handle(),
            state.reconfigure_finished(answer).1,
        ),
        state.phase == Phase::Opening ==> state.open_finished(answer).0.holds_handle() == answer
            && state.open_finished(answer).1 is None,
        state.phase != Phase::Opening ==> state.open_finished(answer).0 == state
            && state.open_finished(answer).1 == (if answer {
            Some(DeviceCommand::Close)
        } else {
            None
        }),
{
}

/// Choosing the device that streams already leaves the session as it is and
/// asks nothing of the backend: the stream is not interrupted.
pub proof fn lemma_reselect_keeps_stream(state: SessionState, camera: DeviceDescriptor)
    requires
        state.phase == Phase::Running,
        state.selected is Some,
        camera.identity() == state.selected->0.identity(),
    ensures
        state.select(Some(camera)) == (state, None::<DeviceCommand>),
        state.select(Some(camera)).0.phase == Phase::Running,
{
}

/// A failed start leaves the device chosen and closed, and the start can be
/// tried again.
pub proof fn lemma_failed_open_stays_selected(state: SessionState, format: RequestedFormatType)
    requires
        state.well_formed(),
        state.phase == Phase::Selected,
    ensures
        state.start(format).0.open_finished(false).0 == state,
        state.start(format).0.open_finished(false).1 is None,
        state.start(format).0.open_finished(true).0.phase == Phase::Running,
{
}

/// A change of setting that the streaming device refuses ends with the
/// handle closed and the device still chosen; one that it takes ends with
/// the stream running again.
pub proof fn lemma_reconfigure_outcomes(state: SessionState, change: Setting)
    requires
        state.well_formed(),
        state.phase == Phase::Running,
    ensures
        state.reconfigure(change).1 == Some(DeviceCommand::Reconfigure { change }),
        state.reconfigure(change).0.reconfigure_finished(true).0.phase == Phase::Running,
        state.reconfigure(change).0.reconfigure_finished(true).1 is None,
        state.reconfigure(change).0.reconfigure_finished(false).0.phase == Phase::Selected,
        state.reconfigure(change).0.reconfigure_finished(false).1 == Some(DeviceCommand::Close),
        state.reconfigure(change).0.reconfigure_finished(false).0.selected == state.selected,
{
}

/// Stopping twice is stopping once.
pub proof fn lemma_stop_idempotent(state: SessionState)
    ensures
        state.stop().0.stop() == (SessionState::initial(), None::<DeviceCommand>),
        state.stop().0 == SessionState::initial(),
{
}

/// What goes on with the handle of the chosen device.
#[derive(Clone, Copy, Debug, PartialEq, Eq, Structural)]
enum Activity {
    Closed,
    Opening,
    Streaming,
    Reconfiguring,
}

/// The capture session over the catalogue of devices.
pub struct CameraManager {
    selected_camera_info: Option<DeviceDescriptor>,
    activity: Activity,
    available_cameras: Vec<DeviceDescriptor>,
    settings: StreamSettings,
}

impl CameraManager {
    /// The phase that the two fields stand for: without a chosen device the
    /// session is idle, whatever the activity says.
    closed spec fn phase_of(selected: Option<DeviceDescriptor>, activity: Activity) -> Phase {
        if selected is None {
            Phase::Idle
        } else {
            match activity {
                Activity::Closed => Phase::Selected,
                Activity::Opening => Phase::Opening,
                Activity::Streaming => Phase::Running,
                Activity::Reconfiguring => Phase::Reconfiguring,
            }
        }
    }

    /// The state of the session.
    pub closed spec fn view(self) -> SessionState {
        SessionState {
            phase: Self::phase_of(self.selected_camera_info, self.activity),
            selected: self.selected_camera_info,
            settings: self.settings,
        }
    }

    /// The devices that can be chosen.
    pub closed spec fn catalog(self) -> Seq<DeviceDescriptor> {
        self.available_cameras@
    }

    /// Where the session stands.
    pub fn phase(&self) -> (phase: Phase)
        ensures
            phase == self@.phase,
            self@.well_formed(),
    {
        match (&self.selected_camera_info, self.activity) {
            (None, _) => Phase::Idle,
            (Some(_), Activity::Closed) => Phase::Selected,
            (Some(_), Activity::Opening) => Phase::Opening,
            (Some(_), Activity::Streaming) => Phase::Running,
            (Some(_), Activity::Reconfiguring) => Phase::Reconfiguring,
        }
    }

    /// A session in which nothing is chosen, over the catalogue of what the
    /// backend reported. A query that failed gives an empty catalogue.
    pub fn new(queried: Option<Vec<DeviceDescriptor>>) -> (manager: CameraManager)
        ensures
            manager@ == SessionState::initial(),
            manager.catalog() == catalog_of(queried),
    {
        CameraManager {
            selected_camera_info: None,
            activity: Activity::Closed,
            available_cameras: enumerate(queried),
            settings: StreamSettings { resolution: None, frame_rate: None, pixel_format: None },
        }
    }

    /// Replaces the catalogue by what a new query of the backend gave. The
    /// session itself stays as it is.
    pub fn refresh_cameras(&mut self, queried: Option<Vec<DeviceDescriptor>>)
        ensures
            final(self).catalog() == catalog_of(queried),
            final(self)@ == old(self)@,
    {
        self.available_cameras = enumerate(queried);
    }

    fn teardown(&self) -> (command: Option<DeviceCommand>)
        ensures
            command == self@.teardown(),
    {
        match self.phase() {
            Phase::Running | Phase::Reconfiguring => Some(DeviceCommand::Close),
            _ => None,
        }
    }

    fn reselects(&self, camera: &Option<DeviceDescriptor>) -> (same: bool)
        ensures
            same == self@.reselects(*camera),
    {
        match (self.phase(), camera, &self.selected_camera_info) {
            (Phase::Running, Some(wanted), Some(current)) => wanted.same_device(current),
            _ => false,
        }
    }

    /// Chooses a device, or none. Choosing the device that streams already
    /// changes nothing; otherwise an open handle is to be closed first.
    pub fn select_camera(&mut self, camera: Option<DeviceDescriptor>) -> (command: Option<
        DeviceCommand,
    >)
        ensures
            (final(self)@, command) == old(self)@.select(camera),
            final(self).catalog() == old(self).catalog(),
            final(self)@.well_formed(),
    {
        if self.reselects(&camera) {
            None
        } else {
            let command: Option<DeviceCommand> = self.teardown();
            self.activity = Activity::Closed;
            self.selected_camera_info = camera;
            self.settings = StreamSettings { resolution: None, frame_rate: None, pixel_format: None };
            command
        }
    }

    /// The chosen device, if one is chosen.
    pub fn selected_camera(&self) -> (camera: Option<DeviceDescriptor>)
        ensures
            camera == self@.selected,
    {
        match &self.selected_camera_info {
            Some(device) => Some(device.duplicate()),
            None => None,
        }
    }

    /// The settings asked for since the device was chosen.
    pub fn settings(&self) -> (settings: StreamSettings)
        ensures
            settings == self@.settings,
    {
        self.settings
    }

    /// The catalogue of devices.
    pub fn available_cameras(&self) -> (devices: Vec<DeviceDescriptor>)
        ensures
            devices@ == self.catalog(),
    {
        let mut devices: Vec<DeviceDescriptor> = Vec::new();
        let mut i: usize = 0;
        while i < self.available_cameras.len()
            invariant
                i <= self.available_cameras.len(),
                devices@ == self.available_cameras@.take(i as int),
            decreases self.available_cameras.len() - i,
        {
            devices.push(self.available_cameras[i].duplicate());
            assert(devices@ =~= self.available_cameras@.take(i + 1));
            i = i + 1;
        }
        assert(devices@ =~= self.available_cameras@);
        devices
    }

    fn reconfigure(&mut self, change: Setting) -> (command: Option<DeviceCommand>)
        ensures
            (final(self)@, command) == old(self)@.reconfigure(change),
            final(self).catalog() == old(self).catalog(),
            final(self)@.well_formed(),
    {
        let phase: Phase = self.phase();
        match phase {
            Phase::Running | Phase::Selected => {
                let settings: StreamSettings = match change {
                    Setting::Resolution(resolution) => StreamSettings {
                        resolution: Some(resolution),
                        frame_rate: self.settings.frame_rate,
                        pixel_format: self.settings.pixel_format,
                    },
                    Setting::FrameRate(frame_rate) => StreamSettings {
                        resolution: self.settings.resolution,
                        frame_rate: Some(frame_rate),
                        pixel_format: self.settings.pixel_format,
                    },
                    Setting::PixelFormat(pixel_format) => StreamSettings {
                        resolution: self.settings.resolution,
                        frame_rate: self.settings.frame_rate,
                        pixel_format: Some(pixel_format),
                    },
                };
                self.settings = settings;
                if phase == Phase::Running {
                    self.activity = Activity::Reconfiguring;
                    Some(DeviceCommand::Reconfigure { change })
                } else {
                    None
                }
            },
            _ => None,
        }
    }

    /// Asks for another resolution.
    pub fn set_resolution(&mut self, resolution: Resolution) -> (command: Option<DeviceCommand>)
        ensures
            (final(self)@, command) == old(self)@.reconfigure(Setting::Resolution(resolution)),
            final(self).catalog() == old(self).catalog(),
            final(self)@.well_formed(),
    {
        self.reconfigure(Setting::Resolution(resolution))
    }

    /// Asks for another frame rate, in frames per second.
    pub fn set_framerate(&mut self, framerate: u32) -> (command: Option<DeviceCommand>)
        ensures
            (final(self)@, command) == old(self)@.reconfigure(Setting::FrameRate(framerate)),
            final(self).catalog() == old(self).catalog(),
            final(self)@.well_formed(),
    {
        self.reconfigure(Setting::FrameRate(framerate))
    }

    /// Asks for another pixel format.
    pub fn set_frameformat(&mut self, frameformat: PixelFormat) -> (command: Option<DeviceCommand>)
        ensures
            (final(self)@, command) == old(self)@.reconfigure(Setting::PixelFormat(frameformat)),
            final(self).catalog() == old(self).catalog(),
            final(self)@.well_formed(),
    {
        self.reconfigure(Setting::PixelFormat(frameformat))
    }

    /// Takes the backend's answer to a `Reconfigure` command.
    pub fn reconfigure_finished(&mut self, restarted: bool) -> (command: Option<DeviceCommand>)
        ensures
            (final(self)@, command) == old(self)@.reconfigure_finished(restarted),
            final(self).catalog() == old(self).catalog(),
            final(self)@.well_formed(),
    {
        if self.phase() == Phase::Reconfiguring {
            if restarted {
                self.activity = Activity::Streaming;
                None
            } else {
                self.activity = Activity::Closed;
                Some(DeviceCommand::Close)
            }
        } else {
            None
        }
    }

    /// Tells whether the chosen device is open and streams.
    pub fn is_running(&self) -> (running: bool)
        ensures
            running == (self@.phase == Phase::Running),
    {
        self.phase() == Phase::Running
    }

    /// What the open device can do, as the backend reported it: for each
    /// resolution the frame rates it offers. Empty where no device streams
    /// or the backend could not tell.
    pub fn available_resolutions(&self, reported: Option<Vec<(Resolution, Vec<u32>)>>) -> (offers:
        Vec<(Resolution, Vec<u32>)>)
        ensures
            offers@ == (if self@.phase == Phase::Running && reported is Some {
                reported->0@
            } else {
                Seq::empty()
            }),
    {
        match reported {
            Some(offers) => if self.phase() == Phase::Running {
                offers
            } else {
                Vec::new()
            },
            None => Vec::new(),
        }
    }

    /// Stops the capture and forgets the chosen device. An open handle is
    /// to be closed. Stopping what is stopped changes nothing.
    pub fn stop(&mut self) -> (command: Option<DeviceCommand>)
        ensures
            (final(self)@, command) == old(self)@.stop(),
            final(self).catalog() == old(self).catalog(),
            final(self)@.well_formed(),
    {
        let command: Option<DeviceCommand> = self.teardown();
        self.activity = Activity::Closed;
        self.selected_camera_info = None;
        self.settings = StreamSettings { resolution: None, frame_rate: None, pixel_format: None };
        command
    }

    /// Starts the capture on the chosen device, if it is not open yet.
    pub fn start_capture(&mut self, format: RequestedFormatType) -> (command: Option<DeviceCommand>)
        ensures
            (final(self)@, command) == old(self)@.start(format),
            final(self).catalog() == old(self).catalog(),
            final(self)@.well_formed(),
    {
        if self.phase() == Phase::Selected {
            match &self.selected_camera_info {
                Some(device) => {
                    let command: DeviceCommand = DeviceCommand::Open {
                        device: device.duplicate(),
                        format,
                        settings: self.settings,
                    };
                    self.activity = Activity::Opening;
                    Some(command)
                },
                None => None,
            }
        } else {
            None
        }
    }

    /// Takes the backend's answer to an `Open` command.
    pub fn open_finished(&mut self, opened: bool) -> (command: Option<DeviceCommand>)
        ensures
            (final(self)@, command) == old(self)@.open_finished(opened),
            final(self).catalog() == old(self).catalog(),
            final(self)@.well_formed(),
    {
        if self.phase() == Phase::Opening {
            self.activity = if opened {
                Activity::Streaming
            } else {
                Activity::Closed
            };
            None
        } else if opened {
            Some(DeviceCommand::Close)
        } else {
            None
        }
    }

    /// Turns what a poll of the backend gave into the image to publish.
    /// There is one only if the device streams, the poll gave a frame, and
    /// the frame decodes to an image of its own size. `jpeg` is what the
    /// JPEG decoder made of an MJPEG frame.
    pub fn get_frame(&self, polled: Option<RawFrame>, jpeg: Option<Vec<u8>>) -> (image: Option<
        RgbImage,
    >)
        ensures
            self@.phase == Phase::Running && polled is Some ==> image_is(
                image,
                polled->0.resolution,
                renderable_bytes(polled->0, bytes_view(jpeg)),
            ),
            !(self@.phase == Phase::Running && polled is Some) ==> image is None,
            image is Some ==> image->0.fills_resolution(),
    {
        match polled {
            Some(frame) => if self.phase() == Phase::Running {
                renderable_image(&frame, jpeg)
            } else {
                None
            },
            None => None,
        }
    }
}

} // verus!
