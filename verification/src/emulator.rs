//! The lifecycle controller: it owns the optional console and the
//! framebuffer, and answers the host's load, reset and run events.

use vstd::prelude::*;
use crate::engine::{
    has_ines_magic, image_is_complete, ines_complete, ines_mapper, mapper_supported,
    console_buttons, console_chr, console_prg, console_sample_ticks, ines_chr, ines_prg,
    names_supported_mapper, new_console, no_buttons, read_cart, sample_ticks, set_buttons,
    starts_with_magic, CartError, ControllerState, SAMPLE_RATE,
};
use crate::libretro_device::{LibretroVideo, FRAME_BYTES, FRAME_HEIGHT, FRAME_WIDTH};

verus! {

/// Frames per second that the host is told to expect.
pub const FRAME_RATE: u32 = 60;

/// The controller port whose buttons are read.
pub const CONTROLLER_PORT: u32 = 0;

/// Name under which the core presents itself.
pub const CORE_NAME: &'static str = "Ludus";

/// Version under which the core presents itself.
pub const CORE_VERSION: &'static str = "0.1";

/// The file extension of the games that the core accepts.
pub const GAME_EXTENSION: &'static str = "nes";

/// Layout of one pixel in the framebuffer handed to the host.
#[derive(Clone, Copy, Debug, PartialEq, Eq, Structural)]
pub enum PixelFormat {
    RGB1555,
    XRGB8888,
    RGB565,
}

/// Television system that the host should time the core for.
#[derive(Clone, Copy, Debug, PartialEq, Eq, Structural)]
pub enum Region {
    NTSC,
    PAL,
}

/// Audio parameters reported with a successful load.
#[derive(Clone, Copy, Debug, PartialEq, Eq, Structural)]
pub struct AudioInfo {
    pub sample_rate: u32,
}

/// Video parameters reported with a successful load.
#[derive(Clone, Copy, Debug, PartialEq, Eq, Structural)]
pub struct VideoInfo {
    pub frame_rate: u32,
    pub width: u32,
    pub height: u32,
    pub pixel_format: PixelFormat,
}

/// What the host is told after a load request.
#[derive(Clone, Copy, Debug, PartialEq, Eq, Structural)]
pub enum LoadGameResult {
    Failure,
    Success { audio: AudioInfo, video: VideoInfo, region: Region },
}

/// What the core declares to the host before any game is loaded.
#[derive(Clone, Copy, Debug, PartialEq, Eq, Structural)]
pub struct HostSetup {
    pub pixel_format: PixelFormat,
    pub support_no_game: bool,
}

/// How the core presents itself to the host.
#[derive(Clone, Copy, Debug, PartialEq, Eq)]
pub struct SystemInfo {
    pub name: &'static str,
    pub version: &'static str,
    pub valid_extension: &'static str,
}

/// A game as the host hands it over.
pub enum GameRequest<'a> {
    /// The host explicitly starts the core without a game.
    Empty,
    /// The whole game, in memory.
    Data { data: &'a [u8] },
    /// A game named by path: `content` is what reading the file gave, or
    /// `None` where it could not be read.
    Path { content: Option<Vec<u8>> },
}

/// How far the work of one run event has come.
#[derive(Clone, Copy, Debug, PartialEq, Eq)]
pub enum RunStage {
    /// The host has just asked for a frame.
    Start,
    /// The console has stepped one frame into the two sinks.
    Stepped,
    /// The framebuffer has been uploaded to the host.
    Uploaded,
    /// The host has answered for the buttons, in polling order.
    Polled { pressed: [bool; 8] },
}

/// What is left to do for the host's run event.
#[derive(Clone, Copy, Debug, PartialEq, Eq, Structural)]
pub enum FrameAction {
    /// Nothing more: the run event is over.
    Finish,
    /// Step the console one frame into the audio and the video sink.
    StepFrame,
    /// Upload the framebuffer to the host.
    UploadFrame,
    /// Ask the host about the buttons of the first controller.
    PollButtons,
}

/// What is left to do for the host's reset event.
#[derive(Clone, Copy, Debug, PartialEq, Eq, Structural)]
pub enum ResetAction {
    /// No game is loaded: nothing is reset.
    Nothing,
    /// Put the console back into its power-on state.
    ResetConsole,
}

/// The result a successful load reports: the fixed audio and video
/// parameters of the emulated machine.
pub open spec fn success_result() -> LoadGameResult {
    LoadGameResult::Success {
        audio: AudioInfo { sample_rate: 24000 },
        video: VideoInfo {
            frame_rate: 60,
            width: 256,
            height: 240,
            pixel_format: PixelFormat::XRGB8888,
        },
        region: Region::NTSC,
    }
}

/// How a byte payload fares as a cartridge: accepted, or refused with
/// the reason.
pub open spec fn load_outcome(data: Seq<u8>) -> Result<(), CartError> {
    if !has_ines_magic(data) || data.len() < 8 {
        Err(CartError::UnrecognisedFormat)
    } else if !mapper_supported(ines_mapper(data)) {
        Err(CartError::UnknownMapper(ines_mapper(data)))
    } else if !ines_complete(data) {
        Err(CartError::UnrecognisedFormat)
    } else {
        Ok(())
    }
}

/// How the content of a game file fares, where `None` stands for a file
/// that could not be read.
pub open spec fn file_outcome(content: Option<Vec<u8>>) -> Result<(), CartError> {
    match content {
        Some(bytes) => load_outcome(bytes@),
        None => Err(CartError::UnrecognisedFormat),
    }
}

/// The bytes that were read from a game file, none where it could not be
/// read.
pub open spec fn file_bytes(content: Option<Vec<u8>>) -> Seq<u8> {
    match content {
        Some(bytes) => bytes@,
        None => Seq::empty(),
    }
}

/// The bytes of the game that a load request carries, none where it
/// carries no game.
pub open spec fn request_bytes(request: Option<GameRequest>) -> Seq<u8> {
    match request {
        None => Seq::empty(),
        Some(GameRequest::Empty) => Seq::empty(),
        Some(GameRequest::Data { data }) => data@,
        Some(GameRequest::Path { content }) => file_bytes(content),
    }
}

/// How a load request fares: `None` where it carries no game at all.
pub open spec fn request_outcome(request: Option<GameRequest>) -> Option<Result<(), CartError>> {
    match request {
        None => None,
        Some(GameRequest::Empty) => None,
        Some(GameRequest::Data { data }) => Some(load_outcome(data@)),
        Some(GameRequest::Path { content }) => Some(file_outcome(content)),
    }
}

/// Builds the answer to a load that succeeded.
pub fn make_success_result() -> (result: LoadGameResult)
    ensures
        result == success_result(),
{
    LoadGameResult::Success {
        audio: AudioInfo { sample_rate: SAMPLE_RATE },
        video: VideoInfo {
            frame_rate: FRAME_RATE,
            width: FRAME_WIDTH as u32,
            height: FRAME_HEIGHT as u32,
            pixel_format: PixelFormat::XRGB8888,
        },
        region: Region::NTSC,
    }
}

/// The declarations that the host receives at start and again before each
/// load: the fixed pixel format, and that the core runs without a game.
pub fn host_setup() -> (setup: HostSetup)
    ensures
        setup == (HostSetup { pixel_format: PixelFormat::XRGB8888, support_no_game: true }),
{
    HostSetup { pixel_format: PixelFormat::XRGB8888, support_no_game: true }
}

/// The bridge between host and engine. A game is loaded exactly while
/// `console` holds one.
pub struct Emulator {
    pub console: Option<Box<ludus::Console>>,
    pub video: LibretroVideo,
}

impl Emulator {
    /// A game is loaded.
    pub open spec fn loaded(&self) -> bool {
        self.console is Some
    }

    /// What `run` answers at `stage`. Without a game a run event is over at
    /// once. With one, the frame is stepped first, then uploaded, and only
    /// then are the buttons polled: they reach the console after the frame
    /// and act on the next one.
    pub open spec fn frame_action(&self, stage: RunStage) -> FrameAction {
        if !self.loaded() {
            FrameAction::Finish
        } else {
            match stage {
                RunStage::Start => FrameAction::StepFrame,
                RunStage::Stepped => FrameAction::UploadFrame,
                RunStage::Uploaded => FrameAction::PollButtons,
                RunStage::Polled { .. } => FrameAction::Finish,
            }
        }
    }

    /// The console runs the cartridge of the image `data`, at the fixed
    /// sample rate.
    pub open spec fn runs_game(&self, data: Seq<u8>) -> bool {
        &&& self.console matches Some(console)
        &&& console_prg(*console) == ines_prg(data)
        &&& console_chr(*console) == ines_chr(data)
        &&& console_sample_ticks(*console) == sample_ticks(24000)
    }

    /// The console has just been built from the image `data`: it runs that
    /// cartridge, and no button is pressed.
    pub open spec fn freshly_loaded(&self, data: Seq<u8>) -> bool {
        &&& self.runs_game(data)
        &&& self.console matches Some(console)
        &&& console_buttons(*console) == no_buttons()
    }

    /// What `load` makes of `before` on `data`: a valid payload puts a
    /// console freshly built from it in place of the old one, a refused one
    /// leaves the old console, if any, in place; the framebuffer is not
    /// touched.
    pub open spec fn load_effect(
        before: Emulator,
        data: Seq<u8>,
        outcome: Result<(), CartError>,
        after: Emulator,
    ) -> bool {
        &&& after.video == before.video
        &&& outcome is Ok ==> after.freshly_loaded(data)
        &&& outcome is Err ==> after.console == before.console
    }

    /// What `load_game` makes of `before`: a console is installed exactly
    /// where the request carried a game that was accepted, and it is then
    /// one freshly built from that game's bytes, `data`.
    pub open spec fn load_game_effect(
        before: Emulator,
        data: Seq<u8>,
        outcome: Option<Result<(), CartError>>,
        result: LoadGameResult,
        after: Emulator,
    ) -> bool {
        &&& after.video == before.video
        &&& after.loaded() <==> outcome == Some(Ok::<(), CartError>(()))
        &&& after.loaded() ==> after.freshly_loaded(data)
        &&& result == if outcome matches Some(Err(_)) {
            LoadGameResult::Failure
        } else {
            success_result()
        }
    }

    /// What `reset` answers in this state.
    pub open spec fn reset_action(&self) -> ResetAction {
        if self.loaded() {
            ResetAction::ResetConsole
        } else {
            ResetAction::Nothing
        }
    }

    /// What handing `buttons` to the console makes of `before`: a loaded
    /// console holds them afterwards and runs the game it ran, the
    /// framebuffer is not touched, and without a game nothing changes at all.
    pub open spec fn input_effect(before: Emulator, buttons: Seq<bool>, after: Emulator) -> bool {
        &&& after.video == before.video
        &&& after.loaded() == before.loaded()
        &&& !before.loaded() ==> after == before
        &&& after.console matches Some(console) ==> console_buttons(*console) == buttons
        &&& forall|data: Seq<u8>| #[trigger] before.runs_game(data) ==> after.runs_game(data)
    }

    /// The name, the version and the game file extension of the core.
    pub fn get_system_info() -> (info: SystemInfo)
        ensures
            info.name == CORE_NAME,
            info.version == CORE_VERSION,
            info.valid_extension == GAME_EXTENSION,
    {
        SystemInfo { name: CORE_NAME, version: CORE_VERSION, valid_extension: GAME_EXTENSION }
    }

    /// A fresh bridge: no game, and a framebuffer of zeroes.
    pub fn init() -> (emulator: Self)
        ensures
            !emulator.loaded(),
            emulator.video@.len() == FRAME_BYTES,
            forall|j: int| 0 <= j < FRAME_BYTES ==> emulator.video@[j] == 0,
    {
        Emulator { console: None, video: LibretroVideo::default() }
    }

    /// Reads `data` as a cartridge and, where the engine accepts it, builds
    /// a console at the fixed sample rate in place of the old one.
    pub fn load(&mut self, data: &[u8]) -> (res: Result<(), CartError>)
        ensures
            res == load_outcome(data@),
            Self::load_effect(*old(self), data@, res, *final(self)),
    {
        if data.len() < 4 {
            return Err(CartError::UnrecognisedFormat);
        }
        if starts_with_magic(data) {
            if data.len() < 8 {
                return Err(CartError::UnrecognisedFormat);
            }
            if names_supported_mapper(data) && !image_is_complete(data) {
                return Err(CartError::UnrecognisedFormat);
            }
        }
        match read_cart(data) {
            Ok(cart) => {
                self.console = Some(new_console(cart, SAMPLE_RATE));
                Ok(())
            },
            Err(e) => Err(e),
        }
    }

    /// Loads what was read from a game file. A file that could not be read
    /// counts as an unrecognised cartridge.
    pub fn load_file(&mut self, content: Option<Vec<u8>>) -> (res: Result<(), CartError>)
        ensures
            res == file_outcome(content),
            Self::load_effect(*old(self), file_bytes(content), res, *final(self)),
    {
        match content {
            Some(bytes) => self.load(bytes.as_slice()),
            None => Err(CartError::UnrecognisedFormat),
        }
    }

    /// Answers the host's load request. A request without a game clears the
    /// console and succeeds; one with a game succeeds where the game loads,
    /// and otherwise fails and leaves no console behind.
    pub fn load_game(&mut self, request: Option<GameRequest>) -> (result: LoadGameResult)
        ensures
            Self::load_game_effect(
                *old(self),
                request_bytes(request),
                request_outcome(request),
                result,
                *final(self),
            ),
    {
        let loaded = match request {
            None => None,
            Some(GameRequest::Empty) => None,
            Some(GameRequest::Data { data }) => Some(self.load(data)),
            Some(GameRequest::Path { content }) => Some(self.load_file(content)),
        };
        match loaded {
            Some(Ok(())) => make_success_result(),
            Some(Err(_)) => {
                self.console = None;
                LoadGameResult::Failure
            },
            None => {
                self.console = None;
                make_success_result()
            },
        }
    }

    /// Decides what the host's reset event asks for. The reset itself is
    /// left to the caller: the engine reads the reset vector through the
    /// cartridge's mapper, and fails where the game has selected a program
    /// bank that the cartridge lacks.
    pub fn reset(&self) -> (action: ResetAction)
        ensures
            action == self.reset_action(),
    {
        if self.console.is_some() {
            ResetAction::ResetConsole
        } else {
            ResetAction::Nothing
        }
    }

    /// Leads the host's run event through its stages: called with the stage
    /// that was reached, it says what to do next. The buttons that come with
    /// the last stage are handed to the console.
    pub fn run(&mut self, stage: RunStage) -> (action: FrameAction)
        ensures
            action == old(self).frame_action(stage),
            stage matches RunStage::Polled { pressed } ==> Self::input_effect(
                *old(self),
                pressed@,
                *final(self),
            ),
            !(stage is Polled) ==> *final(self) == *old(self),
    {
        if self.console.is_none() {
            return FrameAction::Finish;
        }
        match stage {
            RunStage::Start => FrameAction::StepFrame,
            RunStage::Stepped => FrameAction::UploadFrame,
            RunStage::Uploaded => FrameAction::PollButtons,
            RunStage::Polled { pressed } => {
                self.update_controller(ControllerState::from_pressed(pressed));
                FrameAction::Finish
            },
        }
    }

    /// Hands a controller state to the console, which uses it from the next
    /// frame on.
    pub fn update_controller(&mut self, state: ControllerState)
        ensures
            Self::input_effect(*old(self), state.buttons(), *final(self)),
    {
        match self.console.take() {
            Some(mut console) => {
                set_buttons(&mut console, state);
                self.console = Some(console);
            },
            None => {},
        }
    }
}

/// After a payload that is a valid cartridge has been loaded, whatever was
/// loaded before, every run event steps a frame, uploads it and polls the
/// buttons, in this order.
pub proof fn lemma_accepted_load_then_run_steps(before: Emulator, data: Seq<u8>, after: Emulator)
    requires
        load_outcome(data) is Ok,
        Emulator::load_effect(before, data, load_outcome(data), after),
    ensures
        after.frame_action(RunStage::Start) == FrameAction::StepFrame,
        after.frame_action(RunStage::Stepped) == FrameAction::UploadFrame,
        after.frame_action(RunStage::Uploaded) == FrameAction::PollButtons,
        forall|stage: RunStage|
            stage is Polled ==> #[trigger] after.frame_action(stage) == FrameAction::Finish,
{
}

/// A payload is refused exactly where it lacks the marker, is cut short,
/// or names a mapper that the engine does not have.
pub proof fn lemma_refused_payloads(data: Seq<u8>)
    ensures
        load_outcome(data) is Err <==> !has_ines_magic(data) || !ines_complete(data)
            || !mapper_supported(ines_mapper(data)),
        load_outcome(data) matches Err(CartError::UnknownMapper(id)) ==> id > 2,
{
}

/// A refused payload installs nothing: where no game was loaded before,
/// none is loaded after, and a run event is over before anything is stepped,
/// uploaded or polled.
pub proof fn lemma_refused_load_then_run_idles(before: Emulator, data: Seq<u8>, after: Emulator)
    requires
        !before.loaded(),
        load_outcome(data) is Err,
        Emulator::load_effect(before, data, load_outcome(data), after),
    ensures
        after == before,
        forall|stage: RunStage| #[trigger] after.frame_action(stage) == FrameAction::Finish,
{
}

/// A load request whose game is refused is answered with failure and leaves
/// no console behind, whatever was loaded before: a run event is then over
/// before anything is stepped, uploaded or polled.
pub proof fn lemma_refused_game_then_run_idles(
    before: Emulator,
    request: Option<GameRequest>,
    result: LoadGameResult,
    after: Emulator,
)
    requires
        request_outcome(request) matches Some(Err(_)),
        Emulator::load_game_effect(
            before,
            request_bytes(request),
            request_outcome(request),
            result,
            after,
        ),
    ensures
        result == LoadGameResult::Failure,
        forall|stage: RunStage| #[trigger] after.frame_action(stage) == FrameAction::Finish,
{
}

} // verus!
