//! The engine boundary: cartridge images, the console, and the calls into
//! the `ludus` crate that the lifecycle needs.

use vstd::prelude::*;

verus! {

/// The audio sample rate, in Hz, that every console is built with.
pub const SAMPLE_RATE: u32 = 24000;

/// Size of one program bank in a cartridge image.
pub const PRG_BANK_BYTES: usize = 0x4000;

/// Size of one graphics bank in a cartridge image.
pub const CHR_BANK_BYTES: usize = 0x2000;

/// Why a byte payload was not accepted as a cartridge.
#[derive(Clone, Copy, Debug, PartialEq, Eq, Structural)]
pub enum CartError {
    /// The payload is not a complete cartridge image.
    UnrecognisedFormat,
    /// The image asks for a memory mapper that the engine does not have.
    UnknownMapper(u8),
}

/// The eight buttons of the first controller, as pressed or not.
#[derive(Clone, Copy, Debug, PartialEq, Eq, Structural)]
pub struct ControllerState {
    pub a: bool,
    pub b: bool,
    pub select: bool,
    pub start: bool,
    pub up: bool,
    pub down: bool,
    pub left: bool,
    pub right: bool,
}

/// A button of the controller, as the host is asked about it.
#[derive(Clone, Copy, Debug, PartialEq, Eq, Structural)]
pub enum JoypadButton {
    A,
    B,
    Select,
    Start,
    Up,
    Down,
    Left,
    Right,
}

/// The order in which the buttons are polled after each frame.
pub open spec fn polling_order() -> Seq<JoypadButton> {
    seq![
        JoypadButton::A,
        JoypadButton::B,
        JoypadButton::Select,
        JoypadButton::Start,
        JoypadButton::Up,
        JoypadButton::Down,
        JoypadButton::Left,
        JoypadButton::Right,
    ]
}

/// The buttons to ask the host about, in polling order. The answers, in
/// the same order, are what `ControllerState::from_pressed` takes.
pub fn polled_buttons() -> (order: [JoypadButton; 8])
    ensures
        order@ == polling_order(),
{
    let order = [
        JoypadButton::A,
        JoypadButton::B,
        JoypadButton::Select,
        JoypadButton::Start,
        JoypadButton::Up,
        JoypadButton::Down,
        JoypadButton::Left,
        JoypadButton::Right,
    ];
    assert(order@ =~= polling_order());
    order
}

impl ControllerState {
    /// Whether `button` is pressed in this state.
    pub open spec fn pressed(&self, button: JoypadButton) -> bool {
        match button {
            JoypadButton::A => self.a,
            JoypadButton::B => self.b,
            JoypadButton::Select => self.select,
            JoypadButton::Start => self.start,
            JoypadButton::Up => self.up,
            JoypadButton::Down => self.down,
            JoypadButton::Left => self.left,
            JoypadButton::Right => self.right,
        }
    }

    /// The eight buttons in polling order.
    pub open spec fn buttons(&self) -> Seq<bool> {
        seq![self.a, self.b, self.select, self.start, self.up, self.down, self.left, self.right]
    }

    /// Assembles the state from the host's answers, given in the order
    /// A, B, Select, Start, Up, Down, Left, Right.
    pub fn from_pressed(pressed: [bool; 8]) -> (state: Self)
        ensures
            state.buttons() == pressed@,
            forall|k: int| 0 <= k < 8 ==> state.pressed(#[trigger] polling_order()[k]) == pressed@[k],
            state == (ControllerState {
                a: pressed@[0],
                b: pressed@[1],
                select: pressed@[2],
                start: pressed@[3],
                up: pressed@[4],
                down: pressed@[5],
                left: pressed@[6],
                right: pressed@[7],
            }),
    {
        let state = ControllerState {
            a: pressed[0],
            b: pressed[1],
            select: pressed[2],
            start: pressed[3],
            up: pressed[4],
            down: pressed[5],
            left: pressed[6],
            right: pressed[7],
        };
        assert(state.buttons() =~= pressed@);
        state
    }
}

/// The payload starts with the four bytes that mark a cartridge image.
pub open spec fn has_ines_magic(data: Seq<u8>) -> bool {
    &&& data.len() >= 4
    &&& data[0] == 0x4E
    &&& data[1] == 0x45
    &&& data[2] == 0x53
    &&& data[3] == 0x1A
}

/// The mapper number that the header's two flag bytes spell.
pub open spec fn ines_mapper(data: Seq<u8>) -> u8 {
    (data[6] >> 4) | (data[7] & 0xF0)
}

/// The mapper numbers that the engine implements.
pub open spec fn mapper_supported(id: u8) -> bool {
    id <= 2
}

/// Offset of the first program byte: behind the header, and behind the
/// 512-byte trainer where the header announces one.
pub open spec fn ines_prg_start(data: Seq<u8>) -> int {
    if data[6] & 0b100 > 0 {
        528
    } else {
        16
    }
}

/// Offset behind the last program byte.
pub open spec fn ines_prg_end(data: Seq<u8>) -> int {
    ines_prg_start(data) + PRG_BANK_BYTES * data[4]
}

/// Offset behind the last graphics byte.
pub open spec fn ines_chr_end(data: Seq<u8>) -> int {
    ines_prg_end(data) + CHR_BANK_BYTES * data[5]
}

/// The image holds its header, at least one program bank, and every bank
/// that the header announces.
pub open spec fn ines_complete(data: Seq<u8>) -> bool {
    &&& data.len() >= 8
    &&& data[4] > 0
    &&& data.len() >= ines_chr_end(data)
}

/// The program bytes that the image at `data` gives a cartridge.
pub open spec fn ines_prg(data: Seq<u8>) -> Seq<u8> {
    data.subrange(ines_prg_start(data), ines_prg_end(data))
}

/// The graphics bytes that the image at `data` gives a cartridge: its
/// graphics banks, or one zeroed bank where it has none.
pub open spec fn ines_chr(data: Seq<u8>) -> Seq<u8> {
    if data[5] == 0 {
        Seq::new(CHR_BANK_BYTES as nat, |i: int| 0u8)
    } else {
        data.subrange(ines_prg_end(data), ines_chr_end(data))
    }
}

/// Whether the image is complete, decided on the bytes.
pub fn image_is_complete(data: &[u8]) -> (complete: bool)
    ensures
        complete == ines_complete(data@),
{
    if data.len() < 8 || data[4] == 0 {
        return false;
    }
    let prg_start: usize = if data[6] & 0b100 > 0 {
        528
    } else {
        16
    };
    let prg_banks: usize = data[4] as usize;
    let chr_banks: usize = data[5] as usize;
    let chr_end: usize = prg_start + PRG_BANK_BYTES * prg_banks + CHR_BANK_BYTES * chr_banks;
    data.len() >= chr_end
}

/// Whether the header names a mapper that the engine implements, decided
/// on the bytes.
pub fn names_supported_mapper(data: &[u8]) -> (supported: bool)
    requires
        data@.len() >= 8,
    ensures
        supported == mapper_supported(ines_mapper(data@)),
{
    let id: u8 = (data[6] >> 4) | (data[7] & 0xF0);
    id <= 2
}

/// Whether the payload starts with the cartridge marker, decided on the bytes.
pub fn starts_with_magic(data: &[u8]) -> (magic: bool)
    ensures
        magic == has_ines_magic(data@),
{
    data.len() >= 4 && data[0] == 0x4E && data[1] == 0x45 && data[2] == 0x53 && data[3] == 0x1A
}

#[verifier::external_type_specification]
#[verifier::external_body]
pub struct ExCart(ludus::Cart);

#[verifier::external_type_specification]
#[verifier::external_body]
pub struct ExConsole(ludus::Console);

/// The program ROM that a cartridge holds.
pub uninterp spec fn cart_prg(cart: ludus::Cart) -> Seq<u8>;

/// The graphics ROM that a cartridge holds.
pub uninterp spec fn cart_chr(cart: ludus::Cart) -> Seq<u8>;

/// Calls `ludus::Cart::from_bytes`, which indexes the header and slices the
/// banks without testing the length: the `requires` keeps away the payloads
/// on which it would run off the end. The contract claims that a payload
/// without the marker is refused as unrecognised, that one with a mapper
/// number above 2 is refused with that number, and that any other gives a
/// cartridge holding the program and graphics bytes that the header
/// delimits.
#[verifier::external_body]
pub(crate) fn read_cart(data: &[u8]) -> (res: Result<ludus::Cart, CartError>)
    requires
        data@.len() >= 4,
        has_ines_magic(data@) ==> data@.len() >= 8,
        has_ines_magic(data@) && mapper_supported(ines_mapper(data@)) ==> data@.len()
            >= ines_chr_end(data@),
    ensures
        match res {
            Ok(cart) => {
                &&& has_ines_magic(data@)
                &&& mapper_supported(ines_mapper(data@))
                &&& cart_prg(cart) == ines_prg(data@)
                &&& cart_chr(cart) == ines_chr(data@)
            },
            Err(CartError::UnrecognisedFormat) => !has_ines_magic(data@),
            Err(CartError::UnknownMapper(id)) => {
                &&& has_ines_magic(data@)
                &&& !mapper_supported(ines_mapper(data@))
                &&& id == ines_mapper(data@)
            },
        },
{
    match ludus::Cart::from_bytes(data) {
        Ok(cart) => Ok(cart),
        Err(ludus::CartReadingError::UnrecognisedFormat) => Err(CartError::UnrecognisedFormat),
        Err(ludus::CartReadingError::UnknownMapper(id)) => Err(CartError::UnknownMapper(id)),
    }
}

/// The program ROM of the cartridge that a console runs.
pub uninterp spec fn console_prg(console: ludus::Console) -> Seq<u8>;

/// The graphics memory of the cartridge that a console runs.
pub uninterp spec fn console_chr(console: ludus::Console) -> Seq<u8>;

/// The number of processor ticks after which a console's audio unit emits
/// a sample.
pub uninterp spec fn console_sample_ticks(console: ludus::Console) -> int;

/// The buttons that a console's first controller holds, in polling order.
pub uninterp spec fn console_buttons(console: ludus::Console) -> Seq<bool>;

/// No button pressed.
pub open spec fn no_buttons() -> Seq<bool> {
    Seq::new(8, |k: int| false)
}

/// The ticks between two samples at `sample_rate`: the processor's
/// 1,790,000 ticks a second divided by the rate, and one more.
pub open spec fn sample_ticks(sample_rate: u32) -> int {
    1_790_000int / (sample_rate as int) + 1
}

/// Calls `ludus::Console::new`, which powers the machine on and reads the
/// reset vector from the last program bank. It needs a whole program bank
/// and half a graphics bank to index, and a sample rate that its tick
/// counter can divide by. The contract claims that the console runs the
/// cartridge it was given, that its audio unit counts the ticks that the
/// sample rate asks for, and that no button is pressed.
#[verifier::external_body]
pub(crate) fn new_console(cart: ludus::Cart, sample_rate: u32) -> (console: Box<ludus::Console>)
    requires
        cart_prg(cart).len() >= PRG_BANK_BYTES,
        cart_chr(cart).len() >= 0x1000,
        sample_rate >= 28,
    ensures
        console_prg(*console) == cart_prg(cart),
        console_chr(*console) == cart_chr(cart),
        console_sample_ticks(*console) == sample_ticks(sample_rate),
        console_buttons(*console) == no_buttons(),
{
    Box::new(ludus::Console::new(cart, sample_rate))
}

/// Calls `ludus::Console::update_controller` with the same eight buttons.
/// The contract claims that the console's first controller then holds
/// them, as the engine stores them, in polling order, and that cartridge
/// and audio unit are as before.
#[verifier::external_body]
pub(crate) fn set_buttons(console: &mut ludus::Console, state: ControllerState)
    ensures
        console_buttons(*final(console)) == state.buttons(),
        console_prg(*final(console)) == console_prg(*old(console)),
        console_chr(*final(console)) == console_chr(*old(console)),
        console_sample_ticks(*final(console)) == console_sample_ticks(*old(console)),
{
    console.update_controller(
        ludus::ButtonState {
            a: state.a,
            b: state.b,
            select: state.select,
            start: state.start,
            up: state.up,
            down: state.down,
            left: state.left,
            right: state.right,
        },
    );
}

} // verus!
