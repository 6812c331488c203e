//! The raw input codes of the N1, and what they mean.
//!
//! The device reports one code and one state byte at a time. Three codes
//! belong to the dial: a tick counter-clockwise, a tick clockwise, and the
//! press, whose state byte tells whether the dial went down or came up.

use crate::device::N1_ENCODER_COUNT;
use crate::update::DIAL_ENCODER;
use vstd::prelude::*;

verus! {

/// Code of one tick counter-clockwise.
pub const INPUT_DIAL_CCW: u8 = 50;

/// Code of one tick clockwise.
pub const INPUT_DIAL_CW: u8 = 51;

/// Code of a press or release of the dial.
pub const INPUT_DIAL_PRESS: u8 = 35;

/// What the device reported, with one entry for each encoder.
#[derive(Debug)]
pub enum DeviceInput {
    /// Which encoders are held down.
    EncoderStateChange(Vec<bool>),
    /// By how many ticks each encoder was turned.
    EncoderTwist(Vec<i8>),
}

/// A [`DeviceInput`] as plain sequences.
pub enum DeviceInputView {
    EncoderStateChange(Seq<bool>),
    EncoderTwist(Seq<i8>),
}

impl View for DeviceInput {
    type V = DeviceInputView;

    open spec fn view(&self) -> DeviceInputView {
        match self {
            DeviceInput::EncoderStateChange(held) => DeviceInputView::EncoderStateChange(held@),
            DeviceInput::EncoderTwist(ticks) => DeviceInputView::EncoderTwist(ticks@),
        }
    }
}

/// Why an input was not understood.
#[derive(Clone, Copy, Debug, PartialEq, Eq, Structural)]
pub enum InputError {
    /// The code is none of the dial's.
    BadData,
}

/// One value for each encoder: `at_dial` for the dial, `elsewhere` for the
/// others.
pub open spec fn only_dial<T>(at_dial: T, elsewhere: T) -> Seq<T> {
    Seq::new(
        N1_ENCODER_COUNT as nat,
        |i: int| if i == DIAL_ENCODER {
            at_dial
        } else {
            elsewhere
        },
    )
}

/// What the code `input` with the state byte `input_state` means.
pub open spec fn meaning(input: u8, input_state: u8) -> Result<DeviceInputView, InputError> {
    if input == INPUT_DIAL_CCW {
        Ok(DeviceInputView::EncoderTwist(only_dial(-1i8, 0i8)))
    } else if input == INPUT_DIAL_CW {
        Ok(DeviceInputView::EncoderTwist(only_dial(1i8, 0i8)))
    } else if input == INPUT_DIAL_PRESS {
        Ok(DeviceInputView::EncoderStateChange(only_dial(input_state != 0, false)))
    } else {
        Err(InputError::BadData)
    }
}

/// Turns a raw input of the device into what it means for the encoders.
pub fn process_input_n1(input: u8, input_state: u8) -> (result: Result<DeviceInput, InputError>)
    ensures
        result is Ok <==> meaning(input, input_state) is Ok,
        result is Ok ==> result->Ok_0@ == meaning(input, input_state)->Ok_0,
        result is Err ==> result->Err_0 == meaning(input, input_state)->Err_0,
{
    if input == INPUT_DIAL_CCW {
        let ticks: Vec<i8> = vec![0, 0, -1];
        assert(ticks@ =~= only_dial(-1i8, 0i8));
        Ok(DeviceInput::EncoderTwist(ticks))
    } else if input == INPUT_DIAL_CW {
        let ticks: Vec<i8> = vec![0, 0, 1];
        assert(ticks@ =~= only_dial(1i8, 0i8));
        Ok(DeviceInput::EncoderTwist(ticks))
    } else if input == INPUT_DIAL_PRESS {
        let pressed = input_state != 0;
        let held: Vec<bool> = vec![false, false, pressed];
        assert(held@ =~= only_dial(pressed, false));
        Ok(DeviceInput::EncoderStateChange(held))
    } else {
        Err(InputError::BadData)
    }
}

/// An input that is understood speaks of the dial alone: it has an entry
/// for every encoder, and the entries of the two face buttons are at rest.
pub proof fn lemma_input_concerns_dial_only(input: u8, input_state: u8)
    requires
        meaning(input, input_state) is Ok,
    ensures
        match meaning(input, input_state)->Ok_0 {
            DeviceInputView::EncoderTwist(ticks) => {
                &&& ticks.len() == N1_ENCODER_COUNT
                &&& forall|i: int| 0 <= i < ticks.len() && i != DIAL_ENCODER ==> ticks[i] == 0
                &&& ticks[DIAL_ENCODER as int] == 1 || ticks[DIAL_ENCODER as int] == -1
            },
            DeviceInputView::EncoderStateChange(held) => {
                &&& held.len() == N1_ENCODER_COUNT
                &&& forall|i: int| 0 <= i < held.len() && i != DIAL_ENCODER ==> !held[i]
                &&& held[DIAL_ENCODER as int] == (input_state != 0)
            },
        },
{
}

} // verus!
