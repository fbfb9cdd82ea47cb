use vstd::prelude::*;

verus! {

/// Why a slider's range, value or step was refused.
#[derive(Clone, Copy, Debug, PartialEq, Eq, Structural, Hash)]
pub enum SliderError {
    InvalidRange,
    InvalidValue,
    InvalidStep,
}

/// What each refusal says.
pub open spec fn slider_error_text(error: SliderError) -> Seq<char> {
    match error {
        SliderError::InvalidRange => "slider range must be finite and increasing"@,
        SliderError::InvalidValue => "slider value must be finite"@,
        SliderError::InvalidStep => "slider step must be finite and positive"@,
    }
}

impl SliderError {
    pub fn message(&self) -> (text: &'static str)
        ensures
            text@ == slider_error_text(*self),
    {
        match self {
            SliderError::InvalidRange => "slider range must be finite and increasing",
            SliderError::InvalidValue => "slider value must be finite",
            SliderError::InvalidStep => "slider step must be finite and positive",
        }
    }
}

} // verus!
