use vstd::prelude::*;

verus! {

/// Why a request was refused.  Every refusal is an invalid-argument error
/// whose text is [`RequestError::message`].
#[derive(Debug)]
pub enum RequestError {
    /// A widget request without a widget kind.
    MissingWidgetType,
    /// A widget request without a colour.
    MissingColor,
    /// The image of an image widget could not be loaded; the text says why.
    ImageLoad { message: String },
    /// No slide has the requested number.
    SlideNotFound,
}

/// The text that goes with refusal `e`.
pub open spec fn spec_error_message(e: RequestError) -> Seq<char> {
    match e {
        RequestError::MissingWidgetType => "Missing Widget Type"@,
        RequestError::MissingColor => "Missing Color"@,
        RequestError::ImageLoad { message } => message@,
        RequestError::SlideNotFound => "Could not find slide"@,
    }
}

impl RequestError {
    /// The text sent back with this refusal.
    pub fn message(&self) -> (res: String)
        ensures
            res@ == spec_error_message(*self),
    {
        match self {
            RequestError::MissingWidgetType => "Missing Widget Type".to_owned(),
            RequestError::MissingColor => "Missing Color".to_owned(),
            RequestError::ImageLoad { message } => message.clone(),
            RequestError::SlideNotFound => "Could not find slide".to_owned(),
        }
    }
}

} // verus!
