use vstd::prelude::*;

verus! {

/// The two ways in which loading a configuration fails.
#[derive(Debug, Clone, Copy, PartialEq, Eq, Structural)]
pub enum MessageType {
    Open,
    ReadJSON,
}

impl MessageType {
    pub open spec fn spec_description(self) -> Seq<char> {
        match self {
            MessageType::Open => "Failed to open file"@,
            MessageType::ReadJSON => "Failed to parse json"@,
        }
    }

    /// The fixed text that names the failure.
    pub fn description(&self) -> (r: String)
        ensures
            r@ == self.spec_description(),
    {
        match self {
            MessageType::Open => String::from_str("Failed to open file"),
            MessageType::ReadJSON => String::from_str("Failed to parse json"),
        }
    }
}

/// A failure to load a configuration: its kind, and the diagnostic of the
/// system or the parser.
#[derive(Debug, Clone, PartialEq)]
pub struct ConfigError {
    pub err_type: MessageType,
    pub err_message: String,
}

pub ghost struct ConfigErrorView {
    pub kind: MessageType,
    pub message: Seq<char>,
}

impl View for ConfigError {
    type V = ConfigErrorView;

    open spec fn view(&self) -> ConfigErrorView {
        ConfigErrorView { kind: self.err_type, message: self.err_message@ }
    }
}

impl ConfigError {
    pub open spec fn spec_text(self) -> Seq<char> {
        self.err_type.spec_description() + ": "@ + self.err_message@
    }

    /// The one-line report: `<kind description>: <message>`.
    pub fn to_string(&self) -> (r: String)
        ensures
            r@ == self.spec_text(),
    {
        let mut text = self.err_type.description();
        text.append(": ");
        text.append(self.err_message.as_str());
        text
    }
}

} // verus!
