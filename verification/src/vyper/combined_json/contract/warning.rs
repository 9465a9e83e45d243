//! The `vyper --combined-json` contract warning.

use vstd::prelude::*;

use crate::text::decimal_text;
use crate::text::push_decimal;
use crate::text::chars_of;
use crate::text::string_of;

verus! {

/// The contract warning.
#[derive(Debug)]
pub struct Warning {
    /// The file path.
    pub file: String,
    /// The source code line.
    pub line: usize,
    /// The source code column.
    pub column: usize,
    /// The message text.
    pub message: String,
}

/// The contents of a warning.
pub struct WarningView {
    /// The file path.
    pub file: Seq<char>,
    /// The source code line.
    pub line: usize,
    /// The source code column.
    pub column: usize,
    /// The message text.
    pub message: Seq<char>,
}

impl View for Warning {
    type V = WarningView;

    open spec fn view(&self) -> WarningView {
        WarningView { file: self.file@, line: self.line, column: self.column, message: self.message@ }
    }
}

impl WarningView {
    /// The text a warning is shown as: the message, then an arrow to the
    /// place in the source code, on a line of its own.
    pub open spec fn text(self) -> Seq<char> {
        self.message + "\n ---> "@ + self.file + ":"@ + decimal_text(self.line as nat) + ":"@
            + decimal_text(self.column as nat) + "\n"@
    }
}

impl Warning {
    /// A shortcut constructor.
    pub fn new(file: String, line: usize, column: usize, message: String) -> (r: Self)
        ensures
            r@ == (WarningView { file: file@, line, column, message: message@ }),
    {
        Self { file, line, column, message }
    }

    /// The text the warning is shown as.
    pub fn to_string(&self) -> (r: String)
        ensures
            r@ == self@.text(),
    {
        let mut text: Vec<char> = chars_of(self.message.as_str());
        let arrow = chars_of("\n ---> ");
        let file = chars_of(self.file.as_str());
        let colon = chars_of(":");
        let newline = chars_of("\n");
        text.extend_from_slice(arrow.as_slice());
        text.extend_from_slice(file.as_slice());
        text.extend_from_slice(colon.as_slice());
        push_decimal(self.line as u64, &mut text);
        text.extend_from_slice(colon.as_slice());
        push_decimal(self.column as u64, &mut text);
        text.extend_from_slice(newline.as_slice());
        string_of(text.as_slice())
    }
}

} // verus!
