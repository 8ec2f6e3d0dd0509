use vstd::prelude::*;
use vstd::utf8::encode_utf8;

use crate::text_info::clamped_offset;
use crate::text_info::char_count;
use crate::text_info::line_start;
use crate::text_info::newline_count;
use crate::text_info::LineAndColumnDisplay;
use crate::text_info::SourceTextInfo;

verus! {

/// One syntax problem: the specifier and text it was found in, its byte span
/// there, and the message the grammar engine produced for it.
#[derive(Debug)]
pub struct Diagnostic {
    pub specifier: String,
    pub lo: u32,
    pub hi: u32,
    pub message: String,
    pub text_info: SourceTextInfo,
}

impl Clone for Diagnostic {
    fn clone(&self) -> (r: Self)
        ensures
            r == *self,
    {
        Diagnostic {
            specifier: self.specifier.clone(),
            lo: self.lo,
            hi: self.hi,
            message: self.message.clone(),
            text_info: self.text_info.clone(),
        }
    }
}

impl Diagnostic {
    /// The engine's message for this problem, passed through unmodified.
    pub fn message(&self) -> (r: &str)
        ensures
            r@ == self.message@,
    {
        self.message.as_str()
    }

    /// The 1-based line and column of the start of this diagnostic's span,
    /// computed by scanning the source text for newline and character
    /// boundaries before the span's byte offset.
    pub fn display_position(&self) -> (r: LineAndColumnDisplay)
        ensures
            ({
                let bytes = encode_utf8(self.text_info@);
                let off = clamped_offset(bytes, self.lo);
                r.line_number == 1 + newline_count(bytes, off) && r.column_number == 1
                    + char_count(bytes, line_start(bytes, off), off)
            }),
    {
        self.text_info.line_and_column_display(self.lo)
    }
}

} // verus!
