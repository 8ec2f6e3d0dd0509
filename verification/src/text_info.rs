use vstd::prelude::*;
use vstd::string::StrSliceExecFns;
use vstd::string::StringSliceAdditionalSpecFns;
use vstd::utf8::encode_utf8;
use vstd::utf8::is_continuation_byte;

verus! {

/// A 1-based line and column pair, as shown to a human reader.
#[derive(Clone, Copy, Debug, PartialEq, Eq, Structural)]
pub struct LineAndColumnDisplay {
    pub line_number: u64,
    pub column_number: u64,
}

/// Number of newline bytes among the first `end` bytes of `bytes`.
pub open spec fn newline_count(bytes: Seq<u8>, end: int) -> int
    decreases end,
{
    if end <= 0 {
        0
    } else {
        newline_count(bytes, end - 1) + if bytes[end - 1] == 10u8 {
            1int
        } else {
            0int
        }
    }
}

/// Index of the first byte of the line that position `off` falls on: the
/// index just past the last newline byte before `off`.
pub open spec fn line_start(bytes: Seq<u8>, off: int) -> int
    decreases off,
{
    if off <= 0 {
        0
    } else if bytes[off - 1] == 10u8 {
        off
    } else {
        line_start(bytes, off - 1)
    }
}

/// Number of characters encoded in `bytes` between byte positions `start`
/// and `end`: the count of bytes there that do not continue an earlier
/// character's encoding.
pub open spec fn char_count(bytes: Seq<u8>, start: int, end: int) -> int
    decreases end - start,
{
    if end <= start {
        0
    } else {
        char_count(bytes, start, end - 1) + if is_continuation_byte(bytes[end - 1]) {
            0int
        } else {
            1int
        }
    }
}

/// The byte offset actually used for a display position: an offset past the
/// end of the text is treated as the end of the text.
pub open spec fn clamped_offset(bytes: Seq<u8>, byte_index: u32) -> int {
    if byte_index <= bytes.len() {
        byte_index as int
    } else {
        bytes.len() as int
    }
}

/// The source text of one parse request, with position lookups over it.
#[derive(Debug)]
pub struct SourceTextInfo {
    text: String,
}

impl View for SourceTextInfo {
    type V = Seq<char>;

    closed spec fn view(&self) -> Seq<char> {
        self.text@
    }
}

impl Clone for SourceTextInfo {
    fn clone(&self) -> (r: Self)
        ensures
            r == *self,
    {
        SourceTextInfo { text: self.text.clone() }
    }
}

impl SourceTextInfo {
    /// Wraps a source text string.
    pub fn from_string(text: String) -> (r: Self)
        ensures
            r@ == text@,
    {
        SourceTextInfo { text }
    }

    /// The underlying source text.
    pub fn text_str(&self) -> (r: &str)
        ensures
            r@ == self@,
    {
        self.text.as_str()
    }

    /// Converts a byte offset into the text to a 1-based line number and a
    /// 1-based column number, counting columns in characters. An offset past
    /// the end of the text is treated as the end of the text.
    pub fn line_and_column_display(&self, byte_index: u32) -> (r: LineAndColumnDisplay)
        ensures
            ({
                let bytes = encode_utf8(self@);
                let off = clamped_offset(bytes, byte_index);
                r.line_number == 1 + newline_count(bytes, off) && r.column_number == 1
                    + char_count(bytes, line_start(bytes, off), off)
            }),
    {
        let bytes = self.text.as_str().as_bytes_vec();
        let n = bytes.len();
        let mut off: usize = byte_index as usize;
        if off > n {
            off = n;
        }
        assert(off as int == clamped_offset(bytes@, byte_index));
        let mut i: usize = 0;
        let mut nl: u64 = 0;
        let mut start: usize = 0;
        while i < off
            invariant
                i <= off,
                off <= n,
                n == bytes@.len(),
                bytes@ == encode_utf8(self@),
                off <= u32::MAX,
                nl <= i,
                start <= i,
                nl == newline_count(bytes@, i as int),
                start == line_start(bytes@, i as int),
            decreases off - i,
        {
            if bytes[i] == 10u8 {
                nl = nl + 1;
                start = i + 1;
            }
            i = i + 1;
        }
        let mut j: usize = start;
        let mut chars: u64 = 0;
        while j < off
            invariant
                start <= j <= off,
                off <= n,
                n == bytes@.len(),
                bytes@ == encode_utf8(self@),
                off <= u32::MAX,
                chars <= j,
                chars == char_count(bytes@, start as int, j as int),
            decreases off - j,
        {
            let b = bytes[j];
            if !(0x80u8 <= b && b <= 0xbfu8) {
                chars = chars + 1;
            }
            j = j + 1;
        }
        LineAndColumnDisplay { line_number: nl + 1, column_number: chars + 1 }
    }
}

} // verus!
