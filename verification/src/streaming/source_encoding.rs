//! Source encodings and their detection from a Byte Order Mark (BOM).
use vstd::prelude::*;

verus! {

/// The encodings of a script.
#[derive(Debug, Copy, Clone, PartialEq, Eq, Structural)]
pub enum Encoding {
    Utf8,
    Utf16,
    Latin1,
    OneByte,
    TwoByte,
    BomUtf8,
    BomUtf16Be,
    BomUtf16Le,
}

/// The encoding named by the Byte Order Mark that `data` starts with, UTF-8 by default.
pub open spec fn encoding_of(data: Seq<u8>) -> Encoding {
    if data.len() >= 3 && data[0] == 0xEF && data[1] == 0xBB && data[2] == 0xBF {
        Encoding::BomUtf8
    } else if data.len() >= 2 && data[0] == 0xFF && data[1] == 0xFE {
        Encoding::BomUtf16Le
    } else if data.len() >= 2 && data[0] == 0xFE && data[1] == 0xFF {
        Encoding::BomUtf16Be
    } else {
        Encoding::Utf8
    }
}

/// Detects the encoding of a script based on Byte Order Marks (BOM).
pub fn detect_encoding(data: &[u8]) -> (r: Encoding)
    ensures r == encoding_of(data@),
{
    if data.len() >= 3 && data[0] == 0xEF && data[1] == 0xBB && data[2] == 0xBF {
        return Encoding::BomUtf8;
    }
    if data.len() >= 2 {
        if data[0] == 0xFF && data[1] == 0xFE {
            return Encoding::BomUtf16Le;
        }
        if data[0] == 0xFE && data[1] == 0xFF {
            return Encoding::BomUtf16Be;
        }
    }
    Encoding::Utf8
}

} // verus!
