//! Camera addresses: which source a URI names.
//!
//! `http://...` names an HTTP stream, `uvc://<index>` a local camera by its
//! index, and anything that begins with `COM` a serial port.

use vstd::prelude::*;
use vstd::string::*;
use crate::camera_sources::http_camera_source::HttpCameraSource;
use crate::camera_sources::serial_camera_source::SerialCameraSource;
use crate::camera_sources::uvc_camera_source::UvcCameraSource;
use crate::text::{has_prefix, starts_with};

verus! {

/// A source of camera frames, by its kind.
#[derive(Debug)]
pub enum CameraSourceKind {
    Http(HttpCameraSource),
    Uvc(UvcCameraSource),
    Serial(SerialCameraSource),
}

/// The value of a decimal digit.
pub open spec fn digit_value(c: char) -> Option<int> {
    if '0' <= c <= '9' {
        Some(c as int - '0' as int)
    } else {
        None
    }
}

/// The number that the digits `text` write, in base ten; `None` where a
/// character is not a digit.
pub open spec fn decimal_value(text: Seq<char>) -> Option<int>
    decreases text.len(),
{
    if text.len() == 0 {
        Some(0)
    } else {
        match (decimal_value(text.drop_last()), digit_value(text.last())) {
            (Some(front), Some(digit)) => Some(front * 10 + digit),
            _ => None,
        }
    }
}

/// What is left of `text` without the `+` that may stand at its front.
pub open spec fn without_sign(text: Seq<char>) -> Seq<char> {
    if text.len() > 0 && text[0] == '+' {
        text.subrange(1, text.len() as int)
    } else {
        text
    }
}

/// The index that `text` writes: one or more decimal digits, with or
/// without a `+` before them, that give a number which 32 bits hold.
pub open spec fn index_value(text: Seq<char>) -> Option<u32> {
    let digits = without_sign(text);
    if digits.len() == 0 {
        None
    } else {
        match decimal_value(digits) {
            Some(value) if value <= u32::MAX => Some(value as u32),
            _ => None,
        }
    }
}

proof fn lemma_decimal_value_grows(text: Seq<char>, n: int)
    requires
        0 <= n <= text.len(),
        decimal_value(text.subrange(0, n)).is_none() || decimal_value(text.subrange(0, n)).unwrap()
            > u32::MAX,
    ensures
        decimal_value(text).is_none() || decimal_value(text).unwrap() > u32::MAX,
    decreases text.len() - n,
{
    if n < text.len() {
        assert(text.subrange(0, n + 1).drop_last() =~= text.subrange(0, n));
        lemma_decimal_value_grows(text, n + 1);
    } else {
        assert(text.subrange(0, n) =~= text);
    }
}

/// Reads the index of a local camera.
pub fn parse_index(text: &str) -> (index: Option<u32>)
    ensures
        index == index_value(text@),
{
    let total = text.unicode_len();
    let start: usize = if total > 0 && text.get_char(0) == '+' {
        1
    } else {
        0
    };
    let ghost digits = text@.subrange(start as int, total as int);
    assert(digits =~= without_sign(text@));
    if start == total {
        return None;
    }
    let mut value: u64 = 0;
    let mut i: usize = start;
    assert(digits.subrange(0, 0) =~= Seq::<char>::empty());
    while i < total
        invariant
            start <= i <= total,
            total == text@.len(),
            digits == text@.subrange(start as int, total as int),
            digits == without_sign(text@),
            start < total,
            decimal_value(digits.subrange(0, i - start)) == Some(value as int),
            value <= u32::MAX,
        decreases total - i,
    {
        let c = text.get_char(i);
        let ghost before = digits.subrange(0, i - start);
        let ghost upto = digits.subrange(0, i - start + 1);
        proof {
            assert(upto.drop_last() =~= before);
            assert(upto.last() == c);
        }
        if c < '0' || c > '9' {
            proof {
                assert(decimal_value(upto).is_none());
                lemma_decimal_value_grows(digits, i - start + 1);
            }
            return None;
        }
        let digit = (c as u32 - '0' as u32) as u64;
        let next = value * 10 + digit;
        proof {
            assert(decimal_value(upto) == Some(next as int));
        }
        if next > u32::MAX as u64 {
            proof {
                lemma_decimal_value_grows(digits, i - start + 1);
            }
            return None;
        }
        value = next;
        i += 1;
    }
    proof {
        assert(digits.subrange(0, total - start) =~= digits);
    }
    Some(value as u32)
}

/// The source that `uri` names.
pub open spec fn source_named(uri: Seq<char>) -> Option<CameraSourceNamed> {
    if has_prefix(uri, "COM"@) {
        Some(CameraSourceNamed::Serial)
    } else if has_prefix(uri, "uvc://"@) {
        match index_value(uri.subrange(6, uri.len() as int)) {
            Some(index) => Some(CameraSourceNamed::Uvc(index)),
            None => None,
        }
    } else if has_prefix(uri, "http://"@) {
        Some(CameraSourceNamed::Http(uri))
    } else {
        None
    }
}

/// What a URI names, as plain values.
pub enum CameraSourceNamed {
    Http(Seq<char>),
    Uvc(u32),
    Serial,
}

impl CameraSourceKind {
    /// The source as plain values.
    pub open spec fn named(self) -> CameraSourceNamed {
        match self {
            CameraSourceKind::Http(source) => CameraSourceNamed::Http(source.spec_url()),
            CameraSourceKind::Uvc(source) => CameraSourceNamed::Uvc(source.spec_index()),
            CameraSourceKind::Serial(_) => CameraSourceNamed::Serial,
        }
    }
}

/// The source that `uri` names. `None` where it names none: the scheme is
/// unknown, or what follows `uvc://` is not an index.
pub fn camera_source_from_uri(uri: String) -> (source: Option<CameraSourceKind>)
    ensures
        match source {
            Some(kind) => source_named(uri@) == Some(kind.named()),
            None => source_named(uri@).is_none(),
        },
{
    proof {
        reveal_strlit("uvc://");
    }
    if starts_with(uri.as_str(), "COM") {
        return Some(CameraSourceKind::Serial(SerialCameraSource {  }));
    }
    if starts_with(uri.as_str(), "uvc://") {
        let total = uri.as_str().unicode_len();
        let rest = uri.as_str().substring_char(6, total);
        return match parse_index(rest) {
            Some(index) => Some(CameraSourceKind::Uvc(UvcCameraSource::new(index))),
            None => None,
        };
    }
    if starts_with(uri.as_str(), "http://") {
        return Some(CameraSourceKind::Http(HttpCameraSource::new(uri)));
    }
    None
}

} // verus!
