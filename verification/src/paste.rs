//! Pasting into the focused page: an image goes in as base64 PNG through
//! three strategies in turn (a synthetic paste event on the focused element,
//! a document-level paste event, a synthetic drag and drop); text goes in
//! through `insertText`. Reading the clipboard and encoding the PNG belong
//! to the application.
use base64::Engine;
use vstd::prelude::*;
use crate::text::{chars_of, owned, push_str, replace_all, replace_chars, string_of_all};

verus! {

/// The image paste script; `__B64__` stands for the PNG's base64 text (the
/// base64 alphabet holds no character special inside a JS string).
pub const PASTE_IMAGE_JS: &'static str = r##"
(function() {
    const base64 = '__B64__';
    const binary = atob(base64);
    const bytes = new Uint8Array(binary.length);
    for (let i = 0; i < binary.length; i++) bytes[i] = binary.charCodeAt(i);
    const blob = new Blob([bytes], { type: 'image/png' });
    const file = new File([blob], 'screenshot.png', { type: 'image/png', lastModified: Date.now() });

    // Strategy 1: fire paste event on active element with clipboardData
    const active = document.activeElement || document.body;
    const dt = new DataTransfer();
    dt.items.add(file);

    const pasteEvent = new Event('paste', { bubbles: true, cancelable: true });
    Object.defineProperty(pasteEvent, 'clipboardData', { value: dt, writable: false });
    active.dispatchEvent(pasteEvent);

    // Strategy 2: also try on document
    document.dispatchEvent(new Event('paste', { bubbles: true }));

    // Strategy 3: simulate drop on active element
    const dropDt = new DataTransfer();
    dropDt.items.add(file);
    const rect = active.getBoundingClientRect();
    const cx = rect.left + rect.width / 2;
    const cy = rect.top + rect.height / 2;
    ['dragenter','dragover','drop'].forEach(type => {
        const ev = new DragEvent(type, {
            bubbles: true, cancelable: true, clientX: cx, clientY: cy, dataTransfer: dropDt
        });
        active.dispatchEvent(ev);
    });
    return 'ok';
})();
"##;

/// Placeholder for the base64 PNG in `PASTE_IMAGE_JS`.
pub const B64_PLACEHOLDER: &'static str = "__B64__";

/// The page's own paste, when the clipboard holds neither image nor text.
pub const PASTE_FALLBACK_EVAL: &'static str = "document.execCommand('paste');";

/// Character `n` (0..64) of the standard base64 alphabet.
pub open spec fn b64_digit(n: int) -> char {
    if n < 26 {
        (65 + n) as char
    } else if n < 52 {
        (97 + n - 26) as char
    } else if n < 62 {
        (48 + n - 52) as char
    } else if n == 62 {
        '+'
    } else {
        '/'
    }
}

/// Standard base64 with `=` padding (RFC 4648 §4): every three bytes become
/// four characters, a final one or two bytes become two or three characters
/// and padding.
pub open spec fn base64_standard(b: Seq<u8>) -> Seq<char>
    decreases b.len(),
{
    if b.len() == 0 {
        Seq::empty()
    } else if b.len() == 1 {
        seq![b64_digit((b[0] / 4) as int), b64_digit((b[0] % 4) * 16), '=', '=']
    } else if b.len() == 2 {
        seq![
            b64_digit((b[0] / 4) as int),
            b64_digit((b[0] % 4) * 16 + b[1] / 16),
            b64_digit((b[1] % 16) * 4),
            '=',
        ]
    } else {
        seq![
            b64_digit((b[0] / 4) as int),
            b64_digit((b[0] % 4) * 16 + b[1] / 16),
            b64_digit((b[1] % 16) * 4 + b[2] / 64),
            b64_digit((b[2] % 64) as int),
        ] + base64_standard(b.skip(3))
    }
}

/// `base64::engine::general_purpose::STANDARD.encode(bytes)`: standard
/// alphabet, padded.
#[verifier::external_body]
fn encode_base64(bytes: &Vec<u8>) -> (s: String)
    requires
        bytes@.len() <= usize::MAX / 2,
    ensures
        s@ == base64_standard(bytes@),
{
    base64::engine::general_purpose::STANDARD.encode(bytes)
}

/// The image paste script for base64 text `b64`.
pub fn image_paste_script_b64(b64: &str) -> (js: String)
    ensures
        js@ == replace_all(PASTE_IMAGE_JS@, B64_PLACEHOLDER@, b64@),
{
    let v = chars_of(PASTE_IMAGE_JS);
    let p = chars_of(B64_PLACEHOLDER);
    let r = chars_of(b64);
    proof {
        reveal_strlit("__B64__");
    }
    let out = replace_chars(&v, &p, &r);
    string_of_all(&out)
}

/// The image paste script for the PNG bytes `png`.
pub fn image_paste_script(png: &Vec<u8>) -> (js: String)
    requires
        png@.len() <= usize::MAX / 2,
    ensures
        js@ == replace_all(PASTE_IMAGE_JS@, B64_PLACEHOLDER@, base64_standard(png@)),
{
    let b64 = encode_base64(png);
    image_paste_script_b64(b64.as_str())
}

/// A lowercase hex digit.
pub open spec fn hex_lower(n: int) -> char {
    if n < 10 {
        (48 + n) as char
    } else {
        (97 + n - 10) as char
    }
}

/// JSON's escape of one character, as serde_json writes it: quote and
/// backslash escaped, the short escapes for backspace, tab, line feed, form
/// feed and carriage return, `\u00XX` for other control characters, any
/// other character as itself.
pub open spec fn json_escape(c: char) -> Seq<char> {
    if c == '"' {
        seq!['\\', '"']
    } else if c == '\\' {
        seq!['\\', '\\']
    } else if c == '\u{8}' {
        seq!['\\', 'b']
    } else if c == '\t' {
        seq!['\\', 't']
    } else if c == '\n' {
        seq!['\\', 'n']
    } else if c == '\u{c}' {
        seq!['\\', 'f']
    } else if c == '\r' {
        seq!['\\', 'r']
    } else if (c as u32) < 0x20 {
        seq!['\\', 'u', '0', '0', hex_lower((c as u32) as int / 16), hex_lower((c as u32) as int % 16)]
    } else {
        seq![c]
    }
}

/// The escaped characters of `s`.
pub open spec fn json_escaped(s: Seq<char>) -> Seq<char>
    decreases s.len(),
{
    if s.len() == 0 {
        Seq::empty()
    } else {
        json_escaped(s.drop_last()) + json_escape(s.last())
    }
}

/// A JSON string literal holding `s`.
pub open spec fn json_quote(s: Seq<char>) -> Seq<char> {
    seq!['"'] + json_escaped(s) + seq!['"']
}

/// `serde_json::to_string(text)`: the JSON string literal of `text`. For a
/// `str` the serializer writes the quoted, escaped text into a `Vec<u8>`,
/// whose `io::Write` never fails, so the call always succeeds; its `Result`
/// is carried here as an `Option`.
#[verifier::external_body]
fn json_string_literal(text: &str) -> (r: Option<String>)
    ensures
        r is Some,
        r matches Some(s) ==> s@ == json_quote(text@),
{
    serde_json::to_string(text).ok()
}

/// The script inserting text whose JSON literal is `json` at the caret.
pub fn insert_text_script(json: &str) -> (js: String)
    ensures
        js@ == "document.execCommand('insertText', false, "@ + json@ + ");"@,
{
    let mut out = owned("document.execCommand('insertText', false, ");
    push_str(&mut out, json);
    push_str(&mut out, ");");
    out
}

/// The script inserting `text` at the caret, with `text` written as a JSON
/// string literal. Serializing a string never fails, so there always is one.
pub fn text_paste_script(text: &str) -> (js: Option<String>)
    ensures
        js is Some,
        js matches Some(s) ==> s@ == "document.execCommand('insertText', false, "@ + json_quote(text@) + ");"@,
{
    match json_string_literal(text) {
        Some(j) => Some(insert_text_script(j.as_str())),
        None => None,
    }
}

} // verus!
