//! Encoding and decoding of text in data sets, according to the specific
//! character set that the data set declares.
use encoding::all::{GB18030, ISO_8859_1, ISO_8859_2, UTF_8};
use encoding::{DecoderTrap, EncoderTrap, Encoding};
use vstd::slice::slice_subrange;
use vstd::prelude::*;
use vstd::string::StringSliceAdditionalSpecFns;

verus! {

/// An optional machine integer as a mathematical one.
pub open spec fn opt_int(o: Option<isize>) -> Option<int> {
    match o {
        Some(u) => Some(u as int),
        None => None,
    }
}

/// What a latin-1 decoder yields: each byte stands for the code point of the same value.
pub open spec fn latin1_chars(b: Seq<u8>) -> Seq<char> {
    Seq::new(b.len(), |i: int| b[i] as char)
}

/// Whether every character has a code point below 256.
pub open spec fn is_latin1(s: Seq<char>) -> bool {
    forall|i: int| 0 <= i < s.len() ==> (s[i] as u32) < 256
}

/// What a strict latin-1 encoder yields: one byte per character, or nothing
/// when a character lies outside the repertoire.
pub open spec fn latin1_bytes(s: Seq<char>) -> Option<Seq<u8>> {
    if is_latin1(s) {
        Some(Seq::new(s.len(), |i: int| (s[i] as u32) as u8))
    } else {
        None
    }
}

/// The escape written for a byte that cannot be decoded: a backslash and the
/// byte's three octal digits, most significant first.
pub open spec fn octal_escape(c: u8) -> Seq<char> {
    seq!['\\', ((c / 64) + 48) as u8 as char, ((c / 8) % 8 + 48) as u8 as char, (c % 8 + 48) as u8 as char]
}

/// What a fresh ISO 8859-2 decoder, fed the bytes, yields: the text before
/// the first undecodable sequence, where that sequence starts, the end of the
/// sequence when the feed met one, and else the end of the sequence that
/// finishing the decoder reported, counted back from the end of the input.
pub uninterp spec fn latin2_fed(b: Seq<u8>) -> (Seq<char>, int, Option<int>, Option<int>);

/// Strict ISO 8859-2 encoding of the characters; `None` when one is outside the repertoire.
pub uninterp spec fn latin2_encoded(s: Seq<char>) -> Option<Seq<u8>>;

/// What a fresh UTF-8 decoder, fed the bytes and finished, yields (as for `latin2_fed`).
pub uninterp spec fn utf8_fed(b: Seq<u8>) -> (Seq<char>, int, Option<int>, Option<int>);

/// What a fresh GB 18030 decoder, fed the bytes and finished, yields (as for `latin2_fed`).
pub uninterp spec fn gb18030_fed(b: Seq<u8>) -> (Seq<char>, int, Option<int>, Option<int>);

/// Strict GB 18030 encoding of the characters; `None` when one cannot be encoded.
pub uninterp spec fn gb18030_encoded(s: Seq<char>) -> Option<Seq<u8>>;

/// The string with its trailing white space removed.
pub uninterp spec fn trim_end_of(s: Seq<char>) -> Seq<char>;

/// Relies on `String::push`: appends one character.
#[verifier::external_body]
pub(crate) fn push_char(s: &mut String, c: char)
    ensures
        final(s)@ == old(s)@.push(c),
{
    s.push(c)
}

/// Relies on `str::trim_end`: a prefix of the input, without its trailing white space.
#[verifier::external_body]
fn trim_end(s: &str) -> (r: &str)
    ensures
        r@ == trim_end_of(s@),
        r@.len() <= s@.len(),
        r@ == s@.subrange(0, r@.len() as int),
{
    s.trim_end()
}

/// Relies on `encoding`'s ISO 8859-2 `RawDecoder`: `raw_feed`, then
/// `raw_finish` when the feed met no problem.
#[verifier::external_body]
fn latin2_feed(b: &[u8]) -> (r: (String, usize, Option<isize>, Option<isize>))
    ensures
        (r.0@, r.1 as int, opt_int(r.2), opt_int(r.3)) == latin2_fed(b@),
{
    let mut d = ISO_8859_2.raw_decoder();
    let mut s = String::new();
    let (off, err) = d.raw_feed(b, &mut s);
    match err {
        Some(e) => (s, off, Some(e.upto), None),
        None => {
            let fin = d.raw_finish(&mut s);
            (s, off, None, fin.map(|e| e.upto))
        }
    }
}

/// Relies on `encoding`'s UTF-8 `RawDecoder`: `raw_feed`, then `raw_finish`
/// when the feed met no problem.
#[verifier::external_body]
fn utf8_feed(b: &[u8]) -> (r: (String, usize, Option<isize>, Option<isize>))
    ensures
        (r.0@, r.1 as int, opt_int(r.2), opt_int(r.3)) == utf8_fed(b@),
{
    let mut d = UTF_8.raw_decoder();
    let mut s = String::new();
    let (off, err) = d.raw_feed(b, &mut s);
    match err {
        Some(e) => (s, off, Some(e.upto), None),
        None => {
            let fin = d.raw_finish(&mut s);
            (s, off, None, fin.map(|e| e.upto))
        }
    }
}

/// Relies on `encoding`'s GB 18030 `RawDecoder`: `raw_feed`, then
/// `raw_finish` when the feed met no problem.
#[verifier::external_body]
fn gb18030_feed(b: &[u8]) -> (r: (String, usize, Option<isize>, Option<isize>))
    ensures
        (r.0@, r.1 as int, opt_int(r.2), opt_int(r.3)) == gb18030_fed(b@),
{
    let mut d = GB18030.raw_decoder();
    let mut s = String::new();
    let (off, err) = d.raw_feed(b, &mut s);
    match err {
        Some(e) => (s, off, Some(e.upto), None),
        None => {
            let fin = d.raw_finish(&mut s);
            (s, off, None, fin.map(|e| e.upto))
        }
    }
}

/// Relies on `encoding`'s strict ISO 8859-1 decoder: every byte maps to the
/// code point of the same value.
#[verifier::external_body]
fn latin1_decode_strict(b: &[u8]) -> (r: Result<String, String>)
    ensures
        r is Ok && r->Ok_0@ == latin1_chars(b@),
{
    ISO_8859_1.decode(b, DecoderTrap::Strict).map_err(|e| e.into_owned())
}

/// Relies on `encoding`'s strict ISO 8859-1 encoder: one byte per character
/// below 256, an error on any other character.
#[verifier::external_body]
fn latin1_encode(s: &str) -> (r: Result<Vec<u8>, String>)
    ensures
        match latin1_bytes(s@) {
            Some(v) => r is Ok && r->Ok_0@ == v,
            None => r is Err,
        },
{
    ISO_8859_1.encode(s, EncoderTrap::Strict).map_err(|e| e.into_owned())
}

/// Relies on `encoding`'s strict ISO 8859-2 encoder.
#[verifier::external_body]
fn latin2_encode(s: &str) -> (r: Result<Vec<u8>, String>)
    ensures
        match latin2_encoded(s@) {
            Some(v) => r is Ok && r->Ok_0@ == v,
            None => r is Err,
        },
{
    ISO_8859_2.encode(s, EncoderTrap::Strict).map_err(|e| e.into_owned())
}

/// Relies on `encoding`'s UTF-8 encoder: it writes the string's own bytes.
#[verifier::external_body]
fn utf8_encode(s: &str) -> (r: Result<Vec<u8>, String>)
    ensures
        r is Ok && r->Ok_0@ == s.spec_bytes(),
{
    UTF_8.encode(s, EncoderTrap::Strict).map_err(|e| e.into_owned())
}

/// Relies on `encoding`'s strict GB 18030 encoder.
#[verifier::external_body]
fn gb18030_encode(s: &str) -> (r: Result<Vec<u8>, String>)
    ensures
        match gb18030_encoded(s@) {
            Some(v) => r is Ok && r->Ok_0@ == v,
            None => r is Err,
        },
{
    GB18030.encode(s, EncoderTrap::Strict).map_err(|e| e.into_owned())
}

/// Handles a byte sequence that a decoder could not read: writes the escape
/// of its first byte and lets decoding go on.
pub fn decode_text_trap(input: &[u8], output: &mut String) -> (r: bool)
    ensures
        r,
        input@.len() > 0 ==> final(output)@ == old(output)@ + octal_escape(input@[0]),
        input@.len() == 0 ==> final(output)@ == old(output)@,
{
    if input.len() == 0 {
        return true;
    }
    let c = input[0];
    let o0 = c % 8;
    let o1 = (c / 8) % 8;
    let o2 = c / 64;
    push_char(output, '\\');
    push_char(output, (o2 + 48) as char);
    push_char(output, (o1 + 48) as char);
    push_char(output, (o0 + 48) as char);
    proof {
        assert(final(output)@ =~= old(output)@ + octal_escape(c));
    }
    true
}

/// The character sets for which text can be decoded and encoded.
#[derive(Debug, Copy, Clone, PartialEq, Eq, Structural, PartialOrd, Ord, Hash)]
#[non_exhaustive]
pub enum SpecificCharacterSet {
    /// ISO-IR 6: the default character repertoire.
    Default,
    /// ISO-IR 100 (ISO 8859-1): latin alphabet no. 1, Western Europe.
    IsoIr100,
    /// ISO-IR 101 (ISO 8859-2): latin alphabet no. 2, Eastern Europe.
    IsoIr101,
    /// ISO-IR 192: Unicode in the UTF-8 encoding.
    IsoIr192,
    /// GB 18030: simplified Chinese.
    GB18030,
}

impl Default for SpecificCharacterSet {
    fn default() -> (r: Self)
        ensures
            r == SpecificCharacterSet::Default,
    {
        SpecificCharacterSet::Default
    }
}

/// The character set that a Specific Character Set code names, once its
/// trailing white space is gone.
pub open spec fn charset_of_code(code: Seq<char>) -> Option<SpecificCharacterSet> {
    if code == "Default"@ || code == "ISO_IR_6"@ || code == "ISO_IR 6"@ {
        Some(SpecificCharacterSet::Default)
    } else if code == "ISO_IR_100"@ || code == "ISO_IR 100"@ {
        Some(SpecificCharacterSet::IsoIr100)
    } else if code == "ISO_IR_101"@ || code == "ISO_IR 101"@ {
        Some(SpecificCharacterSet::IsoIr101)
    } else if code == "ISO_IR 192"@ {
        Some(SpecificCharacterSet::IsoIr192)
    } else if code == "GB18030"@ {
        Some(SpecificCharacterSet::GB18030)
    } else {
        None
    }
}

/// The defined term that names a character set.
pub open spec fn charset_name(cs: SpecificCharacterSet) -> Seq<char> {
    match cs {
        SpecificCharacterSet::Default => "ISO_IR 6"@,
        SpecificCharacterSet::IsoIr100 => "ISO_IR 100"@,
        SpecificCharacterSet::IsoIr101 => "ISO_IR 101"@,
        SpecificCharacterSet::IsoIr192 => "ISO_IR 192"@,
        SpecificCharacterSet::GB18030 => "GB18030"@,
    }
}

/// What one feed of a fresh decoder for the character set yields.
pub open spec fn fed(cs: SpecificCharacterSet, b: Seq<u8>) -> (Seq<char>, int, Option<int>, Option<int>) {
    match cs {
        SpecificCharacterSet::IsoIr101 => latin2_fed(b),
        SpecificCharacterSet::IsoIr192 => utf8_fed(b),
        SpecificCharacterSet::GB18030 => gb18030_fed(b),
        _ => (latin1_chars(b), b.len() as int, None, None),
    }
}

/// Where decoding resumes after the problem that a feed reports, if any.
pub open spec fn resume_point(len: int, feed_err: Option<int>, finish_err: Option<int>) -> Option<int> {
    match feed_err {
        Some(u) => Some(u),
        None => match finish_err {
            Some(u) => Some(len + u),
            None => None,
        },
    }
}

/// The text that the bytes hold in the character set, each undecodable
/// sequence replaced by the octal escape of its first byte. Decoding stops
/// at a problem that would not move it forward.
pub open spec fn decoded_text(cs: SpecificCharacterSet, b: Seq<u8>) -> Seq<char>
    decreases b.len(),
{
    let (t, off, fe, fi) = fed(cs, b);
    match resume_point(b.len() as int, fe, fi) {
        Some(resume) => if 0 <= off < resume && resume <= b.len() {
            t + octal_escape(b[off]) + decoded_text(cs, b.subrange(resume, b.len() as int))
        } else {
            t
        },
        None => t,
    }
}

/// The bytes that encode the text in the character set, or `None` when a
/// character cannot be encoded in it.
pub open spec fn encoded_text(cs: SpecificCharacterSet, s: Seq<char>) -> Option<Seq<u8>> {
    match cs {
        SpecificCharacterSet::Default => latin1_bytes(s),
        SpecificCharacterSet::IsoIr100 => latin1_bytes(s),
        SpecificCharacterSet::IsoIr101 => latin2_encoded(s),
        SpecificCharacterSet::IsoIr192 => Some(vstd::utf8::encode_utf8(s)),
        SpecificCharacterSet::GB18030 => gb18030_encoded(s),
    }
}

/// One feed of a fresh decoder for the character set.
fn feed(cs: SpecificCharacterSet, b: &[u8]) -> (r: (String, usize, Option<isize>, Option<isize>))
    ensures
        (r.0@, r.1 as int, opt_int(r.2), opt_int(r.3)) == fed(cs, b@),
{
    match cs {
        SpecificCharacterSet::IsoIr101 => latin2_feed(b),
        SpecificCharacterSet::IsoIr192 => utf8_feed(b),
        SpecificCharacterSet::GB18030 => gb18030_feed(b),
        _ => {
            let t = match latin1_decode_strict(b) {
                Ok(t) => t,
                Err(_) => String::new(),
            };
            (t, b.len(), None, None)
        },
    }
}

/// Decodes the bytes in the character set, escaping what cannot be decoded.
fn decode_escaping(cs: SpecificCharacterSet, b: &[u8]) -> (r: String)
    ensures
        r@ == decoded_text(cs, b@),
{
    let mut out = String::new();
    let mut rest: &[u8] = b;
    loop
        invariant
            out@ + decoded_text(cs, rest@) == decoded_text(cs, b@),
        decreases rest@.len(),
    {
        let (t, off, fe, fi) = feed(cs, rest);
        let len = rest.len();
        let resume: Option<i128> = match fe {
            Some(u) => Some(u as i128),
            None => match fi {
                Some(u) => Some(len as i128 + u as i128),
                None => None,
            },
        };
        out.append(t.as_str());
        match resume {
            Some(at) => {
                if (off as i128) < at && at <= len as i128 {
                    let at = at as usize;
                    decode_text_trap(slice_subrange(rest, off, at), &mut out);
                    rest = slice_subrange(rest, at, len);
                } else {
                    return out;
                }
            },
            None => {
                return out;
            },
        }
    }
}

/// Why a text could not be encoded or decoded.
#[derive(Debug, Clone)]
pub struct TextEncodingError {
    pub message: String,
}

/// Encodes the text in the character set.
fn encode_in(cs: SpecificCharacterSet, text: &str) -> (r: Result<Vec<u8>, TextEncodingError>)
    ensures
        match encoded_text(cs, text@) {
            Some(v) => r is Ok && r->Ok_0@ == v,
            None => r is Err,
        },
{
    let e = match cs {
        SpecificCharacterSet::Default => latin1_encode(text),
        SpecificCharacterSet::IsoIr100 => latin1_encode(text),
        SpecificCharacterSet::IsoIr101 => latin2_encode(text),
        SpecificCharacterSet::IsoIr192 => utf8_encode(text),
        SpecificCharacterSet::GB18030 => gb18030_encode(text),
    };
    match e {
        Ok(v) => Ok(v),
        Err(message) => Err(TextEncodingError { message }),
    }
}

/// A holder of encoding and decoding mechanisms for text in data sets, which
/// depend on the specific character set.
pub trait TextCodec {
    /// The character set that this codec reads and writes.
    spec fn character_set(&self) -> SpecificCharacterSet;

    /// The defined term of the character set, usable as the value of a
    /// Specific Character Set element.
    fn name(&self) -> (r: &'static str)
        ensures
            r@ == charset_name(self.character_set()),
    ;

    /// Decodes the bytes as a single string; undecodable sequences are escaped.
    fn decode(&self, text: &[u8]) -> (r: Result<String, TextEncodingError>)
        ensures
            r is Ok,
            r->Ok_0@ == decoded_text(self.character_set(), text@),
    ;

    /// Encodes the string; fails when a character is outside the repertoire.
    fn encode(&self, text: &str) -> (r: Result<Vec<u8>, TextEncodingError>)
        ensures
            match encoded_text(self.character_set(), text@) {
                Some(v) => r is Ok && r->Ok_0@ == v,
                None => r is Err,
            },
    ;
}

/// The codec of the default character set.
#[derive(Debug, Default, Copy, Clone, PartialEq, Eq, Hash)]
pub struct DefaultCharacterSetCodec;

impl TextCodec for DefaultCharacterSetCodec {
    open spec fn character_set(&self) -> SpecificCharacterSet {
        SpecificCharacterSet::Default
    }

    fn name(&self) -> (r: &'static str) {
        proof {
            reveal_strlit("ISO_IR 6");
        }
        "ISO_IR 6"
    }

    fn decode(&self, text: &[u8]) -> (r: Result<String, TextEncodingError>) {
        Ok(decode_escaping(SpecificCharacterSet::Default, text))
    }

    fn encode(&self, text: &str) -> (r: Result<Vec<u8>, TextEncodingError>) {
        encode_in(SpecificCharacterSet::Default, text)
    }
}

/// The codec of the ISO-IR 100 character set.
#[derive(Debug, Default, Copy, Clone, PartialEq, Eq, Hash)]
pub struct IsoIr100CharacterSetCodec;

impl TextCodec for IsoIr100CharacterSetCodec {
    open spec fn character_set(&self) -> SpecificCharacterSet {
        SpecificCharacterSet::IsoIr100
    }

    fn name(&self) -> (r: &'static str) {
        proof {
            reveal_strlit("ISO_IR 100");
        }
        "ISO_IR 100"
    }

    fn decode(&self, text: &[u8]) -> (r: Result<String, TextEncodingError>) {
        Ok(decode_escaping(SpecificCharacterSet::IsoIr100, text))
    }

    fn encode(&self, text: &str) -> (r: Result<Vec<u8>, TextEncodingError>) {
        encode_in(SpecificCharacterSet::IsoIr100, text)
    }
}

/// The codec of the ISO-IR 101 character set.
#[derive(Debug, Default, Copy, Clone, PartialEq, Eq, Hash)]
pub struct IsoIr101CharacterSetCodec;

impl TextCodec for IsoIr101CharacterSetCodec {
    open spec fn character_set(&self) -> SpecificCharacterSet {
        SpecificCharacterSet::IsoIr101
    }

    fn name(&self) -> (r: &'static str) {
        proof {
            reveal_strlit("ISO_IR 101");
        }
        "ISO_IR 101"
    }

    fn decode(&self, text: &[u8]) -> (r: Result<String, TextEncodingError>) {
        Ok(decode_escaping(SpecificCharacterSet::IsoIr101, text))
    }

    fn encode(&self, text: &str) -> (r: Result<Vec<u8>, TextEncodingError>) {
        encode_in(SpecificCharacterSet::IsoIr101, text)
    }
}

/// The codec of the UTF-8 character set.
#[derive(Debug, Default, Copy, Clone, PartialEq, Eq, Hash)]
pub struct Utf8CharacterSetCodec;

impl TextCodec for Utf8CharacterSetCodec {
    open spec fn character_set(&self) -> SpecificCharacterSet {
        SpecificCharacterSet::IsoIr192
    }

    fn name(&self) -> (r: &'static str) {
        proof {
            reveal_strlit("ISO_IR 192");
        }
        "ISO_IR 192"
    }

    fn decode(&self, text: &[u8]) -> (r: Result<String, TextEncodingError>) {
        Ok(decode_escaping(SpecificCharacterSet::IsoIr192, text))
    }

    fn encode(&self, text: &str) -> (r: Result<Vec<u8>, TextEncodingError>) {
        encode_in(SpecificCharacterSet::IsoIr192, text)
    }
}

/// The codec of the GB 18030 character set.
#[derive(Debug, Default, Copy, Clone, PartialEq, Eq, Hash)]
pub struct Gb18030CharacterSetCodec;

impl TextCodec for Gb18030CharacterSetCodec {
    open spec fn character_set(&self) -> SpecificCharacterSet {
        SpecificCharacterSet::GB18030
    }

    fn name(&self) -> (r: &'static str) {
        proof {
            reveal_strlit("GB18030");
        }
        "GB18030"
    }

    fn decode(&self, text: &[u8]) -> (r: Result<String, TextEncodingError>) {
        Ok(decode_escaping(SpecificCharacterSet::GB18030, text))
    }

    fn encode(&self, text: &str) -> (r: Result<Vec<u8>, TextEncodingError>) {
        encode_in(SpecificCharacterSet::GB18030, text)
    }
}

/// A text codec chosen at run time among the supported character sets.
#[derive(Debug, Copy, Clone, PartialEq, Eq)]
pub enum DynamicTextCodec {
    Default(DefaultCharacterSetCodec),
    IsoIr100(IsoIr100CharacterSetCodec),
    IsoIr101(IsoIr101CharacterSetCodec),
    Utf8(Utf8CharacterSetCodec),
    Gb18030(Gb18030CharacterSetCodec),
}

impl TextCodec for DynamicTextCodec {
    open spec fn character_set(&self) -> SpecificCharacterSet {
        match self {
            DynamicTextCodec::Default(_) => SpecificCharacterSet::Default,
            DynamicTextCodec::IsoIr100(_) => SpecificCharacterSet::IsoIr100,
            DynamicTextCodec::IsoIr101(_) => SpecificCharacterSet::IsoIr101,
            DynamicTextCodec::Utf8(_) => SpecificCharacterSet::IsoIr192,
            DynamicTextCodec::Gb18030(_) => SpecificCharacterSet::GB18030,
        }
    }

    fn name(&self) -> (r: &'static str) {
        match self {
            DynamicTextCodec::Default(c) => c.name(),
            DynamicTextCodec::IsoIr100(c) => c.name(),
            DynamicTextCodec::IsoIr101(c) => c.name(),
            DynamicTextCodec::Utf8(c) => c.name(),
            DynamicTextCodec::Gb18030(c) => c.name(),
        }
    }

    fn decode(&self, text: &[u8]) -> (r: Result<String, TextEncodingError>) {
        match self {
            DynamicTextCodec::Default(c) => c.decode(text),
            DynamicTextCodec::IsoIr100(c) => c.decode(text),
            DynamicTextCodec::IsoIr101(c) => c.decode(text),
            DynamicTextCodec::Utf8(c) => c.decode(text),
            DynamicTextCodec::Gb18030(c) => c.decode(text),
        }
    }

    fn encode(&self, text: &str) -> (r: Result<Vec<u8>, TextEncodingError>) {
        match self {
            DynamicTextCodec::Default(c) => c.encode(text),
            DynamicTextCodec::IsoIr100(c) => c.encode(text),
            DynamicTextCodec::IsoIr101(c) => c.encode(text),
            DynamicTextCodec::Utf8(c) => c.encode(text),
            DynamicTextCodec::Gb18030(c) => c.encode(text),
        }
    }
}

/// Whether two strings hold the same characters.
pub fn same_text(a: &str, b: &str) -> (r: bool)
    ensures
        r == (a@ == b@),
{
    a.to_owned() == b.to_owned()
}

impl SpecificCharacterSet {
    /// The character set that a Specific Character Set code names; trailing
    /// white space in the code is ignored.
    pub fn from_code(uid: &str) -> (r: Option<Self>)
        ensures
            r == charset_of_code(trim_end_of(uid@)),
    {
        let code = trim_end(uid);
        if same_text(code, "Default") || same_text(code, "ISO_IR_6") || same_text(code, "ISO_IR 6") {
            Some(SpecificCharacterSet::Default)
        } else if same_text(code, "ISO_IR_100") || same_text(code, "ISO_IR 100") {
            Some(SpecificCharacterSet::IsoIr100)
        } else if same_text(code, "ISO_IR_101") || same_text(code, "ISO_IR 101") {
            Some(SpecificCharacterSet::IsoIr101)
        } else if same_text(code, "ISO_IR 192") {
            Some(SpecificCharacterSet::IsoIr192)
        } else if same_text(code, "GB18030") {
            Some(SpecificCharacterSet::GB18030)
        } else {
            None
        }
    }

    /// The codec of this character set.
    pub fn codec(self) -> (r: Option<DynamicTextCodec>)
        ensures
            r is Some,
            r->Some_0.character_set() == self,
    {
        match self {
            SpecificCharacterSet::Default => Some(DynamicTextCodec::Default(DefaultCharacterSetCodec)),
            SpecificCharacterSet::IsoIr100 => Some(DynamicTextCodec::IsoIr100(IsoIr100CharacterSetCodec)),
            SpecificCharacterSet::IsoIr101 => Some(DynamicTextCodec::IsoIr101(IsoIr101CharacterSetCodec)),
            SpecificCharacterSet::IsoIr192 => Some(DynamicTextCodec::Utf8(Utf8CharacterSetCodec)),
            SpecificCharacterSet::GB18030 => Some(DynamicTextCodec::Gb18030(Gb18030CharacterSetCodec)),
        }
    }
}

/// The result of a text validation procedure.
#[derive(Debug, Clone, Copy, PartialEq, Eq, Structural, PartialOrd, Ord)]
pub enum TextValidationOutcome {
    /// The text is fully valid and can be safely decoded.
    Valid,
    /// Some characters may have to be replaced; otherwise the text can be decoded.
    BadCharacters,
    /// The text cannot be decoded.
    NotOk,
}

/// Checks whether the bytes hold valid text of the default character
/// repertoire: every byte decodes in ISO 8859-1, so every input is valid.
pub fn validate_iso_8859(text: &[u8]) -> (r: TextValidationOutcome)
    ensures
        r == TextValidationOutcome::Valid,
{
    match latin1_decode_strict(text) {
        Ok(_) => TextValidationOutcome::Valid,
        Err(_) => {
            // Escaping decoding never fails: what strict decoding rejects
            // only has characters to replace.
            let _ = decode_escaping(SpecificCharacterSet::Default, text);
            TextValidationOutcome::BadCharacters
        },
    }
}

pub const BACKSLASH: u8 = 92;
pub const PERIOD: u8 = 46;
pub const HYPHEN: u8 = 45;
pub const PLUS: u8 = 43;
pub const SPACE: u8 = 32;
pub const UNDERSCORE: u8 = 95;
pub const DIGIT_ZERO: u8 = 48;
pub const DIGIT_NINE: u8 = 57;
pub const UPPER_A: u8 = 65;
pub const UPPER_Z: u8 = 90;

/// A decimal digit.
pub open spec fn is_digit(c: u8) -> bool {
    DIGIT_ZERO <= c <= DIGIT_NINE
}

/// A character allowed in a Date value.
pub open spec fn is_da_char(c: u8) -> bool {
    is_digit(c)
}

/// A character allowed in a Time value.
pub open spec fn is_tm_char(c: u8) -> bool {
    c == BACKSLASH || c == PERIOD || c == HYPHEN || c == SPACE || is_digit(c)
}

/// A character allowed in a Date Time value.
pub open spec fn is_dt_char(c: u8) -> bool {
    c == PERIOD || c == HYPHEN || c == PLUS || c == SPACE || c == BACKSLASH || is_digit(c)
}

/// A character allowed in a Code String value.
pub open spec fn is_cs_char(c: u8) -> bool {
    c == SPACE || c == UNDERSCORE || is_digit(c) || (UPPER_A <= c <= UPPER_Z)
}

/// The outcome of a check that every byte meets a predicate.
pub open spec fn outcome_of(all_valid: bool) -> TextValidationOutcome {
    if all_valid {
        TextValidationOutcome::Valid
    } else {
        TextValidationOutcome::NotOk
    }
}

/// Checks whether the bytes hold only characters valid in a Date value.
pub fn validate_da(text: &[u8]) -> (r: TextValidationOutcome)
    ensures
        r == outcome_of(forall|i: int| 0 <= i < text@.len() ==> is_da_char(#[trigger] text@[i])),
{
    let mut i: usize = 0;
    while i < text.len()
        invariant
            i <= text@.len(),
            forall|j: int| 0 <= j < i ==> is_da_char(#[trigger] text@[j]),
        decreases text@.len() - i,
    {
        let c = text[i];
        if !(c >= DIGIT_ZERO && c <= DIGIT_NINE) {
            return TextValidationOutcome::NotOk;
        }
        i += 1;
    }
    TextValidationOutcome::Valid
}

/// Checks whether the bytes hold only characters valid in a Time value.
pub fn validate_tm(text: &[u8]) -> (r: TextValidationOutcome)
    ensures
        r == outcome_of(forall|i: int| 0 <= i < text@.len() ==> is_tm_char(#[trigger] text@[i])),
{
    let mut i: usize = 0;
    while i < text.len()
        invariant
            i <= text@.len(),
            forall|j: int| 0 <= j < i ==> is_tm_char(#[trigger] text@[j]),
        decreases text@.len() - i,
    {
        let c = text[i];
        let ok = c == BACKSLASH || c == PERIOD || c == HYPHEN || c == SPACE || (c >= DIGIT_ZERO && c <= DIGIT_NINE);
        if !ok {
            return TextValidationOutcome::NotOk;
        }
        i += 1;
    }
    TextValidationOutcome::Valid
}

/// Checks whether the bytes hold only characters valid in a Date Time value.
pub fn validate_dt(text: &[u8]) -> (r: TextValidationOutcome)
    ensures
        r == outcome_of(forall|i: int| 0 <= i < text@.len() ==> is_dt_char(#[trigger] text@[i])),
{
    let mut i: usize = 0;
    while i < text.len()
        invariant
            i <= text@.len(),
            forall|j: int| 0 <= j < i ==> is_dt_char(#[trigger] text@[j]),
        decreases text@.len() - i,
    {
        let c = text[i];
        let ok = c == PERIOD || c == HYPHEN || c == PLUS || c == SPACE || c == BACKSLASH || (c >= DIGIT_ZERO && c <= DIGIT_NINE);
        if !ok {
            return TextValidationOutcome::NotOk;
        }
        i += 1;
    }
    TextValidationOutcome::Valid
}

/// Checks whether the bytes hold only characters valid in a Code String value.
pub fn validate_cs(text: &[u8]) -> (r: TextValidationOutcome)
    ensures
        r == outcome_of(forall|i: int| 0 <= i < text@.len() ==> is_cs_char(#[trigger] text@[i])),
{
    let mut i: usize = 0;
    while i < text.len()
        invariant
            i <= text@.len(),
            forall|j: int| 0 <= j < i ==> is_cs_char(#[trigger] text@[j]),
        decreases text@.len() - i,
    {
        let c = text[i];
        let ok = c == SPACE || c == UNDERSCORE || (c >= DIGIT_ZERO && c <= DIGIT_NINE) || (c >= UPPER_A && c <= UPPER_Z);
        if !ok {
            return TextValidationOutcome::NotOk;
        }
        i += 1;
    }
    TextValidationOutcome::Valid
}

} // verus!
