//! The stored key and the request URLs built from it, and the codec of the
//! local key file.
//!
//! The key file holds one JSON object with one string field, written as
//! `{"key":"<value>"}` with `"` and `\` escaped by a backslash and control
//! characters as `\u00` escapes.  Writing a key and reading the file back
//! returns the key unchanged, for every key; [`lemma_key_file_round_trip`]
//! states that law.  Reading accepts the written shape directly and falls
//! back to a full JSON parse for any other object with a string `key`
//! field, so a hand-written or reformatted key file is read too.

use vstd::arithmetic::div_mod::lemma_fundamental_div_mod;
use vstd::prelude::*;
use vstd::string::*;

use crate::errors::ApiKeyError;
use crate::jsonval::{json_of, parse_json, spec_get, JsonVal};
use crate::text::{chars_of, push_char};
use crate::urls::{
    spec_apod_template, spec_donki_template, spec_neows_mid, spec_neows_prefix, spec_neows_tail,
    spec_neows_template, Urls,
};

verus! {

/// The key holder: the URL templates plus the key the user stored.
pub struct Parser {
    /// The URL templates of the feeds.
    pub urls: Urls,
    /// The stored key, appended to every request URL.
    pub key: String,
}

/// Whether the templates of `p` are the feed templates, as every
/// constructor leaves them.
pub open spec fn spec_parser_wf(p: Parser) -> bool {
    &&& p.urls.apod@ == spec_apod_template()
    &&& p.urls.neows@ == spec_neows_template()
    &&& p.urls.donki@ == spec_donki_template()
}

/// The picture-of-the-day request URL of `p`: its template with its key
/// appended.
pub open spec fn spec_apod_url(p: Parser) -> Seq<char> {
    p.urls.apod@ + p.key@
}

/// The near-earth-object request URL of `p` for the single day `date`: its
/// template with both date placeholders substituted by `date` and its key
/// appended.
pub open spec fn spec_neows_url(p: Parser, date: Seq<char>) -> Seq<char> {
    spec_neows_prefix() + date + spec_neows_mid() + date + spec_neows_tail() + p.key@
}

impl Default for Parser {
    /// The demo key, with the feed templates.
    fn default() -> (r: Self)
        ensures
            spec_parser_wf(r),
            r.key@ == "DEMO_KEY"@,
    {
        Self { urls: Urls::default(), key: String::from_str("DEMO_KEY") }
    }
}

impl Parser {
    /// A holder of `key`, with the feed templates.
    pub fn new(key: String) -> (r: Self)
        ensures
            spec_parser_wf(r),
            r.key == key,
    {
        Self { urls: Urls::default(), key }
    }

    /// The picture-of-the-day request URL: the template with the stored key
    /// appended.
    pub fn apod_url(&self) -> (r: String)
        ensures
            r@ == spec_apod_url(*self),
    {
        let mut url = self.urls.apod.clone();
        url.append(self.key.as_str());
        url
    }

    /// The near-earth-object request URL for the single day `date`: the
    /// template with both of its date placeholders substituted by `date` and
    /// the stored key appended.
    pub fn neows_url(&self, date: &str) -> (r: String)
        requires
            spec_parser_wf(*self),
        ensures
            r@ == spec_neows_url(*self, date@),
    {
        let mut url = String::from_str("https://api.nasa.gov/neo/rest/v1/feed?start_date=");
        url.append(date);
        url.append("&end_date=");
        url.append(date);
        url.append("&api_key=");
        url.append(self.key.as_str());
        url
    }

    /// The key-file text that stores `key`: one JSON object with the one
    /// field `key`, with `"` and `\` escaped by a backslash and control
    /// characters as `\u00` escapes.
    pub fn make_key_file(key: &str) -> (r: String)
        ensures
            r@ == spec_key_file(key@),
    {
        let n = key.unicode_len();
        let mut out = String::from_str("{\"key\":\"");
        let mut i: usize = 0;
        while i < n
            invariant
                i <= n,
                n == key@.len(),
                out@ == "{\"key\":\""@ + spec_escape_key(key@.subrange(0, i as int)),
            decreases n - i,
        {
            let c = key.get_char(i);
            if c == '"' || c == '\\' {
                push_char(&mut out, '\\');
                push_char(&mut out, c);
            } else if (c as u32) < 0x20 {
                push_char(&mut out, '\\');
                push_char(&mut out, 'u');
                push_char(&mut out, '0');
                push_char(&mut out, '0');
                push_char(&mut out, hex_digit((c as u32 / 16) as u8));
                push_char(&mut out, hex_digit((c as u32 % 16) as u8));
            } else {
                push_char(&mut out, c);
            }
            proof {
                let prefix = key@.subrange(0, i as int);
                let prefix1 = key@.subrange(0, i + 1);
                lemma_escape_key_last(prefix1);
                assert(prefix1.drop_last() =~= prefix);
                assert(out@ =~= "{\"key\":\""@ + spec_escape_key(prefix1));
            }
            i = i + 1;
        }
        proof {
            assert(key@.subrange(0, n as int) =~= key@);
        }
        out.append("\"}");
        out
    }

    /// The key stored in the key-file text `contents`.
    ///
    /// Returns the key for exactly those contents that either are in the
    /// shape [`Parser::make_key_file`] writes, or parse as a JSON object
    /// with a string `key` field; everything else — invalid JSON, no `key`
    /// field, a `key` of another type — fails with `InvalidApiKey`.
    pub fn read_key_file(contents: &str) -> (r: Result<String, ApiKeyError>)
        ensures
            match r {
                Ok(k) => spec_read_key_file(contents@) == Some(k@) || (spec_read_key_file(
                    contents@,
                ) is None && (json_of(contents@) matches Some(v) && spec_key_of_json(v) == Some(
                    k@,
                ))),
                Err(e) => e == ApiKeyError::InvalidApiKey && spec_read_key_file(contents@) is None
                    && (json_of(contents@) matches Some(v) ==> spec_key_of_json(v) is None),
            },
    {
        match Self::read_key_file_strict(contents) {
            Ok(k) => Ok(k),
            Err(_) => match parse_json(contents) {
                Ok(v) => match v.get("key") {
                    Some(x) => match x {
                        JsonVal::Str(s) => Ok(s.clone()),
                        _ => Err(ApiKeyError::InvalidApiKey),
                    },
                    None => Err(ApiKeyError::InvalidApiKey),
                },
                Err(_) => Err(ApiKeyError::InvalidApiKey),
            },
        }
    }

    /// The key stored in `contents` where the text is exactly in the shape
    /// [`Parser::make_key_file`] writes; the scan that makes the saved key
    /// file round-trip without a JSON parse.
    fn read_key_file_strict(contents: &str) -> (r: Result<String, ApiKeyError>)
        ensures
            match r {
                Ok(k) => spec_read_key_file(contents@) == Some(k@),
                Err(e) => spec_read_key_file(contents@) is None && e == ApiKeyError::InvalidApiKey,
            },
    {
        let v = chars_of(contents);
        let n = v.len();
        proof {
            reveal_strlit("{\"key\":\"");
        }
        if n < 8 {
            return Err(ApiKeyError::InvalidApiKey);
        }
        if !(v[0] == '{' && v[1] == '"' && v[2] == 'k' && v[3] == 'e'
            && v[4] == 'y' && v[5] == '"' && v[6] == ':' && v[7]
            == '"') {
            proof {
                let head = "{\"key\":\""@;
                assert(head[0] == '{' && head[1] == '"' && head[2] == 'k' && head[3] == 'e'
                    && head[4] == 'y' && head[5] == '"' && head[6] == ':' && head[7] == '"');
                let sub = contents@.subrange(0, 8);
                assert(forall|j: int| 0 <= j < 8 ==> sub[j] == contents@[j]);
                if sub == head {
                    assert(contents@[0] == '{' && contents@[1] == '"' && contents@[2] == 'k'
                        && contents@[3] == 'e' && contents@[4] == 'y' && contents@[5] == '"'
                        && contents@[6] == ':' && contents@[7] == '"');
                    assert(false);
                }
            }
            return Err(ApiKeyError::InvalidApiKey);
        }
        proof {
            assert(contents@.subrange(0, 8) =~= "{\"key\":\""@);
        }
        let mut out = String::new();
        let mut i: usize = 8;
        loop
            invariant
                8 <= i <= n,
                n == contents@.len(),
                v@ == contents@,
                contents@.subrange(0, 8) == "{\"key\":\""@,
                match spec_unescape_at(contents@, i as int) {
                    Some((k, j)) => spec_unescape_at(contents@, 8) == Some((out@ + k, j)),
                    None => spec_unescape_at(contents@, 8) is None,
                },
            decreases n - i,
        {
            if i >= n {
                return Err(ApiKeyError::InvalidApiKey);
            }
            let c = v[i];
            if c == '"' {
                proof {
                    assert(out@ + Seq::<char>::empty() =~= out@);
                }
                // The quote closes the value; the rest must be exactly `}`.
                if n - i == 2 && v[i + 1] == '}' {
                    return Ok(out);
                } else {
                    return Err(ApiKeyError::InvalidApiKey);
                }
            } else if c == '\\' {
                if i + 1 >= n {
                    return Err(ApiKeyError::InvalidApiKey);
                }
                let d = v[i + 1];
                if d == '"' || d == '\\' {
                    let ghost out0 = out@;
                    push_char(&mut out, d);
                    proof {
                        match spec_unescape_at(contents@, i + 2) {
                            Some((k, j)) => {
                                assert(out@ + k =~= out0 + (seq![d] + k));
                            },
                            None => {},
                        }
                    }
                    i = i + 2;
                } else if d == 'u' {
                    if n - i <= 5 {
                        return Err(ApiKeyError::InvalidApiKey);
                    }
                    if !(v[i + 2] == '0' && v[i + 3] == '0' && is_hex_digit(v[i + 4])
                        && is_hex_digit(v[i + 5])) {
                        return Err(ApiKeyError::InvalidApiKey);
                    }
                    let decoded = hex_char(v[i + 4], v[i + 5]);
                    let ghost out0 = out@;
                    push_char(&mut out, decoded);
                    proof {
                        match spec_unescape_at(contents@, i + 6) {
                            Some((k, j)) => {
                                assert(out@ + k =~= out0 + (seq![decoded] + k));
                            },
                            None => {},
                        }
                    }
                    i = i + 6;
                } else {
                    return Err(ApiKeyError::InvalidApiKey);
                }
            } else {
                let ghost out0 = out@;
                push_char(&mut out, c);
                proof {
                    match spec_unescape_at(contents@, i + 1) {
                        Some((k, j)) => {
                            assert(out@ + k =~= out0 + (seq![c] + k));
                        },
                        None => {},
                    }
                }
                i = i + 1;
            }
        }
    }
}

/// The hexadecimal digit character for a value 0 to 15.
pub open spec fn spec_hex_digit(v: int) -> char {
    if v == 0 {
        '0'
    } else if v == 1 {
        '1'
    } else if v == 2 {
        '2'
    } else if v == 3 {
        '3'
    } else if v == 4 {
        '4'
    } else if v == 5 {
        '5'
    } else if v == 6 {
        '6'
    } else if v == 7 {
        '7'
    } else if v == 8 {
        '8'
    } else if v == 9 {
        '9'
    } else if v == 10 {
        'a'
    } else if v == 11 {
        'b'
    } else if v == 12 {
        'c'
    } else if v == 13 {
        'd'
    } else if v == 14 {
        'e'
    } else {
        'f'
    }
}

/// Whether `c` is a lower-case hexadecimal digit.
pub open spec fn spec_is_hex_digit(c: char) -> bool {
    ('0' as u32 <= c as u32 <= '9' as u32) || ('a' as u32 <= c as u32 <= 'f' as u32)
}

/// The numeric value of the hexadecimal digit `c`.
pub open spec fn spec_hex_val(c: char) -> int {
    if '0' as u32 <= c as u32 <= '9' as u32 {
        c as u32 - '0' as u32
    } else {
        c as u32 - 'a' as u32 + 10
    }
}

/// The character whose code the two hexadecimal digits `hi` and `lo` give.
pub open spec fn spec_hex_char(hi: char, lo: char) -> char {
    ((16 * spec_hex_val(hi) + spec_hex_val(lo)) as u8) as char
}

/// The escaped form of the one character `c` inside the key file's string
/// value: a backslash before `"` and `\`, a `\u00` escape with two
/// hexadecimal digits for a control character, and every other character
/// as it is.
pub open spec fn spec_esc_char(c: char) -> Seq<char> {
    if c == '"' || c == '\\' {
        seq!['\\', c]
    } else if (c as u32) < 0x20 {
        seq![
            '\\',
            'u',
            '0',
            '0',
            spec_hex_digit(c as u32 as int / 16),
            spec_hex_digit(c as u32 as int % 16),
        ]
    } else {
        seq![c]
    }
}

/// The escaped form of the key `k`: each character under
/// [`spec_esc_char`], in order.
pub open spec fn spec_escape_key(k: Seq<char>) -> Seq<char>
    decreases k.len(),
{
    if k.len() == 0 {
        Seq::empty()
    } else {
        spec_esc_char(k[0]) + spec_escape_key(k.drop_first())
    }
}

/// The key-file text that stores `k`.
pub open spec fn spec_key_file(k: Seq<char>) -> Seq<char> {
    "{\"key\":\""@ + spec_escape_key(k) + "\"}"@
}

/// The string value read from position `i` of `s` up to its closing
/// unescaped quote: the unescaped value and the position just past the
/// quote, or nothing if no well-formed value closes.
pub open spec fn spec_unescape_at(s: Seq<char>, i: int) -> Option<(Seq<char>, int)>
    decreases s.len() - i,
{
    if i < 0 || i >= s.len() {
        None
    } else if s[i] == '"' {
        Some((Seq::empty(), i + 1))
    } else if s[i] == '\\' {
        if i + 1 < s.len() && (s[i + 1] == '"' || s[i + 1] == '\\') {
            match spec_unescape_at(s, i + 2) {
                Some((k, j)) => Some((seq![s[i + 1]] + k, j)),
                None => None,
            }
        } else if i + 5 < s.len() && s[i + 1] == 'u' && s[i + 2] == '0' && s[i + 3] == '0'
            && spec_is_hex_digit(s[i + 4]) && spec_is_hex_digit(s[i + 5]) {
            match spec_unescape_at(s, i + 6) {
                Some((k, j)) => Some((seq![spec_hex_char(s[i + 4], s[i + 5])] + k, j)),
                None => None,
            }
        } else {
            None
        }
    } else {
        match spec_unescape_at(s, i + 1) {
            Some((k, j)) => Some((seq![s[i]] + k, j)),
            None => None,
        }
    }
}

/// The key a parsed key file holds: the value of its `key` field, where
/// that field is a string.
pub open spec fn spec_key_of_json(v: JsonVal) -> Option<Seq<char>> {
    match spec_get(v, "key"@) {
        Some(x) => match x {
            JsonVal::Str(s) => Some(s@),
            _ => None,
        },
        None => None,
    }
}

/// The key stored in the key-file text `s`, if `s` is in the shape
/// [`spec_key_file`] writes: the opening `{"key":"`, a closing quote, and a
/// final `}`.
pub open spec fn spec_read_key_file(s: Seq<char>) -> Option<Seq<char>> {
    if s.len() >= 8 && s.subrange(0, 8) == "{\"key\":\""@ {
        match spec_unescape_at(s, 8) {
            Some((k, j)) => if j + 1 == s.len() && s[j] == '}' {
                Some(k)
            } else {
                None
            },
            None => None,
        }
    } else {
        None
    }
}

/// The hexadecimal digit character for `v`, 0 to 15.
fn hex_digit(v: u8) -> (c: char)
    requires
        v <= 15,
    ensures
        c == spec_hex_digit(v as int),
        spec_is_hex_digit(c),
        spec_hex_val(c) == v as int,
{
    match v {
        0 => '0',
        1 => '1',
        2 => '2',
        3 => '3',
        4 => '4',
        5 => '5',
        6 => '6',
        7 => '7',
        8 => '8',
        9 => '9',
        10 => 'a',
        11 => 'b',
        12 => 'c',
        13 => 'd',
        14 => 'e',
        _ => 'f',
    }
}

/// Whether `c` is a lower-case hexadecimal digit.
fn is_hex_digit(c: char) -> (r: bool)
    ensures
        r == spec_is_hex_digit(c),
{
    ('0' as u32 <= c as u32 && c as u32 <= '9' as u32) || ('a' as u32 <= c as u32 && c as u32
        <= 'f' as u32)
}

/// The character whose code the two hexadecimal digits `hi` and `lo` give.
fn hex_char(hi: char, lo: char) -> (c: char)
    requires
        spec_is_hex_digit(hi),
        spec_is_hex_digit(lo),
    ensures
        c == spec_hex_char(hi, lo),
{
    let hi_v: u32 = if '0' as u32 <= hi as u32 && hi as u32 <= '9' as u32 {
        hi as u32 - '0' as u32
    } else {
        hi as u32 - 'a' as u32 + 10
    };
    let lo_v: u32 = if '0' as u32 <= lo as u32 && lo as u32 <= '9' as u32 {
        lo as u32 - '0' as u32
    } else {
        lo as u32 - 'a' as u32 + 10
    };
    ((16 * hi_v + lo_v) as u8) as char
}

/// A control character is recovered from its code point.
proof fn lemma_control_char_code(c: char)
    requires
        (c as u32) < 0x20,
    ensures
        ((c as u32 as int as u8) as char) == c,
{
}

/// A hexadecimal digit character is a hexadecimal digit with its value.
proof fn lemma_hex_digit_val(v: int)
    requires
        0 <= v <= 15,
    ensures
        spec_is_hex_digit(spec_hex_digit(v)),
        spec_hex_val(spec_hex_digit(v)) == v,
{
}

/// Escaping a non-empty key escapes all but its last character, then that
/// character.
proof fn lemma_escape_key_last(k: Seq<char>)
    requires
        k.len() > 0,
    ensures
        spec_escape_key(k) == spec_escape_key(k.drop_last()) + spec_esc_char(k.last()),
    decreases k.len(),
{
    if k.len() == 1 {
        assert(k.drop_last() =~= Seq::<char>::empty());
        assert(spec_escape_key(k.drop_first()) =~= Seq::<char>::empty());
        assert(spec_escape_key(k) =~= spec_escape_key(k.drop_last()) + spec_esc_char(k.last()));
    } else {
        let t = k.drop_first();
        lemma_escape_key_last(t);
        assert(t.drop_last() =~= k.drop_last().drop_first());
        assert(t.last() == k.last());
        assert(k.drop_last()[0] == k[0]);
        assert(k.drop_last().len() > 0);
        assert(spec_escape_key(k.drop_last()) == spec_esc_char(k[0]) + spec_escape_key(
            k.drop_last().drop_first(),
        ));
        assert(spec_escape_key(k) =~= spec_escape_key(k.drop_last()) + spec_esc_char(k.last()));
    }
}

/// Reading an escaped key out of a stream: wherever the escaped form of `k`
/// sits, followed by a closing quote and anything after it, unescaping from
/// its start returns exactly `k` and stops just past the quote.
proof fn lemma_unescape_escaped(s: Seq<char>, i: int, k: Seq<char>)
    requires
        0 <= i,
        i + spec_escape_key(k).len() + 1 <= s.len(),
        s.subrange(i, s.len() as int) == spec_escape_key(k) + seq!['"'] + s.subrange(
            i + spec_escape_key(k).len() as int + 1,
            s.len() as int,
        ),
    ensures
        spec_unescape_at(s, i) == Some((k, i + spec_escape_key(k).len() as int + 1)),
    decreases k.len(),
{
    let e = spec_escape_key(k);
    let tail = s.subrange(i + e.len() as int + 1, s.len() as int);
    let sub = s.subrange(i, s.len() as int);
    assert(sub.len() == s.len() - i);
    assert(forall|j: int| 0 <= j < sub.len() ==> sub[j] == s[i + j]);
    if k.len() == 0 {
        assert(e =~= Seq::<char>::empty());
        assert(sub[0] == (e + seq!['"'] + tail)[0]);
        assert(s[i] == '"');
        assert(spec_unescape_at(s, i) == Some((Seq::<char>::empty(), i + 1)));
        assert(k =~= Seq::<char>::empty());
    } else {
        let c = k[0];
        let k2 = k.drop_first();
        let e2 = spec_escape_key(k2);
        assert(e == spec_esc_char(c) + e2);
        if c == '"' || c == '\\' {
            assert(e.len() == 2 + e2.len());
            assert(e[0] == '\\' && e[1] == c);
            assert(sub[0] == (e + seq!['"'] + tail)[0]);
            assert(sub[1] == (e + seq!['"'] + tail)[1]);
            assert(s[i] == '\\');
            assert(s[i + 1] == c);
            assert(i + 2 + e2.len() as int + 1 == i + e.len() as int + 1);
            let sub2 = s.subrange(i + 2, s.len() as int);
            assert(forall|j: int| 0 <= j < sub2.len() ==> sub2[j] == s[i + 2 + j]);
            assert(forall|j: int| 0 <= j < sub2.len() ==> #[trigger] sub2[j] == sub[2 + j]);
            assert(sub2 =~= e2 + seq!['"'] + s.subrange(
                i + 2 + e2.len() as int + 1,
                s.len() as int,
            ));
            lemma_unescape_escaped(s, i + 2, k2);
            assert(seq![s[i + 1]] + k2 =~= k);
            assert(spec_unescape_at(s, i) == Some((k, i + e.len() as int + 1)));
        } else if (c as u32) < 0x20 {
            let code = c as u32 as int;
            assert(e.len() == 6 + e2.len());
            lemma_hex_digit_val(code / 16);
            lemma_hex_digit_val(code % 16);
            assert(e[0] == '\\' && e[1] == 'u' && e[2] == '0' && e[3] == '0' && e[4]
                == spec_hex_digit(code / 16) && e[5] == spec_hex_digit(code % 16));
            assert(sub[0] == (e + seq!['"'] + tail)[0]);
            assert(sub[1] == (e + seq!['"'] + tail)[1]);
            assert(sub[2] == (e + seq!['"'] + tail)[2]);
            assert(sub[3] == (e + seq!['"'] + tail)[3]);
            assert(sub[4] == (e + seq!['"'] + tail)[4]);
            assert(sub[5] == (e + seq!['"'] + tail)[5]);
            assert(s[i] == '\\' && s[i + 1] == 'u' && s[i + 2] == '0' && s[i + 3] == '0');
            assert(spec_is_hex_digit(s[i + 4]) && spec_is_hex_digit(s[i + 5]));
            lemma_fundamental_div_mod(code, 16);
            assert(16 * spec_hex_val(s[i + 4]) + spec_hex_val(s[i + 5]) == code);
            assert(0 <= code < 0x20);
            lemma_control_char_code(c);
            assert(((code as u8) as char) == c);
            assert(spec_hex_char(s[i + 4], s[i + 5]) == ((code as u8) as char));
            assert(spec_hex_char(s[i + 4], s[i + 5]) == c);
            assert(i + 6 + e2.len() as int + 1 == i + e.len() as int + 1);
            let sub2 = s.subrange(i + 6, s.len() as int);
            assert(forall|j: int| 0 <= j < sub2.len() ==> sub2[j] == s[i + 6 + j]);
            assert(forall|j: int| 0 <= j < sub2.len() ==> #[trigger] sub2[j] == sub[6 + j]);
            assert(sub2 =~= e2 + seq!['"'] + s.subrange(
                i + 6 + e2.len() as int + 1,
                s.len() as int,
            ));
            lemma_unescape_escaped(s, i + 6, k2);
            assert(seq![spec_hex_char(s[i + 4], s[i + 5])] + k2 =~= k);
            assert(spec_unescape_at(s, i) == Some((k, i + e.len() as int + 1)));
        } else {
            assert(e.len() == 1 + e2.len());
            assert(e[0] == c);
            assert(sub[0] == (e + seq!['"'] + tail)[0]);
            assert(s[i] == c);
            assert(s[i] != '"' && s[i] != '\\');
            assert(i + 1 + e2.len() as int + 1 == i + e.len() as int + 1);
            let sub2 = s.subrange(i + 1, s.len() as int);
            assert(forall|j: int| 0 <= j < sub2.len() ==> sub2[j] == s[i + 1 + j]);
            assert(forall|j: int| 0 <= j < sub2.len() ==> #[trigger] sub2[j] == sub[1 + j]);
            assert(sub2 =~= e2 + seq!['"'] + s.subrange(
                i + 1 + e2.len() as int + 1,
                s.len() as int,
            ));
            lemma_unescape_escaped(s, i + 1, k2);
            assert(seq![s[i]] + k2 =~= k);
            assert(spec_unescape_at(s, i) == Some((k, i + e.len() as int + 1)));
        }
    }
}

/// Writing a key file and reading it back returns the key unchanged, for
/// every key.
///
/// Together with the contracts of [`Parser::make_key_file`] and
/// [`Parser::read_key_file`], this says that saving a key and loading it
/// round-trips.
pub proof fn lemma_key_file_round_trip(k: Seq<char>)
    ensures
        spec_read_key_file(spec_key_file(k)) == Some(k),
{
    let s = spec_key_file(k);
    let e = spec_escape_key(k);
    reveal_strlit("{\"key\":\"");
    reveal_strlit("\"}");
    assert(s.len() == 8 + e.len() + 2);
    assert(s.subrange(0, 8) =~= "{\"key\":\""@);
    assert(s.subrange(8, s.len() as int) =~= e + seq!['"'] + s.subrange(
        8 + e.len() as int + 1,
        s.len() as int,
    ));
    lemma_unescape_escaped(s, 8, k);
    assert(s[s.len() - 1] == '}');
}

} // verus!
