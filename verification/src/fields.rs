//! How fields of Plex requests and answers read from and write to text:
//! comma-separated lists, screen resolutions, 0/1 booleans.
use vstd::prelude::*;
use crate::models::{Media, Resolution, SpecialBool};
use crate::text::{
    chars_of, concat, from_chars, is_numeric, numeric_char, owned, parse_i32, parse_i64, parse_signed, split_char,
    split_on, texts,
};

verus! {

/// Why a field does not read.
#[derive(Clone, Copy, Debug, PartialEq, Eq, Structural)]
pub enum FieldError {
    /// A number does not read as one.
    BadNumber,
    /// A value is out of the allowed ones.
    BadValue,
    /// A resolution lacks its height.
    MissingPart,
}

pub open spec fn reads_i32(p: Seq<char>) -> bool {
    parse_signed(p, i32::MIN as int, i32::MAX as int) is Some
}

/// A comma-separated list of numbers: none for no text or empty text;
/// fails when a piece is no `i32`.
pub open spec fn comma_numbers(s: Option<Seq<char>>) -> Result<Option<Seq<i32>>, FieldError> {
    match s {
        None => Ok(None),
        Some(t) => if t.len() == 0 {
            Ok(None)
        } else {
            let pieces = split_on(t, ',');
            if forall|i: int| 0 <= i < pieces.len() ==> #[trigger] reads_i32(pieces[i]) {
                Ok(Some(pieces.map_values(|p: Seq<char>| parse_signed(p, i32::MIN as int, i32::MAX as int)->0 as i32)))
            } else {
                Err(FieldError::BadNumber)
            }
        },
    }
}

/// Reads a comma-separated list of numbers (see `comma_numbers`).
pub fn deserialize_comma_seperated_number(s: Option<String>) -> (r: Result<Option<Vec<i32>>, FieldError>)
    ensures
        match r {
            Ok(Some(v)) => comma_numbers(crate::text::opt_text(s)) == Ok::<Option<Seq<i32>>, FieldError>(Some(v@)),
            Ok(None) => comma_numbers(crate::text::opt_text(s)) == Ok::<Option<Seq<i32>>, FieldError>(None),
            Err(e) => comma_numbers(crate::text::opt_text(s)) == Err::<Option<Seq<i32>>, FieldError>(e),
        },
{
    let t = match s {
        None => return Ok(None),
        Some(t) => t,
    };
    if t.as_str().is_empty() {
        return Ok(None);
    }
    let pieces = split_char(t.as_str(), ',');
    let ghost ps = split_on(t@, ',');
    let mut out: Vec<i32> = Vec::new();
    let mut i: usize = 0;
    while i < pieces.len()
        invariant
            i <= pieces@.len(),
            texts(pieces@) == ps,
            ps == split_on(t@, ','),
            s == Some(t),
            t@.len() > 0,
            out@.len() == i,
            forall|j: int| 0 <= j < i ==> #[trigger] reads_i32(ps[j]),
            forall|j: int| 0 <= j < i ==> (#[trigger] out@[j]) as int == parse_signed(ps[j], i32::MIN as int, i32::MAX as int)->0,
        decreases pieces.len() - i,
    {
        assert(ps[i as int] == pieces@[i as int]@);
        match parse_i32(pieces[i].as_str()) {
            Some(v) => {
                assert(reads_i32(ps[i as int]));
                assert(parse_signed(ps[i as int], i32::MIN as int, i32::MAX as int)->0 == v as int);
                let ghost o0 = out@;
                out.push(v);
                assert(forall|j: int| 0 <= j < i ==> out@[j] == o0[j]);
            },
            None => {
                assert(!reads_i32(ps[i as int]));
                return Err(FieldError::BadNumber);
            },
        }
        i = i + 1;
    }
    assert(forall|j: int| 0 <= j < ps.len() ==> #[trigger] reads_i32(ps[j])) by {
        assert forall|j: int| 0 <= j < ps.len() implies #[trigger] reads_i32(ps[j]) by {
            assert(reads_i32(ps[j]));
        }
    }
    assert(out@ =~= ps.map_values(|p: Seq<char>| parse_signed(p, i32::MIN as int, i32::MAX as int)->0 as i32));
    Ok(Some(out))
}

/// Reads a comma-separated list of strings: the pieces between commas.
pub fn deserialize_comma_seperated_string(s: Option<String>) -> (r: Option<Vec<String>>)
    ensures
        match s {
            None => r is None,
            Some(t) => r is Some && texts(r->0@) == split_on(t@, ','),
        },
{
    match s {
        None => None,
        Some(t) => Some(split_char(t.as_str(), ',')),
    }
}

/// A character kept in a screen resolution: a numeric one, `x` or `,`.
pub open spec fn resolution_char(c: char) -> bool {
    numeric_char(c) || c == 'x' || c == ','
}

pub open spec fn resolution_chars() -> spec_fn(char) -> bool {
    |c: char| resolution_char(c)
}

pub open spec fn reads_i64(p: Seq<char>) -> bool {
    parse_signed(p, i64::MIN as int, i64::MAX as int) is Some
}

pub open spec fn i64_of(p: Seq<char>) -> i64 {
    parse_signed(p, i64::MIN as int, i64::MAX as int)->0 as i64
}

/// One resolution, `{width}x{height}`: every `x`-separated piece must read
/// as an `i64`, and there must be two.
pub open spec fn resolution_of(p: Seq<char>) -> Result<Resolution, FieldError> {
    let pieces = split_on(p, 'x');
    if !(forall|i: int| 0 <= i < pieces.len() ==> #[trigger] reads_i64(pieces[i])) {
        Err(FieldError::BadNumber)
    } else if pieces.len() < 2 {
        Err(FieldError::MissingPart)
    } else {
        Ok(Resolution { width: i64_of(pieces[0]), height: i64_of(pieces[1]) })
    }
}

/// The first piece of a list of resolutions that does not read.
pub open spec fn first_bad(ps: Seq<Seq<char>>) -> Option<FieldError>
    decreases ps.len(),
{
    if ps.len() == 0 {
        None
    } else {
        match resolution_of(ps[0]) {
            Err(e) => Some(e),
            Ok(_) => first_bad(ps.drop_first()),
        }
    }
}

/// The screen resolutions a client reports: its text without characters
/// other than numeric ones, `x` and `,`, split at commas, each read as a
/// resolution (see `resolution_of`); none without text.
pub open spec fn screen_resolutions(s: Option<Seq<char>>) -> Result<Seq<Resolution>, FieldError> {
    match s {
        None => Ok(Seq::empty()),
        Some(t) => {
            let pieces = split_on(t.filter(resolution_chars()), ',');
            match first_bad(pieces) {
                Some(e) => Err(e),
                None => Ok(pieces.map_values(|p: Seq<char>| resolution_of(p)->Ok_0)),
            }
        },
    }
}

fn read_resolution(p: &str) -> (r: Result<Resolution, FieldError>)
    ensures
        match r {
            Ok(v) => resolution_of(p@) == Ok::<Resolution, FieldError>(v),
            Err(e) => resolution_of(p@) == Err::<Resolution, FieldError>(e),
        },
{
    let pieces = split_char(p, 'x');
    let ghost ps = split_on(p@, 'x');
    let mut vals: Vec<i64> = Vec::new();
    let mut i: usize = 0;
    while i < pieces.len()
        invariant
            i <= pieces@.len(),
            texts(pieces@) == ps,
            ps == split_on(p@, 'x'),
            vals@.len() == i,
            forall|j: int| 0 <= j < i ==> #[trigger] reads_i64(ps[j]),
            forall|j: int| 0 <= j < i ==> (#[trigger] vals@[j]) as int == parse_signed(ps[j], i64::MIN as int, i64::MAX as int)->0,
        decreases pieces.len() - i,
    {
        assert(ps[i as int] == pieces@[i as int]@);
        match parse_i64(pieces[i].as_str()) {
            Some(v) => {
                assert(reads_i64(ps[i as int]));
                assert(parse_signed(ps[i as int], i64::MIN as int, i64::MAX as int)->0 == v as int);
                let ghost o0 = vals@;
                vals.push(v);
                assert(forall|j: int| 0 <= j < i ==> vals@[j] == o0[j]);
            },
            None => {
                assert(!reads_i64(ps[i as int]));
                return Err(FieldError::BadNumber);
            },
        }
        i = i + 1;
    }
    assert forall|j: int| 0 <= j < ps.len() implies #[trigger] reads_i64(ps[j]) by {
        assert(reads_i64(ps[j]));
    }
    if vals.len() < 2 {
        return Err(FieldError::MissingPart);
    }
    Ok(Resolution { width: vals[0], height: vals[1] })
}

/// Reads the screen resolutions a client reports (see
/// `screen_resolutions`).
pub fn deserialize_screen_resolution(s: Option<String>) -> (r: Result<Vec<Resolution>, FieldError>)
    ensures
        match r {
            Ok(v) => screen_resolutions(crate::text::opt_text(s)) == Ok::<Seq<Resolution>, FieldError>(v@),
            Err(e) => screen_resolutions(crate::text::opt_text(s)) == Err::<Seq<Resolution>, FieldError>(e),
        },
{
    let t = match s {
        None => return Ok(Vec::new()),
        Some(t) => t,
    };
    let chars = chars_of(t.as_str());
    let mut kept: Vec<char> = Vec::new();
    let mut i: usize = 0;
    proof {
        reveal(Seq::filter);
    }
    assert(chars@.take(0).filter(resolution_chars()) =~= Seq::<char>::empty());
    while i < chars.len()
        invariant
            i <= chars@.len(),
            kept@ == chars@.take(i as int).filter(resolution_chars()),
        decreases chars.len() - i,
    {
        proof {
            assert(chars@.take(i + 1) == chars@.take(i as int).push(chars@[i as int]));
            chars@.take(i as int).lemma_filter_push(chars@[i as int], resolution_chars());
        }
        let c = chars[i];
        if is_numeric(c) || c == 'x' || c == ',' {
            kept.push(c);
        }
        i = i + 1;
    }
    assert(chars@.take(i as int) == chars@);
    let cleaned = from_chars(&kept);
    let pieces = split_char(cleaned.as_str(), ',');
    let ghost ps = split_on(cleaned@, ',');
    let mut out: Vec<Resolution> = Vec::new();
    let mut j: usize = 0;
    assert(ps.skip(0) == ps);
    while j < pieces.len()
        invariant
            j <= pieces@.len(),
            texts(pieces@) == ps,
            ps == split_on(cleaned@, ','),
            cleaned@ == t@.filter(resolution_chars()),
            s == Some(t),
            first_bad(ps) == first_bad(ps.skip(j as int)),
            out@.len() == j,
            forall|k: int| 0 <= k < j ==> resolution_of(ps[k]) == Ok::<Resolution, FieldError>(#[trigger] out@[k]),
        decreases pieces.len() - j,
    {
        proof {
            assert(ps[j as int] == pieces@[j as int]@);
            assert(ps.skip(j as int)[0] == ps[j as int]);
            assert(ps.skip(j as int).drop_first() == ps.skip(j + 1));
        }
        match read_resolution(pieces[j].as_str()) {
            Ok(v) => out.push(v),
            Err(e) => {
                assert(first_bad(ps.skip(j as int)) == Some(e));
                return Err(e);
            },
        }
        j = j + 1;
    }
    assert(ps.skip(j as int).len() == 0);
    assert(out@ =~= ps.map_values(|p: Seq<char>| resolution_of(p)->Ok_0));
    Ok(out)
}

/// A boolean written as 0 or 1; any other number is refused.
pub fn bool_from_int(v: u8) -> (r: Result<bool, FieldError>)
    ensures
        v == 0 ==> r == Ok::<bool, FieldError>(false),
        v == 1 ==> r == Ok::<bool, FieldError>(true),
        v > 1 ==> r == Err::<bool, FieldError>(FieldError::BadValue),
{
    match v {
        0 => Ok(false),
        1 => Ok(true),
        _ => Err(FieldError::BadValue),
    }
}

/// A number written as text; text that is no `i64` is refused.
pub fn optional_int_from_str(val: &str) -> (r: Result<Option<i64>, FieldError>)
    ensures
        match r {
            Ok(Some(v)) => parse_signed(val@, i64::MIN as int, i64::MAX as int) == Some(v as int),
            Ok(None) => false,
            Err(_) => parse_signed(val@, i64::MIN as int, i64::MAX as int) is None,
        },
{
    match parse_i64(val) {
        Some(v) => Ok(Some(v)),
        None => Err(FieldError::BadNumber),
    }
}

impl SpecialBool {
    /// The text of the boolean in XML: `1` or `0`.
    pub fn xml_text(&self) -> (r: String)
        ensures
            r@ == (if self.value() { "1"@ } else { "0"@ }),
    {
        if self.get() {
            owned("1")
        } else {
            owned("0")
        }
    }

    /// The text of the boolean: `true` or `false`.
    pub fn to_text(&self) -> (r: String)
        ensures
            r@ == (if self.value() { "true"@ } else { "false"@ }),
    {
        if self.get() {
            owned("true")
        } else {
            owned("false")
        }
    }
}

pub open spec fn or_empty(o: Option<String>) -> Seq<char> {
    match o {
        Some(s) => s@,
        None => Seq::empty(),
    }
}

impl Media {
    /// A version as text: resolution, video codec and audio codec, each
    /// empty when unknown, separated by ` - `.
    pub fn describe(&self) -> (r: String)
        ensures
            r@ == or_empty(self.video_resolution) + " - "@ + or_empty(self.video_codec) + " - "@ + or_empty(
                self.audio_codec,
            ),
    {
        let a = match &self.video_resolution {
            Some(s) => s.clone(),
            None => String::new(),
        };
        let b = match &self.video_codec {
            Some(s) => s.clone(),
            None => String::new(),
        };
        let c = match &self.audio_codec {
            Some(s) => s.clone(),
            None => String::new(),
        };
        let r = concat(a.as_str(), " - ");
        let r = concat(r.as_str(), b.as_str());
        let r = concat(r.as_str(), " - ");
        concat(r.as_str(), c.as_str())
    }
}

} // verus!
