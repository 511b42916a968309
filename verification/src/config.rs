//! The persisted personalization record: the `FontType` preference, its
//! text format (a single `font_type = "..."` assignment), and the
//! load-resolution rule that falls back to a default on a read or parse
//! failure.

use vstd::prelude::*;

verus! {

/// The font preference a user can select.
#[derive(Clone, Copy, Debug, PartialEq, Eq, Structural)]
pub enum FontType {
    Dot,
    Serif,
}

impl Default for FontType {
    fn default() -> (r: Self)
        ensures
            r == FontType::Dot,
    {
        FontType::Dot
    }
}

/// The font-family name that each preference selects.
pub open spec fn spec_font_family(t: FontType) -> Seq<char> {
    match t {
        FontType::Dot => "Nothing Font (5x7)"@,
        FontType::Serif => "C059"@,
    }
}

impl FontType {
    /// The concrete font-family name for this preference: a total mapping
    /// with one entry per variant.
    pub fn to_font_family(self) -> (r: &'static str)
        ensures
            r@ == spec_font_family(self),
    {
        match self {
            FontType::Dot => "Nothing Font (5x7)",
            FontType::Serif => "C059",
        }
    }
}

/// The mapping from preferences to family names has no outcome besides the
/// two named families.
pub proof fn lemma_font_family_total(t: FontType)
    ensures
        spec_font_family(t) == "Nothing Font (5x7)"@ || spec_font_family(t) == "C059"@,
{
}

/// The persisted preference record.
#[derive(Clone, Copy, Debug, PartialEq, Eq, Structural)]
pub struct PersonalizationConfig {
    pub font_type: FontType,
}

/// The record used when no stored record can be read or parsed.
pub open spec fn spec_default_config() -> PersonalizationConfig {
    PersonalizationConfig { font_type: FontType::Dot }
}

impl Default for PersonalizationConfig {
    fn default() -> (r: Self)
        ensures
            r == spec_default_config(),
    {
        PersonalizationConfig { font_type: FontType::Dot }
    }
}

// The stored text format is one key/value assignment, `font_type = "Dot"`
// or `font_type = "Serif"`, with any amount of blank space (spaces, tabs,
// newlines) before the key, around the `=`, and after the value. Anything
// else — a missing key, an unknown key, an unquoted or unknown variant
// name, or trailing content — is a parse failure; a document with only the
// one recognized assignment keeps the parser exact and errs consistently
// on unknown keys.

/// Bytes treated as blank space between the tokens of the stored format.
pub open spec fn is_ws_byte(b: u8) -> bool {
    b == 32 || b == 9 || b == 10 || b == 13
}

/// The first position at or after `i` holding a byte that is not blank
/// space; the document's length when only blank space remains.
pub open spec fn first_non_ws(s: Seq<u8>, i: int) -> int
    decreases s.len() - i,
{
    if i < 0 || i >= s.len() {
        s.len() as int
    } else if is_ws_byte(s[i]) {
        first_non_ws(s, i + 1)
    } else {
        i
    }
}

/// The recognized key, `font_type`, as bytes.
pub open spec fn key_bytes() -> Seq<u8> {
    seq![102u8, 111u8, 110u8, 116u8, 95u8, 116u8, 121u8, 112u8, 101u8]
}

/// The stored name of each variant, as bytes: `Dot` or `Serif`.
pub open spec fn variant_bytes(t: FontType) -> Seq<u8> {
    match t {
        FontType::Dot => seq![68u8, 111u8, 116u8],
        FontType::Serif => seq![83u8, 101u8, 114u8, 105u8, 102u8],
    }
}

/// A variant's stored name between double quotes.
pub open spec fn quoted_bytes(t: FontType) -> Seq<u8> {
    seq![34u8] + variant_bytes(t) + seq![34u8]
}

/// The quoted name of variant `t` stands at position `c`, followed only by
/// blank space to the end of the document.
pub open spec fn value_at(s: Seq<u8>, c: int, t: FontType) -> bool {
    &&& c + quoted_bytes(t).len() <= s.len()
    &&& s.subrange(c, c + quoted_bytes(t).len() as int) == quoted_bytes(t)
    &&& first_non_ws(s, c + quoted_bytes(t).len() as int) == s.len()
}

/// What a stored document means: `Some(t)` when it consists of blank
/// space, the key, `=`, the quoted name of `t`, and blank space, in that
/// order; `None` otherwise.
pub open spec fn spec_parse(s: Seq<u8>) -> Option<FontType> {
    let a = first_non_ws(s, 0);
    if !(a + key_bytes().len() <= s.len() && s.subrange(a, a + key_bytes().len() as int)
        == key_bytes()) {
        None
    } else {
        let b = first_non_ws(s, a + key_bytes().len() as int);
        if !(b < s.len() && s[b] == 61) {
            None
        } else {
            let c = first_non_ws(s, b + 1);
            if value_at(s, c, FontType::Dot) {
                Some(FontType::Dot)
            } else if value_at(s, c, FontType::Serif) {
                Some(FontType::Serif)
            } else {
                None
            }
        }
    }
}

/// The serialized form of a record: the key, ` = `, the quoted variant
/// name, and a final newline.
pub open spec fn spec_serialize(c: PersonalizationConfig) -> Seq<u8> {
    key_bytes() + seq![32u8, 61u8, 32u8] + quoted_bytes(c.font_type) + seq![10u8]
}

/// The recognized key as executable bytes.
fn key_vec() -> (r: Vec<u8>)
    ensures
        r@ == key_bytes(),
{
    let mut v: Vec<u8> = Vec::new();
    v.push(102);
    v.push(111);
    v.push(110);
    v.push(116);
    v.push(95);
    v.push(116);
    v.push(121);
    v.push(112);
    v.push(101);
    proof {
        assert(v@ =~= key_bytes());
    }
    v
}

/// A variant's quoted stored name as executable bytes.
fn quoted_vec(t: FontType) -> (r: Vec<u8>)
    ensures
        r@ == quoted_bytes(t),
{
    let mut v: Vec<u8> = Vec::new();
    v.push(34);
    match t {
        FontType::Dot => {
            v.push(68);
            v.push(111);
            v.push(116);
        },
        FontType::Serif => {
            v.push(83);
            v.push(101);
            v.push(114);
            v.push(105);
            v.push(102);
        },
    }
    v.push(34);
    proof {
        assert(v@ =~= quoted_bytes(t));
    }
    v
}

/// Serializes a record to the stored text format.
pub fn serialize_config(c: &PersonalizationConfig) -> (r: Vec<u8>)
    ensures
        r@ == spec_serialize(*c),
{
    let mut v = key_vec();
    v.push(32);
    v.push(61);
    v.push(32);
    let mut q = quoted_vec(c.font_type);
    v.append(&mut q);
    v.push(10);
    proof {
        assert(v@ =~= spec_serialize(*c));
    }
    v
}

/// Advances past blank space, to `first_non_ws(s@, from)`.
fn skip_ws(s: &[u8], from: usize) -> (r: usize)
    requires
        from <= s@.len(),
    ensures
        from <= r <= s@.len(),
        r == first_non_ws(s@, from as int),
        r < s@.len() ==> !is_ws_byte(s@[r as int]),
{
    let mut j = from;
    while j < s.len() && (s[j] == 32 || s[j] == 9 || s[j] == 10 || s[j] == 13)
        invariant
            from <= j <= s@.len(),
            first_non_ws(s@, from as int) == first_non_ws(s@, j as int),
        decreases s@.len() - j,
    {
        proof {
            assert(first_non_ws(s@, j as int) == first_non_ws(s@, j as int + 1));
        }
        j = j + 1;
    }
    j
}

/// Whether the bytes of `w` stand in `s` at position `i`.
fn bytes_eq_at(s: &[u8], i: usize, w: &[u8]) -> (r: bool)
    requires
        i <= s@.len(),
    ensures
        r == (i + w@.len() <= s@.len() && s@.subrange(i as int, i as int + w@.len() as int)
            == w@),
{
    let n = s.len();
    if n - i < w.len() {
        return false;
    }
    let mut k: usize = 0;
    while k < w.len()
        invariant
            k <= w@.len(),
            n == s@.len(),
            i + w@.len() <= n,
            forall|m: int| 0 <= m < k ==> s@[i + m] == w@[m],
        decreases w@.len() - k,
    {
        if s[i + k] != w[k] {
            proof {
                assert(s@.subrange(i as int, i as int + w@.len() as int)[k as int]
                    == s@[i + k as int]);
            }
            return false;
        }
        k = k + 1;
    }
    proof {
        assert(s@.subrange(i as int, i as int + w@.len() as int) =~= w@);
    }
    true
}

/// Parses a stored document; `None` exactly when the document does not
/// consist of the single recognized assignment.
pub fn parse_config(s: &[u8]) -> (r: Option<PersonalizationConfig>)
    ensures
        r == match spec_parse(s@) {
            Some(t) => Some(PersonalizationConfig { font_type: t }),
            None => None::<PersonalizationConfig>,
        },
{
    let n = s.len();
    let key = key_vec();
    let a = skip_ws(s, 0);
    if !bytes_eq_at(s, a, key.as_slice()) {
        return None;
    }
    assert(a + key@.len() <= n);
    let b = skip_ws(s, a + key.len());
    if b == s.len() || s[b] != 61 {
        return None;
    }
    let c = skip_ws(s, b + 1);
    let dot = quoted_vec(FontType::Dot);
    if bytes_eq_at(s, c, dot.as_slice()) {
        assert(c + dot@.len() <= n);
        let e = skip_ws(s, c + dot.len());
        if e == s.len() {
            return Some(PersonalizationConfig { font_type: FontType::Dot });
        }
        proof {
            lemma_quoted_distinct(s@, c as int);
        }
        return None;
    }
    let serif = quoted_vec(FontType::Serif);
    if bytes_eq_at(s, c, serif.as_slice()) {
        assert(c + serif@.len() <= n);
        let e = skip_ws(s, c + serif.len());
        if e == s.len() {
            return Some(PersonalizationConfig { font_type: FontType::Serif });
        }
        return None;
    }
    None
}

/// Why a stored record had to be replaced by the default.
#[derive(Clone, Copy, Debug, PartialEq, Eq, Structural)]
pub enum LoadFailure {
    /// The stored document could not be read at all.
    ReadFailed,
    /// The stored document was read but is not a valid record.
    ParseFailed,
}

/// The outcome of resolving a load: either the stored record parsed, and
/// nothing is to be written, or the default record stands in, with its
/// serialized form to be persisted over the stored document.
#[derive(Debug)]
pub enum LoadResolution {
    Parsed(PersonalizationConfig),
    Fallback(LoadFailure, PersonalizationConfig, Vec<u8>),
}

/// Resolves a load attempt from what the read returned (`None`: the read
/// itself failed). Total: every outcome carries a usable record, and only
/// a failed read or parse asks for a write-back of the serialized default.
pub fn resolve_load(contents: Option<&[u8]>) -> (r: LoadResolution)
    ensures
        match contents {
            Some(s) => match spec_parse(s@) {
                Some(t) => r == LoadResolution::Parsed(PersonalizationConfig { font_type: t }),
                None => (r matches LoadResolution::Fallback(f, c, w) && f
                    == LoadFailure::ParseFailed && c == spec_default_config() && w@
                    == spec_serialize(spec_default_config())),
            },
            None => (r matches LoadResolution::Fallback(f, c, w) && f == LoadFailure::ReadFailed
                && c == spec_default_config() && w@ == spec_serialize(spec_default_config())),
        },
{
    match contents {
        Some(s) => match parse_config(s) {
            Some(c) => LoadResolution::Parsed(c),
            None => {
                let d = PersonalizationConfig { font_type: FontType::Dot };
                let w = serialize_config(&d);
                LoadResolution::Fallback(LoadFailure::ParseFailed, d, w)
            },
        },
        None => {
            let d = PersonalizationConfig { font_type: FontType::Dot };
            let w = serialize_config(&d);
            LoadResolution::Fallback(LoadFailure::ReadFailed, d, w)
        },
    }
}

/// Round trip: serializing any record and parsing the result yields the
/// same record's font preference.
pub proof fn lemma_serialize_parse_round_trip(c: PersonalizationConfig)
    ensures
        spec_parse(spec_serialize(c)) == Some(c.font_type),
{
    let s = spec_serialize(c);
    assert(key_bytes().len() == 9);
    assert(s.subrange(0, 9) =~= key_bytes());
    assert(s[0] == 102);
    assert(first_non_ws(s, 0) == 0);
    assert(s[9] == 32 && s[10] == 61 && s[11] == 32 && s[12] == 34);
    assert(first_non_ws(s, 9) == first_non_ws(s, 10));
    assert(first_non_ws(s, 10) == 10);
    assert(first_non_ws(s, 11) == first_non_ws(s, 12));
    assert(first_non_ws(s, 12) == 12);
    match c.font_type {
        FontType::Dot => {
            assert(quoted_bytes(FontType::Dot).len() == 5);
            assert(s.len() == 18);
            assert(s.subrange(12, 17) =~= quoted_bytes(FontType::Dot));
            assert(s[17] == 10);
            assert(first_non_ws(s, 17) == first_non_ws(s, 18));
            assert(first_non_ws(s, 18) == 18);
            assert(value_at(s, 12, FontType::Dot));
        },
        FontType::Serif => {
            assert(quoted_bytes(FontType::Serif).len() == 7);
            assert(s.len() == 20);
            assert(s.subrange(12, 19) =~= quoted_bytes(FontType::Serif));
            assert(s[19] == 10);
            assert(first_non_ws(s, 19) == first_non_ws(s, 20));
            assert(first_non_ws(s, 20) == 20);
            assert(value_at(s, 12, FontType::Serif));
            assert(!value_at(s, 12, FontType::Dot)) by {
                lemma_quoted_distinct(s, 12);
            };
        },
    }
}

/// The fallback's write-back parses again as the default record: a load
/// after a completed fallback takes the valid-parse path.
pub proof fn lemma_fallback_write_reparses()
    ensures
        spec_parse(spec_serialize(spec_default_config())) == Some(
            spec_default_config().font_type,
        ),
{
    lemma_serialize_parse_round_trip(spec_default_config());
}

/// At one position at most one variant's quoted name can stand: the two
/// names differ in their first letter.
proof fn lemma_quoted_distinct(s: Seq<u8>, c: int)
    requires
        0 <= c,
    ensures
        !(c + quoted_bytes(FontType::Dot).len() <= s.len() && s.subrange(
            c,
            c + quoted_bytes(FontType::Dot).len() as int,
        ) == quoted_bytes(FontType::Dot) && c + quoted_bytes(FontType::Serif).len() <= s.len()
            && s.subrange(c, c + quoted_bytes(FontType::Serif).len() as int) == quoted_bytes(
            FontType::Serif,
        )),
{
    if c + quoted_bytes(FontType::Dot).len() <= s.len() && s.subrange(
        c,
        c + quoted_bytes(FontType::Dot).len() as int,
    ) == quoted_bytes(FontType::Dot) && c + quoted_bytes(FontType::Serif).len() <= s.len()
        && s.subrange(c, c + quoted_bytes(FontType::Serif).len() as int) == quoted_bytes(
        FontType::Serif,
    ) {
        assert(quoted_bytes(FontType::Dot).len() == 5);
        assert(quoted_bytes(FontType::Serif).len() == 7);
        assert(s.subrange(c, c + 5)[1] == s[c + 1]);
        assert(s.subrange(c, c + 7)[1] == s[c + 1]);
        assert(quoted_bytes(FontType::Dot)[1] == variant_bytes(FontType::Dot)[0]);
        assert(quoted_bytes(FontType::Serif)[1] == variant_bytes(FontType::Serif)[0]);
    }
}

} // verus!

