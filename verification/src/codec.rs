//! Image codec features and codec selection.
use vstd::prelude::*;

verus! {

/// A feature of an image codec.
#[derive(Clone, Copy, Debug, PartialEq, Eq, PartialOrd)]
pub enum ImageCodecFeatures {
    Read,
    Write,
    Lossless,
    Lossy,
    MultiFrame,
    Iptc,
    Exif,
    Xmp,
}

impl ImageCodecFeatures {
    /// The value blend2d uses for this variant.
    pub open spec fn bl_value(self) -> u32 {
        match self {
            ImageCodecFeatures::Read => 0x01,
            ImageCodecFeatures::Write => 0x02,
            ImageCodecFeatures::Lossless => 0x04,
            ImageCodecFeatures::Lossy => 0x08,
            ImageCodecFeatures::MultiFrame => 0x10,
            ImageCodecFeatures::Iptc => 0x1000_0000,
            ImageCodecFeatures::Exif => 0x2000_0000,
            ImageCodecFeatures::Xmp => 0x4000_0000,
        }
    }

    /// Looks a blend2d value up: the variant that has it, or the default
    /// variant for a value that no variant has.
    pub open spec fn from_bl_value(value: u32) -> ImageCodecFeatures {
        if value == 0x01 {
            ImageCodecFeatures::Read
        } else if value == 0x02 {
            ImageCodecFeatures::Write
        } else if value == 0x04 {
            ImageCodecFeatures::Lossless
        } else if value == 0x08 {
            ImageCodecFeatures::Lossy
        } else if value == 0x10 {
            ImageCodecFeatures::MultiFrame
        } else if value == 0x1000_0000 {
            ImageCodecFeatures::Iptc
        } else if value == 0x2000_0000 {
            ImageCodecFeatures::Exif
        } else if value == 0x4000_0000 {
            ImageCodecFeatures::Xmp
        } else {
            ImageCodecFeatures::Read
        }
    }

    /// Distinct variants have distinct blend2d values.
    pub proof fn lemma_bl_value_injective(a: ImageCodecFeatures, b: ImageCodecFeatures)
        requires
            a.bl_value() == b.bl_value(),
        ensures
            a == b,
    {
    }

    /// Converting a variant to its blend2d value and back gives the same variant.
    pub proof fn lemma_value_roundtrip(self)
        ensures
            ImageCodecFeatures::from_bl_value(self.bl_value()) == self,
    {
    }

    /// Looking a value up gives the variant that has it, and the default
    /// variant exactly where no variant has it.
    pub proof fn lemma_from_bl_value(value: u32)
        ensures
            (exists|v: ImageCodecFeatures| v.bl_value() == value) ==> ImageCodecFeatures::from_bl_value(value).bl_value() == value,
            (forall|v: ImageCodecFeatures| v.bl_value() != value) ==> ImageCodecFeatures::from_bl_value(value) == ImageCodecFeatures::Read,
    {
        if forall|v: ImageCodecFeatures| v.bl_value() != value {
            assert(ImageCodecFeatures::Read.bl_value() != value);
            assert(ImageCodecFeatures::Write.bl_value() != value);
            assert(ImageCodecFeatures::Lossless.bl_value() != value);
            assert(ImageCodecFeatures::Lossy.bl_value() != value);
            assert(ImageCodecFeatures::MultiFrame.bl_value() != value);
            assert(ImageCodecFeatures::Iptc.bl_value() != value);
            assert(ImageCodecFeatures::Exif.bl_value() != value);
            assert(ImageCodecFeatures::Xmp.bl_value() != value);
        }
    }
}

impl From<u32> for ImageCodecFeatures {
    fn from(val: u32) -> (r: ImageCodecFeatures) {
        if val == 0x01 {
            ImageCodecFeatures::Read
        } else if val == 0x02 {
            ImageCodecFeatures::Write
        } else if val == 0x04 {
            ImageCodecFeatures::Lossless
        } else if val == 0x08 {
            ImageCodecFeatures::Lossy
        } else if val == 0x10 {
            ImageCodecFeatures::MultiFrame
        } else if val == 0x1000_0000 {
            ImageCodecFeatures::Iptc
        } else if val == 0x2000_0000 {
            ImageCodecFeatures::Exif
        } else if val == 0x4000_0000 {
            ImageCodecFeatures::Xmp
        } else {
            ImageCodecFeatures::Read
        }
    }
}

impl vstd::std_specs::convert::FromSpecImpl<u32> for ImageCodecFeatures {
    open spec fn obeys_from_spec() -> bool {
        true
    }

    open spec fn from_spec(val: u32) -> ImageCodecFeatures {
        ImageCodecFeatures::from_bl_value(val)
    }
}

impl From<ImageCodecFeatures> for u32 {
    fn from(val: ImageCodecFeatures) -> (r: u32) {
        match val {
            ImageCodecFeatures::Read => 0x01,
            ImageCodecFeatures::Write => 0x02,
            ImageCodecFeatures::Lossless => 0x04,
            ImageCodecFeatures::Lossy => 0x08,
            ImageCodecFeatures::MultiFrame => 0x10,
            ImageCodecFeatures::Iptc => 0x1000_0000,
            ImageCodecFeatures::Exif => 0x2000_0000,
            ImageCodecFeatures::Xmp => 0x4000_0000,
        }
    }
}

impl vstd::std_specs::convert::FromSpecImpl<ImageCodecFeatures> for u32 {
    open spec fn obeys_from_spec() -> bool {
        true
    }

    open spec fn from_spec(val: ImageCodecFeatures) -> u32 {
        val.bl_value()
    }
}

impl Default for ImageCodecFeatures {
    fn default() -> (r: ImageCodecFeatures)
        ensures
            r == ImageCodecFeatures::Read,
    {
        ImageCodecFeatures::Read
    }
}

/// Picks the codec that claims some data most strongly, given the score each
/// codec gave the data: the first codec with the highest score, or `None` where
/// every codec scored zero.
pub fn best_scoring_codec(scores: &[u32]) -> (r: Option<usize>)
    ensures
        r is None <==> (forall|i: int| 0 <= i < scores@.len() ==> scores@[i] == 0),
        r matches Some(k) ==> {
            &&& k < scores@.len()
            &&& scores@[k as int] > 0
            &&& forall|i: int| 0 <= i < scores@.len() ==> scores@[i] <= scores@[k as int]
            &&& forall|i: int| 0 <= i < k ==> scores@[i] < scores@[k as int]
        },
{
    let mut best_score: u32 = 0;
    let mut candidate: Option<usize> = None;
    let mut i: usize = 0;
    while i < scores.len()
        invariant
            i <= scores@.len(),
            candidate is None ==> best_score == 0,
            candidate is None ==> forall|j: int| 0 <= j < i ==> scores@[j] == 0,
            candidate matches Some(k) ==> {
                &&& k < i
                &&& best_score == scores@[k as int]
                &&& best_score > 0
                &&& forall|j: int| 0 <= j < i ==> scores@[j] <= best_score
                &&& forall|j: int| 0 <= j < k ==> scores@[j] < best_score
            },
        decreases scores@.len() - i,
    {
        let score = scores[i];
        if score > best_score {
            best_score = score;
            candidate = Some(i);
        }
        i = i + 1;
    }
    candidate
}

/// Whether two strings are equal, compared byte by byte.
fn str_equal(a: &str, b: &str) -> (r: bool)
    ensures
        r == (a@ == b@),
{
    let x = a.as_bytes();
    let y = b.as_bytes();
    proof {
        vstd::utf8::encode_utf8_decode_utf8(a@);
        vstd::utf8::encode_utf8_decode_utf8(b@);
    }
    if x.len() != y.len() {
        return false;
    }
    let mut i: usize = 0;
    while i < x.len()
        invariant
            x@ == vstd::utf8::encode_utf8(a@),
            y@ == vstd::utf8::encode_utf8(b@),
            x@.len() == y@.len(),
            i <= x@.len(),
            forall|j: int| 0 <= j < i ==> x@[j] == y@[j],
        decreases x@.len() - i,
    {
        if x[i] != y[i] {
            return false;
        }
        i = i + 1;
    }
    assert(x@ =~= y@);
    true
}

/// Finds a codec by its name, given the name of each codec: the first codec
/// with that name, or `None` where no codec has it.
pub fn codec_index_by_name(names: &[&str], name: &str) -> (r: Option<usize>)
    ensures
        r is None <==> (forall|i: int| 0 <= i < names@.len() ==> names@[i]@ != name@),
        r matches Some(k) ==> {
            &&& k < names@.len()
            &&& names@[k as int]@ == name@
            &&& forall|i: int| 0 <= i < k ==> names@[i]@ != name@
        },
{
    let mut i: usize = 0;
    while i < names.len()
        invariant
            i <= names@.len(),
            forall|j: int| 0 <= j < i ==> names@[j]@ != name@,
        decreases names@.len() - i,
    {
        if str_equal(names[i], name) {
            return Some(i);
        }
        i = i + 1;
    }
    None
}

/// The byte that separates the file extensions of a codec.
pub const EXTENSION_SEPARATOR: u8 = 0x7C;

/// The index of the first `sep` byte of `s`, or the length of `s` where it
/// holds none.
pub open spec fn first_sep(s: Seq<u8>, sep: u8) -> nat
    decreases s.len(),
{
    if s.len() == 0 {
        0
    } else if s[0] == sep {
        0
    } else {
        1 + first_sep(s.drop_first(), sep)
    }
}

/// The pieces of `s` between its `sep` bytes, in order; `s` with no `sep` byte
/// is one piece.
pub open spec fn split_bytes(s: Seq<u8>, sep: u8) -> Seq<Seq<u8>>
    decreases s.len(),
{
    let k = first_sep(s, sep);
    if k >= s.len() {
        seq![s]
    } else {
        seq![s.take(k as int)] + split_bytes(s.skip(k + 1 as int), sep)
    }
}

/// The first `sep` byte is the one with no `sep` byte before it.
proof fn lemma_first_sep(s: Seq<u8>, sep: u8, k: int)
    requires
        0 <= k <= s.len(),
        forall|j: int| 0 <= j < k ==> s[j] != sep,
        k == s.len() || s[k] == sep,
    ensures
        first_sep(s, sep) == k,
    decreases k,
{
    if k > 0 {
        assert forall|j: int| 0 <= j < k - 1 implies s.drop_first()[j] != sep by {
            assert(s.drop_first()[j] == s[j + 1]);
        }
        if k < s.len() {
            assert(s.drop_first()[k - 1] == s[k]);
        }
        lemma_first_sep(s.drop_first(), sep, k - 1);
    }
}

/// Joins pieces of bytes, putting a `sep` byte between each two pieces.
pub open spec fn join_bytes(pieces: Seq<Seq<u8>>, sep: u8) -> Seq<u8>
    decreases pieces.len(),
{
    if pieces.len() == 0 {
        seq![]
    } else if pieces.len() == 1 {
        pieces[0]
    } else {
        pieces[0] + seq![sep] + join_bytes(pieces.drop_first(), sep)
    }
}

/// The index of the first `sep` byte lies inside `s`, or is its length.
proof fn lemma_first_sep_bounds(s: Seq<u8>, sep: u8)
    ensures
        first_sep(s, sep) <= s.len(),
        first_sep(s, sep) < s.len() ==> s[first_sep(s, sep) as int] == sep,
        forall|j: int| 0 <= j < first_sep(s, sep) ==> s[j] != sep,
    decreases s.len(),
{
    if s.len() > 0 && s[0] != sep {
        lemma_first_sep_bounds(s.drop_first(), sep);
        assert forall|j: int| 0 <= j < first_sep(s, sep) implies s[j] != sep by {
            if j > 0 {
                assert(s[j] == s.drop_first()[j - 1]);
            }
        }
    }
}

/// Splitting at the separator gives back the bytes when the pieces are joined
/// with it again, and no piece holds the separator.
pub proof fn lemma_split_join(s: Seq<u8>, sep: u8)
    ensures
        split_bytes(s, sep).len() >= 1,
        join_bytes(split_bytes(s, sep), sep) == s,
        forall|i: int, j: int|
            0 <= i < split_bytes(s, sep).len() && 0 <= j < split_bytes(s, sep)[i].len()
                ==> split_bytes(s, sep)[i][j] != sep,
    decreases s.len(),
{
    lemma_first_sep_bounds(s, sep);
    let k = first_sep(s, sep);
    if k < s.len() {
        let rest = s.skip(k + 1 as int);
        lemma_split_join(rest, sep);
        let pieces = split_bytes(s, sep);
        assert(pieces == seq![s.take(k as int)] + split_bytes(rest, sep));
        assert(pieces.drop_first() =~= split_bytes(rest, sep));
        assert(join_bytes(pieces, sep) == s.take(k as int) + seq![sep] + rest);
        assert(s.take(k as int) + seq![sep] + rest =~= s);
        assert forall|i: int, j: int|
            0 <= i < pieces.len() && 0 <= j < pieces[i].len() implies pieces[i][j] != sep by {
            if i > 0 {
                assert(pieces[i] == split_bytes(rest, sep)[i - 1]);
            }
        }
    }
}

/// The bytes of a string's UTF-8 encoding.
pub open spec fn str_bytes(s: &str) -> Seq<u8> {
    vstd::utf8::encode_utf8(s@)
}

/// Splits the extension list of a codec (extensions separated by `|`) into
/// its extensions, in order.
pub fn split_extensions(list: &str) -> (r: Vec<&str>)
    ensures
        r@.map_values(|p: &str| str_bytes(p)) == split_bytes(str_bytes(list), EXTENSION_SEPARATOR),
{
    let mut out: Vec<&str> = Vec::new();
    let mut rest: &str = list;
    loop
        invariant_except_break
            out@.map_values(|p: &str| str_bytes(p)) + split_bytes(str_bytes(rest), EXTENSION_SEPARATOR)
                == split_bytes(str_bytes(list), EXTENSION_SEPARATOR),
        ensures
            out@.map_values(|p: &str| str_bytes(p)) == split_bytes(str_bytes(list), EXTENSION_SEPARATOR),
        decreases str_bytes(rest).len(),
    {
        let bytes = rest.as_bytes();
        let ghost rb = str_bytes(rest);
        let mut k: usize = 0;
        while k < bytes.len() && bytes[k] != EXTENSION_SEPARATOR
            invariant
                bytes@ == rb,
                k <= bytes@.len(),
                forall|j: int| 0 <= j < k ==> bytes@[j] != EXTENSION_SEPARATOR,
            decreases bytes@.len() - k,
        {
            k = k + 1;
        }
        proof {
            lemma_first_sep(rb, EXTENSION_SEPARATOR, k as int);
        }
        if k == bytes.len() {
            let ghost before = out@;
            out.push(rest);
            assert(out@.map_values(|p: &str| str_bytes(p)) =~= before.map_values(|p: &str| str_bytes(p)) + seq![rb]);
            break;
        }
        proof {
            vstd::utf8::encode_utf8_valid_utf8(rest@);
            vstd::utf8::is_char_boundary_iff_not_is_continuation_byte(rb, k as int);
        }
        let (piece, tail) = rest.split_at(k);
        proof {
            let tb = vstd::utf8::encode_utf8(tail@);
            vstd::utf8::encode_utf8_valid_utf8(tail@);
            assert(tb[0] == EXTENSION_SEPARATOR);
            reveal_with_fuel(vstd::utf8::is_char_boundary, 2);
            assert(vstd::utf8::is_char_boundary(tb, 1));
        }
        let (_, next) = tail.split_at(1);
        let ghost before = out@;
        out.push(piece);
        proof {
            assert(str_bytes(piece) =~= rb.take(k as int));
            assert(str_bytes(next) =~= rb.skip(k + 1));
            assert(out@.map_values(|p: &str| str_bytes(p)) =~= before.map_values(|p: &str| str_bytes(p)) + seq![str_bytes(piece)]);
        }
        rest = next;
    }
    out
}

} // verus!
