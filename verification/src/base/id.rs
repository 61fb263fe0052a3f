//! A common identifier type: an opaque, comparable token backed by a string.
//! Identifiers can be drawn at random, prefixed, and chained into paths whose
//! segments are joined by a separator.

use vstd::prelude::*;
use vstd::std_specs::iter::IteratorSpec;
use vstd::string::StringExecFns;

verus! {

broadcast use vstd::string::group_string_axioms;

/// The errors raised when creating or parsing an identifier.
#[derive(Clone, Copy, Debug, PartialEq, Eq, Structural)]
pub enum IdErrorKind {
    /// An identifier may not be an empty string.
    EmptyString,
    /// An identifier contains invalid character(s).
    InvalidCharacter,
}

/// Names the result of `char::is_alphanumeric`: whether the character is
/// alphabetic or numeric under Unicode. The result depends on the
/// character alone.
pub uninterp spec fn alnum_of(c: char) -> bool;

/// Relies on `char::is_alphanumeric`: whether the character is alphabetic
/// or numeric under Unicode, named [`alnum_of`]. ASCII letters and digits
/// are alphanumeric.
#[verifier::external_body]
pub(crate) fn char_is_alphanumeric(c: char) -> (r: bool)
    ensures
        r == alnum_of(c),
        (('0' <= c && c <= '9') || ('a' <= c && c <= 'z') || ('A' <= c && c <= 'Z')) ==> r,
{
    c.is_alphanumeric()
}

/// True of the characters that may appear in an identifier: alphanumerics
/// under Unicode, `-`, `_` and `:`.
pub open spec fn valid_id_char(c: char) -> bool {
    alnum_of(c) || c == '-' || c == '_' || c == ':'
}

/// An identifier's text is valid when it is non-empty and every character
/// is allowed.
pub open spec fn valid_id_chars(s: Seq<char>) -> bool {
    s.len() > 0 && forall|i: int| 0 <= i < s.len() ==> valid_id_char(#[trigger] s[i])
}

/// The outcome of checking a candidate identifier text.
pub open spec fn spec_validate_id(s: Seq<char>) -> Result<(), IdErrorKind> {
    if s.len() == 0 {
        Err(IdErrorKind::EmptyString)
    } else if valid_id_chars(s) {
        Ok(())
    } else {
        Err(IdErrorKind::InvalidCharacter)
    }
}

/// Relies on `blob_uuid::random_blob`: a fresh UUID rendered as 22
/// characters of the URL-safe base64 alphabet, that is ASCII letters,
/// digits, `-` and `_`.
#[verifier::external_body]
pub(crate) fn random_blob_value() -> (r: String)
    ensures
        r@.len() == 22,
        forall|i: int| 0 <= i < r@.len() ==> valid_id_char(#[trigger] r@[i]),
{
    blob_uuid::random_blob()
}

/// Checks a candidate identifier text against the identifier alphabet.
pub(crate) fn validate_str(s: &str) -> (r: Result<(), IdErrorKind>)
    ensures
        r == spec_validate_id(s@),
{
    if s.is_empty() {
        return Err(IdErrorKind::EmptyString);
    }
    let ghost total = s@;
    proof {
        assert(total.subrange(0, total.len() as int) =~= total);
    }
    let mut it = s.chars();
    let ghost mut i: int = 0;
    loop
        invariant
            total == s@,
            total.len() > 0,
            0 <= i <= total.len(),
            it.obeys_prophetic_iter_laws(),
            it.remaining() == total.subrange(i, total.len() as int),
            forall|k: int| 0 <= k < i ==> valid_id_char(#[trigger] total[k]),
        decreases total.len() - i,
    {
        match it.next() {
            None => {
                proof {
                    assert(total.subrange(i, total.len() as int).len() == 0);
                }
                return Ok(());
            },
            Some(c) => {
                proof {
                    assert(c == total.subrange(i, total.len() as int)[0]);
                    assert(total.subrange(i, total.len() as int).drop_first() =~= total.subrange(
                        i + 1,
                        total.len() as int,
                    ));
                }
                let ok = char_is_alphanumeric(c) || c == '-' || c == '_' || c == ':';
                if !ok {
                    proof {
                        assert(!valid_id_char(total[i]));
                    }
                    return Err(IdErrorKind::InvalidCharacter);
                }
                proof {
                    i = i + 1;
                }
            },
        }
    }
}

/// The separator placed between the segments of a path-like identifier.
pub fn default_split_separator() -> (r: String)
    ensures
        r@ == "::"@,
{
    "::".to_owned()
}

/// Whether the separator stands at position `i` of the text.
pub open spec fn separator_at(s: Seq<char>, i: int) -> bool {
    0 <= i && i + 2 <= s.len() && s[i] == ':' && s[i + 1] == ':'
}

/// The position of the first separator at or after `i`, if any.
pub open spec fn first_separator_from(s: Seq<char>, i: int) -> Option<int>
    decreases s.len() - i,
{
    if i < 0 || i + 2 > s.len() {
        None
    } else if separator_at(s, i) {
        Some(i)
    } else {
        first_separator_from(s, i + 1)
    }
}

/// The pieces of a text between occurrences of the separator, leftmost
/// first: the text up to its first separator, then the split of what
/// follows that separator. A text without a separator is one piece.
pub open spec fn split_text(s: Seq<char>) -> Seq<Seq<char>>
    decreases s.len(),
{
    match first_separator_from(s, 0) {
        None => seq![s],
        Some(i) => if separator_at(s, i) {
            seq![s.subrange(0, i)] + split_text(s.subrange(i + 2, s.len() as int))
        } else {
            // the first separator found always is one; this arm keeps the
            // definition total
            seq![s]
        },
    }
}

/// The subsequence of pieces whose text is valid identifier text, from
/// position `i` on.
pub open spec fn valid_pieces_from(pieces: Seq<Seq<char>>, i: int) -> Seq<Seq<char>>
    decreases pieces.len() - i,
{
    if i < 0 || i >= pieces.len() {
        Seq::empty()
    } else if valid_id_chars(pieces[i]) {
        seq![pieces[i]] + valid_pieces_from(pieces, i + 1)
    } else {
        valid_pieces_from(pieces, i + 1)
    }
}

/// Relies on `str::split`: the pieces of the text between occurrences of
/// the `::` separator, leftmost first and non-overlapping, exactly as
/// [`split_text`] prescribes.
#[verifier::external_body]
fn split_on_separator(s: &str) -> (r: Vec<String>)
    ensures
        r@.map_values(|p: String| p@) == split_text(s@),
{
    s.split("::").map(|p| p.to_string()).collect()
}

/// Splits a text on the separator and keeps the pieces that are valid
/// identifier text.
pub(crate) fn split_valid_segments(s: &str) -> (r: Vec<String>)
    ensures
        r@.map_values(|p: String| p@) == valid_pieces_from(split_text(s@), 0),
        forall|k: int| 0 <= k < r@.len() ==> valid_id_chars((#[trigger] r@[k])@),
{
    let pieces = split_on_separator(s);
    let ghost views = pieces@.map_values(|p: String| p@);
    let n = pieces.len();
    let mut r: Vec<String> = Vec::new();
    let mut i: usize = 0;
    while i < n
        invariant
            n == pieces@.len(),
            i <= n,
            views == pieces@.map_values(|p: String| p@),
            views == split_text(s@),
            valid_pieces_from(views, 0) == r@.map_values(|p: String| p@) + valid_pieces_from(
                views,
                i as int,
            ),
            forall|k: int| 0 <= k < r@.len() ==> valid_id_chars((#[trigger] r@[k])@),
        decreases n - i,
    {
        let keep = match validate_str(pieces[i].as_str()) {
            Ok(()) => true,
            Err(_) => false,
        };
        if keep {
            let ghost r_views_old = r@.map_values(|p: String| p@);
            let piece = pieces[i].clone();
            r.push(piece);
            proof {
                assert(r@.map_values(|p: String| p@) =~= r_views_old + seq![views[i as int]]);
                assert(r_views_old + (seq![views[i as int]] + valid_pieces_from(
                    views,
                    i as int + 1,
                )) =~= (r_views_old + seq![views[i as int]]) + valid_pieces_from(
                    views,
                    i as int + 1,
                ));
            }
        }
        i = i + 1;
    }
    proof {
        assert(valid_pieces_from(views, n as int) =~= Seq::<Seq<char>>::empty());
        assert(r@.map_values(|p: String| p@) + Seq::<Seq<char>>::empty() =~= r@.map_values(
            |p: String| p@,
        ));
    }
    r
}

/// The identifier type. It is purposefully opaque, but can be rendered as a
/// `String` and parsed from one.
#[derive(Debug, Eq, Hash)]
pub struct ID {
    value: String,
}

impl View for ID {
    type V = Seq<char>;

    closed spec fn view(&self) -> Seq<char> {
        self.value@
    }
}

impl PartialEq for ID {
    fn eq(&self, other: &Self) -> bool {
        self.value == other.value
    }
}

impl vstd::std_specs::cmp::PartialEqSpecImpl for ID {
    open spec fn obeys_eq_spec() -> bool {
        true
    }

    open spec fn eq_spec(&self, other: &ID) -> bool {
        self@ == other@
    }
}

impl Clone for ID {
    fn clone(&self) -> (r: Self)
        ensures
            r == *self,
    {
        ID { value: self.value.clone() }
    }
}

impl ID {
    /// Parses an identifier, rejecting empty or ill-formed text.
    pub fn new(s: &str) -> (r: Result<Self, IdErrorKind>)
        ensures
            match r {
                Ok(id) => spec_validate_id(s@) is Ok && id@ == s@,
                Err(e) => spec_validate_id(s@) == Err::<(), IdErrorKind>(e),
            },
    {
        match validate_str(s) {
            Ok(()) => Ok(ID { value: s.to_owned() }),
            Err(e) => Err(e),
        }
    }

    /// A fresh identifier drawn at random.
    pub fn random() -> (r: Self)
        ensures
            valid_id_chars(r@),
            r@.len() == 22,
    {
        ID { value: random_blob_value() }
    }

    /// A fresh identifier drawn at random under the given prefix, which must
    /// itself be valid identifier text: the prefix, the separator, and a
    /// fresh valid segment.
    pub fn random_with_prefix(prefix: &str) -> (r: Result<Self, IdErrorKind>)
        ensures
            match r {
                Ok(id) => spec_validate_id(prefix@) is Ok && valid_id_chars(id@) && id@.len()
                    == prefix@.len() + 24 && id@.subrange(0, prefix@.len() as int) == prefix@
                    && id@[prefix@.len() as int] == ':' && id@[prefix@.len() as int + 1] == ':'
                    && valid_id_chars(id@.subrange(prefix@.len() as int + 2, id@.len() as int)),
                Err(e) => spec_validate_id(prefix@) == Err::<(), IdErrorKind>(e),
            },
    {
        match validate_str(prefix) {
            Ok(()) => {
                let blob = random_blob_value();
                let mut value = prefix.to_owned();
                value.append("::");
                value.append(blob.as_str());
                proof {
                    reveal_strlit("::");
                    assert(value@.subrange(0, prefix@.len() as int) =~= prefix@);
                    assert(value@.subrange(prefix@.len() as int + 2, value@.len() as int)
                        =~= blob@);
                    assert forall|i: int| 0 <= i < value@.len() implies valid_id_char(
                        #[trigger] value@[i],
                    ) by {
                        if i < prefix@.len() {
                            assert(value@[i] == prefix@[i]);
                        } else if i < prefix@.len() + 2 {
                            assert(value@[i] == ':');
                        } else {
                            assert(value@[i] == blob@[i - prefix@.len() - 2]);
                        }
                    }
                }
                Ok(ID { value })
            },
            Err(e) => Err(e),
        }
    }

    /// The designated invalid identifier, used as a placeholder before a
    /// real identifier is assigned.
    pub fn invalid() -> (r: Self)
        ensures
            r@ == "<invalid-state-tag>"@,
    {
        ID { value: "<invalid-state-tag>".to_owned() }
    }

    /// Extends this identifier with a separator and a fresh random segment.
    pub fn append_random(&self) -> (r: Self)
        ensures
            r@.len() == self@.len() + 24,
            r@.subrange(0, self@.len() as int) == self@,
            r@[self@.len() as int] == ':' && r@[self@.len() as int + 1] == ':',
            forall|i: int| self@.len() + 2 <= i < r@.len() ==> valid_id_char(#[trigger] r@[i]),
    {
        let blob = random_blob_value();
        let mut value = self.value.clone();
        value.append("::");
        value.append(blob.as_str());
        proof {
            reveal_strlit("::");
            assert(value@.subrange(0, self@.len() as int) =~= self@);
            assert forall|i: int| self@.len() + 2 <= i < value@.len() implies valid_id_char(
                #[trigger] value@[i],
            ) by {
                assert(value@[i] == blob@[i - self@.len() - 2]);
            }
        }
        ID { value }
    }

    /// Splits this identifier on the separator, leftmost first, and
    /// returns an identifier for every piece that is valid identifier
    /// text; ill-formed pieces are dropped.
    pub fn split(&self) -> (r: Vec<ID>)
        ensures
            r@.map_values(|x: ID| x@) == valid_pieces_from(split_text(self@), 0),
    {
        let segments = split_valid_segments(self.value.as_str());
        let ghost seg_views = segments@.map_values(|p: String| p@);
        let n = segments.len();
        let mut r: Vec<ID> = Vec::new();
        let mut i: usize = 0;
        while i < n
            invariant
                n == segments@.len(),
                i <= n,
                seg_views == segments@.map_values(|p: String| p@),
                r@.len() == i,
                forall|k: int| 0 <= k < i ==> (#[trigger] r@[k])@ == seg_views[k],
            decreases n - i,
        {
            let seg = segments[i].clone();
            proof {
                assert(seg@ == seg_views[i as int]);
            }
            r.push(ID { value: seg });
            i = i + 1;
        }
        proof {
            assert(r@.map_values(|x: ID| x@) =~= seg_views);
        }
        r
    }

    /// Renders the identifier as a string.
    pub fn to_string(&self) -> (r: String)
        ensures
            r@ == self@,
    {
        self.value.clone()
    }
}

impl std::str::FromStr for ID {
    type Err = IdErrorKind;

    fn from_str(s: &str) -> Result<Self, Self::Err> {
        ID::new(s)
    }
}

} // verus!
