//! The identifier type used by the metamodel: an opaque, comparable token
//! backed by a string, with random and prefixed generation, suffix
//! appending and path-like chaining.

use vstd::prelude::*;
use vstd::string::StringExecFns;

use crate::base::id::{random_blob_value, spec_validate_id, split_text, split_valid_segments,
    valid_id_char, valid_id_chars, valid_pieces_from, validate_str, IdErrorKind};

verus! {

broadcast use vstd::string::group_string_axioms;

/// The separator placed between the segments of a path-like identifier.
pub fn default_split_separator() -> (r: String)
    ensures
        r@ == "::"@,
{
    "::".to_owned()
}

/// The identifier type of the metamodel. It is purposefully opaque, but can
/// be rendered as a `String` and parsed from one.
#[derive(Debug, Eq, Hash)]
pub struct ID {
    value: String,
}

impl View for ID {
    type V = Seq<char>;

    closed spec fn view(&self) -> Seq<char> {
        self.value@
    }
}

impl PartialEq for ID {
    fn eq(&self, other: &Self) -> bool {
        self.value == other.value
    }
}

impl vstd::std_specs::cmp::PartialEqSpecImpl for ID {
    open spec fn obeys_eq_spec() -> bool {
        true
    }

    open spec fn eq_spec(&self, other: &ID) -> bool {
        self@ == other@
    }
}

impl Clone for ID {
    fn clone(&self) -> (r: Self)
        ensures
            r == *self,
    {
        ID { value: self.value.clone() }
    }
}

impl ID {
    /// Parses an identifier, rejecting empty or ill-formed text.
    pub fn new(s: &str) -> (r: Result<Self, IdErrorKind>)
        ensures
            match r {
                Ok(id) => spec_validate_id(s@) is Ok && id@ == s@,
                Err(e) => spec_validate_id(s@) == Err::<(), IdErrorKind>(e),
            },
    {
        match validate_str(s) {
            Ok(()) => Ok(ID { value: s.to_owned() }),
            Err(e) => Err(e),
        }
    }

    /// A fresh identifier drawn at random.
    pub fn random() -> (r: Self)
        ensures
            valid_id_chars(r@),
            r@.len() == 22,
    {
        ID { value: random_blob_value() }
    }

    /// A fresh identifier drawn at random under the given prefix, which
    /// must itself be valid identifier text.
    pub fn random_with_prefix(prefix: &str) -> (r: Result<Self, IdErrorKind>)
        ensures
            match r {
                Ok(id) => spec_validate_id(prefix@) is Ok && valid_id_chars(id@) && id@.len()
                    == prefix@.len() + 24 && id@.subrange(0, prefix@.len() as int) == prefix@
                    && id@[prefix@.len() as int] == ':' && id@[prefix@.len() as int + 1] == ':'
                    && valid_id_chars(id@.subrange(prefix@.len() as int + 2, id@.len() as int)),
                Err(e) => spec_validate_id(prefix@) == Err::<(), IdErrorKind>(e),
            },
    {
        match validate_str(prefix) {
            Ok(()) => {
                let blob = random_blob_value();
                let mut value = prefix.to_owned();
                value.append("::");
                value.append(blob.as_str());
                proof {
                    reveal_strlit("::");
                    assert(value@.subrange(0, prefix@.len() as int) =~= prefix@);
                    assert(value@.subrange(prefix@.len() as int + 2, value@.len() as int)
                        =~= blob@);
                    assert forall|i: int| 0 <= i < value@.len() implies valid_id_char(
                        #[trigger] value@[i],
                    ) by {
                        if i < prefix@.len() {
                            assert(value@[i] == prefix@[i]);
                        } else if i < prefix@.len() + 2 {
                            assert(value@[i] == ':');
                        } else {
                            assert(value@[i] == blob@[i - prefix@.len() - 2]);
                        }
                    }
                }
                Ok(ID { value })
            },
            Err(e) => Err(e),
        }
    }

    /// The designated invalid identifier, used as a placeholder before a
    /// real identifier is assigned.
    pub fn invalid() -> (r: Self)
        ensures
            r@ == "<invalid-state-tag>"@,
    {
        ID { value: "<invalid-state-tag>".to_owned() }
    }

    /// Extends this identifier with a separator and the given suffix, which
    /// must be valid identifier text.
    pub fn append(&self, suffix: &str) -> (r: Result<Self, IdErrorKind>)
        ensures
            match r {
                Ok(id) => spec_validate_id(suffix@) is Ok && id@ == self@ + "::"@ + suffix@,
                Err(e) => spec_validate_id(suffix@) == Err::<(), IdErrorKind>(e),
            },
    {
        match validate_str(suffix) {
            Ok(()) => {
                let mut value = self.value.clone();
                value.append("::");
                value.append(suffix);
                Ok(ID { value })
            },
            Err(e) => Err(e),
        }
    }

    /// Extends this identifier with a separator and a fresh random segment.
    pub fn append_random(&self) -> (r: Self)
        ensures
            r@.len() == self@.len() + 24,
            r@.subrange(0, self@.len() as int) == self@,
            r@[self@.len() as int] == ':' && r@[self@.len() as int + 1] == ':',
            forall|i: int| self@.len() + 2 <= i < r@.len() ==> valid_id_char(#[trigger] r@[i]),
    {
        let blob = random_blob_value();
        let mut value = self.value.clone();
        value.append("::");
        value.append(blob.as_str());
        proof {
            reveal_strlit("::");
            assert(value@.subrange(0, self@.len() as int) =~= self@);
            assert forall|i: int| self@.len() + 2 <= i < value@.len() implies valid_id_char(
                #[trigger] value@[i],
            ) by {
                assert(value@[i] == blob@[i - self@.len() - 2]);
            }
        }
        ID { value }
    }

    /// True when this identifier's text is valid.
    pub fn is_valid(&self) -> (r: bool)
        ensures
            r == valid_id_chars(self@),
    {
        match validate_str(self.value.as_str()) {
            Ok(()) => true,
            Err(_) => false,
        }
    }

    /// Splits this identifier on the separator, leftmost first, and
    /// returns an identifier for every piece that is valid identifier
    /// text; ill-formed pieces are dropped.
    pub fn split(&self) -> (r: Vec<ID>)
        ensures
            r@.map_values(|x: ID| x@) == valid_pieces_from(split_text(self@), 0),
    {
        let segments = split_valid_segments(self.value.as_str());
        let ghost seg_views = segments@.map_values(|p: String| p@);
        let n = segments.len();
        let mut r: Vec<ID> = Vec::new();
        let mut i: usize = 0;
        while i < n
            invariant
                n == segments@.len(),
                i <= n,
                seg_views == segments@.map_values(|p: String| p@),
                r@.len() == i,
                forall|k: int| 0 <= k < i ==> (#[trigger] r@[k])@ == seg_views[k],
            decreases n - i,
        {
            let seg = segments[i].clone();
            proof {
                assert(seg@ == seg_views[i as int]);
            }
            r.push(ID { value: seg });
            i = i + 1;
        }
        proof {
            assert(r@.map_values(|x: ID| x@) =~= seg_views);
        }
        r
    }
    /// Renders the identifier as a string.
    pub fn to_string(&self) -> (r: String)
        ensures
            r@ == self@,
    {
        self.value.clone()
    }
}

impl std::str::FromStr for ID {
    type Err = IdErrorKind;

    fn from_str(s: &str) -> Result<Self, Self::Err> {
        ID::new(s)
    }
}

} // verus!
