//! Field names and field paths: the keys used to address values inside a
//! tree-shaped context payload. A field name is a single validated
//! segment; a field path is an ordered list of names, consumed from the
//! front while a tree is walked.

use vstd::prelude::*;
use vstd::std_specs::iter::IteratorSpec;

use crate::base::id::valid_id_char;

verus! {

broadcast use vstd::string::group_string_axioms;

/// True of the characters that may appear in a field name: ASCII letters
/// and digits, `-` and `_`.
pub open spec fn valid_field_char(c: char) -> bool {
    valid_id_char(c) && c != ':'
}

/// A field name's text is valid when it is non-empty and every character
/// is allowed.
pub open spec fn valid_field_chars(s: Seq<char>) -> bool {
    s.len() > 0 && forall|i: int| 0 <= i < s.len() ==> valid_field_char(#[trigger] s[i])
}

/// One validated segment of a field path.
#[derive(Debug, Eq, Hash)]
pub struct FieldName {
    value: String,
}

impl View for FieldName {
    type V = Seq<char>;

    closed spec fn view(&self) -> Seq<char> {
        self.value@
    }
}

impl PartialEq for FieldName {
    fn eq(&self, other: &Self) -> bool {
        self.value == other.value
    }
}

impl vstd::std_specs::cmp::PartialEqSpecImpl for FieldName {
    open spec fn obeys_eq_spec() -> bool {
        true
    }

    open spec fn eq_spec(&self, other: &FieldName) -> bool {
        self@ == other@
    }
}

impl Clone for FieldName {
    fn clone(&self) -> (r: Self)
        ensures
            r == *self,
    {
        FieldName { value: self.value.clone() }
    }
}

impl FieldName {
    /// Parses a field name, rejecting empty or ill-formed text.
    pub fn new(s: &str) -> (r: Result<Self, ()>)
        ensures
            match r {
                Ok(f) => valid_field_chars(s@) && f@ == s@,
                Err(()) => !valid_field_chars(s@),
            },
    {
        match crate::base::id::validate_str(s) {
            Err(_) => Err(()),
            Ok(()) => {
                let ghost total = s@;
                proof {
                    assert(total.subrange(0, total.len() as int) =~= total);
                }
                let mut it = s.chars();
                let ghost mut i: int = 0;
                loop
                    invariant
                        total == s@,
                        crate::base::id::valid_id_chars(total),
                        0 <= i <= total.len(),
                        it.obeys_prophetic_iter_laws(),
                        it.remaining() == total.subrange(i, total.len() as int),
                        forall|k: int| 0 <= k < i ==> total[k] != ':',
                    decreases total.len() - i,
                {
                    match it.next() {
                        None => {
                            proof {
                                assert(total.subrange(i, total.len() as int).len() == 0);
                                assert forall|k: int| 0 <= k < total.len() implies valid_field_char(
                                    #[trigger] total[k],
                                ) by {
                                    assert(valid_id_char(total[k]));
                                }
                            }
                            return Ok(FieldName { value: s.to_owned() });
                        },
                        Some(c) => {
                            proof {
                                assert(c == total.subrange(i, total.len() as int)[0]);
                                assert(total.subrange(i, total.len() as int).drop_first()
                                    =~= total.subrange(i + 1, total.len() as int));
                            }
                            if c == ':' {
                                proof {
                                    assert(!valid_field_char(total[i]));
                                }
                                return Err(());
                            }
                            proof {
                                i = i + 1;
                            }
                        },
                    }
                }
            },
        }
    }

    /// Renders the field name as a string.
    pub fn to_string(&self) -> (r: String)
        ensures
            r@ == self@,
    {
        self.value.clone()
    }
}

impl std::str::FromStr for FieldName {
    type Err = ();

    fn from_str(s: &str) -> Result<Self, Self::Err> {
        FieldName::new(s)
    }
}

/// An ordered list of field names, addressing a value in a tree-shaped
/// payload from the root downwards.
#[derive(Debug)]
pub struct FieldPath {
    names: Vec<FieldName>,
}

impl View for FieldPath {
    type V = Seq<Seq<char>>;

    closed spec fn view(&self) -> Seq<Seq<char>> {
        self.names@.map_values(|n: FieldName| n@)
    }
}

impl Clone for FieldPath {
    fn clone(&self) -> (r: Self)
        ensures
            r@ == self@,
    {
        FieldPath { names: clone_names(&self.names) }
    }
}

/// Clones a list of field names, keeping each name's text.
fn clone_names(names: &Vec<FieldName>) -> (r: Vec<FieldName>)
    ensures
        r@.map_values(|n: FieldName| n@) == names@.map_values(|n: FieldName| n@),
{
    let n = names.len();
    let mut out: Vec<FieldName> = Vec::new();
    let mut i: usize = 0;
    while i < n
        invariant
            n == names@.len(),
            i <= n,
            out@.len() == i,
            forall|k: int| 0 <= k < i ==> out@[k]@ == names@[k]@,
        decreases n - i,
    {
        out.push(names[i].clone());
        i = i + 1;
    }
    proof {
        assert(out@.map_values(|n2: FieldName| n2@) =~= names@.map_values(|n2: FieldName| n2@));
    }
    out
}

impl FieldPath {
    /// A path from its segments, root first.
    pub fn from_names(names: Vec<FieldName>) -> (r: Self)
        ensures
            r@ == names@.map_values(|n: FieldName| n@),
    {
        FieldPath { names }
    }

    /// The empty path.
    pub fn empty() -> (r: Self)
        ensures
            r@ == Seq::<Seq<char>>::empty(),
    {
        let r = FieldPath { names: Vec::new() };
        proof {
            assert(r@ =~= Seq::<Seq<char>>::empty());
        }
        r
    }

    /// The number of segments.
    pub fn len(&self) -> (r: usize)
        ensures
            r == self@.len(),
    {
        self.names.len()
    }

    /// Whether the path has no segments.
    pub fn is_empty(&self) -> (r: bool)
        ensures
            r == (self@.len() == 0),
    {
        self.names.len() == 0
    }

    /// The first segment, if any.
    pub fn first(&self) -> (r: Option<&FieldName>)
        ensures
            match r {
                Some(f) => self@.len() > 0 && f@ == self@[0],
                None => self@.len() == 0,
            },
    {
        if self.names.len() > 0 {
            Some(&self.names[0])
        } else {
            None
        }
    }

    /// The path without its first segment; the empty path stays empty.
    pub fn rest(&self) -> (r: FieldPath)
        ensures
            self@.len() > 0 ==> r@ == self@.drop_first(),
            self@.len() == 0 ==> r@ == self@,
    {
        let n = self.names.len();
        let mut out: Vec<FieldName> = Vec::new();
        let mut i: usize = 1;
        if n == 0 {
            proof {
                assert(FieldPath { names: out }@ =~= self@);
            }
            return FieldPath { names: out };
        }
        while i < n
            invariant
                n == self.names@.len(),
                1 <= i <= n,
                out@.len() == i - 1,
                forall|k: int| 0 <= k < i - 1 ==> out@[k]@ == self.names@[k + 1]@,
            decreases n - i,
        {
            out.push(self.names[i].clone());
            i = i + 1;
        }
        let r = FieldPath { names: out };
        proof {
            assert(r@ =~= self@.drop_first());
        }
        r
    }
}

} // verus!
