use vstd::prelude::*;

use crate::store::DataStore;

verus! {

/// The path separator of this platform's path syntax.
pub open spec fn is_separator(c: char) -> bool {
    c == '/'
}

/// A key that decomposes into exactly one normal path component. A key with a
/// separator is refused whatever its components (it starts at the root, has
/// several segments, or ends in a separator); one without decomposes into
/// nothing when empty, into the current directory when `.`, into the parent
/// when `..`, and into one normal component otherwise.
pub open spec fn is_valid_entry(s: Seq<char>) -> bool {
    &&& s.len() > 0
    &&& s != seq!['.']
    &&& s != seq!['.', '.']
    &&& forall|i: int| 0 <= i < s.len() ==> !is_separator(#[trigger] s[i])
}

/// An entry key that was checked to be a single normal path component; it owns
/// a copy of the key's text.
pub struct ValidEntry {
    key: String,
}

impl View for ValidEntry {
    type V = Seq<char>;

    closed spec fn view(&self) -> Seq<char> {
        self.key@
    }
}

impl ValidEntry {
    #[verifier::type_invariant]
    spec fn inv(&self) -> bool {
        is_valid_entry(self.key@)
    }

    /// The key's text, which is always a valid key.
    pub fn as_str(&self) -> (r: &str)
        ensures
            r@ == self@,
            is_valid_entry(r@),
    {
        proof {
            use_type_invariant(self);
        }
        self.key.as_str()
    }
}

impl DataStore {
    /// Checks that `entry` is exactly one normal path component and, if so,
    /// returns it unchanged.
    pub fn parse_entry(&self, entry: &str) -> (r: Option<ValidEntry>)
        ensures
            r is Some <==> is_valid_entry(entry@),
            r matches Some(v) ==> v@ == entry@,
    {
        let n = entry.unicode_len();
        if n == 0 {
            return None;
        }
        if n <= 2 && entry.get_char(0) == '.' && (n == 1 || entry.get_char(1) == '.') {
            proof {
                if n == 1 {
                    assert(entry@ =~= seq!['.']);
                } else {
                    assert(entry@ =~= seq!['.', '.']);
                }
            }
            return None;
        }
        let mut i: usize = 0;
        while i < n
            invariant
                n == entry@.len(),
                i <= n,
                forall|j: int| 0 <= j < i ==> !is_separator(#[trigger] entry@[j]),
            decreases n - i,
        {
            if entry.get_char(i) == '/' {
                return None;
            }
            i = i + 1;
        }
        proof {
            if entry@ == seq!['.'] {
                assert(entry@[0] == '.');
            }
            if entry@ == seq!['.', '.'] {
                assert(entry@[0] == '.' && entry@[1] == '.');
            }
        }
        Some(ValidEntry { key: entry.to_owned() })
    }
}

} // verus!
