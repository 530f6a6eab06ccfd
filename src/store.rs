use vstd::prelude::*;

use crate::entry::ValidEntry;
use crate::error::{Fault, FaultView};

verus! {

/// The record kept in each file.
#[derive(Debug, Clone, PartialEq, Eq, Hash)]
pub struct User {
    pub name: String,
    pub age: u16,
}

/// The mathematical content of a `User`.
pub struct UserView {
    pub name: Seq<char>,
    pub age: u16,
}

impl View for User {
    type V = UserView;

    open spec fn view(&self) -> UserView {
        UserView { name: self.name@, age: self.age }
    }
}

/// A store over a canonical base directory.
#[derive(Debug)]
pub struct DataStore {
    base: String,
}

/// An absolute path: it starts at the root.
pub open spec fn is_absolute(p: Seq<char>) -> bool {
    p.len() > 0 && p[0] == '/'
}

/// The file that holds the record of `key`: one segment below `base`.
pub open spec fn target_path(base: Seq<char>, key: Seq<char>) -> Seq<char> {
    if base.len() > 0 && base.last() == '/' {
        base + key
    } else {
        base + seq!['/'] + key
    }
}

pub open spec fn resolve_failed_message() -> Seq<char> {
    "Failed to resolve base directory"@
}

pub open spec fn not_absolute_message() -> Seq<char> {
    "Base directory is not an absolute path"@
}

impl View for DataStore {
    type V = Seq<char>;

    /// The canonical base directory.
    closed spec fn view(&self) -> Seq<char> {
        self.base@
    }
}

impl Clone for DataStore {
    fn clone(&self) -> (r: DataStore)
        ensures
            r@ == self@,
    {
        proof {
            use_type_invariant(self);
        }
        DataStore { base: self.base.clone() }
    }
}

impl DataStore {
    #[verifier::type_invariant]
    spec fn inv(&self) -> bool {
        is_absolute(self.base@)
    }

    /// Opens a store on a base directory, given what resolving it to its
    /// canonical path gave: the path, or the cause of the failure.
    pub fn new(resolved: Result<String, String>) -> (r: Result<DataStore, Fault>)
        ensures
            match resolved {
                Ok(p) => if is_absolute(p@) {
                    r matches Ok(s) && s@ == p@
                } else {
                    r matches Err(f) && f@ == (FaultView { context: not_absolute_message(), cause: p@ })
                },
                Err(c) => r matches Err(f) && f@ == (FaultView {
                    context: resolve_failed_message(),
                    cause: c@,
                }),
            },
    {
        match resolved {
            Ok(p) => {
                if p.as_str().unicode_len() > 0 && p.as_str().get_char(0) == '/' {
                    Ok(DataStore { base: p })
                } else {
                    Err(Fault { context: "Base directory is not an absolute path".to_owned(), cause: p })
                }
            },
            Err(c) => Err(Fault { context: "Failed to resolve base directory".to_owned(), cause: c }),
        }
    }

    /// The path of the file that holds the record of `entry`.
    pub(crate) fn target(&self, entry: &ValidEntry) -> (r: String)
        ensures
            r@ == target_path(self@, entry@),
    {
        proof {
            use_type_invariant(self);
        }
        let mut path = self.base.clone();
        let n = self.base.as_str().unicode_len();
        if self.base.as_str().get_char(n - 1) != '/' {
            proof {
                reveal_strlit("/");
            }
            path.append("/");
            assert(path@ =~= self@ + seq!['/']);
        }
        path.append(entry.as_str());
        path
    }
}

} // verus!
