use vstd::prelude::*;

use crate::entry::{is_separator, is_valid_entry};
use crate::steps::{
    after_decode, after_encode, after_load, after_search, after_store, invalid_entry_message,
    not_found_message, read_begin, write_begin, ReadStepView, WriteStepView,
};
use crate::store::{is_absolute, target_path, UserView};

verus! {

/// One step of a read against a directory that holds `files` (text by path) and
/// on which every operation succeeds; `decode` turns a text into a record.
pub open spec fn advance_read(
    step: ReadStepView,
    files: Map<Seq<char>, Seq<char>>,
    decode: spec_fn(Seq<char>) -> Result<UserView, Seq<char>>,
) -> ReadStepView {
    match step {
        ReadStepView::Search(p) => after_search(p, Ok(files.contains_key(p))),
        ReadStepView::Load(p) => after_load(Ok(files[p])),
        ReadStepView::Decode(t) => after_decode(decode(t)),
        ReadStepView::Done(o) => ReadStepView::Done(o),
    }
}

/// Where a read of `entry` ends against such a directory.
pub open spec fn read_in(
    base: Seq<char>,
    entry: Seq<char>,
    files: Map<Seq<char>, Seq<char>>,
    decode: spec_fn(Seq<char>) -> Result<UserView, Seq<char>>,
) -> ReadStepView {
    advance_read(
        advance_read(advance_read(read_begin(base, entry), files, decode), files, decode),
        files,
        decode,
    )
}

/// One step of a write against such a directory: the next step, and the
/// files afterwards; `encode` turns a record into a text.
pub open spec fn advance_write(
    step: WriteStepView,
    files: Map<Seq<char>, Seq<char>>,
    encode: spec_fn(UserView) -> Result<Seq<char>, Seq<char>>,
) -> (WriteStepView, Map<Seq<char>, Seq<char>>) {
    match step {
        WriteStepView::Encode(p, u) => (after_encode(p, encode(u)), files),
        WriteStepView::Store(p, t) => (after_store(Ok(())), files.insert(p, t)),
        WriteStepView::Done(o) => (WriteStepView::Done(o), files),
    }
}

/// Where a write of `user` under `entry` ends against such a directory, and
/// the files it leaves.
pub open spec fn write_in(
    base: Seq<char>,
    entry: Seq<char>,
    user: UserView,
    files: Map<Seq<char>, Seq<char>>,
    encode: spec_fn(UserView) -> Result<Seq<char>, Seq<char>>,
) -> (WriteStepView, Map<Seq<char>, Seq<char>>) {
    let first = advance_write(write_begin(base, entry, user), files, encode);
    advance_write(first.0, first.1, encode)
}

/// A key that holds a separator, is empty, is `.` or `..`, or is absolute,
/// is rejected.
pub proof fn lemma_rejected_keys(key: Seq<char>)
    requires
        (exists|i: int| 0 <= i < key.len() && is_separator(#[trigger] key[i])) || key.len() == 0
            || key == seq!['.'] || key == seq!['.', '.'] || is_absolute(key),
    ensures
        !is_valid_entry(key),
{
}

/// A single segment without separators that is neither `.` nor `..` is
/// accepted; the key is then used as it is.
pub proof fn lemma_accepted_keys(key: Seq<char>)
    requires
        key.len() > 0,
        key != seq!['.'],
        key != seq!['.', '.'],
        forall|i: int| 0 <= i < key.len() ==> !is_separator(#[trigger] key[i]),
    ensures
        is_valid_entry(key),
        !is_absolute(key),
{
    assert(!is_separator(key[0]));
}

/// Each valid key has a file of its own: two different keys never share one.
pub proof fn lemma_distinct_keys_distinct_files(base: Seq<char>, k1: Seq<char>, k2: Seq<char>)
    requires
        is_valid_entry(k1),
        is_valid_entry(k2),
        k1 != k2,
    ensures
        target_path(base, k1) != target_path(base, k2),
{
    let prefix = if base.len() > 0 && base.last() == '/' {
        base
    } else {
        base + seq!['/']
    };
    let t1 = target_path(base, k1);
    let t2 = target_path(base, k2);
    assert(t1 =~= prefix + k1);
    assert(t2 =~= prefix + k2);
    if t1 == t2 {
        assert(k1 =~= t1.subrange(prefix.len() as int, t1.len() as int));
        assert(k2 =~= t2.subrange(prefix.len() as int, t2.len() as int));
    }
}

/// Writing a record and then reading the same key gives the record back,
/// whenever decoding gives back what encoding made of it.
pub proof fn lemma_round_trip(
    base: Seq<char>,
    key: Seq<char>,
    user: UserView,
    files: Map<Seq<char>, Seq<char>>,
    encode: spec_fn(UserView) -> Result<Seq<char>, Seq<char>>,
    decode: spec_fn(Seq<char>) -> Result<UserView, Seq<char>>,
)
    requires
        is_valid_entry(key),
        encode(user) is Ok,
        decode(encode(user)->Ok_0) == Ok::<UserView, Seq<char>>(user),
    ensures
        write_in(base, key, user, files, encode).0 == WriteStepView::Done(Ok(Ok(()))),
        read_in(base, key, write_in(base, key, user, files, encode).1, decode)
            == ReadStepView::Done(Ok(Ok(user))),
{
    let after = write_in(base, key, user, files, encode).1;
    assert(after.contains_key(target_path(base, key)));
}

/// Writing the same record under the same key twice leaves the directory as
/// one write does, so a read still gives the record back.
pub proof fn lemma_write_idempotent(
    base: Seq<char>,
    key: Seq<char>,
    user: UserView,
    files: Map<Seq<char>, Seq<char>>,
    encode: spec_fn(UserView) -> Result<Seq<char>, Seq<char>>,
    decode: spec_fn(Seq<char>) -> Result<UserView, Seq<char>>,
)
    requires
        is_valid_entry(key),
        encode(user) is Ok,
        decode(encode(user)->Ok_0) == Ok::<UserView, Seq<char>>(user),
    ensures
        write_in(base, key, user, write_in(base, key, user, files, encode).1, encode).1
            == write_in(base, key, user, files, encode).1,
        read_in(
            base,
            key,
            write_in(base, key, user, write_in(base, key, user, files, encode).1, encode).1,
            decode,
        ) == ReadStepView::Done(Ok(Ok(user))),
{
    let once = write_in(base, key, user, files, encode).1;
    let twice = write_in(base, key, user, once, encode).1;
    assert(twice =~= once);
    lemma_round_trip(base, key, user, files, encode, decode);
}

/// A valid key whose file is absent reads as "not found", a caller fault,
/// and stays so after a write under any other key.
pub proof fn lemma_never_written_not_found(
    base: Seq<char>,
    key: Seq<char>,
    other: Seq<char>,
    user: UserView,
    files: Map<Seq<char>, Seq<char>>,
    encode: spec_fn(UserView) -> Result<Seq<char>, Seq<char>>,
    decode: spec_fn(Seq<char>) -> Result<UserView, Seq<char>>,
)
    requires
        is_valid_entry(key),
        !files.contains_key(target_path(base, key)),
        other != key,
    ensures
        read_in(base, key, files, decode) == ReadStepView::Done(Ok(Err(not_found_message()))),
        read_in(base, key, write_in(base, other, user, files, encode).1, decode)
            == ReadStepView::Done(Ok(Err(not_found_message()))),
{
    if is_valid_entry(other) {
        lemma_distinct_keys_distinct_files(base, key, other);
    }
}

/// An invalid key ends a read or a write at once with the "invalid entry"
/// caller fault: no file system step is asked for and no file changes.
pub proof fn lemma_invalid_key_untouched(
    base: Seq<char>,
    key: Seq<char>,
    user: UserView,
    files: Map<Seq<char>, Seq<char>>,
    encode: spec_fn(UserView) -> Result<Seq<char>, Seq<char>>,
    decode: spec_fn(Seq<char>) -> Result<UserView, Seq<char>>,
)
    requires
        !is_valid_entry(key),
    ensures
        read_begin(base, key) == ReadStepView::Done(Ok(Err(invalid_entry_message()))),
        write_begin(base, key, user) == WriteStepView::Done(Ok(Err(invalid_entry_message()))),
        read_in(base, key, files, decode) == ReadStepView::Done(Ok(Err(invalid_entry_message()))),
        write_in(base, key, user, files, encode) == (
        WriteStepView::Done(Ok(Err(invalid_entry_message()))),
        files,
        ),
{
}

} // verus!
