//! The registry's cross-operation laws.
//!
//! Two invariants tie the structures together: every identifier in an
//! account's ownership list is stored with that account as owner, and no
//! file's access list names an account twice. Each lemma below shows one
//! operation's transition (as stated in its contract) preserving an
//! invariant. The ownership invariant survives an upload only while the
//! new identifier does not already sit in another account's list, and
//! survives a transfer only while the moved identifier sits in the caller's
//! list once; the digest that derives identifiers is not injective, so a
//! colliding pair of records can break it, and the lemmas name these side
//! conditions explicitly.

use vstd::prelude::*;

use crate::codec::encoded_record;
use crate::hashing::file_id_of;
use crate::registry::download_applied;
use crate::registry::receiving_len;
use crate::registry::set_collection_applied;
use crate::registry::swap_removed;
use crate::registry::transfer_applied;
use crate::registry::upload_applied;
use crate::registry::Pallet;
use crate::types::AccountId;
use crate::types::File;
use crate::types::FileId;

verus! {

/// Every identifier in any account's ownership list is stored, and stored
/// with that account as its owner.
pub open spec fn ownership_consistent(p: Pallet) -> bool {
    forall|a: AccountId, id: FileId|
        #[trigger] p.owned(a).contains(id) ==> p.files@.contains_key(id) && p.files@[id].owner == a
}

/// No element of `s` occurs twice.
pub open spec fn distinct_seq(s: Seq<AccountId>) -> bool {
    forall|i: int, j: int| 0 <= i < j < s.len() ==> s[i] != s[j]
}

/// No file's access list names an account twice.
pub open spec fn access_index_distinct(p: Pallet) -> bool {
    forall|id: FileId| distinct_seq(#[trigger] p.downloads(id))
}

/// Every ownership list and every access list respects the configured
/// capacity bound.
pub open spec fn capacity_respected(p: Pallet) -> bool {
    &&& forall|a: AccountId| (#[trigger] p.owned(a)).len() <= p.config.max_files_uploaded
    &&& forall|id: FileId| (#[trigger] p.downloads(id)).len() <= p.config.max_files_uploaded
}

/// A registry with empty indexes — as `Pallet::new` builds it — satisfies
/// all three invariants.
pub proof fn lemma_empty_registry_consistent(p: Pallet)
    requires
        forall|a: AccountId| p.owned(a) == Seq::<FileId>::empty(),
        forall|id: FileId| p.downloads(id) == Seq::<AccountId>::empty(),
    ensures
        ownership_consistent(p),
        access_index_distinct(p),
        capacity_respected(p),
{
}

/// Under ownership consistency an identifier sits in at most one account's
/// list: both listing accounts must equal the stored owner.
pub proof fn lemma_owner_lists_disjoint(p: Pallet, a: AccountId, b: AccountId, id: FileId)
    requires
        ownership_consistent(p),
        p.owned(a).contains(id),
        p.owned(b).contains(id),
    ensures
        a == b,
{
}

/// Every element of a swap-removal was in the sequence, at a position other
/// than the removed one.
proof fn lemma_swap_removed_source(s: Seq<FileId>, i: int, x: FileId)
    requires
        0 <= i < s.len(),
        swap_removed(s, i).contains(x),
    ensures
        exists|k: int| 0 <= k < s.len() && k != i && s[k] == x,
{
    let t = swap_removed(s, i);
    let k0 = choose|k0: int| 0 <= k0 < t.len() && t[k0] == x;
    if k0 == i {
        assert(s[s.len() - 1] == x);
        assert(s.len() - 1 != i && s[s.len() - 1] == x);
    } else {
        assert(s[k0] == x);
        assert(k0 != i && s[k0] == x);
    }
}

/// Uploading preserves ownership consistency, provided the new record's
/// identifier does not already sit in some other account's list (the
/// digest is not injective, so a collision between records of two owners
/// is the one way to break this).
pub proof fn lemma_upload_preserves_ownership(pre: Pallet, post: Pallet, f: File)
    requires
        ownership_consistent(pre),
        upload_applied(pre, post, f),
        forall|a: AccountId| a != f.owner ==> !(#[trigger] pre.owned(a)).contains(file_id_of(f)),
    ensures
        ownership_consistent(post),
{
    let fid = file_id_of(f);
    assert forall|a: AccountId, id: FileId| #[trigger]
        post.owned(a).contains(id) implies post.files@.contains_key(id) && post.files@[id].owner
        == a by {
        if a == f.owner {
            let s = post.owned(a);
            let k = choose|k: int| 0 <= k < s.len() && s[k] == id;
            if k < pre.owned(a).len() {
                assert(pre.owned(a)[k] == id);
                assert(pre.owned(a).contains(id));
                if id != fid {
                    assert(post.files@[id] == pre.files@[id]);
                }
            } else {
                assert(id == fid);
            }
        } else {
            assert(pre.owned(a).contains(id));
            assert(id != fid);
            assert(post.files@[id] == pre.files@[id]);
        }
    }
}

/// Transferring preserves ownership consistency, provided the caller's
/// list carries the moved identifier exactly once (`i` being its one
/// position; a duplicated identifier, only possible through re-uploading
/// identical content, is the one way to break this).
pub proof fn lemma_transfer_preserves_ownership(
    pre: Pallet,
    post: Pallet,
    caller: AccountId,
    file_id: FileId,
    new_owner: AccountId,
    i: int,
)
    requires
        ownership_consistent(pre),
        transfer_applied(pre, post, caller, file_id, new_owner, i),
        forall|j: int| 0 <= j < pre.owned(caller).len() && j != i ==> pre.owned(caller)[j] != file_id,
    ensures
        ownership_consistent(post),
{
    assert(pre.owned(caller).contains(file_id));
    assert(pre.files@[file_id].owner == caller);
    assert forall|a: AccountId, id: FileId| #[trigger]
        post.owned(a).contains(id) implies post.files@.contains_key(id) && post.files@[id].owner
        == a by {
        let removed = swap_removed(pre.owned(caller), i);
        if new_owner == caller {
            if a == caller {
                let s = post.owned(a);
                let k = choose|k: int| 0 <= k < s.len() && s[k] == id;
                if k < removed.len() {
                    assert(removed[k] == id);
                    assert(removed.contains(id));
                    lemma_swap_removed_source(pre.owned(caller), i, id);
                    assert(pre.owned(caller).contains(id));
                    assert(id != file_id);
                    assert(post.files@[id] == pre.files@[id]);
                } else {
                    assert(id == file_id);
                }
            } else {
                assert(pre.owned(a).contains(id));
                assert(id != file_id) by {
                    if id == file_id {
                        assert(pre.files@[id].owner == a);
                    }
                }
                assert(post.files@[id] == pre.files@[id]);
            }
        } else {
            if a == caller {
                assert(removed.contains(id));
                lemma_swap_removed_source(pre.owned(caller), i, id);
                assert(pre.owned(caller).contains(id));
                assert(id != file_id);
                assert(post.files@[id] == pre.files@[id]);
            } else if a == new_owner {
                let s = post.owned(a);
                let k = choose|k: int| 0 <= k < s.len() && s[k] == id;
                if k < pre.owned(a).len() {
                    assert(pre.owned(a)[k] == id);
                    assert(pre.owned(a).contains(id));
                    assert(id != file_id) by {
                        if id == file_id {
                            assert(pre.files@[id].owner == a);
                        }
                    }
                    assert(post.files@[id] == pre.files@[id]);
                } else {
                    assert(id == file_id);
                }
            } else {
                assert(pre.owned(a).contains(id));
                assert(id != file_id) by {
                    if id == file_id {
                        assert(pre.files@[id].owner == a);
                    }
                }
                assert(post.files@[id] == pre.files@[id]);
            }
        }
    }
}

/// Downloading touches neither the record store nor the ownership lists,
/// so it preserves ownership consistency outright.
pub proof fn lemma_download_preserves_ownership(
    pre: Pallet,
    post: Pallet,
    caller: AccountId,
    file_id: FileId,
)
    requires
        ownership_consistent(pre),
        download_applied(pre, post, caller, file_id),
    ensures
        ownership_consistent(post),
{
    assert forall|a: AccountId, id: FileId| #[trigger]
        post.owned(a).contains(id) implies post.files@.contains_key(id) && post.files@[id].owner
        == a by {
        assert(pre.owned(a).contains(id));
    }
}

/// Setting the collection account touches no index, so it preserves
/// ownership consistency outright.
pub proof fn lemma_set_collection_preserves_ownership(pre: Pallet, post: Pallet, caller: AccountId)
    requires
        ownership_consistent(pre),
        set_collection_applied(pre, post, caller),
    ensures
        ownership_consistent(post),
{
    assert forall|a: AccountId, id: FileId| #[trigger]
        post.owned(a).contains(id) implies post.files@.contains_key(id) && post.files@[id].owner
        == a by {
        assert(pre.owned(a).contains(id));
    }
}

/// A download never writes a duplicate into an access list: the operation
/// only appends a caller it has checked to be absent, so distinctness of
/// every access list is preserved.
pub proof fn lemma_download_preserves_access_distinct(
    pre: Pallet,
    post: Pallet,
    caller: AccountId,
    file_id: FileId,
)
    requires
        access_index_distinct(pre),
        download_applied(pre, post, caller, file_id),
        !pre.downloads(file_id).contains(caller),
    ensures
        access_index_distinct(post),
{
    assert forall|id: FileId| distinct_seq(#[trigger] post.downloads(id)) by {
        if id == file_id {
            let s = pre.downloads(file_id);
            let t = post.downloads(file_id);
            assert(distinct_seq(s));
            assert forall|x: int, y: int| 0 <= x < y < t.len() implies t[x] != t[y] by {
                if y < s.len() {
                    assert(s[x] != s[y]);
                } else {
                    assert(t[y] == caller);
                    assert(s[x] == t[x]);
                    if t[x] == caller {
                        assert(s.contains(caller));
                    }
                }
            }
        } else {
            assert(distinct_seq(pre.downloads(id)));
        }
    }
}

/// Uploading never touches an access list, so distinctness is preserved.
pub proof fn lemma_upload_preserves_access_distinct(pre: Pallet, post: Pallet, f: File)
    requires
        access_index_distinct(pre),
        upload_applied(pre, post, f),
    ensures
        access_index_distinct(post),
{
    assert forall|id: FileId| distinct_seq(#[trigger] post.downloads(id)) by {
        assert(distinct_seq(pre.downloads(id)));
    }
}

/// Transferring never touches an access list, so distinctness is
/// preserved.
pub proof fn lemma_transfer_preserves_access_distinct(
    pre: Pallet,
    post: Pallet,
    caller: AccountId,
    file_id: FileId,
    new_owner: AccountId,
    i: int,
)
    requires
        access_index_distinct(pre),
        transfer_applied(pre, post, caller, file_id, new_owner, i),
    ensures
        access_index_distinct(post),
{
    assert forall|id: FileId| distinct_seq(#[trigger] post.downloads(id)) by {
        assert(distinct_seq(pre.downloads(id)));
    }
}

/// Setting the collection account never touches an access list, so
/// distinctness is preserved.
pub proof fn lemma_set_collection_preserves_access_distinct(
    pre: Pallet,
    post: Pallet,
    caller: AccountId,
)
    requires
        access_index_distinct(pre),
        set_collection_applied(pre, post, caller),
    ensures
        access_index_distinct(post),
{
    assert forall|id: FileId| distinct_seq(#[trigger] post.downloads(id)) by {
        assert(distinct_seq(pre.downloads(id)));
    }
}

/// An accepted upload respects the capacity bound: it only appends to a
/// list it found strictly below the maximum.
pub proof fn lemma_upload_preserves_capacity(pre: Pallet, post: Pallet, f: File)
    requires
        capacity_respected(pre),
        upload_applied(pre, post, f),
        pre.owned(f.owner).len() < pre.config.max_files_uploaded,
    ensures
        capacity_respected(post),
{
}

/// An accepted download respects the capacity bound: it only appends to an
/// access list it found strictly below the maximum.
pub proof fn lemma_download_preserves_capacity(
    pre: Pallet,
    post: Pallet,
    caller: AccountId,
    file_id: FileId,
)
    requires
        capacity_respected(pre),
        download_applied(pre, post, caller, file_id),
        pre.downloads(file_id).len() < pre.config.max_files_uploaded,
    ensures
        capacity_respected(post),
{
}

/// An accepted transfer respects the capacity bound: the caller's list
/// shrinks, and the receiving list only grows where a slot was free.
pub proof fn lemma_transfer_preserves_capacity(
    pre: Pallet,
    post: Pallet,
    caller: AccountId,
    file_id: FileId,
    new_owner: AccountId,
    i: int,
)
    requires
        capacity_respected(pre),
        transfer_applied(pre, post, caller, file_id, new_owner, i),
        receiving_len(pre, caller, new_owner) < pre.config.max_files_uploaded,
    ensures
        capacity_respected(post),
{
}

/// Setting the collection account touches no list, so the capacity bound
/// is preserved.
pub proof fn lemma_set_collection_preserves_capacity(pre: Pallet, post: Pallet, caller: AccountId)
    requires
        capacity_respected(pre),
        set_collection_applied(pre, post, caller),
    ensures
        capacity_respected(post),
{
    assert forall|a: AccountId| (#[trigger] post.owned(a)).len()
        <= post.config.max_files_uploaded by {
        assert(post.owned(a) == pre.owned(a));
    }
    assert forall|id: FileId| (#[trigger] post.downloads(id)).len()
        <= post.config.max_files_uploaded by {
        assert(post.downloads(id) == pre.downloads(id));
    }
}

/// Setting the collection account is idempotent: a second accepted call by
/// the same account leaves the state exactly where the first left it.
pub proof fn lemma_set_collection_idempotent(
    p0: Pallet,
    p1: Pallet,
    p2: Pallet,
    caller: AccountId,
)
    requires
        set_collection_applied(p0, p1, caller),
        set_collection_applied(p1, p2, caller),
    ensures
        p2 == p1,
{
}

/// The identifier is content-determined: records whose fields hold the
/// same values encode to the same bytes and so share one identifier.
pub proof fn lemma_file_id_content_determined(f1: File, f2: File)
    requires
        f1.file_link@ == f2.file_link@,
        f1.allow_download == f2.allow_download,
        f1.file_type == f2.file_type,
        f1.cost == f2.cost,
        f1.file_size == f2.file_size,
        f1.owner == f2.owner,
    ensures
        file_id_of(f1) == file_id_of(f2),
{
    assert(encoded_record(f1) == encoded_record(f2));
}

} // verus!
