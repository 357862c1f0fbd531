//! The registry state machine.
//!
//! A [`Pallet`] value holds the four persisted structures — the file record
//! store, the per-account ownership index, the per-file download-access
//! index, and the two global counters — together with the collection
//! account and the configured limits. Each operation is one atomic state
//! transition: it either applies all of its mutations or, on any failure,
//! leaves the state exactly as it was.

use std::collections::HashMap;
use vstd::prelude::*;

use crate::hashing::compute_file_id;
use crate::hashing::file_id_of;
use crate::ledger::Ledger;
use crate::settlement::charged_cost;
use crate::settlement::compute_cost;
use crate::types::AccountId;
use crate::types::Config;
use crate::types::Error;
use crate::types::Event;
use crate::types::File;
use crate::types::FileId;
use crate::types::FileType;

verus! {

/// The registry's whole state. The maps are keyed by account or file
/// identifier; an absent ownership or access entry stands for an empty
/// list.
pub struct Pallet {
    pub config: Config,
    /// The collection account all download payments flow to, once set.
    pub accountant: Option<AccountId>,
    /// Count of successful uploads; never wraps.
    pub all_files_count: u64,
    /// Count of successful downloads; never wraps.
    pub all_downloads_count: u64,
    /// The file record store: one record per file identifier.
    pub files: HashMap<FileId, File>,
    /// The ownership index: the identifiers each account owns, in insertion
    /// order up to removals.
    pub files_per_user: HashMap<AccountId, Vec<FileId>>,
    /// The access index: the accounts that have paid to download each file.
    pub file_downloads: HashMap<FileId, Vec<AccountId>>,
}

impl Pallet {
    /// The ownership list of `account`: its map entry, or empty where none
    /// is.
    pub open spec fn owned(self, account: AccountId) -> Seq<FileId> {
        if self.files_per_user@.contains_key(account) {
            self.files_per_user@[account]@
        } else {
            Seq::<FileId>::empty()
        }
    }

    /// The access list of `file_id`: its map entry, or empty where none is.
    pub open spec fn downloads(self, file_id: FileId) -> Seq<AccountId> {
        if self.file_downloads@.contains_key(file_id) {
            self.file_downloads@[file_id]@
        } else {
            Seq::<AccountId>::empty()
        }
    }

    /// An empty registry under `config`: nothing stored, nothing counted,
    /// no collection account.
    pub fn new(config: Config) -> (r: Pallet)
        ensures
            r.config == config,
            r.accountant is None,
            r.all_files_count == 0,
            r.all_downloads_count == 0,
            r.files@ == Map::<FileId, File>::empty(),
            forall|a: AccountId| r.owned(a) == Seq::<FileId>::empty(),
            forall|id: FileId| r.downloads(id) == Seq::<AccountId>::empty(),
    {
        Pallet {
            config,
            accountant: None,
            all_files_count: 0,
            all_downloads_count: 0,
            files: HashMap::new(),
            files_per_user: HashMap::new(),
            file_downloads: HashMap::new(),
        }
    }

    /// The collection account, if one has been set.
    pub fn accountant(&self) -> (r: Option<AccountId>)
        ensures
            r == self.accountant,
    {
        self.accountant
    }

    /// How many uploads have succeeded.
    pub fn all_files_count(&self) -> (r: u64)
        ensures
            r == self.all_files_count,
    {
        self.all_files_count
    }

    /// How many downloads have succeeded.
    pub fn all_downloads_count(&self) -> (r: u64)
        ensures
            r == self.all_downloads_count,
    {
        self.all_downloads_count
    }

    /// Looks a record up by its identifier. Absence is only an error at the
    /// operation layer.
    pub fn get_file_details(&self, file_id: FileId) -> (r: Option<File>)
        ensures
            match r {
                Some(f) => self.files@.contains_key(file_id) && f == self.files@[file_id],
                None => !self.files@.contains_key(file_id),
            },
    {
        match self.files.get(&file_id) {
            Some(f) => Some(*f),
            None => None,
        }
    }

    /// The identifiers `account` owns, as a fresh vector.
    pub fn get_user_file_details(&self, account: AccountId) -> (r: Vec<FileId>)
        ensures
            r@ == self.owned(account),
    {
        match self.files_per_user.get(&account) {
            Some(v) => copy_ids(v),
            None => Vec::new(),
        }
    }

    /// The accounts that have paid to download `file_id`, as a fresh
    /// vector.
    pub fn get_download_details(&self, file_id: FileId) -> (r: Vec<AccountId>)
        ensures
            r@ == self.downloads(file_id),
    {
        match self.file_downloads.get(&file_id) {
            Some(v) => copy_ids(v),
            None => Vec::new(),
        }
    }

    /// Registers a new file record under `caller`. The identifier is
    /// derived from the record's content, so byte-identical records from
    /// the same owner collide onto one identifier; the record store then
    /// simply overwrites, while the ownership list gains one more entry.
    pub fn upload_file(
        &mut self,
        caller: AccountId,
        file_link: [u8; 20],
        allow_download: bool,
        file_type: FileType,
        cost: u64,
        file_size: u64,
    ) -> (r: Result<Event, Error>)
        ensures
            ({
                let f = (File { file_link, allow_download, file_type, cost, file_size, owner: caller });
                &&& (r is Ok <==> old(self).all_files_count < u64::MAX && old(self).owned(
                    caller,
                ).len() < old(self).config.max_files_uploaded)
                &&& r is Ok ==> r->Ok_0 == Event::Uploaded(caller, file_id_of(f))
                    && upload_applied(*old(self), *final(self), f)
                &&& r is Err ==> *final(self) == *old(self)
                &&& (r == Err::<Event, Error>(Error::FileCountOverflow) <==> old(
                    self,
                ).all_files_count == u64::MAX)
                &&& (r == Err::<Event, Error>(Error::ExceedMaxFileUploaded) <==> old(
                    self,
                ).all_files_count < u64::MAX && old(self).owned(caller).len() >= old(
                    self,
                ).config.max_files_uploaded)
            }),
    {
        let file = File { file_link, allow_download, file_type, cost, file_size, owner: caller };
        let file_id = compute_file_id(&file);
        if self.all_files_count == u64::MAX {
            return Err(Error::FileCountOverflow);
        }
        let new_count = self.all_files_count + 1;
        let current_len: usize = match self.files_per_user.get(&caller) {
            Some(v) => v.len(),
            None => 0,
        };
        if current_len >= self.config.max_files_uploaded as usize {
            return Err(Error::ExceedMaxFileUploaded);
        }
        let mut ids = match self.files_per_user.remove(&caller) {
            Some(v) => v,
            None => Vec::new(),
        };
        ids.push(file_id);
        self.files_per_user.insert(caller, ids);
        self.files.insert(file_id, file);
        self.all_files_count = new_count;
        Ok(Event::Uploaded(caller, file_id))
    }

    /// Grants `caller` paid access to `file_id`: validates the request,
    /// computes the cost, settles it to the collection account through
    /// `ledger`, then records the access and steps the download counter.
    /// Both recordability checks (list capacity, counter headroom) come
    /// before settlement, so a payment is never taken for an access that
    /// could not be recorded; on any failure neither the registry nor the
    /// ledger balances change.
    pub fn download_file<L: Ledger>(
        &mut self,
        caller: AccountId,
        file_id: FileId,
        ledger: &mut L,
    ) -> (r: Result<Event, Error>)
        ensures
            ({
                let pre = *old(self);
                let f = pre.files@[file_id];
                let amount = charged_cost(f, pre.config);
                let c1 = pre.files@.contains_key(file_id);
                let c2 = f.allow_download;
                let c3 = !pre.downloads(file_id).contains(caller);
                let c4 = amount <= u64::MAX;
                let c5 = pre.downloads(file_id).len() < pre.config.max_files_uploaded;
                let c6 = pre.all_downloads_count < u64::MAX;
                let c7 = pre.accountant is Some;
                let c8 = old(ledger).bal(caller) >= amount;
                &&& (r == Err::<Event, Error>(Error::FileNotFound) <==> !c1)
                &&& (r == Err::<Event, Error>(Error::FileNotAllowedToDownload) <==> c1 && !c2)
                &&& (r == Err::<Event, Error>(Error::AlreadyDownloaded) <==> c1 && c2 && !c3)
                &&& (r == Err::<Event, Error>(Error::InvalidOperation) <==> c1 && c2 && c3 && !c4)
                &&& (r == Err::<Event, Error>(Error::ExceedMaxFileDownload) <==> c1 && c2 && c3
                    && c4 && !c5)
                &&& (r == Err::<Event, Error>(Error::FileDownloadCountOverflow) <==> c1 && c2 && c3
                    && c4 && c5 && !c6)
                &&& (r == Err::<Event, Error>(Error::AccountantNotSet) <==> c1 && c2 && c3 && c4
                    && c5 && c6 && !c7)
                &&& (r == Err::<Event, Error>(Error::NotEnoughBalance) <==> c1 && c2 && c3 && c4
                    && c5 && c6 && c7 && !c8)
                &&& ((r is Ok || r matches Err(Error::LedgerFailure(_))) <==> c1 && c2 && c3 && c4
                    && c5 && c6 && c7 && c8)
                &&& r is Err ==> *final(self) == *old(self)
                &&& (r is Err && !(r matches Err(Error::LedgerFailure(_))) ==> *final(ledger)
                    == *old(ledger))
                &&& (r matches Err(Error::LedgerFailure(_)) ==> forall|a: AccountId|
                    final(ledger).bal(a) == old(ledger).bal(a))
                &&& r is Ok ==> ({
                    let acct = pre.accountant->0;
                    &&& r->Ok_0 == Event::Downloaded(caller, file_id, (amount as u64))
                    &&& download_applied(pre, *final(self), caller, file_id)
                    &&& caller != acct ==> final(ledger).bal(caller) == old(ledger).bal(caller)
                        - amount && final(ledger).bal(acct) == old(ledger).bal(acct) + amount && (
                    forall|a: AccountId|
                        a != caller && a != acct ==> final(ledger).bal(a) == old(ledger).bal(a))
                    &&& caller == acct ==> forall|a: AccountId|
                        final(ledger).bal(a) == old(ledger).bal(a)
                })
            }),
    {
        let file = match self.files.get(&file_id) {
            Some(f) => *f,
            None => {
                return Err(Error::FileNotFound);
            },
        };
        if !file.allow_download {
            return Err(Error::FileNotAllowedToDownload);
        }
        let download_len: usize = match self.file_downloads.get(&file_id) {
            Some(v) => {
                if find_index(v, caller).is_some() {
                    return Err(Error::AlreadyDownloaded);
                }
                v.len()
            },
            None => 0,
        };
        let amount = match compute_cost(&file, &self.config) {
            Ok(a) => a,
            Err(e) => {
                return Err(e);
            },
        };
        if download_len >= self.config.max_files_uploaded as usize {
            return Err(Error::ExceedMaxFileDownload);
        }
        if self.all_downloads_count == u64::MAX {
            return Err(Error::FileDownloadCountOverflow);
        }
        let accountant = match self.accountant {
            Some(a) => a,
            None => {
                return Err(Error::AccountantNotSet);
            },
        };
        if ledger.balance_of(caller) < amount {
            return Err(Error::NotEnoughBalance);
        }
        match ledger.transfer_keep_alive(caller, accountant, amount) {
            Ok(_) => (),
            Err(e) => {
                return Err(Error::LedgerFailure(e));
            },
        }
        let mut accounts = match self.file_downloads.remove(&file_id) {
            Some(v) => v,
            None => Vec::new(),
        };
        accounts.push(caller);
        self.file_downloads.insert(file_id, accounts);
        self.all_downloads_count = self.all_downloads_count + 1;
        Ok(Event::Downloaded(caller, file_id, amount))
    }

    /// Moves a registered file from `caller` to `new_owner`: one occurrence
    /// of the identifier leaves the caller's ownership list (by
    /// swap-with-last, so the remaining order may change), the identifier
    /// joins the new owner's list, and the record's owner field follows.
    /// All of it happens, or none.
    pub fn transfer_file(&mut self, caller: AccountId, file_id: FileId, new_owner: AccountId) -> (r:
        Result<Event, Error>)
        ensures
            (r is Ok <==> transfer_admissible(*old(self), caller, file_id, new_owner)),
            r is Ok ==> r->Ok_0 == Event::Transfered(caller, new_owner, file_id) && (exists|i: int|
                transfer_applied(*old(self), *final(self), caller, file_id, new_owner, i)),
            r is Err ==> *final(self) == *old(self),
            (r == Err::<Event, Error>(Error::FileNotFound) <==> !old(self).files@.contains_key(
                file_id,
            )),
            (r == Err::<Event, Error>(Error::InvalidSigner) <==> old(self).files@.contains_key(
                file_id,
            ) && old(self).files@[file_id].owner != caller),
            (r == Err::<Event, Error>(Error::FileDoesntExist) <==> old(self).files@.contains_key(
                file_id,
            ) && old(self).files@[file_id].owner == caller && !old(self).owned(caller).contains(
                file_id,
            )),
            (r == Err::<Event, Error>(Error::ExceedMaxFileUploaded) <==> old(
                self,
            ).files@.contains_key(file_id) && old(self).files@[file_id].owner == caller && old(
                self,
            ).owned(caller).contains(file_id) && receiving_len(*old(self), caller, new_owner) >= old(
                self,
            ).config.max_files_uploaded),
    {
        let file = match self.files.get(&file_id) {
            Some(f) => *f,
            None => {
                return Err(Error::FileNotFound);
            },
        };
        if file.owner != caller {
            return Err(Error::InvalidSigner);
        }
        let index = match self.files_per_user.get(&caller) {
            Some(v) => {
                match find_index(v, file_id) {
                    Some(i) => i,
                    None => {
                        return Err(Error::FileDoesntExist);
                    },
                }
            },
            None => {
                return Err(Error::FileDoesntExist);
            },
        };
        let receiving: usize = if new_owner == caller {
            let len = match self.files_per_user.get(&caller) {
                Some(v) => v.len(),
                None => 0,
            };
            len - 1
        } else {
            match self.files_per_user.get(&new_owner) {
                Some(v) => v.len(),
                None => 0,
            }
        };
        if receiving >= self.config.max_files_uploaded as usize {
            return Err(Error::ExceedMaxFileUploaded);
        }
        let mut ids = match self.files_per_user.remove(&caller) {
            Some(v) => v,
            None => {
                proof {
                    assert(false);
                }
                Vec::new()
            },
        };
        ids.swap_remove(index);
        if new_owner == caller {
            ids.push(file_id);
            self.files_per_user.insert(caller, ids);
        } else {
            self.files_per_user.insert(caller, ids);
            let mut new_ids = match self.files_per_user.remove(&new_owner) {
                Some(v) => v,
                None => Vec::new(),
            };
            new_ids.push(file_id);
            self.files_per_user.insert(new_owner, new_ids);
        }
        let mut new_file = file;
        new_file.owner = new_owner;
        self.files.insert(file_id, new_file);
        proof {
            assert(transfer_applied(
                *old(self),
                *self,
                caller,
                file_id,
                new_owner,
                index as int,
            ));
        }
        Ok(Event::Transfered(caller, new_owner, file_id))
    }

    /// Names `caller` as the collection account if none is set; a repeated
    /// call by the same account changes nothing, any other caller is
    /// rejected.
    pub fn add_accountant(&mut self, caller: AccountId) -> (r: Result<(), Error>)
        ensures
            r is Ok <==> (old(self).accountant is None || old(self).accountant == Some(caller)),
            r is Ok ==> set_collection_applied(*old(self), *final(self), caller),
            r is Err ==> r->Err_0 == Error::InvalidSigner && *final(self) == *old(self),
    {
        match self.accountant {
            Some(acc) => {
                if acc == caller {
                    Ok(())
                } else {
                    Err(Error::InvalidSigner)
                }
            },
            None => {
                self.accountant = Some(caller);
                Ok(())
            },
        }
    }
}

/// What a successful upload of record `f` does: the record is stored (or
/// overwritten) under its content-derived identifier, the owner's list
/// gains that identifier at its end, the upload counter steps by one, and
/// nothing else moves.
pub open spec fn upload_applied(pre: Pallet, post: Pallet, f: File) -> bool {
    let id = file_id_of(f);
    &&& post.files@ == pre.files@.insert(id, f)
    &&& post.owned(f.owner) == pre.owned(f.owner).push(id)
    &&& forall|a: AccountId| a != f.owner ==> post.owned(a) == pre.owned(a)
    &&& forall|fid: FileId| post.downloads(fid) == pre.downloads(fid)
    &&& post.all_files_count == pre.all_files_count + 1
    &&& post.all_downloads_count == pre.all_downloads_count
    &&& post.accountant == pre.accountant
    &&& post.config == pre.config
}

/// What a successful download by `caller` of `file_id` does to the
/// registry: the caller joins the file's access list at its end, the
/// download counter steps by one, and nothing else moves. (What it does to
/// the ledger stands in the operation's own contract.)
pub open spec fn download_applied(
    pre: Pallet,
    post: Pallet,
    caller: AccountId,
    file_id: FileId,
) -> bool {
    &&& post.files@ == pre.files@
    &&& forall|a: AccountId| post.owned(a) == pre.owned(a)
    &&& post.downloads(file_id) == pre.downloads(file_id).push(caller)
    &&& forall|id: FileId| id != file_id ==> post.downloads(id) == pre.downloads(id)
    &&& post.all_files_count == pre.all_files_count
    &&& post.all_downloads_count == pre.all_downloads_count + 1
    &&& post.accountant == pre.accountant
    &&& post.config == pre.config
}

/// `s` with the element at `i` taken out by swap-with-last: the last
/// element moves into its place and the length shrinks by one.
pub open spec fn swap_removed(s: Seq<FileId>, i: int) -> Seq<FileId> {
    s.update(i, s.last()).drop_last()
}

/// How long the receiving ownership list already is, seen from before the
/// transfer: for a transfer to oneself the removal frees one slot first.
pub open spec fn receiving_len(pre: Pallet, caller: AccountId, new_owner: AccountId) -> int {
    if new_owner == caller {
        pre.owned(caller).len() - 1
    } else {
        pre.owned(new_owner).len() as int
    }
}

/// When a transfer of `file_id` from `caller` to `new_owner` goes through:
/// the record exists, the caller owns it, the caller's list carries it, and
/// the receiving list has room.
pub open spec fn transfer_admissible(
    pre: Pallet,
    caller: AccountId,
    file_id: FileId,
    new_owner: AccountId,
) -> bool {
    &&& pre.files@.contains_key(file_id)
    &&& pre.files@[file_id].owner == caller
    &&& pre.owned(caller).contains(file_id)
    &&& receiving_len(pre, caller, new_owner) < pre.config.max_files_uploaded
}

/// What a successful transfer does, with `i` the position the identifier
/// held in the caller's list: that occurrence leaves by swap-with-last, the
/// identifier is appended to the new owner's list, the record's owner field
/// becomes `new_owner`, and nothing else moves.
pub open spec fn transfer_applied(
    pre: Pallet,
    post: Pallet,
    caller: AccountId,
    file_id: FileId,
    new_owner: AccountId,
    i: int,
) -> bool {
    &&& 0 <= i < pre.owned(caller).len()
    &&& pre.owned(caller)[i] == file_id
    &&& pre.files@.contains_key(file_id)
    &&& post.files@ == pre.files@.insert(
        file_id,
        (File { owner: new_owner, ..pre.files@[file_id] }),
    )
    &&& if new_owner == caller {
        &&& post.owned(caller) == swap_removed(pre.owned(caller), i).push(file_id)
        &&& forall|a: AccountId| a != caller ==> post.owned(a) == pre.owned(a)
    } else {
        &&& post.owned(caller) == swap_removed(pre.owned(caller), i)
        &&& post.owned(new_owner) == pre.owned(new_owner).push(file_id)
        &&& forall|a: AccountId|
            a != caller && a != new_owner ==> post.owned(a) == pre.owned(a)
    }
    &&& forall|id: FileId| post.downloads(id) == pre.downloads(id)
    &&& post.all_files_count == pre.all_files_count
    &&& post.all_downloads_count == pre.all_downloads_count
    &&& post.accountant == pre.accountant
    &&& post.config == pre.config
}

/// What a successful `add_accountant` call by `caller` does: the collection
/// account comes out as `caller`, everything else stays; the call is
/// accepted only while no other account holds the role.
pub open spec fn set_collection_applied(pre: Pallet, post: Pallet, caller: AccountId) -> bool {
    &&& pre.accountant is None || pre.accountant == Some(caller)
    &&& post == (Pallet { accountant: Some(caller), ..pre })
}

/// The position of the first occurrence of `x` in `v`, if any.
fn find_index(v: &Vec<u64>, x: u64) -> (r: Option<usize>)
    ensures
        match r {
            Some(i) => i < v@.len() && v@[i as int] == x && (forall|j: int|
                0 <= j < i ==> v@[j] != x),
            None => !v@.contains(x),
        },
{
    let mut i: usize = 0;
    while i < v.len()
        invariant
            i <= v@.len(),
            forall|j: int| 0 <= j < i ==> v@[j] != x,
        decreases v@.len() - i,
    {
        if v[i] == x {
            return Some(i);
        }
        i = i + 1;
    }
    None
}

/// A fresh vector with the same identifiers.
fn copy_ids(v: &Vec<u64>) -> (r: Vec<u64>)
    ensures
        r@ == v@,
{
    let mut out: Vec<u64> = Vec::new();
    let mut i: usize = 0;
    while i < v.len()
        invariant
            i <= v@.len(),
            out@ == v@.subrange(0, i as int),
        decreases v@.len() - i,
    {
        out.push(v[i]);
        i = i + 1;
        proof {
            assert(v@.subrange(0, i as int) =~= v@.subrange(0, i - 1).push(v@[i - 1]));
        }
    }
    proof {
        assert(v@.subrange(0, v@.len() as int) =~= v@);
    }
    out
}

} // verus!
