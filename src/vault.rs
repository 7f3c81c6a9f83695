//! Secret records: their partial update, their tags, and the ownership
//! check that comes before every access.
use vstd::prelude::*;

use vstd::utf8::encode_utf8;

use crate::cipher::{
    decrypt, encrypt, open_result, sealed_blob, KdfParams, SealedSecret, NONCE_LEN, SALT_LEN, TAG_LEN,
};
use crate::models::AddPassword;
use crate::error::CpassError;
use crate::tags::{add_tags, add_tags_spec, remove_tags, remove_tags_spec, set_tags, tag_texts};

verus! {

/// A stored secret: the sealed value, plaintext metadata and tags.
#[derive(Debug, Clone, PartialEq, Eq)]
pub struct Password {
    pub id: u128,
    pub owner_id: u128,
    pub ciphertext: Vec<u8>,
    pub salt: Vec<u8>,
    pub name: String,
    pub website: Option<String>,
    pub username: Option<String>,
    pub description: Option<String>,
    pub tags: Vec<String>,
}

/// The fields that an update supplies; an absent field keeps its value.
#[derive(Debug, Clone, PartialEq, Eq)]
pub struct SecretPatch {
    pub name: Option<String>,
    pub sealed: Option<SealedSecret>,
    pub website: Option<String>,
    pub username: Option<String>,
    pub description: Option<String>,
    pub tags: Option<Vec<String>>,
}

/// What to do when a caller reaches for a record that someone else owns.
#[derive(Debug, Clone, Copy, PartialEq, Eq, Structural)]
pub enum OwnershipPolicy {
    /// Answer as if the record did not exist.
    HideExistence,
    /// Say that the record exists and access is denied.
    RevealExistence,
}

/// Whether `r` is what the ownership check gives: success for the owner;
/// for anyone else `Forbidden` where the policy reveals existence, else
/// `NotFound`, as for a record that does not exist.
pub open spec fn follows_access<T>(
    r: Result<T, CpassError>,
    owner: Option<u128>,
    caller: u128,
    policy: OwnershipPolicy,
) -> bool {
    if owner == Some(caller) {
        r is Ok
    } else if owner is Some && policy == OwnershipPolicy::RevealExistence {
        r matches Err(CpassError::Forbidden)
    } else {
        r matches Err(CpassError::NotFound(_))
    }
}

/// Checks that `caller` owns the record, whose owner is `owner` (`None`
/// when there is no such record).
pub fn check_access(owner: Option<u128>, caller: u128, policy: OwnershipPolicy) -> (r: Result<
    (),
    CpassError,
>)
    ensures
        follows_access(r, owner, caller, policy),
{
    match owner {
        None => Err(CpassError::NotFound("secret not found".to_string())),
        Some(o) => if o == caller {
            Ok(())
        } else {
            match policy {
                OwnershipPolicy::HideExistence => Err(
                    CpassError::NotFound("secret not found".to_string()),
                ),
                OwnershipPolicy::RevealExistence => Err(CpassError::Forbidden),
            }
        },
    }
}

/// The record after a patch: each supplied field replaces the stored one,
/// the others keep their value; supplied tags replace the tag set.
pub open spec fn patched(old: Password, new: Password, patch: SecretPatch) -> bool {
    &&& new.id == old.id
    &&& new.owner_id == old.owner_id
    &&& new.name == (if patch.name is Some {
        patch.name->Some_0
    } else {
        old.name
    })
    &&& new.ciphertext@ == (if patch.sealed is Some {
        patch.sealed->Some_0.ciphertext@
    } else {
        old.ciphertext@
    })
    &&& new.salt@ == (if patch.sealed is Some {
        patch.sealed->Some_0.salt@
    } else {
        old.salt@
    })
    &&& new.website == (if patch.website is Some {
        patch.website
    } else {
        old.website
    })
    &&& new.username == (if patch.username is Some {
        patch.username
    } else {
        old.username
    })
    &&& new.description == (if patch.description is Some {
        patch.description
    } else {
        old.description
    })
    &&& tag_texts(new.tags@) == (if patch.tags is Some {
        add_tags_spec(Seq::empty(), tag_texts(patch.tags->Some_0@))
    } else {
        tag_texts(old.tags@)
    })
}

/// Applies a patch to a record.
pub fn apply_patch(record: &mut Password, patch: SecretPatch)
    ensures
        patched(*old(record), *final(record), patch),
{
    let ghost p = patch;
    let SecretPatch { name, sealed, website, username, description, tags } = patch;
    if let Some(n) = name {
        record.name = n;
    }
    if let Some(s) = sealed {
        record.ciphertext = s.ciphertext;
        record.salt = s.salt;
    }
    if website.is_some() {
        record.website = website;
    }
    if username.is_some() {
        record.username = username;
    }
    if description.is_some() {
        record.description = description;
    }
    if let Some(t) = tags {
        set_tags(&mut record.tags, &t);
    }
}

/// Updates the caller's record with a patch. Anyone else's attempt fails
/// and leaves the record as it was.
pub fn update_secret(
    record: &mut Password,
    caller: u128,
    patch: SecretPatch,
    policy: OwnershipPolicy,
) -> (r: Result<(), CpassError>)
    ensures
        follows_access(r, Some(old(record).owner_id), caller, policy),
        r is Ok ==> patched(*old(record), *final(record), patch),
        r is Err ==> *final(record) == *old(record),
{
    check_access(Some(record.owner_id), caller, policy)?;
    apply_patch(record, patch);
    Ok(())
}

/// The caller's record, for reading.
pub fn read_secret<'a>(record: Option<&'a Password>, caller: u128, policy: OwnershipPolicy) -> (r:
    Result<&'a Password, CpassError>)
    ensures
        match record {
            None => follows_access(r, None, caller, policy),
            Some(rec) => follows_access(r, Some(rec.owner_id), caller, policy) && (r is Ok ==> r
                == Ok::<&Password, CpassError>(rec)),
        },
{
    match record {
        None => Err(CpassError::NotFound("secret not found".to_string())),
        Some(rec) => {
            check_access(Some(rec.owner_id), caller, policy)?;
            Ok(rec)
        },
    }
}

/// Checks that the caller may delete the record.
pub fn delete_secret(record: Option<&Password>, caller: u128, policy: OwnershipPolicy) -> (r:
    Result<(), CpassError>)
    ensures
        follows_access(
            r,
            match record {
                Some(rec) => Some(rec.owner_id),
                None => None,
            },
            caller,
            policy,
        ),
{
    let owner = match record {
        Some(rec) => Some(rec.owner_id),
        None => None,
    };
    check_access(owner, caller, policy)
}

/// Adds tags to the caller's record and returns those that were new.
pub fn add_secret_tags(
    record: &mut Password,
    caller: u128,
    requested: &Vec<String>,
    policy: OwnershipPolicy,
) -> (r: Result<Vec<String>, CpassError>)
    ensures
        follows_access(r, Some(old(record).owner_id), caller, policy),
        r is Err ==> *final(record) == *old(record),
        r is Ok ==> tag_texts(final(record).tags@) == add_tags_spec(
            tag_texts(old(record).tags@),
            tag_texts(requested@),
        ),
        r is Ok ==> tag_texts(final(record).tags@) == tag_texts(old(record).tags@) + tag_texts(
            r->Ok_0@,
        ),
        r is Ok ==> final(record).id == old(record).id && final(record).owner_id == old(record).owner_id,
{
    check_access(Some(record.owner_id), caller, policy)?;
    let added = add_tags(&mut record.tags, requested);
    Ok(added)
}

/// Removes tags from the caller's record.
pub fn remove_secret_tags(
    record: &mut Password,
    caller: u128,
    requested: &Vec<String>,
    policy: OwnershipPolicy,
) -> (r: Result<(), CpassError>)
    ensures
        follows_access(r, Some(old(record).owner_id), caller, policy),
        r is Err ==> *final(record) == *old(record),
        r is Ok ==> tag_texts(final(record).tags@) == remove_tags_spec(
            tag_texts(old(record).tags@),
            tag_texts(requested@),
        ),
        r is Ok ==> final(record).id == old(record).id && final(record).owner_id == old(record).owner_id,
{
    check_access(Some(record.owner_id), caller, policy)?;
    remove_tags(&mut record.tags, requested);
    Ok(())
}

/// Replaces the tags of the caller's record.
pub fn replace_secret_tags(
    record: &mut Password,
    caller: u128,
    requested: &Vec<String>,
    policy: OwnershipPolicy,
) -> (r: Result<(), CpassError>)
    ensures
        follows_access(r, Some(old(record).owner_id), caller, policy),
        r is Err ==> *final(record) == *old(record),
        r is Ok ==> tag_texts(final(record).tags@) == add_tags_spec(
            Seq::empty(),
            tag_texts(requested@),
        ),
        r is Ok ==> final(record).id == old(record).id && final(record).owner_id == old(record).owner_id,
{
    check_access(Some(record.owner_id), caller, policy)?;
    set_tags(&mut record.tags, requested);
    Ok(())
}

/// A secret ready to be inserted: sealed, its tags each once.
#[derive(Debug, Clone, PartialEq, Eq)]
pub struct NewSecret {
    pub owner_id: u128,
    pub sealed: SealedSecret,
    pub name: String,
    pub website: Option<String>,
    pub username: Option<String>,
    pub description: Option<String>,
    pub tags: Vec<String>,
}

impl NewSecret {
    /// The stored record, once the storage layer has given it an id.
    pub fn into_record(self, id: u128) -> (r: Password)
        ensures
            r.id == id,
            r.owner_id == self.owner_id,
            r.ciphertext == self.sealed.ciphertext,
            r.salt == self.sealed.salt,
            r.name == self.name,
            r.website == self.website,
            r.username == self.username,
            r.description == self.description,
            r.tags == self.tags,
    {
        Password {
            id,
            owner_id: self.owner_id,
            ciphertext: self.sealed.ciphertext,
            salt: self.sealed.salt,
            name: self.name,
            website: self.website,
            username: self.username,
            description: self.description,
            tags: self.tags,
        }
    }
}

/// Seals a new secret for `owner` under its master passphrase. The
/// plaintext is not kept: what is stored opens back to it under the same
/// passphrase only.
pub fn prepare_secret(request: AddPassword, owner: u128, kdf: KdfParams) -> (r: Result<
    NewSecret,
    CpassError,
>)
    requires
        kdf.wf(),
    ensures
        r is Ok ==> r->Ok_0.owner_id == owner,
        r is Ok ==> r->Ok_0.name == request.name && r->Ok_0.website == request.website
            && r->Ok_0.username == request.username && r->Ok_0.description == request.description,
        r is Ok ==> r->Ok_0.sealed.salt@.len() == SALT_LEN,
        r is Ok ==> r->Ok_0.sealed.ciphertext@ == sealed_blob(
            encode_utf8(request.password@),
            encode_utf8(request.master_password@),
            r->Ok_0.sealed.salt@,
            r->Ok_0.sealed.ciphertext@.subrange(0, NONCE_LEN as int),
            kdf,
        ),
        r is Ok ==> r->Ok_0.sealed.ciphertext@.len() == NONCE_LEN + encode_utf8(
            request.password@,
        ).len() + TAG_LEN,
        r is Ok ==> open_result(
            r->Ok_0.sealed.ciphertext@,
            r->Ok_0.sealed.salt@,
            encode_utf8(request.master_password@),
            kdf,
        ) == Ok::<Seq<u8>, CpassError>(encode_utf8(request.password@)),
        r is Ok ==> tag_texts(r->Ok_0.tags@) == add_tags_spec(
            Seq::empty(),
            if request.tags is Some {
                tag_texts(request.tags->Some_0@)
            } else {
                Seq::empty()
            },
        ),
        r is Err ==> r matches Err(CpassError::HashingError) || r matches Err(
            CpassError::InvalidRequest(_),
        ),
{
    let AddPassword { password, name, website, username, description, master_password, tags } =
        request;
    let sealed = encrypt(password.as_str().as_bytes(), master_password.as_str().as_bytes(), kdf)?;
    let mut stored: Vec<String> = Vec::new();
    match tags {
        Some(t) => set_tags(&mut stored, &t),
        None => {
            assert(tag_texts(stored@) =~= add_tags_spec(Seq::empty(), Seq::empty()));
        },
    }
    Ok(NewSecret { owner_id: owner, sealed, name, website, username, description, tags: stored })
}

/// A change of a secret as a caller asks for it: a new plaintext needs the
/// master passphrase to be sealed.
#[derive(Debug, Clone, PartialEq, Eq)]
pub struct SecretChange {
    pub name: Option<String>,
    pub password: Option<String>,
    pub master_password: Option<String>,
    pub website: Option<String>,
    pub username: Option<String>,
    pub description: Option<String>,
    pub tags: Option<Vec<String>>,
}

/// Turns a change into a patch, sealing a new plaintext. A plaintext
/// without its passphrase is refused.
pub fn prepare_patch(change: SecretChange, kdf: KdfParams) -> (r: Result<SecretPatch, CpassError>)
    requires
        kdf.wf(),
    ensures
        change.password is Some && change.master_password is None ==> r matches Err(
            CpassError::InvalidRequest(_),
        ),
        change.password is None ==> r is Ok && r->Ok_0.sealed is None,
        r is Ok ==> r->Ok_0.name == change.name && r->Ok_0.website == change.website
            && r->Ok_0.username == change.username && r->Ok_0.description == change.description
            && r->Ok_0.tags == change.tags,
        r is Ok && change.password is Some ==> r->Ok_0.sealed is Some
            && r->Ok_0.sealed->Some_0.salt@.len() == SALT_LEN
            && r->Ok_0.sealed->Some_0.ciphertext@ == sealed_blob(
            encode_utf8(change.password->Some_0@),
            encode_utf8(change.master_password->Some_0@),
            r->Ok_0.sealed->Some_0.salt@,
            r->Ok_0.sealed->Some_0.ciphertext@.subrange(0, NONCE_LEN as int),
            kdf,
        ) && r->Ok_0.sealed->Some_0.ciphertext@.len() == NONCE_LEN + encode_utf8(
            change.password->Some_0@,
        ).len() + TAG_LEN,
        r is Ok && change.password is Some ==> r->Ok_0.sealed is Some && open_result(
            r->Ok_0.sealed->Some_0.ciphertext@,
            r->Ok_0.sealed->Some_0.salt@,
            encode_utf8(change.master_password->Some_0@),
            kdf,
        ) == Ok::<Seq<u8>, CpassError>(encode_utf8(change.password->Some_0@)),
{
    let SecretChange { name, password, master_password, website, username, description, tags } =
        change;
    let sealed = match password {
        None => None,
        Some(p) => match master_password {
            None => {
                return Err(
                    CpassError::InvalidRequest("a new secret needs its master password".to_string()),
                );
            },
            Some(m) => Some(encrypt(p.as_str().as_bytes(), m.as_str().as_bytes(), kdf)?),
        },
    };
    Ok(SecretPatch { name, sealed, website, username, description, tags })
}

/// Opens the caller's secret with its passphrase.
pub fn reveal_secret(
    record: Option<&Password>,
    caller: u128,
    passphrase: &[u8],
    kdf: KdfParams,
    policy: OwnershipPolicy,
) -> (r: Result<Vec<u8>, CpassError>)
    requires
        kdf.wf(),
    ensures
        match record {
            None => follows_access(r, None, caller, policy),
            Some(rec) => if rec.owner_id == caller {
                match open_result(rec.ciphertext@, rec.salt@, passphrase@, kdf) {
                    Ok(p) => r is Ok && r->Ok_0@ == p,
                    Err(e) => r == Err::<Vec<u8>, CpassError>(e),
                }
            } else {
                follows_access(r, Some(rec.owner_id), caller, policy)
            },
        },
{
    let rec = read_secret(record, caller, policy)?;
    decrypt(&rec.ciphertext, &rec.salt, passphrase, kdf)
}

/// Ownership isolation: every read, update, delete or tag operation that
/// a caller who does not own the record makes fails, under either policy,
/// whatever valid token the caller holds.
pub proof fn lemma_ownership_isolation<T>(
    r: Result<T, CpassError>,
    owner: u128,
    caller: u128,
    policy: OwnershipPolicy,
)
    requires
        owner != caller,
        follows_access(r, Some(owner), caller, policy),
    ensures
        r is Err,
{
}

} // verus!
