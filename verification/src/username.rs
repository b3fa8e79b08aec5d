//! Usernames: what a name may look like, and who may take it.
//!
//! A username has 3 to 20 bytes, each a lowercase letter, a digit or an
//! underscore, and is not one of the reserved words. A name belongs to at
//! most one player and a player has at most one name.

use vstd::prelude::*;
use crate::error::Error;
use crate::gateway::{bytes_content, bytes_get, bytes_len};
use crate::moves::PlayerId;
use soroban_sdk::{Bytes, String};

verus! {

/// Fewest bytes in a username.
pub const USERNAME_MIN_LEN: u32 = 3;

/// Most bytes in a username.
pub const USERNAME_MAX_LEN: u32 = 20;

/// The host-side string `soroban_sdk::String`. The verifier sees nothing
/// inside it; what it holds is spoken of through `string_content`.
#[verifier::external_type_specification]
#[verifier::external_body]
pub struct ExString(String);

/// The bytes that a `soroban_sdk::String` holds, in order. The name has no
/// definition here: the contract of `string_to_bytes` is all that is known
/// of it.
pub uninterp spec fn string_content(s: String) -> Seq<u8>;

/// Calls `soroban_sdk::String::to_bytes`. Taken on trust: the byte string
/// that comes back holds the same bytes as the string, in the same order.
#[verifier::external_body]
fn string_to_bytes(s: &String) -> (b: Bytes)
    ensures
        bytes_content(b) == string_content(*s),
{
    s.to_bytes()
}

/// A byte that may stand in a username: `a`-`z`, `0`-`9` or `_`.
pub open spec fn is_username_byte(b: u8) -> bool {
    (97 <= b <= 122) || (48 <= b <= 57) || b == 95
}

/// Every byte of the name may stand in a username.
pub open spec fn valid_format(name: Seq<u8>) -> bool {
    forall|i: int| 0 <= i < name.len() ==> is_username_byte(#[trigger] name[i])
}

/// The reserved words: `admin`, `system`, `moderator`, `support`.
pub open spec fn is_reserved(name: Seq<u8>) -> bool {
    ||| name == seq![97u8, 100, 109, 105, 110]
    ||| name == seq![115u8, 121, 115, 116, 101, 109]
    ||| name == seq![109u8, 111, 100, 101, 114, 97, 116, 111, 114]
    ||| name == seq![115u8, 117, 112, 112, 111, 114, 116]
}

/// Why a name cannot be a username, if it cannot.
pub open spec fn username_refusal(name: Seq<u8>) -> Option<Error> {
    if name.len() > USERNAME_MAX_LEN {
        Some(Error::UsernameTooLong)
    } else if name.len() < USERNAME_MIN_LEN {
        Some(Error::UsernameTooShort)
    } else if !valid_format(name) {
        Some(Error::InvalidUsernameFormat)
    } else if is_reserved(name) {
        Some(Error::UsernameReserved)
    } else {
        None
    }
}

/// Whether two byte strings are the same.
pub fn same_bytes(a: &Vec<u8>, b: &Vec<u8>) -> (r: bool)
    ensures
        r == (a@ == b@),
{
    if a.len() != b.len() {
        return false;
    }
    let mut i: usize = 0;
    while i < a.len()
        invariant
            i <= a.len(),
            a.len() == b.len(),
            forall|j: int| 0 <= j < i ==> a@[j] == b@[j],
        decreases a.len() - i,
    {
        if a[i] != b[i] {
            return false;
        }
        i = i + 1;
    }
    assert(a@ =~= b@);
    true
}

/// Whether every byte of the name may stand in a username.
pub fn validate_username_format(username: &String) -> (r: bool)
    ensures
        r == valid_format(string_content(*username)),
{
    let bytes = string_to_bytes(username);
    let len: u32 = bytes_len(&bytes);
    let mut i: u32 = 0;
    while i < len
        invariant
            i <= len,
            len == bytes_content(bytes).len(),
            bytes_content(bytes) == string_content(*username),
            forall|j: int| 0 <= j < i ==> is_username_byte(#[trigger] bytes_content(bytes)[j]),
        decreases len - i,
    {
        match bytes_get(&bytes, i) {
            Some(byte) => {
                let is_valid = (byte >= 97 && byte <= 122) || (byte >= 48 && byte <= 57) || byte
                    == 95;
                if !is_valid {
                    assert(!is_username_byte(string_content(*username)[i as int]));
                    return false;
                }
            },
            None => {
                return false;
            },
        }
        i = i + 1;
    }
    true
}

/// Whether the name is one of the reserved words.
pub fn is_reserved_name(name: &Vec<u8>) -> (r: bool)
    ensures
        r == is_reserved(name@),
{
    let admin: Vec<u8> = vec![97u8, 100, 109, 105, 110];
    let system: Vec<u8> = vec![115u8, 121, 115, 116, 101, 109];
    let moderator: Vec<u8> = vec![109u8, 111, 100, 101, 114, 97, 116, 111, 114];
    let support: Vec<u8> = vec![115u8, 117, 112, 112, 111, 114, 116];
    same_bytes(name, &admin) || same_bytes(name, &system) || same_bytes(name, &moderator)
        || same_bytes(name, &support)
}

/// Checks a name against the rules for usernames and hands back its bytes.
pub fn check_username(username: &String) -> (r: Result<Vec<u8>, Error>)
    ensures
        match username_refusal(string_content(*username)) {
            Some(e) => r == Err::<Vec<u8>, Error>(e),
            None => r matches Ok(name) && name@ == string_content(*username),
        },
{
    let bytes = string_to_bytes(username);
    let len: u32 = bytes_len(&bytes);
    if len > USERNAME_MAX_LEN {
        return Err(Error::UsernameTooLong);
    }
    if len < USERNAME_MIN_LEN {
        return Err(Error::UsernameTooShort);
    }
    if !validate_username_format(username) {
        return Err(Error::InvalidUsernameFormat);
    }
    let mut name: Vec<u8> = Vec::new();
    let mut i: u32 = 0;
    while i < len
        invariant
            i <= len,
            len == bytes_content(bytes).len(),
            name@ =~= bytes_content(bytes).take(i as int),
        decreases len - i,
    {
        match bytes_get(&bytes, i) {
            Some(byte) => {
                name.push(byte);
            },
            None => {
                return Err(Error::InvalidUsernameFormat);
            },
        }
        i = i + 1;
    }
    assert(bytes_content(bytes).take(len as int) =~= bytes_content(bytes));
    if is_reserved_name(&name) {
        return Err(Error::UsernameReserved);
    }
    Ok(name)
}

/// What a request for a username does to the directory.
#[derive(Clone, Copy, Debug, PartialEq, Eq, Structural)]
pub enum UsernameChange {
    /// The caller has that name already: nothing changes.
    Keep,
    /// The name goes to the caller. `release_old` says whether the caller's
    /// earlier name is given up with it.
    Assign { release_old: bool },
}

/// What the directory does with a request of `caller` for a valid name,
/// given the owner of that name and, if the caller has a name already, the
/// owner that the directory lists for that earlier name.
pub open spec fn username_decision(
    caller: PlayerId,
    name_owner: Option<PlayerId>,
    old_name_owner: Option<PlayerId>,
) -> Result<UsernameChange, Error> {
    match name_owner {
        Some(owner) => if owner != caller {
            Err(Error::UsernameAlreadyTaken)
        } else {
            Ok(UsernameChange::Keep)
        },
        None => Ok(UsernameChange::Assign { release_old: old_name_owner == Some(caller) }),
    }
}

/// Decides a request of `caller` for a valid name. A name that belongs to
/// somebody else is refused; the caller's own name is kept; a free name is
/// assigned, and the caller's earlier name is released if it was theirs.
pub fn decide_username(
    caller: &PlayerId,
    name_owner: Option<PlayerId>,
    old_name_owner: Option<PlayerId>,
) -> (r: Result<UsernameChange, Error>)
    ensures
        r == username_decision(*caller, name_owner, old_name_owner),
{
    match name_owner {
        Some(owner) => {
            if !owner.same(caller) {
                return Err(Error::UsernameAlreadyTaken);
            }
            Ok(UsernameChange::Keep)
        },
        None => {
            let release_old = match old_name_owner {
                Some(owner) => owner.same(caller),
                None => false,
            };
            Ok(UsernameChange::Assign { release_old })
        },
    }
}

/// The username directory as a mathematical value: each player's name, and
/// each name's owner.
pub struct Directory {
    pub name_of: Map<PlayerId, Seq<u8>>,
    pub owner_of: Map<Seq<u8>, PlayerId>,
}

impl Directory {
    /// The two sides of the directory agree: a player's name belongs to
    /// that player, and a name's owner carries that name. So every player
    /// has at most one name and every name exactly one owner.
    pub open spec fn wf(self) -> bool {
        &&& forall|p: PlayerId| #[trigger]
            self.name_of.contains_key(p) ==> self.owner_of.contains_key(self.name_of[p])
                && self.owner_of[self.name_of[p]] == p
        &&& forall|n: Seq<u8>| #[trigger]
            self.owner_of.contains_key(n) ==> self.name_of.contains_key(self.owner_of[n])
                && self.name_of[self.owner_of[n]] == n
    }

    /// The owner that the directory lists for a name.
    pub open spec fn owner(self, name: Seq<u8>) -> Option<PlayerId> {
        if self.owner_of.contains_key(name) {
            Some(self.owner_of[name])
        } else {
            None
        }
    }

    /// The owner that the directory lists for the present name of `caller`.
    pub open spec fn old_name_owner(self, caller: PlayerId) -> Option<PlayerId> {
        if self.name_of.contains_key(caller) {
            self.owner(self.name_of[caller])
        } else {
            None
        }
    }

    /// What a request of `caller` for a valid name is answered with.
    pub open spec fn decision(self, caller: PlayerId, name: Seq<u8>) -> Result<UsernameChange, Error> {
        username_decision(caller, self.owner(name), self.old_name_owner(caller))
    }

    /// The directory after the change that a request was answered with has
    /// been carried out: on `Assign` the caller's earlier name is released if
    /// so decided, and the new name is entered on both sides.
    pub open spec fn apply(self, caller: PlayerId, name: Seq<u8>, change: UsernameChange) -> Directory {
        match change {
            UsernameChange::Keep => self,
            UsernameChange::Assign { release_old } => {
                let owner_of = if release_old {
                    self.owner_of.remove(self.name_of[caller])
                } else {
                    self.owner_of
                };
                Directory {
                    name_of: self.name_of.insert(caller, name),
                    owner_of: owner_of.insert(name, caller),
                }
            },
        }
    }
}

/// Carrying out the decisions keeps the directory consistent: after a
/// request that was granted the caller holds the name and the name is the
/// caller's, nobody else's entry has changed, and a request that was
/// refused asked for the name of another player.
pub proof fn law_directory_stays_consistent(dir: Directory, caller: PlayerId, name: Seq<u8>)
    requires
        dir.wf(),
    ensures
        match dir.decision(caller, name) {
            Ok(change) => {
                let next = dir.apply(caller, name, change);
                &&& next.wf()
                &&& next.name_of.contains_key(caller) && next.name_of[caller] == name
                &&& next.owner(name) == Some(caller)
                &&& forall|p: PlayerId|
                    p != caller ==> next.name_of.contains_key(p) == dir.name_of.contains_key(p)
                        && (dir.name_of.contains_key(p) ==> next.name_of[p] == dir.name_of[p])
            },
            Err(e) => e == Error::UsernameAlreadyTaken && dir.owner(name) is Some && dir.owner(name)
                != Some(caller),
        },
{
    match dir.decision(caller, name) {
        Ok(change) => {
            let next = dir.apply(caller, name, change);
            assert forall|p: PlayerId| #[trigger] next.name_of.contains_key(p) implies (
            next.owner_of.contains_key(next.name_of[p]) && next.owner_of[next.name_of[p]] == p) by {
                if p != caller {
                    assert(dir.name_of.contains_key(p));
                }
            }
            assert forall|n: Seq<u8>| #[trigger] next.owner_of.contains_key(n) implies (
            next.name_of.contains_key(next.owner_of[n]) && next.name_of[next.owner_of[n]] == n) by {
                if n != name {
                    assert(dir.owner_of.contains_key(n));
                }
            }
        },
        Err(_) => {},
    }
}

} // verus!
