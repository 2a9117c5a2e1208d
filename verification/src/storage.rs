//! The message store: content addressing and deduplicated storage.
//!
//! A fetched message is stored under a content address derived
//! deterministically from the folder name and the server-assigned message
//! identifier: the lowercase hex rendering of a 160-bit digest of the folder
//! bytes followed by the identifier's decimal digits. The on-disk layout is
//! `rustmail/<account-email>/<folder>/<address>.eml` below the platform data
//! directory; this module computes the relative path and keeps the store's
//! idempotence invariant: at most one file per (folder, identifier) pair.

use vstd::prelude::*;
use vstd::utf8::encode_utf8;
use sha1::Digest;

verus! {

/// The SHA-1 digest of a byte sequence, as computed by the `sha1` crate.
pub uninterp spec fn sha1_of(bytes: Seq<u8>) -> Seq<u8>;

/// The lowercase hex digit for a value below 16.
pub open spec fn hex_digit(v: u8) -> char
    recommends
        v < 16,
{
    seq!['0', '1', '2', '3', '4', '5', '6', '7', '8', '9', 'a', 'b', 'c', 'd', 'e', 'f'][v as int]
}

/// Lowercase hex rendering of a byte sequence: two digits per byte, high
/// nibble first.
pub open spec fn hex_chars(bytes: Seq<u8>) -> Seq<char> {
    Seq::new(
        bytes.len() * 2,
        |i: int|
            if i % 2 == 0 {
                hex_digit(bytes[i / 2] / 16)
            } else {
                hex_digit(bytes[i / 2] % 16)
            },
    )
}

/// The ASCII decimal digits of `n`, most significant first, no leading zeros.
pub open spec fn dec_bytes(n: nat) -> Seq<u8>
    decreases n,
{
    if n < 10 {
        seq![(48 + n) as u8]
    } else {
        dec_bytes(n / 10).push((48 + n % 10) as u8)
    }
}

/// The digest input for one message: the folder's UTF-8 bytes followed by the
/// identifier's decimal digits. The account is deliberately not part of the
/// input: cross-account separation comes from the directory layout.
pub open spec fn digest_input(folder: Seq<char>, uid: u32) -> Seq<u8> {
    encode_utf8(folder) + dec_bytes(uid as nat)
}

/// The content address of one message: 40 lowercase hex characters.
pub open spec fn address_chars(folder: Seq<char>, uid: u32) -> Seq<char> {
    hex_chars(sha1_of(digest_input(folder, uid)))
}

/// Relies on `sha1::Sha1::digest` (RustCrypto): the 20-byte SHA-1 digest,
/// a function of the input bytes alone.
#[verifier::external_body]
fn sha1_digest(data: &Vec<u8>) -> (r: Vec<u8>)
    ensures
        r@ == sha1_of(data@),
        r@.len() == 20,
{
    sha1::Sha1::digest(data.as_slice()).to_vec()
}

/// Relies on `hex::encode`: two lowercase hex digits per input byte, high
/// nibble first.
#[verifier::external_body]
fn hex_encode(data: &Vec<u8>) -> (r: String)
    ensures
        r@ == hex_chars(data@),
{
    hex::encode(data.as_slice())
}

/// Appends every byte of `src` to `dst`.
fn push_bytes(dst: &mut Vec<u8>, src: &[u8])
    ensures
        final(dst)@ == old(dst)@ + src@,
{
    let mut i: usize = 0;
    while i < src.len()
        invariant
            i <= src@.len(),
            dst@ == old(dst)@ + src@.subrange(0, i as int),
        decreases src@.len() - i,
    {
        let b = src[i];
        dst.push(b);
        assert(dst@ =~= old(dst)@ + src@.subrange(0, i + 1));
        i = i + 1;
    }
    assert(dst@ =~= old(dst)@ + src@);
}

/// The decimal digits of `n`, most significant first.
fn u32_decimal(n: u32) -> (r: Vec<u8>)
    ensures
        r@ == dec_bytes(n as nat),
    decreases n,
{
    if n < 10 {
        let mut v: Vec<u8> = Vec::new();
        v.push(48 + n as u8);
        assert(v@ =~= dec_bytes(n as nat));
        v
    } else {
        let mut v = u32_decimal(n / 10);
        v.push(48 + (n % 10) as u8);
        v
    }
}

/// The content address of the message `uid` in `folder`: the lowercase hex
/// rendering of the digest of the folder name followed by the identifier's
/// decimal digits. Deterministic: the result is a function of the two
/// arguments alone, so repeated calls, and calls in later runs, agree.
pub fn address(folder: &str, uid: u32) -> (r: String)
    ensures
        r@ == address_chars(folder@, uid),
        r@.len() == 40,
{
    let mut input: Vec<u8> = Vec::new();
    push_bytes(&mut input, folder.as_bytes());
    let digits = u32_decimal(uid);
    push_bytes(&mut input, digits.as_slice());
    assert(input@ =~= digest_input(folder@, uid));
    let digest = sha1_digest(&input);
    hex_encode(&digest)
}

/// Law (determinism): the content address is a function of the folder and
/// the identifier alone — any two results computed for the same pair, in the
/// same run or across runs, are the same 40 characters.
pub proof fn lemma_address_deterministic(
    folder: Seq<char>,
    uid: u32,
    r1: Seq<char>,
    r2: Seq<char>,
)
    requires
        r1 == address_chars(folder, uid),
        r2 == address_chars(folder, uid),
    ensures
        r1 == r2,
{
}

/// Relies on `String::push_str`: appends the slice's characters to the string.
pub assume_specification[ String::push_str ](s: &mut String, other: &str)
    ensures
        final(s)@ == old(s)@ + other@,
;

/// The storage path of one message, relative to the platform data directory:
/// `rustmail/<account-email>/<folder>/<address>.eml`. This layout is a
/// persisted contract: it is what makes previously stored mail findable.
pub open spec fn rel_path_chars(email: Seq<char>, folder: Seq<char>, uid: u32) -> Seq<char> {
    "rustmail/"@ + email + "/"@ + folder + "/"@ + address_chars(folder, uid) + ".eml"@
}

/// Builds the relative storage path for the message `uid` of `folder` under
/// the account `email`.
pub fn message_rel_path(email: &str, folder: &str, uid: u32) -> (r: String)
    ensures
        r@ == rel_path_chars(email@, folder@, uid),
{
    let mut p = "rustmail/".to_owned();
    p.push_str(email);
    p.push_str("/");
    p.push_str(folder);
    p.push_str("/");
    let addr = address(folder, uid);
    p.push_str(addr.as_str());
    p.push_str(".eml");
    assert(p@ =~= rel_path_chars(email@, folder@, uid));
    p
}

/// One stored message: the on-disk artifact of a fetch.
pub struct StoredMessage {
    /// Path relative to the platform data directory.
    pub path: String,
    /// The raw message bytes.
    pub body: Vec<u8>,
}

/// The message store: the set of stored messages of one account, indexed by
/// their storage path. It models the account's storage directory; the caller
/// mirrors every recorded write onto the filesystem.
pub struct MessageStore {
    /// The stored messages, one entry per distinct path.
    pub files: Vec<StoredMessage>,
}

/// What a store holds after writing `body` at `path`: an existing file is
/// never rewritten, so an occupied path keeps its bytes.
pub open spec fn store_map(
    m: Map<Seq<char>, Seq<u8>>,
    path: Seq<char>,
    body: Seq<u8>,
) -> Map<Seq<char>, Seq<u8>> {
    if m.contains_key(path) {
        m
    } else {
        m.insert(path, body)
    }
}

impl MessageStore {
    /// The store as a map from path to stored bytes.
    pub open spec fn as_map(&self) -> Map<Seq<char>, Seq<u8>> {
        Self::entries_map(self.files@)
    }

    /// The map held by a prefix of the entry list; later entries win, though
    /// a well-formed store has no repeated path.
    pub open spec fn entries_map(s: Seq<StoredMessage>) -> Map<Seq<char>, Seq<u8>>
        decreases s.len(),
    {
        if s.len() == 0 {
            Map::empty()
        } else {
            Self::entries_map(s.drop_last()).insert(s.last().path@, s.last().body@)
        }
    }

    /// Well-formed: no two entries share a path.
    pub open spec fn wf(&self) -> bool {
        forall|i: int, j: int|
            0 <= i < j < self.files@.len() ==> self.files@[i].path@ != self.files@[j].path@
    }

    /// Each entry's path is in the map.
    proof fn lemma_entry_in_map(s: Seq<StoredMessage>, i: int)
        requires
            0 <= i < s.len(),
        ensures
            Self::entries_map(s).contains_key(s[i].path@),
        decreases s.len(),
    {
        if i < s.len() - 1 {
            Self::lemma_entry_in_map(s.drop_last(), i);
            assert(s.drop_last()[i] == s[i]);
        }
    }

    /// A path in the map is some entry's path.
    proof fn lemma_map_path_has_entry(s: Seq<StoredMessage>, path: Seq<char>)
        requires
            Self::entries_map(s).contains_key(path),
        ensures
            exists|i: int| 0 <= i < s.len() && s[i].path@ == path,
        decreases s.len(),
    {
        if s.len() > 0 {
            if s.last().path@ == path {
                assert(s[s.len() - 1].path@ == path);
            } else {
                Self::lemma_map_path_has_entry(s.drop_last(), path);
                let i = choose|i: int|
                    0 <= i < s.drop_last().len() && s.drop_last()[i].path@ == path;
                assert(s[i].path@ == path);
            }
        }
    }

    /// An empty store.
    pub fn new() -> (r: MessageStore)
        ensures
            r.wf(),
            r.as_map() == Map::<Seq<char>, Seq<u8>>::empty(),
            r.files@.len() == 0,
    {
        MessageStore { files: Vec::new() }
    }

    /// The number of stored messages.
    pub fn len(&self) -> (n: usize)
        ensures
            n == self.files@.len(),
    {
        self.files.len()
    }

    /// Whether a message is already stored at `path`.
    pub fn contains_path(&self, path: &String) -> (r: bool)
        ensures
            r == self.as_map().contains_key(path@),
    {
        let mut i: usize = 0;
        while i < self.files.len()
            invariant
                i <= self.files@.len(),
                forall|j: int| 0 <= j < i ==> self.files@[j].path@ != path@,
            decreases self.files@.len() - i,
        {
            if self.files[i].path == *path {
                proof {
                    Self::lemma_entry_in_map(self.files@, i as int);
                }
                return true;
            }
            i = i + 1;
        }
        proof {
            if self.as_map().contains_key(path@) {
                Self::lemma_map_path_has_entry(self.files@, path@);
                let j = choose|j: int|
                    0 <= j < self.files@.len() && self.files@[j].path@ == path@;
                assert(false);
            }
        }
        false
    }
}

/// Stores the raw bytes of the message `uid` of `folder` for the account
/// `email`. The path is computed from the content address; if the store
/// already holds that path, nothing is written and nothing changes. Returns
/// the path either way, and whether a write took place.
pub fn store_message(
    store: &mut MessageStore,
    email: &str,
    folder: &str,
    uid: u32,
    body: &Vec<u8>,
) -> (r: (String, bool))
    requires
        old(store).wf(),
    ensures
        final(store).wf(),
        r.0@ == rel_path_chars(email@, folder@, uid),
        r.1 == !old(store).as_map().contains_key(r.0@),
        final(store).as_map() == store_map(old(store).as_map(), r.0@, body@),
        !r.1 ==> *final(store) == *old(store),
        final(store).files@.len() == old(store).files@.len() + (if r.1 {
            1int
        } else {
            0int
        }),
{
    let path = message_rel_path(email, folder, uid);
    if store.contains_path(&path) {
        return (path, false);
    }
    let entry = StoredMessage { path: path.clone(), body: clone_bytes(body) };
    proof {
        assert forall|i: int|
            0 <= i < old(store).files@.len() implies old(store).files@[i].path@ != path@ by {
            if old(store).files@[i].path@ == path@ {
                MessageStore::lemma_entry_in_map(old(store).files@, i);
            }
        };
    }
    store.files.push(entry);
    assert(store.files@.drop_last() =~= old(store).files@);
    assert(store.as_map() =~= store_map(old(store).as_map(), path@, body@));
    (path, true)
}

/// Copies a byte vector.
fn clone_bytes(v: &Vec<u8>) -> (r: Vec<u8>)
    ensures
        r@ == v@,
{
    let mut r: Vec<u8> = Vec::new();
    push_bytes(&mut r, v.as_slice());
    assert(r@ =~= v@);
    r
}

/// Law (idempotent storage): storing the same bytes at the same path twice
/// leaves exactly the store that the first call left; the second call changes
/// nothing. A fresh path holds the original bytes afterwards.
pub proof fn lemma_store_idempotent(m: Map<Seq<char>, Seq<u8>>, path: Seq<char>, body: Seq<u8>)
    ensures
        store_map(store_map(m, path, body), path, body) == store_map(m, path, body),
        store_map(m, path, body).contains_key(path),
        !m.contains_key(path) ==> store_map(m, path, body)[path] == body,
{
}

} // verus!

