//! A paged queue-service request whose next page is addressed by
//! hash-chaining its receive attempt id.

use vstd::prelude::*;

use sha2::Digest;

verus! {

/// The SHA-256 digest of a byte sequence. The digest is a pure function
/// of the input bytes; it is not spelled out here, only named, and the
/// one trusted wrapper below computes it.
pub uninterp spec fn sha256_of(data: Seq<u8>) -> Seq<u8>;

/// Relies on `sha2::Sha256` through the `Digest` trait: the digest
/// depends on the input bytes alone, and SHA-256 output is 32 bytes.
#[verifier::external_body]
fn sha256(data: &Vec<u8>) -> (digest: Vec<u8>)
    ensures
        digest@ == sha256_of(data@),
        digest@.len() == 32,
{
    let mut hasher = sha2::Sha256::new();
    hasher.update(data.as_slice());
    hasher.finalize().as_slice().to_vec()
}

/// The lower-case hexadecimal digit for a value below sixteen, as an
/// ASCII byte.
pub open spec fn hex_digit(n: u8) -> u8 {
    if n < 10 {
        (48 + n) as u8
    } else {
        (87 + n) as u8
    }
}

/// The lower-case hexadecimal rendering of a byte sequence: two digits
/// per byte, high half first.
pub open spec fn hex_of(data: Seq<u8>) -> Seq<u8> {
    Seq::new(
        data.len() * 2,
        |i: int|
            if i % 2 == 0 {
                hex_digit(data[i / 2] / 16)
            } else {
                hex_digit(data[i / 2] % 16)
            },
    )
}

/// Render a byte string in lower-case hexadecimal, two ASCII digits per
/// byte.
pub fn to_hex(data: &Vec<u8>) -> (r: Vec<u8>)
    ensures
        r@ == hex_of(data@),
{
    let mut r: Vec<u8> = Vec::new();
    let mut i: usize = 0;
    while i < data.len()
        invariant
            i <= data@.len(),
            r@.len() == 2 * i,
            forall|j: int| 0 <= j < 2 * i ==> r@[j] == hex_of(data@)[j],
        decreases data@.len() - i,
    {
        let b = data[i];
        let hi = b / 16;
        let lo = b % 16;
        r.push(
            if hi < 10 {
                48 + hi
            } else {
                87 + hi
            },
        );
        r.push(
            if lo < 10 {
                48 + lo
            } else {
                87 + lo
            },
        );
        i = i + 1;
    }
    proof {
        assert(r@ =~= hex_of(data@));
    }
    r
}

/// A received message, modeled by the one field the pagination logic
/// reads: its id, as a byte string.
#[derive(Clone, Debug)]
pub struct Message {
    /// The message's id, if the queue assigned one.
    pub message_id: Option<Vec<u8>>,
}

/// A receive-message request, modeled by the one field the pagination
/// logic reads and writes: the attempt id that deduplicates receives, as
/// a byte string.
#[derive(Clone, Debug)]
pub struct ReceiveMessageRequest {
    /// The receive-request attempt id, if deduplication is in use.
    pub receive_request_attempt_id: Option<Vec<u8>>,
}

/// A wrapper that equips a queue-service request with this crate's
/// request capabilities.
#[derive(Clone, Debug)]
pub struct AwsSqs<T> {
    /// The wrapped request.
    pub inner: T,
}

impl<T> From<T> for AwsSqs<T> {
    fn from(req: T) -> (r: AwsSqs<T>)
        ensures
            r == (AwsSqs { inner: req }),
    {
        AwsSqs { inner: req }
    }
}

impl<T> vstd::std_specs::convert::FromSpecImpl<T> for AwsSqs<T> {
    open spec fn obeys_from_spec() -> bool {
        true
    }

    open spec fn from_spec(req: T) -> AwsSqs<T> {
        AwsSqs { inner: req }
    }
}

/// The ASCII bytes of the tag mixed into every derived attempt id.
pub open spec fn next_tag() -> Seq<u8> {
    seq![110u8, 101u8, 120u8, 116u8]
}

/// The id of the first message of a page, or nothing when the page is
/// empty or its first message carries no id.
pub open spec fn first_message_id(response: Seq<Message>) -> Seq<u8> {
    if response.len() > 0 && response[0].message_id is Some {
        response[0].message_id->0@
    } else {
        Seq::<u8>::empty()
    }
}

/// The bytes hashed to derive the next attempt id: the current id, the
/// tag, and the first message's id, if any.
pub open spec fn next_attempt_seed(id: Seq<u8>, response: Seq<Message>) -> Seq<u8> {
    id + next_tag() + first_message_id(response)
}

/// The attempt id for the next page: the digest of the seed, rendered in
/// hexadecimal. Sixty-four digits, whatever the inputs.
pub open spec fn next_attempt_id(id: Seq<u8>, response: Seq<Message>) -> Seq<u8> {
    hex_of(sha256_of(next_attempt_seed(id, response)))
}

/// A copy of a byte string.
fn copy_bytes(v: &Vec<u8>) -> (r: Vec<u8>)
    ensures
        r@ == v@,
{
    let mut r: Vec<u8> = Vec::new();
    let mut i: usize = 0;
    while i < v.len()
        invariant
            i <= v@.len(),
            r@ == v@.take(i as int),
        decreases v@.len() - i,
    {
        r.push(v[i]);
        proof {
            assert(r@ =~= v@.take(i + 1));
        }
        i = i + 1;
    }
    proof {
        assert(v@.take(i as int) =~= v@);
    }
    r
}

impl AwsSqs<ReceiveMessageRequest> {
    /// Fold a received page back into the request: when deduplication is
    /// in use, the attempt id is replaced by one derived from the current
    /// id, a fixed tag, and the first received message's id — always
    /// sixty-four hexadecimal digits — so that a re-received page
    /// continues the same sequence; without an attempt id the request is
    /// left as it is. There is always a next page to ask for.
    pub fn advance(&mut self, response: &Vec<Message>) -> (more: bool)
        ensures
            more,
            match old(self).inner.receive_request_attempt_id {
                None => *final(self) == *old(self),
                Some(id) => final(self).inner.receive_request_attempt_id matches Some(nid)
                    && nid@ == next_attempt_id(id@, response@) && nid@.len() == 64,
            },
    {
        let cur = self.inner.receive_request_attempt_id.take();
        match cur {
            None => true,
            Some(id) => {
                let ghost id0 = id;
                let mut data = id;
                let mut tag: Vec<u8> = vec![110u8, 101u8, 120u8, 116u8];
                data.append(&mut tag);
                if response.len() > 0 {
                    let first_id = &response[0].message_id;
                    match first_id {
                        Some(mid) => {
                            let mut m = copy_bytes(mid);
                            data.append(&mut m);
                        },
                        None => {},
                    }
                }
                proof {
                    assert(data@ =~= next_attempt_seed(id0@, response@));
                }
                let digest = sha256(&data);
                let hexed = to_hex(&digest);
                self.inner.receive_request_attempt_id = Some(hexed);
                true
            },
        }
    }
}

} // verus!
