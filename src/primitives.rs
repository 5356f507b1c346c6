//! Plain-value forms of the identifiers the relay handles: transaction
//! hashes, account addresses and request ids, with their text forms.
use vstd::prelude::*;

verus! {

/// The lowercase hexadecimal digit for a value below sixteen.
pub open spec fn hex_digit(n: u8) -> char {
    if n < 10 {
        (48 + n) as char
    } else {
        (87 + n) as char
    }
}

/// The value of a hexadecimal digit (either case), if `c` is one.
pub open spec fn hex_value(c: char) -> Option<u8> {
    if '0' <= c && c <= '9' {
        Some((c as u32 - 48) as u8)
    } else if 'a' <= c && c <= 'f' {
        Some((c as u32 - 87) as u8)
    } else if 'A' <= c && c <= 'F' {
        Some((c as u32 - 55) as u8)
    } else {
        None
    }
}

/// The `i`-th hexadecimal digit value of a byte string, most significant
/// nibble of each byte first.
pub open spec fn nibble(bytes: Seq<u8>, i: int) -> u8 {
    if i % 2 == 0 {
        bytes[i / 2] / 16
    } else {
        bytes[i / 2] % 16
    }
}

/// The text form of a byte string: `0x` followed by two lowercase hex digits per byte.
pub open spec fn hex_text(bytes: Seq<u8>) -> Seq<char> {
    seq!['0', 'x'] + Seq::new(2 * bytes.len(), |i: int| hex_digit(nibble(bytes, i)))
}

/// Whether `s` is `0x` followed by `2 * n` hexadecimal digits of either case.
pub open spec fn is_hex_text(s: Seq<char>, n: nat) -> bool {
    &&& s.len() == 2 + 2 * n
    &&& s[0] == '0'
    &&& s[1] == 'x'
    &&& forall|i: int| 2 <= i < s.len() ==> (#[trigger] hex_value(s[i])) is Some
}

/// The bytes that a well-formed hexadecimal text denotes.
pub open spec fn hex_bytes(s: Seq<char>, n: nat) -> Seq<u8> {
    Seq::new(
        n,
        |k: int| (hex_value(s[2 + 2 * k])->0 * 16 + hex_value(s[3 + 2 * k])->0) as u8,
    )
}

/// Reading a written digit gives back its value.
pub proof fn lemma_hex_digit_value(n: u8)
    requires
        n < 16,
    ensures
        hex_value(hex_digit(n)) == Some(n),
{
}

/// The hexadecimal text of a byte string reads back as the same bytes.
pub proof fn lemma_hex_text_round_trip(bytes: Seq<u8>)
    ensures
        is_hex_text(hex_text(bytes), bytes.len()),
        hex_bytes(hex_text(bytes), bytes.len()) == bytes,
{
    let s = hex_text(bytes);
    assert forall|i: int| 2 <= i < s.len() implies (#[trigger] hex_value(s[i])) is Some by {
        let j = i - 2;
        assert(nibble(bytes, j) < 16);
        lemma_hex_digit_value(nibble(bytes, j));
    }
    assert forall|k: int| 0 <= k < bytes.len() implies #[trigger] hex_bytes(s, bytes.len())[k] == bytes[k] by {
        lemma_hex_digit_value(bytes[k] / 16);
        lemma_hex_digit_value(bytes[k] % 16);
        assert(nibble(bytes, 2 * k) == bytes[k] / 16);
        assert(nibble(bytes, 2 * k + 1) == bytes[k] % 16);
        assert(s[2 + 2 * k] == hex_digit(bytes[k] / 16));
        assert(s[3 + 2 * k] == hex_digit(bytes[k] % 16));
    }
    assert(hex_bytes(s, bytes.len()) =~= bytes);
}

fn hex_digit_exec(n: u8) -> (c: char)
    requires
        n < 16,
    ensures
        c == hex_digit(n),
{
    if n < 10 {
        (48 + n) as char
    } else {
        (87 + n) as char
    }
}

fn hex_value_exec(c: char) -> (r: Option<u8>)
    ensures
        r == hex_value(c),
{
    if '0' <= c && c <= '9' {
        Some((c as u32 - 48) as u8)
    } else if 'a' <= c && c <= 'f' {
        Some((c as u32 - 87) as u8)
    } else if 'A' <= c && c <= 'F' {
        Some((c as u32 - 55) as u8)
    } else {
        None
    }
}

/// Relies on `String::push`: appends one character.
#[verifier::external_body]
fn push_char(s: &mut String, c: char)
    ensures
        final(s)@ == old(s)@.push(c),
{
    s.push(c)
}

/// A 32-byte transaction hash.
#[derive(Clone, Copy, Debug)]
pub struct TxHash {
    pub bytes: [u8; 32],
}

impl PartialEq for TxHash {
    fn eq(&self, o: &TxHash) -> (r: bool) {
        let mut i: usize = 0;
        while i < 32
            invariant
                i <= 32,
                forall|j: int| 0 <= j < i ==> self.bytes@[j] == o.bytes@[j],
            decreases 32 - i,
        {
            if self.bytes[i] != o.bytes[i] {
                return false;
            }
            i = i + 1;
        }
        assert(self.bytes@ =~= o.bytes@);
        true
    }
}

impl vstd::std_specs::cmp::PartialEqSpecImpl for TxHash {
    open spec fn obeys_eq_spec() -> bool {
        true
    }

    open spec fn eq_spec(&self, o: &TxHash) -> bool {
        self.bytes@ == o.bytes@
    }
}

impl Eq for TxHash {
}

impl TxHash {
    pub fn new(bytes: [u8; 32]) -> (r: TxHash)
        ensures
            r.bytes == bytes,
    {
        TxHash { bytes }
    }

    /// The stored text form: `0x` and 64 lowercase hex digits.
    pub fn to_text(&self) -> (r: String)
        ensures
            r@ == hex_text(self.bytes@),
    {
        let mut s = String::new();
        push_char(&mut s, '0');
        push_char(&mut s, 'x');
        let mut i: usize = 0;
        while i < 32
            invariant
                i <= 32,
                s@.len() == 2 + 2 * i,
                s@[0] == '0',
                s@[1] == 'x',
                forall|j: int| 0 <= j < 2 * i ==> s@[2 + j] == hex_digit(nibble(self.bytes@, j)),
            decreases 32 - i,
        {
            let b = self.bytes[i];
            push_char(&mut s, hex_digit_exec(b / 16));
            push_char(&mut s, hex_digit_exec(b % 16));
            proof {
                assert(nibble(self.bytes@, 2 * i as int) == b / 16);
                assert(nibble(self.bytes@, 2 * i + 1) == b % 16);
            }
            i = i + 1;
        }
        assert(s@ =~= hex_text(self.bytes@));
        s
    }

    /// Reads a hash from `0x` and 64 hex digits of either case.
    pub fn from_text(s: &str) -> (r: Option<TxHash>)
        ensures
            r is Some <==> is_hex_text(s@, 32),
            r matches Some(h) ==> h.bytes@ == hex_bytes(s@, 32),
    {
        let n = s.unicode_len();
        if n != 66 {
            return None;
        }
        if s.get_char(0) != '0' || s.get_char(1) != 'x' {
            return None;
        }
        let mut bytes: [u8; 32] = [0u8; 32];
        let mut i: usize = 0;
        while i < 32
            invariant
                i <= 32,
                s@.len() == 66,
                s@[0] == '0',
                s@[1] == 'x',
                forall|j: int| 2 <= j < 2 + 2 * i ==> (#[trigger] hex_value(s@[j])) is Some,
                forall|k: int| 0 <= k < i ==> bytes@[k] == hex_bytes(s@, 32)[k],
            decreases 32 - i,
        {
            let hi = hex_value_exec(s.get_char(2 + 2 * i));
            let lo = hex_value_exec(s.get_char(3 + 2 * i));
            match (hi, lo) {
                (Some(h), Some(l)) => {
                    bytes[i] = h * 16 + l;
                },
                _ => {
                    return None;
                },
            }
            i = i + 1;
        }
        assert(bytes@ =~= hex_bytes(s@, 32));
        Some(TxHash { bytes })
    }
}


/// A 20-byte account address.
#[derive(Clone, Copy, Debug)]
pub struct Address {
    pub bytes: [u8; 20],
}

/// The text form that uuid writes for a 128-bit id (hyphenated, lowercase).
pub uninterp spec fn uuid_text(id: u128) -> Seq<char>;

/// The id that uuid reads from a text, if it reads one.
pub uninterp spec fn uuid_parse(s: Seq<char>) -> Option<u128>;

/// Relies on `uuid::Uuid::new_v4`: a fresh random id; nothing is known of its value.
#[verifier::external_body]
fn random_uuid() -> (r: u128) {
    uuid::Uuid::new_v4().as_u128()
}

/// Relies on uuid's `Display` for `Uuid::from_u128`: the hyphenated form,
/// 36 characters.
#[verifier::external_body]
fn uuid_to_text(id: u128) -> (r: String)
    ensures
        r@ == uuid_text(id),
        r@.len() == 36,
{
    uuid::Uuid::from_u128(id).to_string()
}

/// Relies on `uuid::Uuid::parse_str`, which reads back the hyphenated form
/// that `Display` writes.
#[verifier::external_body]
fn uuid_from_text(s: &str) -> (r: Option<u128>)
    ensures
        r == uuid_parse(s@),
        forall|id: u128| s@ == uuid_text(id) ==> r == Some(id),
{
    match uuid::Uuid::parse_str(s) {
        Ok(u) => Some(u.as_u128()),
        Err(_) => None,
    }
}

/// The client-visible handle of a relayed transaction; stable across fee bumps.
#[derive(Clone, Copy, Debug, PartialEq, Eq, Structural, Hash)]
pub struct RequestId {
    pub value: u128,
}

impl RequestId {
    /// A fresh random id.
    pub fn new_v4() -> (r: RequestId) {
        RequestId { value: random_uuid() }
    }

    pub fn from_u128(value: u128) -> (r: RequestId)
        ensures
            r.value == value,
    {
        RequestId { value }
    }

    /// The stored text form of the id.
    pub fn to_text(&self) -> (r: String)
        ensures
            r@ == uuid_text(self.value),
            r@.len() == 36,
    {
        uuid_to_text(self.value)
    }

    /// Reads an id from its text form.
    pub fn parse(s: &str) -> (r: Option<RequestId>)
        ensures
            r == (match uuid_parse(s@) {
                Some(v) => Some(RequestId { value: v }),
                None => None::<RequestId>,
            }),
            forall|id: u128| s@ == uuid_text(id) ==> r == Some(RequestId { value: id }),
    {
        match uuid_from_text(s) {
            Some(v) => Some(RequestId { value: v }),
            None => None,
        }
    }
}

} // verus!
