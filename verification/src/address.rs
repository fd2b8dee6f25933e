use vstd::prelude::*;

use bech32::{Bech32, Hrp};

verus! {

/// Number of bytes in an account address.
pub const ADDRESS_LEN: usize = 32;

/// Largest length, in characters, of a bech32 human-readable part.
pub const MAX_HRP_LEN: usize = 83;

/// Largest length of a bech32 string, checksum included.
pub const BECH32_CODE_LENGTH: usize = 1023;

/// Number of checksum characters at the end of a bech32 string.
pub const BECH32_CHECKSUM_LENGTH: usize = 6;

/// A raw 32-byte account address.
#[derive(Clone, Copy, Debug)]
pub struct Address {
    pub bytes: [u8; 32],
}

impl View for Address {
    type V = Seq<u8>;

    open spec fn view(&self) -> Seq<u8> {
        self.bytes@
    }
}

impl Address {
    /// Wraps the given bytes as an address.
    pub fn from_bytes(bytes: [u8; 32]) -> (res: Address)
        ensures
            res@ == bytes@,
    {
        Address { bytes }
    }
}

pub open spec fn is_ascii_upper(c: char) -> bool {
    'A' <= c && c <= 'Z'
}

pub open spec fn is_ascii_lower(c: char) -> bool {
    'a' <= c && c <= 'z'
}

/// The lowercase form of an ASCII character; other characters are kept.
pub open spec fn ascii_to_lower(c: char) -> char {
    if is_ascii_upper(c) {
        ((c as u32) + 32) as char
    } else {
        c
    }
}

/// Whether `hrp` is accepted as the human-readable part of a bech32 string:
/// between 1 and 83 characters, each printable ASCII (33 to 126), and not
/// both lowercase and uppercase letters at once.
pub open spec fn valid_hrp(hrp: Seq<char>) -> bool {
    &&& 1 <= hrp.len() <= MAX_HRP_LEN
    &&& forall|i: int| 0 <= i < hrp.len() ==> 33 <= #[trigger] (hrp[i] as u32) <= 126
    &&& !((exists|i: int| 0 <= i < hrp.len() && is_ascii_lower(#[trigger] hrp[i])) && (exists|j: int|
        0 <= j < hrp.len() && is_ascii_upper(#[trigger] hrp[j])))
}

/// Number of 5-bit groups that `n` bytes are spread over (the last group padded).
pub open spec fn data_char_len(n: nat) -> nat {
    (8 * n + 4) / 5
}

/// Length of the bech32 string for a human-readable part of `hrp_len`
/// characters and `data_len` bytes of data: the part, the separator `1`, the
/// data characters and the checksum.
pub open spec fn bech32_len(hrp_len: nat, data_len: nat) -> nat {
    hrp_len + 1 + data_char_len(data_len) + (BECH32_CHECKSUM_LENGTH as nat)
}

/// The 32 characters a bech32 string writes its data and checksum with.
pub open spec fn bech32_charset() -> Seq<char> {
    seq![
        'q', 'p', 'z', 'r', 'y', '9', 'x', '8', 'g', 'f', '2', 't', 'v', 'd', 'w', '0',
        's', '3', 'j', 'n', '5', '4', 'k', 'h', 'c', 'e', '6', 'm', 'u', 'a', '7', 'l',
    ]
}

/// The string that `bech32::encode::<Bech32>` writes for the human-readable
/// part `hrp` and the bytes `data`.
pub uninterp spec fn bech32_encoding(hrp: Seq<char>, data: Seq<u8>) -> Seq<char>;

/// The bytes that `bech32::decode` recovers from `text`, or `None` where it
/// reports an error.
pub uninterp spec fn bech32_decoded_data(text: Seq<char>) -> Option<Seq<u8>>;

/// Encodes `data` under the human-readable part `hrp` with the bech32 checksum.
///
/// Calls `Hrp::parse` on `hrp` and then `bech32::encode::<Bech32>`. Claims,
/// as their source shows: a result comes back exactly when `hrp` is a valid
/// human-readable part and the whole string fits in 1023 characters; the
/// string is the lowercased part, the separator `1`, then data and checksum
/// characters from the bech32 alphabet, `bech32_len` characters in all; and it
/// is the one that `bech32_encoding` names for these arguments; and
/// `bech32::decode` gives `data` back from it, since the string carries a
/// valid bech32 checksum and decoding drops exactly the padding that encoding
/// added. The data and checksum characters themselves are not described
/// beyond that name. The
/// length computation in the crate multiplies the data length by 8, which is
/// why that product must fit in a `usize`.
#[verifier::external_body]
fn bech32_encode(hrp: &str, data: &[u8]) -> (res: Option<String>)
    requires
        8 * data@.len() <= usize::MAX,
    ensures
        res is Some <==> (valid_hrp(hrp@) && bech32_len(hrp@.len(), data@.len())
            <= BECH32_CODE_LENGTH),
        res matches Some(s) ==> {
            &&& s@ == bech32_encoding(hrp@, data@)
            &&& s@.len() == bech32_len(hrp@.len(), data@.len())
            &&& forall|i: int| 0 <= i < hrp@.len() ==> s@[i] == ascii_to_lower(#[trigger] hrp@[i])
            &&& s@[hrp@.len() as int] == '1'
            &&& forall|i: int|
                hrp@.len() < i < s@.len() ==> bech32_charset().contains(#[trigger] s@[i])
            &&& bech32_decoded_data(s@) == Some(data@)
        },
{
    match Hrp::parse(hrp) {
        Ok(parsed) => bech32::encode::<Bech32>(parsed, data).ok(),
        Err(_) => None,
    }
}

/// Decodes a bech32 (or bech32m) string into its data bytes.
///
/// Calls `bech32::decode` and keeps the data, dropping the human-readable
/// part. Claims only that the result is the one `bech32_decoded_data` names
/// for `text`; which strings decode, and to what, is left to that name.
#[verifier::external_body]
fn bech32_decode(text: &str) -> (res: Option<Vec<u8>>)
    ensures
        res matches Some(d) ==> bech32_decoded_data(text@) == Some(d@),
        res is None ==> bech32_decoded_data(text@) is None,
{
    match bech32::decode(text) {
        Ok((_hrp, data)) => Some(data),
        Err(_) => None,
    }
}

/// The human-readable part of account addresses on the network.
pub open spec fn address_hrp() -> Seq<char> {
    seq!['e', 'r', 'd']
}

/// The bech32 text of an address.
pub open spec fn address_text(bytes: Seq<u8>) -> Seq<char> {
    bech32_encoding(address_hrp(), bytes)
}

/// Whether `view` holds a 32-byte address and a text that decodes to it.
pub open spec fn denotes_address(view: Bech32AddressView) -> bool {
    &&& view.address.len() == ADDRESS_LEN
    &&& bech32_decoded_data(view.text) == Some(view.address)
}

/// Whether `text` starts with the network's address prefix `erd1`.
pub open spec fn has_address_prefix(text: Seq<char>) -> bool {
    &&& 4 <= text.len()
    &&& text.subrange(0, 4) == seq!['e', 'r', 'd', '1']
}

/// Whether `text` decodes to exactly a 32-byte address.
pub open spec fn decodes_to_address(text: Seq<char>) -> bool {
    &&& bech32_decoded_data(text) is Some
    &&& bech32_decoded_data(text).unwrap().len() == ADDRESS_LEN
}

/// The bech32 encoding of the address `bytes`: `erd1`, then the data and
/// checksum characters.
pub fn encode_address(address: &Address) -> (res: String)
    ensures
        res@ == address_text(address@),
        res@.len() == 62,
        res@.subrange(0, 4) == seq!['e', 'r', 'd', '1'],
        bech32_decoded_data(res@) == Some(address@),
{
    let hrp = "erd";
    proof {
        reveal_strlit("erd");
        assert(hrp@ == address_hrp());
        assert(valid_hrp(hrp@)) by {
            assert(!exists|j: int| 0 <= j < hrp@.len() && is_ascii_upper(#[trigger] hrp@[j]));
        }
    }
    let encoded = bech32_encode(hrp, address.bytes.as_slice());
    let text = encoded.unwrap();
    proof {
        assert(text@.subrange(0, 4) =~= seq!['e', 'r', 'd', '1']);
    }
    text
}

/// An address together with its bech32 text.
#[derive(Debug)]
pub struct Bech32Address {
    address: Address,
    bech32: String,
}

impl Bech32Address {
    /// The text always decodes to the address.
    #[verifier::type_invariant]
    spec fn text_decodes_to_address(self) -> bool {
        bech32_decoded_data(self.bech32@) == Some(self.address@)
    }
}

impl Clone for Bech32Address {
    fn clone(&self) -> (res: Self)
        ensures
            res == *self,
    {
        proof {
            use_type_invariant(self);
        }
        Bech32Address { address: self.address, bech32: self.bech32.clone() }
    }
}

/// What a `Bech32Address` stands for: the raw bytes and the text.
pub struct Bech32AddressView {
    pub address: Seq<u8>,
    pub text: Seq<char>,
}

impl View for Bech32Address {
    type V = Bech32AddressView;

    closed spec fn view(&self) -> Bech32AddressView {
        Bech32AddressView { address: self.address@, text: self.bech32@ }
    }
}

impl Bech32Address {
    /// The address paired with its own bech32 encoding.
    pub fn from_address(address: Address) -> (res: Bech32Address)
        ensures
            res@.address == address@,
            res@.text == address_text(address@),
            has_address_prefix(res@.text),
            denotes_address(res@),
    {
        let bech32 = encode_address(&address);
        Bech32Address { address, bech32 }
    }

    /// Reads an address from its bech32 text; the text must decode to 32 bytes.
    pub fn from_bech32_string(bech32: String) -> (res: Bech32Address)
        requires
            decodes_to_address(bech32@),
        ensures
            res@.text == bech32@,
            Some(res@.address) == bech32_decoded_data(bech32@),
            denotes_address(res@),
    {
        let data = bech32_decode(bech32.as_str()).unwrap();
        let mut bytes = [0u8; 32];
        let mut i: usize = 0;
        while i < ADDRESS_LEN
            invariant
                data@.len() == ADDRESS_LEN,
                i <= ADDRESS_LEN,
                bytes@.len() == ADDRESS_LEN,
                forall|j: int| 0 <= j < i ==> bytes@[j] == data@[j],
            decreases ADDRESS_LEN - i,
        {
            bytes[i] = data[i];
            i = i + 1;
        }
        proof {
            assert(bytes@ =~= data@);
        }
        Bech32Address { address: Address { bytes }, bech32 }
    }

    /// Reads an address from its bech32 text, or `None` where the text does
    /// not decode to exactly 32 bytes.
    pub fn try_from_bech32_string(bech32: String) -> (res: Option<Bech32Address>)
        ensures
            res is Some <==> decodes_to_address(bech32@),
            res matches Some(a) ==> a@.text == bech32@ && Some(a@.address) == bech32_decoded_data(
                bech32@,
            ),
    {
        match bech32_decode(bech32.as_str()) {
            Some(data) => {
                if data.len() == ADDRESS_LEN {
                    Some(Bech32Address::from_bech32_string(bech32))
                } else {
                    None
                }
            },
            None => None,
        }
    }

    /// The bech32 text, which decodes to the address.
    pub fn to_bech32_string(&self) -> (res: String)
        ensures
            res@ == self@.text,
            denotes_address(self@),
    {
        proof {
            use_type_invariant(self);
        }
        self.bech32.clone()
    }

    /// The raw address.
    pub fn as_address(&self) -> (res: &Address)
        ensures
            res@ == self@.address,
            denotes_address(self@),
    {
        proof {
            use_type_invariant(self);
        }
        &self.address
    }
}

} // verus!
