use vstd::prelude::*;

use crate::address::{
    bech32_decoded_data, decodes_to_address, denotes_address, has_address_prefix, Bech32Address,
    Bech32AddressView,
};

verus! {

/// What the interactor remembers between runs: the address of the contract
/// it deployed last, if any.
#[derive(Clone, Debug)]
pub struct State {
    pub contract_address: Option<Bech32Address>,
}

impl View for State {
    type V = Option<Bech32AddressView>;

    open spec fn view(&self) -> Option<Bech32AddressView> {
        match self.contract_address {
            Some(a) => Some(a@),
            None => None,
        }
    }
}

impl Default for State {
    fn default() -> (res: State)
        ensures
            res.contract_address is None,
    {
        State { contract_address: None }
    }
}

impl State {
    /// The state to start from: the one stored by an earlier run where there
    /// is one, and a state that knows no contract otherwise.
    pub fn load_state(stored: Option<State>) -> (res: State)
        ensures
            stored matches Some(s) ==> res == s,
            stored is None ==> res.contract_address is None,
    {
        match stored {
            Some(s) => s,
            None => State::default(),
        }
    }

    /// Sets the contract address.
    pub fn set_address(&mut self, address: Bech32Address)
        ensures
            final(self).contract_address == Some(address),
            final(self)@ == Some(address@),
    {
        self.contract_address = Some(address);
    }

    /// Returns the contract address; one must be known.
    pub fn current_address(&self) -> (res: &Bech32Address)
        requires
            self.contract_address is Some,
        ensures
            Some(*res) == self.contract_address,
            Some(res@) == self@,
    {
        self.contract_address.as_ref().unwrap()
    }
}

/// The prefix that older state files put before an address's text.
pub open spec fn legacy_prefix() -> Seq<char> {
    seq!['b', 'e', 'c', 'h', '3', '2', ':']
}

/// Whether `text` starts with the legacy prefix `bech32:`.
pub open spec fn has_legacy_prefix(text: Seq<char>) -> bool {
    &&& legacy_prefix().len() <= text.len()
    &&& text.subrange(0, legacy_prefix().len() as int) == legacy_prefix()
}

/// `text` with a leading `bech32:` removed, where it has one.
pub open spec fn without_legacy_prefix(text: Seq<char>) -> Seq<char> {
    if has_legacy_prefix(text) {
        text.subrange(legacy_prefix().len() as int, text.len() as int)
    } else {
        text
    }
}

/// The texts of an optional string.
pub open spec fn text_of(stored: Option<String>) -> Option<Seq<char>> {
    match stored {
        Some(t) => Some(t@),
        None => None,
    }
}

/// What the state file keeps of a state: the contract address's text.
pub open spec fn stored_form(state: Option<Bech32AddressView>) -> Option<Seq<char>> {
    match state {
        Some(a) => Some(a.text),
        None => None,
    }
}

/// The state read from the stored address text: no contract where nothing
/// is stored; otherwise the text without a legacy `bech32:` prefix and the
/// address it decodes to, or `None` where it does not decode to 32 bytes.
pub open spec fn read_back(stored: Option<Seq<char>>) -> Option<Option<Bech32AddressView>> {
    match stored {
        None => Some(None),
        Some(t) => {
            let text = without_legacy_prefix(t);
            if decodes_to_address(text) {
                Some(Some(Bech32AddressView { address: bech32_decoded_data(text).unwrap(), text }))
            } else {
                None
            }
        },
    }
}

/// The rest of `text` after `prefix`, where `text` starts with `prefix`.
///
/// Calls `str::strip_prefix`, which, as its documentation says, returns the
/// substring after the prefix when the string starts with it and `None`
/// otherwise.
#[verifier::external_body]
fn strip_prefix<'a>(text: &'a str, prefix: &str) -> (res: Option<&'a str>)
    ensures
        res is Some <==> (prefix@.len() <= text@.len() && text@.subrange(0, prefix@.len() as int)
            == prefix@),
        res matches Some(rest) ==> text@ == prefix@ + rest@,
{
    text.strip_prefix(prefix)
}

impl State {
    /// The text the state file keeps: the contract address's bech32 text,
    /// which decodes to the address.
    pub fn stored_address(&self) -> (res: Option<String>)
        ensures
            text_of(res) == stored_form(self@),
            self@ matches Some(a) ==> denotes_address(a),
    {
        match &self.contract_address {
            Some(address) => Some(address.to_bech32_string()),
            None => None,
        }
    }

    /// The state read back from the text a state file keeps, or `None`
    /// where the text is not the bech32 text of an address.
    pub fn from_stored_address(stored: Option<String>) -> (res: Option<State>)
        ensures
            res matches Some(s) ==> read_back(text_of(stored)) == Some(s@),
            res is None ==> read_back(text_of(stored)) is None,
            stored is None ==> (res matches Some(s) && s.contract_address is None),
            stored matches Some(t) ==> (res is Some <==> decodes_to_address(
                without_legacy_prefix(t@),
            )),
            stored matches Some(t) ==> (res matches Some(s) ==> (s.contract_address is Some
                && s@.unwrap().text == without_legacy_prefix(t@) && Some(s@.unwrap().address)
                == bech32_decoded_data(without_legacy_prefix(t@)))),
    {
        match stored {
            None => Some(State { contract_address: None }),
            Some(text) => {
                let prefix = "bech32:";
                proof {
                    reveal_strlit("bech32:");
                    assert(prefix@ == legacy_prefix());
                }
                let text = match strip_prefix(text.as_str(), prefix) {
                    Some(rest) => {
                        proof {
                            assert(rest@ =~= without_legacy_prefix(text@));
                        }
                        rest.to_owned()
                    },
                    None => text,
                };
                match Bech32Address::try_from_bech32_string(text) {
                    Some(address) => Some(State { contract_address: Some(address) }),
                    None => None,
                }
            },
        }
    }
}

/// Reading back what the state file keeps of a state gives that state again,
/// provided its address text decodes to its address and does not itself start
/// with `bech32:`. Every state the interactor holds has a text that decodes to
/// its address (`stored_address` states it), and the text of a recorded
/// deployment starts with `erd1`.
pub proof fn lemma_stored_address_reads_back(state: Option<Bech32AddressView>)
    requires
        state matches Some(a) ==> denotes_address(a) && !has_legacy_prefix(a.text),
    ensures
        read_back(stored_form(state)) == Some(state),
{
}

/// A text kept with the legacy prefix, `bech32:` followed by the text of an
/// address, reads back to that address under the text without the prefix.
pub proof fn lemma_legacy_text_reads_back(text: Seq<char>)
    requires
        decodes_to_address(text),
    ensures
        read_back(Some(legacy_prefix() + text)) == Some(
            Some(Bech32AddressView { address: bech32_decoded_data(text).unwrap(), text }),
        ),
{
    let stored = legacy_prefix() + text;
    assert(stored.subrange(0, legacy_prefix().len() as int) =~= legacy_prefix());
    assert(stored.subrange(legacy_prefix().len() as int, stored.len() as int) =~= text);
}

/// A stored text never reads back as a state that knows no contract: it
/// gives the contract it names, or nothing at all.
pub proof fn lemma_stored_text_is_never_forgotten(text: Seq<char>)
    ensures
        read_back(Some(text)) != Some(None::<Bech32AddressView>),
        read_back(Some(text)) matches Some(state) ==> state is Some,
{
}

/// A text without the legacy prefix reads back unchanged, with the address
/// it decodes to, whenever it decodes to 32 bytes.
pub proof fn lemma_plain_text_reads_back(text: Seq<char>)
    requires
        decodes_to_address(text),
        !has_legacy_prefix(text),
    ensures
        read_back(Some(text)) == Some(
            Some(Bech32AddressView { address: bech32_decoded_data(text).unwrap(), text }),
        ),
{
}

/// An address text that starts with `erd1` does not start with `bech32:`.
pub proof fn lemma_address_prefix_is_not_legacy(text: Seq<char>)
    requires
        has_address_prefix(text),
    ensures
        !has_legacy_prefix(text),
{
    if has_legacy_prefix(text) {
        assert(text[0] == text.subrange(0, 4)[0]);
        assert(text[0] == text.subrange(0, 7)[0]);
    }
}

} // verus!
