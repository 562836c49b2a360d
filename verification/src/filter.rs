//! Filtering engine: pure predicates over 32-byte program and account
//! identifiers, driven by ignore-lists and allow-lists.
//!
//! An ignore-list always wins over an allow-list, and an empty allow-list
//! means "allow everything that is not ignored".  Identifiers whose length
//! is not exactly 32 bytes are rejected outright; an earlier draft instead
//! fell back to "allow when the allow-list is empty", but the stricter
//! reject branch is the one implemented here.

use crate::config::ConfigFilter;
use std::str::FromStr;
use vstd::prelude::*;

verus! {

/// The 32-byte key a base58 string denotes, if it denotes one.
pub uninterp spec fn parsed_key(s: Seq<char>) -> Option<Seq<u8>>;

/// Relies on solana_pubkey::Pubkey::from_str (base58 decoding into a
/// 32-byte key, a function of the characters alone) and on
/// Pubkey::to_bytes handing those 32 bytes back.
#[verifier::external_body]
fn parse_pubkey(s: &str) -> (r: Option<Vec<u8>>)
    ensures
        match r {
            Some(k) => parsed_key(s@) == Some(k@) && k@.len() == 32,
            None => parsed_key(s@) is None,
        },
{
    match solana_pubkey::Pubkey::from_str(s) {
        Ok(p) => Some(p.to_bytes().to_vec()),
        Err(_) => None,
    }
}

/// Membership of `id` in a list of byte-string keys.
pub open spec fn key_list_contains(keys: Seq<Seq<u8>>, id: Seq<u8>) -> bool {
    exists|i: int| 0 <= i < keys.len() && keys[i] == id
}

/// The filtering rule shared by program and account identifiers:
/// the identifier must be exactly 32 bytes, must not be ignored, and,
/// when the allow-list is non-empty, must be allowed.
pub open spec fn spec_wants_key(ignores: Seq<Seq<u8>>, allows: Seq<Seq<u8>>, id: Seq<u8>) -> bool {
    &&& id.len() == 32
    &&& !key_list_contains(ignores, id)
    &&& (allows.len() == 0 || key_list_contains(allows, id))
}

/// Every key in a filter list is exactly 32 bytes long.
pub open spec fn keys_well_formed(keys: Seq<Seq<u8>>) -> bool {
    forall|i: int| 0 <= i < keys.len() ==> (#[trigger] keys[i]).len() == 32
}

/// No key occurs twice in a filter list.
pub open spec fn keys_unique(keys: Seq<Seq<u8>>) -> bool {
    forall|i: int, j: int| 0 <= i < j < keys.len() ==> #[trigger] keys[i] != #[trigger] keys[j]
}

/// The identifiers a textual key list denotes: every string that parses
/// as a 32-byte key, each kept once, unparsable entries skipped.
pub open spec fn list_denotes(keys: Seq<Seq<u8>>, items: Seq<String>) -> bool {
    forall|id: Seq<u8>|
        #[trigger] key_list_contains(keys, id) <==> (exists|j: int|
            0 <= j < items.len() && parsed_key(#[trigger] items[j]@) == Some(id))
}

/// Parse a textual key list into its set of 32-byte identifiers.
fn parse_key_list(items: &Vec<String>) -> (r: Vec<Vec<u8>>)
    ensures
        keys_well_formed(r.deep_view()),
        keys_unique(r.deep_view()),
        list_denotes(r.deep_view(), items@),
{
    let mut out: Vec<Vec<u8>> = Vec::new();
    let mut idx: usize = 0;
    proof {
        assert(out.deep_view() =~= Seq::<Seq<u8>>::empty());
    }
    while idx < items.len()
        invariant
            0 <= idx <= items@.len(),
            keys_well_formed(out.deep_view()),
            keys_unique(out.deep_view()),
            list_denotes(out.deep_view(), items@.take(idx as int)),
        decreases items@.len() - idx,
    {
        let ghost pre_dv = out.deep_view();
        match parse_pubkey(items[idx].as_str()) {
            Some(key) => {
                if !key_list_has(&out, key.as_slice()) {
                    let ghost kv = key@;
                    out.push(key);
                    proof {
                        assert(out.deep_view() =~~= pre_dv.push(kv));
                        assert forall|id: Seq<u8>| #[trigger] key_list_contains(
                            out.deep_view(),
                            id,
                        ) implies (key_list_contains(pre_dv, id) || id == kv) by {
                            let i = choose|i: int|
                                0 <= i < out.deep_view().len() && out.deep_view()[i] == id;
                            if i < pre_dv.len() {
                                assert(pre_dv[i] == id);
                            }
                        }
                        assert forall|id: Seq<u8>| (key_list_contains(pre_dv, id) || id
                            == kv) implies #[trigger] key_list_contains(out.deep_view(), id) by {
                            if key_list_contains(pre_dv, id) {
                                let i = choose|i: int|
                                    0 <= i < pre_dv.len() && pre_dv[i] == id;
                                assert(out.deep_view()[i] == id);
                            } else {
                                assert(out.deep_view()[pre_dv.len() as int] == id);
                            }
                        }
                        assert forall|i: int| 0 <= i < pre_dv.len() implies pre_dv[i] != kv by {
                            if pre_dv[i] == kv {
                                assert(key_list_contains(pre_dv, kv));
                            }
                        }
                        assert forall|id: Seq<u8>| #[trigger] key_list_contains(
                            out.deep_view(),
                            id,
                        ) implies (exists|j: int|
                            0 <= j < idx + 1 && parsed_key(
                                #[trigger] items@.take(idx as int + 1)[j]@,
                            ) == Some(id)) by {
                            if key_list_contains(pre_dv, id) {
                                let j = choose|j: int|
                                    0 <= j < idx && parsed_key(
                                        #[trigger] items@.take(idx as int)[j]@,
                                    ) == Some(id);
                                assert(parsed_key(items@.take(idx as int + 1)[j]@) == Some(id));
                            } else {
                                assert(parsed_key(items@.take(idx as int + 1)[idx as int]@)
                                    == Some(id));
                            }
                        }
                        assert forall|id: Seq<u8>| (exists|j: int|
                            0 <= j < idx + 1 && parsed_key(
                                #[trigger] items@.take(idx as int + 1)[j]@,
                            ) == Some(id)) implies key_list_contains(out.deep_view(), id) by {
                            let j = choose|j: int|
                                0 <= j < idx + 1 && parsed_key(
                                    #[trigger] items@.take(idx as int + 1)[j]@,
                                ) == Some(id);
                            if j < idx {
                                assert(parsed_key(items@.take(idx as int)[j]@) == Some(id));
                                assert(key_list_contains(pre_dv, id));
                            } else {
                                assert(id == kv);
                            }
                        }
                    }
                } else {
                    proof {
                        assert forall|id: Seq<u8>| #[trigger] key_list_contains(
                            out.deep_view(),
                            id,
                        ) implies (exists|j: int|
                            0 <= j < idx + 1 && parsed_key(
                                #[trigger] items@.take(idx as int + 1)[j]@,
                            ) == Some(id)) by {
                            let j = choose|j: int|
                                0 <= j < idx && parsed_key(
                                    #[trigger] items@.take(idx as int)[j]@,
                                ) == Some(id);
                            assert(parsed_key(items@.take(idx as int + 1)[j]@) == Some(id));
                        }
                        assert forall|id: Seq<u8>| (exists|j: int|
                            0 <= j < idx + 1 && parsed_key(
                                #[trigger] items@.take(idx as int + 1)[j]@,
                            ) == Some(id)) implies key_list_contains(out.deep_view(), id) by {
                            let j = choose|j: int|
                                0 <= j < idx + 1 && parsed_key(
                                    #[trigger] items@.take(idx as int + 1)[j]@,
                                ) == Some(id);
                            if j < idx {
                                assert(parsed_key(items@.take(idx as int)[j]@) == Some(id));
                            } else {
                                assert(id == key@);
                                assert(key_list_contains(out.deep_view(), key@));
                            }
                        }
                    }
                }
            },
            None => {
                proof {
                    assert forall|id: Seq<u8>| #[trigger] key_list_contains(
                        out.deep_view(),
                        id,
                    ) implies (exists|j: int|
                        0 <= j < idx + 1 && parsed_key(
                            #[trigger] items@.take(idx as int + 1)[j]@,
                        ) == Some(id)) by {
                        let j = choose|j: int|
                            0 <= j < idx && parsed_key(
                                #[trigger] items@.take(idx as int)[j]@,
                            ) == Some(id);
                        assert(parsed_key(items@.take(idx as int + 1)[j]@) == Some(id));
                    }
                    assert forall|id: Seq<u8>| (exists|j: int|
                        0 <= j < idx + 1 && parsed_key(
                            #[trigger] items@.take(idx as int + 1)[j]@,
                        ) == Some(id)) implies key_list_contains(out.deep_view(), id) by {
                        let j = choose|j: int|
                            0 <= j < idx + 1 && parsed_key(
                                #[trigger] items@.take(idx as int + 1)[j]@,
                            ) == Some(id);
                        assert(j < idx);
                        assert(parsed_key(items@.take(idx as int)[j]@) == Some(id));
                    }
                }
            },
        }
        idx = idx + 1;
    }
    proof {
        assert(items@.take(idx as int) =~= items@);
    }
    out
}

/// Byte-for-byte equality of two slices.
pub fn bytes_eq(a: &[u8], b: &[u8]) -> (r: bool)
    ensures
        r == (a@ == b@),
{
    if a.len() != b.len() {
        return false;
    }
    let mut i: usize = 0;
    while i < a.len()
        invariant
            0 <= i <= a@.len(),
            a@.len() == b@.len(),
            forall|j: int| 0 <= j < i ==> a@[j] == b@[j],
        decreases a@.len() - i,
    {
        if a[i] != b[i] {
            return false;
        }
        i = i + 1;
    }
    proof {
        assert(a@ =~= b@);
    }
    true
}

/// Linear membership test of `id` in a list of keys.
pub fn key_list_has(keys: &Vec<Vec<u8>>, id: &[u8]) -> (r: bool)
    ensures
        r == key_list_contains(keys.deep_view(), id@),
{
    let mut i: usize = 0;
    while i < keys.len()
        invariant
            0 <= i <= keys@.len(),
            forall|j: int| 0 <= j < i ==> keys.deep_view()[j] != id@,
        decreases keys@.len() - i,
    {
        proof {
            assert(keys.deep_view()[i as int] =~= keys@[i as int]@);
        }
        if bytes_eq(keys[i].as_slice(), id) {
            return true;
        }
        i = i + 1;
    }
    false
}

/// Decides which events are published: identifier sets for programs and
/// accounts, transaction toggles, destination topics and the wire mode.
pub struct Filter {
    pub publish_all_accounts: bool,
    pub program_ignores: Vec<Vec<u8>>,
    pub account_ignores: Vec<Vec<u8>>,
    pub program_filters: Vec<Vec<u8>>,
    pub account_filters: Vec<Vec<u8>>,
    pub include_vote_transactions: bool,
    pub include_failed_transactions: bool,
    pub update_account_topic: String,
    pub slot_status_topic: String,
    pub transaction_topic: String,
    pub wrap_messages: bool,
}

impl Filter {
    /// All four identifier lists hold only 32-byte keys, each once.
    pub open spec fn wf(&self) -> bool {
        &&& keys_well_formed(self.program_ignores.deep_view())
        &&& keys_well_formed(self.account_ignores.deep_view())
        &&& keys_well_formed(self.program_filters.deep_view())
        &&& keys_well_formed(self.account_filters.deep_view())
        &&& keys_unique(self.program_ignores.deep_view())
        &&& keys_unique(self.account_ignores.deep_view())
        &&& keys_unique(self.program_filters.deep_view())
        &&& keys_unique(self.account_filters.deep_view())
    }

    /// Build the filter from one configuration block: parse each base58
    /// identifier list into its set of 32-byte keys, skipping entries
    /// that denote no key, and copy the toggles and topic names.
    pub fn new(config: &ConfigFilter) -> (r: Filter)
        ensures
            r.wf(),
            r.publish_all_accounts == config.publish_all_accounts,
            r.include_vote_transactions == config.include_vote_transactions,
            r.include_failed_transactions == config.include_failed_transactions,
            r.wrap_messages == config.wrap_messages,
            r.update_account_topic@ == config.update_account_topic@,
            r.slot_status_topic@ == config.slot_status_topic@,
            r.transaction_topic@ == config.transaction_topic@,
            list_denotes(r.program_ignores.deep_view(), config.program_ignores@),
            list_denotes(r.account_ignores.deep_view(), config.account_ignores@),
            list_denotes(r.program_filters.deep_view(), config.program_filters@),
            list_denotes(r.account_filters.deep_view(), config.account_filters@),
    {
        Filter {
            publish_all_accounts: config.publish_all_accounts,
            program_ignores: parse_key_list(&config.program_ignores),
            account_ignores: parse_key_list(&config.account_ignores),
            program_filters: parse_key_list(&config.program_filters),
            account_filters: parse_key_list(&config.account_filters),
            include_vote_transactions: config.include_vote_transactions,
            include_failed_transactions: config.include_failed_transactions,
            update_account_topic: config.update_account_topic.clone(),
            slot_status_topic: config.slot_status_topic.clone(),
            transaction_topic: config.transaction_topic.clone(),
            wrap_messages: config.wrap_messages,
        }
    }

    pub fn wants_program(&self, program: &[u8]) -> (r: bool)
        ensures
            r == spec_wants_key(
                self.program_ignores.deep_view(),
                self.program_filters.deep_view(),
                program@,
            ),
    {
        if program.len() != 32 {
            return false;
        }
        !key_list_has(&self.program_ignores, program) && (self.program_filters.len() == 0
            || key_list_has(&self.program_filters, program))
    }

    pub fn wants_account(&self, account: &[u8]) -> (r: bool)
        ensures
            r == spec_wants_key(
                self.account_ignores.deep_view(),
                self.account_filters.deep_view(),
                account@,
            ),
    {
        if account.len() != 32 {
            return false;
        }
        !key_list_has(&self.account_ignores, account) && (self.account_filters.len() == 0
            || key_list_has(&self.account_filters, account))
    }

    pub fn wants_vote_tx(&self) -> (r: bool)
        ensures
            r == self.include_vote_transactions,
    {
        self.include_vote_transactions
    }

    pub fn wants_failed_tx(&self) -> (r: bool)
        ensures
            r == self.include_failed_transactions,
    {
        self.include_failed_transactions
    }

    pub fn has_account_topic(&self) -> (r: bool)
        ensures
            r == (self.update_account_topic@.len() != 0),
    {
        !self.update_account_topic.as_str().is_empty()
    }

    pub fn has_slot_topic(&self) -> (r: bool)
        ensures
            r == (self.slot_status_topic@.len() != 0),
    {
        !self.slot_status_topic.as_str().is_empty()
    }

    pub fn has_transaction_topic(&self) -> (r: bool)
        ensures
            r == (self.transaction_topic@.len() != 0),
    {
        !self.transaction_topic.as_str().is_empty()
    }
}

/// Law: an ignored identifier is never wanted, no matter what the
/// allow-list holds.  This covers both the program and the account rule,
/// which share `spec_wants_key`.
pub proof fn lemma_ignored_key_never_wanted(
    ignores: Seq<Seq<u8>>,
    allows: Seq<Seq<u8>>,
    id: Seq<u8>,
)
    requires
        key_list_contains(ignores, id),
    ensures
        !spec_wants_key(ignores, allows, id),
{
}

/// Law: with an empty allow-list, every 32-byte identifier that is not
/// ignored is wanted.
pub proof fn lemma_empty_allow_list_wants_all(
    ignores: Seq<Seq<u8>>,
    allows: Seq<Seq<u8>>,
    id: Seq<u8>,
)
    requires
        id.len() == 32,
        !key_list_contains(ignores, id),
        allows.len() == 0,
    ensures
        spec_wants_key(ignores, allows, id),
{
}

/// Law: with a non-empty allow-list, a 32-byte identifier that is not
/// ignored is wanted exactly when the allow-list holds it.
pub proof fn lemma_allow_list_decides(ignores: Seq<Seq<u8>>, allows: Seq<Seq<u8>>, id: Seq<u8>)
    requires
        id.len() == 32,
        !key_list_contains(ignores, id),
        allows.len() != 0,
    ensures
        spec_wants_key(ignores, allows, id) == key_list_contains(allows, id),
{
}

} // verus!
