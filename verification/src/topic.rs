//! Substring matching on topic names.  The decode fallback selects the
//! raw schema to try by looking for a kind word inside the topic name.

use vstd::prelude::*;

verus! {

/// `needle` occurs contiguously somewhere inside `hay`.
pub open spec fn contains_sub(hay: Seq<char>, needle: Seq<char>) -> bool {
    exists|k: int|
        0 <= k && k + needle.len() <= hay.len() && #[trigger] hay.subrange(
            k,
            k + needle.len() as int,
        ) == needle
}

/// The kind word that selects the raw account schema.
pub open spec fn account_word() -> Seq<char> {
    seq!['a', 'c', 'c', 'o', 'u', 'n', 't']
}

/// The kind word that selects the raw slot-status schema.
pub open spec fn slot_word() -> Seq<char> {
    seq!['s', 'l', 'o', 't']
}

/// The kind word that selects the raw transaction schema.
pub open spec fn transaction_word() -> Seq<char> {
    seq!['t', 'r', 'a', 'n', 's', 'a', 'c', 't', 'i', 'o', 'n']
}

/// Whether `needle` occurs inside `hay`, by scanning every start position.
pub fn str_contains_sub(hay: &str, needle: &str) -> (r: bool)
    ensures
        r == contains_sub(hay@, needle@),
{
    let n = hay.unicode_len();
    let m = needle.unicode_len();
    if m > n {
        return false;
    }
    if m == 0 {
        proof {
            assert(hay@.subrange(0, 0 + needle@.len() as int) =~= needle@);
        }
        return true;
    }
    let mut k: usize = 0;
    while k <= n - m
        invariant
            1 <= m <= n,
            n == hay@.len(),
            m == needle@.len(),
            0 <= k <= n - m + 1,
            forall|x: int|
                0 <= x < k ==> #[trigger] hay@.subrange(x, x + needle@.len() as int) != needle@,
        decreases n - m + 1 - k,
    {
        let mut t: usize = 0;
        let mut matched = true;
        while t < m
            invariant_except_break
                matched,
            invariant
                0 <= t <= m,
                k + m <= n,
                n == hay@.len(),
                m == needle@.len(),
                forall|y: int| 0 <= y < t ==> #[trigger] hay@[k + y] == needle@[y],
            ensures
                matched ==> t == m,
                matched ==> forall|y: int| 0 <= y < t ==> #[trigger] hay@[k + y] == needle@[y],
                !matched ==> hay@.subrange(k as int, k as int + needle@.len() as int) != needle@,
            decreases m - t,
        {
            if hay.get_char(k + t) != needle.get_char(t) {
                proof {
                    assert(hay@.subrange(k as int, k as int + needle@.len() as int)[t as int]
                        == hay@[k + t]);
                }
                matched = false;
                break;
            }
            t = t + 1;
        }
        if matched {
            proof {
                assert forall|j: int| 0 <= j < needle@.len() implies hay@.subrange(
                    k as int,
                    k as int + needle@.len() as int,
                )[j] == needle@[j] by {
                    assert(hay@[k + j] == needle@[j]);
                }
                assert(hay@.subrange(k as int, k as int + needle@.len() as int) =~= needle@);
            }
            return true;
        }
        k = k + 1;
    }
    false
}

/// Character-for-character equality of two strings.
pub fn str_eq(a: &str, b: &str) -> (r: bool)
    ensures
        r == (a@ == b@),
{
    let n = a.unicode_len();
    let m = b.unicode_len();
    if n != m {
        return false;
    }
    let mut i: usize = 0;
    while i < n
        invariant
            0 <= i <= n,
            n == a@.len(),
            n == b@.len(),
            forall|j: int| 0 <= j < i ==> a@[j] == b@[j],
        decreases n - i,
    {
        if a.get_char(i) != b.get_char(i) {
            return false;
        }
        i = i + 1;
    }
    proof {
        assert(a@ =~= b@);
    }
    true
}

/// Whether the topic selects the raw account schema.
pub fn topic_matches_account(topic: &str) -> (r: bool)
    ensures
        r == contains_sub(topic@, account_word()),
{
    let r = str_contains_sub(topic, "account");
    proof {
        reveal_strlit("account");
        assert("account"@ =~= account_word());
    }
    r
}

/// Whether the topic selects the raw slot-status schema.
pub fn topic_matches_slot(topic: &str) -> (r: bool)
    ensures
        r == contains_sub(topic@, slot_word()),
{
    let r = str_contains_sub(topic, "slot");
    proof {
        reveal_strlit("slot");
        assert("slot"@ =~= slot_word());
    }
    r
}

/// Whether the topic selects the raw transaction schema.
pub fn topic_matches_transaction(topic: &str) -> (r: bool)
    ensures
        r == contains_sub(topic@, transaction_word()),
{
    let r = str_contains_sub(topic, "transaction");
    proof {
        reveal_strlit("transaction");
        assert("transaction"@ =~= transaction_word());
    }
    r
}

} // verus!
